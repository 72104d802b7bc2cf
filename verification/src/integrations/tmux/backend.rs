//! tmux behind its command line.
use vstd::prelude::*;
use vstd::string::*;
use crate::domain::{argv_read, argv_words, ArgvRead};
use crate::encoding::{strict_text, text_from_utf8};
use crate::error::{error_of, seen, ErrorCategory, WorkstateError, WorkstateErrorView};
use crate::ports::{
    ProcessOutput, ProcessOutputView, ProcessRequest, ProcessRequestView, TmuxSessionSnapshot,
    TmuxSessionSnapshotView, TmuxWindowRequest, TmuxWindowRequestView, TmuxWindowSnapshot,
    TmuxWindowSnapshotView,
};
use crate::text::{
    chars_of, decimal, has_control, has_white, is_white, join2, join3, joined,
    law_joined_parts_are_split_again, lemma_before_total, lemma_before_transitive,
    lemma_rfind_before, lines, occurs_at, parse_unsigned, rfind, rsplit_once, same_text, split_on,
    text_before, text_decimal, text_is_before, text_join, text_lines, text_parse_unsigned, text_split,
};
use crate::time::{span_of_millis, TimeSpan};
use crate::values::{
    append, append_all, append_text, empty_list, lemma_filter_ends, lemma_filter_step, list_of,
    text_list2, text_list3, text_list4, Replicate,
};
use super::errors::{
    command_failed, failure, invalid_utf8, lacks_server, lacks_target, malformed, malformed_data,
    missing_target, never_ready, no_server, not_utf8, operation_error, operation_failure,
    readiness_timeout,
};
use super::models::{
    any_bad_entry, any_control, bad_entry, identity_checked, name_checked, process_checked, validate_identity, validate_name,
    validate_process,
};

verus! {

/// The pause between two looks for a window, in milliseconds.
pub const READY_POLL_MILLIS: u64 = 20;

/// tmux behind the given executable.
#[derive(Debug, Clone, PartialEq, Eq)]
pub struct TmuxProcessBackend {
    pub executable: String,
}

/// What a `TmuxProcessBackend` stands for.
#[verifier::ext_equal]
pub struct TmuxProcessBackendView {
    pub executable: Seq<char>,
}

impl View for TmuxProcessBackend {
    type V = TmuxProcessBackendView;

    open spec fn view(&self) -> TmuxProcessBackendView {
        TmuxProcessBackendView {
            executable: self.executable.deep_view(),
        }
    }
}

impl DeepView for TmuxProcessBackend {
    type V = TmuxProcessBackendView;

    open spec fn deep_view(&self) -> TmuxProcessBackendView {
        self.view()
    }
}

impl Replicate for TmuxProcessBackend {
    fn replicate(&self) -> (r: Self) {
        TmuxProcessBackend {
            executable: self.executable.replicate(),
        }
    }
}

// ---------------------------------------------------------------------------------------------
// Command lines
// ---------------------------------------------------------------------------------------------
/// A text within single quotes: each single quote closes them, stands behind a backslash, and opens
/// them again.
pub open spec fn escaped(text: Seq<char>) -> Seq<char>
    decreases text.len(),
{
    if text.len() == 0 {
        Seq::empty()
    } else if text.last() == '\'' {
        escaped(text.drop_last()) + seq!['\'', '\\', '\'', '\'']
    } else {
        escaped(text.drop_last()).push(text.last())
    }
}

/// A text as one word of a shell.
pub open spec fn quoted(text: Seq<char>) -> Seq<char> {
    seq!['\''] + escaped(text) + seq!['\'']
}

/// A text as one word of a shell.
pub fn shell_quote(value: &str) -> (r: String)
    ensures
        r@ == quoted(value@),
{
    let chars = chars_of(value);
    let mut r: String = String::new();
    r.push('\'');
    let mut i: usize = 0;
    assert(value@.take(0) =~= Seq::<char>::empty());
    assert(r@ =~= seq!['\''] + escaped(value@.take(0)));
    while i < chars.len()
        invariant
            i <= chars@.len(),
            chars@ == value@,
            r@ == seq!['\''] + escaped(value@.take(i as int)),
        decreases chars@.len() - i,
    {
        assert(value@.take(i as int + 1).drop_last() =~= value@.take(i as int));
        let ghost before = r@;
        if chars[i] == '\'' {
            r.push('\'');
            r.push('\\');
            r.push('\'');
            r.push('\'');
            assert(r@ =~= before + seq!['\'', '\\', '\'', '\'']);
        } else {
            r.push(chars[i]);
        }
        i = i + 1;
        assert(r@ =~= seq!['\''] + escaped(value@.take(i as int)));
    }
    assert(value@.take(i as int) =~= value@);
    r.push('\'');
    assert(r@ =~= quoted(value@));
    r
}

/// The texts, each as one word of a shell.
pub open spec fn all_quoted(texts: Seq<Seq<char>>) -> Seq<Seq<char>> {
    texts.map_values(|text: Seq<char>| quoted(text))
}

/// An entry of an environment as one word of a shell.
pub open spec fn entry_quoted(entry: (Seq<char>, Seq<char>)) -> Seq<char> {
    quoted(entry.0) + "="@ + quoted(entry.1)
}

/// The words that set an environment, where there is one.
pub open spec fn environment_words(entries: Seq<(Seq<char>, Seq<char>)>) -> Seq<Seq<char>> {
    if entries.len() == 0 {
        Seq::empty()
    } else {
        seq!["env"@, "--"@] + entries.map_values(
            |entry: (Seq<char>, Seq<char>)| entry_quoted(entry),
        )
    }
}

/// The words of the command line of a process.
pub open spec fn process_words(request: ProcessRequestView) -> Seq<Seq<char>> {
    environment_words(request.environment).push(quoted(request.program)) + all_quoted(
        request.arguments,
    )
}

/// The command line of a process that tmux can be handed.
pub open spec fn process_rendered(request: ProcessRequestView) -> Result<
    Seq<char>,
    WorkstateErrorView,
> {
    match process_checked(request) {
        Err(error) => Err(error),
        Ok(_) => Ok(joined(process_words(request), " "@)),
    }
}

fn quote_all(texts: &Vec<String>) -> (r: Vec<String>)
    ensures
        r.deep_view() == all_quoted(texts.deep_view()),
{
    let mut r: Vec<String> = empty_list();
    let mut i: usize = 0;
    let ghost all = texts.deep_view();
    let ghost convert = |text: Seq<char>| quoted(text);
    assert(all.take(0).map_values(convert) =~= Seq::<Seq<char>>::empty());
    while i < texts.len()
        invariant
            i <= texts@.len(),
            all == texts.deep_view(),
            convert == (|text: Seq<char>| quoted(text)),
            r.deep_view() == all.take(i as int).map_values(convert),
        decreases texts@.len() - i,
    {
        assert(all[i as int] == texts@[i as int]@);
        append(&mut r, shell_quote(texts[i].as_str()));
        assert(all.take(i as int + 1).map_values(convert) =~= all.take(i as int).map_values(
            convert,
        ).push(convert(all[i as int])));
        i = i + 1;
    }
    assert(all.take(i as int) =~= all);
    r
}

fn words_of_environment(entries: &Vec<(String, String)>) -> (r: Vec<String>)
    ensures
        r.deep_view() == environment_words(entries.deep_view()),
{
    let ghost all = entries.deep_view();
    assert(all.len() == entries@.len());
    if entries.len() == 0 {
        return empty_list();
    }
    let mut r = text_list2("env", "--");
    let mut i: usize = 0;
    let ghost start = seq!["env"@, "--"@];
    let ghost convert = |entry: (Seq<char>, Seq<char>)| entry_quoted(entry);
    assert(r.deep_view() =~= start + all.take(0).map_values(convert));
    while i < entries.len()
        invariant
            i <= entries@.len(),
            all == entries.deep_view(),
            start == seq!["env"@, "--"@],
            convert == (|entry: (Seq<char>, Seq<char>)| entry_quoted(entry)),
            r.deep_view() == start + all.take(i as int).map_values(convert),
        decreases entries@.len() - i,
    {
        assert(all[i as int] == (entries@[i as int].0@, entries@[i as int].1@));
        let key = shell_quote(entries[i].0.as_str());
        let value = shell_quote(entries[i].1.as_str());
        let ghost before = r.deep_view();
        append(&mut r, join3(key.as_str(), "=", value.as_str()));
        assert(r.deep_view() =~= start + all.take(i as int + 1).map_values(convert));
        i = i + 1;
    }
    assert(all.take(i as int) =~= all);
    r
}

/// The command line of a process that tmux can be handed.
pub fn render_process(request: &ProcessRequest) -> (r: Result<String, WorkstateError>)
    ensures
        seen(r) == process_rendered(request@),
{
    if let Err(error) = validate_process(request) {
        return Err(error);
    }
    let mut parts = words_of_environment(&request.environment);
    append(&mut parts, shell_quote(request.program.as_str()));
    append_all(&mut parts, quote_all(&request.arguments));
    Ok(text_join(&parts, " "))
}

// ---------------------------------------------------------------------------------------------
// Sessions
// ---------------------------------------------------------------------------------------------
pub open spec fn text_unless_empty(text: Seq<char>) -> Option<Seq<char>> {
    if text.len() == 0 {
        None
    } else {
        Some(text)
    }
}

fn unless_empty(text: &String) -> (r: Option<String>)
    ensures
        r.deep_view() == text_unless_empty(text@),
{
    if text.as_str().is_empty() {
        None
    } else {
        Some(text.clone())
    }
}

/// The identities of a line, in the order of the checks.
pub open spec fn line_identities_checked(fields: Seq<Seq<char>>) -> Result<(), WorkstateErrorView> {
    match identity_checked("session"@, fields[0]) {
        Err(error) => Err(error),
        Ok(_) => match identity_checked("session"@, fields[1]) {
            Err(error) => Err(error),
            Ok(_) => match identity_checked("window"@, fields[2]) {
                Err(error) => Err(error),
                Ok(_) => identity_checked("window"@, fields[3]),
            },
        },
    }
}

/// The process of a pane, where it has one.
pub open spec fn pane_process(field: Seq<char>) -> Result<Option<u32>, WorkstateErrorView> {
    if field.len() == 0 {
        Ok(None)
    } else {
        match parse_unsigned(field, u32::MAX as nat) {
            Some(number) => Ok(Some(number as u32)),
            None => Err(
                malformed("pane PID '"@ + field + "' is not an unsigned integer"@),
            ),
        }
    }
}

/// Whether a pane is dead.
pub open spec fn pane_dead(field: Seq<char>) -> Result<bool, WorkstateErrorView> {
    if field == "0"@ {
        Ok(false)
    } else if field == "1"@ {
        Ok(true)
    } else {
        Err(malformed("pane dead flag '"@ + field + "' is not 0 or 1"@))
    }
}

/// A window of the list, with the session that it belongs to.
#[derive(Debug, Clone, PartialEq, Eq)]
pub struct TmuxLine {
    pub session_identity: String,
    pub session_name: String,
    pub window: TmuxWindowSnapshot,
}

/// What a `TmuxLine` stands for.
#[verifier::ext_equal]
pub struct TmuxLineView {
    pub session_identity: Seq<char>,
    pub session_name: Seq<char>,
    pub window: TmuxWindowSnapshotView,
}

impl View for TmuxLine {
    type V = TmuxLineView;

    open spec fn view(&self) -> TmuxLineView {
        TmuxLineView {
            session_identity: self.session_identity.deep_view(),
            session_name: self.session_name.deep_view(),
            window: self.window.deep_view(),
        }
    }
}

impl DeepView for TmuxLine {
    type V = TmuxLineView;

    open spec fn deep_view(&self) -> TmuxLineView {
        self.view()
    }
}

/// What a line of the list says.
pub open spec fn line_read(line: Seq<char>) -> Result<TmuxLineView, WorkstateErrorView> {
    let fields = split_on(line, '\t');
    if fields.len() != 9 {
        Err(malformed("expected 9 tab-separated fields, received "@ + decimal(fields.len())))
    } else {
        match line_identities_checked(fields) {
            Err(error) => Err(error),
            Ok(_) => match pane_process(fields[7]) {
                Err(error) => Err(error),
                Ok(process_id) => match pane_dead(fields[8]) {
                    Err(error) => Err(error),
                    Ok(is_dead) => Ok(
                        TmuxLineView {
                            session_identity: fields[0],
                            session_name: fields[1],
                            window: TmuxWindowSnapshotView {
                                identity: fields[2],
                                name: fields[3],
                                command: text_unless_empty(fields[4]),
                                start_command: text_unless_empty(fields[5]),
                                working_directory: text_unless_empty(fields[6]),
                                process_id,
                                is_dead,
                            },
                        },
                    ),
                },
            },
        }
    }
}

/// The sessions, in the order of their identities, with one more window.
pub open spec fn window_added(sessions: Seq<TmuxSessionSnapshotView>, line: TmuxLineView) -> Result<
    Seq<TmuxSessionSnapshotView>,
    WorkstateErrorView,
>
    decreases sessions.len(),
{
    let fresh = TmuxSessionSnapshotView {
        identity: line.session_identity,
        name: line.session_name,
        windows: seq![line.window],
    };
    if sessions.len() == 0 {
        Ok(seq![fresh])
    } else {
        let last = sessions.last();
        if last.identity == line.session_identity {
            if last.name != line.session_name {
                Err(malformed("one session identity was reported with multiple names"@))
            } else {
                Ok(
                    sessions.drop_last().push(
                        TmuxSessionSnapshotView {
                            windows: last.windows.push(line.window),
                            ..last
                        },
                    ),
                )
            }
        } else if text_before(line.session_identity, last.identity) {
            match window_added(sessions.drop_last(), line) {
                Err(error) => Err(error),
                Ok(earlier) => Ok(earlier.push(last)),
            }
        } else {
            Ok(sessions.push(fresh))
        }
    }
}

/// The sessions that the lines list, the first line that is refused deciding. Empty lines say
/// nothing.
pub open spec fn lines_read(texts: Seq<Seq<char>>) -> Result<
    Seq<TmuxSessionSnapshotView>,
    WorkstateErrorView,
>
    decreases texts.len(),
{
    if texts.len() == 0 {
        Ok(Seq::empty())
    } else {
        match lines_read(texts.drop_last()) {
            Err(error) => Err(error),
            Ok(earlier) => if texts.last().len() == 0 {
                Ok(earlier)
            } else {
                match line_read(texts.last()) {
                    Err(error) => Err(error),
                    Ok(line) => window_added(earlier, line),
                }
            },
        }
    }
}

/// The sessions that tmux lists.
pub open spec fn sessions_read(bytes: Seq<u8>) -> Result<
    Seq<TmuxSessionSnapshotView>,
    WorkstateErrorView,
> {
    match strict_text(bytes) {
        Err(text) => Err(not_utf8(text)),
        Ok(text) => lines_read(lines(text)),
    }
}

fn validate_line_identities(fields: &Vec<String>) -> (r: Result<(), WorkstateError>)
    requires
        fields@.len() == 9,
    ensures
        seen(r) == line_identities_checked(fields.deep_view()),
{
    assert(fields.deep_view()[0] == fields@[0]@);
    assert(fields.deep_view()[1] == fields@[1]@);
    assert(fields.deep_view()[2] == fields@[2]@);
    assert(fields.deep_view()[3] == fields@[3]@);
    if let Err(error) = validate_identity("session", fields[0].as_str()) {
        return Err(error);
    }
    if let Err(error) = validate_identity("session", fields[1].as_str()) {
        return Err(error);
    }
    if let Err(error) = validate_identity("window", fields[2].as_str()) {
        return Err(error);
    }
    validate_identity("window", fields[3].as_str())
}

fn read_process(field: &str) -> (r: Result<Option<u32>, WorkstateError>)
    ensures
        seen(r) == pane_process(field@),
{
    if field.is_empty() {
        return Ok(None);
    }
    match text_parse_unsigned(field, 4_294_967_295) {
        Some(number) => Ok(Some(number as u32)),
        None => Err(
            malformed_data(join3("pane PID '", field, "' is not an unsigned integer").as_str()),
        ),
    }
}

fn read_dead(field: &str) -> (r: Result<bool, WorkstateError>)
    ensures
        seen(r) == pane_dead(field@),
{
    if same_text(field, "0") {
        Ok(false)
    } else if same_text(field, "1") {
        Ok(true)
    } else {
        Err(malformed_data(join3("pane dead flag '", field, "' is not 0 or 1").as_str()))
    }
}

fn read_line(line: &str) -> (r: Result<TmuxLine, WorkstateError>)
    ensures
        seen(r) == line_read(line@),
{
    let fields = text_split(line, '\t');
    assert(fields.deep_view().len() == fields@.len());
    if fields.len() != 9 {
        return Err(
            malformed_data(
                join2(
                    "expected 9 tab-separated fields, received ",
                    text_decimal(fields.len() as u128).as_str(),
                ).as_str(),
            ),
        );
    }
    if let Err(error) = validate_line_identities(&fields) {
        return Err(error);
    }
    assert(forall|i: int| 0 <= i < 9 ==> fields.deep_view()[i] == (#[trigger] fields@[i])@);
    let process_id = match read_process(fields[7].as_str()) {
        Err(error) => {
            return Err(error);
        },
        Ok(process_id) => process_id,
    };
    let is_dead = match read_dead(fields[8].as_str()) {
        Err(error) => {
            return Err(error);
        },
        Ok(is_dead) => is_dead,
    };
    Ok(
        TmuxLine {
            session_identity: fields[0].clone(),
            session_name: fields[1].clone(),
            window: TmuxWindowSnapshot {
                identity: fields[2].clone(),
                name: fields[3].clone(),
                command: unless_empty(&fields[4]),
                start_command: unless_empty(&fields[5]),
                working_directory: unless_empty(&fields[6]),
                process_id,
                is_dead,
            },
        },
    )
}

fn add_window(sessions: Vec<TmuxSessionSnapshot>, line: TmuxLine) -> (r: Result<
    Vec<TmuxSessionSnapshot>,
    WorkstateError,
>)
    ensures
        seen(r) == window_added(sessions.deep_view(), line@),
    decreases sessions@.len(),
{
    let ghost all = sessions.deep_view();
    let mut front = sessions;
    match front.pop() {
        None => {
            assert(all =~= Seq::empty());
            Ok(
                list_of(
                    TmuxSessionSnapshot {
                        identity: line.session_identity,
                        name: line.session_name,
                        windows: list_of(line.window),
                    },
                ),
            )
        },
        Some(last) => {
            assert(front.deep_view() =~= all.drop_last());
            assert(all.last() == last@);
            if same_text(last.identity.as_str(), line.session_identity.as_str()) {
                if !same_text(last.name.as_str(), line.session_name.as_str()) {
                    return Err(
                        malformed_data("one session identity was reported with multiple names"),
                    );
                }
                let mut windows = last.windows;
                append(&mut windows, line.window);
                append(
                    &mut front,
                    TmuxSessionSnapshot { identity: last.identity, name: last.name, windows },
                );
                Ok(front)
            } else if text_is_before(line.session_identity.as_str(), last.identity.as_str()) {
                match add_window(front, line) {
                    Err(error) => Err(error),
                    Ok(earlier) => {
                        let mut r = earlier;
                        append(&mut r, last);
                        Ok(r)
                    },
                }
            } else {
                append(&mut front, last);
                assert(front.deep_view() =~= all);
                append(
                    &mut front,
                    TmuxSessionSnapshot {
                        identity: line.session_identity,
                        name: line.session_name,
                        windows: list_of(line.window),
                    },
                );
                Ok(front)
            }
        },
    }
}

fn read_lines(texts: &Vec<String>) -> (r: Result<Vec<TmuxSessionSnapshot>, WorkstateError>)
    ensures
        seen(r) == lines_read(texts.deep_view()),
{
    let mut result: Result<Vec<TmuxSessionSnapshot>, WorkstateError> = Ok(empty_list());
    let mut i: usize = 0;
    let ghost all = texts.deep_view();
    assert(all.take(0) =~= Seq::<Seq<char>>::empty());
    while i < texts.len()
        invariant
            i <= texts@.len(),
            all == texts.deep_view(),
            seen(result) == lines_read(all.take(i as int)),
        decreases texts@.len() - i,
    {
        assert(all[i as int] == texts@[i as int]@);
        assert(all.take(i as int + 1).drop_last() =~= all.take(i as int));
        result = match result {
            Err(error) => Err(error),
            Ok(earlier) => if texts[i].as_str().is_empty() {
                Ok(earlier)
            } else {
                match read_line(texts[i].as_str()) {
                    Err(error) => Err(error),
                    Ok(line) => add_window(earlier, line),
                }
            },
        };
        i = i + 1;
    }
    assert(all.take(i as int) =~= all);
    result
}

/// The sessions that tmux lists.
pub fn parse_sessions(bytes: &[u8]) -> (r: Result<Vec<TmuxSessionSnapshot>, WorkstateError>)
    ensures
        seen(r) == sessions_read(bytes@),
{
    match text_from_utf8(bytes) {
        Err(text) => Err(invalid_utf8(text.as_str())),
        Ok(text) => read_lines(&text_lines(text.as_str())),
    }
}

// ---------------------------------------------------------------------------------------------
// Commands
// ---------------------------------------------------------------------------------------------
/// A command of tmux.
pub open spec fn tmux_request(executable: Seq<char>, arguments: Seq<Seq<char>>) -> ProcessRequestView {
    ProcessRequestView {
        program: executable,
        arguments,
        working_directory: None,
        environment: Seq::empty(),
    }
}

/// The list of all windows.
pub open spec fn list_arguments() -> Seq<Seq<char>> {
    seq![
        "list-windows"@,
        "-a"@,
        "-F"@,
        "#{session_id}\t#{session_name}\t#{window_id}\t#{window_name}\t#{pane_current_command}\t#{pane_start_command}\t#{pane_current_path}\t#{pane_pid}\t#{pane_dead}"@,
    ]
}

/// The command that opens a window, in a session of its own or in one that is there.
pub open spec fn create_arguments(
    create_session: bool,
    session: Seq<char>,
    window: TmuxWindowRequestView,
    command: Seq<char>,
) -> Seq<Seq<char>> {
    let start = if create_session {
        seq!["new-session"@, "-d"@, "-s"@, session]
    } else {
        seq!["new-window"@, "-d"@, "-t"@, session]
    };
    let named = start + seq!["-n"@, window.name];
    let placed = match window.process.working_directory {
        Some(directory) => named + seq!["-c"@, directory],
        None => named,
    };
    placed + seq!["--"@, command]
}

/// What a command printed, where it succeeded.
pub open spec fn executed(operation: Seq<char>, output: ProcessOutputView) -> Result<
    ProcessOutputView,
    WorkstateErrorView,
> {
    if output.success() {
        Ok(output)
    } else {
        Err(failure(operation, output))
    }
}

/// A command whose target may be gone already.
pub open spec fn executed_or_missing(operation: Seq<char>, output: ProcessOutputView) -> Result<
    (),
    WorkstateErrorView,
> {
    if output.success() || lacks_target(output) {
        Ok(())
    } else {
        Err(failure(operation, output))
    }
}

/// The sessions, once the list was printed; without a server there are none.
pub open spec fn sessions_observed(output: ProcessOutputView) -> Result<
    Seq<TmuxSessionSnapshotView>,
    WorkstateErrorView,
> {
    if output.success() {
        sessions_read(output.stdout)
    } else if lacks_server(output) {
        Ok(Seq::empty())
    } else {
        Err(failure("list-windows"@, output))
    }
}

/// The error of an executable without a path.
pub open spec fn executable_missing() -> WorkstateErrorView {
    error_of(ErrorCategory::Integration, "tmux executable path must be non-empty"@)
}

/// The command that closes a window.
pub open spec fn window_killed(executable: Seq<char>, session: Seq<char>, window: Seq<char>) -> Result<
    ProcessRequestView,
    WorkstateErrorView,
> {
    match name_checked("session"@, session) {
        Err(error) => Err(error),
        Ok(_) => match identity_checked("window"@, window) {
            Err(error) => Err(error),
            Ok(_) => Ok(
                tmux_request(
                    executable,
                    seq!["kill-window"@, "-t"@, session + ":"@ + window],
                ),
            ),
        },
    }
}

/// The command that closes a session.
pub open spec fn session_killed(executable: Seq<char>, session: Seq<char>) -> Result<
    ProcessRequestView,
    WorkstateErrorView,
> {
    match name_checked("session"@, session) {
        Err(error) => Err(error),
        Ok(_) => Ok(tmux_request(executable, seq!["kill-session"@, "-t"@, session])),
    }
}

impl TmuxProcessBackend {
    /// tmux behind the given executable; one without a path is refused.
    pub fn new(executable: String) -> (r: Result<Self, WorkstateError>)
        ensures
            seen(r) == (if executable@.len() == 0 {
                Err::<TmuxProcessBackendView, WorkstateErrorView>(executable_missing())
            } else {
                Ok(TmuxProcessBackendView { executable: executable@ })
            }),
    {
        if executable.as_str().is_empty() {
            return Err(
                WorkstateError::new(
                    ErrorCategory::Integration,
                    "tmux executable path must be non-empty",
                ),
            );
        }
        Ok(TmuxProcessBackend { executable })
    }

    /// The executable.
    pub fn executable(&self) -> (r: &String)
        ensures
            r@ == self@.executable,
    {
        &self.executable
    }

    fn request(&self, arguments: Vec<String>) -> (r: ProcessRequest)
        ensures
            r@ == tmux_request(self@.executable, arguments.deep_view()),
    {
        let environment: Vec<(String, String)> = Vec::new();
        assert(environment.deep_view() =~= Seq::<(Seq<char>, Seq<char>)>::empty());
        ProcessRequest {
            program: self.executable.clone(),
            arguments,
            working_directory: None,
            environment,
        }
    }

    /// What a command printed, where it could be run and succeeded.
    pub fn execute(&self, operation: &str, output: Result<ProcessOutput, WorkstateError>) -> (r: Result<
        ProcessOutput,
        WorkstateError,
    >)
        ensures
            seen(r) == (match seen(output) {
                Err(source) => Err(operation_failure(operation@, source)),
                Ok(output) => executed(operation@, output),
            }),
    {
        match output {
            Err(source) => Err(operation_error(operation, source)),
            Ok(output) => if output.succeeded() {
                Ok(output)
            } else {
                Err(command_failed(operation, &output))
            },
        }
    }

    /// A command whose target may be gone already.
    pub fn execute_allow_missing(
        &self,
        operation: &str,
        output: Result<ProcessOutput, WorkstateError>,
    ) -> (r: Result<(), WorkstateError>)
        ensures
            seen(r) == (match seen(output) {
                Err(source) => Err(operation_failure(operation@, source)),
                Ok(output) => executed_or_missing(operation@, output),
            }),
    {
        match output {
            Err(source) => Err(operation_error(operation, source)),
            Ok(output) => if output.succeeded() || missing_target(&output) {
                Ok(())
            } else {
                Err(command_failed(operation, &output))
            },
        }
    }

    /// The command that lists all windows.
    pub fn observe_request(&self) -> (r: ProcessRequest)
        ensures
            r@ == tmux_request(self@.executable, list_arguments()),
    {
        let arguments = text_list4(
            "list-windows",
            "-a",
            "-F",
            "#{session_id}\t#{session_name}\t#{window_id}\t#{window_name}\t#{pane_current_command}\t#{pane_start_command}\t#{pane_current_path}\t#{pane_pid}\t#{pane_dead}",
        );
        assert(arguments.deep_view() =~= list_arguments());
        self.request(arguments)
    }

    /// The sessions, once the list was printed.
    pub fn observe(&self, output: Result<ProcessOutput, WorkstateError>) -> (r: Result<
        Vec<TmuxSessionSnapshot>,
        WorkstateError,
    >)
        ensures
            seen(r) == (match seen(output) {
                Err(source) => Err(operation_failure("list-windows"@, source)),
                Ok(output) => sessions_observed(output),
            }),
    {
        match output {
            Err(source) => Err(operation_error("list-windows", source)),
            Ok(output) => if output.succeeded() {
                assert(output.stdout.deep_view() =~= output.stdout@);
                parse_sessions(output.stdout.as_slice())
            } else if no_server(&output) {
                Ok(empty_list())
            } else {
                Err(command_failed("list-windows", &output))
            },
        }
    }

    /// The command that closes a window.
    pub fn kill_window(&self, session_name: &str, window_identity: &str) -> (r: Result<
        ProcessRequest,
        WorkstateError,
    >)
        ensures
            seen(r) == window_killed(self@.executable, session_name@, window_identity@),
    {
        if let Err(error) = validate_name("session", session_name) {
            return Err(error);
        }
        if let Err(error) = validate_identity("window", window_identity) {
            return Err(error);
        }
        let target = join3(session_name, ":", window_identity);
        Ok(self.request(text_list3("kill-window", "-t", target.as_str())))
    }

    /// The command that closes a session.
    pub fn kill_session(&self, session_name: &str) -> (r: Result<ProcessRequest, WorkstateError>)
        ensures
            seen(r) == session_killed(self@.executable, session_name@),
    {
        if let Err(error) = validate_name("session", session_name) {
            return Err(error);
        }
        Ok(self.request(text_list3("kill-session", "-t", session_name)))
    }
}

// ---------------------------------------------------------------------------------------------
// Opening a window
// ---------------------------------------------------------------------------------------------
/// What the work is waiting for.
#[derive(Debug, Clone, Copy, PartialEq, Eq, Structural)]
pub enum WindowOpenPhase {
    Create,
    List,
    Rest,
    Over,
}

impl DeepView for WindowOpenPhase {
    type V = WindowOpenPhase;

    open spec fn deep_view(&self) -> WindowOpenPhase {
        *self
    }
}

impl Replicate for WindowOpenPhase {
    fn replicate(&self) -> (r: Self) {
        *self
    }
}

/// Opening a window, and waiting until it is there.
#[derive(Debug)]
pub struct WindowOpen {
    pub executable: String,
    pub operation: String,
    pub session_name: String,
    pub window_name: String,
    pub phase: WindowOpenPhase,
}

/// What a `WindowOpen` stands for.
#[verifier::ext_equal]
pub struct WindowOpenView {
    pub executable: Seq<char>,
    pub operation: Seq<char>,
    pub session_name: Seq<char>,
    pub window_name: Seq<char>,
    pub phase: WindowOpenPhase,
}

impl View for WindowOpen {
    type V = WindowOpenView;

    open spec fn view(&self) -> WindowOpenView {
        WindowOpenView {
            executable: self.executable.deep_view(),
            operation: self.operation.deep_view(),
            session_name: self.session_name.deep_view(),
            window_name: self.window_name.deep_view(),
            phase: self.phase.deep_view(),
        }
    }
}

impl DeepView for WindowOpen {
    type V = WindowOpenView;

    open spec fn deep_view(&self) -> WindowOpenView {
        self.view()
    }
}

impl Replicate for WindowOpen {
    fn replicate(&self) -> (r: Self) {
        WindowOpen {
            executable: self.executable.replicate(),
            operation: self.operation.replicate(),
            session_name: self.session_name.replicate(),
            window_name: self.window_name.replicate(),
            phase: self.phase.replicate(),
        }
    }
}

/// What the system replied. `late` tells whether the deadline has passed.
#[derive(Debug)]
pub enum WindowOpenEvent {
    Ran(ProcessOutput),
    Listed { output: ProcessOutput, late: bool },
    Rested,
    Failed(WorkstateError),
}

/// What a `WindowOpenEvent` stands for.
#[verifier::ext_equal]
pub enum WindowOpenEventView {
    Ran(ProcessOutputView),
    Listed { output: ProcessOutputView, late: bool },
    Rested,
    Failed(WorkstateErrorView),
}

impl View for WindowOpenEvent {
    type V = WindowOpenEventView;

    open spec fn view(&self) -> WindowOpenEventView {
        match self {
            WindowOpenEvent::Ran(value) => WindowOpenEventView::Ran(value.deep_view()),
            WindowOpenEvent::Listed { output, late } => WindowOpenEventView::Listed { output: output.deep_view(), late: late.deep_view() },
            WindowOpenEvent::Rested => WindowOpenEventView::Rested,
            WindowOpenEvent::Failed(value) => WindowOpenEventView::Failed(value.deep_view()),
        }
    }
}

impl DeepView for WindowOpenEvent {
    type V = WindowOpenEventView;

    open spec fn deep_view(&self) -> WindowOpenEventView {
        self.view()
    }
}

/// What is asked of the system next.
#[derive(Debug)]
pub enum WindowOpenStep {
    Run(ProcessRequest),
    Rest(TimeSpan),
    Finish(TmuxSessionSnapshot),
    Fail(WorkstateError),
    Idle,
}

/// What a `WindowOpenStep` stands for.
#[verifier::ext_equal]
pub enum WindowOpenStepView {
    Run(ProcessRequestView),
    Rest(TimeSpan),
    Finish(TmuxSessionSnapshotView),
    Fail(WorkstateErrorView),
    Idle,
}

impl View for WindowOpenStep {
    type V = WindowOpenStepView;

    open spec fn view(&self) -> WindowOpenStepView {
        match self {
            WindowOpenStep::Run(value) => WindowOpenStepView::Run(value.deep_view()),
            WindowOpenStep::Rest(value) => WindowOpenStepView::Rest(value.deep_view()),
            WindowOpenStep::Finish(value) => WindowOpenStepView::Finish(value.deep_view()),
            WindowOpenStep::Fail(value) => WindowOpenStepView::Fail(value.deep_view()),
            WindowOpenStep::Idle => WindowOpenStepView::Idle,
        }
    }
}

impl DeepView for WindowOpenStep {
    type V = WindowOpenStepView;

    open spec fn deep_view(&self) -> WindowOpenStepView {
        self.view()
    }
}

/// The work and what it asks of the system.
pub type WindowOpenMove = (WindowOpenView, WindowOpenStepView);

/// The sessions of a name.
pub open spec fn sessions_called(sessions: Seq<TmuxSessionSnapshotView>, name: Seq<char>) -> Seq<
    TmuxSessionSnapshotView,
> {
    sessions.filter(|session: TmuxSessionSnapshotView| session.name == name)
}

/// The sessions of a name.
pub fn find_sessions(sessions: &Vec<TmuxSessionSnapshot>, name: &str) -> (r: Vec<
    TmuxSessionSnapshot,
>)
    ensures
        r.deep_view() == sessions_called(sessions.deep_view(), name@),
{
    let mut found: Vec<TmuxSessionSnapshot> = empty_list();
    let mut i: usize = 0;
    let ghost all = sessions.deep_view();
    let ghost keep = |session: TmuxSessionSnapshotView| session.name == name@;
    proof {
        lemma_filter_ends(all, keep);
    }
    while i < sessions.len()
        invariant
            i <= sessions@.len(),
            all == sessions.deep_view(),
            keep == (|session: TmuxSessionSnapshotView| session.name == name@),
            found.deep_view() == all.take(i as int).filter(keep),
        decreases sessions@.len() - i,
    {
        assert(all[i as int] == sessions@[i as int]@);
        proof {
            lemma_filter_step(all, i as int, keep);
        }
        if same_text(sessions[i].name.as_str(), name) {
            append(&mut found, sessions[i].replicate());
        }
        i = i + 1;
    }
    proof {
        lemma_filter_ends(all, keep);
        assert(all.take(i as int) =~= all);
    }
    found
}

/// A window of the name is there, and not dead.
pub open spec fn window_alive(windows: Seq<TmuxWindowSnapshotView>, name: Seq<char>) -> bool {
    exists|i: int| 0 <= i < windows.len() && (#[trigger] windows[i]).name == name && !windows[i].is_dead
}

fn has_live_window(windows: &Vec<TmuxWindowSnapshot>, name: &str) -> (r: bool)
    ensures
        r == window_alive(windows.deep_view(), name@),
{
    let mut i: usize = 0;
    let ghost all = windows.deep_view();
    while i < windows.len()
        invariant
            i <= windows@.len(),
            all == windows.deep_view(),
            forall|j: int| 0 <= j < i ==> !((#[trigger] all[j]).name == name@ && !all[j].is_dead),
        decreases windows@.len() - i,
    {
        assert(all[i as int] == windows@[i as int]@);
        if !windows[i].is_dead && same_text(windows[i].name.as_str(), name) {
            assert(all[i as int].name == name@);
            return true;
        }
        i = i + 1;
    }
    false
}

/// The error of a name that several sessions have.
pub open spec fn sessions_ambiguous(session: Seq<char>) -> WorkstateErrorView {
    error_of(
        ErrorCategory::Integration,
        "tmux exposed multiple sessions with the same name"@,
    ).with("session_name"@, session)
}

impl WindowOpenView {
    pub open spec fn to(self, phase: WindowOpenPhase, step: WindowOpenStepView) -> WindowOpenMove {
        (WindowOpenView { phase, ..self }, step)
    }

    pub open spec fn failed(self, error: WorkstateErrorView) -> WindowOpenMove {
        self.to(WindowOpenPhase::Over, WindowOpenStepView::Fail(error))
    }

    pub open spec fn listing(self) -> WindowOpenMove {
        self.to(
            WindowOpenPhase::List,
            WindowOpenStepView::Run(tmux_request(self.executable, list_arguments())),
        )
    }

    /// After the list was printed: the window is there, or it is waited for until the deadline.
    pub open spec fn after_list(self, output: ProcessOutputView, late: bool) -> WindowOpenMove {
        match sessions_observed(output) {
            Err(error) => self.failed(error),
            Ok(sessions) => {
                let found = sessions_called(sessions, self.session_name);
                if found.len() > 1 {
                    self.failed(sessions_ambiguous(self.session_name))
                } else if found.len() == 1 && window_alive(found[0].windows, self.window_name) {
                    self.to(WindowOpenPhase::Over, WindowOpenStepView::Finish(found[0]))
                } else if late {
                    self.failed(never_ready(self.session_name, self.window_name))
                } else {
                    self.to(
                        WindowOpenPhase::Rest,
                        WindowOpenStepView::Rest(span_of_millis(READY_POLL_MILLIS)),
                    )
                }
            },
        }
    }

    /// What follows a reply. A reply that does not belong to what the work is waiting for changes
    /// nothing.
    pub open spec fn next(self, event: WindowOpenEventView) -> WindowOpenMove {
        match (self.phase, event) {
            (WindowOpenPhase::Over, _) => (self, WindowOpenStepView::Idle),
            (WindowOpenPhase::Create, WindowOpenEventView::Failed(error)) => self.failed(
                operation_failure(self.operation, error),
            ),
            (WindowOpenPhase::List, WindowOpenEventView::Failed(error)) => self.failed(
                operation_failure("list-windows"@, error),
            ),
            (WindowOpenPhase::Create, WindowOpenEventView::Ran(output)) => match executed(
                self.operation,
                output,
            ) {
                Err(error) => self.failed(error),
                Ok(_) => self.listing(),
            },
            (WindowOpenPhase::List, WindowOpenEventView::Listed { output, late }) => self.after_list(
                output,
                late,
            ),
            (WindowOpenPhase::Rest, WindowOpenEventView::Rested) => self.listing(),
            _ => (self, WindowOpenStepView::Idle),
        }
    }
}

/// What must hold before a window is opened, and the command line of its process.
pub open spec fn window_checked(session: Seq<char>, window: TmuxWindowRequestView) -> Result<
    Seq<char>,
    WorkstateErrorView,
> {
    match name_checked("session"@, session) {
        Err(error) => Err(error),
        Ok(_) => match name_checked("window"@, window.name) {
            Err(error) => Err(error),
            Ok(_) => process_rendered(window.process),
        },
    }
}

/// The work at its beginning.
pub open spec fn window_open_begun(
    executable: Seq<char>,
    create_session: bool,
    session: Seq<char>,
    window: TmuxWindowRequestView,
) -> WindowOpenMove {
    let work = WindowOpenView {
        executable,
        operation: if create_session {
            "create-session"@
        } else {
            "create-window"@
        },
        session_name: session,
        window_name: window.name,
        phase: WindowOpenPhase::Create,
    };
    match window_checked(session, window) {
        Err(error) => work.failed(error),
        Ok(command) => (
            work,
            WindowOpenStepView::Run(
                tmux_request(
                    executable,
                    create_arguments(create_session, session, window, command),
                ),
            ),
        ),
    }
}

fn check_window(session_name: &str, window: &TmuxWindowRequest) -> (r: Result<
    String,
    WorkstateError,
>)
    ensures
        seen(r) == window_checked(session_name@, window@),
{
    if let Err(error) = validate_name("session", session_name) {
        return Err(error);
    }
    if let Err(error) = validate_name("window", window.name.as_str()) {
        return Err(error);
    }
    render_process(&window.process)
}

fn arguments_of_create(
    create_session: bool,
    session_name: &str,
    window: &TmuxWindowRequest,
    command: &str,
) -> (r: Vec<String>)
    ensures
        r.deep_view() == create_arguments(create_session, session_name@, window@, command@),
{
    let mut arguments = if create_session {
        text_list4("new-session", "-d", "-s", session_name)
    } else {
        text_list4("new-window", "-d", "-t", session_name)
    };
    append_text(&mut arguments, "-n");
    append_text(&mut arguments, window.name.as_str());
    if let Some(directory) = &window.process.working_directory {
        append_text(&mut arguments, "-c");
        append_text(&mut arguments, directory.as_str());
    }
    append_text(&mut arguments, "--");
    append_text(&mut arguments, command);
    assert(arguments.deep_view() =~= create_arguments(
        create_session,
        session_name@,
        window@,
        command@,
    ));
    arguments
}

impl WindowOpen {
    /// Begins with the command that opens the window.
    pub fn begin(
        backend: &TmuxProcessBackend,
        create_session: bool,
        session_name: &str,
        window: &TmuxWindowRequest,
    ) -> (r: (WindowOpen, WindowOpenStep))
        ensures
            (r.0@, r.1@) == window_open_begun(
                backend@.executable,
                create_session,
                session_name@,
                window@,
            ),
    {
        let operation = if create_session {
            "create-session"
        } else {
            "create-window"
        };
        let work = WindowOpen {
            executable: backend.executable.clone(),
            operation: operation.to_owned(),
            session_name: session_name.to_owned(),
            window_name: window.name.clone(),
            phase: WindowOpenPhase::Create,
        };
        match check_window(session_name, window) {
            Err(error) => work.failed(error),
            Ok(command) => {
                let arguments = arguments_of_create(
                    create_session,
                    session_name,
                    window,
                    command.as_str(),
                );
                (work, WindowOpenStep::Run(backend.request(arguments)))
            },
        }
    }

    fn to(self, phase: WindowOpenPhase, step: WindowOpenStep) -> (r: (WindowOpen, WindowOpenStep))
        ensures
            (r.0@, r.1@) == self@.to(phase, step@),
    {
        (
            WindowOpen {
                executable: self.executable,
                operation: self.operation,
                session_name: self.session_name,
                window_name: self.window_name,
                phase,
            },
            step,
        )
    }

    fn failed(self, error: WorkstateError) -> (r: (WindowOpen, WindowOpenStep))
        ensures
            (r.0@, r.1@) == self@.failed(error@),
    {
        self.to(WindowOpenPhase::Over, WindowOpenStep::Fail(error))
    }

    fn backend(&self) -> (r: TmuxProcessBackend)
        ensures
            r@.executable == self@.executable,
    {
        TmuxProcessBackend { executable: self.executable.clone() }
    }

    fn listing(self) -> (r: (WindowOpen, WindowOpenStep))
        ensures
            (r.0@, r.1@) == self@.listing(),
    {
        let request = self.backend().observe_request();
        self.to(WindowOpenPhase::List, WindowOpenStep::Run(request))
    }

    fn after_list(self, output: ProcessOutput, late: bool) -> (r: (WindowOpen, WindowOpenStep))
        ensures
            (r.0@, r.1@) == self@.after_list(output@, late),
    {
        let sessions = match self.backend().observe(Ok(output)) {
            Err(error) => {
                return self.failed(error);
            },
            Ok(sessions) => sessions,
        };
        let found = find_sessions(&sessions, self.session_name.as_str());
        assert(found.deep_view().len() == found@.len());
        if found.len() > 1 {
            let error = WorkstateError::new(
                ErrorCategory::Integration,
                "tmux exposed multiple sessions with the same name",
            ).with_context("session_name", self.session_name.as_str());
            return self.failed(error);
        }
        if found.len() == 1 {
            assert(found.deep_view()[0] == found@[0]@);
            if has_live_window(&found[0].windows, self.window_name.as_str()) {
                let session = found[0].replicate();
                return self.to(WindowOpenPhase::Over, WindowOpenStep::Finish(session));
            }
        }
        if late {
            let error = readiness_timeout(self.session_name.as_str(), self.window_name.as_str());
            return self.failed(error);
        }
        self.to(
            WindowOpenPhase::Rest,
            WindowOpenStep::Rest(TimeSpan::from_millis(READY_POLL_MILLIS)),
        )
    }

    /// What follows a reply. A reply that does not belong to what the work is waiting for changes
    /// nothing.
    pub fn advance(self, event: WindowOpenEvent) -> (r: (WindowOpen, WindowOpenStep))
        ensures
            (r.0@, r.1@) == self@.next(event@),
    {
        match (self.phase, event) {
            (WindowOpenPhase::Over, _) => (self, WindowOpenStep::Idle),
            (WindowOpenPhase::Create, WindowOpenEvent::Failed(error)) => {
                let error = operation_error(self.operation.as_str(), error);
                self.failed(error)
            },
            (WindowOpenPhase::List, WindowOpenEvent::Failed(error)) => {
                self.failed(operation_error("list-windows", error))
            },
            (WindowOpenPhase::Create, WindowOpenEvent::Ran(output)) => if output.succeeded() {
                self.listing()
            } else {
                let error = command_failed(self.operation.as_str(), &output);
                self.failed(error)
            },
            (WindowOpenPhase::List, WindowOpenEvent::Listed { output, late }) => self.after_list(
                output,
                late,
            ),
            (WindowOpenPhase::Rest, WindowOpenEvent::Rested) => self.listing(),
            _ => (self, WindowOpenStep::Idle),
        }
    }
}

// ---------------------------------------------------------------------------------------------
// Laws
// ---------------------------------------------------------------------------------------------
/// The sessions are in the order of their identities, and no two have the same.
pub open spec fn sessions_ascend(sessions: Seq<TmuxSessionSnapshotView>) -> bool {
    forall|i: int, j: int|
        0 <= i < j < sessions.len() ==> text_before(
            (#[trigger] sessions[i]).identity,
            (#[trigger] sessions[j]).identity,
        )
}

/// The number of all windows.
pub open spec fn window_count(sessions: Seq<TmuxSessionSnapshotView>) -> nat
    decreases sessions.len(),
{
    if sessions.len() == 0 {
        0
    } else {
        window_count(sessions.drop_last()) + sessions.last().windows.len()
    }
}

/// The number of lines that say something.
pub open spec fn spoken_lines(texts: Seq<Seq<char>>) -> nat
    decreases texts.len(),
{
    if texts.len() == 0 {
        0
    } else {
        spoken_lines(texts.drop_last()) + if texts.last().len() == 0 {
            0nat
        } else {
            1nat
        }
    }
}

proof fn lemma_window_added(sessions: Seq<TmuxSessionSnapshotView>, line: TmuxLineView)
    requires
        sessions_ascend(sessions),
    ensures
        window_added(sessions, line) matches Ok(more) ==> sessions_ascend(more) && window_count(more)
            == window_count(sessions) + 1 && forall|i: int|
            0 <= i < more.len() ==> (#[trigger] more[i]).identity == line.session_identity || exists|
                j: int,
            |
                0 <= j < sessions.len() && (#[trigger] sessions[j]).identity == more[i].identity,
    decreases sessions.len(),
{
    if sessions.len() == 0 {
        if let Ok(more) = window_added(sessions, line) {
            assert(more.drop_last() =~= Seq::empty());
            reveal_with_fuel(window_count, 2);
        }
    } else {
        let last = sessions.last();
        let front = sessions.drop_last();
        assert(forall|i: int| 0 <= i < front.len() ==> front[i] == #[trigger] sessions[i]);
        assert(sessions[sessions.len() - 1] == last);
        lemma_window_added(front, line);
        if let Ok(more) = window_added(sessions, line) {
            if last.identity == line.session_identity {
                assert(more.drop_last() =~= front);
            } else if text_before(line.session_identity, last.identity) {
                let earlier = window_added(front, line)->Ok_0;
                assert(more.drop_last() =~= earlier);
                assert forall|i: int, j: int| 0 <= i < j < more.len() implies text_before(
                    (#[trigger] more[i]).identity,
                    (#[trigger] more[j]).identity,
                ) by {
                    if j < earlier.len() {
                        assert(more[i] == earlier[i] && more[j] == earlier[j]);
                    } else {
                        assert(more[i] == earlier[i]);
                        if earlier[i].identity != line.session_identity {
                            let k = choose|k: int|
                                0 <= k < front.len() && (#[trigger] front[k]).identity
                                    == earlier[i].identity;
                            assert(sessions[k] == front[k]);
                            assert(text_before(sessions[k].identity, sessions[sessions.len() - 1].identity));
                        }
                    }
                }
                assert forall|i: int| 0 <= i < more.len() implies (#[trigger] more[i]).identity
                    == line.session_identity || exists|j: int|
                    0 <= j < sessions.len() && (#[trigger] sessions[j]).identity
                        == more[i].identity by {
                    if i < earlier.len() {
                        assert(more[i] == earlier[i]);
                        if earlier[i].identity != line.session_identity {
                            let k = choose|k: int|
                                0 <= k < front.len() && (#[trigger] front[k]).identity
                                    == earlier[i].identity;
                            assert(sessions[k].identity == more[i].identity);
                        }
                    } else {
                        assert(sessions[sessions.len() - 1].identity == more[i].identity);
                    }
                }
            } else {
                assert(more.drop_last() =~= sessions);
                lemma_before_total(line.session_identity, last.identity);
                assert forall|i: int, j: int| 0 <= i < j < more.len() implies text_before(
                    (#[trigger] more[i]).identity,
                    (#[trigger] more[j]).identity,
                ) by {
                    if j < sessions.len() {
                        assert(more[i] == sessions[i] && more[j] == sessions[j]);
                    } else if i < front.len() {
                        assert(text_before(sessions[i].identity, sessions[sessions.len() - 1].identity));
                        lemma_before_transitive(
                            sessions[i].identity,
                            last.identity,
                            line.session_identity,
                        );
                    }
                }
                assert forall|i: int| 0 <= i < more.len() implies (#[trigger] more[i]).identity
                    == line.session_identity || exists|j: int|
                    0 <= j < sessions.len() && (#[trigger] sessions[j]).identity
                        == more[i].identity by {
                    if i < sessions.len() {
                        assert(sessions[i].identity == more[i].identity);
                    }
                }
            }
        }
    }
}

/// Sessions that were read are in the order of their identities, no two have the same identity, and
/// each line that says something is exactly one window.
pub proof fn law_sessions_hold_every_line(texts: Seq<Seq<char>>)
    ensures
        lines_read(texts) matches Ok(sessions) ==> sessions_ascend(sessions) && window_count(sessions)
            == spoken_lines(texts),
    decreases texts.len(),
{
    if texts.len() > 0 {
        law_sessions_hold_every_line(texts.drop_last());
        if let Ok(earlier) = lines_read(texts.drop_last()) {
            if let Ok(line) = line_read(texts.last()) {
                lemma_window_added(earlier, line);
            }
        }
    }
}

/// The characters of `text` read one after another.
spec fn reading_on(read: ArgvRead, text: Seq<char>) -> ArgvRead
    decreases text.len(),
{
    if text.len() == 0 {
        read
    } else {
        reading_on(read, text.drop_last()).reading(text.last())
    }
}

proof fn lemma_argv_read(line: Seq<char>)
    ensures
        argv_read(line) == reading_on(argv_read(Seq::empty()), line),
    decreases line.len(),
{
    if line.len() > 0 {
        lemma_argv_read(line.drop_last());
    }
}

proof fn lemma_reading_on(read: ArgvRead, a: Seq<char>, b: Seq<char>)
    ensures
        reading_on(read, a + b) == reading_on(reading_on(read, a), b),
    decreases b.len(),
{
    if b.len() == 0 {
        assert(a + b =~= a);
    } else {
        assert((a + b).drop_last() =~= a + b.drop_last());
        lemma_reading_on(read, a, b.drop_last());
    }
}

proof fn lemma_reading_escaped(read: ArgvRead, text: Seq<char>)
    requires
        read.quote == Some('\''),
        !read.escaped,
        read.current is Some,
    ensures
        reading_on(read, escaped(text)) == (ArgvRead {
            current: Some(read.word() + text),
            ..read
        }),
    decreases text.len(),
{
    if text.len() == 0 {
        assert(read.word() + text =~= read.word());
    } else {
        let front = text.drop_last();
        lemma_reading_escaped(read, front);
        let before = reading_on(read, escaped(front));
        assert((read.word() + front).push(text.last()) =~= read.word() + text);
        if text.last() == '\'' {
            let tail = seq!['\'', '\\', '\'', '\''];
            lemma_reading_on(read, escaped(front), tail);
            reveal_with_fuel(reading_on, 5);
            assert(tail.drop_last() =~= seq!['\'', '\\', '\'']);
            assert(tail.drop_last().drop_last() =~= seq!['\'', '\\']);
            assert(tail.drop_last().drop_last().drop_last() =~= seq!['\'']);
            assert(tail.drop_last().drop_last().drop_last().drop_last() =~= Seq::<char>::empty());
            let one = before.reading('\'');
            let two = one.reading('\\');
            let three = two.reading('\'');
            let four = three.reading('\'');
            assert(reading_on(before, tail) == four);
        } else {
            assert(escaped(text).drop_last() =~= escaped(front));
            assert(escaped(text).last() == text.last());
        }
    }
}

/// Outside quotes, a quoted text extends the word that is being read by exactly that text.
proof fn lemma_reading_quoted(read: ArgvRead, text: Seq<char>)
    requires
        read.quote is None,
        !read.escaped,
    ensures
        reading_on(read, quoted(text)) == (ArgvRead {
            current: Some(read.word() + text),
            ..read
        }),
{
    let open = seq!['\''];
    let inside = ArgvRead { current: Some(read.word()), quote: Some('\''), ..read };
    reveal_with_fuel(reading_on, 2);
    assert(open.drop_last() =~= Seq::<char>::empty());
    assert(reading_on(read, open) == inside);
    lemma_reading_escaped(inside, text);
    lemma_reading_on(read, open, escaped(text));
    lemma_reading_on(read, open + escaped(text), open);
    let after = reading_on(read, open + escaped(text));
    assert(reading_on(after, open) == after.reading('\''));
}

/// A text as one word of a shell is read back as that text, whatever it holds.
pub proof fn law_quoted_text_is_one_word(text: Seq<char>)
    ensures
        argv_words(quoted(text)) == Some(seq![text]),
{
    lemma_argv_read(quoted(text));
    let start = argv_read(Seq::empty());
    lemma_reading_quoted(start, text);
    assert(start.word() + text =~= text);
    assert(Seq::<Seq<char>>::empty().push(text) =~= seq![text]);
}

/// The texts, with each of which a word of a command line is read back.
proof fn lemma_joined_words(parts: Seq<Seq<char>>, texts: Seq<Seq<char>>)
    requires
        parts.len() == texts.len(),
        parts.len() > 0,
        forall|i: int| 0 <= i < parts.len() ==> reads_as(#[trigger] parts[i], texts[i]),
    ensures
        reading_on(argv_read(Seq::empty()), joined(parts, " "@)) == (ArgvRead {
            words: texts.drop_last(),
            current: Some(texts.last()),
            quote: None,
            escaped: false,
        }),
    decreases parts.len(),
{
    let start = argv_read(Seq::empty());
    assert(start.word() =~= Seq::empty());
    assert(reads_as(parts[parts.len() - 1], texts[parts.len() - 1]));
    if parts.len() == 1 {
        assert(reading_on(start, parts[0]) == (ArgvRead {
            current: Some(start.word() + texts[0]),
            ..start
        }));
        assert(start.word() + texts[0] =~= texts[0]);
        assert(texts.drop_last() =~= Seq::empty());
    } else {
        let front = parts.drop_last();
        let texts_front = texts.drop_last();
        assert forall|i: int| 0 <= i < front.len() implies reads_as(
            #[trigger] front[i],
            texts_front[i],
        ) by {
            assert(reads_as(parts[i], texts[i]));
        }
        lemma_joined_words(front, texts_front);
        let earlier = joined(front, " "@);
        let read = reading_on(start, earlier);
        reveal_strlit(" ");
        lemma_reading_on(start, earlier, " "@);
        reveal_with_fuel(reading_on, 2);
        assert(" "@.drop_last() =~= Seq::<char>::empty());
        assert(" "@.last() == ' ');
        let between = read.reading(' ');
        assert(reading_on(read, " "@) == between);
        assert(between.words =~= texts.drop_last());
        lemma_reading_on(start, earlier + " "@, parts.last());
        assert(between.word() + texts.last() =~= texts.last());
    }
}

/// Outside quotes, the part extends the word that is being read by exactly the text.
spec fn reads_as(part: Seq<char>, text: Seq<char>) -> bool {
    forall|read: ArgvRead|
        read.quote is None && !read.escaped ==> #[trigger] reading_on(read, part) == (ArgvRead {
            current: Some(read.word() + text),
            ..read
        })
}

proof fn lemma_quoted_reads_as(text: Seq<char>)
    ensures
        reads_as(quoted(text), text),
{
    assert forall|read: ArgvRead|
        read.quote is None && !read.escaped implies #[trigger] reading_on(read, quoted(text)) == (
    ArgvRead { current: Some(read.word() + text), ..read }) by {
        lemma_reading_quoted(read, text);
    }
}

proof fn lemma_plain_reads_as(text: Seq<char>)
    requires
        text.len() > 0,
        forall|i: int|
            0 <= i < text.len() ==> !is_white(#[trigger] text[i]) && text[i] != '\'' && text[i]
                != '"' && text[i] != '\\',
    ensures
        reads_as(text, text),
    decreases text.len(),
{
    assert forall|read: ArgvRead|
        read.quote is None && !read.escaped implies #[trigger] reading_on(read, text) == (ArgvRead {
        current: Some(read.word() + text),
        ..read
    }) by {
        let front = text.drop_last();
        assert(text[text.len() - 1] == text.last());
        if front.len() > 0 {
            assert forall|i: int| 0 <= i < front.len() implies !is_white(#[trigger] front[i])
                && front[i] != '\'' && front[i] != '"' && front[i] != '\\' by {
                assert(front[i] == text[i]);
            }
            lemma_plain_reads_as(front);
            let after = reading_on(read, front);
            assert(after == (ArgvRead { current: Some(read.word() + front), ..read }));
            assert((read.word() + front).push(text.last()) =~= read.word() + text);
        } else {
            assert(front =~= Seq::<char>::empty());
            assert(reading_on(read, front) == read);
            assert(read.word().push(text.last()) =~= read.word() + text);
        }
    }
}

proof fn lemma_entry_reads_as(entry: (Seq<char>, Seq<char>))
    ensures
        reads_as(entry_quoted(entry), entry.0 + "="@ + entry.1),
{
    reveal_strlit("=");
    assert("="@ =~= seq!['=']);
    lemma_quoted_reads_as(entry.0);
    lemma_quoted_reads_as(entry.1);
    assert(reads_as("="@, "="@)) by {
        lemma_plain_reads_as("="@);
    }
    assert forall|read: ArgvRead|
        read.quote is None && !read.escaped implies #[trigger] reading_on(
        read,
        entry_quoted(entry),
    ) == (ArgvRead { current: Some(read.word() + (entry.0 + "="@ + entry.1)), ..read }) by {
        lemma_reading_on(read, quoted(entry.0), "="@);
        lemma_reading_on(read, quoted(entry.0) + "="@, quoted(entry.1));
        let one = reading_on(read, quoted(entry.0));
        let two = reading_on(one, "="@);
        let three = reading_on(two, quoted(entry.1));
        assert(one == (ArgvRead { current: Some(read.word() + entry.0), ..read }));
        assert(two == (ArgvRead { current: Some(one.word() + "="@), ..one }));
        assert(three == (ArgvRead { current: Some(two.word() + entry.1), ..two }));
        assert(read.word() + entry.0 + "="@ + entry.1 =~= read.word() + (entry.0 + "="@
            + entry.1));
    }
}

/// The words that a shell reads in the command line of a process.
pub open spec fn process_argv(request: ProcessRequestView) -> Seq<Seq<char>> {
    let start = if request.environment.len() == 0 {
        Seq::empty()
    } else {
        seq!["env"@, "--"@] + request.environment.map_values(
            |entry: (Seq<char>, Seq<char>)| entry.0 + "="@ + entry.1,
        )
    };
    start.push(request.program) + request.arguments
}

/// Nothing that a process holds can leave its word: the command line is read back as the entries of
/// its environment, its program and its arguments, one word each.
pub proof fn law_command_line_is_read_back(request: ProcessRequestView, line: Seq<char>)
    requires
        process_rendered(request) == Ok::<Seq<char>, WorkstateErrorView>(line),
    ensures
        argv_words(line) == Some(process_argv(request)),
{
    let parts = process_words(request);
    let texts = process_argv(request);
    let setting = environment_words(request.environment).len() as int;
    assert(parts.len() == texts.len());
    assert forall|i: int| 0 <= i < parts.len() implies reads_as(#[trigger] parts[i], texts[i]) by {
        if i < setting {
            if i < 2 {
                reveal_strlit("env");
                reveal_strlit("--");
                assert("env"@ =~= seq!['e', 'n', 'v']);
                assert("--"@ =~= seq!['-', '-']);
                lemma_plain_reads_as(parts[i]);
            } else {
                let entry = request.environment[i - 2];
                assert(parts[i] == entry_quoted(entry));
                assert(texts[i] == entry.0 + "="@ + entry.1);
                lemma_entry_reads_as(entry);
            }
        } else if i == setting {
            assert(parts[i] == quoted(request.program));
            lemma_quoted_reads_as(request.program);
        } else {
            let argument = request.arguments[i - setting - 1];
            assert(parts[i] == quoted(argument));
            lemma_quoted_reads_as(argument);
        }
    }
    lemma_joined_words(parts, texts);
    lemma_argv_read(line);
    assert(texts.drop_last().push(texts.last()) =~= texts);
}

/// A window is reported only where it is there, and not dead, in the one session of its name.
pub proof fn law_opened_window_is_there(work: WindowOpenView, event: WindowOpenEventView)
    requires
        work.next(event).1 is Finish,
    ensures
        work.next(event).1 matches WindowOpenStepView::Finish(session) && window_alive(
            session.windows,
            work.window_name,
        ) && session.name == work.session_name,
{
    if let WindowOpenEventView::Listed { output, late } = event {
        let sessions = sessions_observed(output)->Ok_0;
        let keep = |session: TmuxSessionSnapshotView| session.name == work.session_name;
        let found = sessions.filter(keep);
        assert(keep(found[0])) by {
            broadcast use vstd::seq_lib::group_filter_ensures;

            assert(found.contains(found[0]));
            sessions.lemma_filter_pred(keep, 0);
        }
    }
}

/// Once the work is over, no reply brings anything about.
pub proof fn law_over_is_over(work: WindowOpenView, event: WindowOpenEventView)
    requires
        work.phase == WindowOpenPhase::Over,
    ensures
        work.next(event) == (work, WindowOpenStepView::Idle),
{
}

/// What the words behind `new-session` or `new-window` say.
#[verifier::ext_equal]
pub struct OpenRead {
    pub detached: bool,
    pub new_session: Option<Seq<char>>,
    pub target: Option<Seq<char>>,
    pub name: Option<Seq<char>>,
    pub directory: Option<Seq<char>>,
    pub command: Seq<Seq<char>>,
}

/// Reads those words as tmux does: flags, each but `-d` with the word behind it, up to `--`, and the
/// command behind that.
pub open spec fn open_read(arguments: Seq<Seq<char>>) -> OpenRead
    decreases arguments.len(),
{
    if arguments.len() == 0 {
        OpenRead {
            detached: false,
            new_session: None,
            target: None,
            name: None,
            directory: None,
            command: Seq::empty(),
        }
    } else if arguments[0] == "--"@ {
        OpenRead {
            detached: false,
            new_session: None,
            target: None,
            name: None,
            directory: None,
            command: arguments.skip(1),
        }
    } else if arguments[0] == "-d"@ {
        OpenRead { detached: true, ..open_read(arguments.skip(1)) }
    } else if arguments.len() > 1 && arguments[0] == "-s"@ {
        OpenRead { new_session: Some(arguments[1]), ..open_read(arguments.skip(2)) }
    } else if arguments.len() > 1 && arguments[0] == "-t"@ {
        OpenRead { target: Some(arguments[1]), ..open_read(arguments.skip(2)) }
    } else if arguments.len() > 1 && arguments[0] == "-n"@ {
        OpenRead { name: Some(arguments[1]), ..open_read(arguments.skip(2)) }
    } else if arguments.len() > 1 && arguments[0] == "-c"@ {
        OpenRead { directory: Some(arguments[1]), ..open_read(arguments.skip(2)) }
    } else {
        open_read(arguments.skip(1))
    }
}

proof fn lemma_open_words()
    ensures
        "--"@ != "-d"@ && "--"@ != "-s"@ && "--"@ != "-t"@ && "--"@ != "-n"@ && "--"@ != "-c"@,
        "-d"@ != "-s"@ && "-d"@ != "-t"@ && "-d"@ != "-n"@ && "-d"@ != "-c"@,
        "-s"@ != "-t"@ && "-s"@ != "-n"@ && "-s"@ != "-c"@,
        "-t"@ != "-n"@ && "-t"@ != "-c"@,
        "-n"@ != "-c"@,
{
    reveal_strlit("--");
    reveal_strlit("-d");
    reveal_strlit("-s");
    reveal_strlit("-t");
    reveal_strlit("-n");
    reveal_strlit("-c");
    assert("--"@[1] == '-' && "-d"@[1] == 'd' && "-s"@[1] == 's' && "-t"@[1] == 't' && "-n"@[1]
        == 'n' && "-c"@[1] == 'c');
}


/// A window is opened as it was asked for. tmux is told to open it in the background, in a session that
/// it makes or in the one that is there; the window has its name and, where the process has a working
/// directory, starts in that directory; and the command that it runs reads as the variables, the
/// program and the arguments of the process, in their order.
pub proof fn law_window_is_opened_as_asked(
    executable: Seq<char>,
    create_session: bool,
    session: Seq<char>,
    window: TmuxWindowRequestView,
)
    requires
        session.len() > 0 && !has_control(session),
        window.name.len() > 0 && !has_control(window.name),
        window.process.program.len() > 0 && !has_control(window.process.program),
        forall|i: int|
            0 <= i < window.process.arguments.len() ==> !has_control(
                #[trigger] window.process.arguments[i],
            ),
        forall|i: int|
            0 <= i < window.process.environment.len() ==> (
            #[trigger] window.process.environment[i]).0.len() > 0
                && !window.process.environment[i].0.contains('=') && !has_control(
                window.process.environment[i].0,
            ) && !has_control(window.process.environment[i].1),
        window.process.working_directory matches Some(directory) ==> directory.len() > 0
            && directory[0] == '/',
    ensures
        window_open_begun(executable, create_session, session, window).1
            matches WindowOpenStepView::Run(process) && process.program == executable
            && process.working_directory is None && process.environment.len() == 0 && ({
            let read = open_read(process.arguments.skip(1));
            &&& process.arguments[0] == if create_session {
                "new-session"@
            } else {
                "new-window"@
            }
            &&& read.detached
            &&& read.new_session == if create_session {
                Some(session)
            } else {
                None
            }
            &&& read.target == if create_session {
                None
            } else {
                Some(session)
            }
            &&& read.name == Some(window.name)
            &&& read.directory == window.process.working_directory
            &&& read.command.len() == 1
            &&& argv_words(read.command[0]) matches Some(words) && words.len()
                == window.process.arguments.len() + 1 + if window.process.environment.len() == 0 {
                0
            } else {
                2 + window.process.environment.len()
            } && words.skip(words.len() - window.process.arguments.len())
                == window.process.arguments && words[words.len() - window.process.arguments.len()
                - 1] == window.process.program && (window.process.environment.len() > 0
                ==> words[0] == "env"@ && words[1] == "--"@ && forall|i: int|
                0 <= i < window.process.environment.len() ==> #[trigger] words[2 + i]
                    == window.process.environment[i].0 + "="@ + window.process.environment[i].1)
        }),
{
    let process = window.process;
    assert(process_checked(process) is Ok) by {
        assert(!any_control(process.arguments));
        assert(!any_bad_entry(process.environment)) by {
            if any_bad_entry(process.environment) {
                let i = choose|i: int|
                    0 <= i < process.environment.len() && bad_entry(
                        #[trigger] process.environment[i],
                    );
                assert(!bad_entry(process.environment[i]));
            }
        }
    }
    let command = window_checked(session, window)->Ok_0;
    law_command_line_is_read_back(process, command);
    lemma_process_argv(process);
    lemma_open_read(create_session, session, window, command);
}

proof fn lemma_process_argv(process: ProcessRequestView)
    ensures
        ({
            let words = process_argv(process);
            &&& words.len() == process.arguments.len() + 1 + if process.environment.len() == 0 {
                0
            } else {
                2 + process.environment.len()
            }
            &&& words.skip(words.len() - process.arguments.len()) == process.arguments
            &&& words[words.len() - process.arguments.len() - 1] == process.program
            &&& process.environment.len() > 0 ==> words[0] == "env"@ && words[1] == "--"@
                && forall|i: int|
                0 <= i < process.environment.len() ==> #[trigger] words[2 + i]
                    == process.environment[i].0 + "="@ + process.environment[i].1
        }),
{
    let words = process_argv(process);
    assert(words.skip(words.len() - process.arguments.len()) =~= process.arguments);
}

proof fn lemma_open_read(
    create_session: bool,
    session: Seq<char>,
    window: TmuxWindowRequestView,
    command: Seq<char>,
)
    ensures
        open_read(create_arguments(create_session, session, window, command).skip(1)) == (OpenRead {
            detached: true,
            new_session: if create_session {
                Some(session)
            } else {
                None
            },
            target: if create_session {
                None
            } else {
                Some(session)
            },
            name: Some(window.name),
            directory: window.process.working_directory,
            command: seq![command],
        }),
{
    lemma_open_words();
    let arguments = create_arguments(create_session, session, window, command);
    let ending = seq!["--"@, command];
    assert(ending.skip(1) =~= seq![command]);
    let last = OpenRead {
        detached: false,
        new_session: None,
        target: None,
        name: None,
        directory: None,
        command: seq![command],
    };
    assert(ending[0] == "--"@);
    assert(open_read(ending) == last);
    let placed = match window.process.working_directory {
        Some(directory) => seq!["-c"@, directory] + ending,
        None => ending,
    };
    if window.process.working_directory is Some {
        assert(placed.skip(2) =~= ending);
        assert(placed[0] == "-c"@);
    }
    let there = OpenRead { directory: window.process.working_directory, ..last };
    assert(open_read(placed) == there);
    let named = seq!["-n"@, window.name] + placed;
    assert(named.skip(2) =~= placed);
    assert(named[0] == "-n"@ && named[1] == window.name);
    let called = OpenRead { name: Some(window.name), ..there };
    assert(open_read(named) == called);
    let kind = if create_session {
        "-s"@
    } else {
        "-t"@
    };
    let targeted = seq![kind, session] + named;
    assert(targeted.skip(2) =~= named);
    assert(targeted[0] == kind && targeted[1] == session);
    let aimed = if create_session {
        OpenRead { new_session: Some(session), ..called }
    } else {
        OpenRead { target: Some(session), ..called }
    };
    assert(open_read(targeted) == aimed);
    let detached = seq!["-d"@] + targeted;
    assert(detached.skip(1) =~= targeted);
    assert(detached[0] == "-d"@);
    assert(arguments.skip(1) =~= detached);
}

/// A window that was opened is waited for: once tmux has done its part, its windows are listed; a list
/// that shows the window in its session ends the wait with that session, one that does not lets it look
/// again until the deadline, and a failure of tmux is a failure.
pub proof fn law_opened_window_is_awaited(
    work: WindowOpenView,
    output: ProcessOutputView,
    late: bool,
)
    ensures
        work.phase == WindowOpenPhase::Create ==> (if output.status == Some(0i32) {
            work.next(WindowOpenEventView::Ran(output)).1 matches WindowOpenStepView::Run(process)
                && process.program == work.executable && process.arguments[0] == "list-windows"@
                && process.arguments[1] == "-a"@ && work.next(WindowOpenEventView::Ran(output)).0
                == (WindowOpenView { phase: WindowOpenPhase::List, ..work })
        } else {
            work.next(WindowOpenEventView::Ran(output)).1 is Fail
        }),
        work.phase == WindowOpenPhase::List && output.status == Some(0i32) ==> (sessions_read(
            output.stdout,
        ) matches Ok(sessions) ==> forall|i: int|
            0 <= i < sessions.len() && (#[trigger] sessions[i]).name == work.session_name && (
            forall|j: int|
                0 <= j < sessions.len() && j != i ==> (#[trigger] sessions[j]).name
                    != work.session_name) ==> work.next(
                WindowOpenEventView::Listed { output, late },
            ).1 == (if exists|k: int|
                0 <= k < sessions[i].windows.len() && (#[trigger] sessions[i].windows[k]).name
                    == work.window_name && !sessions[i].windows[k].is_dead {
                WindowOpenStepView::Finish(sessions[i])
            } else if late {
                WindowOpenStepView::Fail(never_ready(work.session_name, work.window_name))
            } else {
                WindowOpenStepView::Rest(span_of_millis(20))
            })),
        work.phase == WindowOpenPhase::Rest ==> (work.next(WindowOpenEventView::Rested).1
            matches WindowOpenStepView::Run(process) && process.arguments[0] == "list-windows"@),
{
    if work.phase == WindowOpenPhase::List && output.status == Some(0i32) {
        if let Ok(sessions) = sessions_read(output.stdout) {
            assert forall|i: int|
                0 <= i < sessions.len() && (#[trigger] sessions[i]).name == work.session_name && (
                forall|j: int|
                    0 <= j < sessions.len() && j != i ==> (#[trigger] sessions[j]).name
                        != work.session_name) implies sessions_called(sessions, work.session_name)
                == seq![sessions[i]] by {
                lemma_only_session(sessions, work.session_name, i);
            }
        }
    }
}

proof fn lemma_only_session(sessions: Seq<TmuxSessionSnapshotView>, name: Seq<char>, at: int)
    requires
        0 <= at < sessions.len(),
        sessions[at].name == name,
        forall|j: int|
            0 <= j < sessions.len() && j != at ==> (#[trigger] sessions[j]).name != name,
    ensures
        sessions_called(sessions, name) == seq![sessions[at]],
    decreases sessions.len(),
{
    reveal(Seq::filter);
    let front = sessions.drop_last();
    assert(forall|k: int| 0 <= k < front.len() ==> #[trigger] front[k] == sessions[k]);
    if at < front.len() {
        lemma_only_session(front, name, at);
        assert(sessions[sessions.len() - 1].name != name);
    } else {
        lemma_no_session(front, name);
        assert(sessions_called(sessions, name) =~= seq![sessions[at]]);
    }
}

proof fn lemma_no_session(sessions: Seq<TmuxSessionSnapshotView>, name: Seq<char>)
    requires
        forall|j: int| 0 <= j < sessions.len() ==> (#[trigger] sessions[j]).name != name,
    ensures
        sessions_called(sessions, name) == Seq::<TmuxSessionSnapshotView>::empty(),
    decreases sessions.len(),
{
    reveal(Seq::filter);
    if sessions.len() > 0 {
        let front = sessions.drop_last();
        assert(forall|k: int| 0 <= k < front.len() ==> #[trigger] front[k] == sessions[k]);
        lemma_no_session(front, name);
        assert(sessions[sessions.len() - 1].name != name);
    }
}

/// What is closed is the window, or the session, that was named: tmux is given the session and, behind
/// the last colon, the window.
pub proof fn law_named_target_is_closed(
    executable: Seq<char>,
    session: Seq<char>,
    window: Seq<char>,
)
    requires
        session.len() > 0 && !has_control(session),
    ensures
        session_killed(executable, session) matches Ok(process) && process.program == executable
            && process.arguments == seq!["kill-session"@, "-t"@, session],
        window_killed(executable, session, window) matches Ok(process) ==> process.program
            == executable && process.arguments.len() == 3 && process.arguments[0] == "kill-window"@
            && process.arguments[1] == "-t"@ && rsplit_once(process.arguments[2], ":"@) == Some(
            (session, window),
        ),
        window_killed(executable, session, window) is Ok <==> window.len() > 0 && !window.contains(
            ':',
        ) && !has_control(window) && !has_white(window),
{
    reveal_strlit(":");
    assert(":"@ =~= seq![':']);
    if window_killed(executable, session, window) is Ok {
        let text = session + ":"@ + window;
        let at = session.len() as int;
        lemma_rfind_before(text, ":"@, text.len() as int + 1);
        assert(text.subrange(at, at + 1) =~= ":"@);
        assert(occurs_at(text, ":"@, at));
        let i = rfind(text, ":"@)->Some_0;
        if i > at {
            assert(text.subrange(i, i + 1)[0] == text[i]);
            assert(window[i - at - 1] == ':');
        }
        assert(text.take(at) =~= session);
        assert(text.skip(at + 1) =~= window);
    }
}

/// A line that tmux prints, nine fields with tabs between them, is read field by field.
pub proof fn law_printed_window_is_read(fields: Seq<Seq<char>>)
    requires
        fields.len() == 9,
        forall|i: int| 0 <= i < 9 ==> !(#[trigger] fields[i]).contains('\t'),
    ensures
        line_read(joined(fields, seq!['\t'])) matches Ok(line) ==> line.session_identity
            == fields[0] && line.session_name == fields[1] && line.window.identity == fields[2]
            && line.window.name == fields[3] && line.window.command == (if fields[4].len() == 0 {
            None
        } else {
            Some(fields[4])
        }) && line.window.start_command == (if fields[5].len() == 0 {
            None
        } else {
            Some(fields[5])
        }) && line.window.working_directory == (if fields[6].len() == 0 {
            None
        } else {
            Some(fields[6])
        }) && line.window.is_dead == (fields[8] == "1"@) && (fields[8] == "0"@ || fields[8] == "1"@)
            && (line.window.process_id matches Some(number) ==> parse_unsigned(
            fields[7],
            u32::MAX as nat,
        ) == Some(number as nat)) && (line.window.process_id is None <==> fields[7].len() == 0),
        (forall|i: int|
            0 <= i < 4 ==> (#[trigger] fields[i]).len() > 0 && !fields[i].contains(':')
                && !has_control(fields[i]) && !has_white(fields[i])) && (fields[8] == "0"@
            || fields[8] == "1"@) && (fields[7].len() == 0 || parse_unsigned(
            fields[7],
            u32::MAX as nat,
        ) is Some) ==> line_read(joined(fields, seq!['\t'])) is Ok,
{
    law_joined_parts_are_split_again(fields, '\t');
    reveal_strlit("0");
    reveal_strlit("1");
    assert("0"@[0] == '0' && "1"@[0] == '1');
    if forall|i: int|
        0 <= i < 4 ==> (#[trigger] fields[i]).len() > 0 && !fields[i].contains(':')
            && !has_control(fields[i]) && !has_white(fields[i]) {
        assert(identity_checked("session"@, fields[0]) is Ok);
        assert(identity_checked("session"@, fields[1]) is Ok);
        assert(identity_checked("window"@, fields[2]) is Ok);
        assert(identity_checked("window"@, fields[3]) is Ok);
    }
}

/// One of the sessions holds a window.
pub open spec fn holds_window(
    sessions: Seq<TmuxSessionSnapshotView>,
    identity: Seq<char>,
    name: Seq<char>,
    window: TmuxWindowSnapshotView,
) -> bool {
    exists|i: int|
        0 <= i < sessions.len() && (#[trigger] sessions[i]).identity == identity && sessions[i].name
            == name && sessions[i].windows.contains(window)
}

proof fn lemma_added_window_is_held(
    sessions: Seq<TmuxSessionSnapshotView>,
    line: TmuxLineView,
    identity: Seq<char>,
    name: Seq<char>,
    window: TmuxWindowSnapshotView,
)
    ensures
        window_added(sessions, line) matches Ok(more) ==> (holds_window(
            more,
            identity,
            name,
            window,
        ) <==> holds_window(sessions, identity, name, window) || (identity == line.session_identity
            && name == line.session_name && window == line.window)),
    decreases sessions.len(),
{
    if let Ok(more) = window_added(sessions, line) {
        if sessions.len() == 0 {
            assert(more[0].windows[0] == line.window);
        } else {
            let front = sessions.drop_last();
            let last = sessions[sessions.len() - 1];
            assert(forall|k: int| 0 <= k < front.len() ==> #[trigger] front[k] == sessions[k]);
            lemma_held_by_last(sessions, identity, name, window);
            lemma_held_by_last(more, identity, name, window);
            if last.identity == line.session_identity {
                assert(more.drop_last() =~= front);
                let longer = last.windows.push(line.window);
                if last.windows.contains(window) {
                    let k = choose|k: int| 0 <= k < last.windows.len() && last.windows[k] == window;
                    assert(longer[k] == window);
                }
                assert(longer[last.windows.len() as int] == line.window);
                if longer.contains(window) {
                    let k = choose|k: int| 0 <= k < longer.len() && longer[k] == window;
                    if k < last.windows.len() {
                        assert(last.windows[k] == window);
                    }
                }
            } else if text_before(line.session_identity, last.identity) {
                lemma_added_window_is_held(front, line, identity, name, window);
                assert(more.drop_last() =~= window_added(front, line)->Ok_0);
            } else {
                assert(more.drop_last() =~= sessions);
                assert(more[more.len() - 1].windows[0] == line.window);
                assert(seq![line.window].contains(window) <==> window == line.window) by {
                    assert(seq![line.window][0] == line.window);
                }
            }
        }
    }
}

proof fn lemma_held_by_last(
    sessions: Seq<TmuxSessionSnapshotView>,
    identity: Seq<char>,
    name: Seq<char>,
    window: TmuxWindowSnapshotView,
)
    requires
        sessions.len() > 0,
    ensures
        holds_window(sessions, identity, name, window) <==> holds_window(
            sessions.drop_last(),
            identity,
            name,
            window,
        ) || (sessions.last().identity == identity && sessions.last().name == name
            && sessions.last().windows.contains(window)),
{
    let front = sessions.drop_last();
    if holds_window(sessions, identity, name, window) {
        let i = choose|i: int|
            0 <= i < sessions.len() && (#[trigger] sessions[i]).identity == identity
                && sessions[i].name == name && sessions[i].windows.contains(window);
        if i < front.len() {
            assert(front[i] == sessions[i]);
        }
    }
    if holds_window(front, identity, name, window) {
        let i = choose|i: int|
            0 <= i < front.len() && (#[trigger] front[i]).identity == identity && front[i].name
                == name && front[i].windows.contains(window);
        assert(sessions[i] == front[i]);
    }
    assert(sessions[sessions.len() - 1] == sessions.last());
}

/// The sessions hold exactly the windows of the lines: each under the identity and the name of the
/// session that its line gives.
pub proof fn law_sessions_hold_the_printed_windows(
    texts: Seq<Seq<char>>,
    identity: Seq<char>,
    name: Seq<char>,
    window: TmuxWindowSnapshotView,
)
    ensures
        lines_read(texts) matches Ok(sessions) ==> (holds_window(sessions, identity, name, window)
            <==> exists|i: int|
            0 <= i < texts.len() && (#[trigger] texts[i]).len() > 0 && line_read(texts[i]) == Ok::<
                TmuxLineView,
                WorkstateErrorView,
            >(TmuxLineView { session_identity: identity, session_name: name, window })),
    decreases texts.len(),
{
    let wanted = Ok::<TmuxLineView, WorkstateErrorView>(
        TmuxLineView { session_identity: identity, session_name: name, window },
    );
    if texts.len() > 0 {
        let front = texts.drop_last();
        law_sessions_hold_the_printed_windows(front, identity, name, window);
        if let Ok(sessions) = lines_read(texts) {
            let earlier = lines_read(front)->Ok_0;
            if texts.last().len() > 0 {
                lemma_added_window_is_held(
                    earlier,
                    line_read(texts.last())->Ok_0,
                    identity,
                    name,
                    window,
                );
            }
            if exists|i: int|
                0 <= i < texts.len() && (#[trigger] texts[i]).len() > 0 && line_read(texts[i])
                    == wanted {
                let i = choose|i: int|
                    0 <= i < texts.len() && (#[trigger] texts[i]).len() > 0 && line_read(texts[i])
                        == wanted;
                if i < front.len() {
                    assert(front[i] == texts[i]);
                }
            }
            if exists|i: int|
                0 <= i < front.len() && (#[trigger] front[i]).len() > 0 && line_read(front[i])
                    == wanted {
                let i = choose|i: int|
                    0 <= i < front.len() && (#[trigger] front[i]).len() > 0 && line_read(front[i])
                        == wanted;
                assert(texts[i] == front[i]);
            }
            assert(texts[texts.len() - 1] == texts.last());
        }
    }
}

/// A word that a command line spells without quotes: no white space, no quote and no backslash.
pub open spec fn is_plain_word(text: Seq<char>) -> bool {
    text.len() > 0 && forall|i: int|
        0 <= i < text.len() ==> !is_white(#[trigger] text[i]) && text[i] != '\'' && text[i] != '"'
            && text[i] != '\\'
}

/// A line of plain words reads as those words.
pub proof fn law_plain_words_are_read(all: Seq<Seq<char>>)
    requires
        all.len() > 0,
        forall|i: int| 0 <= i < all.len() ==> is_plain_word(#[trigger] all[i]),
    ensures
        argv_words(joined(all, " "@)) == Some(all),
{
    assert forall|i: int| 0 <= i < all.len() implies reads_as(#[trigger] all[i], all[i]) by {
        assert(is_plain_word(all[i]));
        lemma_plain_reads_as(all[i]);
    }
    lemma_joined_words(all, all);
    lemma_argv_read(joined(all, " "@));
    assert(all.drop_last().push(all.last()) =~= all);
}

proof fn lemma_reading_double_quoted(read: ArgvRead, text: Seq<char>)
    requires
        read.quote == Some('"'),
        !read.escaped,
        !text.contains('"'),
        !text.contains('\\'),
    ensures
        reading_on(read, text) == (if text.len() == 0 {
            read
        } else {
            ArgvRead { current: Some(read.word() + text), ..read }
        }),
    decreases text.len(),
{
    if text.len() > 0 {
        let front = text.drop_last();
        assert(text[text.len() - 1] == text.last());
        assert(text.contains(text.last()));
        assert(!front.contains('"') && !front.contains('\\')) by {
            if front.contains('"') {
                let k = choose|k: int| 0 <= k < front.len() && front[k] == '"';
                assert(text[k] == '"');
            }
            if front.contains('\\') {
                let k = choose|k: int| 0 <= k < front.len() && front[k] == '\\';
                assert(text[k] == '\\');
            }
        }
        lemma_reading_double_quoted(read, front);
        if front.len() > 0 {
            assert((read.word() + front).push(text.last()) =~= read.word() + text);
        } else {
            assert(read.word().push(text.last()) =~= read.word() + text);
        }
    }
}

/// A text between double quotes is one word, white space and single quotes and all.
pub proof fn law_double_quoted_text_is_one_word(text: Seq<char>)
    requires
        !text.contains('"'),
        !text.contains('\\'),
    ensures
        argv_words(seq!['"'] + text + seq!['"']) == Some(seq![text]),
{
    let line = seq!['"'] + text + seq!['"'];
    let start = argv_read(Seq::empty());
    let open = ArgvRead { current: Some(Seq::empty()), quote: Some('"'), ..start };
    assert(argv_read(seq!['"']) == open) by {
        assert(seq!['"'].drop_last() =~= Seq::<char>::empty());
        assert(start.word() =~= Seq::empty());
        assert(seq!['"'].last() == '"');
    }
    lemma_argv_read(line);
    lemma_argv_read(seq!['"']);
    lemma_reading_on(start, seq!['"'] + text, seq!['"']);
    lemma_reading_on(start, seq!['"'], text);
    lemma_reading_double_quoted(open, text);
    assert(Seq::<char>::empty() + text =~= text);
    let read = reading_on(open, text);
    assert(read.current == Some(text)) by {
        if text.len() == 0 {
            assert(text =~= Seq::empty());
        }
    }
    assert(reading_on(read, seq!['"']) == read.reading('"')) by {
        reveal_with_fuel(reading_on, 2);
        assert(seq!['"'].drop_last() =~= Seq::<char>::empty());
        assert(seq!['"'].last() == '"');
    }
    assert(Seq::<Seq<char>>::empty().push(text) =~= seq![text]);
}

} // verus!
