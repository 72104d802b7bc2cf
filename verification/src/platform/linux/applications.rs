//! The applications that are installed on a Linux system, and how they are started.
use vstd::prelude::*;
use vstd::string::*;
use crate::collections::{sort_texts, sorted};
use crate::domain::{command_read, CommandSpec};
use crate::error::{error_of, seen, ErrorCategory, WorkstateError, WorkstateErrorView};
use crate::integrations::tmux::backend::{is_plain_word, law_plain_words_are_read};
use crate::paths::{
    file_name, joined_path, law_name_in_a_directory_is_the_file_name, path_file_name, path_join,
    paths_agree, same_path,
};
use crate::text::{
    chars_of, has_control, has_prefix, has_suffix, is_blank, is_white, join3, joined,
    law_halves_are_found_again, law_joined_parts_are_split_again, law_trim_takes_only_white_space,
    law_white_space_round_a_text_does_not_count, lemma_before_irreflexive,
    lemma_before_total, lemma_before_transitive, lines, lower, same_text,
    split_on, split_once, strip_suffix, text_before, text_ends_with, text_has_control,
    text_is_before, text_lines, text_lower, text_split, text_split_once, text_starts_with,
    text_strip_suffix, text_trim, trim,
};
use crate::values::{
    append, append_text, empty_list, lemma_filter_ends, lemma_filter_step, Replicate,
};

verus! {

/// An application that is installed.
#[derive(Debug, Clone, PartialEq, Eq)]
pub struct InstalledApplication {
    pub id: String,
    pub name: String,
}

/// What a `InstalledApplication` stands for.
#[verifier::ext_equal]
pub struct InstalledApplicationView {
    pub id: Seq<char>,
    pub name: Seq<char>,
}

impl View for InstalledApplication {
    type V = InstalledApplicationView;

    open spec fn view(&self) -> InstalledApplicationView {
        InstalledApplicationView {
            id: self.id.deep_view(),
            name: self.name.deep_view(),
        }
    }
}

impl DeepView for InstalledApplication {
    type V = InstalledApplicationView;

    open spec fn deep_view(&self) -> InstalledApplicationView {
        self.view()
    }
}

impl Replicate for InstalledApplication {
    fn replicate(&self) -> (r: Self) {
        InstalledApplication {
            id: self.id.replicate(),
            name: self.name.replicate(),
        }
    }
}

/// The program that starts an application, and its arguments.
#[derive(Debug, Clone, PartialEq, Eq)]
pub struct ApplicationLaunchSpec {
    pub program: String,
    pub arguments: Vec<String>,
}

/// What a `ApplicationLaunchSpec` stands for.
#[verifier::ext_equal]
pub struct ApplicationLaunchSpecView {
    pub program: Seq<char>,
    pub arguments: Seq<Seq<char>>,
}

impl View for ApplicationLaunchSpec {
    type V = ApplicationLaunchSpecView;

    open spec fn view(&self) -> ApplicationLaunchSpecView {
        ApplicationLaunchSpecView {
            program: self.program.deep_view(),
            arguments: self.arguments.deep_view(),
        }
    }
}

impl DeepView for ApplicationLaunchSpec {
    type V = ApplicationLaunchSpecView;

    open spec fn deep_view(&self) -> ApplicationLaunchSpecView {
        self.view()
    }
}

impl Replicate for ApplicationLaunchSpec {
    fn replicate(&self) -> (r: Self) {
        ApplicationLaunchSpec {
            program: self.program.replicate(),
            arguments: self.arguments.replicate(),
        }
    }
}

/// What a desktop entry says of an application.
#[derive(Debug, Clone, PartialEq, Eq)]
pub struct ParsedDesktopEntry {
    pub application: InstalledApplication,
    pub launch: Option<ApplicationLaunchSpec>,
}

/// What a `ParsedDesktopEntry` stands for.
#[verifier::ext_equal]
pub struct ParsedDesktopEntryView {
    pub application: InstalledApplicationView,
    pub launch: Option<ApplicationLaunchSpecView>,
}

impl View for ParsedDesktopEntry {
    type V = ParsedDesktopEntryView;

    open spec fn view(&self) -> ParsedDesktopEntryView {
        ParsedDesktopEntryView {
            application: self.application.deep_view(),
            launch: self.launch.deep_view(),
        }
    }
}

impl DeepView for ParsedDesktopEntry {
    type V = ParsedDesktopEntryView;

    open spec fn deep_view(&self) -> ParsedDesktopEntryView {
        self.view()
    }
}

impl Replicate for ParsedDesktopEntry {
    fn replicate(&self) -> (r: Self) {
        ParsedDesktopEntry {
            application: self.application.replicate(),
            launch: self.launch.replicate(),
        }
    }
}

/// A desktop entry: where it is, and what it holds.
#[derive(Debug, Clone, PartialEq, Eq)]
pub struct DesktopFile {
    pub path: String,
    pub contents: String,
}

/// What a `DesktopFile` stands for.
#[verifier::ext_equal]
pub struct DesktopFileView {
    pub path: Seq<char>,
    pub contents: Seq<char>,
}

impl View for DesktopFile {
    type V = DesktopFileView;

    open spec fn view(&self) -> DesktopFileView {
        DesktopFileView {
            path: self.path.deep_view(),
            contents: self.contents.deep_view(),
        }
    }
}

impl DeepView for DesktopFile {
    type V = DesktopFileView;

    open spec fn deep_view(&self) -> DesktopFileView {
        self.view()
    }
}

impl Replicate for DesktopFile {
    fn replicate(&self) -> (r: Self) {
        DesktopFile {
            path: self.path.replicate(),
            contents: self.contents.replicate(),
        }
    }
}

// ---------------------------------------------------------------------------------------------
// Launch commands
// ---------------------------------------------------------------------------------------------
/// What was read of a word of a launch command.
pub struct ExecToken {
    pub text: Seq<char>,
    pub field: bool,
    pub pending: bool,
    pub refused: bool,
}

/// A code that stands for something that is opened with the application.
pub open spec fn is_field_code(c: char) -> bool {
    c == 'f' || c == 'F' || c == 'u' || c == 'U' || c == 'i' || c == 'c' || c == 'k'
}

impl ExecToken {
    /// One more character: a percent sign and a code stand for something else, all other characters
    /// for themselves.
    pub open spec fn reading(self, c: char) -> ExecToken {
        if self.refused {
            self
        } else if self.pending {
            if c == '%' {
                ExecToken { text: self.text.push('%'), pending: false, ..self }
            } else if is_field_code(c) {
                ExecToken { field: true, pending: false, ..self }
            } else {
                ExecToken { refused: true, ..self }
            }
        } else if c == '%' {
            ExecToken { pending: true, ..self }
        } else {
            ExecToken { text: self.text.push(c), ..self }
        }
    }
}

pub open spec fn exec_token_read(token: Seq<char>) -> ExecToken
    decreases token.len(),
{
    if token.len() == 0 {
        ExecToken { text: Seq::empty(), field: false, pending: false, refused: false }
    } else {
        exec_token_read(token.drop_last()).reading(token.last())
    }
}

/// A word of a launch command with its codes resolved: nothing where a code is unknown or incomplete;
/// no word where it consists of codes alone that stand for nothing.
pub open spec fn expanded_token(token: Seq<char>) -> Option<Option<Seq<char>>> {
    let read = exec_token_read(token);
    if read.refused || read.pending {
        None
    } else if read.field && read.text.len() == 0 {
        Some(None)
    } else {
        Some(Some(read.text))
    }
}

/// A word of a launch command with its codes resolved.
pub fn expand_exec_token(token: &str) -> (r: Option<Option<String>>)
    ensures
        r.deep_view() == expanded_token(token@),
{
    let chars = chars_of(token);
    let mut text: String = String::new();
    let mut field: bool = false;
    let mut pending: bool = false;
    let mut refused: bool = false;
    let mut i: usize = 0;
    assert(token@.take(0) =~= Seq::<char>::empty());
    while i < chars.len()
        invariant
            i <= chars@.len(),
            chars@ == token@,
            exec_token_read(token@.take(i as int)) == (ExecToken {
                text: text@,
                field,
                pending,
                refused,
            }),
        decreases chars@.len() - i,
    {
        assert(token@.take(i as int + 1).drop_last() =~= token@.take(i as int));
        let c = chars[i];
        if !refused {
            if pending {
                if c == '%' {
                    text.push('%');
                    pending = false;
                } else if c == 'f' || c == 'F' || c == 'u' || c == 'U' || c == 'i' || c == 'c' || c
                    == 'k' {
                    field = true;
                    pending = false;
                } else {
                    refused = true;
                }
            } else if c == '%' {
                pending = true;
            } else {
                text.push(c);
            }
        }
        i = i + 1;
    }
    assert(token@.take(i as int) =~= token@);
    if refused || pending {
        return None;
    }
    if field && text.as_str().is_empty() {
        return Some(None);
    }
    Some(Some(text))
}

/// The arguments with their codes resolved; those that stand for nothing are left out.
pub open spec fn expanded_arguments(arguments: Seq<Seq<char>>) -> Option<Seq<Seq<char>>>
    decreases arguments.len(),
{
    if arguments.len() == 0 {
        Some(Seq::empty())
    } else {
        match (expanded_arguments(arguments.drop_last()), expanded_token(arguments.last())) {
            (Some(earlier), Some(Some(argument))) => Some(earlier.push(argument)),
            (Some(earlier), Some(None)) => Some(earlier),
            _ => None,
        }
    }
}

fn expand_arguments(arguments: &Vec<String>) -> (r: Option<Vec<String>>)
    ensures
        r.deep_view() == expanded_arguments(arguments.deep_view()),
{
    let ghost all = arguments.deep_view();
    let mut expanded: Vec<String> = empty_list();
    let mut refused: bool = false;
    let mut i: usize = 0;
    assert(all.take(0) =~= Seq::<Seq<char>>::empty());
    while i < arguments.len()
        invariant
            i <= arguments@.len(),
            all == arguments.deep_view(),
            expanded_arguments(all.take(i as int)) == (if refused {
                None
            } else {
                Some(expanded.deep_view())
            }),
        decreases arguments@.len() - i,
    {
        assert(all[i as int] == arguments@[i as int]@);
        assert(all.take(i as int + 1).drop_last() =~= all.take(i as int));
        match expand_exec_token(arguments[i].as_str()) {
            None => {
                refused = true;
            },
            Some(None) => {},
            Some(Some(argument)) => {
                append(&mut expanded, argument);
            },
        }
        i = i + 1;
    }
    assert(all.take(i as int) =~= all);
    if refused {
        None
    } else {
        Some(expanded)
    }
}

/// The launch command that a line describes, where it is one that can be run as it stands.
pub open spec fn launch_described(line: Seq<char>) -> Option<ApplicationLaunchSpecView> {
    match command_read(line) {
        None => None,
        Some(command) => match (
            expanded_token(command.program),
            expanded_arguments(command.arguments),
        ) {
            (Some(Some(program)), Some(arguments)) if program.len() > 0 => Some(
                ApplicationLaunchSpecView { program, arguments },
            ),
            _ => None,
        },
    }
}

/// The launch command that a line describes.
pub fn parse_exec_line(line: &str) -> (r: Option<ApplicationLaunchSpec>)
    ensures
        r.deep_view() == launch_described(line@),
{
    let command = match CommandSpec::from_argv_line(line) {
        None => {
            return None;
        },
        Some(command) => command,
    };
    match (expand_exec_token(command.program.as_str()), expand_arguments(&command.arguments)) {
        (Some(Some(program)), Some(arguments)) => if program.as_str().is_empty() {
            None
        } else {
            Some(ApplicationLaunchSpec { program, arguments })
        },
        _ => None,
    }
}

// ---------------------------------------------------------------------------------------------
// Desktop entries
// ---------------------------------------------------------------------------------------------
/// What was read of a desktop entry.
#[derive(Debug, Clone, PartialEq, Eq)]
pub struct EntryRead {
    pub inside: bool,
    pub application_type: bool,
    pub hidden: bool,
    pub no_display: bool,
    pub dbus_activatable: bool,
    pub name: Option<String>,
    pub command: Option<String>,
}

/// What a `EntryRead` stands for.
#[verifier::ext_equal]
pub struct EntryReadView {
    pub inside: bool,
    pub application_type: bool,
    pub hidden: bool,
    pub no_display: bool,
    pub dbus_activatable: bool,
    pub name: Option<Seq<char>>,
    pub command: Option<Seq<char>>,
}

impl View for EntryRead {
    type V = EntryReadView;

    open spec fn view(&self) -> EntryReadView {
        EntryReadView {
            inside: self.inside.deep_view(),
            application_type: self.application_type.deep_view(),
            hidden: self.hidden.deep_view(),
            no_display: self.no_display.deep_view(),
            dbus_activatable: self.dbus_activatable.deep_view(),
            name: self.name.deep_view(),
            command: self.command.deep_view(),
        }
    }
}

impl DeepView for EntryRead {
    type V = EntryReadView;

    open spec fn deep_view(&self) -> EntryReadView {
        self.view()
    }
}

impl Replicate for EntryRead {
    fn replicate(&self) -> (r: Self) {
        EntryRead {
            inside: self.inside.replicate(),
            application_type: self.application_type.replicate(),
            hidden: self.hidden.replicate(),
            no_display: self.no_display.replicate(),
            dbus_activatable: self.dbus_activatable.replicate(),
            name: self.name.replicate(),
            command: self.command.replicate(),
        }
    }
}

/// A value that stands for yes.
pub open spec fn says_true(value: Seq<char>) -> bool {
    lower(value) == "true"@ || lower(value) == "1"@ || lower(value) == "yes"@
}

fn is_true(value: &str) -> (r: bool)
    ensures
        r == says_true(value@),
{
    let text = text_lower(value);
    same_text(text.as_str(), "true") || same_text(text.as_str(), "1") || same_text(
        text.as_str(),
        "yes",
    )
}

impl EntryReadView {
    /// A key of the entry and its value. A name that is empty does not replace one that is not; an
    /// empty command is no command.
    pub open spec fn told(self, key: Seq<char>, value: Seq<char>) -> EntryReadView {
        if key == "Type"@ {
            EntryReadView { application_type: lower(value) == "application"@, ..self }
        } else if key == "Name"@ {
            if value.len() > 0 {
                EntryReadView { name: Some(value), ..self }
            } else {
                self
            }
        } else if key == "Hidden"@ {
            EntryReadView { hidden: says_true(value), ..self }
        } else if key == "NoDisplay"@ {
            EntryReadView { no_display: says_true(value), ..self }
        } else if key == "DBusActivatable"@ {
            EntryReadView { dbus_activatable: says_true(value), ..self }
        } else if key == "Exec"@ {
            EntryReadView {
                command: if value.len() > 0 {
                    Some(value)
                } else {
                    None
                },
                ..self
            }
        } else {
            self
        }
    }

    /// One more line. Only what stands in the group of the entry itself counts.
    pub open spec fn reading(self, line: Seq<char>) -> EntryReadView {
        let text = trim(line);
        if has_prefix(text, "["@) && has_suffix(text, "]"@) {
            EntryReadView { inside: text == "[Desktop Entry]"@, ..self }
        } else if !self.inside || text.len() == 0 || has_prefix(text, "#"@) {
            self
        } else {
            match split_once(text, "="@) {
                None => self,
                Some((key, value)) => self.told(trim(key), trim(value)),
            }
        }
    }
}

/// What is read of the lines of a desktop entry.
pub open spec fn entry_read(all: Seq<Seq<char>>) -> EntryReadView
    decreases all.len(),
{
    if all.len() == 0 {
        EntryReadView {
            inside: false,
            application_type: false,
            hidden: false,
            no_display: false,
            dbus_activatable: false,
            name: None,
            command: None,
        }
    } else {
        entry_read(all.drop_last()).reading(all.last())
    }
}

fn tell(read: EntryRead, key: &str, value: String) -> (r: EntryRead)
    ensures
        r@ == read@.told(key@, value@),
{
    let mut next = read;
    if same_text(key, "Type") {
        next.application_type = same_text(text_lower(value.as_str()).as_str(), "application");
    } else if same_text(key, "Name") {
        if !value.as_str().is_empty() {
            next.name = Some(value);
        }
    } else if same_text(key, "Hidden") {
        next.hidden = is_true(value.as_str());
    } else if same_text(key, "NoDisplay") {
        next.no_display = is_true(value.as_str());
    } else if same_text(key, "DBusActivatable") {
        next.dbus_activatable = is_true(value.as_str());
    } else if same_text(key, "Exec") {
        next.command = if value.as_str().is_empty() {
            None
        } else {
            Some(value)
        };
    }
    next
}

fn read_entry(all: &Vec<String>) -> (r: EntryRead)
    ensures
        r@ == entry_read(all.deep_view()),
{
    let ghost view = all.deep_view();
    let mut read = EntryRead {
        inside: false,
        application_type: false,
        hidden: false,
        no_display: false,
        dbus_activatable: false,
        name: None,
        command: None,
    };
    let mut i: usize = 0;
    assert(view.take(0) =~= Seq::<Seq<char>>::empty());
    while i < all.len()
        invariant
            i <= all@.len(),
            view == all.deep_view(),
            read@ == entry_read(view.take(i as int)),
        decreases all@.len() - i,
    {
        assert(view[i as int] == all@[i as int]@);
        assert(view.take(i as int + 1).drop_last() =~= view.take(i as int));
        let text = text_trim(all[i].as_str());
        if text_starts_with(text.as_str(), "[") && text_ends_with(text.as_str(), "]") {
            read.inside = same_text(text.as_str(), "[Desktop Entry]");
        } else if read.inside && !text.as_str().is_empty() && !text_starts_with(
            text.as_str(),
            "#",
        ) {
            if let Some((key, value)) = text_split_once(text.as_str(), "=") {
                read = tell(
                    read,
                    text_trim(key.as_str()).as_str(),
                    text_trim(value.as_str()),
                );
            }
        }
        i = i + 1;
    }
    assert(view.take(i as int) =~= view);
    read
}

/// The identity of the application whose entry is at a path: the name of the file without its ending.
pub open spec fn entry_identity(path: Seq<char>) -> Option<Seq<char>> {
    match file_name(path) {
        None => None,
        Some(name) => match strip_suffix(name, ".desktop"@) {
            Some(id) if id.len() > 0 && !has_control(id) => Some(id),
            _ => None,
        },
    }
}

/// What a desktop entry says of an application: nothing where it is no application, is hidden, or
/// cannot be started.
pub open spec fn entry_described(contents: Seq<char>, path: Seq<char>) -> Option<
    ParsedDesktopEntryView,
> {
    let read = entry_read(lines(contents));
    if !read.application_type || read.hidden || read.no_display || (read.command is None
        && !read.dbus_activatable) {
        None
    } else {
        match (read.name, entry_identity(path)) {
            (Some(name), Some(id)) if !has_control(name) => Some(
                ParsedDesktopEntryView {
                    application: InstalledApplicationView { id, name },
                    launch: match read.command {
                        Some(line) => launch_described(line),
                        None => None,
                    },
                },
            ),
            _ => None,
        }
    }
}

fn find_identity(path: &str) -> (r: Option<String>)
    ensures
        r.deep_view() == entry_identity(path@),
{
    match path_file_name(path) {
        None => None,
        Some(name) => match text_strip_suffix(name.as_str(), ".desktop") {
            None => None,
            Some(id) => if id.as_str().is_empty() || text_has_control(id.as_str()) {
                None
            } else {
                Some(id)
            },
        },
    }
}

/// What a desktop entry says of an application.
pub fn parse_desktop_entry_contents_with_launch(contents: &str, path: &str) -> (r: Option<
    ParsedDesktopEntry,
>)
    ensures
        r.deep_view() == entry_described(contents@, path@),
{
    let read = read_entry(&text_lines(contents));
    if !read.application_type || read.hidden || read.no_display || (read.command.is_none()
        && !read.dbus_activatable) {
        return None;
    }
    let launch = match &read.command {
        Some(line) => parse_exec_line(line.as_str()),
        None => None,
    };
    match (read.name, find_identity(path)) {
        (Some(name), Some(id)) => if text_has_control(name.as_str()) {
            None
        } else {
            Some(ParsedDesktopEntry { application: InstalledApplication { id, name }, launch })
        },
        _ => None,
    }
}

// ---------------------------------------------------------------------------------------------
// The catalog
// ---------------------------------------------------------------------------------------------
/// An application comes before another by its name, whatever the case of its letters, and by its
/// identity where the names agree.
pub open spec fn listed_before(a: InstalledApplicationView, b: InstalledApplicationView) -> bool {
    text_before(lower(a.name), lower(b.name)) || (lower(a.name) == lower(b.name) && text_before(
        a.id,
        b.id,
    ))
}

fn is_listed_before(a: &InstalledApplication, b: &InstalledApplication) -> (r: bool)
    ensures
        r == listed_before(a@, b@),
{
    let first = text_lower(a.name.as_str());
    let second = text_lower(b.name.as_str());
    text_is_before(first.as_str(), second.as_str()) || (same_text(
        first.as_str(),
        second.as_str(),
    ) && text_is_before(a.id.as_str(), b.id.as_str()))
}

/// One of the applications has the identity.
pub open spec fn has_application(applications: Seq<InstalledApplicationView>, id: Seq<char>) -> bool {
    exists|i: int| 0 <= i < applications.len() && (#[trigger] applications[i]).id == id
}

fn application_is_there(applications: &Vec<InstalledApplication>, id: &str) -> (r: bool)
    ensures
        r == has_application(applications.deep_view(), id@),
{
    let ghost all = applications.deep_view();
    let mut i: usize = 0;
    while i < applications.len()
        invariant
            i <= applications@.len(),
            all == applications.deep_view(),
            forall|k: int| 0 <= k < i ==> (#[trigger] all[k]).id != id@,
        decreases applications@.len() - i,
    {
        assert(all[i as int] == applications@[i as int]@);
        if same_text(applications[i].id.as_str(), id) {
            assert(all[i as int].id == id@);
            return true;
        }
        i = i + 1;
    }
    false
}

/// The applications with one more, before the first that comes after it.
pub open spec fn with_application(
    applications: Seq<InstalledApplicationView>,
    application: InstalledApplicationView,
) -> Seq<InstalledApplicationView>
    decreases applications.len(),
{
    if applications.len() == 0 {
        seq![application]
    } else if listed_before(application, applications[0]) {
        seq![application] + applications
    } else {
        seq![applications[0]] + with_application(applications.drop_first(), application)
    }
}

proof fn lemma_with_application(
    applications: Seq<InstalledApplicationView>,
    application: InstalledApplicationView,
    at: int,
)
    requires
        0 <= at <= applications.len(),
        forall|k: int| 0 <= k < at ==> !listed_before(application, #[trigger] applications[k]),
        at < applications.len() ==> listed_before(application, applications[at]),
    ensures
        with_application(applications, application) == applications.insert(at, application),
    decreases applications.len(),
{
    if applications.len() == 0 {
        assert(applications.insert(at, application) =~= seq![application]);
    } else if at == 0 {
        assert(applications.insert(at, application) =~= seq![application] + applications);
    } else {
        assert forall|k: int| 0 <= k < at - 1 implies !listed_before(
            application,
            #[trigger] applications.drop_first()[k],
        ) by {
            assert(applications.drop_first()[k] == applications[k + 1]);
        }
        lemma_with_application(applications.drop_first(), application, at - 1);
        assert(applications.insert(at, application) =~= seq![applications[0]]
            + applications.drop_first().insert(at - 1, application));
    }
}

fn put_application(
    applications: Vec<InstalledApplication>,
    application: InstalledApplication,
) -> (r: Vec<InstalledApplication>)
    ensures
        r.deep_view() == with_application(applications.deep_view(), application@),
{
    let ghost all = applications.deep_view();
    let mut at: usize = 0;
    while at < applications.len() && !is_listed_before(&application, &applications[at])
        invariant
            at <= applications@.len(),
            all == applications.deep_view(),
            forall|k: int| 0 <= k < at ==> !listed_before(application@, #[trigger] all[k]),
        decreases applications@.len() - at,
    {
        assert(all[at as int] == applications@[at as int]@);
        at = at + 1;
    }
    let ghost before = applications@;
    proof {
        if at < before.len() {
            assert(all[at as int] == before[at as int]@);
        }
        lemma_with_application(all, application@, at as int);
    }
    let ghost added = application@;
    let mut updated = applications;
    updated.insert(at, application);
    assert(updated.deep_view() =~= all.insert(at as int, added)) by {
        assert forall|k: int| 0 <= k < updated@.len() implies updated.deep_view()[k] == all.insert(
            at as int,
            added,
        )[k] by {
            if k < at {
                assert(updated@[k] == before[k]);
            } else if k > at {
                assert(updated@[k] == before[k - 1]);
            }
        }
    }
    updated
}

/// The applications that the entries describe, each identity once: the first entry with it counts.
pub open spec fn catalog_of(files: Seq<DesktopFileView>) -> Seq<InstalledApplicationView>
    decreases files.len(),
{
    if files.len() == 0 {
        Seq::empty()
    } else {
        let earlier = catalog_of(files.drop_last());
        match entry_described(files.last().contents, files.last().path) {
            Some(parsed) if !has_application(earlier, parsed.application.id) => with_application(
                earlier,
                parsed.application,
            ),
            _ => earlier,
        }
    }
}

/// The launch command of an application: that of the first of its entries that has one.
pub open spec fn launch_found(files: Seq<DesktopFileView>, id: Seq<char>) -> Option<
    ApplicationLaunchSpecView,
>
    decreases files.len(),
{
    if files.len() == 0 {
        None
    } else {
        match launch_found(files.drop_last(), id) {
            Some(launch) => Some(launch),
            None => match entry_described(files.last().contents, files.last().path) {
                Some(parsed) if parsed.application.id == id => parsed.launch,
                _ => None,
            },
        }
    }
}

/// One of the entries describes the application.
pub open spec fn is_described(files: Seq<DesktopFileView>, id: Seq<char>) -> bool
    decreases files.len(),
{
    files.len() > 0 && (is_described(files.drop_last(), id) || (entry_described(
        files.last().contents,
        files.last().path,
    ) matches Some(parsed) && parsed.application.id == id))
}

/// The launch command of an application, or why there is none.
pub open spec fn launch_resolved(files: Seq<DesktopFileView>, id: Seq<char>) -> Result<
    ApplicationLaunchSpecView,
    WorkstateErrorView,
> {
    match launch_found(files, id) {
        Some(launch) => Ok(launch),
        None => Err(
            error_of(
                ErrorCategory::Platform,
                if is_described(files, id) {
                    "installed application '"@ + id
                        + "' does not expose a safe executable launch command"@
                } else {
                    "installed application '"@ + id
                        + "' could not be resolved to a launch command"@
                },
            ).with("application_id"@, id),
        ),
    }
}

/// The directories that desktop entries are looked for in.
#[derive(Debug, Clone)]
pub struct LinuxApplicationCatalog {
    directories: Vec<String>,
}

impl LinuxApplicationCatalog {
    pub closed spec fn places(&self) -> Seq<Seq<char>> {
        self.directories.deep_view()
    }

    /// The catalog of the usual directories.
    pub fn new(data_home: Option<&str>, home: Option<&str>, data_directories: Option<&str>) -> (r:
        Self)
        ensures
            r.places() == application_directories(
                data_home.deep_view(),
                home.deep_view(),
                data_directories.deep_view(),
            ),
    {
        LinuxApplicationCatalog {
            directories: default_application_directories(data_home, home, data_directories),
        }
    }

    /// The catalog of the given directories.
    pub fn with_directories(directories: Vec<String>) -> (r: Self)
        ensures
            r.places() == directories.deep_view(),
    {
        LinuxApplicationCatalog { directories }
    }

    /// The directories, in the order in which they are read.
    pub fn directories(&self) -> (r: &Vec<String>)
        ensures
            r.deep_view() == self.places(),
    {
        &self.directories
    }

    /// The applications that the entries of the catalog describe, in the order in which they are
    /// shown.
    pub fn list(files: &Vec<DesktopFile>) -> (r: Vec<InstalledApplication>)
        ensures
            r.deep_view() == catalog_of(files.deep_view()),
    {
        let ghost all = files.deep_view();
        let mut applications: Vec<InstalledApplication> = empty_list();
        let mut i: usize = 0;
        assert(all.take(0) =~= Seq::<DesktopFileView>::empty());
        while i < files.len()
            invariant
                i <= files@.len(),
                all == files.deep_view(),
                applications.deep_view() == catalog_of(all.take(i as int)),
            decreases files@.len() - i,
        {
            assert(all[i as int] == files@[i as int]@);
            assert(all.take(i as int + 1).drop_last() =~= all.take(i as int));
            if let Some(parsed) = parse_desktop_entry_contents_with_launch(
                files[i].contents.as_str(),
                files[i].path.as_str(),
            ) {
                if !application_is_there(&applications, parsed.application.id.as_str()) {
                    applications = put_application(applications, parsed.application);
                }
            }
            i = i + 1;
        }
        assert(all.take(i as int) =~= all);
        applications
    }

    /// The launch command of an application.
    pub fn launch_spec(files: &Vec<DesktopFile>, application_id: &str) -> (r: Result<
        ApplicationLaunchSpec,
        WorkstateError,
    >)
        ensures
            seen(r) == launch_resolved(files.deep_view(), application_id@),
    {
        let ghost all = files.deep_view();
        let mut launch: Option<ApplicationLaunchSpec> = None;
        let mut described: bool = false;
        let mut i: usize = 0;
        assert(all.take(0) =~= Seq::<DesktopFileView>::empty());
        while i < files.len()
            invariant
                i <= files@.len(),
                all == files.deep_view(),
                launch.deep_view() == launch_found(all.take(i as int), application_id@),
                described == is_described(all.take(i as int), application_id@),
            decreases files@.len() - i,
        {
            assert(all[i as int] == files@[i as int]@);
            assert(all.take(i as int + 1).drop_last() =~= all.take(i as int));
            if let Some(parsed) = parse_desktop_entry_contents_with_launch(
                files[i].contents.as_str(),
                files[i].path.as_str(),
            ) {
                if same_text(parsed.application.id.as_str(), application_id) {
                    described = true;
                    if launch.is_none() {
                        launch = parsed.launch;
                    }
                }
            }
            i = i + 1;
        }
        assert(all.take(i as int) =~= all);
        if let Some(launch) = launch {
            return Ok(launch);
        }
        let message = if described {
            join3(
                "installed application '",
                application_id,
                "' does not expose a safe executable launch command",
            )
        } else {
            join3(
                "installed application '",
                application_id,
                "' could not be resolved to a launch command",
            )
        };
        Err(
            WorkstateError::new(ErrorCategory::Platform, message.as_str()).with_context(
                "application_id",
                application_id,
            ),
        )
    }
}

// ---------------------------------------------------------------------------------------------
// Directories and files
// ---------------------------------------------------------------------------------------------
/// A variable that holds more than white space.
pub open spec fn filled(value: Option<Seq<char>>) -> Option<Seq<char>> {
    match value {
        Some(text) if !is_blank(text) => Some(text),
        _ => None,
    }
}

fn filled_text<'a>(value: Option<&'a str>) -> (r: Option<&'a str>)
    ensures
        r.deep_view() == filled(value.deep_view()),
{
    match value {
        Some(text) => if text_trim(text).as_str().is_empty() {
            None
        } else {
            Some(text)
        },
        None => None,
    }
}

/// The directories in their order, each once: a second spelling of one is left out.
pub open spec fn distinct_paths(paths: Seq<Seq<char>>) -> Seq<Seq<char>>
    decreases paths.len(),
{
    if paths.len() == 0 {
        Seq::empty()
    } else {
        let earlier = distinct_paths(paths.drop_last());
        if has_path(earlier, paths.last()) {
            earlier
        } else {
            earlier.push(paths.last())
        }
    }
}

pub open spec fn has_path(paths: Seq<Seq<char>>, path: Seq<char>) -> bool {
    exists|i: int| 0 <= i < paths.len() && same_path(#[trigger] paths[i], path)
}

fn path_is_there(paths: &Vec<String>, path: &str) -> (r: bool)
    ensures
        r == has_path(paths.deep_view(), path@),
{
    let ghost all = paths.deep_view();
    let mut i: usize = 0;
    while i < paths.len()
        invariant
            i <= paths@.len(),
            all == paths.deep_view(),
            forall|k: int| 0 <= k < i ==> !same_path(#[trigger] all[k], path@),
        decreases paths@.len() - i,
    {
        assert(all[i as int] == paths@[i as int]@);
        if paths_agree(paths[i].as_str(), path) {
            return true;
        }
        i = i + 1;
    }
    false
}

/// The directories of the applications under directories of shared data.
pub open spec fn applications_under(directories: Seq<Seq<char>>) -> Seq<Seq<char>> {
    directories.map_values(|directory: Seq<char>| joined_path(directory, "applications"@))
}

/// The directories that applications are looked for in, before those that occur twice are left out.
pub open spec fn directory_candidates(
    data_home: Option<Seq<char>>,
    home: Option<Seq<char>>,
    data_directories: Option<Seq<char>>,
) -> Seq<Seq<char>> {
    let own = match (filled(data_home), filled(home)) {
        (Some(data_home), _) => seq![joined_path(data_home, "applications"@)],
        (None, Some(home)) => seq![joined_path(home, ".local/share/applications"@)],
        (None, None) => Seq::empty(),
    };
    let shared = match filled(data_directories) {
        Some(text) => split_on(text, ':'),
        None => seq!["/usr/local/share"@, "/usr/share"@],
    };
    let flatpak = match filled(home) {
        Some(home) => seq![
            joined_path(home, ".local/share/flatpak/exports/share/applications"@),
        ],
        None => Seq::empty(),
    };
    own + applications_under(shared) + flatpak + seq![
        "/var/lib/flatpak/exports/share/applications"@,
        "/var/lib/snapd/desktop/applications"@,
    ]
}

/// The directories that applications are looked for in.
pub open spec fn application_directories(
    data_home: Option<Seq<char>>,
    home: Option<Seq<char>>,
    data_directories: Option<Seq<char>>,
) -> Seq<Seq<char>> {
    distinct_paths(directory_candidates(data_home, home, data_directories))
}

/// The directories that applications are looked for in: those of the user first.
pub fn default_application_directories(
    data_home: Option<&str>,
    home: Option<&str>,
    data_directories: Option<&str>,
) -> (r: Vec<String>)
    ensures
        r.deep_view() == application_directories(
            data_home.deep_view(),
            home.deep_view(),
            data_directories.deep_view(),
        ),
{
    let home = filled_text(home);
    let mut candidates: Vec<String> = empty_list();
    match (filled_text(data_home), home) {
        (Some(data_home), _) => {
            append(&mut candidates, path_join(data_home, "applications"));
        },
        (None, Some(home)) => {
            append(&mut candidates, path_join(home, ".local/share/applications"));
        },
        (None, None) => {},
    }
    let ghost own = candidates.deep_view();
    let shared = match filled_text(data_directories) {
        Some(text) => text_split(text, ':'),
        None => crate::values::text_list2("/usr/local/share", "/usr/share"),
    };
    let ghost all = shared.deep_view();
    let mut i: usize = 0;
    assert(candidates.deep_view() =~= own + applications_under(all.take(0)));
    while i < shared.len()
        invariant
            i <= shared@.len(),
            all == shared.deep_view(),
            candidates.deep_view() == own + applications_under(all.take(i as int)),
        decreases shared@.len() - i,
    {
        assert(all[i as int] == shared@[i as int]@);
        append(&mut candidates, path_join(shared[i].as_str(), "applications"));
        assert(own + applications_under(all.take(i as int + 1)) =~= (own + applications_under(
            all.take(i as int),
        )).push(joined_path(all[i as int], "applications"@)));
        i = i + 1;
    }
    assert(all.take(i as int) =~= all);
    if let Some(home) = home {
        append(
            &mut candidates,
            path_join(home, ".local/share/flatpak/exports/share/applications"),
        );
    }
    append_text(&mut candidates, "/var/lib/flatpak/exports/share/applications");
    append_text(&mut candidates, "/var/lib/snapd/desktop/applications");
    let ghost expected = directory_candidates(
        data_home.deep_view(),
        home.deep_view(),
        data_directories.deep_view(),
    );
    assert(candidates.deep_view() =~= expected);
    let mut distinct: Vec<String> = empty_list();
    let mut j: usize = 0;
    assert(expected.take(0) =~= Seq::<Seq<char>>::empty());
    while j < candidates.len()
        invariant
            j <= candidates@.len(),
            expected == candidates.deep_view(),
            distinct.deep_view() == distinct_paths(expected.take(j as int)),
        decreases candidates@.len() - j,
    {
        assert(expected[j as int] == candidates@[j as int]@);
        assert(expected.take(j as int + 1).drop_last() =~= expected.take(j as int));
        if !path_is_there(&distinct, candidates[j].as_str()) {
            append(&mut distinct, candidates[j].clone());
        }
        j = j + 1;
    }
    assert(expected.take(j as int) =~= expected);
    distinct
}

/// A name of a file with the ending of a desktop entry.
pub open spec fn names_entry(name: Seq<char>) -> bool {
    has_suffix(name, ".desktop"@) && name.len() > ".desktop"@.len()
}

/// The desktop entries among the files of a directory, in the order of their names.
pub fn desktop_files(names: &Vec<String>) -> (r: Vec<String>)
    ensures
        r.deep_view() == sorted(
            names.deep_view().filter(|name: Seq<char>| names_entry(name)),
        ),
{
    let ghost all = names.deep_view();
    let ghost keep = |name: Seq<char>| names_entry(name);
    let mut entries: Vec<String> = empty_list();
    let mut i: usize = 0;
    proof {
        reveal_strlit(".desktop");
        lemma_filter_ends(all, keep);
    }
    while i < names.len()
        invariant
            i <= names@.len(),
            all == names.deep_view(),
            ".desktop"@.len() == 8,
            keep == (|name: Seq<char>| names_entry(name)),
            entries.deep_view() == all.take(i as int).filter(keep),
        decreases names@.len() - i,
    {
        proof {
            lemma_filter_step(all, i as int, keep);
        }
        assert(all[i as int] == names@[i as int]@);
        if text_ends_with(names[i].as_str(), ".desktop") && chars_of(names[i].as_str()).len()
            > 8 {
            append(&mut entries, names[i].clone());
        }
        i = i + 1;
    }
    sort_texts(&entries)
}

// ---------------------------------------------------------------------------------------------
// Laws
// ---------------------------------------------------------------------------------------------
/// An application stands in the catalog only where an entry describes it: the first with its identity.
pub proof fn law_catalog_lists_described_applications(files: Seq<DesktopFileView>, id: Seq<char>)
    ensures
        has_application(catalog_of(files), id) == is_described(files, id),
    decreases files.len(),
{
    if files.len() > 0 {
        law_catalog_lists_described_applications(files.drop_last(), id);
        let earlier = catalog_of(files.drop_last());
        if let Some(parsed) = entry_described(files.last().contents, files.last().path) {
            law_catalog_lists_described_applications(files.drop_last(), parsed.application.id);
            if !has_application(earlier, parsed.application.id) {
                lemma_holds_both(earlier, parsed.application, id);
            }
        }
    }
}

proof fn lemma_holds_both(
    applications: Seq<InstalledApplicationView>,
    application: InstalledApplicationView,
    id: Seq<char>,
)
    ensures
        has_application(with_application(applications, application), id) == (has_application(
            applications,
            id,
        ) || application.id == id),
    decreases applications.len(),
{
    let all = with_application(applications, application);
    if applications.len() == 0 {
        assert(all[0] == application);
    } else if listed_before(application, applications[0]) {
        assert(all[0] == application);
        assert forall|k: int| 0 <= k < applications.len() implies all[k + 1]
            == #[trigger] applications[k] by {}
        if has_application(all, id) {
            let k = choose|k: int| 0 <= k < all.len() && (#[trigger] all[k]).id == id;
            if k > 0 {
                assert(applications[k - 1].id == id);
            }
        }
        if has_application(applications, id) {
            let k = choose|k: int|
                0 <= k < applications.len() && (#[trigger] applications[k]).id == id;
            assert(all[k + 1].id == id);
        }
    } else {
        let tail = with_application(applications.drop_first(), application);
        lemma_holds_both(applications.drop_first(), application, id);
        assert(all[0] == applications[0]);
        assert forall|k: int| 0 <= k < tail.len() implies all[k + 1] == #[trigger] tail[k] by {}
        if has_application(all, id) {
            let k = choose|k: int| 0 <= k < all.len() && (#[trigger] all[k]).id == id;
            if k > 0 {
                assert(tail[k - 1].id == id);
            } else {
                assert(applications[0].id == id);
            }
        }
        if has_application(tail, id) {
            let k = choose|k: int| 0 <= k < tail.len() && (#[trigger] tail[k]).id == id;
            assert(all[k + 1].id == id);
        }
        if has_application(applications, id) {
            let k = choose|k: int|
                0 <= k < applications.len() && (#[trigger] applications[k]).id == id;
            if k > 0 {
                assert(applications.drop_first()[k - 1].id == id);
            } else {
                assert(all[0].id == id);
            }
        }
        if has_application(applications.drop_first(), id) {
            let k = choose|k: int|
                0 <= k < applications.drop_first().len() && (
                #[trigger] applications.drop_first()[k]).id == id;
            assert(applications[k + 1].id == id);
        }
    }
}

/// Entries that stand further back are looked at only where those before them hold no launch command.
pub proof fn law_first_launch_counts(
    earlier: Seq<DesktopFileView>,
    later: Seq<DesktopFileView>,
    id: Seq<char>,
)
    ensures
        launch_found(earlier + later, id) == (match launch_found(earlier, id) {
            Some(launch) => Some(launch),
            None => launch_found(later, id),
        }),
        launch_resolved(earlier, id) is Ok ==> launch_resolved(earlier + later, id)
            == launch_resolved(earlier, id),
    decreases later.len(),
{
    if later.len() == 0 {
        assert(earlier + later =~= earlier);
    } else {
        assert((earlier + later).drop_last() =~= earlier + later.drop_last());
        assert((earlier + later).last() == later.last());
        law_first_launch_counts(earlier, later.drop_last(), id);
    }
}

/// A launch command is only found for an application that is listed.
pub proof fn law_launch_needs_listing(files: Seq<DesktopFileView>, id: Seq<char>)
    ensures
        launch_found(files, id) is Some ==> has_application(catalog_of(files), id),
    decreases files.len(),
{
    law_catalog_lists_described_applications(files, id);
    lemma_launch_is_described(files, id);
}

proof fn lemma_launch_is_described(files: Seq<DesktopFileView>, id: Seq<char>)
    ensures
        launch_found(files, id) is Some ==> is_described(files, id),
    decreases files.len(),
{
    if files.len() > 0 {
        lemma_launch_is_described(files.drop_last(), id);
    }
}

/// Applications in the order in which they are shown.
pub open spec fn in_display_order(applications: Seq<InstalledApplicationView>) -> bool {
    forall|i: int, j: int|
        0 <= i < j < applications.len() ==> listed_before(
            #[trigger] applications[i],
            #[trigger] applications[j],
        )
}

proof fn lemma_listed_transitive(
    a: InstalledApplicationView,
    b: InstalledApplicationView,
    c: InstalledApplicationView,
)
    requires
        listed_before(a, b),
        listed_before(b, c),
    ensures
        listed_before(a, c),
{
    if text_before(lower(a.name), lower(b.name)) && text_before(lower(b.name), lower(c.name)) {
        lemma_before_transitive(lower(a.name), lower(b.name), lower(c.name));
    } else if lower(a.name) == lower(b.name) && lower(b.name) == lower(c.name) && text_before(
        a.id,
        b.id,
    ) && text_before(b.id, c.id) {
        lemma_before_transitive(a.id, b.id, c.id);
    }
}

proof fn lemma_stays_in_order(
    applications: Seq<InstalledApplicationView>,
    application: InstalledApplicationView,
)
    requires
        in_display_order(applications),
        !has_application(applications, application.id),
    ensures
        in_display_order(with_application(applications, application)),
        forall|k: int|
            0 <= k < with_application(applications, application).len() ==> (
            #[trigger] with_application(applications, application)[k] == application
                || applications.contains(with_application(applications, application)[k])),
    decreases applications.len(),
{
    let all = with_application(applications, application);
    if applications.len() == 0 {
    } else if listed_before(application, applications[0]) {
        assert forall|k: int| 0 < k < all.len() implies listed_before(application, #[trigger] all[k]) by {
            assert(all[k] == applications[k - 1]);
            if k > 1 {
                lemma_listed_transitive(application, applications[0], applications[k - 1]);
            }
        }
        assert forall|i: int, j: int| 0 <= i < j < all.len() implies listed_before(
            #[trigger] all[i],
            #[trigger] all[j],
        ) by {
            if i > 0 {
                assert(all[i] == applications[i - 1] && all[j] == applications[j - 1]);
            }
        }
        assert forall|k: int| 0 <= k < all.len() implies (#[trigger] all[k] == application
            || applications.contains(all[k])) by {
            if k > 0 {
                assert(all[k] == applications[k - 1]);
            }
        }
    } else {
        let rest = applications.drop_first();
        let tail = with_application(rest, application);
        assert forall|i: int, j: int| 0 <= i < j < rest.len() implies listed_before(
            #[trigger] rest[i],
            #[trigger] rest[j],
        ) by {
            assert(rest[i] == applications[i + 1] && rest[j] == applications[j + 1]);
        }
        if has_application(rest, application.id) {
            let k = choose|k: int| 0 <= k < rest.len() && (#[trigger] rest[k]).id == application.id;
            assert(applications[k + 1].id == application.id);
        }
        lemma_stays_in_order(rest, application);
        lemma_before_total(lower(application.name), lower(applications[0].name));
        lemma_before_total(application.id, applications[0].id);
        assert(applications[0].id != application.id);
        assert(listed_before(applications[0], application));
        assert forall|k: int| 0 <= k < tail.len() implies listed_before(
            applications[0],
            #[trigger] tail[k],
        ) by {
            if tail[k] != application {
                let at = choose|at: int| 0 <= at < rest.len() && rest[at] == tail[k];
                assert(rest[at] == applications[at + 1]);
            }
        }
        assert forall|i: int, j: int| 0 <= i < j < all.len() implies listed_before(
            #[trigger] all[i],
            #[trigger] all[j],
        ) by {
            assert(all[j] == tail[j - 1]);
            if i > 0 {
                assert(all[i] == tail[i - 1]);
            }
        }
        assert forall|k: int| 0 <= k < all.len() implies (#[trigger] all[k] == application
            || applications.contains(all[k])) by {
            if k > 0 {
                assert(all[k] == tail[k - 1]);
                if tail[k - 1] != application {
                    let at = choose|at: int| 0 <= at < rest.len() && rest[at] == tail[k - 1];
                    assert(rest[at] == applications[at + 1]);
                }
            }
        }
    }
}

/// The catalog is in the order in which it is shown, whatever the order of the entries, and lists no
/// application twice.
pub proof fn law_catalog_is_in_display_order(files: Seq<DesktopFileView>)
    ensures
        in_display_order(catalog_of(files)),
        forall|i: int, j: int|
            0 <= i < j < catalog_of(files).len() ==> (#[trigger] catalog_of(files)[i]) != (
            #[trigger] catalog_of(files)[j]),
    decreases files.len(),
{
    if files.len() > 0 {
        law_catalog_is_in_display_order(files.drop_last());
        let earlier = catalog_of(files.drop_last());
        if let Some(parsed) = entry_described(files.last().contents, files.last().path) {
            if !has_application(earlier, parsed.application.id) {
                lemma_stays_in_order(earlier, parsed.application);
            }
        }
    }
    let catalog = catalog_of(files);
    assert forall|i: int, j: int| 0 <= i < j < catalog.len() implies (#[trigger] catalog[i]) != (
    #[trigger] catalog[j]) by {
        lemma_before_irreflexive(lower(catalog[i].name));
        lemma_before_irreflexive(catalog[i].id);
    }
}

/// What was read of an entry, but for whether the reading still stands in its group.
pub open spec fn same_entry(a: EntryReadView, b: EntryReadView) -> bool {
    a == EntryReadView { inside: a.inside, ..b }
}

/// A line that opens a group of the file.
pub open spec fn opens_group(line: Seq<char>) -> bool {
    trim(line).len() >= 2 && trim(line)[0] == '[' && trim(line).last() == ']'
}

/// A line that opens the group of the entry itself.
pub open spec fn opens_entry(line: Seq<char>) -> bool {
    trim(line) == "[Desktop Entry]"@
}

proof fn lemma_group_line(line: Seq<char>)
    ensures
        has_prefix(trim(line), "["@) && has_suffix(trim(line), "]"@) <==> opens_group(line),
        opens_entry(line) ==> opens_group(line),
{
    reveal_strlit("[");
    reveal_strlit("]");
    reveal_strlit("[Desktop Entry]");
    let text = trim(line);
    if text.len() > 0 {
        assert(text.subrange(0, 1) =~= seq![text[0]]);
        assert(text.subrange(text.len() - 1, text.len() as int) =~= seq![text.last()]);
        assert("["@ =~= seq!['[']);
        assert("]"@ =~= seq![']']);
        assert(seq![text[0]][0] == text[0]);
        assert(seq![text.last()][0] == text.last());
        assert("["@[0] == '[' && "]"@[0] == ']');
        if text.len() == 1 {
            assert(text[0] == text.last());
        }
    }
}

proof fn lemma_other_lines(read: EntryReadView, all: Seq<Seq<char>>, others: Seq<Seq<char>>)
    requires
        read == entry_read(all),
        !read.inside,
        forall|i: int| 0 <= i < others.len() ==> !opens_entry(#[trigger] others[i]),
    ensures
        entry_read(all + others) == read,
    decreases others.len(),
{
    if others.len() == 0 {
        assert(all + others =~= all);
    } else {
        let front = others.drop_last();
        assert(forall|i: int| 0 <= i < front.len() ==> #[trigger] front[i] == others[i]);
        lemma_other_lines(read, all, front);
        assert((all + others).drop_last() =~= all + front);
        assert((all + others).last() == others.last());
        assert(!opens_entry(others[others.len() - 1]));
        lemma_group_line(others.last());
    }
}

/// Only the group of the entry counts: the header of another group, and whatever lines follow it up to
/// the next header of the entry's group, change nothing of what was read.
pub proof fn law_other_groups_do_not_count(
    entry: Seq<Seq<char>>,
    header: Seq<char>,
    others: Seq<Seq<char>>,
)
    requires
        opens_group(header),
        !opens_entry(header),
        forall|i: int| 0 <= i < others.len() ==> !opens_entry(#[trigger] others[i]),
    ensures
        same_entry(entry_read(entry.push(header) + others), entry_read(entry)),
{
    let headed = entry.push(header);
    assert(headed.drop_last() =~= entry);
    lemma_group_line(header);
    lemma_other_lines(entry_read(headed), headed, others);
}

proof fn lemma_lines_behind(before: Seq<Seq<char>>, all: Seq<Seq<char>>)
    requires
        entry_read(before) == entry_read(Seq::empty()),
    ensures
        entry_read(before + all) == entry_read(all),
    decreases all.len(),
{
    if all.len() == 0 {
        assert(before + all =~= before);
        assert(all =~= Seq::empty());
    } else {
        lemma_lines_behind(before, all.drop_last());
        assert((before + all).drop_last() =~= before + all.drop_last());
        assert((before + all).last() == all.last());
    }
}

/// Lines in front of the group of the entry change nothing of what is read in it.
pub proof fn law_lines_before_the_entry_do_not_count(
    before: Seq<Seq<char>>,
    entry: Seq<Seq<char>>,
)
    requires
        forall|i: int| 0 <= i < before.len() ==> !opens_entry(#[trigger] before[i]),
    ensures
        entry_read(before + entry) == entry_read(entry),
{
    let nothing = Seq::<Seq<char>>::empty();
    lemma_other_lines(entry_read(nothing), nothing, before);
    assert(nothing + before =~= before);
    lemma_lines_behind(before, entry);
}

/// The fields that a description of an application has.
pub open spec fn field_line(key: Seq<char>, value: Seq<char>) -> Seq<char> {
    key + seq!['='] + value
}

proof fn lemma_field_line(read: EntryReadView, key: Seq<char>, value: Seq<char>)
    requires
        read.inside,
        key.len() > 0,
        !key.contains('='),
        key[0] != '#',
        key[0] != '[',
        !is_white(key[0]),
        !is_white(key.last()),
    ensures
        read.reading(field_line(key, value)) == read.told(key, trim(value)),
{
    reveal_strlit("=");
    reveal_strlit("#");
    assert("="@ =~= seq!['=']);
    let line = field_line(key, value);
    law_trim_takes_only_white_space(line);
    let (i, j) = choose|i: int, j: int|
        0 <= i <= j <= line.len() && trim(line) == #[trigger] line.subrange(i, j) && (forall|k: int|
            0 <= k < i ==> is_white(#[trigger] line[k])) && forall|k: int|
            j <= k < line.len() ==> is_white(#[trigger] line[k]);
    assert(line[0] == key[0]);
    assert(line[key.len() as int] == '=');
    assert(!is_white('='));
    assert(i == 0);
    assert(j > key.len());
    let rest = value.take(j - key.len() - 1);
    let text = trim(line);
    assert(text =~= key + seq!['='] + rest);
    law_halves_are_found_again(key, '=', rest);
    lemma_group_line(line);
    assert(text[0] == key[0]);
    assert(!has_prefix(text, "#"@)) by {
        if has_prefix(text, "#"@) {
            assert(text.subrange(0, 1)[0] == text[0]);
            assert("#"@[0] == '#');
        }
    }
    let none = Seq::<char>::empty();
    law_white_space_round_a_text_does_not_count(none, key, none);
    assert(none + key + none =~= key);
    lemma_trim_prefix(value, j - key.len() - 1, line, key.len() as int + 1);
}

proof fn lemma_trim_prefix(value: Seq<char>, n: int, line: Seq<char>, offset: int)
    requires
        0 <= n <= value.len(),
        line.len() == offset + value.len(),
        offset >= 0,
        forall|k: int| 0 <= k < value.len() ==> #[trigger] value[k] == line[offset + k],
        forall|k: int| offset + n <= k < line.len() ==> is_white(#[trigger] line[k]),
    ensures
        trim(value.take(n)) == trim(value),
{
    let front = value.take(n);
    let behind = value.skip(n);
    assert forall|k: int| 0 <= k < behind.len() implies is_white(#[trigger] behind[k]) by {
        assert(value[n + k] == line[offset + n + k]);
        assert(is_white(line[offset + n + k]));
    }
    assert(value =~= front + behind);
    lemma_trim_ignores_end(front, behind);
}

proof fn lemma_trim_ignores_end(text: Seq<char>, behind: Seq<char>)
    requires
        forall|k: int| 0 <= k < behind.len() ==> is_white(#[trigger] behind[k]),
    ensures
        trim(text + behind) == trim(text),
{
    law_trim_takes_only_white_space(text);
    let all = text + behind;
    if trim(text).len() == 0 {
        law_trim_takes_only_white_space(all);
        assert forall|k: int| 0 <= k < all.len() implies is_white(#[trigger] all[k]) by {
            if k < text.len() {
                assert(is_white(text[k]));
            } else {
                assert(is_white(behind[k - text.len()]));
            }
        }
        assert(trim(all) =~= trim(text));
    } else {
        let (i, j) = choose|i: int, j: int|
            0 <= i <= j <= text.len() && trim(text) == #[trigger] text.subrange(i, j) && (forall|
                k: int,
            |
                0 <= k < i ==> is_white(#[trigger] text[k])) && forall|k: int|
                j <= k < text.len() ==> is_white(#[trigger] text[k]);
        let before = text.take(i);
        let after = text.skip(j) + behind;
        assert forall|k: int| 0 <= k < before.len() implies is_white(#[trigger] before[k]) by {
            assert(is_white(text[k]));
        }
        assert forall|k: int| 0 <= k < after.len() implies is_white(#[trigger] after[k]) by {
            if k < text.len() - j {
                assert(is_white(text[j + k]));
            } else {
                assert(is_white(behind[k - (text.len() - j)]));
            }
        }
        assert(all =~= before + trim(text) + after);
        law_white_space_round_a_text_does_not_count(before, trim(text), after);
    }
}

/// A field of the entry says what it is for, the last one of a kind counts, and no field changes what
/// another one said: `Name` names the application, `Exec` is its command, `Type` says whether it is
/// one, and `Hidden` and `NoDisplay` take it off the list.
pub proof fn law_fields_are_read(read: EntryReadView, value: Seq<char>)
    requires
        read.inside,
    ensures
        value == trim(value) && value.len() > 0 ==> read.reading(field_line("Name"@, value)) == (
        EntryReadView { name: Some(value), ..read }),
        value == trim(value) && value.len() > 0 ==> read.reading(field_line("Exec"@, value)) == (
        EntryReadView { command: Some(value), ..read }),
        read.reading(field_line("Type"@, "Application"@)) == (EntryReadView {
            application_type: true,
            ..read
        }),
        read.reading(field_line("Type"@, "Link"@)) == (EntryReadView {
            application_type: false,
            ..read
        }),
        read.reading(field_line("Hidden"@, "true"@)) == (EntryReadView { hidden: true, ..read }),
        read.reading(field_line("Hidden"@, "false"@)) == (EntryReadView { hidden: false, ..read }),
        read.reading(field_line("NoDisplay"@, "true"@)) == (EntryReadView {
            no_display: true,
            ..read
        }),
        read.reading(field_line("NoDisplay"@, "false"@)) == (EntryReadView {
            no_display: false,
            ..read
        }),
        read.reading(field_line("Comment"@, value)) == read,
        read.reading("# "@ + value) == read,
{
    lemma_field_keys();
    lemma_field_values();
    lemma_field_line(read, "Name"@, value);
    lemma_field_line(read, "Exec"@, value);
    lemma_field_line(read, "Comment"@, value);
    lemma_field_line(read, "Type"@, "Application"@);
    lemma_field_line(read, "Type"@, "Link"@);
    lemma_field_line(read, "Hidden"@, "true"@);
    lemma_field_line(read, "Hidden"@, "false"@);
    lemma_field_line(read, "NoDisplay"@, "true"@);
    lemma_field_line(read, "NoDisplay"@, "false"@);
    lemma_comment_line(read, value);
}

proof fn lemma_comment_line(read: EntryReadView, value: Seq<char>)
    ensures
        read.reading("# "@ + value) == read,
{
    reveal_strlit("# ");
    reveal_strlit("#");
    let line = "# "@ + value;
    law_trim_takes_only_white_space(line);
    assert(line[0] == '#');
    assert(!is_white(line[0]));
    let (i, j) = choose|i: int, j: int|
        0 <= i <= j <= line.len() && trim(line) == #[trigger] line.subrange(i, j) && (forall|k: int|
            0 <= k < i ==> is_white(#[trigger] line[k])) && forall|k: int|
            j <= k < line.len() ==> is_white(#[trigger] line[k]);
    assert(i == 0);
    let text = trim(line);
    assert(text.len() > 0 && text[0] == '#');
    assert(text.subrange(0, 1) =~= "#"@);
    lemma_group_line(line);
}

spec fn sound_key(key: Seq<char>) -> bool {
    key.len() > 0 && !key.contains('=') && key[0] != '#' && key[0] != '[' && !is_white(key[0])
        && !is_white(key.last())
}

proof fn lemma_field_keys()
    ensures
        sound_key("Name"@),
        sound_key("Exec"@),
        sound_key("Type"@),
        sound_key("Hidden"@),
        sound_key("NoDisplay"@),
        sound_key("Comment"@),
        "Type"@ != "Name"@,
        "Type"@ != "Hidden"@,
        "Type"@ != "NoDisplay"@,
        "Type"@ != "Exec"@,
        "Type"@ != "Comment"@,
        "Type"@ != "DBusActivatable"@,
        "Name"@ != "Hidden"@,
        "Name"@ != "NoDisplay"@,
        "Name"@ != "Exec"@,
        "Name"@ != "Comment"@,
        "Name"@ != "DBusActivatable"@,
        "Hidden"@ != "NoDisplay"@,
        "Hidden"@ != "Exec"@,
        "Hidden"@ != "Comment"@,
        "Hidden"@ != "DBusActivatable"@,
        "NoDisplay"@ != "Exec"@,
        "NoDisplay"@ != "Comment"@,
        "NoDisplay"@ != "DBusActivatable"@,
        "Exec"@ != "Comment"@,
        "Exec"@ != "DBusActivatable"@,
        "Comment"@ != "DBusActivatable"@,
{
    reveal_strlit("Name");
    reveal_strlit("Exec");
    reveal_strlit("Type");
    reveal_strlit("Hidden");
    reveal_strlit("NoDisplay");
    reveal_strlit("Comment");
    reveal_strlit("DBusActivatable");
    assert("Name"@.len() == 4 && "Exec"@.len() == 4 && "Type"@.len() == 4 && "Hidden"@.len() == 6
        && "NoDisplay"@.len() == 9 && "Comment"@.len() == 7 && "DBusActivatable"@.len() == 15);
    assert("Name"@[0] == 'N' && "Exec"@[0] == 'E' && "Type"@[0] == 'T' && "Hidden"@[0] == 'H'
        && "NoDisplay"@[0] == 'N' && "Comment"@[0] == 'C');
}

proof fn lemma_field_values()
    ensures
        trim("Application"@) == "Application"@,
        trim("Link"@) == "Link"@,
        trim("true"@) == "true"@,
        trim("false"@) == "false"@,
        lower("Application"@) == "application"@,
        lower("Link"@) != "application"@,
        says_true("true"@),
        !says_true("false"@),
{
    reveal_strlit("Application");
    reveal_strlit("application");
    reveal_strlit("Link");
    reveal_strlit("true");
    reveal_strlit("false");
    reveal_strlit("1");
    reveal_strlit("yes");
    let none = Seq::<char>::empty();
    law_white_space_round_a_text_does_not_count(none, "Application"@, none);
    law_white_space_round_a_text_does_not_count(none, "Link"@, none);
    law_white_space_round_a_text_does_not_count(none, "true"@, none);
    law_white_space_round_a_text_does_not_count(none, "false"@, none);
    assert(none + "Application"@ + none =~= "Application"@);
    assert(none + "Link"@ + none =~= "Link"@);
    assert(none + "true"@ + none =~= "true"@);
    assert(none + "false"@ + none =~= "false"@);
    assert(lower("Application"@) =~= "application"@);
    assert(lower("true"@) =~= "true"@);
    assert(lower("Link"@).len() == 4);
    assert("application"@.len() == 11);
    assert(lower("false"@).len() == 5);
    assert("true"@.len() == 4 && "1"@.len() == 1 && "yes"@.len() == 3);
}

/// An entry describes an application exactly where it is one, is not taken off the list, can be
/// started, and has a name and a file name that can be shown. The application is known by the name of
/// the file without its ending, has the name of the entry, and is launched by the command of the entry.
pub proof fn law_entry_describes_its_application(contents: Seq<char>, path: Seq<char>)
    ensures
        ({
            let read = entry_read(lines(contents));
            &&& entry_described(contents, path) is Some <==> read.application_type && !read.hidden
                && !read.no_display && (read.command is Some || read.dbus_activatable) && (read.name
                matches Some(name) && !has_control(name)) && entry_identity(path) is Some
            &&& entry_described(contents, path) matches Some(parsed) ==> read.name == Some(
                parsed.application.name,
            ) && (file_name(path) matches Some(file) && file == parsed.application.id + ".desktop"@)
                && (match read.command {
                Some(line) => parsed.launch == launch_described(line),
                None => parsed.launch is None,
            })
        }),
{
    if let Some(parsed) = entry_described(contents, path) {
        let file = file_name(path)->Some_0;
        let id = parsed.application.id;
        let ending = ".desktop"@;
        let at = file.len() - ending.len();
        assert(file.subrange(at, file.len() as int) =~= ending);
        assert(file =~= file.take(at) + ending);
    }
}

/// A file that is called after an application and has the ending of an entry is its entry.
pub proof fn law_file_name_is_the_identity(directory: Seq<char>, id: Seq<char>)
    requires
        directory.len() > 0,
        id.len() > 0,
        !id.contains('/'),
        !has_control(id),
    ensures
        entry_identity(joined_path(directory, id + ".desktop"@)) == Some(id),
{
    reveal_strlit(".desktop");
    reveal_strlit(".");
    reveal_strlit("..");
    let name = id + ".desktop"@;
    assert(!name.contains('/')) by {
        if name.contains('/') {
            let k = choose|k: int| 0 <= k < name.len() && name[k] == '/';
            if k < id.len() {
                assert(id[k] == '/');
            }
        }
    }
    assert(".desktop"@.len() == 8 && "."@.len() == 1 && ".."@.len() == 2);
    law_name_in_a_directory_is_the_file_name(directory, name);
    assert(name.subrange(name.len() - 8, name.len() as int) =~= ".desktop"@);
    assert(name.take(name.len() - 8) =~= id);
}

proof fn lemma_token_without_codes(token: Seq<char>)
    requires
        !token.contains('%'),
    ensures
        exec_token_read(token) == (ExecToken {
            text: token,
            field: false,
            pending: false,
            refused: false,
        }),
    decreases token.len(),
{
    if token.len() > 0 {
        let front = token.drop_last();
        assert(token[token.len() - 1] == token.last());
        assert(token.contains(token.last()));
        assert(!front.contains('%')) by {
            if front.contains('%') {
                let k = choose|k: int| 0 <= k < front.len() && front[k] == '%';
                assert(token[k] == '%');
            }
        }
        lemma_token_without_codes(front);
        assert(front.push(token.last()) =~= token);
    } else {
        assert(token =~= Seq::empty());
    }
}

/// A word of a command without a percent sign stays what it is; a field code that stands alone is
/// dropped, since no file is opened; two percent signs stand for one; any other code is refused.
pub proof fn law_field_codes_are_expanded(token: Seq<char>, code: char)
    ensures
        !token.contains('%') ==> expanded_token(token) == Some(Some(token)),
        (code == 'f' || code == 'F' || code == 'u' || code == 'U' || code == 'i' || code == 'c'
            || code == 'k') ==> expanded_token(seq!['%', code]) == Some(None::<Seq<char>>),
        !(code == 'f' || code == 'F' || code == 'u' || code == 'U' || code == 'i' || code == 'c'
            || code == 'k' || code == '%') ==> expanded_token(seq!['%', code]) is None,
        !token.contains('%') ==> expanded_token(token + seq!['%', '%']) == Some(
            Some(token.push('%')),
        ),
        !token.contains('%') ==> expanded_token(token.push('%')) is None,
{
    if !token.contains('%') {
        lemma_token_without_codes(token);
        let one = token.push('%');
        let two = token + seq!['%', '%'];
        assert(one.drop_last() =~= token);
        assert(two.drop_last() =~= one);
        assert(two.last() == '%' && one.last() == '%');
        assert(exec_token_read(one).pending);
    }
    let none = Seq::<char>::empty();
    let sign = seq!['%'];
    let both = seq!['%', code];
    assert(sign.drop_last() =~= none);
    assert(both.drop_last() =~= sign);
    assert(both.last() == code && sign.last() == '%');
    assert(exec_token_read(none).text =~= none);
    assert(exec_token_read(sign) == exec_token_read(none).reading('%'));
    assert(exec_token_read(both) == exec_token_read(sign).reading(code));
}

proof fn lemma_plain_arguments(arguments: Seq<Seq<char>>)
    requires
        forall|i: int| 0 <= i < arguments.len() ==> !(#[trigger] arguments[i]).contains('%'),
    ensures
        expanded_arguments(arguments) == Some(arguments),
    decreases arguments.len(),
{
    if arguments.len() > 0 {
        let front = arguments.drop_last();
        assert(forall|i: int| 0 <= i < front.len() ==> #[trigger] front[i] == arguments[i]);
        lemma_plain_arguments(front);
        assert(!arguments[arguments.len() - 1].contains('%'));
        law_field_codes_are_expanded(arguments.last(), 'f');
        assert(arguments =~= front.push(arguments.last()));
    } else {
        assert(arguments =~= Seq::empty());
    }
}

/// A command of plain words is launched as it stands: the first word is the program, and the others are
/// its arguments, in their order. A field code behind them is left out.
pub proof fn law_plain_command_is_launched(program: Seq<char>, arguments: Seq<Seq<char>>)
    requires
        is_plain_word(program),
        !program.contains('%'),
        forall|i: int|
            0 <= i < arguments.len() ==> is_plain_word(#[trigger] arguments[i])
                && !arguments[i].contains('%'),
    ensures
        launch_described(joined(seq![program] + arguments, " "@)) == Some(
            ApplicationLaunchSpecView { program, arguments },
        ),
        launch_described(joined((seq![program] + arguments).push("%u"@), " "@)) == Some(
            ApplicationLaunchSpecView { program, arguments },
        ),
{
    let all = seq![program] + arguments;
    assert forall|i: int| 0 <= i < all.len() implies is_plain_word(#[trigger] all[i]) by {
        if i > 0 {
            assert(all[i] == arguments[i - 1]);
        }
    }
    law_plain_words_are_read(all);
    assert(all.drop_first() =~= arguments);
    law_field_codes_are_expanded(program, 'u');
    lemma_plain_arguments(arguments);
    reveal_strlit("%u");
    assert("%u"@ =~= seq!['%', 'u']);
    let more = all.push("%u"@);
    assert forall|i: int| 0 <= i < more.len() implies is_plain_word(#[trigger] more[i]) by {
        if i < all.len() {
            assert(more[i] == all[i]);
        } else {
            assert(!is_white('%') && !is_white('u'));
        }
    }
    law_plain_words_are_read(more);
    assert(more.drop_first() =~= arguments.push("%u"@));
    assert(arguments.push("%u"@).drop_last() =~= arguments);
}

/// Each application stands in the catalog as the first of its entries describes it.
pub proof fn law_catalog_shows_the_first_entry(files: Seq<DesktopFileView>, at: int)
    requires
        0 <= at < files.len(),
        entry_described(files[at].contents, files[at].path) is Some,
        forall|k: int|
            0 <= k < at ==> !(entry_described(
                (#[trigger] files[k]).contents,
                files[k].path,
            ) matches Some(parsed) && parsed.application.id == entry_described(
                files[at].contents,
                files[at].path,
            )->Some_0.application.id),
    ensures
        catalog_of(files).contains(
            entry_described(files[at].contents, files[at].path)->Some_0.application,
        ),
    decreases files.len(),
{
    let wanted = entry_described(files[at].contents, files[at].path)->Some_0.application;
    let front = files.drop_last();
    let earlier = catalog_of(front);
    assert(forall|k: int| 0 <= k < front.len() ==> #[trigger] front[k] == files[k]);
    assert(files.last() == files[files.len() - 1]);
    if at < front.len() {
        law_catalog_shows_the_first_entry(front, at);
        if let Some(parsed) = entry_described(files.last().contents, files.last().path) {
            if !has_application(earlier, parsed.application.id) {
                lemma_added_is_there(earlier, parsed.application, wanted);
            }
        }
    } else {
        law_catalog_lists_described_applications(front, wanted.id);
        lemma_not_described(front, wanted.id);
        lemma_added_is_there(earlier, wanted, wanted);
    }
}

proof fn lemma_not_described(files: Seq<DesktopFileView>, id: Seq<char>)
    requires
        forall|k: int|
            0 <= k < files.len() ==> !(entry_described(
                (#[trigger] files[k]).contents,
                files[k].path,
            ) matches Some(parsed) && parsed.application.id == id),
    ensures
        !is_described(files, id),
    decreases files.len(),
{
    if files.len() > 0 {
        let front = files.drop_last();
        assert(forall|k: int| 0 <= k < front.len() ==> #[trigger] front[k] == files[k]);
        assert(files.last() == files[files.len() - 1]);
        lemma_not_described(front, id);
    }
}

proof fn lemma_added_is_there(
    applications: Seq<InstalledApplicationView>,
    added: InstalledApplicationView,
    wanted: InstalledApplicationView,
)
    requires
        applications.contains(wanted) || wanted == added,
    ensures
        with_application(applications, added).contains(wanted),
    decreases applications.len(),
{
    let all = with_application(applications, added);
    if applications.len() == 0 {
        assert(all[0] == added);
    } else if listed_before(added, applications[0]) {
        assert(all[0] == added);
        if wanted != added {
            let k = choose|k: int| 0 <= k < applications.len() && applications[k] == wanted;
            assert(all[k + 1] == wanted);
        }
    } else {
        let rest = applications.drop_first();
        assert(all[0] == applications[0]);
        if wanted != applications[0] {
            if wanted != added {
                let k = choose|k: int| 0 <= k < applications.len() && applications[k] == wanted;
                assert(rest[k - 1] == wanted);
            }
            lemma_added_is_there(rest, added, wanted);
            let others = with_application(rest, added);
            let k = choose|k: int| 0 <= k < others.len() && others[k] == wanted;
            assert(all[k + 1] == wanted);
        }
    }
}

/// The directories that entries are looked for in: first the user's own, under `XDG_DATA_HOME` or else
/// under the home directory; then one under each directory of `XDG_DATA_DIRS`, or under the two usual
/// ones; then those of the package systems. A directory that is named twice is looked at once.
pub proof fn law_application_directories(
    data_home: Seq<char>,
    home: Seq<char>,
    parts: Seq<Seq<char>>,
)
    requires
        trim(data_home).len() > 0,
        trim(home).len() > 0,
        parts.len() > 0,
        forall|i: int| 0 <= i < parts.len() ==> !(#[trigger] parts[i]).contains(':'),
        trim(joined(parts, seq![':'])).len() > 0,
    ensures
        ({
            let all = directory_candidates(
                Some(data_home),
                Some(home),
                Some(joined(parts, seq![':'])),
            );
            &&& all[0] == joined_path(data_home, "applications"@)
            &&& forall|i: int|
                0 <= i < parts.len() ==> #[trigger] all[1 + i] == joined_path(
                    parts[i],
                    "applications"@,
                )
            &&& all.len() == parts.len() + 4
        }),
        directory_candidates(None, Some(home), None)[0] == joined_path(
            home,
            ".local/share/applications"@,
        ),
        directory_candidates(None, Some(home), None)[1] == joined_path(
            "/usr/local/share"@,
            "applications"@,
        ),
        directory_candidates(None, Some(home), None)[2] == joined_path(
            "/usr/share"@,
            "applications"@,
        ),
{
    law_joined_parts_are_split_again(parts, ':');
}

/// No directory is looked at twice, and each one that is named is looked at under some spelling.
pub proof fn law_distinct_directories(paths: Seq<Seq<char>>)
    ensures
        forall|i: int, j: int|
            0 <= i < j < distinct_paths(paths).len() ==> !same_path(
                #[trigger] distinct_paths(paths)[i],
                #[trigger] distinct_paths(paths)[j],
            ),
        forall|k: int|
            0 <= k < paths.len() ==> has_path(distinct_paths(paths), #[trigger] paths[k]),
        paths.len() > 0 ==> distinct_paths(paths).len() > 0 && distinct_paths(paths)[0] == paths[0],
    decreases paths.len(),
{
    if paths.len() > 0 {
        let front = paths.drop_last();
        law_distinct_directories(front);
        let earlier = distinct_paths(front);
        let all = distinct_paths(paths);
        assert forall|k: int| 0 <= k < paths.len() implies has_path(all, #[trigger] paths[k]) by {
            if k < front.len() {
                assert(front[k] == paths[k]);
                let i = choose|i: int|
                    0 <= i < earlier.len() && same_path(#[trigger] earlier[i], paths[k]);
                assert(all[i] == earlier[i]);
            } else if !has_path(earlier, paths.last()) {
                assert(all[earlier.len() as int] == paths[k]);
                assert(same_path(all[earlier.len() as int], paths[k]));
            }
        }
        if front.len() > 0 {
            assert(front[0] == paths[0]);
        }
    }
}

} // verus!
