//! Project editors: how they are launched, and which of their windows shows a project.
use vstd::prelude::*;
use vstd::string::*;
use crate::collections::TextMap;
use crate::error::{seen, WorkstateError, WorkstateErrorView};
use crate::paths::{
    file_name, is_absolute, is_home_relative, path_file_name, path_is_absolute,
    path_is_home_relative, paths_agree, same_path,
};
use crate::ports::{
    DesktopSnapshot, DesktopWindowSnapshotView, EditorWindowSnapshot, EditorWindowSnapshotView,
};
use crate::text::{
    alphanumeric, chars_of, find, has_suffix, is_white, join2, lemma_find_from, lemma_rfind_before,
    lower, occurs_at, rfind, same_text, split_on, strip_suffix, text_alphanumeric, text_between,
    text_find, text_lower, text_rfind, text_split, text_strip_suffix, text_trim, trim, trim_end,
    trim_start,
};
use crate::time::{span_of_millis, TimeSpan};
use crate::values::{
    append, append_all, append_text, empty_list, lemma_filter_ends, lemma_filter_step, Agree,
    Replicate,
};
use super::errors::{operation_error, operation_failure, zed_error, ZedError, ZedErrorView};

verus! {

/// The pause between two looks for a window, in milliseconds.
pub const EDITOR_POLL_MILLIS: u64 = 25;

/// The command that launches an editor.
#[derive(Debug, Clone, PartialEq, Eq)]
pub struct ZedCommand {
    pub program: String,
    pub new_window_flag: Option<String>,
}

/// What a `ZedCommand` stands for.
#[verifier::ext_equal]
pub struct ZedCommandView {
    pub program: Seq<char>,
    pub new_window_flag: Option<Seq<char>>,
}

impl View for ZedCommand {
    type V = ZedCommandView;

    open spec fn view(&self) -> ZedCommandView {
        ZedCommandView {
            program: self.program.deep_view(),
            new_window_flag: self.new_window_flag.deep_view(),
        }
    }
}

impl DeepView for ZedCommand {
    type V = ZedCommandView;

    open spec fn deep_view(&self) -> ZedCommandView {
        self.view()
    }
}

impl Replicate for ZedCommand {
    fn replicate(&self) -> (r: Self) {
        ZedCommand {
            program: self.program.replicate(),
            new_window_flag: self.new_window_flag.replicate(),
        }
    }
}

impl ZedCommandView {
    /// The arguments that open a project.
    pub open spec fn arguments(self, project_path: Seq<char>) -> Seq<Seq<char>> {
        match self.new_window_flag {
            Some(flag) => seq![flag, project_path],
            None => seq![project_path],
        }
    }
}

impl ZedCommand {
    /// The command of a program, with the usual flag for a new window.
    pub fn new(program: &str) -> (r: Self)
        ensures
            r@ == (ZedCommandView { program: program@, new_window_flag: Some("-n"@) }),
    {
        ZedCommand { program: program.to_owned(), new_window_flag: Some("-n".to_owned()) }
    }

    /// The command without a flag for a new window.
    pub fn without_new_window_flag(self) -> (r: Self)
        ensures
            r@ == (ZedCommandView { new_window_flag: None, ..self@ }),
    {
        ZedCommand { program: self.program, new_window_flag: None }
    }

    /// The command with another flag for a new window.
    pub fn with_new_window_flag(self, flag: &str) -> (r: Self)
        ensures
            r@ == (ZedCommandView { new_window_flag: Some(flag@), ..self@ }),
    {
        ZedCommand { program: self.program, new_window_flag: Some(flag.to_owned()) }
    }

    pub fn program(&self) -> (r: &str)
        ensures
            r@ == self@.program,
    {
        self.program.as_str()
    }

    /// The arguments that open a project.
    pub fn arguments(&self, project_path: &str) -> (r: Vec<String>)
        ensures
            r.deep_view() == self@.arguments(project_path@),
    {
        let mut arguments: Vec<String> = empty_list();
        if let Some(flag) = &self.new_window_flag {
            append(&mut arguments, flag.clone());
        }
        append_text(&mut arguments, project_path);
        assert(arguments.deep_view() =~= self@.arguments(project_path@));
        arguments
    }
}

impl Default for ZedCommand {
    fn default() -> (r: Self)
        ensures
            r@ == (ZedCommandView { program: "zed"@, new_window_flag: Some("-n"@) }),
    {
        ZedCommand::new("zed")
    }
}

/// The editors that open projects.
#[derive(Debug, Clone, Copy, PartialEq, Eq, Structural)]
pub enum ProjectEditorKind {
    Zed,
    VsCode,
    Cursor,
}

impl DeepView for ProjectEditorKind {
    type V = ProjectEditorKind;

    open spec fn deep_view(&self) -> ProjectEditorKind {
        *self
    }
}

impl Replicate for ProjectEditorKind {
    fn replicate(&self) -> (r: Self) {
        *self
    }
}

/// The name of an application without its directories, its ending and its punctuation.
pub open spec fn application_name(application: Seq<char>) -> Seq<char> {
    let last = split_on(application, '/').last();
    lower(
        alphanumeric(
            match strip_suffix(last, ".desktop"@) {
                Some(name) => name,
                None => last,
            },
        ),
    )
}

fn normalize_application(application: &str) -> (r: String)
    ensures
        r@ == application_name(application@),
{
    proof {
        crate::text::lemma_split_on_not_empty(application@, '/');
    }
    let parts = text_split(application, '/');
    assert(parts.deep_view().len() == parts@.len());
    let last: usize = parts.len() - 1;
    assert(parts.deep_view()[last as int] == parts@[last as int]@);
    match text_strip_suffix(parts[last].as_str(), ".desktop") {
        Some(name) => text_lower(text_alphanumeric(name.as_str()).as_str()),
        None => text_lower(text_alphanumeric(parts[last].as_str()).as_str()),
    }
}

/// What can stand between a title and the name of its editor.
pub open spec fn title_endings(suffix: Seq<char>) -> Seq<Seq<char>> {
    seq![" — "@ + suffix, " – "@ + suffix, " - "@ + suffix, ": "@ + suffix]
}

fn endings_of(suffix: &str) -> (r: Vec<String>)
    ensures
        r.deep_view() == title_endings(suffix@),
{
    let mut endings: Vec<String> = empty_list();
    append(&mut endings, join2(" — ", suffix));
    append(&mut endings, join2(" – ", suffix));
    append(&mut endings, join2(" - ", suffix));
    append(&mut endings, join2(": ", suffix));
    assert(endings.deep_view() =~= title_endings(suffix@));
    endings
}

/// What stands before the first of the endings that a text has, where that is more than blanks.
pub open spec fn before_ending(text: Seq<char>, endings: Seq<Seq<char>>) -> Option<Seq<char>>
    decreases endings.len(),
{
    if endings.len() == 0 {
        None
    } else {
        match strip_suffix(text, endings[0]) {
            Some(rest) if trim(rest).len() > 0 => Some(trim(rest)),
            _ => before_ending(text, endings.drop_first()),
        }
    }
}

fn text_before_ending(text: &str, endings: &Vec<String>) -> (r: Option<String>)
    ensures
        r.deep_view() == before_ending(text@, endings.deep_view()),
{
    let mut i: usize = 0;
    let ghost all = endings.deep_view();
    assert(all.skip(0) =~= all);
    while i < endings.len()
        invariant
            i <= endings@.len(),
            all == endings.deep_view(),
            before_ending(text@, all) == before_ending(text@, all.skip(i as int)),
        decreases endings@.len() - i,
    {
        assert(all.skip(i as int)[0] == endings@[i as int]@);
        assert(all.skip(i as int).drop_first() =~= all.skip(i as int + 1));
        if let Some(rest) = text_strip_suffix(text, endings[i].as_str()) {
            let trimmed = text_trim(rest.as_str());
            if !trimmed.as_str().is_empty() {
                return Some(trimmed);
            }
        }
        i = i + 1;
    }
    None
}

/// The smaller of two positions, as far as there are any.
pub open spec fn least(a: Option<int>, b: Option<int>) -> Option<int> {
    match (a, b) {
        (None, _) => b,
        (_, None) => a,
        (Some(x), Some(y)) => if x <= y {
            a
        } else {
            b
        },
    }
}

/// The greater of two positions, as far as there are any.
pub open spec fn greatest(a: Option<int>, b: Option<int>) -> Option<int> {
    match (a, b) {
        (None, _) => b,
        (_, None) => a,
        (Some(x), Some(y)) => if x >= y {
            a
        } else {
            b
        },
    }
}

/// Where the first separator of a title begins.
pub open spec fn first_separator(title: Seq<char>) -> Option<int> {
    least(
        least(least(find(title, " — "@), find(title, " – "@)), find(title, " - "@)),
        find(title, ": "@),
    )
}

/// Where the last occurrence of a separator ends.
pub open spec fn end_of_last(title: Seq<char>, separator: Seq<char>) -> Option<int> {
    match rfind(title, separator) {
        Some(i) => Some(i + separator.len()),
        None => None,
    }
}

/// Where the last separator of a title ends.
pub open spec fn last_separator_end(title: Seq<char>) -> Option<int> {
    greatest(
        greatest(
            greatest(end_of_last(title, " — "@), end_of_last(title, " – "@)),
            end_of_last(title, " - "@),
        ),
        end_of_last(title, ": "@),
    )
}

/// A position in a text as a number that a contract can speak of.
pub open spec fn position(value: Option<usize>) -> Option<int> {
    match value {
        Some(i) => Some(i as int),
        None => None,
    }
}

fn lesser(a: Option<usize>, b: Option<usize>) -> (r: Option<usize>)
    ensures
        position(r) == least(position(a), position(b)),
{
    match (a, b) {
        (None, _) => b,
        (_, None) => a,
        (Some(x), Some(y)) => if x <= y {
            a
        } else {
            b
        },
    }
}

fn greater(a: Option<usize>, b: Option<usize>) -> (r: Option<usize>)
    ensures
        position(r) == greatest(position(a), position(b)),
{
    match (a, b) {
        (None, _) => b,
        (_, None) => a,
        (Some(x), Some(y)) => if x >= y {
            a
        } else {
            b
        },
    }
}

fn place_of_first(title: &str) -> (r: Option<usize>)
    ensures
        position(r) == first_separator(title@),
        r matches Some(i) ==> i <= title@.len(),
{
    proof {
        crate::text::lemma_find_from(title@, " — "@, 0);
        crate::text::lemma_find_from(title@, " – "@, 0);
        crate::text::lemma_find_from(title@, " - "@, 0);
        crate::text::lemma_find_from(title@, ": "@, 0);
    }
    let long = text_find(title, " — ");
    let middle = text_find(title, " – ");
    let short = text_find(title, " - ");
    let colon = text_find(title, ": ");
    assert(position(long) == find(title@, " — "@));
    assert(position(middle) == find(title@, " – "@));
    assert(position(short) == find(title@, " - "@));
    assert(position(colon) == find(title@, ": "@));
    lesser(lesser(lesser(long, middle), short), colon)
}

fn place_after_last(title: &str, separator: &str) -> (r: Option<usize>)
    ensures
        position(r) == end_of_last(title@, separator@),
        r matches Some(i) ==> i <= title@.len(),
{
    proof {
        crate::text::lemma_rfind_before(title@, separator@, title@.len() as int + 1);
    }
    match text_rfind(title, separator) {
        Some(i) => {
            let total: usize = chars_of(title).len();
            let count: usize = chars_of(separator).len();
            assert(i + count <= total);
            Some(i + count)
        },
        None => None,
    }
}

fn place_after_any(title: &str) -> (r: Option<usize>)
    ensures
        position(r) == last_separator_end(title@),
        r matches Some(i) ==> i <= title@.len(),
{
    let long = place_after_last(title, " — ");
    let middle = place_after_last(title, " – ");
    let short = place_after_last(title, " - ");
    let colon = place_after_last(title, ": ");
    greater(greater(greater(long, middle), short), colon)
}

impl ProjectEditorKind {
    /// The name that is shown.
    pub open spec fn display_name_text(self) -> Seq<char> {
        match self {
            ProjectEditorKind::Zed => "Zed"@,
            ProjectEditorKind::VsCode => "VS Code"@,
            ProjectEditorKind::Cursor => "Cursor"@,
        }
    }

    /// The name of the application, which is its program too.
    pub open spec fn application_id_text(self) -> Seq<char> {
        match self {
            ProjectEditorKind::Zed => "zed"@,
            ProjectEditorKind::VsCode => "code"@,
            ProjectEditorKind::Cursor => "cursor"@,
        }
    }

    /// The flag for a new window.
    pub open spec fn new_window_flag_text(self) -> Seq<char> {
        match self {
            ProjectEditorKind::Zed => "-n"@,
            ProjectEditorKind::VsCode => "--new-window"@,
            ProjectEditorKind::Cursor => "--new-window"@,
        }
    }

    /// The names, without punctuation, under which the windows of the editor are known.
    pub open spec fn known_names(self) -> Seq<Seq<char>> {
        match self {
            ProjectEditorKind::Zed => seq!["zed"@, "devzedzed"@, "devzed"@],
            ProjectEditorKind::VsCode => seq!["code"@, "codeoss"@, "comvisualstudiocode"@, "comvisualstudiocodeoss"@, "vscode"@, "visualstudiocode"@],
            ProjectEditorKind::Cursor => seq!["cursor"@, "comtodesktop230313mzl4w4u92"@, "appimagekitcursor"@],
        }
    }

    /// An application that is this editor.
    pub open spec fn is_application(self, application: Seq<char>) -> bool {
        self.known_names().contains(application_name(application))
    }

    /// What the title of a window can end with.
    pub open spec fn endings(self) -> Seq<Seq<char>> {
        match self {
            ProjectEditorKind::Zed => title_endings("Zed"@),
            ProjectEditorKind::VsCode => title_endings("Visual Studio Code"@) + title_endings(
                "Code - OSS"@,
            ) + title_endings("Code"@),
            ProjectEditorKind::Cursor => title_endings("Cursor"@),
        }
    }

    /// A title without the name of the editor, where it ends with that.
    pub open spec fn title_without_editor(self, title: Seq<char>) -> Option<Seq<char>> {
        before_ending(trim(title), self.endings())
    }

    /// The part of a title that names the project: in front for one editor, at the end for the others.
    pub open spec fn project_in_title(self, title: Seq<char>) -> Option<Seq<char>> {
        let text = match self.title_without_editor(title) {
            Some(text) => text,
            None => trim(title),
        };
        let part = match self {
            ProjectEditorKind::Zed => match first_separator(text) {
                Some(i) => text.take(i),
                None => text,
            },
            _ => match last_separator_end(text) {
                Some(i) => text.skip(i),
                None => text,
            },
        };
        if trim(part).len() > 0 {
            Some(trim(part))
        } else {
            None
        }
    }

    /// The name that is shown.
    pub fn display_name(self) -> (r: &'static str)
        ensures
            r@ == self.display_name_text(),
    {
        match self {
            ProjectEditorKind::Zed => "Zed",
            ProjectEditorKind::VsCode => "VS Code",
            ProjectEditorKind::Cursor => "Cursor",
        }
    }

    /// The name of the application, which is its program too.
    pub fn application_id(self) -> (r: &'static str)
        ensures
            r@ == self.application_id_text(),
    {
        match self {
            ProjectEditorKind::Zed => "zed",
            ProjectEditorKind::VsCode => "code",
            ProjectEditorKind::Cursor => "cursor",
        }
    }

    /// The flag for a new window.
    pub fn new_window_flag(self) -> (r: &'static str)
        ensures
            r@ == self.new_window_flag_text(),
    {
        match self {
            ProjectEditorKind::Zed => "-n",
            ProjectEditorKind::VsCode => "--new-window",
            ProjectEditorKind::Cursor => "--new-window",
        }
    }

    /// The program that is launched.
    pub fn executable(self) -> (r: &'static str)
        ensures
            r@ == self.application_id_text(),
    {
        self.application_id()
    }

    /// Whether an application is this editor.
    pub fn matches_application(self, application: &str) -> (r: bool)
        ensures
            r == self.is_application(application@),
    {
        let name = normalize_application(application);
        let text = name.as_str();
        let ghost names = self.known_names();
        match self {
            ProjectEditorKind::Zed => {
                assert(names[0] == "zed"@);
                assert(names[1] == "devzedzed"@);
                assert(names[2] == "devzed"@);
                same_text(text, "zed") || same_text(text, "devzedzed") || same_text(text, "devzed")
            },
            ProjectEditorKind::VsCode => {
                assert(names[0] == "code"@);
                assert(names[1] == "codeoss"@);
                assert(names[2] == "comvisualstudiocode"@);
                assert(names[3] == "comvisualstudiocodeoss"@);
                assert(names[4] == "vscode"@);
                assert(names[5] == "visualstudiocode"@);
                same_text(text, "code") || same_text(text, "codeoss") || same_text(text, "comvisualstudiocode") || same_text(text, "comvisualstudiocodeoss") || same_text(text, "vscode") || same_text(text, "visualstudiocode")
            },
            ProjectEditorKind::Cursor => {
                assert(names[0] == "cursor"@);
                assert(names[1] == "comtodesktop230313mzl4w4u92"@);
                assert(names[2] == "appimagekitcursor"@);
                same_text(text, "cursor") || same_text(text, "comtodesktop230313mzl4w4u92") || same_text(text, "appimagekitcursor")
            },
        }
    }

    fn title_endings_of(self) -> (r: Vec<String>)
        ensures
            r.deep_view() == self.endings(),
    {
        match self {
            ProjectEditorKind::Zed => endings_of("Zed"),
            ProjectEditorKind::VsCode => {
                let mut endings = endings_of("Visual Studio Code");
                append_all(&mut endings, endings_of("Code - OSS"));
                append_all(&mut endings, endings_of("Code"));
                endings
            },
            ProjectEditorKind::Cursor => endings_of("Cursor"),
        }
    }

    /// A title without the name of the editor, where it ends with that.
    pub fn title_with_known_editor_suffix(self, title: &str) -> (r: Option<String>)
        ensures
            r.deep_view() == self.title_without_editor(title@),
    {
        text_before_ending(text_trim(title).as_str(), &self.title_endings_of())
    }

    /// Whether a title ends with the name of the editor.
    pub fn has_known_editor_suffix(self, title: &str) -> (r: bool)
        ensures
            r == (self.title_without_editor(title@) is Some),
    {
        self.title_with_known_editor_suffix(title).is_some()
    }

    /// The part of a title that names the project.
    pub fn project_title_component(self, title: &str) -> (r: Option<String>)
        ensures
            r.deep_view() == self.project_in_title(title@),
    {
        let text = match self.title_with_known_editor_suffix(title) {
            Some(text) => text,
            None => text_trim(title),
        };
        let chars = chars_of(text.as_str());
        let part = match self {
            ProjectEditorKind::Zed => match place_of_first(text.as_str()) {
                Some(i) => {
                    assert(text@.subrange(0, i as int) =~= text@.take(i as int));
                    text_between(&chars, 0, i)
                },
                None => text,
            },
            _ => match place_after_any(text.as_str()) {
                Some(i) => {
                    assert(text@.subrange(i as int, text@.len() as int) =~= text@.skip(i as int));
                    text_between(&chars, i, chars.len())
                },
                None => text,
            },
        };
        let trimmed = text_trim(part.as_str());
        if trimmed.as_str().is_empty() {
            None
        } else {
            Some(trimmed)
        }
    }

    /// Whether a title names a project.
    pub fn title_matches_project_name(self, title: &str, project_name: &str) -> (r: bool)
        ensures
            r == (self.project_in_title(title@) == Some(project_name@)),
    {
        match self.project_title_component(title) {
            Some(component) => same_text(component.as_str(), project_name),
            None => false,
        }
    }
}

/// Whether an application is the Zed editor.
pub fn is_zed_application(application: &str) -> (r: bool)
    ensures
        r == ProjectEditorKind::Zed.is_application(application@),
{
    ProjectEditorKind::Zed.matches_application(application)
}

/// A project editor: its kind, the command that launches it, and how long its windows are waited for.
#[derive(Debug, Clone, PartialEq, Eq)]
pub struct ZedBackend {
    pub editor_kind: ProjectEditorKind,
    pub command: ZedCommand,
    pub poll_interval: TimeSpan,
    pub poll_timeout: TimeSpan,
}

/// What a `ZedBackend` stands for.
#[verifier::ext_equal]
pub struct ZedBackendView {
    pub editor_kind: ProjectEditorKind,
    pub command: ZedCommandView,
    pub poll_interval: TimeSpan,
    pub poll_timeout: TimeSpan,
}

impl View for ZedBackend {
    type V = ZedBackendView;

    open spec fn view(&self) -> ZedBackendView {
        ZedBackendView {
            editor_kind: self.editor_kind.deep_view(),
            command: self.command.deep_view(),
            poll_interval: self.poll_interval.deep_view(),
            poll_timeout: self.poll_timeout.deep_view(),
        }
    }
}

impl DeepView for ZedBackend {
    type V = ZedBackendView;

    open spec fn deep_view(&self) -> ZedBackendView {
        self.view()
    }
}

impl Replicate for ZedBackend {
    fn replicate(&self) -> (r: Self) {
        ZedBackend {
            editor_kind: self.editor_kind.replicate(),
            command: self.command.replicate(),
            poll_interval: self.poll_interval.replicate(),
            poll_timeout: self.poll_timeout.replicate(),
        }
    }
}

/// What a path that starts at the home directory is read as: the home directory, the resolver that is
/// made for it, and the path that the resolver gives.
#[derive(Debug)]
pub struct HomeExpansion {
    pub home: Result<String, WorkstateError>,
    pub resolver: Result<(), WorkstateError>,
    pub expanded: Result<String, WorkstateError>,
}

/// What is read of the place that a project path leads to.
#[derive(Debug)]
pub struct ProjectReading {
    pub exists: Result<bool, WorkstateError>,
    pub is_directory: Result<bool, WorkstateError>,
    pub canonical: Result<String, WorkstateError>,
}

/// A project path that cannot be used.
pub open spec fn path_refused(editor: Seq<char>, detail: Seq<char>) -> WorkstateErrorView {
    zed_error(ZedErrorView::InvalidProjectPath { editor, detail })
}

fn refuse_path(editor: &str, detail: String) -> (r: WorkstateError)
    ensures
        r@ == path_refused(editor@, detail@),
{
    ZedError::InvalidProjectPath { editor: editor.to_owned(), detail }.into_workstate()
}

/// A project path that starts at the root.
pub open spec fn path_expanded(editor: Seq<char>, path: Seq<char>, expansion: HomeExpansion) -> Result<
    Seq<char>,
    WorkstateErrorView,
> {
    if is_absolute(path) {
        Ok(path)
    } else if !is_home_relative(path) {
        Err(
            path_refused(
                editor,
                "the configured project path must be absolute or start with ~/ or $HOME/"@,
            ),
        )
    } else {
        match (seen(expansion.home), seen(expansion.resolver), seen(expansion.expanded)) {
            (Err(source), _, _) => Err(operation_failure(editor, "resolve-project-home"@, source)),
            (Ok(_), Err(source), _) => Err(
                operation_failure(editor, "resolve-project-path"@, source),
            ),
            (Ok(_), Ok(_), Err(error)) => Err(path_refused(editor, error.message)),
            (Ok(_), Ok(_), Ok(expanded)) => Ok(expanded),
        }
    }
}

/// The project directory that a path leads to: it must be there, and be a directory.
pub open spec fn project_resolved(
    editor: Seq<char>,
    path: Seq<char>,
    expansion: HomeExpansion,
    reading: ProjectReading,
) -> Result<Seq<char>, WorkstateErrorView> {
    match path_expanded(editor, path, expansion) {
        Err(error) => Err(error),
        Ok(expanded) => if !is_absolute(expanded) {
            Err(path_refused(editor, "the configured project path must be absolute"@))
        } else {
            match (seen(reading.exists), seen(reading.is_directory), seen(reading.canonical)) {
                (Err(source), _, _) => Err(
                    operation_failure(editor, "inspect-project-path"@, source),
                ),
                (Ok(false), _, _) => Err(
                    path_refused(
                        editor,
                        "the configured project path does not exist: "@ + expanded,
                    ),
                ),
                (Ok(true), Err(source), _) => Err(
                    operation_failure(editor, "inspect-project-path"@, source),
                ),
                (Ok(true), Ok(false), _) => Err(
                    path_refused(
                        editor,
                        "the configured project path is not a directory: "@ + expanded,
                    ),
                ),
                (Ok(true), Ok(true), Err(source)) => Err(
                    operation_failure(editor, "resolve-project-path"@, source),
                ),
                (Ok(true), Ok(true), Ok(canonical)) => Ok(canonical),
            }
        },
    }
}

/// A path that was observed, as a project path: its canonical form where there is one.
pub open spec fn path_normalized(
    editor: Seq<char>,
    path: Seq<char>,
    expansion: HomeExpansion,
    canonical: Option<Seq<char>>,
) -> Option<Seq<char>> {
    match path_expanded(editor, path, expansion) {
        Err(_) => None,
        Ok(expanded) => match canonical {
            Some(canonical) => Some(canonical),
            None => Some(expanded),
        },
    }
}

/// A window of the desktop as one of an editor.
pub open spec fn editor_window(window: DesktopWindowSnapshotView, application: Seq<char>) -> EditorWindowSnapshotView {
    EditorWindowSnapshotView {
        identity: window.identity,
        application,
        title: window.title,
        project_path: window.project_path,
        workspace_identity: window.workspace_identity,
    }
}

/// The windows of an editor.
pub open spec fn editor_windows(kind: ProjectEditorKind, windows: Seq<DesktopWindowSnapshotView>) -> Seq<
    EditorWindowSnapshotView,
>
    decreases windows.len(),
{
    if windows.len() == 0 {
        Seq::empty()
    } else {
        let earlier = editor_windows(kind, windows.drop_last());
        match windows.last().application {
            Some(application) if kind.is_application(application) => earlier.push(
                editor_window(windows.last(), application),
            ),
            _ => earlier,
        }
    }
}

/// The path that tells whether a window shows a project, where it must be looked up: the one that the
/// window names, or the one in its title.
pub open spec fn path_in_question(
    kind: ProjectEditorKind,
    window: EditorWindowSnapshotView,
    project: Seq<char>,
) -> Option<Seq<char>> {
    if !kind.is_application(window.application) {
        None
    } else {
        match (window.project_path, window.title) {
            (Some(observed), _) => if same_path(observed, project) {
                None
            } else {
                Some(observed)
            },
            (None, None) => None,
            (None, Some(title)) => if file_name(project) is None || kind.project_in_title(title)
                == file_name(project) || kind.title_without_editor(title) is None {
                None
            } else {
                kind.project_in_title(title)
            },
        }
    }
}

/// A path that was looked up and is the one of the project.
pub open spec fn leads_to(
    normalized: Map<Seq<char>, Seq<char>>,
    path: Seq<char>,
    project: Seq<char>,
) -> bool {
    normalized.contains_key(path) && same_path(normalized[path], project)
}

/// A window that shows a project: by its path where it names one, else by its title.
pub open spec fn shows_project(
    kind: ProjectEditorKind,
    window: EditorWindowSnapshotView,
    project: Seq<char>,
    normalized: Map<Seq<char>, Seq<char>>,
) -> bool {
    kind.is_application(window.application) && match (window.project_path, window.title) {
        (Some(observed), _) => same_path(observed, project) || leads_to(
            normalized,
            observed,
            project,
        ),
        (None, None) => false,
        (None, Some(title)) => match file_name(project) {
            None => false,
            Some(name) => kind.project_in_title(title) == Some(name) || (
            kind.title_without_editor(title) is Some && kind.project_in_title(title) is Some
                && leads_to(normalized, kind.project_in_title(title)->Some_0, project)),
        },
    }
}

/// The windows that show a project and name its path, or the windows that show it and name none.
pub open spec fn project_windows(
    kind: ProjectEditorKind,
    windows: Seq<EditorWindowSnapshotView>,
    project: Seq<char>,
    normalized: Map<Seq<char>, Seq<char>>,
    with_path: bool,
) -> Seq<EditorWindowSnapshotView> {
    windows.filter(
        |window: EditorWindowSnapshotView|
            (window.project_path is Some) == with_path && shows_project(
                kind,
                window,
                project,
                normalized,
            ),
    )
}

/// The windows that can be the one of a project: those that name its path decide, where there are any.
pub open spec fn project_matches(
    kind: ProjectEditorKind,
    windows: Seq<EditorWindowSnapshotView>,
    project: Seq<char>,
    normalized: Map<Seq<char>, Seq<char>>,
) -> Seq<EditorWindowSnapshotView> {
    let named = project_windows(kind, windows, project, normalized, true);
    if named.len() > 0 {
        named
    } else {
        project_windows(kind, windows, project, normalized, false)
    }
}

/// More than one window shows a project.
pub open spec fn project_ambiguous(kind: ProjectEditorKind, project: Seq<char>, matches: nat) -> WorkstateErrorView {
    zed_error(
        ZedErrorView::AmbiguousProject {
            editor: kind.display_name_text(),
            project,
            matches: matches as usize,
        },
    )
}

/// The window that shows a project.
pub open spec fn project_window(
    kind: ProjectEditorKind,
    windows: Seq<EditorWindowSnapshotView>,
    project: Seq<char>,
    normalized: Map<Seq<char>, Seq<char>>,
) -> Result<Option<EditorWindowSnapshotView>, WorkstateErrorView> {
    let found = project_matches(kind, windows, project, normalized);
    if found.len() == 0 {
        Ok(None)
    } else if found.len() == 1 {
        Ok(Some(found[0]))
    } else {
        Err(project_ambiguous(kind, project, found.len()))
    }
}

/// The backend of an editor.
pub open spec fn backend_of(kind: ProjectEditorKind, poll_timeout: TimeSpan) -> ZedBackendView {
    ZedBackendView {
        editor_kind: kind,
        command: ZedCommandView {
            program: kind.application_id_text(),
            new_window_flag: Some(kind.new_window_flag_text()),
        },
        poll_interval: span_of_millis(EDITOR_POLL_MILLIS),
        poll_timeout,
    }
}

impl ZedBackend {
    /// The backend of Zed.
    pub fn new(poll_timeout: TimeSpan) -> (r: Self)
        ensures
            r@ == backend_of(ProjectEditorKind::Zed, poll_timeout),
    {
        ZedBackend::for_editor(ProjectEditorKind::Zed, poll_timeout)
    }

    /// The backend of an editor.
    pub fn for_editor(editor_kind: ProjectEditorKind, poll_timeout: TimeSpan) -> (r: Self)
        ensures
            r@ == backend_of(editor_kind, poll_timeout),
    {
        ZedBackend {
            editor_kind,
            command: ZedCommand::new(editor_kind.executable()).with_new_window_flag(
                editor_kind.new_window_flag(),
            ),
            poll_interval: TimeSpan::from_millis(EDITOR_POLL_MILLIS),
            poll_timeout,
        }
    }

    /// The backend with another command.
    pub fn with_command(self, command: ZedCommand) -> (r: Self)
        ensures
            r@ == (ZedBackendView { command: command@, ..self@ }),
    {
        ZedBackend {
            editor_kind: self.editor_kind,
            command,
            poll_interval: self.poll_interval,
            poll_timeout: self.poll_timeout,
        }
    }

    /// The backend with another timing.
    pub fn with_timing(self, poll_interval: TimeSpan, poll_timeout: TimeSpan) -> (r: Self)
        ensures
            r@ == (ZedBackendView { poll_interval, poll_timeout, ..self@ }),
    {
        ZedBackend {
            editor_kind: self.editor_kind,
            command: self.command,
            poll_interval,
            poll_timeout,
        }
    }

    pub fn command(&self) -> (r: &ZedCommand)
        ensures
            r@ == self@.command,
    {
        &self.command
    }

    pub fn editor_kind(&self) -> (r: ProjectEditorKind)
        ensures
            r == self@.editor_kind,
    {
        self.editor_kind
    }

    /// Whether the editor can be asked.
    pub fn is_available(&self) -> (r: bool)
        ensures
            r,
    {
        true
    }

    /// A project path that starts at the root.
    pub fn expand_project_path(&self, project_path: &str, expansion: HomeExpansion) -> (r: Result<
        String,
        WorkstateError,
    >)
        ensures
            seen(r) == path_expanded(
                self@.editor_kind.display_name_text(),
                project_path@,
                expansion,
            ),
    {
        let editor = self.editor_kind.display_name();
        if path_is_absolute(project_path) {
            return Ok(project_path.to_owned());
        }
        if !path_is_home_relative(project_path) {
            return Err(
                refuse_path(
                    editor,
                    "the configured project path must be absolute or start with ~/ or $HOME/".to_owned(),
                ),
            );
        }
        if let Err(source) = expansion.home {
            return Err(operation_error(editor, "resolve-project-home", source));
        }
        if let Err(source) = expansion.resolver {
            return Err(operation_error(editor, "resolve-project-path", source));
        }
        match expansion.expanded {
            Err(error) => Err(refuse_path(editor, error.message)),
            Ok(expanded) => Ok(expanded),
        }
    }

    /// The project directory that a path leads to.
    pub fn resolve_project_path(
        &self,
        project_path: &str,
        expansion: HomeExpansion,
        reading: ProjectReading,
    ) -> (r: Result<String, WorkstateError>)
        ensures
            seen(r) == project_resolved(
                self@.editor_kind.display_name_text(),
                project_path@,
                expansion,
                reading,
            ),
    {
        let editor = self.editor_kind.display_name();
        let expanded = match self.expand_project_path(project_path, expansion) {
            Err(error) => {
                return Err(error);
            },
            Ok(expanded) => expanded,
        };
        if !path_is_absolute(expanded.as_str()) {
            return Err(
                refuse_path(editor, "the configured project path must be absolute".to_owned()),
            );
        }
        let exists = match reading.exists {
            Err(source) => {
                return Err(operation_error(editor, "inspect-project-path", source));
            },
            Ok(exists) => exists,
        };
        if !exists {
            return Err(
                refuse_path(
                    editor,
                    join2("the configured project path does not exist: ", expanded.as_str()),
                ),
            );
        }
        let is_directory = match reading.is_directory {
            Err(source) => {
                return Err(operation_error(editor, "inspect-project-path", source));
            },
            Ok(is_directory) => is_directory,
        };
        if !is_directory {
            return Err(
                refuse_path(
                    editor,
                    join2("the configured project path is not a directory: ", expanded.as_str()),
                ),
            );
        }
        match reading.canonical {
            Err(source) => Err(operation_error(editor, "resolve-project-path", source)),
            Ok(canonical) => Ok(canonical),
        }
    }

    /// A path that was observed, as a project path. `canonical` is its canonical form, where it has one.
    pub fn normalize_observed_project_path(
        &self,
        observed: &str,
        expansion: HomeExpansion,
        canonical: Option<String>,
    ) -> (r: Option<String>)
        ensures
            r.deep_view() == path_normalized(
                self@.editor_kind.display_name_text(),
                observed@,
                expansion,
                canonical.deep_view(),
            ),
    {
        match self.expand_project_path(observed, expansion) {
            Err(_) => None,
            Ok(expanded) => match canonical {
                Some(canonical) => Some(canonical),
                None => Some(expanded),
            },
        }
    }

    /// The windows of the editor.
    pub fn observe_projects(&self, snapshot: &DesktopSnapshot) -> (r: Vec<EditorWindowSnapshot>)
        ensures
            r.deep_view() == editor_windows(self@.editor_kind, snapshot@.windows),
    {
        let windows = &snapshot.windows;
        let mut found: Vec<EditorWindowSnapshot> = empty_list();
        let mut i: usize = 0;
        let ghost all = windows.deep_view();
        assert(all.take(0) =~= Seq::<DesktopWindowSnapshotView>::empty());
        while i < windows.len()
            invariant
                i <= windows@.len(),
                all == windows.deep_view(),
                found.deep_view() == editor_windows(self@.editor_kind, all.take(i as int)),
            decreases windows@.len() - i,
        {
            assert(all[i as int] == windows@[i as int]@);
            assert(all.take(i as int + 1).drop_last() =~= all.take(i as int));
            let window = &windows[i];
            if let Some(application) = &window.application {
                if self.editor_kind.matches_application(application.as_str()) {
                    append(
                        &mut found,
                        EditorWindowSnapshot {
                            identity: window.identity.clone(),
                            application: application.clone(),
                            title: window.title.replicate(),
                            project_path: window.project_path.replicate(),
                            workspace_identity: window.workspace_identity.replicate(),
                        },
                    );
                }
            }
            i = i + 1;
        }
        assert(all.take(i as int) =~= all);
        found
    }

    /// The path that must be looked up to tell whether a window shows a project.
    pub fn path_to_normalize(&self, window: &EditorWindowSnapshot, project_path: &str) -> (r: Option<
        String,
    >)
        ensures
            r.deep_view() == path_in_question(self@.editor_kind, window@, project_path@),
    {
        if !self.editor_kind.matches_application(window.application.as_str()) {
            return None;
        }
        if let Some(observed) = &window.project_path {
            return if paths_agree(observed.as_str(), project_path) {
                None
            } else {
                Some(observed.clone())
            };
        }
        let title = match &window.title {
            None => {
                return None;
            },
            Some(title) => title.as_str(),
        };
        let name = match path_file_name(project_path) {
            None => {
                return None;
            },
            Some(name) => name,
        };
        if self.editor_kind.title_matches_project_name(title, name.as_str())
            || !self.editor_kind.has_known_editor_suffix(title) {
            return None;
        }
        self.editor_kind.project_title_component(title)
    }

    /// Whether a window shows a project. `normalized` holds the paths that were looked up.
    pub fn project_path_matches(
        &self,
        window: &EditorWindowSnapshot,
        project_path: &str,
        normalized: &TextMap,
    ) -> (r: bool)
        ensures
            r == shows_project(self@.editor_kind, window@, project_path@, normalized@),
    {
        if !self.editor_kind.matches_application(window.application.as_str()) {
            return false;
        }
        if let Some(observed) = &window.project_path {
            return paths_agree(observed.as_str(), project_path) || path_leads_to(
                normalized,
                observed.as_str(),
                project_path,
            );
        }
        let title = match &window.title {
            None => {
                return false;
            },
            Some(title) => title.as_str(),
        };
        let name = match path_file_name(project_path) {
            None => {
                return false;
            },
            Some(name) => name,
        };
        if self.editor_kind.title_matches_project_name(title, name.as_str()) {
            return true;
        }
        if !self.editor_kind.has_known_editor_suffix(title) {
            return false;
        }
        match self.editor_kind.project_title_component(title) {
            None => false,
            Some(component) => path_leads_to(normalized, component.as_str(), project_path),
        }
    }

    fn windows_of_project(
        &self,
        windows: &Vec<EditorWindowSnapshot>,
        project_path: &str,
        normalized: &TextMap,
        with_path: bool,
    ) -> (r: Vec<EditorWindowSnapshot>)
        ensures
            r.deep_view() == project_windows(
                self@.editor_kind,
                windows.deep_view(),
                project_path@,
                normalized@,
                with_path,
            ),
    {
        let mut found: Vec<EditorWindowSnapshot> = empty_list();
        let mut i: usize = 0;
        let ghost kind = self@.editor_kind;
        let ghost all = windows.deep_view();
        let ghost keep = |window: EditorWindowSnapshotView|
            (window.project_path is Some) == with_path && shows_project(
                kind,
                window,
                project_path@,
                normalized@,
            );
        proof {
            lemma_filter_ends(all, keep);
        }
        while i < windows.len()
            invariant
                i <= windows@.len(),
                all == windows.deep_view(),
                kind == self@.editor_kind,
                keep == (|window: EditorWindowSnapshotView|
                    (window.project_path is Some) == with_path && shows_project(
                        kind,
                        window,
                        project_path@,
                        normalized@,
                    )),
                found.deep_view() == all.take(i as int).filter(keep),
            decreases windows@.len() - i,
        {
            assert(all[i as int] == windows@[i as int]@);
            proof {
                lemma_filter_step(all, i as int, keep);
            }
            if windows[i].project_path.is_some() == with_path && self.project_path_matches(
                &windows[i],
                project_path,
                normalized,
            ) {
                append(&mut found, windows[i].replicate());
            }
            i = i + 1;
        }
        proof {
            lemma_filter_ends(all, keep);
            assert(all.take(i as int) =~= all);
        }
        found
    }

    /// The window that shows a project. `normalized` holds the paths that were looked up.
    pub fn matching_project_window(
        &self,
        windows: &Vec<EditorWindowSnapshot>,
        project_path: &str,
        normalized: &TextMap,
    ) -> (r: Result<Option<EditorWindowSnapshot>, WorkstateError>)
        ensures
            seen(r) == project_window(
                self@.editor_kind,
                windows.deep_view(),
                project_path@,
                normalized@,
            ),
    {
        let named = self.windows_of_project(windows, project_path, normalized, true);
        assert(named.deep_view().len() == named@.len());
        let found = if named.len() > 0 {
            named
        } else {
            self.windows_of_project(windows, project_path, normalized, false)
        };
        assert(found.deep_view().len() == found@.len());
        if found.len() == 0 {
            Ok(None)
        } else if found.len() == 1 {
            assert(found.deep_view()[0] == found@[0]@);
            Ok(Some(found[0].replicate()))
        } else {
            Err(
                ZedError::AmbiguousProject {
                    editor: self.editor_kind.display_name().to_owned(),
                    project: project_path.to_owned(),
                    matches: found.len(),
                }.into_workstate(),
            )
        }
    }
}

fn path_leads_to(normalized: &TextMap, path: &str, project_path: &str) -> (r: bool)
    ensures
        r == leads_to(normalized@, path@, project_path@),
{
    match normalized.get(path) {
        Some(found) => paths_agree(found.as_str(), project_path),
        None => false,
    }
}

// ---------------------------------------------------------------------------------------------
// Laws
// ---------------------------------------------------------------------------------------------
/// Whether a window shows a project depends on no other path than the one that is to be looked up.
pub proof fn law_only_the_path_in_question_decides(
    kind: ProjectEditorKind,
    window: EditorWindowSnapshotView,
    project: Seq<char>,
    one: Map<Seq<char>, Seq<char>>,
    other: Map<Seq<char>, Seq<char>>,
)
    requires
        path_in_question(kind, window, project) matches Some(path) ==> one.contains_key(path)
            == other.contains_key(path) && (one.contains_key(path) ==> one[path] == other[path]),
    ensures
        shows_project(kind, window, project, one) == shows_project(kind, window, project, other),
{
}

/// A window that names the path of a project shows it, whatever was looked up.
pub proof fn law_named_path_is_shown(
    kind: ProjectEditorKind,
    window: EditorWindowSnapshotView,
    project: Seq<char>,
    normalized: Map<Seq<char>, Seq<char>>,
)
    requires
        kind.is_application(window.application),
        window.project_path == Some(project),
    ensures
        shows_project(kind, window, project, normalized),
{
}

/// The window that is found for a project is one of those that were observed, and it shows the project.
pub proof fn law_found_window_shows_project(
    kind: ProjectEditorKind,
    windows: Seq<EditorWindowSnapshotView>,
    project: Seq<char>,
    normalized: Map<Seq<char>, Seq<char>>,
)
    ensures
        project_window(kind, windows, project, normalized) matches Ok(Some(window)) ==> (
        windows.contains(window) && shows_project(kind, window, project, normalized)),
{
    let named = project_windows(kind, windows, project, normalized, true);
    let titled = project_windows(kind, windows, project, normalized, false);
    let keep_named = |window: EditorWindowSnapshotView|
        (window.project_path is Some) == true && shows_project(kind, window, project, normalized);
    let keep_titled = |window: EditorWindowSnapshotView|
        (window.project_path is Some) == false && shows_project(kind, window, project, normalized);
    if named.len() > 0 {
        assert(named.contains(named[0]));
        windows.lemma_filter_contains_rev(keep_named, named[0]);
        windows.lemma_filter_pred(keep_named, 0);
    } else if titled.len() > 0 {
        assert(titled.contains(titled[0]));
        windows.lemma_filter_contains_rev(keep_titled, titled[0]);
        windows.lemma_filter_pred(keep_titled, 0);
    }
}

/// A project is opened by the program of its editor, in a window of its own, in the directory of the
/// project.
pub proof fn law_project_is_handed_to_its_editor(
    kind: ProjectEditorKind,
    poll_timeout: TimeSpan,
    project: Seq<char>,
)
    ensures
        ({
            let backend = backend_of(kind, poll_timeout);
            let arguments = backend.command.arguments(project);
            &&& backend.editor_kind == kind && backend.poll_timeout == poll_timeout
            &&& arguments.len() == 2 && arguments[1] == project
            &&& kind == ProjectEditorKind::Zed ==> backend.command.program == "zed"@
                && arguments[0] == "-n"@
            &&& kind == ProjectEditorKind::VsCode ==> backend.command.program == "code"@
                && arguments[0] == "--new-window"@
            &&& kind == ProjectEditorKind::Cursor ==> backend.command.program == "cursor"@
                && arguments[0] == "--new-window"@
        }),
{
}

/// The windows of an editor are those of its application, in their order, with everything that the
/// desktop tells of them.
pub proof fn law_windows_of_the_editor_are_listed(
    kind: ProjectEditorKind,
    earlier: Seq<DesktopWindowSnapshotView>,
    window: DesktopWindowSnapshotView,
    application: Seq<char>,
)
    ensures
        window.application == Some(application) && kind.is_application(application)
            ==> editor_windows(kind, earlier.push(window)) == editor_windows(kind, earlier).push(
            (EditorWindowSnapshotView {
                identity: window.identity,
                application,
                title: window.title,
                project_path: window.project_path,
                workspace_identity: window.workspace_identity,
            }),
        ),
        window.application is None ==> editor_windows(kind, earlier.push(window))
            == editor_windows(kind, earlier),
        window.application == Some(application) && !kind.is_application(application)
            ==> editor_windows(kind, earlier.push(window)) == editor_windows(kind, earlier),
{
    assert(earlier.push(window).drop_last() =~= earlier);
}

/// The one window that tells the path of the project is the window of the project; a window that tells
/// another path that leads elsewhere is not, and two that show it are not told apart.
pub proof fn law_one_window_shows_the_project(
    kind: ProjectEditorKind,
    window: EditorWindowSnapshotView,
    other: EditorWindowSnapshotView,
    project: Seq<char>,
    normalized: Map<Seq<char>, Seq<char>>,
)
    requires
        kind.is_application(window.application),
        window.project_path == Some(project),
        kind.is_application(other.application),
    ensures
        project_window(kind, seq![window], project, normalized) == Ok::<
            Option<EditorWindowSnapshotView>,
            WorkstateErrorView,
        >(Some(window)),
        other.project_path is None ==> project_window(
            kind,
            seq![window, other],
            project,
            normalized,
        ) == Ok::<Option<EditorWindowSnapshotView>, WorkstateErrorView>(Some(window)),
        other.project_path == Some(project) ==> project_window(
            kind,
            seq![window, other],
            project,
            normalized,
        ) is Err,
        (other.project_path matches Some(path) && !same_path(path, project)
            && !normalized.contains_key(path)) ==> project_window(
            kind,
            seq![other],
            project,
            normalized,
        ) == Ok::<Option<EditorWindowSnapshotView>, WorkstateErrorView>(None),
        project_window(kind, Seq::empty(), project, normalized) == Ok::<
            Option<EditorWindowSnapshotView>,
            WorkstateErrorView,
        >(None),
{
    reveal_with_fuel(Seq::filter, 3);
    let empty = Seq::<EditorWindowSnapshotView>::empty();
    let one = seq![window];
    let two = seq![window, other];
    assert(one.drop_last() =~= empty && one.last() == window);
    assert(two.drop_last() =~= one && two.last() == other);
    assert(seq![other].drop_last() =~= empty && seq![other].last() == other);
    assert(shows_project(kind, window, project, normalized));
    assert(project_windows(kind, one, project, normalized, true) =~= one);
    if other.project_path is None {
        assert(project_windows(kind, two, project, normalized, true) =~= one);
    }
    if other.project_path == Some(project) {
        assert(project_windows(kind, two, project, normalized, true) =~= two);
    }
    if other.project_path matches Some(path) && !same_path(path, project)
        && !normalized.contains_key(path) {
        assert(project_windows(kind, seq![other], project, normalized, true) =~= empty);
        assert(project_windows(kind, seq![other], project, normalized, false) =~= empty);
    }
}

/// A project is opened where its path leads to a directory that is there, and only there.
pub proof fn law_project_is_a_directory(
    editor: Seq<char>,
    path: Seq<char>,
    expansion: HomeExpansion,
    reading: ProjectReading,
)
    requires
        is_absolute(path),
    ensures
        project_resolved(editor, path, expansion, reading) is Ok <==> seen(reading.exists) == Ok::<
            bool,
            WorkstateErrorView,
        >(true) && seen(reading.is_directory) == Ok::<bool, WorkstateErrorView>(true) && seen(
            reading.canonical,
        ) is Ok,
        project_resolved(editor, path, expansion, reading) matches Ok(project) ==> seen(
            reading.canonical,
        ) == Ok::<Seq<char>, WorkstateErrorView>(project),
{
}

/// A title that begins with the project and ends with the editor tells the project.
pub proof fn law_project_is_told_by_the_title(name: Seq<char>)
    requires
        name.len() > 0,
        forall|i: int| 0 <= i < name.len() ==> !is_white(#[trigger] name[i]),
    ensures
        ProjectEditorKind::Zed.project_in_title(name + " - Zed"@) == Some(name),
        ProjectEditorKind::Cursor.project_in_title(name + " - Cursor"@) == Some(name),
        ProjectEditorKind::Zed.project_in_title(name) == Some(name),
        ProjectEditorKind::Zed.title_without_editor(name) is None,
{
    lemma_no_separator(name);
    lemma_title_ends(name, "Zed"@);
    lemma_title_ends(name, "Cursor"@);
    reveal_strlit(" - Zed");
    reveal_strlit(" - Cursor");
    reveal_strlit(" - ");
    reveal_strlit("Zed");
    reveal_strlit("Cursor");
    assert(" - "@ + "Zed"@ =~= " - Zed"@);
    assert(" - "@ + "Cursor"@ =~= " - Cursor"@);
}

proof fn lemma_no_separator(name: Seq<char>)
    requires
        name.len() > 0,
        forall|i: int| 0 <= i < name.len() ==> !is_white(#[trigger] name[i]),
    ensures
        first_separator(name) is None,
        last_separator_end(name) is None,
        trim(name) == name,
{
    reveal_strlit(" — ");
    reveal_strlit(" – ");
    reveal_strlit(" - ");
    reveal_strlit(": ");
    lemma_part_with_space(name, " — "@, 0);
    lemma_part_with_space(name, " – "@, 0);
    lemma_part_with_space(name, " - "@, 0);
    lemma_part_with_space(name, ": "@, 1);
    lemma_trimmed(name);
}

proof fn lemma_part_with_space(name: Seq<char>, part: Seq<char>, k: int)
    requires
        0 <= k < part.len(),
        part[k] == ' ',
        forall|i: int| 0 <= i < name.len() ==> !is_white(#[trigger] name[i]),
    ensures
        find(name, part) is None,
        rfind(name, part) is None,
{
    assert(is_white(' '));
    lemma_find_from(name, part, 0);
    lemma_rfind_before(name, part, name.len() as int + 1);
    assert forall|i: int| #[trigger] occurs_at(name, part, i) implies false by {
        assert(name.subrange(i, i + part.len())[k] == name[i + k]);
        assert(!is_white(name[i + k]));
    }
}

proof fn lemma_trimmed(name: Seq<char>)
    requires
        name.len() > 0,
        !is_white(name[0]),
        !is_white(name.last()),
    ensures
        trim(name) == name,
{
    assert(trim_start(name) == name);
    assert(trim_end(name) == name);
}

proof fn lemma_title_ends(name: Seq<char>, suffix: Seq<char>)
    requires
        name.len() > 0,
        forall|i: int| 0 <= i < name.len() ==> !is_white(#[trigger] name[i]),
        suffix == "Zed"@ || suffix == "Cursor"@,
    ensures
        before_ending(trim(name + (" - "@ + suffix)), title_endings(suffix)) == Some(name),
        before_ending(trim(name), title_endings(suffix)) is None,
{
    reveal_strlit("Zed");
    reveal_strlit("Cursor");
    reveal_strlit(" — ");
    reveal_strlit(" – ");
    reveal_strlit(" - ");
    reveal_strlit(": ");
    assert(suffix.len() > 0);
    let title = name + (" - "@ + suffix);
    let endings = title_endings(suffix);
    assert(!is_white(suffix.last()));
    lemma_trimmed(title);
    lemma_trimmed(name);
    assert(endings.len() == 4);
    reveal_with_fuel(before_ending, 5);
    let second = endings.drop_first();
    let third = second.drop_first();
    let fourth = third.drop_first();
    assert(endings[0] == " — "@ + suffix);
    assert(second[0] == " – "@ + suffix);
    assert(third[0] == " - "@ + suffix);
    assert(fourth[0] == ": "@ + suffix);
    assert(is_white(' '));
    assert(!has_suffix(title, endings[0])) by {
        assert(title.subrange(title.len() - endings[0].len(), title.len() as int)[1] == title[name.len() as int + 1]);
        assert(title[name.len() as int + 1] == '-');
        assert(endings[0][1] == " — "@[1]);
    }
    assert(!has_suffix(title, second[0])) by {
        assert(title.subrange(title.len() - second[0].len(), title.len() as int)[1] == title[name.len() as int + 1]);
        assert(title[name.len() as int + 1] == '-');
        assert(second[0][1] == " – "@[1]);
    }
    assert(title.subrange(title.len() - third[0].len(), title.len() as int) =~= third[0]);
    assert(title.take(title.len() - third[0].len()) =~= name);
    assert(before_ending(title, third) == Some(name));
    assert(before_ending(title, second) == Some(name));
    assert(before_ending(title, endings) == Some(name));
    assert forall|part: Seq<char>|
        part.len() > 0 && part.len() <= name.len() && part.contains(' ') implies !#[trigger] has_suffix(
        name,
        part,
    ) by {
        let k = choose|k: int| 0 <= k < part.len() && part[k] == ' ';
        assert(name.subrange(name.len() - part.len(), name.len() as int)[k] == name[name.len() - part.len() + k]);
        assert(!is_white(name[name.len() - part.len() + k]));
    }
    assert(endings[0][0] == ' ' && second[0][0] == ' ' && third[0][0] == ' ' && fourth[0][1]
        == ' ');
    assert(endings[0].contains(' ') && second[0].contains(' ') && third[0].contains(' ')
        && fourth[0].contains(' '));
    assert(!has_suffix(name, endings[0]) && !has_suffix(name, second[0]) && !has_suffix(
        name,
        third[0],
    ) && !has_suffix(name, fourth[0]));
    assert(before_ending(name, fourth) is None);
    assert(before_ending(name, third) is None);
    assert(before_ending(name, second) is None);
}

} // verus!
