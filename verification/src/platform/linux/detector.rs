//! Which distribution of Linux this is.
use vstd::prelude::*;
use vstd::string::*;
use crate::collections::TextMap;
use crate::error::{seen, WorkstateError, WorkstateErrorView};
use crate::paths::{is_absolute, joined_path, path_is_absolute, path_join};
use crate::platform::identity::{Distribution, DistributionView};
use crate::platform::probe::PlatformProbe;
use crate::platform::tokens::{
    compact_token, compacted, normalize_token, normalized, safe_display, shown,
};
use crate::text::{
    char_is_ascii_digit, chars_of, is_ascii_digit, is_ascii_upper, is_white, joined,
    law_halves_are_found_again, law_joined_parts_are_split_again, lines, lower, same_text, split_on,
    split_once, text_between, text_lines, text_split, text_split_once, text_trim, text_upper, trim,
    trim_end, trim_start, upper,
};
use crate::values::{append, empty_list, text_list, Replicate};

verus! {

/// The file that describes a distribution.
pub const OS_RELEASE_PATH: &'static str = "/etc/os-release";

/// What the file that describes a distribution says.
#[derive(Debug, Clone, PartialEq, Eq)]
pub struct OsReleaseMetadata {
    pub id: Option<String>,
    pub name: Option<String>,
    pub version_id: Option<String>,
    pub id_like: Option<String>,
}

/// What a `OsReleaseMetadata` stands for.
#[verifier::ext_equal]
pub struct OsReleaseMetadataView {
    pub id: Option<Seq<char>>,
    pub name: Option<Seq<char>>,
    pub version_id: Option<Seq<char>>,
    pub id_like: Option<Seq<char>>,
}

impl View for OsReleaseMetadata {
    type V = OsReleaseMetadataView;

    open spec fn view(&self) -> OsReleaseMetadataView {
        OsReleaseMetadataView {
            id: self.id.deep_view(),
            name: self.name.deep_view(),
            version_id: self.version_id.deep_view(),
            id_like: self.id_like.deep_view(),
        }
    }
}

impl DeepView for OsReleaseMetadata {
    type V = OsReleaseMetadataView;

    open spec fn deep_view(&self) -> OsReleaseMetadataView {
        self.view()
    }
}

impl Replicate for OsReleaseMetadata {
    fn replicate(&self) -> (r: Self) {
        OsReleaseMetadata {
            id: self.id.replicate(),
            name: self.name.replicate(),
            version_id: self.version_id.replicate(),
            id_like: self.id_like.replicate(),
        }
    }
}

impl Default for OsReleaseMetadata {
    fn default() -> (r: Self)
        ensures
            r@ == (OsReleaseMetadataView { id: None, name: None, version_id: None, id_like: None }),
    {
        OsReleaseMetadata { id: None, name: None, version_id: None, id_like: None }
    }
}

/// A name of a field: capital letters, digits and underscores.
pub open spec fn is_field_name(key: Seq<char>) -> bool {
    key.len() > 0 && forall|i: int|
        0 <= i < key.len() ==> is_ascii_upper(#[trigger] key[i]) || is_ascii_digit(key[i])
            || key[i] == '_'
}

fn names_field(key: &str) -> (r: bool)
    ensures
        r == is_field_name(key@),
{
    let chars = chars_of(key);
    if chars.len() == 0 {
        return false;
    }
    let mut i: usize = 0;
    while i < chars.len()
        invariant
            i <= chars@.len(),
            chars@ == key@,
            forall|j: int|
                0 <= j < i ==> is_ascii_upper(#[trigger] key@[j]) || is_ascii_digit(key@[j])
                    || key@[j] == '_',
        decreases chars@.len() - i,
    {
        let c = chars[i];
        assert(key@[i as int] == c);
        if !('A' <= c && c <= 'Z') && !char_is_ascii_digit(c) && c != '_' {
            return false;
        }
        i = i + 1;
    }
    true
}

/// A value without the quotes around it.
pub open spec fn unquoted(value: Seq<char>) -> Seq<char> {
    if value.len() >= 2 && ((value[0] == '"' && value.last() == '"') || (value[0] == '\''
        && value.last() == '\'')) {
        value.subrange(1, value.len() - 1)
    } else {
        value
    }
}

fn without_quotes(value: &str) -> (r: String)
    ensures
        r@ == unquoted(value@),
{
    let chars = chars_of(value);
    if chars.len() >= 2 {
        let first = chars[0];
        let last = chars[chars.len() - 1];
        if (first == '"' && last == '"') || (first == '\'' && last == '\'') {
            return text_between(&chars, 1, chars.len() - 1);
        }
    }
    value.to_owned()
}

/// The field that a line holds; comments and lines without a proper name hold none.
pub open spec fn field_in(line: Seq<char>) -> Option<(Seq<char>, Seq<char>)> {
    let text = trim(line);
    if text.len() == 0 || text[0] == '#' {
        None
    } else {
        match split_once(text, "="@) {
            None => None,
            Some((key, value)) => if is_field_name(upper(trim(key))) {
                Some((upper(trim(key)), shown(unquoted(trim(value)))))
            } else {
                None
            },
        }
    }
}

fn parse_field(line: &str) -> (r: Option<(String, String)>)
    ensures
        r.deep_view() == field_in(line@),
{
    let text = text_trim(line);
    let chars = chars_of(text.as_str());
    if chars.len() == 0 || chars[0] == '#' {
        return None;
    }
    match text_split_once(text.as_str(), "=") {
        None => None,
        Some((key, value)) => {
            let name = text_upper(text_trim(key.as_str()).as_str());
            if !names_field(name.as_str()) {
                return None;
            }
            let value = without_quotes(text_trim(value.as_str()).as_str());
            Some((name, safe_display(value.as_str())))
        },
    }
}

/// The value of a field: the last line that holds it counts.
pub open spec fn field_value(all: Seq<Seq<char>>, name: Seq<char>) -> Option<Seq<char>>
    decreases all.len(),
{
    if all.len() == 0 {
        None
    } else {
        match field_in(all.last()) {
            Some((key, value)) if key == name => Some(value),
            _ => field_value(all.drop_last(), name),
        }
    }
}

fn find_field(all: &Vec<String>, name: &str) -> (r: Option<String>)
    ensures
        r.deep_view() == field_value(all.deep_view(), name@),
{
    let ghost view = all.deep_view();
    let mut i: usize = all.len();
    assert(view.take(i as int) =~= view);
    while i > 0
        invariant
            i <= all@.len(),
            view == all.deep_view(),
            field_value(view, name@) == field_value(view.take(i as int), name@),
        decreases i,
    {
        i = i - 1;
        assert(view.take(i as int + 1).last() == all@[i as int]@);
        assert(view.take(i as int + 1).drop_last() =~= view.take(i as int));
        if let Some((key, value)) = parse_field(all[i].as_str()) {
            if same_text(key.as_str(), name) {
                return Some(value);
            }
        }
    }
    None
}

/// What the file that describes a distribution says.
pub open spec fn release_described(contents: Seq<char>) -> OsReleaseMetadataView {
    OsReleaseMetadataView {
        id: field_value(lines(contents), "ID"@),
        name: field_value(lines(contents), "NAME"@),
        version_id: field_value(lines(contents), "VERSION_ID"@),
        id_like: field_value(lines(contents), "ID_LIKE"@),
    }
}

/// What the file that describes a distribution says.
pub fn parse_os_release(contents: &str) -> (r: OsReleaseMetadata)
    ensures
        r@ == release_described(contents@),
{
    let all = text_lines(contents);
    OsReleaseMetadata {
        id: find_field(&all, "ID"),
        name: find_field(&all, "NAME"),
        version_id: find_field(&all, "VERSION_ID"),
        id_like: find_field(&all, "ID_LIKE"),
    }
}

/// A value that is shown, where anything is known.
pub open spec fn known(value: Option<Seq<char>>) -> Option<Seq<char>> {
    match value {
        Some(text) => if shown(text) == "unknown"@ {
            None
        } else {
            Some(shown(text))
        },
        None => None,
    }
}

fn known_text(value: &Option<String>) -> (r: Option<String>)
    ensures
        r.deep_view() == known(value.deep_view()),
{
    match value {
        Some(text) => {
            let text = safe_display(text.as_str());
            if same_text(text.as_str(), "unknown") {
                None
            } else {
                Some(text)
            }
        },
        None => None,
    }
}

/// The identifiers and the name of Pop!_OS.
pub open spec fn names_pop_os(id: Seq<char>, name: Option<Seq<char>>) -> bool {
    id == "pop"@ || id == "pop_os"@ || id == "pop-os"@ || id == "pop!_os"@ || (name
        matches Some(value) && compacted(value) == "popos"@)
}

fn is_pop_os(id: &str, name: &Option<String>) -> (r: bool)
    ensures
        r == names_pop_os(id@, name.deep_view()),
{
    same_text(id, "pop") || same_text(id, "pop_os") || same_text(id, "pop-os") || same_text(
        id,
        "pop!_os",
    ) || match name {
        Some(value) => same_text(compact_token(value.as_str()).as_str(), "popos"),
        None => false,
    }
}

/// The distribution that the file describes.
pub open spec fn distribution_described(metadata: OsReleaseMetadataView) -> DistributionView {
    let id = match metadata.id {
        Some(id) => normalized(id),
        None => Seq::empty(),
    };
    let name = known(metadata.name);
    let version = known(metadata.version_id);
    if names_pop_os(id, name) {
        DistributionView::PopOs { version }
    } else if id == "ubuntu"@ {
        DistributionView::Ubuntu { version }
    } else if id.len() == 0 {
        DistributionView::Unknown {
            value: match name {
                Some(name) => name,
                None => "unknown distribution"@,
            },
        }
    } else {
        DistributionView::Other { id: shown(id), name, version }
    }
}

/// The distribution that the file describes.
pub fn distribution_from_metadata(metadata: &OsReleaseMetadata) -> (r: Distribution)
    ensures
        r@ == distribution_described(metadata@),
{
    let id = match &metadata.id {
        Some(id) => normalize_token(id.as_str()),
        None => String::new(),
    };
    let name = known_text(&metadata.name);
    let version = known_text(&metadata.version_id);
    if is_pop_os(id.as_str(), &name) {
        return Distribution::PopOs { version };
    }
    if same_text(id.as_str(), "ubuntu") {
        return Distribution::Ubuntu { version };
    }
    if id.as_str().is_empty() {
        return Distribution::Unknown {
            value: match name {
                Some(name) => name,
                None => "unknown distribution".to_owned(),
            },
        };
    }
    Distribution::Other { id: safe_display(id.as_str()), name, version }
}

/// The distribution that a probe speaks of.
pub open spec fn distribution_found<P: PlatformProbe>(probe: &P) -> Result<
    DistributionView,
    WorkstateErrorView,
> {
    match probe.text_at("/etc/os-release"@) {
        Err(error) => Err(error),
        Ok(None) => Ok(
            DistributionView::Unknown { value: "distribution metadata unavailable"@ },
        ),
        Ok(Some(contents)) => Ok(distribution_described(release_described(contents))),
    }
}

/// The distribution that a probe speaks of.
pub fn detect_distribution<P: PlatformProbe>(probe: &P) -> (r: Result<Distribution, WorkstateError>)
    ensures
        seen(r) == distribution_found(probe),
{
    match probe.read_text("/etc/os-release") {
        Err(error) => Err(error),
        Ok(None) => Ok(
            Distribution::Unknown { value: "distribution metadata unavailable".to_owned() },
        ),
        Ok(Some(contents)) => Ok(
            distribution_from_metadata(&parse_os_release(contents.as_str())),
        ),
    }
}

/// Finds out which distribution of Linux this is.
#[derive(Debug, Clone, Copy)]
pub struct LinuxDetector;

impl Default for LinuxDetector {
    fn default() -> (r: Self)
        ensures
            r == LinuxDetector,
    {
        LinuxDetector
    }
}

impl LinuxDetector {
    /// The distribution that a probe speaks of.
    pub fn detect_distribution<P: PlatformProbe>(&self, probe: &P) -> (r: Result<
        Distribution,
        WorkstateError,
    >)
        ensures
            seen(r) == distribution_found(probe),
    {
        detect_distribution(probe)
    }
}

/// The answers that a system gave: its name, the files that were read, the variables that are set, and
/// the executables that were found.
#[derive(Debug, Clone)]
pub struct SystemPlatformProbe {
    pub system_name: String,
    pub texts: TextMap,
    pub variables: TextMap,
    pub executables: TextMap,
}

/// The value under a key, where there is one.
pub open spec fn under(map: Map<Seq<char>, Seq<char>>, key: Seq<char>) -> Option<Seq<char>> {
    if map.contains_key(key) {
        Some(map[key])
    } else {
        None
    }
}

impl PlatformProbe for SystemPlatformProbe {
    open spec fn system(&self) -> Result<Seq<char>, WorkstateErrorView> {
        Ok(self.system_name@)
    }

    open spec fn text_at(&self, path: Seq<char>) -> Result<Option<Seq<char>>, WorkstateErrorView> {
        Ok(under(self.texts@, path))
    }

    open spec fn variable(&self, name: Seq<char>) -> Result<Option<Seq<char>>, WorkstateErrorView> {
        Ok(under(self.variables@, name))
    }

    open spec fn program(&self, name: Seq<char>) -> Result<Option<Seq<char>>, WorkstateErrorView> {
        Ok(under(self.executables@, name))
    }

    fn operating_system(&self) -> (r: Result<String, WorkstateError>) {
        Ok(self.system_name.clone())
    }

    fn read_text(&self, path: &str) -> (r: Result<Option<String>, WorkstateError>) {
        Ok(self.texts.get(path))
    }

    fn environment(&self, name: &str) -> (r: Result<Option<String>, WorkstateError>) {
        Ok(self.variables.get(name))
    }

    fn executable(&self, name: &str) -> (r: Result<Option<String>, WorkstateError>) {
        Ok(self.executables.get(name))
    }
}

/// The names of an executable in each of the directories, in their order.
pub open spec fn places_in(directories: Seq<Seq<char>>, name: Seq<char>) -> Seq<Seq<char>> {
    directories.map_values(|directory: Seq<char>| joined_path(directory, name))
}

/// Where an executable may be: at its own path where that is absolute, else in the directories of the
/// search path.
pub open spec fn executable_places(name: Seq<char>, search_path: Option<Seq<char>>) -> Seq<Seq<char>> {
    if is_absolute(name) {
        seq![name]
    } else {
        match search_path {
            None => Seq::empty(),
            Some(text) => places_in(split_on(text, ':'), name),
        }
    }
}

/// Where an executable may be, in the order in which the places are tried.
pub fn executable_in_path(name: &str, search_path: Option<&str>) -> (r: Vec<String>)
    ensures
        r.deep_view() == executable_places(name@, search_path.deep_view()),
{
    if path_is_absolute(name) {
        return text_list(name);
    }
    let directories = match search_path {
        None => {
            return empty_list();
        },
        Some(text) => text_split(text, ':'),
    };
    let ghost all = directories.deep_view();
    let mut places: Vec<String> = empty_list();
    let mut i: usize = 0;
    assert(places_in(all.take(0), name@) =~= Seq::<Seq<char>>::empty());
    while i < directories.len()
        invariant
            i <= directories@.len(),
            all == directories.deep_view(),
            places.deep_view() == places_in(all.take(i as int), name@),
        decreases directories@.len() - i,
    {
        assert(all[i as int] == directories@[i as int]@);
        append(&mut places, path_join(directories[i].as_str(), name));
        assert(places_in(all.take(i as int + 1), name@) =~= places_in(
            all.take(i as int),
            name@,
        ).push(joined_path(all[i as int], name@)));
        i = i + 1;
    }
    assert(all.take(i as int) =~= all);
    places
}

/// A field of the release file is read from its line: the key in front of the sign of equality, the value
/// behind it without its quotes; the last line of a key counts, and a comment does not.
pub proof fn law_written_field_is_read(
    earlier: Seq<Seq<char>>,
    key: Seq<char>,
    value: Seq<char>,
    other: Seq<char>,
)
    requires
        key.len() > 0,
        forall|i: int| 0 <= i < key.len() ==> is_ascii_upper(#[trigger] key[i]) || key[i] == '_',
        value.len() > 0,
        !is_white(value[0]),
        !is_white(value.last()),
        upper(key) == key,
        !key.contains('='),
        !is_white(key[0]),
        !is_white(key.last()),
        key[0] != '#',
    ensures
        field_value(earlier.push(key + seq!['='] + value), key) == Some(shown(unquoted(value))),
        other != key ==> field_value(earlier.push(key + seq!['='] + value), other) == field_value(
            earlier,
            other,
        ),
        field_value(earlier.push(seq!['#'] + value), other) == field_value(earlier, other),
        unquoted(seq!['"'] + value + seq!['"']) == value,
{
    let line = key + seq!['='] + value;
    let comment = seq!['#'] + value;
    let quoted = seq!['"'] + value + seq!['"'];
    assert(quoted.subrange(1, quoted.len() - 1) =~= value);
    assert(earlier.push(line).drop_last() =~= earlier);
    assert(earlier.push(comment).drop_last() =~= earlier);
    assert(trim_start(line) == line && trim_end(line) == line);
    assert(comment.last() == value.last());
    assert(trim_start(comment) == comment && trim_end(comment) == comment);
    assert(trim_start(key) == key && trim_end(key) == key);
    assert(trim_start(value) == value && trim_end(value) == value);
    reveal_strlit("=");
    assert("="@ =~= seq!['=']);
    law_halves_are_found_again(key, '=', value);
    assert(is_field_name(key));
}

/// Pop!_OS and Ubuntu are known by their identity, with their version; any other system is told as it
/// tells itself.
pub proof fn law_distribution_is_known_by_its_identity(metadata: OsReleaseMetadataView)
    requires
        metadata.name is None,
    ensures
        metadata.id == Some("pop"@) ==> distribution_described(metadata) is PopOs,
        metadata.id == Some("ubuntu"@) ==> distribution_described(metadata) is Ubuntu,
        metadata.id is None ==> distribution_described(metadata) is Unknown,
        metadata.id == Some("fedora"@) ==> distribution_described(metadata) is Other,
{
    reveal_strlit("pop");
    reveal_strlit("pop_os");
    reveal_strlit("pop-os");
    reveal_strlit("pop!_os");
    reveal_strlit("ubuntu");
    reveal_strlit("fedora");
    assert("pop"@.len() == 3 && "pop_os"@.len() == 6 && "pop-os"@.len() == 6 && "pop!_os"@.len()
        == 7 && "ubuntu"@.len() == 6 && "fedora"@.len() == 6);
    assert("pop_os"@[0] == 'p' && "pop-os"@[0] == 'p' && "ubuntu"@[0] == 'u' && "fedora"@[0]
        == 'f');
    assert(trim_start("pop"@) == "pop"@ && trim_end("pop"@) == "pop"@);
    assert(trim_start("ubuntu"@) == "ubuntu"@ && trim_end("ubuntu"@) == "ubuntu"@);
    assert(trim_start("fedora"@) == "fedora"@ && trim_end("fedora"@) == "fedora"@);
    assert(lower("pop"@) =~= "pop"@);
    assert(lower("ubuntu"@) =~= "ubuntu"@);
    assert(lower("fedora"@) =~= "fedora"@);
}

/// A program is looked for in every directory of the search path, in their order; an absolute one only
/// where it says.
pub proof fn law_search_path_is_followed(
    name: Seq<char>,
    directories: Seq<Seq<char>>,
    i: int,
)
    requires
        directories.len() > 0,
        forall|k: int| 0 <= k < directories.len() ==> !(#[trigger] directories[k]).contains(':'),
        0 <= i < directories.len(),
    ensures
        !is_absolute(name) ==> executable_places(
            name,
            Some(joined(directories, seq![':'])),
        ).len() == directories.len() && executable_places(
            name,
            Some(joined(directories, seq![':'])),
        )[i] == joined_path(directories[i], name),
        is_absolute(name) ==> executable_places(
            name,
            Some(joined(directories, seq![':'])),
        ) == seq![name],
        !is_absolute(name) ==> executable_places(name, None).len() == 0,
{
    law_joined_parts_are_split_again(directories, ':');
}

} // verus!
