//! Names, identities and processes that tmux can be handed.
use vstd::prelude::*;
use vstd::string::*;
use crate::domain::{ActionId, EnvironmentSlug};
use crate::error::{error_of, seen, ErrorCategory, WorkstateError, WorkstateErrorView};
use crate::paths::{is_absolute, path_is_absolute};
use crate::ports::{ProcessRequest, ProcessRequestView};
use crate::text::{
    has_control, has_white, join2, join3, text_has_char, text_has_control, text_has_white,
};

verus! {

pub const SESSION_PREFIX: &'static str = "workstate-";

pub const WINDOW_PREFIX: &'static str = "workstate-";

/// The session of an environment.
pub open spec fn session_named(environment: Seq<char>) -> Seq<char> {
    SESSION_PREFIX@ + environment
}

/// The window of an action.
pub open spec fn window_named(action: Seq<char>) -> Seq<char> {
    WINDOW_PREFIX@ + action
}

/// The session of an environment.
pub fn session_name(environment: &EnvironmentSlug) -> (r: String)
    ensures
        r@ == session_named(environment@),
{
    join2(SESSION_PREFIX, environment.as_str())
}

/// The window of an action.
pub fn window_name(action_id: &ActionId) -> (r: String)
    ensures
        r@ == window_named(action_id@),
{
    join2(WINDOW_PREFIX, action_id.as_str())
}

/// A name must not be empty, nor hold a control character.
pub open spec fn name_checked(kind: Seq<char>, value: Seq<char>) -> Result<(), WorkstateErrorView> {
    if value.len() == 0 || has_control(value) {
        Err(
            error_of(
                ErrorCategory::Integration,
                "tmux "@ + kind + " name must be non-empty and contain no control characters"@,
            ).with(kind, value),
        )
    } else {
        Ok(())
    }
}

/// A name must not be empty, nor hold a control character.
pub fn validate_name(kind: &str, value: &str) -> (r: Result<(), WorkstateError>)
    ensures
        seen(r) == name_checked(kind@, value@),
{
    if value.is_empty() || text_has_control(value) {
        return Err(
            WorkstateError::new(
                ErrorCategory::Integration,
                join3(
                    "tmux ",
                    kind,
                    " name must be non-empty and contain no control characters",
                ).as_str(),
            ).with_context(kind, value),
        );
    }
    Ok(())
}

/// An identity must not be empty, nor hold a colon, a control character or white space.
pub open spec fn identity_checked(kind: Seq<char>, value: Seq<char>) -> Result<
    (),
    WorkstateErrorView,
> {
    if value.len() == 0 || value.contains(':') || has_control(value) || has_white(value) {
        Err(
            error_of(
                ErrorCategory::Integration,
                "tmux "@ + kind + " identity must be non-empty and contain no control characters"@,
            ).with(kind, value),
        )
    } else {
        Ok(())
    }
}

/// An identity must not be empty, nor hold a colon, a control character or white space.
pub fn validate_identity(kind: &str, value: &str) -> (r: Result<(), WorkstateError>)
    ensures
        seen(r) == identity_checked(kind@, value@),
{
    if value.is_empty() || text_has_char(value, ':') || text_has_control(value) || text_has_white(
        value,
    ) {
        return Err(
            WorkstateError::new(
                ErrorCategory::Integration,
                join3(
                    "tmux ",
                    kind,
                    " identity must be non-empty and contain no control characters",
                ).as_str(),
            ).with_context(kind, value),
        );
    }
    Ok(())
}

/// One of the texts holds a control character.
pub open spec fn any_control(texts: Seq<Seq<char>>) -> bool {
    exists|i: int| 0 <= i < texts.len() && has_control(#[trigger] texts[i])
}

/// An entry that cannot stand in an environment.
pub open spec fn bad_entry(entry: (Seq<char>, Seq<char>)) -> bool {
    entry.0.len() == 0 || entry.0.contains('=') || has_control(entry.0) || has_control(entry.1)
}

/// One of the entries cannot stand in an environment.
pub open spec fn any_bad_entry(entries: Seq<(Seq<char>, Seq<char>)>) -> bool {
    exists|i: int| 0 <= i < entries.len() && bad_entry(#[trigger] entries[i])
}

/// A process that tmux can be handed, in the order of the checks.
pub open spec fn process_checked(process: ProcessRequestView) -> Result<(), WorkstateErrorView> {
    if process.program.len() == 0 || has_control(process.program) {
        Err(
            error_of(
                ErrorCategory::Process,
                "tmux process executable must be non-empty and contain no control characters"@,
            ),
        )
    } else if any_control(process.arguments) {
        Err(
            error_of(
                ErrorCategory::Process,
                "tmux process arguments must not contain NUL characters"@,
            ),
        )
    } else if any_bad_entry(process.environment) {
        Err(
            error_of(ErrorCategory::Process, "tmux process environment entries are invalid"@),
        )
    } else if process.working_directory matches Some(directory) && !is_absolute(directory) {
        Err(
            error_of(ErrorCategory::Process, "tmux process working directory must be absolute"@),
        )
    } else {
        Ok(())
    }
}

fn holds_control(texts: &Vec<String>) -> (r: bool)
    ensures
        r == any_control(texts.deep_view()),
{
    let mut i: usize = 0;
    let ghost all = texts.deep_view();
    while i < texts.len()
        invariant
            i <= texts@.len(),
            all == texts.deep_view(),
            forall|j: int| 0 <= j < i ==> !has_control(#[trigger] all[j]),
        decreases texts@.len() - i,
    {
        assert(all[i as int] == texts@[i as int]@);
        if text_has_control(texts[i].as_str()) {
            return true;
        }
        i = i + 1;
    }
    false
}

fn holds_bad_entry(entries: &Vec<(String, String)>) -> (r: bool)
    ensures
        r == any_bad_entry(entries.deep_view()),
{
    let mut i: usize = 0;
    let ghost all = entries.deep_view();
    while i < entries.len()
        invariant
            i <= entries@.len(),
            all == entries.deep_view(),
            forall|j: int| 0 <= j < i ==> !bad_entry(#[trigger] all[j]),
        decreases entries@.len() - i,
    {
        assert(all[i as int] == (entries@[i as int].0@, entries@[i as int].1@));
        let key = entries[i].0.as_str();
        let value = entries[i].1.as_str();
        if key.is_empty() || text_has_char(key, '=') || text_has_control(key)
            || text_has_control(value) {
            assert(bad_entry(all[i as int]));
            return true;
        }
        i = i + 1;
    }
    false
}

/// A process that tmux can be handed.
pub fn validate_process(process: &ProcessRequest) -> (r: Result<(), WorkstateError>)
    ensures
        seen(r) == process_checked(process@),
{
    if process.program.as_str().is_empty() || text_has_control(process.program.as_str()) {
        return Err(
            WorkstateError::new(
                ErrorCategory::Process,
                "tmux process executable must be non-empty and contain no control characters",
            ),
        );
    }
    if holds_control(&process.arguments) {
        return Err(
            WorkstateError::new(
                ErrorCategory::Process,
                "tmux process arguments must not contain NUL characters",
            ),
        );
    }
    if holds_bad_entry(&process.environment) {
        return Err(
            WorkstateError::new(
                ErrorCategory::Process,
                "tmux process environment entries are invalid",
            ),
        );
    }
    if let Some(directory) = &process.working_directory {
        if !path_is_absolute(directory.as_str()) {
            return Err(
                WorkstateError::new(
                    ErrorCategory::Process,
                    "tmux process working directory must be absolute",
                ),
            );
        }
    }
    Ok(())
}

/// Environments of different names have different sessions, and actions of different names have
/// different windows.
pub proof fn law_names_are_distinct(a: Seq<char>, b: Seq<char>)
    requires
        session_named(a) == session_named(b) || window_named(a) == window_named(b),
    ensures
        a == b,
{
    let prefix = "workstate-"@;
    assert((prefix + a).skip(prefix.len() as int) =~= a);
    assert((prefix + b).skip(prefix.len() as int) =~= b);
}

/// A process can be handed to tmux where nothing in it would be misread, and only there.
pub proof fn law_clean_process_is_accepted(process: ProcessRequestView, kind: Seq<char>, name: Seq<char>)
    ensures
        process_checked(process) is Ok <==> process.program.len() > 0 && !has_control(
            process.program,
        ) && (forall|i: int|
            0 <= i < process.arguments.len() ==> !has_control(#[trigger] process.arguments[i])) && (
        forall|i: int|
            0 <= i < process.environment.len() ==> (#[trigger] process.environment[i]).0.len() > 0
                && !process.environment[i].0.contains('=') && !has_control(
                process.environment[i].0,
            ) && !has_control(process.environment[i].1)) && (
        process.working_directory matches Some(directory) ==> is_absolute(directory)),
        name_checked(kind, name) is Ok <==> name.len() > 0 && !has_control(name),
        identity_checked(kind, name) is Ok <==> name.len() > 0 && !name.contains(':')
            && !has_control(name) && !has_white(name),
{
}

/// Sessions of two environments, and windows of two actions, bear different names.
pub proof fn law_names_are_told_apart(one: Seq<char>, other: Seq<char>)
    ensures
        session_named(one) == session_named(other) <==> one == other,
        window_named(one) == window_named(other) <==> one == other,
{
    let first = SESSION_PREFIX@ + one;
    let second = SESSION_PREFIX@ + other;
    assert(first.skip(SESSION_PREFIX@.len() as int) =~= one);
    assert(second.skip(SESSION_PREFIX@.len() as int) =~= other);
    let third = WINDOW_PREFIX@ + one;
    let fourth = WINDOW_PREFIX@ + other;
    assert(third.skip(WINDOW_PREFIX@.len() as int) =~= one);
    assert(fourth.skip(WINDOW_PREFIX@.len() as int) =~= other);
}

} // verus!
