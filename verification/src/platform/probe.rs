//! What can be asked of a running system.
use vstd::prelude::*;
use vstd::string::*;
use crate::error::{seen, WorkstateError, WorkstateErrorView};

verus! {

/// The questions that a system answers. An answer may fail; the spec functions say what each of them
/// is.
pub trait PlatformProbe {
    /// The name of the operating system.
    spec fn system(&self) -> Result<Seq<char>, WorkstateErrorView>;

    /// The text of the file at a path, where there is one.
    spec fn text_at(&self, path: Seq<char>) -> Result<Option<Seq<char>>, WorkstateErrorView>;

    /// The value of an environment variable, where it is set.
    spec fn variable(&self, name: Seq<char>) -> Result<Option<Seq<char>>, WorkstateErrorView>;

    /// Where an executable is, looked for by its name or its absolute path.
    spec fn program(&self, name: Seq<char>) -> Result<Option<Seq<char>>, WorkstateErrorView>;

    fn operating_system(&self) -> (r: Result<String, WorkstateError>)
        ensures
            seen(r) == self.system(),
    ;

    fn read_text(&self, path: &str) -> (r: Result<Option<String>, WorkstateError>)
        ensures
            seen(r) == self.text_at(path@),
    ;

    fn environment(&self, name: &str) -> (r: Result<Option<String>, WorkstateError>)
        ensures
            seen(r) == self.variable(name@),
    ;

    fn executable(&self, name: &str) -> (r: Result<Option<String>, WorkstateError>)
        ensures
            seen(r) == self.program(name@),
    ;
}

} // verus!
