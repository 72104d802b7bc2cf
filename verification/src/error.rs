//! The error that every fallible operation of the library returns.
use vstd::prelude::*;
use vstd::string::*;
use crate::values::{append, empty_list, Replicate};

verus! {

/// The part of the system that an error belongs to.
#[derive(Debug, Clone, Copy, PartialEq, Eq, Structural)]
pub enum ErrorCategory {
    Domain,
    Integration,
    Persistence,
    Platform,
    Process,
    Runtime,
}

impl DeepView for ErrorCategory {
    type V = ErrorCategory;

    open spec fn deep_view(&self) -> ErrorCategory {
        *self
    }
}

impl Replicate for ErrorCategory {
    fn replicate(&self) -> (r: Self) {
        *self
    }
}

/// The error below an error: its text, and whether it says that a file was not found.
#[derive(Debug, Clone, PartialEq, Eq)]
pub struct ErrorSource {
    pub text: String,
    pub not_found: bool,
}

/// What an `ErrorSource` stands for.
#[verifier::ext_equal]
pub struct ErrorSourceView {
    pub text: Seq<char>,
    pub not_found: bool,
}

impl DeepView for ErrorSource {
    type V = ErrorSourceView;

    open spec fn deep_view(&self) -> ErrorSourceView {
        ErrorSourceView { text: self.text.deep_view(), not_found: self.not_found }
    }
}

impl Replicate for ErrorSource {
    fn replicate(&self) -> (r: Self) {
        ErrorSource { text: self.text.replicate(), not_found: self.not_found }
    }
}

/// An error: a message of one category, with context entries in the order in which they were added.
#[derive(Debug, Clone, PartialEq, Eq)]
pub struct WorkstateError {
    pub category: ErrorCategory,
    pub message: String,
    pub context: Vec<(String, String)>,
    pub source: Option<ErrorSource>,
}

/// What a `WorkstateError` stands for.
#[verifier::ext_equal]
pub struct WorkstateErrorView {
    pub category: ErrorCategory,
    pub message: Seq<char>,
    pub context: Seq<(Seq<char>, Seq<char>)>,
    pub source: Option<ErrorSourceView>,
}

impl WorkstateErrorView {
    /// The error with one more context entry.
    pub open spec fn with(self, key: Seq<char>, value: Seq<char>) -> WorkstateErrorView {
        WorkstateErrorView { context: self.context.push((key, value)), ..self }
    }
}

/// An error without context and without source.
pub open spec fn error_of(category: ErrorCategory, message: Seq<char>) -> WorkstateErrorView {
    WorkstateErrorView { category, message, context: Seq::empty(), source: None }
}

/// An error without context whose source has the given text.
pub open spec fn error_from(
    category: ErrorCategory,
    message: Seq<char>,
    source: Seq<char>,
) -> WorkstateErrorView {
    WorkstateErrorView {
        source: Some(ErrorSourceView { text: source, not_found: false }),
        ..error_of(category, message)
    }
}

/// The context entries as text: each in brackets behind a blank.
pub open spec fn rendered_context(context: Seq<(Seq<char>, Seq<char>)>) -> Seq<char>
    decreases context.len(),
{
    if context.len() == 0 {
        Seq::empty()
    } else {
        rendered_context(context.drop_last()) + " ["@ + context.last().0 + ": "@ + context.last().1
            + "]"@
    }
}

/// The text of an error: its message, then its context.
pub open spec fn rendered(error: WorkstateErrorView) -> Seq<char> {
    error.message + rendered_context(error.context)
}

/// A result by what it stands for.
pub open spec fn seen<T: DeepView>(result: Result<T, WorkstateError>) -> Result<
    T::V,
    WorkstateErrorView,
> {
    match result {
        Ok(value) => Ok(value.deep_view()),
        Err(error) => Err(error@),
    }
}

impl View for WorkstateError {
    type V = WorkstateErrorView;

    open spec fn view(&self) -> WorkstateErrorView {
        WorkstateErrorView {
            category: self.category,
            message: self.message.deep_view(),
            context: self.context.deep_view(),
            source: self.source.deep_view(),
        }
    }
}

impl DeepView for WorkstateError {
    type V = WorkstateErrorView;

    open spec fn deep_view(&self) -> WorkstateErrorView {
        self.view()
    }
}

impl Replicate for WorkstateError {
    fn replicate(&self) -> (r: Self) {
        WorkstateError {
            category: self.category,
            message: self.message.replicate(),
            context: self.context.replicate(),
            source: self.source.replicate(),
        }
    }
}

impl WorkstateError {
    /// An error without context and without source.
    pub fn new(category: ErrorCategory, message: &str) -> (r: Self)
        ensures
            r@ == error_of(category, message@),
    {
        WorkstateError { category, message: message.to_owned(), context: empty_list(), source: None }
    }

    /// An error without context whose source has the given text.
    pub fn with_source(category: ErrorCategory, message: &str, source: &str) -> (r: Self)
        ensures
            r@ == error_from(category, message@, source@),
    {
        WorkstateError {
            category,
            message: message.to_owned(),
            context: empty_list(),
            source: Some(ErrorSource { text: source.to_owned(), not_found: false }),
        }
    }

    /// The error with one more context entry.
    pub fn with_context(self, key: &str, value: &str) -> (r: Self)
        ensures
            r@ == self@.with(key@, value@),
    {
        let mut context = self.context;
        append(&mut context, (key.to_owned(), value.to_owned()));
        WorkstateError {
            category: self.category,
            message: self.message,
            context,
            source: self.source,
        }
    }

    /// The text of the error: its message, then its context.
    pub fn render(&self) -> (r: String)
        ensures
            r@ == rendered(self@),
    {
        let mut r: String = self.message.clone();
        let mut i: usize = 0;
        let ghost entries = self.context.deep_view();
        assert(entries.take(0) =~= Seq::empty());
        while i < self.context.len()
            invariant
                i <= self.context@.len(),
                entries == self.context.deep_view(),
                r@ == self@.message + rendered_context(entries.take(i as int)),
            decreases self.context@.len() - i,
        {
            assert(entries[i as int] == (self.context@[i as int].0@, self.context@[i as int].1@));
            assert(entries.take(i as int + 1).drop_last() =~= entries.take(i as int));
            r.append(" [");
            r.append(self.context[i].0.as_str());
            r.append(": ");
            r.append(self.context[i].1.as_str());
            r.append("]");
            i = i + 1;
            assert(r@ =~= self@.message + rendered_context(entries.take(i as int)));
        }
        assert(entries.take(i as int) =~= entries);
        r
    }
}

/// An error is told with its message first and then every fact in the order in which it was added.
pub proof fn law_error_tells_every_fact(
    category: ErrorCategory,
    message: Seq<char>,
    error: WorkstateErrorView,
    key: Seq<char>,
    value: Seq<char>,
)
    ensures
        rendered(error_of(category, message)) == message,
        error_of(category, message).category == category,
        rendered(error.with(key, value)) == rendered(error) + " ["@ + key + ": "@ + value + "]"@,
        error.with(key, value).category == error.category,
        error.with(key, value).message == error.message,
        error.with(key, value).source == error.source,
{
    assert(error.context.push((key, value)).drop_last() =~= error.context);
    assert(rendered(error.with(key, value)) =~= rendered(error) + " ["@ + key + ": "@ + value
        + "]"@);
    assert(rendered(error_of(category, message)) =~= message);
}

} // verus!
