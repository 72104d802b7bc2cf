//! Spans of time.
use vstd::prelude::*;
use crate::values::Replicate;

verus! {

/// A span of time, counted in nanoseconds.
#[derive(Debug, Clone, Copy, PartialEq, Eq, Structural)]
pub struct TimeSpan {
    pub nanoseconds: u128,
}

impl DeepView for TimeSpan {
    type V = TimeSpan;

    open spec fn deep_view(&self) -> TimeSpan {
        *self
    }
}

impl Replicate for TimeSpan {
    fn replicate(&self) -> (r: Self) {
        *self
    }
}

/// The span of so many milliseconds.
pub open spec fn span_of_millis(milliseconds: u64) -> TimeSpan {
    TimeSpan { nanoseconds: (milliseconds * 1_000_000) as u128 }
}

impl TimeSpan {
    /// The whole milliseconds of the span.
    pub open spec fn millis(self) -> nat {
        self.nanoseconds as nat / 1_000_000
    }

    /// The span of so many milliseconds.
    pub fn from_millis(milliseconds: u64) -> (r: Self)
        ensures
            r == span_of_millis(milliseconds),
            r.nanoseconds == milliseconds * 1_000_000,
            r.millis() == milliseconds,
    {
        TimeSpan { nanoseconds: milliseconds as u128 * 1_000_000 }
    }

    /// The whole milliseconds of the span.
    pub fn as_millis(self) -> (r: u128)
        ensures
            r == self.millis(),
    {
        self.nanoseconds / 1_000_000
    }

    /// Whether the span is empty.
    pub fn is_zero(self) -> (r: bool)
        ensures
            r == (self.nanoseconds == 0),
    {
        self.nanoseconds == 0
    }

    /// The shorter of two spans.
    pub fn shorter(self, other: TimeSpan) -> (r: TimeSpan)
        ensures
            r == (if self.nanoseconds <= other.nanoseconds {
                self
            } else {
                other
            }),
    {
        if self.nanoseconds <= other.nanoseconds {
            self
        } else {
            other
        }
    }
}

} // verus!
