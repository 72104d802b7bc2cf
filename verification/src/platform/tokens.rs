//! Names of systems and desktops, made comparable and fit to be shown.
use vstd::prelude::*;
use vstd::string::*;
use crate::text::{
    alphanumeric, lower, text_alphanumeric, text_lower, text_trim, text_visible, trim, visible,
};

verus! {

/// A name without the white space around it, in lower case.
pub open spec fn normalized(value: Seq<char>) -> Seq<char> {
    lower(trim(value))
}

/// A name without the white space around it, in lower case.
pub fn normalize_token(value: &str) -> (r: String)
    ensures
        r@ == normalized(value@),
{
    text_lower(text_trim(value).as_str())
}

/// The letters and digits of a name, in lower case.
pub open spec fn compacted(value: Seq<char>) -> Seq<char> {
    alphanumeric(lower(value))
}

/// The letters and digits of a name, in lower case.
pub fn compact_token(value: &str) -> (r: String)
    ensures
        r@ == compacted(value@),
{
    text_alphanumeric(text_lower(value).as_str())
}

/// What is shown of a name: its visible characters, or that it is unknown where there are none.
pub open spec fn shown(value: Seq<char>) -> Seq<char> {
    let text = trim(visible(value));
    if text.len() == 0 {
        "unknown"@
    } else {
        text
    }
}

/// What is shown of a name.
pub fn safe_display(value: &str) -> (r: String)
    ensures
        r@ == shown(value@),
{
    let text = text_trim(text_visible(value).as_str());
    if text.as_str().is_empty() {
        "unknown".to_owned()
    } else {
        text
    }
}

} // verus!
