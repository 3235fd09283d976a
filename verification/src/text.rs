//! Small operations on text that the other modules share.

use vstd::prelude::*;
use vstd::string::{StrSliceExecFns, StringExecFns};

verus! {

/// Whether `text` is exactly `expected`.
pub fn text_is(text: &String, expected: &str) -> (same: bool)
    ensures
        same == (text@ == expected@),
{
    let other = String::from_str(expected);
    *text == other
}

/// `head` followed by `tail`, as a new string.
pub fn joined(head: &str, tail: &str) -> (text: String)
    ensures
        text@ == head@ + tail@,
{
    String::from_str(head).concat(tail)
}

/// A name without the prefix `r#` that lets a keyword be a name: `r#type`
/// gives `type`, any other name gives itself.
pub open spec fn unraw(name: Seq<char>) -> Seq<char> {
    if name.len() >= 2 && name[0] == 'r' && name[1] == '#' {
        name.subrange(2, name.len() as int)
    } else {
        name
    }
}

/// `name` without the prefix `r#`, if it has it.
pub fn without_raw_prefix(name: &String) -> (plain: String)
    ensures
        plain@ == unraw(name@),
{
    let text = name.as_str();
    let length = text.unicode_len();
    if length >= 2 && text.get_char(0) == 'r' && text.get_char(1) == '#' {
        String::from_str(text.substring_char(2, length))
    } else {
        name.clone()
    }
}

} // verus!
