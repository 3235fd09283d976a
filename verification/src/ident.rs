//! Identifiers: which texts can name a generated method.

use crate::text::text_is;
use vstd::prelude::*;
use vstd::string::StrSliceExecFns;

verus! {

/// Whether a character opens a group of tokens.
pub open spec fn opens_group(c: char) -> bool {
    c == '(' || c == '[' || c == '{'
}

/// Whether a text holds no character that opens a group of tokens.
pub open spec fn bracket_free(text: Seq<char>) -> bool {
    forall|i: int| 0 <= i < text.len() ==> !opens_group(#[trigger] text[i])
}

/// Parses `text` with `syn::parse_str::<syn::Ident>` and prints what was
/// read: the identifier, or `None` where `syn` refuses the text.
///
/// Trusted: that the call returns. Nothing is claimed of what it returns:
/// `syn` lexes the text with the compiler's lexer inside a macro expansion
/// and with `proc-macro2`'s own elsewhere, so that one text may be read in
/// two ways. `syn` builds its token buffer by a recursion that goes one
/// level deeper with each group of tokens inside another; a text without an
/// opening bracket holds no group that is written, which keeps that
/// recursion flat.
#[verifier::external_body]
fn parse_identifier(text: &str) -> (parsed: Option<String>)
    requires
        bracket_free(text@),
{
    match syn::parse_str::<syn::Ident>(text) {
        Ok(ident) => Some(ident.to_string()),
        Err(_) => None,
    }
}

/// Whether `text` holds no character that opens a group of tokens.
pub fn has_no_bracket(text: &String) -> (free: bool)
    ensures
        free == bracket_free(text@),
{
    let written = text.as_str();
    let length = written.unicode_len();
    let mut i: usize = 0;
    while i < length
        invariant
            written@ == text@,
            length == text@.len(),
            i <= length,
            forall|k: int| 0 <= k < i ==> !opens_group(#[trigger] text@[k]),
        decreases length - i,
    {
        let c = written.get_char(i);
        if c == '(' || c == '[' || c == '{' {
            return false;
        }
        i += 1;
    }
    true
}

/// Whether `parsed`, the outcome of reading `text` as one identifier, is
/// `text` itself: ` tag ` is read as `tag`, and is not itself an identifier.
pub fn reads_as_itself(text: &String, parsed: &Option<String>) -> (same: bool)
    ensures
        same == (parsed matches Some(identifier) && identifier@ == text@),
{
    match parsed {
        Some(identifier) => text_is(text, identifier.as_str()),
        None => false,
    }
}

/// Whether `text` is an identifier: whether it is read as one identifier
/// that is the whole text. A text with an opening bracket is none, and is
/// not read; of any other text the verdict is that of the reading, of which
/// nothing is known beforehand.
pub fn check_identifier(text: &String) -> (ok: bool)
    ensures
        ok ==> bracket_free(text@),
{
    if has_no_bracket(text) {
        let parsed = parse_identifier(text.as_str());
        reads_as_itself(text, &parsed)
    } else {
        false
    }
}

} // verus!
