//! Field annotations: what `#[builder(each = "name")]` asks for.

use crate::model::{ok_view, text_view, views};
use crate::syntax::{
    lemma_group_view, Attribute, AttributeView, Delimiter, Token, TokenView,
};
use crate::text::text_is;
use vstd::prelude::*;

verus! {

/// What an annotation asks for. There is one kind: `each` asks for a method
/// that appends one element at a time.
#[derive(Debug, PartialEq, Eq, Clone, Copy)]
pub enum AnnotationKind {
    Each,
}

/// The annotation of a field: its kind and the name it gives.
#[derive(Debug, PartialEq, Eq)]
pub struct Annotation {
    pub kind: AnnotationKind,
    /// The name of the method that appends one element.
    pub alias: String,
}

/// The mathematical value of an [`Annotation`].
pub struct AnnotationView {
    pub kind: AnnotationKind,
    pub alias: Seq<char>,
}

impl View for Annotation {
    type V = AnnotationView;

    open spec fn view(&self) -> AnnotationView {
        AnnotationView { kind: self.kind, alias: self.alias@ }
    }
}

impl Clone for Annotation {
    fn clone(&self) -> (copy: Self)
        ensures
            copy@ == self@,
    {
        Annotation { kind: self.kind, alias: self.alias.clone() }
    }
}

/// Why an annotation is refused.
#[derive(Debug, PartialEq, Eq, Clone, Copy)]
pub enum AnnotationError {
    /// It is not of the form `key = "value"` between parentheses.
    Malformed,
    /// Its key is not `each`.
    UnknownKey,
    /// Its value is no identifier, so it cannot name a method.
    InvalidAlias,
    /// The field already has an annotation.
    Repeated,
}

impl AnnotationError {
    /// What to tell the author of the declaration.
    pub open spec fn text(self) -> Seq<char> {
        match self {
            AnnotationError::Malformed => "expected `builder(each = \"...\")`"@,
            AnnotationError::UnknownKey => "expected `builder(each = \"...\")`"@,
            AnnotationError::InvalidAlias => "the name given to `each` must be an identifier"@,
            AnnotationError::Repeated => "a field takes at most one `builder` attribute"@,
        }
    }

    /// What to tell the author of the declaration.
    pub fn message(&self) -> (text: &'static str)
        ensures
            text@ == self.text(),
    {
        match self {
            AnnotationError::Malformed => "expected `builder(each = \"...\")`",
            AnnotationError::UnknownKey => "expected `builder(each = \"...\")`",
            AnnotationError::InvalidAlias => "the name given to `each` must be an identifier",
            AnnotationError::Repeated => "a field takes at most one `builder` attribute",
        }
    }
}

/// Whether an attribute is an annotation: its path is the one name `builder`.
pub open spec fn is_annotation(attribute: AttributeView) -> bool {
    attribute.path.len() == 1 && attribute.path[0] == "builder"@
}

/// The key and the value of `key = "value"`: an identifier, the sign `=` and
/// a string literal, and nothing else.
pub open spec fn key_value(tokens: Seq<TokenView>) -> Option<(Seq<char>, Seq<char>)> {
    if tokens.len() == 3 && tokens[0] is Ident && tokens[1] == (TokenView::Punct { ch: '=' })
        && tokens[2] is Str {
        Some((tokens[0]->name, tokens[2]->value))
    } else {
        None
    }
}

/// The annotation that a key and a value make, given whether the value is an
/// identifier.
pub open spec fn recognized(key: Seq<char>, value: Seq<char>, value_is_identifier: bool) -> Result<
    AnnotationView,
    AnnotationError,
> {
    if key != "each"@ {
        Err(AnnotationError::UnknownKey)
    } else if !value_is_identifier {
        Err(AnnotationError::InvalidAlias)
    } else {
        Ok(AnnotationView { kind: AnnotationKind::Each, alias: value })
    }
}

/// The arguments of an annotation: where the tokens that follow the path
/// are one group between parentheses, the tokens of that group.
pub open spec fn arguments(tokens: Seq<TokenView>) -> Option<Seq<TokenView>> {
    if tokens.len() == 1 && tokens[0] is Group && tokens[0]->delimiter == Delimiter::Parenthesis {
        Some(tokens[0]->tokens)
    } else {
        None
    }
}

/// The annotation that the tokens of a `builder` attribute make, given
/// whether the value they hold is an identifier.
pub open spec fn annotation_of(tokens: Seq<TokenView>, value_is_identifier: bool) -> Result<
    AnnotationView,
    AnnotationError,
> {
    match arguments(tokens) {
        None => Err(AnnotationError::Malformed),
        Some(inner) => match key_value(inner) {
            None => Err(AnnotationError::Malformed),
            Some((key, value)) => recognized(key, value, value_is_identifier),
        },
    }
}

/// The alias that the tokens of a `builder` attribute propose: the value of
/// `each = "value"`. Whether it is an identifier is all that
/// [`annotation_of`] asks beyond the tokens, and it asks it of no other
/// tokens.
pub open spec fn proposed_alias(tokens: Seq<TokenView>) -> Option<Seq<char>> {
    match arguments(tokens) {
        None => None,
        Some(inner) => match key_value(inner) {
            None => None,
            Some((key, value)) => if key == "each"@ {
                Some(value)
            } else {
                None
            },
        },
    }
}

/// The views of the tokens of an optional reference to a vector.
pub open spec fn tokens_view(tokens: Option<&Vec<Token>>) -> Option<Seq<TokenView>> {
    match tokens {
        Some(inner) => Some(views(inner@)),
        None => None,
    }
}

/// The texts of a pair of strings.
pub open spec fn pair_text(pair: Option<(&String, &String)>) -> Option<(Seq<char>, Seq<char>)> {
    match pair {
        Some((key, value)) => Some((key@, value@)),
        None => None,
    }
}

/// Whether `attribute` is an annotation.
pub fn names_builder(attribute: &Attribute) -> (yes: bool)
    ensures
        yes == is_annotation(attribute@),
{
    attribute.path.len() == 1 && text_is(&attribute.path[0], "builder")
}

/// Reads `key = "value"` from the tokens between an annotation's parentheses.
pub fn parse_key_value(tokens: &Vec<Token>) -> (pair: Option<(&String, &String)>)
    ensures
        pair_text(pair) == key_value(views(tokens@)),
{
    if tokens.len() != 3 {
        return None;
    }
    match (&tokens[0], &tokens[1], &tokens[2]) {
        (Token::Ident { name }, Token::Punct { ch }, Token::Str { value }) => {
            if *ch == '=' {
                Some((name, value))
            } else {
                None
            }
        },
        _ => None,
    }
}

/// Makes the annotation from its key and value; `value_is_identifier` says
/// whether the value is an identifier.
pub fn recognize(key: &String, value: &String, value_is_identifier: bool) -> (made: Result<
    Annotation,
    AnnotationError,
>)
    ensures
        ok_view(made) == recognized(key@, value@, value_is_identifier),
{
    if !text_is(key, "each") {
        Err(AnnotationError::UnknownKey)
    } else if !value_is_identifier {
        Err(AnnotationError::InvalidAlias)
    } else {
        Ok(Annotation { kind: AnnotationKind::Each, alias: value.clone() })
    }
}

/// The tokens between the parentheses of an annotation.
pub fn parenthesised(tokens: &Vec<Token>) -> (inner: Option<&Vec<Token>>)
    ensures
        tokens_view(inner) == arguments(views(tokens@)),
{
    if tokens.len() != 1 {
        return None;
    }
    match &tokens[0] {
        Token::Group { delimiter, tokens: inner } => match delimiter {
            Delimiter::Parenthesis => {
                proof {
                    lemma_group_view(tokens[0]);
                }
                Some(inner)
            },
            _ => None,
        },
        _ => None,
    }
}

/// The alias that a `builder` attribute proposes.
pub fn alias_of(attribute: &Attribute) -> (alias: Option<&String>)
    ensures
        text_view(alias) == proposed_alias(attribute@.tokens),
{
    match parenthesised(&attribute.tokens) {
        None => None,
        Some(inner) => match parse_key_value(inner) {
            None => None,
            Some((key, value)) => {
                if text_is(key, "each") {
                    Some(value)
                } else {
                    None
                }
            },
        },
    }
}

/// Reads the annotation that a `builder` attribute holds;
/// `value_is_identifier` says whether the alias it proposes is an
/// identifier.
pub fn parse_annotation(attribute: &Attribute, value_is_identifier: bool) -> (parsed: Result<
    Annotation,
    AnnotationError,
>)
    ensures
        ok_view(parsed) == annotation_of(attribute@.tokens, value_is_identifier),
{
    match parenthesised(&attribute.tokens) {
        None => Err(AnnotationError::Malformed),
        Some(inner) => match parse_key_value(inner) {
            None => Err(AnnotationError::Malformed),
            Some((key, value)) => recognize(key, value, value_is_identifier),
        },
    }
}

} // verus!
