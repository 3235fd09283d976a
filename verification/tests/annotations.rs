use builder::annotation::{
    alias_of, names_builder, parenthesised, parse_annotation, parse_key_value, recognize,
    Annotation, AnnotationError, AnnotationKind,
};
use builder::syntax::{Attribute, Delimiter, Token};

fn text(s: &str) -> String {
    s.to_string()
}

fn ident(name: &str) -> Token {
    Token::Ident { name: text(name) }
}

fn punct(ch: char) -> Token {
    Token::Punct { ch }
}

fn string(value: &str) -> Token {
    Token::Str { value: text(value) }
}

fn group(delimiter: Delimiter, tokens: Vec<Token>) -> Token {
    Token::Group { delimiter, tokens }
}

fn builder_attribute(tokens: Vec<Token>) -> Attribute {
    Attribute { path: vec![text("builder")], tokens: vec![group(Delimiter::Parenthesis, tokens)] }
}

fn bare(path: Vec<String>) -> Attribute {
    Attribute { path, tokens: vec![] }
}

fn each(alias: &str) -> Annotation {
    Annotation { kind: AnnotationKind::Each, alias: text(alias) }
}

#[test]
fn builder_is_the_one_annotation_path() {
    assert!(names_builder(&builder_attribute(vec![])));
    assert!(names_builder(&bare(vec![text("builder")])));
    assert!(!names_builder(&bare(vec![text("doc")])));
    assert!(!names_builder(&bare(vec![text("Builder")])));
    assert!(!names_builder(&bare(vec![])));
    assert!(!names_builder(&bare(vec![text("builder"), text("each")])));
    assert!(!names_builder(&bare(vec![text("derive_builder"), text("builder")])));
}

#[test]
fn key_value_is_identifier_equals_string() {
    let tokens = vec![ident("each"), punct('='), string("arg")];
    assert_eq!(parse_key_value(&tokens), Some((&text("each"), &text("arg"))));
    let tokens = vec![ident("other"), punct('='), string("")];
    assert_eq!(parse_key_value(&tokens), Some((&text("other"), &text(""))));
}

#[test]
fn key_value_refuses_other_forms() {
    assert_eq!(parse_key_value(&vec![]), None);
    assert_eq!(parse_key_value(&vec![ident("each")]), None);
    assert_eq!(parse_key_value(&vec![ident("each"), punct('=')]), None);
    assert_eq!(parse_key_value(&vec![ident("each"), punct(':'), string("arg")]), None);
    assert_eq!(parse_key_value(&vec![string("each"), punct('='), string("arg")]), None);
    assert_eq!(parse_key_value(&vec![ident("each"), punct('='), ident("arg")]), None);
    assert_eq!(
        parse_key_value(&vec![ident("each"), punct('='), Token::Other { text: text("1") }]),
        None
    );
    assert_eq!(
        parse_key_value(&vec![ident("each"), punct('='), punct('='), string("arg")]),
        None
    );
    assert_eq!(
        parse_key_value(&vec![ident("each"), punct('='), string("arg"), punct(',')]),
        None
    );
}

#[test]
fn recognize_makes_each() {
    assert_eq!(recognize(&text("each"), &text("arg"), true), Ok(each("arg")));
}

#[test]
fn recognize_refuses_unknown_key() {
    assert_eq!(recognize(&text("eac"), &text("arg"), true), Err(AnnotationError::UnknownKey));
    assert_eq!(recognize(&text("Each"), &text("arg"), true), Err(AnnotationError::UnknownKey));
    assert_eq!(recognize(&text(""), &text("arg"), true), Err(AnnotationError::UnknownKey));
}

#[test]
fn recognize_tests_the_key_before_the_value() {
    assert_eq!(recognize(&text("all"), &text("1"), false), Err(AnnotationError::UnknownKey));
}

#[test]
fn recognize_refuses_value_that_is_no_identifier() {
    assert_eq!(recognize(&text("each"), &text("1"), false), Err(AnnotationError::InvalidAlias));
}

#[test]
fn arguments_are_one_group_between_parentheses() {
    let inner = vec![ident("each"), punct('='), string("arg")];
    let tokens = vec![group(Delimiter::Parenthesis, vec![ident("each"), punct('='), string("arg")])];
    assert_eq!(parenthesised(&tokens), Some(&inner));
    assert_eq!(parenthesised(&vec![group(Delimiter::Parenthesis, vec![])]), Some(&vec![]));
}

#[test]
fn other_tokens_are_no_arguments() {
    let inner = || vec![ident("each"), punct('='), string("arg")];
    assert_eq!(parenthesised(&vec![]), None);
    assert_eq!(parenthesised(&inner()), None);
    assert_eq!(parenthesised(&vec![group(Delimiter::Bracket, inner())]), None);
    assert_eq!(parenthesised(&vec![group(Delimiter::Brace, inner())]), None);
    assert_eq!(parenthesised(&vec![group(Delimiter::Invisible, inner())]), None);
    assert_eq!(parenthesised(&vec![punct('='), string("arg")]), None);
    assert_eq!(
        parenthesised(&vec![
            group(Delimiter::Parenthesis, inner()),
            group(Delimiter::Parenthesis, inner())
        ]),
        None
    );
    assert_eq!(parenthesised(&vec![group(Delimiter::Parenthesis, inner()), punct(',')]), None);
}

#[test]
fn the_alias_is_the_value_of_each() {
    let attribute = builder_attribute(vec![ident("each"), punct('='), string("env")]);
    assert_eq!(alias_of(&attribute), Some(&text("env")));
    let attribute = builder_attribute(vec![ident("each"), punct('='), string("not one")]);
    assert_eq!(alias_of(&attribute), Some(&text("not one")));
}

#[test]
fn other_attributes_propose_no_alias() {
    assert_eq!(alias_of(&bare(vec![text("builder")])), None);
    assert_eq!(alias_of(&builder_attribute(vec![])), None);
    assert_eq!(alias_of(&builder_attribute(vec![ident("all"), punct('='), string("env")])), None);
    assert_eq!(alias_of(&builder_attribute(vec![ident("each"), punct('='), ident("env")])), None);
    let attribute = Attribute {
        path: vec![text("builder")],
        tokens: vec![group(Delimiter::Bracket, vec![ident("each"), punct('='), string("env")])],
    };
    assert_eq!(alias_of(&attribute), None);
}

#[test]
fn parse_annotation_reads_each() {
    let attribute = builder_attribute(vec![ident("each"), punct('='), string("env")]);
    assert_eq!(parse_annotation(&attribute, true), Ok(each("env")));
}

#[test]
fn parse_annotation_needs_parentheses() {
    for verdict in [true, false] {
        assert_eq!(
            parse_annotation(&bare(vec![text("builder")]), verdict),
            Err(AnnotationError::Malformed)
        );
        let attribute = Attribute {
            path: vec![text("builder")],
            tokens: vec![punct('='), string("env")],
        };
        assert_eq!(parse_annotation(&attribute, verdict), Err(AnnotationError::Malformed));
        let attribute = Attribute {
            path: vec![text("builder")],
            tokens: vec![group(Delimiter::Bracket, vec![ident("each"), punct('='), string("env")])],
        };
        assert_eq!(parse_annotation(&attribute, verdict), Err(AnnotationError::Malformed));
    }
}

#[test]
fn parse_annotation_refuses_malformed_arguments() {
    for verdict in [true, false] {
        assert_eq!(
            parse_annotation(&builder_attribute(vec![]), verdict),
            Err(AnnotationError::Malformed)
        );
        assert_eq!(
            parse_annotation(
                &builder_attribute(vec![ident("each"), punct('='), ident("env")]),
                verdict
            ),
            Err(AnnotationError::Malformed)
        );
        assert_eq!(
            parse_annotation(&builder_attribute(vec![ident("each"), string("env")]), verdict),
            Err(AnnotationError::Malformed)
        );
        assert_eq!(
            parse_annotation(
                &builder_attribute(vec![group(
                    Delimiter::Parenthesis,
                    vec![ident("each"), punct('='), string("env")]
                )]),
                verdict
            ),
            Err(AnnotationError::Malformed)
        );
    }
}

#[test]
fn parse_annotation_refuses_unknown_key() {
    let attribute = builder_attribute(vec![ident("eac"), punct('='), string("env")]);
    assert_eq!(parse_annotation(&attribute, true), Err(AnnotationError::UnknownKey));
    assert_eq!(parse_annotation(&attribute, false), Err(AnnotationError::UnknownKey));
}

#[test]
fn parse_annotation_refuses_alias_that_is_no_identifier() {
    let attribute = builder_attribute(vec![ident("each"), punct('='), string("1st")]);
    assert_eq!(parse_annotation(&attribute, false), Err(AnnotationError::InvalidAlias));
}

#[test]
fn annotation_clone_is_equal() {
    let annotation = each("arg");
    assert_eq!(annotation.clone(), annotation);
}

#[test]
fn annotation_error_messages() {
    assert_eq!(AnnotationError::Malformed.message(), "expected `builder(each = \"...\")`");
    assert_eq!(AnnotationError::UnknownKey.message(), "expected `builder(each = \"...\")`");
    assert_eq!(
        AnnotationError::InvalidAlias.message(),
        "the name given to `each` must be an identifier"
    );
    assert_eq!(
        AnnotationError::Repeated.message(),
        "a field takes at most one `builder` attribute"
    );
}
