use builder::annotation::{Annotation, AnnotationError, AnnotationKind};
use builder::schema::{
    describe_field, extract_schema, find_alias, find_annotation, FieldDescriptor, SchemaError,
};
use builder::syntax::{
    Attribute, Body, Declaration, Delimiter, FieldDecl, GenericArgument, PathArguments,
    PathSegment, Token, TypeExpr,
};

fn text(s: &str) -> String {
    s.to_string()
}

fn plain(name: &str) -> TypeExpr {
    TypeExpr::Path {
        global: false,
        segments: vec![PathSegment { name: text(name), arguments: PathArguments::Bare }],
    }
}

fn wrapper(name: &str, inner: TypeExpr) -> TypeExpr {
    TypeExpr::Path {
        global: false,
        segments: vec![PathSegment {
            name: text(name),
            arguments: PathArguments::AngleBracketed {
                args: vec![GenericArgument::Type { ty: inner }],
            },
        }],
    }
}

fn builder_attribute(key: &str, value: &str) -> Attribute {
    Attribute {
        path: vec![text("builder")],
        tokens: vec![Token::Group {
            delimiter: Delimiter::Parenthesis,
            tokens: vec![
                Token::Ident { name: text(key) },
                Token::Punct { ch: '=' },
                Token::Str { value: text(value) },
            ],
        }],
    }
}

fn doc_attribute() -> Attribute {
    Attribute {
        path: vec![text("doc")],
        tokens: vec![Token::Punct { ch: '=' }, Token::Str { value: text(" The field.") }],
    }
}

fn field(name: &str, ty: TypeExpr, attributes: Vec<Attribute>) -> FieldDecl {
    FieldDecl { name: text(name), ty, attributes }
}

fn record(fields: Vec<FieldDecl>) -> Declaration {
    Declaration { name: text("Command"), body: Body::Named { fields } }
}

fn each(alias: &str) -> Option<Annotation> {
    Some(Annotation { kind: AnnotationKind::Each, alias: text(alias) })
}

#[test]
fn no_attributes_no_annotation() {
    assert_eq!(find_annotation(&vec![], true), Ok(None));
    assert_eq!(find_annotation(&vec![], false), Ok(None));
    assert_eq!(find_alias(&vec![]), None);
}

#[test]
fn other_attributes_are_passed_over() {
    let attributes = vec![
        doc_attribute(),
        Attribute { path: vec![text("serde"), text("rename")], tokens: vec![] },
    ];
    assert_eq!(find_annotation(&attributes, true), Ok(None));
    assert_eq!(find_annotation(&attributes, false), Ok(None));
    assert_eq!(find_alias(&attributes), None);
}

#[test]
fn the_annotation_is_found_among_other_attributes() {
    let attributes = vec![doc_attribute(), builder_attribute("each", "arg"), doc_attribute()];
    assert_eq!(find_alias(&attributes), Some(&text("arg")));
    assert_eq!(find_annotation(&attributes, true), Ok(each("arg")));
    assert_eq!(find_annotation(&attributes, false), Err(AnnotationError::InvalidAlias));
}

#[test]
fn the_alias_is_that_of_the_first_annotation() {
    let attributes = vec![builder_attribute("each", "arg"), builder_attribute("each", "env")];
    assert_eq!(find_alias(&attributes), Some(&text("arg")));
    let attributes = vec![builder_attribute("all", "arg"), builder_attribute("each", "env")];
    assert_eq!(find_alias(&attributes), None);
}

#[test]
fn a_second_annotation_is_refused() {
    let attributes = vec![builder_attribute("each", "arg"), builder_attribute("each", "env")];
    assert_eq!(find_annotation(&attributes, true), Err(AnnotationError::Repeated));
}

#[test]
fn a_second_annotation_is_refused_before_it_is_read() {
    let attributes = vec![builder_attribute("each", "arg"), builder_attribute("all", "env")];
    assert_eq!(find_annotation(&attributes, true), Err(AnnotationError::Repeated));
}

#[test]
fn the_first_annotation_is_read_first() {
    let attributes = vec![builder_attribute("all", "arg"), builder_attribute("each", "env")];
    assert_eq!(find_annotation(&attributes, true), Err(AnnotationError::UnknownKey));
    let attributes = vec![
        Attribute { path: vec![text("builder")], tokens: vec![] },
        builder_attribute("each", "env"),
    ];
    assert_eq!(find_annotation(&attributes, true), Err(AnnotationError::Malformed));
    let attributes = vec![builder_attribute("each", "no name"), builder_attribute("each", "env")];
    assert_eq!(find_annotation(&attributes, false), Err(AnnotationError::InvalidAlias));
}

#[test]
fn describe_field_keeps_name_and_type() {
    let fields = vec![
        field("executable", plain("String"), vec![]),
        field("args", wrapper("Vec", plain("String")), vec![builder_attribute("each", "arg")]),
    ];
    for verdict in [true, false] {
        assert_eq!(
            describe_field(&fields, 0, verdict),
            Ok(FieldDescriptor {
                name: text("executable"),
                declared_type: plain("String"),
                annotation: None
            })
        );
    }
    assert_eq!(
        describe_field(&fields, 1, true),
        Ok(FieldDescriptor {
            name: text("args"),
            declared_type: wrapper("Vec", plain("String")),
            annotation: each("arg")
        })
    );
}

#[test]
fn describe_field_refuses_a_name_used_before() {
    let fields = vec![
        field("a", plain("u8"), vec![]),
        field("b", plain("u8"), vec![]),
        field("a", plain("u16"), vec![builder_attribute("all", "x")]),
    ];
    assert!(describe_field(&fields, 0, true).is_ok());
    assert!(describe_field(&fields, 1, true).is_ok());
    assert_eq!(describe_field(&fields, 2, true), Err(SchemaError::DuplicateField { field: 2 }));
}

#[test]
fn describe_field_reports_the_annotation_error() {
    let fields = vec![
        field("a", plain("u8"), vec![]),
        field("b", wrapper("Vec", plain("u8")), vec![builder_attribute("all", "x")]),
        field("c", wrapper("Vec", plain("u8")), vec![builder_attribute("each", "x")]),
    ];
    assert_eq!(
        describe_field(&fields, 1, true),
        Err(SchemaError::Annotation { field: 1, error: AnnotationError::UnknownKey })
    );
    assert_eq!(
        describe_field(&fields, 2, false),
        Err(SchemaError::Annotation { field: 2, error: AnnotationError::InvalidAlias })
    );
}

#[test]
fn schema_of_a_record_is_in_declaration_order() {
    let input = record(vec![
        field("executable", plain("String"), vec![]),
        field("args", wrapper("Vec", plain("String")), vec![builder_attribute("each", "arg")]),
        field("env", wrapper("Vec", plain("String")), vec![builder_attribute("each", "env")]),
        field("current_dir", wrapper("Option", plain("String")), vec![doc_attribute()]),
    ]);
    let schema = extract_schema(&input, &vec![false, true, true, false]).unwrap();
    let names: Vec<&str> = schema.iter().map(|f| f.name.as_str()).collect();
    assert_eq!(names, vec!["executable", "args", "env", "current_dir"]);
    assert_eq!(schema[0].annotation, None);
    assert_eq!(schema[1].annotation, each("arg"));
    assert_eq!(schema[2].annotation, each("env"));
    assert_eq!(schema[3].annotation, None);
    assert_eq!(schema[3].declared_type, wrapper("Option", plain("String")));
}

#[test]
fn verdicts_go_by_field() {
    let input = record(vec![
        field("executable", plain("String"), vec![]),
        field("args", wrapper("Vec", plain("String")), vec![builder_attribute("each", "arg")]),
        field("env", wrapper("Vec", plain("String")), vec![builder_attribute("each", "env")]),
    ]);
    assert!(extract_schema(&input, &vec![true, true, true]).is_ok());
    assert!(extract_schema(&input, &vec![false, true, true, true]).is_ok());
    assert_eq!(
        extract_schema(&input, &vec![true, false, true]),
        Err(SchemaError::Annotation { field: 1, error: AnnotationError::InvalidAlias })
    );
    assert_eq!(
        extract_schema(&input, &vec![true, true, false]),
        Err(SchemaError::Annotation { field: 2, error: AnnotationError::InvalidAlias })
    );
}

#[test]
fn a_verdict_that_is_missing_is_no() {
    let input = record(vec![
        field("executable", plain("String"), vec![]),
        field("args", wrapper("Vec", plain("String")), vec![builder_attribute("each", "arg")]),
    ]);
    for verdicts in [vec![], vec![true]] {
        assert_eq!(
            extract_schema(&input, &verdicts),
            Err(SchemaError::Annotation { field: 1, error: AnnotationError::InvalidAlias })
        );
    }
}

#[test]
fn schema_of_a_record_without_fields_is_empty() {
    assert_eq!(extract_schema(&record(vec![]), &vec![]), Ok(vec![]));
    assert_eq!(extract_schema(&record(vec![]), &vec![true]), Ok(vec![]));
}

#[test]
fn only_named_records_have_a_schema() {
    for body in [Body::Tuple, Body::Unit, Body::Enum, Body::Union] {
        let input = Declaration { name: text("T"), body };
        assert_eq!(extract_schema(&input, &vec![]), Err(SchemaError::NotNamedRecord));
    }
}

#[test]
fn the_first_refused_field_gives_the_error() {
    let input = record(vec![
        field("a", plain("u8"), vec![]),
        field("b", wrapper("Vec", plain("u8")), vec![builder_attribute("each", "1")]),
        field("a", plain("u8"), vec![]),
    ]);
    assert_eq!(
        extract_schema(&input, &vec![false, false, false]),
        Err(SchemaError::Annotation { field: 1, error: AnnotationError::InvalidAlias })
    );
    let input = record(vec![
        field("a", plain("u8"), vec![]),
        field("a", plain("u8"), vec![]),
        field("b", wrapper("Vec", plain("u8")), vec![builder_attribute("each", "1")]),
    ]);
    assert_eq!(
        extract_schema(&input, &vec![false, false, false]),
        Err(SchemaError::DuplicateField { field: 1 })
    );
}

#[test]
fn schema_error_messages_and_fields() {
    let e = SchemaError::NotNamedRecord;
    assert_eq!(e.message(), "a builder needs a struct with named fields");
    assert_eq!(e.field(), None);
    let e = SchemaError::DuplicateField { field: 3 };
    assert_eq!(e.message(), "the field is declared twice");
    assert_eq!(e.field(), Some(3));
    let e = SchemaError::Annotation { field: 5, error: AnnotationError::Repeated };
    assert_eq!(e.message(), "a field takes at most one `builder` attribute");
    assert_eq!(e.field(), Some(5));
}
