//! From a declaration to its schema: the descriptors of its fields, in
//! declaration order.

use crate::annotation::{
    alias_of, annotation_of, is_annotation, names_builder, parse_annotation, proposed_alias,
    Annotation, AnnotationError, AnnotationView,
};
use crate::model::{
    collect, lemma_collect_err, lemma_collect_ok, ok_some_view, ok_view, ok_views, some_view,
    text_view, views,
};
use crate::syntax::{
    Attribute, AttributeView, Body, BodyView, Declaration, DeclarationView, FieldDecl, FieldDeclView,
    TypeExpr, TypeView,
};
use vstd::prelude::*;

verus! {

/// What builder generation knows of one field.
#[derive(Debug, PartialEq, Eq)]
pub struct FieldDescriptor {
    pub name: String,
    /// The field's type as written.
    pub declared_type: TypeExpr,
    /// The field's annotation, if it has one.
    pub annotation: Option<Annotation>,
}

/// The mathematical value of a [`FieldDescriptor`].
pub struct FieldDescriptorView {
    pub name: Seq<char>,
    pub declared_type: TypeView,
    pub annotation: Option<AnnotationView>,
}

impl View for FieldDescriptor {
    type V = FieldDescriptorView;

    open spec fn view(&self) -> FieldDescriptorView {
        FieldDescriptorView {
            name: self.name@,
            declared_type: self.declared_type@,
            annotation: some_view(self.annotation),
        }
    }
}

impl Clone for FieldDescriptor {
    fn clone(&self) -> (copy: Self)
        ensures
            copy@ == self@,
    {
        FieldDescriptor {
            name: self.name.clone(),
            declared_type: self.declared_type.clone(),
            annotation: match &self.annotation {
                Some(annotation) => Some(annotation.clone()),
                None => None,
            },
        }
    }
}

/// Why a declaration has no schema. `field` counts the fields from 0 in
/// declaration order.
#[derive(Debug, PartialEq, Eq, Clone, Copy)]
pub enum SchemaError {
    /// The declaration is not a record with named fields.
    NotNamedRecord,
    /// The field has the name of an earlier field.
    DuplicateField { field: usize },
    /// The field's annotation is refused.
    Annotation { field: usize, error: AnnotationError },
}

impl SchemaError {
    /// What to tell the author of the declaration.
    pub open spec fn text(self) -> Seq<char> {
        match self {
            SchemaError::NotNamedRecord => "a builder needs a struct with named fields"@,
            SchemaError::DuplicateField { .. } => "the field is declared twice"@,
            SchemaError::Annotation { error, .. } => error.text(),
        }
    }

    /// The field at fault, if the error is that of one field.
    pub open spec fn at(self) -> Option<usize> {
        match self {
            SchemaError::NotNamedRecord => None,
            SchemaError::DuplicateField { field } => Some(field),
            SchemaError::Annotation { field, .. } => Some(field),
        }
    }

    /// What to tell the author of the declaration.
    pub fn message(&self) -> (text: &'static str)
        ensures
            text@ == self.text(),
    {
        match self {
            SchemaError::NotNamedRecord => "a builder needs a struct with named fields",
            SchemaError::DuplicateField { .. } => "the field is declared twice",
            SchemaError::Annotation { error, .. } => error.message(),
        }
    }

    /// The field at fault, if the error is that of one field.
    pub fn field(&self) -> (field: Option<usize>)
        ensures
            field == self.at(),
    {
        match self {
            SchemaError::NotNamedRecord => None,
            SchemaError::DuplicateField { field } => Some(*field),
            SchemaError::Annotation { field, .. } => Some(*field),
        }
    }
}

/// The attributes that are annotations, in order.
pub open spec fn annotations(attributes: Seq<AttributeView>) -> Seq<AttributeView> {
    attributes.filter(|a: AttributeView| is_annotation(a))
}

/// The annotation of a field with these attributes: none where no attribute
/// is an annotation; else what the first annotation makes, which is refused
/// where another follows it. `verdict` says whether the alias that the first
/// annotation proposes is an identifier.
pub open spec fn field_annotation(attributes: Seq<AttributeView>, verdict: bool) -> Result<
    Option<AnnotationView>,
    AnnotationError,
> {
    let marked = annotations(attributes);
    if marked.len() == 0 {
        Ok(None)
    } else {
        match annotation_of(marked[0].tokens, verdict) {
            Err(error) => Err(error),
            Ok(annotation) => if marked.len() == 1 {
                Ok(Some(annotation))
            } else {
                Err(AnnotationError::Repeated)
            },
        }
    }
}

/// The alias that the attributes of a field propose: that of the first
/// annotation.
pub open spec fn field_alias(attributes: Seq<AttributeView>) -> Option<Seq<char>> {
    let marked = annotations(attributes);
    if marked.len() == 0 {
        None
    } else {
        proposed_alias(marked[0].tokens)
    }
}

/// The verdict on the alias of field `i`: the `i`-th of `verdicts`, and
/// `false` where there is none.
pub open spec fn verdict_at(verdicts: Seq<bool>, i: int) -> bool {
    0 <= i < verdicts.len() && verdicts[i]
}

/// Whether an earlier field has the name of field `i`.
pub open spec fn name_taken(fields: Seq<FieldDeclView>, i: int) -> bool {
    exists|j: int| 0 <= j < i && (#[trigger] fields[j]).name == fields[i].name
}

/// The descriptor of field `i`, or why the field is refused.
pub open spec fn describe(fields: Seq<FieldDeclView>, i: int, verdict: bool) -> Result<
    FieldDescriptorView,
    SchemaError,
> {
    if name_taken(fields, i) {
        Err(SchemaError::DuplicateField { field: i as usize })
    } else {
        match field_annotation(fields[i].attributes, verdict) {
            Err(error) => Err(SchemaError::Annotation { field: i as usize, error }),
            Ok(annotation) => Ok(
                FieldDescriptorView {
                    name: fields[i].name,
                    declared_type: fields[i].ty,
                    annotation,
                },
            ),
        }
    }
}

/// The outcome of describing each field.
pub open spec fn descriptions(fields: Seq<FieldDeclView>, verdicts: Seq<bool>) -> Seq<
    Result<FieldDescriptorView, SchemaError>,
> {
    Seq::new(fields.len(), |i: int| describe(fields, i, verdict_at(verdicts, i)))
}

/// The named fields of a declaration; none where it is no record with named
/// fields.
pub open spec fn fields_of(input: DeclarationView) -> Seq<FieldDeclView> {
    match input.body {
        BodyView::Named { fields } => fields,
        _ => Seq::empty(),
    }
}

/// The schema of a declaration, given for each field the verdict on the
/// alias it proposes: for a record with named fields, the descriptor of each
/// field in declaration order, or the error of the first field that is
/// refused; for any other shape, an error.
pub open spec fn schema_of(input: DeclarationView, verdicts: Seq<bool>) -> Result<
    Seq<FieldDescriptorView>,
    SchemaError,
> {
    match input.body {
        BodyView::Named { fields } => collect(descriptions(fields, verdicts)),
        _ => Err(SchemaError::NotNamedRecord),
    }
}

/// The annotations among the first `n + 1` attributes are those among the
/// first `n`, followed by attribute `n` if it is one.
proof fn lemma_annotations_step(attributes: Seq<AttributeView>, n: int)
    requires
        0 <= n < attributes.len(),
    ensures
        is_annotation(attributes[n]) ==> annotations(attributes.take(n + 1)) == annotations(
            attributes.take(n),
        ).push(attributes[n]),
        !is_annotation(attributes[n]) ==> annotations(attributes.take(n + 1)) == annotations(
            attributes.take(n),
        ),
{
    reveal(Seq::filter);
    assert(attributes.take(n + 1).drop_last() =~= attributes.take(n));
}

/// The annotations among the first `n` attributes come first among all
/// annotations.
proof fn lemma_annotations_prefix(attributes: Seq<AttributeView>, n: int)
    requires
        0 <= n <= attributes.len(),
    ensures
        annotations(attributes.take(n)).len() <= annotations(attributes).len(),
        forall|k: int|
            0 <= k < annotations(attributes.take(n)).len() ==> annotations(attributes)[k]
                == annotations(attributes.take(n))[k],
{
    assert(attributes =~= attributes.take(n) + attributes.skip(n));
    Seq::filter_distributes_over_add(
        attributes.take(n),
        attributes.skip(n),
        |a: AttributeView| is_annotation(a),
    );
}

/// Finds the alias that a field's attributes propose.
pub fn find_alias(attributes: &Vec<Attribute>) -> (alias: Option<&String>)
    ensures
        text_view(alias) == field_alias(views(attributes@)),
{
    let ghost all = views(attributes@);
    let mut i: usize = 0;
    proof {
        reveal(Seq::filter);
    }
    while i < attributes.len()
        invariant
            i <= attributes.len(),
            all == views(attributes@),
            annotations(all.take(i as int)).len() == 0,
        decreases attributes.len() - i,
    {
        proof {
            lemma_annotations_step(all, i as int);
            lemma_annotations_prefix(all, i + 1);
        }
        if names_builder(&attributes[i]) {
            return alias_of(&attributes[i]);
        }
        i += 1;
    }
    proof {
        assert(all.take(i as int) =~= all);
    }
    None
}

/// Finds the annotation among a field's attributes; `verdict` says whether
/// the alias that they propose is an identifier.
pub fn find_annotation(attributes: &Vec<Attribute>, verdict: bool) -> (found: Result<
    Option<Annotation>,
    AnnotationError,
>)
    ensures
        ok_some_view(found) == field_annotation(views(attributes@), verdict),
{
    let ghost all = views(attributes@);
    let mut found: Option<Annotation> = None;
    let mut i: usize = 0;
    proof {
        reveal(Seq::filter);
    }
    while i < attributes.len()
        invariant
            i <= attributes.len(),
            all == views(attributes@),
            found is None ==> annotations(all.take(i as int)).len() == 0,
            found matches Some(a) ==> annotations(all.take(i as int)).len() == 1 && annotation_of(
                annotations(all.take(i as int))[0].tokens,
                verdict,
            ) == Ok::<AnnotationView, AnnotationError>(a@),
        decreases attributes.len() - i,
    {
        proof {
            lemma_annotations_step(all, i as int);
            lemma_annotations_prefix(all, i + 1);
        }
        if names_builder(&attributes[i]) {
            if found.is_some() {
                return Err(AnnotationError::Repeated);
            }
            match parse_annotation(&attributes[i], verdict) {
                Err(error) => {
                    return Err(error);
                },
                Ok(annotation) => {
                    found = Some(annotation);
                },
            }
        }
        i += 1;
    }
    proof {
        assert(all.take(i as int) =~= all);
    }
    Ok(found)
}

/// Describes field `i` of `fields`; `verdict` says whether the alias that
/// the field proposes is an identifier.
pub fn describe_field(fields: &Vec<FieldDecl>, i: usize, verdict: bool) -> (described: Result<
    FieldDescriptor,
    SchemaError,
>)
    requires
        i < fields.len(),
    ensures
        ok_view(described) == describe(views(fields@), i as int, verdict),
{
    let ghost all = views(fields@);
    let field = &fields[i];
    let mut j: usize = 0;
    while j < i
        invariant
            j <= i < fields.len(),
            all == views(fields@),
            *field == fields[i as int],
            forall|k: int| 0 <= k < j ==> (#[trigger] all[k]).name != all[i as int].name,
        decreases i - j,
    {
        if fields[j].name == field.name {
            assert(all[j as int].name == all[i as int].name);
            return Err(SchemaError::DuplicateField { field: i });
        }
        j += 1;
    }
    match find_annotation(&field.attributes, verdict) {
        Err(error) => Err(SchemaError::Annotation { field: i, error }),
        Ok(annotation) => Ok(
            FieldDescriptor {
                name: field.name.clone(),
                declared_type: field.ty.clone(),
                annotation,
            },
        ),
    }
}

/// Extracts the schema of a declaration; `verdicts` says for each field, in
/// order, whether the alias that it proposes is an identifier.
pub fn extract_schema(input: &Declaration, verdicts: &Vec<bool>) -> (schema: Result<
    Vec<FieldDescriptor>,
    SchemaError,
>)
    ensures
        ok_views(schema) == schema_of(input@, verdicts@),
{
    match &input.body {
        Body::Named { fields } => {
            let ghost steps = descriptions(views(fields@), verdicts@);
            let mut schema: Vec<FieldDescriptor> = Vec::new();
            let mut i: usize = 0;
            while i < fields.len()
                invariant
                    i <= fields.len(),
                    steps == descriptions(views(fields@), verdicts@),
                    schema_of(input@, verdicts@) == collect(steps),
                    steps.len() == fields.len(),
                    schema.len() == i,
                    forall|k: int|
                        0 <= k < i ==> #[trigger] steps[k] == Ok::<FieldDescriptorView, SchemaError>(
                            schema[k]@,
                        ),
                decreases fields.len() - i,
            {
                let verdict = i < verdicts.len() && verdicts[i];
                match describe_field(fields, i, verdict) {
                    Err(error) => {
                        proof {
                            assert(steps[i as int] == Err::<FieldDescriptorView, SchemaError>(
                                error,
                            ));
                            lemma_collect_err(steps, error);
                        }
                        return Err(error);
                    },
                    Ok(descriptor) => {
                        schema.push(descriptor);
                    },
                }
                i += 1;
            }
            proof {
                lemma_collect_ok(steps);
                let values = collect(steps)->Ok_0;
                assert(values =~= views(schema@));
            }
            Ok(schema)
        },
        _ => Err(SchemaError::NotNamedRecord),
    }
}

/// A schema keeps the fields of its declaration in declaration order, each
/// with its name, its type and the annotation found among its attributes;
/// no two fields of a schema have the same name.
pub proof fn law_schema_follows_declaration(input: DeclarationView, verdicts: Seq<bool>)
    requires
        schema_of(input, verdicts) is Ok,
    ensures
        input.body is Named,
        schema_of(input, verdicts)->Ok_0.len() == input.body->fields.len(),
        forall|i: int|
            0 <= i < input.body->fields.len() ==> ({
                let field = #[trigger] schema_of(input, verdicts)->Ok_0[i];
                let declared = input.body->fields[i];
                &&& field.name == declared.name
                &&& field.declared_type == declared.ty
                &&& field_annotation(declared.attributes, verdict_at(verdicts, i)) == Ok::<
                    Option<AnnotationView>,
                    AnnotationError,
                >(field.annotation)
            }),
        forall|i: int, j: int|
            0 <= i < j < input.body->fields.len() ==> (#[trigger] schema_of(
                input,
                verdicts,
            )->Ok_0[i]).name != (#[trigger] schema_of(input, verdicts)->Ok_0[j]).name,
{
    let declared = input.body->fields;
    let fields = schema_of(input, verdicts)->Ok_0;
    lemma_collect_ok(descriptions(declared, verdicts));
}

/// A record with named fields has a schema exactly if no field has the name
/// of an earlier field and the annotation of every field is accepted.
pub proof fn law_schema_exists(input: DeclarationView, verdicts: Seq<bool>)
    requires
        input.body is Named,
    ensures
        schema_of(input, verdicts) is Ok <==> forall|i: int|
            0 <= i < input.body->fields.len() ==> !name_taken(input.body->fields, i)
                && #[trigger] field_annotation(
                input.body->fields[i].attributes,
                verdict_at(verdicts, i),
            ) is Ok,
{
    let declared = input.body->fields;
    let steps = descriptions(declared, verdicts);
    lemma_collect_ok(steps);
    if schema_of(input, verdicts) is Ok {
        assert forall|i: int| 0 <= i < declared.len() implies !name_taken(declared, i)
            && #[trigger] field_annotation(declared[i].attributes, verdict_at(verdicts, i)) is Ok by {
            assert(steps[i] is Ok);
        }
    }
}

/// The verdict on a field counts only where the field proposes an alias: two
/// runs of verdicts that agree on those fields give one schema.
pub proof fn law_verdicts_count_for_aliases(
    input: DeclarationView,
    first: Seq<bool>,
    second: Seq<bool>,
)
    requires
        forall|i: int|
            0 <= i < fields_of(input).len() && #[trigger] field_alias(
                fields_of(input)[i].attributes,
            ) is Some ==> verdict_at(first, i) == verdict_at(second, i),
    ensures
        schema_of(input, first) == schema_of(input, second),
{
    if input.body is Named {
        let declared = input.body->fields;
        assert forall|i: int| 0 <= i < declared.len() implies describe(
            declared,
            i,
            verdict_at(first, i),
        ) == describe(declared, i, verdict_at(second, i)) by {
            assert(fields_of(input)[i] == declared[i]);
            if field_alias(declared[i].attributes) is None {
                assert(field_annotation(declared[i].attributes, verdict_at(first, i))
                    == field_annotation(declared[i].attributes, verdict_at(second, i)));
            }
        }
        assert(descriptions(declared, first) =~= descriptions(declared, second));
    }
}

} // verus!
