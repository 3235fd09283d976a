//! Builder generation for record types.
//!
//! Given the declaration of a record with named fields, [`derive`] plans a
//! builder for it: a companion type with one slot for each field, a setter
//! for each field, a method that appends one element for each field marked
//! `#[builder(each = "name")]`, and a method `build` that makes the record
//! or names the first required field that was never set.
//!
//! [`derive`] takes a [`syntax::Declaration`] through two steps: the
//! [`schema`] of its fields, and the [`plan`] of a builder for that schema.
//! [`runtime`] says what the planned builder does when its methods are
//! called, and [`laws`] what follows of it for every target type.
//!
//! The crate works on what a parser has read of a declaration and hands
//! back a plan; it neither reads source text nor writes code.

use crate::ident::{bracket_free, check_identifier};
use crate::model::{ok_view, views};
use crate::plan::{generate, plan_of, BuilderPlan, BuilderPlanView};
use crate::schema::{
    annotations, extract_schema, field_alias, field_annotation, fields_of, find_alias,
    law_schema_exists, law_verdicts_count_for_aliases, name_taken, schema_of, verdict_at,
    SchemaError,
};
use crate::syntax::{Body, Declaration, DeclarationView};
use vstd::prelude::*;

pub mod annotation;
pub mod classify;
pub mod ident;
pub mod laws;
pub mod model;
pub mod plan;
pub mod runtime;
pub mod schema;
pub mod syntax;
pub mod text;

verus! {

/// The builder plan of a declaration, given for each field the verdict on
/// the alias it proposes: the plan for the schema of the declaration, or why
/// the declaration has no schema. Every record with named fields whose
/// fields have different names and whose annotations are accepted has a
/// plan.
pub open spec fn derived(input: DeclarationView, verdicts: Seq<bool>) -> Result<
    BuilderPlanView,
    SchemaError,
> {
    match schema_of(input, verdicts) {
        Err(error) => Err(error),
        Ok(fields) => Ok(plan_of(input.name, fields)),
    }
}

/// Whether `verdicts` can come of reading the aliases that a declaration
/// proposes: there is one verdict for each named field, and only an alias
/// without an opening bracket can be found to be an identifier.
pub open spec fn possible(input: DeclarationView, verdicts: Seq<bool>) -> bool {
    &&& verdicts.len() == fields_of(input).len()
    &&& forall|i: int|
        0 <= i < verdicts.len() && #[trigger] verdicts[i] ==> readable(
            field_alias(fields_of(input)[i].attributes),
        )
}

/// Whether an alias is proposed and can be read: it holds no opening
/// bracket.
pub open spec fn readable(alias: Option<Seq<char>>) -> bool {
    match alias {
        Some(text) => bracket_free(text),
        None => false,
    }
}

/// Whether no field of a declaration proposes an alias.
pub open spec fn proposes_no_alias(input: DeclarationView) -> bool {
    forall|i: int|
        0 <= i < fields_of(input).len() ==> field_alias(
            (#[trigger] fields_of(input)[i]).attributes,
        ) is None
}

/// A record with named fields has a builder if its fields have different
/// names, no field has more than one annotation, and each annotation
/// proposes an alias that is found to be an identifier. No other shape of
/// declaration has one.
pub proof fn law_named_records_have_builders(input: DeclarationView, verdicts: Seq<bool>)
    requires
        forall|i: int| 0 <= i < fields_of(input).len() ==> !name_taken(fields_of(input), i),
        forall|i: int|
            0 <= i < fields_of(input).len() ==> ({
                let attributes = (#[trigger] fields_of(input)[i]).attributes;
                annotations(attributes).len() == 0 || (annotations(attributes).len() == 1
                    && field_alias(attributes) is Some && verdict_at(verdicts, i))
            }),
    ensures
        derived(input, verdicts) is Ok <==> input.body is Named,
{
    if input.body is Named {
        law_schema_exists(input, verdicts);
        assert forall|i: int| 0 <= i < input.body->fields.len() implies !name_taken(
            input.body->fields,
            i,
        ) && #[trigger] field_annotation(
            input.body->fields[i].attributes,
            verdict_at(verdicts, i),
        ) is Ok by {
            assert(fields_of(input)[i] == input.body->fields[i]);
        }
    }
}

/// Plans the builder of a declared type; `verdicts` says for each field, in
/// order, whether the alias that it proposes is an identifier.
pub fn derive_given(input: &Declaration, verdicts: &Vec<bool>) -> (plan: Result<
    BuilderPlan,
    SchemaError,
>)
    ensures
        ok_view(plan) == derived(input@, verdicts@),
{
    match extract_schema(input, verdicts) {
        Err(error) => Err(error),
        Ok(fields) => Ok(generate(&input.name, &fields)),
    }
}

/// Reads the alias that each field proposes and says whether it is an
/// identifier; a field that proposes none gets `false`.
pub fn alias_verdicts(input: &Declaration) -> (verdicts: Vec<bool>)
    ensures
        possible(input@, verdicts@),
{
    let mut verdicts: Vec<bool> = Vec::new();
    match &input.body {
        Body::Named { fields } => {
            let mut i: usize = 0;
            while i < fields.len()
                invariant
                    i <= fields.len(),
                    fields_of(input@) == views(fields@),
                    verdicts.len() == i,
                    forall|k: int|
                        0 <= k < i && #[trigger] verdicts[k] ==> readable(
                            field_alias(views(fields@)[k].attributes),
                        ),
                decreases fields.len() - i,
            {
                let verdict = match find_alias(&fields[i].attributes) {
                    Some(alias) => check_identifier(alias),
                    None => false,
                };
                verdicts.push(verdict);
                i += 1;
            }
        },
        _ => {},
    }
    verdicts
}

/// Plans the builder of a declared type.
///
/// Whether an alias is an identifier is asked of the parser of identifiers,
/// and nothing is known of its answer beforehand. So the plan is that of
/// [`derived`] for some verdicts that can come of it; where no field
/// proposes an alias, no verdict counts and the plan is fixed.
pub fn derive(input: &Declaration) -> (plan: Result<BuilderPlan, SchemaError>)
    ensures
        exists|verdicts: Seq<bool>| #[trigger]
            possible(input@, verdicts) && ok_view(plan) == derived(input@, verdicts),
        proposes_no_alias(input@) ==> ok_view(plan) == derived(input@, Seq::empty()),
{
    let verdicts = alias_verdicts(input);
    let plan = derive_given(input, &verdicts);
    proof {
        if proposes_no_alias(input@) {
            law_verdicts_count_for_aliases(input@, verdicts@, Seq::empty());
        }
    }
    plan
}

} // verus!
