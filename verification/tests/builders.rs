use builder::plan::{BuilderPlan, Finalize, Method, Role, SlotPlan, Storage};
use builder::runtime::{copy_items, demand, effect, BuildError, Builder, Effect, FieldValue};
use builder::syntax::{GenericArgument, PathArguments, PathSegment, TypeExpr};

fn text(s: &str) -> String {
    s.to_string()
}

fn plain(name: &str) -> TypeExpr {
    TypeExpr::Path {
        global: false,
        segments: vec![PathSegment { name: text(name), arguments: PathArguments::Bare }],
    }
}

fn vector(inner: TypeExpr) -> TypeExpr {
    TypeExpr::Path {
        global: false,
        segments: vec![PathSegment {
            name: text("Vec"),
            arguments: PathArguments::AngleBracketed {
                args: vec![GenericArgument::Type { ty: inner }],
            },
        }],
    }
}

fn required(field: &str) -> SlotPlan {
    SlotPlan {
        field: text(field),
        storage: Storage::Cell { ty: plain("u32") },
        setter: Some(Method { name: format!("set_{field}"), parameter: plain("u32") }),
        appender: None,
        finalize: Finalize::Require { message: format!("{field} is not set") },
    }
}

fn optional(field: &str) -> SlotPlan {
    SlotPlan {
        field: text(field),
        storage: Storage::Cell { ty: plain("u32") },
        setter: Some(Method { name: format!("set_{field}"), parameter: plain("u32") }),
        appender: None,
        finalize: Finalize::PassThrough,
    }
}

fn repeated(field: &str, alias: &str) -> SlotPlan {
    SlotPlan {
        field: text(field),
        storage: Storage::Sequence { element: plain("u32") },
        setter: if field == alias {
            None
        } else {
            Some(Method { name: format!("set_{field}"), parameter: vector(plain("u32")) })
        },
        appender: Some(Method { name: text(alias), parameter: plain("u32") }),
        finalize: Finalize::PassThrough,
    }
}

fn plan(slots: Vec<SlotPlan>) -> BuilderPlan {
    BuilderPlan {
        target: text("T"),
        builder: text("TBuilder"),
        factory: text("builder"),
        finisher: text("build"),
        slots,
    }
}

fn missing(field: &str) -> Result<Vec<FieldValue<u32>>, BuildError> {
    Err(BuildError { field: text(field), message: format!("{field} is not set") })
}

#[test]
fn a_new_builder_of_no_fields_builds() {
    let b: Builder<u32> = Builder::new(plan(vec![]));
    assert_eq!(b.build(), Ok(vec![]));
}

#[test]
fn a_new_builder_has_cells_unset_and_sequences_empty() {
    let b: Builder<u32> = Builder::new(plan(vec![optional("a"), repeated("bs", "b")]));
    assert_eq!(b.build(), Ok(vec![FieldValue::Optional(None), FieldValue::Repeated(vec![])]));
}

#[test]
fn a_builder_keeps_its_plan() {
    let b: Builder<u32> = Builder::new(plan(vec![required("a")]));
    assert_eq!(b.plan(), &plan(vec![required("a")]));
}

#[test]
fn build_names_the_first_required_field_that_is_unset() {
    let mut b: Builder<u32> = Builder::new(plan(vec![required("a"), required("b"), required("c")]));
    assert_eq!(b.build(), missing("a"));
    b.set(0, 1);
    assert_eq!(b.build(), missing("b"));
    b.set(2, 3);
    assert_eq!(b.build(), missing("b"));
    b.set(1, 2);
    assert_eq!(
        b.build(),
        Ok(vec![FieldValue::Single(1), FieldValue::Single(2), FieldValue::Single(3)])
    );
}

#[test]
fn build_fails_with_the_message_of_the_plan() {
    let mut slot = required("a");
    slot.finalize = Finalize::Require { message: text("a is missing") };
    let b: Builder<u32> = Builder::new(plan(vec![slot]));
    assert_eq!(b.build(), Err(BuildError { field: text("a"), message: text("a is missing") }));
}

#[test]
fn setters_can_be_chained() {
    let mut b: Builder<u32> =
        Builder::new(plan(vec![required("a"), optional("b"), repeated("cs", "c")]));
    b.set(0, 10).set(1, 20).append(2, 30).append(2, 31).set_all(2, vec![1, 2]).append(2, 3);
    assert_eq!(
        b.build(),
        Ok(vec![
            FieldValue::Single(10),
            FieldValue::Optional(Some(20)),
            FieldValue::Repeated(vec![1, 2, 3]),
        ])
    );
}

#[test]
fn an_optional_field_that_is_set_is_present() {
    let mut b: Builder<u32> = Builder::new(plan(vec![optional("a")]));
    b.set(0, 7);
    assert_eq!(b.build(), Ok(vec![FieldValue::Optional(Some(7))]));
}

#[test]
fn append_adds_at_the_end() {
    let mut b: Builder<u32> = Builder::new(plan(vec![repeated("xs", "x")]));
    b.append(0, 3);
    assert_eq!(b.build(), Ok(vec![FieldValue::Repeated(vec![3])]));
    b.append(0, 1).append(0, 2);
    assert_eq!(b.build(), Ok(vec![FieldValue::Repeated(vec![3, 1, 2])]));
}

#[test]
fn set_all_replaces_the_sequence() {
    let mut b: Builder<u32> = Builder::new(plan(vec![repeated("xs", "x")]));
    b.append(0, 9).set_all(0, vec![1, 2]);
    assert_eq!(b.build(), Ok(vec![FieldValue::Repeated(vec![1, 2])]));
    b.set_all(0, vec![]);
    assert_eq!(b.build(), Ok(vec![FieldValue::Repeated(vec![])]));
}

#[test]
fn a_call_on_a_slot_that_is_not_there_changes_nothing() {
    let mut b: Builder<u32> = Builder::new(plan(vec![optional("a"), repeated("bs", "b")]));
    b.set(2, 1).set_all(2, vec![1]).append(2, 1).set(usize::MAX, 1);
    assert_eq!(b.build(), Ok(vec![FieldValue::Optional(None), FieldValue::Repeated(vec![])]));
}

#[test]
fn a_call_of_a_method_of_the_other_storage_changes_nothing() {
    let mut b: Builder<u32> = Builder::new(plan(vec![optional("a"), repeated("bs", "b")]));
    b.set_all(0, vec![1]).append(0, 1).set(1, 1);
    assert_eq!(b.build(), Ok(vec![FieldValue::Optional(None), FieldValue::Repeated(vec![])]));
}

#[test]
fn a_call_of_a_method_that_the_plan_lacks_changes_nothing() {
    let mut cell = optional("a");
    cell.setter = None;
    let mut sequence = repeated("bs", "b");
    sequence.appender = None;
    let mut b: Builder<u32> = Builder::new(plan(vec![cell, sequence, repeated("cs", "cs")]));
    b.set(0, 1).append(1, 1).set_all(2, vec![1]);
    assert_eq!(
        b.build(),
        Ok(vec![
            FieldValue::Optional(None),
            FieldValue::Repeated(vec![]),
            FieldValue::Repeated(vec![]),
        ])
    );
    b.set_all(1, vec![5]).append(2, 6);
    assert_eq!(
        b.build(),
        Ok(vec![
            FieldValue::Optional(None),
            FieldValue::Repeated(vec![5]),
            FieldValue::Repeated(vec![6]),
        ])
    );
}

#[test]
fn a_sequence_never_makes_build_fail() {
    let mut sequence = repeated("bs", "b");
    sequence.finalize = Finalize::Require { message: text("bs is not set") };
    let b: Builder<u32> = Builder::new(plan(vec![sequence]));
    assert_eq!(b.build(), Ok(vec![FieldValue::Repeated(vec![])]));
}

#[test]
fn build_can_follow_build_and_more_calls() {
    let mut b: Builder<u32> = Builder::new(plan(vec![required("a"), repeated("bs", "b")]));
    b.append(1, 1);
    assert_eq!(b.build(), missing("a"));
    b.set(0, 5);
    assert_eq!(b.build(), Ok(vec![FieldValue::Single(5), FieldValue::Repeated(vec![1])]));
    b.append(1, 2).set(0, 6);
    assert_eq!(b.build(), Ok(vec![FieldValue::Single(6), FieldValue::Repeated(vec![1, 2])]));
}

#[test]
fn copy_items_copies() {
    assert_eq!(copy_items::<u32>(&vec![]), vec![]);
    assert_eq!(copy_items(&vec![3, 1, 2]), vec![3, 1, 2]);
}

#[test]
fn the_effect_of_a_method_goes_by_the_storage() {
    assert_eq!(effect(&required("a"), Role::Setter), Some(Effect::SetCell));
    assert_eq!(effect(&optional("a"), Role::Setter), Some(Effect::SetCell));
    assert_eq!(effect(&repeated("as", "a"), Role::Setter), Some(Effect::SetSequence));
    assert_eq!(effect(&repeated("as", "a"), Role::Appender), Some(Effect::Append));
}

#[test]
fn a_method_that_is_not_there_has_no_effect() {
    assert_eq!(effect(&required("a"), Role::Appender), None);
    assert_eq!(effect(&optional("a"), Role::Appender), None);
    assert_eq!(effect(&repeated("a", "a"), Role::Setter), None);
    let mut cell = required("a");
    cell.appender = Some(Method { name: text("push_a"), parameter: plain("u32") });
    assert_eq!(effect(&cell, Role::Appender), None);
    cell.setter = None;
    assert_eq!(effect(&cell, Role::Setter), None);
    let mut sequence = repeated("as", "a");
    sequence.appender = None;
    assert_eq!(effect(&sequence, Role::Appender), None);
}

#[test]
fn only_a_required_cell_is_demanded() {
    assert_eq!(demand(&required("a")), Some(&text("a is not set")));
    assert_eq!(demand(&optional("a")), None);
    assert_eq!(demand(&repeated("as", "a")), None);
    let mut sequence = repeated("as", "a");
    sequence.finalize = Finalize::Require { message: text("as is not set") };
    assert_eq!(demand(&sequence), None);
}
