//! The plan of a builder: what is generated for a target type, slot by slot.

use crate::classify::{classification, classify, ClassificationView, FieldClassification};
use crate::model::{some_view, views};
use crate::schema::{FieldDescriptor, FieldDescriptorView};
use crate::syntax::{TypeExpr, TypeView};
use crate::text::{joined, text_is, unraw, without_raw_prefix};
use vstd::prelude::*;
use vstd::string::StringExecFns;

verus! {

/// A generated method that takes one value and hands the builder back.
#[derive(Debug, PartialEq, Eq)]
pub struct Method {
    pub name: String,
    /// The type of the value that the method takes.
    pub parameter: TypeExpr,
}

/// The mathematical value of a [`Method`].
pub struct MethodView {
    pub name: Seq<char>,
    pub parameter: TypeView,
}

impl View for Method {
    type V = MethodView;

    open spec fn view(&self) -> MethodView {
        MethodView { name: self.name@, parameter: self.parameter@ }
    }
}

impl Clone for Method {
    fn clone(&self) -> (copy: Self)
        ensures
            copy@ == self@,
    {
        Method { name: self.name.clone(), parameter: self.parameter.clone() }
    }
}

/// What the builder stores for a field.
#[derive(Debug, PartialEq, Eq)]
pub enum Storage {
    /// A cell that is unset or holds one value of type `ty`; a new builder
    /// has it unset.
    Cell { ty: TypeExpr },
    /// A sequence of values of type `element`; a new builder has it empty.
    Sequence { element: TypeExpr },
}

/// The mathematical value of a [`Storage`].
pub enum StorageView {
    Cell { ty: TypeView },
    Sequence { element: TypeView },
}

impl View for Storage {
    type V = StorageView;

    open spec fn view(&self) -> StorageView {
        match self {
            Storage::Cell { ty } => StorageView::Cell { ty: ty@ },
            Storage::Sequence { element } => StorageView::Sequence { element: element@ },
        }
    }
}

impl Clone for Storage {
    fn clone(&self) -> (copy: Self)
        ensures
            copy@ == self@,
    {
        match self {
            Storage::Cell { ty } => Storage::Cell { ty: ty.clone() },
            Storage::Sequence { element } => Storage::Sequence { element: element.clone() },
        }
    }
}

/// What `build` does with a slot.
#[derive(Debug, PartialEq, Eq)]
pub enum Finalize {
    /// The slot must hold a value; if it is unset, `build` fails with
    /// `message`.
    Require { message: String },
    /// The slot's content becomes the field's value as it is.
    PassThrough,
}

/// The mathematical value of a [`Finalize`].
pub enum FinalizeView {
    Require { message: Seq<char> },
    PassThrough,
}

impl View for Finalize {
    type V = FinalizeView;

    open spec fn view(&self) -> FinalizeView {
        match self {
            Finalize::Require { message } => FinalizeView::Require { message: message@ },
            Finalize::PassThrough => FinalizeView::PassThrough,
        }
    }
}

impl Clone for Finalize {
    fn clone(&self) -> (copy: Self)
        ensures
            copy@ == self@,
    {
        match self {
            Finalize::Require { message } => Finalize::Require { message: message.clone() },
            Finalize::PassThrough => Finalize::PassThrough,
        }
    }
}

/// What is generated for one field.
#[derive(Debug, PartialEq, Eq)]
pub struct SlotPlan {
    /// The field's name.
    pub field: String,
    pub storage: Storage,
    /// The method that sets the whole value, if there is one.
    pub setter: Option<Method>,
    /// The method that appends one element, if there is one.
    pub appender: Option<Method>,
    pub finalize: Finalize,
}

/// The mathematical value of a [`SlotPlan`].
pub struct SlotPlanView {
    pub field: Seq<char>,
    pub storage: StorageView,
    pub setter: Option<MethodView>,
    pub appender: Option<MethodView>,
    pub finalize: FinalizeView,
}

impl View for SlotPlan {
    type V = SlotPlanView;

    open spec fn view(&self) -> SlotPlanView {
        SlotPlanView {
            field: self.field@,
            storage: self.storage@,
            setter: some_view(self.setter),
            appender: some_view(self.appender),
            finalize: self.finalize@,
        }
    }
}

impl Clone for SlotPlan {
    fn clone(&self) -> (copy: Self)
        ensures
            copy@ == self@,
    {
        SlotPlan {
            field: self.field.clone(),
            storage: self.storage.clone(),
            setter: match &self.setter {
                Some(method) => Some(method.clone()),
                None => None,
            },
            appender: match &self.appender {
                Some(method) => Some(method.clone()),
                None => None,
            },
            finalize: self.finalize.clone(),
        }
    }
}

/// What is generated for a target type: the builder type, a function of the
/// target that makes a new builder, and one slot for each field, in
/// declaration order.
#[derive(Debug, PartialEq, Eq)]
pub struct BuilderPlan {
    /// The name of the target type.
    pub target: String,
    /// The name of the builder type.
    pub builder: String,
    /// The name of the function of the target that makes a new builder.
    pub factory: String,
    /// The name of the builder's method that builds the target.
    pub finisher: String,
    pub slots: Vec<SlotPlan>,
}

/// The mathematical value of a [`BuilderPlan`].
pub struct BuilderPlanView {
    pub target: Seq<char>,
    pub builder: Seq<char>,
    pub factory: Seq<char>,
    pub finisher: Seq<char>,
    pub slots: Seq<SlotPlanView>,
}

impl View for BuilderPlan {
    type V = BuilderPlanView;

    open spec fn view(&self) -> BuilderPlanView {
        BuilderPlanView {
            target: self.target@,
            builder: self.builder@,
            factory: self.factory@,
            finisher: self.finisher@,
            slots: views(self.slots@),
        }
    }
}

impl Clone for BuilderPlan {
    fn clone(&self) -> (copy: Self)
        ensures
            copy@ == self@,
    {
        let mut slots: Vec<SlotPlan> = Vec::new();
        let mut i: usize = 0;
        while i < self.slots.len()
            invariant
                i <= self.slots.len(),
                slots.len() == i,
                forall|k: int| 0 <= k < i ==> (#[trigger] slots[k])@ == self.slots[k]@,
            decreases self.slots.len() - i,
        {
            slots.push(self.slots[i].clone());
            i += 1;
        }
        let copy = BuilderPlan {
            target: self.target.clone(),
            builder: self.builder.clone(),
            factory: self.factory.clone(),
            finisher: self.finisher.clone(),
            slots,
        };
        assert(copy@.slots =~= self@.slots);
        copy
    }
}

/// The part that a method plays for its slot.
#[derive(Debug, PartialEq, Eq, Clone, Copy)]
pub enum Role {
    Setter,
    Appender,
}

/// A place for a method in a plan: a slot, counted from 0, and a part.
#[derive(Debug, PartialEq, Eq, Clone, Copy)]
pub struct MethodRef {
    pub slot: usize,
    pub role: Role,
}

/// Whether the plan has a method named `name` at the place `at`.
pub open spec fn named_at(plan: BuilderPlanView, at: MethodRef, name: Seq<char>) -> bool {
    &&& at.slot < plan.slots.len()
    &&& match at.role {
        Role::Setter => plan.slots[at.slot as int].setter matches Some(m) && m.name == name,
        Role::Appender => plan.slots[at.slot as int].appender matches Some(m) && m.name == name,
    }
}

/// The order of the places of a plan: slot by slot, and in a slot the setter
/// before the appender.
pub open spec fn comes_before(first: MethodRef, second: MethodRef) -> bool {
    first.slot < second.slot || (first.slot == second.slot && first.role is Setter
        && second.role is Appender)
}

impl BuilderPlan {
    /// Finds the method named `name`: the first place that has a method of
    /// that name, or `None` if no place has one.
    pub fn find_method(&self, name: &str) -> (found: Option<MethodRef>)
        ensures
            found matches Some(at) ==> named_at(self@, at, name@) && forall|other: MethodRef|
                named_at(self@, other, name@) ==> !comes_before(other, at),
            found is None ==> forall|other: MethodRef| !named_at(self@, other, name@),
    {
        let mut i: usize = 0;
        while i < self.slots.len()
            invariant
                i <= self.slots.len(),
                forall|other: MethodRef| other.slot < i ==> !named_at(self@, other, name@),
            decreases self.slots.len() - i,
        {
            let slot = &self.slots[i];
            let is_setter = match &slot.setter {
                Some(method) => text_is(&method.name, name),
                None => false,
            };
            if is_setter {
                return Some(MethodRef { slot: i, role: Role::Setter });
            }
            let is_appender = match &slot.appender {
                Some(method) => text_is(&method.name, name),
                None => false,
            };
            if is_appender {
                return Some(MethodRef { slot: i, role: Role::Appender });
            }
            i += 1;
        }
        None
    }
}

/// The name of the method that sets a field as a whole: `set_` and the
/// field's name, without the prefix `r#` if the name has it.
pub open spec fn setter_name(field: Seq<char>) -> Seq<char> {
    "set_"@ + unraw(field)
}

/// What `build` says when a required field is unset.
pub open spec fn missing_message(field: Seq<char>) -> Seq<char> {
    field + " is not set"@
}

/// The name of the builder type of a target.
pub open spec fn builder_name(target: Seq<char>) -> Seq<char> {
    target + "Builder"@
}

/// The slot of a field with a given classification.
///
/// A required or optional field is stored in a cell and has a setter. A
/// repeated field is stored in a sequence and has an appender named by its
/// alias; it also has a setter, which takes the whole sequence, unless the
/// alias is the field's own name. Only a required field can make `build`
/// fail.
pub open spec fn slot_of(field: FieldDescriptorView, class: ClassificationView) -> SlotPlanView {
    match class {
        ClassificationView::Required { ty } => SlotPlanView {
            field: field.name,
            storage: StorageView::Cell { ty },
            setter: Some(MethodView { name: setter_name(field.name), parameter: ty }),
            appender: None,
            finalize: FinalizeView::Require { message: missing_message(field.name) },
        },
        ClassificationView::Optional { inner } => SlotPlanView {
            field: field.name,
            storage: StorageView::Cell { ty: inner },
            setter: Some(MethodView { name: setter_name(field.name), parameter: inner }),
            appender: None,
            finalize: FinalizeView::PassThrough,
        },
        ClassificationView::Repeated { element, alias } => SlotPlanView {
            field: field.name,
            storage: StorageView::Sequence { element },
            setter: if alias == field.name {
                None
            } else {
                Some(MethodView { name: setter_name(field.name), parameter: field.declared_type })
            },
            appender: Some(MethodView { name: alias, parameter: element }),
            finalize: FinalizeView::PassThrough,
        },
    }
}

/// The slot of each field, in order.
pub open spec fn slots_of(fields: Seq<FieldDescriptorView>) -> Seq<SlotPlanView> {
    Seq::new(fields.len(), |i: int| slot_of(fields[i], classification(fields[i])))
}

/// The plan for a target with these fields: the builder type is named after
/// the target, the function that makes a builder is `builder`, the method
/// that builds the target is `build`, and there is one slot for each field,
/// in order. Every schema has a plan.
pub open spec fn plan_of(target: Seq<char>, fields: Seq<FieldDescriptorView>) -> BuilderPlanView {
    BuilderPlanView {
        target,
        builder: builder_name(target),
        factory: "builder"@,
        finisher: "build"@,
        slots: slots_of(fields),
    }
}

/// The name of the setter of the field named `field`.
pub fn setter_method_name(field: &String) -> (name: String)
    ensures
        name@ == setter_name(field@),
{
    let plain = without_raw_prefix(field);
    joined("set_", plain.as_str())
}

/// Plans the slot of a field from its classification.
pub fn plan_slot(field: &FieldDescriptor, class: FieldClassification) -> (slot: SlotPlan)
    ensures
        slot@ == slot_of(field@, class@),
{
    match class {
        FieldClassification::Required { ty } => {
            let parameter = ty.clone();
            SlotPlan {
                field: field.name.clone(),
                storage: Storage::Cell { ty },
                setter: Some(Method { name: setter_method_name(&field.name), parameter }),
                appender: None,
                finalize: Finalize::Require {
                    message: joined(field.name.as_str(), " is not set"),
                },
            }
        },
        FieldClassification::Optional { inner } => {
            let parameter = inner.clone();
            SlotPlan {
                field: field.name.clone(),
                storage: Storage::Cell { ty: inner },
                setter: Some(Method { name: setter_method_name(&field.name), parameter }),
                appender: None,
                finalize: Finalize::PassThrough,
            }
        },
        FieldClassification::Repeated { element, alias } => {
            let setter = if text_is(&alias, field.name.as_str()) {
                None
            } else {
                Some(
                    Method {
                        name: setter_method_name(&field.name),
                        parameter: field.declared_type.clone(),
                    },
                )
            };
            let parameter = element.clone();
            SlotPlan {
                field: field.name.clone(),
                storage: Storage::Sequence { element },
                setter,
                appender: Some(Method { name: alias, parameter }),
                finalize: Finalize::PassThrough,
            }
        },
    }
}

/// Plans the builder of the target named `target` with the fields `fields`.
pub fn generate(target: &String, fields: &Vec<FieldDescriptor>) -> (plan: BuilderPlan)
    ensures
        plan@ == plan_of(target@, views(fields@)),
{
    let mut slots: Vec<SlotPlan> = Vec::new();
    let mut i: usize = 0;
    while i < fields.len()
        invariant
            i <= fields.len(),
            slots.len() == i,
            forall|k: int|
                0 <= k < i ==> (#[trigger] slots[k])@ == slots_of(views(fields@))[k],
        decreases fields.len() - i,
    {
        let class = classify(&fields[i]);
        slots.push(plan_slot(&fields[i], class));
        i += 1;
    }
    let plan = BuilderPlan {
        target: target.clone(),
        builder: joined(target.as_str(), "Builder"),
        factory: String::from_str("builder"),
        finisher: String::from_str("build"),
        slots,
    };
    assert(plan@.slots =~= slots_of(views(fields@)));
    plan
}

} // verus!
