//! What a generated builder does: its state, its methods and `build`.

use crate::model::{collect, lemma_collect_err, lemma_collect_ok, text_view, views};
use crate::plan::{
    BuilderPlan, BuilderPlanView, Finalize, Role, SlotPlan, SlotPlanView, Storage,
    StorageView,
};
use vstd::prelude::*;

verus! {

/// What a builder holds for one field.
#[derive(Debug, PartialEq, Eq)]
pub enum Slot<V> {
    /// A cell: unset, or set to a value.
    Cell { value: Option<V> },
    /// A sequence of elements.
    Sequence { items: Vec<V> },
}

/// The mathematical value of a [`Slot`].
pub enum SlotView<V> {
    Cell { value: Option<V> },
    Sequence { items: Seq<V> },
}

impl<V> View for Slot<V> {
    type V = SlotView<V>;

    open spec fn view(&self) -> SlotView<V> {
        match self {
            Slot::Cell { value } => SlotView::Cell { value: *value },
            Slot::Sequence { items } => SlotView::Sequence { items: items@ },
        }
    }
}

/// The state of a builder: the plan it was generated after and the content
/// of its slots.
pub struct BuilderView<V> {
    pub plan: BuilderPlanView,
    pub slots: Seq<SlotView<V>>,
}

/// A builder made after a plan, holding values of type `V`.
#[derive(Debug)]
pub struct Builder<V> {
    plan: BuilderPlan,
    slots: Vec<Slot<V>>,
}

impl<V> View for Builder<V> {
    type V = BuilderView<V>;

    closed spec fn view(&self) -> BuilderView<V> {
        BuilderView { plan: self.plan@, slots: views(self.slots@) }
    }
}

/// The value of one field of a built target.
#[derive(Debug, PartialEq, Eq)]
pub enum FieldValue<V> {
    /// The value of a required field.
    Single(V),
    /// The value of an optional field, absent if it was never set.
    Optional(Option<V>),
    /// The elements of a repeated field, in order.
    Repeated(Vec<V>),
}

/// The mathematical value of a [`FieldValue`].
pub enum FieldValueView<V> {
    Single(V),
    Optional(Option<V>),
    Repeated(Seq<V>),
}

impl<V> View for FieldValue<V> {
    type V = FieldValueView<V>;

    open spec fn view(&self) -> FieldValueView<V> {
        match self {
            FieldValue::Single(value) => FieldValueView::Single(*value),
            FieldValue::Optional(value) => FieldValueView::Optional(*value),
            FieldValue::Repeated(items) => FieldValueView::Repeated(items@),
        }
    }
}

/// Why `build` fails: a required field was never set.
#[derive(Debug, PartialEq, Eq)]
pub struct BuildError {
    /// The name of the field.
    pub field: String,
    /// What the plan says of the missing field.
    pub message: String,
}

/// The mathematical value of a [`BuildError`].
pub struct BuildErrorView {
    pub field: Seq<char>,
    pub message: Seq<char>,
}

impl View for BuildError {
    type V = BuildErrorView;

    open spec fn view(&self) -> BuildErrorView {
        BuildErrorView { field: self.field@, message: self.message@ }
    }
}

/// The view of what `build` returns.
pub open spec fn built_view<V>(built: Result<Vec<FieldValue<V>>, BuildError>) -> Result<
    Seq<FieldValueView<V>>,
    BuildErrorView,
> {
    match built {
        Ok(fields) => Ok(views(fields@)),
        Err(error) => Err(error@),
    }
}

/// A slot as a new builder has it: a cell unset, a sequence empty.
pub open spec fn fresh_slot<V>(plan: SlotPlanView) -> SlotView<V> {
    match plan.storage {
        StorageView::Cell { .. } => SlotView::Cell { value: None },
        StorageView::Sequence { .. } => SlotView::Sequence { items: Seq::empty() },
    }
}

/// The state of a new builder.
pub open spec fn fresh<V>(plan: BuilderPlanView) -> BuilderView<V> {
    BuilderView { plan, slots: Seq::new(plan.slots.len(), |i: int| fresh_slot(plan.slots[i])) }
}

/// Whether a slot's content has the form that its plan stores.
pub open spec fn fits<V>(plan: SlotPlanView, slot: SlotView<V>) -> bool {
    plan.storage is Cell <==> slot is Cell
}

impl<V> BuilderView<V> {
    /// A state is well formed if it has one slot for each slot of its plan,
    /// each of the form that the plan stores.
    pub open spec fn wf(self) -> bool {
        &&& self.slots.len() == self.plan.slots.len()
        &&& forall|i: int| 0 <= i < self.slots.len() ==> fits(self.plan.slots[i], #[trigger] self.slots[i])
    }
}

/// A call of a generated method. `slot` counts the fields from 0.
pub enum Call<V> {
    /// The setter of a cell.
    SetCell { slot: int, value: V },
    /// The setter of a sequence, which takes the whole sequence.
    SetSequence { slot: int, items: Seq<V> },
    /// The appender of a sequence.
    Append { slot: int, value: V },
}

impl<V> Call<V> {
    /// The slot that the call is made on.
    pub open spec fn target(self) -> int {
        match self {
            Call::SetCell { slot, .. } => slot,
            Call::SetSequence { slot, .. } => slot,
            Call::Append { slot, .. } => slot,
        }
    }
}

/// What a generated method does to its slot.
#[derive(Debug, PartialEq, Eq, Clone, Copy)]
pub enum Effect {
    /// It sets the cell to the value it takes.
    SetCell,
    /// It puts the sequence it takes in place of the sequence.
    SetSequence,
    /// It adds the value it takes at the end of the sequence.
    Append,
}

impl<V> Call<V> {
    /// The part that the called method plays for its slot.
    pub open spec fn role(self) -> Role {
        match self {
            Call::SetCell { .. } => Role::Setter,
            Call::SetSequence { .. } => Role::Setter,
            Call::Append { .. } => Role::Appender,
        }
    }

    /// What the call does to its slot.
    pub open spec fn effect(self) -> Effect {
        match self {
            Call::SetCell { .. } => Effect::SetCell,
            Call::SetSequence { .. } => Effect::SetSequence,
            Call::Append { .. } => Effect::Append,
        }
    }
}

/// What the method in the part `role` of a slot does, or `None` where the
/// slot has no such method: the setter of a cell sets the cell, the setter
/// of a sequence sets the sequence, the appender of a sequence appends; a
/// cell has no appender.
pub open spec fn effect_of(slot: SlotPlanView, role: Role) -> Option<Effect> {
    match role {
        Role::Setter => if slot.setter is None {
            None
        } else if slot.storage is Cell {
            Some(Effect::SetCell)
        } else {
            Some(Effect::SetSequence)
        },
        Role::Appender => if slot.appender is Some && slot.storage is Sequence {
            Some(Effect::Append)
        } else {
            None
        },
    }
}

/// What `build` says where a slot is unset, if the slot must be set: only a
/// cell can be unset, and only a cell that is required must be set.
pub open spec fn demanded(slot: SlotPlanView) -> Option<Seq<char>> {
    if slot.storage is Cell && slot.finalize is Require {
        Some(slot.finalize->message)
    } else {
        None
    }
}

/// Whether the plan has the method that is called.
pub open spec fn offers<V>(plan: BuilderPlanView, call: Call<V>) -> bool {
    &&& 0 <= call.target() < plan.slots.len()
    &&& effect_of(plan.slots[call.target()], call.role()) == Some(call.effect())
}

/// What the method in the part `role` of `slot` does.
pub fn effect(slot: &SlotPlan, role: Role) -> (effect: Option<Effect>)
    ensures
        effect == effect_of(slot@, role),
{
    match role {
        Role::Setter => match (&slot.setter, &slot.storage) {
            (None, _) => None,
            (Some(_), Storage::Cell { .. }) => Some(Effect::SetCell),
            (Some(_), Storage::Sequence { .. }) => Some(Effect::SetSequence),
        },
        Role::Appender => match (&slot.appender, &slot.storage) {
            (Some(_), Storage::Sequence { .. }) => Some(Effect::Append),
            _ => None,
        },
    }
}

/// What `build` says where `slot` is unset, if the slot must be set.
pub fn demand(slot: &SlotPlan) -> (message: Option<&String>)
    ensures
        text_view(message) == demanded(slot@),
{
    match (&slot.storage, &slot.finalize) {
        (Storage::Cell { .. }, Finalize::Require { message }) => Some(message),
        _ => None,
    }
}

/// The state after a call. A setter overwrites its slot, an appender adds
/// one element at the end of its slot; a call of a method that the plan does
/// not have changes nothing.
pub open spec fn step<V>(state: BuilderView<V>, call: Call<V>) -> BuilderView<V> {
    if !offers(state.plan, call) || !(0 <= call.target() < state.slots.len()) {
        state
    } else {
        match call {
            Call::SetCell { slot, value } => BuilderView {
                plan: state.plan,
                slots: state.slots.update(slot, SlotView::Cell { value: Some(value) }),
            },
            Call::SetSequence { slot, items } => BuilderView {
                plan: state.plan,
                slots: state.slots.update(slot, SlotView::Sequence { items }),
            },
            Call::Append { slot, value } => match state.slots[slot] {
                SlotView::Sequence { items } => BuilderView {
                    plan: state.plan,
                    slots: state.slots.update(slot, SlotView::Sequence { items: items.push(value) }),
                },
                SlotView::Cell { .. } => state,
            },
        }
    }
}

/// The state after a run of calls, made one after the other.
pub open spec fn run<V>(state: BuilderView<V>, calls: Seq<Call<V>>) -> BuilderView<V>
    decreases calls.len(),
{
    if calls.len() == 0 {
        state
    } else {
        step(run(state, calls.drop_last()), calls.last())
    }
}

/// What `build` makes of one slot: a sequence passes as it is, and so does
/// a cell that may stay unset; a cell that must be set gives its value, or
/// the error that names its field.
pub open spec fn resolve<V>(plan: SlotPlanView, slot: SlotView<V>) -> Result<
    FieldValueView<V>,
    BuildErrorView,
> {
    match slot {
        SlotView::Sequence { items } => Ok(FieldValueView::Repeated(items)),
        SlotView::Cell { value } => match demanded(plan) {
            None => Ok(FieldValueView::Optional(value)),
            Some(message) => match value {
                Some(v) => Ok(FieldValueView::Single(v)),
                None => Err(BuildErrorView { field: plan.field, message }),
            },
        },
    }
}

/// What `build` makes of each slot.
pub open spec fn resolutions<V>(state: BuilderView<V>) -> Seq<
    Result<FieldValueView<V>, BuildErrorView>,
> {
    Seq::new(state.slots.len(), |i: int| resolve(state.plan.slots[i], state.slots[i]))
}

/// What `build` returns in a state: the value of every field in declaration
/// order, or the error of the first required field that is unset.
pub open spec fn finalize<V>(state: BuilderView<V>) -> Result<
    Seq<FieldValueView<V>>,
    BuildErrorView,
> {
    collect(resolutions(state))
}

/// A copy of `items`.
pub fn copy_items<V: Copy>(items: &Vec<V>) -> (copy: Vec<V>)
    ensures
        copy@ == items@,
{
    let mut copy: Vec<V> = Vec::new();
    let mut i: usize = 0;
    while i < items.len()
        invariant
            i <= items.len(),
            copy@ == items@.take(i as int),
        decreases items.len() - i,
    {
        copy.push(items[i]);
        i += 1;
    }
    copy
}

impl<V: Copy> Builder<V> {
    /// Whether the builder is well formed: its state is. Every builder that
    /// `new` makes is, and every method keeps it so.
    pub open spec fn wf(&self) -> bool {
        self@.wf()
    }

    /// A new builder after `plan`: every cell unset, every sequence empty.
    pub fn new(plan: BuilderPlan) -> (builder: Self)
        ensures
            builder.wf(),
            builder@ == fresh::<V>(plan@),
    {
        let mut slots: Vec<Slot<V>> = Vec::new();
        let mut i: usize = 0;
        while i < plan.slots.len()
            invariant
                i <= plan.slots.len(),
                slots.len() == i,
                forall|k: int|
                    0 <= k < i ==> (#[trigger] slots[k])@ == fresh_slot::<V>(plan.slots[k]@),
            decreases plan.slots.len() - i,
        {
            match &plan.slots[i].storage {
                Storage::Cell { .. } => slots.push(Slot::Cell { value: None }),
                Storage::Sequence { .. } => slots.push(Slot::Sequence { items: Vec::new() }),
            }
            i += 1;
        }
        let builder = Builder { plan, slots };
        assert(builder@.slots =~= fresh::<V>(plan@).slots);
        builder
    }

    /// Calls the setter of cell `slot` with `value`.
    pub fn set(&mut self, slot: usize, value: V) -> (same: &mut Self)
        requires
            old(self).wf(),
        ensures
            *final(self) == *final(same),
            same.wf(),
            same@ == step(old(self)@, (Call::SetCell { slot: slot as int, value })),
    {
        let ghost before = self@;
        if slot < self.slots.len() {
            if let Some(Effect::SetCell) = effect(&self.plan.slots[slot], Role::Setter) {
                self.slots[slot] = Slot::Cell { value: Some(value) };
                proof {
                    assert(self@.slots =~= before.slots.update(
                        slot as int,
                        SlotView::Cell { value: Some(value) },
                    ));
                }
            }
        }
        self
    }

    /// Calls the setter of sequence `slot` with the whole sequence `items`.
    pub fn set_all(&mut self, slot: usize, items: Vec<V>) -> (same: &mut Self)
        requires
            old(self).wf(),
        ensures
            *final(self) == *final(same),
            same.wf(),
            same@ == step(old(self)@, (Call::SetSequence { slot: slot as int, items: items@ })),
    {
        let ghost before = self@;
        if slot < self.slots.len() {
            if let Some(Effect::SetSequence) = effect(&self.plan.slots[slot], Role::Setter) {
                let ghost content = items@;
                self.slots[slot] = Slot::Sequence { items };
                proof {
                    assert(self@.slots =~= before.slots.update(
                        slot as int,
                        SlotView::Sequence { items: content },
                    ));
                }
            }
        }
        self
    }

    /// Calls the appender of sequence `slot` with `value`.
    pub fn append(&mut self, slot: usize, value: V) -> (same: &mut Self)
        requires
            old(self).wf(),
        ensures
            *final(self) == *final(same),
            same.wf(),
            same@ == step(old(self)@, (Call::Append { slot: slot as int, value })),
    {
        let ghost before = self@;
        if slot < self.slots.len() {
            if let Some(Effect::Append) = effect(&self.plan.slots[slot], Role::Appender) {
                match &mut self.slots[slot] {
                    Slot::Sequence { items } => {
                        items.push(value);
                    },
                    Slot::Cell { .. } => {},
                }
                proof {
                    assert(self@.slots =~= before.slots.update(
                        slot as int,
                        SlotView::Sequence { items: before.slots[slot as int]->items.push(value) },
                    ));
                }
            }
        }
        self
    }

    /// The plan that the builder was made after.
    pub fn plan(&self) -> (plan: &BuilderPlan)
        ensures
            plan@ == self@.plan,
    {
        &self.plan
    }

    /// Builds the target from what the builder holds now. The builder stays
    /// as it is.
    pub fn build(&self) -> (built: Result<Vec<FieldValue<V>>, BuildError>)
        requires
            self.wf(),
        ensures
            built_view(built) == finalize(self@),
    {
        let ghost steps = resolutions(self@);
        let mut fields: Vec<FieldValue<V>> = Vec::new();
        let mut i: usize = 0;
        while i < self.slots.len()
            invariant
                self.wf(),
                i <= self.slots.len(),
                steps == resolutions(self@),
                steps.len() == self.slots.len(),
                fields.len() == i,
                forall|k: int|
                    0 <= k < i ==> #[trigger] steps[k] == Ok::<FieldValueView<V>, BuildErrorView>(
                        fields[k]@,
                    ),
            decreases self.slots.len() - i,
        {
            let plan = &self.plan.slots[i];
            assert(steps[i as int] == resolve(plan@, self.slots[i as int]@));
            match &self.slots[i] {
                Slot::Sequence { items } => {
                    fields.push(FieldValue::Repeated(copy_items(items)));
                },
                Slot::Cell { value } => match demand(plan) {
                    None => {
                        fields.push(FieldValue::Optional(*value));
                    },
                    Some(message) => match value {
                        Some(v) => {
                            fields.push(FieldValue::Single(*v));
                        },
                        None => {
                            let error = BuildError {
                                field: plan.field.clone(),
                                message: message.clone(),
                            };
                            proof {
                                lemma_collect_err(steps, error@);
                            }
                            return Err(error);
                        },
                    },
                },
            }
            i += 1;
        }
        proof {
            lemma_collect_ok(steps);
            assert(collect(steps)->Ok_0 =~= views(fields@));
        }
        Ok(fields)
    }
}

} // verus!
