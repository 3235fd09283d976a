//! What holds of every generated builder: how `build` answers to the calls
//! that were made, for each classification of a field.

use crate::classify::{classification, ClassificationView};
use crate::model::{collect, lemma_collect_err, lemma_collect_ok};
use crate::plan::{missing_message, plan_of, setter_name, BuilderPlanView, MethodView};
use crate::runtime::{
    finalize, fits, fresh, resolutions, resolve, run, step, BuildErrorView, BuilderView, Call,
    FieldValueView, SlotView,
};
use crate::schema::FieldDescriptorView;
use vstd::prelude::*;

verus! {

/// Whether `call` is a call of the setter of cell `slot`.
pub open spec fn sets<V>(call: Call<V>, slot: int) -> bool {
    call is SetCell && call.target() == slot
}

/// Whether `call` is a call of the setter of sequence `slot`.
pub open spec fn sets_all<V>(call: Call<V>, slot: int) -> bool {
    call is SetSequence && call.target() == slot
}

/// Whether `call` is a call of the appender of sequence `slot`.
pub open spec fn appends<V>(call: Call<V>, slot: int) -> bool {
    call is Append && call.target() == slot
}

/// Whether the setter of cell `slot` is never called in `calls`.
pub open spec fn never_set<V>(calls: Seq<Call<V>>, slot: int) -> bool {
    forall|k: int| 0 <= k < calls.len() ==> !sets(#[trigger] calls[k], slot)
}

/// Whether the setter of sequence `slot` is never called in `calls`.
pub open spec fn never_set_all<V>(calls: Seq<Call<V>>, slot: int) -> bool {
    forall|k: int| 0 <= k < calls.len() ==> !sets_all(#[trigger] calls[k], slot)
}

/// The value that the last call of the setter of cell `slot` gave, if the
/// setter is called in `calls`.
pub open spec fn last_set<V>(calls: Seq<Call<V>>, slot: int) -> Option<V>
    decreases calls.len(),
{
    if calls.len() == 0 {
        None
    } else if sets(calls.last(), slot) {
        Some(calls.last()->SetCell_value)
    } else {
        last_set(calls.drop_last(), slot)
    }
}

/// The values that the calls of the appender of sequence `slot` gave, in the
/// order of the calls.
pub open spec fn appended<V>(calls: Seq<Call<V>>, slot: int) -> Seq<V>
    decreases calls.len(),
{
    if calls.len() == 0 {
        Seq::empty()
    } else if appends(calls.last(), slot) {
        appended(calls.drop_last(), slot).push(calls.last()->Append_value)
    } else {
        appended(calls.drop_last(), slot)
    }
}

/// The number of calls of the appender of sequence `slot`.
pub open spec fn appends_count<V>(calls: Seq<Call<V>>, slot: int) -> nat
    decreases calls.len(),
{
    if calls.len() == 0 {
        0
    } else if appends(calls.last(), slot) {
        appends_count(calls.drop_last(), slot) + 1
    } else {
        appends_count(calls.drop_last(), slot)
    }
}

/// What the calls leave in sequence `slot` of a new builder that has both
/// the setter and the appender: what the last call of the setter gave, or
/// nothing if there is none, followed by what was appended after it.
pub open spec fn gathered<V>(calls: Seq<Call<V>>, slot: int) -> Seq<V>
    decreases calls.len(),
{
    if calls.len() == 0 {
        Seq::empty()
    } else if sets_all(calls.last(), slot) {
        calls.last()->SetSequence_items
    } else if appends(calls.last(), slot) {
        gathered(calls.drop_last(), slot).push(calls.last()->Append_value)
    } else {
        gathered(calls.drop_last(), slot)
    }
}

/// Every call keeps the plan, and keeps a well-formed state well formed.
pub proof fn lemma_step_keeps<V>(state: BuilderView<V>, call: Call<V>)
    requires
        state.wf(),
    ensures
        step(state, call).wf(),
        step(state, call).plan == state.plan,
{
}

/// A run of calls keeps the plan, and keeps a well-formed state well formed.
pub proof fn lemma_run_keeps<V>(state: BuilderView<V>, calls: Seq<Call<V>>)
    requires
        state.wf(),
    ensures
        run(state, calls).wf(),
        run(state, calls).plan == state.plan,
    decreases calls.len(),
{
    if calls.len() > 0 {
        lemma_run_keeps(state, calls.drop_last());
        lemma_step_keeps(run(state, calls.drop_last()), calls.last());
    }
}

/// A new builder is well formed.
pub proof fn lemma_fresh_wf<V>(plan: BuilderPlanView)
    ensures
        fresh::<V>(plan).wf(),
{
}

/// After any run of calls on a new builder, a cell that has a setter holds
/// what the last call of its setter gave, and is unset if there was none.
pub proof fn lemma_cell_holds_last<V>(plan: BuilderPlanView, calls: Seq<Call<V>>, slot: int)
    requires
        0 <= slot < plan.slots.len(),
        plan.slots[slot].storage is Cell,
        plan.slots[slot].setter is Some,
    ensures
        run(fresh(plan), calls).slots[slot] == (SlotView::Cell { value: last_set(calls, slot) }),
    decreases calls.len(),
{
    if calls.len() > 0 {
        lemma_run_keeps(fresh::<V>(plan), calls.drop_last());
        lemma_cell_holds_last(plan, calls.drop_last(), slot);
    }
}

/// After any run of calls on a new builder, a sequence that has a setter and
/// an appender holds what the calls gathered.
pub proof fn lemma_sequence_holds_gathered<V>(plan: BuilderPlanView, calls: Seq<Call<V>>, slot: int)
    requires
        0 <= slot < plan.slots.len(),
        plan.slots[slot].storage is Sequence,
        plan.slots[slot].setter is Some,
        plan.slots[slot].appender is Some,
    ensures
        run(fresh(plan), calls).slots[slot] == (SlotView::Sequence {
            items: gathered(calls, slot),
        }),
    decreases calls.len(),
{
    if calls.len() > 0 {
        lemma_run_keeps(fresh::<V>(plan), calls.drop_last());
        lemma_sequence_holds_gathered(plan, calls.drop_last(), slot);
    }
}

/// After any run of calls on a new builder, a sequence that has an appender
/// and no setter holds what was appended.
pub proof fn lemma_sequence_holds_appended<V>(plan: BuilderPlanView, calls: Seq<Call<V>>, slot: int)
    requires
        0 <= slot < plan.slots.len(),
        plan.slots[slot].storage is Sequence,
        plan.slots[slot].setter is None,
        plan.slots[slot].appender is Some,
    ensures
        run(fresh(plan), calls).slots[slot] == (SlotView::Sequence {
            items: appended(calls, slot),
        }),
    decreases calls.len(),
{
    if calls.len() > 0 {
        lemma_run_keeps(fresh::<V>(plan), calls.drop_last());
        lemma_sequence_holds_appended(plan, calls.drop_last(), slot);
    }
}

/// The last value set is absent exactly if the setter was never called.
pub proof fn lemma_last_set_none<V>(calls: Seq<Call<V>>, slot: int)
    ensures
        last_set(calls, slot) is None <==> never_set(calls, slot),
    decreases calls.len(),
{
    if calls.len() > 0 {
        let front = calls.drop_last();
        lemma_last_set_none(front, slot);
        if !sets(calls.last(), slot) && never_set(front, slot) {
            assert forall|k: int| 0 <= k < calls.len() implies !sets(#[trigger] calls[k], slot) by {
                if k < front.len() {
                    assert(front[k] == calls[k]);
                }
            }
        }
    }
}

/// As many values were appended as the appender was called.
pub proof fn lemma_appended_len<V>(calls: Seq<Call<V>>, slot: int)
    ensures
        appended(calls, slot).len() == appends_count(calls, slot),
    decreases calls.len(),
{
    if calls.len() > 0 {
        lemma_appended_len(calls.drop_last(), slot);
    }
}

/// Where the setter of the sequence is never called, what the calls gather
/// is what they append.
pub proof fn lemma_gathered_without_setter<V>(calls: Seq<Call<V>>, slot: int)
    requires
        never_set_all(calls, slot),
    ensures
        gathered(calls, slot) == appended(calls, slot),
    decreases calls.len(),
{
    if calls.len() > 0 {
        let front = calls.drop_last();
        lemma_gathered_without_setter(front, slot);
    }
}

/// After a call of the setter of the sequence and calls that do not call it
/// again, what the calls gather is what that call gave, followed by what was
/// appended after it.
pub proof fn lemma_gathered_after_setter<V>(
    before: Seq<Call<V>>,
    items: Seq<V>,
    after: Seq<Call<V>>,
    slot: int,
)
    requires
        never_set_all(after, slot),
    ensures
        gathered(before.push(Call::SetSequence { slot, items }) + after, slot) == items + appended(
            after,
            slot,
        ),
    decreases after.len(),
{
    if after.len() > 0 {
        let bulk = Call::SetSequence { slot, items };
        let front = after.drop_last();
        lemma_gathered_after_setter(before, items, front, slot);
        assert((before.push(bulk) + after).drop_last() =~= before.push(bulk) + front);
    }
}

/// Appenders only, one call for each value: what was appended is those
/// values, in the order of the calls.
pub proof fn lemma_appended_in_call_order<V>(values: Seq<V>, slot: int)
    ensures
        appended(Seq::new(values.len(), |k: int| Call::Append { slot, value: values[k] }), slot)
            == values,
        appends_count(Seq::new(values.len(), |k: int| Call::Append { slot, value: values[k] }), slot)
            == values.len(),
    decreases values.len(),
{
    let calls = Seq::new(values.len(), |k: int| Call::Append { slot, value: values[k] });
    if values.len() > 0 {
        let front = values.drop_last();
        let front_calls = Seq::new(front.len(), |k: int| Call::Append { slot, value: front[k] });
        lemma_appended_in_call_order(front, slot);
        assert(calls.drop_last() =~= front_calls);
    }
}

/// What `build` makes of field `i`, named `name` and classified `class`,
/// after `calls` on a new builder: a required field has the value last set,
/// or is missing; an optional field has the value last set, if any; a
/// repeated field has what the calls gathered, where a setter that is not
/// there gathers nothing.
pub open spec fn outcome<V>(
    class: ClassificationView,
    name: Seq<char>,
    calls: Seq<Call<V>>,
    i: int,
) -> Result<FieldValueView<V>, BuildErrorView> {
    match class {
        ClassificationView::Required { .. } => match last_set(calls, i) {
            Some(value) => Ok(FieldValueView::Single(value)),
            None => Err(BuildErrorView { field: name, message: missing_message(name) }),
        },
        ClassificationView::Optional { .. } => Ok(FieldValueView::Optional(last_set(calls, i))),
        ClassificationView::Repeated { alias, .. } => Ok(
            FieldValueView::Repeated(
                if alias == name {
                    appended(calls, i)
                } else {
                    gathered(calls, i)
                },
            ),
        ),
    }
}

/// What `build` makes of each field of a schema after `calls` on a new
/// builder.
pub open spec fn outcomes<V>(fields: Seq<FieldDescriptorView>, calls: Seq<Call<V>>) -> Seq<
    Result<FieldValueView<V>, BuildErrorView>,
> {
    Seq::new(
        fields.len(),
        |i: int| outcome(classification(fields[i]), fields[i].name, calls, i),
    )
}

/// For any target and any calls made on a new builder:
/// `build` returns what the calls make of each field, in declaration order,
/// or the error of the first required field whose setter was never called.
pub proof fn law_build_outcome<V>(
    target: Seq<char>,
    fields: Seq<FieldDescriptorView>,
    calls: Seq<Call<V>>,
)
    ensures
        finalize(run(fresh::<V>(plan_of(target, fields)), calls)) == collect(
            outcomes(fields, calls),
        ),
{
    let plan = plan_of(target, fields);
    let end = run(fresh::<V>(plan), calls);
    lemma_fresh_wf::<V>(plan);
    lemma_run_keeps(fresh::<V>(plan), calls);
    assert forall|i: int| 0 <= i < fields.len() implies resolutions(end)[i] == outcomes(
        fields,
        calls,
    )[i] by {
        match classification(fields[i]) {
            ClassificationView::Required { .. } => {
                lemma_cell_holds_last(plan, calls, i);
            },
            ClassificationView::Optional { .. } => {
                lemma_cell_holds_last(plan, calls, i);
            },
            ClassificationView::Repeated { alias, .. } => {
                if alias == fields[i].name {
                    lemma_sequence_holds_appended(plan, calls, i);
                } else {
                    lemma_sequence_holds_gathered(plan, calls, i);
                }
            },
        }
    }
    assert(resolutions(end) =~= outcomes(fields, calls));
}

/// For a target whose fields are all required, and any calls made on a new
/// builder: `build` fails exactly if the setter of some field was never
/// called, and then names the first such field; otherwise it succeeds, and
/// every field of the target has the value that the last call of its setter
/// gave.
pub proof fn law_required_fields<V>(
    target: Seq<char>,
    fields: Seq<FieldDescriptorView>,
    calls: Seq<Call<V>>,
)
    requires
        forall|i: int| 0 <= i < fields.len() ==> classification(#[trigger] fields[i]) is Required,
    ensures
        ({
            let built = finalize(run(fresh::<V>(plan_of(target, fields)), calls));
            &&& built is Err <==> exists|i: int| 0 <= i < fields.len() && never_set(calls, i)
            &&& built matches Err(error) ==> exists|i: int|
                0 <= i < fields.len() && #[trigger] never_set(calls, i) && (forall|j: int|
                    0 <= j < i ==> !never_set(calls, j)) && error == (BuildErrorView {
                    field: fields[i].name,
                    message: missing_message(fields[i].name),
                })
            &&& built matches Ok(values) ==> values.len() == fields.len() && forall|i: int|
                0 <= i < fields.len() ==> #[trigger] values[i] == FieldValueView::Single(
                    last_set(calls, i)->0,
                )
        }),
{
    let plan = plan_of(target, fields);
    let end = run(fresh::<V>(plan), calls);
    let steps = resolutions(end);
    lemma_fresh_wf::<V>(plan);
    lemma_run_keeps(fresh::<V>(plan), calls);
    assert forall|i: int| 0 <= i < fields.len() implies #[trigger] steps[i] == (match last_set(
        calls,
        i,
    ) {
        Some(v) => Ok::<FieldValueView<V>, BuildErrorView>(FieldValueView::Single(v)),
        None => Err::<FieldValueView<V>, BuildErrorView>(
            BuildErrorView { field: fields[i].name, message: missing_message(fields[i].name) },
        ),
    }) && (last_set(calls, i) is None <==> never_set(calls, i)) by {
        lemma_cell_holds_last(plan, calls, i);
        lemma_last_set_none(calls, i);
    }
    lemma_collect_ok(steps);
    let built = finalize(end);
    if built is Err {
        lemma_collect_err(steps, built->Err_0);
        let first = choose|i: int|
            0 <= i < steps.len() && #[trigger] steps[i] == Err::<FieldValueView<V>, BuildErrorView>(
                built->Err_0,
            ) && forall|j: int| 0 <= j < i ==> steps[j] is Ok;
        assert forall|j: int| 0 <= j < first implies !never_set(calls, j) by {
            assert(steps[j] is Ok);
        }
    } else {
        assert forall|i: int| 0 <= i < fields.len() implies !never_set(calls, i) by {
            assert(steps[i] is Ok);
        }
    }
}

/// An optional field never makes `build` fail. For any calls made on a new
/// builder: if `build` fails, its error is that of another field; if it
/// succeeds, the field has the value that the last call of its setter gave,
/// and is absent if the setter was never called.
pub proof fn law_optional_field<V>(
    target: Seq<char>,
    fields: Seq<FieldDescriptorView>,
    calls: Seq<Call<V>>,
    i: int,
)
    requires
        0 <= i < fields.len(),
        classification(fields[i]) is Optional,
    ensures
        never_set(calls, i) ==> last_set(calls, i) is None,
        ({
            let plan = plan_of(target, fields);
            let end = run(fresh::<V>(plan), calls);
            &&& resolve(plan.slots[i], end.slots[i]) == Ok::<FieldValueView<V>, BuildErrorView>(
                FieldValueView::Optional(last_set(calls, i)),
            )
            &&& finalize(end) matches Ok(values) ==> values[i] == FieldValueView::Optional(
                last_set(calls, i),
            )
            &&& finalize(end) matches Err(error) ==> exists|j: int|
                0 <= j < fields.len() && j != i && #[trigger] resolve(plan.slots[j], end.slots[j])
                    == Err::<FieldValueView<V>, BuildErrorView>(error)
        }),
{
    let plan = plan_of(target, fields);
    let end = run(fresh::<V>(plan), calls);
    let steps = resolutions(end);
    lemma_fresh_wf::<V>(plan);
    lemma_run_keeps(fresh::<V>(plan), calls);
    lemma_cell_holds_last(plan, calls, i);
    lemma_last_set_none(calls, i);
    lemma_collect_ok(steps);
    if finalize(end) is Err {
        lemma_collect_err(steps, finalize(end)->Err_0);
    }
}

/// A repeated field whose alias is not its own name has both methods: the
/// setter, which takes the whole sequence, and the appender, named by the
/// alias. It never makes `build` fail, and for any calls made on a new
/// builder the built field holds what the calls gathered:
///
/// - after a call of the setter and nothing more on this field, the
///   sequence that the call gave;
/// - where the setter is never called, the values that were appended, as
///   many as the appender was called and in the order of the calls;
/// - after a call of the setter and calls that do not call it again, the
///   sequence that the call gave, followed by the values appended after it
///   in the order of the calls.
pub proof fn law_repeated_field<V>(
    target: Seq<char>,
    fields: Seq<FieldDescriptorView>,
    calls: Seq<Call<V>>,
    i: int,
)
    requires
        0 <= i < fields.len(),
        classification(fields[i]) is Repeated,
        classification(fields[i])->alias != fields[i].name,
    ensures
        ({
            let plan = plan_of(target, fields);
            let end = run(fresh::<V>(plan), calls);
            &&& plan.slots[i].setter == Some(
                MethodView {
                    name: setter_name(fields[i].name),
                    parameter: fields[i].declared_type,
                },
            )
            &&& plan.slots[i].appender == Some(
                MethodView {
                    name: classification(fields[i])->alias,
                    parameter: classification(fields[i])->element,
                },
            )
            &&& resolve(plan.slots[i], end.slots[i]) == Ok::<FieldValueView<V>, BuildErrorView>(
                FieldValueView::Repeated(gathered(calls, i)),
            )
            &&& finalize(end) matches Ok(values) ==> values[i] == FieldValueView::Repeated(
                gathered(calls, i),
            )
        }),
        forall|before: Seq<Call<V>>, items: Seq<V>|
            calls == #[trigger] before.push(Call::SetSequence { slot: i, items }) ==> gathered(
                calls,
                i,
            ) == items,
        never_set_all(calls, i) ==> gathered(calls, i) == appended(calls, i) && gathered(
            calls,
            i,
        ).len() == appends_count(calls, i),
        forall|before: Seq<Call<V>>, items: Seq<V>, after: Seq<Call<V>>|
            calls == #[trigger] (before.push(Call::SetSequence { slot: i, items }) + after)
                && never_set_all(after, i) ==> gathered(calls, i) == items + appended(after, i),
{
    let plan = plan_of(target, fields);
    let end = run(fresh::<V>(plan), calls);
    let steps = resolutions(end);
    lemma_fresh_wf::<V>(plan);
    lemma_run_keeps(fresh::<V>(plan), calls);
    lemma_sequence_holds_gathered(plan, calls, i);
    lemma_collect_ok(steps);
    if never_set_all(calls, i) {
        lemma_gathered_without_setter(calls, i);
        lemma_appended_len(calls, i);
    }
    assert forall|before: Seq<Call<V>>, items: Seq<V>, after: Seq<Call<V>>|
        calls == #[trigger] (before.push(Call::SetSequence { slot: i, items }) + after)
            && never_set_all(after, i) implies gathered(calls, i) == items + appended(
        after,
        i,
    ) by {
        lemma_gathered_after_setter(before, items, after, i);
    }
}

/// A repeated field whose alias is its own name has the appender and no
/// setter: a call of the setter changes nothing, and for any calls made on a
/// new builder the built field holds what was appended, in the order of the
/// calls.
pub proof fn law_repeated_field_named_by_alias<V>(
    target: Seq<char>,
    fields: Seq<FieldDescriptorView>,
    calls: Seq<Call<V>>,
    i: int,
)
    requires
        0 <= i < fields.len(),
        classification(fields[i]) is Repeated,
        classification(fields[i])->alias == fields[i].name,
    ensures
        ({
            let plan = plan_of(target, fields);
            let end = run(fresh::<V>(plan), calls);
            &&& plan.slots[i].setter is None
            &&& plan.slots[i].appender == Some(
                MethodView {
                    name: fields[i].name,
                    parameter: classification(fields[i])->element,
                },
            )
            &&& forall|state: BuilderView<V>, items: Seq<V>|
                state.plan == plan ==> #[trigger] step(state, Call::SetSequence { slot: i, items })
                    == state
            &&& resolve(plan.slots[i], end.slots[i]) == Ok::<FieldValueView<V>, BuildErrorView>(
                FieldValueView::Repeated(appended(calls, i)),
            )
            &&& finalize(end) matches Ok(values) ==> values[i] == FieldValueView::Repeated(
                appended(calls, i),
            )
        }),
{
    let plan = plan_of(target, fields);
    let end = run(fresh::<V>(plan), calls);
    let steps = resolutions(end);
    lemma_fresh_wf::<V>(plan);
    lemma_run_keeps(fresh::<V>(plan), calls);
    lemma_sequence_holds_appended(plan, calls, i);
    lemma_collect_ok(steps);
}

/// A setter overwrites: of two calls of the same setter, one after the
/// other, only the second counts.
pub proof fn law_setter_overwrites<V>(
    state: BuilderView<V>,
    slot: int,
    first: V,
    second: V,
    first_items: Seq<V>,
    second_items: Seq<V>,
)
    ensures
        step(step(state, Call::SetCell { slot, value: first }), Call::SetCell { slot, value: second })
            == step(state, Call::SetCell { slot, value: second }),
        step(
            step(state, Call::SetSequence { slot, items: first_items }),
            Call::SetSequence { slot, items: second_items },
        ) == step(state, Call::SetSequence { slot, items: second_items }),
{
    let once = step(state, Call::SetCell { slot, value: second });
    let twice = step(
        step(state, Call::SetCell { slot, value: first }),
        Call::SetCell { slot, value: second },
    );
    assert(twice.slots =~= once.slots);
    let once_all = step(state, Call::SetSequence { slot, items: second_items });
    let twice_all = step(
        step(state, Call::SetSequence { slot, items: first_items }),
        Call::SetSequence { slot, items: second_items },
    );
    assert(twice_all.slots =~= once_all.slots);
}

/// `build` can be repeated: it reads the state and leaves it as it is, so
/// two results of `build` in one state are equal.
pub proof fn law_build_repeatable<V>(
    state: BuilderView<V>,
    first: Result<Seq<FieldValueView<V>>, BuildErrorView>,
    second: Result<Seq<FieldValueView<V>>, BuildErrorView>,
)
    requires
        first == finalize(state),
        second == finalize(state),
    ensures
        first == second,
{
}

} // verus!
