//! Mathematical models that the contracts share: the views of collections, of
//! optional values and of results, and the outcome of a run of steps that
//! stops at the first failure.

use vstd::prelude::*;

verus! {

/// The views of the items of a sequence, in order.
pub open spec fn views<T: View>(items: Seq<T>) -> Seq<T::V> {
    Seq::new(items.len(), |i: int| items[i]@)
}

/// The view of an optional value.
pub open spec fn some_view<T: View>(value: Option<T>) -> Option<T::V> {
    match value {
        Some(v) => Some(v@),
        None => None,
    }
}

/// The text of an optional reference to a string.
pub open spec fn text_view(text: Option<&String>) -> Option<Seq<char>> {
    match text {
        Some(t) => Some(t@),
        None => None,
    }
}

/// The view of a result whose error is a plain value.
pub open spec fn ok_view<T: View, E>(result: Result<T, E>) -> Result<T::V, E> {
    match result {
        Ok(v) => Ok(v@),
        Err(e) => Err(e),
    }
}

/// The view of a result that holds a vector.
pub open spec fn ok_views<T: View, E>(result: Result<Vec<T>, E>) -> Result<Seq<T::V>, E> {
    match result {
        Ok(items) => Ok(views(items@)),
        Err(e) => Err(e),
    }
}

/// The view of a result that holds an optional value.
pub open spec fn ok_some_view<T: View, E>(result: Result<Option<T>, E>) -> Result<Option<T::V>, E> {
    match result {
        Ok(value) => Ok(some_view(value)),
        Err(e) => Err(e),
    }
}

/// The outcome of a run of steps that stops at the first failure: the
/// values of all steps if none fails, else the error of the first that does.
pub open spec fn collect<T, E>(steps: Seq<Result<T, E>>) -> Result<Seq<T>, E>
    decreases steps.len(),
{
    if steps.len() == 0 {
        Ok(Seq::empty())
    } else {
        match collect(steps.drop_last()) {
            Err(e) => Err(e),
            Ok(values) => match steps.last() {
                Err(e) => Err(e),
                Ok(v) => Ok(values.push(v)),
            },
        }
    }
}

/// A run succeeds exactly if every step does, and then holds the value of
/// each step at the step's place.
pub proof fn lemma_collect_ok<T, E>(steps: Seq<Result<T, E>>)
    ensures
        collect(steps) is Ok <==> forall|i: int| 0 <= i < steps.len() ==> steps[i] is Ok,
        collect(steps) matches Ok(values) ==> values.len() == steps.len() && forall|i: int|
            0 <= i < steps.len() ==> steps[i] == Ok::<T, E>(#[trigger] values[i]),
    decreases steps.len(),
{
    if steps.len() > 0 {
        let front = steps.drop_last();
        lemma_collect_ok(front);
        assert(forall|i: int| 0 <= i < front.len() ==> front[i] == steps[i]);
    }
}

/// A run fails with `error` exactly if some step fails with it and every
/// step before that one succeeds.
pub proof fn lemma_collect_err<T, E>(steps: Seq<Result<T, E>>, error: E)
    ensures
        collect(steps) == Err::<Seq<T>, E>(error) <==> exists|i: int|
            0 <= i < steps.len() && #[trigger] steps[i] == Err::<T, E>(error) && forall|j: int|
                0 <= j < i ==> steps[j] is Ok,
    decreases steps.len(),
{
    if steps.len() > 0 {
        let front = steps.drop_last();
        lemma_collect_err(front, error);
        lemma_collect_ok(front);
        assert(forall|i: int| 0 <= i < front.len() ==> front[i] == steps[i]);
    }
}

} // verus!
