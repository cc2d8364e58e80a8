//! The outcome of a list of steps of which the first failure decides.

use vstd::prelude::*;

verus! {

/// The position of the first failure in a list of outcomes that holds one.
pub open spec fn first_failure<T, E>(outcomes: Seq<Result<T, E>>) -> int {
    choose|i: int|
        0 <= i < outcomes.len() && outcomes[i] is Err && forall|j: int|
            0 <= j < i ==> outcomes[j] is Ok
}

/// All the values in order where every step succeeded, else the error of
/// the first step that failed.
pub open spec fn all_or_first_failure<T, E>(outcomes: Seq<Result<T, E>>) -> Result<Seq<T>, E> {
    if forall|i: int| 0 <= i < outcomes.len() ==> outcomes[i] is Ok {
        Ok(outcomes.map_values(|outcome: Result<T, E>| outcome->Ok_0))
    } else {
        Err(outcomes[first_failure(outcomes)]->Err_0)
    }
}

/// A failure with nothing but successes before it is the one that decides.
pub proof fn lemma_first_failure_decides<T, E>(outcomes: Seq<Result<T, E>>, at: int)
    requires
        0 <= at < outcomes.len(),
        outcomes[at] is Err,
        forall|j: int| 0 <= j < at ==> outcomes[j] is Ok,
    ensures
        all_or_first_failure(outcomes) == Err::<Seq<T>, E>(outcomes[at]->Err_0),
{
    let first = first_failure(outcomes);
    assert(first == at);
}

/// Where every step succeeds there are as many values as steps, each the
/// value of its step.
pub proof fn lemma_all_succeed<T, E>(outcomes: Seq<Result<T, E>>, values: Seq<T>)
    requires
        values.len() == outcomes.len(),
        forall|i: int| 0 <= i < outcomes.len() ==> outcomes[i] == Ok::<T, E>(values[i]),
    ensures
        all_or_first_failure(outcomes) == Ok::<Seq<T>, E>(values),
{
    assert(outcomes.map_values(|outcome: Result<T, E>| outcome->Ok_0) =~= values);
}

} // verus!
