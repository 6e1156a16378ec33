//! Sending a list of transactions one after another: each goes through the
//! single-transaction path, and the first failure ends the batch.

use vstd::prelude::*;

verus! {

/// What the batch does next.
#[derive(Debug, PartialEq, Eq)]
pub enum BatchStep<E> {
    /// Send the transaction at this position through the single-transaction
    /// path.
    Send { index: usize },
    /// Return this result; no further transaction is sent.
    Finish { result: Result<(), E> },
}

/// The first step of a batch of `total` transactions.
pub open spec fn first_step<E>(total: nat) -> BatchStep<E> {
    if total == 0 {
        BatchStep::Finish { result: Ok(()) }
    } else {
        BatchStep::Send { index: 0 }
    }
}

/// The step that follows the send at position `index`, which ended with
/// `outcome`, in a batch of `total` transactions.
pub open spec fn next_step<E>(total: nat, index: usize, outcome: Result<(), E>) -> BatchStep<E> {
    match outcome {
        Err(error) => BatchStep::Finish { result: Err(error) },
        Ok(_) => if index + 1 < total {
            BatchStep::Send { index: (index + 1) as usize }
        } else {
            BatchStep::Finish { result: Ok(()) }
        },
    }
}

/// Starts a batch of `total` transactions.
pub fn start_batch<E>(total: usize) -> (step: BatchStep<E>)
    ensures
        step == first_step::<E>(total as nat),
{
    if total == 0 {
        BatchStep::Finish { result: Ok(()) }
    } else {
        BatchStep::Send { index: 0 }
    }
}

/// Decides what follows the send at position `index`, which ended with
/// `outcome`, in a batch of `total` transactions.
pub fn after_send<E>(total: usize, index: usize, outcome: Result<(), E>) -> (step: BatchStep<E>)
    ensures
        step == next_step(total as nat, index, outcome),
{
    match outcome {
        Err(error) => BatchStep::Finish { result: Err(error) },
        Ok(_) => {
            if total > 0 && index < total - 1 {
                BatchStep::Send { index: index + 1 }
            } else {
                BatchStep::Finish { result: Ok(()) }
            }
        },
    }
}

/// How a batch went: how many transactions went through the
/// single-transaction path, and what the batch returned.
pub struct BatchRun<E> {
    pub sends: nat,
    pub result: Result<(), E>,
}

/// How far `step` is from the end of a batch of `total` transactions.
pub open spec fn steps_left<E>(total: nat, step: BatchStep<E>) -> nat {
    match step {
        BatchStep::Finish { result } => 0,
        BatchStep::Send { index } => if index < total {
            (total - index + 1) as nat
        } else {
            1
        },
    }
}

/// The batch from `step` on, where `outcomes[i]` is how the send at
/// position `i` ends if it is made, and `sends` transactions were sent
/// before `step`. It is meant for lists that a machine can hold and for
/// positions inside them.
pub open spec fn run_from<E>(step: BatchStep<E>, outcomes: Seq<Result<(), E>>, sends: nat)
    -> BatchRun<E>
    decreases steps_left(outcomes.len(), step),
{
    match step {
        BatchStep::Finish { result } => BatchRun { sends, result },
        BatchStep::Send { index } => if index < outcomes.len() <= usize::MAX {
            run_from(next_step(outcomes.len(), index, outcomes[index as int]), outcomes, sends + 1)
        } else {
            BatchRun { sends, result: Ok(()) }
        },
    }
}

/// A whole batch, where `outcomes[i]` is how the send of transaction `i`
/// ends if it is made.
pub open spec fn run_batch<E>(outcomes: Seq<Result<(), E>>) -> BatchRun<E> {
    run_from(first_step(outcomes.len()), outcomes, 0)
}

proof fn lemma_run_to_first_failure<E>(outcomes: Seq<Result<(), E>>, k: int, i: int)
    requires
        outcomes.len() <= usize::MAX,
        0 <= i <= k < outcomes.len(),
        outcomes[k] is Err,
        forall|j: int| 0 <= j < k ==> (#[trigger] outcomes[j]) is Ok,
    ensures
        run_from(BatchStep::Send { index: i as usize }, outcomes, i as nat) == (BatchRun {
            sends: (k + 1) as nat,
            result: outcomes[k],
        }),
    decreases k - i,
{
    let step = next_step(outcomes.len(), i as usize, outcomes[i]);
    assert(run_from(BatchStep::Send { index: i as usize }, outcomes, i as nat) == run_from(
        step,
        outcomes,
        (i + 1) as nat,
    ));
    if i < k {
        assert(outcomes[i] is Ok);
        assert(step == BatchStep::<E>::Send { index: (i + 1) as usize });
        lemma_run_to_first_failure(outcomes, k, i + 1);
    } else {
        assert(step == BatchStep::Finish { result: outcomes[k] });
    }
}

proof fn lemma_run_to_end<E>(outcomes: Seq<Result<(), E>>, i: int)
    requires
        outcomes.len() <= usize::MAX,
        0 <= i < outcomes.len(),
        forall|j: int| 0 <= j < outcomes.len() ==> (#[trigger] outcomes[j]) is Ok,
    ensures
        run_from(BatchStep::Send { index: i as usize }, outcomes, i as nat) == (BatchRun {
            sends: outcomes.len(),
            result: Ok::<(), E>(()),
        }),
    decreases outcomes.len() - i,
{
    let step = next_step(outcomes.len(), i as usize, outcomes[i]);
    assert(run_from(BatchStep::Send { index: i as usize }, outcomes, i as nat) == run_from(
        step,
        outcomes,
        (i + 1) as nat,
    ));
    assert(outcomes[i] is Ok);
    if i + 1 < outcomes.len() {
        assert(step == BatchStep::<E>::Send { index: (i + 1) as usize });
        lemma_run_to_end(outcomes, i + 1);
    } else {
        assert(step == BatchStep::<E>::Finish { result: Ok(()) });
    }
}

/// The batch stops at the first failure: where the send at position `k` is
/// the first to fail, exactly the transactions at positions `0` to `k` are
/// sent, `k + 1` in all, and the batch returns the error of that send.
pub proof fn lemma_batch_stops_at_first_failure<E>(outcomes: Seq<Result<(), E>>, k: int)
    requires
        outcomes.len() <= usize::MAX,
        0 <= k < outcomes.len(),
        outcomes[k] is Err,
        forall|j: int| 0 <= j < k ==> (#[trigger] outcomes[j]) is Ok,
    ensures
        run_batch(outcomes).sends == k + 1,
        run_batch(outcomes).result == outcomes[k],
{
    lemma_run_to_first_failure(outcomes, k, 0);
}

/// Where no send fails, every transaction is sent and the batch succeeds; an
/// empty batch succeeds without sending anything.
pub proof fn lemma_batch_without_failure_sends_all<E>(outcomes: Seq<Result<(), E>>)
    requires
        outcomes.len() <= usize::MAX,
        forall|j: int| 0 <= j < outcomes.len() ==> (#[trigger] outcomes[j]) is Ok,
    ensures
        run_batch(outcomes).sends == outcomes.len(),
        run_batch(outcomes).result == Ok::<(), E>(()),
{
    if outcomes.len() > 0 {
        lemma_run_to_end(outcomes, 0);
    }
}

} // verus!
