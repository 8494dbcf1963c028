//! The locking discipline around the shared state, as a model.
//!
//! Requests are served in parallel, and all of them use one pair of queues.
//! A request takes the state, makes its operations, and gives the state
//! back; it gets hold of the state only while no other request has it. The
//! handlers take the state by `&mut`, so the caller has to own this right
//! when it calls one. This module says what the discipline buys: between
//! one request's taking and giving back, every operation is its own.

use vstd::prelude::*;
use crate::state::Effect;

verus! {

/// What a request does with the shared state.
pub enum Step {
    /// It takes the state for itself.
    Acquire,
    /// It makes one operation on the queues.
    Operate(Effect),
    /// It gives the state back.
    Release,
}

/// One step of one request. A schedule is a sequence of turns, in the order
/// in which the process made them.
pub struct Turn {
    pub request: nat,
    pub step: Step,
}

/// The request that has the state after `schedule`, if any has.
pub open spec fn holder(schedule: Seq<Turn>) -> Option<nat>
    decreases schedule.len(),
{
    if schedule.len() == 0 {
        None
    } else {
        let turn = schedule.last();
        match turn.step {
            Step::Acquire => Some(turn.request),
            Step::Operate(_) => holder(schedule.drop_last()),
            Step::Release => None,
        }
    }
}

/// The turn at `i` keeps the discipline: a request takes the state only
/// when nobody has it, and operates on the queues or gives the state back
/// only while it has it.
pub open spec fn permitted(schedule: Seq<Turn>, i: int) -> bool {
    let before = holder(schedule.take(i));
    match schedule[i].step {
        Step::Acquire => before is None,
        Step::Operate(_) => before == Some(schedule[i].request),
        Step::Release => before == Some(schedule[i].request),
    }
}

/// Every turn of `schedule` keeps the discipline.
pub open spec fn exclusive(schedule: Seq<Turn>) -> bool {
    forall|i: int| 0 <= i < schedule.len() ==> #[trigger] permitted(schedule, i)
}

/// The request at turn `i` took the state there and has not given it back
/// up to turn `k`.
pub open spec fn holds_throughout(schedule: Seq<Turn>, i: int, k: int) -> bool {
    &&& 0 <= i <= k < schedule.len()
    &&& schedule[i].step is Acquire
    &&& forall|j: int|
        i < j <= k ==> !(#[trigger] schedule[j].step is Release && schedule[j].request
            == schedule[i].request)
}

/// Under the discipline, requests do not interleave on the queues: while a
/// request has the state, from the turn at which it took it up to any turn
/// before it gives it back, every turn is its own. No other request sends
/// a command, awaits an answer or takes the state in between.
pub proof fn lemma_requests_do_not_interleave(schedule: Seq<Turn>, i: int, k: int)
    requires
        exclusive(schedule),
        holds_throughout(schedule, i, k),
    ensures
        holder(schedule.take(k + 1)) == Some(schedule[i].request),
        forall|j: int| i <= j <= k ==> (#[trigger] schedule[j]).request == schedule[i].request,
        forall|j: int| i < j <= k ==> (#[trigger] schedule[j]).step is Operate,
    decreases k - i,
{
    assert(schedule.take(k + 1).last() == schedule[k]);
    if k > i {
        lemma_requests_do_not_interleave(schedule, i, k - 1);
        assert(permitted(schedule, k));
        assert(schedule.take(k + 1).drop_last() =~= schedule.take(k));
        assert(schedule[k].step is Release ==> schedule[k].request == schedule[i].request);
    }
}

} // verus!
