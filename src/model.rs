//! The mathematical model of a pool: a capacity and a counter of taken slots.
use vstd::prelude::*;

verus! {

/// The abstract state of a pool.
///
/// `active` is an integer: the model keeps its meaning even for a sequence of
/// operations that gives back slots before they were taken.
pub struct GateState {
    pub capacity: nat,
    pub active: int,
}

/// A slot is free exactly when fewer slots are taken than the capacity allows.
pub open spec fn admits(s: GateState) -> bool {
    s.active < s.capacity
}

/// The state after one slot is taken.
pub open spec fn after_admit(s: GateState) -> GateState {
    GateState { capacity: s.capacity, active: s.active + 1 }
}

/// The state after one slot is given back.
pub open spec fn after_release(s: GateState) -> GateState {
    GateState { capacity: s.capacity, active: s.active - 1 }
}

/// The state after one operation: `true` takes a slot, `false` gives one back.
pub open spec fn after_op(s: GateState, take: bool) -> GateState {
    if take {
        after_admit(s)
    } else {
        after_release(s)
    }
}

/// The state after a sequence of operations, applied from first to last.
pub open spec fn replay(s: GateState, ops: Seq<bool>) -> GateState
    decreases ops.len(),
{
    if ops.len() == 0 {
        s
    } else {
        replay(after_op(s, ops[0]), ops.drop_first())
    }
}

/// How many operations of a sequence take a slot.
pub open spec fn count_admits(ops: Seq<bool>) -> nat
    decreases ops.len(),
{
    if ops.len() == 0 {
        0
    } else {
        (if ops[0] { 1nat } else { 0nat }) + count_admits(ops.drop_first())
    }
}

/// How many operations of a sequence give a slot back.
pub open spec fn count_releases(ops: Seq<bool>) -> nat
    decreases ops.len(),
{
    if ops.len() == 0 {
        0
    } else {
        (if ops[0] { 0nat } else { 1nat }) + count_releases(ops.drop_first())
    }
}

/// Replaying any sequence of operations leaves the capacity as it was and moves
/// the counter by the number of slots taken minus the number given back,
/// whatever the order in which they come.
pub proof fn lemma_replay_counts(s: GateState, ops: Seq<bool>)
    ensures
        replay(s, ops).capacity == s.capacity,
        replay(s, ops).active == s.active + count_admits(ops) - count_releases(ops),
    decreases ops.len(),
{
    if ops.len() > 0 {
        lemma_replay_counts(after_op(s, ops[0]), ops.drop_first());
    }
}

/// From a fresh pool, `k` admissions and `j` releases with `j <= k`, in any
/// order, leave exactly `k - j` slots taken.
pub proof fn lemma_admits_minus_releases(capacity: nat, ops: Seq<bool>)
    requires
        count_releases(ops) <= count_admits(ops),
    ensures
        replay(GateState { capacity, active: 0 }, ops).active == count_admits(ops) - count_releases(
            ops,
        ),
        replay(GateState { capacity, active: 0 }, ops).active >= 0,
{
    lemma_replay_counts(GateState { capacity, active: 0 }, ops);
}

} // verus!
