//! What holds of the round-robin rotation, whoever claims its slots and in
//! whatever order.

use vstd::prelude::*;
use vstd::set_lib::{lemma_int_range, lemma_len_subset, set_int_range};
use crate::dispatcher_core::{agent_at_slot, Agent};

verus! {

/// How many of the claimed `slots` fall to `agent`.
pub open spec fn turns_of(agent: Agent, slots: Seq<nat>) -> nat
    decreases slots.len(),
{
    if slots.len() == 0 {
        0
    } else {
        turns_of(agent, slots.drop_last()) + (if agent_at_slot(slots.last()) == agent {
            1nat
        } else {
            0nat
        })
    }
}

/// The claims `slots`, in the order in which the callers came, took each of
/// the first `slots.len()` slots of the rotation exactly once.
pub open spec fn claims_each_slot_once(slots: Seq<nat>) -> bool {
    &&& forall|i: int| 0 <= i < slots.len() ==> #[trigger] slots[i] < slots.len()
    &&& forall|i: int, j: int|
        0 <= i < slots.len() && 0 <= j < slots.len() && i != j ==> #[trigger] slots[i]
            != #[trigger] slots[j]
}

/// The rotation begins with Copilot and changes agent at every slot.
pub proof fn lemma_rotation_alternates(slot: nat)
    ensures
        agent_at_slot(0) == Agent::Copilot,
        agent_at_slot(slot + 1) != agent_at_slot(slot),
        agent_at_slot(slot + 2) == agent_at_slot(slot),
{
}

/// Taking one claim out of `slots` takes one turn from the agent of that
/// slot and none from the other.
proof fn lemma_turns_without(agent: Agent, slots: Seq<nat>, at: int)
    requires
        0 <= at < slots.len(),
    ensures
        turns_of(agent, slots) == turns_of(agent, slots.remove(at)) + (if agent_at_slot(slots[at])
            == agent {
            1nat
        } else {
            0nat
        }),
    decreases slots.len(),
{
    if at < slots.len() - 1 {
        lemma_turns_without(agent, slots.drop_last(), at);
        assert(slots.remove(at).drop_last() =~= slots.drop_last().remove(at));
    }
}

/// Claims that took each of the first slots once took the last of them too.
proof fn lemma_last_slot_is_claimed(slots: Seq<nat>) -> (at: int)
    requires
        slots.len() > 0,
        claims_each_slot_once(slots),
    ensures
        0 <= at < slots.len(),
        slots[at] == slots.len() - 1,
{
    let n = slots.len() as int;
    let claimed = slots.map_values(|slot: nat| slot as int);
    assert(claimed.no_duplicates());
    claimed.unique_seq_to_set();
    if !claimed.to_set().contains(n - 1) {
        // then n claims would fit into the n - 1 slots before the last
        assert(claimed.to_set().subset_of(set_int_range(0, n - 1)));
        lemma_int_range(0, n - 1);
        lemma_len_subset(claimed.to_set(), set_int_range(0, n - 1));
    }
    let at = choose|i: int| 0 <= i < claimed.len() && claimed[i] == n - 1;
    at
}

/// However the callers came, once each of the first `slots.len()` slots has
/// been claimed exactly once, the work is shared evenly: Copilot has every
/// even slot, Jules every odd one, so Copilot has the one more where the
/// number is odd.
pub proof fn lemma_rotation_is_balanced(slots: Seq<nat>)
    requires
        claims_each_slot_once(slots),
    ensures
        turns_of(Agent::Copilot, slots) == (slots.len() + 1) / 2,
        turns_of(Agent::Jules, slots) == slots.len() / 2,
    decreases slots.len(),
{
    if slots.len() > 0 {
        let at = lemma_last_slot_is_claimed(slots);
        let rest = slots.remove(at);
        assert(claims_each_slot_once(rest));
        lemma_rotation_is_balanced(rest);
        lemma_turns_without(Agent::Copilot, slots, at);
        lemma_turns_without(Agent::Jules, slots, at);
    }
}

/// The claims of `calls` callers who came one after the other to a fresh
/// rotation: the first has slot 0, the next slot 1, and so on.
pub open spec fn claims_in_order(calls: nat) -> Seq<nat> {
    Seq::new(calls, |call: int| call as nat)
}

/// Claims made one after the other on a fresh rotation take each slot once,
/// and their agents alternate from Copilot on.
pub proof fn lemma_sequential_claims_alternate(calls: nat)
    ensures
        claims_each_slot_once(claims_in_order(calls)),
        forall|call: int|
            0 <= call < calls ==> agent_at_slot(#[trigger] claims_in_order(calls)[call]) == (if call
                % 2 == 0 {
                Agent::Copilot
            } else {
                Agent::Jules
            }),
{
}

} // verus!
