//! The recovery logic of the persistence layer: replaying a logged run of
//! state changes over a snapshot, and the bootstrap sequence used when no
//! snapshot exists. The database itself (an append-only log of state
//! changes, events and snapshots) lives outside the library; what it hands
//! back is replayed here.

use vstd::prelude::*;

use crate::chain::{spec_transition, transition};
use crate::state::{ChainState, ChainStateV, SNAPSHOT_STATE_CHANGE_COUNT};
use crate::state_change::StateChange;

verus! {

broadcast use vstd::std_specs::vec::axiom_spec_len;

/// The state a run of state changes ends in, applied in order and with
/// every emitted event discarded.
pub open spec fn spec_replay(cs: ChainStateV, changes: Seq<StateChange>) -> ChainStateV
    decreases changes.len(),
{
    if changes.len() == 0 {
        cs
    } else {
        spec_replay(spec_transition(cs, changes[0]).0, changes.drop_first())
    }
}

/// Replays a run of state changes over a state, discarding events; this is
/// the whole of crash recovery once the snapshot is loaded.
pub fn replay(state: ChainState, changes: Vec<StateChange>) -> (r: ChainState)
    ensures
        r@ == spec_replay(state@, changes@),
{
    let ghost s0 = state@;
    let ghost c0 = changes@;
    let mut state = state;
    let mut rem = changes;
    while rem.len() > 0
        invariant
            spec_replay(s0, c0) == spec_replay(state@, rem@),
        decreases rem@.len(),
    {
        let ghost remv = rem@;
        let sc = rem.remove(0);
        proof {
            assert(sc == remv[0]);
            assert(rem@ =~= remv.drop_first());
        }
        let result = transition(state, sc);
        state = result.new_state;
    }
    state
}

/// Whether a snapshot is due: one is taken every
/// [`SNAPSHOT_STATE_CHANGE_COUNT`] committed state changes.
pub fn snapshot_due(state_changes_committed: u64) -> (r: bool)
    ensures
        r == (state_changes_committed % SNAPSHOT_STATE_CHANGE_COUNT == 0
            && state_changes_committed > 0),
{
    state_changes_committed > 0 && state_changes_committed % SNAPSHOT_STATE_CHANGE_COUNT == 0
}

} // verus!
