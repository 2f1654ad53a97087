//! Layer-cache bookkeeping (CR 613).

use vstd::prelude::*;
use crate::types::game_state::GameState;

verus! {

/// CR 611.2: the set of continuous-effect sources changed, so the cached
/// layer results must be rebuilt on the next layer pass.
pub fn mark_layers_full(state: &mut GameState)
    ensures
        final(state)@.objects == old(state)@.objects,
        final(state)@.command_zone == old(state)@.command_zone,
        final(state)@.lki_by_incarnation == old(state)@.lki_by_incarnation,
        final(state)@.layers_dirty,
{
    state.layers_dirty = true;
}

} // verus!
