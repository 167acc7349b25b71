//! The inbound "start combat" control signal.

use crate::components::markers::CombatState;
use crate::events::CombatStartEvent;
use vstd::prelude::*;

verus! {

/// Effect of the start pass on the combat flags: any pending signal
/// clears the game-over flag and marks the dungeon as entered; without
/// signals nothing changes.
pub open spec fn combat_start_rel(
    c1: CombatState,
    c2: CombatState,
    events: Seq<CombatStartEvent>,
) -> bool {
    &&& (events.len() == 0 ==> c2 == c1)
    &&& (events.len() > 0 ==> !c2.is_game_over && c2.in_dungeon)
}

/// Handle all pending start signals: each one clears the game-over flag
/// and marks the dungeon as entered. Without signals nothing changes.
pub fn combat_start_system(events: &Vec<CombatStartEvent>, combat_state: &mut CombatState)
    ensures
        combat_start_rel(*old(combat_state), *final(combat_state), events@),
{
    let n = events.len();
    let mut i: usize = 0;
    while i < n
        invariant
            i <= n,
            n == events@.len(),
            i == 0 ==> (*combat_state == *old(combat_state)),
            i > 0 ==> !combat_state.is_game_over && combat_state.in_dungeon,
        decreases n - i,
    {
        combat_state.is_game_over = false;
        combat_state.in_dungeon = true;
        i = i + 1;
    }
}

} // verus!
