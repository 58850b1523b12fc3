//! Raw draft-session snapshot, as delivered by the game client.
//!
//! The transport layer turns one push event into a `Snapshot` of plain
//! values, carrying `None` for every field the event did not supply; the
//! interpreter in `facts` is the single place that fills in defaults.

use vstd::prelude::*;

verus! {

/// One actionable slot of the draft sequence, exactly as reported:
/// the `kind` is still the client's string (`"ban"`, `"pick"`, ...).
pub struct RawAction {
    pub id: i64,
    pub actor_cell_id: i64,
    pub kind: String,
    pub champion_id: u32,
    pub completed: bool,
    pub in_progress: bool,
}

/// One entry of the local team roster.
pub struct TeamMember {
    pub cell_id: i64,
    pub assigned_position: String,
}

/// One draft-session snapshot. Every field is optional: the interpreter
/// degrades missing fields to defaults instead of failing.
pub struct Snapshot {
    /// The draft phase string from the session timer (`"PLANNING"`,
    /// `"BAN_PICK"`, `"FINALIZATION"`, ...).
    pub phase: Option<String>,
    /// The seat identifier of the local player.
    pub local_player_cell_id: Option<i64>,
    /// The local team roster.
    pub my_team: Option<Vec<TeamMember>>,
    /// The nested action-turn structure: a sequence of groups of
    /// simultaneous actions.
    pub actions: Option<Vec<Vec<RawAction>>>,
}

} // verus!
