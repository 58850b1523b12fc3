//! Carried-forward resolver state, the submission intent value, and the
//! game-start detector.
//!
//! `ResolverState` is the only mutable state of the engine. It is owned by
//! the driving loop and threaded by value through the resolver: nothing
//! here is shared or aliased.

use vstd::prelude::*;
use crate::facts::Phase;

verus! {

/// The engine's carried-forward state.
///
/// Created once with everything zero/false. The ban and pick cursors point
/// into the respective preference lists while a fallback scan is under way
/// and are reset to zero when a turn is resolved or exhausted, so each new
/// draft turn restarts scanning from the top of its list. `in_game` is
/// terminal: once set, no further resolution occurs.
#[derive(Clone, Copy, Debug, PartialEq, Eq, Structural)]
pub struct ResolverState {
    pub ban_cursor: usize,
    pub pick_cursor: usize,
    pub is_banning: bool,
    pub is_picking: bool,
    pub have_prepicked: bool,
    pub in_game: bool,
}

impl ResolverState {
    /// The state at engine start: cursors at zero, all flags clear.
    pub open spec fn initial() -> ResolverState {
        ResolverState {
            ban_cursor: 0,
            pick_cursor: 0,
            is_banning: false,
            is_picking: false,
            have_prepicked: false,
            in_game: false,
        }
    }

    /// Builds the initial state.
    pub fn new() -> (r: ResolverState)
        ensures
            r == ResolverState::initial(),
    {
        ResolverState {
            ban_cursor: 0,
            pick_cursor: 0,
            is_banning: false,
            is_picking: false,
            have_prepicked: false,
            in_game: false,
        }
    }
}

/// The single side-effecting instruction the engine hands to the external
/// transport: update action `action_id` with `champion_id`, completed or
/// tentative. Absence of an intent means "do nothing this cycle".
#[derive(Clone, Copy, Debug, PartialEq, Eq, Structural)]
pub struct SubmissionIntent {
    pub action_id: i64,
    pub champion_id: u32,
    pub completed: bool,
}

/// The state adjustment made when a new snapshot arrives, before any
/// resolution: `have_prepicked` persists only across consecutive
/// `Planning` snapshots and resets as soon as a snapshot reports any
/// other phase, so a later return to planning pre-picks again.
pub open spec fn begin_snapshot_spec(state: ResolverState, phase: Phase) -> ResolverState {
    ResolverState { have_prepicked: phase is Planning && state.have_prepicked, ..state }
}

/// Applies the new-snapshot adjustment. Never sets `have_prepicked`:
/// the flag can only become true through a successful pre-pick.
pub fn begin_snapshot(state: &ResolverState, phase: Phase) -> (r: ResolverState)
    ensures
        r == begin_snapshot_spec(*state, phase),
        r.have_prepicked ==> state.have_prepicked,
{
    let keep = match phase {
        Phase::Planning => state.have_prepicked,
        _ => false,
    };
    ResolverState { have_prepicked: keep, ..*state }
}

/// The match has started exactly when live telemetry reports a positive
/// elapsed in-game time (supplied here in milliseconds).
pub fn game_started(elapsed_millis: u64) -> (r: bool)
    ensures
        r == (elapsed_millis > 0),
{
    elapsed_millis > 0
}

/// Records one game-start observation. `in_game` is edge-triggered and
/// terminal: it becomes true the first time `started` is reported true
/// and never clears afterwards; nothing else changes.
pub fn note_game_start(state: &ResolverState, started: bool) -> (r: ResolverState)
    ensures
        r == (ResolverState { in_game: state.in_game || started, ..*state }),
        state.in_game ==> r.in_game,
{
    ResolverState { in_game: state.in_game || started, ..*state }
}

} // verus!
