//! The engine step: what the driving loop decides on one inbound event.
//!
//! The loop itself performs the I/O — receiving events, submitting
//! intents, polling live telemetry — and lives outside the library; every
//! decision it takes comes from the functions here and in `resolve`.

use vstd::prelude::*;
use crate::facts::interpret;
use crate::facts::Phase;
use crate::facts::snapshot_banned;
use crate::facts::snapshot_current;
use crate::facts::snapshot_phase;
use crate::prefs::PreferenceList;
use crate::resolve::resolve;
use crate::resolve::resolve_spec;
use crate::snapshot::Snapshot;
use crate::state::begin_snapshot;
use crate::state::begin_snapshot_spec;
use crate::state::ResolverState;
use crate::state::SubmissionIntent;
use crate::table::ChampionTable;

verus! {

/// The topics of the push-event channel that the engine reacts to; every
/// other event is ignored.
#[derive(Clone, Copy, Debug, PartialEq, Eq, Structural)]
pub enum Topic {
    ReadyCheck,
    DraftSession,
    Other,
}

/// Which known topic an event's resource path denotes.
pub open spec fn topic_of(uri: Seq<char>) -> Topic {
    if uri == "/lol-matchmaking/v1/ready-check"@ {
        Topic::ReadyCheck
    } else if uri == "/lol-champ-select/v1/session"@ {
        Topic::DraftSession
    } else {
        Topic::Other
    }
}

/// Classifies an event's resource path.
pub fn classify_topic(uri: &String) -> (t: Topic)
    ensures
        t == topic_of(uri@),
{
    let ready: String = String::from_str("/lol-matchmaking/v1/ready-check");
    let draft: String = String::from_str("/lol-champ-select/v1/session");
    if *uri == ready {
        Topic::ReadyCheck
    } else if *uri == draft {
        Topic::DraftSession
    } else {
        Topic::Other
    }
}

/// The ready-check rule: accept exactly when the check is in progress
/// and the local player has not answered yet. Stateless; no retry
/// bookkeeping.
pub open spec fn ready_check_accepts(check_state: Seq<char>, response: Seq<char>) -> bool {
    check_state == "InProgress"@ && response == "None"@
}

/// Decides whether to acknowledge a ready-check event.
pub fn ready_check_should_accept(check_state: &String, response: &String) -> (r: bool)
    ensures
        r == ready_check_accepts(check_state@, response@),
{
    let in_progress: String = String::from_str("InProgress");
    let unanswered: String = String::from_str("None");
    *check_state == in_progress && *response == unanswered
}

/// Live telemetry is polled only during finalization, and only until the
/// game is known to have started.
pub open spec fn wants_game_poll(phase: Phase, state: ResolverState) -> bool {
    phase is Finalization && !state.in_game
}

/// Decides whether this cycle should poll the live-game telemetry.
pub fn should_poll_game_start(phase: Phase, state: &ResolverState) -> (r: bool)
    ensures
        r == wants_game_poll(phase, *state),
{
    let finalization = match phase {
        Phase::Finalization => true,
        _ => false,
    };
    finalization && !state.in_game
}

/// One engine step over a draft-session snapshot: interpret it, adjust
/// the carried state for the new snapshot, and resolve. A snapshot that
/// does not even name the local player's cell id cannot identify the
/// local actor and is skipped whole, leaving the state untouched.
pub open spec fn handle_snapshot_spec(
    s: Snapshot,
    state: ResolverState,
    bans: Seq<Seq<char>>,
    picks: Seq<Seq<char>>,
    table: Seq<(Seq<char>, u32)>,
    outcomes: Seq<bool>,
) -> (Option<SubmissionIntent>, ResolverState) {
    if s.local_player_cell_id is None {
        (None, state)
    } else {
        resolve_spec(
            snapshot_phase(s),
            snapshot_current(s),
            snapshot_banned(s),
            begin_snapshot_spec(state, snapshot_phase(s)),
            bans,
            picks,
            table,
            outcomes,
        )
    }
}

/// Processes one draft-session snapshot; see `handle_snapshot_spec`.
///
/// As in `resolve`, `outcomes[k]` supplies the result of the `k`-th
/// submission attempt the resolution makes.
pub fn handle_snapshot(
    s: &Snapshot,
    state: &ResolverState,
    bans: &PreferenceList,
    picks: &PreferenceList,
    table: &ChampionTable,
    outcomes: &Vec<bool>,
) -> (r: (Option<SubmissionIntent>, ResolverState))
    requires
        outcomes@.len() >= bans@.len(),
        outcomes@.len() >= picks@.len(),
        outcomes@.len() >= 1,
    ensures
        r == handle_snapshot_spec(*s, *state, bans@, picks@, table@, outcomes@),
{
    match &s.local_player_cell_id {
        None => {
            return (None, *state);
        },
        Some(_) => {},
    }
    let facts = interpret(s);
    let adjusted = begin_snapshot(state, facts.phase);
    resolve(&facts, &adjusted, bans, picks, table, outcomes)
}

} // verus!
