//! Properties of the resolver, stated and proved once for all inputs.

use vstd::prelude::*;
use crate::facts::Action;
use crate::facts::Phase;
use crate::resolve::apply_outcome_spec;
use crate::resolve::ban_candidate;
use crate::resolve::first_from;
use crate::resolve::is_ban_turn;
use crate::resolve::is_pick_turn;
use crate::resolve::is_prepick_chance;
use crate::resolve::next_attempt_spec;
use crate::resolve::pick_candidate;
use crate::resolve::resolve_spec;
use crate::resolve::turn_scan;
use crate::state::ResolverState;
use crate::state::SubmissionIntent;

verus! {

/// Every name a scan passes over is unavailable, and the name it stops
/// on is available: an unavailable name is skipped, never chosen, and
/// skipping it moves the scan position past it.
pub proof fn lemma_first_from_props(
    list: Seq<Seq<char>>,
    from: int,
    avail: spec_fn(Seq<char>) -> Option<u32>,
)
    requires
        0 <= from,
    ensures
        (first_from(list, from, avail) matches Some(p) ==> {
            &&& from <= p.0 < list.len()
            &&& avail(list[p.0]) == Some(p.1)
            &&& forall|j: int| from <= j < p.0 ==> avail(list[j]) is None
        }),
        (first_from(list, from, avail) is None ==> forall|j: int|
            from <= j < list.len() ==> avail(list[j]) is None),
    decreases list.len() - from,
{
    if from >= list.len() {
    } else {
        if avail(list[from]) is None {
            lemma_first_from_props(list, from + 1, avail);
        }
    }
}

/// A whole-turn scan that settles on a candidate settled on an available
/// one: the resolver never emits an intent for a name that is absent
/// from the table or (for picks) already banned.
pub proof fn lemma_turn_scan_emits_available(
    list: Seq<Seq<char>>,
    from: int,
    avail: spec_fn(Seq<char>) -> Option<u32>,
    outcomes: Seq<bool>,
    k: int,
)
    requires
        0 <= from,
    ensures
        turn_scan(list, from, avail, outcomes, k) matches Some(p) ==> {
            &&& from <= p.0 < list.len()
            &&& avail(list[p.0]) == Some(p.1)
        },
    decreases list.len() - from,
{
    if from >= list.len() {
    } else {
        if avail(list[from]) is None {
            lemma_turn_scan_emits_available(list, from + 1, avail, outcomes, k);
        } else if !outcomes[k] {
            lemma_turn_scan_emits_available(list, from + 1, avail, outcomes, k + 1);
        }
    }
}

/// The stepwise walk agrees with the whole-turn scan. `next_attempt`
/// parks on `first_from` of the cursor; when that attempt's outcome is
/// known, either it succeeded and the turn ends there, or `apply_outcome`
/// moves the cursor just past the attempted candidate and the rest of the
/// turn is exactly the whole-turn scan from that position.
pub proof fn lemma_turn_scan_steps(
    list: Seq<Seq<char>>,
    from: int,
    avail: spec_fn(Seq<char>) -> Option<u32>,
    outcomes: Seq<bool>,
    k: int,
)
    requires
        0 <= from,
    ensures
        first_from(list, from, avail) is None ==> turn_scan(list, from, avail, outcomes, k)
            is None,
        first_from(list, from, avail) matches Some(p) ==> turn_scan(
            list,
            from,
            avail,
            outcomes,
            k,
        ) == (if outcomes[k] {
            Some(p)
        } else {
            turn_scan(list, p.0 + 1, avail, outcomes, k + 1)
        }),
    decreases list.len() - from,
{
    if from >= list.len() {
    } else {
        if avail(list[from]) is None {
            lemma_turn_scan_steps(list, from + 1, avail, outcomes, k);
        }
    }
}

/// A scan all of whose submission attempts fail runs off the end of the
/// list and yields nothing.
pub proof fn lemma_turn_scan_all_fail(
    list: Seq<Seq<char>>,
    from: int,
    avail: spec_fn(Seq<char>) -> Option<u32>,
    outcomes: Seq<bool>,
    k: int,
)
    requires
        0 <= k <= from,
        outcomes.len() >= list.len(),
        forall|j: int| 0 <= j < outcomes.len() ==> !outcomes[j],
    ensures
        turn_scan(list, from, avail, outcomes, k) is None,
    decreases list.len() - from,
{
    if from >= list.len() {
    } else {
        if avail(list[from]) is None {
            lemma_turn_scan_all_fail(list, from + 1, avail, outcomes, k);
        } else {
            lemma_turn_scan_all_fail(list, from + 1, avail, outcomes, k + 1);
        }
    }
}

/// Cursor wrap on an exhausted ban turn: when every submission attempt of
/// the turn fails, the turn produces no intent, the ban cursor returns to
/// zero (ready to retry the full list on the next turn) and the banning
/// flag clears.
pub proof fn lemma_failed_ban_turn_wraps(
    phase: Phase,
    current: Option<Action>,
    banned: Seq<u32>,
    state: ResolverState,
    bans: Seq<Seq<char>>,
    picks: Seq<Seq<char>>,
    table: Seq<(Seq<char>, u32)>,
    outcomes: Seq<bool>,
)
    requires
        !state.in_game,
        is_ban_turn(phase, current),
        outcomes.len() >= bans.len(),
        forall|j: int| 0 <= j < outcomes.len() ==> !outcomes[j],
    ensures
        ({
            let r = resolve_spec(phase, current, banned, state, bans, picks, table, outcomes);
            &&& r.0 is None
            &&& r.1.ban_cursor == 0
            &&& !r.1.is_banning
        }),
{
    lemma_turn_scan_all_fail(bans, state.ban_cursor as int, ban_candidate(table), outcomes, 0);
}

/// Cursor wrap on an exhausted pick turn, symmetric to the ban case.
pub proof fn lemma_failed_pick_turn_wraps(
    phase: Phase,
    current: Option<Action>,
    banned: Seq<u32>,
    state: ResolverState,
    bans: Seq<Seq<char>>,
    picks: Seq<Seq<char>>,
    table: Seq<(Seq<char>, u32)>,
    outcomes: Seq<bool>,
)
    requires
        !state.in_game,
        is_pick_turn(phase, current),
        outcomes.len() >= picks.len(),
        forall|j: int| 0 <= j < outcomes.len() ==> !outcomes[j],
    ensures
        ({
            let r = resolve_spec(phase, current, banned, state, bans, picks, table, outcomes);
            &&& r.0 is None
            &&& r.1.pick_cursor == 0
            &&& !r.1.is_picking
        }),
{
    lemma_turn_scan_all_fail(
        picks,
        state.pick_cursor as int,
        pick_candidate(table, banned),
        outcomes,
        0,
    );
}

/// Once `in_game` is set, resolution is idempotent and inert: no intent
/// is produced and the state comes back unchanged, on every input.
pub proof fn lemma_in_game_terminal(
    phase: Phase,
    current: Option<Action>,
    banned: Seq<u32>,
    state: ResolverState,
    bans: Seq<Seq<char>>,
    picks: Seq<Seq<char>>,
    table: Seq<(Seq<char>, u32)>,
    outcomes: Seq<bool>,
)
    requires
        state.in_game,
    ensures
        resolve_spec(phase, current, banned, state, bans, picks, table, outcomes) == (
            None::<SubmissionIntent>,
            state,
        ),
{
}

/// `have_prepicked` flips from false to true only through a successful
/// tentative pre-pick during planning; no other resolution step raises
/// it.
pub proof fn lemma_prepick_flag_discipline(
    phase: Phase,
    current: Option<Action>,
    banned: Seq<u32>,
    state: ResolverState,
    bans: Seq<Seq<char>>,
    picks: Seq<Seq<char>>,
    table: Seq<(Seq<char>, u32)>,
    outcomes: Seq<bool>,
)
    ensures
        ({
            let r = resolve_spec(phase, current, banned, state, bans, picks, table, outcomes);
            r.1.have_prepicked ==> state.have_prepicked || (is_prepick_chance(
                phase,
                current,
                state,
            ) && (r.0 matches Some(it) && !it.completed) && outcomes[0])
        }),
{
}

/// The preference-list cursor invariant `0 <= cursor <= length` is
/// preserved by a whole resolution: the turn that ran ends with its
/// cursor at zero and the other cursor is untouched.
pub proof fn lemma_resolve_preserves_cursor_bounds(
    phase: Phase,
    current: Option<Action>,
    banned: Seq<u32>,
    state: ResolverState,
    bans: Seq<Seq<char>>,
    picks: Seq<Seq<char>>,
    table: Seq<(Seq<char>, u32)>,
    outcomes: Seq<bool>,
)
    requires
        state.ban_cursor <= bans.len(),
        state.pick_cursor <= picks.len(),
    ensures
        ({
            let r = resolve_spec(phase, current, banned, state, bans, picks, table, outcomes);
            r.1.ban_cursor <= bans.len() && r.1.pick_cursor <= picks.len()
        }),
{
}

/// The cursor invariant is preserved by one step of the stepwise API:
/// `next_attempt` parks the cursor on a position inside the list (or at
/// zero when the scan is exhausted).
pub proof fn lemma_step_preserves_cursor_bounds(
    phase: Phase,
    current: Option<Action>,
    banned: Seq<u32>,
    state: ResolverState,
    bans: Seq<Seq<char>>,
    picks: Seq<Seq<char>>,
    table: Seq<(Seq<char>, u32)>,
)
    requires
        state.ban_cursor <= bans.len(),
        state.pick_cursor <= picks.len(),
    ensures
        ({
            let r = next_attempt_spec(phase, current, banned, state, bans, picks, table);
            r.1.ban_cursor <= bans.len() && r.1.pick_cursor <= picks.len()
        }),
{
    lemma_first_from_props(bans, state.ban_cursor as int, ban_candidate(table));
    lemma_first_from_props(picks, state.pick_cursor as int, pick_candidate(table, banned));
}

/// The cursor invariant is preserved when a submission outcome is folded
/// in: on failure the cursor moves at most one past the attempted
/// candidate and wraps to zero at the list end.
pub proof fn lemma_outcome_preserves_cursor_bounds(
    phase: Phase,
    current: Option<Action>,
    state: ResolverState,
    bans_len: int,
    picks_len: int,
    success: bool,
)
    requires
        state.ban_cursor <= bans_len,
        state.pick_cursor <= picks_len,
    ensures
        ({
            let r = apply_outcome_spec(phase, current, state, bans_len, picks_len, success);
            r.ban_cursor <= bans_len && r.pick_cursor <= picks_len
        }),
{
}

} // verus!
