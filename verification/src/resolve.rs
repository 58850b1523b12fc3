//! The action resolver: decides the single next submission.
//!
//! `resolve` handles one snapshot's whole resolution: given the facts, the
//! carried state, the preference lists and, for each submission attempt the
//! turn makes, whether that attempt succeeded, it returns the at most one
//! intent that settled the turn and the updated state. The fallback scan is
//! synchronous: on a failed attempt the cursor advances and scanning
//! continues within the same call, capped by the list length.
//!
//! A driving loop whose submission results only arrive one at a time uses
//! the step pair `next_attempt` / `apply_outcome` instead, which walk the
//! same scan one submission at a time.

use vstd::prelude::*;
use crate::facts::Action;
use crate::facts::ActionKind;
use crate::facts::DraftFacts;
use crate::facts::Phase;
use crate::prefs::PreferenceList;
use crate::state::ResolverState;
use crate::state::SubmissionIntent;
use crate::table::ChampionTable;
use crate::table::lookup_in;

verus! {

/// Availability of a name for a ban: its identifier, if the table has one.
pub open spec fn ban_candidate(table: Seq<(Seq<char>, u32)>) -> spec_fn(Seq<char>) -> Option<
    u32,
> {
    |name: Seq<char>| lookup_in(table, name)
}

/// Availability of a name for a pick: as for a ban, except that a name
/// whose identifier is already banned is unavailable.
pub open spec fn pick_candidate(table: Seq<(Seq<char>, u32)>, banned: Seq<u32>) -> spec_fn(
    Seq<char>,
) -> Option<u32> {
    |name: Seq<char>|
        match lookup_in(table, name) {
            Some(id) => if banned.contains(id) {
                None
            } else {
                Some(id)
            },
            None => None,
        }
}

/// Position and identifier of the first available name at or after `from`.
pub open spec fn first_from(
    list: Seq<Seq<char>>,
    from: int,
    avail: spec_fn(Seq<char>) -> Option<u32>,
) -> Option<(int, u32)>
    decreases list.len() - from,
{
    if from < 0 || from >= list.len() {
        None
    } else {
        match avail(list[from]) {
            Some(id) => Some((from, id)),
            None => first_from(list, from + 1, avail),
        }
    }
}

/// Result of one whole fallback scan starting at `from`: the position and
/// identifier of the first available name whose submission succeeded, or
/// `None` when the scan ran off the end of the list. `outcomes[k]` is the
/// result of the `k`-th submission attempt the scan makes; unavailable
/// names are skipped without consuming an outcome.
pub open spec fn turn_scan(
    list: Seq<Seq<char>>,
    from: int,
    avail: spec_fn(Seq<char>) -> Option<u32>,
    outcomes: Seq<bool>,
    k: int,
) -> Option<(int, u32)>
    decreases list.len() - from,
{
    if from < 0 || from >= list.len() {
        None
    } else {
        match avail(list[from]) {
            None => turn_scan(list, from + 1, avail, outcomes, k),
            Some(id) => if outcomes[k] {
                Some((from, id))
            } else {
                turn_scan(list, from + 1, avail, outcomes, k + 1)
            },
        }
    }
}

/// The facts describe the local player's in-progress ban action during
/// the ban/pick phase.
pub open spec fn is_ban_turn(phase: Phase, current: Option<Action>) -> bool {
    phase is BanPick && (current matches Some(a) && a.kind is Ban && a.in_progress)
}

/// The facts describe the local player's in-progress pick action during
/// the ban/pick phase.
pub open spec fn is_pick_turn(phase: Phase, current: Option<Action>) -> bool {
    phase is BanPick && (current matches Some(a) && a.kind is Pick && a.in_progress)
}

/// A tentative pre-pick is due: planning phase, not yet pre-picked, and
/// an action of the local player to attach the pre-pick to.
pub open spec fn is_prepick_chance(phase: Phase, current: Option<Action>, state: ResolverState,
) -> bool {
    phase is Planning && !state.have_prepicked && current is Some
}

/// Result and state after a whole ban turn. Whatever way the turn ends,
/// the cursor returns to zero and the banning flag clears: the next ban
/// turn rescans the list from the top.
pub open spec fn ban_turn_spec(
    act: Action,
    state: ResolverState,
    bans: Seq<Seq<char>>,
    table: Seq<(Seq<char>, u32)>,
    outcomes: Seq<bool>,
) -> (Option<SubmissionIntent>, ResolverState) {
    let done = ResolverState { ban_cursor: 0, is_banning: false, ..state };
    match turn_scan(bans, state.ban_cursor as int, ban_candidate(table), outcomes, 0) {
        Some(p) => (
            Some(SubmissionIntent { action_id: act.id, champion_id: p.1, completed: true }),
            done,
        ),
        None => (None, done),
    }
}

/// Result and state after a whole pick turn; symmetric to a ban turn,
/// additionally skipping names whose identifier is already banned.
pub open spec fn pick_turn_spec(
    act: Action,
    banned: Seq<u32>,
    state: ResolverState,
    picks: Seq<Seq<char>>,
    table: Seq<(Seq<char>, u32)>,
    outcomes: Seq<bool>,
) -> (Option<SubmissionIntent>, ResolverState) {
    let done = ResolverState { pick_cursor: 0, is_picking: false, ..state };
    match turn_scan(picks, state.pick_cursor as int, pick_candidate(table, banned), outcomes, 0) {
        Some(p) => (
            Some(SubmissionIntent { action_id: act.id, champion_id: p.1, completed: true }),
            done,
        ),
        None => (None, done),
    }
}

/// Result and state of a pre-pick attempt: one tentative submission of
/// the first pick preference, no fallback. Only a successful attempt sets
/// `have_prepicked`; a failed one leaves it false, so the next planning
/// snapshot retries.
pub open spec fn prepick_spec(
    act: Action,
    state: ResolverState,
    picks: Seq<Seq<char>>,
    table: Seq<(Seq<char>, u32)>,
    outcomes: Seq<bool>,
) -> (Option<SubmissionIntent>, ResolverState) {
    if picks.len() == 0 {
        (None, state)
    } else {
        match lookup_in(table, picks[0]) {
            Some(id) => (
                Some(SubmissionIntent { action_id: act.id, champion_id: id, completed: false }),
                ResolverState { have_prepicked: outcomes[0], ..state },
            ),
            None => (None, state),
        }
    }
}

/// The whole decision function for one snapshot, as a value: at most one
/// intent, and the updated state. Deterministic in its arguments.
pub open spec fn resolve_spec(
    phase: Phase,
    current: Option<Action>,
    banned: Seq<u32>,
    state: ResolverState,
    bans: Seq<Seq<char>>,
    picks: Seq<Seq<char>>,
    table: Seq<(Seq<char>, u32)>,
    outcomes: Seq<bool>,
) -> (Option<SubmissionIntent>, ResolverState) {
    if state.in_game {
        (None, state)
    } else {
        match current {
            Some(act) => {
                if phase is BanPick && act.kind is Ban && act.in_progress {
                    ban_turn_spec(act, state, bans, table, outcomes)
                } else if phase is BanPick && act.kind is Pick && act.in_progress {
                    pick_turn_spec(act, banned, state, picks, table, outcomes)
                } else if phase is Planning && !state.have_prepicked {
                    prepick_spec(act, state, picks, table, outcomes)
                } else {
                    (None, state)
                }
            },
            None => (None, state),
        }
    }
}

/// The decision of one single submission attempt: which candidate to try
/// next, given the facts and the carried state. The returned state parks
/// the cursor on the candidate and raises the matching turn flag; when
/// the scan is exhausted instead, the cursor returns to zero and the flag
/// clears.
pub open spec fn next_attempt_spec(
    phase: Phase,
    current: Option<Action>,
    banned: Seq<u32>,
    state: ResolverState,
    bans: Seq<Seq<char>>,
    picks: Seq<Seq<char>>,
    table: Seq<(Seq<char>, u32)>,
) -> (Option<SubmissionIntent>, ResolverState) {
    if state.in_game {
        (None, state)
    } else {
        match current {
            Some(act) => {
                if phase is BanPick && act.kind is Ban && act.in_progress {
                    match first_from(bans, state.ban_cursor as int, ban_candidate(table)) {
                        Some(p) => (
                            Some(
                                SubmissionIntent {
                                    action_id: act.id,
                                    champion_id: p.1,
                                    completed: true,
                                },
                            ),
                            ResolverState { ban_cursor: p.0 as usize, is_banning: true, ..state },
                        ),
                        None => (
                            None,
                            ResolverState { ban_cursor: 0, is_banning: false, ..state },
                        ),
                    }
                } else if phase is BanPick && act.kind is Pick && act.in_progress {
                    match first_from(
                        picks,
                        state.pick_cursor as int,
                        pick_candidate(table, banned),
                    ) {
                        Some(p) => (
                            Some(
                                SubmissionIntent {
                                    action_id: act.id,
                                    champion_id: p.1,
                                    completed: true,
                                },
                            ),
                            ResolverState { pick_cursor: p.0 as usize, is_picking: true, ..state },
                        ),
                        None => (
                            None,
                            ResolverState { pick_cursor: 0, is_picking: false, ..state },
                        ),
                    }
                } else if phase is Planning && !state.have_prepicked {
                    if picks.len() == 0 {
                        (None, state)
                    } else {
                        match lookup_in(table, picks[0]) {
                            Some(id) => (
                                Some(
                                    SubmissionIntent {
                                        action_id: act.id,
                                        champion_id: id,
                                        completed: false,
                                    },
                                ),
                                state,
                            ),
                            None => (None, state),
                        }
                    }
                } else {
                    (None, state)
                }
            },
            None => (None, state),
        }
    }
}

/// The state update once the attempt's submission outcome is known:
/// success settles the turn (cursor to zero, flag cleared, or the
/// pre-pick flag raised); failure advances the cursor past the attempted
/// candidate, wrapping to zero and clearing the flag when that runs off
/// the list end.
pub open spec fn apply_outcome_spec(
    phase: Phase,
    current: Option<Action>,
    state: ResolverState,
    bans_len: int,
    picks_len: int,
    success: bool,
) -> ResolverState {
    if state.in_game {
        state
    } else {
        match current {
            Some(act) => {
                if phase is BanPick && act.kind is Ban && act.in_progress {
                    if success || state.ban_cursor + 1 >= bans_len {
                        ResolverState { ban_cursor: 0, is_banning: false, ..state }
                    } else {
                        ResolverState {
                            ban_cursor: (state.ban_cursor + 1) as usize,
                            is_banning: true,
                            ..state
                        }
                    }
                } else if phase is BanPick && act.kind is Pick && act.in_progress {
                    if success || state.pick_cursor + 1 >= picks_len {
                        ResolverState { pick_cursor: 0, is_picking: false, ..state }
                    } else {
                        ResolverState {
                            pick_cursor: (state.pick_cursor + 1) as usize,
                            is_picking: true,
                            ..state
                        }
                    }
                } else if phase is Planning && !state.have_prepicked {
                    if success {
                        ResolverState { have_prepicked: true, ..state }
                    } else {
                        state
                    }
                } else {
                    state
                }
            },
            None => state,
        }
    }
}

/// `true` when `v` holds `id`.
fn ids_contain(v: &Vec<u32>, id: u32) -> (r: bool)
    ensures
        r == v@.contains(id),
{
    let n: usize = v.len();
    let mut i: usize = 0;
    while i < n
        invariant
            n == v.len(),
            i <= n,
            forall|j: int| 0 <= j < i ==> v@[j] != id,
        decreases n - i,
    {
        if v[i] == id {
            return true;
        }
        i = i + 1;
    }
    false
}

/// Runs one whole ban turn.
fn ban_turn(
    act: Action,
    state: &ResolverState,
    bans: &PreferenceList,
    table: &ChampionTable,
    outcomes: &Vec<bool>,
) -> (r: (Option<SubmissionIntent>, ResolverState))
    requires
        outcomes@.len() >= bans@.len(),
    ensures
        r == ban_turn_spec(act, *state, bans@, table@, outcomes@),
{
    let ghost avail = ban_candidate(table@);
    let done = ResolverState { ban_cursor: 0, is_banning: false, ..*state };
    let n: usize = bans.len();
    let start: usize = state.ban_cursor;
    let mut cur: usize = start;
    let mut k: usize = 0;
    while cur < n
        invariant
            n == bans@.len(),
            outcomes@.len() >= n,
            start == state.ban_cursor,
            done == (ResolverState { ban_cursor: 0, is_banning: false, ..*state }),
            start <= cur,
            k <= cur - start,
            avail == ban_candidate(table@),
            turn_scan(bans@, start as int, avail, outcomes@, 0) == turn_scan(
                bans@,
                cur as int,
                avail,
                outcomes@,
                k as int,
            ),
        decreases n - cur,
    {
        let name = bans.get(cur);
        let cand = table.get(name);
        assert(avail(bans@[cur as int]) == lookup_in(table@, bans@[cur as int]));
        match cand {
            Some(id) => {
                let ok = outcomes[k];
                if ok {
                    assert(turn_scan(bans@, cur as int, avail, outcomes@, k as int) == Some(
                        (cur as int, id),
                    ));
                    return (
                        Some(
                            SubmissionIntent {
                                action_id: act.id,
                                champion_id: id,
                                completed: true,
                            },
                        ),
                        done,
                    );
                }
                k = k + 1;
            },
            None => {},
        }
        cur = cur + 1;
    }
    (None, done)
}

/// Runs one whole pick turn.
fn pick_turn(
    act: Action,
    banned: &Vec<u32>,
    state: &ResolverState,
    picks: &PreferenceList,
    table: &ChampionTable,
    outcomes: &Vec<bool>,
) -> (r: (Option<SubmissionIntent>, ResolverState))
    requires
        outcomes@.len() >= picks@.len(),
    ensures
        r == pick_turn_spec(act, banned@, *state, picks@, table@, outcomes@),
{
    let ghost avail = pick_candidate(table@, banned@);
    let done = ResolverState { pick_cursor: 0, is_picking: false, ..*state };
    let n: usize = picks.len();
    let start: usize = state.pick_cursor;
    let mut cur: usize = start;
    let mut k: usize = 0;
    while cur < n
        invariant
            n == picks@.len(),
            outcomes@.len() >= n,
            start == state.pick_cursor,
            done == (ResolverState { pick_cursor: 0, is_picking: false, ..*state }),
            start <= cur,
            k <= cur - start,
            avail == pick_candidate(table@, banned@),
            turn_scan(picks@, start as int, avail, outcomes@, 0) == turn_scan(
                picks@,
                cur as int,
                avail,
                outcomes@,
                k as int,
            ),
        decreases n - cur,
    {
        let name = picks.get(cur);
        let looked = table.get(name);
        let cand = match looked {
            Some(id) => if ids_contain(banned, id) {
                None
            } else {
                Some(id)
            },
            None => None,
        };
        assert(avail(picks@[cur as int]) == cand);
        match cand {
            Some(id) => {
                let ok = outcomes[k];
                if ok {
                    assert(turn_scan(picks@, cur as int, avail, outcomes@, k as int) == Some(
                        (cur as int, id),
                    ));
                    return (
                        Some(
                            SubmissionIntent {
                                action_id: act.id,
                                champion_id: id,
                                completed: true,
                            },
                        ),
                        done,
                    );
                }
                k = k + 1;
            },
            None => {},
        }
        cur = cur + 1;
    }
    (None, done)
}

/// Makes the one tentative pre-pick attempt.
fn prepick(
    act: Action,
    state: &ResolverState,
    picks: &PreferenceList,
    table: &ChampionTable,
    outcomes: &Vec<bool>,
) -> (r: (Option<SubmissionIntent>, ResolverState))
    requires
        outcomes@.len() >= 1,
    ensures
        r == prepick_spec(act, *state, picks@, table@, outcomes@),
{
    if picks.len() == 0 {
        return (None, *state);
    }
    match table.get(picks.get(0)) {
        Some(id) => {
            let ok = outcomes[0];
            (
                Some(SubmissionIntent { action_id: act.id, champion_id: id, completed: false }),
                ResolverState { have_prepicked: ok, ..*state },
            )
        },
        None => (None, *state),
    }
}

/// Resolves one snapshot's facts against the carried state: produces at
/// most one submission intent and the updated state.
///
/// `outcomes[k]` supplies the result of the `k`-th submission attempt the
/// resolution makes (a driving loop that learns outcomes one at a time
/// uses `next_attempt` / `apply_outcome` instead, which walk the same
/// scan stepwise). Once `in_game` is set, every call returns no intent
/// and the state unchanged.
pub fn resolve(
    facts: &DraftFacts,
    state: &ResolverState,
    bans: &PreferenceList,
    picks: &PreferenceList,
    table: &ChampionTable,
    outcomes: &Vec<bool>,
) -> (r: (Option<SubmissionIntent>, ResolverState))
    requires
        outcomes@.len() >= bans@.len(),
        outcomes@.len() >= picks@.len(),
        outcomes@.len() >= 1,
    ensures
        r == resolve_spec(
            facts.phase,
            facts.current_action,
            facts.banned@,
            *state,
            bans@,
            picks@,
            table@,
            outcomes@,
        ),
        state.in_game ==> r.0 is None && r.1 == *state,
{
    if state.in_game {
        return (None, *state);
    }
    match facts.current_action {
        Some(act) => {
            let in_ban_pick = match facts.phase {
                Phase::BanPick => true,
                _ => false,
            };
            let in_planning = match facts.phase {
                Phase::Planning => true,
                _ => false,
            };
            let ban_kind = match act.kind {
                ActionKind::Ban => true,
                _ => false,
            };
            let pick_kind = match act.kind {
                ActionKind::Pick => true,
                _ => false,
            };
            if in_ban_pick && ban_kind && act.in_progress {
                ban_turn(act, state, bans, table, outcomes)
            } else if in_ban_pick && pick_kind && act.in_progress {
                pick_turn(act, &facts.banned, state, picks, table, outcomes)
            } else if in_planning && !state.have_prepicked {
                prepick(act, state, picks, table, outcomes)
            } else {
                (None, *state)
            }
        },
        None => (None, *state),
    }
}

/// Finds the first name at or after `from` that the table can resolve.
fn scan_ban(bans: &PreferenceList, from: usize, table: &ChampionTable) -> (r: Option<
    (usize, u32),
>)
    ensures
        match r {
            Some(p) => first_from(bans@, from as int, ban_candidate(table@)) == Some(
                (p.0 as int, p.1),
            ),
            None => first_from(bans@, from as int, ban_candidate(table@)) is None,
        },
{
    let ghost avail = ban_candidate(table@);
    let n: usize = bans.len();
    let mut cur: usize = from;
    while cur < n
        invariant
            n == bans@.len(),
            from <= cur,
            avail == ban_candidate(table@),
            first_from(bans@, from as int, avail) == first_from(bans@, cur as int, avail),
        decreases n - cur,
    {
        let name = bans.get(cur);
        let cand = table.get(name);
        assert(avail(bans@[cur as int]) == lookup_in(table@, bans@[cur as int]));
        match cand {
            Some(id) => {
                return Some((cur, id));
            },
            None => {},
        }
        cur = cur + 1;
    }
    None
}

/// Finds the first name at or after `from` that the table resolves to an
/// identifier that is not already banned.
fn scan_pick(picks: &PreferenceList, from: usize, banned: &Vec<u32>, table: &ChampionTable) -> (r:
    Option<(usize, u32)>)
    ensures
        match r {
            Some(p) => first_from(picks@, from as int, pick_candidate(table@, banned@)) == Some(
                (p.0 as int, p.1),
            ),
            None => first_from(picks@, from as int, pick_candidate(table@, banned@)) is None,
        },
{
    let ghost avail = pick_candidate(table@, banned@);
    let n: usize = picks.len();
    let mut cur: usize = from;
    while cur < n
        invariant
            n == picks@.len(),
            from <= cur,
            avail == pick_candidate(table@, banned@),
            first_from(picks@, from as int, avail) == first_from(picks@, cur as int, avail),
        decreases n - cur,
    {
        let name = picks.get(cur);
        let looked = table.get(name);
        let cand = match looked {
            Some(id) => if ids_contain(banned, id) {
                None
            } else {
                Some(id)
            },
            None => None,
        };
        assert(avail(picks@[cur as int]) == cand);
        match cand {
            Some(id) => {
                return Some((cur, id));
            },
            None => {},
        }
        cur = cur + 1;
    }
    None
}

/// Decides the single next submission attempt. A driving loop calls
/// this, performs the returned intent (if any) over the transport, and
/// feeds the outcome to `apply_outcome`; repeated until the turn settles,
/// this walks exactly the fallback scan that `resolve` performs in one
/// call.
pub fn next_attempt(
    facts: &DraftFacts,
    state: &ResolverState,
    bans: &PreferenceList,
    picks: &PreferenceList,
    table: &ChampionTable,
) -> (r: (Option<SubmissionIntent>, ResolverState))
    ensures
        r == next_attempt_spec(
            facts.phase,
            facts.current_action,
            facts.banned@,
            *state,
            bans@,
            picks@,
            table@,
        ),
{
    if state.in_game {
        return (None, *state);
    }
    match facts.current_action {
        Some(act) => {
            let in_ban_pick = match facts.phase {
                Phase::BanPick => true,
                _ => false,
            };
            let in_planning = match facts.phase {
                Phase::Planning => true,
                _ => false,
            };
            let ban_kind = match act.kind {
                ActionKind::Ban => true,
                _ => false,
            };
            let pick_kind = match act.kind {
                ActionKind::Pick => true,
                _ => false,
            };
            if in_ban_pick && ban_kind && act.in_progress {
                match scan_ban(bans, state.ban_cursor, table) {
                    Some(p) => (
                        Some(
                            SubmissionIntent {
                                action_id: act.id,
                                champion_id: p.1,
                                completed: true,
                            },
                        ),
                        ResolverState { ban_cursor: p.0, is_banning: true, ..*state },
                    ),
                    None => (None, ResolverState { ban_cursor: 0, is_banning: false, ..*state }),
                }
            } else if in_ban_pick && pick_kind && act.in_progress {
                match scan_pick(picks, state.pick_cursor, &facts.banned, table) {
                    Some(p) => (
                        Some(
                            SubmissionIntent {
                                action_id: act.id,
                                champion_id: p.1,
                                completed: true,
                            },
                        ),
                        ResolverState { pick_cursor: p.0, is_picking: true, ..*state },
                    ),
                    None => (None, ResolverState { pick_cursor: 0, is_picking: false, ..*state }),
                }
            } else if in_planning && !state.have_prepicked {
                if picks.len() == 0 {
                    return (None, *state);
                }
                match table.get(picks.get(0)) {
                    Some(id) => (
                        Some(
                            SubmissionIntent {
                                action_id: act.id,
                                champion_id: id,
                                completed: false,
                            },
                        ),
                        *state,
                    ),
                    None => (None, *state),
                }
            } else {
                (None, *state)
            }
        },
        None => (None, *state),
    }
}

/// Folds one submission outcome into the state; see `apply_outcome_spec`.
pub fn apply_outcome(
    facts: &DraftFacts,
    state: &ResolverState,
    bans: &PreferenceList,
    picks: &PreferenceList,
    success: bool,
) -> (r: ResolverState)
    ensures
        r == apply_outcome_spec(
            facts.phase,
            facts.current_action,
            *state,
            bans@.len() as int,
            picks@.len() as int,
            success,
        ),
{
    if state.in_game {
        return *state;
    }
    match facts.current_action {
        Some(act) => {
            let in_ban_pick = match facts.phase {
                Phase::BanPick => true,
                _ => false,
            };
            let in_planning = match facts.phase {
                Phase::Planning => true,
                _ => false,
            };
            let ban_kind = match act.kind {
                ActionKind::Ban => true,
                _ => false,
            };
            let pick_kind = match act.kind {
                ActionKind::Pick => true,
                _ => false,
            };
            if in_ban_pick && ban_kind && act.in_progress {
                let bans_len = bans.len();
                if !success && state.ban_cursor < bans_len && state.ban_cursor + 1 < bans_len {
                    ResolverState { ban_cursor: state.ban_cursor + 1, is_banning: true, ..*state }
                } else {
                    ResolverState { ban_cursor: 0, is_banning: false, ..*state }
                }
            } else if in_ban_pick && pick_kind && act.in_progress {
                let picks_len = picks.len();
                if !success && state.pick_cursor < picks_len && state.pick_cursor + 1 < picks_len {
                    ResolverState {
                        pick_cursor: state.pick_cursor + 1,
                        is_picking: true,
                        ..*state
                    }
                } else {
                    ResolverState { pick_cursor: 0, is_picking: false, ..*state }
                }
            } else if in_planning && !state.have_prepicked {
                if success {
                    ResolverState { have_prepicked: true, ..*state }
                } else {
                    *state
                }
            } else {
                *state
            }
        },
        None => *state,
    }
}

} // verus!
