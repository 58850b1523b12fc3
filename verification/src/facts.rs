//! Interpretation of a raw snapshot into normalized draft facts.
//!
//! `interpret` is the single place that deals with missing or unknown
//! fields: an absent phase becomes `Phase::Other`, absent arrays become
//! empty, an absent local cell id becomes `-1`. The resolver then works
//! on the typed `DraftFacts` value alone.

use vstd::prelude::*;
use crate::snapshot::RawAction;
use crate::snapshot::Snapshot;
use crate::snapshot::TeamMember;

verus! {

/// The draft phase of a snapshot.
#[derive(Clone, Copy, Debug, PartialEq, Eq, Structural)]
pub enum Phase {
    Planning,
    BanPick,
    Finalization,
    Other,
}

/// What an action slot asks its actor to do.
#[derive(Clone, Copy, Debug, PartialEq, Eq, Structural)]
pub enum ActionKind {
    Ban,
    Pick,
    Other,
}

/// One actionable slot of the draft sequence, with its kind decoded.
#[derive(Clone, Copy, Debug, PartialEq, Eq, Structural)]
pub struct Action {
    pub id: i64,
    pub actor_cell_id: i64,
    pub kind: ActionKind,
    pub champion_id: u32,
    pub completed: bool,
    pub in_progress: bool,
}

/// Decodes the phase string of the session timer; unknown strings map
/// to `Phase::Other`.
pub open spec fn phase_of(s: Seq<char>) -> Phase {
    if s == "PLANNING"@ {
        Phase::Planning
    } else if s == "BAN_PICK"@ {
        Phase::BanPick
    } else if s == "FINALIZATION"@ {
        Phase::Finalization
    } else {
        Phase::Other
    }
}

/// Decodes an action kind string; unknown strings map to `ActionKind::Other`.
pub open spec fn kind_of(s: Seq<char>) -> ActionKind {
    if s == "ban"@ {
        ActionKind::Ban
    } else if s == "pick"@ {
        ActionKind::Pick
    } else {
        ActionKind::Other
    }
}

/// The typed action corresponding to a raw action.
pub open spec fn action_model(a: RawAction) -> Action {
    Action {
        id: a.id,
        actor_cell_id: a.actor_cell_id,
        kind: kind_of(a.kind@),
        champion_id: a.champion_id,
        completed: a.completed,
        in_progress: a.in_progress,
    }
}

/// A raw action that bans a champion and is already completed.
pub open spec fn is_completed_ban(a: RawAction) -> bool {
    kind_of(a.kind@) is Ban && a.completed
}

/// The champion identifiers of all completed bans in `acts`, in order.
pub open spec fn banned_in(acts: Seq<RawAction>) -> Seq<u32>
    decreases acts.len(),
{
    if acts.len() == 0 {
        Seq::empty()
    } else if is_completed_ban(acts[0]) {
        seq![acts[0].champion_id] + banned_in(acts.skip(1))
    } else {
        banned_in(acts.skip(1))
    }
}

/// The champion identifiers of all completed bans in the flattened
/// action-group structure, in order.
pub open spec fn banned_in_groups(groups: Seq<Vec<RawAction>>) -> Seq<u32>
    decreases groups.len(),
{
    if groups.len() == 0 {
        Seq::empty()
    } else {
        banned_in(groups[0]@) + banned_in_groups(groups.skip(1))
    }
}

/// The first action in `acts` that belongs to the local player and is in
/// progress, as a typed action.
pub open spec fn current_in(acts: Seq<RawAction>, local: i64) -> Option<Action>
    decreases acts.len(),
{
    if acts.len() == 0 {
        None
    } else if acts[0].actor_cell_id == local && acts[0].in_progress {
        Some(action_model(acts[0]))
    } else {
        current_in(acts.skip(1), local)
    }
}

/// The first in-progress action of the local player over the whole
/// action-group structure, in flattened order.
pub open spec fn current_in_groups(groups: Seq<Vec<RawAction>>, local: i64) -> Option<Action>
    decreases groups.len(),
{
    if groups.len() == 0 {
        None
    } else {
        match current_in(groups[0]@, local) {
            Some(a) => Some(a),
            None => current_in_groups(groups.skip(1), local),
        }
    }
}

/// The assigned position of the first roster entry whose cell id is
/// `local`.
pub open spec fn position_in(team: Seq<TeamMember>, local: i64) -> Option<Seq<char>>
    decreases team.len(),
{
    if team.len() == 0 {
        None
    } else if team[0].cell_id == local {
        Some(team[0].assigned_position@)
    } else {
        position_in(team.skip(1), local)
    }
}

/// The phase a snapshot reports, defaulting to `Phase::Other`.
pub open spec fn snapshot_phase(s: Snapshot) -> Phase {
    match s.phase {
        Some(p) => phase_of(p@),
        None => Phase::Other,
    }
}

/// The local cell id a snapshot reports, defaulting to `-1`.
pub open spec fn snapshot_local(s: Snapshot) -> i64 {
    match s.local_player_cell_id {
        Some(c) => c,
        None => -1i64,
    }
}

/// The assigned position of the local player, if the roster names one.
pub open spec fn snapshot_position(s: Snapshot) -> Option<Seq<char>> {
    match s.my_team {
        Some(team) => position_in(team@, snapshot_local(s)),
        None => None,
    }
}

/// The local player's in-progress action, if the snapshot holds one.
pub open spec fn snapshot_current(s: Snapshot) -> Option<Action> {
    match s.actions {
        Some(groups) => current_in_groups(groups@, snapshot_local(s)),
        None => None,
    }
}

/// The champions already banned, in the order the snapshot lists them.
pub open spec fn snapshot_banned(s: Snapshot) -> Seq<u32> {
    match s.actions {
        Some(groups) => banned_in_groups(groups@),
        None => Seq::empty(),
    }
}

/// Normalized facts derived from one snapshot. Recomputed per snapshot,
/// never mutated.
pub struct DraftFacts {
    pub phase: Phase,
    pub local_cell_id: i64,
    pub assigned_position: Option<String>,
    pub current_action: Option<Action>,
    pub banned: Vec<u32>,
}

/// `f` is exactly the interpretation of snapshot `s`.
pub open spec fn facts_match(f: DraftFacts, s: Snapshot) -> bool {
    &&& f.phase == snapshot_phase(s)
    &&& f.local_cell_id == snapshot_local(s)
    &&& (match f.assigned_position {
        Some(p) => snapshot_position(s) == Some(p@),
        None => snapshot_position(s) is None,
    })
    &&& f.current_action == snapshot_current(s)
    &&& f.banned@ == snapshot_banned(s)
}

/// Decodes a phase string.
pub fn parse_phase(s: &String) -> (p: Phase)
    ensures
        p == phase_of(s@),
{
    let planning: String = String::from_str("PLANNING");
    let ban_pick: String = String::from_str("BAN_PICK");
    let finalization: String = String::from_str("FINALIZATION");
    if *s == planning {
        Phase::Planning
    } else if *s == ban_pick {
        Phase::BanPick
    } else if *s == finalization {
        Phase::Finalization
    } else {
        Phase::Other
    }
}

/// Decodes an action kind string.
pub fn parse_kind(s: &String) -> (k: ActionKind)
    ensures
        k == kind_of(s@),
{
    let ban: String = String::from_str("ban");
    let pick: String = String::from_str("pick");
    if *s == ban {
        ActionKind::Ban
    } else if *s == pick {
        ActionKind::Pick
    } else {
        ActionKind::Other
    }
}

/// Decodes one raw action into its typed form.
pub fn to_action(a: &RawAction) -> (r: Action)
    ensures
        r == action_model(*a),
{
    Action {
        id: a.id,
        actor_cell_id: a.actor_cell_id,
        kind: parse_kind(&a.kind),
        champion_id: a.champion_id,
        completed: a.completed,
        in_progress: a.in_progress,
    }
}

/// Collects the champion ids of all completed bans, in flattened order.
fn collect_banned(groups: &Vec<Vec<RawAction>>) -> (r: Vec<u32>)
    ensures
        r@ == banned_in_groups(groups@),
{
    let ghost total = banned_in_groups(groups@);
    let mut out: Vec<u32> = Vec::new();
    let n: usize = groups.len();
    let mut g: usize = 0;
    assert(groups@.skip(0) =~= groups@);
    while g < n
        invariant
            n == groups.len(),
            g <= n,
            total == banned_in_groups(groups@),
            total == out@ + banned_in_groups(groups@.skip(g as int)),
        decreases n - g,
    {
        assert(groups@.skip(g as int)[0] == groups@[g as int]);
        assert(groups@.skip(g as int).skip(1) =~= groups@.skip(g as int + 1));
        let acts: &Vec<RawAction> = &groups[g];
        let m: usize = acts.len();
        let mut j: usize = 0;
        assert(acts@.skip(0) =~= acts@);
        assert(total == out@ + (banned_in(acts@.skip(0)) + banned_in_groups(groups@.skip(g as int + 1))));
        while j < m
            invariant
                m == acts.len(),
                j <= m,
                g < n,
                n == groups.len(),
                acts@ == groups@[g as int]@,
                total == banned_in_groups(groups@),
                total == out@ + (banned_in(acts@.skip(j as int)) + banned_in_groups(
                    groups@.skip(g as int + 1),
                )),
            decreases m - j,
        {
            assert(acts@.skip(j as int)[0] == acts@[j as int]);
            assert(acts@.skip(j as int).skip(1) =~= acts@.skip(j as int + 1));
            let kind = parse_kind(&acts[j].kind);
            let is_ban = match kind {
                ActionKind::Ban => true,
                _ => false,
            };
            if is_ban && acts[j].completed {
                let ghost old_out = out@;
                out.push(acts[j].champion_id);
                assert(out@ + (banned_in(acts@.skip(j as int + 1)) + banned_in_groups(
                    groups@.skip(g as int + 1),
                )) =~= old_out + (banned_in(acts@.skip(j as int)) + banned_in_groups(
                    groups@.skip(g as int + 1),
                )));
            }
            j = j + 1;
        }
        assert(acts@.skip(m as int).len() == 0);
        assert(banned_in(acts@.skip(m as int)) =~= Seq::<u32>::empty());
        assert(out@ + (Seq::<u32>::empty() + banned_in_groups(groups@.skip(g as int + 1)))
            =~= out@ + banned_in_groups(groups@.skip(g as int + 1)));
        g = g + 1;
    }
    assert(groups@.skip(n as int).len() == 0);
    assert(out@ + banned_in_groups(groups@.skip(n as int)) =~= out@);
    out
}

/// Finds the local player's first in-progress action, in flattened order.
fn find_current(groups: &Vec<Vec<RawAction>>, local: i64) -> (r: Option<Action>)
    ensures
        r == current_in_groups(groups@, local),
{
    let n: usize = groups.len();
    let mut g: usize = 0;
    assert(groups@.skip(0) =~= groups@);
    while g < n
        invariant
            n == groups.len(),
            g <= n,
            current_in_groups(groups@, local) == current_in_groups(groups@.skip(g as int), local),
        decreases n - g,
    {
        assert(groups@.skip(g as int)[0] == groups@[g as int]);
        assert(groups@.skip(g as int).skip(1) =~= groups@.skip(g as int + 1));
        let acts: &Vec<RawAction> = &groups[g];
        let m: usize = acts.len();
        let mut j: usize = 0;
        assert(acts@.skip(0) =~= acts@);
        while j < m
            invariant
                m == acts.len(),
                j <= m,
                g < n,
                n == groups.len(),
                acts@ == groups@[g as int]@,
                current_in_groups(groups@, local) == current_in_groups(
                    groups@.skip(g as int),
                    local,
                ),
                current_in(acts@, local) == current_in(acts@.skip(j as int), local),
            decreases m - j,
        {
            assert(acts@.skip(j as int)[0] == acts@[j as int]);
            assert(acts@.skip(j as int).skip(1) =~= acts@.skip(j as int + 1));
            if acts[j].actor_cell_id == local && acts[j].in_progress {
                return Some(to_action(&acts[j]));
            }
            j = j + 1;
        }
        assert(acts@.skip(m as int).len() == 0);
        assert(current_in(acts@, local) is None);
        g = g + 1;
    }
    assert(groups@.skip(n as int).len() == 0);
    None
}

/// Finds the assigned position of the roster entry whose cell id is
/// `local`.
fn find_position(team: &Vec<TeamMember>, local: i64) -> (r: Option<String>)
    ensures
        match r {
            Some(p) => position_in(team@, local) == Some(p@),
            None => position_in(team@, local) is None,
        },
{
    let n: usize = team.len();
    let mut i: usize = 0;
    assert(team@.skip(0) =~= team@);
    while i < n
        invariant
            n == team.len(),
            i <= n,
            position_in(team@, local) == position_in(team@.skip(i as int), local),
        decreases n - i,
    {
        assert(team@.skip(i as int)[0] == team@[i as int]);
        assert(team@.skip(i as int).skip(1) =~= team@.skip(i as int + 1));
        if team[i].cell_id == local {
            return Some(team[i].assigned_position.clone());
        }
        i = i + 1;
    }
    assert(team@.skip(n as int).len() == 0);
    None
}

/// Interprets one snapshot into normalized draft facts. Total: missing
/// fields degrade to defaults, never to a failure.
pub fn interpret(s: &Snapshot) -> (f: DraftFacts)
    ensures
        facts_match(f, *s),
{
    let phase = match &s.phase {
        Some(p) => parse_phase(p),
        None => Phase::Other,
    };
    let local: i64 = match &s.local_player_cell_id {
        Some(c) => *c,
        None => -1,
    };
    let assigned_position = match &s.my_team {
        Some(team) => find_position(team, local),
        None => None,
    };
    let current_action = match &s.actions {
        Some(groups) => find_current(groups, local),
        None => None,
    };
    let banned = match &s.actions {
        Some(groups) => collect_banned(groups),
        None => Vec::new(),
    };
    DraftFacts { phase, local_cell_id: local, assigned_position, current_action, banned }
}

} // verus!
