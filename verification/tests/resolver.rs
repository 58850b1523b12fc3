use draft_engine::facts::Action;
use draft_engine::facts::ActionKind;
use draft_engine::facts::DraftFacts;
use draft_engine::facts::Phase;
use draft_engine::prefs::PreferenceList;
use draft_engine::resolve::apply_outcome;
use draft_engine::resolve::next_attempt;
use draft_engine::resolve::resolve;
use draft_engine::state::ResolverState;
use draft_engine::table::ChampionTable;

fn table() -> ChampionTable {
    let mut t = ChampionTable::new();
    t.push("Ahri".to_string(), 103);
    t.push("Zed".to_string(), 238);
    t.push("Lux".to_string(), 99);
    t.push("Jinx".to_string(), 222);
    t
}

fn prefs(names: &[&str]) -> PreferenceList {
    PreferenceList::new(names.iter().map(|s| s.to_string()).collect())
}

fn ban_action() -> Action {
    Action {
        id: 7,
        actor_cell_id: 2,
        kind: ActionKind::Ban,
        champion_id: 0,
        completed: false,
        in_progress: true,
    }
}

fn pick_action() -> Action {
    Action {
        id: 9,
        actor_cell_id: 2,
        kind: ActionKind::Pick,
        champion_id: 0,
        completed: false,
        in_progress: true,
    }
}

fn facts(phase: Phase, current: Option<Action>, banned: Vec<u32>) -> DraftFacts {
    DraftFacts {
        phase,
        local_cell_id: 2,
        assigned_position: None,
        current_action: current,
        banned,
    }
}

#[test]
fn ban_turn_first_choice_succeeds() {
    let f = facts(Phase::BanPick, Some(ban_action()), vec![]);
    let state = ResolverState::new();
    let (intent, out) = resolve(
        &f,
        &state,
        &prefs(&["Ahri", "Zed"]),
        &prefs(&["Lux"]),
        &table(),
        &vec![true, true],
    );
    let intent = intent.expect("a ban intent");
    assert_eq!(intent.action_id, 7);
    assert_eq!(intent.champion_id, 103);
    assert!(intent.completed);
    assert!(!out.is_banning);
    assert_eq!(out.ban_cursor, 0);
}

#[test]
fn ban_fallback_after_failed_submission() {
    // Preference bans ["Ahri", "Zed"]; the "Ahri" submission fails and
    // "Zed" succeeds: the resulting intent is Zed's, completed, with the
    // banning flag cleared and the cursor reset for the next turn.
    let f = facts(Phase::BanPick, Some(ban_action()), vec![]);
    let state = ResolverState::new();
    let (intent, out) = resolve(
        &f,
        &state,
        &prefs(&["Ahri", "Zed"]),
        &prefs(&["Lux"]),
        &table(),
        &vec![false, true],
    );
    let intent = intent.expect("a ban intent");
    assert_eq!(intent.champion_id, 238);
    assert!(intent.completed);
    assert!(!out.is_banning);
    assert_eq!(out.ban_cursor, 0);
}

#[test]
fn unknown_name_skipped_without_attempt() {
    // "Nobody" is absent from the table: it consumes no submission
    // outcome, so the single successful outcome belongs to "Zed".
    let f = facts(Phase::BanPick, Some(ban_action()), vec![]);
    let state = ResolverState::new();
    let (intent, _) = resolve(
        &f,
        &state,
        &prefs(&["Nobody", "Zed"]),
        &prefs(&["Lux"]),
        &table(),
        &vec![true, true],
    );
    assert_eq!(intent.expect("a ban intent").champion_id, 238);
}

#[test]
fn banned_champion_skipped_on_pick_turn() {
    // Ahri's id (103) is already banned: the pick turn must skip her
    // without attempting a submission and pick Zed instead.
    let f = facts(Phase::BanPick, Some(pick_action()), vec![103]);
    let state = ResolverState::new();
    let (intent, out) = resolve(
        &f,
        &state,
        &prefs(&["Lux"]),
        &prefs(&["Ahri", "Zed"]),
        &table(),
        &vec![true, true],
    );
    let intent = intent.expect("a pick intent");
    assert_eq!(intent.action_id, 9);
    assert_eq!(intent.champion_id, 238);
    assert!(intent.completed);
    assert!(!out.is_picking);
    assert_eq!(out.pick_cursor, 0);
}

#[test]
fn cursor_wraps_to_zero_when_every_entry_fails() {
    // Every submission of the three-entry ban list fails: no intent, and
    // the cursor is back at 0, ready to retry the full list next turn.
    let f = facts(Phase::BanPick, Some(ban_action()), vec![]);
    let state = ResolverState::new();
    let (intent, out) = resolve(
        &f,
        &state,
        &prefs(&["Ahri", "Zed", "Lux"]),
        &prefs(&["Jinx"]),
        &table(),
        &vec![false, false, false],
    );
    assert!(intent.is_none());
    assert_eq!(out.ban_cursor, 0);
    assert!(!out.is_banning);
}

#[test]
fn no_intent_when_all_picks_are_banned() {
    let f = facts(Phase::BanPick, Some(pick_action()), vec![103, 238]);
    let state = ResolverState::new();
    let (intent, out) = resolve(
        &f,
        &state,
        &prefs(&["Lux"]),
        &prefs(&["Ahri", "Zed"]),
        &table(),
        &vec![true, true],
    );
    assert!(intent.is_none());
    assert_eq!(out.pick_cursor, 0);
    assert!(!out.is_picking);
}

#[test]
fn terminal_in_game_state_is_inert() {
    // Once in_game is set, resolution returns no intent and the state
    // unchanged, whatever the facts say.
    let f = facts(Phase::BanPick, Some(ban_action()), vec![]);
    let mut state = ResolverState::new();
    state.in_game = true;
    state.have_prepicked = true;
    let (intent, out) = resolve(
        &f,
        &state,
        &prefs(&["Ahri"]),
        &prefs(&["Zed"]),
        &table(),
        &vec![true],
    );
    assert!(intent.is_none());
    assert_eq!(out, state);
}

#[test]
fn idle_when_no_current_action() {
    let f = facts(Phase::BanPick, None, vec![]);
    let state = ResolverState::new();
    let (intent, out) = resolve(
        &f,
        &state,
        &prefs(&["Ahri"]),
        &prefs(&["Zed"]),
        &table(),
        &vec![true],
    );
    assert!(intent.is_none());
    assert_eq!(out, state);
}

#[test]
fn idle_when_action_not_in_progress() {
    let mut act = ban_action();
    act.in_progress = false;
    let f = facts(Phase::BanPick, Some(act), vec![]);
    let state = ResolverState::new();
    let (intent, out) = resolve(
        &f,
        &state,
        &prefs(&["Ahri"]),
        &prefs(&["Zed"]),
        &table(),
        &vec![true],
    );
    assert!(intent.is_none());
    assert_eq!(out, state);
}

#[test]
fn prepick_uses_first_pick_preference() {
    let f = facts(Phase::Planning, Some(pick_action()), vec![]);
    let state = ResolverState::new();
    let (intent, out) = resolve(
        &f,
        &state,
        &prefs(&["Ahri"]),
        &prefs(&["Zed", "Lux"]),
        &table(),
        &vec![true, true],
    );
    let intent = intent.expect("a pre-pick intent");
    assert_eq!(intent.champion_id, 238);
    assert!(!intent.completed);
    assert!(out.have_prepicked);
}

#[test]
fn failed_prepick_leaves_flag_clear_for_retry() {
    let f = facts(Phase::Planning, Some(pick_action()), vec![]);
    let state = ResolverState::new();
    let (intent, out) = resolve(
        &f,
        &state,
        &prefs(&["Ahri"]),
        &prefs(&["Zed"]),
        &table(),
        &vec![false],
    );
    assert!(intent.is_some());
    assert!(!out.have_prepicked);
}

#[test]
fn no_second_prepick_once_flag_is_set() {
    let f = facts(Phase::Planning, Some(pick_action()), vec![]);
    let mut state = ResolverState::new();
    state.have_prepicked = true;
    let (intent, out) = resolve(
        &f,
        &state,
        &prefs(&["Ahri"]),
        &prefs(&["Zed"]),
        &table(),
        &vec![true],
    );
    assert!(intent.is_none());
    assert_eq!(out, state);
}

#[test]
fn stepwise_scan_matches_whole_turn() {
    // Drive the same fallback as ban_fallback_after_failed_submission
    // through the step pair: first attempt Ahri, fail, then Zed.
    let f = facts(Phase::BanPick, Some(ban_action()), vec![]);
    let bans = prefs(&["Ahri", "Zed"]);
    let picks = prefs(&["Lux"]);
    let t = table();
    let state = ResolverState::new();

    let (first, st) = next_attempt(&f, &state, &bans, &picks, &t);
    let first = first.expect("first candidate");
    assert_eq!(first.champion_id, 103);
    assert_eq!(st.ban_cursor, 0);
    assert!(st.is_banning);

    let st = apply_outcome(&f, &st, &bans, &picks, false);
    assert_eq!(st.ban_cursor, 1);
    assert!(st.is_banning);

    let (second, st) = next_attempt(&f, &st, &bans, &picks, &t);
    let second = second.expect("second candidate");
    assert_eq!(second.champion_id, 238);

    let st = apply_outcome(&f, &st, &bans, &picks, true);
    assert_eq!(st.ban_cursor, 0);
    assert!(!st.is_banning);
}

#[test]
fn stepwise_exhaustion_wraps_cursor() {
    let f = facts(Phase::BanPick, Some(ban_action()), vec![]);
    let bans = prefs(&["Ahri", "Zed"]);
    let picks = prefs(&["Lux"]);
    let t = table();
    let mut st = ResolverState::new();
    for _ in 0..2 {
        let (intent, parked) = next_attempt(&f, &st, &bans, &picks, &t);
        assert!(intent.is_some());
        st = apply_outcome(&f, &parked, &bans, &picks, false);
    }
    assert_eq!(st.ban_cursor, 0);
    assert!(!st.is_banning);
}

#[test]
fn resume_scan_from_mid_list_cursor() {
    let f = facts(Phase::BanPick, Some(ban_action()), vec![]);
    let mut state = ResolverState::new();
    state.ban_cursor = 1;
    let (intent, _) = resolve(
        &f,
        &state,
        &prefs(&["Ahri", "Zed"]),
        &prefs(&["Lux"]),
        &table(),
        &vec![true, true],
    );
    assert_eq!(intent.expect("a ban intent").champion_id, 238);
}
