use draft_engine::facts::interpret;
use draft_engine::facts::ActionKind;
use draft_engine::facts::Phase;
use draft_engine::prefs::PreferenceList;
use draft_engine::snapshot::RawAction;
use draft_engine::snapshot::Snapshot;
use draft_engine::snapshot::TeamMember;
use draft_engine::table::ChampionTable;

fn raw(id: i64, actor: i64, kind: &str, champ: u32, completed: bool, in_progress: bool) -> RawAction {
    RawAction {
        id,
        actor_cell_id: actor,
        kind: kind.to_string(),
        champion_id: champ,
        completed,
        in_progress,
    }
}

#[test]
fn empty_snapshot_degrades_to_defaults() {
    let s = Snapshot { phase: None, local_player_cell_id: None, my_team: None, actions: None };
    let f = interpret(&s);
    assert_eq!(f.phase, Phase::Other);
    assert_eq!(f.local_cell_id, -1);
    assert!(f.assigned_position.is_none());
    assert!(f.current_action.is_none());
    assert!(f.banned.is_empty());
}

#[test]
fn unknown_phase_string_maps_to_other() {
    let s = Snapshot {
        phase: Some("GAME_STARTING".to_string()),
        local_player_cell_id: Some(0),
        my_team: None,
        actions: None,
    };
    assert_eq!(interpret(&s).phase, Phase::Other);
}

#[test]
fn phase_strings_decode() {
    for (text, phase) in [
        ("PLANNING", Phase::Planning),
        ("BAN_PICK", Phase::BanPick),
        ("FINALIZATION", Phase::Finalization),
    ] {
        let s = Snapshot {
            phase: Some(text.to_string()),
            local_player_cell_id: Some(0),
            my_team: None,
            actions: None,
        };
        assert_eq!(interpret(&s).phase, phase);
    }
}

#[test]
fn full_snapshot_is_interpreted() {
    let s = Snapshot {
        phase: Some("BAN_PICK".to_string()),
        local_player_cell_id: Some(2),
        my_team: Some(vec![
            TeamMember { cell_id: 1, assigned_position: "top".to_string() },
            TeamMember { cell_id: 2, assigned_position: "middle".to_string() },
        ]),
        actions: Some(vec![
            vec![
                raw(1, 0, "ban", 103, true, false),
                raw(2, 1, "ban", 238, true, false),
            ],
            vec![
                raw(3, 5, "ban", 99, false, false),
                raw(4, 2, "ban", 0, false, true),
            ],
        ]),
    };
    let f = interpret(&s);
    assert_eq!(f.phase, Phase::BanPick);
    assert_eq!(f.local_cell_id, 2);
    assert_eq!(f.assigned_position.as_deref(), Some("middle"));
    assert_eq!(f.banned, vec![103, 238]);
    let act = f.current_action.expect("the in-progress action of cell 2");
    assert_eq!(act.id, 4);
    assert_eq!(act.kind, ActionKind::Ban);
    assert!(act.in_progress);
}

#[test]
fn incomplete_bans_are_not_collected() {
    let s = Snapshot {
        phase: Some("BAN_PICK".to_string()),
        local_player_cell_id: Some(0),
        my_team: None,
        actions: Some(vec![vec![
            raw(1, 0, "ban", 103, false, false),
            raw(2, 1, "pick", 238, true, false),
        ]]),
    };
    assert!(interpret(&s).banned.is_empty());
}

#[test]
fn other_players_actions_are_not_current() {
    let s = Snapshot {
        phase: Some("BAN_PICK".to_string()),
        local_player_cell_id: Some(2),
        my_team: None,
        actions: Some(vec![vec![raw(1, 3, "pick", 0, false, true)]]),
    };
    assert!(interpret(&s).current_action.is_none());
}

#[test]
fn pick_kind_decodes_and_first_match_wins() {
    let s = Snapshot {
        phase: Some("BAN_PICK".to_string()),
        local_player_cell_id: Some(2),
        my_team: None,
        actions: Some(vec![vec![
            raw(5, 2, "pick", 0, false, true),
            raw(6, 2, "ban", 0, false, true),
        ]]),
    };
    let act = interpret(&s).current_action.expect("an action");
    assert_eq!(act.id, 5);
    assert_eq!(act.kind, ActionKind::Pick);
}

#[test]
fn table_lookup_finds_first_match() {
    let mut t = ChampionTable::new();
    t.push("Ahri".to_string(), 103);
    t.push("Zed".to_string(), 238);
    t.push("Ahri".to_string(), 999);
    assert_eq!(t.get(&"Ahri".to_string()), Some(103));
    assert_eq!(t.get(&"Zed".to_string()), Some(238));
    assert_eq!(t.get(&"Lux".to_string()), None);
}

#[test]
fn preference_list_deduplicates_keeping_first() {
    let p = PreferenceList::new(vec![
        "Ahri".to_string(),
        "Zed".to_string(),
        "Ahri".to_string(),
        "Lux".to_string(),
        "Zed".to_string(),
    ]);
    assert_eq!(p.len(), 3);
    assert_eq!(p.get(0).as_str(), "Ahri");
    assert_eq!(p.get(1).as_str(), "Zed");
    assert_eq!(p.get(2).as_str(), "Lux");
}

#[test]
fn empty_preference_list_is_allowed() {
    let p = PreferenceList::new(Vec::new());
    assert_eq!(p.len(), 0);
}
