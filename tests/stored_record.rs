use snake_draft::draft::{DraftError, DraftPhase, DraftState};
use snake_draft::player::Player;
use snake_draft::record::{phase_from_name, phase_to_name, DraftRecord};
use snake_draft::team::Team;

fn player(ign: &str) -> Player {
    Player {
        name: ign.to_string(),
        peak_rank: "Radiant".to_string(),
        current_rank: "Immortal".to_string(),
        teammate_preferences: Some("none".to_string()),
        roles: None,
        ign: ign.to_string(),
        current_rank_order: 8,
        peak_rank_order: 9,
        drafted: false,
    }
}

fn record(phase: &str, turn: i64, direction: i64, teams: usize) -> DraftRecord {
    DraftRecord {
        phase: phase.to_string(),
        teams: (0..teams).map(|i| Team::new(i as i64, format!("T{}", i), format!("o{}", i))).collect(),
        current_turn: turn,
        drafted_players: vec![],
        direction,
    }
}

#[test]
fn record_round_trip_keeps_every_field() {
    let mut s = DraftState::default();
    let teams = vec![Team::new(1, "X".to_string(), "x".to_string()), Team::new(2, "Y".to_string(), "y".to_string())];
    s.begin_drafting(teams, vec![player("old")]);
    assert_eq!(s.pick("x", player("ace#1")), Ok(()));
    assert_eq!(s.pick("y", player("ace#2")), Ok(()));
    let rec = s.clone().into_record();
    assert_eq!(rec.phase, "Drafting");
    assert_eq!(rec.into_session(), Ok(s));
}

#[test]
fn waiting_record_round_trip() {
    let s = DraftState::default();
    let rec = s.clone().into_record();
    assert_eq!(rec.phase, "Waiting");
    assert_eq!(rec.into_session(), Ok(s));
}

#[test]
fn unknown_phase_is_a_decoding_failure() {
    assert_eq!(record("Paused", 0, 1, 2).into_session(), Err(DraftError::SerializationFailure));
}

#[test]
fn bad_direction_is_a_decoding_failure() {
    assert_eq!(record("Drafting", 0, 0, 2).into_session(), Err(DraftError::SerializationFailure));
}

#[test]
fn turn_out_of_bounds_is_invalid_turn() {
    assert_eq!(record("Drafting", 2, 1, 2).into_session(), Err(DraftError::InvalidTurn));
    assert_eq!(record("Drafting", -1, 1, 2).into_session(), Err(DraftError::InvalidTurn));
}

#[test]
fn waiting_record_may_hold_any_turn() {
    let s = record("Waiting", 5, -1, 0).into_session().unwrap();
    assert_eq!(s.phase, DraftPhase::Waiting);
    assert_eq!(s.current_turn, 5);
}

#[test]
fn restore_uses_a_valid_record() {
    let s = DraftState::restore(Some(record("Drafting", 1, -1, 3)));
    assert_eq!(s.phase, DraftPhase::Drafting);
    assert_eq!(s.current_turn, 1);
    assert_eq!(s.direction, -1);
    assert_eq!(s.teams.len(), 3);
}

#[test]
fn restore_falls_back_to_waiting() {
    assert_eq!(DraftState::restore(None), DraftState::default());
    assert_eq!(DraftState::restore(Some(record("Drafting", 9, 1, 3))), DraftState::default());
}

#[test]
fn phase_names() {
    assert_eq!(phase_to_name(DraftPhase::Waiting), "Waiting");
    assert_eq!(phase_to_name(DraftPhase::Drafting), "Drafting");
    assert_eq!(phase_from_name("Waiting"), Some(DraftPhase::Waiting));
    assert_eq!(phase_from_name("Drafting"), Some(DraftPhase::Drafting));
    assert_eq!(phase_from_name("drafting"), None);
}
