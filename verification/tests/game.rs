use game_engine::game::{interaction_progress, parse_interaction_type, score_text, GameProgressEvent, GameState, InteractionType};

fn state() -> GameState {
    GameState { score: 0, level: 1, selected_critter_id: None, current_critter: None }
}

#[test]
fn score_and_level() {
    let mut s = state();
    s.apply_progress(&GameProgressEvent { score_change: 50, achievement: None });
    assert_eq!((s.score, s.level), (50, 1));
    s.apply_progress(&GameProgressEvent { score_change: 50, achievement: None });
    assert_eq!((s.score, s.level), (100, 2));
    s.apply_progress(&GameProgressEvent { score_change: 130, achievement: None });
    assert_eq!((s.score, s.level), (230, 3));
    // losing points never lowers the level, and the score stops at zero
    s.apply_progress(&GameProgressEvent { score_change: -500, achievement: None });
    assert_eq!((s.score, s.level), (0, 3));
}

#[test]
fn interaction_names() {
    assert!(matches!(parse_interaction_type("swipe"), InteractionType::Swipe { .. }));
    assert!(matches!(parse_interaction_type("hold"), InteractionType::Hold));
    assert!(matches!(parse_interaction_type("tap"), InteractionType::Tap));
    assert!(matches!(parse_interaction_type("Swipe"), InteractionType::Tap));
}

#[test]
fn interaction_points() {
    let (e, unlock) = interaction_progress(InteractionType::Tap, "Bird");
    assert_eq!(e.score_change, 50);
    assert_eq!(e.achievement.as_deref(), Some("Bird caught!"));
    assert!(unlock);
    let (e, unlock) = interaction_progress(parse_interaction_type("swipe"), "Bird");
    assert_eq!(e.score_change, 25);
    assert!(e.achievement.is_none());
    assert!(!unlock);
    let (e, _) = interaction_progress(InteractionType::Hold, "Bunny");
    assert_eq!(e.score_change, 30);
}

#[test]
fn selection_and_spawning() {
    let mut s = state();
    assert!(!s.should_spawn());
    let ids = vec!["bunny".to_string(), "bird".to_string()];
    assert!(!s.select_critter("bird", None));
    assert!(s.selected_critter_id.is_none());
    assert!(!s.select_critter("dog", Some(&ids)));
    assert!(s.selected_critter_id.is_none());
    assert!(s.select_critter("bird", Some(&ids)));
    assert_eq!(s.selected_critter_id.as_deref(), Some("bird"));
    assert!(s.should_spawn());
    s.current_critter = Some(7);
    assert!(!s.should_spawn());
    s.clear_current_critter(8);
    assert_eq!(s.current_critter, Some(7));
    s.clear_current_critter(7);
    assert_eq!(s.current_critter, None);
}

#[test]
fn score_line() {
    assert_eq!(score_text(230, 3), "Score: 230 | Level: 3");
    assert_eq!(score_text(0, 1), "Score: 0 | Level: 1");
}
