use game_engine::catalog::CritterSoundSet;
use game_engine::critters::{catch_critter, plan_spawn, CritterSprite, ScenePoint};
use game_engine::game::{GameState, InteractionType};
use game_engine::ieee::Real32;
use game_engine::keyed::KeyedList;
use game_engine::sprites::{FrameLayout, LayoutType};

fn sounds() -> KeyedList<CritterSoundSet> {
    let mut s = KeyedList::new();
    s.insert("bird".to_string(), CritterSoundSet { entry: "/audio/in.ogg".to_string(), success: "/audio/yay.ogg".to_string() });
    s
}

fn bird_sprite() -> CritterSprite {
    CritterSprite {
        path: "sprites/bird.png".to_string(),
        layout: FrameLayout { frame_size: (32, 32), frame_count: 4, layout: LayoutType::Grid { cols: 2, rows: 2 } },
        idle_frames: vec![1, 2],
    }
}

fn bunny_sprite() -> CritterSprite {
    CritterSprite {
        path: "bunny.png".to_string(),
        layout: FrameLayout { frame_size: (64, 64), frame_count: 4, layout: LayoutType::Horizontal },
        idle_frames: vec![0],
    }
}

fn at(x: f32, y: f32) -> (Real32, Real32) {
    (Real32 { bits: x.to_bits() }, Real32 { bits: y.to_bits() })
}

fn point(x: f32, y: f32, z: f32) -> ScenePoint {
    ScenePoint { x: Real32 { bits: x.to_bits() }, y: Real32 { bits: y.to_bits() }, z: Real32 { bits: z.to_bits() } }
}

#[test]
fn spawn_only_when_selected_and_free() {
    let sprite = bird_sprite();
    let mut state = GameState { score: 0, level: 1, selected_critter_id: None, current_critter: None };
    assert!(plan_spawn(&mut state, 7, at(0.0, 0.0), Some(&sprite), "https://host", true, &sounds()).is_none());
    assert_eq!(state.current_critter, None);
    state.selected_critter_id = Some("bird".to_string());
    assert!(plan_spawn(&mut state, 7, at(0.0, 0.0), None, "https://host", true, &sounds()).is_none());
    assert_eq!(state.current_critter, None);
    let p = plan_spawn(&mut state, 7, at(0.0, 0.0), Some(&sprite), "https://host", true, &sounds()).unwrap();
    assert_eq!(state.current_critter, Some(7));
    assert_eq!(p.critter_id, "bird");
    assert_eq!(p.sprite_url, "https://host/sprites/bird.png");
    assert_eq!(p.initial_rect, Some(((32, 32), (64, 64))));
    assert_eq!(p.entry_sound.as_deref(), Some("audio/in.ogg"));
    assert_eq!(p.frame_count, 4);
    assert_eq!(p.current_frame, 0);
    assert!(p.repeat);
    state.current_critter = None;
    let quiet = plan_spawn(&mut state, 8, at(0.0, 0.0), Some(&sprite), "", false, &sounds()).unwrap();
    assert_eq!(quiet.sprite_url, "/sprites/bird.png");
    assert!(quiet.entry_sound.is_none());
    assert_eq!(state.current_critter, Some(8));
    state.current_critter = Some(3);
    assert!(plan_spawn(&mut state, 9, at(0.0, 0.0), Some(&sprite), "https://host", true, &sounds()).is_none());
    assert_eq!(state.current_critter, Some(3));
}

#[test]
fn two_spawn_events_in_one_frame_spawn_one_critter() {
    let sprite = bunny_sprite();
    let mut state = GameState { score: 0, level: 1, selected_critter_id: Some("bunny".to_string()), current_critter: None };
    let first = plan_spawn(&mut state, 42, at(0.0, 0.0), Some(&sprite), "", false, &KeyedList::new()).unwrap();
    assert_eq!(state.current_critter, Some(42));
    assert_eq!(first.translation, point(0.0, 0.0, 100.0));
    assert_eq!(first.sprite_url, "/bunny.png");
    assert_eq!(first.initial_rect, Some(((0, 0), (64, 64))));
    assert_eq!(first.frame_count, 4);
    assert_eq!(first.current_frame, 0);
    assert!(first.repeat);
    assert_eq!(first.critter_id, "bunny");
    let second = plan_spawn(&mut state, 43, at(10.0, 10.0), Some(&sprite), "", false, &KeyedList::new());
    assert!(second.is_none());
    assert_eq!(state.current_critter, Some(42));
}

#[test]
fn catching_frees_the_stage_for_the_next_critter() {
    let sprite = bunny_sprite();
    let mut state = GameState { score: 0, level: 1, selected_critter_id: Some("bunny".to_string()), current_critter: None };
    assert!(plan_spawn(&mut state, 1, at(5.0, 5.0), Some(&sprite), "", false, &KeyedList::new()).is_some());
    let out = catch_critter(&mut state, 1, point(5.0, 5.0, 100.0), InteractionType::Hold, "Bun", Some("bunny"), &KeyedList::new());
    assert_eq!(out.explosion_at, point(5.0, 5.0, 100.0));
    assert_eq!(state.current_critter, None);
    assert!(plan_spawn(&mut state, 2, at(1.0, 2.0), Some(&sprite), "", false, &KeyedList::new()).is_some());
    assert_eq!(state.current_critter, Some(2));
}

#[test]
fn catching_critters() {
    let mut state = GameState { score: 0, level: 1, selected_critter_id: Some("bird".to_string()), current_critter: Some(9) };
    let out = catch_critter(&mut state, 9, point(1.5, -2.0, 100.0), InteractionType::Tap, "Birdie", Some("bird"), &sounds());
    assert_eq!(state.current_critter, None);
    assert_eq!(out.progress.score_change, 50);
    assert_eq!(out.progress.achievement.as_deref(), Some("Birdie caught!"));
    assert!(out.unlock_audio);
    assert_eq!(out.success_sound.as_deref(), Some("audio/yay.ogg"));
    assert_eq!(out.explosion_at, point(1.5, -2.0, 100.0));
    state.current_critter = Some(4);
    let swipe = InteractionType::Swipe { dx: Real32 { bits: 0 }, dy: Real32 { bits: 0 } };
    let out = catch_critter(&mut state, 5, point(3.0, 4.0, 100.0), swipe, "Birdie", Some("bird"), &sounds());
    assert_eq!(state.current_critter, Some(4));
    assert_eq!(out.progress.score_change, 25);
    assert_eq!(out.explosion_at, point(3.0, 4.0, 100.0));
    let out = catch_critter(&mut state, 5, point(0.0, 0.0, 100.0), InteractionType::Hold, "Birdie", Some("bird"), &sounds());
    assert_eq!(state.current_critter, Some(4));
    assert_eq!(out.progress.score_change, 30);
    assert!(out.success_sound.is_none());
    assert!(!out.unlock_audio);
}
