//! What happens to critters on screen: when one appears and how it looks,
//! and what catching one does to the game.
use vstd::prelude::*;
use crate::catalog::{
    entry_sound_url, resolve_sprite_url, sound_url, sprite_url, success_sound_url, CritterSoundSet,
};
use crate::game::{interaction_progress, points_for, GameProgressEvent, GameState, InteractionType};
use crate::ieee::Real32;
use crate::keyed::KeyedList;
use crate::sprites::{
    first_sheet_frame, frame_origins, frame_rect, frame_rect_of, generate_grid_coordinates,
    lemma_origins_bounded, origin_views, FrameLayout,
};

verus! {

/// A critter's sprite sheet as the catalog describes it.
#[derive(Clone, Debug)]
pub struct CritterSprite {
    /// Path or URL of the sheet image.
    pub path: String,
    pub layout: FrameLayout,
    /// Sheet frame numbers of the idle animation.
    pub idle_frames: Vec<usize>,
}

/// A point of the scene: binary32 coordinates, `z` the depth.
#[derive(Clone, Copy, Debug, PartialEq, Eq)]
pub struct ScenePoint {
    pub x: Real32,
    pub y: Real32,
    pub z: Real32,
}

/// How a critter that appears is shown.
#[derive(Clone, Debug)]
pub struct SpawnPlan {
    /// Catalog id of the critter.
    pub critter_id: String,
    /// URL of its sheet image.
    pub sprite_url: String,
    /// Rectangle of the sheet shown first, if the first idle frame is on
    /// the sheet.
    pub initial_rect: Option<((u64, u64), (u64, u64))>,
    /// Where it stands: the spawn point, in front of the scene.
    pub translation: ScenePoint,
    /// Number of frames its animation cycles through.
    pub frame_count: usize,
    /// The animation frame it starts at.
    pub current_frame: usize,
    /// Whether its animation loops.
    pub repeat: bool,
    /// Entry sound to play, if audio is unlocked and the critter has one.
    pub entry_sound: Option<String>,
}

/// The frame shown first: the first idle frame, or frame 0.
pub open spec fn first_frame(frames: Seq<usize>) -> int {
    if frames.len() == 0 { 0 } else { frames[0] as int }
}

/// The depth at which critters stand: 100.0, as a binary32 bit pattern.
pub open spec fn spawn_depth() -> Real32 {
    Real32 { bits: 0x42C8_0000 }
}

/// Whether a critter appears: one is selected, none is on screen, and the
/// catalog describes the selected one.
pub open spec fn spawn_allowed(state: GameState, described: bool) -> bool {
    state.selected_critter_id is Some && state.current_critter is None && described
}

/// The game after the critter `entity` appeared: it is the current one.
pub open spec fn spawned(state: GameState, entity: u64) -> GameState {
    GameState { current_critter: Some(entity), ..state }
}

/// The game after the critter `entity` was caught: if it was the current
/// one, none is.
pub open spec fn caught(state: GameState, entity: u64) -> GameState {
    GameState {
        current_critter: if state.current_critter == Some(entity) { None } else { state.current_critter },
        ..state
    }
}

/// A spawn request at `position`: decides whether a critter appears and
/// how, and records the new critter `entity` as the current one. A critter
/// appears only when one is selected, none is on screen, and the catalog
/// describes the selected one (`sprite`); otherwise nothing changes. Its
/// sheet URL is resolved against the page `origin`; its animation starts at
/// frame 0 and loops over the layout's frames.
pub fn plan_spawn(
    state: &mut GameState,
    entity: u64,
    position: (Real32, Real32),
    sprite: Option<&CritterSprite>,
    origin: &str,
    audio_enabled: bool,
    sounds: &KeyedList<CritterSoundSet>,
) -> (r: Option<SpawnPlan>)
    ensures
        r is Some <==> spawn_allowed(*old(state), sprite is Some),
        r is Some ==> *final(state) == spawned(*old(state), entity),
        r is None ==> *final(state) == *old(state),
        r matches Some(p) ==> {
            let id = old(state).selected_critter_id->0@;
            let s = *sprite->0;
            &&& p.critter_id@ == id
            &&& p.sprite_url@ == sprite_url(s.path@, origin@)
            &&& match p.initial_rect {
                Some(((x0, y0), (x1, y1))) => frame_rect_of(frame_origins(s.layout), first_frame(s.idle_frames@), s.layout.frame_size)
                    == Some(((x0 as int, y0 as int), (x1 as int, y1 as int))),
                None => frame_rect_of(frame_origins(s.layout), first_frame(s.idle_frames@), s.layout.frame_size) is None,
            }
            &&& p.translation == (ScenePoint { x: position.0, y: position.1, z: spawn_depth() })
            &&& p.frame_count == s.layout.frame_count
            &&& p.current_frame == 0
            &&& p.repeat
            &&& (p.entry_sound is Some <==> audio_enabled && sounds@.contains_key(id))
            &&& (p.entry_sound matches Some(u) ==> u@ == sound_url(sounds@[id].entry@))
        },
{
    if state.current_critter.is_some() {
        return None;
    }
    let id = match &state.selected_critter_id {
        Some(id) => id.clone(),
        None => return None,
    };
    let s = match sprite {
        Some(s) => s,
        None => return None,
    };
    let url = resolve_sprite_url(s.path.as_str(), origin);
    let coords = generate_grid_coordinates(&s.layout);
    proof {
        lemma_origins_bounded(s.layout);
        assert forall|i: int| 0 <= i < coords@.len() implies coords@[i].0 <= crate::sprites::origin_bound()
            && coords@[i].1 <= crate::sprites::origin_bound() by {
            assert(origin_views(coords@)[i] == frame_origins(s.layout)[i]);
        }
    }
    let first = first_sheet_frame(&s.idle_frames);
    let rect = frame_rect(&coords, first, s.layout.frame_size);
    let entry = entry_sound_url(audio_enabled, sounds, id.as_str());
    state.current_critter = Some(entity);
    Some(SpawnPlan {
        critter_id: id,
        sprite_url: url,
        initial_rect: rect,
        translation: ScenePoint { x: position.0, y: position.1, z: Real32 { bits: 0x42C8_0000 } },
        frame_count: s.layout.frame_count as usize,
        current_frame: 0,
        repeat: true,
        entry_sound: entry,
    })
}

/// Only one critter at a time: the critter that appeared is the current
/// one, and no other appears while it is on screen.
pub proof fn law_one_critter_at_a_time(state: GameState, entity: u64, described: bool)
    ensures
        spawned(state, entity).current_critter == Some(entity),
        !spawn_allowed(spawned(state, entity), described),
{
}

/// Catching the critter on screen lets the next one appear; catching
/// another one does not.
pub proof fn law_catch_frees_the_stage(state: GameState, entity: u64, other: u64)
    requires
        spawn_allowed(state, true),
        other != entity,
    ensures
        spawn_allowed(caught(spawned(state, entity), entity), true),
        !spawn_allowed(caught(spawned(state, entity), other), true),
        caught(spawned(state, entity), entity) == state,
{
}

/// What catching a critter does beyond the game state.
#[derive(Clone, Debug)]
pub struct CatchOutcome {
    /// The score change to apply.
    pub progress: GameProgressEvent,
    /// Whether the gesture unlocks audio.
    pub unlock_audio: bool,
    /// The success sound to play, if any.
    pub success_sound: Option<String>,
    /// Where the caught critter explodes: where it stood.
    pub explosion_at: ScenePoint,
}

/// Catching the on-screen critter `entity` (named `name`, with catalog id
/// `critter_id` when it is animated, standing at `position`) by `kind`: it
/// explodes where it stood and is no longer the current critter; a tap
/// earns 50 points and "<name> caught!", unlocks audio and plays the
/// critter's success sound; a swipe earns 25, a hold 30.
pub fn catch_critter(
    state: &mut GameState,
    entity: u64,
    position: ScenePoint,
    kind: InteractionType,
    name: &str,
    critter_id: Option<&str>,
    sounds: &KeyedList<CritterSoundSet>,
) -> (r: CatchOutcome)
    ensures
        *final(state) == caught(*old(state), entity),
        r.explosion_at == position,
        r.progress.score_change == points_for(kind),
        kind is Tap ==> (r.progress.achievement matches Some(a) && a@ == name@ + " caught!"@),
        !(kind is Tap) ==> r.progress.achievement is None,
        r.unlock_audio == (kind is Tap),
        r.success_sound is Some <==> (kind is Tap && critter_id is Some && sounds@.contains_key(critter_id->0@)),
        r.success_sound matches Some(u) ==> u@ == sound_url(sounds@[critter_id->0@].success@),
{
    state.clear_current_critter(entity);
    let (progress, unlock_audio) = interaction_progress(kind, name);
    let success_sound = match (kind, critter_id) {
        (InteractionType::Tap, Some(c)) => success_sound_url(sounds, c),
        _ => None,
    };
    CatchOutcome { progress, unlock_audio, success_sound, explosion_at: position }
}

} // verus!
