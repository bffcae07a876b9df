//! Game rules: score and level, what each interaction with a critter is
//! worth, which critter is selected and when one appears.
use vstd::prelude::*;
use vstd::string::*;
use crate::ieee::Real32;
use crate::text::{decimal, decimal_string, str_eq, views};

verus! {

/// How the player touched a critter.
#[derive(Clone, Copy, Debug, PartialEq, Eq)]
pub enum InteractionType {
    Tap,
    /// A swipe, with its direction.
    Swipe { dx: Real32, dy: Real32 },
    Hold,
}

/// The interaction a gesture name stands for: "swipe" and "hold" are
/// themselves (a swipe with a zero direction); anything else is a tap.
pub open spec fn interaction_for(name: Seq<char>) -> InteractionType {
    if name == "swipe"@ {
        InteractionType::Swipe { dx: Real32 { bits: 0 }, dy: Real32 { bits: 0 } }
    } else if name == "hold"@ {
        InteractionType::Hold
    } else {
        InteractionType::Tap
    }
}

/// The interaction a gesture name from the page stands for.
pub fn parse_interaction_type(name: &str) -> (r: InteractionType)
    ensures
        r == interaction_for(name@),
{
    if str_eq(name, "swipe") {
        InteractionType::Swipe { dx: Real32 { bits: 0 }, dy: Real32 { bits: 0 } }
    } else if str_eq(name, "hold") {
        InteractionType::Hold
    } else {
        InteractionType::Tap
    }
}

/// A change of score, with an optional achievement message.
#[derive(Clone, Debug)]
pub struct GameProgressEvent {
    pub score_change: i32,
    pub achievement: Option<String>,
}

/// What catching a critter by `kind` earns: a tap 50 points and the
/// achievement "<name> caught!", a swipe 25, a hold 30.
pub open spec fn points_for(kind: InteractionType) -> i32 {
    match kind {
        InteractionType::Tap => 50,
        InteractionType::Swipe { .. } => 25,
        InteractionType::Hold => 30,
    }
}

/// The progress event for catching the critter `name` by `kind`; a tap also
/// counts as the user gesture that unlocks audio.
pub fn interaction_progress(kind: InteractionType, name: &str) -> (r: (GameProgressEvent, bool))
    ensures
        r.0.score_change == points_for(kind),
        kind is Tap ==> (r.0.achievement matches Some(a) && a@ == name@ + " caught!"@),
        !(kind is Tap) ==> r.0.achievement is None,
        r.1 == (kind is Tap),
{
    match kind {
        InteractionType::Tap => {
            let a = String::from_str(name).concat(" caught!");
            (GameProgressEvent { score_change: 50, achievement: Some(a) }, true)
        },
        InteractionType::Swipe { .. } => (GameProgressEvent { score_change: 25, achievement: None }, false),
        InteractionType::Hold => (GameProgressEvent { score_change: 30, achievement: None }, false),
    }
}

/// Score, level and critter selection of a game.
#[derive(Clone, Debug)]
pub struct GameState {
    pub score: u32,
    pub level: u32,
    /// The critter kind chosen by the player, by catalog id.
    pub selected_critter_id: Option<String>,
    /// The critter on screen, by entity handle.
    pub current_critter: Option<u64>,
}

/// The score after a change: never below zero.
pub open spec fn next_score(score: u32, change: i32) -> int {
    let s = (score as i32) + change;
    if s < 0 { 0 } else { s }
}

/// The level a score has reached: one per full hundred points, from 1.
pub open spec fn level_for(score: int) -> int {
    score / 100 + 1
}

impl GameState {
    /// Applies one progress event: the score moves by its change (not below
    /// zero) and the level rises to the one the score reached, never falls.
    pub fn apply_progress(&mut self, event: &GameProgressEvent)
        requires
            i32::MIN <= (old(self).score as i32) + event.score_change <= i32::MAX,
        ensures
            final(self).score == next_score(old(self).score, event.score_change),
            final(self).level == (if level_for(final(self).score as int) > old(self).level {
                level_for(final(self).score as int)
            } else {
                old(self).level as int
            }),
            final(self).selected_critter_id == old(self).selected_critter_id,
            final(self).current_critter == old(self).current_critter,
    {
        let s: i32 = (self.score as i32) + event.score_change;
        self.score = if s < 0 { 0 } else { s as u32 };
        let new_level: u32 = self.score / 100 + 1;
        if new_level > self.level {
            self.level = new_level;
        }
    }

    /// Forgets the critter on screen if it is `entity`.
    pub fn clear_current_critter(&mut self, entity: u64)
        ensures
            final(self).current_critter == (if old(self).current_critter == Some(entity) {
                None
            } else {
                old(self).current_critter
            }),
            final(self).score == old(self).score,
            final(self).level == old(self).level,
            final(self).selected_critter_id == old(self).selected_critter_id,
    {
        if self.current_critter == Some(entity) {
            self.current_critter = None;
        }
    }

    /// Whether a critter should appear now: one is selected and none is on
    /// screen.
    pub fn should_spawn(&self) -> (b: bool)
        ensures
            b == (self.selected_critter_id is Some && self.current_critter is None),
    {
        self.selected_critter_id.is_some() && self.current_critter.is_none()
    }

    /// Selects the critter `id` when the catalog is loaded (`catalog_ids`
    /// holds the ids it knows) and knows it; returns whether it did.
    pub fn select_critter(&mut self, id: &str, catalog_ids: Option<&Vec<String>>) -> (b: bool)
        ensures
            b == (catalog_ids matches Some(ids) && views(ids@).contains(id@)),
            b ==> (final(self).selected_critter_id matches Some(s) && s@ == id@),
            !b ==> final(self).selected_critter_id == old(self).selected_critter_id,
            final(self).score == old(self).score,
            final(self).level == old(self).level,
            final(self).current_critter == old(self).current_critter,
    {
        let known = match catalog_ids {
            Some(ids) => {
                let mut found = false;
                let mut i: usize = 0;
                while i < ids.len()
                    invariant
                        i <= ids@.len(),
                        found == exists|j: int| 0 <= j < i && ids@[j]@ == id@,
                    decreases ids@.len() - i,
                {
                    if str_eq(ids[i].as_str(), id) {
                        found = true;
                    }
                    i = i + 1;
                }
                proof {
                    if found {
                        let j = choose|j: int| 0 <= j < i && ids@[j]@ == id@;
                        assert(views(ids@)[j] == id@);
                    } else if views(ids@).contains(id@) {
                        let j = choose|j: int| 0 <= j < views(ids@).len() && views(ids@)[j] == id@;
                        assert(ids@[j]@ == id@);
                    }
                }
                found
            },
            None => false,
        };
        if known {
            self.selected_critter_id = Some(String::from_str(id));
        }
        known
    }
}

/// The score line: "Score: <score> | Level: <level>".
pub fn score_text(score: u32, level: u32) -> (r: String)
    ensures
        r@ == "Score: "@ + decimal(score as nat) + " | Level: "@ + decimal(level as nat),
{
    let mut r = String::from_str("Score: ");
    r.append(decimal_string(score as u64).as_str());
    r.append(" | Level: ");
    r.append(decimal_string(level as u64).as_str());
    r
}

/// The score never goes below zero, and a gain never lowers it.
pub proof fn law_score_stays_non_negative(score: u32, change: i32)
    requires
        score <= i32::MAX,
        i32::MIN <= score + change <= i32::MAX,
    ensures
        next_score(score, change) >= 0,
        change >= 0 ==> next_score(score, change) == score + change,
        next_score(score, change) == (if score + change < 0 { 0 } else { score + change }),
{
    assert((score as i32) as int == score as int);
}

/// The level never falls, and always covers the score reached: it is at
/// least one more than the number of full hundreds.
pub proof fn law_level_never_falls(old_level: u32, new_level: int, score: int)
    requires
        new_level == (if level_for(score) > old_level { level_for(score) } else { old_level as int }),
    ensures
        new_level >= old_level,
        new_level >= level_for(score),
{
}

/// After a progress event the level is the larger of the old level and the
/// level the new score reached: one per full hundred points, counted from 1,
/// without bound. The score is the old score plus the change, never below
/// zero.
pub proof fn law_progress_sets_level(pre: GameState, post: GameState, change: i32)
    requires
        post.score == next_score(pre.score, change),
        post.level == (if level_for(post.score as int) > pre.level {
            level_for(post.score as int)
        } else {
            pre.level as int
        }),
    ensures
        post.level == (if post.score / 100 + 1 > pre.level { post.score / 100 + 1 } else { pre.level as int }),
        post.level >= post.score / 100 + 1,
        post.level >= pre.level,
        pre.score <= i32::MAX ==> post.score == (if pre.score + change < 0 { 0 } else { pre.score + change }),
{
    if pre.score <= i32::MAX {
        assert((pre.score as i32) as int == pre.score as int);
    }
}

} // verus!
