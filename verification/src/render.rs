//! What a renderer gets to see of a session.
use vstd::prelude::*;
use crate::geometry::Rect;
use crate::roster::{bounds_of, collect_bounds};
use crate::session::Session;

verus! {

/// A read-only picture of a session between two ticks: where everything
/// is, and the counters that are shown on screen.
#[derive(Clone, Debug, PartialEq, Eq)]
pub struct Snapshot {
    pub player: Rect,
    pub player_invincible: bool,
    /// Whether the blinking player shows in this frame.
    pub player_visible: bool,
    pub bullets: Vec<Rect>,
    pub enemies: Vec<Rect>,
    pub score: u32,
    pub lives: u32,
    pub game_over: bool,
}

impl Session {
    /// Takes the picture. The boxes of the bullets and of the enemies
    /// come in the order of their collections.
    pub fn snapshot(&self) -> (shot: Snapshot)
        ensures
            shot.player == self.player.entity.bounds(),
            shot.player_invincible == self.player.is_invincible(),
            shot.player_visible == self.player.is_visible(),
            shot.bullets@ == bounds_of(self.bullets@),
            shot.enemies@ == bounds_of(self.enemies@),
            shot.score == self.score,
            shot.lives == self.player.lives,
            shot.game_over == self.game_over,
    {
        Snapshot {
            player: self.player.entity.bounds(),
            player_invincible: self.player.is_invincible(),
            player_visible: self.player.is_visible(),
            bullets: collect_bounds(&self.bullets),
            enemies: collect_bounds(&self.enemies),
            score: self.score,
            lives: self.player.lives,
            game_over: self.game_over,
        }
    }
}

} // verus!
