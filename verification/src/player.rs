//! The player's ship: a body, a count of lives and the timer of the
//! immunity that follows each hit.
use vstd::prelude::*;
use crate::config::{BLINK_PERIOD, PLAYER_HALF_SIZE};
use crate::entity::Entity;
use crate::geometry::Vec2;

verus! {

/// The player. While `invincible_timer` is positive the player cannot be
/// damaged; it counts down in milliseconds and stops at zero.
#[derive(Clone, Copy, Debug, PartialEq, Eq)]
pub struct Player {
    pub entity: Entity,
    pub lives: u32,
    pub invincible_timer: u32,
}

/// One less than `lives`, but never below zero.
pub open spec fn one_life_less(lives: u32) -> u32 {
    if lives > 0 {
        (lives - 1) as u32
    } else {
        0
    }
}

impl Player {
    /// A player is well formed when its body is.
    pub open spec fn wf(self) -> bool {
        self.entity.wf()
    }

    /// The player is invincible while its timer runs.
    pub open spec fn spec_is_invincible(&self) -> bool {
        self.invincible_timer > 0
    }

    /// The player after a damage event: unchanged while invincible;
    /// otherwise one life poorer and invincible for `invincibility`.
    pub open spec fn damaged(self, invincibility: u32) -> Player {
        if self.invincible_timer > 0 {
            self
        } else {
            Player {
                lives: one_life_less(self.lives),
                invincible_timer: invincibility,
                ..self
            }
        }
    }

    /// The player after `dt` milliseconds have passed.
    pub open spec fn aged(self, dt: nat) -> Player {
        Player {
            invincible_timer: if self.invincible_timer > dt {
                (self.invincible_timer - dt) as u32
            } else {
                0
            },
            ..self
        }
    }

    /// An invincible player blinks: it shows during the even phases of
    /// its timer and hides during the odd ones.
    pub open spec fn spec_is_visible(&self) -> bool {
        self.invincible_timer == 0 || (self.invincible_timer / BLINK_PERIOD) % 2 == 0
    }

    /// A player at rest, centred on `(x, y)`, vulnerable, with the given
    /// number of lives.
    pub fn new(x: i32, y: i32, lives: u32) -> (p: Player)
        ensures
            p == (Player {
                entity: Entity {
                    position: Vec2 { x, y },
                    velocity: Vec2 { x: 0, y: 0 },
                    half_size: Vec2 { x: PLAYER_HALF_SIZE, y: PLAYER_HALF_SIZE },
                    alive: true,
                },
                lives,
                invincible_timer: 0,
            }),
            p.wf(),
    {
        Player {
            entity: Entity::new(x, y, PLAYER_HALF_SIZE, PLAYER_HALF_SIZE),
            lives,
            invincible_timer: 0,
        }
    }

    /// The one gate through which the player loses lives. Reports whether
    /// the damage was applied; it is not while the player is invincible.
    pub fn take_damage(&mut self, invincibility: u32) -> (applied: bool)
        ensures
            applied == !old(self).is_invincible(),
            *final(self) == old(self).damaged(invincibility),
    {
        if self.invincible_timer == 0 {
            if self.lives > 0 {
                self.lives = self.lives - 1;
            }
            self.invincible_timer = invincibility;
            true
        } else {
            false
        }
    }

    /// Lets `dt` milliseconds of the immunity pass.
    pub fn update(&mut self, dt: u32)
        ensures
            *final(self) == old(self).aged(dt as nat),
    {
        if self.invincible_timer > dt {
            self.invincible_timer = self.invincible_timer - dt;
        } else {
            self.invincible_timer = 0;
        }
    }

    /// Whether the player is immune to damage.
    #[verifier::when_used_as_spec(spec_is_invincible)]
    pub fn is_invincible(&self) -> (r: bool)
        ensures
            r == self.spec_is_invincible(),
    {
        self.invincible_timer > 0
    }

    /// Whether the player is to be drawn in the current frame.
    #[verifier::when_used_as_spec(spec_is_visible)]
    pub fn is_visible(&self) -> (r: bool)
        ensures
            r == self.spec_is_visible(),
    {
        self.invincible_timer == 0 || (self.invincible_timer / BLINK_PERIOD) % 2 == 0
    }
}

/// Time passes additively: waiting `a` and then `b` is waiting `a + b`.
pub proof fn lemma_aged_adds(p: Player, a: nat, b: nat)
    ensures
        p.aged(a).aged(b) == p.aged(a + b),
{
}

/// Damage taken by a vulnerable player costs exactly one life, unless
/// none is left, and starts the immunity.
pub proof fn lemma_damage_costs_one_life(p: Player, invincibility: u32)
    requires
        !p.is_invincible(),
    ensures
        p.damaged(invincibility).lives == one_life_less(p.lives),
        p.damaged(invincibility).lives <= p.lives,
        p.damaged(invincibility).invincible_timer == invincibility,
        p.damaged(invincibility).entity == p.entity,
{
}

/// A second damage event within the immunity that the first one started
/// changes nothing: the two together cost one life.
pub proof fn lemma_damage_once_within_window(p: Player, invincibility: u32, elapsed: nat)
    requires
        !p.is_invincible(),
        elapsed < invincibility,
    ensures
        p.damaged(invincibility).aged(elapsed).is_invincible(),
        p.damaged(invincibility).aged(elapsed).damaged(invincibility) == p.damaged(
            invincibility,
        ).aged(elapsed),
        p.damaged(invincibility).aged(elapsed).damaged(invincibility).lives == one_life_less(
            p.lives,
        ),
{
}

/// Once the immunity has run out, the next damage event costs a further
/// life.
pub proof fn lemma_damage_again_after_expiry(p: Player, invincibility: u32, elapsed: nat)
    requires
        !p.is_invincible(),
        elapsed >= invincibility,
    ensures
        !p.damaged(invincibility).aged(elapsed).is_invincible(),
        p.damaged(invincibility).aged(elapsed).damaged(invincibility).lives == one_life_less(
            one_life_less(p.lives),
        ),
{
}

} // verus!
