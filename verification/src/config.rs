//! The tunable parameters of a game and the fixed measures of its pieces.
use vstd::prelude::*;

verus! {

/// Length units in one pixel.
pub const UNITS_PER_PIXEL: i32 = 1000;

/// Half the side of the player's square ship.
pub const PLAYER_HALF_SIZE: i32 = 15_000;

/// Half the side of a square enemy.
pub const ENEMY_HALF_SIZE: i32 = 15_000;

/// Half the side of a square power-up.
pub const POWERUP_HALF_SIZE: i32 = 10_000;

/// Half the width of a bullet.
pub const BULLET_HALF_WIDTH: i32 = 2_500;

/// Half the height of a bullet.
pub const BULLET_HALF_HEIGHT: i32 = 5_000;

/// Distance kept between a spawn position and the arena's side edges.
pub const SPAWN_MARGIN: i32 = 20_000;

/// Height at which enemies and power-ups appear, just above the top edge.
pub const SPAWN_HEIGHT: i32 = -20_000;

/// A bullet whose centre rises above this height has left the arena.
pub const BULLET_TOP_LIMIT: i32 = -10_000;

/// An enemy whose centre sinks further than this below the bottom edge has
/// left the arena.
pub const ENEMY_EXIT_MARGIN: i32 = 15_000;

/// How far above the player's centre a bullet starts.
pub const MUZZLE_OFFSET: i32 = 20_000;

/// How far above the bottom edge the player's centre starts.
pub const PLAYER_START_OFFSET: i32 = 50_000;

/// Duration of one phase of the blinking of an invincible player, in
/// milliseconds.
pub const BLINK_PERIOD: u32 = 100;

/// The parameters that a game is played with.
///
/// Lengths are in units, speeds in pixels per second (which is units per
/// millisecond), durations in milliseconds.
#[derive(Clone, Copy, Debug, PartialEq, Eq)]
pub struct Config {
    pub arena_width: i32,
    pub arena_height: i32,
    pub player_speed: i32,
    pub bullet_speed: i32,
    pub enemy_speed: i32,
    /// Time between two enemy spawns.
    pub spawn_interval: u32,
    pub starting_lives: u32,
    /// How long the player is immune after taking damage.
    pub invincibility: u32,
    /// Score gained for each enemy shot down.
    pub kill_reward: u32,
}

impl Config {
    /// A configuration is usable when the arena has room for the player
    /// and for a spawn position between the margins, and no speed is
    /// negative.
    pub open spec fn wf(self) -> bool {
        &&& self.arena_width >= 2 * PLAYER_HALF_SIZE
        &&& SPAWN_MARGIN < self.arena_width - SPAWN_MARGIN
        &&& self.arena_height > 0
        &&& self.player_speed >= 0
        &&& self.bullet_speed >= 0
        &&& self.enemy_speed >= 0
    }

    /// The least horizontal position at which an enemy may spawn.
    pub open spec fn spawn_low(self) -> int {
        SPAWN_MARGIN as int
    }

    /// The horizontal spawn positions end just before this one.
    pub open spec fn spawn_high(self) -> int {
        self.arena_width - SPAWN_MARGIN
    }

    /// The height below which an enemy has left the arena.
    pub open spec fn exit_height(self) -> int {
        self.arena_height + ENEMY_EXIT_MARGIN
    }

    /// Run-time test of [`Config::wf`].
    pub fn is_valid(&self) -> (r: bool)
        ensures
            r == self.wf(),
    {
        self.arena_width >= 2 * PLAYER_HALF_SIZE && self.arena_width > 2 * SPAWN_MARGIN
            && self.arena_height > 0 && self.player_speed >= 0 && self.bullet_speed >= 0
            && self.enemy_speed >= 0
    }
}

impl Default for Config {
    /// An arena of 800 by 600 pixels, a player at 300 pixels per second
    /// with three lives and two seconds of immunity, bullets at 400 and
    /// enemies at 100 pixels per second, one enemy each second and ten
    /// points for each one shot down.
    fn default() -> (c: Config)
        ensures
            c == (Config {
                arena_width: 800_000,
                arena_height: 600_000,
                player_speed: 300,
                bullet_speed: 400,
                enemy_speed: 100,
                spawn_interval: 1000,
                starting_lives: 3,
                invincibility: 2000,
                kill_reward: 10,
            }),
            c.wf(),
    {
        Config {
            arena_width: 800_000,
            arena_height: 600_000,
            player_speed: 300,
            bullet_speed: 400,
            enemy_speed: 100,
            spawn_interval: 1000,
            starting_lives: 3,
            invincibility: 2000,
            kill_reward: 10,
        }
    }
}

} // verus!
