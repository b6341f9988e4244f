//! A game in progress: the player, the three populations of entities,
//! the score and the timers, and the commands that the frame driver
//! gives.
use vstd::prelude::*;
use crate::config::{
    Config, BULLET_HALF_HEIGHT, BULLET_HALF_WIDTH, ENEMY_HALF_SIZE, MUZZLE_OFFSET,
    PLAYER_HALF_SIZE, PLAYER_START_OFFSET, POWERUP_HALF_SIZE, SPAWN_HEIGHT, SPAWN_MARGIN,
};
use crate::entity::Entity;
use crate::geometry::{clamp_i32, saturate, Vec2};
use crate::player::Player;
use crate::random::uniform_between;
use crate::roster::{all_valid, all_wf};

verus! {

/// The keys that the game tells apart.
#[derive(Clone, Copy, Debug, PartialEq, Eq)]
pub enum Key {
    Left,
    Right,
    Fire,
    Other,
}

/// The whole state of one game.
#[derive(Clone, Debug, PartialEq, Eq)]
pub struct Session {
    pub config: Config,
    pub player: Player,
    pub bullets: Vec<Entity>,
    pub enemies: Vec<Entity>,
    pub powerups: Vec<Entity>,
    pub score: u32,
    pub game_over: bool,
    /// Milliseconds since the last enemy spawn.
    pub spawn_timer: u32,
    /// The timer of the power-up spawner. No tick runs it: power-ups
    /// appear only where the driver adds them, and do nothing.
    pub powerup_timer: u32,
}

/// The mathematical model of a [`Session`]: the same state with the
/// collections as sequences.
pub struct SessionView {
    pub config: Config,
    pub player: Player,
    pub bullets: Seq<Entity>,
    pub enemies: Seq<Entity>,
    pub powerups: Seq<Entity>,
    pub score: u32,
    pub game_over: bool,
    pub spawn_timer: u32,
    pub powerup_timer: u32,
}

impl View for Session {
    type V = SessionView;

    open spec fn view(&self) -> SessionView {
        SessionView {
            config: self.config,
            player: self.player,
            bullets: self.bullets@,
            enemies: self.enemies@,
            powerups: self.powerups@,
            score: self.score,
            game_over: self.game_over,
            spawn_timer: self.spawn_timer,
            powerup_timer: self.powerup_timer,
        }
    }
}

impl Config {
    /// The enemy that spawns at horizontal position `x`: just above the
    /// top edge, heading down at the enemy speed.
    pub open spec fn enemy_at(self, x: i32) -> Entity {
        Entity {
            position: Vec2 { x, y: SPAWN_HEIGHT },
            velocity: Vec2 { x: 0, y: self.enemy_speed },
            half_size: Vec2 { x: ENEMY_HALF_SIZE, y: ENEMY_HALF_SIZE },
            alive: true,
        }
    }

    /// The power-up that spawns at horizontal position `x`. It rests
    /// where it appears.
    pub open spec fn powerup_at(self, x: i32) -> Entity {
        Entity {
            position: Vec2 { x, y: SPAWN_HEIGHT },
            velocity: Vec2 { x: 0, y: 0 },
            half_size: Vec2 { x: POWERUP_HALF_SIZE, y: POWERUP_HALF_SIZE },
            alive: true,
        }
    }

    /// The bullet that a player standing at `at` fires: it starts above
    /// the player's centre and heads up at the bullet speed.
    pub open spec fn bullet_from(self, at: Vec2) -> Entity {
        Entity {
            position: Vec2 { x: at.x, y: clamp_i32(at.y - MUZZLE_OFFSET) },
            velocity: Vec2 { x: 0, y: (-self.bullet_speed) as i32 },
            half_size: Vec2 { x: BULLET_HALF_WIDTH, y: BULLET_HALF_HEIGHT },
            alive: true,
        }
    }

    /// The player at the start of a game: in the middle of the arena's
    /// width, near the bottom, at rest.
    pub open spec fn starting_player(self) -> Player {
        Player {
            entity: Entity {
                position: Vec2 {
                    x: (self.arena_width / 2) as i32,
                    y: (self.arena_height - PLAYER_START_OFFSET) as i32,
                },
                velocity: Vec2 { x: 0, y: 0 },
                half_size: Vec2 { x: PLAYER_HALF_SIZE, y: PLAYER_HALF_SIZE },
                alive: true,
            },
            lives: self.starting_lives,
            invincible_timer: 0,
        }
    }
}

impl SessionView {
    /// A session is well formed when its configuration is usable, every
    /// entity has positive extent and the player fits into the arena.
    pub open spec fn wf(self) -> bool {
        &&& self.config.wf()
        &&& self.player.wf()
        &&& 2 * self.player.entity.half_size.x <= self.config.arena_width
        &&& all_wf(self.bullets)
        &&& all_wf(self.enemies)
        &&& all_wf(self.powerups)
    }

    /// The state in which every game starts.
    pub open spec fn fresh(config: Config) -> SessionView {
        SessionView {
            config,
            player: config.starting_player(),
            bullets: Seq::empty(),
            enemies: Seq::empty(),
            powerups: Seq::empty(),
            score: 0,
            game_over: false,
            spawn_timer: 0,
            powerup_timer: 0,
        }
    }

    /// The session with a new enemy at horizontal position `x`.
    pub open spec fn with_enemy(self, x: i32) -> SessionView {
        SessionView { enemies: self.enemies.push(self.config.enemy_at(x)), ..self }
    }

    /// The session with a new power-up at horizontal position `x`.
    pub open spec fn with_powerup(self, x: i32) -> SessionView {
        SessionView { powerups: self.powerups.push(self.config.powerup_at(x)), ..self }
    }

    /// The session after the player has fired once.
    pub open spec fn fired(self) -> SessionView {
        SessionView {
            bullets: self.bullets.push(self.config.bullet_from(self.player.entity.position)),
            ..self
        }
    }

    /// The session with the player's horizontal velocity set to `vx`.
    pub open spec fn steered(self, vx: i32) -> SessionView {
        SessionView {
            player: Player {
                entity: Entity {
                    velocity: Vec2 { x: vx, y: self.player.entity.velocity.y },
                    ..self.player.entity
                },
                ..self.player
            },
            ..self
        }
    }

    /// The session after `key` went down. A finished game takes no key.
    /// Otherwise the movement keys set the player's horizontal velocity,
    /// and each press of the fire key adds one bullet.
    pub open spec fn key_down(self, key: Key) -> SessionView {
        if self.game_over {
            self
        } else {
            match key {
                Key::Left => self.steered((-self.config.player_speed) as i32),
                Key::Right => self.steered(self.config.player_speed),
                Key::Fire => self.fired(),
                Key::Other => self,
            }
        }
    }

    /// The session after `key` went up. A finished game takes no key.
    /// Otherwise letting go of either movement key stops the player, even
    /// while the other one is still held.
    pub open spec fn key_up(self, key: Key) -> SessionView {
        if self.game_over {
            self
        } else {
            match key {
                Key::Left | Key::Right => self.steered(0),
                _ => self,
            }
        }
    }

    /// The session after a restart command: a finished game gives way to
    /// a fresh one with the same configuration, a running game goes on.
    pub open spec fn restarted(self) -> SessionView {
        if self.game_over {
            SessionView::fresh(self.config)
        } else {
            self
        }
    }
}

impl Session {
    /// Starts a game.
    pub fn new(config: Config) -> (s: Session)
        requires
            config.wf(),
        ensures
            s@ == SessionView::fresh(config),
            s@.wf(),
    {
        Session {
            config,
            player: Player::new(
                config.arena_width / 2,
                config.arena_height - PLAYER_START_OFFSET,
                config.starting_lives,
            ),
            bullets: Vec::new(),
            enemies: Vec::new(),
            powerups: Vec::new(),
            score: 0,
            game_over: false,
            spawn_timer: 0,
            powerup_timer: 0,
        }
    }

    /// Run-time test of [`SessionView::wf`].
    pub fn is_valid(&self) -> (r: bool)
        ensures
            r == self@.wf(),
    {
        self.config.is_valid() && self.player.entity.is_valid() && 2 * (
        self.player.entity.half_size.x as i64) <= self.config.arena_width as i64 && all_valid(
            &self.bullets,
        ) && all_valid(&self.enemies) && all_valid(&self.powerups)
    }

    /// Replaces the whole state by that of a fresh game with the same
    /// configuration.
    pub fn reset(&mut self)
        requires
            old(self)@.config.wf(),
        ensures
            final(self)@ == SessionView::fresh(old(self)@.config),
            final(self)@.wf(),
    {
        *self = Session::new(self.config);
    }

    /// The restart command. It is obeyed only once the game is over.
    pub fn on_restart(&mut self)
        requires
            old(self)@.config.wf(),
        ensures
            final(self)@ == old(self)@.restarted(),
            old(self)@.wf() ==> final(self)@.wf(),
    {
        if self.game_over {
            self.reset();
        }
    }

    /// Adds an enemy at horizontal position `x`.
    pub fn spawn_enemy_at(&mut self, x: i32)
        ensures
            final(self)@ == old(self)@.with_enemy(x),
            old(self)@.wf() ==> final(self)@.wf(),
    {
        let mut enemy = Entity::new(x, SPAWN_HEIGHT, ENEMY_HALF_SIZE, ENEMY_HALF_SIZE);
        enemy.velocity.y = self.config.enemy_speed;
        self.enemies.push(enemy);
    }

    /// Adds an enemy at a horizontal position drawn at random between
    /// the spawn margins.
    pub fn spawn_enemy(&mut self)
        requires
            old(self)@.config.wf(),
        ensures
            exists|x: i32|
                old(self)@.config.spawn_low() <= x < old(self)@.config.spawn_high() && final(self)@ == #[trigger] old(self)@.with_enemy(x),
            old(self)@.wf() ==> final(self)@.wf(),
    {
        let x = uniform_between(SPAWN_MARGIN, self.config.arena_width - SPAWN_MARGIN);
        self.spawn_enemy_at(x);
    }

    /// Adds a power-up at horizontal position `x`.
    pub fn spawn_powerup_at(&mut self, x: i32)
        ensures
            final(self)@ == old(self)@.with_powerup(x),
            old(self)@.wf() ==> final(self)@.wf(),
    {
        let powerup = Entity::new(x, SPAWN_HEIGHT, POWERUP_HALF_SIZE, POWERUP_HALF_SIZE);
        self.powerups.push(powerup);
    }

    /// Adds a power-up at a horizontal position drawn at random between
    /// the spawn margins.
    pub fn spawn_powerup(&mut self)
        requires
            old(self)@.config.wf(),
        ensures
            exists|x: i32|
                old(self)@.config.spawn_low() <= x < old(self)@.config.spawn_high() && final(self)@ == #[trigger] old(self)@.with_powerup(x),
            old(self)@.wf() ==> final(self)@.wf(),
    {
        let x = uniform_between(SPAWN_MARGIN, self.config.arena_width - SPAWN_MARGIN);
        self.spawn_powerup_at(x);
    }

    /// Fires one bullet from the player's position.
    pub fn fire_bullet(&mut self)
        requires
            old(self)@.config.wf(),
        ensures
            final(self)@ == old(self)@.fired(),
            old(self)@.wf() ==> final(self)@.wf(),
    {
        let at = self.player.entity.position;
        let mut bullet = Entity::new(
            at.x,
            saturate(at.y as i64 - MUZZLE_OFFSET as i64),
            BULLET_HALF_WIDTH,
            BULLET_HALF_HEIGHT,
        );
        bullet.velocity.y = -self.config.bullet_speed;
        self.bullets.push(bullet);
    }

    /// Handles a key going down.
    pub fn on_key_down(&mut self, key: Key)
        requires
            old(self)@.config.wf(),
        ensures
            final(self)@ == old(self)@.key_down(key),
            old(self)@.wf() ==> final(self)@.wf(),
    {
        if self.game_over {
            return ;
        }
        match key {
            Key::Left => {
                self.player.entity.velocity.x = -self.config.player_speed;
            },
            Key::Right => {
                self.player.entity.velocity.x = self.config.player_speed;
            },
            Key::Fire => {
                self.fire_bullet();
            },
            Key::Other => {},
        }
    }

    /// Handles a key going up.
    pub fn on_key_up(&mut self, key: Key)
        ensures
            final(self)@ == old(self)@.key_up(key),
            old(self)@.wf() ==> final(self)@.wf(),
    {
        if self.game_over {
            return ;
        }
        match key {
            Key::Left | Key::Right => {
                self.player.entity.velocity.x = 0;
            },
            _ => {},
        }
    }
}

} // verus!
