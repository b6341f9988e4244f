//! The simulation step: what one tick of `dt` milliseconds does to a
//! session.
use vstd::prelude::*;
use crate::collision::{
    lemma_each_hit_counted_once, lemma_resolved_shape, resolve_hits, resolved, Resolution,
};
use crate::config::{BULLET_TOP_LIMIT, SPAWN_MARGIN};
use crate::entity::Entity;
use crate::geometry::clamp_u32;
use crate::motion::{
    advance_bullets, advance_enemies, bullet_phase, enemy_phase, lemma_bullet_phase_ignores_dead,
    lemma_bullet_phase_members, lemma_enemy_phase_shape, lemma_player_stays_in_arena, move_player,
    player_moved, EnemyPhase,
};
use crate::player::Player;
use crate::random::uniform_between;
use crate::roster::{
    all_alive, lemma_live_members, lemma_live_of_all_alive, live, retain_alive,
};
use crate::session::{Key, Session, SessionView};

verus! {

impl SessionView {
    /// The player after its timer has run and it has moved.
    pub open spec fn player_in_motion(self, dt: u32) -> Player {
        player_moved(self.player.aged(dt as nat), dt, self.config.arena_width)
    }

    /// The bullets that are still in the arena after their flight.
    pub open spec fn bullets_in_flight(self, dt: u32) -> Seq<Entity> {
        bullet_phase(self.bullets, dt)
    }

    /// The outcome of the enemies' descent onto the moved player.
    pub open spec fn enemies_met(self, dt: u32) -> EnemyPhase {
        enemy_phase(self.enemies, self.player_in_motion(dt), self.game_over, dt, self.config)
    }

    /// The outcome of the bullets in flight meeting the descended
    /// enemies.
    pub open spec fn shots(self, dt: u32) -> Resolution {
        resolved(self.bullets_in_flight(dt), self.enemies_met(dt).enemies)
    }

    /// The session after the motion and collision phases of a tick, in
    /// this order: the player's timer runs; the player moves and is kept
    /// inside the arena; the bullets fly and those that are dead or have
    /// left are removed; the enemies descend, and those that leave or ram
    /// the player die and do their damage; the bullets shoot down
    /// enemies, each hit adding the reward to the score; the dead bullets
    /// and the dead enemies are removed. What survives keeps its order.
    pub open spec fn advanced(self, dt: u32) -> SessionView {
        SessionView {
            player: self.enemies_met(dt).player,
            bullets: live(self.shots(dt).bullets),
            enemies: live(self.shots(dt).enemies),
            score: clamp_u32(self.score + self.config.kill_reward * self.shots(dt).hits),
            game_over: self.enemies_met(dt).game_over,
            ..self
        }
    }

    /// Whether the spawn timer reaches the spawn interval within the next
    /// `dt` milliseconds.
    pub open spec fn spawn_due(self, dt: u32) -> bool {
        self.spawn_timer + dt >= self.config.spawn_interval
    }

    /// The session after its spawn timer has run for `dt` milliseconds:
    /// back at zero when a spawn is due.
    pub open spec fn spawner_stepped(self, dt: u32) -> SessionView {
        SessionView {
            spawn_timer: if self.spawn_due(dt) {
                0
            } else {
                (self.spawn_timer + dt) as u32
            },
            ..self
        }
    }

    /// The session after one tick of `dt` milliseconds, where `spawn_x`
    /// is the horizontal position at which an enemy spawns if one is due.
    /// A finished game does not change.
    pub open spec fn ticked(self, dt: u32, spawn_x: i32) -> SessionView {
        if self.game_over {
            self
        } else if self.spawn_due(dt) {
            self.advanced(dt).spawner_stepped(dt).with_enemy(spawn_x)
        } else {
            self.advanced(dt).spawner_stepped(dt)
        }
    }
}

/// A tick keeps a session well formed.
pub proof fn lemma_tick_keeps_wf(s: SessionView, dt: u32, spawn_x: i32)
    requires
        s.wf(),
    ensures
        s.advanced(dt).wf(),
        s.ticked(dt, spawn_x).wf(),
{
    lemma_player_stays_in_arena(s.player.aged(dt as nat), dt, s.config.arena_width);
    lemma_bullet_phase_members(s.bullets, dt);
    lemma_enemy_phase_shape(s.enemies, s.player_in_motion(dt), s.game_over, dt, s.config);
    lemma_resolved_shape(s.bullets_in_flight(dt), s.enemies_met(dt).enemies);
    lemma_live_members(s.shots(dt).enemies);
    lemma_live_members(s.shots(dt).bullets);
}

/// After a tick of a running game the player stands fully inside the
/// arena, whatever its velocity was.
pub proof fn lemma_player_in_arena_after_tick(s: SessionView, dt: u32, spawn_x: i32)
    requires
        s.wf(),
        !s.game_over,
    ensures
        s.player.entity.half_size.x <= s.ticked(dt, spawn_x).player.entity.position.x
            <= s.config.arena_width - s.player.entity.half_size.x,
        s.ticked(dt, spawn_x).player.entity.half_size == s.player.entity.half_size,
{
    lemma_player_stays_in_arena(s.player.aged(dt as nat), dt, s.config.arena_width);
    lemma_enemy_phase_shape(s.enemies, s.player_in_motion(dt), s.game_over, dt, s.config);
}

/// After a tick of a running game no bullet is left above the top limit
/// and every bullet is alive: of the bullets that stayed in the arena,
/// each one that shot down an enemy is gone, and no other.
pub proof fn lemma_no_bullet_beyond_top(s: SessionView, dt: u32, spawn_x: i32)
    requires
        !s.game_over,
    ensures
        forall|i: int|
            0 <= i < s.ticked(dt, spawn_x).bullets.len() ==> (#[trigger] s.ticked(
                dt,
                spawn_x,
            ).bullets[i]).position.y >= BULLET_TOP_LIMIT,
        all_alive(s.ticked(dt, spawn_x).bullets),
        s.ticked(dt, spawn_x).bullets.len() + s.shots(dt).hits == s.bullets_in_flight(dt).len(),
{
    let flying = s.bullets_in_flight(dt);
    let met = s.enemies_met(dt).enemies;
    let shot = s.shots(dt).bullets;
    lemma_bullet_phase_members(s.bullets, dt);
    lemma_resolved_shape(flying, met);
    lemma_each_hit_counted_once(flying, met);
    lemma_live_of_all_alive(flying);
    lemma_live_members(shot);
    assert forall|i: int| 0 <= i < live(shot).len() implies (#[trigger] live(
        shot,
    )[i]).position.y >= BULLET_TOP_LIMIT by {
        let b = live(shot)[i];
        assert(shot.contains(b));
        let j = choose|j: int| 0 <= j < shot.len() && shot[j] == b;
        assert(flying[j].position.y >= BULLET_TOP_LIMIT);
    }
}

/// A tick of a running game adds the reward to the score once for each
/// hit, and each hit removes one enemy that the descent had left alive:
/// an enemy that several bullets overlap is counted once.
pub proof fn lemma_score_counts_each_hit_once(s: SessionView, dt: u32, spawn_x: i32)
    requires
        !s.game_over,
    ensures
        s.ticked(dt, spawn_x).score == clamp_u32(
            s.score + s.config.kill_reward * s.shots(dt).hits,
        ),
        s.advanced(dt).enemies.len() + s.shots(dt).hits == live(s.enemies_met(dt).enemies).len(),
        s.advanced(dt).bullets.len() + s.shots(dt).hits == s.bullets_in_flight(dt).len(),
        s.shots(dt).hits <= s.enemies.len(),
        s.shots(dt).hits <= s.bullets.len(),
        s.score + s.config.kill_reward * s.shots(dt).hits <= u32::MAX ==> s.ticked(
            dt,
            spawn_x,
        ).score == s.score + s.config.kill_reward * s.shots(dt).hits,
{
    let flying = s.bullets_in_flight(dt);
    let met = s.enemies_met(dt).enemies;
    lemma_each_hit_counted_once(flying, met);
    lemma_live_members(met);
    lemma_live_members(flying);
    lemma_live_of_all_alive(flying);
    lemma_bullet_phase_members(s.bullets, dt);
    lemma_enemy_phase_shape(s.enemies, s.player_in_motion(dt), s.game_over, dt, s.config);
    assert(0 <= s.config.kill_reward * s.shots(dt).hits) by (nonlinear_arith)
        requires
            0 <= s.config.kill_reward,
            0 <= s.shots(dt).hits,
    ;
}

/// A tick never adds a life, never revives a finished game, and ends a
/// game only when no life is left. After a tick of a running game every
/// bullet and every enemy is alive: what died during the tick is gone.
pub proof fn lemma_tick_outcome(s: SessionView, dt: u32, spawn_x: i32)
    ensures
        s.ticked(dt, spawn_x).player.lives <= s.player.lives,
        s.game_over ==> s.ticked(dt, spawn_x) == s,
        s.ticked(dt, spawn_x).game_over ==> s.game_over || s.ticked(dt, spawn_x).player.lives
            == 0,
        !s.game_over ==> all_alive(s.ticked(dt, spawn_x).bullets),
        !s.game_over ==> all_alive(s.ticked(dt, spawn_x).enemies),
        s.ticked(dt, spawn_x).config == s.config,
        s.ticked(dt, spawn_x).powerups == s.powerups,
        s.ticked(dt, spawn_x).powerup_timer == s.powerup_timer,
{
    lemma_enemy_phase_shape(s.enemies, s.player_in_motion(dt), s.game_over, dt, s.config);
    lemma_live_members(s.shots(dt).enemies);
    lemma_live_members(s.shots(dt).bullets);
}

/// Dead bullets are inert: a session ticks the same with dead bullets in
/// its collection as without them. No tick leaves a dead bullet behind,
/// so this speaks of sessions that a caller has put together by hand.
pub proof fn lemma_dead_bullets_are_inert(s: SessionView, dt: u32, spawn_x: i32)
    ensures
        s.game_over || s.ticked(dt, spawn_x) == (SessionView {
            bullets: live(s.bullets),
            ..s
        }).ticked(dt, spawn_x),
{
    lemma_bullet_phase_ignores_dead(s.bullets, dt);
}

/// A finished game is frozen: no tick, no key press and no key release
/// changes it. Only the restart command gets out of it, into a fresh
/// game.
pub proof fn lemma_finished_game_is_frozen(s: SessionView, dt: u32, spawn_x: i32, key: Key)
    requires
        s.game_over,
    ensures
        s.ticked(dt, spawn_x) == s,
        s.key_down(key) == s,
        s.key_up(key) == s,
        s.restarted() == SessionView::fresh(s.config),
        !s.restarted().game_over,
        s.restarted().score == 0,
        s.restarted().player.lives == s.config.starting_lives,
        s.restarted().bullets.len() == 0,
        s.restarted().enemies.len() == 0,
        s.restarted().powerups.len() == 0,
{
}

/// The score after `hits` hits at `reward` each, saturating at the end
/// of `u32`.
pub fn add_reward(score: u32, reward: u32, hits: usize) -> (r: u32)
    ensures
        r == clamp_u32(score + reward * hits),
{
    assert(0 <= reward * hits <= 0xffff_ffff * 0xffff_ffff_ffff_ffff) by (nonlinear_arith)
        requires
            0 <= reward <= 0xffff_ffff,
            0 <= hits <= 0xffff_ffff_ffff_ffff,
    ;
    let total: u128 = score as u128 + (reward as u128) * (hits as u128);
    if total > u32::MAX as u128 {
        u32::MAX
    } else {
        total as u32
    }
}

impl Session {
    /// Runs the motion and collision phases of a tick.
    fn advance(&mut self, dt: u32)
        requires
            old(self)@.wf(),
        ensures
            final(self)@ == old(self)@.advanced(dt),
    {
        self.player.update(dt);
        move_player(&mut self.player, dt, self.config.arena_width);
        advance_bullets(&mut self.bullets, dt);
        advance_enemies(
            &mut self.enemies,
            &mut self.player,
            &mut self.game_over,
            dt,
            &self.config,
        );
        let hits = resolve_hits(&mut self.bullets, &mut self.enemies);
        retain_alive(&mut self.bullets);
        retain_alive(&mut self.enemies);
        self.score = add_reward(self.score, self.config.kill_reward, hits);
    }

    /// Lets the spawn timer run for `dt` milliseconds and reports whether
    /// an enemy is due. The timer starts again from zero when one is.
    fn step_spawner(&mut self, dt: u32) -> (due: bool)
        ensures
            due == old(self)@.spawn_due(dt),
            final(self)@ == old(self)@.spawner_stepped(dt),
    {
        let elapsed: u64 = self.spawn_timer as u64 + dt as u64;
        if elapsed >= self.config.spawn_interval as u64 {
            self.spawn_timer = 0;
            true
        } else {
            self.spawn_timer = elapsed as u32;
            false
        }
    }

    /// Advances the game by `dt` milliseconds. If an enemy is due, it
    /// spawns at horizontal position `spawn_x`.
    pub fn tick_with_spawn(&mut self, dt: u32, spawn_x: i32)
        requires
            old(self)@.wf(),
        ensures
            final(self)@ == old(self)@.ticked(dt, spawn_x),
            final(self)@.wf(),
            old(self).game_over ==> final(self)@ == old(self)@,
            !old(self).game_over ==> old(self).player.entity.half_size.x <= final(self).player.entity.position.x <= old(self).config.arena_width - old(self).player.entity.half_size.x,
            !old(self).game_over ==> forall|i: int|
                0 <= i < final(self).bullets@.len() ==> (#[trigger] final(self).bullets@[i]).position.y >= BULLET_TOP_LIMIT,
            !old(self).game_over ==> all_alive(final(self).bullets@),
            !old(self).game_over ==> all_alive(final(self).enemies@),
            !old(self).game_over ==> final(self).score == clamp_u32(
                old(self).score + old(self).config.kill_reward * old(self)@.shots(dt).hits,
            ),
            final(self).player.lives <= old(self).player.lives,
            final(self).game_over ==> old(self).game_over || final(self).player.lives == 0,
    {
        proof {
            lemma_tick_keeps_wf(self@, dt, spawn_x);
            lemma_tick_outcome(self@, dt, spawn_x);
        }
        if self.game_over {
            return ;
        }
        proof {
            lemma_player_in_arena_after_tick(self@, dt, spawn_x);
            lemma_no_bullet_beyond_top(self@, dt, spawn_x);
            lemma_score_counts_each_hit_once(self@, dt, spawn_x);
        }
        self.advance(dt);
        if self.step_spawner(dt) {
            self.spawn_enemy_at(spawn_x);
        }
    }

    /// Advances the game by `dt` milliseconds. If an enemy is due, it
    /// spawns at a horizontal position drawn at random between the spawn
    /// margins.
    pub fn tick(&mut self, dt: u32)
        requires
            old(self)@.wf(),
        ensures
            exists|x: i32|
                old(self)@.config.spawn_low() <= x < old(self)@.config.spawn_high() && final(self)@
                    == #[trigger] old(self)@.ticked(dt, x),
            final(self)@.wf(),
            old(self).game_over ==> final(self)@ == old(self)@,
            !old(self).game_over ==> old(self).player.entity.half_size.x <= final(self).player.entity.position.x <= old(self).config.arena_width - old(self).player.entity.half_size.x,
            !old(self).game_over ==> forall|i: int|
                0 <= i < final(self).bullets@.len() ==> (#[trigger] final(self).bullets@[i]).position.y >= BULLET_TOP_LIMIT,
            !old(self).game_over ==> all_alive(final(self).bullets@),
            !old(self).game_over ==> all_alive(final(self).enemies@),
            !old(self).game_over ==> final(self).score == clamp_u32(
                old(self).score + old(self).config.kill_reward * old(self)@.shots(dt).hits,
            ),
            final(self).player.lives <= old(self).player.lives,
            final(self).game_over ==> old(self).game_over || final(self).player.lives == 0,
    {
        let x = if !self.game_over && self.spawn_is_due(dt) {
            uniform_between(SPAWN_MARGIN, self.config.arena_width - SPAWN_MARGIN)
        } else {
            SPAWN_MARGIN
        };
        self.tick_with_spawn(dt, x);
    }

    /// Whether an enemy is due within the next `dt` milliseconds.
    pub fn spawn_is_due(&self, dt: u32) -> (due: bool)
        ensures
            due == self@.spawn_due(dt),
    {
        self.spawn_timer as u64 + dt as u64 >= self.config.spawn_interval as u64
    }
}

} // verus!
