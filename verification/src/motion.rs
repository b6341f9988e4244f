//! How the pieces move during one tick: the player along the bottom,
//! bullets up and out of the arena, enemies down onto the player or out
//! past the bottom edge.
use vstd::prelude::*;
use crate::config::{Config, BULLET_TOP_LIMIT, ENEMY_EXIT_MARGIN};
use crate::entity::Entity;
use crate::geometry::{clamp_between, Vec2};
use crate::player::Player;
use crate::roster::{all_alive, all_wf, lemma_live_members, live, retain_alive};

verus! {

/// The player after `dt` milliseconds of motion: moved at its velocity,
/// then brought back between the side edges of the arena. The vertical
/// position is not limited.
pub open spec fn player_moved(p: Player, dt: u32, arena_width: i32) -> Player {
    let m = p.entity.integrated(dt);
    let x = clamp_between(
        m.position.x as int,
        m.half_size.x as int,
        arena_width - m.half_size.x,
    );
    Player { entity: Entity { position: Vec2 { x: x as i32, y: m.position.y }, ..m }, ..p }
}

/// Whatever its velocity, a player that fits into the arena stands fully
/// inside it after moving.
pub proof fn lemma_player_stays_in_arena(p: Player, dt: u32, arena_width: i32)
    requires
        p.wf(),
        2 * p.entity.half_size.x <= arena_width,
    ensures
        p.entity.half_size.x <= player_moved(p, dt, arena_width).entity.position.x
            <= arena_width - p.entity.half_size.x,
        player_moved(p, dt, arena_width).entity.half_size == p.entity.half_size,
        player_moved(p, dt, arena_width).entity.velocity == p.entity.velocity,
        player_moved(p, dt, arena_width).lives == p.lives,
        player_moved(p, dt, arena_width).invincible_timer == p.invincible_timer,
{
}

/// Moves the player for `dt` milliseconds and keeps it inside the arena.
pub fn move_player(player: &mut Player, dt: u32, arena_width: i32)
    requires
        old(player).wf(),
        2 * old(player).entity.half_size.x <= arena_width,
    ensures
        *final(player) == player_moved(*old(player), dt, arena_width),
{
    player.entity.integrate(dt);
    let low = player.entity.half_size.x;
    let high = arena_width - low;
    if player.entity.position.x < low {
        player.entity.position.x = low;
    } else if player.entity.position.x > high {
        player.entity.position.x = high;
    }
}

/// A bullet after `dt` milliseconds of flight. One that has risen above
/// the top limit is dead.
pub open spec fn bullet_moved(b: Entity, dt: u32) -> Entity {
    let m = b.integrated(dt);
    if m.position.y < BULLET_TOP_LIMIT {
        m.killed()
    } else {
        m
    }
}

/// The bullets after flying for `dt` milliseconds, those that left the
/// arena marked dead.
pub open spec fn bullets_moved(bullets: Seq<Entity>, dt: u32) -> Seq<Entity> {
    bullets.map_values(|b: Entity| bullet_moved(b, dt))
}

/// The bullet phase of a tick: every bullet flies, and the dead ones are
/// removed.
pub open spec fn bullet_phase(bullets: Seq<Entity>, dt: u32) -> Seq<Entity> {
    live(bullets_moved(bullets, dt))
}

/// After the bullet phase every bullet is alive and inside the top
/// limit, and well formed if the bullets were.
pub proof fn lemma_bullet_phase_members(bullets: Seq<Entity>, dt: u32)
    ensures
        all_alive(bullet_phase(bullets, dt)),
        bullet_phase(bullets, dt).len() <= bullets.len(),
        forall|i: int|
            0 <= i < bullet_phase(bullets, dt).len() ==> (#[trigger] bullet_phase(
                bullets,
                dt,
            )[i]).position.y >= BULLET_TOP_LIMIT,
        all_wf(bullets) ==> all_wf(bullet_phase(bullets, dt)),
{
    let moved = bullets_moved(bullets, dt);
    lemma_live_members(moved);
    assert forall|i: int| 0 <= i < live(moved).len() implies (#[trigger] live(
        moved,
    )[i]).position.y >= BULLET_TOP_LIMIT by {
        let e = live(moved)[i];
        assert(moved.contains(e));
        let j = choose|j: int| 0 <= j < moved.len() && moved[j] == e;
        assert(e == bullet_moved(bullets[j], dt));
    }
    if all_wf(bullets) {
        assert forall|j: int| 0 <= j < moved.len() implies (#[trigger] moved[j]).wf() by {
            assert(bullets[j].wf());
        }
        lemma_live_members(moved);
    }
}

/// Dead bullets play no part: the bullet phase leaves the same bullets
/// whether or not the dead ones were removed beforehand.
pub proof fn lemma_bullet_phase_ignores_dead(bullets: Seq<Entity>, dt: u32)
    ensures
        bullet_phase(bullets, dt) == bullet_phase(live(bullets), dt),
    decreases bullets.len(),
{
    let pred = |e: Entity| e.alive;
    if bullets.len() == 0 {
        assert(live(bullets) =~= bullets) by {
            lemma_live_members(bullets);
        }
    } else {
        let init = bullets.drop_last();
        let last = bullets.last();
        lemma_bullet_phase_ignores_dead(init, dt);
        assert(init.push(last) =~= bullets);
        init.lemma_filter_push(last, pred);
        assert(bullets_moved(bullets, dt) =~= bullets_moved(init, dt).push(
            bullet_moved(last, dt),
        ));
        bullets_moved(init, dt).lemma_filter_push(bullet_moved(last, dt), pred);
        if last.alive {
            assert(bullets_moved(live(init).push(last), dt) =~= bullets_moved(live(init), dt).push(
                bullet_moved(last, dt),
            ));
            bullets_moved(live(init), dt).lemma_filter_push(bullet_moved(last, dt), pred);
        }
    }
}

/// Runs the bullet phase: moves every bullet, marks those that left
/// through the top and removes the dead.
pub fn advance_bullets(bullets: &mut Vec<Entity>, dt: u32)
    ensures
        final(bullets)@ == bullet_phase(old(bullets)@, dt),
{
    let mut i: usize = 0;
    while i < bullets.len()
        invariant
            i <= bullets.len(),
            bullets.len() == old(bullets).len(),
            forall|k: int| 0 <= k < i ==> bullets@[k] == bullet_moved(old(bullets)@[k], dt),
            forall|k: int| i <= k < bullets.len() ==> bullets@[k] == old(bullets)@[k],
        decreases bullets.len() - i,
    {
        let mut b = bullets[i];
        b.integrate(dt);
        if b.position.y < BULLET_TOP_LIMIT {
            b.alive = false;
        }
        bullets[i] = b;
        i += 1;
    }
    assert(bullets@ =~= bullets_moved(old(bullets)@, dt));
    retain_alive(bullets);
}

/// What the enemy phase of a tick leaves behind.
pub struct EnemyPhase {
    pub enemies: Seq<Entity>,
    pub player: Player,
    pub game_over: bool,
}

impl Config {
    /// An enemy that has sunk below the exit height has left the arena.
    pub open spec fn enemy_exits(self, m: Entity) -> bool {
        m.position.y > self.exit_height()
    }
}

/// An enemy rams a player that is not invincible and whose bounds it
/// overlaps.
pub open spec fn enemy_rams(m: Entity, p: Player) -> bool {
    !p.is_invincible() && p.entity.overlaps(&m)
}

/// An enemy, already moved, strikes when it leaves through the bottom
/// or, failing that, rams the player. Either way it is one damage event.
pub open spec fn enemy_strikes(m: Entity, p: Player, cfg: Config) -> bool {
    cfg.enemy_exits(m) || enemy_rams(m, p)
}

/// The enemy phase of a tick. The enemies are taken in order; each one
/// moves, and one that strikes dies and damages the player as it then
/// stands. The game is over once applied damage leaves no life.
pub open spec fn enemy_phase(
    enemies: Seq<Entity>,
    player: Player,
    game_over: bool,
    dt: u32,
    cfg: Config,
) -> EnemyPhase
    decreases enemies.len(),
{
    if enemies.len() == 0 {
        EnemyPhase { enemies: Seq::empty(), player, game_over }
    } else {
        let before = enemy_phase(enemies.drop_last(), player, game_over, dt, cfg);
        let m = enemies.last().integrated(dt);
        if enemy_strikes(m, before.player, cfg) {
            let struck = before.player.damaged(cfg.invincibility);
            EnemyPhase {
                enemies: before.enemies.push(m.killed()),
                player: struck,
                game_over: before.game_over || (!before.player.is_invincible() && struck.lives
                    == 0),
            }
        } else {
            EnemyPhase { enemies: before.enemies.push(m), ..before }
        }
    }
}

/// The enemy phase keeps the number and the shapes of the enemies and the
/// body of the player. It never adds a life, and it ends the game only
/// when no life is left.
pub proof fn lemma_enemy_phase_shape(
    enemies: Seq<Entity>,
    player: Player,
    game_over: bool,
    dt: u32,
    cfg: Config,
)
    ensures
        enemy_phase(enemies, player, game_over, dt, cfg).enemies.len() == enemies.len(),
        forall|i: int|
            0 <= i < enemies.len() ==> {
                let e = #[trigger] enemy_phase(enemies, player, game_over, dt, cfg).enemies[i];
                e == enemies[i].integrated(dt) || e == enemies[i].integrated(dt).killed()
            },
        all_wf(enemies) ==> all_wf(enemy_phase(enemies, player, game_over, dt, cfg).enemies),
        enemy_phase(enemies, player, game_over, dt, cfg).player.entity == player.entity,
        enemy_phase(enemies, player, game_over, dt, cfg).player.lives <= player.lives,
        game_over ==> enemy_phase(enemies, player, game_over, dt, cfg).game_over,
        enemy_phase(enemies, player, game_over, dt, cfg).game_over ==> game_over || enemy_phase(
            enemies,
            player,
            game_over,
            dt,
            cfg,
        ).player.lives == 0,
    decreases enemies.len(),
{
    if enemies.len() > 0 {
        lemma_enemy_phase_shape(enemies.drop_last(), player, game_over, dt, cfg);
        let before = enemy_phase(enemies.drop_last(), player, game_over, dt, cfg);
        let after = enemy_phase(enemies, player, game_over, dt, cfg);
        assert forall|i: int| 0 <= i < enemies.len() implies {
            let e = #[trigger] after.enemies[i];
            e == enemies[i].integrated(dt) || e == enemies[i].integrated(dt).killed()
        } by {
            if i < enemies.len() - 1 {
                assert(after.enemies[i] == before.enemies[i]);
                assert(enemies.drop_last()[i] == enemies[i]);
            }
        }
        if all_wf(enemies) {
            assert forall|i: int| 0 <= i < after.enemies.len() implies (
            #[trigger] after.enemies[i]).wf() by {
                assert(enemies[i].wf());
            }
        }
    }
}

/// Runs the enemy phase: moves every enemy in order and lets those that
/// leave through the bottom, or ram the player, die and do their damage.
pub fn advance_enemies(
    enemies: &mut Vec<Entity>,
    player: &mut Player,
    game_over: &mut bool,
    dt: u32,
    cfg: &Config,
)
    ensures
        enemy_phase(old(enemies)@, *old(player), *old(game_over), dt, *cfg) == (EnemyPhase {
            enemies: final(enemies)@,
            player: *final(player),
            game_over: *final(game_over),
        }),
{
    let mut i: usize = 0;
    assert(old(enemies)@.take(0) =~= Seq::empty());
    assert(enemies@.take(0) =~= Seq::empty());
    while i < enemies.len()
        invariant
            i <= enemies.len(),
            enemies.len() == old(enemies).len(),
            forall|k: int| i <= k < enemies.len() ==> enemies@[k] == old(enemies)@[k],
            enemy_phase(old(enemies)@.take(i as int), *old(player), *old(game_over), dt, *cfg)
                == (EnemyPhase {
                enemies: enemies@.take(i as int),
                player: *player,
                game_over: *game_over,
            }),
        decreases enemies.len() - i,
    {
        let ghost done = enemies@.take(i as int);
        let mut e = enemies[i];
        e.integrate(dt);
        let exits = e.position.y as i64 > cfg.arena_height as i64 + ENEMY_EXIT_MARGIN as i64;
        if exits || (!player.is_invincible() && player.entity.overlaps(&e)) {
            e.alive = false;
            if player.take_damage(cfg.invincibility) && player.lives == 0 {
                *game_over = true;
            }
        }
        enemies[i] = e;
        proof {
            assert(old(enemies)@.take(i + 1).drop_last() =~= old(enemies)@.take(i as int));
            assert(enemies@.take(i + 1) =~= done.push(e));
        }
        i += 1;
    }
    assert(old(enemies)@.take(i as int) =~= old(enemies)@);
    assert(enemies@.take(i as int) =~= enemies@);
}

} // verus!
