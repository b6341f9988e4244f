use space_shooter::config::Config;
use space_shooter::entity::Entity;
use space_shooter::geometry::{Rect, Vec2};
use space_shooter::session::{Key, Session};

fn fresh() -> Session {
    Session::new(Config::default())
}

#[test]
fn default_config_is_the_standard_game() {
    let c = Config::default();
    assert_eq!(c.arena_width, 800_000);
    assert_eq!(c.arena_height, 600_000);
    assert_eq!(c.player_speed, 300);
    assert_eq!(c.bullet_speed, 400);
    assert_eq!(c.enemy_speed, 100);
    assert_eq!(c.spawn_interval, 1000);
    assert_eq!(c.starting_lives, 3);
    assert_eq!(c.invincibility, 2000);
    assert_eq!(c.kill_reward, 10);
    assert!(c.is_valid());
}

#[test]
fn config_validity() {
    let good = Config::default();
    assert!(!Config { arena_width: 29_999, ..good }.is_valid());
    assert!(!Config { arena_width: 40_000, ..good }.is_valid());
    assert!(Config { arena_width: 40_001, ..good }.is_valid());
    assert!(!Config { arena_height: 0, ..good }.is_valid());
    assert!(!Config { player_speed: -1, ..good }.is_valid());
    assert!(!Config { bullet_speed: i32::MIN, ..good }.is_valid());
    assert!(!Config { enemy_speed: -100, ..good }.is_valid());
    assert!(Config { spawn_interval: 0, starting_lives: 0, invincibility: 0, kill_reward: 0, ..good }
        .is_valid());
}

#[test]
fn new_session_is_a_fresh_game() {
    let s = fresh();
    assert_eq!(s.player.entity.position, Vec2 { x: 400_000, y: 550_000 });
    assert_eq!(s.player.entity.half_size, Vec2 { x: 15_000, y: 15_000 });
    assert_eq!(s.player.entity.velocity, Vec2 { x: 0, y: 0 });
    assert_eq!(s.player.lives, 3);
    assert_eq!(s.player.invincible_timer, 0);
    assert!(s.bullets.is_empty());
    assert!(s.enemies.is_empty());
    assert!(s.powerups.is_empty());
    assert_eq!(s.score, 0);
    assert!(!s.game_over);
    assert_eq!(s.spawn_timer, 0);
    assert_eq!(s.powerup_timer, 0);
    assert_eq!(s.config, Config::default());
    assert!(s.is_valid());
}

#[test]
fn new_session_follows_its_config() {
    let c = Config { arena_width: 100_001, arena_height: 70_000, starting_lives: 7, ..Config::default() };
    let s = Session::new(c);
    assert_eq!(s.player.entity.position, Vec2 { x: 50_000, y: 20_000 });
    assert_eq!(s.player.lives, 7);
}

#[test]
fn session_validity_looks_at_every_entity() {
    let mut s = fresh();
    s.spawn_enemy_at(100_000);
    s.fire_bullet();
    s.spawn_powerup_at(5);
    assert!(s.is_valid());
    let mut broken = s.clone();
    broken.enemies[0].half_size.y = 0;
    assert!(!broken.is_valid());
    let mut broken = s.clone();
    broken.bullets[0].half_size.x = -1;
    assert!(!broken.is_valid());
    let mut broken = s.clone();
    broken.powerups[0].half_size.x = 0;
    assert!(!broken.is_valid());
    let mut broken = s.clone();
    broken.player.entity.half_size.x = 400_001;
    assert!(!broken.is_valid());
    let mut broken = s.clone();
    broken.config.arena_height = -1;
    assert!(!broken.is_valid());
}

#[test]
fn fire_once_gives_one_bullet_above_the_player() {
    let mut s = fresh();
    s.on_key_down(Key::Fire);
    assert_eq!(s.bullets.len(), 1);
    let b = s.bullets[0];
    assert_eq!(b.position, Vec2 { x: 400_000, y: 530_000 });
    assert_eq!(b.velocity, Vec2 { x: 0, y: -400 });
    assert_eq!(b.half_size, Vec2 { x: 2_500, y: 5_000 });
    assert!(b.alive);
    s.tick_with_spawn(50, 100_000);
    assert_eq!(s.bullets.len(), 1);
    assert_eq!(s.bullets[0].position, Vec2 { x: 400_000, y: 510_000 });
    assert_eq!(s.bullets[0].velocity, Vec2 { x: 0, y: -400 });
    assert!(s.bullets[0].alive);
}

#[test]
fn fire_has_no_cooldown() {
    let mut s = fresh();
    s.on_key_down(Key::Fire);
    s.on_key_down(Key::Fire);
    s.fire_bullet();
    assert_eq!(s.bullets.len(), 3);
    assert_eq!(s.bullets[0], s.bullets[1]);
    assert_eq!(s.bullets[1], s.bullets[2]);
}

#[test]
fn bullet_start_saturates_at_the_top_of_the_lattice() {
    let mut s = fresh();
    s.player.entity.position.y = i32::MIN + 5;
    s.fire_bullet();
    assert_eq!(s.bullets[0].position.y, i32::MIN);
}

#[test]
fn movement_keys_set_the_velocity() {
    let mut s = fresh();
    s.on_key_down(Key::Left);
    assert_eq!(s.player.entity.velocity, Vec2 { x: -300, y: 0 });
    s.on_key_down(Key::Right);
    assert_eq!(s.player.entity.velocity, Vec2 { x: 300, y: 0 });
    s.on_key_down(Key::Other);
    assert_eq!(s.player.entity.velocity, Vec2 { x: 300, y: 0 });
    assert!(s.bullets.is_empty());
}

#[test]
fn releasing_either_movement_key_stops_the_player() {
    let mut s = fresh();
    s.on_key_down(Key::Left);
    s.on_key_down(Key::Right);
    s.on_key_up(Key::Left);
    assert_eq!(s.player.entity.velocity.x, 0);
    s.on_key_down(Key::Left);
    s.on_key_up(Key::Right);
    assert_eq!(s.player.entity.velocity.x, 0);
}

#[test]
fn releasing_other_keys_changes_nothing() {
    let mut s = fresh();
    s.on_key_down(Key::Right);
    let before = s.clone();
    s.on_key_up(Key::Fire);
    assert_eq!(s, before);
    s.on_key_up(Key::Other);
    assert_eq!(s, before);
}

#[test]
fn release_keeps_the_vertical_velocity() {
    let mut s = fresh();
    s.player.entity.velocity = Vec2 { x: 12, y: 34 };
    s.on_key_up(Key::Left);
    assert_eq!(s.player.entity.velocity, Vec2 { x: 0, y: 34 });
    s.on_key_down(Key::Left);
    assert_eq!(s.player.entity.velocity, Vec2 { x: -300, y: 34 });
}

#[test]
fn finished_game_takes_no_key() {
    let mut s = fresh();
    s.on_key_down(Key::Right);
    s.game_over = true;
    let before = s.clone();
    s.on_key_down(Key::Left);
    assert_eq!(s, before);
    s.on_key_down(Key::Right);
    assert_eq!(s, before);
    s.on_key_down(Key::Fire);
    assert_eq!(s, before);
    s.on_key_up(Key::Right);
    assert_eq!(s, before);
    s.on_key_up(Key::Left);
    assert_eq!(s, before);
}

#[test]
fn spawned_enemy_stands_above_the_arena() {
    let mut s = fresh();
    s.spawn_enemy_at(123_456);
    assert_eq!(s.enemies.len(), 1);
    let e = s.enemies[0];
    assert_eq!(e.position, Vec2 { x: 123_456, y: -20_000 });
    assert_eq!(e.velocity, Vec2 { x: 0, y: 100 });
    assert_eq!(e.half_size, Vec2 { x: 15_000, y: 15_000 });
    assert!(e.alive);
    s.spawn_enemy_at(7);
    assert_eq!(s.enemies.len(), 2);
    assert_eq!(s.enemies[0], e);
    assert_eq!(s.enemies[1].position.x, 7);
}

#[test]
fn spawned_powerup_rests_above_the_arena() {
    let mut s = fresh();
    s.spawn_powerup_at(300_000);
    assert_eq!(s.powerups.len(), 1);
    let p = s.powerups[0];
    assert_eq!(p.position, Vec2 { x: 300_000, y: -20_000 });
    assert_eq!(p.velocity, Vec2 { x: 0, y: 0 });
    assert_eq!(p.half_size, Vec2 { x: 10_000, y: 10_000 });
    assert!(p.alive);
    assert!(s.enemies.is_empty());
}

#[test]
fn random_spawns_fall_between_the_margins() {
    let mut s = fresh();
    let mut i: u32 = 0;
    while i < 200 {
        s.spawn_enemy();
        s.spawn_powerup();
        i += 1;
    }
    assert_eq!(s.enemies.len(), 200);
    assert_eq!(s.powerups.len(), 200);
    let mut distinct_enemies = false;
    let mut distinct_powerups = false;
    for k in 0..200 {
        let e = s.enemies[k];
        let p = s.powerups[k];
        assert!(20_000 <= e.position.x && e.position.x < 780_000);
        assert!(20_000 <= p.position.x && p.position.x < 780_000);
        assert_eq!(e.position.y, -20_000);
        assert_eq!(p.position.y, -20_000);
        assert_eq!(e.velocity, Vec2 { x: 0, y: 100 });
        distinct_enemies = distinct_enemies || e.position.x != s.enemies[0].position.x;
        distinct_powerups = distinct_powerups || p.position.x != s.powerups[0].position.x;
    }
    assert!(distinct_enemies);
    assert!(distinct_powerups);
}

#[test]
fn random_spawn_in_the_narrowest_arena() {
    let c = Config { arena_width: 40_001, ..Config::default() };
    let mut s = Session::new(c);
    s.spawn_enemy();
    assert_eq!(s.enemies[0].position.x, 20_000);
}

#[test]
fn restart_is_obeyed_only_when_the_game_is_over() {
    let mut s = fresh();
    s.score = 50;
    s.spawn_enemy_at(100_000);
    let before = s.clone();
    s.on_restart();
    assert_eq!(s, before);
    s.game_over = true;
    s.on_restart();
    assert_eq!(s, fresh());
}

#[test]
fn reset_replaces_everything_but_the_config() {
    let c = Config { starting_lives: 5, kill_reward: 25, ..Config::default() };
    let mut s = Session::new(c);
    s.score = 75;
    s.player.lives = 1;
    s.player.invincible_timer = 900;
    s.player.entity.position.x = 20_000;
    s.spawn_timer = 400;
    s.powerup_timer = 3;
    s.fire_bullet();
    s.spawn_enemy_at(50_000);
    s.spawn_powerup_at(60_000);
    s.reset();
    assert_eq!(s, Session::new(c));
    assert_eq!(s.player.lives, 5);
    assert_eq!(s.config.kill_reward, 25);
}

#[test]
fn snapshot_shows_the_settled_state() {
    let mut s = fresh();
    s.fire_bullet();
    s.spawn_enemy_at(100_000);
    s.spawn_enemy_at(200_000);
    s.score = 30;
    s.player.lives = 2;
    s.player.invincible_timer = 1950;
    let shot = s.snapshot();
    assert_eq!(shot.player, Rect { x: 385_000, y: 535_000, w: 30_000, h: 30_000 });
    assert!(shot.player_invincible);
    assert!(!shot.player_visible);
    assert_eq!(shot.bullets, vec![Rect { x: 397_500, y: 525_000, w: 5_000, h: 10_000 }]);
    assert_eq!(
        shot.enemies,
        vec![
            Rect { x: 85_000, y: -35_000, w: 30_000, h: 30_000 },
            Rect { x: 185_000, y: -35_000, w: 30_000, h: 30_000 },
        ]
    );
    assert_eq!(shot.score, 30);
    assert_eq!(shot.lives, 2);
    assert!(!shot.game_over);
}

#[test]
fn snapshot_of_a_fresh_game() {
    let shot = fresh().snapshot();
    assert!(!shot.player_invincible);
    assert!(shot.player_visible);
    assert!(shot.bullets.is_empty());
    assert!(shot.enemies.is_empty());
    assert_eq!(shot.score, 0);
    assert_eq!(shot.lives, 3);
    assert!(!shot.game_over);
}

#[test]
fn entity_built_by_hand_equals_the_spawned_one() {
    let mut s = fresh();
    s.spawn_powerup_at(1);
    assert_eq!(s.powerups[0], Entity::new(1, -20_000, 10_000, 10_000));
}

#[test]
fn frame_clock_loses_no_time() {
    let mut clock = space_shooter::clock::FrameClock::new();
    assert_eq!(clock.carry_micros, 0);
    let mut handed_out: u64 = 0;
    let mut i: u32 = 0;
    while i < 60 {
        let ms = clock.advance(16_667);
        assert!(ms == 16 || ms == 17);
        handed_out += ms as u64;
        i += 1;
    }
    assert_eq!(handed_out, 1000);
    assert_eq!(clock.carry_micros, 20);
    assert_eq!(clock.advance(980), 1);
    assert_eq!(clock.carry_micros, 0);
    assert_eq!(clock.advance(50_000), 50);
    assert_eq!(clock.advance(999), 0);
    assert_eq!(clock.carry_micros, 999);
    assert_eq!(clock.advance(u64::MAX), u32::MAX);
    assert_eq!(clock.carry_micros, 614);
}
