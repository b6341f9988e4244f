use space_shooter::geometry::Vec2;
use space_shooter::player::Player;

#[test]
fn new_player_is_vulnerable() {
    let p = Player::new(400_000, 550_000, 3);
    assert_eq!(p.entity.position, Vec2 { x: 400_000, y: 550_000 });
    assert_eq!(p.entity.half_size, Vec2 { x: 15_000, y: 15_000 });
    assert_eq!(p.entity.velocity, Vec2 { x: 0, y: 0 });
    assert_eq!(p.lives, 3);
    assert_eq!(p.invincible_timer, 0);
    assert!(!p.is_invincible());
    assert!(p.is_visible());
}

#[test]
fn damage_costs_one_life_and_starts_the_immunity() {
    let mut p = Player::new(0, 0, 3);
    assert!(p.take_damage(2000));
    assert_eq!(p.lives, 2);
    assert_eq!(p.invincible_timer, 2000);
    assert!(p.is_invincible());
}

#[test]
fn second_damage_within_the_window_is_refused() {
    let mut p = Player::new(0, 0, 3);
    assert!(p.take_damage(2000));
    p.update(1999);
    let before = p;
    assert!(!p.take_damage(2000));
    assert_eq!(p, before);
    assert_eq!(p.lives, 2);
    assert_eq!(p.invincible_timer, 1);
}

#[test]
fn damage_is_taken_again_after_the_window() {
    let mut p = Player::new(0, 0, 3);
    assert!(p.take_damage(2000));
    assert!(!p.take_damage(2000));
    p.update(1200);
    assert!(!p.take_damage(2000));
    p.update(800);
    assert!(!p.is_invincible());
    assert!(p.take_damage(2000));
    assert_eq!(p.lives, 1);
    assert_eq!(p.invincible_timer, 2000);
}

#[test]
fn lives_stop_at_zero() {
    let mut p = Player::new(0, 0, 1);
    assert!(p.take_damage(0));
    assert_eq!(p.lives, 0);
    assert!(p.take_damage(0));
    assert_eq!(p.lives, 0);
}

#[test]
fn immunity_of_no_length_protects_from_nothing() {
    let mut p = Player::new(0, 0, 5);
    assert!(p.take_damage(0));
    assert!(!p.is_invincible());
    assert!(p.take_damage(0));
    assert_eq!(p.lives, 3);
}

#[test]
fn timer_stops_at_zero() {
    let mut p = Player::new(0, 0, 3);
    p.invincible_timer = 30;
    p.update(16);
    assert_eq!(p.invincible_timer, 14);
    p.update(16);
    assert_eq!(p.invincible_timer, 0);
    p.update(u32::MAX);
    assert_eq!(p.invincible_timer, 0);
    assert_eq!(p.lives, 3);
}

#[test]
fn invincible_player_blinks() {
    let mut p = Player::new(0, 0, 3);
    p.invincible_timer = 2000;
    assert!(p.is_visible());
    p.invincible_timer = 1999;
    assert!(!p.is_visible());
    p.invincible_timer = 1900;
    assert!(!p.is_visible());
    p.invincible_timer = 1899;
    assert!(p.is_visible());
    p.invincible_timer = 99;
    assert!(p.is_visible());
    p.invincible_timer = 100;
    assert!(!p.is_visible());
}
