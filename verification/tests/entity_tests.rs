use space_shooter::entity::Entity;
use space_shooter::geometry::{displace, saturate, Rect, Vec2};

fn entity_at(x: i32, y: i32, half_width: i32, half_height: i32) -> Entity {
    Entity::new(x, y, half_width, half_height)
}

#[test]
fn new_entity_is_alive_and_at_rest() {
    let e = Entity::new(10, -20, 3, 4);
    assert_eq!(e.position, Vec2 { x: 10, y: -20 });
    assert_eq!(e.velocity, Vec2 { x: 0, y: 0 });
    assert_eq!(e.half_size, Vec2 { x: 3, y: 4 });
    assert!(e.alive);
    assert!(e.is_valid());
}

#[test]
fn entity_without_extent_is_not_valid() {
    let mut e = Entity::new(0, 0, 1, 1);
    e.half_size.x = 0;
    assert!(!e.is_valid());
    e.half_size = Vec2 { x: 5, y: -1 };
    assert!(!e.is_valid());
}

#[test]
fn bounds_are_centred_on_the_position() {
    let e = entity_at(400_000, 550_000, 15_000, 15_000);
    let r = e.bounds();
    assert_eq!(r, Rect { x: 385_000, y: 535_000, w: 30_000, h: 30_000 });
    assert_eq!(400_000 - r.x, (r.x + r.w) - 400_000);
    assert_eq!(550_000 - r.y, (r.y + r.h) - 550_000);
}

#[test]
fn bounds_of_a_bullet() {
    let e = entity_at(100_000, 50_000, 2_500, 5_000);
    assert_eq!(e.bounds(), Rect { x: 97_500, y: 45_000, w: 5_000, h: 10_000 });
}

#[test]
fn bounds_do_not_overflow_at_the_ends_of_the_lattice() {
    let e = entity_at(i32::MIN, i32::MAX, i32::MAX, i32::MAX);
    let r = e.bounds();
    assert_eq!(r.x, i32::MIN as i64 - i32::MAX as i64);
    assert_eq!(r.y, 0);
    assert_eq!(r.w, 2 * (i32::MAX as i64));
    assert_eq!(r.h, 2 * (i32::MAX as i64));
}

#[test]
fn overlapping_entities_overlap_both_ways() {
    let a = entity_at(0, 0, 10, 10);
    let b = entity_at(15, -15, 10, 10);
    assert!(a.overlaps(&b));
    assert!(b.overlaps(&a));
}

#[test]
fn entity_overlaps_itself() {
    let a = entity_at(7, 9, 1, 1);
    assert!(a.overlaps(&a));
}

#[test]
fn entities_apart_on_x_do_not_overlap() {
    let a = entity_at(0, 0, 10, 10);
    let b = entity_at(21, 0, 10, 10);
    assert!(!a.overlaps(&b));
    assert!(!b.overlaps(&a));
}

#[test]
fn entities_apart_on_y_do_not_overlap() {
    let a = entity_at(0, 0, 10, 10);
    let b = entity_at(0, -21, 10, 10);
    assert!(!a.overlaps(&b));
    assert!(!b.overlaps(&a));
}

#[test]
fn touching_edges_do_not_overlap() {
    let a = entity_at(0, 0, 10, 10);
    let right = entity_at(20, 0, 10, 10);
    let below = entity_at(0, 20, 10, 10);
    let corner = entity_at(20, 20, 10, 10);
    assert!(!a.overlaps(&right));
    assert!(!a.overlaps(&below));
    assert!(!a.overlaps(&corner));
    let nearly = entity_at(19, 19, 10, 10);
    assert!(a.overlaps(&nearly));
}

#[test]
fn overlap_over_a_grid_of_positions() {
    let a = entity_at(0, 0, 4, 3);
    let mut x: i32 = -12;
    while x <= 12 {
        let mut y: i32 = -12;
        while y <= 12 {
            let b = entity_at(x, y, 2, 5);
            let meet_x = -4 < x + 2 && x - 2 < 4;
            let meet_y = -3 < y + 5 && y - 5 < 3;
            assert_eq!(a.overlaps(&b), meet_x && meet_y);
            assert_eq!(b.overlaps(&a), meet_x && meet_y);
            y += 1;
        }
        x += 1;
    }
}

#[test]
fn rect_overlap_is_exclusive() {
    let a = Rect { x: 0, y: 0, w: 10, h: 10 };
    assert!(a.overlaps(&Rect { x: 9, y: 9, w: 5, h: 5 }));
    assert!(!a.overlaps(&Rect { x: 10, y: 0, w: 5, h: 5 }));
    assert!(!a.overlaps(&Rect { x: 0, y: -5, w: 5, h: 5 }));
}

#[test]
fn rect_overlap_does_not_overflow() {
    let a = Rect { x: i64::MAX, y: i64::MAX, w: i64::MAX, h: i64::MAX };
    let b = Rect { x: i64::MIN, y: i64::MIN, w: i64::MAX, h: i64::MAX };
    assert!(a.overlaps(&a));
    assert!(!a.overlaps(&b));
}

#[test]
fn integrate_adds_velocity_times_time() {
    let mut e = entity_at(400_000, 530_000, 2_500, 5_000);
    e.velocity = Vec2 { x: 30, y: -400 };
    e.integrate(50);
    assert_eq!(e.position, Vec2 { x: 401_500, y: 510_000 });
    assert_eq!(e.velocity, Vec2 { x: 30, y: -400 });
    assert_eq!(e.half_size, Vec2 { x: 2_500, y: 5_000 });
    assert!(e.alive);
}

#[test]
fn integrate_for_no_time_changes_nothing() {
    let mut e = entity_at(1, 2, 3, 4);
    e.velocity = Vec2 { x: 1000, y: -1000 };
    let before = e;
    e.integrate(0);
    assert_eq!(e, before);
}

#[test]
fn integrate_saturates() {
    let mut e = entity_at(i32::MAX - 5, i32::MIN + 5, 1, 1);
    e.velocity = Vec2 { x: i32::MAX, y: i32::MIN };
    e.integrate(u32::MAX);
    assert_eq!(e.position, Vec2 { x: i32::MAX, y: i32::MIN });
}

#[test]
fn displace_and_saturate() {
    assert_eq!(displace(-20_000, 100, 6_000), 580_000);
    assert_eq!(displace(0, -7, 3), -21);
    assert_eq!(displace(i32::MIN, i32::MAX, u32::MAX), i32::MAX);
    assert_eq!(displace(i32::MIN, i32::MIN, u32::MAX), i32::MIN);
    assert_eq!(saturate(i64::MAX), i32::MAX);
    assert_eq!(saturate(i64::MIN), i32::MIN);
    assert_eq!(saturate(-12), -12);
}
