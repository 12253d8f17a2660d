//! Axis-separated motion: a free move applies the full velocity, a
//! blocked axis is rejected whole (no partial slide), and blocking both
//! axes yields a zero net displacement. Screen commits centre the
//! sprite and hide it outside the padded screen area.

use hat_wizard::level::Level;
use hat_wizard::entity::Entity;
use hat_wizard::entity::BoxSize;
use hat_wizard::fixed::Vec2;

fn empty_room(width: u32, height: u32) -> Level {
    let cells = (width * height) as usize;
    Level {
        background: vec![0; cells],
        foreground: vec![0; cells],
        width,
        height,
        collision: vec![0, 1],
        collision_tile: 1,
    }
}

fn set_solid(level: &mut Level, x: u32, y: u32) {
    level.foreground[(y * level.width + x) as usize] = 1;
}

fn entity_at(x: i32, y: i32, vx_raw: i32, vy_raw: i32) -> Entity {
    let mut e = Entity::new(BoxSize { x: 16, y: 16 });
    e.position = Vec2::from_ints(x, y);
    e.velocity = Vec2 {
        x: hat_wizard::fixed::Fix { raw: vx_raw },
        y: hat_wizard::fixed::Fix { raw: vy_raw },
    };
    e
}

#[test]
fn free_move_applies_the_full_velocity() {
    let level = empty_room(20, 20);
    let mut e = entity_at(40, 40, 3 * 1024, -2 * 1024);
    let moved = e.update_position(&level);
    assert_eq!(moved.x.raw, 3 * 1024);
    assert_eq!(moved.y.raw, -2 * 1024);
    assert_eq!(e.position.x.raw, 43 * 1024);
    assert_eq!(e.position.y.raw, 38 * 1024);
    assert_eq!(e.velocity.x.raw, 3 * 1024);
}

#[test]
fn blocked_horizontal_move_is_rejected_whole() {
    let mut level = empty_room(20, 20);
    // A wall column at tile x = 6, in the path of a rightward move.
    for y in 0..20 {
        set_solid(&mut level, 6, y);
    }
    let mut e = entity_at(40, 40, 8 * 1024, 1024);
    let moved = e.update_position(&level);
    // X is fully rejected (no partial slide); Y still applies.
    assert_eq!(moved.x.raw, 0);
    assert_eq!(moved.y.raw, 1024);
    assert_eq!(e.position.x.raw, 40 * 1024);
    assert_eq!(e.position.y.raw, 41 * 1024);
}

#[test]
fn blocking_both_axes_gives_zero_displacement() {
    let mut level = empty_room(20, 20);
    for i in 0..20 {
        set_solid(&mut level, 6, i);
        set_solid(&mut level, i, 6);
    }
    let mut e = entity_at(40, 40, 8 * 1024, 8 * 1024);
    let moved = e.update_position(&level);
    assert_eq!(moved.x.raw, 0);
    assert_eq!(moved.y.raw, 0);
    assert_eq!(e.position.x.raw, 40 * 1024);
    assert_eq!(e.position.y.raw, 40 * 1024);
}

#[test]
fn commit_centres_the_sprite_and_reports_visibility() {
    let e = entity_at(120, 80, 0, 0);
    let c = e.commit_position(Vec2::from_ints(0, 0));
    assert_eq!(c.x, 112);
    assert_eq!(c.y, 72);
    assert!(c.visible);

    // The camera offset shifts the screen position.
    let shifted = e.commit_position(Vec2::from_ints(100, 0));
    assert_eq!(shifted.x, 12);
    assert!(shifted.visible);

    // More than eight pixels off screen on any side hides the sprite.
    let off_left = entity_at(-9, 80, 0, 0).commit_position(Vec2::from_ints(0, 0));
    assert!(!off_left.visible);
    let on_edge = entity_at(-8, 80, 0, 0).commit_position(Vec2::from_ints(0, 0));
    assert!(on_edge.visible);
    let off_bottom = entity_at(120, 169, 0, 0).commit_position(Vec2::from_ints(0, 0));
    assert!(!off_bottom.visible);
}

#[test]
fn sub_pixel_positions_floor_to_screen_pixels() {
    let mut e = entity_at(0, 0, 0, 0);
    e.position = Vec2 {
        x: hat_wizard::fixed::Fix { raw: 120 * 1024 + 1023 },
        y: hat_wizard::fixed::Fix { raw: 80 * 1024 + 1 },
    };
    let c = e.commit_position(Vec2::from_ints(0, 0));
    assert_eq!(c.x, 112);
    assert_eq!(c.y, 72);
}
