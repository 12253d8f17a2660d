//! Tile-grid collision: out-of-bounds is always solid, in-bounds goes
//! through the collision-property table, and the entity's box query
//! covers exactly the half-open tile rectangle under it.

use hat_wizard::level::Level;
use hat_wizard::entity::Entity;
use hat_wizard::entity::BoxSize;
use hat_wizard::fixed::Vec2;

fn empty_room(width: u32, height: u32) -> Level {
    let cells = (width * height) as usize;
    Level {
        background: vec![0; cells],
        foreground: vec![0; cells],
        width,
        height,
        collision: vec![0, 1],
        collision_tile: 1,
    }
}

fn set_solid(level: &mut Level, x: u32, y: u32) {
    level.foreground[(y * level.width + x) as usize] = 1;
}

#[test]
fn out_of_bounds_is_always_solid() {
    let level = empty_room(3, 2);
    assert!(level.collides(-1, 0));
    assert!(level.collides(0, -1));
    assert!(level.collides(3, 0));
    assert!(level.collides(0, 2));
    assert!(level.collides(-100, -100));
    assert!(level.collides(1000, 1000));
}

#[test]
fn in_bounds_follows_the_collision_table() {
    let mut level = empty_room(3, 2);
    set_solid(&mut level, 1, 0);
    set_solid(&mut level, 0, 1);
    for y in 0..2i32 {
        for x in 0..3i32 {
            let tile = level.foreground[(y * 3 + x) as usize];
            let expected = level.collision[tile as usize] == level.collision_tile;
            assert_eq!(level.collides(x, y), expected);
        }
    }
    assert!(level.collides(1, 0));
    assert!(!level.collides(0, 0));
    assert!(level.collides(0, 1));
    assert!(!level.collides(2, 1));
}

#[test]
fn only_the_sentinel_property_is_solid() {
    let mut level = empty_room(2, 1);
    level.collision = vec![5, 9];
    level.collision_tile = 9;
    level.foreground = vec![0, 1];
    assert!(!level.collides(0, 0));
    assert!(level.collides(1, 0));
}

#[test]
fn box_query_covers_the_half_open_tile_rectangle() {
    // A 16x16 box centred at pixel (40, 40) spans tiles [4,6) x [4,6).
    let mut level = empty_room(10, 10);
    set_solid(&mut level, 6, 5);
    let entity = Entity::new(BoxSize { x: 16, y: 16 });
    let centre = Vec2::from_ints(40, 40);
    assert!(!entity.collision_at_point(&level, centre));

    let mut level2 = empty_room(10, 10);
    set_solid(&mut level2, 5, 5);
    assert!(entity.collision_at_point(&level2, centre));

    let mut level3 = empty_room(10, 10);
    set_solid(&mut level3, 4, 4);
    assert!(entity.collision_at_point(&level3, centre));

    let mut level4 = empty_room(10, 10);
    set_solid(&mut level4, 3, 4);
    assert!(!entity.collision_at_point(&level4, centre));
}

#[test]
fn box_near_the_grid_edge_sees_the_outside_as_solid() {
    let level = empty_room(10, 10);
    let entity = Entity::new(BoxSize { x: 16, y: 16 });
    // Box [0,16) x [32,48): fully inside.
    assert!(!entity.collision_at_point(&level, Vec2::from_ints(8, 40)));
    // Box [-1,15) x [32,48): pokes one pixel out on the left.
    assert!(entity.collision_at_point(&level, Vec2::from_ints(7, 40)));
}
