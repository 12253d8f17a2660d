//! A moving sprite: sub-pixel position and velocity, a collision box,
//! axis-separated move-with-collision, and the screen-space commit that
//! the renderer flushes once per frame.

use vstd::prelude::*;
use vstd::arithmetic::div_mod::*;
use crate::fixed::Fix;
use crate::fixed::Vec2;
use crate::fixed::V2;
use crate::fixed::v2;
use crate::fixed::v2_add;
use crate::fixed::v2_sub;
use crate::level::Level;

verus! {

/// Visible screen area, in pixels.
pub const SCREEN_WIDTH: i32 = 240;
pub const SCREEN_HEIGHT: i32 = 160;

/// Size of an entity's collision box, in pixels.
#[derive(Clone, Copy, PartialEq, Eq, Structural, Debug)]
pub struct BoxSize {
    pub x: u16,
    pub y: u16,
}

/// The screen-space result of one frame for one sprite: where to draw
/// it and whether it is on screen at all.
#[derive(Clone, Copy, PartialEq, Eq, Structural, Debug)]
pub struct SpriteCommit {
    pub x: i32,
    pub y: i32,
    pub visible: bool,
}

pub struct Entity {
    pub position: Vec2,
    pub velocity: Vec2,
    pub collision_mask: BoxSize,
    /// Sprite attributes the game logic drives; the renderer flushes them.
    pub tile_id: u16,
    pub hflip: bool,
}

/// The entity's state as plain integers (raw fixed-point components).
pub ghost struct EntityV {
    pub position: V2,
    pub velocity: V2,
    pub mask_x: int,
    pub mask_y: int,
    pub tile_id: int,
    pub hflip: bool,
}

impl View for Entity {
    type V = EntityV;

    open spec fn view(&self) -> EntityV {
        EntityV {
            position: self.position@,
            velocity: self.velocity@,
            mask_x: self.collision_mask.x as int,
            mask_y: self.collision_mask.y as int,
            tile_id: self.tile_id as int,
            hflip: self.hflip,
        }
    }
}

/// Whether the collision box of size `(mask_x, mask_y)` centred at the
/// sub-pixel position `pos` overlaps any solid tile. The box's edges are
/// floor-divided down to tile coordinates; the tile rectangle is
/// half-open on the right and bottom.
pub open spec fn collision_at(level: Level, mask_x: int, mask_y: int, pos: V2) -> bool {
    let left = (pos.x / 1024 - mask_x / 2) / 8;
    let right = (pos.x / 1024 + mask_x / 2) / 8;
    let top = (pos.y / 1024 - mask_y / 2) / 8;
    let bottom = (pos.y / 1024 + mask_y / 2) / 8;
    exists|tx: int, ty: int|
        left <= tx < right && top <= ty < bottom && #[trigger] level.tile_solid(tx, ty)
}

/// Where axis-separated motion puts an entity: the X velocity component
/// is applied in full unless the result collides, then the Y component
/// likewise from wherever the X step ended.
pub open spec fn step_x(level: Level, mask_x: int, mask_y: int, pos: V2, vel: V2) -> V2 {
    if !collision_at(level, mask_x, mask_y, v2_add(pos, v2(vel.x, 0))) {
        v2_add(pos, v2(vel.x, 0))
    } else {
        pos
    }
}

pub open spec fn moved_position(level: Level, mask_x: int, mask_y: int, pos: V2, vel: V2) -> V2 {
    let after_x = step_x(level, mask_x, mask_y, pos, vel);
    if !collision_at(level, mask_x, mask_y, v2_add(after_x, v2(0, vel.y))) {
        v2_add(after_x, v2(0, vel.y))
    } else {
        after_x
    }
}

/// Whole-pixel screen coordinate of a world position under a camera
/// offset.
pub open spec fn screen_point(pos: V2, offset: V2) -> V2 {
    v2((pos.x - offset.x) / 1024, (pos.y - offset.y) / 1024)
}

/// Whether a sprite anchored at screen point `p` is within the visible
/// area, padded by eight pixels on every side.
pub open spec fn on_screen(p: V2) -> bool {
    &&& -8 <= p.x <= SCREEN_WIDTH + 8
    &&& -8 <= p.y <= SCREEN_HEIGHT + 8
}

impl Entity {
    pub fn new(collision_mask: BoxSize) -> (e: Entity)
        ensures
            e@.position == v2(0, 0),
            e@.velocity == v2(0, 0),
            e@.mask_x == collision_mask.x as int,
            e@.mask_y == collision_mask.y as int,
            e@.tile_id == 0,
            e@.hflip == false,
    {
        Entity {
            position: Vec2::zero(),
            velocity: Vec2::zero(),
            collision_mask,
            tile_id: 0,
            hflip: false,
        }
    }

    /// Whether this entity's collision box, centred at `position`,
    /// overlaps any solid tile of the level.
    pub fn collision_at_point(&self, level: &Level, position: Vec2) -> (hit: bool)
        requires
            level.wf(),
        ensures
            hit == collision_at(*level, self@.mask_x, self@.mask_y, position@),
    {
        let px = position.x.floor();
        let py = position.y.floor();
        let half_x = (self.collision_mask.x / 2) as i32;
        let half_y = (self.collision_mask.y / 2) as i32;
        let left = crate::fixed::div_floor((px - half_x) as i64, 8) as i32;
        let right = crate::fixed::div_floor((px + half_x) as i64, 8) as i32;
        let top = crate::fixed::div_floor((py - half_y) as i64, 8) as i32;
        let bottom = crate::fixed::div_floor((py + half_y) as i64, 8) as i32;
        proof {
            lemma_div_is_ordered(-0x8000_8000, (px - half_x) as int, 8);
            lemma_div_is_ordered(-0x8000_8000, (py - half_y) as int, 8);
            lemma_div_is_ordered((px + half_x) as int, 0x8000_8000, 8);
            lemma_div_is_ordered((py + half_y) as int, 0x8000_8000, 8);
            lemma_div_is_ordered(-0x8000_8000, (px + half_x) as int, 8);
            lemma_div_is_ordered(-0x8000_8000, (py + half_y) as int, 8);
            lemma_div_is_ordered((px - half_x) as int, 0x8000_8000, 8);
            lemma_div_is_ordered((py - half_y) as int, 0x8000_8000, 8);
        }
        let ghost gleft = (position@.x / 1024 - self@.mask_x / 2) / 8;
        let ghost gtop = (position@.y / 1024 - self@.mask_y / 2) / 8;
        let ghost gright = (position@.x / 1024 + self@.mask_x / 2) / 8;
        let ghost gbottom = (position@.y / 1024 + self@.mask_y / 2) / 8;
        let mut tx = left;
        while tx < right
            invariant
                level.wf(),
                left <= tx,
                gleft == (position@.x / 1024 - self@.mask_x / 2) / 8,
                gright == (position@.x / 1024 + self@.mask_x / 2) / 8,
                gtop == (position@.y / 1024 - self@.mask_y / 2) / 8,
                gbottom == (position@.y / 1024 + self@.mask_y / 2) / 8,
                left == gleft && right == gright && top == gtop && bottom == gbottom,
                forall|ax: int, ay: int|
                    gleft <= ax < tx && gtop <= ay < gbottom ==> !(#[trigger] level.tile_solid(
                        ax,
                        ay,
                    )),
            decreases right - tx,
        {
            let mut ty = top;
            while ty < bottom
                invariant
                    level.wf(),
                    top <= ty,
                    gleft == (position@.x / 1024 - self@.mask_x / 2) / 8,
                    gright == (position@.x / 1024 + self@.mask_x / 2) / 8,
                    gtop == (position@.y / 1024 - self@.mask_y / 2) / 8,
                    gbottom == (position@.y / 1024 + self@.mask_y / 2) / 8,
                    tx < right,
                    left == gleft && right == gright && top == gtop && bottom == gbottom,
                    left <= tx,
                    forall|ax: int, ay: int|
                        gleft <= ax < tx && gtop <= ay < gbottom ==> !(#[trigger] level.tile_solid(
                            ax,
                            ay,
                        )),
                    forall|ay: int|
                        gtop <= ay < ty ==> !(#[trigger] level.tile_solid(tx as int, ay)),
                decreases bottom - ty,
            {
                if level.collides(tx, ty) {
                    return true;
                }
                ty = ty + 1;
            }
            tx = tx + 1;
        }
        false
    }

    /// Axis-separated motion: apply the X velocity component unless the
    /// result collides, then the Y component likewise. Returns the net
    /// displacement actually applied; each component of it is either the
    /// corresponding velocity component or zero.
    pub fn update_position(&mut self, level: &Level) -> (moved: Vec2)
        requires
            level.wf(),
            i32::MIN <= old(self)@.position.x + old(self)@.velocity.x <= i32::MAX,
            i32::MIN <= old(self)@.position.y + old(self)@.velocity.y <= i32::MAX,
        ensures
            final(self)@.position == moved_position(
                *level,
                old(self)@.mask_x,
                old(self)@.mask_y,
                old(self)@.position,
                old(self)@.velocity,
            ),
            moved@ == v2_sub(final(self)@.position, old(self)@.position),
            moved@.x == old(self)@.velocity.x || moved@.x == 0,
            moved@.y == old(self)@.velocity.y || moved@.y == 0,
            final(self)@.velocity == old(self)@.velocity,
            final(self)@.mask_x == old(self)@.mask_x && final(self)@.mask_y == old(self)@.mask_y,
            final(self)@.tile_id == old(self)@.tile_id && final(self)@.hflip == old(self)@.hflip,
    {
        let old_position = self.position;
        let x_velocity = Vec2::new(self.velocity.x, Fix::zero());
        let x_candidate = self.position.plus(x_velocity);
        if !self.collision_at_point(level, x_candidate) {
            self.position = x_candidate;
        }
        let y_velocity = Vec2::new(Fix::zero(), self.velocity.y);
        let y_candidate = self.position.plus(y_velocity);
        if !self.collision_at_point(level, y_candidate) {
            self.position = y_candidate;
        }
        self.position.minus(old_position)
    }

    /// Screen-space commit for this frame: the sprite's draw position
    /// (centred by half the sprite size) and whether it is shown at all.
    pub fn commit_position(&self, offset: Vec2) -> (c: SpriteCommit)
        requires
            i32::MIN <= self@.position.x - offset@.x <= i32::MAX,
            i32::MIN <= self@.position.y - offset@.y <= i32::MAX,
        ensures
            c.x == screen_point(self@.position, offset@).x - 8,
            c.y == screen_point(self@.position, offset@).y - 8,
            c.visible == on_screen(screen_point(self@.position, offset@)),
    {
        let p = self.position.minus(offset);
        let sx = p.x.floor();
        let sy = p.y.floor();
        let visible = !(sx < -8 || sx > SCREEN_WIDTH + 8 || sy < -8 || sy > SCREEN_HEIGHT + 8);
        SpriteCommit { x: sx - 8, y: sy - 8, visible }
    }
}

/// The safety law of axis-separated motion: a committed axis step never
/// lands in a colliding position, and when both single-axis candidates
/// collide the entity does not move at all.
pub proof fn lemma_update_position_safe(
    level: Level,
    mask_x: int,
    mask_y: int,
    pos: V2,
    vel: V2,
)
    ensures
        ({
            let after_x = step_x(level, mask_x, mask_y, pos, vel);
            let after_xy = moved_position(level, mask_x, mask_y, pos, vel);
            &&& (after_x != pos ==> !collision_at(level, mask_x, mask_y, after_x))
            &&& (after_xy != after_x ==> !collision_at(level, mask_x, mask_y, after_xy))
            &&& ((collision_at(level, mask_x, mask_y, v2_add(pos, v2(vel.x, 0)))
                && collision_at(level, mask_x, mask_y, v2_add(pos, v2(0, vel.y)))) ==> after_xy
                == pos)
        }),
{
}

/// A position whose 16-by-16 collision box is collision-free lies inside
/// the level: out-of-bounds tiles are solid, so every committed move
/// keeps an entity within the grid's pixel extent.
pub proof fn lemma_free_position_in_level(level: Level, pos: V2)
    requires
        level.wf(),
        !collision_at(level, 16, 16, pos),
    ensures
        8 * 1024 <= pos.x < 8 * 1024 * (level.width as int),
        8 * 1024 <= pos.y < 8 * 1024 * (level.height as int),
{
    let fx = pos.x / 1024;
    let fy = pos.y / 1024;
    let left = (fx - 8) / 8;
    let right = (fx + 8) / 8;
    let top = (fy - 8) / 8;
    let bottom = (fy + 8) / 8;
    lemma_edge_gap(fx);
    lemma_edge_gap(fy);
    assert(!level.tile_solid(left, top));
    assert(!level.tile_solid(right - 1, top));
    assert(!level.tile_solid(left, bottom - 1));
    // left >= 0 means fx - 8 >= 0; right <= width means fx < 8 * width.
    lemma_floor_bounds(pos.x, fx, left, right, level.width as int);
    lemma_floor_bounds(pos.y, fy, top, bottom, level.height as int);
}

/// The right edge of a 16-pixel box lands exactly two tiles right of the
/// left edge.
proof fn lemma_edge_gap(f: int)
    ensures
        (f + 8) / 8 == (f - 8) / 8 + 2,
{
    lemma_fundamental_div_mod(f - 8, 8);
    lemma_fundamental_div_mod_converse(f + 8, 8, (f - 8) / 8 + 2, (f - 8) % 8);
}

/// From in-bounds tile edges back to pixel bounds on the raw coordinate.
proof fn lemma_floor_bounds(raw: int, f: int, lo: int, hi: int, dim: int)
    requires
        f == raw / 1024,
        lo == (f - 8) / 8,
        hi == (f + 8) / 8,
        lo >= 0,
        hi - 1 < dim,
    ensures
        8 * 1024 <= raw < 8 * 1024 * dim,
{
    // lo >= 0 forces f >= 8, so raw >= 8 * 1024.
    lemma_fundamental_div_mod(f - 8, 8);
    lemma_fundamental_div_mod(f + 8, 8);
    lemma_fundamental_div_mod(raw, 1024);
    assert(f - 8 >= 8 * lo);
    assert(f + 8 < 8 * (hi + 1));
    assert(raw >= 1024 * f);
    assert(raw < 1024 * (f + 1));
    // hi <= dim forces f <= 8 * dim - 1, so raw < 8 * 1024 * dim.
    assert(f + 8 <= 8 * dim + 7) by (nonlinear_arith)
        requires
            f + 8 < 8 * (hi + 1),
            hi <= dim,
    ;
    assert(1024 * (f + 1) <= 1024 * (8 * dim)) by (nonlinear_arith)
        requires
            f + 1 <= 8 * dim,
    ;
    assert(1024 * (8 * dim) == 8 * 1024 * dim) by (nonlinear_arith);
}

} // verus!
