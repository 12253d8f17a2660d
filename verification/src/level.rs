//! Static level data: two row-major tile-id layers, the grid size in
//! tiles, and a collision-property table indexed by foreground tile id.
//! Only the foreground layer takes part in collision; the background
//! layer is purely decorative.

use vstd::prelude::*;

verus! {

/// Width and height of one tile, in pixels.
pub const TILE_SIZE: i32 = 8;

pub struct Level {
    pub background: Vec<u16>,
    pub foreground: Vec<u16>,
    /// Grid width, in tiles.
    pub width: u32,
    /// Grid height, in tiles.
    pub height: u32,
    /// Collision property per foreground tile id.
    pub collision: Vec<u32>,
    /// The property value that marks a tile as solid.
    pub collision_tile: u32,
}

impl Level {
    /// Well-formed level data, as the asset pipeline guarantees it:
    /// both layers cover the grid, and every foreground tile id has an
    /// entry in the collision table. The grid is capped at 2048 tiles
    /// per side: that is what the 32-bit fixed-point coordinates can
    /// carry through a frame update (a velocity component must span the
    /// level and still survive the 62/64 drag multiply within `i32`),
    /// and it is far beyond any tilemap the display hardware can hold.
    pub open spec fn wf(self) -> bool {
        &&& self.width <= 2048
        &&& self.height <= 2048
        &&& self.foreground@.len() == self.width * self.height
        &&& self.background@.len() == self.width * self.height
        &&& forall|i: int|
            0 <= i < self.foreground@.len() ==> (self.foreground@[i] as int)
                < self.collision@.len()
    }

    /// Whether the tile at grid coordinate `(x, y)` blocks movement.
    /// Everything outside the grid is solid, so nothing can escape it.
    pub open spec fn tile_solid(self, x: int, y: int) -> bool {
        ||| x < 0
        ||| x >= self.width as int
        ||| y < 0
        ||| y >= self.height as int
        ||| self.collision@[self.foreground@[y * (self.width as int) + x] as int]
            == self.collision_tile
    }

    /// Point-in-solid query on the tile grid.
    pub fn collides(&self, x: i32, y: i32) -> (solid: bool)
        requires
            self.wf(),
        ensures
            solid == self.tile_solid(x as int, y as int),
            (x < 0 || x as int >= self.width as int || y < 0 || y as int >= self.height as int)
                ==> solid,
            (0 <= (x as int) && (x as int) < self.width as int && 0 <= (y as int) && (y as int)
                < self.height as int) ==> solid
                == (self.collision@[self.foreground@[(y as int) * (self.width as int) + x as int] as int]
                    == self.collision_tile),
    {
        if x < 0 || x >= self.width as i32 || y < 0 || y >= self.height as i32 {
            return true;
        }
        proof {
            assert((self.width as int) * (y as int) + (x as int)
                < (self.width as int) * (self.height as int)
                && (self.width as int) * (self.height as int) <= 0x40_0000
                && (self.width as int) * (y as int) == (y as int) * (self.width as int))
                by (nonlinear_arith)
                requires
                    0 <= (x as int) && (x as int) < self.width as int,
                    0 <= (y as int) && (y as int) < self.height as int,
                    self.width <= 2048,
                    self.height <= 2048,
            ;
        }
        let pos: usize = (self.width as usize) * (y as usize) + (x as usize);
        let tile = self.foreground[pos];
        let property = self.collision[tile as usize];
        property == self.collision_tile
    }
}

} // verus!
