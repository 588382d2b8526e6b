//! Integer grid coordinates and their conversion to pixel space.

use vstd::prelude::*;

verus! {

/// Width of one map tile in pixels.
pub const TILE_WIDTH: i32 = 8;
/// Height of one map tile in pixels.
pub const TILE_HEIGHT: i32 = 14;

/// A discrete grid coordinate on the skirmish map.
#[derive(PartialEq, Eq, Structural, Hash, Copy, Clone, Debug)]
pub struct MapPoint {
    pub x: i32,
    pub y: i32,
}

/// Whether two grid points are 8-directionally adjacent (and distinct).
pub open spec fn adjacent(a: MapPoint, b: MapPoint) -> bool {
    &&& -1 <= b.x - a.x <= 1
    &&& -1 <= b.y - a.y <= 1
    &&& a != b
}

/// Cost of one step between adjacent points: diagonal steps cost 2,
/// orthogonal steps cost 1.
pub open spec fn step_cost(a: MapPoint, b: MapPoint) -> nat {
    if a.x != b.x && a.y != b.y {
        2
    } else {
        1
    }
}

/// Pixel-to-tile index conversion: floor division by the tile size, so
/// every pixel of the strip just left of the origin falls in tile -1.
pub open spec fn pixel_to_tile(p: int, size: int) -> int
    recommends
        size > 0,
{
    p / size
}

/// Floor division of a coordinate by a positive tile size never leaves
/// the coordinate type's range.
proof fn lemma_floor_div_in_range(p: int, size: int)
    requires
        i32::MIN <= p <= i32::MAX,
        0 < size,
    ensures
        i32::MIN <= p / size <= i32::MAX,
{
    vstd::arithmetic::div_mod::lemma_fundamental_div_mod(p, size);
    vstd::arithmetic::div_mod::lemma_mod_bound(p, size);
    let q = p / size;
    let m = p % size;
    assert(i32::MIN <= q <= i32::MAX) by (nonlinear_arith)
        requires
            p == size * q + m,
            0 <= m < size,
            0 < size,
            i32::MIN <= p <= i32::MAX,
    ;
}

impl MapPoint {
    pub fn new(x: i32, y: i32) -> (r: Self)
        ensures
            r == (MapPoint { x, y }),
    {
        Self { x, y }
    }

    /// The grid point whose tile contains the given pixel coordinate:
    /// floor division by the tile dimensions.
    pub fn from_pixel_coord(x: i32, y: i32) -> (r: Self)
        ensures
            r.x == pixel_to_tile(x as int, TILE_WIDTH as int),
            r.y == pixel_to_tile(y as int, TILE_HEIGHT as int),
    {
        proof {
            lemma_floor_div_in_range(x as int, TILE_WIDTH as int);
            lemma_floor_div_in_range(y as int, TILE_HEIGHT as int);
        }
        let tile_index_x = x.checked_div_euclid(TILE_WIDTH).unwrap();
        let tile_index_y = y.checked_div_euclid(TILE_HEIGHT).unwrap();
        MapPoint::new(tile_index_x, tile_index_y)
    }

    pub fn as_tuple(&self) -> (r: (i32, i32))
        ensures
            r == (self.x, self.y),
    {
        (self.x, self.y)
    }

    /// The pixel coordinate of this tile's top-left corner.
    pub fn as_pixel_coord_tuple(&self) -> (r: (i32, i32))
        requires
            i32::MIN <= self.x * TILE_WIDTH <= i32::MAX,
            i32::MIN <= self.y * TILE_HEIGHT <= i32::MAX,
        ensures
            r.0 == self.x * TILE_WIDTH,
            r.1 == self.y * TILE_HEIGHT,
    {
        (self.x * TILE_WIDTH, self.y * TILE_HEIGHT)
    }

    /// The pixel coordinate of this tile's center.
    pub fn center(&self) -> (r: (i32, i32))
        requires
            i32::MIN <= self.x * TILE_WIDTH,
            self.x * TILE_WIDTH + TILE_WIDTH / 2 <= i32::MAX,
            i32::MIN <= self.y * TILE_HEIGHT,
            self.y * TILE_HEIGHT + TILE_HEIGHT / 2 <= i32::MAX,
        ensures
            r.0 == self.x * TILE_WIDTH + TILE_WIDTH / 2,
            r.1 == self.y * TILE_HEIGHT + TILE_HEIGHT / 2,
    {
        (self.x * TILE_WIDTH + TILE_WIDTH / 2, self.y * TILE_HEIGHT + TILE_HEIGHT / 2)
    }
}

} // verus!
