//! The skirmish map: a grid of tiles, its walkability and its occupancy.

use vstd::prelude::*;
use crate::point::{adjacent, step_cost, MapPoint};
use crate::tile::{EntityId, Tile, TileType};
use ascii::{AsciiChar, ToAsciiChar};

verus! {

/// Errors from occupancy updates.
#[derive(PartialEq, Eq, Structural, Debug)]
pub enum MapError {
    Occupied,
    PointDoesNotExist,
}

/// Largest number of rows, and of cells per row, a loaded map may have.
/// Keeps every coordinate small enough for the pixel conversions and for
/// the line rasterizer's integer arithmetic.
pub const MAX_DIM: usize = 0x1000_0000;

/// The tile a map cell is parsed to: `#` is a wall, anything else ground.
pub open spec fn tile_for_glyph(c: char) -> Tile {
    Tile {
        occupant: None,
        ground_occupant: None,
        tile_type: if c == '#' {
            TileType::Wall
        } else {
            TileType::Ground
        },
        glyph: if c == '#' {
            '#'
        } else {
            ' '
        },
    }
}

/// The map owns one tile per loaded grid cell; `(x, y)` indexes column `x`
/// of row `y`. Rows may differ in length, as the lines of the map source do.
pub struct SkirmMap {
    grid: Vec<Vec<Tile>>,
}

impl SkirmMap {
    pub closed spec fn rows(self) -> Seq<Seq<Tile>> {
        self.grid@.map_values(|r: Vec<Tile>| r@)
    }

    pub open spec fn dims_ok(self) -> bool {
        &&& self.rows().len() <= MAX_DIM
        &&& forall|j: int|
            0 <= j < self.rows().len() ==> (#[trigger] self.rows()[j]).len() <= MAX_DIM
    }

    pub open spec fn contains_point(self, p: MapPoint) -> bool {
        &&& 0 <= p.y
        &&& (p.y as int) < self.rows().len()
        &&& 0 <= p.x
        &&& (p.x as int) < self.rows()[p.y as int].len()
    }

    pub open spec fn tile_at(self, p: MapPoint) -> Tile
        recommends
            self.contains_point(p),
    {
        self.rows()[p.y as int][p.x as int]
    }

    pub open spec fn spec_has_ground_at(self, p: MapPoint) -> bool {
        self.contains_point(p) && self.tile_at(p).tile_type is Ground
    }

    pub open spec fn occupant_at(self, p: MapPoint) -> Option<EntityId> {
        if self.contains_point(p) {
            self.tile_at(p).occupant
        } else {
            None
        }
    }

    /// Well-formedness: bounded dimensions, and an occupant only ever
    /// stands on ground.
    pub open spec fn wf(self) -> bool {
        &&& self.dims_ok()
        &&& forall|p: MapPoint|
            #[trigger] self.occupant_at(p) is Some ==> self.spec_has_ground_at(p)
    }

    /// Parses a textual grid, one inner vector of characters per line:
    /// `#` becomes a wall, every other character ground.
    pub fn from_rows(source: &Vec<Vec<char>>) -> (r: Self)
        requires
            source@.len() <= MAX_DIM,
            forall|j: int|
                0 <= j < source@.len() ==> (#[trigger] source@[j])@.len() <= MAX_DIM,
            forall|j: int, i: int|
                0 <= j < source@.len() && 0 <= i < source@[j]@.len()
                    ==> (#[trigger] source@[j]@[i]) as u32 <= 127,
        ensures
            r.wf(),
            r.rows().len() == source@.len(),
            forall|j: int|
                0 <= j < source@.len() ==> (#[trigger] r.rows()[j]).len() == source@[j]@.len(),
            forall|j: int, i: int|
                0 <= j < source@.len() && 0 <= i < source@[j]@.len()
                    ==> (#[trigger] r.rows()[j][i]) == tile_for_glyph(source@[j]@[i]),
    {
        let mut grid: Vec<Vec<Tile>> = Vec::new();
        let mut j: usize = 0;
        while j < source.len()
            invariant
                j <= source@.len(),
                source@.len() <= MAX_DIM,
                forall|j2: int, i: int|
                    0 <= j2 < source@.len() && 0 <= i < source@[j2]@.len()
                        ==> (#[trigger] source@[j2]@[i]) as u32 <= 127,
                grid@.len() == j,
                forall|j2: int|
                    0 <= j2 < j ==> (#[trigger] grid@[j2])@.len() == source@[j2]@.len(),
                forall|j2: int, i: int|
                    0 <= j2 < j && 0 <= i < source@[j2]@.len()
                        ==> (#[trigger] grid@[j2]@[i]) == tile_for_glyph(source@[j2]@[i]),
            decreases source@.len() - j,
        {
            let line = &source[j];
            let mut row: Vec<Tile> = Vec::new();
            let mut i: usize = 0;
            while i < line.len()
                invariant
                    i <= line@.len(),
                    line@ == source@[j as int]@,
                    j < source@.len(),
                    forall|j2: int, i2: int|
                        0 <= j2 < source@.len() && 0 <= i2 < source@[j2]@.len()
                            ==> (#[trigger] source@[j2]@[i2]) as u32 <= 127,
                    row@.len() == i,
                    forall|i2: int|
                        0 <= i2 < i ==> (#[trigger] row@[i2]) == tile_for_glyph(line@[i2]),
                decreases line@.len() - i,
            {
                let c = line[i];
                if is_wall_glyph(c) {
                    row.push(Tile::new(TileType::Wall));
                } else {
                    row.push(Tile::new(TileType::Ground));
                }
                i = i + 1;
            }
            grid.push(row);
            j = j + 1;
        }
        let r = Self { grid };
        proof {
            assert(forall|j2: int|
                0 <= j2 < source@.len() ==> (#[trigger] r.rows()[j2]) == grid@[j2]@);
            assert forall|p: MapPoint| #[trigger] r.occupant_at(p) is Some implies r
                .spec_has_ground_at(p) by {
                if r.contains_point(p) {
                    assert(r.tile_at(p) == tile_for_glyph(source@[p.y as int]@[p.x as int]));
                }
            }
        }
        r
    }

    pub fn has_ground_at(&self, point: &MapPoint) -> (r: bool)
        ensures
            r == self.spec_has_ground_at(*point),
    {
        if point.y >= 0 && point.x >= 0 {
            let yu = point.y as usize;
            let xu = point.x as usize;
            if yu < self.grid.len() {
                let row = &self.grid[yu];
                if xu < row.len() {
                    return row[xu].tile_type == TileType::Ground;
                }
            }
        }
        false
    }

    pub fn has_occupant(&self, point: &MapPoint) -> (r: bool)
        ensures
            r == (self.occupant_at(*point) is Some),
    {
        if point.y >= 0 && point.x >= 0 {
            let yu = point.y as usize;
            let xu = point.x as usize;
            if yu < self.grid.len() {
                let row = &self.grid[yu];
                if xu < row.len() {
                    return row[xu].has_occupant();
                }
            }
        }
        false
    }

    /// The entity standing at `point`, if the point is loaded and occupied.
    pub fn get_occupant(&self, point: &MapPoint) -> (r: Option<EntityId>)
        ensures
            r == self.occupant_at(*point),
    {
        if point.y >= 0 && point.x >= 0 {
            let yu = point.y as usize;
            let xu = point.x as usize;
            if yu < self.grid.len() {
                let row = &self.grid[yu];
                if xu < row.len() {
                    return row[xu].occupant;
                }
            }
        }
        None
    }

    /// Places `ent` on `point`. Fails with `Occupied` if some entity already
    /// stands there, and with `PointDoesNotExist` if the point is outside the
    /// loaded map or not walkable ground (a wall never takes an occupant).
    pub fn add_occupant(&mut self, ent: EntityId, point: MapPoint) -> (r: Result<(), MapError>)
        ensures
            r is Ok <==> (old(self).occupant_at(point) is None && old(self).spec_has_ground_at(
                point,
            )),
            r == Err::<(), MapError>(MapError::Occupied) <==> old(self).occupant_at(
                point,
            ) is Some,
            r == Err::<(), MapError>(MapError::PointDoesNotExist) <==> (old(self).occupant_at(
                point,
            ) is None && !old(self).spec_has_ground_at(point)),
            r is Err ==> *final(self) == *old(self),
            forall|q: MapPoint| final(self).contains_point(q) == old(self).contains_point(q),
            forall|q: MapPoint|
                #[trigger] final(self).spec_has_ground_at(q) == old(self).spec_has_ground_at(q),
            forall|q: MapPoint|
                #[trigger] final(self).occupant_at(q) == if r is Ok && q == point {
                    Some(ent)
                } else {
                    old(self).occupant_at(q)
                },
            old(self).wf() ==> final(self).wf(),
    {
        if self.has_occupant(&point) {
            return Err(MapError::Occupied);
        }
        if !self.has_ground_at(&point) {
            return Err(MapError::PointDoesNotExist);
        }
        let yu = point.y as usize;
        let xu = point.x as usize;
        let ghost old_rows = self.rows();
        self.grid[yu][xu].occupant = Some(ent);
        proof {
            let updated = old_rows[point.y as int].update(
                point.x as int,
                Tile { occupant: Some(ent), ..old(self).tile_at(point) },
            );
            assert(self.rows() =~= old_rows.update(point.y as int, updated));
            assert(self.rows().len() == old_rows.len());
            assert(forall|j: int|
                0 <= j < self.rows().len() ==> (#[trigger] self.rows()[j]).len()
                    == old_rows[j].len());
            if old(self).wf() {
                assert forall|p: MapPoint| #[trigger] self.occupant_at(p) is Some implies self
                    .spec_has_ground_at(p) by {
                    if p != point {
                        assert(old(self).occupant_at(p) is Some);
                    }
                }
            }
        }
        Ok(())
    }

    /// Clears the occupant of `point`. Fails only if the point is outside
    /// the loaded map.
    pub fn remove_occupant(&mut self, point: &MapPoint) -> (r: Result<(), MapError>)
        ensures
            r is Ok <==> old(self).contains_point(*point),
            r is Err ==> r == Err::<(), MapError>(MapError::PointDoesNotExist) && *final(self)
                == *old(self),
            forall|q: MapPoint| final(self).contains_point(q) == old(self).contains_point(q),
            forall|q: MapPoint|
                #[trigger] final(self).spec_has_ground_at(q) == old(self).spec_has_ground_at(q),
            forall|q: MapPoint|
                #[trigger] final(self).occupant_at(q) == if r is Ok && q == *point {
                    None::<EntityId>
                } else {
                    old(self).occupant_at(q)
                },
            old(self).wf() ==> final(self).wf(),
    {
        if point.y >= 0 && point.x >= 0 {
            let yu = point.y as usize;
            let xu = point.x as usize;
            if yu < self.grid.len() {
                if xu < self.grid[yu].len() {
                    let ghost old_rows = self.rows();
                    self.grid[yu][xu].occupant = None;
                    proof {
                        let updated = old_rows[point.y as int].update(
                            point.x as int,
                            Tile { occupant: None, ..old(self).tile_at(*point) },
                        );
                        assert(self.rows() =~= old_rows.update(point.y as int, updated));
                        assert(self.rows().len() == old_rows.len());
                        assert(forall|j: int|
                            0 <= j < self.rows().len() ==> (#[trigger] self.rows()[j]).len()
                                == old_rows[j].len());
                        if old(self).wf() {
                            assert forall|p: MapPoint| #[trigger] self.occupant_at(
                                p,
                            ) is Some implies self.spec_has_ground_at(p) by {
                                assert(old(self).occupant_at(p) is Some);
                            }
                        }
                    }
                    return Ok(());
                }
            }
        }
        Err(MapError::PointDoesNotExist)
    }
}

/// The 8-directional neighbour of `p` displaced by `(dx, dy)`, if its
/// coordinates still fit the coordinate type.
pub open spec fn offset_neighbor(p: MapPoint, dx: int, dy: int) -> Option<MapPoint> {
    if i32::MIN <= p.x + dx <= i32::MAX && i32::MIN <= p.y + dy <= i32::MAX {
        Some(MapPoint { x: (p.x + dx) as i32, y: (p.y + dy) as i32 })
    } else {
        None
    }
}

/// Appends the neighbour of `p` displaced by `(dx, dy)` to `out`, weighted
/// by its step cost, if that cell is walkable ground of `map`.
fn push_ground_neighbor(
    map: &SkirmMap,
    p: MapPoint,
    dx: i32,
    dy: i32,
    out: &mut Vec<(MapPoint, usize)>,
)
    requires
        -1 <= dx <= 1,
        -1 <= dy <= 1,
        !(dx == 0 && dy == 0),
    ensures
        final(out)@ == match offset_neighbor(p, dx as int, dy as int) {
            Some(q) => if map.spec_has_ground_at(q) {
                old(out)@.push((q, step_cost(p, q) as usize))
            } else {
                old(out)@
            },
            None => old(out)@,
        },
{
    if let Some(x) = p.x.checked_add(dx) {
        if let Some(y) = p.y.checked_add(dy) {
            let q = MapPoint::new(x, y);
            if map.has_ground_at(&q) {
                let w: usize = if dx != 0 && dy != 0 {
                    2
                } else {
                    1
                };
                out.push((q, w));
            }
        }
    }
}

/// The eight neighbour displacements, in the order they are explored.
pub open spec fn neighbor_offsets() -> Seq<(int, int)> {
    seq![(-1, -1), (0, -1), (1, -1), (-1, 0), (1, 0), (-1, 1), (0, 1), (1, 1)]
}

/// Where an adjacent neighbour's displacement stands in the exploration
/// order; distinct neighbours of one point have distinct positions.
spec fn offset_index(p: MapPoint, q: MapPoint) -> int {
    let dx = q.x - p.x;
    let dy = q.y - p.y;
    if dx == -1 && dy == -1 {
        0
    } else if dx == 0 && dy == -1 {
        1
    } else if dx == 1 && dy == -1 {
        2
    } else if dx == -1 && dy == 0 {
        3
    } else if dx == 1 && dy == 0 {
        4
    } else if dx == -1 && dy == 1 {
        5
    } else if dx == 0 && dy == 1 {
        6
    } else {
        7
    }
}

impl MapPoint {
    /// The walkable 8-directional neighbours of this point on `map`, each
    /// with its step cost: 1 for an orthogonal step, 2 for a diagonal one.
    /// Exactly the ground cells adjacent to this point appear, each once.
    pub fn neighbors(&self, map: &SkirmMap) -> (r: Vec<(MapPoint, usize)>)
        ensures
            forall|k: int|
                0 <= k < r@.len() ==> adjacent(*self, (#[trigger] r@[k]).0) && map
                    .spec_has_ground_at(r@[k].0) && r@[k].1 == step_cost(*self, r@[k].0),
            forall|q: MapPoint|
                adjacent(*self, q) && map.spec_has_ground_at(q) ==> #[trigger] r@.contains(
                    (q, step_cost(*self, q) as usize),
                ),
            forall|i: int, j: int|
                0 <= i < j < r@.len() ==> (#[trigger] r@[i]).0 != (#[trigger] r@[j]).0,
            r@.len() <= 8,
    {
        let mut out: Vec<(MapPoint, usize)> = Vec::new();
        let mut k: usize = 0;
        while k < 8
            invariant
                k <= 8,
                out@.len() <= k,
                forall|m: int|
                    0 <= m < out@.len() ==> adjacent(*self, (#[trigger] out@[m]).0) && map
                        .spec_has_ground_at(out@[m].0) && out@[m].1 == step_cost(*self, out@[m].0),
                forall|m: int|
                    0 <= m < k ==> match offset_neighbor(
                        *self,
                        (#[trigger] neighbor_offsets()[m]).0,
                        neighbor_offsets()[m].1,
                    ) {
                        Some(q) => map.spec_has_ground_at(q) ==> out@.contains(
                            (q, step_cost(*self, q) as usize),
                        ),
                        None => true,
                    },
                forall|m: int|
                    0 <= m < out@.len() ==> offset_index(*self, (#[trigger] out@[m]).0) < k,
                forall|m1: int, m2: int|
                    0 <= m1 < m2 < out@.len() ==> offset_index(*self, (#[trigger] out@[m1]).0)
                        < offset_index(*self, (#[trigger] out@[m2]).0),
            decreases 8 - k,
        {
            let (dx, dy): (i32, i32) = if k == 0 {
                (-1, -1)
            } else if k == 1 {
                (0, -1)
            } else if k == 2 {
                (1, -1)
            } else if k == 3 {
                (-1, 0)
            } else if k == 4 {
                (1, 0)
            } else if k == 5 {
                (-1, 1)
            } else if k == 6 {
                (0, 1)
            } else {
                (1, 1)
            };
            proof {
                assert((dx as int, dy as int) == neighbor_offsets()[k as int]);
            }
            let ghost prev = out@;
            push_ground_neighbor(map, *self, dx, dy, &mut out);
            proof {
                broadcast use vstd::seq_lib::lemma_seq_contains_after_push;

                if out@.len() == prev.len() + 1 {
                    assert(offset_index(*self, out@[prev.len() as int].0) == k as int);
                }
            }
            k = k + 1;
        }
        proof {
            assert forall|q: MapPoint| adjacent(*self, q) && map.spec_has_ground_at(q) implies out@
                .contains((q, step_cost(*self, q) as usize)) by {
                let dx = q.x - self.x;
                let dy = q.y - self.y;
                let m: int = if dx == -1 && dy == -1 {
                    0
                } else if dx == 0 && dy == -1 {
                    1
                } else if dx == 1 && dy == -1 {
                    2
                } else if dx == -1 && dy == 0 {
                    3
                } else if dx == 1 && dy == 0 {
                    4
                } else if dx == -1 && dy == 1 {
                    5
                } else if dx == 0 && dy == 1 {
                    6
                } else {
                    7
                };
                assert(neighbor_offsets()[m] == (dx, dy));
                assert(offset_neighbor(*self, dx, dy) == Some(q));
            }
        }
        out
    }
}

/// The squared euclidean distance between two points of the plane.
pub open spec fn sq_dist(ax: int, ay: int, bx: int, by: int) -> int {
    (ax - bx) * (ax - bx) + (ay - by) * (ay - by)
}

/// Whether `r` is the square root of `d2`, truncated to an integer and
/// clamped to the largest `u16` value.
pub open spec fn is_clamped_root(r: u16, d2: int) -> bool {
    &&& r * r <= d2
    &&& r < 65535 ==> d2 < (r + 1) * (r + 1)
}

/// The square root of `d2`, truncated, clamped to `u16::MAX`.
fn clamped_isqrt(d2: u128) -> (r: u16)
    ensures
        is_clamped_root(r, d2 as int),
{
    if d2 >= 65535u128 * 65535u128 {
        return 65535;
    }
    if d2 == 0 {
        return 0;
    }
    let mut lo: u32 = 0;
    let mut hi: u32 = 65535;
    while lo + 1 < hi
        invariant
            lo < hi <= 65535,
            lo as int * lo as int <= d2 as int,
            (d2 as int) < hi as int * hi as int,
        decreases hi - lo,
    {
        let mid = lo + (hi - lo) / 2;
        proof {
            assert(mid as int * mid as int <= 65535 * 65535) by (nonlinear_arith)
                requires
                    0 <= mid <= 65535,
            ;
        }
        if (mid as u128) * (mid as u128) <= d2 {
            lo = mid;
        } else {
            hi = mid;
        }
    }
    lo as u16
}

/// The straight-line distance between two grid points, in whole tiles,
/// truncated, clamped to the largest `u16` value.
pub fn tile_distance(p1: &MapPoint, p2: MapPoint) -> (r: u16)
    ensures
        is_clamped_root(r, sq_dist(p1.x as int, p1.y as int, p2.x as int, p2.y as int)),
{
    let dx = p1.x as i128 - p2.x as i128;
    let dy = p1.y as i128 - p2.y as i128;
    proof {
        assert(dx * dx >= 0 && dy * dy >= 0) by (nonlinear_arith);
        assert(dx * dx <= 0x1_0000_0000_0000_0000) by (nonlinear_arith)
            requires
                -0x1_0000_0000 <= dx <= 0x1_0000_0000,
        ;
        assert(dy * dy <= 0x1_0000_0000_0000_0000) by (nonlinear_arith)
            requires
                -0x1_0000_0000 <= dy <= 0x1_0000_0000,
        ;
    }
    let d2 = dx * dx + dy * dy;
    clamped_isqrt(d2 as u128)
}

/// The straight-line distance between two pixel coordinates, truncated,
/// clamped to the largest `u16` value.
pub fn pixel_distance(p1: (i32, i32), p2: (i32, i32)) -> (r: u16)
    ensures
        is_clamped_root(r, sq_dist(p1.0 as int, p1.1 as int, p2.0 as int, p2.1 as int)),
{
    let dx = p1.0 as i128 - p2.0 as i128;
    let dy = p1.1 as i128 - p2.1 as i128;
    proof {
        assert(dx * dx >= 0 && dy * dy >= 0) by (nonlinear_arith);
        assert(dx * dx <= 0x1_0000_0000_0000_0000) by (nonlinear_arith)
            requires
                -0x1_0000_0000 <= dx <= 0x1_0000_0000,
        ;
        assert(dy * dy <= 0x1_0000_0000_0000_0000) by (nonlinear_arith)
            requires
                -0x1_0000_0000 <= dy <= 0x1_0000_0000,
        ;
    }
    let d2 = dx * dx + dy * dy;
    clamped_isqrt(d2 as u128)
}

/// Relies on the ascii crate: `char::to_ascii_char` converts an ASCII
/// character losslessly, and `AsciiChar::Hash` is `'#'`.
#[verifier::external_body]
fn is_wall_glyph(c: char) -> (r: bool)
    requires
        c as u32 <= 127,
    ensures
        r == (c == '#'),
{
    c.to_ascii_char().unwrap() == AsciiChar::Hash
}

} // verus!
