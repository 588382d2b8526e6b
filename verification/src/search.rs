//! Route finding and line rasterization over the skirmish map.

use vstd::prelude::*;
use crate::map::SkirmMap;
use crate::point::{adjacent, step_cost, MapPoint};
use pathfinding::directed::dijkstra::dijkstra;
use line_drawing::Bresenham;

verus! {

/// A walkable route: consecutive points are adjacent, and every point
/// after the first is ground. The first point is where the walker already
/// stands, so its tile is not examined.
pub open spec fn is_ground_path(
    map: SkirmMap,
    path: Seq<MapPoint>,
    from: MapPoint,
    to: MapPoint,
) -> bool {
    &&& path.len() >= 1
    &&& path[0] == from
    &&& path.last() == to
    &&& forall|i: int|
        1 <= i < path.len() ==> adjacent(path[i - 1], #[trigger] path[i]) && map.spec_has_ground_at(
            path[i],
        )
}

/// The summed step cost of a route: 1 for each orthogonal step, 2 for
/// each diagonal one.
pub open spec fn path_cost(path: Seq<MapPoint>) -> nat
    decreases path.len(),
{
    if path.len() <= 1 {
        0
    } else {
        path_cost(path.drop_last()) + step_cost(path[path.len() - 2], path.last())
    }
}

/// A route of minimum cost among all ground paths between the endpoints.
pub open spec fn is_optimal_ground_path(
    map: SkirmMap,
    path: Seq<MapPoint>,
    from: MapPoint,
    to: MapPoint,
) -> bool {
    &&& is_ground_path(map, path, from, to)
    &&& forall|q: Seq<MapPoint>|
        #[trigger] is_ground_path(map, q, from, to) ==> path_cost(path) <= path_cost(q)
}

/// Relies on pathfinding's `dijkstra`: it returns a shortest path from
/// `start` to the first node satisfying the goal predicate, comprising
/// both endpoints, or `None` exactly when no such path exists. The
/// successor relation handed to it is `MapPoint::neighbors`, whose
/// contract pins it to the ground cells adjacent to a point, weighted by
/// their step costs; the goal predicate is equality with `goal`.
#[verifier::external_body]
fn dijkstra_ground_path(map: &SkirmMap, start: &MapPoint, goal: &MapPoint) -> (r: Option<
    Vec<MapPoint>,
>)
    ensures
        match r {
            Some(path) => is_optimal_ground_path(*map, path@, *start, *goal),
            None => forall|q: Seq<MapPoint>| !is_ground_path(*map, q, *start, *goal),
        },
{
    dijkstra(start, |p: &MapPoint| p.neighbors(map), |p: &MapPoint| *p == *goal).map(|t| t.0)
}

impl SkirmMap {
    /// A minimum-cost walkable route from `p1` to `p2`, excluding the
    /// start point and including the goal; `None` when either endpoint is
    /// not ground or no route exists. When `p1 == p2` the route is empty.
    pub fn pathfind(&self, p1: &MapPoint, p2: &MapPoint) -> (r: Option<Vec<MapPoint>>)
        ensures
            match r {
                Some(path) => {
                    &&& self.spec_has_ground_at(*p1)
                    &&& self.spec_has_ground_at(*p2)
                    &&& is_optimal_ground_path(*self, seq![*p1] + path@, *p1, *p2)
                },
                None => !self.spec_has_ground_at(*p1) || !self.spec_has_ground_at(*p2) || forall|
                    q: Seq<MapPoint>,
                |
                    !is_ground_path(*self, q, *p1, *p2),
            },
    {
        if !self.has_ground_at(p1) || !self.has_ground_at(p2) {
            return None;
        }
        match dijkstra_ground_path(self, p1, p2) {
            None => None,
            Some(mut path) => {
                let ghost full = path@;
                path.remove(0);
                proof {
                    assert(seq![*p1] + path@ =~= full);
                }
                Some(path)
            },
        }
    }
}

/// What line_drawing's Bresenham walk yields between two endpoints: a
/// function of the two endpoints alone.
pub uninterp spec fn bresenham_of(a: (i32, i32), b: (i32, i32)) -> Seq<(i32, i32)>;

/// Coordinates handed to the rasterizer must stay within this bound so
/// that its internal differences and error terms fit the coordinate type.
pub const RASTER_BOUND: i32 = 0x1000_0000;

/// The absolute difference of two coordinates.
pub open spec fn abs_diff(a: int, b: int) -> int {
    if a >= b {
        a - b
    } else {
        b - a
    }
}

/// The number of steps a rasterized line takes: the larger of the two
/// coordinate spans of its endpoints.
pub open spec fn line_span(a: (i32, i32), b: (i32, i32)) -> int {
    if abs_diff(a.0 as int, b.0 as int) >= abs_diff(a.1 as int, b.1 as int) {
        abs_diff(a.0 as int, b.0 as int)
    } else {
        abs_diff(a.1 as int, b.1 as int)
    }
}

/// Relies on line_drawing's `Bresenham` iterator: it walks the rasterized
/// line from `a` to `b`, yielding both endpoints, `a` first and `b` last,
/// one cell per step along the longer axis, each cell 8-adjacent to the
/// one before it and no cell twice.
#[verifier::external_body]
fn bresenham_line(a: (i32, i32), b: (i32, i32)) -> (r: Vec<(i32, i32)>)
    requires
        -RASTER_BOUND <= a.0 <= RASTER_BOUND,
        -RASTER_BOUND <= a.1 <= RASTER_BOUND,
        -RASTER_BOUND <= b.0 <= RASTER_BOUND,
        -RASTER_BOUND <= b.1 <= RASTER_BOUND,
    ensures
        r@ == bresenham_of(a, b),
        r@.len() == 1 + line_span(a, b),
        r@[0] == a,
        r@.last() == b,
        forall|i: int|
            1 <= i < r@.len() ==> -1 <= (#[trigger] r@[i]).0 - r@[i - 1].0 <= 1 && -1 <= r@[i].1
                - r@[i - 1].1 <= 1,
        forall|i: int, j: int| 0 <= i < j < r@.len() ==> (#[trigger] r@[i]) != (#[trigger] r@[j]),
{
    Bresenham::new(a, b).collect()
}

/// Lexicographic order on coordinate pairs, used to pick the canonical
/// direction a line is rasterized in.
pub open spec fn lex_le(a: (i32, i32), b: (i32, i32)) -> bool {
    a.0 < b.0 || (a.0 == b.0 && a.1 <= b.1)
}

/// The cells a line between two points covers, ordered from `a` to `b`:
/// the Bresenham walk over the lexicographically ordered pair, read
/// backwards when `a` is the larger endpoint. Rasterizing the same pair
/// in either direction therefore covers the same cells.
pub open spec fn raster_points(a: (i32, i32), b: (i32, i32)) -> Seq<(i32, i32)> {
    if lex_le(a, b) {
        bresenham_of(a, b)
    } else {
        bresenham_of(b, a).reverse()
    }
}

/// The grid point of a coordinate pair.
pub open spec fn point_of(t: (i32, i32)) -> MapPoint {
    MapPoint { x: t.0, y: t.1 }
}

/// All tiles strictly between the two endpoints of a rasterized line are
/// ground; the endpoints themselves are not examined.
pub open spec fn spec_line_of_sight(map: SkirmMap, a: (i32, i32), b: (i32, i32)) -> bool {
    forall|i: int|
        1 <= i < raster_points(a, b).len() - 1 ==> map.spec_has_ground_at(
            point_of(#[trigger] raster_points(a, b)[i]),
        )
}

impl SkirmMap {
    /// The cells a straight line from `p1` to `p2` passes through, both
    /// endpoints included, ordered from `p1` to `p2`: one cell per step
    /// along the longer axis, consecutive cells 8-adjacent, none twice.
    pub fn get_tiles_between(&self, p1: &MapPoint, p2: &MapPoint) -> (r: Vec<MapPoint>)
        requires
            -RASTER_BOUND <= p1.x <= RASTER_BOUND,
            -RASTER_BOUND <= p1.y <= RASTER_BOUND,
            -RASTER_BOUND <= p2.x <= RASTER_BOUND,
            -RASTER_BOUND <= p2.y <= RASTER_BOUND,
        ensures
            r@.map_values(|p: MapPoint| (p.x, p.y)) == raster_points((p1.x, p1.y), (p2.x, p2.y)),
            r@.len() == 1 + line_span((p1.x, p1.y), (p2.x, p2.y)),
            r@[0] == *p1,
            r@.last() == *p2,
            forall|i: int| 1 <= i < r@.len() ==> adjacent(r@[i - 1], #[trigger] r@[i]),
            forall|i: int, j: int|
                0 <= i < j < r@.len() ==> (#[trigger] r@[i]) != (#[trigger] r@[j]),
    {
        let a = p1.as_tuple();
        let b = p2.as_tuple();
        let ghost target = raster_points((p1.x, p1.y), (p2.x, p2.y));
        let mut out: Vec<MapPoint> = Vec::new();
        if a.0 < b.0 || (a.0 == b.0 && a.1 <= b.1) {
            let pts = bresenham_line(a, b);
            let mut i: usize = 0;
            while i < pts.len()
                invariant
                    i <= pts@.len(),
                    pts@ == bresenham_of(a, b),
                    target == bresenham_of(a, b),
                    out@.len() == i,
                    forall|m: int| 0 <= m < i ==> (#[trigger] out@[m]) == point_of(pts@[m]),
                decreases pts@.len() - i,
            {
                let t = pts[i];
                out.push(MapPoint::new(t.0, t.1));
                i = i + 1;
            }
            proof {
                assert(out@.map_values(|p: MapPoint| (p.x, p.y)) =~= target);
                assert forall|m: int| 1 <= m < out@.len() implies adjacent(
                    out@[m - 1],
                    #[trigger] out@[m],
                ) by {
                    assert(out@[m - 1] == point_of(pts@[m - 1]));
                    assert(out@[m] == point_of(pts@[m]));
                    assert(pts@[m - 1] != pts@[m]);
                }
                assert forall|m1: int, m2: int| 0 <= m1 < m2 < out@.len() implies (
                #[trigger] out@[m1]) != (#[trigger] out@[m2]) by {
                    assert(pts@[m1] != pts@[m2]);
                }
            }
        } else {
            let pts = bresenham_line(b, a);
            let n = pts.len();
            let mut i: usize = 0;
            while i < n
                invariant
                    i <= n,
                    n == pts@.len(),
                    pts@ == bresenham_of(b, a),
                    target == bresenham_of(b, a).reverse(),
                    out@.len() == i,
                    forall|m: int| 0 <= m < i ==> (#[trigger] out@[m]) == point_of(target[m]),
                decreases n - i,
            {
                let t = pts[n - 1 - i];
                proof {
                    assert(target[i as int] == pts@[n - 1 - i]);
                }
                out.push(MapPoint::new(t.0, t.1));
                i = i + 1;
            }
            proof {
                assert(out@.map_values(|p: MapPoint| (p.x, p.y)) =~= target);
                let len = pts@.len();
                assert(target.len() == len);
                assert forall|m: int| 0 <= m < len implies target[m] == pts@[len - 1 - m] by {}
                assert forall|m: int| 1 <= m < out@.len() implies adjacent(
                    out@[m - 1],
                    #[trigger] out@[m],
                ) by {
                    assert(out@[m - 1] == point_of(target[m - 1]));
                    assert(out@[m] == point_of(target[m]));
                    assert(target[m - 1] == pts@[len - m]);
                    assert(target[m] == pts@[len - 1 - m]);
                    assert(-1 <= pts@[len - m].0 - pts@[len - m - 1].0 <= 1 && -1 <= pts@[len
                        - m].1 - pts@[len - m - 1].1 <= 1);
                    assert(pts@[len - 1 - m] != pts@[len - m]);
                }
                assert forall|m1: int, m2: int| 0 <= m1 < m2 < out@.len() implies (
                #[trigger] out@[m1]) != (#[trigger] out@[m2]) by {
                    assert(out@[m1] == point_of(target[m1]));
                    assert(out@[m2] == point_of(target[m2]));
                    assert(pts@[len - 1 - m2] != pts@[len - 1 - m1]);
                }
            }
        }
        out
    }

    /// Whether `p1` can see straight to `p2`: every rasterized tile
    /// strictly between the two is ground. The endpoints themselves need
    /// not be ground.
    pub fn has_line_of_sight(&self, p1: &MapPoint, p2: &MapPoint) -> (r: bool)
        requires
            -RASTER_BOUND <= p1.x <= RASTER_BOUND,
            -RASTER_BOUND <= p1.y <= RASTER_BOUND,
            -RASTER_BOUND <= p2.x <= RASTER_BOUND,
            -RASTER_BOUND <= p2.y <= RASTER_BOUND,
        ensures
            r == spec_line_of_sight(*self, (p1.x, p1.y), (p2.x, p2.y)),
    {
        let tiles = self.get_tiles_between(p1, p2);
        let ghost target = raster_points((p1.x, p1.y), (p2.x, p2.y));
        let n = tiles.len();
        let mut i: usize = 1;
        while i < n - 1
            invariant
                1 <= i,
                i <= n || n <= 2,
                1 <= n == tiles@.len(),
                n == target.len(),
                target == raster_points((p1.x, p1.y), (p2.x, p2.y)),
                tiles@.map_values(|p: MapPoint| (p.x, p.y)) == target,
                forall|m: int|
                    1 <= m < i && m < n - 1 ==> self.spec_has_ground_at(
                        point_of(#[trigger] target[m]),
                    ),
            decreases n - i,
        {
            proof {
                assert(target[i as int] == (tiles@[i as int].x, tiles@[i as int].y));
                assert(point_of(target[i as int]) == tiles@[i as int]);
            }
            if !self.has_ground_at(&tiles[i]) {
                proof {
                    assert(raster_points((p1.x, p1.y), (p2.x, p2.y))[i as int] == target[i as int]);
                    assert(!self.spec_has_ground_at(point_of(target[i as int])));
                }
                return false;
            }
            i = i + 1;
        }
        true
    }
}

/// The cells a rasterized line covers do not depend on the direction it
/// is drawn in: between two points, the same set of tiles is covered
/// whichever endpoint comes first.
pub proof fn lemma_tiles_between_symmetric(a: (i32, i32), b: (i32, i32))
    ensures
        raster_points(a, b).to_set() == raster_points(b, a).to_set(),
{
    lemma_reverse_to_set(bresenham_of(a, b));
    lemma_reverse_to_set(bresenham_of(b, a));
    assert(raster_points(a, b).to_set() =~= raster_points(b, a).to_set());
}

/// Reversing a sequence does not change the set of its elements.
proof fn lemma_reverse_to_set<A>(s: Seq<A>)
    ensures
        s.reverse().to_set() == s.to_set(),
{
    assert forall|x: A| s.reverse().contains(x) implies s.contains(x) by {
        let i = choose|i: int| 0 <= i < s.reverse().len() && s.reverse()[i] == x;
        assert(s[s.len() - 1 - i] == x);
    }
    assert forall|x: A| s.contains(x) implies s.reverse().contains(x) by {
        let i = choose|i: int| 0 <= i < s.len() && s[i] == x;
        assert(s.reverse()[s.len() - 1 - i] == x);
    }
    assert(s.reverse().to_set() =~= s.to_set());
}

} // verus!
