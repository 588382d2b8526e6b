use skirm_core::map::SkirmMap;
use skirm_core::point::MapPoint;
use std::collections::HashSet;

fn grid(lines: &[&str]) -> Vec<Vec<char>> {
    lines.iter().map(|l| l.chars().collect()).collect()
}

fn open_square(n: usize) -> SkirmMap {
    let line: String = " ".repeat(n);
    let lines: Vec<&str> = (0..n).map(|_| line.as_str()).collect();
    SkirmMap::from_rows(&grid(&lines))
}

#[test]
fn tiles_between_straight_row() {
    let map = open_square(5);
    let tiles = map.get_tiles_between(&MapPoint::new(0, 0), &MapPoint::new(4, 0));
    let expect: Vec<MapPoint> = (0..5).map(|x| MapPoint::new(x, 0)).collect();
    assert_eq!(tiles, expect);
}

#[test]
fn tiles_between_includes_both_endpoints() {
    let map = open_square(5);
    let tiles = map.get_tiles_between(&MapPoint::new(1, 1), &MapPoint::new(3, 2));
    assert_eq!(tiles.first(), Some(&MapPoint::new(1, 1)));
    assert_eq!(tiles.last(), Some(&MapPoint::new(3, 2)));
    let single = map.get_tiles_between(&MapPoint::new(2, 2), &MapPoint::new(2, 2));
    assert_eq!(single, vec![MapPoint::new(2, 2)]);
}

#[test]
fn tiles_between_walks_the_rasterized_line() {
    let map = open_square(8);
    let tiles = map.get_tiles_between(&MapPoint::new(0, 0), &MapPoint::new(5, 6));
    let expect: Vec<MapPoint> = [(0, 0), (0, 1), (1, 2), (2, 3), (3, 4), (4, 5), (5, 6)]
        .iter()
        .map(|&(x, y)| MapPoint::new(x, y))
        .collect();
    assert_eq!(tiles, expect);
    let back = map.get_tiles_between(&MapPoint::new(5, 6), &MapPoint::new(0, 0));
    let reversed: Vec<MapPoint> = expect.into_iter().rev().collect();
    assert_eq!(back, reversed);
}

#[test]
fn tiles_between_same_set_both_ways() {
    let map = open_square(8);
    for &(ax, ay, bx, by) in &[(0, 0, 7, 3), (1, 2, 6, 6), (3, 0, 0, 7), (5, 5, 5, 1)] {
        let a = MapPoint::new(ax, ay);
        let b = MapPoint::new(bx, by);
        let ab: HashSet<(i32, i32)> = map
            .get_tiles_between(&a, &b)
            .into_iter()
            .map(|p| p.as_tuple())
            .collect();
        let ba: HashSet<(i32, i32)> = map
            .get_tiles_between(&b, &a)
            .into_iter()
            .map(|p| p.as_tuple())
            .collect();
        assert_eq!(ab, ba);
    }
}

#[test]
fn pathfind_straight_row_excludes_start() {
    let map = SkirmMap::from_rows(&grid(&["   "]));
    let path = map
        .pathfind(&MapPoint::new(0, 0), &MapPoint::new(2, 0))
        .expect("row should be walkable");
    assert_eq!(path, vec![MapPoint::new(1, 0), MapPoint::new(2, 0)]);
}

#[test]
fn pathfind_adjacent_target_single_step() {
    let map = open_square(2);
    let path = map.pathfind(&MapPoint::new(0, 0), &MapPoint::new(1, 0));
    assert_eq!(path, Some(vec![MapPoint::new(1, 0)]));
}

#[test]
fn pathfind_on_empty_map_is_none() {
    let map = SkirmMap::from_rows(&Vec::new());
    assert_eq!(
        map.pathfind(&MapPoint::new(0, 0), &MapPoint::new(1, 0)),
        None
    );
    assert!(!map.has_ground_at(&MapPoint::new(0, 0)));
}

#[test]
fn pathfind_same_point_is_empty() {
    let map = SkirmMap::from_rows(&grid(&["  "]));
    let path = map.pathfind(&MapPoint::new(0, 0), &MapPoint::new(0, 0));
    assert_eq!(path, Some(vec![]));
}

#[test]
fn pathfind_wall_endpoint_is_none() {
    let map = SkirmMap::from_rows(&grid(&[" # "]));
    assert_eq!(
        map.pathfind(&MapPoint::new(0, 0), &MapPoint::new(1, 0)),
        None
    );
    assert_eq!(
        map.pathfind(&MapPoint::new(1, 0), &MapPoint::new(0, 0)),
        None
    );
}

#[test]
fn pathfind_disconnected_is_none() {
    let map = SkirmMap::from_rows(&grid(&[" # ", " # ", " # "]));
    assert_eq!(
        map.pathfind(&MapPoint::new(0, 1), &MapPoint::new(2, 1)),
        None
    );
}

#[test]
fn pathfind_diagonal_crossing() {
    // The cheapest way across the open square is the diagonal: four
    // steps of cost 2, total cost 8.
    let map = open_square(5);
    let path = map
        .pathfind(&MapPoint::new(0, 0), &MapPoint::new(4, 4))
        .expect("open square should be walkable");
    assert_eq!(path.len(), 4);
    assert_eq!(path.last(), Some(&MapPoint::new(4, 4)));
    let mut cost = 0;
    let mut prev = MapPoint::new(0, 0);
    for p in &path {
        let dx = (p.x - prev.x).abs();
        let dy = (p.y - prev.y).abs();
        assert!(dx <= 1 && dy <= 1 && (dx, dy) != (0, 0));
        cost += if dx == 1 && dy == 1 { 2 } else { 1 };
        prev = *p;
    }
    assert_eq!(cost, 8);
}

#[test]
fn pathfind_routes_around_walls() {
    //  .#.
    //  .#.
    //  ...
    let map = SkirmMap::from_rows(&grid(&[" # ", " # ", "   "]));
    let path = map
        .pathfind(&MapPoint::new(0, 0), &MapPoint::new(2, 0))
        .expect("the gap below the wall is walkable");
    assert_eq!(path.last(), Some(&MapPoint::new(2, 0)));
    for p in &path {
        assert!(map.has_ground_at(p));
    }
    // the detour takes at least four steps
    assert!(path.len() >= 4);
}

#[test]
fn line_of_sight_open_row() {
    let map = open_square(5);
    assert!(map.has_line_of_sight(&MapPoint::new(0, 0), &MapPoint::new(3, 0)));
    assert!(map.has_line_of_sight(&MapPoint::new(3, 0), &MapPoint::new(0, 0)));
}

#[test]
fn line_of_sight_blocked_by_wall() {
    let map = SkirmMap::from_rows(&grid(&["  # "]));
    assert!(!map.has_line_of_sight(&MapPoint::new(0, 0), &MapPoint::new(3, 0)));
    assert!(!map.has_line_of_sight(&MapPoint::new(3, 0), &MapPoint::new(0, 0)));
}

#[test]
fn line_of_sight_ignores_endpoints() {
    // Only the tiles strictly between the endpoints must be ground.
    let map = SkirmMap::from_rows(&grid(&["#  #"]));
    assert!(map.has_line_of_sight(&MapPoint::new(0, 0), &MapPoint::new(3, 0)));
    // adjacent points have nothing between them
    let walls = SkirmMap::from_rows(&grid(&["##"]));
    assert!(walls.has_line_of_sight(&MapPoint::new(0, 0), &MapPoint::new(1, 0)));
}
