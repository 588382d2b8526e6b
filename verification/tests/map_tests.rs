use skirm_core::map::{MapError, SkirmMap};
use skirm_core::point::MapPoint;
use skirm_core::tile::{Tile, TileType};

fn grid(lines: &[&str]) -> Vec<Vec<char>> {
    lines.iter().map(|l| l.chars().collect()).collect()
}

#[test]
fn load_grid_parses_walls_and_ground() {
    let map = SkirmMap::from_rows(&grid(&["# ", " #"]));
    assert!(!map.has_ground_at(&MapPoint::new(0, 0)));
    assert!(map.has_ground_at(&MapPoint::new(1, 0)));
    assert!(map.has_ground_at(&MapPoint::new(0, 1)));
    assert!(!map.has_ground_at(&MapPoint::new(1, 1)));
}

#[test]
fn has_ground_at_outside_map_is_false() {
    let map = SkirmMap::from_rows(&grid(&["  "]));
    assert!(!map.has_ground_at(&MapPoint::new(2, 0)));
    assert!(!map.has_ground_at(&MapPoint::new(0, 1)));
    assert!(!map.has_ground_at(&MapPoint::new(-1, 0)));
    assert!(!map.has_ground_at(&MapPoint::new(0, -1)));
}

#[test]
fn add_occupant_places_entity() {
    let mut map = SkirmMap::from_rows(&grid(&["   "]));
    let p = MapPoint::new(1, 0);
    assert_eq!(map.add_occupant(7, p), Ok(()));
    assert!(map.has_occupant(&p));
    assert_eq!(map.get_occupant(&p), Some(7));
    assert!(!map.has_occupant(&MapPoint::new(0, 0)));
}

#[test]
fn add_occupant_occupied_keeps_first() {
    let mut map = SkirmMap::from_rows(&grid(&["   "]));
    let p = MapPoint::new(1, 0);
    assert_eq!(map.add_occupant(7, p), Ok(()));
    assert_eq!(map.add_occupant(8, p), Err(MapError::Occupied));
    assert_eq!(map.get_occupant(&p), Some(7));
}

#[test]
fn add_occupant_missing_point_fails() {
    let mut map = SkirmMap::from_rows(&grid(&[" #"]));
    assert_eq!(
        map.add_occupant(7, MapPoint::new(5, 5)),
        Err(MapError::PointDoesNotExist)
    );
    // a wall never takes an occupant
    assert_eq!(
        map.add_occupant(7, MapPoint::new(1, 0)),
        Err(MapError::PointDoesNotExist)
    );
    assert!(!map.has_occupant(&MapPoint::new(1, 0)));
}

#[test]
fn remove_occupant_clears_tile() {
    let mut map = SkirmMap::from_rows(&grid(&["  "]));
    let p = MapPoint::new(0, 0);
    assert_eq!(map.add_occupant(3, p), Ok(()));
    assert_eq!(map.remove_occupant(&p), Ok(()));
    assert!(!map.has_occupant(&p));
    assert_eq!(
        map.remove_occupant(&MapPoint::new(9, 9)),
        Err(MapError::PointDoesNotExist)
    );
}

#[test]
fn tile_new_sets_glyph_and_type() {
    let wall = Tile::new(TileType::Wall);
    assert_eq!(wall.glyph, '#');
    assert!(!wall.has_occupant());
    let ground = Tile::new(TileType::Ground);
    assert_eq!(ground.glyph, ' ');
    assert!(ground.occupant.is_none());
    assert!(ground.ground_occupant.is_none());
}

#[test]
fn get_occupant_empty_or_missing_is_none() {
    let map = SkirmMap::from_rows(&grid(&[" "]));
    assert_eq!(map.get_occupant(&MapPoint::new(0, 0)), None);
    assert_eq!(map.get_occupant(&MapPoint::new(4, 4)), None);
}

#[test]
fn neighbors_exclude_walls_and_weight_diagonals() {
    // # .
    // . .
    let map = SkirmMap::from_rows(&grid(&["# ", "  "]));
    let mut n = MapPoint::new(1, 1).neighbors(&map);
    n.sort_by_key(|(p, w)| (p.x, p.y, *w));
    assert_eq!(
        n,
        vec![
            (MapPoint::new(0, 1), 1),
            (MapPoint::new(1, 0), 1),
        ]
    );
    let mut m = MapPoint::new(0, 1).neighbors(&map);
    m.sort_by_key(|(p, w)| (p.x, p.y, *w));
    assert_eq!(
        m,
        vec![
            (MapPoint::new(1, 0), 2),
            (MapPoint::new(1, 1), 1),
        ]
    );
}
