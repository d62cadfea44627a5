use tilegame::map::{test_big_room, test_room, Tile, TileMap};

#[test]
fn test_room_dimensions() {
    let map = test_room();
    assert_eq!(map.dimensions(), (10, 10));
}

#[test]
fn test_room_walls() {
    let map = test_room();
    // The ring of walls with corners (2, 2) and (7, 7).
    assert!(!map.is_open(2, 2));
    assert!(!map.is_open(7, 7));
    assert!(!map.is_open(2, 5));
    assert!(!map.is_open(5, 2));
    assert!(!map.is_open(7, 4));
    assert!(!map.is_open(4, 7));
    // Inside and outside the ring is open ground.
    assert!(map.is_open(4, 4));
    assert!(map.is_open(0, 0));
    assert!(map.is_open(9, 9));
    assert!(map.is_open(1, 2));
}

#[test]
fn test_out_of_bounds_is_open() {
    let map = test_room();
    assert!(map.is_open(-1, 5));
    assert!(map.is_open(5, -1));
    assert!(map.is_open(10, 5));
    assert!(map.is_open(5, 10));
    assert!(!map.in_bounds(-1, 5));
    assert!(!map.in_bounds(10, 0));
    assert!(map.in_bounds(0, 0));
    assert!(map.in_bounds(9, 9));
}

#[test]
fn test_big_room_layout() {
    let map = test_big_room();
    assert_eq!(map.dimensions(), (42, 42));
    assert!(!map.is_open(0, 0));
    assert!(!map.is_open(5, 5));
    assert!(!map.is_open(40, 35));
    assert!(map.is_open(1, 1));
    assert!(map.is_open(5, 4));
}

#[test]
fn test_map_new_and_default() {
    let empty = TileMap::default();
    assert_eq!(empty.dimensions(), (0, 0));
    assert!(!empty.in_bounds(0, 0));
    assert!(empty.is_open(0, 0));

    let tiles = vec![
        vec![Tile::Blank, Tile::Wall],
        vec![Tile::Blank, Tile::Blank],
    ];
    let map = TileMap::new(tiles);
    assert_eq!(map.dimensions(), (2, 2));
    assert!(!map.is_open(0, 1));
    assert!(map.is_open(1, 1));
}
