use vstd::prelude::*;
use crate::conversions;

verus! {

/// One cell of the world grid.
#[derive(Copy, Clone, PartialEq, Eq, Structural, Debug)]
pub enum Tile {
    Blank,
    Wall,
}

/// The map of the game world: a rectangular grid of tiles indexed `[x][y]`,
/// with the origin `(0, 0)` at the top-left. Immutable after construction.
pub struct TileMap {
    pub tiles: Vec<Vec<Tile>>,
}

impl TileMap {
    /// The grid is rectangular and its dimensions fit in `i32`.
    pub open spec fn well_formed(&self) -> bool {
        &&& forall|i: int|
            0 <= i < self.tiles@.len() ==> (#[trigger] self.tiles@[i])@.len()
                == self.tiles@[0]@.len()
        &&& self.tiles@.len() <= i32::MAX
        &&& self.tiles@.len() > 0 ==> self.tiles@[0]@.len() <= i32::MAX
    }

    pub open spec fn spec_width(&self) -> nat {
        self.tiles@.len()
    }

    pub open spec fn spec_height(&self) -> nat {
        if self.tiles@.len() > 0 {
            self.tiles@[0]@.len()
        } else {
            0
        }
    }

    pub open spec fn spec_tile(&self, x: int, y: int) -> Tile {
        self.tiles@[x]@[y]
    }

    pub open spec fn spec_in_bounds(&self, x: int, y: int) -> bool {
        0 <= x < self.spec_width() && 0 <= y < self.spec_height()
    }

    /// A coordinate can be moved onto when it lies outside the map (the world
    /// is open beyond the grid) or when its tile is blank.
    pub open spec fn spec_is_open(&self, x: int, y: int) -> bool {
        !self.spec_in_bounds(x, y) || self.spec_tile(x, y) == Tile::Blank
    }

    /// Builds a map from a rectangular grid of tiles.
    pub fn new(tiles: Vec<Vec<Tile>>) -> (r: TileMap)
        requires
            forall|i: int|
                0 <= i < tiles@.len() ==> (#[trigger] tiles@[i])@.len() == tiles@[0]@.len(),
            tiles@.len() <= i32::MAX,
            tiles@.len() > 0 ==> tiles@[0]@.len() <= i32::MAX,
        ensures
            r.well_formed(),
            r.tiles@ == tiles@,
    {
        TileMap { tiles }
    }

    /// Returns `(width, height)` of the map.
    pub fn dimensions(&self) -> (r: (usize, usize))
        requires
            self.well_formed(),
        ensures
            r.0 == self.spec_width(),
            r.1 == self.spec_height(),
    {
        if self.tiles.len() > 0 {
            (self.tiles.len(), self.tiles[0].len())
        } else {
            (0, 0)
        }
    }

    /// Returns `true` if `(x, y)` is in bounds of the grid.
    pub fn in_bounds(&self, x: i32, y: i32) -> (r: bool)
        requires
            self.well_formed(),
        ensures
            r == self.spec_in_bounds(x as int, y as int),
    {
        if self.tiles.len() > 0 {
            let width = conversions::as_i32(self.tiles.len());
            let height = conversions::as_i32(self.tiles[0].len());
            (x >= 0 && x < width) && (y >= 0 && y < height)
        } else {
            false
        }
    }

    /// Returns `true` if `(x, y)` can be moved onto (has no wall).
    /// Coordinates outside the map are considered open.
    pub fn is_open(&self, x: i32, y: i32) -> (r: bool)
        requires
            self.well_formed(),
        ensures
            r == self.spec_is_open(x as int, y as int),
    {
        if !self.in_bounds(x, y) {
            return true;
        }
        match self.tiles[conversions::as_usize(x)][conversions::as_usize(y)] {
            Tile::Blank => true,
            _ => false,
        }
    }
}

impl Default for TileMap {
    /// The empty map: zero width and height.
    fn default() -> (r: TileMap)
        ensures
            r.well_formed(),
            r.spec_width() == 0,
    {
        TileMap { tiles: Vec::new() }
    }
}

/// The tile of the ten-by-ten test room: a square ring of walls whose corners
/// are `(2, 2)` and `(7, 7)`.
pub open spec fn test_room_tile(x: int, y: int) -> Tile {
    if 2 <= x <= 7 && 2 <= y <= 7 && (x == 2 || x == 7 || y == 2 || y == 7) {
        Tile::Wall
    } else {
        Tile::Blank
    }
}

/// The tile of the large test room: a wall on every fifth cell of each axis.
pub open spec fn test_big_room_tile(x: int, y: int) -> Tile {
    if x % 5 == 0 && y % 5 == 0 {
        Tile::Wall
    } else {
        Tile::Blank
    }
}

/// Builds the ten-by-ten room whose walls form a ring with corners `(2, 2)`
/// and `(7, 7)`.
pub fn test_room() -> (r: TileMap)
    ensures
        r.well_formed(),
        r.spec_width() == 10,
        r.spec_height() == 10,
        forall|x: int, y: int|
            0 <= x < 10 && 0 <= y < 10 ==> r.spec_tile(x, y) == test_room_tile(x, y),
{
    let mut tiles: Vec<Vec<Tile>> = Vec::new();
    let mut x: usize = 0;
    while x < 10
        invariant
            x <= 10,
            tiles@.len() == x,
            forall|i: int| 0 <= i < x ==> (#[trigger] tiles@[i])@.len() == 10,
            forall|i: int, j: int|
                0 <= i < x && 0 <= j < 10 ==> #[trigger] tiles@[i]@[j] == test_room_tile(i, j),
        decreases 10 - x,
    {
        let mut row: Vec<Tile> = Vec::new();
        let mut y: usize = 0;
        while y < 10
            invariant
                y <= 10,
                row@.len() == y,
                forall|j: int| 0 <= j < y ==> #[trigger] row@[j] == test_room_tile(x as int, j),
            decreases 10 - y,
        {
            if x >= 2 && x <= 7 && y >= 2 && y <= 7 && (x == 2 || x == 7 || y == 2 || y == 7) {
                row.push(Tile::Wall);
            } else {
                row.push(Tile::Blank);
            }
            y = y + 1;
        }
        tiles.push(row);
        x = x + 1;
    }
    TileMap { tiles }
}

/// Builds the large open room: forty-two by forty-two, with a wall on every
/// fifth cell of each axis to give a feeling of motion.
pub fn test_big_room() -> (r: TileMap)
    ensures
        r.well_formed(),
        r.spec_width() == 42,
        r.spec_height() == 42,
        forall|x: int, y: int|
            0 <= x < 42 && 0 <= y < 42 ==> r.spec_tile(x, y) == test_big_room_tile(x, y),
{
    let mut tiles: Vec<Vec<Tile>> = Vec::new();
    let mut x: usize = 0;
    while x < 42
        invariant
            x <= 42,
            tiles@.len() == x,
            forall|i: int| 0 <= i < x ==> (#[trigger] tiles@[i])@.len() == 42,
            forall|i: int, j: int|
                0 <= i < x && 0 <= j < 42 ==> #[trigger] tiles@[i]@[j] == test_big_room_tile(i, j),
        decreases 42 - x,
    {
        let mut row: Vec<Tile> = Vec::new();
        let mut y: usize = 0;
        while y < 42
            invariant
                y <= 42,
                row@.len() == y,
                forall|j: int| 0 <= j < y ==> #[trigger] row@[j] == test_big_room_tile(x as int, j),
            decreases 42 - y,
        {
            if x % 5 == 0 && y % 5 == 0 {
                row.push(Tile::Wall);
            } else {
                row.push(Tile::Blank);
            }
            y = y + 1;
        }
        tiles.push(row);
        x = x + 1;
    }
    TileMap { tiles }
}

} // verus!
