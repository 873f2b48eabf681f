//! The tile map: which tiles are road, and which of their neighbours are too.
use vstd::prelude::*;

verus! {

/// The character that marks a road tile in a map file.
pub const ROAD: char = '.';

/// A tile's kind: one bit for each neighbour that is road, right first, then
/// up, left and down; zero for a tile that is no road.
pub open spec fn kind_bits(right: bool, up: bool, left: bool, down: bool) -> usize {
    ((if right {
        1usize
    } else {
        0
    }) + (if up {
        2usize
    } else {
        0
    }) + (if left {
        4usize
    } else {
        0
    }) + (if down {
        8usize
    } else {
        0
    })) as usize
}

/// One tile of the map.
pub struct Tile {
    pub tile_type: usize,
    /// Which neighbours are road: left, right, up, down.
    pub neighbors: (bool, bool, bool, bool),
}

impl Tile {
    /// A tile that is no road.
    pub fn empty() -> (r: Tile)
        ensures
            r.tile_type == 0,
            r.neighbors == (false, false, false, false),
    {
        Tile { tile_type: 0, neighbors: (false, false, false, false) }
    }

    /// A road tile with these neighbours on the road.
    pub fn from_neighbors(right: bool, up: bool, left: bool, down: bool) -> (r: Tile)
        ensures
            r.tile_type == kind_bits(right, up, left, down),
            r.neighbors == (left, right, up, down),
    {
        let mut tile_type: usize = 0;
        if right {
            tile_type = tile_type + 1;
        }
        if up {
            tile_type = tile_type + 2;
        }
        if left {
            tile_type = tile_type + 4;
        }
        if down {
            tile_type = tile_type + 8;
        }
        Tile { tile_type, neighbors: (left, right, up, down) }
    }
}

/// The rows of a map file as character sequences.
pub open spec fn grid(rows: Seq<Vec<char>>) -> Seq<Seq<char>> {
    rows.map_values(|r: Vec<char>| r@)
}

/// Whether tile (`x`, `y`) is road; the file lists rows top first, while `y`
/// counts from the bottom.
pub open spec fn is_road(g: Seq<Seq<char>>, x: int, y: int) -> bool {
    g[g.len() - 1 - y][x] == ROAD
}

/// The kind and road neighbours of tile (`x`, `y`) of a map `width` by
/// `height`.
pub open spec fn tile_for(g: Seq<Seq<char>>, width: int, height: int, x: int, y: int) -> (
    usize,
    (bool, bool, bool, bool),
) {
    if !is_road(g, x, y) {
        (0, (false, false, false, false))
    } else {
        let right = x + 1 < width && is_road(g, x + 1, y);
        let up = y + 1 < height && is_road(g, x, y + 1);
        let left = x > 0 && is_road(g, x - 1, y);
        let down = y > 0 && is_road(g, x, y - 1);
        (kind_bits(right, up, left, down), (left, right, up, down))
    }
}

/// Whether the bottom `height` rows are all `width` long or longer.
pub open spec fn covers(g: Seq<Seq<char>>, width: int, height: int) -> bool {
    height <= g.len() && forall|y: int| 0 <= y < height ==> width <= #[trigger] g[g.len() - 1 - y].len()
}

/// Whether `tiles`, indexed by column then row, are the tiles of the map.
pub open spec fn tiles_of(tiles: Seq<Vec<Tile>>, g: Seq<Seq<char>>, width: int, height: int) -> bool {
    &&& tiles.len() == width
    &&& forall|x: int| 0 <= x < width ==> (#[trigger] tiles[x])@.len() == height
    &&& forall|x: int, y: int|
        0 <= x < width && 0 <= y < height ==> ((#[trigger] tiles[x]@[y]).tile_type, tiles[x]@[y].neighbors)
            == tile_for(g, width, height, x, y)
}

fn road_at(rows: &Vec<Vec<char>>, x: usize, y: usize) -> (r: bool)
    requires
        y < rows@.len(),
        x < grid(rows@)[rows@.len() - 1 - y].len(),
    ensures
        r == is_road(grid(rows@), x as int, y as int),
{
    let row = &rows[rows.len() - 1 - y];
    assert(grid(rows@)[rows@.len() - 1 - y] == row@);
    row[x] == ROAD
}

/// The tiles of a map `width` by `height` whose rows, top first, are `rows`.
pub fn build_tiles(rows: &Vec<Vec<char>>, width: usize, height: usize) -> (r: Vec<Vec<Tile>>)
    requires
        covers(grid(rows@), width as int, height as int),
    ensures
        tiles_of(r@, grid(rows@), width as int, height as int),
{
    let ghost g = grid(rows@);
    let mut tiles: Vec<Vec<Tile>> = Vec::new();
    let mut x: usize = 0;
    while x < width
        invariant
            x <= width,
            g == grid(rows@),
            covers(g, width as int, height as int),
            tiles@.len() == x,
            forall|i: int| 0 <= i < x ==> (#[trigger] tiles@[i])@.len() == height,
            forall|i: int, j: int|
                0 <= i < x && 0 <= j < height ==> ((#[trigger] tiles@[i]@[j]).tile_type,
                    tiles@[i]@[j].neighbors) == tile_for(g, width as int, height as int, i, j),
        decreases width - x,
    {
        let mut column: Vec<Tile> = Vec::new();
        let mut y: usize = 0;
        while y < height
            invariant
                x < width,
                y <= height,
                g == grid(rows@),
                covers(g, width as int, height as int),
                column@.len() == y,
                forall|j: int|
                    0 <= j < y ==> ((#[trigger] column@[j]).tile_type, column@[j].neighbors)
                        == tile_for(g, width as int, height as int, x as int, j),
            decreases height - y,
        {
            assert(width <= g[g.len() - 1 - y].len());
            let tile = if !road_at(rows, x, y) {
                Tile::empty()
            } else {
                let right = x + 1 < width && road_at(rows, x + 1, y);
                proof {
                    if y + 1 < height {
                        assert(width <= g[g.len() - 1 - (y + 1)].len());
                    }
                    if y > 0 {
                        assert(width <= g[g.len() - 1 - (y - 1)].len());
                    }
                }
                let up = y + 1 < height && road_at(rows, x, y + 1);
                let left = x > 0 && road_at(rows, x - 1, y);
                let down = y > 0 && road_at(rows, x, y - 1);
                Tile::from_neighbors(right, up, left, down)
            };
            column.push(tile);
            y = y + 1;
        }
        tiles.push(column);
        x = x + 1;
    }
    tiles
}

/// The map the player walks.
pub struct TileMap {
    pub width: usize,
    pub height: usize,
    pub start_pos: (usize, usize),
    /// Indexed by column, then by row counted from the bottom.
    pub tiles: Vec<Vec<Tile>>,
    pub loaded: bool,
}

impl TileMap {
    /// A map with nothing loaded yet.
    pub fn new() -> (r: TileMap)
        ensures
            !r.loaded,
            r.tiles@.len() == 0,
    {
        TileMap { width: 0, height: 0, start_pos: (0, 0), tiles: Vec::new(), loaded: false }
    }

    /// Loads the map from the rows of a map file, top first, once; a map
    /// already loaded is kept as it is.
    pub fn load(&mut self, rows: &Vec<Vec<char>>, width: usize, height: usize, start_pos: (
        usize,
        usize,
    ))
        requires
            covers(grid(rows@), width as int, height as int),
        ensures
            old(self).loaded ==> *final(self) == *old(self),
            !old(self).loaded ==> final(self).loaded && final(self).width == width
                && final(self).height == height && final(self).start_pos == start_pos
                && tiles_of(final(self).tiles@, grid(rows@), width as int, height as int),
    {
        if self.loaded {
            return;
        }
        self.width = width;
        self.height = height;
        self.start_pos = start_pos;
        self.tiles = build_tiles(rows, width, height);
        self.loaded = true;
    }
}

} // verus!
