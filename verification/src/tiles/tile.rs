//! The world grid: which tile lies where, and which tiles stop movement.

use vstd::prelude::*;

use crate::entities::player::Player;
use crate::tiles::map_text::holds_lines;
use crate::tiles::map_text::parse_row;
use crate::tiles::map_text::spec_lines;
use crate::tiles::map_text::spec_row;
use crate::tiles::map_text::split_lines;
use crate::utils::camera::is_on_screen;
use crate::utils::camera::screen_position;
use crate::utils::camera::spec_on_screen;
use crate::utils::camera::spec_screen_position;
use crate::utils::camera::ScreenPoint;
use crate::MAX_WORLD_COL;
use crate::MAX_WORLD_ROW;
use crate::TILE_SIZE;

verus! {

/// Number of tile types in the built-in tile table.
pub const TILE_TYPES: usize = 42;

/// What the simulation knows of one tile type.
#[derive(Debug, Clone, Copy, PartialEq, Eq, Structural)]
pub struct TileData {
    pub is_collidable: bool,
}

impl Default for TileData {
    fn default() -> (tile: TileData)
        ensures
            !tile.is_collidable,
    {
        TileData { is_collidable: false }
    }
}

/// One tile to draw: its type and where on screen it goes.
#[derive(Debug, Clone, Copy, PartialEq, Eq, Structural)]
pub struct TileDrawing {
    pub tile: u32,
    pub at: ScreenPoint,
}

/// The tiles to draw of the first `count` cells of the row `row`, from left
/// to right: those near enough to the player, each at its place on screen.
pub open spec fn spec_row_drawings(
    cells: Seq<u32>,
    row: int,
    player: Player,
    count: int,
) -> Seq<TileDrawing>
    decreases count,
{
    if count <= 0 {
        Seq::empty()
    } else {
        let before = spec_row_drawings(cells, row, player, count - 1);
        let col = count - 1;
        if spec_on_screen(col * TILE_SIZE, row * TILE_SIZE, player) {
            before.push(
                TileDrawing {
                    tile: cells[col],
                    at: spec_screen_position(col * TILE_SIZE, row * TILE_SIZE, player),
                },
            )
        } else {
            before
        }
    }
}

/// The tiles to draw of the first `count` rows of the grid, row by row.
pub open spec fn spec_drawings(map: Seq<Vec<u32>>, player: Player, count: int) -> Seq<TileDrawing>
    decreases count,
{
    if count <= 0 {
        Seq::empty()
    } else {
        spec_drawings(map, player, count - 1) + spec_row_drawings(
            map[count - 1]@,
            count - 1,
            player,
            map[count - 1]@.len() as int,
        )
    }
}

/// Why the text of a world grid was refused; each names the first row at
/// fault, counted from zero.
#[derive(Debug, Clone, Copy, PartialEq, Eq, Structural)]
pub enum MapError {
    /// The text has no line for this row.
    MissingRow(usize),
    /// The row holds something that is no number of 32 bits.
    BadNumber(usize),
    /// The row does not hold exactly `MAX_WORLD_COL` numbers.
    WrongWidth(usize),
    /// The row names a tile type that the tile table does not have.
    UnknownTile(usize),
}

/// What is wrong with the row `row` of the text whose lines are `lines`, if
/// anything is, for a tile table of `tile_count` types.
pub open spec fn spec_row_fault(lines: Seq<Seq<u8>>, row: int, tile_count: int) -> Option<MapError> {
    if row >= lines.len() {
        Some(MapError::MissingRow(row as usize))
    } else {
        match spec_row(lines[row]) {
            None => Some(MapError::BadNumber(row as usize)),
            Some(cells) => if cells.len() != MAX_WORLD_COL {
                Some(MapError::WrongWidth(row as usize))
            } else if exists|col: int| 0 <= col < cells.len() && #[trigger] cells[col] >= tile_count {
                Some(MapError::UnknownTile(row as usize))
            } else {
                None
            },
        }
    }
}

/// The tile table and the grid of tile types, row by row.
#[derive(Debug)]
pub struct TileManager {
    pub tiles: Vec<TileData>,
    pub map_tile_num: Vec<Vec<u32>>,
}

/// Whether the tile type `id` of the built-in table stops movement: the
/// water tiles, the wall and the tree do.
pub open spec fn spec_tile_collidable(id: int) -> bool {
    12 <= id <= 25 || id == 40 || id == 41
}

impl TileManager {
    /// The grid has `MAX_WORLD_ROW` rows of `MAX_WORLD_COL` cells and every
    /// cell names a tile type of the table.
    pub open spec fn wf(self) -> bool {
        &&& self.map_tile_num@.len() == MAX_WORLD_ROW
        &&& forall|row: int|
            0 <= row < self.map_tile_num@.len() ==> (#[trigger] self.map_tile_num@[row])@.len()
                == MAX_WORLD_COL
        &&& forall|row: int, col: int|
            0 <= row < self.map_tile_num@.len() && 0 <= col < self.map_tile_num@[row]@.len()
                ==> (#[trigger] self.map_tile_num@[row]@[col]) < self.tiles@.len()
    }

    /// Whether the grid has a cell at (`row`, `col`) whose tile type is known.
    pub open spec fn has_cell(self, row: int, col: int) -> bool {
        &&& 0 <= row < self.map_tile_num@.len()
        &&& 0 <= col < self.map_tile_num@[row]@.len()
        &&& self.map_tile_num@[row]@[col] < self.tiles@.len()
    }

    /// Whether the cell at (`row`, `col`) stops movement. A cell outside the
    /// grid, or one whose tile type is unknown, does: the world has a solid
    /// border.
    pub open spec fn cell_blocks(self, row: int, col: int) -> bool {
        !self.has_cell(row, col) || self.tiles@[self.map_tile_num@[row]@[col] as int].is_collidable
    }

    /// Whether the world point (`x`, `y`) lies on a cell that stops movement.
    pub open spec fn point_blocks(self, x: int, y: int) -> bool {
        x < 0 || y < 0 || self.cell_blocks(y / (TILE_SIZE as int), x / (TILE_SIZE as int))
    }

    /// Whether the cell at (`row`, `col`) stops movement.
    pub fn is_cell_blocked(&self, row: u64, col: u64) -> (blocked: bool)
        ensures
            blocked == self.cell_blocks(row as int, col as int),
    {
        if row >= self.map_tile_num.len() as u64 {
            return true;
        }
        let cells = &self.map_tile_num[row as usize];
        if col >= cells.len() as u64 {
            return true;
        }
        let id: u32 = cells[col as usize];
        if id as u64 >= self.tiles.len() as u64 {
            return true;
        }
        self.tiles[id as usize].is_collidable
    }

    /// Whether the world point (`x`, `y`) lies on a cell that stops movement.
    pub fn is_point_blocked(&self, x: i64, y: i64) -> (blocked: bool)
        ensures
            blocked == self.point_blocks(x as int, y as int),
    {
        if x < 0 || y < 0 {
            return true;
        }
        let col: u64 = x as u64 / 48;
        let row: u64 = y as u64 / 48;
        self.is_cell_blocked(row, col)
    }

    /// Whether `tiles` is the built-in tile table.
    pub open spec fn is_tile_table(tiles: Seq<TileData>) -> bool {
        &&& tiles.len() == TILE_TYPES
        &&& forall|id: int|
            0 <= id < tiles.len() ==> (#[trigger] tiles[id]).is_collidable == spec_tile_collidable(
                id,
            )
    }

    /// Whether every row of `map` has `MAX_WORLD_COL` cells that each name
    /// one of `tile_count` tile types.
    pub open spec fn rows_fit(map: Seq<Vec<u32>>, tile_count: int) -> bool {
        forall|row: int|
            0 <= row < map.len() ==> {
                &&& (#[trigger] map[row])@.len() == MAX_WORLD_COL
                &&& forall|col: int|
                    0 <= col < map[row]@.len() ==> (#[trigger] map[row]@[col]) < tile_count
            }
    }

    /// The built-in tile table.
    pub fn tile_table() -> (tiles: Vec<TileData>)
        ensures
            Self::is_tile_table(tiles@),
    {
        let mut tiles: Vec<TileData> = Vec::new();
        let mut id: usize = 0;
        while id < TILE_TYPES
            invariant
                id <= TILE_TYPES,
                tiles@.len() == id,
                forall|j: int|
                    0 <= j < id ==> (#[trigger] tiles@[j]).is_collidable == spec_tile_collidable(j),
            decreases TILE_TYPES - id,
        {
            let is_collidable: bool = (12 <= id && id <= 25) || id == 40 || id == 41;
            tiles.push(TileData { is_collidable });
            id = id + 1;
        }
        tiles
    }

    /// Whether the row has `MAX_WORLD_COL` cells that each name one of
    /// `tile_count` tile types.
    pub fn row_fits(cells: &Vec<u32>, tile_count: usize) -> (fits: bool)
        ensures
            fits == (cells@.len() == MAX_WORLD_COL && forall|col: int|
                0 <= col < cells@.len() ==> (#[trigger] cells@[col]) < tile_count),
    {
        if cells.len() != MAX_WORLD_COL {
            return false;
        }
        let mut col: usize = 0;
        while col < cells.len()
            invariant
                col <= cells@.len(),
                cells@.len() == MAX_WORLD_COL,
                forall|j: int| 0 <= j < col ==> (#[trigger] cells@[j]) < tile_count,
            decreases cells@.len() - col,
        {
            if cells[col] as usize >= tile_count {
                return false;
            }
            col = col + 1;
        }
        true
    }

    /// The tiles to draw when the camera follows `player`: the tiles near
    /// enough to the player, row by row, each at its place on screen.
    pub fn draw(&self, player: &Player) -> (drawings: Vec<TileDrawing>)
        requires
            self.wf(),
        ensures
            drawings@ == spec_drawings(self.map_tile_num@, *player, MAX_WORLD_ROW as int),
    {
        let mut drawings: Vec<TileDrawing> = Vec::new();
        let mut row: usize = 0;
        while row < MAX_WORLD_ROW
            invariant
                row <= MAX_WORLD_ROW,
                self.wf(),
                drawings@ == spec_drawings(self.map_tile_num@, *player, row as int),
            decreases MAX_WORLD_ROW - row,
        {
            let ghost above = drawings@;
            let cells = &self.map_tile_num[row];
            let mut col: usize = 0;
            while col < MAX_WORLD_COL
                invariant
                    col <= MAX_WORLD_COL,
                    row < MAX_WORLD_ROW,
                    cells@.len() == MAX_WORLD_COL,
                    drawings@ == above + spec_row_drawings(cells@, row as int, *player, col as int),
                decreases MAX_WORLD_COL - col,
            {
                let world_x: i32 = (col * 48) as i32;
                let world_y: i32 = (row * 48) as i32;
                if is_on_screen(world_x, world_y, player) {
                    drawings.push(
                        TileDrawing {
                            tile: cells[col],
                            at: screen_position(world_x, world_y, player),
                        },
                    );
                }
                proof {
                    assert(drawings@ =~= above + spec_row_drawings(
                        cells@,
                        row as int,
                        *player,
                        col + 1,
                    ));
                }
                col = col + 1;
            }
            row = row + 1;
        }
        drawings
    }

    /// Whether the grid is whole: `MAX_WORLD_ROW` rows of `MAX_WORLD_COL`
    /// cells that each name a tile type of the table.
    pub fn is_wf(&self) -> (whole: bool)
        ensures
            whole == self.wf(),
    {
        if self.map_tile_num.len() != MAX_WORLD_ROW {
            return false;
        }
        let mut row: usize = 0;
        while row < self.map_tile_num.len()
            invariant
                row <= self.map_tile_num@.len(),
                self.map_tile_num@.len() == MAX_WORLD_ROW,
                forall|j: int|
                    0 <= j < row ==> {
                        &&& (#[trigger] self.map_tile_num@[j])@.len() == MAX_WORLD_COL
                        &&& forall|col: int|
                            0 <= col < self.map_tile_num@[j]@.len() ==> (
                            #[trigger] self.map_tile_num@[j]@[col]) < self.tiles@.len()
                    },
            decreases self.map_tile_num@.len() - row,
        {
            if !Self::row_fits(&self.map_tile_num[row], self.tiles.len()) {
                proof {
                    if self.wf() {
                        let cells = self.map_tile_num@[row as int];
                        assert(cells@.len() == MAX_WORLD_COL);
                        assert forall|col: int| 0 <= col < cells@.len() implies (
                        #[trigger] cells@[col]) < self.tiles@.len() by {
                            assert(self.map_tile_num@[row as int]@[col] < self.tiles@.len());
                        }
                    }
                }
                return false;
            }
            row = row + 1;
        }
        true
    }

    /// The world with the built-in tile table and the grid `map`, if the
    /// grid has `MAX_WORLD_ROW` rows of `MAX_WORLD_COL` cells that each name
    /// a tile type of the table.
    pub fn from_grid(map: Vec<Vec<u32>>) -> (made: Option<TileManager>)
        ensures
            made is Some <==> map@.len() == MAX_WORLD_ROW && Self::rows_fit(
                map@,
                TILE_TYPES as int,
            ),
            made matches Some(world) ==> {
                &&& world.map_tile_num == map
                &&& Self::is_tile_table(world.tiles@)
                &&& world.wf()
            },
    {
        if map.len() != MAX_WORLD_ROW {
            return None;
        }
        let mut row: usize = 0;
        while row < map.len()
            invariant
                row <= map@.len(),
                map@.len() == MAX_WORLD_ROW,
                Self::rows_fit(map@.take(row as int), TILE_TYPES as int),
            decreases map@.len() - row,
        {
            if !Self::row_fits(&map[row], TILE_TYPES) {
                proof {
                    if Self::rows_fit(map@, TILE_TYPES as int) {
                        assert(map@[row as int]@.len() == MAX_WORLD_COL);
                    }
                }
                return None;
            }
            proof {
                assert forall|j: int| 0 <= j < row + 1 implies {
                    &&& (#[trigger] map@.take(row + 1)[j])@.len() == MAX_WORLD_COL
                    &&& forall|col: int|
                        0 <= col < map@.take(row + 1)[j]@.len() ==> (#[trigger] map@.take(
                            row + 1,
                        )[j]@[col]) < TILE_TYPES
                } by {
                    if j < row {
                        assert(map@.take(row as int)[j] == map@.take(row + 1)[j]);
                    }
                }
            }
            row = row + 1;
        }
        proof {
            assert(map@.take(row as int) =~= map@);
        }
        let tiles = Self::tile_table();
        Some(TileManager { tiles, map_tile_num: map })
    }

    /// Reads the grid from `text`: its first `MAX_WORLD_ROW` lines are the
    /// rows, each with `MAX_WORLD_COL` tile types of the table, written in
    /// decimal and separated by blanks; what follows these lines is not
    /// read. The first row at fault refuses the text, and the grid then
    /// stays as it was.
    pub fn load_map(&mut self, text: &[u8]) -> (loaded: Result<(), MapError>)
        ensures
            final(self).tiles == old(self).tiles,
            match loaded {
                Ok(_) => {
                    &&& final(self).map_tile_num@.len() == MAX_WORLD_ROW
                    &&& forall|row: int|
                        0 <= row < MAX_WORLD_ROW ==> #[trigger] spec_row_fault(
                            spec_lines(text@),
                            row,
                            old(self).tiles@.len() as int,
                        ) is None
                    &&& forall|row: int|
                        0 <= row < MAX_WORLD_ROW ==> Some(
                            (#[trigger] final(self).map_tile_num@[row])@,
                        ) == spec_row(spec_lines(text@)[row])
                    &&& final(self).wf()
                },
                Err(fault) => {
                    &&& *final(self) == *old(self)
                    &&& exists|row: int|
                        0 <= row < MAX_WORLD_ROW && #[trigger] spec_row_fault(
                            spec_lines(text@),
                            row,
                            old(self).tiles@.len() as int,
                        ) == Some(fault) && forall|earlier: int|
                            0 <= earlier < row ==> #[trigger] spec_row_fault(
                                spec_lines(text@),
                                earlier,
                                old(self).tiles@.len() as int,
                            ) is None
                },
            },
    {
        let lines: Vec<Vec<u8>> = split_lines(text);
        let tile_count: usize = self.tiles.len();
        let mut map: Vec<Vec<u32>> = Vec::new();
        let mut row: usize = 0;
        while row < MAX_WORLD_ROW
            invariant
                row <= MAX_WORLD_ROW,
                map@.len() == row,
                holds_lines(lines@, text@),
                tile_count == self.tiles@.len(),
                *self == *old(self),
                forall|j: int|
                    0 <= j < row ==> #[trigger] spec_row_fault(
                        spec_lines(text@),
                        j,
                        tile_count as int,
                    ) is None,
                forall|j: int|
                    0 <= j < row ==> {
                        &&& Some((#[trigger] map@[j])@) == spec_row(spec_lines(text@)[j])
                        &&& map@[j]@.len() == MAX_WORLD_COL
                        &&& forall|col: int|
                            0 <= col < map@[j]@.len() ==> (#[trigger] map@[j]@[col]) < tile_count
                    },
            decreases MAX_WORLD_ROW - row,
        {
            let ghost fault = spec_row_fault(spec_lines(text@), row as int, tile_count as int);
            if row >= lines.len() {
                assert(fault == Some(MapError::MissingRow(row)));
                return Err(MapError::MissingRow(row));
            }
            assert(lines@[row as int]@ == spec_lines(text@)[row as int]);
            let cells: Vec<u32> = match parse_row(&lines[row]) {
                Some(numbers) => numbers,
                None => {
                    assert(fault == Some(MapError::BadNumber(row)));
                    return Err(MapError::BadNumber(row));
                },
            };
            if cells.len() != MAX_WORLD_COL {
                assert(fault == Some(MapError::WrongWidth(row)));
                return Err(MapError::WrongWidth(row));
            }
            if !Self::row_fits(&cells, tile_count) {
                assert(fault == Some(MapError::UnknownTile(row)));
                return Err(MapError::UnknownTile(row));
            }
            assert(fault is None);
            let ghost earlier = map@;
            map.push(cells);
            proof {
                assert forall|j: int| 0 <= j < row + 1 implies {
                    &&& Some((#[trigger] map@[j])@) == spec_row(spec_lines(text@)[j])
                    &&& map@[j]@.len() == MAX_WORLD_COL
                    &&& forall|col: int|
                        0 <= col < map@[j]@.len() ==> (#[trigger] map@[j]@[col]) < tile_count
                } by {
                    if j < row {
                        assert(map@[j] == earlier[j]);
                    }
                }
            }
            row = row + 1;
        }
        self.map_tile_num = map;
        Ok(())
    }

    /// The world with the built-in tile table and the grid read from
    /// `text`, or the fault of the first row that is at fault.
    pub fn new(text: &[u8]) -> (made: Result<TileManager, MapError>)
        ensures
            match made {
                Ok(world) => {
                    &&& Self::is_tile_table(world.tiles@)
                    &&& world.wf()
                    &&& forall|row: int|
                        0 <= row < MAX_WORLD_ROW ==> #[trigger] spec_row_fault(
                            spec_lines(text@),
                            row,
                            TILE_TYPES as int,
                        ) is None
                    &&& forall|row: int|
                        0 <= row < MAX_WORLD_ROW ==> Some((#[trigger] world.map_tile_num@[row])@)
                            == spec_row(spec_lines(text@)[row])
                },
                Err(fault) => exists|row: int|
                    0 <= row < MAX_WORLD_ROW && #[trigger] spec_row_fault(
                        spec_lines(text@),
                        row,
                        TILE_TYPES as int,
                    ) == Some(fault) && forall|earlier: int|
                        0 <= earlier < row ==> #[trigger] spec_row_fault(
                            spec_lines(text@),
                            earlier,
                            TILE_TYPES as int,
                        ) is None,
            },
    {
        let mut world = TileManager { tiles: Self::tile_table(), map_tile_num: Vec::new() };
        let ghost table = world.tiles;
        let loaded = world.load_map(text);
        proof {
            assert(table@.len() == TILE_TYPES);
            assert(world.tiles == table);
            match loaded {
                Ok(_) => {},
                Err(fault) => {
                    let row = choose|row: int|
                        0 <= row < MAX_WORLD_ROW && #[trigger] spec_row_fault(
                            spec_lines(text@),
                            row,
                            TILE_TYPES as int,
                        ) == Some(fault) && forall|earlier: int|
                            0 <= earlier < row ==> #[trigger] spec_row_fault(
                                spec_lines(text@),
                                earlier,
                                TILE_TYPES as int,
                            ) is None;
                    assert(spec_row_fault(spec_lines(text@), row, TILE_TYPES as int) == Some(
                        fault,
                    ));
                },
            }
        }
        match loaded {
            Ok(_) => Ok(world),
            Err(fault) => Err(fault),
        }
    }
}

} // verus!
