//! What is drawn: one tile for each cell, and the look of the three tiles.

use vstd::prelude::*;
use crate::game::GameState;
use crate::grid::{col_of, pixel_cell, row_of, ALIVE, CELLS, HOVER, SQ_SIZE, WIDTH};

verus! {

/// The three tiles.
#[derive(Clone, Copy, Debug, PartialEq, Eq, Structural)]
pub enum Sprite {
    /// An empty cell: only the grid lines show.
    Grid,
    /// A live cell.
    Cell,
    /// The empty cell under the pointer.
    Hover,
}

/// A tile and the canvas pixel of its upper left corner. Every tile is a
/// square of side `SQ_SIZE`.
#[derive(Clone, Copy, Debug, PartialEq, Eq, Structural)]
pub struct Tile {
    pub x: i32,
    pub y: i32,
    pub sprite: Sprite,
}

/// A colour by its red, green and blue parts.
#[derive(Clone, Copy, Debug, PartialEq, Eq, Structural)]
pub struct Rgb {
    pub r: u8,
    pub g: u8,
    pub b: u8,
}

/// The two parts of a tile.
#[derive(Clone, Copy, Debug, PartialEq, Eq, Structural)]
pub enum Shade {
    /// The frame, one pixel wide.
    Border,
    /// Everything inside the frame.
    Fill,
}

/// The tile that shows a cell with code `code`.
pub open spec fn sprite_of(code: u32) -> Sprite {
    if code == ALIVE {
        Sprite::Cell
    } else if code == HOVER {
        Sprite::Hover
    } else {
        Sprite::Grid
    }
}

/// The tile of cell `i` of the grid `s`.
pub open spec fn tile_of(s: Seq<u32>, i: int) -> Tile {
    Tile {
        x: (col_of(i) * SQ_SIZE) as i32,
        y: (row_of(i) * SQ_SIZE) as i32,
        sprite: sprite_of(s[i]),
    }
}

/// The colour inside the frame of a tile: white for an empty cell, black
/// for a live one, grey under the pointer.
pub open spec fn fill_of(sprite: Sprite) -> Rgb {
    match sprite {
        Sprite::Grid => Rgb { r: 255, g: 255, b: 255 },
        Sprite::Cell => Rgb { r: 0, g: 0, b: 0 },
        Sprite::Hover => Rgb { r: 128, g: 128, b: 128 },
    }
}

/// The colour of the frame of every tile.
pub open spec fn border_rgb() -> Rgb {
    Rgb { r: 128, g: 128, b: 128 }
}

/// The part of a tile of side `size` that pixel (`x`, `y`) of the tile
/// belongs to, if the pixel lies on the tile.
pub open spec fn shade_of(size: int, x: int, y: int) -> Option<Shade> {
    if !(0 <= x < size && 0 <= y < size) {
        None
    } else if x == 0 || y == 0 || x == size - 1 || y == size - 1 {
        Some(Shade::Border)
    } else {
        Some(Shade::Fill)
    }
}

/// The colour inside the frame of the tile `sprite`.
pub fn fill(sprite: Sprite) -> (c: Rgb)
    ensures
        c == fill_of(sprite),
{
    match sprite {
        Sprite::Grid => Rgb { r: 255, g: 255, b: 255 },
        Sprite::Cell => Rgb { r: 0, g: 0, b: 0 },
        Sprite::Hover => Rgb { r: 128, g: 128, b: 128 },
    }
}

/// The colour of the frame of every tile.
pub fn border() -> (c: Rgb)
    ensures
        c == border_rgb(),
{
    Rgb { r: 128, g: 128, b: 128 }
}

/// The part of a tile of side `size` that pixel (`x`, `y`) of the tile
/// belongs to, if the pixel lies on the tile.
pub fn shade_at(size: u32, x: u32, y: u32) -> (shade: Option<Shade>)
    ensures
        shade == shade_of(size as int, x as int, y as int),
{
    if x >= size || y >= size {
        None
    } else if x == 0 || y == 0 || x == size - 1 || y == size - 1 {
        Some(Shade::Border)
    } else {
        Some(Shade::Fill)
    }
}

impl GameState {
    /// The tiles of all cells, in the order of the cells.
    pub fn tiles(&self) -> (tiles: Vec<Tile>)
        ensures
            tiles@.len() == CELLS,
            forall|i: int| 0 <= i < CELLS ==> #[trigger] tiles@[i] == tile_of(self@.cells, i),
    {
        let cells: &[u32; CELLS] = self.screen();
        let mut tiles: Vec<Tile> = Vec::with_capacity(CELLS);
        let mut i: usize = 0;
        while i < CELLS
            invariant
                i <= CELLS,
                cells@ == self@.cells,
                tiles@.len() == i,
                forall|j: int| 0 <= j < i ==> #[trigger] tiles@[j] == tile_of(cells@, j),
            decreases CELLS - i,
        {
            let code: u32 = cells[i];
            let sprite: Sprite = if code == ALIVE {
                Sprite::Cell
            } else if code == HOVER {
                Sprite::Hover
            } else {
                Sprite::Grid
            };
            let at: u32 = i as u32;
            tiles.push(
                Tile { x: (at % WIDTH * SQ_SIZE) as i32, y: (at / WIDTH * SQ_SIZE) as i32, sprite },
            );
            i += 1;
        }
        tiles
    }
}

/// The corner of the tile of a cell is a pixel of that cell: a stroke there
/// lands on the cell that the tile shows.
pub proof fn lemma_tile_on_cell(s: Seq<u32>, i: int)
    requires
        0 <= i < CELLS,
    ensures
        pixel_cell(tile_of(s, i).x as int, tile_of(s, i).y as int) == Some(i),
{
}

} // verus!
