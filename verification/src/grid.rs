//! The grid as a mathematical object: a sequence of cell codes, row by row,
//! and the functions on it in whose terms the contracts of the crate are
//! written.

use vstd::prelude::*;

verus! {

/// Number of rows.
pub const HEIGHT: u32 = 50;

/// Number of columns.
pub const WIDTH: u32 = 50;

/// Side of one cell on the canvas, in pixels.
pub const SQ_SIZE: u32 = 16;

/// Number of cells, `WIDTH * HEIGHT`.
pub const CELLS: usize = 2500;

/// Code of an empty cell.
pub const DEAD: u32 = 0;

/// Code of a live cell.
pub const ALIVE: u32 = 1;

/// Code of the empty cell under the pointer.
pub const HOVER: u32 = 2;

/// Every cell holds one of the three codes.
pub open spec fn codes_ok(s: Seq<u32>) -> bool {
    forall|i: int| 0 <= i < s.len() ==> #[trigger] s[i] <= HOVER
}

/// No two cells carry the hover mark.
pub open spec fn single_hover(s: Seq<u32>) -> bool {
    forall|i: int, j: int|
        0 <= i < s.len() && 0 <= j < s.len() && #[trigger] s[i] == HOVER && #[trigger] s[j]
            == HOVER ==> i == j
}

/// What a grid always satisfies: it has `CELLS` cells, each holds a code, and
/// at most one of them is hover-marked.
pub open spec fn valid_cells(s: Seq<u32>) -> bool {
    &&& s.len() == CELLS
    &&& codes_ok(s)
    &&& single_hover(s)
}

/// The grid in which every cell is dead.
pub open spec fn blank() -> Seq<u32> {
    Seq::new(CELLS as nat, |i: int| DEAD)
}

/// Index of the cell in column `col` of row `row`.
pub open spec fn index_of(col: int, row: int) -> int {
    row * WIDTH + col
}

/// Column of cell `i`.
pub open spec fn col_of(i: int) -> int {
    i % (WIDTH as int)
}

/// Row of cell `i`.
pub open spec fn row_of(i: int) -> int {
    i / (WIDTH as int)
}

/// Whether (`col`, `row`) lies on the grid.
pub open spec fn on_grid(col: int, row: int) -> bool {
    0 <= col < WIDTH && 0 <= row < HEIGHT
}

/// The code at (`col`, `row`), and 0 beyond the edge: the grid does not wrap.
pub open spec fn code_at(s: Seq<u32>, col: int, row: int) -> int {
    if on_grid(col, row) {
        s[index_of(col, row)] as int
    } else {
        0
    }
}

/// Sum of the codes of the up to eight cells around cell `i`.
pub open spec fn neighbor_sum(s: Seq<u32>, i: int) -> int {
    let c = col_of(i);
    let r = row_of(i);
    code_at(s, c - 1, r - 1) + code_at(s, c, r - 1) + code_at(s, c + 1, r - 1)
        + code_at(s, c - 1, r) + code_at(s, c + 1, r)
        + code_at(s, c - 1, r + 1) + code_at(s, c, r + 1) + code_at(s, c + 1, r + 1)
}

/// 1 if (`col`, `row`) lies on the grid and the cell there is alive, else 0.
pub open spec fn alive_at(s: Seq<u32>, col: int, row: int) -> int {
    if on_grid(col, row) && s[index_of(col, row)] == ALIVE {
        1
    } else {
        0
    }
}

/// Number of live cells among the up to eight cells around cell `i`.
pub open spec fn live_neighbors(s: Seq<u32>, i: int) -> int {
    let c = col_of(i);
    let r = row_of(i);
    alive_at(s, c - 1, r - 1) + alive_at(s, c, r - 1) + alive_at(s, c + 1, r - 1)
        + alive_at(s, c - 1, r) + alive_at(s, c + 1, r)
        + alive_at(s, c - 1, r + 1) + alive_at(s, c, r + 1) + alive_at(s, c + 1, r + 1)
}

/// Whether (`col`, `row`) lies on the grid and the cell there is hover-marked.
pub open spec fn marked_at(s: Seq<u32>, col: int, row: int) -> bool {
    on_grid(col, row) && s[index_of(col, row)] == HOVER
}

/// Whether one of the up to eight cells around cell `i` is hover-marked.
pub open spec fn hover_near(s: Seq<u32>, i: int) -> bool {
    let c = col_of(i);
    let r = row_of(i);
    marked_at(s, c - 1, r - 1) || marked_at(s, c, r - 1) || marked_at(s, c + 1, r - 1)
        || marked_at(s, c - 1, r) || marked_at(s, c + 1, r)
        || marked_at(s, c - 1, r + 1) || marked_at(s, c, r + 1) || marked_at(s, c + 1, r + 1)
}

/// The rule of the automaton for one cell: three around it make it alive,
/// two leave it as it is, any other count leaves it dead.
pub open spec fn next_cell(cur: u32, count: int) -> u32 {
    if count == 3 {
        ALIVE
    } else if count == 2 {
        cur
    } else {
        DEAD
    }
}

/// The next generation: the rule applied to every cell of `s` at once.
pub open spec fn step(s: Seq<u32>) -> Seq<u32> {
    Seq::new(s.len(), |i: int| next_cell(s[i], neighbor_sum(s, i)))
}

/// The cell under canvas pixel (`x`, `y`), if the pixel is on the canvas.
pub open spec fn pixel_cell(x: int, y: int) -> Option<int> {
    if 0 <= x < WIDTH * SQ_SIZE && 0 <= y < HEIGHT * SQ_SIZE {
        Some(index_of(x / (SQ_SIZE as int), y / (SQ_SIZE as int)))
    } else {
        None
    }
}

/// The grid after a stroke at pixel (`x`, `y`): the cell under it becomes
/// dead when erasing and alive otherwise; off the canvas nothing changes.
pub open spec fn painted(s: Seq<u32>, x: int, y: int, erase: bool) -> Seq<u32> {
    match pixel_cell(x, y) {
        Some(k) => s.update(
            k,
            if erase {
                DEAD
            } else {
                ALIVE
            },
        ),
        None => s,
    }
}

/// The grid with the hover mark, if any, taken off.
pub open spec fn unmarked(s: Seq<u32>) -> Seq<u32> {
    Seq::new(
        s.len(),
        |i: int|
            if s[i] == HOVER {
                DEAD
            } else {
                s[i]
            },
    )
}

/// The grid after the pointer rests on pixel (`x`, `y`): the old mark is
/// gone, and the cell under the pointer is marked if it is then dead; off
/// the canvas nothing changes.
pub open spec fn hovered(s: Seq<u32>, x: int, y: int) -> Seq<u32> {
    match pixel_cell(x, y) {
        Some(k) => if unmarked(s)[k] == DEAD {
            unmarked(s).update(k, HOVER)
        } else {
            unmarked(s)
        },
        None => s,
    }
}

} // verus!
