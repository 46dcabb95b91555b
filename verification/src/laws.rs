//! What holds of the grid functions on every valid grid.

use vstd::prelude::*;
use crate::codec::{dump, lemma_words_of_dump, parse, LoadError, DUMP_BYTES};
use crate::grid::{
    blank, hover_near, hovered, live_neighbors, neighbor_sum, painted, pixel_cell, step, unmarked,
    valid_cells, ALIVE, CELLS, DEAD, HEIGHT, HOVER, WIDTH,
};

verus! {

/// The constants agree: the grid has a cell for each column of each row, and
/// a dump has four bytes for each cell.
pub proof fn lemma_sizes()
    ensures
        CELLS == WIDTH * HEIGHT,
        DUMP_BYTES == 4 * CELLS,
{
}

/// The empty grid is a valid grid.
pub proof fn lemma_blank_valid()
    ensures
        valid_cells(blank()),
{
}

/// A generation of a valid grid is a valid grid.
pub proof fn lemma_step_valid(s: Seq<u32>)
    requires
        valid_cells(s),
    ensures
        valid_cells(step(s)),
{
    let t = step(s);
    assert forall|i: int, j: int|
        0 <= i < t.len() && 0 <= j < t.len() && #[trigger] t[i] == HOVER && #[trigger] t[j]
            == HOVER implies i == j by {
        assert(s[i] == HOVER);
        assert(s[j] == HOVER);
    }
}

/// A stroke on a valid grid gives a valid grid.
pub proof fn lemma_painted_valid(s: Seq<u32>, x: int, y: int, erase: bool)
    requires
        valid_cells(s),
    ensures
        valid_cells(painted(s, x, y, erase)),
{
}

/// Moving the hover mark on a valid grid gives a valid grid: at no time is
/// more than one cell marked.
pub proof fn lemma_hovered_valid(s: Seq<u32>, x: int, y: int)
    requires
        valid_cells(s),
    ensures
        valid_cells(hovered(s, x, y)),
{
}

/// The sum of the codes around a cell is the number of live cells around
/// it, and two more if the hover mark is among them.
pub proof fn lemma_sum_counts_live(s: Seq<u32>, i: int)
    requires
        valid_cells(s),
        0 <= i < CELLS,
    ensures
        neighbor_sum(s, i) == live_neighbors(s, i) + if hover_near(s, i) {
            2int
        } else {
            0int
        },
{
}

/// A live cell with two or three live cells around it is alive in the next
/// generation, and one with fewer than two or more than three is dead.
///
/// Left out are the grids on which the sum of the codes misleads: the hover
/// mark is next to the cell and at most three live cells are.
pub proof fn lemma_live_cell_fate(s: Seq<u32>, i: int)
    requires
        valid_cells(s),
        0 <= i < CELLS,
        s[i] == ALIVE,
        !hover_near(s, i) || live_neighbors(s, i) > 3,
    ensures
        live_neighbors(s, i) == 2 || live_neighbors(s, i) == 3 ==> step(s)[i] == ALIVE,
        live_neighbors(s, i) < 2 || live_neighbors(s, i) > 3 ==> step(s)[i] == DEAD,
{
    lemma_sum_counts_live(s, i);
}

/// A dead cell with exactly three live cells around it, and no hover mark
/// next to it, is alive in the next generation.
pub proof fn lemma_birth(s: Seq<u32>, i: int)
    requires
        valid_cells(s),
        0 <= i < CELLS,
        s[i] == DEAD,
        live_neighbors(s, i) == 3,
        !hover_near(s, i),
    ensures
        step(s)[i] == ALIVE,
{
    lemma_sum_counts_live(s, i);
}

/// A grid is read back from its own dump.
pub proof fn lemma_dump_round_trip(s: Seq<u32>)
    requires
        valid_cells(s),
    ensures
        parse(dump(s)) == Ok::<Seq<u32>, LoadError>(s),
{
    lemma_words_of_dump(s);
}

/// Of two moves of the pointer the later one decides. If it goes onto the
/// canvas, the grid is as if it alone had been made: the cell under the
/// pointer is the one marked cell, or no cell is marked if that cell is
/// alive. If it goes off the canvas, the grid stays as the first move left it.
pub proof fn lemma_hover_latest(s: Seq<u32>, x1: int, y1: int, x2: int, y2: int)
    requires
        valid_cells(s),
    ensures
        pixel_cell(x2, y2) is Some ==> hovered(hovered(s, x1, y1), x2, y2) == hovered(s, x2, y2),
        pixel_cell(x2, y2) is Some ==> forall|j: int|
            0 <= j < CELLS ==> (#[trigger] hovered(hovered(s, x1, y1), x2, y2)[j] == HOVER <==> j
                == pixel_cell(x2, y2)->0 && s[j] != ALIVE),
        pixel_cell(x2, y2) is None ==> hovered(hovered(s, x1, y1), x2, y2) == hovered(s, x1, y1),
{
    let once = hovered(s, x1, y1);
    assert(unmarked(once) =~= unmarked(s));
    if pixel_cell(x2, y2) is Some {
        assert(hovered(once, x2, y2) =~= hovered(s, x2, y2));
    }
}

/// Painting a live cell changes nothing.
pub proof fn lemma_paint_alive(s: Seq<u32>, x: int, y: int)
    requires
        valid_cells(s),
        pixel_cell(x, y) is Some,
        s[pixel_cell(x, y)->0] == ALIVE,
    ensures
        painted(s, x, y, false) == s,
{
    assert(painted(s, x, y, false) =~= s);
}

/// A stroke made twice is the stroke made once.
pub proof fn lemma_paint_twice(s: Seq<u32>, x: int, y: int, erase: bool)
    requires
        valid_cells(s),
    ensures
        painted(painted(s, x, y, erase), x, y, erase) == painted(s, x, y, erase),
{
    assert(painted(painted(s, x, y, erase), x, y, erase) =~= painted(s, x, y, erase));
}

} // verus!
