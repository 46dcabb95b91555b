//! The game: a grid of cells and the mode it is in.

use vstd::prelude::*;
use crate::codec::{dump, from_be_bytes, parse, to_be_bytes, words, LoadError, DUMP_BYTES};
use crate::grid::{
    blank, hovered, neighbor_sum, painted, step, unmarked, valid_cells, ALIVE, CELLS, DEAD,
    HEIGHT, HOVER, SQ_SIZE, WIDTH,
};
use crate::laws::lemma_step_valid;

verus! {

/// Least time from one generation of a playing game to the next, in
/// milliseconds.
pub const FRAME_MILLIS: u64 = 300;

/// Whether the automaton is running.
#[derive(Clone, Copy, Debug, PartialEq, Eq, Structural)]
pub enum State {
    /// The grid can be edited and does not advance.
    Paused,
    /// The grid advances by one generation at every update.
    Playing,
}

/// What a game is to its contracts: the cell codes, row by row, and the mode.
#[verifier::ext_equal]
pub struct Board {
    pub cells: Seq<u32>,
    pub mode: State,
}

/// The other mode.
pub open spec fn flipped(mode: State) -> State {
    match mode {
        State::Paused => State::Playing,
        State::Playing => State::Paused,
    }
}

/// A grid of `WIDTH` by `HEIGHT` cells together with its mode.
pub struct GameState {
    screen: [u32; CELLS],
    state: State,
}

impl View for GameState {
    type V = Board;

    closed spec fn view(&self) -> Board {
        Board { cells: self.screen@, mode: self.state }
    }
}

impl GameState {
    #[verifier::type_invariant]
    spec fn well_formed(self) -> bool {
        valid_cells(self.screen@)
    }

    /// A paused game on an empty grid.
    pub fn init() -> (game: Self)
        ensures
            game@.cells == blank(),
            game@.mode == State::Paused,
    {
        Self { screen: [0; CELLS], state: State::Paused }
    }

    /// The mode of the game.
    pub fn state(&self) -> (mode: State)
        ensures
            mode == self@.mode,
    {
        self.state
    }

    /// The cell codes, row by row.
    pub fn screen(&self) -> (cells: &[u32; CELLS])
        ensures
            cells@ == self@.cells,
            valid_cells(cells@),
    {
        proof {
            use_type_invariant(self);
        }
        &self.screen
    }

    /// Switches between paused and playing; the grid stays as it is.
    pub fn toggle(&mut self)
        ensures
            final(self)@.cells == old(self)@.cells,
            final(self)@.mode == flipped(old(self)@.mode),
    {
        proof {
            use_type_invariant(&*self);
        }
        match self.state {
            State::Paused => {
                self.state = State::Playing;
            },
            State::Playing => {
                self.state = State::Paused;
            },
        }
    }

    /// Makes every cell dead.
    pub fn clear(&mut self)
        ensures
            final(self)@.cells == blank(),
            final(self)@.mode == old(self)@.mode,
    {
        let mut i: usize = 0;
        while i < CELLS
            invariant
                i <= CELLS,
                self.state == old(self).state,
                forall|j: int| 0 <= j < i ==> self.screen@[j] == DEAD,
            decreases CELLS - i,
        {
            proof {
                use_type_invariant(&*self);
            }
            self.screen[i] = DEAD;
            i += 1;
        }
    }

    /// Paints or erases the cell under canvas pixel (`x`, `y`). A stroke off
    /// the canvas changes nothing.
    pub fn draw_point(&mut self, x: i32, y: i32, erase: bool)
        ensures
            final(self)@.cells == painted(old(self)@.cells, x as int, y as int, erase),
            final(self)@.mode == old(self)@.mode,
    {
        if x < 0 || y < 0 {
            return ;
        }
        let col: u32 = x as u32 / SQ_SIZE;
        let row: u32 = y as u32 / SQ_SIZE;
        if col < WIDTH && row < HEIGHT {
            proof {
                use_type_invariant(&*self);
            }
            let k: usize = (col + row * WIDTH) as usize;
            if !erase {
                if self.screen[k] == DEAD || self.screen[k] == HOVER {
                    self.screen[k] = ALIVE;
                }
            } else {
                self.screen[k] = DEAD;
            }
        }
    }

    /// Moves the hover mark to the cell under canvas pixel (`x`, `y`): the
    /// old mark is taken off, and the cell under the pointer is marked if it
    /// is dead. A pointer off the canvas changes nothing.
    pub fn hover(&mut self, x: i32, y: i32)
        ensures
            final(self)@.cells == hovered(old(self)@.cells, x as int, y as int),
            final(self)@.mode == old(self)@.mode,
    {
        if x < 0 || y < 0 {
            return ;
        }
        let col: u32 = x as u32 / SQ_SIZE;
        let row: u32 = y as u32 / SQ_SIZE;
        if col < WIDTH && row < HEIGHT {
            let k: usize = (col + row * WIDTH) as usize;
            let mut i: usize = 0;
            while i < CELLS
                invariant
                    i <= CELLS,
                    self.state == old(self).state,
                    forall|j: int| 0 <= j < i ==> self.screen@[j] == unmarked(old(self).screen@)[j],
                    forall|j: int| i <= j < CELLS ==> self.screen@[j] == old(self).screen@[j],
                decreases CELLS - i,
            {
                proof {
                    use_type_invariant(&*self);
                }
                if self.screen[i] == HOVER {
                    self.screen[i] = DEAD;
                }
                i += 1;
            }
            proof {
                use_type_invariant(&*self);
            }
            if self.screen[k] == DEAD {
                self.screen[k] = HOVER;
            }
        }
    }

    /// Advances a playing game by one generation; a paused game stays as it is.
    pub fn update(&mut self)
        ensures
            final(self)@.mode == old(self)@.mode,
            old(self)@.mode == State::Playing ==> final(self)@.cells == step(old(self)@.cells),
            old(self)@.mode == State::Paused ==> final(self)@.cells == old(self)@.cells,
    {
        if let State::Paused = self.state {
            return ;
        }
        let mut screen: [u32; CELLS] = [0; CELLS];
        let mut i: usize = 0;
        while i < CELLS
            invariant
                i <= CELLS,
                *self == *old(self),
                forall|j: int| 0 <= j < i ==> screen@[j] == step(self.screen@)[j],
            decreases CELLS - i,
        {
            let count: u32 = self.count_neighbors(i as u32);
            let val: u32 = self.screen[i];
            if count < 2 {
                screen[i] = DEAD;
            }
            if count == 3 {
                screen[i] = ALIVE;
            }
            if count == 2 {
                screen[i] = val;
            }
            if count > 3 {
                screen[i] = DEAD;
            }
            i += 1;
        }
        proof {
            use_type_invariant(&*self);
            lemma_step_valid(self.screen@);
            assert(screen@ =~= step(self.screen@));
        }
        self.screen = screen;
    }

    /// The dump of the grid: each cell code as four bytes, most significant
    /// first, cell after cell.
    pub fn save(&self) -> (bytes: Vec<u8>)
        ensures
            bytes@ == dump(self@.cells),
    {
        let mut bytes: Vec<u8> = Vec::with_capacity(DUMP_BYTES);
        let mut i: usize = 0;
        while i < CELLS
            invariant
                i <= CELLS,
                bytes@.len() == 4 * i,
                forall|k: int| 0 <= k < 4 * i ==> bytes@[k] == dump(self.screen@)[k],
            decreases CELLS - i,
        {
            let word: [u8; 4] = to_be_bytes(self.screen[i]);
            bytes.push(word[0]);
            bytes.push(word[1]);
            bytes.push(word[2]);
            bytes.push(word[3]);
            i += 1;
        }
        assert(bytes@ =~= dump(self.screen@));
        bytes
    }

    /// Replaces the grid by the one dumped in `data`. Where `data` is too
    /// short, or its first `CELLS` words are not the cells of a grid, the
    /// error says so and the game is left as it was.
    pub fn load(&mut self, data: &[u8]) -> (res: Result<(), LoadError>)
        ensures
            final(self)@.mode == old(self)@.mode,
            match parse(data@) {
                Ok(cells) => res is Ok && final(self)@.cells == cells,
                Err(e) => res == Err::<(), LoadError>(e) && final(self)@.cells == old(self)@.cells,
            },
    {
        if data.len() < DUMP_BYTES {
            return Err(LoadError::Truncated);
        }
        let mut screen: [u32; CELLS] = [0; CELLS];
        let mut marks: usize = 0;
        let ghost mut first: int = 0;
        let ghost mut second: int = 0;
        let mut i: usize = 0;
        while i < CELLS
            invariant
                i <= CELLS,
                data@.len() >= DUMP_BYTES,
                forall|j: int| 0 <= j < i ==> screen@[j] == words(data@)[j],
                forall|j: int| 0 <= j < i ==> screen@[j] <= HOVER,
                marks <= 2,
                marks == 0 ==> forall|j: int| 0 <= j < i ==> screen@[j] != HOVER,
                marks >= 1 ==> 0 <= first < i && screen@[first] == HOVER,
                marks == 1 ==> forall|j: int| 0 <= j < i && screen@[j] == HOVER ==> j == first,
                marks == 2 ==> 0 <= second < i && second != first && screen@[second] == HOVER,
            decreases CELLS - i,
        {
            let word: u32 = from_be_bytes(
                [data[4 * i], data[4 * i + 1], data[4 * i + 2], data[4 * i + 3]],
            );
            if word > HOVER {
                proof {
                    assert(words(data@)[i as int] == word);
                }
                return Err(LoadError::BadCell);
            }
            if word == HOVER && marks < 2 {
                proof {
                    if marks == 0 {
                        first = i as int;
                    } else {
                        second = i as int;
                    }
                }
                marks += 1;
            }
            screen[i] = word;
            i += 1;
        }
        proof {
            assert(screen@ =~= words(data@));
        }
        if marks == 2 {
            proof {
                assert(screen@[first] == HOVER && screen@[second] == HOVER);
            }
            return Err(LoadError::ManyHovers);
        }
        self.screen = screen;
        Ok(())
    }

    /// Sum of the codes of the up to eight cells around cell `i`; cells
    /// beyond the edge of the grid count as 0.
    pub fn count_neighbors(&self, i: u32) -> (count: u32)
        requires
            i < CELLS,
        ensures
            count == neighbor_sum(self@.cells, i as int),
    {
        proof {
            use_type_invariant(self);
        }
        let mut count: u32 = 0;
        // Row above.
        if i >= WIDTH {
            count += self.screen[(i - WIDTH) as usize];
            if i % WIDTH != 0 && i > WIDTH {
                count += self.screen[((i - WIDTH) - 1) as usize];
            }
            if i % WIDTH != WIDTH - 1 {
                count += self.screen[((i - WIDTH) + 1) as usize];
            }
        }
        // Left and right.
        if i % WIDTH != 0 && i > 0 {
            count += self.screen[(i - 1) as usize];
        }
        if i % WIDTH != WIDTH - 1 && i + 1 < HEIGHT * WIDTH {
            count += self.screen[(i + 1) as usize];
        }
        // Row below.
        if i + WIDTH < HEIGHT * WIDTH {
            count += self.screen[(i + WIDTH) as usize];
            if i % WIDTH != WIDTH - 1 && i + WIDTH + 1 < HEIGHT * WIDTH {
                count += self.screen[(i + WIDTH + 1) as usize];
            }
            if i % WIDTH != 0 {
                count += self.screen[(i + WIDTH - 1) as usize];
            }
        }
        count
    }
}

} // verus!
