//! The dump of a grid: every cell code as four bytes, most significant first,
//! cell after cell, with nothing before or after.

use vstd::prelude::*;
use crate::grid::{codes_ok, single_hover, CELLS};

verus! {

/// Length of the dump of a grid: four bytes for each of its `CELLS` cells.
pub const DUMP_BYTES: usize = 10000;

/// Why a sequence of bytes is not the dump of a grid.
#[derive(Clone, Copy, Debug, PartialEq, Eq, Structural)]
pub enum LoadError {
    /// There are fewer than `DUMP_BYTES` bytes.
    Truncated,
    /// One of the first `CELLS` words is not a cell code.
    BadCell,
    /// The words are cell codes, but more than one is the hover mark.
    ManyHovers,
}

/// The four bytes of `w`, most significant first.
pub open spec fn be_bytes(w: u32) -> Seq<u8> {
    seq![
        (w / 0x100_0000) as u8,
        (w / 0x1_0000 % 0x100) as u8,
        (w / 0x100 % 0x100) as u8,
        (w % 0x100) as u8,
    ]
}

/// The word whose bytes, most significant first, are `b0`, `b1`, `b2`, `b3`.
pub open spec fn be_word(b0: u8, b1: u8, b2: u8, b3: u8) -> u32 {
    (b0 * 0x100_0000 + b1 * 0x1_0000 + b2 * 0x100 + b3) as u32
}

/// The dump of the cells `s`.
pub open spec fn dump(s: Seq<u32>) -> Seq<u8> {
    Seq::new(4 * s.len(), |k: int| be_bytes(s[k / 4])[k % 4])
}

/// The first `CELLS` words of `b`.
pub open spec fn words(b: Seq<u8>) -> Seq<u32> {
    Seq::new(CELLS as nat, |i: int| be_word(b[4 * i], b[4 * i + 1], b[4 * i + 2], b[4 * i + 3]))
}

/// The grid that `b` is read as, or why it is none. Bytes after the first
/// `DUMP_BYTES` are not looked at.
pub open spec fn parse(b: Seq<u8>) -> Result<Seq<u32>, LoadError> {
    if b.len() < DUMP_BYTES {
        Err(LoadError::Truncated)
    } else if !codes_ok(words(b)) {
        Err(LoadError::BadCell)
    } else if !single_hover(words(b)) {
        Err(LoadError::ManyHovers)
    } else {
        Ok(words(b))
    }
}

/// The four bytes of `w`, most significant first.
pub fn to_be_bytes(w: u32) -> (b: [u8; 4])
    ensures
        b@ == be_bytes(w),
{
    let b: [u8; 4] = [
        (w / 0x100_0000) as u8,
        (w / 0x1_0000 % 0x100) as u8,
        (w / 0x100 % 0x100) as u8,
        (w % 0x100) as u8,
    ];
    assert(b@ =~= be_bytes(w));
    b
}

/// The word whose bytes, most significant first, are those of `b`.
pub fn from_be_bytes(b: [u8; 4]) -> (w: u32)
    ensures
        w == be_word(b@[0], b@[1], b@[2], b@[3]),
{
    b[0] as u32 * 0x100_0000 + b[1] as u32 * 0x1_0000 + b[2] as u32 * 0x100 + b[3] as u32
}

/// A word is read back from its own four bytes.
pub proof fn lemma_word_round_trip(w: u32)
    ensures
        be_word(be_bytes(w)[0], be_bytes(w)[1], be_bytes(w)[2], be_bytes(w)[3]) == w,
{
}

/// The words of a dump of `CELLS` cells are those cells.
pub proof fn lemma_words_of_dump(s: Seq<u32>)
    requires
        s.len() == CELLS,
    ensures
        dump(s).len() == DUMP_BYTES,
        words(dump(s)) == s,
{
    assert forall|i: int| 0 <= i < CELLS implies words(dump(s))[i] == s[i] by {
        lemma_word_round_trip(s[i]);
    }
    assert(words(dump(s)) =~= s);
}

} // verus!
