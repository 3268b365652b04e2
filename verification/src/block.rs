use vstd::prelude::*;

verus! {

/// One cell of the game board, in "block" units. The origin is the
/// top-left corner of the board: `x` grows rightward up to `width - 1`,
/// `y` grows downward up to `height - 1`.
///
/// The view of a block is the mathematical pair of its coordinates, so
/// specifications can do unbounded arithmetic on positions.
#[derive(Copy, Clone, Eq, PartialEq, Structural, Debug)]
pub struct Block {
    pub x: u32,
    pub y: u32,
}

impl View for Block {
    type V = (int, int);

    open spec fn view(&self) -> (int, int) {
        (self.x as int, self.y as int)
    }
}

} // verus!
