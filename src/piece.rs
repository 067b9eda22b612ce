//! Pieces, cell colours and falling pieces.
use vstd::prelude::*;

verus! {

/// The seven tetromino kinds.
#[derive(Clone, Copy, Debug, PartialEq, Eq, Structural)]
pub enum Piece {
    I,
    O,
    T,
    L,
    J,
    S,
    Z,
}

/// The colour stored in one cell of the board.
#[derive(Clone, Copy, Debug, PartialEq, Eq, Structural)]
pub enum CellColor {
    Empty,
    Garbage,
    Unclearable,
    I,
    O,
    T,
    L,
    J,
    S,
    Z,
}

pub open spec fn piece_color(p: Piece) -> CellColor {
    match p {
        Piece::I => CellColor::I,
        Piece::O => CellColor::O,
        Piece::T => CellColor::T,
        Piece::L => CellColor::L,
        Piece::J => CellColor::J,
        Piece::S => CellColor::S,
        Piece::Z => CellColor::Z,
    }
}

impl Piece {
    /// The colour that cells of this piece have once locked.
    pub fn color(self) -> (r: CellColor)
        ensures
            r == piece_color(self),
            r != CellColor::Empty,
    {
        match self {
            Piece::I => CellColor::I,
            Piece::O => CellColor::O,
            Piece::T => CellColor::T,
            Piece::L => CellColor::L,
            Piece::J => CellColor::J,
            Piece::S => CellColor::S,
            Piece::Z => CellColor::Z,
        }
    }
}

/// A piece in the air, given by its kind and the board coordinates
/// `(column, row)` of its four cells, row 0 being the bottom row.
/// The engine computes the geometry; this library only draws and locks it.
#[derive(Clone, Copy, Debug)]
pub struct FallingPiece {
    pub piece: Piece,
    pub cells: [(i32, i32); 4],
}

} // verus!
