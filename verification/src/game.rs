//! Board representation and the standard starting position.

use vstd::prelude::*;

verus! {

#[derive(Clone, Copy, Debug, PartialEq, Eq)]
pub enum Color {
    White,
    Black,
}

#[derive(Clone, Copy, Debug, PartialEq, Eq)]
pub enum Piece {
    Pawn(Color),
    Knight(Color),
    Bishop(Color),
    Rook(Color),
    Queen(Color),
    King(Color),
}

#[derive(Clone, Copy, Debug, PartialEq, Eq)]
pub enum Square {
    Empty,
    Occupied(Piece),
}

/// The back rank of the given color in file order: rook, knight, bishop,
/// queen, king, bishop, knight, rook.
pub open spec fn back_rank_square(color: Color, col: int) -> Square {
    if col == 0 || col == 7 {
        Square::Occupied(Piece::Rook(color))
    } else if col == 1 || col == 6 {
        Square::Occupied(Piece::Knight(color))
    } else if col == 2 || col == 5 {
        Square::Occupied(Piece::Bishop(color))
    } else if col == 3 {
        Square::Occupied(Piece::Queen(color))
    } else {
        Square::Occupied(Piece::King(color))
    }
}

/// The standard starting position: white pieces on rows 0 and 1, black
/// pieces on rows 6 and 7, everything between empty.
pub open spec fn starting_square(row: int, col: int) -> Square {
    if row == 0 {
        back_rank_square(Color::White, col)
    } else if row == 1 {
        Square::Occupied(Piece::Pawn(Color::White))
    } else if row == 6 {
        Square::Occupied(Piece::Pawn(Color::Black))
    } else if row == 7 {
        back_rank_square(Color::Black, col)
    } else {
        Square::Empty
    }
}

#[derive(Debug)]
pub struct Game {
    pub board: [[Square; 8]; 8],
}

impl Game {
    /// Resets the board to the standard starting position.
    pub fn initialize(&mut self)
        ensures
            forall|row: int, col: int|
                0 <= row < 8 && 0 <= col < 8 ==> #[trigger] final(self).board[row][col]
                    == starting_square(row, col),
    {
        self.board = [
            [
                Square::Occupied(Piece::Rook(Color::White)),
                Square::Occupied(Piece::Knight(Color::White)),
                Square::Occupied(Piece::Bishop(Color::White)),
                Square::Occupied(Piece::Queen(Color::White)),
                Square::Occupied(Piece::King(Color::White)),
                Square::Occupied(Piece::Bishop(Color::White)),
                Square::Occupied(Piece::Knight(Color::White)),
                Square::Occupied(Piece::Rook(Color::White)),
            ],
            [
                Square::Occupied(Piece::Pawn(Color::White)),
                Square::Occupied(Piece::Pawn(Color::White)),
                Square::Occupied(Piece::Pawn(Color::White)),
                Square::Occupied(Piece::Pawn(Color::White)),
                Square::Occupied(Piece::Pawn(Color::White)),
                Square::Occupied(Piece::Pawn(Color::White)),
                Square::Occupied(Piece::Pawn(Color::White)),
                Square::Occupied(Piece::Pawn(Color::White)),
            ],
            [
                Square::Empty,
                Square::Empty,
                Square::Empty,
                Square::Empty,
                Square::Empty,
                Square::Empty,
                Square::Empty,
                Square::Empty,
            ],
            [
                Square::Empty,
                Square::Empty,
                Square::Empty,
                Square::Empty,
                Square::Empty,
                Square::Empty,
                Square::Empty,
                Square::Empty,
            ],
            [
                Square::Empty,
                Square::Empty,
                Square::Empty,
                Square::Empty,
                Square::Empty,
                Square::Empty,
                Square::Empty,
                Square::Empty,
            ],
            [
                Square::Empty,
                Square::Empty,
                Square::Empty,
                Square::Empty,
                Square::Empty,
                Square::Empty,
                Square::Empty,
                Square::Empty,
            ],
            [
                Square::Occupied(Piece::Pawn(Color::Black)),
                Square::Occupied(Piece::Pawn(Color::Black)),
                Square::Occupied(Piece::Pawn(Color::Black)),
                Square::Occupied(Piece::Pawn(Color::Black)),
                Square::Occupied(Piece::Pawn(Color::Black)),
                Square::Occupied(Piece::Pawn(Color::Black)),
                Square::Occupied(Piece::Pawn(Color::Black)),
                Square::Occupied(Piece::Pawn(Color::Black)),
            ],
            [
                Square::Occupied(Piece::Rook(Color::Black)),
                Square::Occupied(Piece::Knight(Color::Black)),
                Square::Occupied(Piece::Bishop(Color::Black)),
                Square::Occupied(Piece::Queen(Color::Black)),
                Square::Occupied(Piece::King(Color::Black)),
                Square::Occupied(Piece::Bishop(Color::Black)),
                Square::Occupied(Piece::Knight(Color::Black)),
                Square::Occupied(Piece::Rook(Color::Black)),
            ],
        ];
    }
}

} // verus!
