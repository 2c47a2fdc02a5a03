//! The reasons for which a move request is turned down.
use vstd::prelude::*;

verus! {

/// Why a move was not carried out. Every rejection leaves the game as it was.
#[derive(Clone, Copy, Debug, PartialEq, Eq, Structural)]
pub enum MoveError {
    /// The text of the request does not spell a move.
    InvalidFormat,
    /// The piece may not travel from the start square to the end square.
    InvalidPath,
    /// The start square is empty.
    PieceNotFound,
    /// The piece on the start square belongs to the other player.
    WrongPieceColor,
    /// The piece on the start square is not of the kind the request names.
    WrongPieceKind,
}

} // verus!
