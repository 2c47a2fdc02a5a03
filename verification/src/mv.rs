//! Squares, the geometry of a path between two squares, and move requests.
use vstd::prelude::*;
use vstd::string::StrSliceExecFns;
use crate::board::{kind_of_glyph, PieceKind};
use crate::err::MoveError;

verus! {

/// One cell of the grid. Rows count the ranks from 0 (rank 1) to 7 (rank 8),
/// columns count the files from 0 (file a) to 7 (file h).
#[derive(Clone, Copy, Debug, PartialEq, Eq, Structural)]
pub struct Square {
    pub row: usize,
    pub col: usize,
}

impl Square {
    /// Both coordinates lie on the grid.
    pub open spec fn in_bounds(&self) -> bool {
        self.row < 8 && self.col < 8
    }
}

/// The square that a file letter and a rank digit name: files run from 'a'
/// to 'h', ranks from '1' to '8'. Other characters name no square.
pub open spec fn square_of(file: char, rank: char) -> Option<Square> {
    if 'a' <= file <= 'h' && '1' <= rank <= '8' {
        Some(
            Square {
                row: (rank as int - '1' as int) as usize,
                col: (file as int - 'a' as int) as usize,
            },
        )
    } else {
        None
    }
}

impl TryFrom<(char, char)> for Square {
    type Error = MoveError;

    /// Reads a file letter and a rank digit as a square.
    fn try_from(name: (char, char)) -> (result: Result<Square, MoveError>)
        ensures
            result == (match square_of(name.0, name.1) {
                Some(sq) => Ok::<Square, MoveError>(sq),
                None => Err::<Square, MoveError>(MoveError::InvalidFormat),
            }),
            result matches Ok(sq) ==> sq.in_bounds(),
    {
        let (c, r) = name;
        let col = if 'a' <= c && c <= 'h' {
            (c as usize) - ('a' as usize)
        } else {
            return Err(MoveError::InvalidFormat);
        };

        let row = if '1' <= r && r <= '8' {
            (r as usize) - ('1' as usize)
        } else {
            return Err(MoveError::InvalidFormat);
        };

        Ok(Square { row, col })
    }
}

impl vstd::std_specs::convert::TryFromSpecImpl<(char, char)> for Square {
    open spec fn obeys_try_from_spec() -> bool {
        true
    }

    open spec fn try_from_spec(name: (char, char)) -> Result<Square, MoveError> {
        match square_of(name.0, name.1) {
            Some(sq) => Ok(sq),
            None => Err(MoveError::InvalidFormat),
        }
    }
}

/// A request to take a piece of one kind from one square to another. It says
/// nothing of whether the move is allowed. Both squares lie on the grid.
pub struct Move {
    piece: PieceKind,
    start: Square,
    end: Square,
}

/// What a text spells as a move: exactly five characters, the letter of the
/// piece, then the file and rank of the start square, then the file and rank
/// of the end square.
pub open spec fn decoded(text: Seq<char>) -> Option<(PieceKind, Square, Square)> {
    if text.len() != 5 {
        None
    } else {
        match (kind_of_glyph(text[0]), square_of(text[1], text[2]), square_of(text[3], text[4])) {
            (Some(piece), Some(start), Some(end)) => Some((piece, start, end)),
            _ => None,
        }
    }
}

impl Move {
    /// The number of characters that spell a move.
    const SIZE: usize = 5;

    /// The request to take a piece of kind `piece` from `start` to `end`.
    pub closed spec fn request(piece: PieceKind, start: Square, end: Square) -> Move {
        Move { piece, start, end }
    }

    /// The kind of piece to move, for use in specifications.
    pub closed spec fn spec_piece(&self) -> PieceKind {
        self.piece
    }

    /// The square to leave, for use in specifications.
    pub closed spec fn spec_start(&self) -> Square {
        self.start
    }

    /// The square to reach, for use in specifications.
    pub closed spec fn spec_end(&self) -> Square {
        self.end
    }

    /// Both squares of a request lie on the grid.
    #[verifier::type_invariant]
    pub open spec fn well_formed(&self) -> bool {
        self.start().in_bounds() && self.end().in_bounds()
    }

    /// A request is its piece and its two squares, and nothing else.
    pub proof fn lemma_parts(self)
        ensures
            self == Move::request(self.piece(), self.start(), self.end()),
            forall|piece: PieceKind, start: Square, end: Square|
                #![trigger Move::request(piece, start, end)]
                {
                    &&& Move::request(piece, start, end).piece() == piece
                    &&& Move::request(piece, start, end).start() == start
                    &&& Move::request(piece, start, end).end() == end
                },
    {
    }

    /// The kind of piece to move.
    #[verifier::when_used_as_spec(spec_piece)]
    pub fn piece(&self) -> (piece: PieceKind)
        ensures
            piece == self.piece(),
    {
        self.piece
    }

    /// The square to leave.
    #[verifier::when_used_as_spec(spec_start)]
    pub fn start(&self) -> (start: Square)
        ensures
            start == self.start(),
            start.in_bounds(),
    {
        proof {
            use_type_invariant(self);
        }
        self.start
    }

    /// The square to reach.
    #[verifier::when_used_as_spec(spec_end)]
    pub fn end(&self) -> (end: Square)
        ensures
            end == self.end(),
            end.in_bounds(),
    {
        proof {
            use_type_invariant(self);
        }
        self.end
    }
}

impl<'a> TryFrom<&'a str> for Move {
    type Error = MoveError;

    /// Reads a text as a move request. Whether the move is allowed is not asked.
    fn try_from(buf: &'a str) -> (result: Result<Move, MoveError>)
        ensures
            result == (match decoded(buf@) {
                Some((piece, start, end)) => Ok::<Move, MoveError>(
                    Move::request(piece, start, end),
                ),
                None => Err::<Move, MoveError>(MoveError::InvalidFormat),
            }),
            result matches Ok(mv) ==> decoded(buf@) == Some((mv.piece(), mv.start(), mv.end())),
    {
        if buf.unicode_len() != Self::SIZE {
            return Err(MoveError::InvalidFormat);
        }
        let piece = match PieceKind::try_from(buf.get_char(0)) {
            Ok(piece) => piece,
            Err(_) => return Err(MoveError::InvalidFormat),
        };
        let start = match Square::try_from((buf.get_char(1), buf.get_char(2))) {
            Ok(start) => start,
            Err(e) => return Err(e),
        };
        let end = match Square::try_from((buf.get_char(3), buf.get_char(4))) {
            Ok(end) => end,
            Err(e) => return Err(e),
        };

        Ok(Move { piece, start, end })
    }
}

impl<'a> vstd::std_specs::convert::TryFromSpecImpl<&'a str> for Move {
    open spec fn obeys_try_from_spec() -> bool {
        true
    }

    open spec fn try_from_spec(buf: &'a str) -> Result<Move, MoveError> {
        match decoded(buf@) {
            Some((piece, start, end)) => Ok(Move::request(piece, start, end)),
            None => Err(MoveError::InvalidFormat),
        }
    }
}

/// The distance between two coordinates.
pub open spec fn distance(a: int, b: int) -> int {
    if a >= b {
        a - b
    } else {
        b - a
    }
}

/// The two squares lie on one rank.
pub open spec fn is_horizontal(start: Square, end: Square) -> bool {
    start.row == end.row
}

/// The two squares lie on one file.
pub open spec fn is_vertical(start: Square, end: Square) -> bool {
    start.col == end.col
}

/// The two squares are as many ranks apart as they are files apart.
pub open spec fn is_diagonal(start: Square, end: Square) -> bool {
    distance(start.row as int, end.row as int) == distance(start.col as int, end.col as int)
}

/// The two squares lie on one rank, one file or one diagonal.
pub open spec fn is_straight(start: Square, end: Square) -> bool {
    is_horizontal(start, end) || is_vertical(start, end) || is_diagonal(start, end)
}

/// The number of steps that lead from the one square to the other along a
/// straight path: the larger of the two distances.
pub open spec fn path_len(start: Square, end: Square) -> int {
    let ranks = distance(start.row as int, end.row as int);
    let files = distance(start.col as int, end.col as int);
    if ranks >= files {
        ranks
    } else {
        files
    }
}

/// The coordinate reached after `k` steps from `from` in the direction of `to`.
pub open spec fn toward(from: int, to: int, k: int) -> int {
    if to > from {
        from + k
    } else if to < from {
        from - k
    } else {
        from
    }
}

/// The coordinate `x` is neither below both of `a` and `b` nor above both.
pub open spec fn within(a: int, x: int, b: int) -> bool {
    (a <= x <= b) || (b <= x <= a)
}

/// The square `sq` lies on the straight path from `start` to `end`, strictly
/// between the two: on their rank, on their file or on their diagonal, and
/// it is neither of them.
pub open spec fn lies_between(start: Square, sq: Square, end: Square) -> bool {
    &&& sq != start
    &&& sq != end
    &&& within(start.row as int, sq.row as int, end.row as int)
    &&& within(start.col as int, sq.col as int, end.col as int)
    &&& if is_horizontal(start, end) {
        sq.row == start.row
    } else if is_vertical(start, end) {
        sq.col == start.col
    } else {
        is_diagonal(start, end) && is_diagonal(start, sq) && is_diagonal(sq, end)
    }
}

/// Whether the two squares lie on one rank.
#[verifier::when_used_as_spec(is_horizontal)]
pub fn path_is_horizontal(start: Square, end: Square) -> (flat: bool)
    ensures
        flat == is_horizontal(start, end),
{
    start.row == end.row
}

/// How many files lie between the two squares.
pub fn horizontal_displacement(start: Square, end: Square) -> (files: usize)
    ensures
        files == distance(start.col as int, end.col as int),
{
    if start.col >= end.col {
        start.col - end.col
    } else {
        end.col - start.col
    }
}

/// Whether the two squares lie on one file.
#[verifier::when_used_as_spec(is_vertical)]
pub fn path_is_vertical(start: Square, end: Square) -> (upright: bool)
    ensures
        upright == is_vertical(start, end),
{
    start.col == end.col
}

/// How many ranks lie between the two squares.
pub fn vertical_displacement(start: Square, end: Square) -> (ranks: usize)
    ensures
        ranks == distance(start.row as int, end.row as int),
{
    if start.row >= end.row {
        start.row - end.row
    } else {
        end.row - start.row
    }
}

/// Whether the two squares are as many ranks apart as files apart.
#[verifier::when_used_as_spec(is_diagonal)]
pub fn path_is_diagonal(start: Square, end: Square) -> (slanted: bool)
    ensures
        slanted == is_diagonal(start, end),
{
    let dr = vertical_displacement(start, end);
    let dc = horizontal_displacement(start, end);

    dr == dc
}

/// A straight path goes in exactly one direction: along a rank, along a
/// file, or along a diagonal.
#[verifier::when_used_as_spec(is_straight)]
pub fn path_is_straight(start: Square, end: Square) -> (straight: bool)
    ensures
        straight == is_straight(start, end),
{
    path_is_horizontal(start, end) || path_is_vertical(start, end) || path_is_diagonal(start, end)
}

} // verus!
