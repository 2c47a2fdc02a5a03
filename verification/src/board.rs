//! The pieces and the grid they stand on.
use vstd::prelude::*;
use crate::err::MoveError;
use crate::game::Color;
use crate::mv::{
    distance, horizontal_displacement, is_horizontal, is_straight, lies_between,
    path_is_straight, path_len, toward, vertical_displacement, Square,
};

verus! {

/// The six kinds of piece, each with its own rule of movement.
#[derive(Clone, Copy, Debug, PartialEq, Eq, Structural)]
pub enum PieceKind {
    Pawn,
    Rook,
    Knight,
    Bishop,
    Queen,
    King,
}

/// The letter that stands for a kind of piece.
pub open spec fn glyph(kind: PieceKind) -> char {
    match kind {
        PieceKind::Pawn => 'P',
        PieceKind::Rook => 'R',
        PieceKind::Knight => 'N',
        PieceKind::Bishop => 'B',
        PieceKind::Queen => 'Q',
        PieceKind::King => 'K',
    }
}

/// The kind of piece that a letter stands for, if it stands for one. Only
/// the six upper-case letters do.
pub open spec fn kind_of_glyph(letter: char) -> Option<PieceKind> {
    if letter == 'P' {
        Some(PieceKind::Pawn)
    } else if letter == 'R' {
        Some(PieceKind::Rook)
    } else if letter == 'N' {
        Some(PieceKind::Knight)
    } else if letter == 'B' {
        Some(PieceKind::Bishop)
    } else if letter == 'Q' {
        Some(PieceKind::Queen)
    } else if letter == 'K' {
        Some(PieceKind::King)
    } else {
        None
    }
}

/// Each kind has a letter of its own: reading the letter of a kind gives the
/// kind back, and a letter that is read as a kind is the letter of that kind.
pub proof fn lemma_glyph_round_trip(kind: PieceKind, letter: char)
    ensures
        kind_of_glyph(glyph(kind)) == Some(kind),
        kind_of_glyph(letter) == Some(kind) ==> glyph(kind) == letter,
{
}

impl TryFrom<char> for PieceKind {
    type Error = ();

    /// Reads a letter as a kind of piece.
    fn try_from(letter: char) -> (result: Result<PieceKind, ()>)
        ensures
            result == (match kind_of_glyph(letter) {
                Some(kind) => Ok::<PieceKind, ()>(kind),
                None => Err::<PieceKind, ()>(()),
            }),
    {
        match letter {
            'P' => Ok(PieceKind::Pawn),
            'R' => Ok(PieceKind::Rook),
            'N' => Ok(PieceKind::Knight),
            'B' => Ok(PieceKind::Bishop),
            'Q' => Ok(PieceKind::Queen),
            'K' => Ok(PieceKind::King),
            _ => Err(()),
        }
    }
}

impl vstd::std_specs::convert::TryFromSpecImpl<char> for PieceKind {
    open spec fn obeys_try_from_spec() -> bool {
        true
    }

    open spec fn try_from_spec(letter: char) -> Result<PieceKind, ()> {
        match kind_of_glyph(letter) {
            Some(kind) => Ok(kind),
            None => Err(()),
        }
    }
}

impl From<PieceKind> for char {
    /// The letter of a kind of piece.
    fn from(kind: PieceKind) -> (letter: char)
        ensures
            letter == glyph(kind),
    {
        match kind {
            PieceKind::Pawn => 'P',
            PieceKind::Rook => 'R',
            PieceKind::Knight => 'N',
            PieceKind::Bishop => 'B',
            PieceKind::Queen => 'Q',
            PieceKind::King => 'K',
        }
    }
}

impl vstd::std_specs::convert::FromSpecImpl<PieceKind> for char {
    open spec fn obeys_from_spec() -> bool {
        true
    }

    open spec fn from_spec(kind: PieceKind) -> char {
        glyph(kind)
    }
}

/// A piece: its kind and the player it belongs to.
#[derive(Clone, Copy, Debug, PartialEq, Eq, Structural)]
pub struct Piece {
    kind: PieceKind,
    color: Color,
}

impl Piece {
    /// The piece of this kind and color, for use in specifications.
    pub closed spec fn spec_new(kind: PieceKind, color: Color) -> Piece {
        Piece { kind, color }
    }

    /// Makes the piece of this kind and color.
    #[verifier::when_used_as_spec(spec_new)]
    pub fn new(kind: PieceKind, color: Color) -> (piece: Piece)
        ensures
            piece == Piece::new(kind, color),
            piece.kind() == kind,
            piece.color() == color,
    {
        Self { kind, color }
    }

    /// The kind of the piece, for use in specifications.
    pub closed spec fn spec_kind(&self) -> PieceKind {
        self.kind
    }

    /// The kind of the piece.
    #[verifier::when_used_as_spec(spec_kind)]
    pub fn kind(&self) -> (kind: PieceKind)
        ensures
            kind == self.kind(),
    {
        self.kind
    }

    /// The owner of the piece, for use in specifications.
    pub closed spec fn spec_color(&self) -> Color {
        self.color
    }

    /// The owner of the piece.
    #[verifier::when_used_as_spec(spec_color)]
    pub fn color(&self) -> (color: Color)
        ensures
            color == self.color(),
    {
        self.color
    }

    /// A piece is its kind and its color, and nothing else.
    pub proof fn lemma_parts(self)
        ensures
            self == Piece::new(self.kind(), self.color()),
            forall|kind: PieceKind, color: Color|
                #![trigger Piece::new(kind, color)]
                Piece::new(kind, color).kind() == kind && Piece::new(kind, color).color()
                    == color,
    {
    }
}

/// One rank of the grid, from file a to file h.
pub type Rank = Seq<Option<Piece>>;

/// The grid as a value of mathematics: the ranks from rank 1 to rank 8.
pub type Grid = Seq<Rank>;

/// The grid has eight ranks of eight cells.
pub open spec fn grid_shaped(grid: Grid) -> bool {
    &&& grid.len() == 8
    &&& forall|row: int| 0 <= row < 8 ==> (#[trigger] grid[row]).len() == 8
}

/// The grid with the cell at `sq` replaced.
pub open spec fn grid_put(grid: Grid, sq: Square, cell: Option<Piece>) -> Grid {
    grid.update(sq.row as int, grid[sq.row as int].update(sq.col as int, cell))
}

/// The cell reached after `k` steps from `start` in the direction of `end`.
pub open spec fn path_cell(grid: Grid, start: Square, end: Square, k: int) -> Option<Piece> {
    grid[toward(start.row as int, end.row as int, k)][toward(start.col as int, end.col as int, k)]
}

/// The two squares lie on one straight line and every square strictly between
/// them is empty.
pub open spec fn path_clear(grid: Grid, start: Square, end: Square) -> bool {
    &&& is_straight(start, end)
    &&& forall|k: int|
        0 < k < path_len(start, end) ==> #[trigger] path_cell(grid, start, end, k) is None
}

/// A straight path is clear exactly when no square that lies strictly
/// between its two ends holds a piece. The two ends themselves do not count.
pub proof fn lemma_clear_path_has_nothing_between(grid: Grid, start: Square, end: Square)
    ensures
        path_clear(grid, start, end) <==> {
            &&& is_straight(start, end)
            &&& forall|sq: Square| #[trigger]
                lies_between(start, sq, end) ==> grid[sq.row as int][sq.col as int] is None
        },
{
    if is_straight(start, end) {
        if path_clear(grid, start, end) {
            assert forall|sq: Square| #[trigger] lies_between(start, sq, end) implies grid[sq.row
                as int][sq.col as int] is None by {
                let k = if is_horizontal(start, end) {
                    distance(start.col as int, sq.col as int)
                } else {
                    distance(start.row as int, sq.row as int)
                };
                assert(path_cell(grid, start, end, k) is None);
            }
        }
        if forall|sq: Square| #[trigger]
            lies_between(start, sq, end) ==> grid[sq.row as int][sq.col as int] is None {
            assert forall|k: int| 0 < k < path_len(start, end) implies #[trigger] path_cell(
                grid,
                start,
                end,
                k,
            ) is None by {
                let sq = Square {
                    row: toward(start.row as int, end.row as int, k) as usize,
                    col: toward(start.col as int, end.col as int, k) as usize,
                };
                assert(lies_between(start, sq, end));
            }
        }
    }
}

/// What relocating a piece answers: the piece on `start` must exist, be of
/// the expected kind and of the expected color, in this order; the answer is
/// then what stood on `end` once `start` was cleared.
pub open spec fn relocation_result(
    grid: Grid,
    kind: PieceKind,
    color: Color,
    start: Square,
    end: Square,
) -> Result<Option<Piece>, MoveError> {
    match grid[start.row as int][start.col as int] {
        None => Err(MoveError::PieceNotFound),
        Some(piece) => if piece.kind() != kind {
            Err(MoveError::WrongPieceKind)
        } else if piece.color() != color {
            Err(MoveError::WrongPieceColor)
        } else {
            Ok(grid_put(grid, start, None)[end.row as int][end.col as int])
        },
    }
}

/// The grid after the piece on `start` has gone to `end`.
pub open spec fn relocated(grid: Grid, start: Square, end: Square) -> Grid {
    grid_put(grid_put(grid, start, None), end, grid[start.row as int][start.col as int])
}

/// A rank on which nothing stands.
pub open spec fn empty_rank() -> Rank {
    Seq::new(8, |col: int| None)
}

/// A rank filled with the pawns of one player.
pub open spec fn pawns_rank(color: Color) -> Rank {
    Seq::new(8, |col: int| Some(Piece::new(PieceKind::Pawn, color)))
}

/// The back rank of one player, from file a to file h.
pub open spec fn royals_rank(color: Color) -> Rank {
    seq![
        Some(Piece::new(PieceKind::Rook, color)),
        Some(Piece::new(PieceKind::Knight, color)),
        Some(Piece::new(PieceKind::Bishop, color)),
        Some(Piece::new(PieceKind::Queen, color)),
        Some(Piece::new(PieceKind::King, color)),
        Some(Piece::new(PieceKind::Bishop, color)),
        Some(Piece::new(PieceKind::Knight, color)),
        Some(Piece::new(PieceKind::Rook, color)),
    ]
}

/// The position from which every game starts: White's back rank and pawns
/// on the two lowest ranks, Black's pawns and back rank on the two highest,
/// four empty ranks between them.
pub open spec fn starting_grid() -> Grid {
    seq![
        royals_rank(Color::White),
        pawns_rank(Color::White),
        empty_rank(),
        empty_rank(),
        empty_rank(),
        empty_rank(),
        pawns_rank(Color::Black),
        royals_rank(Color::Black),
    ]
}

/// The cell holds a piece of the player.
pub open spec fn belongs_to(cell: Option<Piece>, color: Color) -> bool {
    cell matches Some(piece) && piece.color() == color
}

/// How many pieces of the player stand on the rank.
pub open spec fn count_in_rank(rank: Rank, color: Color) -> nat
    decreases rank.len(),
{
    if rank.len() == 0 {
        0
    } else {
        count_in_rank(rank.drop_last(), color) + if belongs_to(rank.last(), color) {
            1nat
        } else {
            0nat
        }
    }
}

/// How many pieces of the player stand on the grid.
pub open spec fn count_pieces(grid: Grid, color: Color) -> nat
    decreases grid.len(),
{
    if grid.len() == 0 {
        0
    } else {
        count_pieces(grid.drop_last(), color) + count_in_rank(grid.last(), color)
    }
}

/// The kind of piece that starts on each file of a back rank.
pub open spec fn back_rank_kind(col: int) -> PieceKind {
    if col == 0 || col == 7 {
        PieceKind::Rook
    } else if col == 1 || col == 6 {
        PieceKind::Knight
    } else if col == 2 || col == 5 {
        PieceKind::Bishop
    } else if col == 3 {
        PieceKind::Queen
    } else {
        PieceKind::King
    }
}

/// On a rank where every cell holds a piece of the player, the player has as
/// many pieces as the rank has cells; where none does, the player has none.
pub proof fn lemma_count_uniform_rank(rank: Rank, color: Color)
    ensures
        (forall|col: int| 0 <= col < rank.len() ==> belongs_to(#[trigger] rank[col], color))
            ==> count_in_rank(rank, color) == rank.len(),
        (forall|col: int| 0 <= col < rank.len() ==> !belongs_to(#[trigger] rank[col], color))
            ==> count_in_rank(rank, color) == 0,
    decreases rank.len(),
{
    if rank.len() > 0 {
        let shorter = rank.drop_last();
        lemma_count_uniform_rank(shorter, color);
        assert forall|col: int| 0 <= col < shorter.len() implies shorter[col] == rank[col] by {}
    }
}

/// The starting position, cell by cell. The back ranks hold rook, knight,
/// bishop, queen, king, bishop, knight, rook from file a to file h, White's
/// on rank 1 and Black's on rank 8; the pawns stand on the rank next to
/// their back rank; the four ranks in the middle are empty. Each player has
/// sixteen pieces.
pub proof fn lemma_starting_position()
    ensures
        grid_shaped(starting_grid()),
        forall|col: int|
            0 <= col < 8 ==> {
                &&& #[trigger] starting_grid()[0][col] == Some(
                    Piece::new(back_rank_kind(col), Color::White),
                )
                &&& starting_grid()[1][col] == Some(Piece::new(PieceKind::Pawn, Color::White))
                &&& starting_grid()[6][col] == Some(Piece::new(PieceKind::Pawn, Color::Black))
                &&& starting_grid()[7][col] == Some(
                    Piece::new(back_rank_kind(col), Color::Black),
                )
            },
        forall|row: int, col: int|
            2 <= row < 6 && 0 <= col < 8 ==> (#[trigger] starting_grid()[row][col]) is None,
        count_pieces(starting_grid(), Color::White) == 16,
        count_pieces(starting_grid(), Color::Black) == 16,
{
    lemma_count_uniform_rank(royals_rank(Color::White), Color::White);
    lemma_count_uniform_rank(royals_rank(Color::White), Color::Black);
    lemma_count_uniform_rank(pawns_rank(Color::White), Color::White);
    lemma_count_uniform_rank(pawns_rank(Color::White), Color::Black);
    lemma_count_uniform_rank(empty_rank(), Color::White);
    lemma_count_uniform_rank(empty_rank(), Color::Black);
    lemma_count_uniform_rank(pawns_rank(Color::Black), Color::White);
    lemma_count_uniform_rank(pawns_rank(Color::Black), Color::Black);
    lemma_count_uniform_rank(royals_rank(Color::Black), Color::White);
    lemma_count_uniform_rank(royals_rank(Color::Black), Color::Black);
    reveal_with_fuel(count_pieces, 9);
}

/// The grid of optional pieces. It records where the pieces stand and
/// knows nothing of turns or of the rules of movement.
pub struct Board([[Option<Piece>; 8]; 8]);

impl View for Board {
    type V = Grid;

    closed spec fn view(&self) -> Grid {
        Seq::new(8, |row: int| self.0[row]@)
    }
}

impl Board {
    /// The number of ranks, and of files.
    pub const SIZE: usize = 8;

    /// The row on which White's pawns start.
    pub const WHITE_PAWN_START_ROW: usize = 1;

    /// The row on which Black's pawns start.
    pub const BLACK_PAWN_START_ROW: usize = 6;

    /// What stands on `sq`.
    pub open spec fn at(&self, sq: Square) -> Option<Piece> {
        self@[sq.row as int][sq.col as int]
    }

    /// Every board has eight ranks of eight cells.
    pub proof fn lemma_shape(&self)
        ensures
            grid_shaped(self@),
    {
    }

    /// Two boards with the same cells are the same board.
    pub proof fn lemma_same_grid(&self, other: &Board)
        requires
            self@ == other@,
        ensures
            self == other,
    {
        assert forall|row: int| 0 <= row < 8 implies self.0[row] == other.0[row] by {
            assert(self@[row] == other@[row]);
        }
        assert(self.0 =~= other.0);
    }

    /// A row on which nothing stands.
    fn empty_row() -> (row: [Option<Piece>; 8])
        ensures
            row@ == empty_rank(),
    {
        [None; 8]
    }

    /// A row filled with the pawns of one player.
    fn pawns_row(color: Color) -> (row: [Option<Piece>; 8])
        ensures
            row@ == pawns_rank(color),
    {
        let pawn = Piece::new(PieceKind::Pawn, color);
        [Some(pawn); 8]
    }

    /// The back row of one player.
    fn royals_row(color: Color) -> (row: [Option<Piece>; 8])
        ensures
            row@ == royals_rank(color),
    {
        [
            Some(Piece::new(PieceKind::Rook, color)),
            Some(Piece::new(PieceKind::Knight, color)),
            Some(Piece::new(PieceKind::Bishop, color)),
            Some(Piece::new(PieceKind::Queen, color)),
            Some(Piece::new(PieceKind::King, color)),
            Some(Piece::new(PieceKind::Bishop, color)),
            Some(Piece::new(PieceKind::Knight, color)),
            Some(Piece::new(PieceKind::Rook, color)),
        ]
    }

    /// Looks up what stands on `sq`.
    pub fn piece(&self, sq: Square) -> (found: Option<Piece>)
        requires
            sq.in_bounds(),
        ensures
            found == self.at(sq),
    {
        self.0[sq.row][sq.col]
    }

    /// Whether any piece stands on `sq`.
    pub fn has_piece(&self, sq: Square) -> (occupied: bool)
        requires
            sq.in_bounds(),
        ensures
            occupied == self.at(sq).is_some(),
    {
        self.piece(sq).is_some()
    }

    /// Whether a piece of the opponent of `color` stands on `sq`.
    pub fn has_opposing_piece(&self, sq: Square, color: Color) -> (opposed: bool)
        requires
            sq.in_bounds(),
        ensures
            opposed == (self.at(sq) matches Some(piece) && piece.color() == color.opposite()),
    {
        match self.piece(sq) {
            Some(piece) => piece.color() == color.opposite(),
            None => false,
        }
    }

    /// Hands out the cell at `sq` for writing.
    fn piece_handle(&mut self, sq: Square) -> (handle: &mut Option<Piece>)
        requires
            sq.in_bounds(),
        ensures
            *handle == old(self).at(sq),
            final(self)@ == grid_put(old(self)@, sq, *final(handle)),
    {
        &mut self.0[sq.row][sq.col]
    }

    /// Checks the piece on `start` against the expected kind and color and,
    /// if both match, carries it to `end`. Says what stood on `end`: a piece
    /// there is captured. Whether the piece may travel that way is not asked.
    pub fn move_piece(
        &mut self,
        kind: PieceKind,
        color: Color,
        start: Square,
        end: Square,
    ) -> (result: Result<Option<Piece>, MoveError>)
        requires
            start.in_bounds(),
            end.in_bounds(),
        ensures
            result == relocation_result(old(self)@, kind, color, start, end),
            result is Ok ==> final(self)@ == relocated(old(self)@, start, end),
            result is Err ==> *final(self) == *old(self),
            old(self).at(start) is None ==> result == Err::<Option<Piece>, MoveError>(
                MoveError::PieceNotFound,
            ) && *final(self) == *old(self),
    {
        let piece = match self.piece(start) {
            Some(piece) => {
                if piece.kind() != kind {
                    return Err(MoveError::WrongPieceKind);
                }
                if piece.color() != color {
                    return Err(MoveError::WrongPieceColor);
                }
                piece
            },
            None => return Err(MoveError::PieceNotFound),
        };

        *self.piece_handle(start) = None;
        let handle = self.piece_handle(end);
        let captured = *handle;
        *handle = Some(piece);
        Ok(captured)
    }

    /// Whether a piece can slide from `start` to `end`: the two squares lie
    /// on one rank, file or diagonal, and nothing stands strictly between
    /// them. The two end squares themselves are not looked at. A pair of
    /// squares on no such line is never free.
    pub fn path_is_free(&self, start: Square, end: Square) -> (free: bool)
        requires
            start.in_bounds(),
            end.in_bounds(),
        ensures
            free == path_clear(self@, start, end),
    {
        if !path_is_straight(start, end) {
            return false;
        }
        let ranks = vertical_displacement(start, end);
        let files = horizontal_displacement(start, end);
        let steps = if ranks >= files {
            ranks
        } else {
            files
        };

        let mut k: usize = 1;
        while k < steps
            invariant
                start.in_bounds(),
                end.in_bounds(),
                is_straight(start, end),
                steps == path_len(start, end),
                1 <= k,
                forall|j: int| 0 < j < k ==> #[trigger] path_cell(self@, start, end, j) is None,
            decreases steps - k,
        {
            let row = if end.row > start.row {
                start.row + k
            } else if end.row < start.row {
                start.row - k
            } else {
                start.row
            };
            let col = if end.col > start.col {
                start.col + k
            } else if end.col < start.col {
                start.col - k
            } else {
                start.col
            };
            if self.has_piece(Square { row, col }) {
                assert(path_cell(self@, start, end, k as int) is Some);
                return false;
            }
            k += 1;
        }

        true
    }
}

impl Default for Board {
    /// The starting position.
    fn default() -> (board: Board)
        ensures
            board@ == starting_grid(),
            count_pieces(board@, Color::White) == 16,
            count_pieces(board@, Color::Black) == 16,
    {
        proof {
            lemma_starting_position();
        }
        Self(
            [
                Self::royals_row(Color::White),
                Self::pawns_row(Color::White),
                Self::empty_row(),
                Self::empty_row(),
                Self::empty_row(),
                Self::empty_row(),
                Self::pawns_row(Color::Black),
                Self::royals_row(Color::Black),
            ],
        )
    }
}

} // verus!
