//! The players, the turn order and the rules of movement.
use vstd::prelude::*;
use crate::board::{
    lemma_clear_path_has_nothing_between, path_clear, relocated, relocation_result,
    starting_grid, Board, Grid, Piece, PieceKind,
};
use crate::err::MoveError;
use crate::mv::{
    distance, horizontal_displacement, is_diagonal, is_horizontal, is_straight, is_vertical,
    lies_between, path_is_diagonal, path_is_horizontal, path_is_straight, path_is_vertical,
    path_len, vertical_displacement, Move, Square,
};

verus! {

/// One of the two players.
#[derive(Clone, Copy, Debug, PartialEq, Eq, Structural)]
pub enum Color {
    White,
    Black,
}

impl Default for Color {
    /// White moves first.
    fn default() -> (color: Color)
        ensures
            color == Color::White,
    {
        Color::White
    }
}

impl Color {
    /// The other player, for use in specifications.
    pub open spec fn spec_opposite(&self) -> Color {
        match self {
            Color::White => Color::Black,
            Color::Black => Color::White,
        }
    }

    /// The other player.
    #[verifier::when_used_as_spec(spec_opposite)]
    pub fn opposite(&self) -> (other: Color)
        ensures
            other == self.opposite(),
    {
        match self {
            Color::White => Color::Black,
            Color::Black => Color::White,
        }
    }

    /// The terminal styling code of the player, for use in specifications.
    pub open spec fn spec_escape_code(&self) -> u8 {
        match self {
            Color::White => 31,
            Color::Black => 34,
        }
    }

    /// The terminal styling code in which this player's pieces are drawn.
    #[verifier::when_used_as_spec(spec_escape_code)]
    pub fn escape_code(&self) -> (code: u8)
        ensures
            code == self.escape_code(),
    {
        match self {
            Color::White => 31,
            Color::Black => 34,
        }
    }
}

/// The name of a player, in lower case.
pub open spec fn color_name(color: Color) -> Seq<char> {
    match color {
        Color::White => seq!['w', 'h', 'i', 't', 'e'],
        Color::Black => seq!['b', 'l', 'a', 'c', 'k'],
    }
}

impl From<Color> for &'static str {
    /// The name of a player.
    fn from(color: Color) -> (name: &'static str)
        ensures
            name@ == color_name(color),
    {
        proof {
            reveal_strlit("white");
            reveal_strlit("black");
        }
        match color {
            Color::White => "white",
            Color::Black => "black",
        }
    }
}

impl vstd::std_specs::convert::FromSpecImpl<Color> for &'static str {
    open spec fn obeys_from_spec() -> bool {
        true
    }

    open spec fn from_spec(color: Color) -> &'static str {
        match color {
            Color::White => "white",
            Color::Black => "black",
        }
    }
}

/// What a move that was carried out achieved.
#[derive(Clone, Copy, Debug, PartialEq, Eq, Structural)]
pub enum TurnOutcome {
    /// Nothing was captured.
    Continue,
    /// The piece named was captured, and it was no king.
    Taken(Piece),
    /// The player named captured the opposing king and has won.
    Win(Color),
}

/// The rank on which the pawns of a player start.
pub open spec fn pawn_home_row(mover: Color) -> int {
    match mover {
        Color::White => 1,
        Color::Black => 6,
    }
}

/// The move leads away from the mover's own side: towards higher ranks for
/// White, towards lower ranks for Black.
pub open spec fn is_forward(mover: Color, start: Square, end: Square) -> bool {
    match mover {
        Color::White => start.row < end.row,
        Color::Black => start.row > end.row,
    }
}

/// The rule of the pawn. It only moves forward: one square straight ahead
/// onto an empty square; two squares straight ahead from its home rank onto
/// an empty square, whatever stands on the square between; or one square
/// diagonally onto a piece of the opponent.
pub open spec fn pawn_may_travel(grid: Grid, mover: Color, start: Square, end: Square) -> bool {
    let ranks = distance(start.row as int, end.row as int);
    let target = grid[end.row as int][end.col as int];
    let advances = is_vertical(start, end) && target is None && (ranks == 1 || (ranks == 2
        && start.row == pawn_home_row(mover)));
    let captures = is_diagonal(start, end) && ranks == 1 && (target matches Some(piece)
        && piece.color() == mover.opposite());
    is_forward(mover, start, end) && (advances || captures)
}

/// The rule of movement of each kind of piece, on the squares alone: what
/// stands on the end square matters to the pawn only.
pub open spec fn may_travel(
    grid: Grid,
    mover: Color,
    kind: PieceKind,
    start: Square,
    end: Square,
) -> bool {
    match kind {
        PieceKind::Rook => (is_horizontal(start, end) || is_vertical(start, end)) && path_clear(
            grid,
            start,
            end,
        ),
        PieceKind::Bishop => is_diagonal(start, end) && path_clear(grid, start, end),
        PieceKind::Queen => is_straight(start, end) && path_clear(grid, start, end),
        PieceKind::King => path_len(start, end) == 1,
        PieceKind::Knight => {
            let files = distance(start.col as int, end.col as int);
            let ranks = distance(start.row as int, end.row as int);
            (files == 2 && ranks == 1) || (files == 1 && ranks == 2)
        },
        PieceKind::Pawn => pawn_may_travel(grid, mover, start, end),
    }
}

/// A piece of the mover stands on the square.
pub open spec fn holds_own_piece(grid: Grid, mover: Color, sq: Square) -> bool {
    grid[sq.row as int][sq.col as int] matches Some(piece) && piece.color() == mover
}

/// The move is allowed: it leaves its square, does not end on a piece of the
/// mover, and obeys the rule of its kind of piece.
pub open spec fn is_legal(
    grid: Grid,
    mover: Color,
    kind: PieceKind,
    start: Square,
    end: Square,
) -> bool {
    &&& start != end
    &&& !holds_own_piece(grid, mover, end)
    &&& may_travel(grid, mover, kind, start, end)
}

/// The lines along which the rook, the bishop and the queen slide: ranks and
/// files for the rook, diagonals for the bishop, all of them for the queen.
/// No other kind of piece slides.
pub open spec fn slides_along(kind: PieceKind, start: Square, end: Square) -> bool {
    match kind {
        PieceKind::Rook => is_horizontal(start, end) || is_vertical(start, end),
        PieceKind::Bishop => is_diagonal(start, end),
        PieceKind::Queen => is_straight(start, end),
        _ => false,
    }
}

/// A rook, a bishop or a queen may make a move exactly when the move leaves
/// its square, stays on a line of that kind of piece, passes over no piece
/// on the squares strictly between, and does not end on a piece of the mover.
pub proof fn lemma_sliding_moves(
    grid: Grid,
    mover: Color,
    kind: PieceKind,
    start: Square,
    end: Square,
)
    requires
        kind == PieceKind::Rook || kind == PieceKind::Bishop || kind == PieceKind::Queen,
    ensures
        is_legal(grid, mover, kind, start, end) <==> {
            &&& start != end
            &&& !holds_own_piece(grid, mover, end)
            &&& slides_along(kind, start, end)
            &&& forall|sq: Square| #[trigger]
                lies_between(start, sq, end) ==> grid[sq.row as int][sq.col as int] is None
        },
{
    lemma_clear_path_has_nothing_between(grid, start, end);
}

/// What a move achieved, told from what it captured: nothing, a piece that
/// is no king, or the king, with which the mover wins.
pub open spec fn outcome_of(captured: Option<Piece>, mover: Color) -> TurnOutcome {
    match captured {
        None => TurnOutcome::Continue,
        Some(piece) => if piece.kind() == PieceKind::King {
            TurnOutcome::Win(mover)
        } else {
            TurnOutcome::Taken(piece)
        },
    }
}

/// One game: the board and the player whose turn it is.
pub struct Game {
    board: Board,
    current_player: Color,
}

impl Default for Game {
    /// A new game: the starting position, White to move.
    fn default() -> (game: Game)
        ensures
            game.board()@ == starting_grid(),
            game.current_player() == Color::White,
    {
        Game { board: Board::default(), current_player: Color::default() }
    }
}

impl Game {
    /// The board as it stands, for use in specifications.
    pub closed spec fn spec_board(&self) -> &Board {
        &self.board
    }

    /// The board as it stands.
    #[verifier::when_used_as_spec(spec_board)]
    pub fn board(&self) -> (board: &Board)
        ensures
            board == self.board(),
    {
        &self.board
    }

    /// The player whose turn it is, for use in specifications.
    pub closed spec fn spec_current_player(&self) -> Color {
        self.current_player
    }

    /// The player whose turn it is.
    #[verifier::when_used_as_spec(spec_current_player)]
    pub fn current_player(&self) -> (mover: Color)
        ensures
            mover == self.current_player(),
    {
        self.current_player
    }

    /// The player to move may make this move on this board.
    pub open spec fn allows(&self, mv: Move) -> bool {
        is_legal(self.board()@, self.current_player(), mv.piece(), mv.start(), mv.end())
    }

    /// What the game answers to a move request. A move that is not allowed is
    /// an invalid path, whatever stands on its start square. One that is
    /// allowed must still name the piece that stands there, by kind and by
    /// owner. The move is then carried out and its outcome told.
    pub open spec fn answer(&self, mv: Move) -> Result<TurnOutcome, MoveError> {
        if !self.allows(mv) {
            Err(MoveError::InvalidPath)
        } else {
            match relocation_result(
                self.board()@,
                mv.piece(),
                self.current_player(),
                mv.start(),
                mv.end(),
            ) {
                Ok(captured) => Ok(outcome_of(captured, self.current_player())),
                Err(e) => Err(e),
            }
        }
    }

    /// Passes the turn to the other player.
    fn change_turn(&mut self)
        ensures
            final(self).current_player() == old(self).current_player().opposite(),
            final(self).board() == old(self).board(),
    {
        self.current_player = self.current_player.opposite();
    }

    /// Plays one move for the player whose turn it is. A move that is
    /// allowed and names the piece on its start square is carried out, the
    /// turn passes to the other player, and the outcome is told. Any other
    /// request is rejected and leaves the game exactly as it was.
    pub fn make_move(&mut self, mv: Move) -> (result: Result<TurnOutcome, MoveError>)
        ensures
            result == old(self).answer(mv),
            result is Ok ==> final(self).board()@ == relocated(
                old(self).board()@,
                mv.start(),
                mv.end(),
            ),
            result is Ok ==> final(self).current_player() == old(self).current_player().opposite(),
            result is Err ==> *final(self) == *old(self),
    {
        if !self.is_valid_path(&mv) {
            return Err(MoveError::InvalidPath);
        }
        let mover = self.current_player;
        match self.board.move_piece(mv.piece(), mover, mv.start(), mv.end()) {
            Ok(taken) => {
                self.change_turn();
                Ok(
                    match taken {
                        Some(piece) => match piece.kind() {
                            PieceKind::King => TurnOutcome::Win(mover),
                            _ => TurnOutcome::Taken(piece),
                        },
                        None => TurnOutcome::Continue,
                    },
                )
            },
            Err(e) => Err(e),
        }
    }

    /// Decides whether the player to move may make this move: the rule of
    /// each kind of piece, on the board as it stands. What stands on the start
    /// square is not looked at.
    fn is_valid_path(&self, mv: &Move) -> (valid: bool)
        ensures
            valid == self.allows(*mv),
    {
        let start = mv.start();
        let end = mv.end();
        if start == end {
            // a move has to leave its square
            return false;
        }
        // no piece may land on a piece of its own side

        let end_has_friendly_piece = match self.board.piece(end) {
            Some(piece) => piece.color() == self.current_player,
            None => false,
        };
        if end_has_friendly_piece {
            return false;
        }
        match mv.piece() {
            PieceKind::Rook => {
                self.board.path_is_free(start, end) && (path_is_horizontal(start, end)
                    || path_is_vertical(start, end))
            },
            PieceKind::Bishop => {
                self.board.path_is_free(start, end) && path_is_diagonal(start, end)
            },
            PieceKind::Queen => {
                self.board.path_is_free(start, end) && path_is_straight(start, end)
            },
            PieceKind::King => {
                // regardless of direction, the end square is one step away
                let files = horizontal_displacement(start, end);
                let ranks = vertical_displacement(start, end);
                let displacement = if ranks >= files {
                    ranks
                } else {
                    files
                };

                displacement == 1
            },
            PieceKind::Knight => {
                let h = horizontal_displacement(start, end);
                let v = vertical_displacement(start, end);

                (h == 2 && v == 1) || (h == 1 && v == 2)
            },
            PieceKind::Pawn => {
                let start_row = match self.current_player() {
                    Color::White => Board::WHITE_PAWN_START_ROW,
                    Color::Black => Board::BLACK_PAWN_START_ROW,
                };

                let v = vertical_displacement(start, end);
                let can_move_forward = path_is_vertical(start, end) && !self.board.has_piece(end)
                    && (v == 1 || (v == 2 && start.row == start_row));

                let can_move_diagonal = path_is_diagonal(start, end) && v == 1
                    && self.board.has_opposing_piece(end, self.current_player());

                let valid_direction = match self.current_player() {
                    Color::White => start.row < end.row,
                    Color::Black => start.row > end.row,
                };

                (can_move_forward || can_move_diagonal) && valid_direction
            },
        }
    }
}

} // verus!
