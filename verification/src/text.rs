//! How pieces, boards and games are drawn as text for a terminal.
use vstd::prelude::*;
use vstd::string::StringExecFns;
use crate::board::{glyph, Board, Grid, Piece, PieceKind, Rank};
use crate::game::Game;
use crate::mv::Square;

verus! {

/// The character of a decimal digit.
pub open spec fn digit_char(digit: int) -> char {
    ('0' as int + digit) as char
}

/// A number written in decimal digits, without sign or leading zeros.
pub open spec fn decimal_text(n: nat) -> Seq<char>
    decreases n,
{
    if n < 10 {
        seq![digit_char(n as int)]
    } else {
        decimal_text(n / 10) + seq![digit_char((n % 10) as int)]
    }
}

/// The letter of a file: 'a' for column 0 up to 'h' for column 7.
pub open spec fn file_char(col: int) -> char {
    ('a' as int + col) as char
}

/// A piece as text: its letter, wrapped in the terminal sequences that
/// switch to the color of its owner and back.
pub open spec fn piece_text(piece: Piece) -> Seq<char> {
    seq!['\x1b', '['] + decimal_text(piece.color().escape_code() as nat) + seq![
        'm',
        glyph(piece.kind()),
        '\x1b',
        '[',
        '0',
        'm',
    ]
}

/// One cell as text: the piece or, for an empty cell, a dot; then two spaces.
pub open spec fn cell_text(cell: Option<Piece>) -> Seq<char> {
    match cell {
        Some(piece) => piece_text(piece) + seq![' ', ' '],
        None => seq!['.', ' ', ' '],
    }
}

/// The first `n` cells of a rank as text, from file a on.
pub open spec fn cells_text(rank: Rank, n: nat) -> Seq<char>
    decreases n,
{
    if n == 0 {
        Seq::empty()
    } else {
        cells_text(rank, (n - 1) as nat) + cell_text(rank[n - 1])
    }
}

/// One rank as a line of text: the number of the rank, three spaces, the
/// eight cells, and a line break.
pub open spec fn rank_text(grid: Grid, row: int) -> Seq<char> {
    decimal_text((row + 1) as nat) + seq![' ', ' ', ' '] + cells_text(grid[row], 8) + seq!['\n']
}

/// The `n` highest ranks as text, rank 8 first.
pub open spec fn ranks_text(grid: Grid, n: nat) -> Seq<char>
    decreases n,
{
    if n == 0 {
        Seq::empty()
    } else {
        ranks_text(grid, (n - 1) as nat) + rank_text(grid, 8 - n)
    }
}

/// The letters of the first `n` files, each followed by two spaces.
pub open spec fn files_text(n: nat) -> Seq<char>
    decreases n,
{
    if n == 0 {
        Seq::empty()
    } else {
        files_text((n - 1) as nat) + seq![file_char(n - 1), ' ', ' ']
    }
}

/// The whole board as text: the ranks from rank 8 down to rank 1, an empty
/// line, and below the cells the letters of the files.
pub open spec fn board_text(grid: Grid) -> Seq<char> {
    ranks_text(grid, 8) + seq!['\n', ' ', ' ', ' ', ' '] + files_text(8)
}

/// One decimal digit as text.
fn digit_str(digit: u8) -> (text: &'static str)
    requires
        digit < 10,
    ensures
        text@ == seq![digit_char(digit as int)],
{
    proof {
        reveal_strlit("0");
        reveal_strlit("1");
        reveal_strlit("2");
        reveal_strlit("3");
        reveal_strlit("4");
        reveal_strlit("5");
        reveal_strlit("6");
        reveal_strlit("7");
        reveal_strlit("8");
        reveal_strlit("9");
    }
    match digit {
        0 => "0",
        1 => "1",
        2 => "2",
        3 => "3",
        4 => "4",
        5 => "5",
        6 => "6",
        7 => "7",
        8 => "8",
        _ => "9",
    }
}

/// The letter of a file as text.
fn file_str(col: usize) -> (text: &'static str)
    requires
        col < 8,
    ensures
        text@ == seq![file_char(col as int)],
{
    proof {
        reveal_strlit("a");
        reveal_strlit("b");
        reveal_strlit("c");
        reveal_strlit("d");
        reveal_strlit("e");
        reveal_strlit("f");
        reveal_strlit("g");
        reveal_strlit("h");
    }
    match col {
        0 => "a",
        1 => "b",
        2 => "c",
        3 => "d",
        4 => "e",
        5 => "f",
        6 => "g",
        _ => "h",
    }
}

/// The letter of a kind of piece as text.
fn glyph_str(kind: PieceKind) -> (text: &'static str)
    ensures
        text@ == seq![glyph(kind)],
{
    proof {
        reveal_strlit("P");
        reveal_strlit("R");
        reveal_strlit("N");
        reveal_strlit("B");
        reveal_strlit("Q");
        reveal_strlit("K");
    }
    match kind {
        PieceKind::Pawn => "P",
        PieceKind::Rook => "R",
        PieceKind::Knight => "N",
        PieceKind::Bishop => "B",
        PieceKind::Queen => "Q",
        PieceKind::King => "K",
    }
}

/// Writes a number in decimal digits at the end of `out`.
fn push_decimal(out: &mut String, n: u8)
    ensures
        final(out)@ == old(out)@ + decimal_text(n as nat),
{
    proof {
        reveal_with_fuel(decimal_text, 3);
    }
    if n >= 100 {
        out.append(digit_str(n / 100));
    }
    if n >= 10 {
        out.append(digit_str((n / 10) % 10));
    }
    out.append(digit_str(n % 10));
}

impl Piece {
    /// Draws the piece as text.
    pub fn render(&self) -> (text: String)
        ensures
            text@ == piece_text(*self),
    {
        proof {
            reveal_strlit("\x1b[");
            reveal_strlit("m");
            reveal_strlit("\x1b[0m");
        }
        let mut text = String::from_str("\x1b[");
        push_decimal(&mut text, self.color().escape_code());
        text.append("m");
        text.append(glyph_str(self.kind()));
        text.append("\x1b[0m");
        text
    }
}

/// Writes one cell at the end of `out`.
fn push_cell(out: &mut String, cell: Option<Piece>)
    ensures
        final(out)@ == old(out)@ + cell_text(cell),
{
    proof {
        reveal_strlit("  ");
        reveal_strlit(".  ");
    }
    match cell {
        Some(piece) => {
            let drawn = piece.render();
            out.append(drawn.as_str());
            out.append("  ");
        },
        None => {
            out.append(".  ");
        },
    }
}

/// Writes the letters of the eight files at the end of `out`.
fn push_files(out: &mut String)
    ensures
        final(out)@ == old(out)@ + files_text(8),
{
    let mut col: usize = 0;
    while col < 8
        invariant
            col <= 8,
            out@ == old(out)@ + files_text(col as nat),
        decreases 8 - col,
    {
        proof {
            reveal_strlit("  ");
        }
        out.append(file_str(col));
        out.append("  ");
        col += 1;
    }
}

impl Board {
    /// Writes one rank as a line at the end of `out`.
    fn push_rank(&self, out: &mut String, row: usize)
        requires
            row < 8,
        ensures
            final(out)@ == old(out)@ + rank_text(self@, row as int),
    {
        proof {
            reveal_strlit("   ");
            reveal_strlit("\n");
        }
        push_decimal(out, (row + 1) as u8);
        out.append("   ");
        let ghost head = out@;
        let mut col: usize = 0;
        while col < 8
            invariant
                col <= 8,
                row < 8,
                out@ == head + cells_text(self@[row as int], col as nat),
            decreases 8 - col,
        {
            push_cell(out, self.piece(Square { row, col }));
            col += 1;
        }
        out.append("\n");
    }

    /// Draws the board as text.
    pub fn render(&self) -> (text: String)
        ensures
            text@ == board_text(self@),
    {
        let mut text = String::new();
        let mut done: usize = 0;
        while done < 8
            invariant
                done <= 8,
                text@ == ranks_text(self@, done as nat),
            decreases 8 - done,
        {
            self.push_rank(&mut text, 7 - done);
            done += 1;
        }
        proof {
            reveal_strlit("\n    ");
        }
        text.append("\n    ");
        push_files(&mut text);
        text
    }
}

impl Game {
    /// Draws the game as text: its board.
    pub fn render(&self) -> (text: String)
        ensures
            text@ == board_text(self.board()@),
    {
        self.board().render()
    }
}

} // verus!
