use questionable_chess::board::{Board, Piece, PieceKind};
use questionable_chess::err::MoveError;
use questionable_chess::game::Color;
use questionable_chess::mv::Square;

fn sq(name: &str) -> Square {
    let mut chars = name.chars();
    let file = chars.next().unwrap();
    let rank = chars.next().unwrap();
    Square::try_from((file, rank)).unwrap()
}

fn cells(board: &Board) -> Vec<Option<Piece>> {
    let mut all = Vec::new();
    for row in 0..8 {
        for col in 0..8 {
            all.push(board.piece(Square { row, col }));
        }
    }
    all
}

fn count(board: &Board, color: Color) -> usize {
    cells(board).iter().filter(|cell| matches!(cell, Some(piece) if piece.color() == color)).count()
}

#[test]
fn default_board_has_sixteen_pieces_per_color() {
    let board = Board::default();
    assert_eq!(count(&board, Color::White), 16);
    assert_eq!(count(&board, Color::Black), 16);
}

#[test]
fn default_board_back_ranks_are_canonical() {
    let board = Board::default();
    let layout = [
        PieceKind::Rook,
        PieceKind::Knight,
        PieceKind::Bishop,
        PieceKind::Queen,
        PieceKind::King,
        PieceKind::Bishop,
        PieceKind::Knight,
        PieceKind::Rook,
    ];
    for col in 0..8 {
        assert_eq!(board.piece(Square { row: 0, col }), Some(Piece::new(layout[col], Color::White)));
        assert_eq!(board.piece(Square { row: 7, col }), Some(Piece::new(layout[col], Color::Black)));
    }
}

#[test]
fn default_board_pawn_ranks_adjoin_back_ranks() {
    let board = Board::default();
    for col in 0..8 {
        assert_eq!(
            board.piece(Square { row: 1, col }),
            Some(Piece::new(PieceKind::Pawn, Color::White))
        );
        assert_eq!(
            board.piece(Square { row: 6, col }),
            Some(Piece::new(PieceKind::Pawn, Color::Black))
        );
    }
}

#[test]
fn default_board_middle_ranks_are_empty() {
    let board = Board::default();
    for row in 2..6 {
        for col in 0..8 {
            assert_eq!(board.piece(Square { row, col }), None);
            assert!(!board.has_piece(Square { row, col }));
        }
    }
}

#[test]
fn board_constants() {
    assert_eq!(Board::SIZE, 8);
    assert_eq!(Board::WHITE_PAWN_START_ROW, 1);
    assert_eq!(Board::BLACK_PAWN_START_ROW, 6);
}

#[test]
fn piece_accessors_return_the_parts() {
    let piece = Piece::new(PieceKind::Queen, Color::Black);
    assert_eq!(piece.kind(), PieceKind::Queen);
    assert_eq!(piece.color(), Color::Black);
    assert_eq!(piece, Piece::new(PieceKind::Queen, Color::Black));
    assert_ne!(piece, Piece::new(PieceKind::Queen, Color::White));
    assert_ne!(piece, Piece::new(PieceKind::King, Color::Black));
}

#[test]
fn has_piece_and_has_opposing_piece() {
    let board = Board::default();
    assert!(board.has_piece(sq("a1")));
    assert!(board.has_piece(sq("h8")));
    assert!(!board.has_piece(sq("e4")));
    // a1 holds a white rook: it opposes Black, not White
    assert!(board.has_opposing_piece(sq("a1"), Color::Black));
    assert!(!board.has_opposing_piece(sq("a1"), Color::White));
    assert!(board.has_opposing_piece(sq("d7"), Color::White));
    assert!(!board.has_opposing_piece(sq("d7"), Color::Black));
    // an empty square opposes nobody
    assert!(!board.has_opposing_piece(sq("e4"), Color::White));
    assert!(!board.has_opposing_piece(sq("e4"), Color::Black));
}

#[test]
fn move_piece_from_empty_square_is_piece_not_found() {
    let mut board = Board::default();
    let before = cells(&board);
    for kind in [PieceKind::Pawn, PieceKind::Rook, PieceKind::King] {
        for color in [Color::White, Color::Black] {
            let result = board.move_piece(kind, color, sq("e4"), sq("e5"));
            assert_eq!(result, Err(MoveError::PieceNotFound));
            assert_eq!(cells(&board), before);
        }
    }
    // asking twice changes nothing either
    assert_eq!(
        board.move_piece(PieceKind::Pawn, Color::White, sq("e4"), sq("e5")),
        Err(MoveError::PieceNotFound)
    );
    assert_eq!(cells(&board), before);
}

#[test]
fn move_piece_rejects_wrong_kind() {
    let mut board = Board::default();
    let before = cells(&board);
    let result = board.move_piece(PieceKind::Rook, Color::White, sq("e2"), sq("e4"));
    assert_eq!(result, Err(MoveError::WrongPieceKind));
    assert_eq!(cells(&board), before);
}

#[test]
fn move_piece_rejects_wrong_color() {
    let mut board = Board::default();
    let before = cells(&board);
    let result = board.move_piece(PieceKind::Pawn, Color::Black, sq("e2"), sq("e4"));
    assert_eq!(result, Err(MoveError::WrongPieceColor));
    assert_eq!(cells(&board), before);
}

#[test]
fn move_piece_checks_kind_before_color() {
    let mut board = Board::default();
    let result = board.move_piece(PieceKind::Queen, Color::Black, sq("e2"), sq("e4"));
    assert_eq!(result, Err(MoveError::WrongPieceKind));
}

#[test]
fn move_piece_to_empty_square_returns_none() {
    let mut board = Board::default();
    let result = board.move_piece(PieceKind::Pawn, Color::White, sq("e2"), sq("e4"));
    assert_eq!(result, Ok(None));
    assert_eq!(board.piece(sq("e2")), None);
    assert_eq!(board.piece(sq("e4")), Some(Piece::new(PieceKind::Pawn, Color::White)));
    assert_eq!(count(&board, Color::White), 16);
    assert_eq!(count(&board, Color::Black), 16);
}

#[test]
fn move_piece_returns_the_captured_piece() {
    let mut board = Board::default();
    // the board asks nothing of the path: a rook may jump to the far side
    let result = board.move_piece(PieceKind::Rook, Color::White, sq("a1"), sq("a8"));
    assert_eq!(result, Ok(Some(Piece::new(PieceKind::Rook, Color::Black))));
    assert_eq!(board.piece(sq("a1")), None);
    assert_eq!(board.piece(sq("a8")), Some(Piece::new(PieceKind::Rook, Color::White)));
    assert_eq!(count(&board, Color::White), 16);
    assert_eq!(count(&board, Color::Black), 15);
}

#[test]
fn move_piece_changes_only_the_two_squares() {
    let mut board = Board::default();
    let before = cells(&board);
    board.move_piece(PieceKind::Knight, Color::Black, sq("g8"), sq("f6")).unwrap();
    let after = cells(&board);
    for row in 0..8 {
        for col in 0..8 {
            let here = Square { row, col };
            if here != sq("g8") && here != sq("f6") {
                assert_eq!(after[row * 8 + col], before[row * 8 + col]);
            }
        }
    }
}

#[test]
fn move_piece_onto_its_own_square_keeps_the_board() {
    let mut board = Board::default();
    let before = cells(&board);
    let result = board.move_piece(PieceKind::King, Color::White, sq("e1"), sq("e1"));
    assert_eq!(result, Ok(None));
    assert_eq!(cells(&board), before);
}

#[test]
fn path_is_free_along_a_file() {
    let mut board = Board::default();
    // a2 to a7: a3..a6 are empty, the ends are not looked at
    assert!(board.path_is_free(sq("a2"), sq("a7")));
    assert!(board.path_is_free(sq("a7"), sq("a2")));
    // a1 to a8 passes over both pawns
    assert!(!board.path_is_free(sq("a1"), sq("a8")));
    assert!(!board.path_is_free(sq("a8"), sq("a1")));
    // a1 to a3 passes over the pawn on a2
    assert!(!board.path_is_free(sq("a1"), sq("a3")));
    board.move_piece(PieceKind::Pawn, Color::White, sq("a2"), sq("b3")).unwrap();
    assert!(board.path_is_free(sq("a1"), sq("a7")));
    assert!(!board.path_is_free(sq("a1"), sq("a8")));
}

#[test]
fn path_is_free_along_a_rank() {
    let mut board = Board::default();
    assert!(board.path_is_free(sq("a4"), sq("h4")));
    assert!(board.path_is_free(sq("h4"), sq("a4")));
    assert!(!board.path_is_free(sq("a1"), sq("h1")));
    assert!(!board.path_is_free(sq("h1"), sq("a1")));
    board.move_piece(PieceKind::Pawn, Color::White, sq("d2"), sq("d4")).unwrap();
    assert!(!board.path_is_free(sq("a4"), sq("h4")));
    assert!(!board.path_is_free(sq("h4"), sq("a4")));
    // the piece on an end square does not block
    assert!(board.path_is_free(sq("a4"), sq("d4")));
    assert!(board.path_is_free(sq("d4"), sq("h4")));
}

#[test]
fn path_is_free_along_each_diagonal_direction() {
    let board = Board::default();
    // clear diagonals in the middle, in all four directions
    assert!(board.path_is_free(sq("c3"), sq("f6")));
    assert!(board.path_is_free(sq("f6"), sq("c3")));
    assert!(board.path_is_free(sq("c6"), sq("f3")));
    assert!(board.path_is_free(sq("f3"), sq("c6")));
    // up and to the right over the pawn on d2
    assert!(!board.path_is_free(sq("c1"), sq("e3")));
    // up and to the left over the pawn on d2
    assert!(!board.path_is_free(sq("e1"), sq("c3")));
    // down and to the right over the pawn on d2
    assert!(!board.path_is_free(sq("c3"), sq("e1")));
    // down and to the left over the pawn on c2
    assert!(!board.path_is_free(sq("e4"), sq("b1")));
    assert!(!board.path_is_free(sq("e3"), sq("c1")));
}

#[test]
fn path_is_free_between_neighbours_and_on_one_square() {
    let board = Board::default();
    assert!(board.path_is_free(sq("a1"), sq("a2")));
    assert!(board.path_is_free(sq("a1"), sq("b1")));
    assert!(board.path_is_free(sq("a1"), sq("b2")));
    assert!(board.path_is_free(sq("d4"), sq("d4")));
    assert!(board.path_is_free(sq("a1"), sq("a1")));
}

#[test]
fn path_is_free_is_false_off_the_lines() {
    let board = Board::default();
    // knight jumps and other crooked pairs are never free
    assert!(!board.path_is_free(sq("b1"), sq("c3")));
    assert!(!board.path_is_free(sq("d4"), sq("e6")));
    assert!(!board.path_is_free(sq("d4"), sq("f5")));
    assert!(!board.path_is_free(sq("a3"), sq("h4")));
    assert!(!board.path_is_free(sq("c3"), sq("d6")));
}

#[test]
fn piece_kind_letters() {
    let table = [
        (PieceKind::Pawn, 'P'),
        (PieceKind::Rook, 'R'),
        (PieceKind::Knight, 'N'),
        (PieceKind::Bishop, 'B'),
        (PieceKind::Queen, 'Q'),
        (PieceKind::King, 'K'),
    ];
    for (kind, letter) in table {
        assert_eq!(char::from(kind), letter);
        let back: char = kind.into();
        assert_eq!(back, letter);
        assert_eq!(PieceKind::try_from(letter), Ok(kind));
        assert_eq!(PieceKind::try_from(char::from(kind)), Ok(kind));
    }
}

#[test]
fn piece_kind_rejects_other_letters() {
    for letter in ['X', 'p', 'k', 'n', ' ', '1', 'a', 'é'] {
        assert_eq!(PieceKind::try_from(letter), Err(()));
    }
}

fn walk_is_free(board: &Board, start: Square, end: Square) -> bool {
    let dr = end.row as i32 - start.row as i32;
    let dc = end.col as i32 - start.col as i32;
    if !(dr == 0 || dc == 0 || dr.abs() == dc.abs()) {
        return false;
    }
    let steps = dr.abs().max(dc.abs());
    for k in 1..steps {
        let row = (start.row as i32 + k * dr.signum()) as usize;
        let col = (start.col as i32 + k * dc.signum()) as usize;
        if board.piece(Square { row, col }).is_some() {
            return false;
        }
    }
    true
}

fn assert_paths_agree_with_a_walk(board: &Board) {
    for a in 0..64 {
        for b in 0..64 {
            let start = Square { row: a / 8, col: a % 8 };
            let end = Square { row: b / 8, col: b % 8 };
            assert_eq!(
                board.path_is_free(start, end),
                walk_is_free(board, start, end),
                "{:?} {:?}",
                start,
                end
            );
        }
    }
}

#[test]
fn path_is_free_for_every_pair_of_squares() {
    let mut board = Board::default();
    assert_paths_agree_with_a_walk(&board);
    board.move_piece(PieceKind::Pawn, Color::White, sq("e2"), sq("e4")).unwrap();
    board.move_piece(PieceKind::Knight, Color::Black, sq("g8"), sq("f5")).unwrap();
    board.move_piece(PieceKind::Queen, Color::White, sq("d1"), sq("c5")).unwrap();
    board.move_piece(PieceKind::Rook, Color::Black, sq("a8"), sq("d4")).unwrap();
    assert_paths_agree_with_a_walk(&board);
}

#[test]
fn path_is_free_reads_the_same_both_ways() {
    let mut board = Board::default();
    board.move_piece(PieceKind::Bishop, Color::White, sq("c1"), sq("d5")).unwrap();
    for a in 0..64 {
        for b in 0..64 {
            let start = Square { row: a / 8, col: a % 8 };
            let end = Square { row: b / 8, col: b % 8 };
            assert_eq!(board.path_is_free(start, end), board.path_is_free(end, start));
        }
    }
}
