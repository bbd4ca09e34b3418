use chess_lib::ChessBoard;
use chess_lib::ChessPiece;
use chess_lib::Color;

fn empty_board(turn: u32) -> ChessBoard {
    ChessBoard {
        turn,
        board: [[None; 8]; 8],
        black_king_pos: (4, 0),
        white_king_pos: (4, 7),
        removed_black: Vec::new(),
        removed_white: Vec::new(),
    }
}

fn with_piece(board: &mut ChessBoard, x: usize, y: usize, piece: ChessPiece) {
    board.board[y][x] = Some(piece);
}

#[test]
fn initial_layout_and_turn() {
    let board = ChessBoard::create();
    assert_eq!(board.turn, 1);
    assert_eq!(board.white_king_pos, (4, 7));
    assert_eq!(board.black_king_pos, (4, 0));
    assert_eq!(board.removed_black.len(), 0);
    assert_eq!(board.removed_white.len(), 0);
    let back = ["Rook", "Knight", "Bishop", "Queen", "King", "Bishop", "Knight", "Rook"];
    for x in 0..8 {
        assert_eq!(board.board[0][x].as_ref().unwrap().to_string(), back[x]);
        assert_eq!(*board.board[0][x].as_ref().unwrap().get_color(), Color::Black);
        assert_eq!(board.board[1][x].as_ref().unwrap().to_string(), "Pawn");
        assert_eq!(*board.board[1][x].as_ref().unwrap().get_color(), Color::Black);
        assert_eq!(board.board[6][x].as_ref().unwrap().to_string(), "Pawn");
        assert_eq!(*board.board[6][x].as_ref().unwrap().get_color(), Color::White);
        assert_eq!(board.board[7][x].as_ref().unwrap().to_string(), back[x]);
        assert_eq!(*board.board[7][x].as_ref().unwrap().get_color(), Color::White);
        for y in 2..6 {
            assert!(board.board[y][x].is_none());
        }
    }
}

#[test]
fn turn_parity() {
    let mut board = empty_board(1);
    assert_eq!(board.faction_decider(), Color::White);
    board.increase_turn();
    assert_eq!(board.turn, 2);
    assert_eq!(board.faction_decider(), Color::Black);
    board.increase_turn();
    assert_eq!(board.faction_decider(), Color::White);
    board.increase_turn();
    assert_eq!(board.turn, 4);
    assert_eq!(board.faction_decider(), Color::Black);
}

#[test]
fn ownership_filtering() {
    let mut board = empty_board(1);
    with_piece(&mut board, 4, 3, ChessPiece::Rook(Color::White));
    assert!(board.select_piece((4, 3), &Color::Black).is_none());
    assert!(board.select_piece((4, 3), &Color::White).is_some());
}

#[test]
fn empty_square_gives_no_selection() {
    let board = empty_board(1);
    assert!(board.select_piece((3, 3), &Color::White).is_none());
    assert!(board.select_piece((3, 3), &Color::Black).is_none());
}

#[test]
fn out_of_bounds_square_gives_no_selection() {
    let board = ChessBoard::create();
    assert!(board.select_piece((8, 0), &Color::White).is_none());
    assert!(board.select_piece((0, 8), &Color::White).is_none());
    assert!(board.select_piece((usize::MAX, usize::MAX), &Color::White).is_none());
}

#[test]
fn rook_on_empty_board_sweeps_rank_and_file() {
    let mut board = empty_board(1);
    with_piece(&mut board, 4, 3, ChessPiece::Rook(Color::White));
    let moves = board.select_piece((4, 3), &Color::White).unwrap();
    let expected: Vec<(usize, usize)> = vec![
        (5, 3),
        (6, 3),
        (7, 3),
        (3, 3),
        (2, 3),
        (1, 3),
        (0, 3),
        (4, 4),
        (4, 5),
        (4, 6),
        (4, 7),
        (4, 2),
        (4, 1),
        (4, 0),
    ];
    assert_eq!(moves, expected);
}

#[test]
fn pawn_single_step_only_off_start_rank() {
    let mut board = empty_board(1);
    with_piece(&mut board, 3, 3, ChessPiece::Pawn(Color::White));
    let moves = board.select_piece((3, 3), &Color::White).unwrap();
    assert_eq!(moves, vec![(3, 2)]);
}

#[test]
fn pawn_double_step_from_start_rank() {
    let mut board = empty_board(1);
    with_piece(&mut board, 0, 6, ChessPiece::Pawn(Color::White));
    let moves = board.select_piece((0, 6), &Color::White).unwrap();
    assert_eq!(moves, vec![(0, 4), (0, 5)]);
}

#[test]
fn pawn_blocked_front_offers_no_forward_moves() {
    let mut board = empty_board(1);
    with_piece(&mut board, 2, 6, ChessPiece::Pawn(Color::White));
    with_piece(&mut board, 2, 5, ChessPiece::Pawn(Color::Black));
    let moves = board.select_piece((2, 6), &Color::White).unwrap();
    assert_eq!(moves, Vec::<(usize, usize)>::new());
}

#[test]
fn pawn_blocked_double_square_offers_single_step_only() {
    let mut board = empty_board(1);
    with_piece(&mut board, 2, 6, ChessPiece::Pawn(Color::White));
    with_piece(&mut board, 2, 4, ChessPiece::Knight(Color::Black));
    let moves = board.select_piece((2, 6), &Color::White).unwrap();
    assert_eq!(moves, vec![(2, 5)]);
}

#[test]
fn pawn_diagonals_are_captures_only() {
    let mut board = empty_board(1);
    with_piece(&mut board, 3, 4, ChessPiece::Pawn(Color::White));
    with_piece(&mut board, 2, 3, ChessPiece::Rook(Color::Black));
    with_piece(&mut board, 4, 3, ChessPiece::Rook(Color::White));
    let moves = board.select_piece((3, 4), &Color::White).unwrap();
    // Forward is open, the left diagonal holds an opponent, the right
    // diagonal holds a friendly piece and is not offered.
    assert_eq!(moves, vec![(3, 3), (2, 3)]);
}

#[test]
fn black_pawn_advances_toward_higher_ranks() {
    let mut board = empty_board(2);
    with_piece(&mut board, 5, 1, ChessPiece::Pawn(Color::Black));
    let moves = board.select_piece((5, 1), &Color::Black).unwrap();
    assert_eq!(moves, vec![(5, 3), (5, 2)]);
}

#[test]
fn sliding_ray_stops_at_first_occupant() {
    let mut board = empty_board(1);
    with_piece(&mut board, 0, 0, ChessPiece::Bishop(Color::White));
    with_piece(&mut board, 3, 3, ChessPiece::Pawn(Color::Black));
    let moves = board.select_piece((0, 0), &Color::White).unwrap();
    // Every empty square up to and including the opposing blocker.
    assert_eq!(moves, vec![(1, 1), (2, 2), (3, 3)]);

    let mut board = empty_board(1);
    with_piece(&mut board, 0, 0, ChessPiece::Bishop(Color::White));
    with_piece(&mut board, 3, 3, ChessPiece::Pawn(Color::White));
    let moves = board.select_piece((0, 0), &Color::White).unwrap();
    // Every empty square up to but excluding the friendly blocker.
    assert_eq!(moves, vec![(1, 1), (2, 2)]);
}

#[test]
fn knight_in_corner_has_two_moves() {
    let mut board = empty_board(1);
    with_piece(&mut board, 0, 0, ChessPiece::Knight(Color::White));
    let moves = board.select_piece((0, 0), &Color::White).unwrap();
    assert_eq!(moves, vec![(1, 2), (2, 1)]);
}

#[test]
fn king_in_corner_has_three_moves() {
    let mut board = empty_board(1);
    with_piece(&mut board, 7, 7, ChessPiece::King(Color::White));
    let moves = board.select_piece((7, 7), &Color::White).unwrap();
    assert_eq!(moves, vec![(6, 6), (7, 6), (6, 7)]);
}

#[test]
fn queen_is_rook_rays_then_bishop_rays() {
    let mut board = empty_board(1);
    with_piece(&mut board, 7, 0, ChessPiece::Queen(Color::Black));
    let moves = board.select_piece((7, 0), &Color::Black).unwrap();
    let expected: Vec<(usize, usize)> = vec![
        (6, 0),
        (5, 0),
        (4, 0),
        (3, 0),
        (2, 0),
        (1, 0),
        (0, 0),
        (7, 1),
        (7, 2),
        (7, 3),
        (7, 4),
        (7, 5),
        (7, 6),
        (7, 7),
        (6, 1),
        (5, 2),
        (4, 3),
        (3, 4),
        (2, 5),
        (1, 6),
        (0, 7),
    ];
    assert_eq!(moves, expected);
}

#[test]
fn capture_is_recorded_for_the_captured_side() {
    let mut board = empty_board(1);
    with_piece(&mut board, 1, 1, ChessPiece::Rook(Color::White));
    with_piece(&mut board, 1, 5, ChessPiece::Pawn(Color::Black));
    board.set_piece((1, 1), (1, 5));
    assert_eq!(board.removed_black.len(), 1);
    assert_eq!(board.removed_white.len(), 0);
    assert_eq!(board.removed_black[0].to_string(), "Pawn");
    assert_eq!(*board.removed_black[0].get_color(), Color::Black);
    assert!(board.board[1][1].is_none());
    assert_eq!(board.board[5][1].as_ref().unwrap().to_string(), "Rook");

    board.set_piece((1, 5), (1, 0));
    assert_eq!(board.removed_black.len(), 1);
    assert_eq!(board.removed_white.len(), 0);
}

#[test]
fn white_capture_is_recorded_in_the_white_list() {
    let mut board = empty_board(2);
    with_piece(&mut board, 3, 3, ChessPiece::Queen(Color::Black));
    with_piece(&mut board, 3, 6, ChessPiece::Knight(Color::White));
    board.set_piece((3, 3), (3, 6));
    assert_eq!(board.removed_white.len(), 1);
    assert_eq!(board.removed_black.len(), 0);
    assert_eq!(board.removed_white[0].to_string(), "Knight");
}

#[test]
fn set_piece_with_empty_source_changes_nothing() {
    let mut board = ChessBoard::create();
    board.set_piece((4, 4), (0, 0));
    assert_eq!(board.turn, 1);
    assert_eq!(board.removed_black.len(), 0);
    assert_eq!(board.removed_white.len(), 0);
    assert_eq!(board.board[0][0].as_ref().unwrap().to_string(), "Rook");
    assert!(board.board[4][4].is_none());
}

#[test]
fn king_tracking_follows_only_the_moved_king() {
    let mut board = empty_board(1);
    with_piece(&mut board, 4, 7, ChessPiece::King(Color::White));
    with_piece(&mut board, 4, 0, ChessPiece::King(Color::Black));
    with_piece(&mut board, 0, 3, ChessPiece::Rook(Color::White));
    board.set_piece((0, 3), (0, 5));
    assert_eq!(board.white_king_pos, (4, 7));
    assert_eq!(board.black_king_pos, (4, 0));
    board.set_piece((4, 7), (4, 6));
    assert_eq!(board.white_king_pos, (4, 6));
    assert_eq!(board.black_king_pos, (4, 0));
    board.set_piece((4, 0), (3, 1));
    assert_eq!(board.black_king_pos, (3, 1));
    assert_eq!(board.white_king_pos, (4, 6));
}
