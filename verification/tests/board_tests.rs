use chess_lib::ChessBoard;
use chess_lib::ChessPiece;
use chess_lib::Color;

#[test]
fn board_creation_test() {
    let correct_board = [
        [
            Some(ChessPiece::Rook(Color::Black)),
            Some(ChessPiece::Knight(Color::Black)),
            Some(ChessPiece::Bishop(Color::Black)),
            Some(ChessPiece::Queen(Color::Black)),
            Some(ChessPiece::King(Color::Black)),
            Some(ChessPiece::Bishop(Color::Black)),
            Some(ChessPiece::Knight(Color::Black)),
            Some(ChessPiece::Rook(Color::Black)),
        ],
        [
            Some(ChessPiece::Pawn(Color::Black)),
            Some(ChessPiece::Pawn(Color::Black)),
            Some(ChessPiece::Pawn(Color::Black)),
            Some(ChessPiece::Pawn(Color::Black)),
            Some(ChessPiece::Pawn(Color::Black)),
            Some(ChessPiece::Pawn(Color::Black)),
            Some(ChessPiece::Pawn(Color::Black)),
            Some(ChessPiece::Pawn(Color::Black)),
        ],
        [None, None, None, None, None, None, None, None],
        [None, None, None, None, None, None, None, None],
        [None, None, None, None, None, None, None, None],
        [None, None, None, None, None, None, None, None],
        [
            Some(ChessPiece::Pawn(Color::White)),
            Some(ChessPiece::Pawn(Color::White)),
            Some(ChessPiece::Pawn(Color::White)),
            Some(ChessPiece::Pawn(Color::White)),
            Some(ChessPiece::Pawn(Color::White)),
            Some(ChessPiece::Pawn(Color::White)),
            Some(ChessPiece::Pawn(Color::White)),
            Some(ChessPiece::Pawn(Color::White)),
        ],
        [
            Some(ChessPiece::Rook(Color::White)),
            Some(ChessPiece::Knight(Color::White)),
            Some(ChessPiece::Bishop(Color::White)),
            Some(ChessPiece::Queen(Color::White)),
            Some(ChessPiece::King(Color::White)),
            Some(ChessPiece::Bishop(Color::White)),
            Some(ChessPiece::Knight(Color::White)),
            Some(ChessPiece::Rook(Color::White)),
        ],
    ];
    let test_board: ChessBoard = ChessBoard::create();
    for i in 0..8 {
        for j in 0..8 {
            let correct_state = match &correct_board[i][j] {
                Some(x) => x.to_string(),
                None => ".",
            };
            let test_state = match &test_board.board[i][j] {
                Some(x) => x.to_string(),
                None => ".",
            };
            assert_eq!(test_state, correct_state)
        }
    }
}

#[test]
fn set_piece_test() {
    let mut board = ChessBoard::create();
    board.set_piece((0, 6), (0, 4));
    let coord = board
        .select_piece((0, 4), &board.faction_decider())
        .unwrap();
    let correct_coord = vec![(0, 3)];
    for i in 0..correct_coord.len() {
        assert_eq!(coord[i], correct_coord[i]);
    }
}

#[test]
fn update_king_position_test() {
    let mut board = ChessBoard::create();
    board.set_piece((4, 7), (4, 6));
    assert_eq!(board.white_king_pos, (4, 6));
    board.set_piece(board.black_king_pos, (5, 4));
    assert_eq!(board.black_king_pos, (5, 4));
}
