use chess::board::{Board, BoardError, Piece, PieceColor, PieceName, Tile};
use chess::board::starting_piece_at;

#[test]
fn pieces_recognized() {
    assert_eq!(
        Piece::create(PieceName::Bishop, PieceColor::White).color,
        PieceColor::White
    );
}

#[test]
fn initial_layout() {
    let b = Board::new();
    assert_eq!(b.piece_at(0), Piece::create(PieceName::Rook, PieceColor::White));
    assert_eq!(b.piece_at(4), Piece::create(PieceName::King, PieceColor::White));
    assert_eq!(b.piece_at(60), Piece::create(PieceName::King, PieceColor::Black));
    assert_eq!(b.piece_at(63), Piece::create(PieceName::Rook, PieceColor::Black));
    for i in 16..48 {
        assert_eq!(b.piece_at(i).name, PieceName::Empty);
    }
    assert_eq!(b.to_move(), PieceColor::White);
}

#[test]
fn initial_layout_full() {
    let b = Board::new();
    let white_back = [
        PieceName::Rook,
        PieceName::Knight,
        PieceName::Bishop,
        PieceName::Queen,
        PieceName::King,
        PieceName::Bishop,
        PieceName::Knight,
        PieceName::Rook,
    ];
    for file in 0..8 {
        assert_eq!(b.piece_at(file), Piece::create(white_back[file], PieceColor::White));
        assert_eq!(b.piece_at(8 + file), Piece::create(PieceName::Pawn, PieceColor::White));
        assert_eq!(b.piece_at(48 + file), Piece::create(PieceName::Pawn, PieceColor::Black));
        assert_eq!(b.piece_at(56 + file), Piece::create(white_back[file], PieceColor::Black));
    }
    for i in 0..64 {
        assert_eq!(b.piece_at(i), starting_piece_at(i));
    }
}

#[test]
fn turn_alternation() {
    let mut b = Board::new();
    assert_eq!(b.to_move(), PieceColor::White);
    assert_eq!(b.move_piece(8, 16), Ok(()));
    assert_eq!(b.to_move(), PieceColor::Black);
    assert_eq!(b.move_piece(48, 40), Ok(()));
    assert_eq!(b.to_move(), PieceColor::White);
    assert_eq!(b.move_piece(1, 18), Ok(()));
    assert_eq!(b.to_move(), PieceColor::Black);
}

#[test]
fn relocation_correctness() {
    let mut b = Board::new();
    let knight = b.piece_at(1);
    assert_eq!(b.move_piece(1, 18), Ok(()));
    assert_eq!(b.piece_at(18), knight);
    assert_eq!(b.piece_at(1).name, PieceName::Empty);
    let fresh = Board::new();
    for i in 0..64 {
        if i != 1 && i != 18 {
            assert_eq!(b.piece_at(i), fresh.piece_at(i));
        }
    }
}

#[test]
fn opponent_involution() {
    assert_eq!(PieceColor::White.opponent().opponent(), PieceColor::White);
    assert_eq!(PieceColor::Black.opponent().opponent(), PieceColor::Black);
    assert_eq!(PieceColor::White.opponent(), PieceColor::Black);
    assert_eq!(PieceColor::Black.opponent(), PieceColor::White);
}

#[test]
fn piece_equality() {
    assert_eq!(
        Piece::create(PieceName::Queen, PieceColor::Black),
        Piece::create(PieceName::Queen, PieceColor::Black)
    );
    assert_ne!(
        Piece::create(PieceName::Queen, PieceColor::Black),
        Piece::create(PieceName::Queen, PieceColor::White)
    );
    assert_ne!(
        Piece::create(PieceName::Queen, PieceColor::Black),
        Piece::create(PieceName::King, PieceColor::Black)
    );
}

#[test]
fn pawn_advance() {
    let mut b = Board::new();
    assert_eq!(b.move_piece(8, 16), Ok(()));
    assert_eq!(b.piece_at(16), Piece::create(PieceName::Pawn, PieceColor::White));
    assert_eq!(b.piece_at(8).name, PieceName::Empty);
    assert_eq!(b.to_move(), PieceColor::Black);
}

#[test]
fn same_square_move() {
    let mut b = Board::new();
    assert_eq!(b.move_piece(63, 63), Ok(()));
    assert_eq!(b.piece_at(63), Piece::create(PieceName::Rook, PieceColor::Black));
    assert_eq!(b.to_move(), PieceColor::Black);
}

#[test]
fn invalid_square_rejected() {
    let mut b = Board::new();
    assert_eq!(b.move_piece(64, 0), Err(BoardError::InvalidSquare));
    assert_eq!(b.move_piece(0, 255), Err(BoardError::InvalidSquare));
    assert_eq!(b.move_piece(200, 200), Err(BoardError::InvalidSquare));
    assert_eq!(b.to_move(), PieceColor::White);
    let fresh = Board::new();
    for i in 0..64 {
        assert_eq!(b.piece_at(i), fresh.piece_at(i));
    }
}

#[test]
fn tile_holds_its_piece() {
    let p = Piece::create(PieceName::Knight, PieceColor::Black);
    assert_eq!(Tile::new(p).occupant(), p);
}

#[test]
fn simple_char_letters() {
    assert_eq!(Piece::create(PieceName::Bishop, PieceColor::White).simple_char(), "B");
    assert_eq!(Piece::create(PieceName::Pawn, PieceColor::Black).simple_char(), "p");
    assert_eq!(Piece::create(PieceName::Queen, PieceColor::Black).simple_char(), "q");
    assert_eq!(Piece::create(PieceName::King, PieceColor::White).simple_char(), "K");
    assert_eq!(Piece::create(PieceName::Rook, PieceColor::White).simple_char(), "r");
    assert_eq!(Piece::create(PieceName::Rook, PieceColor::Black).simple_char(), "r");
    assert_eq!(Piece::create(PieceName::Empty, PieceColor::White).simple_char(), " ");
}
