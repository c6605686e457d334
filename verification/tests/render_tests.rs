use chess::board::{Board, Piece, PieceColor, PieceName};

#[test]
fn glyphs_by_piece() {
    assert_eq!(Piece::create(PieceName::Pawn, PieceColor::Black).glyph(), "♙");
    assert_eq!(Piece::create(PieceName::Rook, PieceColor::Black).glyph(), "♖");
    assert_eq!(Piece::create(PieceName::Pawn, PieceColor::White).glyph(), "♟︎");
    assert_eq!(Piece::create(PieceName::King, PieceColor::White).glyph(), "♚");
    assert_eq!(Piece::create(PieceName::Queen, PieceColor::Black).glyph(), "♕");
    assert_eq!(Piece::create(PieceName::Empty, PieceColor::Black).glyph(), ".");
    assert_eq!(Piece::create(PieceName::Empty, PieceColor::White).glyph(), ".");
}

#[test]
fn render_initial_position() {
    let b = Board::new();
    let expected = "♖♘♗♕♔♗♘♖\n♙♙♙♙♙♙♙♙\n........\n........\n........\n........\n♟︎♟︎♟︎♟︎♟︎♟︎♟︎♟︎\n♜♞♝♛♚♝♞♜\n";
    assert_eq!(b.render(), expected);
}

#[test]
fn render_after_pawn_advance() {
    let mut b = Board::new();
    assert_eq!(b.move_piece(8, 16), Ok(()));
    let expected = "♖♘♗♕♔♗♘♖\n♙♙♙♙♙♙♙♙\n........\n........\n........\n♟︎.......\n.♟︎♟︎♟︎♟︎♟︎♟︎♟︎\n♜♞♝♛♚♝♞♜\n";
    assert_eq!(b.render(), expected);
}
