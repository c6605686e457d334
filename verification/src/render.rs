//! Text rendering of a board: a fixed glyph for every (color, kind) pair,
//! and an 8-line picture of the grid, top row (row 7) first.

use vstd::prelude::*;
use crate::board::{Board, Piece, PieceColor, PieceName};

verus! {

/// The display glyph for a piece: chess symbols (Black drawn with the
/// light-outline symbols and White with the filled ones), and a dot for the
/// empty sentinel.
pub open spec fn glyph_spec(p: Piece) -> Seq<char> {
    match (p.color, p.name) {
        (PieceColor::Black, PieceName::Pawn) => "♙"@,
        (PieceColor::Black, PieceName::Knight) => "♘"@,
        (PieceColor::Black, PieceName::Bishop) => "♗"@,
        (PieceColor::Black, PieceName::Rook) => "♖"@,
        (PieceColor::Black, PieceName::Queen) => "♕"@,
        (PieceColor::Black, PieceName::King) => "♔"@,
        (PieceColor::White, PieceName::Pawn) => "♟︎"@,
        (PieceColor::White, PieceName::Knight) => "♞"@,
        (PieceColor::White, PieceName::Bishop) => "♝"@,
        (PieceColor::White, PieceName::Rook) => "♜"@,
        (PieceColor::White, PieceName::Queen) => "♛"@,
        (PieceColor::White, PieceName::King) => "♚"@,
        _ => "."@,
    }
}

/// One rendered line: the glyphs of the squares of row `rank` from column
/// `file` rightwards, closed by a newline.
pub open spec fn row_chars(s: Seq<Piece>, rank: int, file: int) -> Seq<char>
    decreases 8 - file,
{
    if file >= 8 {
        "\n"@
    } else {
        glyph_spec(s[rank * 8 + file]) + row_chars(s, rank, file + 1)
    }
}

/// The rendered lines of rows `rank` down to 0.
pub open spec fn rows_chars(s: Seq<Piece>, rank: int) -> Seq<char>
    decreases rank + 1,
{
    if rank < 0 {
        Seq::empty()
    } else {
        row_chars(s, rank, 0) + rows_chars(s, rank - 1)
    }
}

/// The full rendering of a board's squares: rows 7 down to 0, one line each.
pub open spec fn render_spec(s: Seq<Piece>) -> Seq<char> {
    rows_chars(s, 7)
}

impl Piece {
    /// The display glyph of this piece.
    pub fn glyph(&self) -> (g: &'static str)
        ensures
            g@ == glyph_spec(*self),
    {
        match (self.color, self.name) {
            (PieceColor::Black, PieceName::Pawn) => "♙",
            (PieceColor::Black, PieceName::Knight) => "♘",
            (PieceColor::Black, PieceName::Bishop) => "♗",
            (PieceColor::Black, PieceName::Rook) => "♖",
            (PieceColor::Black, PieceName::Queen) => "♕",
            (PieceColor::Black, PieceName::King) => "♔",
            (PieceColor::White, PieceName::Pawn) => "♟︎",
            (PieceColor::White, PieceName::Knight) => "♞",
            (PieceColor::White, PieceName::Bishop) => "♝",
            (PieceColor::White, PieceName::Rook) => "♜",
            (PieceColor::White, PieceName::Queen) => "♛",
            (PieceColor::White, PieceName::King) => "♚",
            _ => ".",
        }
    }
}

impl Board {
    /// Renders the board as eight glyph lines, row 7 first, so that the
    /// starting position shows each color's back rank nearest its home edge.
    /// Read-only; never mutates the board.
    pub fn render(&self) -> (out: String)
        ensures
            out@ == render_spec(self@.squares),
    {
        let ghost s = self@.squares;
        let mut out = String::new();
        proof {
            assert(out@ + rows_chars(s, 7) =~= rows_chars(s, 7));
        }
        let mut r: usize = 0;
        while r < 8
            invariant
                r <= 8,
                s == self@.squares,
                out@ + rows_chars(s, 7 - r as int) == render_spec(s),
            decreases 8 - r,
        {
            let rank: usize = 7 - r;
            let ghost row_start = out@;
            let mut f: usize = 0;
            while f < 8
                invariant
                    f <= 8,
                    r < 8,
                    rank == 7 - r,
                    s == self@.squares,
                    row_start + rows_chars(s, 7 - r as int) == render_spec(s),
                    row_start + row_chars(s, rank as int, 0) =~= out@ + row_chars(
                        s,
                        rank as int,
                        f as int,
                    ),
                decreases 8 - f,
            {
                let idx: usize = rank * 8 + f;
                let p = self.piece_at(idx);
                let g = p.glyph();
                out.append(g);
                f += 1;
            }
            out.append("\n");
            proof {
                assert(out@ =~= row_start + row_chars(s, rank as int, 0));
                assert(rows_chars(s, rank as int) == row_chars(s, rank as int, 0) + rows_chars(
                    s,
                    rank as int - 1,
                ));
                assert(out@ + rows_chars(s, rank as int - 1) =~= row_start + rows_chars(
                    s,
                    rank as int,
                ));
            }
            r += 1;
        }
        proof {
            assert(out@ + rows_chars(s, -1) =~= out@);
        }
        out
    }
}

} // verus!
