//! The core board model: pieces, tiles, the 8x8 grid with its side-to-move
//! flag, and the relocation operation.

use vstd::prelude::*;

verus! {

/// The two sides of the game.
#[derive(Copy, Clone, PartialEq, Eq, Structural, Debug)]
pub enum PieceColor {
    Black,
    White,
}

/// The kind of a piece. `Empty` is a sentinel meaning "no piece": a square
/// always holds a `Piece` value, and emptiness is represented by this kind
/// (paired with an arbitrary color that carries no meaning).
#[derive(Copy, Clone, PartialEq, Eq, Structural, Debug)]
pub enum PieceName {
    Pawn,
    Knight,
    Bishop,
    Rook,
    Queen,
    King,
    Empty,
}

/// An immutable (color, kind) pair describing the occupant of a square.
/// Two pieces are equal exactly when both fields are equal.
#[derive(Copy, Clone, PartialEq, Eq, Structural, Debug)]
pub struct Piece {
    pub color: PieceColor,
    pub name: PieceName,
}

/// The color whose turn comes after `c`.
pub open spec fn opponent_of(c: PieceColor) -> PieceColor {
    match c {
        PieceColor::White => PieceColor::Black,
        PieceColor::Black => PieceColor::White,
    }
}

/// The sentinel value stored in a square that holds no piece.
pub open spec fn empty_piece() -> Piece {
    Piece { color: PieceColor::White, name: PieceName::Empty }
}

impl PieceColor {
    /// The opposing color.
    pub fn opponent(&self) -> (r: PieceColor)
        ensures
            r == opponent_of(*self),
    {
        match self {
            PieceColor::White => PieceColor::Black,
            PieceColor::Black => PieceColor::White,
        }
    }
}

/// Flipping to the opponent twice returns the original color.
pub proof fn lemma_opponent_involution(c: PieceColor)
    ensures
        opponent_of(opponent_of(c)) == c,
{
}

/// Piece equality is structural: two pieces are equal exactly when their
/// colors and kinds agree.
pub proof fn lemma_piece_equality(a: Piece, b: Piece)
    ensures
        (a == b) <==> (a.color == b.color && a.name == b.name),
{
}

/// The single-character letter for a piece: lower case for Black, upper case
/// for White (except the rook, which renders as `r` for both sides), and a
/// space for the empty sentinel.
pub open spec fn simple_char_spec(p: Piece) -> Seq<char> {
    match (p.color, p.name) {
        (PieceColor::Black, PieceName::Pawn) => "p"@,
        (PieceColor::Black, PieceName::Knight) => "n"@,
        (PieceColor::Black, PieceName::Bishop) => "b"@,
        (PieceColor::Black, PieceName::Rook) => "r"@,
        (PieceColor::Black, PieceName::Queen) => "q"@,
        (PieceColor::Black, PieceName::King) => "k"@,
        (PieceColor::White, PieceName::Pawn) => "P"@,
        (PieceColor::White, PieceName::Knight) => "N"@,
        (PieceColor::White, PieceName::Bishop) => "B"@,
        (PieceColor::White, PieceName::Rook) => "r"@,
        (PieceColor::White, PieceName::Queen) => "Q"@,
        (PieceColor::White, PieceName::King) => "K"@,
        _ => " "@,
    }
}

impl Piece {
    /// Builds a piece from its kind and color. Total; no failure modes.
    pub fn create(name: PieceName, color: PieceColor) -> (r: Self)
        ensures
            r.name == name,
            r.color == color,
    {
        Self { name, color }
    }

    /// The one-letter rendering of this piece.
    pub fn simple_char(&self) -> (r: &'static str)
        ensures
            r@ == simple_char_spec(*self),
    {
        match (self.color, self.name) {
            (PieceColor::Black, PieceName::Pawn) => "p",
            (PieceColor::Black, PieceName::Knight) => "n",
            (PieceColor::Black, PieceName::Bishop) => "b",
            (PieceColor::Black, PieceName::Rook) => "r",
            (PieceColor::Black, PieceName::Queen) => "q",
            (PieceColor::Black, PieceName::King) => "k",
            (PieceColor::White, PieceName::Pawn) => "P",
            (PieceColor::White, PieceName::Knight) => "N",
            (PieceColor::White, PieceName::Bishop) => "B",
            (PieceColor::White, PieceName::Rook) => "r",
            (PieceColor::White, PieceName::Queen) => "Q",
            (PieceColor::White, PieceName::King) => "K",
            _ => " ",
        }
    }
}

/// A single grid cell, holding exactly one `Piece` value (never absent:
/// emptiness is the `Empty` sentinel kind).
#[derive(Copy, Clone, PartialEq, Eq, Structural, Debug)]
pub struct Tile {
    occupant: Piece,
}

impl View for Tile {
    type V = Piece;

    closed spec fn view(&self) -> Piece {
        self.occupant
    }
}

impl Tile {
    /// Wraps a piece in a tile.
    pub fn new(occupant: Piece) -> (t: Tile)
        ensures
            t@ == occupant,
    {
        Tile { occupant }
    }

    /// The piece held by this tile.
    pub fn occupant(&self) -> (p: Piece)
        ensures
            p == self@,
    {
        self.occupant
    }
}

/// An error reported by the board.
#[derive(Copy, Clone, PartialEq, Eq, Structural, Debug)]
pub enum BoardError {
    /// A square index outside `[0, 64)` was supplied.
    InvalidSquare,
}

/// The mathematical value of a board: the 64 squares in row-major order
/// (square `i` is row `i / 8`, column `i % 8`) and the side to move.
#[verifier::ext_equal]
pub struct BoardView {
    pub squares: Seq<Piece>,
    pub to_move: PieceColor,
}

/// The piece of the back rank of either side at column `file`.
pub open spec fn back_rank_kind(file: int) -> PieceName {
    if file == 0 || file == 7 {
        PieceName::Rook
    } else if file == 1 || file == 6 {
        PieceName::Knight
    } else if file == 2 || file == 5 {
        PieceName::Bishop
    } else if file == 3 {
        PieceName::Queen
    } else {
        PieceName::King
    }
}

/// The occupant of square `i` in the standard starting position: White's
/// back rank on row 0 and pawns on row 1, Black's pawns on row 6 and back
/// rank on row 7, every other square empty.
pub open spec fn starting_piece(i: int) -> Piece {
    let rank = i / 8;
    let file = i % 8;
    if rank == 0 {
        Piece { color: PieceColor::White, name: back_rank_kind(file) }
    } else if rank == 1 {
        Piece { color: PieceColor::White, name: PieceName::Pawn }
    } else if rank == 6 {
        Piece { color: PieceColor::Black, name: PieceName::Pawn }
    } else if rank == 7 {
        Piece { color: PieceColor::Black, name: back_rank_kind(file) }
    } else {
        empty_piece()
    }
}

/// The value of a freshly constructed board: the starting position with
/// White to move.
pub open spec fn initial_board() -> BoardView {
    BoardView { squares: Seq::new(64, |i: int| starting_piece(i)), to_move: PieceColor::White }
}

/// The effect of one relocation on a board value: the occupant of `from`
/// moves to `to` (overwriting whatever was there), `from` becomes empty
/// unless the two squares coincide, and the side to move flips.
pub open spec fn move_spec(v: BoardView, from: int, to: int) -> BoardView
    recommends
        0 <= from < 64,
        0 <= to < 64,
{
    BoardView {
        squares: v.squares.update(from, empty_piece()).update(to, v.squares[from]),
        to_move: opponent_of(v.to_move),
    }
}

/// The board value after a sequence of relocations, applied first to last.
pub open spec fn apply_moves(v: BoardView, moves: Seq<(int, int)>) -> BoardView
    decreases moves.len(),
{
    if moves.len() == 0 {
        v
    } else {
        apply_moves(move_spec(v, moves[0].0, moves[0].1), moves.drop_first())
    }
}

proof fn lemma_to_move_after(v: BoardView, moves: Seq<(int, int)>)
    ensures
        apply_moves(v, moves).to_move == (if moves.len() % 2 == 0 {
            v.to_move
        } else {
            opponent_of(v.to_move)
        }),
    decreases moves.len(),
{
    if moves.len() > 0 {
        lemma_to_move_after(move_spec(v, moves[0].0, moves[0].1), moves.drop_first());
    }
}

/// Turn alternation: after any sequence of relocations applied to a fresh
/// board, the side to move is White exactly when the number of relocations
/// is even.
pub proof fn lemma_turn_alternation(moves: Seq<(int, int)>)
    ensures
        apply_moves(initial_board(), moves).to_move == (if moves.len() % 2 == 0 {
            PieceColor::White
        } else {
            PieceColor::Black
        }),
{
    lemma_to_move_after(initial_board(), moves);
}

/// The 8x8 grid of tiles in row-major order, with the side-to-move flag.
pub struct Board {
    board: [Tile; 64],
    to_move: PieceColor,
}

impl View for Board {
    type V = BoardView;

    closed spec fn view(&self) -> BoardView {
        BoardView {
            squares: Seq::new(64, |i: int| self.board@[i]@),
            to_move: self.to_move,
        }
    }
}

/// The back-rank piece kind at column `file`.
pub fn back_rank_kind_at(file: usize) -> (k: PieceName)
    requires
        file < 8,
    ensures
        k == back_rank_kind(file as int),
{
    if file == 0 || file == 7 {
        PieceName::Rook
    } else if file == 1 || file == 6 {
        PieceName::Knight
    } else if file == 2 || file == 5 {
        PieceName::Bishop
    } else if file == 3 {
        PieceName::Queen
    } else {
        PieceName::King
    }
}

/// The occupant of square `i` in the standard starting position.
pub fn starting_piece_at(i: usize) -> (p: Piece)
    requires
        i < 64,
    ensures
        p == starting_piece(i as int),
{
    let rank = i / 8;
    let file = i % 8;
    if rank == 0 {
        Piece::create(back_rank_kind_at(file), PieceColor::White)
    } else if rank == 1 {
        Piece::create(PieceName::Pawn, PieceColor::White)
    } else if rank == 6 {
        Piece::create(PieceName::Pawn, PieceColor::Black)
    } else if rank == 7 {
        Piece::create(back_rank_kind_at(file), PieceColor::Black)
    } else {
        Piece::create(PieceName::Empty, PieceColor::White)
    }
}

impl Board {
    /// Builds a board holding the standard starting position, with White to
    /// move. Total; no failure modes.
    pub fn new() -> (b: Board)
        ensures
            b@ == initial_board(),
            b@.to_move == PieceColor::White,
            forall|i: int| 0 <= i < 64 ==> b@.squares[i] == #[trigger] starting_piece(i),
    {
        let empty_tile = Tile::new(Piece::create(PieceName::Empty, PieceColor::White));
        let mut board: [Tile; 64] = [empty_tile; 64];
        let mut i: usize = 0;
        while i < 64
            invariant
                i <= 64,
                forall|j: int| 0 <= j < i ==> board@[j]@ == #[trigger] starting_piece(j),
            decreases 64 - i,
        {
            board[i] = Tile::new(starting_piece_at(i));
            i += 1;
        }
        let b = Board { board, to_move: PieceColor::White };
        proof {
            assert(b@.squares =~= initial_board().squares);
            assert(b@ =~= initial_board());
        }
        b
    }

    /// The piece on square `idx`.
    pub fn piece_at(&self, idx: usize) -> (p: Piece)
        requires
            idx < 64,
        ensures
            p == self@.squares[idx as int],
    {
        self.board[idx].occupant()
    }

    /// The side whose turn is next.
    pub fn to_move(&self) -> (c: PieceColor)
        ensures
            c == self@.to_move,
    {
        self.to_move
    }

    /// Relocates the occupant of square `from` to square `to`, unchecked for
    /// legality: the occupant of `to` is overwritten, `from` is left empty
    /// (unless `from == to`, in which case the occupant stays put), and the
    /// side to move flips. Indices outside `[0, 64)` are rejected with
    /// `InvalidSquare` and the board is left untouched.
    pub fn move_piece(&mut self, from: u8, to: u8) -> (r: Result<(), BoardError>)
        ensures
            from < 64 && to < 64 ==> r == Ok::<(), BoardError>(()),
            from < 64 && to < 64 ==> final(self)@ == move_spec(old(self)@, from as int, to as int),
            from < 64 && to < 64 ==> final(self)@.squares[to as int] == old(
                self,
            )@.squares[from as int],
            from < 64 && to < 64 && from != to ==> final(self)@.squares[from as int]
                == empty_piece(),
            from < 64 && to < 64 ==> forall|i: int|
                0 <= i < 64 && i != from && i != to ==> final(self)@.squares[i] == #[trigger] old(
                    self,
                )@.squares[i],
            from < 64 && to < 64 ==> final(self)@.to_move == opponent_of(old(self)@.to_move),
            !(from < 64 && to < 64) ==> r == Err::<(), BoardError>(BoardError::InvalidSquare)
                && final(self)@ == old(self)@,
    {
        if from >= 64 || to >= 64 {
            return Err(BoardError::InvalidSquare);
        }
        let ghost pre = *self;
        let from_idx = from as usize;
        let to_idx = to as usize;
        let moving = self.board[from_idx];
        self.board[from_idx] = Tile::new(Piece::create(PieceName::Empty, PieceColor::White));
        self.board[to_idx] = moving;
        self.to_move = self.to_move.opponent();
        proof {
            assert(self@.squares =~= move_spec(pre@, from as int, to as int).squares);
            assert(self@ =~= move_spec(pre@, from as int, to as int));
        }
        Ok(())
    }
}

} // verus!
