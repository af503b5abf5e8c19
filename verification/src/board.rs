//! The board of a two-piece puzzle and the outcome of its position.
//!
//! A board holds at most one piece per square of the 8x8 grid and knows which
//! colour is to move. The outcome looks one ply ahead in each direction: can
//! the side to move capture, and could the other side capture back.

use crate::piece::{Color, Piece, PieceKind};
use vstd::prelude::*;

verus! {

/// The decided result of a position.
#[derive(Debug, Clone, Copy, PartialEq, Eq, Structural)]
pub enum Winner {
    White,
    Black,
    Draw,
}

/// Why a piece could not be placed.
#[derive(Debug, PartialEq, Eq, Structural)]
pub enum BoardError {
    InvalidPosition,
    PositionOccupied,
}

impl BoardError {
    /// The message of the error, as shown to a user.
    pub fn to_string(&self) -> (r: String)
        ensures
            r@ == match self {
                BoardError::InvalidPosition => "Invalid position"@,
                BoardError::PositionOccupied => "Position occupied"@,
            },
    {
        match self {
            BoardError::InvalidPosition => "Invalid position".to_owned(),
            BoardError::PositionOccupied => "Position occupied".to_owned(),
        }
    }
}

/// The colour that moves after `color`.
pub open spec fn opposite(color: Color) -> Color {
    match color {
        Color::White => Color::Black,
        Color::Black => Color::White,
    }
}

/// The outcome of a position, from whether the side to move can capture
/// (`mover_captures`), whether the other side could capture back
/// (`other_captures`), and the colour to move. `None` means that neither side
/// has a capture: the position is still pending.
pub open spec fn classify(mover_captures: bool, other_captures: bool, turn: Color) -> Option<
    Winner,
> {
    if mover_captures && other_captures {
        Some(Winner::Draw)
    } else if mover_captures {
        Some(winner_of(turn))
    } else if other_captures {
        Some(winner_of(opposite(turn)))
    } else {
        None
    }
}

/// The outcome in which `color` wins.
pub open spec fn winner_of(color: Color) -> Winner {
    match color {
        Color::White => Winner::White,
        Color::Black => Winner::Black,
    }
}

/// The outcome with the two colours exchanged.
pub open spec fn mirrored(outcome: Option<Winner>) -> Option<Winner> {
    match outcome {
        Some(Winner::White) => Some(Winner::Black),
        Some(Winner::Black) => Some(Winner::White),
        Some(Winner::Draw) => Some(Winner::Draw),
        None => None,
    }
}

/// The character that stands for an outcome.
pub open spec fn outcome_char(outcome: Option<Winner>) -> char {
    match outcome {
        Some(Winner::White) => 'B',
        Some(Winner::Black) => 'N',
        Some(Winner::Draw) => 'E',
        None => 'P',
    }
}

/// Whether `position` is a square of the 8x8 grid.
pub open spec fn on_grid(position: (usize, usize)) -> bool {
    position.0 < 8 && position.1 < 8
}

/// The place of a square in the order in which the board is searched: file
/// by file, and within a file by rank.
pub open spec fn scan_index(position: (usize, usize)) -> int {
    position.0 * 8 + position.1
}

/// What a board is, mathematically: the occupied squares with their pieces,
/// and the colour to move.
pub struct BoardView {
    pub pieces: Map<(usize, usize), Piece>,
    pub turn: Color,
}

impl BoardView {
    /// Every piece stands on a square of the grid and records that square as
    /// its own position.
    pub open spec fn wf(self) -> bool {
        forall|position: (usize, usize)| #[trigger]
            self.pieces.dom().contains(position) ==> on_grid(position)
                && self.pieces[position].position == position
    }

    /// Whether a piece of `color` stands on `position`.
    pub open spec fn holds(self, color: Color, position: (usize, usize)) -> bool {
        on_grid(position) && self.pieces.dom().contains(position) && self.pieces[position].color
            == color
    }

    /// Whether the board has a piece of `color`.
    pub open spec fn has_color(self, color: Color) -> bool {
        exists|position: (usize, usize)| self.holds(color, position)
    }

    /// Whether `position` holds the piece of `color` that a search of the
    /// board meets first.
    pub open spec fn is_first_of(self, color: Color, position: (usize, usize)) -> bool {
        &&& self.holds(color, position)
        &&& forall|other: (usize, usize)| #[trigger]
            self.holds(color, other) ==> scan_index(position) <= scan_index(other)
    }

    /// The square of the piece of `color` that a search of the board meets
    /// first. Meaningful where the board has a piece of that colour.
    pub open spec fn first_of(self, color: Color) -> (usize, usize) {
        choose|position: (usize, usize)| self.is_first_of(color, position)
    }

    /// The outcome of the board: the piece of the colour to move against the
    /// piece of the other colour. Meaningful where both colours are present.
    pub open spec fn outcome(self) -> Option<Winner> {
        let mover_at = self.first_of(self.turn);
        let other_at = self.first_of(opposite(self.turn));
        classify(
            self.pieces[mover_at].captures(other_at),
            self.pieces[other_at].captures(mover_at),
            self.turn,
        )
    }
}

/// At most one square holds the first piece of a colour.
pub proof fn lemma_first_of_unique(
    board: BoardView,
    color: Color,
    a: (usize, usize),
    b: (usize, usize),
)
    requires
        board.is_first_of(color, a),
        board.is_first_of(color, b),
    ensures
        a == b,
        board.first_of(color) == a,
{
    assert(board.holds(color, a));
    assert(board.holds(color, b));
    assert(scan_index(a) == scan_index(b));
    let c = board.first_of(color);
    assert(board.is_first_of(color, c));
    assert(board.holds(color, c));
    assert(scan_index(a) == scan_index(c));
}

/// Exchanging the colour to move, with the two capture answers held fixed,
/// exchanges a white win and a black win; a draw and a pending position stay
/// what they are.
pub proof fn lemma_classify_mirrors_with_turn(
    mover_captures: bool,
    other_captures: bool,
    turn: Color,
)
    ensures
        classify(mover_captures, other_captures, opposite(turn)) == mirrored(
            classify(mover_captures, other_captures, turn),
        ),
        classify(mover_captures, other_captures, turn) == Some(Winner::Draw) <==> mover_captures
            && other_captures,
        classify(mover_captures, other_captures, turn) is None <==> !mover_captures
            && !other_captures,
{
}

/// The winner is the colour whose piece captures, whoever is to move:
/// exchanging the roles of the two pieces together with the colour to move
/// leaves the outcome as it is.
pub proof fn lemma_classify_follows_the_capture(
    mover_captures: bool,
    other_captures: bool,
    turn: Color,
)
    ensures
        classify(other_captures, mover_captures, opposite(turn)) == classify(
            mover_captures,
            other_captures,
            turn,
        ),
{
}

/// Classifies a position of two pieces: `piece_to_move` belongs to the side
/// whose turn it is, `other_piece` to its opponent. Both capture in one move:
/// a draw. Only the side to move captures: it wins. Only the opponent could
/// capture back: the opponent wins. Neither: `None`, the position is pending.
pub fn resolve(piece_to_move: &Piece, other_piece: &Piece, turn: Color) -> (r: Option<Winner>)
    ensures
        r == classify(
            piece_to_move.captures(other_piece.position),
            other_piece.captures(piece_to_move.position),
            turn,
        ),
{
    let current_turn_has_capture = piece_to_move.can_capture(other_piece.position);
    let next_turn_has_capture = other_piece.can_capture(piece_to_move.position);
    match (current_turn_has_capture, next_turn_has_capture, turn) {
        (true, false, Color::White) => Some(Winner::White),
        (false, true, Color::White) => Some(Winner::Black),
        (true, false, Color::Black) => Some(Winner::Black),
        (false, true, Color::Black) => Some(Winner::White),
        (true, true, _) => Some(Winner::Draw),
        _ => None,
    }
}

/// The chess board: the 64 squares, file by file, each with the colour and
/// kind of the piece on it, and the colour to move.
#[derive(Debug)]
pub struct Board {
    squares: Vec<Option<(Color, PieceKind)>>,
    turn: Color,
}

/// The piece that stands on `position` where the square there holds `square`.
pub open spec fn piece_on(square: (Color, PieceKind), position: (usize, usize)) -> Piece {
    Piece { color: square.0, kind: square.1, position }
}

impl View for Board {
    type V = BoardView;

    closed spec fn view(&self) -> BoardView {
        BoardView {
            pieces: Map::new(
                |position: (usize, usize)|
                    on_grid(position) && self.squares[scan_index(position)] is Some,
                |position: (usize, usize)|
                    piece_on(self.squares[scan_index(position)]->0, position),
            ),
            turn: self.turn,
        }
    }
}

/// On every board each piece stands on a square of the grid and records that
/// square as its own position.
pub proof fn lemma_board_view_wf(board: Board)
    ensures
        board@.wf(),
{
}

impl PartialEq for Board {
    /// Two boards are equal when the same colour is to move and the same
    /// pieces stand on the same squares.
    fn eq(&self, other: &Self) -> (r: bool) {
        proof {
            use_type_invariant(self);
            use_type_invariant(other);
        }
        if self.turn != other.turn {
            return false;
        }
        let mut i: usize = 0;
        while i < 64
            invariant
                i <= 64,
                self.squares.len() == 64,
                other.squares.len() == 64,
                self.turn == other.turn,
                forall|j: int| 0 <= j < i ==> self.squares[j] == other.squares[j],
            decreases 64 - i,
        {
            let same = match (self.squares[i], other.squares[i]) {
                (Some((c1, k1)), Some((c2, k2))) => c1 == c2 && k1 == k2,
                (None, None) => true,
                _ => false,
            };
            if !same {
                proof {
                    let position = ((i / 8) as usize, (i % 8) as usize);
                    assert(scan_index(position) == i);
                    if self@.pieces == other@.pieces {
                        assert(self@.pieces.dom().contains(position) == other@.pieces.dom().contains(
                            position,
                        ));
                        assert(self@.pieces[position] == other@.pieces[position]);
                    }
                }
                return false;
            }
            i += 1;
        }
        proof {
            assert(self@.pieces =~= other@.pieces);
        }
        true
    }
}

impl vstd::std_specs::cmp::PartialEqSpecImpl for Board {
    open spec fn obeys_eq_spec() -> bool {
        true
    }

    open spec fn eq_spec(&self, other: &Self) -> bool {
        self@ == other@
    }
}

impl Board {
    /// A board always has its 64 squares.
    #[verifier::type_invariant]
    spec fn inv(self) -> bool {
        self.squares.len() == 64
    }

    /// Returns an empty board with white to move.
    pub fn default_board() -> (board: Self)
        ensures
            board@.pieces == Map::<(usize, usize), Piece>::empty(),
            board@.turn == Color::White,
    {
        let mut squares: Vec<Option<(Color, PieceKind)>> = Vec::new();
        let mut i: usize = 0;
        while i < 64
            invariant
                i <= 64,
                squares.len() == i,
                forall|j: int| 0 <= j < i ==> squares[j] is None,
            decreases 64 - i,
        {
            squares.push(None);
            i += 1;
        }
        let board = Board { squares, turn: Color::White };
        assert(board@.pieces =~= Map::<(usize, usize), Piece>::empty());
        board
    }

    /// Whether no piece stands on `position`. A square off the grid is empty.
    fn is_position_empty(&self, position: (usize, usize)) -> (r: bool)
        ensures
            r == !self@.pieces.dom().contains(position),
    {
        proof {
            use_type_invariant(self);
        }
        if position.0 < 8 && position.1 < 8 {
            self.squares[position.0 * 8 + position.1].is_none()
        } else {
            true
        }
    }

    /// Places `piece` on the square that it names as its position. A
    /// position off the grid is refused as invalid, a square that already
    /// holds a piece as occupied; a refusal leaves the board as it was.
    pub fn place_piece(&mut self, piece: Piece) -> (r: Result<(), BoardError>)
        ensures
            final(self)@.turn == old(self)@.turn,
            !on_grid(piece.position) ==> r == Err::<(), BoardError>(BoardError::InvalidPosition)
                && final(self)@ == old(self)@,
            on_grid(piece.position) && old(self)@.pieces.dom().contains(piece.position) ==> r
                == Err::<(), BoardError>(BoardError::PositionOccupied) && final(self)@ == old(
                self,
            )@,
            on_grid(piece.position) && !old(self)@.pieces.dom().contains(piece.position) ==> r
                == Ok::<(), BoardError>(()) && final(self)@.pieces == old(self)@.pieces.insert(
                piece.position,
                piece,
            ),
    {
        proof {
            use_type_invariant(&*self);
        }
        let position = piece.get_position();
        if position.0 > 7 || position.1 > 7 {
            Err(BoardError::InvalidPosition)
        } else if !self.is_position_empty(position) {
            Err(BoardError::PositionOccupied)
        } else {
            self.squares[position.0 * 8 + position.1] = Some((piece.color, piece.kind));
            proof {
                assert(self@.pieces =~= old(self)@.pieces.insert(piece.position, piece));
            }
            Ok(())
        }
    }

    /// Returns the piece on `position`, if there is one.
    pub fn piece_at(&self, position: (usize, usize)) -> (r: Option<Piece>)
        ensures
            r == if self@.pieces.dom().contains(position) {
                Some(self@.pieces[position])
            } else {
                None
            },
    {
        proof {
            use_type_invariant(self);
        }
        if position.0 < 8 && position.1 < 8 {
            match self.squares[position.0 * 8 + position.1] {
                Some((color, kind)) => Some(Piece { color, kind, position }),
                None => None,
            }
        } else {
            None
        }
    }

    /// Returns the colour to move.
    pub fn curr_turn(&self) -> (c: Color)
        ensures
            c == self@.turn,
    {
        self.turn
    }

    /// Returns the colour that moves next.
    fn get_next_turn(&self) -> (c: Color)
        ensures
            c == opposite(self@.turn),
    {
        if self.turn == Color::White {
            Color::Black
        } else {
            Color::White
        }
    }
}

impl Board {
    /// Returns the square of a piece of `color`, or `None` where the board has
    /// none. Of several such pieces it is the first that a search file by file
    /// meets.
    pub fn get_piece_position_based_on_turn(&self, color: Color) -> (r: Option<(usize, usize)>)
        ensures
            match r {
                Some(position) => self@.is_first_of(color, position),
                None => !self@.has_color(color),
            },
    {
        proof {
            use_type_invariant(self);
        }
        let mut x: usize = 0;
        while x < 8
            invariant
                x <= 8,
                self.squares.len() == 64,
                forall|p: (usize, usize)| p.0 < x && #[trigger] self@.holds(color, p) ==> false,
            decreases 8 - x,
        {
            let mut y: usize = 0;
            while y < 8
                invariant
                    x < 8,
                    y <= 8,
                    self.squares.len() == 64,
                    forall|p: (usize, usize)|
                        (p.0 < x || (p.0 == x && p.1 < y)) && #[trigger] self@.holds(color, p)
                            ==> false,
                decreases 8 - y,
            {
                match self.squares[x * 8 + y] {
                    Some((found, _)) => {
                        if found == color {
                            assert(self@.holds(color, (x, y)));
                            return Some((x, y));
                        }
                    },
                    None => {},
                }
                y += 1;
            }
            x += 1;
        }
        None
    }

    /// Hands the move to the other colour.
    pub fn next_turn(&mut self)
        ensures
            final(self)@.turn == opposite(old(self)@.turn),
            final(self)@.pieces == old(self)@.pieces,
    {
        proof {
            use_type_invariant(&*self);
        }
        self.turn = self.get_next_turn();
    }

    /// Returns the outcome of the position: the piece of the colour to move
    /// against the piece of the other colour. `None` means that neither can
    /// capture the other. The board must hold a piece of each colour.
    pub fn side_to_move(&self) -> (r: Option<Winner>)
        requires
            self@.has_color(Color::White),
            self@.has_color(Color::Black),
        ensures
            r == self@.outcome(),
    {
        proof {
            use_type_invariant(self);
        }
        let curr_piece_position = self.get_piece_position_based_on_turn(self.curr_turn()).unwrap();
        let next_piece_position = self.get_piece_position_based_on_turn(
            self.get_next_turn(),
        ).unwrap();
        let curr_piece = self.piece_at(curr_piece_position).unwrap();
        let next_piece = self.piece_at(next_piece_position).unwrap();
        proof {
            lemma_first_of_unique(self@, self@.turn, curr_piece_position, curr_piece_position);
            lemma_first_of_unique(
                self@,
                opposite(self@.turn),
                next_piece_position,
                next_piece_position,
            );
        }
        resolve(&curr_piece, &next_piece, self.turn)
    }

    /// Returns the character that stands for the outcome: `B` where white wins,
    /// `N` where black wins, `E` for a draw and `P` for a pending position.
    /// The board must hold a piece of each colour.
    pub fn finish_game(&self) -> (c: char)
        requires
            self@.has_color(Color::White),
            self@.has_color(Color::Black),
        ensures
            c == outcome_char(self@.outcome()),
    {
        match self.side_to_move() {
            Some(Winner::White) => 'B',
            Some(Winner::Black) => 'N',
            Some(Winner::Draw) => 'E',
            None => 'P',
        }
    }
}

} // verus!
