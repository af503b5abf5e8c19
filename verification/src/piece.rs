//! Chess pieces and the squares they threaten.
//!
//! A square is a pair `(file, rank)`. Every capture rule is a predicate on the
//! piece's own square and a target square; occupancy of the squares between
//! them is never consulted.

use vstd::prelude::*;

verus! {

/// The colour of a chess piece.
#[derive(Debug, Clone, Copy, PartialEq, Eq, Structural)]
pub enum Color {
    White,
    Black,
}

/// The kind of a chess piece.
#[derive(Debug, Clone, Copy, PartialEq, Eq, Structural)]
pub enum PieceKind {
    Rook,
    Knight,
    King,
    Bishop,
    Queen,
    Pawn,
}

/// A chess piece: its colour, its kind and the square it stands on.
#[derive(Debug, Clone, Copy)]
pub struct Piece {
    pub color: Color,
    pub kind: PieceKind,
    pub position: (usize, usize),
}

impl PartialEq for Piece {
    /// Two pieces are equal when colour, kind and square all agree.
    fn eq(&self, other: &Self) -> (r: bool) {
        self.color == other.color && self.kind == other.kind && self.position.0
            == other.position.0 && self.position.1 == other.position.1
    }
}

impl vstd::std_specs::cmp::PartialEqSpecImpl for Piece {
    open spec fn obeys_eq_spec() -> bool {
        true
    }

    open spec fn eq_spec(&self, other: &Self) -> bool {
        self.color == other.color && self.kind == other.kind && self.position.0
            == other.position.0 && self.position.1 == other.position.1
    }
}

/// The error of reading a piece from a character that stands for none.
#[derive(Debug, PartialEq, Eq, Structural)]
pub enum PieceError {
    InvalidPieceKind(char),
}

/// Whether `c` has the Unicode property `Lowercase`.
pub uninterp spec fn is_lowercase_char(c: char) -> bool;

/// Whether `c` is one of the ASCII letters `a` to `z`.
pub open spec fn is_ascii_lower(c: char) -> bool {
    'a' <= c && c <= 'z'
}

/// `c` with an ASCII letter `a` to `z` replaced by its capital; any other
/// character unchanged.
pub open spec fn ascii_upper(c: char) -> char {
    if is_ascii_lower(c) {
        ((c as u32) - 32) as char
    } else {
        c
    }
}

/// The kind of piece that a letter stands for, in either case.
pub open spec fn kind_of_letter(c: char) -> Option<PieceKind> {
    if c == 'R' || c == 'r' {
        Some(PieceKind::King)
    } else if c == 'D' || c == 'd' {
        Some(PieceKind::Queen)
    } else if c == 'A' || c == 'a' {
        Some(PieceKind::Bishop)
    } else if c == 'C' || c == 'c' {
        Some(PieceKind::Knight)
    } else if c == 'T' || c == 't' {
        Some(PieceKind::Rook)
    } else if c == 'P' || c == 'p' {
        Some(PieceKind::Pawn)
    } else {
        None
    }
}

/// What a character of a board description puts on the square `position`:
/// nothing for `_`, a white piece for a small piece letter, a black piece for
/// a capital one, and an error for anything else.
pub open spec fn piece_of_char(c: char, position: (usize, usize)) -> Result<
    Option<Piece>,
    PieceError,
> {
    if c == '_' {
        Ok(None)
    } else {
        match kind_of_letter(c) {
            Some(kind) => Ok(
                Some(
                    Piece {
                        color: if is_ascii_lower(c) {
                            Color::White
                        } else {
                            Color::Black
                        },
                        kind,
                        position,
                    },
                ),
            ),
            None => Err(PieceError::InvalidPieceKind(c)),
        }
    }
}

/// Calls `char::is_lowercase`. The result is the character's Unicode
/// `Lowercase` property, which among the ASCII characters holds of the
/// letters `a` to `z` and of no other.
#[verifier::external_body]
fn is_lowercase(c: char) -> (r: bool)
    ensures
        r == is_lowercase_char(c),
        c <= '\x7f' ==> r == is_ascii_lower(c),
{
    c.is_lowercase()
}

/// Calls `char::to_ascii_uppercase`, which maps the ASCII letters `a` to `z`
/// to `A` to `Z` and leaves every other character as it is.
#[verifier::external_body]
fn to_ascii_uppercase(c: char) -> (r: char)
    ensures
        r == ascii_upper(c),
{
    c.to_ascii_uppercase()
}

/// Calls `format!` to join the fixed text of the message and the character.
#[verifier::external_body]
fn invalid_piece_message(c: char) -> (r: String)
    ensures
        r@ == "Invalid piece kind character: "@.push(c),
{
    format!("Invalid piece kind character: {}", c)
}

impl PieceError {
    /// The message of the error, as shown to a user.
    pub fn to_string(&self) -> (r: String)
        ensures
            r@ == "Invalid piece kind character: "@.push(self->0),
    {
        match self {
            PieceError::InvalidPieceKind(c) => invalid_piece_message(*c),
        }
    }
}

/// Distance between two coordinates along one axis.
pub open spec fn distance(a: usize, b: usize) -> int {
    if a >= b {
        a - b
    } else {
        b - a
    }
}

/// A rook threatens every square on its own file or rank.
pub open spec fn rook_reaches(from: (usize, usize), to: (usize, usize)) -> bool {
    from.0 == to.0 || from.1 == to.1
}

/// A bishop threatens every square whose file and rank distances agree.
pub open spec fn bishop_reaches(from: (usize, usize), to: (usize, usize)) -> bool {
    distance(from.0, to.0) == distance(from.1, to.1)
}

/// A queen threatens what a rook or a bishop on her square would.
pub open spec fn queen_reaches(from: (usize, usize), to: (usize, usize)) -> bool {
    rook_reaches(from, to) || bishop_reaches(from, to)
}

/// A knight threatens the squares one step away on one axis and two on the other.
pub open spec fn knight_reaches(from: (usize, usize), to: (usize, usize)) -> bool {
    let dx = distance(from.0, to.0);
    let dy = distance(from.1, to.1);
    (dx == 1 && dy == 2) || (dx == 2 && dy == 1)
}

/// A king threatens the squares next to his own, and not his own.
pub open spec fn king_reaches(from: (usize, usize), to: (usize, usize)) -> bool {
    let dx = distance(from.0, to.0);
    let dy = distance(from.1, to.1);
    dx <= 1 && dy <= 1 && !(dx == 0 && dy == 0)
}

/// A pawn threatens the two squares diagonally ahead of it: towards higher
/// ranks for white, towards lower ranks for black.
pub open spec fn pawn_reaches(color: Color, from: (usize, usize), to: (usize, usize)) -> bool {
    &&& distance(from.0, to.0) == 1
    &&& distance(from.1, to.1) == 1
    &&& match color {
        Color::White => to.1 > from.1,
        Color::Black => to.1 < from.1,
    }
}

/// Computes the distance between two coordinates along one axis.
fn axis_distance(a: usize, b: usize) -> (d: usize)
    ensures
        d == distance(a, b),
{
    if a >= b {
        a - b
    } else {
        b - a
    }
}

impl Piece {
    /// Whether this piece threatens the square `target`.
    pub open spec fn captures(self, target: (usize, usize)) -> bool {
        match self.kind {
            PieceKind::Rook => rook_reaches(self.position, target),
            PieceKind::Knight => knight_reaches(self.position, target),
            PieceKind::King => king_reaches(self.position, target),
            PieceKind::Bishop => bishop_reaches(self.position, target),
            PieceKind::Queen => queen_reaches(self.position, target),
            PieceKind::Pawn => pawn_reaches(self.color, self.position, target),
        }
    }

    /// Returns the colour of the piece.
    pub fn color(&self) -> (c: Color)
        ensures
            c == self.color,
    {
        self.color
    }

    /// Returns the square the piece stands on.
    pub fn get_position(&self) -> (p: (usize, usize))
        ensures
            p == self.position,
    {
        self.position
    }

    /// Reads the piece that the character `c` of a board description puts on
    /// `position`. `_` is an empty square; the letters R, D, A, C, T, P are
    /// king, queen, bishop, knight, rook and pawn, white when small and black
    /// when capital; any other character is an error that carries it.
    pub fn from_char(c: char, position: (usize, usize)) -> (r: Result<Option<Self>, PieceError>)
        ensures
            r == piece_of_char(c, position),
    {
        if c == '_' {
            return Ok(None);
        }
        let color = if is_lowercase(c) {
            Color::White
        } else {
            Color::Black
        };
        let kind = match to_ascii_uppercase(c) {
            'R' => PieceKind::King,
            'D' => PieceKind::Queen,
            'A' => PieceKind::Bishop,
            'C' => PieceKind::Knight,
            'T' => PieceKind::Rook,
            'P' => PieceKind::Pawn,
            _ => return Err(PieceError::InvalidPieceKind(c)),
        };
        Ok(Some(Piece { color, kind, position }))
    }

    /// Dispatches on the piece's kind to the rule that applies.
    pub fn capture_piece_at(&self, position: (usize, usize)) -> (r: bool)
        ensures
            r == self.captures(position),
    {
        match self.kind {
            PieceKind::Rook => self.capture_with_rook(position),
            PieceKind::King => self.capture_with_king(position),
            PieceKind::Knight => self.capture_with_knight(position),
            PieceKind::Bishop => self.capture_with_bishop(position),
            PieceKind::Queen => self.capture_with_queen(position),
            PieceKind::Pawn => self.capture_with_pawn(position),
        }
    }

    /// Checks whether the piece can capture a piece standing on `position`.
    pub fn can_capture(&self, position: (usize, usize)) -> (r: bool)
        ensures
            r == self.captures(position),
    {
        self.capture_piece_at(position)
    }

    /// The knight's rule: one step on one axis and two on the other.
    fn capture_with_knight(&self, target_position: (usize, usize)) -> (r: bool)
        ensures
            r == knight_reaches(self.position, target_position),
    {
        let x_diff: usize = axis_distance(self.position.0, target_position.0);
        let y_diff: usize = axis_distance(self.position.1, target_position.1);
        (x_diff == 1 && y_diff == 2) || (x_diff == 2 && y_diff == 1)
    }

    /// The rook's rule: the same file or the same rank.
    fn capture_with_rook(&self, target_position: (usize, usize)) -> (r: bool)
        ensures
            r == rook_reaches(self.position, target_position),
    {
        if self.position.0 != target_position.0 && self.position.1 != target_position.1 {
            return false;
        }
        true
    }

    /// The king's rule: at most one step on each axis, and not none.
    fn capture_with_king(&self, target_position: (usize, usize)) -> (r: bool)
        ensures
            r == king_reaches(self.position, target_position),
    {
        let dx: usize = axis_distance(target_position.0, self.position.0);
        let dy: usize = axis_distance(target_position.1, self.position.1);
        if dx > 1 || dy > 1 || (dx == 0 && dy == 0) {
            return false;
        }
        true
    }

    /// The bishop's rule: as many steps on one axis as on the other.
    fn capture_with_bishop(&self, target_position: (usize, usize)) -> (r: bool)
        ensures
            r == bishop_reaches(self.position, target_position),
    {
        let x_diff: usize = axis_distance(self.position.0, target_position.0);
        let y_diff: usize = axis_distance(self.position.1, target_position.1);
        x_diff == y_diff
    }

    /// The queen's rule: the rook's or the bishop's.
    fn capture_with_queen(&self, target_position: (usize, usize)) -> (r: bool)
        ensures
            r == queen_reaches(self.position, target_position),
    {
        self.capture_with_rook(target_position) || self.capture_with_bishop(target_position)
    }

    /// The pawn's rule: one step aside and one step ahead, where ahead
    /// depends on the colour.
    fn capture_with_pawn(&self, target_position: (usize, usize)) -> (r: bool)
        ensures
            r == pawn_reaches(self.color, self.position, target_position),
    {
        let x_diff: usize = axis_distance(self.position.0, target_position.0);
        let y_diff: usize = axis_distance(self.position.1, target_position.1);
        let is_diagonal_distance = x_diff == 1 && y_diff == 1;
        let is_valid_direction = match self.color {
            Color::White => target_position.1 > self.position.1,
            Color::Black => target_position.1 < self.position.1,
        };
        is_diagonal_distance && is_valid_direction
    }
}

/// A rook captures exactly on its own file or its own rank; its own square
/// is on both.
pub proof fn lemma_rook_captures_along_lines(piece: Piece, target: (usize, usize))
    requires
        piece.kind == PieceKind::Rook,
    ensures
        piece.captures(target) <==> (piece.position.0 == target.0 || piece.position.1
            == target.1),
{
}

/// A bishop captures exactly where the file distance equals the rank
/// distance, that is on the two diagonals through its square; its own square
/// is on both.
pub proof fn lemma_bishop_captures_along_diagonals(piece: Piece, target: (usize, usize))
    requires
        piece.kind == PieceKind::Bishop,
    ensures
        piece.captures(target) <==> distance(piece.position.0, target.0) == distance(
            piece.position.1,
            target.1,
        ),
        piece.captures(target) <==> ({
            let dx = target.0 - piece.position.0;
            let dy = target.1 - piece.position.1;
            dx == dy || dx == -dy
        }),
        piece.captures(piece.position),
{
}

/// A queen captures exactly what a rook or a bishop of her colour captures
/// from her square.
pub proof fn lemma_queen_is_rook_or_bishop(queen: Piece, target: (usize, usize))
    requires
        queen.kind == PieceKind::Queen,
    ensures
        queen.captures(target) <==> (Piece { kind: PieceKind::Rook, ..queen }).captures(target)
            || (Piece { kind: PieceKind::Bishop, ..queen }).captures(target),
{
}

/// A knight captures exactly at the eight offsets made of one step on one
/// axis and two on the other; in particular never on its own square.
pub proof fn lemma_knight_captures_eight_offsets(piece: Piece, target: (usize, usize))
    requires
        piece.kind == PieceKind::Knight,
    ensures
        piece.captures(target) <==> ({
            let dx = target.0 - piece.position.0;
            let dy = target.1 - piece.position.1;
            ||| (dx == 1 && dy == 2)
            ||| (dx == 1 && dy == -2)
            ||| (dx == -1 && dy == 2)
            ||| (dx == -1 && dy == -2)
            ||| (dx == 2 && dy == 1)
            ||| (dx == 2 && dy == -1)
            ||| (dx == -2 && dy == 1)
            ||| (dx == -2 && dy == -1)
        }),
        !piece.captures(piece.position),
{
}

/// A king captures exactly on the eight squares around his own: never on his
/// own square, never two or more files or ranks away.
pub proof fn lemma_king_captures_neighbours(piece: Piece, target: (usize, usize))
    requires
        piece.kind == PieceKind::King,
    ensures
        piece.captures(target) <==> ({
            let dx = target.0 - piece.position.0;
            let dy = target.1 - piece.position.1;
            ||| (dx == -1 && dy == -1)
            ||| (dx == -1 && dy == 0)
            ||| (dx == -1 && dy == 1)
            ||| (dx == 0 && dy == -1)
            ||| (dx == 0 && dy == 1)
            ||| (dx == 1 && dy == -1)
            ||| (dx == 1 && dy == 0)
            ||| (dx == 1 && dy == 1)
        }),
        !piece.captures(piece.position),
        distance(piece.position.0, target.0) >= 2 || distance(piece.position.1, target.1) >= 2
            ==> !piece.captures(target),
{
}

/// A pawn captures exactly one file aside and one rank ahead, where ahead
/// means a higher rank for white and a lower rank for black.
pub proof fn lemma_pawn_captures_diagonally_ahead(piece: Piece, target: (usize, usize))
    requires
        piece.kind == PieceKind::Pawn,
    ensures
        piece.captures(target) <==> ({
            let dx = target.0 - piece.position.0;
            let dy = target.1 - piece.position.1;
            &&& (dx == 1 || dx == -1)
            &&& match piece.color {
                Color::White => dy == 1,
                Color::Black => dy == -1,
            }
        }),
{
}

} // verus!
