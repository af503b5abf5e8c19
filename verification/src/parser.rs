//! Reading a board from its description in text.
//!
//! A description has eight lines of eight squares each. Whitespace between
//! squares carries no meaning. `_` is an empty square; a piece letter puts
//! that piece on the square whose first coordinate is the line and whose
//! second is the place within the line.

use crate::board::{on_grid, Board, BoardError, BoardView};
use crate::piece::{kind_of_letter, piece_of_char, Color, Piece, PieceError};
use vstd::prelude::*;
use vstd::std_specs::iter::IteratorSpec;

verus! {

/// Why a description could not be read as a board.
#[derive(Debug, PartialEq, Eq, Structural)]
pub enum ParserError {
    FileNotExists,
    FileIsEmpty,
    InvalidBoardSize,
    NotEnoughTokens,
    InvalidPosition,
    PositionOccupied,
    InvalidPiece(char),
}

impl From<BoardError> for ParserError {
    fn from(err: BoardError) -> (r: ParserError) {
        match err {
            BoardError::InvalidPosition => ParserError::InvalidPosition,
            BoardError::PositionOccupied => ParserError::PositionOccupied,
        }
    }
}

impl vstd::std_specs::convert::FromSpecImpl<BoardError> for ParserError {
    open spec fn obeys_from_spec() -> bool {
        true
    }

    open spec fn from_spec(err: BoardError) -> ParserError {
        match err {
            BoardError::InvalidPosition => ParserError::InvalidPosition,
            BoardError::PositionOccupied => ParserError::PositionOccupied,
        }
    }
}

impl From<PieceError> for ParserError {
    fn from(err: PieceError) -> (r: ParserError) {
        match err {
            PieceError::InvalidPieceKind(c) => ParserError::InvalidPiece(c),
        }
    }
}

impl vstd::std_specs::convert::FromSpecImpl<PieceError> for ParserError {
    open spec fn obeys_from_spec() -> bool {
        true
    }

    open spec fn from_spec(err: PieceError) -> ParserError {
        match err {
            PieceError::InvalidPieceKind(c) => ParserError::InvalidPiece(c),
        }
    }
}

impl ParserError {
    /// The text of the message of each error.
    pub open spec fn message(self) -> Seq<char> {
        match self {
            ParserError::FileNotExists => "File not exists"@,
            ParserError::FileIsEmpty => "File is empty"@,
            ParserError::InvalidBoardSize => "Invalid board size"@,
            ParserError::NotEnoughTokens => "Not enough tokens"@,
            ParserError::InvalidPosition => "Invalid position"@,
            ParserError::PositionOccupied => "Position occupied"@,
            ParserError::InvalidPiece(c) => "Invalid piece kind character: "@.push(c),
        }
    }

    /// The message of the error, as shown to a user. The errors that come
    /// from placing or reading a piece keep the message they had there.
    pub fn to_string(&self) -> (r: String)
        ensures
            r@ == self.message(),
    {
        match self {
            ParserError::FileNotExists => "File not exists".to_owned(),
            ParserError::FileIsEmpty => "File is empty".to_owned(),
            ParserError::InvalidBoardSize => "Invalid board size".to_owned(),
            ParserError::NotEnoughTokens => "Not enough tokens".to_owned(),
            ParserError::InvalidPosition => BoardError::InvalidPosition.to_string(),
            ParserError::PositionOccupied => BoardError::PositionOccupied.to_string(),
            ParserError::InvalidPiece(c) => PieceError::InvalidPieceKind(*c).to_string(),
        }
    }
}

/// What the size of a line says: exactly eight is right, more is a board of
/// the wrong size, fewer is a line that lacks squares.
pub open spec fn size_check(tokens: int) -> Result<(), ParserError> {
    if tokens == 8 {
        Ok(())
    } else if tokens > 8 {
        Err(ParserError::InvalidBoardSize)
    } else {
        Err(ParserError::NotEnoughTokens)
    }
}

/// The board after the character `c` has been read for the square
/// `position`, or the reason why it cannot be read there.
pub open spec fn with_square(board: BoardView, position: (usize, usize), c: char) -> Result<
    BoardView,
    ParserError,
> {
    match piece_of_char(c, position) {
        Err(PieceError::InvalidPieceKind(x)) => Err(ParserError::InvalidPiece(x)),
        Ok(None) => Ok(board),
        Ok(Some(piece)) => if !on_grid(position) {
            Err(ParserError::InvalidPosition)
        } else if board.pieces.dom().contains(position) {
            Err(ParserError::PositionOccupied)
        } else {
            Ok(BoardView { pieces: board.pieces.insert(position, piece), turn: board.turn })
        },
    }
}

/// Checks the size of a line of the description.
pub fn guard_board_size(tokens: usize) -> (r: Result<(), ParserError>)
    ensures
        r == size_check(tokens as int),
{
    if tokens != 8 {
        return if tokens > 8 {
            Err(ParserError::InvalidBoardSize)
        } else {
            Err(ParserError::NotEnoughTokens)
        };
    }
    Ok(())
}

/// Reads the character `c` for the square `position` and places the piece
/// it stands for, if any. On an error the board stays as it was.
pub fn add_to_board(board: &mut Board, position: (usize, usize), c: char) -> (r: Result<
    (),
    ParserError,
>)
    ensures
        match with_square(old(board)@, position, c) {
            Ok(after) => r is Ok && final(board)@ == after,
            Err(e) => r == Err::<(), ParserError>(e) && final(board)@ == old(board)@,
        },
{
    match Piece::from_char(c, position) {
        Err(e) => Err(ParserError::from(e)),
        Ok(None) => Ok(()),
        Ok(Some(piece)) => match board.place_piece(piece) {
            Err(e) => Err(ParserError::from(e)),
            Ok(()) => Ok(()),
        },
    }
}

/// Whether `c` has the Unicode property `White_Space`.
pub uninterp spec fn is_whitespace_char(c: char) -> bool;

/// Calls `char::is_whitespace`, whose result is the character's Unicode
/// `White_Space` property.
#[verifier::external_body]
fn is_whitespace(c: char) -> (r: bool)
    ensures
        r == is_whitespace_char(c),
{
    c.is_whitespace()
}

/// The squares of a line: its characters that are not whitespace, in order.
pub open spec fn squares_of(line: Seq<char>) -> Seq<char> {
    line.filter(|c: char| !is_whitespace_char(c))
}

/// Removes the whitespace from a line.
fn squeeze(line: &str) -> (squares: Vec<char>)
    ensures
        squares@ == squares_of(line@),
{
    broadcast use vstd::string::next_postcondition, vstd::string::axiom_spec_iter;

    let mut squares: Vec<char> = Vec::new();
    let mut rest = line.chars();
    let ghost mut seen: Seq<char> = Seq::empty();
    loop
        invariant
            seen + rest.remaining() == line@,
            squares@ == squares_of(seen),
            rest.decrease() is Some,
        ensures
            squares@ == squares_of(line@),
        decreases rest.decrease()->0,
    {
        match rest.next() {
            Some(c) => {
                proof {
                    reveal(Seq::filter);
                    assert(seen.push(c).drop_last() == seen);
                    seen = seen.push(c);
                }
                if !is_whitespace(c) {
                    squares.push(c);
                }
            },
            None => {
                assert(seen =~= line@);
                break ;
            },
        }
    }
    squares
}

/// The first character that takes two bytes in UTF-8.
pub const FIRST_OF_TWO_BYTES: char = '\u{80}';

/// The first character that takes three bytes in UTF-8.
pub const FIRST_OF_THREE_BYTES: char = '\u{800}';

/// The first character that takes four bytes in UTF-8.
pub const FIRST_OF_FOUR_BYTES: char = '\u{10000}';

/// The number of bytes that `c` takes in UTF-8.
pub open spec fn utf8_width(c: char) -> int {
    if c < FIRST_OF_TWO_BYTES {
        1
    } else if c < FIRST_OF_THREE_BYTES {
        2
    } else if c < FIRST_OF_FOUR_BYTES {
        3
    } else {
        4
    }
}

/// The number of bytes that `text` takes in UTF-8. The size of a line is
/// measured in bytes, so that eight squares are eight ASCII characters.
pub open spec fn byte_len(text: Seq<char>) -> int
    decreases text.len(),
{
    if text.len() == 0 {
        0
    } else {
        byte_len(text.drop_last()) + utf8_width(text.last())
    }
}

/// A prefix of a text takes no more bytes than the text.
proof fn lemma_byte_len_prefix(text: Seq<char>, n: int)
    requires
        0 <= n <= text.len(),
    ensures
        byte_len(text.take(n)) <= byte_len(text),
    decreases text.len() - n,
{
    if n == text.len() {
        assert(text.take(n) =~= text);
    } else {
        lemma_byte_len_prefix(text, n + 1);
        assert(text.take(n + 1).drop_last() =~= text.take(n));
    }
}

/// Computes the number of bytes that `c` takes in UTF-8.
fn width_of(c: char) -> (w: usize)
    ensures
        w == utf8_width(c),
{
    if c < FIRST_OF_TWO_BYTES {
        1
    } else if c < FIRST_OF_THREE_BYTES {
        2
    } else if c < FIRST_OF_FOUR_BYTES {
        3
    } else {
        4
    }
}

/// Measures a line's squares in bytes, exactly up to eight; any greater size
/// comes back as some number above eight.
fn measure(squares: &Vec<char>) -> (n: usize)
    ensures
        byte_len(squares@) <= 8 ==> n == byte_len(squares@),
        byte_len(squares@) > 8 ==> n > 8,
{
    let mut total: usize = 0;
    let mut i: usize = 0;
    while i < squares.len() && total <= 8
        invariant
            i <= squares.len(),
            total == byte_len(squares@.take(i as int)),
            total <= 12,
        decreases squares.len() - i,
    {
        proof {
            assert(squares@.take(i + 1).drop_last() =~= squares@.take(i as int));
        }
        total += width_of(squares[i]);
        i += 1;
    }
    proof {
        lemma_byte_len_prefix(squares@, i as int);
        if i == squares.len() {
            assert(squares@.take(i as int) =~= squares@);
        }
    }
    total
}

/// The board after the squares of line `row` have been read from place
/// `column` on, or the first error met on the way.
pub open spec fn with_squares(board: BoardView, row: usize, squares: Seq<char>, column: int) -> Result<
    BoardView,
    ParserError,
>
    decreases squares.len() - column,
{
    if column < 0 || column >= squares.len() {
        Ok(board)
    } else {
        match with_square(board, (row, column as usize), squares[column]) {
            Ok(next) => with_squares(next, row, squares, column + 1),
            Err(e) => Err(e),
        }
    }
}

/// The board after line `row` with the given squares has been read: the
/// size of the line is checked first, then each square is read in turn.
pub open spec fn with_row(board: BoardView, row: usize, squares: Seq<char>) -> Result<
    BoardView,
    ParserError,
> {
    match size_check(byte_len(squares)) {
        Err(e) => Err(e),
        Ok(_) => with_squares(board, row, squares, 0),
    }
}

/// The board after the lines from `row` on have been read, or the first
/// error met on the way.
pub open spec fn with_lines(board: BoardView, lines: Seq<Seq<char>>, row: int) -> Result<
    BoardView,
    ParserError,
>
    decreases lines.len() - row,
{
    if row < 0 || row >= lines.len() {
        Ok(board)
    } else {
        match with_row(board, row as usize, squares_of(lines[row])) {
            Ok(next) => with_lines(next, lines, row + 1),
            Err(e) => Err(e),
        }
    }
}

/// The board that a description stands for. A description without lines is
/// empty; one that reads without error but has not eight lines has the wrong
/// size. White moves first.
pub open spec fn parsed(lines: Seq<Seq<char>>) -> Result<BoardView, ParserError> {
    if lines.len() == 0 {
        Err(ParserError::FileIsEmpty)
    } else {
        match with_lines(
            BoardView { pieces: Map::empty(), turn: Color::White },
            lines,
            0,
        ) {
            Err(e) => Err(e),
            Ok(board) => if lines.len() != 8 {
                Err(ParserError::InvalidBoardSize)
            } else {
                Ok(board)
            },
        }
    }
}

/// Whether `c` may stand for a square: the empty square or a piece letter.
pub open spec fn is_square_char(c: char) -> bool {
    c == '_' || kind_of_letter(c) is Some
}

/// Whether `squares` is a full row: eight squares, each of them valid.
pub open spec fn is_row(squares: Seq<char>) -> bool {
    &&& squares.len() == 8
    &&& forall|j: int| 0 <= j < 8 ==> is_square_char(#[trigger] squares[j])
}

/// Whether `lines` describes a board: eight lines, each a full row once its
/// whitespace is removed.
pub open spec fn is_description(lines: Seq<Seq<char>>) -> bool {
    &&& lines.len() == 8
    &&& forall|i: int| 0 <= i < 8 ==> is_row(squares_of(#[trigger] lines[i]))
}

/// The character that a description gives for the square `position`.
pub open spec fn square_char(lines: Seq<Seq<char>>, position: (usize, usize)) -> char {
    squares_of(lines[position.0 as int])[position.1 as int]
}

/// The piece that the piece letter `c` puts on `position`.
pub open spec fn piece_for(c: char, position: (usize, usize)) -> Piece {
    piece_of_char(c, position)->Ok_0->0
}

/// The board that a description stands for: on each square of the grid whose
/// character is not `_`, the piece of that character; white to move.
pub open spec fn described(lines: Seq<Seq<char>>) -> BoardView {
    BoardView {
        pieces: Map::new(
            |p: (usize, usize)| on_grid(p) && square_char(lines, p) != '_',
            |p: (usize, usize)| piece_for(square_char(lines, p), p),
        ),
        turn: Color::White,
    }
}

/// A text takes at least one byte for each character, and exactly one where
/// every character is ASCII.
proof fn lemma_byte_len_and_len(text: Seq<char>)
    ensures
        byte_len(text) >= text.len(),
        (forall|k: int| 0 <= k < text.len() ==> #[trigger] text[k] < FIRST_OF_TWO_BYTES)
            ==> byte_len(text) == text.len(),
    decreases text.len(),
{
    if text.len() > 0 {
        lemma_byte_len_and_len(text.drop_last());
        if forall|k: int| 0 <= k < text.len() ==> #[trigger] text[k] < FIRST_OF_TWO_BYTES {
            assert forall|k: int| 0 <= k < text.drop_last().len() implies #[trigger] text.drop_last()[k]
                < FIRST_OF_TWO_BYTES by {
                assert(text.drop_last()[k] == text[k]);
            }
            assert(text.last() == text[text.len() - 1]);
        }
    }
}

/// What a row that was read without error has done to the board.
proof fn lemma_with_squares_ok(
    board: BoardView,
    row: usize,
    squares: Seq<char>,
    j: int,
    after: BoardView,
)
    requires
        0 <= j <= squares.len() <= 8,
        with_squares(board, row, squares, j) == Ok::<BoardView, ParserError>(after),
    ensures
        after.turn == board.turn,
        forall|k: int| j <= k < squares.len() ==> is_square_char(#[trigger] squares[k]),
        forall|p: (usize, usize)| #[trigger]
            after.pieces.dom().contains(p) <==> board.pieces.dom().contains(p) || (p.0 == row && j
                <= p.1 < squares.len() && squares[p.1 as int] != '_'),
        forall|p: (usize, usize)|
            board.pieces.dom().contains(p) ==> #[trigger] after.pieces[p] == board.pieces[p],
        forall|p: (usize, usize)|
            p.0 == row && j <= p.1 < squares.len() && squares[p.1 as int] != '_' ==> on_grid(p)
                && #[trigger] after.pieces[p] == piece_for(squares[p.1 as int], p),
    decreases squares.len() - j,
{
    if j < squares.len() {
        let here = (row, j as usize);
        let next = with_square(board, here, squares[j])->Ok_0;
        assert(with_square(board, here, squares[j]) is Ok);
        lemma_with_squares_ok(next, row, squares, j + 1, after);
        assert forall|p: (usize, usize)|
            p.0 == row && j <= p.1 < squares.len() && squares[p.1 as int] != '_' implies on_grid(
            p,
        ) && #[trigger] after.pieces[p] == piece_for(squares[p.1 as int], p) by {
            if p.1 == j {
                assert(p == here);
                assert(next.pieces.dom().contains(p));
            }
        }
    }
}

/// A row of valid squares reads without error onto a board that holds
/// nothing yet on the squares still to be read.
proof fn lemma_with_squares_succeeds(board: BoardView, row: usize, squares: Seq<char>, j: int)
    requires
        0 <= j <= squares.len() <= 8,
        row < 8,
        forall|k: int| j <= k < squares.len() ==> is_square_char(#[trigger] squares[k]),
        forall|p: (usize, usize)| #[trigger]
            board.pieces.dom().contains(p) ==> !(p.0 == row && p.1 >= j),
    ensures
        with_squares(board, row, squares, j) is Ok,
    decreases squares.len() - j,
{
    if j < squares.len() {
        let here = (row, j as usize);
        assert(is_square_char(squares[j]));
        assert(!board.pieces.dom().contains(here));
        let next = with_square(board, here, squares[j])->Ok_0;
        lemma_with_squares_succeeds(next, row, squares, j + 1);
    }
}

/// What lines that were read without error have done to the board.
proof fn lemma_with_lines_ok(board: BoardView, lines: Seq<Seq<char>>, i: int, after: BoardView)
    requires
        0 <= i <= lines.len() <= 8,
        with_lines(board, lines, i) == Ok::<BoardView, ParserError>(after),
    ensures
        after.turn == board.turn,
        forall|r: int| i <= r < lines.len() ==> is_row(squares_of(#[trigger] lines[r])),
        forall|p: (usize, usize)| #[trigger]
            after.pieces.dom().contains(p) <==> board.pieces.dom().contains(p) || (i <= p.0
                < lines.len() && p.1 < 8 && square_char(lines, p) != '_'),
        forall|p: (usize, usize)|
            board.pieces.dom().contains(p) ==> #[trigger] after.pieces[p] == board.pieces[p],
        forall|p: (usize, usize)|
            i <= p.0 < lines.len() && p.1 < 8 && square_char(lines, p) != '_'
                ==> #[trigger] after.pieces[p] == piece_for(square_char(lines, p), p),
    decreases lines.len() - i,
{
    if i < lines.len() {
        let squares = squares_of(lines[i]);
        let next = with_row(board, i as usize, squares)->Ok_0;
        assert(with_row(board, i as usize, squares) is Ok);
        lemma_byte_len_and_len(squares);
        lemma_with_squares_ok(board, i as usize, squares, 0, next);
        assert forall|k: int| 0 <= k < squares.len() implies #[trigger] squares[k]
            < FIRST_OF_TWO_BYTES by {
            assert(is_square_char(squares[k]));
        }
        assert(is_row(squares));
        lemma_with_lines_ok(next, lines, i + 1, after);
        assert forall|p: (usize, usize)|
            i <= p.0 < lines.len() && p.1 < 8 && square_char(lines, p) != '_' implies #[trigger] after.pieces[p]
            == piece_for(square_char(lines, p), p) by {
            if p.0 == i {
                assert(next.pieces.dom().contains(p));
            }
        }
    }
}

/// Lines that are full rows read without error onto a board that holds
/// nothing yet on the rows still to be read.
proof fn lemma_with_lines_succeeds(board: BoardView, lines: Seq<Seq<char>>, i: int)
    requires
        0 <= i <= lines.len() <= 8,
        forall|r: int| i <= r < lines.len() ==> is_row(squares_of(#[trigger] lines[r])),
        forall|p: (usize, usize)| #[trigger] board.pieces.dom().contains(p) ==> p.0 < i,
    ensures
        with_lines(board, lines, i) is Ok,
    decreases lines.len() - i,
{
    if i < lines.len() {
        let squares = squares_of(lines[i]);
        assert(is_row(squares));
        assert forall|k: int| 0 <= k < squares.len() implies #[trigger] squares[k]
            < FIRST_OF_TWO_BYTES by {
            assert(is_square_char(squares[k]));
        }
        lemma_byte_len_and_len(squares);
        lemma_with_squares_succeeds(board, i as usize, squares, 0);
        let next = with_row(board, i as usize, squares)->Ok_0;
        lemma_with_squares_ok(board, i as usize, squares, 0, next);
        lemma_with_lines_succeeds(next, lines, i + 1);
    }
}

/// A description reads as a board exactly when it has eight lines, each of
/// eight valid squares once its whitespace is removed. The board then holds
/// on each square the piece of that square's character, and nothing else.
pub proof fn lemma_parsed_is_described(lines: Seq<Seq<char>>)
    ensures
        parsed(lines) is Ok <==> is_description(lines),
        is_description(lines) ==> parsed(lines) == Ok::<BoardView, ParserError>(described(lines)),
{
    let empty = BoardView { pieces: Map::empty(), turn: Color::White };
    if parsed(lines) is Ok {
        let after = parsed(lines)->Ok_0;
        lemma_with_lines_ok(empty, lines, 0, after);
        assert(after.pieces =~= described(lines).pieces);
    }
    if is_description(lines) {
        lemma_with_lines_succeeds(empty, lines, 0);
    }
}

/// Reads line `row` of a description, given as its squares with the
/// whitespace already removed, onto `board`.
pub fn place_row(board: Board, row: usize, squares: &Vec<char>) -> (r: Result<Board, ParserError>)
    ensures
        match with_row(board@, row, squares@) {
            Ok(after) => r is Ok && r->Ok_0@ == after,
            Err(e) => r is Err && r->Err_0 == e,
        },
{
    match guard_board_size(measure(squares)) {
        Err(e) => {
            return Err(e);
        },
        Ok(_) => {},
    }
    let mut current = board;
    let mut j: usize = 0;
    while j < squares.len()
        invariant
            j <= squares.len(),
            size_check(byte_len(squares@)) is Ok,
            with_squares(current@, row, squares@, j as int) == with_squares(
                board@,
                row,
                squares@,
                0,
            ),
        decreases squares.len() - j,
    {
        match add_to_board(&mut current, (row, j), squares[j]) {
            Err(e) => {
                return Err(e);
            },
            Ok(_) => {},
        }
        j += 1;
    }
    Ok(current)
}

/// The text of each line.
pub open spec fn texts(lines: Seq<String>) -> Seq<Seq<char>> {
    lines.map_values(|line: String| line@)
}

/// Reads a board from the lines of its description. A description of eight
/// lines of eight valid squares each gives the board it describes, with
/// white to move. Any other gives the first error met: no line at all is an
/// empty file; a line is checked for its size, then square by square; lines
/// that read without error but are not eight make a board of the wrong size.
pub fn from_lines(lines: &Vec<String>) -> (r: Result<Board, ParserError>)
    ensures
        match parsed(texts(lines@)) {
            Ok(board) => r is Ok && r->Ok_0@ == board,
            Err(e) => r is Err && r->Err_0 == e,
        },
        r is Ok <==> is_description(texts(lines@)),
        r is Ok ==> r->Ok_0@ == described(texts(lines@)),
{
    proof {
        lemma_parsed_is_described(texts(lines@));
    }
    if lines.len() == 0 {
        return Err(ParserError::FileIsEmpty);
    }
    let mut board = Board::default_board();
    let ghost start = board@;
    let mut i: usize = 0;
    while i < lines.len()
        invariant
            0 < lines.len(),
            i <= lines.len(),
            start == (BoardView { pieces: Map::empty(), turn: Color::White }),
            parsed(texts(lines@)) is Ok <==> is_description(texts(lines@)),
            with_lines(board@, texts(lines@), i as int) == with_lines(start, texts(lines@), 0),
        decreases lines.len() - i,
    {
        assert(texts(lines@)[i as int] == lines@[i as int]@);
        let squares = squeeze(lines[i].as_str());
        match place_row(board, i, &squares) {
            Err(e) => {
                return Err(e);
            },
            Ok(next) => {
                board = next;
            },
        }
        i += 1;
    }
    if lines.len() != 8 {
        return Err(ParserError::InvalidBoardSize);
    }
    Ok(board)
}

} // verus!
