//! The grammar of what a player types: two digits for a move, or `q` to quit.

use vstd::prelude::*;
use vstd::string::StrSliceExecFns;
use vstd::utf8::is_ascii_chars;

verus! {

/// A cell of the grid by zero-based row and column, both known to be on the
/// board. Only the parser makes one.
#[derive(Clone, Copy, Debug, PartialEq, Eq, Structural)]
pub struct Coordinate {
    row: u8,
    col: u8,
}

impl Coordinate {
    #[verifier::type_invariant]
    spec fn on_board(&self) -> bool {
        self.row < 3 && self.col < 3
    }

    /// The zero-based row.
    pub closed spec fn row_index(&self) -> int {
        self.row as int
    }

    /// The zero-based column.
    pub closed spec fn col_index(&self) -> int {
        self.col as int
    }

    pub fn row(&self) -> (row: u8)
        ensures
            row == self.row_index(),
            row < 3,
    {
        proof {
            use_type_invariant(self);
        }
        self.row
    }

    pub fn col(&self) -> (col: u8)
        ensures
            col == self.col_index(),
            col < 3,
    {
        proof {
            use_type_invariant(self);
        }
        self.col
    }
}

/// Why a typed move was refused.
#[derive(Clone, Copy, Debug, PartialEq, Eq, Structural)]
pub enum ParseError {
    /// The text is not two ASCII characters.
    InvalidInput,
    /// The first character is not a decimal digit.
    NonDecimalRow,
    /// The second character is not a decimal digit.
    NonDecimalColumn,
    /// A digit is above 3.
    TooLarge,
    /// A digit is 0.
    TooSmall,
}

impl ParseError {
    /// What to tell the player about this refusal.
    pub open spec fn message_spec(self) -> Seq<char> {
        match self {
            ParseError::InvalidInput => "Invalid input. Try again."@,
            ParseError::NonDecimalRow => "Non-decimal row value. Try again!"@,
            ParseError::NonDecimalColumn => "Non-decimal column value. Try again!"@,
            ParseError::TooLarge => "Column and/or row value too big (needs to be at most 3). Try again."@,
            ParseError::TooSmall => "Column and/or row value too small (needs to be at least 1). Try again."@,
        }
    }

    pub fn message(self) -> (text: &'static str)
        ensures
            text@ == self.message_spec(),
    {
        match self {
            ParseError::InvalidInput => "Invalid input. Try again.",
            ParseError::NonDecimalRow => "Non-decimal row value. Try again!",
            ParseError::NonDecimalColumn => "Non-decimal column value. Try again!",
            ParseError::TooLarge => "Column and/or row value too big (needs to be at most 3). Try again.",
            ParseError::TooSmall => "Column and/or row value too small (needs to be at least 1). Try again.",
        }
    }

    /// Two different reasons never share a message.
    pub proof fn lemma_messages_differ(first: ParseError, second: ParseError)
        requires
            first != second,
        ensures
            first.message_spec() != second.message_spec(),
    {
        reveal_strlit("Invalid input. Try again.");
        reveal_strlit("Non-decimal row value. Try again!");
        reveal_strlit("Non-decimal column value. Try again!");
        reveal_strlit("Column and/or row value too big (needs to be at most 3). Try again.");
        reveal_strlit("Column and/or row value too small (needs to be at least 1). Try again.");
        assert(ParseError::InvalidInput.message_spec().len() == 25);
        assert(ParseError::NonDecimalRow.message_spec().len() == 33);
        assert(ParseError::NonDecimalColumn.message_spec().len() == 36);
        assert(ParseError::TooLarge.message_spec().len() == 67);
        assert(ParseError::TooSmall.message_spec().len() == 70);
    }
}

/// What a line of input asks for.
#[derive(Clone, Copy, Debug, PartialEq, Eq, Structural)]
pub enum Input {
    /// Leave the game.
    Quit,
    /// Play on this cell.
    Move(Coordinate),
}

/// The value of a decimal digit, if `c` is one.
pub open spec fn digit_value(c: char) -> Option<int> {
    if '0' <= c <= '9' {
        Some(c as int - '0' as int)
    } else {
        None
    }
}

/// Whether `text` has the shape of a move: two ASCII characters.
pub open spec fn move_shaped(text: Seq<char>) -> bool {
    text.len() == 2 && is_ascii_chars(text)
}

/// Whether `text` is the request to quit: the single lower-case letter `q`.
pub open spec fn is_quit(text: Seq<char>) -> bool {
    text.len() == 1 && text[0] == 'q'
}

/// What two digits, as the player counts them from 1, stand for: the
/// zero-based row and column, or the reason why they name no cell. A digit
/// that is too large is reported before one that is too small.
pub open spec fn cell_of_digits(row: int, col: int) -> Result<(int, int), ParseError> {
    if row > 3 || col > 3 {
        Err(ParseError::TooLarge)
    } else if row < 1 || col < 1 {
        Err(ParseError::TooSmall)
    } else {
        Ok((row - 1, col - 1))
    }
}

/// The meaning of a typed move: the zero-based row and column that it
/// names, or the first reason for which it names none.
pub open spec fn parse_move_spec(text: Seq<char>) -> Result<(int, int), ParseError> {
    if !move_shaped(text) {
        Err(ParseError::InvalidInput)
    } else {
        match digit_value(text[0]) {
            None => Err(ParseError::NonDecimalRow),
            Some(row) => match digit_value(text[1]) {
                None => Err(ParseError::NonDecimalColumn),
                Some(col) => cell_of_digits(row, col),
            },
        }
    }
}

/// A parser's answer with the coordinate replaced by its row and column.
pub open spec fn as_indices(res: Result<Coordinate, ParseError>) -> Result<(int, int), ParseError> {
    match res {
        Ok(cell) => Ok((cell.row_index(), cell.col_index())),
        Err(reason) => Err(reason),
    }
}

/// The value of an ASCII byte as a decimal digit, if it is one.
fn digit_of_byte(byte: u8, Ghost(c): Ghost<char>) -> (digit: Option<u8>)
    requires
        c <= '\u{7f}',
        byte == c as u8,
    ensures
        match digit {
            Some(value) => digit_value(c) == Some(value as int),
            None => digit_value(c) is None,
        },
{
    if 48 <= byte && byte <= 57 {
        Some(byte - 48)
    } else {
        None
    }
}

/// The number of characters of `text` if all of them are ASCII.
fn ascii_length(text: &str) -> (length: Option<usize>)
    ensures
        match length {
            Some(n) => is_ascii_chars(text@) && n == text@.len(),
            None => !is_ascii_chars(text@),
        },
{
    if !text.is_ascii() {
        return None;
    }
    proof {
        vstd::string::is_ascii_spec_bytes(text);
    }
    Some(text.as_bytes().len())
}

/// Reads a move: a row digit and a column digit, each from 1 to 3.
pub fn parse_move(raw_text: &str) -> (res: Result<Coordinate, ParseError>)
    ensures
        as_indices(res) == parse_move_spec(raw_text@),
{
    if ascii_length(raw_text) != Some(2) {
        return Err(ParseError::InvalidInput);
    }
    let row_byte = raw_text.get_ascii(0);
    let col_byte = raw_text.get_ascii(1);
    let row = match digit_of_byte(row_byte, Ghost(raw_text@[0])) {
        Some(row) => row,
        None => {
            return Err(ParseError::NonDecimalRow);
        },
    };
    let col = match digit_of_byte(col_byte, Ghost(raw_text@[1])) {
        Some(col) => col,
        None => {
            return Err(ParseError::NonDecimalColumn);
        },
    };
    if row > 3 || col > 3 {
        Err(ParseError::TooLarge)
    } else if row < 1 || col < 1 {
        Err(ParseError::TooSmall)
    } else {
        Ok(Coordinate { row: row - 1, col: col - 1 })
    }
}

/// Reads a line of input: `q` asks to quit, anything else is read as a move.
pub fn parse_input(raw_text: &str) -> (res: Result<Input, ParseError>)
    ensures
        is_quit(raw_text@) ==> res == Ok::<Input, ParseError>(Input::Quit),
        !is_quit(raw_text@) ==> match res {
            Ok(Input::Move(cell)) => parse_move_spec(raw_text@) == Ok::<(int, int), ParseError>(
                (cell.row_index(), cell.col_index()),
            ),
            Ok(Input::Quit) => false,
            Err(reason) => parse_move_spec(raw_text@) == Err::<(int, int), ParseError>(reason),
        },
{
    if ascii_length(raw_text) == Some(1) && raw_text.get_ascii(0) == 113 {
        assert(raw_text@[0] == 'q');
        return Ok(Input::Quit);
    }
    match parse_move(raw_text) {
        Ok(cell) => Ok(Input::Move(cell)),
        Err(reason) => Err(reason),
    }
}

/// Refusal repeats: whenever one text has been refused, any other answer to
/// the same text is the same refusal.
pub proof fn lemma_rejection_repeats(
    text: Seq<char>,
    first: Result<Coordinate, ParseError>,
    second: Result<Coordinate, ParseError>,
)
    requires
        as_indices(first) == parse_move_spec(text),
        as_indices(second) == parse_move_spec(text),
        first is Err,
    ensures
        second == first,
{
}

} // verus!
