//! The 3×3 grid and what a cell of it can hold.

use vstd::prelude::*;
use vstd::string::StringExecFns;

verus! {

/// One of the two symbols that the players put on the board.
#[derive(Clone, Copy, Debug, PartialEq, Eq, Structural)]
pub enum Mark {
    X,
    O,
}

impl Mark {
    /// The character that stands for this mark on the screen.
    pub open spec fn symbol_spec(self) -> char {
        match self {
            Mark::X => 'X',
            Mark::O => 'O',
        }
    }

    pub fn symbol(self) -> (c: char)
        ensures
            c == self.symbol_spec(),
    {
        match self {
            Mark::X => 'X',
            Mark::O => 'O',
        }
    }

    /// The symbol as a string of one character.
    pub fn symbol_str(self) -> (s: &'static str)
        ensures
            s@ == seq![self.symbol_spec()],
    {
        proof {
            reveal_strlit("X");
            reveal_strlit("O");
        }
        let s = match self {
            Mark::X => "X",
            Mark::O => "O",
        };
        assert(s@ =~= seq![self.symbol_spec()]);
        s
    }
}

/// What one cell of the board holds: nothing yet, or one player's mark.
#[derive(Clone, Copy, Debug, PartialEq, Eq, Structural)]
pub enum Cell {
    Empty,
    Taken(Mark),
}

impl Cell {
    /// The character shown for this cell: a blank for an empty one.
    pub open spec fn symbol_spec(self) -> char {
        match self {
            Cell::Empty => ' ',
            Cell::Taken(mark) => mark.symbol_spec(),
        }
    }

    pub fn symbol(self) -> (c: char)
        ensures
            c == self.symbol_spec(),
    {
        match self {
            Cell::Empty => ' ',
            Cell::Taken(mark) => mark.symbol(),
        }
    }

    /// The symbol as a string of one character.
    pub fn symbol_str(self) -> (s: &'static str)
        ensures
            s@ == seq![self.symbol_spec()],
    {
        match self {
            Cell::Empty => {
                proof {
                    reveal_strlit(" ");
                }
                assert(" "@ =~= seq![' ']);
                " "
            },
            Cell::Taken(mark) => mark.symbol_str(),
        }
    }
}

/// Why the board refused a request.
#[derive(Clone, Copy, Debug, PartialEq, Eq, Structural)]
pub enum BoardError {
    /// The row or the column is not one of 0, 1, 2.
    OutOfRange,
    /// The cell already holds a mark.
    CellOccupied,
}

/// Number of rows, and of columns.
pub const SIDE: u8 = 3;

/// Printed width of one row of the grid: three cells of four characters and
/// the closing bar.
pub const ROW_WIDTH: u32 = 13;

/// Position of the cell at `row` and `col` in the row-major sequence of cells.
pub open spec fn cell_index(row: int, col: int) -> int {
    row * 3 + col
}

/// Whether `row` and `col` name a cell of the grid.
pub open spec fn in_range(row: int, col: int) -> bool {
    0 <= row < 3 && 0 <= col < 3
}

/// The cells of a board on which nothing has been played.
pub open spec fn empty_cells() -> Seq<Cell> {
    Seq::new(9, |i: int| Cell::Empty)
}

/// Whether every cell holds a mark.
pub open spec fn full(cells: Seq<Cell>) -> bool {
    forall|index: int| 0 <= index < cells.len() ==> cells[index] != Cell::Empty
}

/// How many cells of `cells` hold a mark.
pub open spec fn marks_placed(cells: Seq<Cell>) -> nat
    decreases cells.len(),
{
    if cells.len() == 0 {
        0
    } else {
        marks_placed(cells.drop_last()) + if cells.last() == Cell::Empty {
            0nat
        } else {
            1nat
        }
    }
}

/// There are never more marks than cells.
pub proof fn lemma_marks_bounded(cells: Seq<Cell>)
    ensures
        marks_placed(cells) <= cells.len(),
    decreases cells.len(),
{
    if cells.len() > 0 {
        lemma_marks_bounded(cells.drop_last());
    }
}

/// A mark put on an empty cell is one mark more.
pub proof fn lemma_mark_added(cells: Seq<Cell>, index: int, mark: Mark)
    requires
        0 <= index < cells.len(),
        cells[index] == Cell::Empty,
    ensures
        marks_placed(cells.update(index, Cell::Taken(mark))) == marks_placed(cells) + 1,
    decreases cells.len(),
{
    let after = cells.update(index, Cell::Taken(mark));
    if index == cells.len() - 1 {
        assert(after.drop_last() =~= cells.drop_last());
    } else {
        assert(after.drop_last() =~= cells.drop_last().update(index, Cell::Taken(mark)));
        lemma_mark_added(cells.drop_last(), index, mark);
    }
}

/// Nothing has been placed on the empty board.
pub proof fn lemma_no_marks_on_empty_board()
    ensures
        marks_placed(empty_cells()) == 0,
{
    reveal_with_fuel(marks_placed, 10);
    assert(empty_cells().drop_last().len() == 8);
}

/// A line of `length` dashes.
pub open spec fn dashes(length: nat) -> Seq<char> {
    Seq::new(length, |i: int| '-')
}

/// One cell as printed: a bar, a blank, the symbol, a blank.
pub open spec fn cell_text(cell: Cell) -> Seq<char> {
    seq!['|', ' ', cell.symbol_spec(), ' ']
}

/// One row as printed: its three cells, the closing bar, and under them a
/// dashed line as wide as the row.
pub open spec fn row_text(cells: Seq<Cell>, row: int) -> Seq<char> {
    cell_text(cells[cell_index(row, 0)]) + cell_text(cells[cell_index(row, 1)]) + cell_text(
        cells[cell_index(row, 2)],
    ) + seq!['|', '\n'] + dashes(13) + seq!['\n']
}

/// The whole grid as printed: its three rows from the top.
pub open spec fn grid_text(cells: Seq<Cell>) -> Seq<char> {
    row_text(cells, 0) + row_text(cells, 1) + row_text(cells, 2)
}

/// A string of `length` dashes.
pub fn row_separator(length: u32) -> (line: String)
    ensures
        line@ == dashes(length as nat),
{
    let mut line = String::new();
    let mut done: u32 = 0;
    while done < length
        invariant
            done <= length,
            line@ == dashes(done as nat),
        decreases length - done,
    {
        proof {
            reveal_strlit("-");
        }
        line.append("-");
        done = done + 1;
        assert(line@ =~= dashes(done as nat));
    }
    line
}

/// The nine cells of the grid, row by row from the top left.
#[derive(Clone, Copy, Debug)]
pub struct Board {
    cells: [Cell; 9],
}

impl View for Board {
    type V = Seq<Cell>;

    closed spec fn view(&self) -> Seq<Cell> {
        self.cells@
    }
}

impl Board {
    /// A board has nine cells.
    pub proof fn lemma_nine_cells(&self)
        ensures
            self@.len() == 9,
    {
    }

    /// At no time does a board hold more than nine marks.
    pub proof fn lemma_at_most_nine_marks(&self)
        ensures
            marks_placed(self@) <= 9,
    {
        lemma_marks_bounded(self@);
    }

    /// A board on which nothing has been played.
    pub fn new() -> (board: Board)
        ensures
            board@ == empty_cells(),
            marks_placed(board@) == 0,
    {
        proof {
            lemma_no_marks_on_empty_board();
        }
        let board = Board {
            cells: [
                Cell::Empty,
                Cell::Empty,
                Cell::Empty,
                Cell::Empty,
                Cell::Empty,
                Cell::Empty,
                Cell::Empty,
                Cell::Empty,
                Cell::Empty,
            ],
        };
        assert(board@ =~= empty_cells());
        board
    }

    /// The cell at position `index` of the row-major sequence.
    pub fn cell(&self, index: usize) -> (cell: Cell)
        requires
            index < 9,
        ensures
            cell == self@[index as int],
    {
        self.cells[index]
    }

    /// Whether no cell is free any more.
    pub fn is_full(&self) -> (res: bool)
        ensures
            res == full(self@),
    {
        let mut index: usize = 0;
        while index < 9
            invariant
                index <= 9,
                self@.len() == 9,
                forall|earlier: int| 0 <= earlier < index ==> self@[earlier] != Cell::Empty,
            decreases 9 - index,
        {
            if self.cells[index] == Cell::Empty {
                return false;
            }
            index = index + 1;
        }
        true
    }

    /// Whether the cell at `row` and `col` is still free.
    pub fn is_empty(&self, row: u8, col: u8) -> (res: Result<bool, BoardError>)
        ensures
            self@.len() == 9,
            in_range(row as int, col as int) ==> res == Ok::<bool, BoardError>(
                self@[cell_index(row as int, col as int)] == Cell::Empty,
            ),
            !in_range(row as int, col as int) ==> res == Err::<bool, BoardError>(
                BoardError::OutOfRange,
            ),
    {
        if row >= SIDE || col >= SIDE {
            return Err(BoardError::OutOfRange);
        }
        let index: usize = (row as usize) * 3 + (col as usize);
        Ok(self.cells[index] == Cell::Empty)
    }

    /// Puts `mark` on the cell at `row` and `col`, if that cell is on the
    /// board and free; otherwise the board stays as it was.
    pub fn place(&mut self, row: u8, col: u8, mark: Mark) -> (res: Result<(), BoardError>)
        ensures
            final(self)@.len() == 9,
            !in_range(row as int, col as int) ==> res == Err::<(), BoardError>(
                BoardError::OutOfRange,
            ) && final(self)@ == old(self)@,
            in_range(row as int, col as int) && old(self)@[cell_index(row as int, col as int)]
                != Cell::Empty ==> res == Err::<(), BoardError>(BoardError::CellOccupied)
                && final(self)@ == old(self)@,
            in_range(row as int, col as int) && old(self)@[cell_index(row as int, col as int)]
                == Cell::Empty ==> res == Ok::<(), BoardError>(()) && final(self)@ == old(
                self,
            )@.update(cell_index(row as int, col as int), Cell::Taken(mark)),
            res is Ok ==> marks_placed(final(self)@) == marks_placed(old(self)@) + 1,
    {
        if row >= SIDE || col >= SIDE {
            return Err(BoardError::OutOfRange);
        }
        let index: usize = (row as usize) * 3 + (col as usize);
        if self.cells[index] != Cell::Empty {
            return Err(BoardError::CellOccupied);
        }
        proof {
            lemma_mark_added(self@, index as int, mark);
        }
        self.cells[index] = Cell::Taken(mark);
        assert(self@ =~= old(self)@.update(cell_index(row as int, col as int), Cell::Taken(mark)));
        Ok(())
    }

    /// Adds one cell, as printed, to the end of `text`.
    fn append_cell(text: &mut String, cell: Cell)
        ensures
            final(text)@ == old(text)@ + cell_text(cell),
    {
        proof {
            reveal_strlit("| ");
            reveal_strlit(" ");
        }
        text.append("| ");
        text.append(cell.symbol_str());
        text.append(" ");
        assert(text@ =~= old(text)@ + cell_text(cell));
    }

    /// Adds one row, as printed, to the end of `text`.
    fn append_row(&self, text: &mut String, row: usize)
        requires
            row < 3,
        ensures
            final(text)@ == old(text)@ + row_text(self@, row as int),
    {
        let first = row * 3;
        Self::append_cell(text, self.cells[first]);
        Self::append_cell(text, self.cells[first + 1]);
        Self::append_cell(text, self.cells[first + 2]);
        let ghost cells_done = text@;
        let separator = row_separator(ROW_WIDTH);
        proof {
            reveal_strlit("|\n");
            reveal_strlit("\n");
        }
        text.append("|\n");
        text.append(separator.as_str());
        text.append("\n");
        assert(text@ =~= cells_done + seq!['|', '\n'] + dashes(13) + seq!['\n']);
        assert(text@ =~= old(text)@ + row_text(self@, row as int));
    }

    /// The grid as text, ready to print.
    pub fn render(&self) -> (text: String)
        ensures
            text@ == grid_text(self@),
    {
        let mut text = String::new();
        self.append_row(&mut text, 0);
        assert(text@ =~= row_text(self@, 0));
        self.append_row(&mut text, 1);
        self.append_row(&mut text, 2);
        text
    }
}

} // verus!
