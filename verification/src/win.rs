//! The test for three equal marks in a line.

use vstd::prelude::*;

use crate::board::{empty_cells, Board, Cell, Mark};

verus! {

/// Whether the cells at `a`, `b` and `c` hold one and the same mark.
pub open spec fn line_won(cells: Seq<Cell>, a: int, b: int, c: int) -> bool {
    cells[a] != Cell::Empty && cells[b] == cells[a] && cells[c] == cells[a]
}

pub open spec fn row_won(cells: Seq<Cell>, row: int) -> bool {
    line_won(cells, row * 3, row * 3 + 1, row * 3 + 2)
}

pub open spec fn column_won(cells: Seq<Cell>, col: int) -> bool {
    line_won(cells, col, col + 3, col + 6)
}

/// The diagonal from the top left to the bottom right.
pub open spec fn diagonal1_won(cells: Seq<Cell>) -> bool {
    line_won(cells, 0, 4, 8)
}

/// The diagonal from the top right to the bottom left.
pub open spec fn diagonal2_won(cells: Seq<Cell>) -> bool {
    line_won(cells, 2, 4, 6)
}

pub open spec fn any_row_won(cells: Seq<Cell>) -> bool {
    row_won(cells, 0) || row_won(cells, 1) || row_won(cells, 2)
}

pub open spec fn any_column_won(cells: Seq<Cell>) -> bool {
    column_won(cells, 0) || column_won(cells, 1) || column_won(cells, 2)
}

pub open spec fn any_diagonal_won(cells: Seq<Cell>) -> bool {
    diagonal1_won(cells) || diagonal2_won(cells)
}

/// Whether some row, column or diagonal holds one mark three times.
pub open spec fn winning(cells: Seq<Cell>) -> bool {
    any_row_won(cells) || any_column_won(cells) || any_diagonal_won(cells)
}

/// The eight lines of the grid by number: rows 0 to 2 from the top, then
/// columns 0 to 2 from the left as lines 3 to 5, then the two diagonals.
/// Each is given by the positions of its three cells.
pub open spec fn line_cells(line: int) -> (int, int, int) {
    if 0 <= line < 3 {
        (line * 3, line * 3 + 1, line * 3 + 2)
    } else if 3 <= line < 6 {
        (line - 3, line, line + 3)
    } else if line == 6 {
        (0, 4, 8)
    } else {
        (2, 4, 6)
    }
}

/// Whether all three cells of line number `line` hold `mark`.
pub open spec fn held_by(cells: Seq<Cell>, line: int, mark: Mark) -> bool {
    &&& cells[line_cells(line).0] == Cell::Taken(mark)
    &&& cells[line_cells(line).1] == Cell::Taken(mark)
    &&& cells[line_cells(line).2] == Cell::Taken(mark)
}

/// Whether the three cells starting at `first`, `step` apart, hold one mark.
fn check_line(board: &Board, first: usize, step: usize) -> (won: bool)
    requires
        first + 2 * step < 9,
    ensures
        won == line_won(board@, first as int, first + step, first + 2 * step),
{
    let start = board.cell(first);
    start != Cell::Empty && board.cell(first + step) == start && board.cell(first + 2 * step)
        == start
}

pub fn check_win_rows(board: &Board) -> (won: bool)
    ensures
        won == any_row_won(board@),
{
    let mut row: usize = 0;
    while row != 3
        invariant
            row <= 3,
            forall|earlier: int| 0 <= earlier < row ==> !row_won(board@, earlier),
        decreases 3 - row,
    {
        if check_line(board, row * 3, 1) {
            return true;
        }
        row = row + 1;
    }
    false
}

pub fn check_win_columns(board: &Board) -> (won: bool)
    ensures
        won == any_column_won(board@),
{
    let mut col: usize = 0;
    while col != 3
        invariant
            col <= 3,
            forall|earlier: int| 0 <= earlier < col ==> !column_won(board@, earlier),
        decreases 3 - col,
    {
        if check_line(board, col, 3) {
            return true;
        }
        col = col + 1;
    }
    false
}

pub fn check_win_diagonal1(board: &Board) -> (won: bool)
    ensures
        won == diagonal1_won(board@),
{
    check_line(board, 0, 4)
}

pub fn check_win_diagonal2(board: &Board) -> (won: bool)
    ensures
        won == diagonal2_won(board@),
{
    check_line(board, 2, 2)
}

pub fn check_win_diagonals(board: &Board) -> (won: bool)
    ensures
        won == any_diagonal_won(board@),
{
    check_win_diagonal1(board) || check_win_diagonal2(board)
}

/// Whether a player has three marks in a row, a column or a diagonal.
pub fn has_winner(board: &Board) -> (won: bool)
    ensures
        won == winning(board@),
{
    check_win_rows(board) || check_win_columns(board) || check_win_diagonals(board)
}

/// Whichever of the eight lines a mark fills, the board is won.
pub proof fn lemma_full_line_wins(cells: Seq<Cell>, line: int, mark: Mark)
    requires
        cells.len() == 9,
        0 <= line < 8,
        held_by(cells, line, mark),
    ensures
        winning(cells),
{
}

/// Nobody has won on a board without marks.
pub proof fn lemma_empty_board_has_no_winner()
    ensures
        !winning(empty_cells()),
{
}

/// A board is won only where one of the eight lines is filled by one mark;
/// so a board on which no line is filled, with empty cells or without, is
/// not won.
pub proof fn lemma_winner_holds_a_line(cells: Seq<Cell>)
    requires
        cells.len() == 9,
        winning(cells),
    ensures
        exists|line: int, mark: Mark| 0 <= line < 8 && held_by(cells, line, mark),
{
    let line: int = if row_won(cells, 0) {
        0
    } else if row_won(cells, 1) {
        1
    } else if row_won(cells, 2) {
        2
    } else if column_won(cells, 0) {
        3
    } else if column_won(cells, 1) {
        4
    } else if column_won(cells, 2) {
        5
    } else if diagonal1_won(cells) {
        6
    } else {
        7
    };
    let mark = match cells[line_cells(line).0] {
        Cell::Taken(mark) => mark,
        Cell::Empty => Mark::X,
    };
    assert(0 <= line < 8 && held_by(cells, line, mark));
}

} // verus!
