use tictactoe::board::row_separator;
use tictactoe::{Board, BoardError, Cell, Mark};

#[test]
fn new_board_is_empty_everywhere() {
    let board = Board::new();
    for row in 0..3u8 {
        for col in 0..3u8 {
            assert_eq!(board.is_empty(row, col), Ok(true));
        }
    }
    for index in 0..9usize {
        assert_eq!(board.cell(index), Cell::Empty);
    }
}

#[test]
fn is_empty_rejects_rows_and_columns_off_the_board() {
    let board = Board::new();
    assert_eq!(board.is_empty(3, 0), Err(BoardError::OutOfRange));
    assert_eq!(board.is_empty(0, 3), Err(BoardError::OutOfRange));
    assert_eq!(board.is_empty(3, 3), Err(BoardError::OutOfRange));
    assert_eq!(board.is_empty(255, 255), Err(BoardError::OutOfRange));
    assert_eq!(board.is_empty(0, 5), Err(BoardError::OutOfRange));
}

#[test]
fn place_marks_exactly_one_cell() {
    let mut board = Board::new();
    assert_eq!(board.place(1, 2, Mark::X), Ok(()));
    for index in 0..9usize {
        let expected = if index == 5 { Cell::Taken(Mark::X) } else { Cell::Empty };
        assert_eq!(board.cell(index), expected);
    }
    assert_eq!(board.is_empty(1, 2), Ok(false));
    assert_eq!(board.is_empty(2, 1), Ok(true));
}

#[test]
fn place_uses_row_major_order() {
    let mut board = Board::new();
    assert_eq!(board.place(0, 0, Mark::X), Ok(()));
    assert_eq!(board.place(0, 2, Mark::O), Ok(()));
    assert_eq!(board.place(2, 0, Mark::O), Ok(()));
    assert_eq!(board.place(2, 2, Mark::X), Ok(()));
    assert_eq!(board.cell(0), Cell::Taken(Mark::X));
    assert_eq!(board.cell(2), Cell::Taken(Mark::O));
    assert_eq!(board.cell(6), Cell::Taken(Mark::O));
    assert_eq!(board.cell(8), Cell::Taken(Mark::X));
}

#[test]
fn place_refuses_an_occupied_cell_and_keeps_the_mark() {
    let mut board = Board::new();
    assert_eq!(board.place(1, 1, Mark::X), Ok(()));
    assert_eq!(board.place(1, 1, Mark::O), Err(BoardError::CellOccupied));
    assert_eq!(board.place(1, 1, Mark::X), Err(BoardError::CellOccupied));
    assert_eq!(board.cell(4), Cell::Taken(Mark::X));
}

#[test]
fn place_refuses_a_cell_off_the_board() {
    let mut board = Board::new();
    assert_eq!(board.place(3, 0, Mark::X), Err(BoardError::OutOfRange));
    assert_eq!(board.place(0, 3, Mark::O), Err(BoardError::OutOfRange));
    assert_eq!(board.place(0, 4, Mark::O), Err(BoardError::OutOfRange));
    for index in 0..9usize {
        assert_eq!(board.cell(index), Cell::Empty);
    }
}

#[test]
fn symbols_are_x_o_and_blank() {
    assert_eq!(Mark::X.symbol(), 'X');
    assert_eq!(Mark::O.symbol(), 'O');
    assert_eq!(Cell::Empty.symbol(), ' ');
    assert_eq!(Cell::Taken(Mark::X).symbol(), 'X');
    assert_eq!(Cell::Taken(Mark::O).symbol(), 'O');
    assert_eq!(Mark::X.symbol_str(), "X");
    assert_eq!(Mark::O.symbol_str(), "O");
    assert_eq!(Cell::Empty.symbol_str(), " ");
    assert_eq!(Cell::Taken(Mark::O).symbol_str(), "O");
}

#[test]
fn row_separator_has_the_length_asked_for() {
    assert_eq!(row_separator(0), "");
    assert_eq!(row_separator(1), "-");
    assert_eq!(row_separator(13), "-------------");
    assert_eq!(row_separator(40).len(), 40);
    assert!(row_separator(40).chars().all(|c| c == '-'));
}

#[test]
fn render_of_the_empty_board() {
    let board = Board::new();
    let expected = "|   |   |   |\n-------------\n\
                    |   |   |   |\n-------------\n\
                    |   |   |   |\n-------------\n";
    assert_eq!(board.render(), expected);
}

#[test]
fn render_shows_each_mark_in_its_place() {
    let mut board = Board::new();
    assert_eq!(board.place(0, 0, Mark::X), Ok(()));
    assert_eq!(board.place(1, 1, Mark::O), Ok(()));
    assert_eq!(board.place(0, 2, Mark::X), Ok(()));
    assert_eq!(board.place(2, 1, Mark::O), Ok(()));
    let expected = "| X |   | X |\n-------------\n\
                    |   | O |   |\n-------------\n\
                    |   | O |   |\n-------------\n";
    assert_eq!(board.render(), expected);
}

#[test]
fn render_does_not_change_the_board() {
    let mut board = Board::new();
    assert_eq!(board.place(2, 2, Mark::O), Ok(()));
    let first = board.render();
    let second = board.render();
    assert_eq!(first, second);
    assert_eq!(board.cell(8), Cell::Taken(Mark::O));
    assert_eq!(board.is_empty(0, 0), Ok(true));
}

#[test]
fn a_board_is_full_once_all_nine_cells_are_taken() {
    let mut board = Board::new();
    assert!(!board.is_full());
    let mut placed = 0;
    for row in 0..3u8 {
        for col in 0..3u8 {
            assert!(!board.is_full());
            assert_eq!(board.place(row, col, Mark::O), Ok(()));
            placed += 1;
            assert_eq!(board.is_full(), placed == 9);
        }
    }
    assert!(board.is_full());
}
