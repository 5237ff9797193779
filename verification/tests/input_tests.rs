use tictactoe::{parse_input, parse_move, Input, ParseError};

fn indices(text: &str) -> (u8, u8) {
    let cell = parse_move(text).unwrap();
    (cell.row(), cell.col())
}

#[test]
fn two_three_is_row_one_column_two() {
    assert_eq!(indices("23"), (1, 2));
}

#[test]
fn every_cell_can_be_named() {
    assert_eq!(indices("11"), (0, 0));
    assert_eq!(indices("12"), (0, 1));
    assert_eq!(indices("13"), (0, 2));
    assert_eq!(indices("21"), (1, 0));
    assert_eq!(indices("22"), (1, 1));
    assert_eq!(indices("31"), (2, 0));
    assert_eq!(indices("32"), (2, 1));
    assert_eq!(indices("33"), (2, 2));
}

#[test]
fn equal_texts_give_equal_coordinates() {
    assert_eq!(parse_move("31"), parse_move("31"));
    assert_ne!(parse_move("31"), parse_move("13"));
}

#[test]
fn digits_above_three_are_too_large() {
    assert_eq!(parse_move("44"), Err(ParseError::TooLarge));
    assert_eq!(parse_move("41"), Err(ParseError::TooLarge));
    assert_eq!(parse_move("14"), Err(ParseError::TooLarge));
    assert_eq!(parse_move("99"), Err(ParseError::TooLarge));
}

#[test]
fn zero_is_too_small() {
    assert_eq!(parse_move("00"), Err(ParseError::TooSmall));
    assert_eq!(parse_move("01"), Err(ParseError::TooSmall));
    assert_eq!(parse_move("30"), Err(ParseError::TooSmall));
}

#[test]
fn too_large_is_reported_before_too_small() {
    assert_eq!(parse_move("04"), Err(ParseError::TooLarge));
    assert_eq!(parse_move("90"), Err(ParseError::TooLarge));
}

#[test]
fn wrong_length_is_invalid_input() {
    assert_eq!(parse_move("1"), Err(ParseError::InvalidInput));
    assert_eq!(parse_move(""), Err(ParseError::InvalidInput));
    assert_eq!(parse_move("123"), Err(ParseError::InvalidInput));
    assert_eq!(parse_move("11\n"), Err(ParseError::InvalidInput));
    assert_eq!(parse_move(" 11"), Err(ParseError::InvalidInput));
}

#[test]
fn text_outside_ascii_is_invalid_input() {
    assert_eq!(parse_move("é"), Err(ParseError::InvalidInput));
    assert_eq!(parse_move("1é"), Err(ParseError::InvalidInput));
    assert_eq!(parse_move("éé"), Err(ParseError::InvalidInput));
    assert_eq!(parse_move("١١"), Err(ParseError::InvalidInput));
}

#[test]
fn a_row_that_is_no_digit() {
    assert_eq!(parse_move("a1"), Err(ParseError::NonDecimalRow));
    assert_eq!(parse_move("x9"), Err(ParseError::NonDecimalRow));
    assert_eq!(parse_move("/1"), Err(ParseError::NonDecimalRow));
    assert_eq!(parse_move(":1"), Err(ParseError::NonDecimalRow));
    assert_eq!(parse_move("-1"), Err(ParseError::NonDecimalRow));
}

#[test]
fn the_row_is_looked_at_before_the_column() {
    assert_eq!(parse_move("ab"), Err(ParseError::NonDecimalRow));
    assert_eq!(parse_move("qq"), Err(ParseError::NonDecimalRow));
}

#[test]
fn a_column_that_is_no_digit() {
    assert_eq!(parse_move("1a"), Err(ParseError::NonDecimalColumn));
    assert_eq!(parse_move("9 "), Err(ParseError::NonDecimalColumn));
    assert_eq!(parse_move("0/"), Err(ParseError::NonDecimalColumn));
    assert_eq!(parse_move("2:"), Err(ParseError::NonDecimalColumn));
}

#[test]
fn rejection_is_the_same_every_time() {
    for text in ["", "1", "44", "00", "a1", "1a", "Q", "hello", "é"] {
        let first = parse_move(text);
        assert!(first.is_err());
        for _ in 0..5 {
            assert_eq!(parse_move(text), first);
        }
    }
}

#[test]
fn q_alone_is_not_a_move() {
    assert_eq!(parse_move("q"), Err(ParseError::InvalidInput));
}

#[test]
fn q_asks_to_quit() {
    assert_eq!(parse_input("q"), Ok(Input::Quit));
}

#[test]
fn only_lower_case_q_quits() {
    assert_eq!(parse_input("Q"), Err(ParseError::InvalidInput));
    assert_eq!(parse_input("qq"), Err(ParseError::NonDecimalRow));
    assert_eq!(parse_input("q\n"), Err(ParseError::NonDecimalRow));
    assert_eq!(parse_input("1q"), Err(ParseError::NonDecimalColumn));
    assert_eq!(parse_input(" q"), Err(ParseError::NonDecimalRow));
    assert_eq!(parse_input("quit"), Err(ParseError::InvalidInput));
    assert_eq!(parse_input("p"), Err(ParseError::InvalidInput));
    assert_eq!(parse_input("r"), Err(ParseError::InvalidInput));
}

#[test]
fn input_that_is_a_move() {
    match parse_input("23") {
        Ok(Input::Move(cell)) => {
            assert_eq!(cell.row(), 1);
            assert_eq!(cell.col(), 2);
        }
        other => panic!("expected a move, got {:?}", other),
    }
    assert_eq!(parse_input("32"), Ok(Input::Move(parse_move("32").unwrap())));
}

#[test]
fn input_that_is_refused_carries_the_reason() {
    assert_eq!(parse_input(""), Err(ParseError::InvalidInput));
    assert_eq!(parse_input("1"), Err(ParseError::InvalidInput));
    assert_eq!(parse_input("44"), Err(ParseError::TooLarge));
    assert_eq!(parse_input("00"), Err(ParseError::TooSmall));
    assert_eq!(parse_input("a1"), Err(ParseError::NonDecimalRow));
    assert_eq!(parse_input("1a"), Err(ParseError::NonDecimalColumn));
}

#[test]
fn each_reason_has_its_own_message() {
    let reasons = [
        ParseError::InvalidInput,
        ParseError::NonDecimalRow,
        ParseError::NonDecimalColumn,
        ParseError::TooLarge,
        ParseError::TooSmall,
    ];
    for (i, first) in reasons.iter().enumerate() {
        assert!(!first.message().is_empty());
        for (j, second) in reasons.iter().enumerate() {
            assert_eq!(i == j, first.message() == second.message());
        }
    }
}

#[test]
fn messages_word_for_word() {
    assert_eq!(ParseError::InvalidInput.message(), "Invalid input. Try again.");
    assert_eq!(ParseError::NonDecimalRow.message(), "Non-decimal row value. Try again!");
    assert_eq!(ParseError::NonDecimalColumn.message(), "Non-decimal column value. Try again!");
    assert_eq!(
        ParseError::TooLarge.message(),
        "Column and/or row value too big (needs to be at most 3). Try again."
    );
    assert_eq!(
        ParseError::TooSmall.message(),
        "Column and/or row value too small (needs to be at least 1). Try again."
    );
}
