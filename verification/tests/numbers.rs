use opengl_book_examples::numbers::{parse_number, read_numbers, LineError, NumberError};

#[test]
fn plain_and_signed_numbers_are_read() {
    assert_eq!(parse_number("0"), Ok(0));
    assert_eq!(parse_number("42"), Ok(42));
    assert_eq!(parse_number("+42"), Ok(42));
    assert_eq!(parse_number("-42"), Ok(-42));
    assert_eq!(parse_number("007"), Ok(7));
    assert_eq!(parse_number("-0"), Ok(0));
}

#[test]
fn the_limits_of_sixty_four_bits_are_read() {
    assert_eq!(parse_number("9223372036854775807"), Ok(i64::MAX));
    assert_eq!(parse_number("-9223372036854775808"), Ok(i64::MIN));
    assert_eq!(parse_number("9223372036854775808"), Err(NumberError::PosOverflow));
    assert_eq!(parse_number("-9223372036854775809"), Err(NumberError::NegOverflow));
    assert_eq!(parse_number("99999999999999999999999"), Err(NumberError::PosOverflow));
}

#[test]
fn what_is_not_a_number_is_rejected() {
    assert_eq!(parse_number(""), Err(NumberError::Empty));
    assert_eq!(parse_number("+"), Err(NumberError::InvalidDigit));
    assert_eq!(parse_number("-"), Err(NumberError::InvalidDigit));
    assert_eq!(parse_number(" 1"), Err(NumberError::InvalidDigit));
    assert_eq!(parse_number("1 "), Err(NumberError::InvalidDigit));
    assert_eq!(parse_number("1_000"), Err(NumberError::InvalidDigit));
    assert_eq!(parse_number("--1"), Err(NumberError::InvalidDigit));
    assert_eq!(parse_number("12a"), Err(NumberError::InvalidDigit));
    assert_eq!(parse_number("\u{663}"), Err(NumberError::InvalidDigit));
    assert_eq!(parse_number("99999999999999999999x"), Err(NumberError::PosOverflow));
}

#[test]
fn parsing_agrees_with_the_standard_library() {
    let samples = [
        "", "+", "-", "0", "-0", "+0", "12", "-12", "+12", "1x", "x1", " 1", "9223372036854775807",
        "9223372036854775808", "-9223372036854775808", "-9223372036854775809", "0000000000000000000001",
    ];
    for sample in samples {
        assert_eq!(parse_number(sample).ok(), sample.parse::<i64>().ok());
    }
}

#[test]
fn lines_of_numbers_are_read_in_order() {
    let lines = vec!["1".to_string(), "-2".to_string(), "+3".to_string()];
    assert_eq!(read_numbers(&lines), Ok(vec![1, -2, 3]));
    assert_eq!(read_numbers(&Vec::new()), Ok(vec![]));
}

#[test]
fn the_first_bad_line_is_reported() {
    let lines = vec!["1".to_string(), "".to_string(), "x".to_string()];
    assert_eq!(read_numbers(&lines), Err(LineError { line: 1, kind: NumberError::Empty }));
    let lines = vec!["1".to_string(), "2".to_string(), "3x".to_string()];
    assert_eq!(read_numbers(&lines), Err(LineError { line: 2, kind: NumberError::InvalidDigit }));
}
