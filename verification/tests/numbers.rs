use kffmpeg::error::ErrorKind;
use kffmpeg::number::parse_index;

#[test]
fn parses_plain_numbers() {
    assert_eq!(parse_index("0"), Ok(0));
    assert_eq!(parse_index("7"), Ok(7));
    assert_eq!(parse_index("12"), Ok(12));
    assert_eq!(parse_index("1234567890"), Ok(1234567890));
}

#[test]
fn parses_leading_zeros() {
    assert_eq!(parse_index("007"), Ok(7));
    assert_eq!(parse_index("0000"), Ok(0));
}

#[test]
fn parses_leading_plus() {
    assert_eq!(parse_index("+5"), Ok(5));
    assert_eq!(parse_index("+0"), Ok(0));
}

#[test]
fn parses_the_largest_index() {
    assert_eq!(parse_index(&usize::MAX.to_string()), Ok(usize::MAX));
}

#[test]
fn rejects_numbers_too_large() {
    assert_eq!(parse_index("340282366920938463463374607431768211456"), Err(ErrorKind::InvalidInput));
    let mut just_over = usize::MAX.to_string();
    let last = just_over.pop().unwrap();
    just_over.push(char::from_digit(last.to_digit(10).unwrap() + 1, 10).unwrap());
    assert_eq!(parse_index(&just_over), Err(ErrorKind::InvalidInput));
    let ten_times = format!("{}0", usize::MAX);
    assert_eq!(parse_index(&ten_times), Err(ErrorKind::InvalidInput));
}

#[test]
fn rejects_empty_line() {
    assert_eq!(parse_index(""), Err(ErrorKind::InvalidInput));
    assert_eq!(parse_index("+"), Err(ErrorKind::InvalidInput));
}

#[test]
fn rejects_negative_numbers() {
    assert_eq!(parse_index("-1"), Err(ErrorKind::InvalidInput));
    assert_eq!(parse_index("-0"), Err(ErrorKind::InvalidInput));
}

#[test]
fn rejects_text() {
    assert_eq!(parse_index("abc"), Err(ErrorKind::InvalidInput));
    assert_eq!(parse_index("y"), Err(ErrorKind::InvalidInput));
    assert_eq!(parse_index("1a"), Err(ErrorKind::InvalidInput));
    assert_eq!(parse_index("a1"), Err(ErrorKind::InvalidInput));
    assert_eq!(parse_index("0x10"), Err(ErrorKind::InvalidInput));
    assert_eq!(parse_index("1.0"), Err(ErrorKind::InvalidInput));
    assert_eq!(parse_index("1_000"), Err(ErrorKind::InvalidInput));
}

#[test]
fn rejects_blanks_and_signs_inside() {
    assert_eq!(parse_index(" 1"), Err(ErrorKind::InvalidInput));
    assert_eq!(parse_index("1 "), Err(ErrorKind::InvalidInput));
    assert_eq!(parse_index("1 2"), Err(ErrorKind::InvalidInput));
    assert_eq!(parse_index("++1"), Err(ErrorKind::InvalidInput));
    assert_eq!(parse_index("1+"), Err(ErrorKind::InvalidInput));
}

#[test]
fn rejects_digits_of_other_scripts() {
    assert_eq!(parse_index("١٢"), Err(ErrorKind::InvalidInput));
    assert_eq!(parse_index("１"), Err(ErrorKind::InvalidInput));
}

#[test]
fn agrees_with_the_standard_parser() {
    let lines = ["0", "42", "+42", "-42", "", "+", "4 2", "99999999999999999999999", "000123", "12e3"];
    for line in lines {
        assert_eq!(parse_index(line).ok(), line.parse::<usize>().ok());
    }
}
