use tictactoe::input::parse_coordinate;

#[test]
fn line_with_newline_and_spaces_parses() {
    assert_eq!(parse_coordinate(" 1\n"), Some(1));
    assert_eq!(parse_coordinate("\t2  \r\n"), Some(2));
    assert_eq!(parse_coordinate("0"), Some(0));
}

#[test]
fn plus_sign_and_large_numbers() {
    assert_eq!(parse_coordinate("+2\n"), Some(2));
    assert_eq!(parse_coordinate("42"), Some(42));
    assert_eq!(parse_coordinate("007"), Some(7));
}

#[test]
fn malformed_lines_give_none() {
    assert_eq!(parse_coordinate("a\n"), None);
    assert_eq!(parse_coordinate(""), None);
    assert_eq!(parse_coordinate("\n"), None);
    assert_eq!(parse_coordinate("-1"), None);
    assert_eq!(parse_coordinate("+"), None);
    assert_eq!(parse_coordinate("1 2"), None);
    assert_eq!(parse_coordinate("1.0"), None);
    assert_eq!(parse_coordinate("99999999999999999999999999"), None);
}
