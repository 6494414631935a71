use alacritty_conf::{Window, WindowSizeParseError};

#[test]
fn window_constructors() {
    assert_eq!(Window::new(100, 30), Window { width: 100, height: 30 });
    assert_eq!(Window::default(), Window { width: 80, height: 25 });
    assert_eq!(Window::new_or_default(Some(100), Some(30)), Window::new(100, 30));
    assert_eq!(Window::new_or_default(Some(100), None), Window::new(80, 25));
    assert_eq!(Window::new_or_default(None, Some(30)), Window::new(80, 25));
    assert_eq!(Window::new_or_default(None, None), Window::new(80, 25));
}

#[test]
fn dimensions_parse() {
    assert_eq!(Window::from_dimensions("80x25").unwrap(), Window::new(80, 25));
    assert_eq!("100x30".parse::<Window>().unwrap(), Window::new(100, 30));
    assert_eq!(Window::from_dimensions("0x65535").unwrap(), Window::new(0, 65535));
    assert_eq!(Window::from_dimensions("+80x025").unwrap(), Window::new(80, 25));
}

#[test]
fn dimensions_trailing_x_is_an_extra_field() {
    assert!(matches!(Window::from_dimensions("80x25x"), Err(WindowSizeParseError::TooManyXs)));
    assert!(matches!(Window::from_dimensions("80xx"), Err(WindowSizeParseError::TooManyXs)));
}

#[test]
fn dimensions_too_many_delimiters() {
    assert!(matches!(Window::from_dimensions("80x25x10"), Err(WindowSizeParseError::TooManyXs)));
    assert!(matches!("80x25x10".parse::<Window>(), Err(WindowSizeParseError::TooManyXs)));
    assert!(matches!(Window::from_dimensions("80"), Err(WindowSizeParseError::TooManyXs)));
    assert!(matches!(Window::from_dimensions(""), Err(WindowSizeParseError::TooManyXs)));
    assert!(matches!(Window::from_dimensions("xx"), Err(WindowSizeParseError::TooManyXs)));
}

#[test]
fn dimensions_first_field_fails() {
    assert!(matches!(Window::from_dimensions("abcx25"), Err(WindowSizeParseError::IntParse(0, _))));
    assert!(matches!("abcx25".parse::<Window>(), Err(WindowSizeParseError::IntParse(0, _))));
    assert!(matches!(Window::from_dimensions("x25"), Err(WindowSizeParseError::IntParse(0, _))));
    assert!(matches!(Window::from_dimensions("x"), Err(WindowSizeParseError::IntParse(0, _))));
    assert!(matches!(Window::from_dimensions("65536x25"), Err(WindowSizeParseError::IntParse(0, _))));
    assert!(matches!(Window::from_dimensions("-1x25"), Err(WindowSizeParseError::IntParse(0, _))));
    assert!(matches!(Window::from_dimensions(" 80x25"), Err(WindowSizeParseError::IntParse(0, _))));
}

#[test]
fn dimensions_second_field_fails() {
    assert!(matches!(Window::from_dimensions("80xabc"), Err(WindowSizeParseError::IntParse(1, _))));
    assert!(matches!(Window::from_dimensions("80x"), Err(WindowSizeParseError::IntParse(1, _))));
    assert!(matches!(Window::from_dimensions("80x70000"), Err(WindowSizeParseError::IntParse(1, _))));
}

#[test]
fn dimensions_round_trip_of_sizes() {
    for (w, h) in [(0u16, 0u16), (1, 65535), (80, 25), (65535, 1), (1234, 567)] {
        assert_eq!(format!("{}x{}", w, h).parse::<Window>().unwrap(), Window::new(w, h));
    }
}

#[test]
fn dimension_error_messages() {
    assert_eq!(
        WindowSizeParseError::TooManyXs.to_string(),
        "too many dimensions; only one 'x' delimiter is allowed"
    );
    let first = Window::from_dimensions("abcx25").unwrap_err().to_string();
    assert_eq!(first, "first integer failed to parse: invalid digit found in string");
    let second = Window::from_dimensions("80x").unwrap_err().to_string();
    assert_eq!(second, "second integer failed to parse: cannot parse integer from empty string");
    let second = Window::from_dimensions("80x99999").unwrap_err().to_string();
    assert_eq!(second, "second integer failed to parse: number too large to fit in target type");
}

#[test]
fn window_block_text() {
    assert_eq!(
        Window::new(100, 30).to_string(),
        "window:\n    dimensions:\n        columns: 100\n        lines: 30"
    );
    assert_eq!(
        Window::new(0, 65535).to_string(),
        "window:\n    dimensions:\n        columns: 0\n        lines: 65535"
    );
}
