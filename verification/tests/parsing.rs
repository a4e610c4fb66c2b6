use parser_rust::grammar::Meridiem;
use parser_rust::parser::time;
use parser_rust::parser::ParseError;
use parser_rust::parser::TimeParser;

#[test]
fn parser_test_time_parser_ok() {
    let table = vec![
        ("4PM", 16 * 60),
        ("12AM", 0),
        ("12PM", 12 * 60),
        ("7:38PM", 19 * 60 + 38),
        ("23:42", 23 * 60 + 42),
        ("3:16", 3 * 60 + 16),
        ("3:16AM", 3 * 60 + 16),
        ("12:00AM", 0),
        ("12:00PM", 12 * 60),
        ("1AM", 1 * 60),
        ("1PM", 13 * 60),
        ("0:00", 0),
        ("23:59", 23 * 60 + 59),
        ("9AM", 9 * 60),
        ("9:05PM", 21 * 60 + 5),
    ];

    for (input, expected) in table {
        let result = time(input);
        assert_eq!(result, Ok(expected), "Failed to parse '{}'", input);
    }
}

#[test]
fn parser_test_time_parser_ng() {
    let table = vec!["00:00", "24:00", "13:60", "0AM", "12:61PM", "abc"];

    for input in table {
        let result = time(input);
        assert!(result.is_err(), "Expected error for '{}'", input);
    }
}

#[test]
fn regex_test_time_parser_ok() {
    let table = vec![
        ("4PM", 16 * 60),
        ("12AM", 0),
        ("12PM", 12 * 60),
        ("7:38PM", 19 * 60 + 38),
        ("23:42", 23 * 60 + 42),
        ("3:16", 3 * 60 + 16),
        ("3:16AM", 3 * 60 + 16),
        ("12:00AM", 0),
        ("12:00PM", 12 * 60),
        ("1AM", 1 * 60),
        ("1PM", 13 * 60),
        ("0:00", 0),
        ("23:59", 23 * 60 + 59),
        ("9AM", 9 * 60),
        ("9:05PM", 21 * 60 + 5),
    ];

    for (input, expected) in table {
        let parser = TimeParser::new();
        let result = parser.parse(input);
        assert_eq!(result, Some(expected), "Failed to parse '{}'", input);
    }
}

#[test]
fn regex_test_time_parser_ng() {
    let table = vec!["00:00", "24:00", "13:60", "0AM", "12:61PM", "abc"];

    for input in table {
        let parser = TimeParser::new();
        let result = parser.parse(input);
        assert_eq!(result, None, "Expected error for '{}'", input);
    }
}

#[test]
fn hour12_conversion_values() {
    assert_eq!(TimeParser::hour12_to_24(12, Meridiem::Am), 0);
    assert_eq!(TimeParser::hour12_to_24(12, Meridiem::Pm), 12);
    assert_eq!(TimeParser::hour12_to_24(1, Meridiem::Am), 1);
    assert_eq!(TimeParser::hour12_to_24(1, Meridiem::Pm), 13);
    assert_eq!(TimeParser::hour12_to_24(11, Meridiem::Pm), 23);
}

#[test]
fn full12_accepts_every_valid_spelling() {
    let parser = TimeParser::new();
    assert_eq!(parser.parse("11:07AM"), Some(11 * 60 + 7));
    assert_eq!(parser.parse("10:45PM"), Some(22 * 60 + 45));
    assert_eq!(parser.parse("1:00AM"), Some(60));
    assert_eq!(parser.parse("12:59PM"), Some(12 * 60 + 59));
}

#[test]
fn full24_accepts_every_valid_spelling() {
    let parser = TimeParser::new();
    assert_eq!(parser.parse("20:05"), Some(20 * 60 + 5));
    assert_eq!(parser.parse("10:00"), Some(600));
    assert_eq!(parser.parse("9:59"), Some(9 * 60 + 59));
}

#[test]
fn short_accepts_every_valid_spelling() {
    let parser = TimeParser::new();
    assert_eq!(parser.parse("10AM"), Some(600));
    assert_eq!(parser.parse("11PM"), Some(23 * 60));
    assert_eq!(parser.parse("10PM"), Some(22 * 60));
}

#[test]
fn minute_boundary() {
    let parser = TimeParser::new();
    assert_eq!(parser.parse("23:59"), Some(1439));
    assert_eq!(parser.parse("23:60"), None);
    assert_eq!(parser.parse("9:59PM"), Some(21 * 60 + 59));
    assert_eq!(parser.parse("9:60PM"), None);
}

#[test]
fn hour24_boundary() {
    let parser = TimeParser::new();
    assert_eq!(parser.parse("23:00"), Some(23 * 60));
    assert_eq!(parser.parse("24:00"), None);
}

#[test]
fn hour12_boundary() {
    let parser = TimeParser::new();
    assert_eq!(parser.parse("12PM"), Some(720));
    assert_eq!(parser.parse("13PM"), None);
    assert_eq!(parser.parse("01PM"), None);
    assert_eq!(parser.parse("01:30PM"), None);
}

#[test]
fn leading_zero_hour24_rejected() {
    let parser = TimeParser::new();
    assert_eq!(parser.parse("5:30"), Some(5 * 60 + 30));
    assert_eq!(parser.parse("05:30"), None);
}

#[test]
fn no_partial_match() {
    let parser = TimeParser::new();
    assert_eq!(parser.parse(""), None);
    assert_eq!(parser.parse("4PMX"), None);
    assert_eq!(parser.parse(" 4PM"), None);
    assert_eq!(parser.parse("12:00AMx"), None);
    assert_eq!(parser.parse("7:38"), Some(7 * 60 + 38));
    assert_eq!(parser.parse("7:38P"), None);
}

#[test]
fn meridiem_is_case_sensitive() {
    let parser = TimeParser::new();
    assert_eq!(parser.parse("4pm"), None);
    assert_eq!(parser.parse("4Pm"), None);
    assert_eq!(parser.parse("4AM"), Some(4 * 60));
}

#[test]
fn malformed_time_error_value() {
    assert_eq!(time("abc"), Err(ParseError::MalformedTime));
    assert_eq!(time(""), Err(ParseError::MalformedTime));
    assert_eq!(time("4PM"), Ok(960));
}

#[test]
fn repeated_calls_agree() {
    let parser = TimeParser::new();
    let first = parser.parse("7:38PM");
    let second = parser.parse("7:38PM");
    assert_eq!(first, second);
    let other = TimeParser::new();
    assert_eq!(other.parse("7:38PM"), first);
    assert_eq!(time("7:38PM"), Ok(1178));
    assert_eq!(time("7:38PM"), Ok(1178));
}
