use task_tracker::task::TaskError;
use task_tracker::text::{append_decimal, chars_of, parse_position, same_text};

fn written(n: usize) -> String {
    let mut out = String::new();
    append_decimal(&mut out, n);
    out
}

#[test]
fn chars_of_gives_the_characters_in_order() {
    assert_eq!(chars_of(""), Vec::<char>::new());
    assert_eq!(chars_of("add x"), vec!['a', 'd', 'd', ' ', 'x']);
    assert_eq!(chars_of("é✓"), vec!['é', '✓']);
}

#[test]
fn same_text_compares_character_by_character() {
    assert!(same_text("", ""));
    assert!(same_text("view", "view"));
    assert!(!same_text("view", "views"));
    assert!(!same_text("view", "viEw"));
    assert!(!same_text("", " "));
    assert!(!same_text("remove", "removf"));
    assert!(same_text("é✓", "\u{e9}\u{2713}"));
}

#[test]
fn append_decimal_writes_behind_what_is_there() {
    let mut out = String::from("n=");
    append_decimal(&mut out, 305);
    assert_eq!(out, "n=305");
    append_decimal(&mut out, 0);
    assert_eq!(out, "n=3050");
}

#[test]
fn append_decimal_writes_small_and_large_numbers() {
    assert_eq!(written(0), "0");
    assert_eq!(written(7), "7");
    assert_eq!(written(9), "9");
    assert_eq!(written(10), "10");
    assert_eq!(written(99), "99");
    assert_eq!(written(100), "100");
    assert_eq!(written(1234567890), "1234567890");
    assert_eq!(written(usize::MAX), usize::MAX.to_string());
}

#[test]
fn append_decimal_agrees_with_the_standard_rendering() {
    for n in 0..20000usize {
        assert_eq!(written(n), n.to_string());
    }
    let mut n: usize = 1;
    while n < usize::MAX / 7 {
        assert_eq!(written(n), n.to_string());
        assert_eq!(written(n - 1), (n - 1).to_string());
        n = n * 7 + 3;
    }
}

#[test]
fn parse_position_reads_plain_numerals() {
    assert_eq!(parse_position("0"), Ok(0));
    assert_eq!(parse_position("1"), Ok(1));
    assert_eq!(parse_position("12"), Ok(12));
    assert_eq!(parse_position("4096"), Ok(4096));
}

#[test]
fn parse_position_takes_a_plus_and_leading_zeros() {
    assert_eq!(parse_position("+3"), Ok(3));
    assert_eq!(parse_position("007"), Ok(7));
    assert_eq!(parse_position("+007"), Ok(7));
    assert_eq!(parse_position("0000000000000000000000000000000000012"), Ok(12));
}

#[test]
fn parse_position_rejects_what_is_not_a_numeral() {
    for text in [
        "", "+", "-", "-1", "- 1", "+-1", "++1", "1+", "abc", "1a", "a1", " 1", "1 ", "1 2",
        "1.0", "1e3", "0x10", "1_000", "\u{661}", "１", "\t1", "1\n",
    ] {
        assert_eq!(parse_position(text), Err(TaskError::ParseError), "{:?}", text);
    }
}

#[test]
fn parse_position_takes_the_largest_value_and_rejects_the_next() {
    let largest = usize::MAX.to_string();
    assert_eq!(parse_position(&largest), Ok(usize::MAX));
    let mut digits: Vec<u8> = largest.clone().into_bytes();
    let last = digits.len() - 1;
    digits[last] += 1;
    let next = String::from_utf8(digits).unwrap();
    assert_eq!(parse_position(&next), Err(TaskError::ParseError));
    assert_eq!(parse_position(&format!("{}0", largest)), Err(TaskError::ParseError));
    assert_eq!(
        parse_position("99999999999999999999999999999999999999999"),
        Err(TaskError::ParseError)
    );
    assert_eq!(
        parse_position("99999999999999999999999999999999999999999x"),
        Err(TaskError::ParseError)
    );
}

#[test]
fn parse_position_agrees_with_the_standard_parser() {
    let pieces = ["", "+", "-", "0", "1", "9", "42", " ", "a", "18446744073709551615", "00"];
    for a in pieces {
        for b in pieces {
            for c in pieces {
                let text = format!("{}{}{}", a, b, c);
                let expected = text.parse::<usize>().map_err(|_| TaskError::ParseError);
                assert_eq!(parse_position(&text), expected, "{:?}", text);
            }
        }
    }
}

#[test]
fn a_written_position_reads_back() {
    for n in [0usize, 1, 9, 10, 11, 99, 100, 65535, 65536, usize::MAX - 1, usize::MAX] {
        assert_eq!(parse_position(&written(n)), Ok(n));
    }
}
