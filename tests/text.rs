use rstk::protocol::{decode_line, trim_text, Inbound};
use rstk::split::split_char;
use rstk::text::{i32_to_decimal, u64_to_decimal};

#[test]
fn decimal_text() {
    assert_eq!("0", u64_to_decimal(0));
    assert_eq!("9", u64_to_decimal(9));
    assert_eq!("10", u64_to_decimal(10));
    assert_eq!("18446744073709551615", u64_to_decimal(u64::MAX));
    assert_eq!("-2147483648", i32_to_decimal(i32::MIN));
    assert_eq!("-5", i32_to_decimal(-5));
    assert_eq!("2147483647", i32_to_decimal(i32::MAX));
}

#[test]
fn trimming_matches_str_trim() {
    for s in ["", "   ", " a ", "\t\u{3000}x y\u{a0}\n", "abc", "\u{2003}z"] {
        assert_eq!(s.trim(), trim_text(s));
    }
}

#[test]
fn splitting_matches_str_split() {
    for (s, c) in [("a-b--c", '-'), ("", '-'), ("-", '-'), ("x:y", ':'), ("none", ':')] {
        let expected: Vec<String> = s.split(c).map(String::from).collect();
        assert_eq!(expected, split_char(s, c));
    }
}

#[test]
fn untagged_and_unknown_lines_are_unrecognized() {
    for line in ["hello", "", "cb1x-1-2", "cb1b-only", "clicke"] {
        match decode_line(line) {
            Inbound::Unrecognized { line: l } => assert_eq!(line, l),
            _ => panic!("decoded {:?}", line),
        }
    }
}

#[test]
fn exit_prefix_is_enough() {
    assert!(matches!(decode_line("exit"), Inbound::Exit));
    assert!(matches!(decode_line("exited"), Inbound::Exit));
}
