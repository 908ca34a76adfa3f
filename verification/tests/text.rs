use whois_service::text::{
    begins_with, char_is_space, chars_of, decimal, finishes_with, has_text,
    head_before_first, is_text, joined, leading_chars, leading_token, lowered, matches_at,
    parse_unsigned,
    position_from, position_of, rest_after_token, same_text, slice_of, split_lines, string_of,
    tail_after_last, trimmed,
};

fn chars(s: &str) -> Vec<char> {
    s.chars().collect()
}

fn text(v: Vec<char>) -> String {
    v.into_iter().collect()
}

#[test]
fn white_space_is_what_the_standard_library_takes_for_it() {
    for code in 0..=0x10ffffu32 {
        if let Some(c) = char::from_u32(code) {
            assert_eq!(char_is_space(c), c.is_whitespace(), "U+{:04X}", code);
        }
    }
}

#[test]
fn trimming_agrees_with_the_standard_library() {
    let samples = [
        "", " ", "a", "  a b  ", "\t\r\nx\u{a0}\u{3000}", "\u{2003}mid dle\u{2028}", "\u{200b}zero\u{200b}",
        "no-space", "   ", " é ",
    ];
    for s in samples {
        assert_eq!(text(trimmed(&chars(s))), s.trim());
    }
}

#[test]
fn lines_agree_with_the_standard_library() {
    let samples = [
        "", "\n", "a", "a\n", "a\nb", "a\r\nb\r\n", "a\n\nb", "\r\n", "a\r", "a\r\n\r\nb\r", "\n\n\n",
        "x\ry\nz", "last\r\n\r",
    ];
    for s in samples {
        let got: Vec<String> = split_lines(&chars(s)).into_iter().map(text).collect();
        let expected: Vec<String> = s.lines().map(String::from).collect();
        assert_eq!(got, expected, "{:?}", s);
    }
}

#[test]
fn lower_case_is_what_the_standard_library_gives() {
    for s in ["", "ABC", "MiXeD 123", "ÉCOLE", "ΣΑΣ", "İstanbul", "already"] {
        assert_eq!(text(lowered(&chars(s))), s.to_lowercase());
    }
}

#[test]
fn texts_are_found_inside_texts() {
    let v = chars("registrar registration expiration date");
    assert!(has_text(&v, "expir"));
    assert!(has_text(&v, "registrar"));
    assert!(has_text(&v, "date"));
    assert!(has_text(&v, ""));
    assert!(!has_text(&v, "expires"));
    assert!(!has_text(&chars(""), "a"));
    assert!(has_text(&chars(""), ""));
    assert!(begins_with(&v, "registrar"));
    assert!(!begins_with(&v, "egistrar"));
    assert!(finishes_with(&v, "date"));
    assert!(!finishes_with(&v, "dat"));
    assert!(is_text(&chars("ns"), "ns"));
    assert!(!is_text(&chars("nss"), "ns"));
    assert!(!is_text(&chars("n"), "ns"));
    assert!(matches_at(&v, &chars("registration"), 10));
    assert!(!matches_at(&v, &chars("registration"), 9));
    assert!(!matches_at(&v, &chars("date"), 100));
    assert!(same_text("a", "a"));
    assert!(!same_text("a", "A"));
}

#[test]
fn characters_are_found_by_position() {
    let v = chars("a:b:c");
    assert_eq!(position_of(&v, ':'), 1);
    assert_eq!(position_of(&v, 'x'), 5);
    assert_eq!(position_from(&v, 2, ':'), 3);
    assert_eq!(position_from(&v, 4, ':'), 5);
    assert_eq!(position_from(&v, 5, ':'), 5);
    assert_eq!(text(head_before_first(&v, ':')), "a");
    assert_eq!(text(head_before_first(&v, 'x')), "a:b:c");
    assert_eq!(text(tail_after_last(&v, ':')), "c");
    assert_eq!(text(tail_after_last(&v, 'x')), "a:b:c");
    assert_eq!(text(slice_of(&v, 1, 4)), ":b:");
    assert_eq!(text(slice_of(&v, 2, 2)), "");
}

#[test]
fn tokens_are_runs_without_white_space() {
    for s in ["ns1.example.com 192.0.2.1", "  two  tokens ", "one", "", "   ", "a\tb\nc"] {
        let mut parts = s.split_whitespace();
        assert_eq!(text(leading_token(&chars(s))), parts.next().unwrap_or(""));
        assert_eq!(
            text(leading_token(&rest_after_token(&chars(s)))),
            parts.next().unwrap_or("")
        );
    }
}

#[test]
fn numbers_are_written_in_decimal() {
    for n in [0usize, 1, 9, 10, 11, 99, 100, 101, 12345, 1_000_000, usize::MAX] {
        assert_eq!(text(decimal(n)), n.to_string());
    }
}

#[test]
fn texts_are_put_together_and_taken_apart() {
    assert_eq!(joined("whois.", "io"), "whois.io");
    assert_eq!(joined("", ""), "");
    assert_eq!(chars_of("héllo"), chars("héllo"));
    assert_eq!(string_of(&chars("héllo")), "héllo");
    assert_eq!(leading_chars("héllo", 2), "hé");
    assert_eq!(leading_chars("héllo", 5), "héllo");
    assert_eq!(leading_chars("héllo", 50), "héllo");
    assert_eq!(leading_chars("héllo", 0), "");
}

#[test]
fn numbers_are_read_as_the_standard_library_reads_them() {
    let samples = [
        "", "+", "-", "0", "+0", "-0", "007", "42", "+42", "-42", "++1", "+-1", "1+", " 1", "1 ",
        "65535", "65536", "+65535", "18446744073709551615", "18446744073709551616",
        "+18446744073709551615", "99999999999999999999999", "000000000000000000000000000001",
        "1_000", "0x10", "1e3", "１２", "٣", "1.0", "a", "9a",
    ];
    for s in samples {
        assert_eq!(parse_unsigned(s, u64::MAX), s.parse::<u64>().ok(), "{:?}", s);
        assert_eq!(
            parse_unsigned(s, 65535),
            s.parse::<u16>().ok().map(u64::from),
            "{:?}",
            s
        );
    }
    assert_eq!(parse_unsigned("5", 4), None);
    assert_eq!(parse_unsigned("4", 4), Some(4));
    assert_eq!(parse_unsigned("0", 0), Some(0));
    assert_eq!(parse_unsigned("1", 0), None);
}
