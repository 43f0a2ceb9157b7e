use rust_erase::number::{parse_u32, parse_u64, parse_usize, u64_to_text, IntErrorKind};
use rust_erase::text::{contains, first_word, lines, second_field, text_eq, trim, words};

#[test]
fn trimming() {
    assert_eq!(trim("  a b \n"), "a b");
    assert_eq!(trim("\u{3000}x\u{a0}"), "x");
    assert_eq!(trim("   "), "");
    assert_eq!(trim(""), "");
    assert_eq!(trim(&trim(" \t y \r\n")), trim(" \t y \r\n"));
}

#[test]
fn splitting_lines() {
    let s = "a\r\nb\n\nc";
    let expect: Vec<String> = s.lines().map(|l| l.to_string()).collect();
    assert_eq!(lines(s), expect);
    assert_eq!(lines("x\n"), vec!["x".to_string()]);
    assert!(lines("").is_empty());
    assert_eq!(lines("\n"), vec!["".to_string()]);
    assert_eq!(lines("a\r"), vec!["a\r".to_string()]);
}

#[test]
fn splitting_words() {
    assert_eq!(words("  sda   sata \n"), vec!["sda".to_string(), "sata".to_string()]);
    assert!(words(" \t ").is_empty());
    assert_eq!(first_word("/dev/sda - M - HDD"), "/dev/sda");
    assert_eq!(first_word("   "), "   ");
    assert_eq!(first_word(""), "");
}

#[test]
fn fields_and_search() {
    assert_eq!(second_field("a:b:c", ':'), Some("b".to_string()));
    assert_eq!(second_field("a:", ':'), Some("".to_string()));
    assert_eq!(second_field("abc", ':'), None);
    assert!(contains("hello world", "o w"));
    assert!(contains("abc", ""));
    assert!(!contains("ab", "abc"));
    assert!(text_eq("q", "q"));
    assert!(!text_eq("q", "Q"));
}

#[test]
fn integers() {
    assert_eq!(parse_u64("1024"), Ok(1024));
    assert_eq!(parse_u64("+7"), Ok(7));
    assert_eq!(parse_u64("18446744073709551615"), Ok(u64::MAX));
    assert_eq!(parse_u64("18446744073709551616"), Err(IntErrorKind::PosOverflow));
    assert_eq!(parse_u64(""), Err(IntErrorKind::Empty));
    assert_eq!(parse_u64("+"), Err(IntErrorKind::InvalidDigit));
    assert_eq!(parse_u64("-1"), Err(IntErrorKind::InvalidDigit));
    assert_eq!(parse_u64("1 2"), Err(IntErrorKind::InvalidDigit));
    assert_eq!(parse_u32("4294967296"), Err(IntErrorKind::PosOverflow));
    assert_eq!(parse_u32("4294967295"), Ok(u32::MAX));
    assert_eq!(parse_usize("12"), Ok(12));
    for s in ["", "+", "-", "12a", "99999999999999999999", "0042", "+0"] {
        let mine = parse_u64(s);
        let std = s.parse::<u64>();
        assert_eq!(mine.is_ok(), std.is_ok(), "{}", s);
        if let (Ok(a), Ok(b)) = (&mine, &std) {
            assert_eq!(a, b);
        }
        if let (Err(a), Err(b)) = (&mine, &std) {
            assert_eq!(a.message(), b.to_string());
        }
    }
}

#[test]
fn decimal_roundtrip() {
    for n in [0u64, 7, 10, 1024, 1234567890, u64::MAX] {
        let t = u64_to_text(n);
        assert_eq!(t, n.to_string());
        assert_eq!(parse_u64(&t), Ok(n));
    }
}
