use sociacli::text::{
    chars_of, contains, is_before, join, pad, parse_u32, same, split_once, strip_end,
    to_ascii_lowercase, to_decimal, to_signed_decimal, trim, upper,
};

#[test]
fn texts_are_same_by_their_characters() {
    assert!(same("é", "é"));
    assert!(!same("a", "A"));
}

#[test]
fn characters_come_and_go() {
    assert_eq!(chars_of("aé→"), vec!['a', 'é', '→']);
}

#[test]
fn only_ascii_letters_are_lowered() {
    assert_eq!(to_ascii_lowercase("ÉOn1"), "Éon1");
    assert_eq!(upper('q'), 'Q');
}

#[test]
fn trimming_is_what_std_does() {
    for s in ["", "  ", " a b ", "\u{a0}x\u{3000}", "\tq\r\n", "no", "\u{200b}x"] {
        assert_eq!(trim(s), s.trim());
    }
}

#[test]
fn ends_are_stripped() {
    assert_eq!(strip_end("https://a//", '/'), "https://a");
    assert_eq!(strip_end("///", '/'), "");
    assert_eq!(strip_end("a", '/'), "a");
}

#[test]
fn searching_finds_what_is_there() {
    assert!(contains("hello", "ell"));
    assert!(contains("hello", ""));
    assert!(contains("", ""));
    assert!(!contains("hell", "hello"));
    assert!(contains("aab", "ab"));
}

#[test]
fn splitting_takes_the_first() {
    assert_eq!(split_once("a=b=c", '='), Some(("a".to_string(), "b=c".to_string())));
    assert_eq!(split_once("=", '='), Some((String::new(), String::new())));
    assert_eq!(split_once("abc", '='), None);
}

#[test]
fn joining_puts_separators_between() {
    let v = vec!["a".to_string(), "b".to_string(), "c".to_string()];
    assert_eq!(join(&v, " "), "a b c");
    assert_eq!(join(&vec![], " "), "");
}

#[test]
fn numbers_are_written_as_std_does() {
    for n in [0u64, 7, 10, 86_400, u64::MAX] {
        assert_eq!(to_decimal(n), n.to_string());
    }
    for n in [0i64, -1, 42, i64::MIN, i64::MAX] {
        assert_eq!(to_signed_decimal(n), n.to_string());
    }
}

#[test]
fn numbers_are_read_as_std_does() {
    for s in ["", "+", "0", "+12", "4294967295", "4294967296", "-1", "1 ", "12a", "00099999999999"] {
        assert_eq!(parse_u32(s), s.parse::<u32>().ok());
    }
}

#[test]
fn padding_fills_up_on_the_right() {
    assert_eq!(pad("ptt", 10), format!("{:10}", "ptt"));
    assert_eq!(pad("a long name here", 10), "a long name here");
}

#[test]
fn the_order_is_that_of_std() {
    let words = ["", "a", "ab", "b", "B", "é", "\u{1f600}", "\u{ffff}"];
    for a in words {
        for b in words {
            assert_eq!(is_before(a, b), a < b);
        }
    }
}
