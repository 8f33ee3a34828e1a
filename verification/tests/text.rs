use robot_runner::number::{decimal, parse_i32, parse_u64, parse_u8, parse_unsigned};
use robot_runner::text::{
    chars_of, contains, ends_with, find, head, is_whitespace, join, lines, same_text, split,
    split_whitespace, starts_with, string_of, tail, trim, trim_end,
};

fn strings(items: &[&str]) -> Vec<String> {
    items.iter().map(|s| s.to_string()).collect()
}

#[test]
fn same_text_compares_characters() {
    assert!(same_text("", ""));
    assert!(same_text("emulator-5554", "emulator-5554"));
    assert!(!same_text("emulator-5554", "emulator-5556"));
    assert!(!same_text("abc", "ab"));
    assert!(!same_text("ab", "abc"));
    assert!(same_text("gerät", "gerät"));
    assert!(!same_text("gerät", "gerat"));
}

#[test]
fn chars_of_lists_characters() {
    assert_eq!(chars_of(""), Vec::<char>::new());
    assert_eq!(chars_of("a b"), vec!['a', ' ', 'b']);
    assert_eq!(chars_of("é1"), vec!['é', '1']);
}

#[test]
fn string_of_takes_a_stretch() {
    let chars = vec!['a', 'b', 'c', 'd'];
    assert_eq!(string_of(&chars, 1, 3), "bc");
    assert_eq!(string_of(&chars, 0, 4), "abcd");
    assert_eq!(string_of(&chars, 2, 2), "");
}

#[test]
fn whitespace_is_what_std_calls_whitespace() {
    for n in 0..0x3100u32 {
        if let Some(c) = char::from_u32(n) {
            assert_eq!(is_whitespace(c), c.is_whitespace(), "U+{:04X}", n);
        }
    }
}

#[test]
fn trim_matches_std() {
    for s in ["", " ", "a", "  a b  ", "\t\n x\r\n", "\u{a0}x\u{3000}", "x  ", "  x", " \u{85} "] {
        assert_eq!(trim(s), s.trim());
        assert_eq!(trim_end(s), s.trim_end());
    }
    assert_eq!(trim("  1234 \n"), "1234");
    assert_eq!(trim_end("  line \r\n"), "  line");
}

#[test]
fn split_whitespace_matches_std() {
    for s in ["", "   ", "a", " a  b\tc\n", "shell pm list packages", "x\u{a0}y", " lead", "trail "] {
        let expected: Vec<String> = s.split_whitespace().map(|w| w.to_string()).collect();
        assert_eq!(split_whitespace(s), expected);
    }
    assert_eq!(split_whitespace("  -p  4723 --relaxed "), strings(&["-p", "4723", "--relaxed"]));
}

#[test]
fn lines_matches_std() {
    for s in ["", "\n", "a", "a\n", "a\nb", "a\r\nb\r\n", "a\r", "a\n\nb", "\r\n", "a\rb\n", "x\n\r\ny"] {
        let expected: Vec<String> = s.lines().map(|w| w.to_string()).collect();
        assert_eq!(lines(s), expected, "{:?}", s);
    }
    assert_eq!(lines("one\r\ntwo\nthree"), strings(&["one", "two", "three"]));
}

#[test]
fn split_matches_std() {
    for s in ["", ":", "a", "a:b", "a:", ":a", "level: 100", "a::b"] {
        let expected: Vec<String> = s.split(':').map(|w| w.to_string()).collect();
        assert_eq!(split(s, ':'), expected, "{:?}", s);
    }
    assert_eq!(split("A11_Pixel4_xyz", '_'), strings(&["A11", "Pixel4", "xyz"]));
}

#[test]
fn find_matches_std_on_ascii() {
    for (s, n) in [("", ""), ("abc", ""), ("abc", "c"), ("abc", "abc"), ("abc", "abcd"),
        ("t=1 url=tcp://x", "url="), ("aab", "ab"), ("abab", "ab"), ("", "a")] {
        assert_eq!(find(s, n), s.find(n), "{:?} {:?}", s, n);
        assert_eq!(contains(s, n), s.contains(n));
        assert_eq!(starts_with(s, n), s.starts_with(n));
        assert_eq!(ends_with(s, n), s.ends_with(n));
    }
    assert_eq!(find("éurl=x", "url="), Some(1));
}

#[test]
fn head_and_tail() {
    assert_eq!(tail("url=tcp", 4), "tcp");
    assert_eq!(tail("abc", 3), "");
    assert_eq!(tail("abc", 4), "");
    assert_eq!(tail("abc", 0), "abc");
    assert_eq!(head("abc", 2), "ab");
    assert_eq!(head("abc", 3), "abc");
    assert_eq!(head("abc", 9), "abc");
    assert_eq!(join("udid:", "emulator-5554"), "udid:emulator-5554");
    assert_eq!(join("", ""), "");
}

#[test]
fn parse_unsigned_matches_std() {
    for s in ["", "0", "7", "255", "256", "+5", "+", "-0", "-1", "12a", " 1", "1 ", "007",
        "18446744073709551615", "18446744073709551616", "99999999999999999999999", "++1"] {
        assert_eq!(parse_u64(s), s.parse::<u64>().ok(), "{:?}", s);
        assert_eq!(parse_u8(s), s.parse::<u8>().ok(), "{:?}", s);
    }
    assert_eq!(parse_unsigned("100", 100), Some(100));
    assert_eq!(parse_unsigned("101", 100), None);
}

#[test]
fn parse_i32_matches_std() {
    for s in ["", "0", "-0", "+0", "900", "-900", "2147483647", "2147483648", "-2147483648",
        "-2147483649", "-", "+", "--1", "+-1", "1.5", "x"] {
        assert_eq!(parse_i32(s), s.parse::<i32>().ok(), "{:?}", s);
    }
}

#[test]
fn decimal_matches_std() {
    for n in [0u64, 1, 9, 10, 11, 99, 100, 4723, 65535, 4294967295, u64::MAX] {
        assert_eq!(decimal(n), n.to_string());
        assert_eq!(parse_u64(&decimal(n)), Some(n));
    }
}

fn samples() -> Vec<String> {
    let alphabet = [' ', '\t', '\n', '\r', 'a', 'b', ':', '=', '1', '7', '-', '+', 'é', '\u{a0}', '.'];
    let mut state: u64 = 0x2545_f491_4f6c_dd1d;
    let mut out = Vec::new();
    for _ in 0..3000 {
        state ^= state << 13;
        state ^= state >> 7;
        state ^= state << 17;
        let len = (state % 9) as usize;
        let mut text = String::new();
        let mut pick = state;
        for _ in 0..len {
            pick = pick.wrapping_mul(6364136223846793005).wrapping_add(1442695040888963407);
            text.push(alphabet[((pick >> 33) % alphabet.len() as u64) as usize]);
        }
        out.push(text);
    }
    out
}

#[test]
fn text_functions_agree_with_std_on_many_inputs() {
    for s in samples() {
        assert_eq!(trim(&s), s.trim(), "{:?}", s);
        assert_eq!(trim_end(&s), s.trim_end(), "{:?}", s);
        let words: Vec<String> = s.split_whitespace().map(|w| w.to_string()).collect();
        assert_eq!(split_whitespace(&s), words, "{:?}", s);
        let rows: Vec<String> = s.lines().map(|w| w.to_string()).collect();
        assert_eq!(lines(&s), rows, "{:?}", s);
        let parts: Vec<String> = s.split(':').map(|w| w.to_string()).collect();
        assert_eq!(split(&s, ':'), parts, "{:?}", s);
        assert_eq!(parse_u64(&s), s.parse::<u64>().ok(), "{:?}", s);
        assert_eq!(parse_u8(&s), s.parse::<u8>().ok(), "{:?}", s);
        assert_eq!(parse_i32(&s), s.parse::<i32>().ok(), "{:?}", s);
        for needle in ["a", "ab", ":", " ", "1-", ""] {
            let at = s.find(needle).map(|byte| s[..byte].chars().count());
            assert_eq!(find(&s, needle), at, "{:?} {:?}", s, needle);
            assert_eq!(starts_with(&s, needle), s.starts_with(needle));
            assert_eq!(ends_with(&s, needle), s.ends_with(needle));
        }
    }
}
