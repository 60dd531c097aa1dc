use network_manager::text::chars::{chars_eq, chars_eq_str, is_whitespace, str_chars};
use network_manager::text::compose::{
    str_contains, str_starts_with, text_around_number, text_pair, text_with_number,
};
use network_manager::text::number::{decimal_chars, parse_u16, parse_u32};
use network_manager::text::order::chars_le;
use network_manager::text::search::{
    contains, ends_with, find, split_after, split_before, starts_with, trim, trim_leading,
    trim_suffixes, trim_trailing_brackets,
};
use network_manager::text::split::{
    join_from, segment_at, segment_last, split_chars, split_lines, split_words,
};

fn c(s: &str) -> Vec<char> {
    s.chars().collect()
}

fn strings(v: Vec<Vec<char>>) -> Vec<String> {
    v.into_iter().map(|x| x.into_iter().collect()).collect()
}

#[test]
fn chars_round_trip() {
    assert_eq!(str_chars("añ→b"), vec!['a', 'ñ', '→', 'b']);
    assert_eq!(str_chars(""), Vec::<char>::new());
    assert!(chars_eq(&c("abc"), &c("abc")));
    assert!(!chars_eq(&c("abc"), &c("abd")));
    assert!(!chars_eq(&c("abc"), &c("ab")));
    assert!(chars_eq_str(&c("root"), "root"));
    assert!(!chars_eq_str(&c("root "), "root"));
}

#[test]
fn whitespace_matches_std() {
    for code in 0u32..0x3100 {
        if let Some(ch) = char::from_u32(code) {
            assert_eq!(is_whitespace(ch), ch.is_whitespace(), "U+{:04X}", code);
        }
    }
}

#[test]
fn words_match_std() {
    for text in ["", "  ", "a", " a  b\tc ", "one\u{a0}two\u{3000}three", "x \r y"] {
        let expected: Vec<String> = text.split_whitespace().map(String::from).collect();
        assert_eq!(strings(split_words(&c(text))), expected, "{:?}", text);
    }
}

#[test]
fn lines_match_std() {
    for text in ["", "\n", "a", "a\n", "a\nb", "a\r\nb\r\n", "a\r", "a\n\nb\n", "\r\n", "a\r\r\n", "a\nb\r"] {
        let expected: Vec<String> = text.lines().map(String::from).collect();
        assert_eq!(strings(split_lines(&c(text))), expected, "{:?}", text);
    }
}

#[test]
fn split_matches_std() {
    for text in ["", ":", "a:b", ":a:", "a::b", "abc", "[::]:80"] {
        let expected: Vec<String> = text.split(':').map(String::from).collect();
        assert_eq!(strings(split_chars(&c(text), ':')), expected, "{:?}", text);
        let last: String = segment_last(&c(text), ':').into_iter().collect();
        assert_eq!(last, text.rsplit(':').next().unwrap());
        for n in 0..4 {
            let got: Option<String> = segment_at(&c(text), ':', n).map(|v| v.into_iter().collect());
            assert_eq!(got, text.split(':').nth(n).map(String::from));
        }
    }
}

#[test]
fn join_with_separator() {
    let parts = vec![c("a"), c("b"), c("c"), c("d")];
    let joined: String = join_from(&parts, 1, &c(", ")).into_iter().collect();
    assert_eq!(joined, "b, c, d");
    let none: String = join_from(&parts, 4, &c(" ")).into_iter().collect();
    assert_eq!(none, "");
    let one: String = join_from(&parts, 3, &c(" ")).into_iter().collect();
    assert_eq!(one, "d");
}

#[test]
fn numbers_match_std() {
    for text in ["0", "7", "007", "+5", "+", "", "-1", "65535", "65536", "4294967295", "4294967296", "12a", " 1", "1 ", "99999999999999999999999", "٣"] {
        assert_eq!(parse_u16(&c(text)), text.parse::<u16>().ok(), "{:?}", text);
        assert_eq!(parse_u32(&c(text)), text.parse::<u32>().ok(), "{:?}", text);
    }
}

#[test]
fn decimal_matches_std() {
    for n in [0u64, 1, 9, 10, 42, 100, 65535, 4294967295, u64::MAX] {
        let got: String = decimal_chars(n).into_iter().collect();
        assert_eq!(got, n.to_string());
    }
    assert_eq!(text_with_number("process-", 123), "process-123");
    assert_eq!(text_around_number(" Port ", 80, " ist offen"), " Port 80 ist offen");
    assert_eq!(text_pair("root-", "abc"), "root-abc");
}

#[test]
fn search_matches_std() {
    let cases = [("hello world", "o w"), ("hello", ""), ("", ""), ("", "a"), ("aaa", "aa"), ("abc", "abcd"), ("xpid=1pid=2", "pid=")];
    for (hay, needle) in cases {
        assert_eq!(contains(&c(hay), &c(needle)), hay.contains(needle));
        assert_eq!(find(&c(hay), &c(needle)), hay.find(needle));
        assert_eq!(starts_with(&c(hay), &c(needle)), hay.starts_with(needle));
        assert_eq!(ends_with(&c(hay), &c(needle)), hay.ends_with(needle));
        assert_eq!(str_contains(hay, needle), hay.contains(needle));
        assert_eq!(str_starts_with(hay, needle), hay.starts_with(needle));
        let after: Option<String> = split_after(&c(hay), &c(needle)).map(|v| v.into_iter().collect());
        assert_eq!(after, hay.split_once(needle).map(|(_, b)| b.to_string()));
        let before: String = split_before(&c(hay), &c(needle)).into_iter().collect();
        assert_eq!(before, hay.split_once(needle).map(|(a, _)| a).unwrap_or(hay));
    }
}

#[test]
fn trims_match_std() {
    for text in ["", "  a b  ", "\t\nroot\n", "x", "   "] {
        let got: String = trim(&c(text)).into_iter().collect();
        assert_eq!(got, text.trim());
    }
    for text in ["ssh.service", "a.service.service", ".service", "service", "x.servicex", ""] {
        let got: String = trim_suffixes(&c(text), &c(".service")).into_iter().collect();
        assert_eq!(got, text.trim_end_matches(".service"));
    }
    for text in ["/name", "//a/b", "name", "", "/"] {
        let got: String = trim_leading(&c(text), '/').into_iter().collect();
        assert_eq!(got, text.trim_start_matches('/'));
    }
    for text in ["80)", "80)(", "(80", "80", "", "()"] {
        let got: String = trim_trailing_brackets(&c(text)).into_iter().collect();
        assert_eq!(got, text.trim_end_matches(|ch| ch == ')' || ch == '('));
    }
}

#[test]
fn order_matches_std() {
    let words = ["", "a", "ab", "b", "B", "äb", "abc", "abd", "z"];
    for a in words {
        for b in words {
            assert_eq!(chars_le(&c(a), &c(b)), a <= b, "{:?} {:?}", a, b);
        }
    }
}

struct Lcg(u64);

impl Lcg {
    fn next(&mut self) -> u64 {
        self.0 = self.0.wrapping_mul(6364136223846793005).wrapping_add(1442695040888963407);
        self.0 >> 33
    }

    fn text(&mut self, alphabet: &[char], max_len: u64) -> String {
        let len = self.next() % (max_len + 1);
        (0..len).map(|_| alphabet[(self.next() % alphabet.len() as u64) as usize]).collect()
    }
}

#[test]
fn random_texts_agree_with_std() {
    let alphabet = [' ', '\t', '\n', '\r', 'a', 'b', '1', '9', '0', ':', '+', '/', '"', ',', 'é', '\u{a0}', '(', ')', 'p', 'i', 'd', '='];
    let mut rng = Lcg(42);
    for _ in 0..3000 {
        let text = rng.text(&alphabet, 24);
        let chars = c(&text);
        let expected: Vec<String> = text.split_whitespace().map(String::from).collect();
        assert_eq!(strings(split_words(&chars)), expected, "{:?}", text);
        let expected: Vec<String> = text.lines().map(String::from).collect();
        assert_eq!(strings(split_lines(&chars)), expected, "{:?}", text);
        let expected: Vec<String> = text.split(':').map(String::from).collect();
        assert_eq!(strings(split_chars(&chars, ':')), expected, "{:?}", text);
        let trimmed: String = trim(&chars).into_iter().collect();
        assert_eq!(trimmed, text.trim(), "{:?}", text);
        let needle = rng.text(&['a', 'b', ':', 'p', 'i', 'd', '='], 3);
        assert_eq!(contains(&chars, &c(&needle)), text.contains(&needle), "{:?} {:?}", text, needle);
        assert_eq!(find(&chars, &c(&needle)).map(|i| chars[..i].iter().collect::<String>().len()), text.find(&needle), "{:?} {:?}", text, needle);
        let other = rng.text(&alphabet, 6);
        assert_eq!(chars_le(&chars, &c(&other)), text <= other, "{:?} {:?}", text, other);
    }
    let digits = ['0', '1', '5', '9', '+', '-', ' '];
    for _ in 0..3000 {
        let text = rng.text(&digits, 12);
        assert_eq!(parse_u16(&c(&text)), text.parse::<u16>().ok(), "{:?}", text);
        assert_eq!(parse_u32(&c(&text)), text.parse::<u32>().ok(), "{:?}", text);
    }
}
