use goose_developer::decimal::{decimal_chars, kibibytes_chars};
use goose_developer::lines::{count_char, join_range, split_lines};
use goose_developer::search::{find_from, locate, matches_at, splice, Occurrence};
use goose_developer::text::{
    char_count, concat2, concat3, concat4, concat5, copy_range, from_chars, is_space,
    same_chars, split_words, str_equal, to_chars, trim,
};

fn chars(s: &str) -> Vec<char> {
    s.chars().collect()
}

fn text(v: &[char]) -> String {
    v.iter().collect()
}

fn words_of(s: &str) -> Vec<String> {
    split_words(&chars(s)).iter().map(|w| text(w)).collect()
}

fn lines_of(s: &str) -> Vec<String> {
    split_lines(&chars(s)).iter().map(|w| text(w)).collect()
}

#[test]
fn chars_round_trip() {
    let v = to_chars("héllo");
    assert_eq!(v.len(), 5);
    assert_eq!(from_chars(&v), "héllo");
    assert_eq!(char_count("héllo"), 5);
    assert_eq!(char_count(""), 0);
}

#[test]
fn equality_is_by_characters() {
    assert!(str_equal("abc", "abc"));
    assert!(!str_equal("abc", "abd"));
    assert!(!str_equal("abc", "ab"));
    assert!(str_equal("", ""));
    assert!(same_chars(&chars("x"), &chars("x")));
    assert!(!same_chars(&chars("x"), &chars("")));
}

#[test]
fn concatenation_keeps_order() {
    assert_eq!(concat2("a", "b"), "ab");
    assert_eq!(concat3("a", "", "c"), "ac");
    assert_eq!(concat4("1", "2", "3", "4"), "1234");
    assert_eq!(concat5("a", "b", "c", "d", "e"), "abcde");
    assert_eq!(text(&copy_range(&chars("hello"), 1, 3)), "el");
}

#[test]
fn white_space_is_what_the_standard_library_takes_for_it() {
    let mut count = 0;
    for code in 0..=0x10FFFFu32 {
        if let Some(c) = char::from_u32(code) {
            assert_eq!(is_space(c), c.is_whitespace(), "U+{:04X}", code);
            if is_space(c) {
                count += 1;
            }
        }
    }
    assert_eq!(count, 25);
    assert!(is_space(' ') && is_space('\n') && is_space('\u{a0}'));
    assert!(!is_space('a') && !is_space('\u{200b}') && !is_space('\u{180e}'));
}

#[test]
fn trim_agrees_with_the_standard_library() {
    for s in [
        "",
        " ",
        "a",
        "  a b  ",
        "\t\n x \r\n",
        "\u{a0}x\u{2003}",
        "\u{3000}\u{3000}",
        "x\u{200b}",
        "\u{85}mid dle\u{1680}",
    ] {
        assert_eq!(text(&trim(&chars(s))), s.trim(), "trim of {:?}", s);
    }
}

#[test]
fn words_agree_with_the_standard_library() {
    for s in [
        "",
        "   ",
        "one",
        "cat secret.txt",
        "  grep   -n pattern\tfile \n",
        "a\u{a0}b\u{2028}c",
        "tab\tseparated\tvalues",
    ] {
        let expected: Vec<String> = s.split_whitespace().map(String::from).collect();
        assert_eq!(words_of(s), expected, "words of {:?}", s);
    }
    assert_eq!(words_of(" a  bc "), vec!["a".to_string(), "bc".to_string()]);
}

#[test]
fn an_occurrence_is_found_where_it_stands() {
    let hay = chars("hello world");
    assert!(matches_at(&hay, &chars("world"), 6));
    assert!(!matches_at(&hay, &chars("world"), 5));
    assert!(!matches_at(&hay, &chars("world"), 7));
    assert!(matches_at(&hay, &chars(""), 11));
    assert!(!matches_at(&hay, &chars(""), 12));
    assert_eq!(find_from(&hay, &chars("o"), 0), Some(4));
    assert_eq!(find_from(&hay, &chars("o"), 5), Some(7));
    assert_eq!(find_from(&hay, &chars("o"), 8), None);
    assert_eq!(find_from(&hay, &chars("hello world!"), 0), None);
}

/// The indices, counted in characters, at which `needle` stands in `hay`.
fn places(hay: &str, needle: &str) -> Vec<usize> {
    let hay = chars(hay);
    let needle = chars(needle);
    (0..=hay.len())
        .filter(|i| i + needle.len() <= hay.len() && hay[*i..i + needle.len()] == needle[..])
        .collect()
}

#[test]
fn a_needle_is_absent_unique_or_ambiguous_by_its_places() {
    let cases = [
        ("Hello, world!", "world"),
        ("abcabc", "abc"),
        ("aaa", "aa"),
        ("aaaa", "aa"),
        ("abab", "aba"),
        ("ababa", "aba"),
        ("abc", "x"),
        ("", "x"),
        ("", ""),
        ("a", ""),
        ("ab", "ab"),
        ("héllo wörld", "ö"),
        ("line\nline\n", "line\n"),
    ];
    for (hay, needle) in cases {
        let found = places(hay, needle);
        match locate(&chars(hay), &chars(needle)) {
            Occurrence::Absent => assert!(found.is_empty(), "{:?} in {:?}", needle, hay),
            Occurrence::Unique(at) => assert_eq!(found, vec![at], "{:?} in {:?}", needle, hay),
            Occurrence::Ambiguous => assert!(found.len() > 1, "{:?} in {:?}", needle, hay),
        }
    }
    assert!(matches!(locate(&chars("Hello, world!"), &chars("world")), Occurrence::Unique(7)));
    assert!(matches!(locate(&chars("abab"), &chars("aba")), Occurrence::Unique(0)));
    // Two places that overlap are two places.
    assert!(matches!(locate(&chars("aaa"), &chars("aa")), Occurrence::Ambiguous));
    assert!(matches!(locate(&chars("ababa"), &chars("aba")), Occurrence::Ambiguous));
    assert!(matches!(locate(&chars("aaaa"), &chars("aa")), Occurrence::Ambiguous));
    assert!(matches!(locate(&chars("abc"), &chars("x")), Occurrence::Absent));
    assert!(matches!(locate(&chars(""), &chars("")), Occurrence::Unique(0)));
    assert!(matches!(locate(&chars("a"), &chars("")), Occurrence::Ambiguous));
}

#[test]
fn a_splice_replaces_the_span_it_names() {
    assert_eq!(
        text(&splice(&chars("Hello, world!"), 7, 5, &chars("Rust"))),
        "Hello, Rust!"
    );
    assert_eq!(text(&splice(&chars("abc"), 0, 0, &chars("x"))), "xabc");
    assert_eq!(text(&splice(&chars("abc"), 3, 0, &chars("x"))), "abcx");
    assert_eq!(text(&splice(&chars("abc"), 0, 3, &chars(""))), "");
    assert_eq!(text(&splice(&chars("aaa"), 1, 2, &chars("b"))), "ab");
}

#[test]
fn line_feeds_are_counted_up_to_an_index() {
    let s = chars("a\nb\n\nc");
    assert_eq!(count_char(&s, 0, '\n'), 0);
    assert_eq!(count_char(&s, 2, '\n'), 1);
    assert_eq!(count_char(&s, 5, '\n'), 3);
    assert_eq!(count_char(&s, 6, '\n'), 3);
    assert_eq!(count_char(&s, 6, 'c'), 1);
}

#[test]
fn lines_agree_with_the_standard_library() {
    for s in [
        "",
        "\n",
        "a",
        "a\n",
        "a\nb",
        "a\n\n",
        "\n\na",
        "a\r\nb\r\n",
        "a\r",
        "a\rb\n",
        "\r\n",
        "\r\r\n",
        "x\n\r\ny",
    ] {
        let expected: Vec<String> = s.lines().map(String::from).collect();
        assert_eq!(lines_of(s), expected, "lines of {:?}", s);
    }
    assert_eq!(lines_of("a\r\nb\n"), vec!["a".to_string(), "b".to_string()]);
    assert_eq!(lines_of("a\n\n"), vec!["a".to_string(), "".to_string()]);
}

#[test]
fn parts_are_joined_with_the_separator_between_them() {
    let parts: Vec<Vec<char>> = ["a", "", "c", "d"].iter().map(|p| chars(p)).collect();
    let sep = chars("\n");
    assert_eq!(text(&join_range(&parts, 0, 4, &sep)), "a\n\nc\nd");
    assert_eq!(text(&join_range(&parts, 1, 3, &sep)), "\nc");
    assert_eq!(text(&join_range(&parts, 2, 3, &sep)), "c");
    assert_eq!(text(&join_range(&parts, 2, 2, &sep)), "");
    assert_eq!(text(&join_range(&parts, 0, 2, &chars(", "))), "a, ");
}

#[test]
fn numbers_are_written_in_decimal() {
    for n in [0u128, 7, 10, 99, 100, 400_000, 405_000, 18_446_744_073_709_551_615] {
        assert_eq!(text(&decimal_chars(n)), n.to_string());
    }
    assert_eq!(text(&decimal_chars(u128::MAX)), u128::MAX.to_string());
}

#[test]
fn sizes_are_written_in_kibibytes_with_two_places() {
    assert_eq!(text(&kibibytes_chars(0)), "0.00");
    assert_eq!(text(&kibibytes_chars(1024)), "1.00");
    assert_eq!(text(&kibibytes_chars(3 * 1024 * 1024)), "3072.00");
    assert_eq!(text(&kibibytes_chars(409_601)), "400.00");
    assert_eq!(text(&kibibytes_chars(409_610)), "400.01");
    // Halfway between two hundredths: to the even one.
    assert_eq!(text(&kibibytes_chars(128)), "0.12");
    assert_eq!(text(&kibibytes_chars(384)), "0.38");
    assert_eq!(text(&kibibytes_chars(409_728)), "400.12");
    let mut sizes: Vec<u64> = (0..5000).collect();
    sizes.extend((409_000..412_000).step_by(7));
    sizes.extend([128 + 1024 * 77, 384 + 1024 * 77, 640 + 1024 * 77, 896 + 1024 * 77]);
    sizes.extend([1 << 30, (1 << 40) + 12345, (1 << 52) + 999]);
    for size in sizes {
        let expected = format!("{:.2}", size as f64 / 1024.0);
        assert_eq!(text(&kibibytes_chars(size)), expected, "size {}", size);
    }
}

/// A small generator of repeatable pseudo-random numbers.
struct Numbers(u64);

impl Numbers {
    fn next(&mut self, below: u64) -> u64 {
        self.0 = self.0.wrapping_mul(6364136223846793005).wrapping_add(1442695040888963407);
        (self.0 >> 33) % below
    }

    fn text(&mut self, alphabet: &[char], longest: u64) -> String {
        let len = self.next(longest + 1);
        (0..len).map(|_| alphabet[self.next(alphabet.len() as u64) as usize]).collect()
    }
}

#[test]
fn searching_finds_every_place_on_many_texts() {
    let mut numbers = Numbers(7);
    let alphabet = ['a', 'b', '\n', 'é'];
    for _ in 0..20_000 {
        let hay = numbers.text(&alphabet, 12);
        let needle = numbers.text(&alphabet, 3);
        let with = numbers.text(&alphabet, 3);
        let found = places(&hay, &needle);
        match locate(&chars(&hay), &chars(&needle)) {
            Occurrence::Absent => assert!(found.is_empty(), "{:?} in {:?}", needle, hay),
            Occurrence::Ambiguous => assert!(found.len() > 1, "{:?} in {:?}", needle, hay),
            Occurrence::Unique(at) => {
                assert_eq!(found, vec![at], "{:?} in {:?}", needle, hay);
                // With one place alone, replacing every occurrence replaces that one.
                let replaced = splice(&chars(&hay), at, needle.chars().count(), &chars(&with));
                assert_eq!(text(&replaced), hay.replace(needle.as_str(), with.as_str()));
                let before: String = hay.chars().take(at).collect();
                let after: String = hay.chars().skip(at + needle.chars().count()).collect();
                assert_eq!(text(&replaced), format!("{}{}{}", before, with, after));
            }
        }
    }
}

#[test]
fn splitting_agrees_with_the_standard_library_on_many_texts() {
    let mut numbers = Numbers(11);
    let alphabet = ['a', '-', ' ', '\n', '\r', '\t', '\u{a0}', '\u{2028}', '/'];
    for _ in 0..20_000 {
        let s = numbers.text(&alphabet, 10);
        let expected: Vec<String> = s.split_whitespace().map(String::from).collect();
        assert_eq!(words_of(&s), expected, "words of {:?}", s);
        assert_eq!(text(&trim(&chars(&s))), s.trim(), "trim of {:?}", s);
        let expected: Vec<String> = s.lines().map(String::from).collect();
        assert_eq!(lines_of(&s), expected, "lines of {:?}", s);
        assert_eq!(
            count_char(&chars(&s), s.chars().count(), '\n'),
            s.matches('\n').count()
        );
    }
}
