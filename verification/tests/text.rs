use slickrun::text::{
    chars_equal, chars_of, concat3, count_leading, count_trailing, format_i32, has_part,
    has_prefix, leading_word, matches_at, read_i32, replaced, same_ignoring_ascii_case,
    skip_bytes, split_at_char, str_equals, string_of, stripped, to_ascii_lower, trimmed,
    whitespace, width_of, width_of_char, CharClass,
};

fn chars(s: &str) -> Vec<char> {
    s.chars().collect()
}

fn text(c: &[char]) -> String {
    c.iter().collect()
}

const SAMPLES: [&str; 14] = [
    "",
    " ",
    "a",
    "  hello world \t\n",
    "\u{a0}x\u{3000}",
    "(120, 340)\n",
    "((1,2))",
    "$W$",
    "a$W$b$W$",
    "$W$W$",
    "$$W$$",
    "héllo wörld",
    "日本語 テキスト",
    "x,,y,",
];

#[test]
fn chars_and_strings_round_trip() {
    for s in SAMPLES {
        assert_eq!(chars_of(s), chars(s));
        assert_eq!(string_of(&chars(s)), s);
    }
    assert_eq!(string_of(&['a', 'b']), "ab");
    assert_eq!(concat3(&chars("ab"), &chars(" "), &chars("cd")), "ab cd");
}

#[test]
fn equality_of_texts() {
    assert!(str_equals("quit", "quit"));
    assert!(!str_equals("quit", "quiT"));
    assert!(!str_equals("quit", "qui"));
    assert!(str_equals("", ""));
    assert!(chars_equal(&chars("ab"), &chars("ab")));
    assert!(!chars_equal(&chars("ab"), &chars("ba")));
}

#[test]
fn whitespace_is_the_unicode_property() {
    let mut code: u32 = 0;
    while code <= 0x10FFFF {
        if let Some(c) = char::from_u32(code) {
            assert_eq!(whitespace(c), c.is_whitespace(), "U+{:04X}", code);
        }
        code += 1;
    }
}

#[test]
fn char_classes() {
    assert!(CharClass::Whitespace.test(' '));
    assert!(!CharClass::Whitespace.test('x'));
    assert!(CharClass::NotWhitespace.test('x'));
    assert!(!CharClass::NotWhitespace.test('\t'));
    assert!(CharClass::Only('(').test('('));
    assert!(!CharClass::Only('(').test(')'));
}

#[test]
fn trimming_agrees_with_std() {
    for s in SAMPLES {
        assert_eq!(text(trimmed(&chars(s))), s.trim(), "{:?}", s);
        assert_eq!(
            text(stripped(&chars(s), CharClass::Only('('))),
            s.trim_matches('('),
            "{:?}",
            s
        );
        assert_eq!(
            count_leading(&chars(s), CharClass::Whitespace),
            s.chars().count() - s.trim_start().chars().count()
        );
        assert_eq!(
            count_trailing(&chars(s), CharClass::Whitespace),
            s.chars().count() - s.trim_end().chars().count()
        );
    }
    assert_eq!(count_leading(&chars("((x("), CharClass::Only('(')), 2);
    assert_eq!(count_trailing(&chars("x))y))"), CharClass::Only(')')), 2);
    assert_eq!(text(trimmed(&chars(" \t "))), "");
}

#[test]
fn first_word_agrees_with_std() {
    for s in SAMPLES {
        let expected = s.split_whitespace().next().unwrap_or("");
        assert_eq!(text(leading_word(&chars(s))), expected, "{:?}", s);
    }
    assert_eq!(text(leading_word(&chars("  run   fast"))), "run");
}

#[test]
fn integers_agree_with_std() {
    let cases = [
        "0", "7", "-7", "+7", "007", "-0", "+", "-", "", " 1", "1 ", "1a", "a1", "--1", "+-1",
        "2147483647", "2147483648", "-2147483648", "-2147483649", "99999999999999999999",
        "00000000000000000000005", "120", "340", "１２", "1_000", "0x10",
    ];
    for s in cases {
        assert_eq!(read_i32(&chars(s)), s.parse::<i32>().ok(), "{:?}", s);
    }
    assert_eq!(read_i32(&chars("120")), Some(120));
    assert_eq!(read_i32(&chars("-2147483648")), Some(i32::MIN));
    assert_eq!(read_i32(&chars("2147483648")), None);
}

#[test]
fn decimal_writing_agrees_with_std() {
    for v in [0, 1, -1, 9, 10, 11, 99, 100, 120, 340, -340, 65535, i32::MAX, i32::MIN, i32::MIN + 1] {
        assert_eq!(format_i32(v), v.to_string());
        assert_eq!(read_i32(&chars(&format_i32(v))), Some(v));
    }
}

#[test]
fn search_agrees_with_std() {
    let patterns = ["", "$W$", "W", "$", "l", "ll", "wor", "テ", "xyz", ","];
    for s in SAMPLES {
        for p in patterns {
            assert_eq!(has_part(&chars(s), &chars(p)), s.contains(p), "{:?} {:?}", s, p);
            assert_eq!(has_prefix(&chars(s), &chars(p)), s.starts_with(p), "{:?} {:?}", s, p);
        }
    }
    assert!(matches_at(&chars("a$W$b"), &chars("$W$"), 1));
    assert!(!matches_at(&chars("a$W$b"), &chars("$W$"), 2));
    assert!(!matches_at(&chars("a$W$b"), &chars("$W$"), 3));
    assert!(!matches_at(&chars("ab"), &chars("abc"), 0));
    assert!(matches_at(&chars("ab"), &chars(""), 2));
    assert!(!matches_at(&chars("ab"), &chars(""), 3));
}

#[test]
fn replacing_agrees_with_std() {
    let patterns = ["$W$", "W", "$", "l", "ll", "aa", "", ","];
    let replacements = ["", "x", "$W$", "two words", "$"];
    let more = ["aaa", "aaaa", "llll", "$W$$W$", "$W$W$W$"];
    for s in SAMPLES.iter().chain(more.iter()) {
        for p in patterns {
            for r in replacements {
                assert_eq!(
                    text(&replaced(&chars(s), &chars(p), &chars(r))),
                    s.replace(p, r),
                    "{:?} {:?} {:?}",
                    s,
                    p,
                    r
                );
            }
        }
    }
    assert_eq!(text(&replaced(&chars("$W$W$"), &chars("$W$"), &chars("-"))), "-W$");
    assert_eq!(text(&replaced(&chars("ab"), &chars(""), &chars("-"))), "-a-b-");
}

#[test]
fn splitting_agrees_with_std() {
    for s in SAMPLES {
        for sep in [',', ' ', '$', 'l'] {
            let parts: Vec<String> = split_at_char(&chars(s), sep).iter().map(|p| text(p)).collect();
            let expected: Vec<String> = s.split(sep).map(|p| p.to_string()).collect();
            assert_eq!(parts, expected, "{:?} {:?}", s, sep);
        }
    }
    assert_eq!(split_at_char(&chars(""), ','), vec![Vec::<char>::new()]);
    assert_eq!(split_at_char(&chars("a,"), ','), vec![chars("a"), chars("")]);
}

#[test]
fn ascii_case_agrees_with_std() {
    let mut code: u32 = 0;
    while code < 0x300 {
        if let Some(c) = char::from_u32(code) {
            assert_eq!(to_ascii_lower(c), c.to_ascii_lowercase());
        }
        code += 1;
    }
    let pairs = [
        ("setup", "SETUP"),
        ("SetUp", "sEtuP"),
        ("quit", "quit"),
        ("quit", "quid"),
        ("quit", "quits"),
        ("", ""),
        ("straße", "STRASSE"),
        ("é", "É"),
        ("é", "é"),
        ("@copy@", "@COPY@"),
        ("K", "\u{212a}"),
    ];
    for (a, b) in pairs {
        assert_eq!(
            same_ignoring_ascii_case(&chars(a), &chars(b)),
            a.eq_ignore_ascii_case(b),
            "{:?} {:?}",
            a,
            b
        );
    }
}

#[test]
fn widths_agree_with_std() {
    for s in SAMPLES {
        assert_eq!(width_of(&chars(s)), s.len() as u128, "{:?}", s);
    }
    assert_eq!(width_of_char('a'), 1);
    assert_eq!(width_of_char('é'), 2);
    assert_eq!(width_of_char('日'), 3);
    assert_eq!(width_of_char('\u{1F600}'), 4);
    for c in ['\u{7f}', '\u{80}', '\u{7ff}', '\u{800}', '\u{ffff}', '\u{10000}', '\u{10ffff}'] {
        assert_eq!(width_of_char(c) as usize, c.len_utf8());
    }
}

#[test]
fn skipping_bytes_agrees_with_std() {
    for s in SAMPLES {
        for offset in 0..=(s.len() + 2) {
            let expected = s.get(offset..).map(|rest| rest.to_string());
            let found = skip_bytes(&chars(s), offset as u128).map(|rest| text(rest));
            assert_eq!(found, expected, "{:?} {}", s, offset);
        }
    }
    assert_eq!(skip_bytes(&chars("héllo"), 2), None);
    assert_eq!(skip_bytes(&chars("héllo"), 3).map(|r| text(r)), Some("llo".to_string()));
}
