use dynoxide::text::{
    all_digits, contains, find, head, is_white_space, parse_usize, rfind, same, split, split_once,
    starts_with, strip_prefix, tail, to_chars, trim,
};

const SAMPLES: [&str; 12] = [
    "",
    " ",
    "a",
    "aaa",
    "ab at line 3 column 4",
    " at line  at line  column ",
    "\u{e9}t\u{e9} at line \u{1f600}",
    "a&b=c&&d=e=f&",
    "column 12",
    "\u{3000}\u{2003}x y\u{85}\n",
    "expected struct expected struct Tag with",
    "Credential=, Signature=x",
];

const PATTERNS: [&str; 9] = [
    "a",
    "aa",
    " at line ",
    "column ",
    "\u{e9}",
    "&",
    "=",
    "expected struct ",
    "missing",
];

#[test]
fn searches_agree_with_std() {
    for s in SAMPLES {
        for p in PATTERNS {
            let byte = |i: usize| s.char_indices().nth(i).map(|(b, _)| b);
            assert_eq!(find(s, p).and_then(byte), s.find(p));
            assert_eq!(rfind(s, p).and_then(byte), s.rfind(p));
            assert_eq!(contains(s, p), s.contains(p));
            assert_eq!(starts_with(s, p), s.starts_with(p));
            assert_eq!(same(s, p), s == p);
        }
        assert!(same(s, s));
    }
}

#[test]
fn cuts_agree_with_std() {
    for s in SAMPLES {
        for p in PATTERNS {
            assert_eq!(strip_prefix(s, p), s.strip_prefix(p));
            assert_eq!(split_once(s, p), s.split_once(p));
            assert_eq!(head(s, p), s.split(p).next().unwrap());
            assert_eq!(tail(s, p), s.rsplit(p).next().unwrap());
        }
    }
}

#[test]
fn fields_agree_with_std() {
    for s in SAMPLES {
        for sep in ['&', '=', ' ', '\u{e9}'] {
            assert_eq!(split(s, sep), s.split(sep).collect::<Vec<&str>>());
        }
        assert_eq!(to_chars(s), s.chars().collect::<Vec<char>>());
    }
    assert_eq!(split("", '&'), vec![""]);
    assert_eq!(split("&", '&'), vec!["", ""]);
}

#[test]
fn white_space_agrees_with_std() {
    for n in 0..=0x10ffff_u32 {
        if let Some(c) = char::from_u32(n) {
            assert_eq!(is_white_space(c), c.is_whitespace(), "U+{:04X}", n);
        }
    }
}

#[test]
fn trimming_agrees_with_std() {
    for s in SAMPLES {
        assert_eq!(trim(s), s.trim());
    }
    assert_eq!(trim(" \t 42 \r\n"), "42");
    assert_eq!(trim("\u{a0}\u{2028}"), "");
}

#[test]
fn numbers_agree_with_std() {
    let max = usize::MAX.to_string();
    let over = format!("{}0", max);
    let next = "18446744073709551616";
    for s in [
        "", "+", "-", "0", "-0", "+0", "007", "+42", "++4", "4 2", " 42", "42x", "\u{663}", "12a",
        "-7", next, &max, &over, "00000000000000000000000000001",
    ] {
        assert_eq!(parse_usize(s), s.parse::<usize>().ok(), "{}", s);
        assert_eq!(all_digits(s), s.chars().all(|c| c.is_ascii_digit()), "{}", s);
    }
    assert_eq!(parse_usize("42"), Some(42));
}
