use tauridock::text::{decimal, is_whitespace, lines, split, trim};

fn std_lines(s: &str) -> Vec<String> {
    s.lines().map(|l| l.to_string()).collect()
}

fn std_split(s: &str, sep: char) -> Vec<String> {
    s.split(sep).map(|l| l.to_string()).collect()
}

const SAMPLES: [&str; 24] = [
    "",
    " ",
    "a",
    "\n",
    "\r\n",
    "\r",
    "a\n",
    "a\r\n",
    "a\r",
    "a\n\r",
    "a\n\nb",
    "a\r\n\r\nb\r\n",
    "\n\n",
    "  abc  ",
    "\t abc def \r\n",
    "a|b|c|d|e|f",
    "||",
    "|",
    "a|b\nc|d\n",
    "\u{a0}x\u{3000}",
    "\u{2003}\u{2028}",
    "héllo wörld\n日本語\r\n",
    "a\rb\nc",
    "\r\r\n",
];

#[test]
fn whitespace_is_the_unicode_property() {
    let mut c = 0u32;
    while c <= 0x10FFFF {
        if let Some(ch) = char::from_u32(c) {
            assert_eq!(is_whitespace(ch), ch.is_whitespace(), "U+{:04X}", c);
        }
        c += 1;
    }
}

#[test]
fn trim_takes_white_space_from_both_ends() {
    assert_eq!(trim("  abc123  \n"), "abc123");
    assert_eq!(trim("abc"), "abc");
    assert_eq!(trim("a b"), "a b");
    assert_eq!(trim(" \t\r\n"), "");
    assert_eq!(trim(""), "");
    for s in SAMPLES {
        assert_eq!(trim(s), s.trim(), "{:?}", s);
    }
}

#[test]
fn split_gives_every_field() {
    assert_eq!(split("a|b|c", '|'), vec!["a", "b", "c"]);
    assert_eq!(split("", '|'), vec![""]);
    assert_eq!(split("|", '|'), vec!["", ""]);
    assert_eq!(split("a||b|", '|'), vec!["a", "", "b", ""]);
    assert_eq!(split("abc", '|'), vec!["abc"]);
    for s in SAMPLES {
        assert_eq!(split(s, '|'), std_split(s, '|'), "{:?}", s);
        assert_eq!(split(s, '\n'), std_split(s, '\n'), "{:?}", s);
        assert_eq!(split(s, '|').join("|"), s);
    }
}

#[test]
fn lines_end_at_line_feeds() {
    assert_eq!(lines("a\nb"), vec!["a", "b"]);
    assert_eq!(lines("a\r\nb\r\n"), vec!["a", "b"]);
    assert_eq!(lines("a\n\nb\n"), vec!["a", "", "b"]);
    assert_eq!(lines("a\r"), vec!["a\r"]);
    assert_eq!(lines("\n"), vec![""]);
    assert_eq!(lines(""), Vec::<String>::new());
    for s in SAMPLES {
        assert_eq!(lines(s), std_lines(s), "{:?}", s);
    }
}

#[test]
fn decimal_writes_numerals() {
    assert_eq!(decimal(0), "0");
    assert_eq!(decimal(7), "7");
    assert_eq!(decimal(10), "10");
    assert_eq!(decimal(8080), "8080");
    assert_eq!(decimal(65535), "65535");
    assert_eq!(decimal(u64::MAX), "18446744073709551615");
    let mut n: u64 = 1;
    while n < u64::MAX / 7 {
        assert_eq!(decimal(n), n.to_string());
        assert_eq!(decimal(n - 1), (n - 1).to_string());
        n *= 7;
    }
}
