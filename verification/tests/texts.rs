use goose_core::text::{
    cat, contains, is_whitespace, join, list_contains, split_once, starts_with, str_eq,
    to_decimal, trim, trim_end_blank_or_hash,
};
use goose_core::text_split::{
    lines, parse_u32, parse_u64, sort_by_name, split_char, split_whitespace, str_le,
};

fn s(t: &str) -> String {
    t.to_string()
}

#[test]
fn white_space_is_that_of_unicode() {
    for n in 0..=0x10ffffu32 {
        if let Some(c) = char::from_u32(n) {
            assert_eq!(is_whitespace(c), c.is_whitespace(), "{n:x}");
        }
    }
}

const SAMPLES: [&str; 14] = [
    "",
    " ",
    "a",
    " a b ",
    "\u{3000}x\u{a0}",
    "a\nb\r\nc\n",
    "a\r",
    "\n\n",
    "ä,ö,,ü",
    "x: y: z",
    "  two\twords ",
    "🚀 go",
    ",",
    "line\r\n",
];

#[test]
fn texts_are_cut_as_by_the_standard_library() {
    for t in SAMPLES {
        assert_eq!(trim(t), t.trim(), "{t:?}");
        assert_eq!(lines(t), t.lines().map(s).collect::<Vec<_>>(), "{t:?}");
        assert_eq!(split_char(t, ','), t.split(',').map(s).collect::<Vec<_>>(), "{t:?}");
        assert_eq!(
            split_whitespace(t),
            t.split_whitespace().map(s).collect::<Vec<_>>(),
            "{t:?}"
        );
        for p in SAMPLES {
            assert_eq!(contains(t, p), t.contains(p), "{t:?} {p:?}");
            assert_eq!(starts_with(t, p), t.starts_with(p), "{t:?} {p:?}");
            assert_eq!(str_eq(t, p), t == p);
            assert_eq!(str_le(t, p), t <= p, "{t:?} {p:?}");
            if !p.is_empty() {
                assert_eq!(
                    split_once(t, p),
                    t.split_once(p).map(|(a, b)| (s(a), s(b))),
                    "{t:?} {p:?}"
                );
            }
        }
    }
}

#[test]
fn numbers_are_read_as_by_the_standard_library() {
    for t in [
        "", "0", "7", "+7", "-7", "007", "18446744073709551615", "18446744073709551616",
        "4294967295", "4294967296", "1_000", " 1", "1 ", "+", "x", "٣",
    ] {
        assert_eq!(parse_u64(t), t.parse::<u64>().ok(), "{t:?}");
        assert_eq!(parse_u32(t), t.parse::<u32>().ok(), "{t:?}");
    }
    for n in [0, 9, 10, 12345, u64::MAX] {
        assert_eq!(to_decimal(n), n.to_string());
    }
}

#[test]
fn lists_of_texts() {
    assert_eq!(join(&vec![], ", "), "");
    assert_eq!(join(&vec![s("a"), s("b")], ", "), "a, b");
    assert!(list_contains(&vec![s("a")], "a"));
    assert!(!list_contains(&vec![s("a")], "b"));
    assert_eq!(cat("a", "b"), "ab");
    assert_eq!(trim_end_blank_or_hash("a \n##\t "), "a".to_string());
    let sorted = sort_by_name(vec![(s("b"), 1u64), (s("a"), 2), (s("b"), 3)]);
    assert_eq!(sorted, vec![(s("a"), 2), (s("b"), 1), (s("b"), 3)]);
}
