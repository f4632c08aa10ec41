use jarvis_ui::text::{blank, same_text, text_le_exec, trim};

const SAMPLES: [&str; 12] = [
    "", " ", "abc", "  abc  ", "\t\nx y\r\n", "\u{3000}x\u{2028}", "\u{85}a\u{a0}", "\u{200b}a",
    "é", "ab", "abd", "Z",
];

#[test]
fn trim_matches_std() {
    for s in SAMPLES {
        assert_eq!(trim(s), s.trim(), "{s:?}");
        assert_eq!(blank(s), s.trim().is_empty(), "{s:?}");
    }
}

#[test]
fn order_matches_std() {
    for a in SAMPLES {
        for b in SAMPLES {
            assert_eq!(text_le_exec(a, b), a <= b, "{a:?} {b:?}");
            assert_eq!(same_text(a, b), a == b);
        }
    }
}
