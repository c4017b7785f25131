use odisc::text::{chars_of, contains, decimal_string, is_white_space, same_text, split_tokens};

#[test]
fn white_space_is_what_std_says() {
    for code in 0u32..=0x10FFFF {
        if let Some(c) = char::from_u32(code) {
            assert_eq!(is_white_space(c), c.is_whitespace(), "U+{:04X}", code);
        }
    }
}

#[test]
fn tokens_are_split_on_white_space() {
    assert_eq!(split_tokens("1.5 hello  -2"), vec!["1.5", "hello", "-2"]);
    assert_eq!(split_tokens("  a\tb\nc\u{3000}d  "), vec!["a", "b", "c", "d"]);
    assert_eq!(split_tokens("one"), vec!["one"]);
}

#[test]
fn blank_text_has_no_tokens() {
    assert_eq!(split_tokens(""), Vec::<String>::new());
    assert_eq!(split_tokens("   \t\n"), Vec::<String>::new());
}

#[test]
fn tokens_agree_with_std() {
    for text in ["", " ", "a", " a", "a ", "a b", "ab  cd\tef", "\u{a0}x\u{2003}y\u{85}", "r\u{e9}sum\u{e9} na\u{ef}ve", "  1 2.0 three 4e4  "] {
        let expected: Vec<String> = text.split_whitespace().map(|t| t.to_string()).collect();
        assert_eq!(split_tokens(text), expected, "{:?}", text);
    }
}

#[test]
fn characters_of_a_text() {
    assert_eq!(chars_of("a\u{e9}z"), vec!['a', '\u{e9}', 'z']);
    assert_eq!(chars_of(""), Vec::<char>::new());
}

#[test]
fn substring_search() {
    assert!(contains("/synth/fx/1", "synth/fx"));
    assert!(contains("synth/fx", "synth/fx"));
    assert!(contains("a/synth/fx", "synth/fx"));
    assert!(contains("anything", ""));
    assert!(contains("", ""));
    assert!(!contains("/synth/f", "synth/fx"));
    assert!(!contains("/synth/xf", "synth/fx"));
    assert!(!contains("", "synth/fx"));
    assert!(!contains("/Synth/FX", "synth/fx"));
}

#[test]
fn substring_search_agrees_with_std() {
    let texts = ["", "a", "ab", "aab", "aaab", "abab", "synth/fx", "/synth/fx", "ssynth/fx", "synth/synth/fx", "\u{e9}a\u{e9}"];
    for hay in texts {
        for needle in texts {
            assert_eq!(contains(hay, needle), hay.contains(needle), "{:?} in {:?}", needle, hay);
        }
    }
}

#[test]
fn same_text_compares_characters() {
    assert!(same_text("note_on", "note_on"));
    assert!(same_text("", ""));
    assert!(!same_text("note_on", "note_off"));
    assert!(!same_text("note_on", "note_o"));
    assert!(!same_text("a", "b"));
}

#[test]
fn numbers_in_base_ten() {
    for n in [0u32, 1, 9, 10, 11, 99, 100, 101, 7001, 65535, 65536, 1000000, 4294967295] {
        assert_eq!(decimal_string(n), n.to_string());
    }
}
