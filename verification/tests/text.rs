use agentenv_snapshot::path::join_path;
use agentenv_snapshot::text::{
    characters, contains, decimal_text, is_blank, is_white_space, join, signed_decimal_text,
    text_precedes, trim,
};

#[test]
fn white_space_is_what_std_takes_for_it() {
    for code in 0..=0x10ffff_u32 {
        if let Some(c) = char::from_u32(code) {
            assert_eq!(is_white_space(c), c.is_whitespace(), "{:x}", code);
        }
    }
}

#[test]
fn trimming_is_as_in_std() {
    for s in ["", " ", "a", " a", "a ", "\t a b \n", "\u{3000}x\u{a0}", "é", " \u{2003}é ü\r\n"] {
        assert_eq!(trim(s), s.trim());
        assert_eq!(is_blank(s), s.trim().is_empty());
    }
}

#[test]
fn searching_is_as_in_std() {
    let hays = ["", "a", "aab", "not found", "it was not found.", "not  found", "notnot found"];
    for hay in hays {
        for needle in ["", "a", "ab", "not found", "b", "t f"] {
            assert_eq!(contains(hay, needle), hay.contains(needle), "{} in {}", needle, hay);
        }
    }
}

#[test]
fn characters_are_those_of_the_text() {
    assert_eq!(characters("aé\u{1f600}"), vec!['a', 'é', '\u{1f600}']);
}

#[test]
fn order_is_as_in_std() {
    let texts = ["", "a", "ab", "b", "B", "é", "\u{ffff}", "\u{10000}", "a\u{1f600}"];
    for a in texts {
        for b in texts {
            assert_eq!(text_precedes(a, b), a < b, "{} and {}", a, b);
        }
    }
}

#[test]
fn numerals_are_as_in_std() {
    for n in [0, 1, 9, 10, 99, 100, 1234567890, u64::MAX] {
        assert_eq!(decimal_text(n), n.to_string());
    }
    for n in [0, 1, -1, -10, i64::MAX, i64::MIN] {
        assert_eq!(signed_decimal_text(n), n.to_string());
    }
}

#[test]
fn joining_is_as_in_std() {
    for parts in [vec![], vec!["a"], vec!["a", "b"], vec!["", "", "c"]] {
        let owned: Vec<String> = parts.iter().map(|s| s.to_string()).collect();
        assert_eq!(join(&owned, ","), owned.join(","));
    }
}

#[test]
fn paths_join_as_in_std() {
    for base in ["", "/", "/a", "/a/", "a/b", "."] {
        for relative in ["", "c", "c/d", "/c", "image.json"] {
            let expected = std::path::Path::new(base).join(relative);
            assert_eq!(join_path(base, relative), expected.display().to_string());
        }
    }
}
