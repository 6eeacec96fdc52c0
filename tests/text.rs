use creddock::text::{same_text, trim, white_space};

#[test]
fn trim_removes_trailing_newline() {
    assert_eq!(trim("sha256:abc123\n"), "sha256:abc123");
}

#[test]
fn trim_removes_both_ends() {
    assert_eq!(trim(" \t img123 \r\n"), "img123");
    assert_eq!(trim("\u{3000}a b\u{a0}"), "a b");
}

#[test]
fn trim_of_blank_is_empty() {
    assert_eq!(trim(""), "");
    assert_eq!(trim(" \n\t "), "");
}

#[test]
fn trim_agrees_with_std() {
    for s in ["x", "  x", "x  ", "\u{2028}x\u{85}", "a\u{200b}", "\u{1680}é ü\u{205f}"] {
        assert_eq!(trim(s), s.trim());
    }
}

#[test]
fn white_space_agrees_with_std() {
    for c in ['\t', '\n', '\u{b}', '\u{c}', '\r', ' ', '\u{85}', '\u{a0}', '\u{2000}', '\u{200a}', '\u{200b}', 'a', '\u{e}', '\u{3000}'] {
        assert_eq!(white_space(c), c.is_whitespace());
    }
}

#[test]
fn same_text_compares_characters() {
    assert!(same_text("docker", "docker"));
    assert!(!same_text("docker", "docke"));
    assert!(!same_text("docker", "dockeR"));
    assert!(same_text("", ""));
}
