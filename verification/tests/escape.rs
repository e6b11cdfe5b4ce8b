use tlmcmddb::escape::{escape, unescape};

#[test]
fn escape_replaces_each_control_character() {
    assert_eq!(escape("a,b\nc\rd"), "a@@b##c%%d");
    assert_eq!(escape("\n\n"), "####");
    assert_eq!(escape(""), "");
    assert_eq!(escape("plain text"), "plain text");
}

#[test]
fn unescape_replaces_each_token() {
    assert_eq!(unescape("a@@b##c%%d"), "a,b\nc\rd");
    assert_eq!(unescape("Var.%%##Type"), "Var.\r\nType");
    assert_eq!(unescape(""), "");
    assert_eq!(unescape("#"), "#");
    assert_eq!(unescape("#%@"), "#%@");
}

#[test]
fn unescape_reads_tokens_from_the_left() {
    assert_eq!(unescape("###"), "\n#");
    assert_eq!(unescape("####"), "\n\n");
    assert_eq!(unescape("@@@"), ",@");
    assert_eq!(unescape("%#%"), "%#%");
}

#[test]
fn unescape_undoes_escape() {
    for text in ["", "abc", "a,b", "line one\nline two\r\n", ",,,", "x # y % z @", "\n#", "a\n\rb,c"] {
        assert_eq!(unescape(&escape(text)), text);
    }
}

#[test]
fn marker_before_its_control_character_is_not_restored() {
    assert_eq!(escape("#\n"), "###");
    assert_eq!(unescape(&escape("#\n")), "\n#");
    assert_eq!(unescape(&escape("@,")), ",@");
}

#[test]
fn text_with_a_token_is_not_restored() {
    assert_eq!(escape("a##b"), "a##b");
    assert_eq!(unescape(&escape("a##b")), "a\nb");
}

#[test]
fn non_ascii_text_passes_through() {
    assert_eq!(escape("\u{3a3},\u{3042}"), "\u{3a3}@@\u{3042}");
    assert_eq!(unescape("\u{3a3}@@\u{3042}"), "\u{3a3},\u{3042}");
}
