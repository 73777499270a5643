use cargo_pkg_info_struct_builder::escape_newlines;
use cargo_pkg_info_struct_builder::text::chars_of;
use cargo_pkg_info_struct_builder::text::replace_all;
use cargo_pkg_info_struct_builder::text::same_text;
use cargo_pkg_info_struct_builder::text::split_lines;
use cargo_pkg_info_struct_builder::text::starts_with;
use cargo_pkg_info_struct_builder::text::text_of_range;
use cargo_pkg_info_struct_builder::unescape_newlines;

#[test]
fn replace_all_replaces_from_the_left_without_overlap() {
    assert_eq!(replace_all("aaa", "aa", "b"), "ba");
    assert_eq!(replace_all("abcabc", "bc", "X"), "aXaX");
    assert_eq!(replace_all("abc", "x", "y"), "abc");
    assert_eq!(replace_all("", "x", "y"), "");
    assert_eq!(replace_all("aXa", "X", ""), "aa");
    // what was put in is not searched again
    assert_eq!(replace_all("ab", "a", "aa"), "aab");
}

#[test]
fn replace_all_agrees_with_std_on_samples() {
    let texts = ["", "a", "\r\n", "a\r\nb\nc\r", "\\n\\\\n", "ééé\n\u{1F600}", "aaaa", "abab"];
    let pairs = [("\r\n", "\n"), ("\n", "\\n"), ("\\n", "\n"), ("aa", "a"), ("ab", "ba")];
    for text in texts {
        for (from, to) in pairs {
            assert_eq!(replace_all(text, from, to), text.replace(from, to));
        }
    }
}

#[test]
fn replace_all_with_empty_pattern_changes_nothing() {
    assert_eq!(replace_all("abc", "", "X"), "abc");
    assert_eq!(replace_all("", "", "X"), "");
}

#[test]
fn escape_newlines_normalizes_then_escapes() {
    assert_eq!(escape_newlines("a\nb"), "a\\nb");
    assert_eq!(escape_newlines("a\r\nb"), "a\\nb");
    assert_eq!(escape_newlines("a\r\n\nb\n"), "a\\n\\nb\\n");
    assert_eq!(escape_newlines("no breaks"), "no breaks");
    assert_eq!(escape_newlines(""), "");
    // a lone carriage return stays
    assert_eq!(escape_newlines("a\rb"), "a\rb");
    assert_eq!(escape_newlines("a\r\r\nb"), "a\r\\nb");
}

#[test]
fn unescape_newlines_restores_line_feeds() {
    assert_eq!(unescape_newlines("a\\nb"), "a\nb");
    assert_eq!(unescape_newlines("\\n\\n"), "\n\n");
    assert_eq!(unescape_newlines("plain"), "plain");
    assert_eq!(unescape_newlines("a\\\\nb"), "a\\\nb");
}

#[test]
fn escape_then_unescape_gives_the_normalized_text() {
    let texts = [
        "",
        "one line",
        "two\nlines",
        "windows\r\nlines\r\n",
        "=== MOCK LICENSE ===\n\nOK\n",
        "back\\slash",
        "trailing backslash\\\nnext",
        "tab\tand\r\n\r\nblank",
    ];
    for text in texts {
        let normalized = text.replace("\r\n", "\n");
        assert!(!normalized.contains("\\n"));
        assert_eq!(unescape_newlines(&escape_newlines(text)), normalized);
    }
}

#[test]
fn escape_then_unescape_loses_a_literal_marker() {
    // a backslash followed by `n` cannot be told from an escaped line feed
    let text = "C:\\new\nfolder";
    assert_eq!(escape_newlines(text), "C:\\new\\nfolder");
    assert_eq!(unescape_newlines(&escape_newlines(text)), "C:\new\nfolder");
    assert_ne!(unescape_newlines(&escape_newlines(text)), text);
}

#[test]
fn split_lines_cuts_at_line_feeds() {
    assert_eq!(split_lines("a\nb"), vec!["a", "b"]);
    assert_eq!(split_lines("a\nb\n"), vec!["a", "b"]);
    assert_eq!(split_lines("a\r\nb"), vec!["a", "b"]);
    assert_eq!(split_lines("\n"), vec![""]);
    assert_eq!(split_lines("\n\n"), vec!["", ""]);
    assert_eq!(split_lines(""), Vec::<String>::new());
    assert_eq!(split_lines("a\r"), vec!["a\r"]);
    assert_eq!(split_lines("a\r\r\n"), vec!["a\r"]);
    assert_eq!(split_lines("\r\n"), vec![""]);
}

#[test]
fn split_lines_agrees_with_std_on_samples() {
    let texts = ["", "a", "a\n", "\na", "a\r\nb\r\n", "a\rb\n\r", "\r", "\n\r\n\n", "x\n\ny\r"];
    for text in texts {
        let expected: Vec<String> = text.lines().map(String::from).collect();
        assert_eq!(split_lines(text), expected);
    }
}

#[test]
fn custom_multi_line_binding_round_trips_through_lines() {
    let text = "Some text\n\nLevel 1\n    Level 2";
    let read_back = unescape_newlines(&escape_newlines(text));
    assert_eq!(
        split_lines(&read_back),
        vec!["Some text", "", "Level 1", "    Level 2"]
    );
}

#[test]
fn same_text_compares_characters() {
    assert!(same_text("", ""));
    assert!(same_text("abc", "abc"));
    assert!(!same_text("abc", "abd"));
    assert!(!same_text("abc", "ab"));
    assert!(!same_text("ab", "abc"));
    assert!(same_text("é\u{1F600}", "é\u{1F600}"));
}

#[test]
fn starts_with_looks_at_the_beginning_only() {
    assert!(starts_with("CARGO_X", "CARGO_"));
    assert!(starts_with("CARGO_", "CARGO_"));
    assert!(starts_with("abc", ""));
    assert!(!starts_with("CARGO", "CARGO_"));
    assert!(!starts_with("XCARGO_", "CARGO_"));
}

#[test]
fn chars_and_ranges() {
    let chars = chars_of("héllo");
    assert_eq!(chars, vec!['h', 'é', 'l', 'l', 'o']);
    assert_eq!(text_of_range(&chars, 1, 4), "éll");
    assert_eq!(text_of_range(&chars, 2, 2), "");
    assert_eq!(text_of_range(&chars, 0, 5), "héllo");
}
