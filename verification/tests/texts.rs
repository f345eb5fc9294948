use worktree_manager::git::{git_message, message_from_text, trimmed_lossy};
use worktree_manager::text::{
    characters, contains, copy_all, decimal_text, ends_with, is_alphanumeric, is_white_space, join,
    line_block, lines, pad, same, split, starts_with, strip_prefix, trim, trim_start_matches,
};

fn list(texts: &[&str]) -> Vec<String> {
    texts.iter().map(|text| text.to_string()).collect()
}

#[test]
fn git_message_uses_the_first_line_without_its_severity_prefix() {
    assert_eq!(
        git_message(b"error: the branch 'feature-a' is not fully merged\nhint: use -D\n"),
        "the branch 'feature-a' is not fully merged"
    );
}

#[test]
fn git_message_drops_repeated_severities_in_their_order() {
    assert_eq!(git_message(b"fatal: fatal: error: error: broken\n"), "broken");
    assert_eq!(git_message(b"error: fatal: broken\n"), "fatal: broken");
    assert_eq!(git_message(b""), "");
    assert_eq!(git_message(b"\nerror: later\n"), "");
    assert_eq!(message_from_text("  fatal: padded  \r\nmore"), "padded");
}

#[test]
fn bytes_are_read_as_text_and_faults_are_replaced() {
    assert_eq!(trimmed_lossy("  caf\u{e9} \u{1f980}\n".as_bytes()), "caf\u{e9} \u{1f980}");
    assert_eq!(trimmed_lossy(b"a\xffb\n"), "a\u{fffd}b");
    assert_eq!(git_message(b"fatal: caf\xc3\xa9\n"), "caf\u{e9}");
}

#[test]
fn trim_agrees_with_the_standard_library() {
    for text in [
        "",
        " ",
        "a",
        " a b ",
        "\t\r\n\u{b}\u{c}a\u{85}\u{a0}",
        "\u{2003}\u{3000}wide\u{1680}\u{2028}\u{2029}\u{202f}\u{205f}",
        "\u{200b}kept\u{200b}",
    ] {
        assert_eq!(trim(text), text.trim());
    }
}

#[test]
fn white_space_agrees_with_the_standard_library() {
    for code in 0..0x11_0000u32 {
        if let Some(character) = char::from_u32(code) {
            assert_eq!(is_white_space(character), character.is_whitespace());
            assert_eq!(is_alphanumeric(character), character.is_ascii_alphanumeric());
        }
    }
}

#[test]
fn lines_agree_with_the_standard_library() {
    for text in [
        "",
        "\n",
        "a",
        "a\n",
        "a\nb",
        "a\r\nb\r\n",
        "a\rb\n\r\n\n",
        "a\r",
        "\r\n\r",
        "\u{e9}\n\u{1f980}\n",
    ] {
        assert_eq!(lines(text), list(&text.lines().collect::<Vec<_>>()));
    }
}

#[test]
fn split_agrees_with_the_standard_library() {
    for text in ["", "a", "a\n\nb", "\n\n", "a\n\n\nb\n\n\n\nc", "a\nb"] {
        assert_eq!(
            split(text, "\n\n"),
            list(&text.split("\n\n").collect::<Vec<_>>())
        );
    }
}

#[test]
fn searches_agree_with_the_standard_library() {
    for text in ["", "a", "ab", "a..b", "x@{", "\u{e9}..", "aaab"] {
        for pattern in ["", "a", "..", "@{", "ab", "aab", "\u{e9}"] {
            assert_eq!(contains(text, pattern), text.contains(pattern));
            assert_eq!(starts_with(text, pattern), text.starts_with(pattern));
            assert_eq!(ends_with(text, pattern), text.ends_with(pattern));
            assert_eq!(strip_prefix(text, pattern), text.strip_prefix(pattern));
            assert_eq!(same(text, pattern), text == pattern);
        }
    }
}

#[test]
fn leading_patterns_are_dropped_as_often_as_they_stand() {
    assert_eq!(trim_start_matches("aaab", "a"), "b");
    assert_eq!(trim_start_matches("ababa", "ab"), "a");
    assert_eq!(trim_start_matches("ba", "a"), "ba");
    assert_eq!(trim_start_matches("ba", ""), "ba");
}

#[test]
fn lists_become_texts() {
    assert_eq!(join(&list(&[]), " "), "");
    assert_eq!(join(&list(&["a"]), " "), "a");
    assert_eq!(join(&list(&["a", "", "b"]), ", "), "a, , b");
    assert_eq!(line_block(&list(&["a", "b"])), "a\nb\n");
    assert_eq!(line_block(&list(&[])), "");
    assert_eq!(copy_all(&list(&["a", "b"])), list(&["a", "b"]));
    assert_eq!(characters("a\u{e9}"), vec!['a', '\u{e9}']);
}

#[test]
fn numbers_are_written_in_decimal() {
    for number in [0, 7, 9, 10, 99, 100, 4096, u64::MAX] {
        assert_eq!(decimal_text(number), number.to_string());
    }
}

#[test]
fn columns_are_padded_with_spaces() {
    assert_eq!(pad("ab", 4), "ab  ");
    assert_eq!(pad("ab", 2), "ab");
    assert_eq!(pad("abc", 2), "abc");
    assert_eq!(pad("\u{e9}", 3), "\u{e9}  ");
}
