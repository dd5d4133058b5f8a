use kffmpeg::text::{chars_of, occurs_at_exec, replace, same_text, string_of};

#[test]
fn replace_single_occurrence() {
    assert_eq!(replace("a{{x}}b", "{{x}}", "123"), "a123b");
}

#[test]
fn replace_whole_string() {
    assert_eq!(replace("{{x}}", "{{x}}", "value"), "value");
}

#[test]
fn replace_every_occurrence() {
    assert_eq!(replace("x-x-x", "x", "yy"), "yy-yy-yy");
}

#[test]
fn replace_without_occurrence() {
    assert_eq!(replace("plain", "{{x}}", "123"), "plain");
    assert_eq!(replace("", "x", "y"), "");
    assert_eq!(replace("ab", "abc", "y"), "ab");
}

#[test]
fn replace_scans_from_the_left_without_overlap() {
    assert_eq!(replace("aaa", "aa", "b"), "ba");
    assert_eq!(replace("aaaa", "aa", "b"), "bb");
    assert_eq!(replace("ababa", "aba", "x"), "xba");
}

#[test]
fn replace_does_not_rescan_what_it_put_in() {
    assert_eq!(replace("ab", "a", "aa"), "aab");
    assert_eq!(replace("xx", "x", "xx"), "xxxx");
}

#[test]
fn replace_by_nothing() {
    assert_eq!(replace("a-b-c", "-", ""), "abc");
}

#[test]
fn replace_empty_pattern_changes_nothing() {
    assert_eq!(replace("abc", "", "x"), "abc");
}

#[test]
fn replace_handles_wide_characters() {
    assert_eq!(replace("münchen→köln", "→", " to "), "münchen to köln");
    assert_eq!(replace("日本語", "本", "x"), "日x語");
}

#[test]
fn replace_agrees_with_the_standard_library() {
    let cases = [
        ("{{a}}{{a}}", "{{a}}", "{"),
        ("{{{a}}}", "{{a}}", "b"),
        ("a.b.c", ".", ".."),
        ("trailing{{", "{{", "x"),
    ];
    for (s, pat, to) in cases {
        assert_eq!(replace(s, pat, to), s.replace(pat, to));
    }
}

#[test]
fn chars_and_back() {
    let text = "héllo, wörld";
    let chars = chars_of(text);
    assert_eq!(chars, text.chars().collect::<Vec<char>>());
    assert_eq!(string_of(&chars, 0, chars.len()), text);
    assert_eq!(string_of(&chars, 1, 5), "éllo");
    assert_eq!(string_of(&chars, 3, 3), "");
}

#[test]
fn same_text_compares_characters() {
    assert!(same_text("y", "y"));
    assert!(same_text("", ""));
    assert!(!same_text("y", "Y"));
    assert!(!same_text("y", "y "));
    assert!(!same_text("y", ""));
}

#[test]
fn occurs_at_checks_position_and_bounds() {
    let s = chars_of("abcabc");
    let pat = chars_of("bc");
    assert!(occurs_at_exec(&s, 1, &pat));
    assert!(occurs_at_exec(&s, 4, &pat));
    assert!(!occurs_at_exec(&s, 0, &pat));
    assert!(!occurs_at_exec(&s, 5, &pat));
    assert!(!occurs_at_exec(&s, 6, &pat));
    assert!(!occurs_at_exec(&s, usize::MAX, &pat));
    assert!(occurs_at_exec(&s, 6, &Vec::new()));
    assert!(!occurs_at_exec(&s, 7, &Vec::new()));
}
