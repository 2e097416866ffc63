use md_redpen::text::{first_occurrence, line_context, remove_last_grapheme, trim_string};

#[test]
fn backspace_removes_one_grapheme() {
    let mut text = "한글 e\u{301}".to_owned();
    remove_last_grapheme(&mut text);
    assert_eq!(text, "한글 ");
    remove_last_grapheme(&mut text);
    assert_eq!(text, "한글");
    let mut empty = String::new();
    remove_last_grapheme(&mut empty);
    assert_eq!(empty, "");
}

#[test]
fn trimming_and_searching() {
    assert_eq!(trim_string("  설명 \n"), "설명");
    assert_eq!(trim_string(" \t "), "");
    assert_eq!(first_occurrence(b"abcabc", b"ca"), Some(2));
    assert_eq!(first_occurrence(b"abc", b"x"), None);
    assert_eq!(first_occurrence(b"ab", b"abc"), None);
}

#[test]
fn line_context_is_the_whole_source_line() {
    let source = "첫 줄\n둘째 줄 문장\n셋째";
    let start = source.find("줄 문장").unwrap_or(0);
    assert_eq!(line_context(source, start, start + "줄".len()), "둘째 줄 문장");
    assert_eq!(line_context(source, 0, 0), "첫 줄");
    assert_eq!(line_context(source, source.len(), source.len()), "셋째");
}
