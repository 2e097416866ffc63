use md_redpen::markdown::project_text;

#[test]
fn maps_korean_graphemes_to_utf8_ranges() -> Result<(), Box<dyn std::error::Error>> {
    let source = "한글 e\u{301}🙂";
    let projection = project_text(source).map_err(|e| format!("{e:?}"))?;
    let actual: Vec<(&str, std::ops::Range<usize>)> = projection
        .graphemes()
        .iter()
        .map(|grapheme| (grapheme.text(), grapheme.source_range()))
        .collect();

    assert_eq!(
        actual,
        vec![
            ("한", 0..3),
            ("글", 3..6),
            (" ", 6..7),
            ("e\u{301}", 7..10),
            ("🙂", 10..14),
        ]
    );
    Ok(())
}

#[test]
fn every_rendered_range_lies_in_the_source() -> Result<(), Box<dyn std::error::Error>> {
    let source = "# 제목\n\n- 항목 `코드`\n- 둘째\n\n---\n\n본문 **강조**와 <mark>[표시][rp-a]</mark>\n";
    let projection = project_text(source).map_err(|error| error.message())?;
    for grapheme in projection.graphemes() {
        let range = grapheme.source_range();
        assert!(range.start <= range.end && range.end <= source.len());
        assert!(source.is_char_boundary(range.start) && source.is_char_boundary(range.end));
        if grapheme.is_selectable() {
            assert!(range.start < range.end);
            assert_eq!(source.get(range), Some(grapheme.text()));
        }
    }
    Ok(())
}
