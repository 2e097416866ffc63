use std::path::PathBuf;

use md_redpen::app::{App, Effect, KeyCode, KeyPress, MouseAction};
use md_redpen::app_state::{Mode, StatusTone};
use md_redpen::codex::{CodexError, CodexRequest};
use md_redpen::storage::{check_unchanged, DocumentSnapshot};

fn app_for(source: &str) -> Result<App, String> {
    let snapshot = DocumentSnapshot::from_parts(PathBuf::from("document.md"), source.to_owned());
    App::new(snapshot, false).map_err(|error| error.message())
}

fn key(code: KeyCode) -> KeyPress {
    KeyPress { code, control: false }
}

fn press(app: &mut App, code: KeyCode) -> Effect {
    app.handle_key(key(code))
}

fn type_text(app: &mut App, text: &str) {
    for character in text.chars() {
        let effect = press(app, KeyCode::Char(character));
        assert!(matches!(effect, Effect::Nothing));
    }
}

fn select_word(app: &mut App) {
    press(app, KeyCode::Char('w'));
}

fn commit_text(effect: Effect) -> Result<String, String> {
    match effect {
        Effect::Commit(text) => Ok(text),
        other => Err(format!("expected a write, got {other:?}")),
    }
}

fn start_revision(app: &mut App, instruction: &str) -> Result<CodexRequest, String> {
    select_word(app);
    press(app, KeyCode::Char('c'));
    press(app, KeyCode::Char('r'));
    type_text(app, instruction);
    match press(app, KeyCode::Enter) {
        Effect::StartCodex(request) => {
            app.codex_started();
            Ok(request)
        }
        other => Err(format!("expected a Codex request, got {other:?}")),
    }
}

#[test]
fn c_opens_choice_before_any_codex_request() -> Result<(), Box<dyn std::error::Error>> {
    let mut app = app_for("느린 문장입니다.\n")?;

    select_word(&mut app);
    let effect = press(&mut app, KeyCode::Char('c'));

    assert_eq!(app.mode(), Mode::CodexChoice);
    assert!(matches!(effect, Effect::Nothing));

    press(&mut app, KeyCode::Esc);
    assert_eq!(app.mode(), Mode::Visual);
    assert_eq!(app.editor().selected_text(), Some("느린"));

    press(&mut app, KeyCode::Char('c'));
    press(&mut app, KeyCode::Char('r'));
    assert_eq!(app.mode(), Mode::RevisionInput);
    let effect = press(&mut app, KeyCode::Enter);
    assert!(matches!(effect, Effect::Nothing));
    assert_eq!(app.mode(), Mode::RevisionInput);
    assert!(app.status().contains("Revision instruction cannot be empty"));
    type_text(&mut app, "더 정확하게");
    assert_eq!(app.input(), "더 정확하게");

    press(&mut app, KeyCode::Esc);
    assert_eq!(app.mode(), Mode::Visual);
    assert!(app.input().is_empty());
    assert_eq!(app.editor().selected_text(), Some("느린"));
    Ok(())
}

#[test]
fn revision_instruction_is_reviewed_before_replacing_selection() -> Result<(), Box<dyn std::error::Error>> {
    let mut app = app_for("느린 문장입니다.\n")?;

    let request = start_revision(&mut app, "더 정확하게 바꿔 줘")?;

    assert_eq!(app.mode(), Mode::CodexRunning);
    assert_eq!(app.snapshot().source(), "느린 문장입니다.\n");
    let prompt = request.prompt();
    assert!(prompt.contains("<revision_instruction>\n더 정확하게 바꿔 줘"));
    assert!(prompt.contains("<selection>\n느린\n</selection>"));

    app.accept_codex_result(Ok("더 정확한".to_owned()));

    assert_eq!(app.mode(), Mode::Review);
    assert_eq!(app.review(), "더 정확한");
    assert_eq!(app.snapshot().source(), "느린 문장입니다.\n");

    let written = commit_text(press(&mut app, KeyCode::Enter))?;
    assert_eq!(written, "더 정확한 문장입니다.\n");
    assert!(!written.contains("md-redpen:notes"));
    app.commit_succeeded(DocumentSnapshot::from_parts(PathBuf::from("document.md"), written));

    assert_eq!(app.mode(), Mode::Browse, "status: {}", app.status());
    assert_eq!(app.snapshot().source(), "더 정확한 문장입니다.\n");
    assert!(app.status().contains("문장 수정 적용"));
    Ok(())
}

#[test]
fn external_change_blocks_reviewed_revision() -> Result<(), Box<dyn std::error::Error>> {
    let mut app = app_for("느린 문장입니다.\n")?;
    start_revision(&mut app, "더 정확하게 바꿔 줘")?;
    app.accept_codex_result(Ok("더 정확한".to_owned()));

    commit_text(press(&mut app, KeyCode::Enter))?;
    let verdict = check_unchanged(app.snapshot(), "외부 편집 내용\n");
    let error = verdict.err().ok_or("an external change must block the write")?;
    app.report_error(&error.message());

    assert_eq!(app.mode(), Mode::Review);
    assert!(app.status().contains("document changed outside"));
    assert_eq!(app.snapshot().source(), "느린 문장입니다.\n");
    Ok(())
}

#[test]
fn codex_result_requires_review_before_commit() -> Result<(), Box<dyn std::error::Error>> {
    let mut app = app_for("RDMA는 빠르다.\n")?;

    press(&mut app, KeyCode::Char('w'));
    press(&mut app, KeyCode::Char('c'));
    let request = match press(&mut app, KeyCode::Char('e')) {
        Effect::StartCodex(request) => request,
        other => return Err(format!("expected a Codex request, got {other:?}").into()),
    };
    app.codex_started();

    assert_eq!(app.mode(), Mode::CodexRunning);
    assert!(request.prompt().contains("<selection>\nRDMA\n</selection>"));
    assert_eq!(app.snapshot().source(), "RDMA는 빠르다.\n");

    app.accept_codex_result(Ok("가짜 Codex 설명".to_owned()));

    assert_eq!(app.mode(), Mode::Review);
    assert_eq!(app.review(), "가짜 Codex 설명");
    assert_eq!(app.snapshot().source(), "RDMA는 빠르다.\n");

    let persisted = commit_text(press(&mut app, KeyCode::Enter))?;
    app.commit_succeeded(DocumentSnapshot::from_parts(PathBuf::from("document.md"), persisted.clone()));

    assert_eq!(app.mode(), Mode::Browse);
    assert!(persisted.contains("<mark>[RDMA]"));
    assert!(persisted.contains("가짜 Codex 설명"));
    Ok(())
}

#[test]
fn codex_draft_can_commit_prose_after_fenced_managed_marker_example() -> Result<(), Box<dyn std::error::Error>> {
    let fenced_example = "```markdown\n<!-- md-redpen:notes:start v=1 -->\n예시 미주\n<!-- md-redpen:notes:end -->\n```\n\n";
    let source = format!("{fenced_example}후속 문장입니다.\n");
    let mut app = app_for(&source)?;
    let selection_start = source.find("후속 문장").ok_or("fixture must contain selection")?;
    let target = app
        .editor()
        .projection()
        .graphemes()
        .iter()
        .position(|item| item.source_range().start == selection_start)
        .ok_or("selection must be rendered")?;
    while app.editor().cursor() < target {
        press(&mut app, KeyCode::Right);
    }
    press(&mut app, KeyCode::Char('w'));
    press(&mut app, KeyCode::Char('c'));
    press(&mut app, KeyCode::Char('e'));
    app.codex_started();
    app.accept_codex_result(Ok("가짜 Codex 설명".to_owned()));
    assert_eq!(app.mode(), Mode::Review);

    let persisted = commit_text(press(&mut app, KeyCode::Enter))?;
    app.commit_succeeded(DocumentSnapshot::from_parts(PathBuf::from("document.md"), persisted.clone()));

    assert_eq!(app.mode(), Mode::Browse, "status: {}", app.status());
    assert!(persisted.starts_with(fenced_example));
    assert_eq!(persisted.matches("<!-- md-redpen:notes:start v=1 -->").count(), 2);
    assert_eq!(persisted.matches("<!-- md-redpen:notes:end -->").count(), 2);
    assert!(persisted.contains("<mark>[후속][rp-"));
    assert!(persisted.contains("가짜 Codex 설명"));
    Ok(())
}

#[test]
fn highlighted_sentence_navigates_to_its_endnote_and_back() -> Result<(), Box<dyn std::error::Error>> {
    let source = "<mark>[선택 문장][rp-link]</mark>입니다.\n\n<!-- md-redpen:notes:start v=1 -->\n## MD RedPen Notes\n\n<a id=\"rp-note-link\"></a>\n### 1) 선택 문장\n\n설명입니다.\n\n[rp-link]: #rp-note-link\n<!-- md-redpen:notes:end -->\n";
    let mut app = app_for(source)?;
    let body_cursor = app.editor().cursor();

    assert_eq!(app.editor().current_link_target(), Some("#rp-note-link"));
    press(&mut app, KeyCode::Enter);
    assert!(app.editor().cursor() > body_cursor);

    press(&mut app, KeyCode::Char('b'));
    assert_eq!(app.editor().cursor(), body_cursor);
    Ok(())
}

#[test]
fn arrow_down_moves_to_the_next_markdown_paragraph() -> Result<(), Box<dyn std::error::Error>> {
    let mut app = app_for("첫 문단 첫 줄\n같은 문단 둘째 줄\n\n둘째 문단입니다.\n")?;

    press(&mut app, KeyCode::Down);
    press(&mut app, KeyCode::Char('w'));

    assert_eq!(app.editor().selected_text(), Some("둘째"));
    Ok(())
}

#[test]
fn empty_manual_note_is_rejected_in_place() -> Result<(), Box<dyn std::error::Error>> {
    let mut app = app_for("본문\n")?;
    press(&mut app, KeyCode::Char('v'));
    press(&mut app, KeyCode::Char('a'));
    let effect = press(&mut app, KeyCode::Enter);

    assert!(matches!(effect, Effect::Nothing));
    assert_eq!(app.mode(), Mode::ManualInput);
    assert_eq!(app.status(), "Note cannot be empty");
    assert_eq!(app.status_tone(), StatusTone::Error);
    Ok(())
}

#[test]
fn manual_note_is_written_after_enter_only() -> Result<(), Box<dyn std::error::Error>> {
    let mut app = app_for("RDMA는 빠르다.\n")?;
    press(&mut app, KeyCode::Char('w'));
    press(&mut app, KeyCode::Char('a'));
    type_text(&mut app, "  직접 설명 ");
    assert_eq!(app.input(), "  직접 설명 ");
    press(&mut app, KeyCode::Backspace);
    press(&mut app, KeyCode::Backspace);
    assert_eq!(app.input(), "  직접 설");
    type_text(&mut app, "명");

    let written = commit_text(press(&mut app, KeyCode::Enter))?;
    assert!(written.starts_with("<mark>[RDMA][rp-"));
    assert!(written.contains("\n1. **사용자 메모**: 직접 설명\n\n"));

    app.commit_succeeded(DocumentSnapshot::from_parts(PathBuf::from("document.md"), written.clone()));
    assert_eq!(app.mode(), Mode::Browse);
    assert_eq!(app.status(), "저장됨 · 형광펜 미주 추가");
    assert_eq!(app.status_tone(), StatusTone::Success);
    assert!(app.input().is_empty());
    assert_eq!(app.editor().source(), written);
    Ok(())
}

#[test]
fn control_c_quits_from_input() -> Result<(), Box<dyn std::error::Error>> {
    let mut app = app_for("본문\n")?;
    press(&mut app, KeyCode::Char('v'));
    press(&mut app, KeyCode::Char('a'));
    let effect = app.handle_key(KeyPress { code: KeyCode::Char('c'), control: true });

    assert!(matches!(effect, Effect::Nothing));
    assert!(app.should_quit());
    assert!(app.input().is_empty());
    Ok(())
}

#[test]
fn escape_while_codex_runs_asks_for_cancellation() -> Result<(), Box<dyn std::error::Error>> {
    let mut app = app_for("RDMA는 빠르다.\n")?;
    press(&mut app, KeyCode::Char('w'));
    press(&mut app, KeyCode::Char('c'));
    press(&mut app, KeyCode::Char('e'));
    app.codex_started();

    let effect = press(&mut app, KeyCode::Esc);
    assert!(matches!(effect, Effect::CancelCodex));
    assert_eq!(app.mode(), Mode::CodexRunning);

    app.codex_cancelled();
    assert_eq!(app.mode(), Mode::Visual);
    assert_eq!(app.editor().selected_text(), Some("RDMA"));
    Ok(())
}

#[test]
fn codex_failure_keeps_the_selection() -> Result<(), Box<dyn std::error::Error>> {
    let mut app = app_for("RDMA는 빠르다.\n")?;
    press(&mut app, KeyCode::Char('w'));
    press(&mut app, KeyCode::Char('c'));
    press(&mut app, KeyCode::Char('e'));
    app.codex_started();

    app.accept_codex_result(Err(CodexError::EmptyOutput));

    assert_eq!(app.mode(), Mode::Visual);
    assert_eq!(app.status(), "Codex returned an empty note");
    assert_eq!(app.status_tone(), StatusTone::Error);
    assert_eq!(app.editor().selected_text(), Some("RDMA"));
    Ok(())
}

#[test]
fn note_without_rendered_selection_reports_missing_selection() -> Result<(), Box<dyn std::error::Error>> {
    let mut app = app_for("")?;
    press(&mut app, KeyCode::Char('v'));
    press(&mut app, KeyCode::Char('a'));
    type_text(&mut app, "설명");
    let effect = press(&mut app, KeyCode::Enter);

    assert!(matches!(effect, Effect::Nothing));
    assert_eq!(app.status(), "select a word or sentence first");
    assert_eq!(app.status_tone(), StatusTone::Error);
    assert_eq!(app.mode(), Mode::ManualInput);
    Ok(())
}

#[test]
fn multiline_revision_is_rejected() -> Result<(), Box<dyn std::error::Error>> {
    let mut app = app_for("느린 문장입니다.\n")?;
    start_revision(&mut app, "바꿔 줘")?;
    app.accept_codex_result(Ok("첫 줄\n둘째 줄".to_owned()));

    let effect = press(&mut app, KeyCode::Enter);
    assert!(matches!(effect, Effect::Nothing));
    assert_eq!(app.mode(), Mode::Review);
    assert_eq!(app.status(), "Codex revision must be one Markdown line");
    Ok(())
}

#[test]
fn spinner_advances_only_while_codex_runs() -> Result<(), Box<dyn std::error::Error>> {
    let mut app = app_for("RDMA는 빠르다.\n")?;
    app.tick();
    assert_eq!(app.codex_spinner(), '⠋');
    press(&mut app, KeyCode::Char('w'));
    press(&mut app, KeyCode::Char('c'));
    press(&mut app, KeyCode::Char('e'));
    app.codex_started();
    assert_eq!(app.codex_spinner(), '⠋');
    app.tick();
    assert_eq!(app.codex_spinner(), '⠙');
    for _ in 0..7 {
        app.tick();
    }
    assert_eq!(app.codex_spinner(), '⠋');
    Ok(())
}

#[test]
fn mouse_wheel_scrolls_viewport_without_moving_cursor() -> Result<(), Box<dyn std::error::Error>> {
    let mut app = app_for("첫 문단\n\n둘째 문단\n")?;
    let cursor = app.editor().cursor();

    app.handle_mouse(MouseAction::ScrollDown, None, 0, 10);
    assert_eq!(app.viewport_scroll(), Some(3));
    assert_eq!(app.editor().cursor(), cursor);

    app.handle_mouse(MouseAction::ScrollDown, None, 9, 10);
    assert_eq!(app.viewport_scroll(), Some(10));

    app.handle_mouse(MouseAction::ScrollUp, None, 2, 10);
    assert_eq!(app.viewport_scroll(), Some(0));
    assert_eq!(app.editor().cursor(), cursor);

    press(&mut app, KeyCode::Right);
    assert_eq!(app.viewport_scroll(), None);
    Ok(())
}

#[test]
fn mouse_drag_selects_rendered_graphemes() -> Result<(), Box<dyn std::error::Error>> {
    let mut app = app_for("한글 문장과 RDMA는 빠르다.\n")?;

    app.handle_mouse(MouseAction::LeftDown, Some(0), 4, 9);
    assert_eq!(app.mode(), Mode::Visual);
    assert_eq!(app.viewport_scroll(), Some(4));
    app.handle_mouse(MouseAction::LeftDrag, Some(3), 4, 9);
    app.handle_mouse(MouseAction::LeftUp, Some(4), 4, 9);

    assert_eq!(app.editor().selected_text(), Some("한글 문장"));
    assert_eq!(app.status(), "마우스 선택됨 · a 수동 메모 · c Codex");

    press(&mut app, KeyCode::Char('a'));
    type_text(&mut app, "마우스로 선택");
    let saved = commit_text(press(&mut app, KeyCode::Enter))?;
    assert!(saved.contains("<mark>[한글 문장][rp-"));
    assert!(saved.contains("마우스로 선택"));
    Ok(())
}

#[test]
fn paragraph_navigation_keeps_the_cursor_in_view() -> Result<(), Box<dyn std::error::Error>> {
    let source = (1..=20).map(|number| format!("문단 {number}\n\n")).collect::<String>();
    let mut app = app_for(&source)?;

    for _ in 0..15 {
        press(&mut app, KeyCode::Down);
    }

    let cursor = app.editor().cursor();
    let start = app.editor().projection().graphemes()[cursor].source_range().start;
    let line_end = source[start..].find('\n').map_or(source.len(), |offset| start + offset);
    assert!(source[start..line_end].contains("16"));
    assert_eq!(app.viewport_scroll(), None);
    Ok(())
}

#[test]
fn mouse_drag_keeps_scrolled_document_under_pointer() -> Result<(), Box<dyn std::error::Error>> {
    let source = "단락 01 첫 문장입니다.\n\n단락 02 둘째 문장입니다.\n\n단락 03 셋째 문장입니다.\n\n단락 04 넷째 문장입니다.\n\n단락 05 다섯째 문장입니다.\n\n단락 06 여섯째 문장입니다.\n\n단락 07 일곱째 문장입니다.\n\n단락 08 여덟째 문장입니다.\n\n단락 09 아홉째 문장입니다.\n\n단락 10 열째 문장입니다.\n\n단락 11 열한째 문장입니다.\n\n단락 12 열두째 문장입니다.\n\n단락 13 열셋째 문장입니다.\n\n단락 14 열넷째 문장입니다.\n\n단락 15 열다섯째 문장입니다.\n\n단락 16 열여섯째 문장입니다.\n\n단락 17 열일곱째 문장입니다.\n\n단락 18 열여덟째 문장입니다.\n";
    let mut app = app_for(source)?;
    for _ in 1..18 {
        press(&mut app, KeyCode::Down);
    }
    let graphemes = app.editor().projection().graphemes();
    let start_offset = source.find("단락 06").ok_or("fixture must contain paragraph 06")?;
    let start = graphemes
        .iter()
        .position(|item| item.is_selectable() && item.source_range().start == start_offset)
        .ok_or("paragraph 06 must be rendered")?;
    let end = start + 4;

    app.handle_mouse(MouseAction::LeftDown, Some(start), 7, 30);
    assert_eq!(app.viewport_scroll(), Some(7), "mouse down must not move the document under the pointer");
    app.handle_mouse(MouseAction::LeftDrag, Some(end), 7, 30);
    app.handle_mouse(MouseAction::LeftUp, Some(end), 7, 30);
    assert_eq!(app.viewport_scroll(), Some(7));
    assert_eq!(app.editor().selected_text(), Some("단락 06"));
    Ok(())
}

#[test]
fn arrow_moves_skip_unselectable_graphemes() -> Result<(), Box<dyn std::error::Error>> {
    let mut app = app_for("가 `code` 나\n\n- 항목\n")?;
    for _ in 0..20 {
        let before = app.editor().cursor();
        press(&mut app, KeyCode::Right);
        let after = app.editor().cursor();
        if after != before {
            assert!(app.editor().projection().graphemes()[after].is_selectable());
        }
    }
    for _ in 0..20 {
        press(&mut app, KeyCode::Left);
        let cursor = app.editor().cursor();
        assert!(app.editor().projection().graphemes()[cursor].is_selectable());
    }
    Ok(())
}
