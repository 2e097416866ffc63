use std::path::PathBuf;

use md_redpen::app::{App, KeyCode, KeyPress};
use md_redpen::app_state::{Mode, StatusTone};
use md_redpen::markdown::{project_text, SemanticKind};
use md_redpen::screen::{
    cell_offset, cell_style, compact_message, rgb, semantic_style, status_style, Token, document_rows, effective_scroll, help_text, hit_color, hit_index,
    is_compact, is_editing, is_too_small, mode_label, panel_title, resolve_hit, rows_past_viewport,
    status_message, LineRow,
};
use md_redpen::storage::DocumentSnapshot;

fn app_for(source: &str) -> Result<App, String> {
    let snapshot = DocumentSnapshot::from_parts(PathBuf::from("document.md"), source.to_owned());
    App::new(snapshot, false).map_err(|error| error.message())
}

fn key(code: KeyCode) -> KeyPress {
    KeyPress { code, control: false }
}

#[test]
fn errors_are_prefixed() -> Result<(), Box<dyn std::error::Error>> {
    let mut app = app_for("본문\n")?;
    app.handle_key(key(KeyCode::Char('v')));
    app.handle_key(key(KeyCode::Char('a')));
    app.handle_key(key(KeyCode::Enter));

    assert_eq!(status_message(&app, false), "Error: Note cannot be empty");
    assert_eq!(status_message(&app, true), "Error: Note cannot be empty");
    let style = status_style(app.status_tone(), app.no_color());
    assert!(style.bold);
    assert_eq!(style.fg, Some(rgb(Token::ErrorRed)));
    assert!(status_style(StatusTone::Error, true).bold);
    Ok(())
}

#[test]
fn compact_input_help_fits_one_line() {
    let help = help_text(Mode::ManualInput, true);
    assert!(!help.contains("type note"));
    assert!(help.contains("Enter save"));
    assert!(help.contains("Esc cancel"));
    assert!(help_text(Mode::ManualInput, false).contains("type note"));
}

#[test]
fn wide_browse_help_keeps_mouse_and_quit_visible() {
    let help = help_text(Mode::Browse, false);
    assert!(help.contains("drag select"));
    assert!(help.contains("wheel"));
    assert!(help.contains("q quit"));
    assert!(help.chars().count() + 1 <= 80);
}

#[test]
fn mode_labels_follow_the_design() {
    assert_eq!(mode_label(Mode::Browse), "BROWSE");
    assert_eq!(mode_label(Mode::Visual), "VISUAL");
    assert_eq!(mode_label(Mode::ManualInput), "INPUT");
    assert_eq!(mode_label(Mode::RevisionInput), "PROMPT");
    assert_eq!(mode_label(Mode::CodexRunning), "CODEX");
    assert_eq!(mode_label(Mode::Review), "REVIEW");
}

#[test]
fn panel_titles_name_the_action() {
    assert!(panel_title(Mode::RevisionInput, false).contains("Revision instruction"));
    assert!(panel_title(Mode::RevisionInput, false).contains("Enter send"));
    assert!(panel_title(Mode::RevisionInput, false).contains("Esc cancel"));
    assert!(panel_title(Mode::CodexChoice, false).contains("Codex action"));
    assert!(panel_title(Mode::Review, true).contains("Codex revision"));
    assert!(panel_title(Mode::Review, false).contains("Codex endnote"));
    assert_eq!(panel_title(Mode::Browse, false), "");
}

#[test]
fn compact_messages_are_short() {
    assert_eq!(compact_message(Mode::Visual, StatusTone::Success, '⠋'), "저장됨");
    assert_eq!(compact_message(Mode::Browse, StatusTone::Neutral, '⠋'), "준비");
    assert_eq!(compact_message(Mode::CodexRunning, StatusTone::Neutral, '⠙'), "⠙ Codex 작성 중");
}

#[test]
fn running_status_shows_spinner() -> Result<(), Box<dyn std::error::Error>> {
    let mut app = app_for("RDMA는 빠르다.\n")?;
    app.handle_key(key(KeyCode::Char('w')));
    app.handle_key(key(KeyCode::Char('c')));
    app.handle_key(key(KeyCode::Char('e')));
    app.codex_started();
    assert_eq!(status_message(&app, false), "⠋ Codex가 미주 초안을 작성 중…");
    app.tick();
    assert_eq!(status_message(&app, false), "⠙ Codex가 미주 초안을 작성 중…");
    Ok(())
}

#[test]
fn layout_classes_follow_terminal_size() {
    assert!(is_too_small(49, 30));
    assert!(is_too_small(80, 11));
    assert!(!is_too_small(50, 12));
    assert!(is_compact(60, 16));
    assert!(is_compact(100, 19));
    assert!(!is_compact(80, 20));
    assert!(is_editing(Mode::CodexChoice));
    assert!(!is_editing(Mode::CodexRunning));
}

#[test]
fn hit_colors_round_trip() {
    assert_eq!(hit_color(0), Some((0, 0, 1)));
    assert_eq!(hit_color(255), Some((0, 1, 0)));
    assert_eq!(hit_color(0x01_0203 - 1), Some((1, 2, 3)));
    assert_eq!(hit_color(0xff_ffff), None);
    assert_eq!(hit_index(1, 2, 3), Some(0x01_0202));
    assert_eq!(hit_index(0, 0, 0), None);
    for index in [0usize, 7, 300, 70_000, 0xff_fffe] {
        let (red, green, blue) = hit_color(index).unwrap_or((0, 0, 0));
        assert_eq!(hit_index(red, green, blue), Some(index));
    }
}

#[test]
fn document_rows_split_at_line_breaks() -> Result<(), Box<dyn std::error::Error>> {
    let projection = project_text("첫 줄\n\n둘째\n").map_err(|error| error.message())?;
    let rows = document_rows(&projection, None);
    assert!(rows.len() >= 2);
    assert_eq!(rows[0].start, 0);
    assert!(!rows[0].managed_note);
    for row in &rows {
        for index in row.start..row.end {
            assert_ne!(projection.graphemes()[index].text(), "\n");
        }
    }
    let empty = project_text("").map_err(|error| error.message())?;
    assert_eq!(document_rows(&empty, None), vec![LineRow { start: 0, end: 0, managed_note: false }]);
    let first = document_rows(&projection, Some(2));
    assert_eq!(first, vec![LineRow { start: 0, end: 2, managed_note: false }]);
    Ok(())
}

#[test]
fn scroll_arithmetic() {
    assert_eq!(rows_past_viewport(10, 16), 0);
    assert_eq!(rows_past_viewport(30, 14), 16);
    assert_eq!(rows_past_viewport(200_000, 10), u16::MAX);
    assert_eq!(effective_scroll(Some(9), 2, 5), 5);
    assert_eq!(effective_scroll(Some(3), 2, 5), 3);
    assert_eq!(effective_scroll(None, 2, 5), 2);
}

#[test]
fn cells_inside_the_viewport_have_offsets() {
    assert_eq!(cell_offset(1, 1, 58, 14, 1, 1), Some(0));
    assert_eq!(cell_offset(1, 1, 58, 14, 3, 2), Some(60));
    assert_eq!(cell_offset(1, 1, 58, 14, 0, 1), None);
    assert_eq!(cell_offset(1, 1, 58, 14, 59, 1), None);
    assert_eq!(cell_offset(1, 1, 58, 14, 5, 15), None);
}

#[test]
fn second_cell_of_a_wide_grapheme_hits_it() -> Result<(), Box<dyn std::error::Error>> {
    let projection = project_text("가a\n").map_err(|error| error.message())?;
    assert_eq!(resolve_hit(&projection, Some(1), false, Some(0)), Some(1));
    assert_eq!(resolve_hit(&projection, None, false, Some(0)), Some(0));
    assert_eq!(resolve_hit(&projection, None, true, Some(0)), None);
    assert_eq!(resolve_hit(&projection, None, false, Some(1)), None);
    Ok(())
}

#[test]
fn styles_follow_the_palette_and_no_color_fallbacks() {
    let marked = semantic_style(SemanticKind::Annotation, false);
    assert_eq!(marked.bg, Some((246, 211, 101)));
    assert_eq!(marked.fg, Some((34, 30, 20)));
    let label = semantic_style(SemanticKind::EndnoteLabel, false);
    assert!(label.bold);
    assert_eq!(label.fg, Some(rgb(Token::MarkerYellow)));
    assert_eq!(label.bg, Some(rgb(Token::NoteSurface)));

    let plain_mark = semantic_style(SemanticKind::Annotation, true);
    assert!(plain_mark.reversed);
    assert_eq!(plain_mark.fg, None);
    assert_eq!(plain_mark.bg, None);
    assert!(semantic_style(SemanticKind::Code, true).dim);

    let selected = cell_style(SemanticKind::Body, true, true, false, false);
    assert!(selected.reversed && selected.bold);
    let selected_color = cell_style(SemanticKind::Annotation, false, true, false, false);
    assert_eq!(selected_color.bg, Some(rgb(Token::SelectionBlue)));
    assert_eq!(selected_color.fg, Some(rgb(Token::SelectionText)));

    let focused = cell_style(SemanticKind::EndnoteLabel, false, false, true, true);
    assert_eq!(focused.fg, Some(rgb(Token::FocusBlue)));
    assert!(focused.underlined && focused.bold);
    let cursor = cell_style(SemanticKind::Body, true, false, true, true);
    assert!(cursor.underlined);
    assert_eq!(cursor.fg, None);
    assert_eq!(status_style(StatusTone::Success, false).fg, Some(rgb(Token::SuccessGreen)));
    assert_eq!(status_style(StatusTone::Neutral, true).fg, None);
}
