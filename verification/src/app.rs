//! Application state and its reaction to keys, mouse actions and the outcome
//! of outside work.
//!
//! The state machine decides; the terminal front end performs what it asks
//! for (a Codex process, an atomic write, a cancellation) and reports back.

use std::path::PathBuf;

use vstd::prelude::*;
use vstd::utf8::*;

use crate::annotation::{
    annotate, annotate_spec, uuid_text, AnnotationError, AnnotationId, AnnotationRequest, NoteKind,
};
use crate::app_error::{AppError, MISSING_SELECTION};
use crate::app_state::{CodexAction, Mode, StatusTone};
use crate::codex::{CodexError, CodexRequest, CodexRequestModel};
use crate::editor::{
    extend_left, extend_right, first_at_offset, first_later_paragraph, first_of_paragraph,
    first_selectable_from, first_selectable_or_zero, last_earlier_paragraph, last_selectable_upto,
    none_selectable_from, none_selectable_upto, no_selectable_at_offset, opt_index,
    selectable_at, selection_range_spec, source_slice, str_get, with_cursor, word_class_spec,
    Editor, EditorError, EditorModel,
};
use crate::markdown::projection_spec;
use crate::messages::{annotation_message, codex_text, projection_message, storage_text};
use crate::storage::{unchanged_verdict, DocumentSnapshot, StorageError};
use crate::text::{
    chars_of, first_occurrence, first_occurs_at, line_context, line_end, line_start, occurs_at,
    push_char, remove_last_grapheme, string_from_chars, trim, trim_string, without_last_grapheme,
};

verus! {

/// A key, as the application distinguishes keys.
#[derive(Debug, Clone, Copy, PartialEq, Eq, Structural)]
pub enum KeyCode {
    /// A printable character.
    Char(char),
    /// Enter.
    Enter,
    /// Escape.
    Esc,
    /// Backspace.
    Backspace,
    /// Left arrow.
    Left,
    /// Right arrow.
    Right,
    /// Up arrow.
    Up,
    /// Down arrow.
    Down,
    /// Any key the application ignores.
    Other,
}

/// One key press.
#[derive(Debug, Clone, Copy, PartialEq, Eq, Structural)]
pub struct KeyPress {
    /// The key.
    pub code: KeyCode,
    /// Whether Control was held.
    pub control: bool,
}

/// One mouse action over the document.
#[derive(Debug, Clone, Copy, PartialEq, Eq, Structural)]
pub enum MouseAction {
    /// Left button pressed.
    LeftDown,
    /// Moved with the left button held.
    LeftDrag,
    /// Left button released.
    LeftUp,
    /// Wheel turned towards the end of the document.
    ScrollDown,
    /// Wheel turned towards its start.
    ScrollUp,
    /// Any other mouse action.
    Other,
}

/// The write that the application is waiting to see confirmed.
#[derive(Debug, Clone, Copy, PartialEq, Eq, Structural)]
pub enum PendingCommit {
    /// A highlighted endnote is being added.
    Note,
    /// The selection starting at this source byte is being replaced.
    Revision {
        /// Source byte where the replaced selection started.
        start: usize,
    },
}

/// Outside work that a key asks the front end to perform.
#[derive(Debug)]
pub enum Effect {
    /// Nothing to do.
    Nothing,
    /// Check the Codex login and start a Codex process with this request;
    /// then report [`App::codex_started`] or [`App::report_error`].
    StartCodex(CodexRequest),
    /// Terminate the running Codex process; then report
    /// [`App::codex_cancelled`] or [`App::report_error`].
    CancelCodex,
    /// Atomically replace the document with this text if it is still the
    /// snapshot's; then report [`App::commit_succeeded`] with the reloaded
    /// snapshot, or [`App::report_error`].
    Commit(String),
}

/// Mathematical view of an [`Effect`].
pub enum EffectModel {
    /// Nothing to do.
    Nothing,
    /// Start Codex with this request.
    StartCodex(CodexRequestModel),
    /// Cancel Codex.
    CancelCodex,
    /// Write this text.
    Commit(Seq<char>),
}

impl View for Effect {
    type V = EffectModel;

    open spec fn view(&self) -> EffectModel {
        match self {
            Effect::Nothing => EffectModel::Nothing,
            Effect::StartCodex(r) => EffectModel::StartCodex(r@),
            Effect::CancelCodex => EffectModel::CancelCodex,
            Effect::Commit(t) => EffectModel::Commit(t@),
        }
    }
}

/// Mutable state for one open document.
pub struct App {
    snapshot: DocumentSnapshot,
    editor: Editor,
    mode: Mode,
    input: String,
    status: String,
    status_tone: StatusTone,
    return_cursor: Option<usize>,
    should_quit: bool,
    no_color: bool,
    codex_action: Option<CodexAction>,
    spinner_frame: usize,
    review: String,
    mouse_selecting: bool,
    viewport_scroll: Option<u16>,
    pending: Option<PendingCommit>,
}

/// Mathematical view of an [`App`].
pub struct AppModel {
    /// The document text captured in the snapshot.
    pub source: Seq<char>,
    /// The document path.
    pub path: PathBuf,
    /// Cursor and selection over the rendered document.
    pub editor: EditorModel,
    /// Current mode.
    pub mode: Mode,
    /// Note or instruction being typed.
    pub input: Seq<char>,
    /// Status line text.
    pub status: Seq<char>,
    /// Status line semantics.
    pub tone: StatusTone,
    /// Where `b` returns to after following an endnote link.
    pub return_cursor: Option<int>,
    /// Whether the event loop should end.
    pub should_quit: bool,
    /// Whether semantic colors are off.
    pub no_color: bool,
    /// What the last Codex request was for.
    pub codex_action: Option<CodexAction>,
    /// Progress spinner frame.
    pub spinner_frame: int,
    /// Codex draft under review.
    pub review: Seq<char>,
    /// Whether a mouse drag is selecting.
    pub mouse_selecting: bool,
    /// Viewport scroll pinned by the mouse, if any.
    pub viewport_scroll: Option<int>,
    /// The write awaiting confirmation.
    pub pending: Option<PendingCommit>,
}

impl View for App {
    type V = AppModel;

    closed spec fn view(&self) -> AppModel {
        AppModel {
            source: self.snapshot.source_spec(),
            path: self.snapshot.path_spec(),
            editor: self.editor@,
            mode: self.mode,
            input: self.input@,
            status: self.status@,
            tone: self.status_tone,
            return_cursor: opt_index(self.return_cursor),
            should_quit: self.should_quit,
            no_color: self.no_color,
            codex_action: self.codex_action,
            spinner_frame: self.spinner_frame as int,
            review: self.review@,
            mouse_selecting: self.mouse_selecting,
            viewport_scroll: match self.viewport_scroll {
                Some(v) => Some(v as int),
                None => None,
            },
            pending: self.pending,
        }
    }
}

/// Status shown when a document opens.
pub const STATUS_READY: &'static str = "v로 선택을 시작하세요";
/// Status while extending a keyboard selection.
pub const STATUS_SELECTING: &'static str = "선택 중 · ←/→로 범위를 조절하세요";
/// Status after selecting the current word.
pub const STATUS_WORD_SELECTED: &'static str = "단어 선택됨 · a 수동 메모 · c Codex";
/// Status after moving to the previous paragraph.
pub const STATUS_PREVIOUS_PARAGRAPH: &'static str = "이전 문단으로 이동";
/// Status after moving to the next paragraph.
pub const STATUS_NEXT_PARAGRAPH: &'static str = "다음 문단으로 이동";
/// Status when opening the manual note editor.
pub const STATUS_NOTE_PROMPT: &'static str = "미주 내용을 입력하고 Enter로 저장하세요";
/// Status after dropping the selection.
pub const STATUS_SELECTION_CANCELLED: &'static str = "선택 취소됨";
/// Status when the cursor carries no link.
pub const STATUS_NO_LINK: &'static str = "현재 위치에는 연결된 미주가 없습니다";
/// Status when the link leaves the document.
pub const STATUS_EXTERNAL_LINK: &'static str = "외부 링크는 v1에서 열지 않습니다";
/// Status after following a link to its endnote.
pub const STATUS_AT_ENDNOTE: &'static str = "미주로 이동 · b로 본문 복귀";
/// Error when the linked endnote anchor is missing.
pub const STATUS_ANCHOR_MISSING: &'static str = "연결된 미주 앵커를 찾을 수 없습니다";
/// Status after returning from an endnote.
pub const STATUS_BACK_TO_BODY: &'static str = "본문으로 복귀";
/// Status when the Codex action chooser opens.
pub const STATUS_CODEX_CHOICE: &'static str = "Codex 작업 선택 · r 문장 수정 · e 자동 미주";
/// Status when the revision instruction editor opens.
pub const STATUS_REVISION_PROMPT: &'static str = "문장 수정 지시를 입력하고 Enter로 Codex에 전송하세요";
/// Status after closing the Codex action chooser.
pub const STATUS_CHOICE_CANCELLED: &'static str = "Codex 작업 선택 취소됨 · 선택은 유지됩니다";
/// Error for an empty revision instruction.
pub const STATUS_REVISION_EMPTY: &'static str = "Revision instruction cannot be empty";
/// Status after abandoning a revision instruction.
pub const STATUS_REVISION_CANCELLED: &'static str = "문장 수정 취소됨 · 선택은 유지됩니다";
/// Status after abandoning a manual note.
pub const STATUS_INPUT_CANCELLED: &'static str = "입력 취소됨 · 선택은 유지됩니다";
/// Error for an empty manual note.
pub const STATUS_NOTE_EMPTY: &'static str = "Note cannot be empty";
/// Status while Codex drafts an endnote.
pub const STATUS_CODEX_DRAFTING: &'static str = "Codex가 미주 초안을 작성 중…";
/// Status while Codex drafts a revision.
pub const STATUS_CODEX_REVISING: &'static str = "Codex가 문장 수정안을 작성 중…";
/// Status after cancelling Codex.
pub const STATUS_CODEX_CANCELLED: &'static str = "Codex 요청 취소됨 · 선택은 유지됩니다";
/// Error for an empty reviewed draft.
pub const STATUS_REVIEW_EMPTY: &'static str = "Codex review cannot be empty";
/// Status after discarding a draft.
pub const STATUS_DRAFT_DISCARDED: &'static str = "Codex 초안 폐기됨 · 선택은 유지됩니다";
/// Status when a draft arrives for review.
pub const STATUS_REVIEW: &'static str = "Codex 초안 검토 · Enter 저장 · Esc 폐기";
/// Status after saving an endnote.
pub const STATUS_SAVED_NOTE: &'static str = "저장됨 · 형광펜 미주 추가";
/// Status after applying a revision.
pub const STATUS_SAVED_REVISION: &'static str = "저장됨 · Codex 문장 수정 적용";
/// Error for a revision that spans lines.
pub const STATUS_REVISION_MULTILINE: &'static str = "Codex revision must be one Markdown line";
/// Status while the mouse drags a selection.
pub const STATUS_MOUSE_SELECTING: &'static str = "마우스 선택 중 · 드래그로 범위를 조절하세요";
/// Status after the mouse releases a selection.
pub const STATUS_MOUSE_SELECTED: &'static str = "마우스 선택됨 · a 수동 메모 · c Codex";

/// Rows that one wheel step scrolls.
pub const WHEEL_ROWS: u16 = 3;

/// The state with a neutral status message.
pub open spec fn neutral(m: AppModel, message: Seq<char>) -> AppModel {
    AppModel { status: message, tone: StatusTone::Neutral, ..m }
}

/// The state with an error status message.
pub open spec fn failed(m: AppModel, message: Seq<char>) -> AppModel {
    AppModel { status: message, tone: StatusTone::Error, ..m }
}

/// The state with another editor.
pub open spec fn with_editor(m: AppModel, e: EditorModel) -> AppModel {
    AppModel { editor: e, ..m }
}

/// What `Editor::move_right` does.
pub open spec fn moved_right(b: EditorModel, a: EditorModel) -> bool {
    a == b && none_selectable_from(b.graphemes, b.cursor + 1)
        || (exists|k: int| first_selectable_from(b.graphemes, b.cursor + 1, k) && a == with_cursor(b, k))
}

/// What `Editor::move_left` does.
pub open spec fn moved_left(b: EditorModel, a: EditorModel) -> bool {
    &&& b.cursor == 0 ==> a == b
    &&& b.cursor > 0 ==> (a == b && none_selectable_upto(b.graphemes, b.cursor - 1)
        || (exists|k: int| last_selectable_upto(b.graphemes, b.cursor - 1, k) && a == with_cursor(b, k)))
}

/// Whether `Editor::move_paragraph_down` moves.
pub open spec fn can_move_down(b: EditorModel) -> bool {
    b.cursor < b.graphemes.len() && exists|k: int|
        first_later_paragraph(b.graphemes, b.graphemes[b.cursor].paragraph, k)
}

/// What `Editor::move_paragraph_down` does.
pub open spec fn moved_down(b: EditorModel, a: EditorModel) -> bool {
    &&& can_move_down(b) ==> exists|k: int|
        first_later_paragraph(b.graphemes, b.graphemes[b.cursor].paragraph, k) && a == with_cursor(b, k)
    &&& !can_move_down(b) ==> a == b
}

/// Whether `Editor::move_paragraph_up` moves.
pub open spec fn can_move_up(b: EditorModel) -> bool {
    b.cursor < b.graphemes.len() && exists|j: int|
        last_earlier_paragraph(b.graphemes, b.graphemes[b.cursor].paragraph, j)
}

/// What `Editor::move_paragraph_up` does.
pub open spec fn moved_up(b: EditorModel, a: EditorModel) -> bool {
    &&& can_move_up(b) ==> exists|j: int, k: int|
        last_earlier_paragraph(b.graphemes, b.graphemes[b.cursor].paragraph, j)
        && first_of_paragraph(b.graphemes, b.graphemes[j].paragraph, k) && a == with_cursor(b, k)
    &&& !can_move_up(b) ==> a == b
}

/// What `Editor::select_current_word` makes of an editor.
pub open spec fn word_selection(b: EditorModel) -> EditorModel {
    match (if b.cursor < b.graphemes.len() { word_class_spec(b.graphemes[b.cursor].text) } else { None }) {
        Some(cls) => EditorModel {
            anchor: Some(extend_left(b.graphemes, b.cursor, cls)),
            cursor: extend_right(b.graphemes, b.cursor, cls),
            ..b
        },
        None => b,
    }
}

/// What `Editor::jump_to_source` does.
pub open spec fn jumped(b: EditorModel, a: EditorModel, offset: int) -> bool {
    (exists|k: int| first_at_offset(b.graphemes, offset, k) && a == with_cursor(b, k))
        || (no_selectable_at_offset(b.graphemes, offset) && a == b)
}

/// What `Editor::restore_cursor` does.
pub open spec fn restored(b: EditorModel, a: EditorModel, cursor: int) -> bool {
    &&& selectable_at(b.graphemes, cursor) ==> a == with_cursor(b, cursor)
    &&& !selectable_at(b.graphemes, cursor) ==> a == b
}

/// What `Editor::extend_visual_to` does.
pub open spec fn extended(b: EditorModel, a: EditorModel, index: int) -> bool {
    &&& (b.anchor is Some && selectable_at(b.graphemes, index)) ==> a == with_cursor(b, index)
    &&& !(b.anchor is Some && selectable_at(b.graphemes, index)) ==> a == b
}

/// The editor that `Editor::new` makes for a source that projects.
pub open spec fn fresh_editor(source: Seq<char>, e: EditorModel) -> bool {
    &&& projection_spec(source) matches Ok(gs)
    &&& e.source == source
    &&& e.graphemes == gs
    &&& e.anchor is None
    &&& first_selectable_or_zero(gs, e.cursor)
}

/// The HTML anchor that a managed endnote starts with.
pub open spec fn anchor_markup(anchor: Seq<char>) -> Seq<char> {
    "<a id=\""@ + anchor + "\"></a>"@
}

/// Jumping to the endnote whose anchor is named: past the first occurrence of
/// its anchor markup in the source.
pub open spec fn follow_anchor(m: AppModel, anchor: Seq<char>, m2: AppModel) -> bool {
    let hay = encode_utf8(m.source);
    let needle = encode_utf8(anchor_markup(anchor));
    if exists|o: int| first_occurs_at(hay, needle, o) {
        exists|o: int| #![trigger first_occurs_at(hay, needle, o)]
            first_occurs_at(hay, needle, o) && jumped(m.editor, m2.editor, o + needle.len())
            && m2 == neutral(
            AppModel { editor: m2.editor, return_cursor: Some(m.editor.cursor), ..m },
            STATUS_AT_ENDNOTE@,
        )
    } else {
        m2 == failed(m, STATUS_ANCHOR_MISSING@)
    }
}

/// Enter in browse mode: follow the link under the cursor to its endnote.
pub open spec fn follow_link_step(m: AppModel, m2: AppModel) -> bool {
    let e = m.editor;
    let target = if e.cursor < e.graphemes.len() { e.graphemes[e.cursor].link_target } else { None };
    match target {
        None => m2 == neutral(m, STATUS_NO_LINK@),
        Some(t) => if t.len() == 0 || t[0] != '#' {
            m2 == neutral(m, STATUS_EXTERNAL_LINK@)
        } else {
            follow_anchor(m, t.drop_first(), m2)
        },
    }
}

/// A key in browse mode.
pub open spec fn browse_step(m: AppModel, code: KeyCode, m2: AppModel) -> bool {
    match code {
        KeyCode::Char('q') => m2 == AppModel { should_quit: true, ..m },
        KeyCode::Char('v') => m2 == neutral(
            AppModel { editor: EditorModel { anchor: Some(m.editor.cursor), ..m.editor }, mode: Mode::Visual, ..m },
            STATUS_SELECTING@,
        ),
        KeyCode::Char('w') => m2 == neutral(
            AppModel { editor: word_selection(m.editor), mode: Mode::Visual, ..m },
            STATUS_WORD_SELECTED@,
        ),
        KeyCode::Left | KeyCode::Char('h') => moved_left(m.editor, m2.editor) && m2 == with_editor(m, m2.editor),
        KeyCode::Right | KeyCode::Char('l') => moved_right(m.editor, m2.editor) && m2 == with_editor(m, m2.editor),
        KeyCode::Up | KeyCode::Char('k') => moved_up(m.editor, m2.editor) && m2 == (if can_move_up(m.editor) {
            neutral(with_editor(m, m2.editor), STATUS_PREVIOUS_PARAGRAPH@)
        } else {
            m
        }),
        KeyCode::Down | KeyCode::Char('j') => moved_down(m.editor, m2.editor) && m2 == (if can_move_down(m.editor) {
            neutral(with_editor(m, m2.editor), STATUS_NEXT_PARAGRAPH@)
        } else {
            m
        }),
        KeyCode::Enter => follow_link_step(m, m2),
        KeyCode::Char('b') => match m.return_cursor {
            Some(c) => restored(m.editor, m2.editor, c) && m2 == neutral(
                AppModel { editor: m2.editor, return_cursor: None, ..m },
                STATUS_BACK_TO_BODY@,
            ),
            None => m2 == m,
        },
        _ => m2 == m,
    }
}

/// A key in visual mode.
pub open spec fn visual_step(m: AppModel, code: KeyCode, m2: AppModel) -> bool {
    match code {
        KeyCode::Left | KeyCode::Char('h') => moved_left(m.editor, m2.editor) && m2 == with_editor(m, m2.editor),
        KeyCode::Right | KeyCode::Char('l') => moved_right(m.editor, m2.editor) && m2 == with_editor(m, m2.editor),
        KeyCode::Char('a') => m2 == neutral(
            AppModel { mode: Mode::ManualInput, input: Seq::empty(), ..m },
            STATUS_NOTE_PROMPT@,
        ),
        KeyCode::Char('c') => m2 == neutral(AppModel { mode: Mode::CodexChoice, ..m }, STATUS_CODEX_CHOICE@),
        KeyCode::Esc => m2 == neutral(
            AppModel { editor: EditorModel { anchor: None, ..m.editor }, mode: Mode::Browse, ..m },
            STATUS_SELECTION_CANCELLED@,
        ),
        _ => m2 == m,
    }
}

/// The Codex request for the selection: the selected text and its source
/// line, with the revision instruction if there is one.
pub open spec fn codex_request_step(m: AppModel, instruction: Option<Seq<char>>, m2: AppModel, eff: EffectModel) -> bool {
    match selection_range_spec(m.editor) {
        None => m2 == failed(m, MISSING_SELECTION@) && eff == EffectModel::Nothing,
        Some((s, t)) => match source_slice(m.source, s, t) {
            None => m2 == failed(m, MISSING_SELECTION@) && eff == EffectModel::Nothing,
            Some(selected) => {
                let b = encode_utf8(m.source);
                &&& eff == EffectModel::StartCodex(CodexRequestModel {
                    selection: selected,
                    context: decode_utf8(b.subrange(line_start(b, s), line_end(b, t))),
                    instruction,
                })
                &&& m2 == AppModel {
                    codex_action: Some(if instruction is Some { CodexAction::Revision } else { CodexAction::Endnote }),
                    ..m
                }
            },
        },
    }
}

/// A key in the Codex action chooser.
pub open spec fn choice_step(m: AppModel, code: KeyCode, m2: AppModel, eff: EffectModel) -> bool {
    match code {
        KeyCode::Char('r') => eff == EffectModel::Nothing && m2 == neutral(
            AppModel { mode: Mode::RevisionInput, input: Seq::empty(), ..m },
            STATUS_REVISION_PROMPT@,
        ),
        KeyCode::Char('e') => codex_request_step(m, None, m2, eff),
        KeyCode::Esc => eff == EffectModel::Nothing && m2 == neutral(
            AppModel { mode: Mode::Visual, ..m },
            STATUS_CHOICE_CANCELLED@,
        ),
        _ => eff == EffectModel::Nothing && m2 == m,
    }
}

/// Typing into a text field: Backspace deletes the last grapheme, a
/// character without Control is appended, anything else is ignored.
pub open spec fn typed(text: Seq<char>, key: KeyPress) -> Seq<char> {
    match key.code {
        KeyCode::Backspace => without_last_grapheme(text),
        KeyCode::Char(c) => if key.control { text } else { text.push(c) },
        _ => text,
    }
}

/// Adding the reviewed note to the selection as a highlighted endnote under a
/// freshly generated identifier.
pub open spec fn note_commit_step(m: AppModel, kind: NoteKind, note: Seq<char>, m2: AppModel, eff: EffectModel) -> bool {
    match selection_range_spec(m.editor) {
        None => m2 == failed(m, MISSING_SELECTION@) && eff == EffectModel::Nothing,
        Some((s, t)) => exists|u: Seq<char>| uuid_text(u) && match annotate_spec(m.source, "rp-"@ + u, kind, note, s, t) {
            Ok(bytes) => eff matches EffectModel::Commit(text) && encode_utf8(text) == bytes
                && m2 == AppModel { pending: Some(PendingCommit::Note), ..m },
            Err(e) => eff == EffectModel::Nothing && m2 == failed(m, annotation_message(e)),
        },
    }
}

/// The source with a byte range replaced.
pub open spec fn replaced(source: Seq<char>, s: int, t: int, text: Seq<char>) -> Seq<char> {
    let b = encode_utf8(source);
    decode_utf8(b.subrange(0, s)) + text + decode_utf8(b.subrange(t, b.len() as int))
}

/// Replacing the selection with a reviewed one-line revision.
pub open spec fn revision_commit_step(m: AppModel, revision: Seq<char>, m2: AppModel, eff: EffectModel) -> bool {
    if revision.contains('\r') || revision.contains('\n') {
        m2 == failed(m, STATUS_REVISION_MULTILINE@) && eff == EffectModel::Nothing
    } else {
        match selection_range_spec(m.editor) {
            None => m2 == failed(m, MISSING_SELECTION@) && eff == EffectModel::Nothing,
            Some((s, t)) => match source_slice(m.source, s, t) {
                Some(_) => eff == EffectModel::Commit(replaced(m.source, s, t, revision))
                    && m2 == AppModel { pending: Some(PendingCommit::Revision { start: s as usize }), ..m },
                None => eff == EffectModel::Nothing
                    && m2 == failed(m, annotation_message(AnnotationError::InvalidSelection)),
            },
        }
    }
}

/// A key in the manual note editor.
pub open spec fn manual_step(m: AppModel, key: KeyPress, m2: AppModel, eff: EffectModel) -> bool {
    match key.code {
        KeyCode::Enter => if trim(m.input).len() == 0 {
            m2 == failed(m, STATUS_NOTE_EMPTY@) && eff == EffectModel::Nothing
        } else {
            note_commit_step(m, NoteKind::Manual, trim(m.input), m2, eff)
        },
        KeyCode::Esc => eff == EffectModel::Nothing && m2 == neutral(
            AppModel { input: Seq::empty(), mode: Mode::Visual, ..m },
            STATUS_INPUT_CANCELLED@,
        ),
        _ => eff == EffectModel::Nothing && m2 == AppModel { input: typed(m.input, key), ..m },
    }
}

/// A key in the revision instruction editor.
pub open spec fn revision_input_step(m: AppModel, key: KeyPress, m2: AppModel, eff: EffectModel) -> bool {
    match key.code {
        KeyCode::Enter => if trim(m.input).len() == 0 {
            m2 == failed(m, STATUS_REVISION_EMPTY@) && eff == EffectModel::Nothing
        } else {
            codex_request_step(m, Some(trim(m.input)), m2, eff)
        },
        KeyCode::Esc => eff == EffectModel::Nothing && m2 == neutral(
            AppModel { input: Seq::empty(), mode: Mode::Visual, ..m },
            STATUS_REVISION_CANCELLED@,
        ),
        _ => eff == EffectModel::Nothing && m2 == AppModel { input: typed(m.input, key), ..m },
    }
}

/// A key while Codex runs: Escape asks for cancellation.
pub open spec fn running_step(m: AppModel, code: KeyCode, m2: AppModel, eff: EffectModel) -> bool {
    m2 == m && eff == (if code == KeyCode::Esc { EffectModel::CancelCodex } else { EffectModel::Nothing })
}

/// A key while reviewing a Codex draft.
pub open spec fn review_step(m: AppModel, key: KeyPress, m2: AppModel, eff: EffectModel) -> bool {
    match key.code {
        KeyCode::Enter => if trim(m.review).len() == 0 {
            m2 == failed(m, STATUS_REVIEW_EMPTY@) && eff == EffectModel::Nothing
        } else if m.codex_action == Some(CodexAction::Revision) {
            revision_commit_step(m, trim(m.review), m2, eff)
        } else {
            note_commit_step(m, NoteKind::Explanation, trim(m.review), m2, eff)
        },
        KeyCode::Esc => eff == EffectModel::Nothing && m2 == neutral(
            AppModel { review: Seq::empty(), mode: Mode::Visual, ..m },
            STATUS_DRAFT_DISCARDED@,
        ),
        _ => eff == EffectModel::Nothing && m2 == AppModel { review: typed(m.review, key), ..m },
    }
}

/// Whether a key is Control-C.
pub open spec fn is_interrupt(key: KeyPress) -> bool {
    key.control && key.code == KeyCode::Char('c')
}

/// One key press: what it does to the state and what it asks of the front end.
pub open spec fn key_step(m: AppModel, key: KeyPress, m2: AppModel, eff: EffectModel) -> bool {
    let m1 = AppModel { mouse_selecting: false, viewport_scroll: None, ..m };
    if is_interrupt(key) {
        m2 == AppModel { should_quit: true, ..m1 } && eff == EffectModel::Nothing
    } else {
        match m.mode {
            Mode::Browse => browse_step(m1, key.code, m2) && eff == EffectModel::Nothing,
            Mode::Visual => visual_step(m1, key.code, m2) && eff == EffectModel::Nothing,
            Mode::ManualInput => manual_step(m1, key, m2, eff),
            Mode::CodexChoice => choice_step(m1, key.code, m2, eff),
            Mode::RevisionInput => revision_input_step(m1, key, m2, eff),
            Mode::CodexRunning => running_step(m1, key.code, m2, eff),
            Mode::Review => review_step(m1, key, m2, eff),
        }
    }
}

/// One mouse action over the rendered document, given the viewport's current
/// and largest scroll offsets.
pub open spec fn mouse_step(
    m: AppModel,
    action: MouseAction,
    index: Option<usize>,
    scroll: int,
    max_scroll: int,
    m2: AppModel,
) -> bool {
    if !(m.mode == Mode::Browse || m.mode == Mode::Visual) {
        m2 == m
    } else {
        match action {
            MouseAction::LeftDown => {
                let m1 = AppModel { mouse_selecting: false, viewport_scroll: Some(scroll), ..m };
                match index {
                    Some(i) => if selectable_at(m.editor.graphemes, i as int) {
                        m2 == neutral(
                            AppModel {
                                editor: EditorModel { cursor: i as int, anchor: Some(i as int), ..m.editor },
                                mouse_selecting: true,
                                mode: Mode::Visual,
                                ..m1
                            },
                            STATUS_MOUSE_SELECTING@,
                        )
                    } else {
                        m2 == m1
                    },
                    None => m2 == m1,
                }
            },
            MouseAction::LeftDrag => match index {
                Some(i) => if m.mouse_selecting {
                    extended(m.editor, m2.editor, i as int) && m2 == with_editor(m, m2.editor)
                } else {
                    m2 == m
                },
                None => m2 == m,
            },
            MouseAction::LeftUp => if m.mouse_selecting {
                &&& match index {
                    Some(i) => extended(m.editor, m2.editor, i as int),
                    None => m2.editor == m.editor,
                }
                &&& m2 == neutral(
                    AppModel { editor: m2.editor, mouse_selecting: false, ..m },
                    STATUS_MOUSE_SELECTED@,
                )
            } else {
                m2 == m
            },
            MouseAction::ScrollDown => m2 == AppModel {
                viewport_scroll: Some(if scroll + 3 <= max_scroll { scroll + 3 } else { max_scroll }),
                ..m
            },
            MouseAction::ScrollUp => m2 == AppModel {
                viewport_scroll: Some(if scroll >= 3 { scroll - 3 } else { 0 }),
                ..m
            },
            MouseAction::Other => m2 == m,
        }
    }
}

/// What confirming the awaited write does: the state takes the reloaded
/// document, with a fresh editor (moved to the replaced text after a
/// revision), and leaves the editors empty in browse mode.
pub open spec fn commit_applied(m: AppModel, source: Seq<char>, path: PathBuf, m2: AppModel) -> bool {
    match projection_spec(source) {
        Err(e) => m2 == failed(AppModel { pending: None, ..m }, projection_message(e)),
        Ok(_) => exists|e0: EditorModel| {
            &&& fresh_editor(source, e0)
            &&& match m.pending {
                Some(PendingCommit::Revision { start }) => jumped(e0, m2.editor, start as int)
                    && m2 == (AppModel {
                        source: source,
                        path: path,
                        editor: m2.editor,
                        input: Seq::empty(),
                        review: Seq::empty(),
                        codex_action: None,
                        mode: Mode::Browse,
                        status: STATUS_SAVED_REVISION@,
                        tone: StatusTone::Success,
                        pending: None,
                        ..m
                    }),
                _ => m2 == (AppModel {
                    source: source,
                    path: path,
                    editor: e0,
                    input: Seq::empty(),
                    review: Seq::empty(),
                    mode: Mode::Browse,
                    status: STATUS_SAVED_NOTE@,
                    tone: StatusTone::Success,
                    pending: None,
                    ..m
                }),
            }
        },
    }
}

/// Showing a failure of outside work: only the status changes, and no write
/// is awaited any more.
pub open spec fn error_reported(m: AppModel, message: Seq<char>, m2: AppModel) -> bool {
    m2 == failed(AppModel { pending: None, ..m }, message)
}

/// The spinner glyph of a frame.
pub open spec fn spinner_glyph(frame: int) -> char {
    if frame == 0 {
        '⠋'
    } else if frame == 1 {
        '⠙'
    } else if frame == 2 {
        '⠹'
    } else if frame == 3 {
        '⠸'
    } else if frame == 4 {
        '⠼'
    } else if frame == 5 {
        '⠴'
    } else if frame == 6 {
        '⠦'
    } else {
        '⠧'
    }
}

impl App {
    /// Opens application state for a captured document snapshot.
    pub fn new(snapshot: DocumentSnapshot, no_color: bool) -> (r: Result<Self, AppError>)
        ensures
            match projection_spec(snapshot.source_spec()) {
                Ok(_) => r matches Ok(app) && fresh_editor(snapshot.source_spec(), app@.editor) && app@ == (AppModel {
                    source: snapshot.source_spec(),
                    path: snapshot.path_spec(),
                    editor: app@.editor,
                    mode: Mode::Browse,
                    input: Seq::empty(),
                    status: STATUS_READY@,
                    tone: StatusTone::Neutral,
                    return_cursor: None,
                    should_quit: false,
                    no_color,
                    codex_action: None,
                    spinner_frame: 0,
                    review: Seq::empty(),
                    mouse_selecting: false,
                    viewport_scroll: None,
                    pending: None,
                }),
                Err(e) => r matches Err(AppError::Editor(EditorError::Projection(x))) && x == e,
            },
    {
        let editor = match Editor::new(snapshot.source()) {
            Ok(e) => e,
            Err(e) => return Err(AppError::Editor(e)),
        };
        Ok(App {
            snapshot,
            editor,
            mode: Mode::Browse,
            input: String::new(),
            status: STATUS_READY.to_owned(),
            status_tone: StatusTone::Neutral,
            return_cursor: None,
            should_quit: false,
            no_color,
            codex_action: None,
            spinner_frame: 0,
            review: String::new(),
            mouse_selecting: false,
            viewport_scroll: None,
            pending: None,
        })
    }

    fn set_neutral(&mut self, message: &str)
        ensures
            final(self)@ == neutral(old(self)@, message@),
    {
        self.status = message.to_owned();
        self.status_tone = StatusTone::Neutral;
    }

    fn set_error(&mut self, message: &str)
        ensures
            final(self)@ == failed(old(self)@, message@),
    {
        self.status = message.to_owned();
        self.status_tone = StatusTone::Error;
    }

    /// Applies one key press and returns the outside work it asks for.
    pub fn handle_key(&mut self, key: KeyPress) -> (effect: Effect)
        ensures
            key_step(old(self)@, key, final(self)@, effect@),
    {
        self.mouse_selecting = false;
        self.viewport_scroll = None;
        if key.control && key.code == KeyCode::Char('c') {
            self.should_quit = true;
            return Effect::Nothing;
        }
        match self.mode {
            Mode::Browse => {
                self.handle_browse(key.code);
                Effect::Nothing
            },
            Mode::Visual => {
                self.handle_visual(key.code);
                Effect::Nothing
            },
            Mode::ManualInput => self.handle_manual_input(key),
            Mode::CodexChoice => self.handle_codex_choice(key.code),
            Mode::RevisionInput => self.handle_revision_input(key),
            Mode::CodexRunning => if key.code == KeyCode::Esc {
                Effect::CancelCodex
            } else {
                Effect::Nothing
            },
            Mode::Review => self.handle_review(key),
        }
    }

    fn handle_browse(&mut self, code: KeyCode)
        ensures
            browse_step(old(self)@, code, final(self)@),
    {
        match code {
            KeyCode::Char('q') => self.should_quit = true,
            KeyCode::Char('v') => {
                self.editor.start_visual();
                self.mode = Mode::Visual;
                self.set_neutral(STATUS_SELECTING);
            },
            KeyCode::Char('w') => {
                self.editor.select_current_word();
                self.mode = Mode::Visual;
                self.set_neutral(STATUS_WORD_SELECTED);
            },
            KeyCode::Left | KeyCode::Char('h') => self.editor.move_left(),
            KeyCode::Right | KeyCode::Char('l') => self.editor.move_right(),
            KeyCode::Up | KeyCode::Char('k') => {
                if self.editor.move_paragraph_up() {
                    self.set_neutral(STATUS_PREVIOUS_PARAGRAPH);
                }
            },
            KeyCode::Down | KeyCode::Char('j') => {
                if self.editor.move_paragraph_down() {
                    self.set_neutral(STATUS_NEXT_PARAGRAPH);
                }
            },
            KeyCode::Enter => self.follow_current_link(),
            KeyCode::Char('b') => self.return_from_endnote(),
            _ => {},
        }
    }

    fn follow_current_link(&mut self)
        ensures
            follow_link_step(old(self)@, final(self)@),
    {
        let target = match self.editor.current_link_target() {
            Some(t) => t.to_owned(),
            None => {
                self.set_neutral(STATUS_NO_LINK);
                return;
            },
        };
        let chars = chars_of(target.as_str());
        if chars.len() == 0 || chars[0] != '#' {
            self.set_neutral(STATUS_EXTERNAL_LINK);
            return;
        }
        let mut rest: Vec<char> = Vec::new();
        let mut i: usize = 1;
        while i < chars.len()
            invariant
                1 <= i <= chars@.len(),
                rest@ == chars@.subrange(1, i as int),
            decreases chars@.len() - i,
        {
            rest.push(chars[i]);
            i = i + 1;
            assert(rest@ =~= chars@.subrange(1, i as int));
        }
        assert(rest@ =~= target@.drop_first());
        let anchor = string_from_chars(&rest);
        let mut markup = String::new();
        markup.append("<a id=\"");
        markup.append(anchor.as_str());
        markup.append("\"></a>");
        assert(markup@ =~= anchor_markup(target@.drop_first()));
        let hay = self.snapshot.source().as_bytes();
        let needle = markup.as_str().as_bytes();
        let found = first_occurrence(hay, needle);
        match found {
            Some(offset) => {
                let hay_len = hay.len();
                assert(offset + needle@.len() <= hay_len);
                let destination = offset + needle.len();
                self.return_cursor = Some(self.editor.cursor());
                self.editor.jump_to_source(destination);
                self.set_neutral(STATUS_AT_ENDNOTE);
                proof {
                    let hay_spec = encode_utf8(old(self)@.source);
                    let needle_spec = encode_utf8(anchor_markup(target@.drop_first()));
                    assert(hay@ == hay_spec);
                    assert(needle@ == needle_spec);
                    assert(first_occurs_at(hay_spec, needle_spec, offset as int));
                    assert(follow_anchor(old(self)@, target@.drop_first(), self@));
                }
            },
            None => {
                self.set_error(STATUS_ANCHOR_MISSING);
                proof {
                    let hay_spec = encode_utf8(old(self)@.source);
                    let needle_spec = encode_utf8(anchor_markup(target@.drop_first()));
                    assert(hay@ == hay_spec);
                    assert(needle@ == needle_spec);
                    assert(!exists|o: int| first_occurs_at(hay_spec, needle_spec, o));
                }
            },
        }
    }

    fn return_from_endnote(&mut self)
        ensures
            match old(self)@.return_cursor {
                Some(c) => restored(old(self)@.editor, final(self)@.editor, c) && final(self)@ == neutral(
                    AppModel { editor: final(self)@.editor, return_cursor: None, ..old(self)@ },
                    STATUS_BACK_TO_BODY@,
                ),
                None => final(self)@ == old(self)@,
            },
    {
        if let Some(cursor) = self.return_cursor {
            self.return_cursor = None;
            self.editor.restore_cursor(cursor);
            self.set_neutral(STATUS_BACK_TO_BODY);
        }
    }

    fn handle_visual(&mut self, code: KeyCode)
        ensures
            visual_step(old(self)@, code, final(self)@),
    {
        match code {
            KeyCode::Left | KeyCode::Char('h') => self.editor.move_left(),
            KeyCode::Right | KeyCode::Char('l') => self.editor.move_right(),
            KeyCode::Char('a') => {
                self.mode = Mode::ManualInput;
                self.input = String::new();
                self.set_neutral(STATUS_NOTE_PROMPT);
            },
            KeyCode::Char('c') => {
                self.mode = Mode::CodexChoice;
                self.set_neutral(STATUS_CODEX_CHOICE);
            },
            KeyCode::Esc => {
                self.editor.clear_visual();
                self.mode = Mode::Browse;
                self.set_neutral(STATUS_SELECTION_CANCELLED);
            },
            _ => {},
        }
    }

    fn handle_codex_choice(&mut self, code: KeyCode) -> (effect: Effect)
        ensures
            choice_step(old(self)@, code, final(self)@, effect@),
    {
        match code {
            KeyCode::Char('r') => {
                self.input = String::new();
                self.mode = Mode::RevisionInput;
                self.set_neutral(STATUS_REVISION_PROMPT);
                Effect::Nothing
            },
            KeyCode::Char('e') => self.request_codex(None),
            KeyCode::Esc => {
                self.mode = Mode::Visual;
                self.set_neutral(STATUS_CHOICE_CANCELLED);
                Effect::Nothing
            },
            _ => Effect::Nothing,
        }
    }

    fn request_codex(&mut self, instruction: Option<String>) -> (effect: Effect)
        ensures
            codex_request_step(
                old(self)@,
                match instruction {
                    Some(i) => Some(i@),
                    None => None,
                },
                final(self)@,
                effect@,
            ),
    {
        let selection = match self.editor.selection_source_range() {
            Some(r) => r,
            None => {
                self.set_error(MISSING_SELECTION);
                return Effect::Nothing;
            },
        };
        let source = self.snapshot.source();
        let selected = match str_get(source, selection.start, selection.end) {
            Some(text) => text,
            None => {
                self.set_error(MISSING_SELECTION);
                return Effect::Nothing;
            },
        };
        let context = line_context(source, selection.start, selection.end);
        let request = match instruction {
            Some(i) => {
                self.codex_action = Some(CodexAction::Revision);
                CodexRequest::revise(selected, context.as_str(), i.as_str())
            },
            None => {
                self.codex_action = Some(CodexAction::Endnote);
                CodexRequest::explain(selected, context.as_str())
            },
        };
        Effect::StartCodex(request)
    }

    fn edit_text(text: &mut String, key: KeyPress)
        ensures
            final(text)@ == typed(old(text)@, key),
    {
        match key.code {
            KeyCode::Backspace => remove_last_grapheme(text),
            KeyCode::Char(c) => {
                if !key.control {
                    push_char(text, c);
                }
            },
            _ => {},
        }
    }

    fn handle_manual_input(&mut self, key: KeyPress) -> (effect: Effect)
        ensures
            manual_step(old(self)@, key, final(self)@, effect@),
    {
        match key.code {
            KeyCode::Enter => {
                let note = trim_string(self.input.as_str());
                if note.as_str().is_empty() {
                    self.set_error(STATUS_NOTE_EMPTY);
                    return Effect::Nothing;
                }
                self.commit_note(NoteKind::Manual, note.as_str())
            },
            KeyCode::Esc => {
                self.input = String::new();
                self.mode = Mode::Visual;
                self.set_neutral(STATUS_INPUT_CANCELLED);
                Effect::Nothing
            },
            _ => {
                Self::edit_text(&mut self.input, key);
                Effect::Nothing
            },
        }
    }

    fn commit_note(&mut self, kind: NoteKind, note: &str) -> (effect: Effect)
        ensures
            note_commit_step(old(self)@, kind, note@, final(self)@, effect@),
    {
        let selection = match self.editor.selection_source_range() {
            Some(r) => r,
            None => {
                self.set_error(MISSING_SELECTION);
                return Effect::Nothing;
            },
        };
        let id = AnnotationId::generate();
        let ghost u = choose|u: Seq<char>| uuid_text(u) && id@ == "rp-"@ + u;
        let request = AnnotationRequest { id, kind, note, selection };
        match annotate(self.snapshot.source(), &request) {
            Ok(next_source) => {
                self.pending = Some(PendingCommit::Note);
                assert(uuid_text(u) && (annotate_spec(old(self)@.source, "rp-"@ + u, kind, note@,
                    request.selection.start as int, request.selection.end as int) matches Ok(bytes)
                    && encode_utf8(next_source@) == bytes));
                Effect::Commit(next_source)
            },
            Err(e) => {
                let message = e.message();
                self.set_error(message.as_str());
                assert(uuid_text(u) && annotate_spec(old(self)@.source, "rp-"@ + u, kind, note@,
                    request.selection.start as int, request.selection.end as int) == Err::<Seq<u8>, AnnotationError>(e));
                Effect::Nothing
            },
        }
    }

    fn handle_revision_input(&mut self, key: KeyPress) -> (effect: Effect)
        ensures
            revision_input_step(old(self)@, key, final(self)@, effect@),
    {
        match key.code {
            KeyCode::Enter => {
                let instruction = trim_string(self.input.as_str());
                if instruction.as_str().is_empty() {
                    self.set_error(STATUS_REVISION_EMPTY);
                    return Effect::Nothing;
                }
                self.request_codex(Some(instruction))
            },
            KeyCode::Esc => {
                self.input = String::new();
                self.mode = Mode::Visual;
                self.set_neutral(STATUS_REVISION_CANCELLED);
                Effect::Nothing
            },
            _ => {
                Self::edit_text(&mut self.input, key);
                Effect::Nothing
            },
        }
    }

    fn handle_review(&mut self, key: KeyPress) -> (effect: Effect)
        ensures
            review_step(old(self)@, key, final(self)@, effect@),
    {
        match key.code {
            KeyCode::Enter => {
                let text = trim_string(self.review.as_str());
                if text.as_str().is_empty() {
                    self.set_error(STATUS_REVIEW_EMPTY);
                    return Effect::Nothing;
                }
                if self.codex_action == Some(CodexAction::Revision) {
                    self.commit_revision(text.as_str())
                } else {
                    self.commit_note(NoteKind::Explanation, text.as_str())
                }
            },
            KeyCode::Esc => {
                self.review = String::new();
                self.mode = Mode::Visual;
                self.set_neutral(STATUS_DRAFT_DISCARDED);
                Effect::Nothing
            },
            _ => {
                Self::edit_text(&mut self.review, key);
                Effect::Nothing
            },
        }
    }

    fn commit_revision(&mut self, revision: &str) -> (effect: Effect)
        ensures
            revision_commit_step(old(self)@, revision@, final(self)@, effect@),
    {
        let chars = chars_of(revision);
        let mut i: usize = 0;
        while i < chars.len()
            invariant
                chars@ == revision@,
                self@ == old(self)@,
                i <= chars@.len(),
                forall|j: int| 0 <= j < i ==> chars@[j] != '\r' && chars@[j] != '\n',
            decreases chars@.len() - i,
        {
            if chars[i] == '\r' || chars[i] == '\n' {
                assert(revision@[i as int] == chars@[i as int]);
                self.set_error(STATUS_REVISION_MULTILINE);
                return Effect::Nothing;
            }
            i = i + 1;
        }
        assert(!revision@.contains('\r') && !revision@.contains('\n'));
        let selection = match self.editor.selection_source_range() {
            Some(r) => r,
            None => {
                self.set_error(MISSING_SELECTION);
                return Effect::Nothing;
            },
        };
        let source = self.snapshot.source();
        if str_get(source, selection.start, selection.end).is_none() {
            let message = AnnotationError::InvalidSelection.message();
            self.set_error(message.as_str());
            return Effect::Nothing;
        }
        let ghost b = encode_utf8(source@);
        proof {
            encode_utf8_valid_utf8(source@);
            is_char_boundary_start_end_of_seq(b);
        }
        let len = source.as_bytes().len();
        let before = crate::text::str_slice(source, 0, selection.start);
        let after = crate::text::str_slice(source, selection.end, len);
        let mut next = String::new();
        next.append(before);
        next.append(revision);
        next.append(after);
        self.pending = Some(PendingCommit::Revision { start: selection.start });
        Effect::Commit(next)
    }

    /// Records that the requested Codex process started.
    pub fn codex_started(&mut self)
        ensures
            final(self)@ == (AppModel {
                mode: Mode::CodexRunning,
                spinner_frame: 0,
                status: if old(self)@.codex_action == Some(CodexAction::Revision) {
                    STATUS_CODEX_REVISING@
                } else {
                    STATUS_CODEX_DRAFTING@
                },
                tone: StatusTone::Neutral,
                input: if old(self)@.codex_action == Some(CodexAction::Revision) {
                    Seq::empty()
                } else {
                    old(self)@.input
                },
                ..old(self)@
            }),
    {
        self.mode = Mode::CodexRunning;
        self.spinner_frame = 0;
        if self.codex_action == Some(CodexAction::Revision) {
            self.input = String::new();
            self.set_neutral(STATUS_CODEX_REVISING);
        } else {
            self.set_neutral(STATUS_CODEX_DRAFTING);
        }
    }

    /// Records that the running Codex process was terminated.
    pub fn codex_cancelled(&mut self)
        ensures
            final(self)@ == neutral(AppModel { mode: Mode::Visual, ..old(self)@ }, STATUS_CODEX_CANCELLED@),
    {
        self.mode = Mode::Visual;
        self.set_neutral(STATUS_CODEX_CANCELLED);
    }

    /// Takes the outcome of a finished Codex process: a draft to review, or a
    /// failure that keeps the selection.
    pub fn accept_codex_result(&mut self, result: Result<String, CodexError>)
        ensures
            match result {
                Ok(note) => final(self)@ == neutral(
                    AppModel { review: note@, mode: Mode::Review, ..old(self)@ },
                    STATUS_REVIEW@,
                ),
                Err(e) => final(self)@ == failed(AppModel { mode: Mode::Visual, ..old(self)@ }, final(self)@.status)
                    && codex_text(e, final(self)@.status),
            },
    {
        match result {
            Ok(note) => {
                self.review = note;
                self.mode = Mode::Review;
                self.set_neutral(STATUS_REVIEW);
            },
            Err(e) => {
                self.mode = Mode::Visual;
                let message = e.message();
                self.set_error(message.as_str());
            },
        }
    }

    /// Shows a failure of outside work; the state is otherwise unchanged and
    /// no write is awaited any more.
    pub fn report_error(&mut self, message: &str)
        ensures
            error_reported(old(self)@, message@, final(self)@),
    {
        self.pending = None;
        self.set_error(message);
    }

    /// Takes the snapshot reloaded after the awaited write succeeded.
    pub fn commit_succeeded(&mut self, snapshot: DocumentSnapshot)
        ensures
            commit_applied(old(self)@, snapshot.source_spec(), snapshot.path_spec(), final(self)@),
    {
        let pending = self.pending;
        self.pending = None;
        let mut editor = match Editor::new(snapshot.source()) {
            Ok(e) => e,
            Err(EditorError::Projection(e)) => {
                let message = e.message();
                self.set_error(message.as_str());
                return;
            },
        };
        let ghost e0 = editor@;
        self.snapshot = snapshot;
        self.input = String::new();
        self.review = String::new();
        self.mode = Mode::Browse;
        match pending {
            Some(PendingCommit::Revision { start }) => {
                editor.jump_to_source(start);
                self.editor = editor;
                self.codex_action = None;
                self.status = STATUS_SAVED_REVISION.to_owned();
            },
            _ => {
                self.editor = editor;
                self.status = STATUS_SAVED_NOTE.to_owned();
            },
        }
        self.status_tone = StatusTone::Success;
        assert(fresh_editor(self@.source, e0));
    }

    /// Advances the progress spinner while Codex runs.
    pub fn tick(&mut self)
        ensures
            final(self)@ == (if old(self)@.mode == Mode::CodexRunning {
                AppModel { spinner_frame: (old(self)@.spinner_frame % 8 + 1) % 8, ..old(self)@ }
            } else {
                old(self)@
            }),
    {
        if self.mode == Mode::CodexRunning {
            self.spinner_frame = (self.spinner_frame % 8 + 1) % 8;
        }
    }

    /// Applies one mouse action to an optional rendered grapheme hit, given the
    /// viewport's current and largest scroll offsets.
    pub fn handle_mouse(
        &mut self,
        action: MouseAction,
        rendered_index: Option<usize>,
        scroll_offset: u16,
        max_scroll_offset: u16,
    )
        ensures
            mouse_step(
                old(self)@,
                action,
                rendered_index,
                scroll_offset as int,
                max_scroll_offset as int,
                final(self)@,
            ),
    {
        if !(self.mode == Mode::Browse || self.mode == Mode::Visual) {
            return;
        }
        match action {
            MouseAction::LeftDown => {
                self.mouse_selecting = false;
                self.viewport_scroll = Some(scroll_offset);
                if let Some(index) = rendered_index {
                    if self.editor.start_visual_at(index) {
                        self.mouse_selecting = true;
                        self.mode = Mode::Visual;
                        self.set_neutral(STATUS_MOUSE_SELECTING);
                    }
                }
            },
            MouseAction::LeftDrag => {
                if self.mouse_selecting {
                    if let Some(index) = rendered_index {
                        self.editor.extend_visual_to(index);
                    }
                }
            },
            MouseAction::LeftUp => {
                if self.mouse_selecting {
                    if let Some(index) = rendered_index {
                        self.editor.extend_visual_to(index);
                    }
                    self.mouse_selecting = false;
                    self.set_neutral(STATUS_MOUSE_SELECTED);
                }
            },
            MouseAction::ScrollDown => {
                let down = if scroll_offset <= max_scroll_offset && max_scroll_offset - scroll_offset >= WHEEL_ROWS {
                    scroll_offset + WHEEL_ROWS
                } else {
                    max_scroll_offset
                };
                self.viewport_scroll = Some(down);
            },
            MouseAction::ScrollUp => {
                let up = if scroll_offset >= WHEEL_ROWS {
                    scroll_offset - WHEEL_ROWS
                } else {
                    0
                };
                self.viewport_scroll = Some(up);
            },
            MouseAction::Other => {},
        }
    }

    /// Returns document selection and rendering state.
    pub fn editor(&self) -> (e: &Editor)
        ensures
            e@ == self@.editor,
    {
        &self.editor
    }

    /// Returns the document snapshot that a commit must still match.
    pub fn snapshot(&self) -> (s: &DocumentSnapshot)
        ensures
            s.source_spec() == self@.source,
            s.path_spec() == self@.path,
    {
        &self.snapshot
    }

    /// Returns the viewport scroll pinned by the mouse, if any.
    pub fn viewport_scroll(&self) -> (v: Option<u16>)
        ensures
            match v {
                Some(x) => self@.viewport_scroll == Some(x as int),
                None => self@.viewport_scroll is None,
            },
    {
        self.viewport_scroll
    }

    /// Returns the current mode.
    pub fn mode(&self) -> (m: Mode)
        ensures
            m == self@.mode,
    {
        self.mode
    }

    /// Returns editable note or instruction input.
    pub fn input(&self) -> (s: &str)
        ensures
            s@ == self@.input,
    {
        self.input.as_str()
    }

    /// Returns the editable reviewed Codex draft.
    pub fn review(&self) -> (s: &str)
        ensures
            s@ == self@.review,
    {
        self.review.as_str()
    }

    /// Reports whether the pending Codex result replaces the selection.
    pub fn codex_is_revision(&self) -> (b: bool)
        ensures
            b == (self@.codex_action == Some(CodexAction::Revision)),
    {
        self.codex_action == Some(CodexAction::Revision)
    }

    /// Returns the text currently displayed in the editor panel.
    pub fn editing_text(&self) -> (s: &str)
        ensures
            s@ == (if self@.mode == Mode::Review { self@.review } else { self@.input }),
    {
        if self.mode == Mode::Review {
            self.review.as_str()
        } else {
            self.input.as_str()
        }
    }

    /// Returns the latest user-visible status.
    pub fn status(&self) -> (s: &str)
        ensures
            s@ == self@.status,
    {
        self.status.as_str()
    }

    /// Returns status semantics.
    pub fn status_tone(&self) -> (t: StatusTone)
        ensures
            t == self@.tone,
    {
        self.status_tone
    }

    /// Returns the opened path for the viewport title (it dereferences to a
    /// `Path`).
    pub fn path(&self) -> (p: &PathBuf)
        ensures
            *p == self@.path,
    {
        self.snapshot.path()
    }

    /// Reports whether the event loop should exit.
    pub fn should_quit(&self) -> (b: bool)
        ensures
            b == self@.should_quit,
    {
        self.should_quit
    }

    /// Reports whether semantic colors are disabled.
    pub fn no_color(&self) -> (b: bool)
        ensures
            b == self@.no_color,
    {
        self.no_color
    }

    /// Returns the deterministic Codex progress frame.
    pub fn codex_spinner(&self) -> (c: char)
        ensures
            c == spinner_glyph(self@.spinner_frame % 8),
    {
        match self.spinner_frame % 8 {
            0 => '⠋',
            1 => '⠙',
            2 => '⠹',
            3 => '⠸',
            4 => '⠼',
            5 => '⠴',
            6 => '⠦',
            _ => '⠧',
        }
    }

    /// Reports whether the cursor is at a followed endnote destination.
    pub fn endnote_is_focused(&self) -> (b: bool)
        ensures
            b == (self@.return_cursor is Some),
    {
        self.return_cursor.is_some()
    }
}


/// A key asks for a write only when it is Enter in the manual note editor or
/// in draft review: nothing is written before a note or a draft is accepted.
pub proof fn law_write_only_on_accept(m: AppModel, key: KeyPress, m2: AppModel, eff: EffectModel)
    requires
        key_step(m, key, m2, eff),
        eff is Commit,
    ensures
        key.code == KeyCode::Enter,
        m.mode == Mode::ManualInput || m.mode == Mode::Review,
{
}

/// A key starts Codex only when the user has chosen what Codex is for: `e` in
/// the action chooser asks for an endnote, Enter on a revision instruction
/// asks for a revision carrying that instruction.
pub proof fn law_codex_only_when_chosen(m: AppModel, key: KeyPress, m2: AppModel, request: CodexRequestModel)
    requires
        key_step(m, key, m2, EffectModel::StartCodex(request)),
    ensures
        (m.mode == Mode::CodexChoice && key.code == KeyCode::Char('e') && request.instruction is None)
            || (m.mode == Mode::RevisionInput && key.code == KeyCode::Enter
            && request.instruction == Some(trim(m.input))),
{
}

/// Keys never change the document held in memory or where it lives: only a
/// confirmed write does.
pub proof fn law_keys_keep_document(m: AppModel, key: KeyPress, m2: AppModel, eff: EffectModel)
    requires
        key_step(m, key, m2, eff),
    ensures
        m2.source == m.source,
        m2.path == m.path,
{
}

/// Escape never writes or starts Codex; it cancels a running Codex process,
/// and from a note editor, the action chooser, an instruction or a draft it
/// returns to visual mode with the selection kept.
pub proof fn law_escape_cancels(m: AppModel, key: KeyPress, m2: AppModel, eff: EffectModel)
    requires
        key_step(m, key, m2, eff),
        key.code == KeyCode::Esc,
    ensures
        !(eff is Commit),
        !(eff is StartCodex),
        m.mode == Mode::CodexRunning ==> eff == EffectModel::CancelCodex && m2.editor == m.editor,
        (m.mode == Mode::ManualInput || m.mode == Mode::CodexChoice || m.mode == Mode::RevisionInput
            || m.mode == Mode::Review) ==> m2.mode == Mode::Visual && m2.editor == m.editor,
{
}

/// Control-C quits from every mode, and asks for nothing else.
pub proof fn law_interrupt_quits(m: AppModel, key: KeyPress, m2: AppModel, eff: EffectModel)
    requires
        key_step(m, key, m2, eff),
        is_interrupt(key),
    ensures
        m2.should_quit,
        eff == EffectModel::Nothing,
        m2.editor == m.editor,
{
}

/// The wheel scrolls the viewport within its bounds and never moves the
/// cursor or the selection.
pub proof fn law_wheel_keeps_cursor(
    m: AppModel,
    action: MouseAction,
    index: Option<usize>,
    scroll: int,
    max_scroll: int,
    m2: AppModel,
)
    requires
        mouse_step(m, action, index, scroll, max_scroll, m2),
        action == MouseAction::ScrollDown || action == MouseAction::ScrollUp,
        0 <= scroll <= max_scroll,
    ensures
        m2.editor == m.editor,
        (m.mode == Mode::Browse || m.mode == Mode::Visual) ==> (m2.viewport_scroll matches Some(v) && 0 <= v <= max_scroll),
{
}

/// An accepted revision rewrites exactly the selected bytes: the written text
/// is the source before the selection, the trimmed draft, and the source after
/// it.
pub proof fn law_revision_keeps_outside_bytes(m: AppModel, key: KeyPress, m2: AppModel, text: Seq<char>)
    requires
        key_step(m, key, m2, EffectModel::Commit(text)),
        m.mode == Mode::Review,
        m.codex_action == Some(CodexAction::Revision),
    ensures
        selection_range_spec(m.editor) matches Some((s, t)) && encode_utf8(text) == encode_utf8(m.source).subrange(0, s)
            + encode_utf8(trim(m.review)) + encode_utf8(m.source).subrange(t, encode_utf8(m.source).len() as int),
{
    let b = encode_utf8(m.source);
    let (s, t) = selection_range_spec(m.editor)->0;
    encode_utf8_valid_utf8(m.source);
    is_char_boundary_start_end_of_seq(b);
    crate::annotation::lemma_valid_pieces(b, s, t);
    let before = b.subrange(0, s);
    let after = b.subrange(t, b.len() as int);
    decode_utf8_encode_utf8(before);
    decode_utf8_encode_utf8(after);
    let rev = trim(m.review);
    crate::text::lemma_encode_concat(decode_utf8(before), rev);
    crate::text::lemma_encode_concat(decode_utf8(before) + rev, decode_utf8(after));
}


/// In browse and visual mode every key but word selection that moves the
/// cursor lands it on a selectable grapheme: movement skips synthetic and
/// code cells.
pub proof fn law_moves_land_on_selectable(m: AppModel, key: KeyPress, m2: AppModel, eff: EffectModel)
    requires
        key_step(m, key, m2, eff),
        0 <= m.editor.cursor,
        m.mode == Mode::Browse || m.mode == Mode::Visual,
        key.code != KeyCode::Char('w'),
        m2.editor.cursor != m.editor.cursor,
    ensures
        selectable_at(m2.editor.graphemes, m2.editor.cursor),
        m2.editor.graphemes == m.editor.graphemes,
{
}

/// A mouse action that moves the cursor lands it on a selectable grapheme.
pub proof fn law_mouse_lands_on_selectable(
    m: AppModel,
    action: MouseAction,
    index: Option<usize>,
    scroll: int,
    max_scroll: int,
    m2: AppModel,
)
    requires
        mouse_step(m, action, index, scroll, max_scroll, m2),
        m2.editor.cursor != m.editor.cursor,
    ensures
        selectable_at(m2.editor.graphemes, m2.editor.cursor),
        m2.editor.graphemes == m.editor.graphemes,
{
}



/// One cursor move of the editor: by grapheme, by paragraph, or to a source
/// offset.
pub open spec fn cursor_moved(b: EditorModel, a: EditorModel) -> bool {
    ||| moved_left(b, a)
    ||| moved_right(b, a)
    ||| moved_up(b, a)
    ||| moved_down(b, a)
    ||| exists|offset: int| jumped(b, a, offset)
}

/// Editor states, each one cursor move away from the one before.
pub open spec fn move_chain(states: Seq<EditorModel>) -> bool {
    &&& forall|i: int| 0 <= i < states.len() ==> 0 <= (#[trigger] states[i]).cursor
    &&& forall|i: int| 0 <= i < states.len() - 1 ==> cursor_moved(#[trigger] states[i], states[i + 1])
}

proof fn lemma_chain_keeps_graphemes(states: Seq<EditorModel>, i: int)
    requires
        move_chain(states),
        0 <= i < states.len(),
    ensures
        states[i].graphemes == states[0].graphemes,
    decreases i,
{
    if i > 0 {
        lemma_chain_keeps_graphemes(states, i - 1);
        assert(cursor_moved(states[i - 1], states[i]));
        assert(0 <= states[i - 1].cursor);
    }
}

/// Restoring a cursor that was on a selectable grapheme brings it back there
/// after any sequence of cursor moves; restoring an index that is not
/// selectable changes nothing.
pub proof fn law_restore_after_moves(states: Seq<EditorModel>, c: int, restored_to: EditorModel)
    requires
        move_chain(states),
        states.len() > 0,
        restored(states.last(), restored_to, c),
    ensures
        selectable_at(states[0].graphemes, c) ==> restored_to.cursor == c
            && restored_to.graphemes == states[0].graphemes,
        !selectable_at(states[0].graphemes, c) ==> restored_to == states.last(),
{
    lemma_chain_keeps_graphemes(states, states.len() - 1);
}

/// A key press that asks for a write, when the document on disk no longer
/// holds the snapshot's text: the check before the write refuses it, and the
/// refusal, reported as its message, keeps the mode, the draft, the input and
/// the selection, and says why.
pub proof fn law_external_change_blocks_write(
    m: AppModel,
    key: KeyPress,
    m1: AppModel,
    text: Seq<char>,
    current: Seq<char>,
    message: Seq<char>,
    m2: AppModel,
)
    requires
        key_step(m, key, m1, EffectModel::Commit(text)),
        current != m.source,
        (unchanged_verdict(m1.source, current) matches Err(e) ==> storage_text(e, message) && error_reported(
            m1,
            message,
            m2,
        )),
    ensures
        unchanged_verdict(m.source, current) == Err::<(), StorageError>(StorageError::ExternalChange),
        message == "document changed outside MD RedPen; reload before saving"@,
        m2.mode == m.mode,
        m2.source == m.source,
        m2.editor == m.editor,
        m2.input == m.input,
        m2.review == m.review,
        m2.tone == StatusTone::Error,
        m2.status == message,
{
}

/// An accepted draft, once written and reloaded, becomes the document: the
/// app returns to browse mode with empty editors and a success status, and
/// keeps everything else.
pub proof fn law_accepted_draft_is_saved(m: AppModel, key: KeyPress, m1: AppModel, text: Seq<char>, m2: AppModel)
    requires
        key_step(m, key, m1, EffectModel::Commit(text)),
        m.mode == Mode::Review,
        projection_spec(text) is Ok,
        commit_applied(m1, text, m.path, m2),
    ensures
        m2.mode == Mode::Browse,
        m2.source == text,
        m2.path == m.path,
        m2.review == Seq::<char>::empty(),
        m2.input == Seq::<char>::empty(),
        m2.tone == StatusTone::Success,
        m2.pending is None,
        m2.return_cursor == m.return_cursor,
        m2.no_color == m.no_color,
        m2.should_quit == m.should_quit,
        m2.codex_action == (if m.codex_action == Some(CodexAction::Revision) { None } else { m.codex_action }),
{
}

} // verus!
