//! What the terminal screen shows, decided apart from drawing it: responsive
//! layout classes, mode labels and key help, status text, the line structure
//! of the rendered document, scroll arithmetic, and the color code that maps
//! a drawn cell back to its rendered grapheme.

use unicode_width::UnicodeWidthStr;
use vstd::prelude::*;

use crate::app::{spinner_glyph, App};
use crate::app_state::{Mode, StatusTone};
use crate::markdown::{GraphemeModel, Projection, SemanticKind};
use crate::text::{chars_of, push_char};

verus! {

/// Smallest usable terminal width.
pub const MIN_WIDTH: u16 = 50;
/// Smallest usable terminal height.
pub const MIN_HEIGHT: u16 = 12;
/// Width from which the full layout is used.
pub const WIDE_WIDTH: u16 = 80;
/// Height from which the full layout is used.
pub const WIDE_HEIGHT: u16 = 20;

/// Whether the terminal is too small to render the document.
pub fn is_too_small(width: u16, height: u16) -> (b: bool)
    ensures
        b == (width < MIN_WIDTH || height < MIN_HEIGHT),
{
    width < MIN_WIDTH || height < MIN_HEIGHT
}

/// Whether the compact one-line status layout is used.
pub fn is_compact(width: u16, height: u16) -> (b: bool)
    ensures
        b == (width < WIDE_WIDTH || height < WIDE_HEIGHT),
{
    width < WIDE_WIDTH || height < WIDE_HEIGHT
}

/// Whether a mode shows the bottom editing panel.
pub fn is_editing(mode: Mode) -> (b: bool)
    ensures
        b == (mode == Mode::ManualInput || mode == Mode::CodexChoice || mode == Mode::RevisionInput
            || mode == Mode::Review),
{
    match mode {
        Mode::ManualInput | Mode::CodexChoice | Mode::RevisionInput | Mode::Review => true,
        Mode::Browse | Mode::Visual | Mode::CodexRunning => false,
    }
}

/// Whether a grapheme belongs to the managed endnotes, whose lines get the
/// note surface.
pub open spec fn managed_kind(kind: SemanticKind) -> bool {
    kind == SemanticKind::ManagedNote || kind == SemanticKind::ManagedNoteHeading
        || kind == SemanticKind::EndnoteLabel
}

/// Whether a grapheme belongs to the managed endnotes.
pub fn is_managed_note(kind: SemanticKind) -> (b: bool)
    ensures
        b == managed_kind(kind),
{
    match kind {
        SemanticKind::ManagedNote | SemanticKind::ManagedNoteHeading | SemanticKind::EndnoteLabel => true,
        _ => false,
    }
}

/// The status-bar label of a mode.
pub open spec fn mode_label_spec(mode: Mode) -> Seq<char> {
    match mode {
        Mode::Browse => "BROWSE"@,
        Mode::Visual => "VISUAL"@,
        Mode::ManualInput => "INPUT"@,
        Mode::CodexChoice => "CODEX"@,
        Mode::RevisionInput => "PROMPT"@,
        Mode::CodexRunning => "CODEX"@,
        Mode::Review => "REVIEW"@,
    }
}

/// The status-bar label of a mode.
pub fn mode_label(mode: Mode) -> (s: &'static str)
    ensures
        s@ == mode_label_spec(mode),
{
    match mode {
        Mode::Browse => "BROWSE",
        Mode::Visual => "VISUAL",
        Mode::ManualInput => "INPUT",
        Mode::CodexChoice => "CODEX",
        Mode::RevisionInput => "PROMPT",
        Mode::CodexRunning => "CODEX",
        Mode::Review => "REVIEW",
    }
}

/// The keys valid in a mode, in the compact or the full layout.
pub open spec fn help_spec(mode: Mode, compact: bool) -> Seq<char> {
    if compact {
        match mode {
            Mode::Browse => "↑/↓ paragraph · drag select · q quit"@,
            Mode::Visual => "h/l extend · a note · c Codex · Esc"@,
            Mode::ManualInput => "Enter save · Esc cancel"@,
            Mode::CodexChoice => "r revise · e endnote · Esc"@,
            Mode::RevisionInput => "Enter send · Esc cancel"@,
            Mode::CodexRunning => "Esc cancel"@,
            Mode::Review => "Enter save · Esc discard"@,
        }
    } else {
        match mode {
            Mode::Browse => "↑/↓ paragraph  drag select  wheel scroll  v/w select  Enter/b link  q quit"@,
            Mode::Visual => "←/→ or h/l extend  a manual  c Codex  Esc cancel"@,
            Mode::ManualInput => "type note  Enter atomic save  Esc cancel"@,
            Mode::CodexChoice => "r revise sentence  e automatic endnote  Esc cancel"@,
            Mode::RevisionInput => "type instruction  Enter send  Esc cancel"@,
            Mode::CodexRunning => "Codex running  Esc cancel"@,
            Mode::Review => "edit draft  Enter atomic save  Esc discard"@,
        }
    }
}

/// The keys valid in a mode, in the compact or the full layout.
pub fn help_text(mode: Mode, compact: bool) -> (s: &'static str)
    ensures
        s@ == help_spec(mode, compact),
{
    if compact {
        match mode {
            Mode::Browse => "↑/↓ paragraph · drag select · q quit",
            Mode::Visual => "h/l extend · a note · c Codex · Esc",
            Mode::ManualInput => "Enter save · Esc cancel",
            Mode::CodexChoice => "r revise · e endnote · Esc",
            Mode::RevisionInput => "Enter send · Esc cancel",
            Mode::CodexRunning => "Esc cancel",
            Mode::Review => "Enter save · Esc discard",
        }
    } else {
        match mode {
            Mode::Browse => "↑/↓ paragraph  drag select  wheel scroll  v/w select  Enter/b link  q quit",
            Mode::Visual => "←/→ or h/l extend  a manual  c Codex  Esc cancel",
            Mode::ManualInput => "type note  Enter atomic save  Esc cancel",
            Mode::CodexChoice => "r revise sentence  e automatic endnote  Esc cancel",
            Mode::RevisionInput => "type instruction  Enter send  Esc cancel",
            Mode::CodexRunning => "Codex running  Esc cancel",
            Mode::Review => "edit draft  Enter atomic save  Esc discard",
        }
    }
}

/// The title of the bottom editing panel.
pub open spec fn panel_title_spec(mode: Mode, revision: bool) -> Seq<char> {
    match mode {
        Mode::RevisionInput => " Revision instruction · Enter send · Esc cancel "@,
        Mode::Review => if revision {
            " Codex revision · Enter apply · Esc discard "@
        } else {
            " Codex endnote · Enter save · Esc discard "@
        },
        Mode::ManualInput => " Manual endnote · Enter save · Esc cancel "@,
        Mode::CodexChoice => " Codex action · Esc cancel "@,
        _ => ""@,
    }
}

/// The title of the bottom editing panel; `revision` tells whether the
/// reviewed draft replaces the selection.
pub fn panel_title(mode: Mode, revision: bool) -> (s: &'static str)
    ensures
        s@ == panel_title_spec(mode, revision),
{
    match mode {
        Mode::RevisionInput => " Revision instruction · Enter send · Esc cancel ",
        Mode::Review => if revision {
            " Codex revision · Enter apply · Esc discard "
        } else {
            " Codex endnote · Enter save · Esc discard "
        },
        Mode::ManualInput => " Manual endnote · Enter save · Esc cancel ",
        Mode::CodexChoice => " Codex action · Esc cancel ",
        _ => "",
    }
}

/// The short status of the compact layout.
pub open spec fn compact_spec(mode: Mode, tone: StatusTone, spinner: char) -> Seq<char> {
    if tone == StatusTone::Success {
        "저장됨"@
    } else {
        match mode {
            Mode::Browse => "준비"@,
            Mode::Visual => "선택 중"@,
            Mode::ManualInput => "미주 입력"@,
            Mode::CodexChoice => "Codex 작업 선택"@,
            Mode::RevisionInput => "수정 지시 입력"@,
            Mode::CodexRunning => seq![spinner] + " Codex 작성 중"@,
            Mode::Review => "초안 검토"@,
        }
    }
}

/// The short status of the compact layout.
pub fn compact_message(mode: Mode, tone: StatusTone, spinner: char) -> (s: String)
    ensures
        s@ == compact_spec(mode, tone, spinner),
{
    if tone == StatusTone::Success {
        return "저장됨".to_owned();
    }
    match mode {
        Mode::Browse => "준비".to_owned(),
        Mode::Visual => "선택 중".to_owned(),
        Mode::ManualInput => "미주 입력".to_owned(),
        Mode::CodexChoice => "Codex 작업 선택".to_owned(),
        Mode::RevisionInput => "수정 지시 입력".to_owned(),
        Mode::CodexRunning => {
            let mut s = String::new();
            push_char(&mut s, spinner);
            s.append(" Codex 작성 중");
            assert(s@ =~= seq![spinner] + " Codex 작성 중"@);
            s
        },
        Mode::Review => "초안 검토".to_owned(),
    }
}

/// The message part of the status bar: errors are prefixed, the compact
/// layout shortens the rest, and a running Codex request shows the spinner.
pub fn status_message(app: &App, compact: bool) -> (s: String)
    ensures
        s@ == (if app@.tone == StatusTone::Error {
            "Error: "@ + app@.status
        } else if compact {
            compact_spec(app@.mode, app@.tone, spinner_glyph(app@.spinner_frame % 8))
        } else if app@.mode == Mode::CodexRunning {
            seq![spinner_glyph(app@.spinner_frame % 8)] + " "@ + app@.status
        } else {
            app@.status
        }),
{
    let tone = app.status_tone();
    if tone == StatusTone::Error {
        let mut s = String::new();
        s.append("Error: ");
        s.append(app.status());
        return s;
    }
    if compact {
        return compact_message(app.mode(), tone, app.codex_spinner());
    }
    if app.mode() == Mode::CodexRunning {
        let mut s = String::new();
        push_char(&mut s, app.codex_spinner());
        s.append(" ");
        s.append(app.status());
        assert(s@ =~= seq![spinner_glyph(app@.spinner_frame % 8)] + " "@ + app@.status);
        return s;
    }
    app.status().to_owned()
}

/// One terminal line of the rendered document: the rendered graphemes
/// `[start, end)` (the line break that ends it excluded), and whether it holds
/// managed endnote text.
#[derive(Debug, Clone, Copy, PartialEq, Eq, Structural)]
pub struct LineRow {
    /// First rendered index of the line.
    pub start: usize,
    /// Rendered index just past the line.
    pub end: usize,
    /// Whether a grapheme of the line belongs to the managed endnotes.
    pub managed_note: bool,
}

/// Lines closed so far, where the open line starts, and whether it holds
/// managed endnote text.
pub struct LineFold {
    /// Closed lines.
    pub rows: Seq<LineRow>,
    /// First rendered index of the open line.
    pub start: int,
    /// Whether the open line holds managed endnote text.
    pub managed: bool,
}

/// A rendered line break.
pub open spec fn is_line_break(g: GraphemeModel) -> bool {
    g.text == seq!['\n']
}

/// The lines of the first `n` rendered graphemes.
pub open spec fn line_fold(gs: Seq<GraphemeModel>, n: int) -> LineFold
    decreases n,
{
    if n <= 0 {
        LineFold { rows: Seq::empty(), start: 0, managed: false }
    } else {
        let f = line_fold(gs, n - 1);
        if is_line_break(gs[n - 1]) {
            LineFold {
                rows: f.rows.push(LineRow { start: f.start as usize, end: (n - 1) as usize, managed_note: f.managed }),
                start: n,
                managed: false,
            }
        } else {
            LineFold { managed: f.managed || managed_kind(gs[n - 1].semantic), ..f }
        }
    }
}

/// The terminal lines of the first `end` rendered graphemes: the open line
/// is kept when it holds anything or when there is no other line.
pub open spec fn document_rows_spec(gs: Seq<GraphemeModel>, end: int) -> Seq<LineRow> {
    let f = line_fold(gs, end);
    if f.start < end || f.rows.len() == 0 {
        f.rows.push(LineRow { start: f.start as usize, end: end as usize, managed_note: f.managed })
    } else {
        f.rows
    }
}

/// The terminal lines of the rendered document up to an optional rendered
/// index (the whole document when there is none).
pub fn document_rows(projection: &Projection, end: Option<usize>) -> (rows: Vec<LineRow>)
    ensures
        rows@ == document_rows_spec(projection@, match end {
            Some(e) => if e < projection@.len() { e as int } else { projection@.len() as int },
            None => projection@.len() as int,
        }),
{
    let n = projection.len();
    let stop = match end {
        Some(e) => if e < n { e } else { n },
        None => n,
    };
    let mut rows: Vec<LineRow> = Vec::new();
    let mut start: usize = 0;
    let mut managed = false;
    let mut i: usize = 0;
    while i < stop
        invariant
            n == projection@.len(),
            stop <= n,
            i <= stop,
            start <= i,
            rows@ == line_fold(projection@, i as int).rows,
            start == line_fold(projection@, i as int).start,
            managed == line_fold(projection@, i as int).managed,
        decreases stop - i,
    {
        let g = projection.get(i);
        let chars = chars_of(g.text());
        if chars.len() == 1 && chars[0] == '\n' {
            assert(projection@[i as int].text =~= seq!['\n']);
            rows.push(LineRow { start, end: i, managed_note: managed });
            start = i + 1;
            managed = false;
        } else {
            assert(!is_line_break(projection@[i as int]));
            managed = managed || is_managed_note(g.semantic());
        }
        i = i + 1;
    }
    if start < stop || rows.len() == 0 {
        rows.push(LineRow { start, end: stop, managed_note: managed });
    }
    rows
}

/// How far the viewport scrolls so that the last of `rows` wrapped rows is
/// on screen, within what a `u16` offset can hold.
pub fn rows_past_viewport(rows: usize, height: u16) -> (offset: u16)
    ensures
        offset == (if rows <= height {
            0
        } else if rows - height > u16::MAX {
            u16::MAX as int
        } else {
            rows - height
        }),
{
    let h = height as usize;
    if rows <= h {
        0
    } else if rows - h > 65535 {
        65535
    } else {
        (rows - h) as u16
    }
}

/// The viewport's scroll offset: the one pinned by the mouse, kept within
/// range, or the one that keeps the cursor in view.
pub fn effective_scroll(pinned: Option<u16>, follow: u16, maximum: u16) -> (offset: u16)
    ensures
        offset == match pinned {
            Some(p) => if p <= maximum { p } else { maximum },
            None => follow,
        },
{
    match pinned {
        Some(p) => if p <= maximum { p } else { maximum },
        None => follow,
    }
}

/// The largest rendered index that a cell color can encode.
pub const MAX_ENCODED_INDEX: usize = 0xff_fffe;

/// The red, green and blue of the color that marks the cell of rendered
/// grapheme `index`: the 24-bit number `index + 1`.
pub open spec fn hit_color_spec(index: int) -> Option<(u8, u8, u8)> {
    if 0 <= index <= MAX_ENCODED_INDEX {
        let code = index + 1;
        Some(((code / 65536) as u8, ((code / 256) % 256) as u8, (code % 256) as u8))
    } else {
        None
    }
}

/// The color that marks the cell of a rendered grapheme, when the index fits
/// in 24 bits.
pub fn hit_color(index: usize) -> (c: Option<(u8, u8, u8)>)
    ensures
        c == hit_color_spec(index as int),
{
    if index > MAX_ENCODED_INDEX {
        return None;
    }
    let code = index + 1;
    Some(((code / 65536) as u8, ((code / 256) % 256) as u8, (code % 256) as u8))
}

/// The rendered index that a cell color marks, if it marks one.
pub open spec fn hit_index_spec(red: u8, green: u8, blue: u8) -> Option<int> {
    let code = red * 65536 + green * 256 + blue;
    if code == 0 {
        None
    } else {
        Some(code - 1)
    }
}

/// The rendered index that a cell color marks, if it marks one.
pub fn hit_index(red: u8, green: u8, blue: u8) -> (r: Option<usize>)
    ensures
        match hit_index_spec(red, green, blue) {
            Some(i) => r == Some(i as usize),
            None => r is None,
        },
{
    let code = (red as usize) * 65536 + (green as usize) * 256 + (blue as usize);
    if code == 0 {
        None
    } else {
        Some(code - 1)
    }
}

/// Decoding a cell color gives back the rendered index it was made for.
pub proof fn law_hit_color_round_trip(index: int)
    requires
        0 <= index <= MAX_ENCODED_INDEX,
    ensures
        hit_color_spec(index) matches Some((r, g, b)) && hit_index_spec(r, g, b) == Some(index),
{
    let code = index + 1;
    assert(code == (code / 65536) * 65536 + ((code / 256) % 256) * 256 + code % 256) by (nonlinear_arith)
        requires
            0 < code <= 0xff_ffff,
    ;
    assert(code / 65536 < 256) by (nonlinear_arith)
        requires
            0 < code <= 0xff_ffff,
    ;
}

/// The position, in the row-major cells of a viewport at `(x, y)` of size
/// `width` by `height`, of the cell at `(column, row)`, when it lies inside.
pub fn cell_offset(x: u16, y: u16, width: u16, height: u16, column: u16, row: u16) -> (r: Option<usize>)
    ensures
        (x <= column < x + width && y <= row < y + height) ==> r == Some(
            ((row - y) * width + (column - x)) as usize,
        ),
        !(x <= column < x + width && y <= row < y + height) ==> r is None,
{
    if column < x || column - x >= width || row < y || row - y >= height {
        return None;
    }
    let dy = (row - y) as usize;
    let dx = (column - x) as usize;
    let w = width as usize;
    assert(dy * w <= 65535 * 65535) by (nonlinear_arith)
        requires
            dy <= 65535,
            w <= 65535,
    ;
    Some(dy * w + dx)
}

/// How many terminal columns a text takes.
pub uninterp spec fn display_width(text: Seq<char>) -> nat;

/// The displayed width of a grapheme, in terminal columns
/// (`UnicodeWidthStr::width` of unicode-width).
///
/// The contract names the result by the crate's width of the text; the
/// Unicode width tables it follows are not restated.
#[verifier::external_body]
pub(crate) fn text_width(text: &str) -> (w: usize)
    ensures
        w == display_width(text@),
{
    UnicodeWidthStr::width(text)
}

/// The rendered grapheme under a cell: the one the cell's color marks, or, on
/// the second cell of a double-width grapheme (the cell after it, not at the
/// viewport's left edge), that grapheme.
pub fn resolve_hit(
    projection: &Projection,
    direct: Option<usize>,
    at_left_edge: bool,
    previous: Option<usize>,
) -> (r: Option<usize>)
    ensures
        r == match direct {
            Some(i) => if i < projection@.len() && projection@[i as int].selectable { Some(i) } else {
                resolve_previous_spec(projection@, at_left_edge, previous)
            },
            None => resolve_previous_spec(projection@, at_left_edge, previous),
        },
{
    if let Some(i) = direct {
        if i < projection.len() && projection.get(i).is_selectable() {
            return Some(i);
        }
    }
    if at_left_edge {
        return None;
    }
    match previous {
        Some(j) => if j < projection.len() && projection.get(j).is_selectable() && text_width(
            projection.get(j).text(),
        ) > 1 {
            Some(j)
        } else {
            None
        },
        None => None,
    }
}

/// The double-width grapheme whose second cell is under the pointer, if any.
pub open spec fn resolve_previous_spec(gs: Seq<GraphemeModel>, at_left_edge: bool, previous: Option<usize>) -> Option<usize> {
    if at_left_edge {
        None
    } else {
        match previous {
            Some(j) => if j < gs.len() && gs[j as int].selectable && display_width(gs[j as int].text) > 1 {
                Some(j)
            } else {
                None
            },
            None => None,
        }
    }
}


/// A color of the design's palette.
#[derive(Debug, Clone, Copy, PartialEq, Eq, Structural)]
pub enum Token {
    /// Warm near-black terminal background.
    Canvas,
    /// Markdown body and primary labels.
    TextPrimary,
    /// Metadata and inactive help.
    TextMuted,
    /// Pane borders and separators.
    BorderQuiet,
    /// Persisted annotation background.
    MarkerYellow,
    /// Text on marker yellow.
    MarkerText,
    /// Active, unsaved visual selection.
    SelectionBlue,
    /// Text on the active selection.
    SelectionText,
    /// Focused control and followed link.
    FocusBlue,
    /// Successful save status.
    SuccessGreen,
    /// Rejected selection or failed operation.
    ErrorRed,
    /// Endnote and review panel background.
    NoteSurface,
}

/// The red, green and blue of a palette color.
pub open spec fn token_rgb(token: Token) -> (u8, u8, u8) {
    match token {
        Token::Canvas => (24, 23, 21),
        Token::TextPrimary => (235, 232, 225),
        Token::TextMuted => (166, 160, 151),
        Token::BorderQuiet => (76, 72, 66),
        Token::MarkerYellow => (246, 211, 101),
        Token::MarkerText => (34, 30, 20),
        Token::SelectionBlue => (55, 110, 166),
        Token::SelectionText => (245, 248, 252),
        Token::FocusBlue => (78, 161, 230),
        Token::SuccessGreen => (91, 181, 124),
        Token::ErrorRed => (224, 98, 98),
        Token::NoteSurface => (40, 38, 34),
    }
}

/// The red, green and blue of a palette color.
pub fn rgb(token: Token) -> (c: (u8, u8, u8))
    ensures
        c == token_rgb(token),
{
    match token {
        Token::Canvas => (24, 23, 21),
        Token::TextPrimary => (235, 232, 225),
        Token::TextMuted => (166, 160, 151),
        Token::BorderQuiet => (76, 72, 66),
        Token::MarkerYellow => (246, 211, 101),
        Token::MarkerText => (34, 30, 20),
        Token::SelectionBlue => (55, 110, 166),
        Token::SelectionText => (245, 248, 252),
        Token::FocusBlue => (78, 161, 230),
        Token::SuccessGreen => (91, 181, 124),
        Token::ErrorRed => (224, 98, 98),
        Token::NoteSurface => (40, 38, 34),
    }
}

/// How one terminal cell is drawn: optional foreground and background
/// colors and text modifiers.
#[derive(Debug, Clone, Copy, PartialEq, Eq)]
pub struct CellStyle {
    /// Foreground color, if one is set.
    pub fg: Option<(u8, u8, u8)>,
    /// Background color, if one is set.
    pub bg: Option<(u8, u8, u8)>,
    /// Bold text.
    pub bold: bool,
    /// Dim text.
    pub dim: bool,
    /// Reversed colors.
    pub reversed: bool,
    /// Underlined text.
    pub underlined: bool,
}

/// The terminal's own style: no colors, no modifiers.
pub open spec fn plain() -> CellStyle {
    CellStyle { fg: None, bg: None, bold: false, dim: false, reversed: false, underlined: false }
}

/// Foreground and background from the palette, without modifiers.
pub open spec fn colored(fg: Token, bg: Token) -> CellStyle {
    CellStyle { fg: Some(token_rgb(fg)), bg: Some(token_rgb(bg)), ..plain() }
}

fn plain_style() -> (s: CellStyle)
    ensures
        s == plain(),
{
    CellStyle { fg: None, bg: None, bold: false, dim: false, reversed: false, underlined: false }
}

fn colored_style(fg: Token, bg: Token) -> (s: CellStyle)
    ensures
        s == colored(fg, bg),
{
    CellStyle { fg: Some(rgb(fg)), bg: Some(rgb(bg)), bold: false, dim: false, reversed: false, underlined: false }
}

/// How a rendered grapheme of a kind is drawn. Without color, headings and
/// endnote labels are bold, annotations reversed and code dim.
pub open spec fn semantic_style_spec(kind: SemanticKind, no_color: bool) -> CellStyle {
    if no_color {
        match kind {
            SemanticKind::Heading | SemanticKind::ManagedNoteHeading | SemanticKind::EndnoteLabel => CellStyle {
                bold: true,
                ..plain()
            },
            SemanticKind::Annotation => CellStyle { reversed: true, ..plain() },
            SemanticKind::Code => CellStyle { dim: true, ..plain() },
            SemanticKind::Body | SemanticKind::ManagedNote | SemanticKind::Synthetic => plain(),
        }
    } else {
        match kind {
            SemanticKind::Body | SemanticKind::Synthetic => colored(Token::TextPrimary, Token::Canvas),
            SemanticKind::Heading => CellStyle { bold: true, ..colored(Token::TextPrimary, Token::Canvas) },
            SemanticKind::Code => colored(Token::TextPrimary, Token::NoteSurface),
            SemanticKind::Annotation => colored(Token::MarkerText, Token::MarkerYellow),
            SemanticKind::ManagedNote => colored(Token::TextPrimary, Token::NoteSurface),
            SemanticKind::ManagedNoteHeading => CellStyle {
                bold: true,
                ..colored(Token::TextPrimary, Token::NoteSurface)
            },
            SemanticKind::EndnoteLabel => CellStyle {
                bold: true,
                ..colored(Token::MarkerYellow, Token::NoteSurface)
            },
        }
    }
}

/// How a rendered grapheme of a kind is drawn.
pub fn semantic_style(kind: SemanticKind, no_color: bool) -> (s: CellStyle)
    ensures
        s == semantic_style_spec(kind, no_color),
{
    if no_color {
        let mut s = plain_style();
        match kind {
            SemanticKind::Heading | SemanticKind::ManagedNoteHeading | SemanticKind::EndnoteLabel => s.bold = true,
            SemanticKind::Annotation => s.reversed = true,
            SemanticKind::Code => s.dim = true,
            SemanticKind::Body | SemanticKind::ManagedNote | SemanticKind::Synthetic => {},
        }
        return s;
    }
    match kind {
        SemanticKind::Body | SemanticKind::Synthetic => colored_style(Token::TextPrimary, Token::Canvas),
        SemanticKind::Heading => {
            let mut s = colored_style(Token::TextPrimary, Token::Canvas);
            s.bold = true;
            s
        },
        SemanticKind::Code => colored_style(Token::TextPrimary, Token::NoteSurface),
        SemanticKind::Annotation => colored_style(Token::MarkerText, Token::MarkerYellow),
        SemanticKind::ManagedNote => colored_style(Token::TextPrimary, Token::NoteSurface),
        SemanticKind::ManagedNoteHeading => {
            let mut s = colored_style(Token::TextPrimary, Token::NoteSurface);
            s.bold = true;
            s
        },
        SemanticKind::EndnoteLabel => {
            let mut s = colored_style(Token::MarkerYellow, Token::NoteSurface);
            s.bold = true;
            s
        },
    }
}

/// How a rendered grapheme is drawn, given whether it is selected, under the
/// cursor, and whether the cursor is at a followed endnote. A selection
/// replaces the kind's style (reversed and bold without color); the cursor
/// adds an underline, and at a followed endnote also focus blue and bold.
pub open spec fn cell_style_spec(kind: SemanticKind, no_color: bool, selected: bool, cursor: bool, focused: bool) -> CellStyle {
    let base = semantic_style_spec(kind, no_color);
    let chosen = if !selected {
        base
    } else if no_color {
        CellStyle { reversed: true, bold: true, ..plain() }
    } else {
        CellStyle { bg: Some(token_rgb(Token::SelectionBlue)), fg: Some(token_rgb(Token::SelectionText)), ..plain() }
    };
    if !cursor {
        chosen
    } else if focused && !no_color {
        CellStyle { fg: Some(token_rgb(Token::FocusBlue)), bold: true, underlined: true, ..chosen }
    } else {
        CellStyle { underlined: true, ..chosen }
    }
}

/// How a rendered grapheme is drawn.
pub fn cell_style(kind: SemanticKind, no_color: bool, selected: bool, cursor: bool, focused: bool) -> (s: CellStyle)
    ensures
        s == cell_style_spec(kind, no_color, selected, cursor, focused),
{
    let mut s = semantic_style(kind, no_color);
    if selected {
        s = plain_style();
        if no_color {
            s.reversed = true;
            s.bold = true;
        } else {
            s.bg = Some(rgb(Token::SelectionBlue));
            s.fg = Some(rgb(Token::SelectionText));
        }
    }
    if cursor {
        if focused && !no_color {
            s.fg = Some(rgb(Token::FocusBlue));
            s.bold = true;
        }
        s.underlined = true;
    }
    s
}

/// How the status message is drawn: muted, green after a save, red and bold
/// for an error; without color only the error's bold remains.
pub open spec fn status_style_spec(tone: StatusTone, no_color: bool) -> CellStyle {
    match tone {
        StatusTone::Neutral => if no_color { plain() } else { CellStyle { fg: Some(token_rgb(Token::TextMuted)), ..plain() } },
        StatusTone::Success => if no_color { plain() } else { CellStyle { fg: Some(token_rgb(Token::SuccessGreen)), ..plain() } },
        StatusTone::Error => if no_color {
            CellStyle { bold: true, ..plain() }
        } else {
            CellStyle { fg: Some(token_rgb(Token::ErrorRed)), bold: true, ..plain() }
        },
    }
}

/// How the status message is drawn.
pub fn status_style(tone: StatusTone, no_color: bool) -> (s: CellStyle)
    ensures
        s == status_style_spec(tone, no_color),
{
    let mut s = plain_style();
    match tone {
        StatusTone::Neutral => if !no_color {
            s.fg = Some(rgb(Token::TextMuted));
        },
        StatusTone::Success => if !no_color {
            s.fg = Some(rgb(Token::SuccessGreen));
        },
        StatusTone::Error => {
            if !no_color {
                s.fg = Some(rgb(Token::ErrorRed));
            }
            s.bold = true;
        },
    }
    s
}

/// Without color nothing is colored: annotations are reversed, the selection
/// is reversed and bold, the cursor is underlined, and errors are bold.
pub proof fn law_no_color_fallbacks(kind: SemanticKind, selected: bool, cursor: bool, focused: bool, tone: StatusTone)
    ensures
        cell_style_spec(kind, true, selected, cursor, focused).fg is None,
        cell_style_spec(kind, true, selected, cursor, focused).bg is None,
        kind == SemanticKind::Annotation && !selected ==> cell_style_spec(kind, true, selected, cursor, focused).reversed,
        selected ==> cell_style_spec(kind, true, selected, cursor, focused).reversed
            && cell_style_spec(kind, true, selected, cursor, focused).bold,
        cursor ==> cell_style_spec(kind, true, selected, cursor, focused).underlined,
        status_style_spec(tone, true).fg is None,
        status_style_spec(StatusTone::Error, true).bold,
{
}

/// With color, persisted annotations are dark text on marker yellow, the
/// cursor is always underlined, and errors are red and bold.
pub proof fn law_color_semantics(kind: SemanticKind, selected: bool, cursor: bool, focused: bool)
    ensures
        cell_style_spec(SemanticKind::Annotation, false, false, false, focused).bg == Some(token_rgb(Token::MarkerYellow)),
        cell_style_spec(SemanticKind::Annotation, false, false, false, focused).fg == Some(token_rgb(Token::MarkerText)),
        cursor ==> cell_style_spec(kind, false, selected, cursor, focused).underlined,
        status_style_spec(StatusTone::Error, false) == (CellStyle { fg: Some(token_rgb(Token::ErrorRed)), bold: true, ..plain() }),
{
}

} // verus!
