//! Projection from rendered Markdown text to source byte ranges.

use std::ops::Range;

use vstd::prelude::*;
use vstd::utf8::*;

use crate::annotation_context::{managed_notes_of, managed_notes_range, range_matches};
use crate::events::{char_range, event_models, events_within, markdown_events, parse_extended, ElementKind, EventKind, EventModel, MarkdownEvent};
use crate::text::{
    chars_of, eq_ignore_ascii_case, grapheme_clusters, graphemes, slice_eq_ignore_ascii_case, string_views,
    trim, trim_bounds,
};

verus! {

/// Semantic rendering role for one grapheme.
#[derive(Debug, Clone, Copy, PartialEq, Eq, Structural)]
pub enum SemanticKind {
    /// Ordinary Markdown prose.
    Body,
    /// Heading text.
    Heading,
    /// Inline code that is visible but not selectable.
    Code,
    /// Persisted MD RedPen body highlight.
    Annotation,
    /// Ordinary prose inside the managed endnote block.
    ManagedNote,
    /// Managed endnote heading.
    ManagedNoteHeading,
    /// Strong label that introduces one managed endnote.
    EndnoteLabel,
    /// Renderer-created spacing or list marker.
    Synthetic,
}

/// A rendered grapheme that retains its source byte range.
#[derive(Debug, Clone, PartialEq, Eq)]
pub struct DisplayGrapheme {
    text: String,
    start: usize,
    end: usize,
    selectable: bool,
    paragraph: usize,
    semantic: SemanticKind,
    link_target: Option<String>,
}

/// Mathematical view of a [`DisplayGrapheme`].
pub struct GraphemeModel {
    pub text: Seq<char>,
    pub start: int,
    pub end: int,
    pub selectable: bool,
    pub paragraph: int,
    pub semantic: SemanticKind,
    pub link_target: Option<Seq<char>>,
}

/// The characters of an optional string.
pub open spec fn opt_chars(s: Option<String>) -> Option<Seq<char>> {
    match s {
        Some(t) => Some(t@),
        None => None,
    }
}

impl View for DisplayGrapheme {
    type V = GraphemeModel;

    closed spec fn view(&self) -> GraphemeModel {
        GraphemeModel {
            text: self.text@,
            start: self.start as int,
            end: self.end as int,
            selectable: self.selectable,
            paragraph: self.paragraph as int,
            semantic: self.semantic,
            link_target: opt_chars(self.link_target),
        }
    }
}

impl DisplayGrapheme {
    /// Returns the rendered grapheme.
    pub fn text(&self) -> (t: &str)
        ensures
            t@ == self@.text,
    {
        self.text.as_str()
    }

    /// Returns the half-open source byte range.
    pub fn source_range(&self) -> (r: Range<usize>)
        ensures
            r.start == self@.start,
            r.end == self@.end,
    {
        self.start..self.end
    }

    /// Reports whether selecting this grapheme is byte-exact.
    pub fn is_selectable(&self) -> (b: bool)
        ensures
            b == self@.selectable,
    {
        self.selectable
    }

    /// Returns the rendered Markdown paragraph identifier.
    pub fn paragraph(&self) -> (p: usize)
        ensures
            p == self@.paragraph,
    {
        self.paragraph
    }

    /// Returns the semantic rendering role.
    pub fn semantic(&self) -> (k: SemanticKind)
        ensures
            k == self@.semantic,
    {
        self.semantic
    }

    /// Returns the resolved Markdown link target, if any.
    pub fn link_target(&self) -> (t: Option<&str>)
        ensures
            match t {
                Some(s) => self@.link_target == Some(s@),
                None => self@.link_target is None,
            },
    {
        match &self.link_target {
            Some(target) => Some(target.as_str()),
            None => None,
        }
    }

    /// The start of the source range.
    pub fn source_start(&self) -> (s: usize)
        ensures
            s == self@.start,
    {
        self.start
    }

    /// The end of the source range.
    pub fn source_end(&self) -> (e: usize)
        ensures
            e == self@.end,
    {
        self.end
    }
}

/// The models of a vector of graphemes.
pub open spec fn grapheme_models(v: Seq<DisplayGrapheme>) -> Seq<GraphemeModel> {
    v.map_values(|g: DisplayGrapheme| g@)
}

/// Source-backed graphemes in rendered document order.
#[derive(Debug, Clone, PartialEq, Eq)]
pub struct Projection {
    graphemes: Vec<DisplayGrapheme>,
}

impl View for Projection {
    type V = Seq<GraphemeModel>;

    closed spec fn view(&self) -> Seq<GraphemeModel> {
        grapheme_models(self.graphemes@)
    }
}

impl Projection {
    /// Returns all rendered graphemes.
    pub fn graphemes(&self) -> (g: &[DisplayGrapheme])
        ensures
            grapheme_models(g@) == self@,
    {
        self.graphemes.as_slice()
    }

    /// The number of rendered graphemes.
    pub fn len(&self) -> (n: usize)
        ensures
            n == self@.len(),
    {
        self.graphemes.len()
    }

    /// The grapheme at a rendered index.
    pub fn get(&self, index: usize) -> (g: &DisplayGrapheme)
        requires
            index < self@.len(),
        ensures
            g@ == self@[index as int],
    {
        &self.graphemes[index]
    }
}

/// Failure while projecting rendered Markdown.
#[derive(Debug, PartialEq, Eq)]
pub enum ProjectionError {
    /// A parser range was not a valid UTF-8 source slice.
    InvalidSourceRange {
        /// Start byte.
        start: usize,
        /// End byte.
        end: usize,
    },
}

/// A renderer-created grapheme with an empty source range at `offset`.
pub open spec fn synthetic_model(text: Seq<char>, offset: int) -> GraphemeModel {
    GraphemeModel {
        text,
        start: offset,
        end: offset,
        selectable: false,
        paragraph: usize::MAX as int,
        semantic: SemanticKind::Synthetic,
        link_target: None,
    }
}

/// A line break that covers the source range of a soft or hard break.
pub open spec fn line_break_model(start: int, end: int) -> GraphemeModel {
    GraphemeModel {
        text: "\n"@,
        start,
        end,
        selectable: false,
        paragraph: usize::MAX as int,
        semantic: SemanticKind::Synthetic,
        link_target: None,
    }
}

/// `n` synthetic line breaks at `offset`.
pub open spec fn break_models(n: nat, offset: int) -> Seq<GraphemeModel> {
    Seq::new(n, |i: int| synthetic_model("\n"@, offset))
}

/// Graphemes of rendered text that is not a verbatim copy of its source: each
/// covers the whole event range and cannot be selected.
pub open spec fn lossy_models(
    rendered: Seq<char>,
    start: int,
    end: int,
    paragraph: int,
    semantic: SemanticKind,
    link: Option<Seq<char>>,
) -> Seq<GraphemeModel> {
    let clusters = grapheme_clusters(rendered);
    Seq::new(
        clusters.len(),
        |i: int|
            GraphemeModel {
                text: clusters[i],
                start,
                end,
                selectable: false,
                paragraph,
                semantic,
                link_target: link,
            },
    )
}

/// Graphemes of rendered text that is a verbatim copy of its source starting at
/// byte `start`: each covers exactly its own bytes and can be selected.
pub open spec fn exact_models(
    rendered: Seq<char>,
    start: int,
    paragraph: int,
    semantic: SemanticKind,
    link: Option<Seq<char>>,
) -> Seq<GraphemeModel> {
    let clusters = grapheme_clusters(rendered);
    Seq::new(
        clusters.len(),
        |i: int|
            {
                let offset = start + encode_utf8(clusters.take(i).flatten()).len();
                GraphemeModel {
                    text: clusters[i],
                    start: offset,
                    end: offset + encode_utf8(clusters[i]).len(),
                    selectable: true,
                    paragraph,
                    semantic,
                    link_target: link,
                }
            },
    )
}

/// The graphemes for one text event, or the error for a range that does not
/// slice the source.
pub open spec fn text_models(
    src: Seq<u8>,
    rendered: Seq<char>,
    start: int,
    end: int,
    paragraph: int,
    semantic: SemanticKind,
    link: Option<Seq<char>>,
) -> Result<Seq<GraphemeModel>, ProjectionError> {
    if !(start <= end <= src.len() && is_char_boundary(src, start) && is_char_boundary(src, end)) {
        Err(ProjectionError::InvalidSourceRange { start: start as usize, end: end as usize })
    } else if src.subrange(start, end) == encode_utf8(rendered) {
        Ok(exact_models(rendered, start, paragraph, semantic, link))
    } else {
        Ok(lossy_models(rendered, start, end, paragraph, semantic, link))
    }
}

/// The renderer's state between events.
pub struct ProjectState {
    pub out: Seq<GraphemeModel>,
    pub semantic: SemanticKind,
    pub marker: bool,
    pub strong: bool,
    pub link_target: Option<Seq<char>>,
    pub pending: u8,
    pub paragraph: usize,
    pub notes_started: bool,
}

/// The state before the first event.
pub open spec fn initial_state() -> ProjectState {
    ProjectState {
        out: Seq::empty(),
        semantic: SemanticKind::Body,
        marker: false,
        strong: false,
        link_target: None,
        pending: 0,
        paragraph: 0,
        notes_started: false,
    }
}

/// The larger of two pending break counts.
pub open spec fn max_u8(a: u8, b: u8) -> u8 {
    if a >= b { a } else { b }
}

/// Emits pending breaks before content at `offset`.
pub open spec fn flush_breaks(st: ProjectState, offset: int) -> ProjectState {
    ProjectState { out: st.out + break_models(st.pending as nat, offset), pending: 0, ..st }
}

/// The role of a text event's graphemes.
pub open spec fn text_semantic(st: ProjectState, in_notes: bool) -> SemanticKind {
    if st.marker {
        SemanticKind::Annotation
    } else if in_notes && st.strong {
        SemanticKind::EndnoteLabel
    } else if in_notes {
        if st.semantic == SemanticKind::Heading {
            SemanticKind::ManagedNoteHeading
        } else {
            SemanticKind::ManagedNote
        }
    } else {
        st.semantic
    }
}

/// An event starts inside the managed-notes block.
pub open spec fn in_notes_block(notes: Option<(int, int)>, e: EventModel) -> bool {
    match notes {
        Some((a, b)) => a <= e.start < b,
        None => false,
    }
}

/// How the renderer handles one event.
pub open spec fn project_step(src: Seq<u8>, notes: Option<(int, int)>, st0: ProjectState, e: EventModel) -> Result<ProjectState, ProjectionError> {
    let in_notes = in_notes_block(notes, e);
    let st = if in_notes && !st0.notes_started {
        ProjectState { pending: max_u8(st0.pending, 2), notes_started: true, ..st0 }
    } else {
        st0
    };
    match e.kind {
        EventKind::Start(ElementKind::Heading) => Ok(ProjectState { semantic: SemanticKind::Heading, ..st }),
        EventKind::End(ElementKind::Heading) => Ok(ProjectState {
            semantic: SemanticKind::Body,
            pending: max_u8(st.pending, 2),
            paragraph: st.paragraph.saturating_add(1),
            ..st
        }),
        EventKind::End(ElementKind::Paragraph) => Ok(ProjectState {
            pending: max_u8(st.pending, 1),
            paragraph: st.paragraph.saturating_add(1),
            ..st
        }),
        EventKind::End(ElementKind::Item) => Ok(ProjectState { pending: max_u8(st.pending, 1), ..st }),
        EventKind::Start(ElementKind::Item) => {
            let f = flush_breaks(st, e.start);
            Ok(ProjectState {
                out: f.out.push(synthetic_model("•"@, e.start)).push(synthetic_model(" "@, e.start)),
                ..f
            })
        },
        EventKind::Start(ElementKind::Link) => Ok(ProjectState { link_target: Some(e.text), ..st }),
        EventKind::End(ElementKind::Link) => Ok(ProjectState { link_target: None, ..st }),
        EventKind::Start(ElementKind::Strong) => Ok(ProjectState { strong: true, ..st }),
        EventKind::End(ElementKind::Strong) => Ok(ProjectState { strong: false, ..st }),
        EventKind::InlineHtml => if eq_ignore_ascii_case(trim(e.text), "<mark>"@) {
            Ok(ProjectState { marker: true, ..st })
        } else if eq_ignore_ascii_case(trim(e.text), "</mark>"@) {
            Ok(ProjectState { marker: false, ..st })
        } else {
            Ok(st)
        },
        EventKind::Text => {
            let f = flush_breaks(st, e.start);
            match text_models(src, e.text, e.start, e.end, f.paragraph as int, text_semantic(f, in_notes), f.link_target) {
                Ok(g) => Ok(ProjectState { out: f.out + g, ..f }),
                Err(err) => Err(err),
            }
        },
        EventKind::Code => {
            let f = flush_breaks(st, e.start);
            let kind = if in_notes { SemanticKind::ManagedNote } else { SemanticKind::Code };
            Ok(ProjectState {
                out: f.out + lossy_models(e.text, e.start, e.end, f.paragraph as int, kind, f.link_target),
                ..f
            })
        },
        EventKind::SoftBreak | EventKind::HardBreak => Ok(ProjectState {
            out: st.out.push(line_break_model(e.start, e.end)),
            pending: 0,
            ..st
        }),
        EventKind::Rule => {
            let f = flush_breaks(st, e.start);
            Ok(ProjectState { out: f.out.push(synthetic_model("─"@, e.start)), pending: 1, ..f })
        },
        _ => Ok(st),
    }
}

/// The renderer's state after a sequence of events, or its first error.
pub open spec fn project_events(src: Seq<u8>, notes: Option<(int, int)>, events: Seq<EventModel>) -> Result<ProjectState, ProjectionError>
    decreases events.len(),
{
    if events.len() == 0 {
        Ok(initial_state())
    } else {
        match project_events(src, notes, events.drop_last()) {
            Ok(st) => project_step(src, notes, st, events.last()),
            Err(e) => Err(e),
        }
    }
}

/// The projection of a Markdown source: the rendered graphemes of its extended
/// parse, with the managed-notes block located by the plain parse.
pub open spec fn projection_spec(source: Seq<char>) -> Result<Seq<GraphemeModel>, ProjectionError> {
    match project_events(encode_utf8(source), managed_notes_of(source), markdown_events(source, true)) {
        Ok(st) => Ok(st.out),
        Err(e) => Err(e),
    }
}

/// A grapheme that can be selected covers a non-empty source range on
/// character boundaries and shows exactly the source bytes of it.
pub open spec fn faithful(src: Seq<u8>, g: GraphemeModel) -> bool {
    g.selectable ==> char_range(src, g.start, g.end) && g.start < g.end && src.subrange(g.start, g.end) == encode_utf8(
        g.text,
    )
}

/// Every grapheme of a sequence is [`faithful`].
pub open spec fn all_faithful(src: Seq<u8>, gs: Seq<GraphemeModel>) -> bool {
    forall|i: int| 0 <= i < gs.len() ==> faithful(src, #[trigger] gs[i])
}

/// Inside a verbatim source range, each cluster occupies exactly its own bytes.
proof fn lemma_cluster_bytes(src: Seq<u8>, start: int, end: int, views: Seq<Seq<char>>, i: int)
    requires
        0 <= start <= end <= src.len(),
        src.subrange(start, end) == encode_utf8(views.flatten()),
        0 <= i < views.len(),
    ensures
        ({
            let off = start + encode_utf8(views.take(i).flatten()).len();
            &&& off + encode_utf8(views[i]).len() <= end
            &&& src.subrange(off, off + encode_utf8(views[i]).len()) == encode_utf8(views[i])
        }),
{
    let a = encode_utf8(views.take(i).flatten());
    let b = encode_utf8(views[i]);
    let c = encode_utf8(views.skip(i + 1).flatten());
    vstd::seq_lib::lemma_flatten_concat(views.take(i + 1), views.skip(i + 1));
    assert(views.take(i + 1) + views.skip(i + 1) =~= views);
    assert(views.take(i + 1) =~= views.take(i).push(views[i]));
    views.take(i).lemma_flatten_push(views[i]);
    crate::text::lemma_encode_concat(views.take(i).flatten(), views[i]);
    crate::text::lemma_encode_concat(views.take(i + 1).flatten(), views.skip(i + 1).flatten());
    assert(src.subrange(start, end) =~= a + b + c);
    let off = start + a.len();
    assert(src.subrange(off, off + b.len()) =~= (a + b + c).subrange(a.len() as int, (a.len() + b.len()) as int));
    assert((a + b + c).subrange(a.len() as int, (a.len() + b.len()) as int) =~= b);
}

fn model_of_link(link_target: Option<&str>) -> (r: Option<String>)
    ensures
        opt_chars(r) == match link_target {
            Some(t) => Some(t@),
            None => None::<Seq<char>>,
        },
{
    match link_target {
        Some(t) => Some(t.to_owned()),
        None => None,
    }
}

/// The characters of an optional string slice.
pub open spec fn opt_str_chars(s: Option<&str>) -> Option<Seq<char>> {
    match s {
        Some(t) => Some(t@),
        None => None,
    }
}

/// Appends a renderer-created grapheme.
pub(crate) fn push_synthetic(output: &mut Vec<DisplayGrapheme>, text: &str, source_offset: usize)
    ensures
        grapheme_models(final(output)@) == grapheme_models(old(output)@).push(synthetic_model(text@, source_offset as int)),
{
    output.push(DisplayGrapheme {
        text: text.to_owned(),
        start: source_offset,
        end: source_offset,
        selectable: false,
        paragraph: usize::MAX,
        semantic: SemanticKind::Synthetic,
        link_target: None,
    });
    assert(grapheme_models(output@) =~= grapheme_models(old(output)@).push(synthetic_model(text@, source_offset as int)));
}

/// Emits the pending line breaks.
pub(crate) fn push_pending_breaks(output: &mut Vec<DisplayGrapheme>, pending: &mut u8, source_offset: usize)
    ensures
        grapheme_models(final(output)@) == grapheme_models(old(output)@) + break_models(*old(pending) as nat, source_offset as int),
        *final(pending) == 0,
{
    let n = *pending;
    let mut i: u8 = 0;
    while i < n
        invariant
            i <= n,
            n == *old(pending),
            grapheme_models(output@) == grapheme_models(old(output)@) + break_models(i as nat, source_offset as int),
        decreases n - i,
    {
        push_synthetic(output, "\n", source_offset);
        assert(break_models((i + 1) as nat, source_offset as int) =~= break_models(i as nat, source_offset as int).push(synthetic_model("\n"@, source_offset as int)));
        i = i + 1;
    }
    *pending = 0;
}

/// Appends a line break that covers a soft or hard break.
pub(crate) fn push_line_break(output: &mut Vec<DisplayGrapheme>, source: Range<usize>)
    ensures
        grapheme_models(final(output)@) == grapheme_models(old(output)@).push(line_break_model(source.start as int, source.end as int)),
{
    output.push(DisplayGrapheme {
        text: "\n".to_owned(),
        start: source.start,
        end: source.end,
        selectable: false,
        paragraph: usize::MAX,
        semantic: SemanticKind::Synthetic,
        link_target: None,
    });
    assert(grapheme_models(output@) =~= grapheme_models(old(output)@).push(line_break_model(source.start as int, source.end as int)));
}

/// Appends non-selectable graphemes of rendered text that covers `range`.
pub(crate) fn project_lossy_event(
    rendered: &str,
    range: Range<usize>,
    paragraph: usize,
    semantic: SemanticKind,
    link_target: Option<&str>,
    output: &mut Vec<DisplayGrapheme>,
)
    ensures
        grapheme_models(final(output)@) == grapheme_models(old(output)@) + lossy_models(
            rendered@,
            range.start as int,
            range.end as int,
            paragraph as int,
            semantic,
            opt_str_chars(link_target),
        ),
{
    let clusters = graphemes(rendered);
    let ghost views = string_views(clusters@);
    let ghost expected = lossy_models(rendered@, range.start as int, range.end as int, paragraph as int, semantic, opt_str_chars(link_target));
    let mut i: usize = 0;
    while i < clusters.len()
        invariant
            i <= clusters.len(),
            views == string_views(clusters@),
            views == grapheme_clusters(rendered@),
            expected == lossy_models(rendered@, range.start as int, range.end as int, paragraph as int, semantic, opt_str_chars(link_target)),
            grapheme_models(output@) == grapheme_models(old(output)@) + expected.take(i as int),
        decreases clusters.len() - i,
    {
        let link = model_of_link(link_target);
        let item = DisplayGrapheme {
            text: clusters[i].clone(),
            start: range.start,
            end: range.end,
            selectable: false,
            paragraph,
            semantic,
            link_target: link,
        };
        assert(views[i as int] == clusters@[i as int]@);
        assert(item@ == expected[i as int]);
        let ghost before = output@;
        output.push(item);
        assert(grapheme_models(output@) =~= grapheme_models(before).push(item@));
        assert(expected.take(i + 1) =~= expected.take(i as int).push(expected[i as int]));
        assert(grapheme_models(output@) =~= grapheme_models(old(output)@) + expected.take(i + 1));
        i = i + 1;
    }
    assert(expected.take(i as int) =~= expected);
}

/// Whether `source[start..end]` holds exactly the bytes of `rendered`.
fn same_bytes(source: &[u8], start: usize, end: usize, rendered: &[u8]) -> (r: bool)
    requires
        start <= end <= source@.len(),
    ensures
        r == (source@.subrange(start as int, end as int) == rendered@),
{
    if end - start != rendered.len() {
        return false;
    }
    let mut i: usize = 0;
    while i < rendered.len()
        invariant
            end - start == rendered@.len(),
            start <= end <= source@.len(),
            i <= rendered@.len(),
            forall|j: int| 0 <= j < i ==> #[trigger] source@[start + j] == rendered@[j],
        decreases rendered@.len() - i,
    {
        if source[start + i] != rendered[i] {
            assert(source@.subrange(start as int, end as int)[i as int] != rendered@[i as int]);
            return false;
        }
        i = i + 1;
    }
    assert(source@.subrange(start as int, end as int) =~= rendered@) by {
        assert forall|j: int| 0 <= j < rendered@.len() implies #[trigger] source@.subrange(
            start as int,
            end as int,
        )[j] == rendered@[j] by {
            assert(source@[start + j] == rendered@[j]);
        }
    }
    true
}

/// The byte length of a prefix of clusters grows by each cluster's length.
proof fn lemma_prefix_bytes(clusters: Seq<Seq<char>>, i: int)
    requires
        0 <= i < clusters.len(),
    ensures
        encode_utf8(clusters.take(i + 1).flatten()) == encode_utf8(clusters.take(i).flatten()) + encode_utf8(clusters[i]),
{
    assert(clusters.take(i + 1) =~= clusters.take(i).push(clusters[i]));
    clusters.take(i).lemma_flatten_push(clusters[i]);
    crate::text::lemma_encode_concat(clusters.take(i).flatten(), clusters[i]);
}

/// The bytes of all clusters start with the bytes of a prefix of them.
proof fn lemma_prefix_bound(clusters: Seq<Seq<char>>, i: int)
    requires
        0 <= i <= clusters.len(),
    ensures
        encode_utf8(clusters.take(i).flatten()).len() <= encode_utf8(clusters.flatten()).len(),
{
    vstd::seq_lib::lemma_flatten_concat(clusters.take(i), clusters.skip(i));
    assert(clusters.take(i) + clusters.skip(i) =~= clusters);
    crate::text::lemma_encode_concat(clusters.take(i).flatten(), clusters.skip(i).flatten());
}

/// A non-empty run of whole characters inside valid UTF-8 starts on a
/// character boundary.
proof fn lemma_encoding_starts_char(src: Seq<u8>, off: int, chars: Seq<char>)
    requires
        valid_utf8(src),
        chars.len() > 0,
        0 <= off,
        off + encode_utf8(chars).len() <= src.len(),
        src.subrange(off, off + encode_utf8(chars).len()) == encode_utf8(chars),
    ensures
        is_char_boundary(src, off),
{
    let b = encode_utf8(chars);
    encode_utf8_first_scalar(chars);
    assert(b.len() >= 1);
    assert(src[off] == b[0]) by {
        assert(src.subrange(off, off + b.len())[0] == src[off]);
    }
    is_char_boundary_iff_is_leading_byte(src, off);
}

/// Appends the graphemes of one text event.
pub(crate) fn project_event(
    source: &str,
    rendered: &str,
    range: Range<usize>,
    paragraph: usize,
    semantic: SemanticKind,
    link_target: Option<&str>,
    output: &mut Vec<DisplayGrapheme>,
) -> (r: Result<(), ProjectionError>)
    ensures
        match text_models(
            encode_utf8(source@),
            rendered@,
            range.start as int,
            range.end as int,
            paragraph as int,
            semantic,
            opt_str_chars(link_target),
        ) {
            Ok(g) => r is Ok && grapheme_models(final(output)@) == grapheme_models(old(output)@) + g,
            Err(e) => r == Err::<(), ProjectionError>(e),
        },
        r is Ok && all_faithful(encode_utf8(source@), grapheme_models(old(output)@)) ==> all_faithful(
            encode_utf8(source@),
            grapheme_models(final(output)@),
        ),
{
    let src = source.as_bytes();
    if !(range.start <= range.end && range.end <= src.len() && source.is_char_boundary(range.start)
        && source.is_char_boundary(range.end)) {
        return Err(ProjectionError::InvalidSourceRange { start: range.start, end: range.end });
    }
    let rendered_bytes = rendered.as_bytes();
    if same_bytes(src, range.start, range.end, rendered_bytes) {
        let clusters = graphemes(rendered);
        let ghost views = string_views(clusters@);
        let ghost expected = exact_models(rendered@, range.start as int, paragraph as int, semantic, opt_str_chars(link_target));
        let mut offset = range.start;
        let mut i: usize = 0;
        assert(views.take(0) =~= Seq::<Seq<char>>::empty());
        assert(encode_utf8(Seq::<char>::empty()) =~= Seq::<u8>::empty());
        proof {
            encode_utf8_valid_utf8(source@);
        }
        while i < clusters.len()
            invariant
                i <= clusters.len(),
                views == string_views(clusters@),
                views == grapheme_clusters(rendered@),
                forall|j: int| 0 <= j < clusters@.len() ==> (#[trigger] clusters@[j])@.len() > 0,
                views.flatten() == rendered@,
                range.end - range.start == encode_utf8(rendered@).len(),
                range.start <= range.end,
                expected == exact_models(rendered@, range.start as int, paragraph as int, semantic, opt_str_chars(link_target)),
                offset == range.start + encode_utf8(views.take(i as int).flatten()).len(),
                grapheme_models(output@) == grapheme_models(old(output)@) + expected.take(i as int),
                range.end <= src@.len(),
                src@ == encode_utf8(source@),
                src@.subrange(range.start as int, range.end as int) == encode_utf8(rendered@),
                valid_utf8(src@),
                is_char_boundary(src@, range.end as int),
                is_char_boundary(src@, offset as int),
                all_faithful(src@, grapheme_models(old(output)@)) ==> all_faithful(src@, grapheme_models(output@)),
            decreases clusters.len() - i,
        {
            proof {
                lemma_prefix_bytes(views, i as int);
                lemma_prefix_bound(views, i + 1);
                lemma_cluster_bytes(src@, range.start as int, range.end as int, views, i as int);
                let next = range.start + encode_utf8(views.take(i + 1).flatten()).len();
                if i + 1 < views.len() {
                    lemma_cluster_bytes(src@, range.start as int, range.end as int, views, i + 1);
                    assert(views[i + 1] == clusters@[i + 1]@);
                    lemma_encoding_starts_char(src@, next, views[i + 1]);
                } else {
                    assert(views.take(i + 1) =~= views);
                }
                assert(is_char_boundary(src@, next));
            }
            let g = &clusters[i];
            let length = g.as_str().len();
            let link = model_of_link(link_target);
            let item = DisplayGrapheme {
                text: g.clone(),
                start: offset,
                end: offset + length,
                selectable: true,
                paragraph,
                semantic,
                link_target: link,
            };
            assert(views[i as int] == clusters@[i as int]@);
            assert(encode_utf8(views[i as int]).len() > 0);
            assert(item@ == expected[i as int]);
            let ghost before = output@;
            output.push(item);
            assert(grapheme_models(output@) =~= grapheme_models(before).push(item@));
            assert(expected.take(i + 1) =~= expected.take(i as int).push(expected[i as int]));
            assert(grapheme_models(output@) =~= grapheme_models(old(output)@) + expected.take(i + 1));
            assert(faithful(src@, item@));
            offset = offset + length;
            i = i + 1;
        }
        assert(expected.take(i as int) =~= expected);
    } else {
        project_lossy_event(rendered, range, paragraph, semantic, link_target, output);
    }
    Ok(())
}

/// The offsets of an optional range.
pub open spec fn range_pair(r: Option<Range<usize>>) -> Option<(int, int)> {
    match r {
        Some(x) => Some((x.start as int, x.end as int)),
        None => None,
    }
}

/// The renderer's executable state.
struct Renderer {
    graphemes: Vec<DisplayGrapheme>,
    semantic: SemanticKind,
    marker: bool,
    strong: bool,
    link_target: Option<String>,
    pending: u8,
    paragraph: usize,
    notes_started: bool,
}

impl Renderer {
    spec fn model(&self) -> ProjectState {
        ProjectState {
            out: grapheme_models(self.graphemes@),
            semantic: self.semantic,
            marker: self.marker,
            strong: self.strong,
            link_target: opt_chars(self.link_target),
            pending: self.pending,
            paragraph: self.paragraph,
            notes_started: self.notes_started,
        }
    }
}

fn link_ref(link_target: &Option<String>) -> (r: Option<&str>)
    ensures
        opt_str_chars(r) == opt_chars(*link_target),
{
    match link_target {
        Some(t) => Some(t.as_str()),
        None => None,
    }
}

/// Applies one event to the renderer.
fn render_step(
    source: &str,
    notes: &Option<Range<usize>>,
    open_mark: &Vec<char>,
    close_mark: &Vec<char>,
    r: &mut Renderer,
    e: &MarkdownEvent,
) -> (res: Result<(), ProjectionError>)
    requires
        open_mark@ == "<mark>"@,
        close_mark@ == "</mark>"@,
    ensures
        match project_step(encode_utf8(source@), range_pair(*notes), old(r).model(), e@) {
            Ok(st) => res is Ok && final(r).model() == st,
            Err(err) => res == Err::<(), ProjectionError>(err),
        },
        res is Ok && all_faithful(encode_utf8(source@), old(r).model().out) ==> all_faithful(
            encode_utf8(source@),
            final(r).model().out,
        ),
{
    let in_notes = match notes {
        Some(n) => n.start <= e.start && e.start < n.end,
        None => false,
    };
    if in_notes && !r.notes_started {
        r.pending = if r.pending >= 2 { r.pending } else { 2 };
        r.notes_started = true;
    }
    match e.kind {
        EventKind::Start(ElementKind::Heading) => r.semantic = SemanticKind::Heading,
        EventKind::End(ElementKind::Heading) => {
            r.semantic = SemanticKind::Body;
            r.pending = if r.pending >= 2 { r.pending } else { 2 };
            r.paragraph = r.paragraph.saturating_add(1);
        },
        EventKind::End(ElementKind::Paragraph) => {
            r.pending = if r.pending >= 1 { r.pending } else { 1 };
            r.paragraph = r.paragraph.saturating_add(1);
        },
        EventKind::End(ElementKind::Item) => {
            r.pending = if r.pending >= 1 { r.pending } else { 1 };
        },
        EventKind::Start(ElementKind::Item) => {
            push_pending_breaks(&mut r.graphemes, &mut r.pending, e.start);
            push_synthetic(&mut r.graphemes, "•", e.start);
            push_synthetic(&mut r.graphemes, " ", e.start);
        },
        EventKind::Start(ElementKind::Link) => r.link_target = Some(e.text.clone()),
        EventKind::End(ElementKind::Link) => r.link_target = None,
        EventKind::Start(ElementKind::Strong) => r.strong = true,
        EventKind::End(ElementKind::Strong) => r.strong = false,
        EventKind::InlineHtml => {
            let text = chars_of(e.text.as_str());
            let (a, b) = trim_bounds(&text);
            if slice_eq_ignore_ascii_case(&text, a, b, open_mark) {
                r.marker = true;
            } else if slice_eq_ignore_ascii_case(&text, a, b, close_mark) {
                r.marker = false;
            }
        },
        EventKind::Text => {
            push_pending_breaks(&mut r.graphemes, &mut r.pending, e.start);
            let kind = if r.marker {
                SemanticKind::Annotation
            } else if in_notes && r.strong {
                SemanticKind::EndnoteLabel
            } else if in_notes {
                if r.semantic == SemanticKind::Heading {
                    SemanticKind::ManagedNoteHeading
                } else {
                    SemanticKind::ManagedNote
                }
            } else {
                r.semantic
            };
            let link = link_ref(&r.link_target);
            return project_event(source, e.text.as_str(), e.start..e.end, r.paragraph, kind, link, &mut r.graphemes);
        },
        EventKind::Code => {
            push_pending_breaks(&mut r.graphemes, &mut r.pending, e.start);
            let kind = if in_notes { SemanticKind::ManagedNote } else { SemanticKind::Code };
            let link = link_ref(&r.link_target);
            project_lossy_event(e.text.as_str(), e.start..e.end, r.paragraph, kind, link, &mut r.graphemes);
        },
        EventKind::SoftBreak | EventKind::HardBreak => {
            push_line_break(&mut r.graphemes, e.start..e.end);
            r.pending = 0;
        },
        EventKind::Rule => {
            push_pending_breaks(&mut r.graphemes, &mut r.pending, e.start);
            push_synthetic(&mut r.graphemes, "─", e.start);
            r.pending = 1;
        },
        _ => {},
    }
    Ok(())
}

/// Once the renderer fails, the whole projection fails with the same error.
proof fn lemma_error_stable(src: Seq<u8>, notes: Option<(int, int)>, events: Seq<EventModel>, k: int)
    requires
        0 <= k <= events.len(),
        project_events(src, notes, events.take(k)) is Err,
    ensures
        project_events(src, notes, events) == project_events(src, notes, events.take(k)),
    decreases events.len() - k,
{
    if k == events.len() {
        assert(events.take(k) =~= events);
    } else {
        assert(events.take(k + 1).drop_last() =~= events.take(k));
        lemma_error_stable(src, notes, events, k + 1);
    }
}


/// Every rendered grapheme's source range is a [`char_range`] of the source bytes `src`.
pub open spec fn within_source(src: Seq<u8>, gs: Seq<GraphemeModel>) -> bool {
    forall|i: int| 0 <= i < gs.len() ==> char_range(src, #[trigger] gs[i].start, gs[i].end)
}

/// Every grapheme that cannot be selected has a [`char_range`] of the source bytes `src`.
pub open spec fn unselectable_within(src: Seq<u8>, gs: Seq<GraphemeModel>) -> bool {
    forall|i: int| 0 <= i < gs.len() && !(#[trigger] gs[i]).selectable ==> char_range(src, gs[i].start, gs[i].end)
}

proof fn lemma_step_within(src: Seq<u8>, notes: Option<(int, int)>, st: ProjectState, e: EventModel)
    requires
        unselectable_within(src, st.out),
        char_range(src, e.start, e.end),
    ensures
        project_step(src, notes, st, e) matches Ok(st2) ==> unselectable_within(src, st2.out),
{
    let in_notes = in_notes_block(notes, e);
    let s1 = if in_notes && !st.notes_started {
        ProjectState { pending: max_u8(st.pending, 2), notes_started: true, ..st }
    } else {
        st
    };
    let f = flush_breaks(s1, e.start);
    assert(unselectable_within(src, f.out)) by {
        let b = break_models(s1.pending as nat, e.start);
        assert forall|i: int| 0 <= i < f.out.len() && !(#[trigger] f.out[i]).selectable implies char_range(src, f.out[i].start, f.out[i].end) by {
            if i >= s1.out.len() {
                assert(f.out[i] == b[i - s1.out.len()]);
            }
        }
    }
    match e.kind {
        EventKind::Start(ElementKind::Item) => {
            let out = f.out.push(synthetic_model("•"@, e.start)).push(synthetic_model(" "@, e.start));
            assert(unselectable_within(src, out)) by {
                assert forall|i: int| 0 <= i < out.len() && !(#[trigger] out[i]).selectable implies char_range(src, out[i].start, out[i].end) by {
                    if i < f.out.len() {
                        assert(out[i] == f.out[i]);
                    }
                }
            }
        },
        EventKind::Text => {
            match text_models(src, e.text, e.start, e.end, f.paragraph as int, text_semantic(f, in_notes), f.link_target) {
                Ok(g) => {
                    let out = f.out + g;
                    assert(unselectable_within(src, out)) by {
                        assert forall|i: int| 0 <= i < out.len() && !(#[trigger] out[i]).selectable implies char_range(src, out[i].start, out[i].end) by {
                            if i >= f.out.len() {
                                assert(out[i] == g[i - f.out.len()]);
                            }
                        }
                    }
                },
                Err(_) => {},
            }
        },
        EventKind::Code => {
            let kind = if in_notes { SemanticKind::ManagedNote } else { SemanticKind::Code };
            let g = lossy_models(e.text, e.start, e.end, f.paragraph as int, kind, f.link_target);
            let out = f.out + g;
            assert(unselectable_within(src, out)) by {
                assert forall|i: int| 0 <= i < out.len() && !(#[trigger] out[i]).selectable implies char_range(src, out[i].start, out[i].end) by {
                    if i >= f.out.len() {
                        assert(out[i] == g[i - f.out.len()]);
                    }
                }
            }
        },
        EventKind::SoftBreak | EventKind::HardBreak => {
            let out = s1.out.push(line_break_model(e.start, e.end));
            assert(unselectable_within(src, out)) by {
                assert forall|i: int| 0 <= i < out.len() && !(#[trigger] out[i]).selectable implies char_range(src, out[i].start, out[i].end) by {
                    if i < s1.out.len() {
                        assert(out[i] == s1.out[i]);
                    }
                }
            }
        },
        EventKind::Rule => {
            let out = f.out.push(synthetic_model("─"@, e.start));
            assert(unselectable_within(src, out)) by {
                assert forall|i: int| 0 <= i < out.len() && !(#[trigger] out[i]).selectable implies char_range(src, out[i].start, out[i].end) by {
                    if i < f.out.len() {
                        assert(out[i] == f.out[i]);
                    }
                }
            }
        },
        _ => {},
    }
}

proof fn lemma_events_within(src: Seq<u8>, notes: Option<(int, int)>, events: Seq<EventModel>)
    requires
        events_within(events, src),
    ensures
        project_events(src, notes, events) matches Ok(st) ==> unselectable_within(src, st.out),
    decreases events.len(),
{
    if events.len() > 0 {
        let prefix = events.drop_last();
        assert(events_within(prefix, src)) by {
            assert forall|i: int| 0 <= i < prefix.len() implies char_range(src, #[trigger] prefix[i].start, prefix[i].end) by {
                assert(prefix[i] == events[i]);
            }
        }
        lemma_events_within(src, notes, prefix);
        match project_events(src, notes, prefix) {
            Ok(st) => {
                assert(events[events.len() - 1] == events.last());
                lemma_step_within(src, notes, st, events.last());
            },
            Err(_) => {},
        }
    }
}

/// Renders already parsed events: `events` from the extended parse and `notes`
/// the managed-notes block.
pub fn project_parsed(source: &str, events: &Vec<MarkdownEvent>, notes: Option<Range<usize>>) -> (r: Result<Projection, ProjectionError>)
    ensures
        match project_events(encode_utf8(source@), range_pair(notes), event_models(events@)) {
            Ok(st) => r matches Ok(p) && p@ == st.out,
            Err(e) => r == Err::<Projection, ProjectionError>(e),
        },
        r matches Ok(p) ==> all_faithful(encode_utf8(source@), p@),
{
    let open_mark = chars_of("<mark>");
    let close_mark = chars_of("</mark>");
    let ghost src = encode_utf8(source@);
    let ghost models = event_models(events@);
    let mut r = Renderer {
        graphemes: Vec::new(),
        semantic: SemanticKind::Body,
        marker: false,
        strong: false,
        link_target: None,
        pending: 0,
        paragraph: 0,
        notes_started: false,
    };
    assert(grapheme_models(r.graphemes@) =~= Seq::<GraphemeModel>::empty());
    assert(models.take(0) =~= Seq::<EventModel>::empty());
    let mut i: usize = 0;
    while i < events.len()
        invariant
            i <= events.len(),
            models == event_models(events@),
            src == encode_utf8(source@),
            open_mark@ == "<mark>"@,
            close_mark@ == "</mark>"@,
            project_events(src, range_pair(notes), models.take(i as int)) == Ok::<ProjectState, ProjectionError>(r.model()),
            all_faithful(src, r.model().out),
        decreases events.len() - i,
    {
        assert(models.take(i + 1).drop_last() =~= models.take(i as int));
        assert(models.take(i + 1).last() == events@[i as int]@);
        match render_step(source, &notes, &open_mark, &close_mark, &mut r, &events[i]) {
            Ok(()) => {},
            Err(e) => {
                proof {
                    lemma_error_stable(src, range_pair(notes), models, i + 1);
                }
                return Err(e);
            },
        }
        i = i + 1;
    }
    assert(models.take(i as int) =~= models);
    Ok(Projection { graphemes: r.graphemes })
}

/// Projects rendered Markdown text to source-backed graphemes.
pub fn project_text(source: &str) -> (r: Result<Projection, ProjectionError>)
    ensures
        match projection_spec(source@) {
            Ok(g) => r matches Ok(p) && p@ == g,
            Err(e) => r == Err::<Projection, ProjectionError>(e),
        },
        r matches Ok(p) ==> all_faithful(encode_utf8(source@), p@),
        r matches Ok(p) ==> within_source(encode_utf8(source@), p@),
{
    let events = parse_extended(source);
    let notes = managed_notes_range(source);
    assert(range_pair(notes) == managed_notes_of(source@));
    let r = project_parsed(source, &events, notes);
    proof {
        let src = encode_utf8(source@);
        lemma_events_within(src, range_pair(notes), event_models(events@));
        if let Ok(ref p) = r {
            assert forall|i: int| 0 <= i < p@.len() implies char_range(src, #[trigger] p@[i].start, p@[i].end) by {
                assert(faithful(src, p@[i]));
            }
        }
    }
    r
}

/// One rendering step never lowers the paragraph id, only appends graphemes,
/// gives every new selectable grapheme the paragraph id it started with, and,
/// at the end of a heading or paragraph, moves to the next id.
proof fn lemma_step_paragraphs(src: Seq<u8>, notes: Option<(int, int)>, st: ProjectState, e: EventModel)
    ensures
        project_step(src, notes, st, e) matches Ok(st2) ==> {
            &&& st.paragraph <= st2.paragraph
            &&& st.out.len() <= st2.out.len()
            &&& st2.out.subrange(0, st.out.len() as int) == st.out
            &&& forall|j: int|
                st.out.len() <= j < st2.out.len() && (#[trigger] st2.out[j]).selectable ==> st2.out[j].paragraph
                    == st.paragraph
            &&& (e.kind == EventKind::End(ElementKind::Heading) || e.kind == EventKind::End(ElementKind::Paragraph))
                ==> st2.out == st.out && (st.paragraph < usize::MAX ==> st2.paragraph == st.paragraph + 1)
        },
{
    let in_notes = in_notes_block(notes, e);
    let s1 = if in_notes && !st.notes_started {
        ProjectState { pending: max_u8(st.pending, 2), notes_started: true, ..st }
    } else {
        st
    };
    let f = flush_breaks(s1, e.start);
    let b = break_models(s1.pending as nat, e.start);
    assert(f.out.subrange(0, st.out.len() as int) =~= st.out);
    match e.kind {
        EventKind::Start(ElementKind::Item) => {
            let out = f.out.push(synthetic_model("•"@, e.start)).push(synthetic_model(" "@, e.start));
            assert(out.subrange(0, st.out.len() as int) =~= st.out);
            assert forall|j: int| st.out.len() <= j < out.len() && (#[trigger] out[j]).selectable implies out[j].paragraph
                == st.paragraph by {
                if j < f.out.len() {
                    assert(out[j] == b[j - st.out.len()]);
                }
            }
        },
        EventKind::Text => {
            match text_models(src, e.text, e.start, e.end, f.paragraph as int, text_semantic(f, in_notes), f.link_target) {
                Ok(g) => {
                    let out = f.out + g;
                    assert(out.subrange(0, st.out.len() as int) =~= st.out);
                    assert forall|j: int| st.out.len() <= j < out.len() && (#[trigger] out[j]).selectable implies out[j].paragraph
                        == st.paragraph by {
                        if j < f.out.len() {
                            assert(out[j] == b[j - st.out.len()]);
                        } else {
                            assert(out[j] == g[j - f.out.len()]);
                        }
                    }
                },
                Err(_) => {},
            }
        },
        EventKind::Code => {
            let kind = if in_notes { SemanticKind::ManagedNote } else { SemanticKind::Code };
            let g = lossy_models(e.text, e.start, e.end, f.paragraph as int, kind, f.link_target);
            let out = f.out + g;
            assert(out.subrange(0, st.out.len() as int) =~= st.out);
            assert forall|j: int| st.out.len() <= j < out.len() && (#[trigger] out[j]).selectable implies out[j].paragraph
                == st.paragraph by {
                if j < f.out.len() {
                    assert(out[j] == b[j - st.out.len()]);
                } else {
                    assert(out[j] == g[j - f.out.len()]);
                }
            }
        },
        EventKind::SoftBreak | EventKind::HardBreak => {
            let out = s1.out.push(line_break_model(e.start, e.end));
            assert(out.subrange(0, st.out.len() as int) =~= st.out);
        },
        EventKind::Rule => {
            let out = f.out.push(synthetic_model("─"@, e.start));
            assert(out.subrange(0, st.out.len() as int) =~= st.out);
            assert forall|j: int| st.out.len() <= j < out.len() && (#[trigger] out[j]).selectable implies out[j].paragraph
                == st.paragraph by {
                if j < f.out.len() {
                    assert(out[j] == b[j - st.out.len()]);
                }
            }
        },
        _ => {
            assert(st.out.subrange(0, st.out.len() as int) =~= st.out);
        },
    }
}

/// Every selectable grapheme rendered so far carries a paragraph id no larger
/// than the renderer's current one.
proof fn lemma_paragraphs_below(src: Seq<u8>, notes: Option<(int, int)>, events: Seq<EventModel>)
    ensures
        project_events(src, notes, events) matches Ok(st) ==> forall|j: int|
            0 <= j < st.out.len() && (#[trigger] st.out[j]).selectable ==> st.out[j].paragraph <= st.paragraph,
    decreases events.len(),
{
    if events.len() > 0 {
        lemma_paragraphs_below(src, notes, events.drop_last());
        if let Ok(p) = project_events(src, notes, events.drop_last()) {
            lemma_step_paragraphs(src, notes, p, events.last());
            if let Ok(st) = project_step(src, notes, p, events.last()) {
                assert forall|j: int| 0 <= j < st.out.len() && (#[trigger] st.out[j]).selectable implies st.out[j].paragraph
                    <= st.paragraph by {
                    if j < p.out.len() {
                        assert(st.out[j] == st.out.subrange(0, p.out.len() as int)[j]);
                    }
                }
            }
        }
    }
}

/// After a successful rendering, every earlier state was successful too; the
/// paragraph id has only grown since, the output then is a prefix of the
/// final one, and every selectable grapheme rendered later carries an id at
/// least the one of that state.
proof fn lemma_paragraphs_later(src: Seq<u8>, notes: Option<(int, int)>, events: Seq<EventModel>, k: int)
    requires
        0 <= k <= events.len(),
        project_events(src, notes, events) is Ok,
    ensures
        project_events(src, notes, events.take(k)) matches Ok(st) && project_events(src, notes, events) matches Ok(
            fin,
        ) && {
            &&& st.paragraph <= fin.paragraph
            &&& st.out.len() <= fin.out.len()
            &&& fin.out.subrange(0, st.out.len() as int) == st.out
            &&& forall|j: int|
                st.out.len() <= j < fin.out.len() && (#[trigger] fin.out[j]).selectable ==> fin.out[j].paragraph
                    >= st.paragraph
        },
    decreases events.len(),
{
    if k == events.len() {
        assert(events.take(k) =~= events);
        let fin = project_events(src, notes, events)->Ok_0;
        assert(fin.out.subrange(0, fin.out.len() as int) =~= fin.out);
    } else {
        let prefix = events.drop_last();
        assert(prefix.take(k) =~= events.take(k));
        let p = project_events(src, notes, prefix)->Ok_0;
        lemma_paragraphs_later(src, notes, prefix, k);
        lemma_step_paragraphs(src, notes, p, events.last());
        let st = project_events(src, notes, events.take(k))->Ok_0;
        let fin = project_events(src, notes, events)->Ok_0;
        assert(fin.out.subrange(0, st.out.len() as int) =~= st.out) by {
            assert(fin.out.subrange(0, st.out.len() as int) =~= fin.out.subrange(0, p.out.len() as int).subrange(
                0,
                st.out.len() as int,
            ));
        }
        assert forall|j: int| st.out.len() <= j < fin.out.len() && (#[trigger] fin.out[j]).selectable implies fin.out[j].paragraph
            >= st.paragraph by {
            if j < p.out.len() {
                assert(fin.out[j] == fin.out.subrange(0, p.out.len() as int)[j]);
                assert(p.out[j].selectable);
            }
        }
    }
}

/// Distinct blocks get distinct paragraph ids: where a heading or a paragraph
/// ends, every selectable grapheme rendered before that end has a strictly
/// smaller paragraph id than every selectable grapheme rendered after it.
/// So the paragraph after a heading never shares the heading's id, and
/// paragraph navigation moves from one block to the very next. The projection
/// of a source ([`projection_spec`]) is this rendering of its parsed events;
/// ids stop growing only at `usize::MAX`, which the rendering must stay below.
pub proof fn law_block_ends_separate_paragraphs(
    src: Seq<u8>,
    notes: Option<(int, int)>,
    events: Seq<EventModel>,
    k: int,
)
    requires
        0 <= k < events.len(),
        events[k].kind == EventKind::End(ElementKind::Heading) || events[k].kind == EventKind::End(
            ElementKind::Paragraph,
        ),
        project_events(src, notes, events) matches Ok(fin) && fin.paragraph < usize::MAX,
    ensures
        project_events(src, notes, events.take(k)) matches Ok(before) && project_events(src, notes, events) matches Ok(
            fin,
        ) && forall|i: int, j: int|
            0 <= i < before.out.len() <= j < fin.out.len() && (#[trigger] fin.out[i]).selectable
                && (#[trigger] fin.out[j]).selectable ==> fin.out[i].paragraph < fin.out[j].paragraph,
{
    lemma_paragraphs_later(src, notes, events, k);
    lemma_paragraphs_later(src, notes, events, k + 1);
    let before = project_events(src, notes, events.take(k))->Ok_0;
    let fin = project_events(src, notes, events)->Ok_0;
    assert(events.take(k + 1).drop_last() =~= events.take(k));
    assert(events.take(k + 1).last() == events[k]);
    lemma_step_paragraphs(src, notes, before, events[k]);
    let after = project_events(src, notes, events.take(k + 1))->Ok_0;
    lemma_paragraphs_below(src, notes, events.take(k));
    assert forall|i: int, j: int|
        0 <= i < before.out.len() <= j < fin.out.len() && (#[trigger] fin.out[i]).selectable
            && (#[trigger] fin.out[j]).selectable implies fin.out[i].paragraph < fin.out[j].paragraph by {
        assert(fin.out[i] == fin.out.subrange(0, before.out.len() as int)[i]);
        assert(before.out[i].paragraph <= before.paragraph);
    }
}

} // verus!
