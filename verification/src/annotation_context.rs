//! Parser-aware selection exclusion ranges.

use std::ops::Range;

use vstd::prelude::*;

use crate::annotation::{notes_end_marker, notes_start_marker, AnnotationError, NOTES_END, NOTES_START};
use crate::events::{
    event_models, markdown_events, parse_commonmark, ElementKind, EventKind, EventModel, MarkdownEvent,
};
use crate::text::{chars_of, eq_ignore_ascii_case, slice_eq, slice_eq_ignore_ascii_case, trim, trim_bounds};

verus! {

/// An HTML event whose trimmed text is exactly `marker`.
pub open spec fn is_html_marker(e: EventModel, marker: Seq<char>) -> bool {
    (e.kind == EventKind::Html || e.kind == EventKind::InlineHtml) && trim(e.text) == marker
}

/// Progress of the search for the managed-notes block.
pub enum NotesScan {
    /// No complete block yet; the start offset of the latest opening marker.
    Open(Option<int>),
    /// The first complete block: its opening marker start and closing marker start.
    Found(int, int),
}

/// Scans events in order: an opening marker (re)sets the start; the first closing
/// marker after an opening marker completes the block.
pub open spec fn scan_notes(events: Seq<EventModel>) -> NotesScan
    decreases events.len(),
{
    if events.len() == 0 {
        NotesScan::Open(None)
    } else {
        let e = events.last();
        match scan_notes(events.drop_last()) {
            NotesScan::Found(s, t) => NotesScan::Found(s, t),
            NotesScan::Open(st) => if is_html_marker(e, notes_start_marker()) {
                NotesScan::Open(Some(e.start))
            } else if is_html_marker(e, notes_end_marker()) && st is Some {
                NotesScan::Found(st->0, e.start)
            } else {
                NotesScan::Open(st)
            },
        }
    }
}

/// The managed-notes block of an event sequence: from the start of its opening
/// marker to the start of its closing marker.
pub open spec fn managed_notes_in(events: Seq<EventModel>) -> Option<(int, int)> {
    match scan_notes(events) {
        NotesScan::Found(s, t) => Some((s, t)),
        NotesScan::Open(_) => None,
    }
}

/// The managed-notes block of a Markdown source, as the plain parser sees it.
pub open spec fn managed_notes_of(source: Seq<char>) -> Option<(int, int)> {
    managed_notes_in(markdown_events(source, false))
}

/// An optional range agrees with an optional pair of offsets.
pub open spec fn range_matches(r: Option<Range<usize>>, m: Option<(int, int)>) -> bool {
    match r {
        Some(x) => m == Some((x.start as int, x.end as int)),
        None => m is None,
    }
}

/// Whether the trimmed text of an event is exactly `marker`.
fn html_marker(e: &MarkdownEvent, marker: &Vec<char>) -> (r: bool)
    ensures
        r == is_html_marker(e@, marker@),
{
    if e.kind != EventKind::Html && e.kind != EventKind::InlineHtml {
        return false;
    }
    let text = chars_of(e.text.as_str());
    let (a, b) = trim_bounds(&text);
    slice_eq(&text, a, b, marker)
}

/// Finds the managed-notes block in an already parsed event sequence.
pub fn notes_range_in(events: &Vec<MarkdownEvent>) -> (r: Option<Range<usize>>)
    ensures
        range_matches(r, managed_notes_in(event_models(events@))),
{
    let start_marker = chars_of(NOTES_START);
    let end_marker = chars_of(NOTES_END);
    let ghost models = event_models(events@);
    let mut start: Option<usize> = None;
    let mut i: usize = 0;
    while i < events.len()
        invariant
            i <= events.len(),
            models == event_models(events@),
            start_marker@ == notes_start_marker(),
            end_marker@ == notes_end_marker(),
            scan_notes(models.take(i as int)) == NotesScan::Open(
                match start {
                    Some(s) => Some(s as int),
                    None => None,
                },
            ),
        decreases events.len() - i,
    {
        let e = &events[i];
        assert(models.take(i + 1).drop_last() =~= models.take(i as int));
        assert(models.take(i + 1).last() == e@);
        if html_marker(e, &start_marker) {
            start = Some(e.start);
        } else if html_marker(e, &end_marker) {
            if let Some(s) = start {
                let r = Some(s..e.start);
                assert(scan_notes(models.take(i + 1)) == NotesScan::Found(s as int, e.start as int));
                proof { lemma_scan_found_stable(models, i + 1); }
                return r;
            }
        }
        i = i + 1;
    }
    assert(models.take(i as int) =~= models);
    None
}

/// Once found, the managed-notes block stays found as events are appended.
proof fn lemma_scan_found_stable(events: Seq<EventModel>, k: int)
    requires
        0 <= k <= events.len(),
        scan_notes(events.take(k)) is Found,
    ensures
        scan_notes(events) == scan_notes(events.take(k)),
    decreases events.len() - k,
{
    if k == events.len() {
        assert(events.take(k) =~= events);
    } else {
        assert(events.take(k + 1).drop_last() =~= events.take(k));
        lemma_scan_found_stable(events, k + 1);
    }
}

/// Locates the managed `md-redpen:notes` block of a Markdown source.
pub fn managed_notes_range(source: &str) -> (r: Option<Range<usize>>)
    ensures
        range_matches(r, managed_notes_of(source@)),
{
    let events = parse_commonmark(source);
    notes_range_in(&events)
}

/// What the exclusion scan has collected so far.
pub struct ContextScan {
    /// Nesting depth of links (saturating, as a `u32`).
    pub link_depth: u32,
    /// Start of an image whose end has not been seen.
    pub image_start: Option<int>,
    /// Start of a `<mark>` whose `</mark>` has not been seen.
    pub mark_start: Option<int>,
    /// Text ranges inside links.
    pub links: Seq<(int, int)>,
    /// Whole image ranges.
    pub images: Seq<(int, int)>,
    /// Ranges from `<mark>` to `</mark>`.
    pub marks: Seq<(int, int)>,
    /// Inline code ranges.
    pub codes: Seq<(int, int)>,
}

/// The scan before any event.
pub open spec fn empty_scan() -> ContextScan {
    ContextScan {
        link_depth: 0,
        image_start: None,
        mark_start: None,
        links: Seq::empty(),
        images: Seq::empty(),
        marks: Seq::empty(),
        codes: Seq::empty(),
    }
}

/// An inline HTML event whose trimmed text is `tag`, ignoring ASCII case.
pub open spec fn is_inline_tag(e: EventModel, tag: Seq<char>) -> bool {
    e.kind == EventKind::InlineHtml && eq_ignore_ascii_case(trim(e.text), tag)
}

/// How one event changes the exclusion scan.
pub open spec fn context_step(st: ContextScan, e: EventModel) -> ContextScan {
    match e.kind {
        EventKind::Start(ElementKind::Link) => ContextScan { link_depth: st.link_depth.saturating_add(1), ..st },
        EventKind::End(ElementKind::Link) => ContextScan { link_depth: st.link_depth.saturating_sub(1), ..st },
        EventKind::Start(ElementKind::Image) => ContextScan { image_start: Some(e.start), ..st },
        EventKind::End(ElementKind::Image) => match st.image_start {
            Some(s) => ContextScan { image_start: None, images: st.images.push((s, e.end)), ..st },
            None => st,
        },
        EventKind::Text => if st.link_depth > 0 {
            ContextScan { links: st.links.push((e.start, e.end)), ..st }
        } else {
            st
        },
        EventKind::Code => ContextScan { codes: st.codes.push((e.start, e.end)), ..st },
        EventKind::InlineHtml => if is_inline_tag(e, "<mark>"@) {
            ContextScan { mark_start: Some(e.start), ..st }
        } else if is_inline_tag(e, "</mark>"@) {
            match st.mark_start {
                Some(s) => ContextScan { mark_start: None, marks: st.marks.push((s, e.end)), ..st },
                None => st,
            }
        } else {
            st
        },
        _ => st,
    }
}

/// The exclusion scan over a whole event sequence.
pub open spec fn scan_context(events: Seq<EventModel>) -> ContextScan
    decreases events.len(),
{
    if events.len() == 0 {
        empty_scan()
    } else {
        context_step(scan_context(events.drop_last()), events.last())
    }
}

/// Some range intersects the half-open selection `[s, t)`.
pub open spec fn overlaps_any_spec(ranges: Seq<(int, int)>, s: int, t: int) -> bool {
    exists|i: int| 0 <= i < ranges.len() && #[trigger] ranges[i].0 < t && s < ranges[i].1
}

/// Whether a selection `[s, t)` may be annotated given the parsed events, and
/// if not, the first reason in the order: managed notes, existing highlight,
/// image, inline code, link.
pub open spec fn context_verdict(events: Seq<EventModel>, s: int, t: int) -> Result<(), AnnotationError> {
    let scan = scan_context(events);
    if managed_notes_in(events) matches Some(notes) && t > notes.0 {
        Err(AnnotationError::ExistingAnnotationOverlap)
    } else if overlaps_any_spec(scan.marks, s, t) {
        Err(AnnotationError::ExistingAnnotationOverlap)
    } else if overlaps_any_spec(scan.images, s, t) {
        Err(AnnotationError::ImageOverlap)
    } else if overlaps_any_spec(scan.codes, s, t) {
        Err(AnnotationError::InlineCodeOverlap)
    } else if overlaps_any_spec(scan.links, s, t) {
        Err(AnnotationError::ExistingLinkOverlap)
    } else {
        Ok(())
    }
}

/// The pairs of offsets held by a vector of ranges.
pub open spec fn range_pairs(v: Seq<Range<usize>>) -> Seq<(int, int)> {
    v.map_values(|r: Range<usize>| (r.start as int, r.end as int))
}

/// Whether any range intersects the selection.
fn overlaps_any(ranges: &Vec<Range<usize>>, selection: &Range<usize>) -> (r: bool)
    ensures
        r == overlaps_any_spec(range_pairs(ranges@), selection.start as int, selection.end as int),
{
    let ghost pairs = range_pairs(ranges@);
    let mut i: usize = 0;
    while i < ranges.len()
        invariant
            i <= ranges.len(),
            pairs == range_pairs(ranges@),
            forall|j: int| 0 <= j < i ==> !(#[trigger] pairs[j].0 < selection.end && selection.start < pairs[j].1),
        decreases ranges.len() - i,
    {
        let range = &ranges[i];
        if range.start < selection.end && selection.start < range.end {
            assert(pairs[i as int].0 < selection.end && selection.start < pairs[i as int].1);
            return true;
        }
        i = i + 1;
    }
    false
}

/// Whether an event is inline HTML whose trimmed text is `tag`, ignoring ASCII case.
fn inline_tag(e: &MarkdownEvent, tag: &Vec<char>) -> (r: bool)
    ensures
        r == is_inline_tag(e@, tag@),
{
    if e.kind != EventKind::InlineHtml {
        return false;
    }
    let text = chars_of(e.text.as_str());
    let (a, b) = trim_bounds(&text);
    slice_eq_ignore_ascii_case(&text, a, b, tag)
}

/// Decides whether a selection may be annotated, given the plain parse of its source.
pub fn check_context(events: &Vec<MarkdownEvent>, selection: &Range<usize>) -> (r: Result<(), AnnotationError>)
    ensures
        r == context_verdict(event_models(events@), selection.start as int, selection.end as int),
{
    let open_mark = chars_of("<mark>");
    let close_mark = chars_of("</mark>");
    let ghost models = event_models(events@);
    let mut link_depth: u32 = 0;
    let mut image_start: Option<usize> = None;
    let mut mark_start: Option<usize> = None;
    let mut link_ranges: Vec<Range<usize>> = Vec::new();
    let mut image_ranges: Vec<Range<usize>> = Vec::new();
    let mut mark_ranges: Vec<Range<usize>> = Vec::new();
    let mut code_ranges: Vec<Range<usize>> = Vec::new();
    let mut i: usize = 0;
    assert(models.take(0) =~= Seq::<EventModel>::empty());
    assert(range_pairs(link_ranges@) =~= Seq::<(int, int)>::empty());
    assert(range_pairs(image_ranges@) =~= Seq::<(int, int)>::empty());
    assert(range_pairs(mark_ranges@) =~= Seq::<(int, int)>::empty());
    assert(range_pairs(code_ranges@) =~= Seq::<(int, int)>::empty());
    while i < events.len()
        invariant
            i <= events.len(),
            models == event_models(events@),
            open_mark@ == "<mark>"@,
            close_mark@ == "</mark>"@,
            scan_context(models.take(i as int)) == (ContextScan {
                link_depth,
                image_start: match image_start { Some(s) => Some(s as int), None => None },
                mark_start: match mark_start { Some(s) => Some(s as int), None => None },
                links: range_pairs(link_ranges@),
                images: range_pairs(image_ranges@),
                marks: range_pairs(mark_ranges@),
                codes: range_pairs(code_ranges@),
            }),
        decreases events.len() - i,
    {
        let e = &events[i];
        assert(models.take(i + 1).drop_last() =~= models.take(i as int));
        assert(models.take(i + 1).last() == e@);
        let ghost before = (link_ranges@, image_ranges@, mark_ranges@, code_ranges@);
        match e.kind {
            EventKind::Start(ElementKind::Link) => link_depth = link_depth.saturating_add(1),
            EventKind::End(ElementKind::Link) => link_depth = link_depth.saturating_sub(1),
            EventKind::Start(ElementKind::Image) => image_start = Some(e.start),
            EventKind::End(ElementKind::Image) => {
                if let Some(start) = image_start {
                    image_ranges.push(start..e.end);
                    image_start = None;
                }
            },
            EventKind::Text => {
                if link_depth > 0 {
                    link_ranges.push(e.start..e.end);
                }
            },
            EventKind::Code => code_ranges.push(e.start..e.end),
            EventKind::InlineHtml => {
                if inline_tag(e, &open_mark) {
                    mark_start = Some(e.start);
                } else if inline_tag(e, &close_mark) {
                    if let Some(start) = mark_start {
                        mark_ranges.push(start..e.end);
                        mark_start = None;
                    }
                }
            },
            _ => {},
        }
        assert(range_pairs(link_ranges@) =~= if link_ranges@.len() == before.0.len() { range_pairs(before.0) } else { range_pairs(before.0).push((link_ranges@.last().start as int, link_ranges@.last().end as int)) });
        assert(range_pairs(image_ranges@) =~= if image_ranges@.len() == before.1.len() { range_pairs(before.1) } else { range_pairs(before.1).push((image_ranges@.last().start as int, image_ranges@.last().end as int)) });
        assert(range_pairs(mark_ranges@) =~= if mark_ranges@.len() == before.2.len() { range_pairs(before.2) } else { range_pairs(before.2).push((mark_ranges@.last().start as int, mark_ranges@.last().end as int)) });
        assert(range_pairs(code_ranges@) =~= if code_ranges@.len() == before.3.len() { range_pairs(before.3) } else { range_pairs(before.3).push((code_ranges@.last().start as int, code_ranges@.last().end as int)) });
        i = i + 1;
    }
    assert(models.take(i as int) =~= models);
    if let Some(notes) = notes_range_in(events) {
        if selection.end > notes.start {
            return Err(AnnotationError::ExistingAnnotationOverlap);
        }
    }
    if overlaps_any(&mark_ranges, selection) {
        return Err(AnnotationError::ExistingAnnotationOverlap);
    }
    if overlaps_any(&image_ranges, selection) {
        return Err(AnnotationError::ImageOverlap);
    }
    if overlaps_any(&code_ranges, selection) {
        return Err(AnnotationError::InlineCodeOverlap);
    }
    if overlaps_any(&link_ranges, selection) {
        return Err(AnnotationError::ExistingLinkOverlap);
    }
    Ok(())
}

/// Rejects selections that overlap links, images, inline code, existing
/// highlights or the managed-notes block of `source`.
pub fn validate_context(source: &str, selection: &Range<usize>) -> (r: Result<(), AnnotationError>)
    ensures
        r == context_verdict(markdown_events(source@, false), selection.start as int, selection.end as int),
{
    let events = parse_commonmark(source);
    check_context(&events, selection)
}

/// `[a, b)` and the half-open selection `[s, t)` share at least one byte.
pub open spec fn intersects(a: int, b: int, s: int, t: int) -> bool {
    a < t && s < b
}

/// A selection that shares any byte with existing markup is refused, not only
/// one that lies wholly inside it, and each refusal names the markup that
/// wins in the checking order (managed notes, highlight, image, inline code,
/// link): a selection touching an existing highlight is refused as an
/// annotation overlap, one touching an image as at most that, one touching
/// inline code as at most those, and one touching link text with any of
/// them. Conversely, a link refusal comes only from a selection that touches
/// link text.
pub proof fn law_touching_markup_is_refused(events: Seq<EventModel>, s: int, t: int, i: int)
    ensures
        ({
            let scan = scan_context(events);
            let v = context_verdict(events, s, t);
            &&& (0 <= i < scan.marks.len() && intersects(scan.marks[i].0, scan.marks[i].1, s, t)) ==> v
                == Err::<(), AnnotationError>(AnnotationError::ExistingAnnotationOverlap)
            &&& (0 <= i < scan.images.len() && intersects(scan.images[i].0, scan.images[i].1, s, t)) ==> (v
                == Err::<(), AnnotationError>(AnnotationError::ExistingAnnotationOverlap) || v == Err::<
                (),
                AnnotationError,
            >(AnnotationError::ImageOverlap))
            &&& (0 <= i < scan.codes.len() && intersects(scan.codes[i].0, scan.codes[i].1, s, t)) ==> (v
                == Err::<(), AnnotationError>(AnnotationError::ExistingAnnotationOverlap) || v == Err::<
                (),
                AnnotationError,
            >(AnnotationError::ImageOverlap) || v == Err::<(), AnnotationError>(AnnotationError::InlineCodeOverlap))
            &&& (0 <= i < scan.links.len() && intersects(scan.links[i].0, scan.links[i].1, s, t)) ==> v is Err
            &&& v == Err::<(), AnnotationError>(AnnotationError::ExistingLinkOverlap) ==> exists|j: int|
                0 <= j < scan.links.len() && #[trigger] intersects(scan.links[j].0, scan.links[j].1, s, t)
        }),
{
    let scan = scan_context(events);
    if 0 <= i < scan.marks.len() && intersects(scan.marks[i].0, scan.marks[i].1, s, t) {
        assert(scan.marks[i].0 < t && s < scan.marks[i].1);
    }
    if 0 <= i < scan.images.len() && intersects(scan.images[i].0, scan.images[i].1, s, t) {
        assert(scan.images[i].0 < t && s < scan.images[i].1);
    }
    if 0 <= i < scan.codes.len() && intersects(scan.codes[i].0, scan.codes[i].1, s, t) {
        assert(scan.codes[i].0 < t && s < scan.codes[i].1);
    }
    if 0 <= i < scan.links.len() && intersects(scan.links[i].0, scan.links[i].1, s, t) {
        assert(scan.links[i].0 < t && s < scan.links[i].1);
    }
    if context_verdict(events, s, t) == Err::<(), AnnotationError>(AnnotationError::ExistingLinkOverlap) {
        let j = choose|j: int| 0 <= j < scan.links.len() && #[trigger] scan.links[j].0 < t && s < scan.links[j].1;
        assert(intersects(scan.links[j].0, scan.links[j].1, s, t));
    }
}

} // verus!
