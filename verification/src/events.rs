//! Markdown parsing into plain, source-offset events.
//!
//! The CommonMark parse itself is done by `pulldown_cmark`; this module only
//! carries what the library's logic reads from each event.

use pulldown_cmark::{Event, Options, Parser, Tag, TagEnd};
use vstd::prelude::*;
use vstd::utf8::*;

verus! {

/// A Markdown container or inline element that the library distinguishes.
#[derive(Debug, Clone, Copy, PartialEq, Eq, Structural)]
pub enum ElementKind {
    Heading,
    Paragraph,
    Item,
    Link,
    Strong,
    Image,
    Other,
}

/// The shape of one parser event.
#[derive(Debug, Clone, Copy, PartialEq, Eq, Structural)]
pub enum EventKind {
    Start(ElementKind),
    End(ElementKind),
    Text,
    Code,
    Html,
    InlineHtml,
    SoftBreak,
    HardBreak,
    Rule,
    Other,
}

/// One parser event with its byte range in the Markdown source.
///
/// `text` holds the literal content of text, code and HTML events and the
/// destination of a link start; it is empty for every other event.
#[derive(Debug)]
pub struct MarkdownEvent {
    pub kind: EventKind,
    pub text: String,
    pub start: usize,
    pub end: usize,
}

/// Mathematical view of a [`MarkdownEvent`].
pub struct EventModel {
    pub kind: EventKind,
    pub text: Seq<char>,
    pub start: int,
    pub end: int,
}

impl View for MarkdownEvent {
    type V = EventModel;

    open spec fn view(&self) -> EventModel {
        EventModel { kind: self.kind, text: self.text@, start: self.start as int, end: self.end as int }
    }
}

/// The events that `pulldown_cmark` produces for a source, with or without the
/// extensions (footnotes, strikethrough, tables, task lists) that rendering enables.
pub uninterp spec fn markdown_events(source: Seq<char>, extended: bool) -> Seq<EventModel>;

/// The event sequence held by a vector of events.
pub open spec fn event_models(events: Seq<MarkdownEvent>) -> Seq<EventModel> {
    events.map_values(|e: MarkdownEvent| e@)
}

/// A `pulldown_cmark` parser event, carried opaquely.
#[verifier::external_type_specification]
#[verifier::external_body]
pub struct ExEvent<'a>(Event<'a>);

/// The closing tag of a `pulldown_cmark` element, carried opaquely.
#[verifier::external_type_specification]
#[verifier::external_body]
pub struct ExTagEnd(TagEnd);

/// `start..end` is a range of the UTF-8 bytes `src` whose ends are both
/// character boundaries, so that it slices the source.
pub open spec fn char_range(src: Seq<u8>, start: int, end: int) -> bool {
    &&& 0 <= start <= end <= src.len()
    &&& is_char_boundary(src, start)
    &&& is_char_boundary(src, end)
}

/// Every event's byte range is a [`char_range`] of the source bytes `src`.
pub open spec fn events_within(events: Seq<EventModel>, src: Seq<u8>) -> bool {
    forall|i: int| 0 <= i < events.len() ==> char_range(src, #[trigger] events[i].start, events[i].end)
}

/// Parses CommonMark with `pulldown_cmark::Parser::new(..).into_offset_iter()`.
///
/// The contract claims that the result is the parser's event sequence for the
/// source, each event reduced to its kind, text and byte range, and that each
/// range lies in the source on character boundaries: the crate documents that
/// each range of the offset iterator maps to the corresponding range of the
/// source, and its own tests slice the source string with those ranges.
#[verifier::external_body]
pub(crate) fn parse_commonmark(source: &str) -> (events: Vec<MarkdownEvent>)
    ensures
        event_models(events@) == markdown_events(source@, false),
        events_within(event_models(events@), encode_utf8(source@)),
{
    Parser::new(source).into_offset_iter().map(|(event, range)| MarkdownEvent {
        kind: event_kind(&event),
        text: event_text(event),
        start: range.start,
        end: range.end,
    }).collect()
}

/// Parses Markdown with footnotes, strikethrough, tables and task lists
/// (`pulldown_cmark::Parser::new_ext(..).into_offset_iter()`).
///
/// The contract claims that the result is the parser's event sequence for the
/// source, each event reduced to its kind, text and byte range, and, as the
/// crate documents of the offset iterator, that each range lies in the source
/// on character boundaries.
#[verifier::external_body]
pub(crate) fn parse_extended(source: &str) -> (events: Vec<MarkdownEvent>)
    ensures
        event_models(events@) == markdown_events(source@, true),
        events_within(event_models(events@), encode_utf8(source@)),
{
    let options = Options::ENABLE_FOOTNOTES | Options::ENABLE_STRIKETHROUGH | Options::ENABLE_TABLES
        | Options::ENABLE_TASKLISTS;
    Parser::new_ext(source, options).into_offset_iter().map(|(event, range)| MarkdownEvent {
        kind: event_kind(&event),
        text: event_text(event),
        start: range.start,
        end: range.end,
    }).collect()
}

/// Tells the variants of `pulldown_cmark::TagEnd` apart; used by [`parse_commonmark`] and [`parse_extended`].
#[verifier::external_body]
fn element_kind(tag: TagEnd) -> ElementKind {
    match tag {
        TagEnd::Heading(_) => ElementKind::Heading,
        TagEnd::Paragraph => ElementKind::Paragraph,
        TagEnd::Item => ElementKind::Item,
        TagEnd::Link => ElementKind::Link,
        TagEnd::Strong => ElementKind::Strong,
        TagEnd::Image => ElementKind::Image,
        _ => ElementKind::Other,
    }
}

/// Tells the variants of `pulldown_cmark::Event` apart; used by [`parse_commonmark`] and [`parse_extended`].
#[verifier::external_body]
fn event_kind(event: &Event) -> EventKind {
    match event {
        Event::Start(tag) => EventKind::Start(element_kind(tag.to_end())),
        Event::End(tag) => EventKind::End(element_kind(*tag)),
        Event::Text(_) => EventKind::Text,
        Event::Code(_) => EventKind::Code,
        Event::Html(_) => EventKind::Html,
        Event::InlineHtml(_) => EventKind::InlineHtml,
        Event::SoftBreak => EventKind::SoftBreak,
        Event::HardBreak => EventKind::HardBreak,
        Event::Rule => EventKind::Rule,
        _ => EventKind::Other,
    }
}

/// Moves the literal content out of a `pulldown_cmark::Event`; used by [`parse_commonmark`] and [`parse_extended`].
#[verifier::external_body]
fn event_text(event: Event) -> String {
    match event {
        Event::Text(text) => text.into_string(),
        Event::Code(text) => text.into_string(),
        Event::Html(text) => text.into_string(),
        Event::InlineHtml(text) => text.into_string(),
        Event::Start(Tag::Link { dest_url, .. }) => dest_url.into_string(),
        _ => String::new(),
    }
}

} // verus!
