//! Byte-preserving Markdown annotation serialization.

use std::ops::Range;

use uuid::Uuid;
use vstd::prelude::*;
use vstd::utf8::*;

use crate::annotation_context::{managed_notes_of, managed_notes_range, validate_context, context_verdict, range_matches};
use crate::events::markdown_events;
use crate::text::{
    all_white_space, chars_of, contains_bytes, decimal, decimal_string, find_bytes, grapheme_clusters,
    graphemes, is_white_space, char_is_white_space, lemma_trim_empty, push_char, string_from_chars,
    string_from_utf8, string_views, trim, trim_bounds, push_all, push_bytes, count_occurrences,
    count_occurrences_in, lemma_encode_concat,
};

verus! {

/// Opening marker of the managed endnote block.
pub const NOTES_START: &'static str = "<!-- md-redpen:notes:start v=1 -->";

/// Closing marker of the managed endnote block.
pub const NOTES_END: &'static str = "<!-- md-redpen:notes:end -->";

/// The characters of [`NOTES_START`].
pub open spec fn notes_start_marker() -> Seq<char> {
    NOTES_START@
}

/// The characters of [`NOTES_END`].
pub open spec fn notes_end_marker() -> Seq<char> {
    NOTES_END@
}

/// Annotation validation or serialization failure.
#[derive(Debug, PartialEq, Eq)]
pub enum AnnotationError {
    /// Identifier does not use the RedPen namespace.
    InvalidId(String),
    /// Selection is empty or outside the document.
    InvalidSelection,
    /// Selection does not align to UTF-8 boundaries.
    InvalidUtf8Boundary,
    /// Selection crosses a block boundary.
    MultilineSelection,
    /// Note has no visible content.
    EmptyNote,
    /// Input contains reserved RedPen management syntax.
    ReservedSyntax,
    /// Selection intersects an existing Markdown link.
    ExistingLinkOverlap,
    /// Selection intersects an existing RedPen highlight.
    ExistingAnnotationOverlap,
    /// Selection intersects inline code.
    InlineCodeOverlap,
    /// Selection intersects a Markdown image.
    ImageOverlap,
}

/// The most graphemes an endnote title shows.
pub const NOTE_TITLE_MAX_GRAPHEMES: usize = 24;

/// A character allowed after the `rp-` prefix of an identifier.
pub open spec fn id_char(c: char) -> bool {
    ('a' <= c && c <= 'z') || ('0' <= c && c <= '9') || c == '-'
}

/// A RedPen identifier: `rp-` followed by at least one lowercase ASCII letter,
/// digit or hyphen.
pub open spec fn valid_id(v: Seq<char>) -> bool {
    &&& v.len() > 3
    &&& v[0] == 'r' && v[1] == 'p' && v[2] == '-'
    &&& forall|i: int| 3 <= i < v.len() ==> id_char(#[trigger] v[i])
}

/// Stable Markdown-safe annotation identity.
#[derive(Debug, PartialEq, Eq)]
pub struct AnnotationId(String);

impl Clone for AnnotationId {
    fn clone(&self) -> (copy: Self)
        ensures
            copy@ == self@,
    {
        proof {
            use_type_invariant(self);
        }
        AnnotationId(self.0.clone())
    }
}

impl View for AnnotationId {
    type V = Seq<char>;

    closed spec fn view(&self) -> Seq<char> {
        self.0@
    }
}

/// The 36 characters of a hyphenated lowercase UUID.
pub open spec fn uuid_text(s: Seq<char>) -> bool {
    &&& s.len() == 36
    &&& forall|i: int| 0 <= i < s.len() ==> {
        let c = #[trigger] s[i];
        ('0' <= c && c <= '9') || ('a' <= c && c <= 'f') || c == '-'
    }
}

/// Renders `uuid::Uuid::now_v7()` with its `Display` impl.
///
/// The contract claims only the shape of the text (the hyphenated lowercase
/// form); which UUID comes out depends on the clock and a random source.
#[verifier::external_body]
fn new_uuid_v7_text() -> (s: String)
    ensures
        uuid_text(s@),
{
    Uuid::now_v7().to_string()
}

impl AnnotationId {
    #[verifier::type_invariant]
    spec fn inv(self) -> bool {
        valid_id(self.0@)
    }

    /// Parses a stable RedPen identifier.
    pub fn parse(value: &str) -> (r: Result<Self, AnnotationError>)
        ensures
            valid_id(value@) ==> (r matches Ok(id) && id@ == value@),
            !valid_id(value@) ==> (r matches Err(AnnotationError::InvalidId(v)) && v@ == value@),
    {
        let chars = chars_of(value);
        let mut valid = chars.len() > 3 && chars[0] == 'r' && chars[1] == 'p' && chars[2] == '-';
        if valid {
            let mut i: usize = 3;
            while i < chars.len()
                invariant
                    3 <= i <= chars.len(),
                    chars@ == value@,
                    valid ==> forall|j: int| 3 <= j < i ==> id_char(#[trigger] chars@[j]),
                    !valid ==> !valid_id(value@),
                    chars@.len() > 3 && chars@[0] == 'r' && chars@[1] == 'p' && chars@[2] == '-',
                decreases chars.len() - i,
            {
                let c = chars[i];
                if !(('a' <= c && c <= 'z') || ('0' <= c && c <= '9') || c == '-') {
                    assert(!id_char(chars@[i as int]));
                    valid = false;
                }
                i = i + 1;
            }
        }
        if !valid {
            return Err(AnnotationError::InvalidId(value.to_owned()));
        }
        Ok(AnnotationId(value.to_owned()))
    }

    /// Generates a chronologically sortable identifier (`rp-` and a version 7 UUID).
    pub fn generate() -> (id: Self)
        ensures
            valid_id(id@),
            exists|u: Seq<char>| uuid_text(u) && id@ == "rp-"@ + u,
    {
        let text = new_uuid_v7_text();
        let mut s = String::new();
        s.append("rp-");
        s.append(text.as_str());
        proof {
            reveal_strlit("rp-");
            assert(s@ =~= "rp-"@ + text@);
            assert forall|i: int| 3 <= i < s@.len() implies id_char(#[trigger] s@[i]) by {
                assert(s@[i] == text@[i - 3]);
            }
        }
        AnnotationId(s)
    }

    /// The identifier text.
    pub fn as_str(&self) -> (s: &str)
        ensures
            s@ == self@,
            valid_id(s@),
    {
        proof {
            use_type_invariant(self);
        }
        self.0.as_str()
    }
}

/// User-visible annotation intent.
#[derive(Debug, Clone, Copy, PartialEq, Eq, Structural)]
pub enum NoteKind {
    /// Explain selected prose.
    Explanation,
    /// Suggest replacement wording without changing the body.
    Revision,
    /// Add supporting detail.
    Expansion,
    /// Store user-authored context.
    Manual,
}

/// One requested body-link and endnote transaction.
#[derive(Debug, PartialEq, Eq)]
pub struct AnnotationRequest<'a> {
    /// Stable annotation identifier.
    pub id: AnnotationId,
    /// Annotation intent.
    pub kind: NoteKind,
    /// Reviewed Markdown note body.
    pub note: &'a str,
    /// Selected source byte range.
    pub selection: Range<usize>,
}

/// `text.split_whitespace().collect::<Vec<_>>().join(" ")`: the words of a
/// text separated by single spaces, defined by adding one character at a time.
pub open spec fn squeeze_white_space(s: Seq<char>) -> Seq<char>
    decreases s.len(),
{
    if s.len() == 0 {
        s
    } else if is_white_space(s.last()) {
        squeeze_white_space(s.drop_last())
    } else {
        let p = s.drop_last();
        let base = squeeze_white_space(p);
        if p.len() > 0 && is_white_space(p.last()) && base.len() > 0 {
            base.push(' ').push(s.last())
        } else {
            base.push(s.last())
        }
    }
}

/// A character that Markdown title escaping prefixes with a backslash.
pub open spec fn title_special(c: char) -> bool {
    c == '\\' || c == '`' || c == '*' || c == '_' || c == '{' || c == '}' || c == '[' || c == ']'
        || c == '<' || c == '>' || c == '(' || c == ')' || c == '#' || c == '+' || c == '-'
        || c == '.' || c == '!' || c == '|' || c == '~'
}

/// Backslash-escapes every Markdown-special character of a title.
pub open spec fn escape_title(s: Seq<char>) -> Seq<char>
    decreases s.len(),
{
    if s.len() == 0 {
        s
    } else if title_special(s.last()) {
        escape_title(s.drop_last()).push('\\').push(s.last())
    } else {
        escape_title(s.drop_last()).push(s.last())
    }
}

/// A title longer than 24 graphemes keeps 23 of them and ends with an ellipsis.
pub open spec fn shorten_title(compact: Seq<char>) -> Seq<char> {
    let clusters = grapheme_clusters(compact);
    if clusters.len() > NOTE_TITLE_MAX_GRAPHEMES {
        clusters.take(NOTE_TITLE_MAX_GRAPHEMES - 1).flatten().push('…')
    } else {
        compact
    }
}

/// The endnote title for a selected text.
pub open spec fn selection_title_spec(selected: Seq<char>) -> Seq<char> {
    escape_title(shorten_title(squeeze_white_space(selected)))
}

fn squeeze_chars(s: &Vec<char>) -> (out: Vec<char>)
    ensures
        out@ == squeeze_white_space(s@),
{
    let mut out: Vec<char> = Vec::new();
    let mut i: usize = 0;
    assert(s@.take(0) =~= Seq::<char>::empty());
    while i < s.len()
        invariant
            i <= s.len(),
            out@ == squeeze_white_space(s@.take(i as int)),
        decreases s.len() - i,
    {
        let c = s[i];
        let ghost p = s@.take(i as int);
        assert(s@.take(i + 1).drop_last() =~= p);
        assert(s@.take(i + 1).last() == c);
        if !char_is_white_space(c) {
            if i > 0 && char_is_white_space(s[i - 1]) && out.len() > 0 {
                out.push(' ');
            }
            out.push(c);
        }
        i = i + 1;
    }
    assert(s@.take(i as int) =~= s@);
    out
}

fn escape_chars(s: &Vec<char>) -> (out: Vec<char>)
    ensures
        out@ == escape_title(s@),
{
    let mut out: Vec<char> = Vec::new();
    let mut i: usize = 0;
    assert(s@.take(0) =~= Seq::<char>::empty());
    while i < s.len()
        invariant
            i <= s.len(),
            out@ == escape_title(s@.take(i as int)),
        decreases s.len() - i,
    {
        let c = s[i];
        assert(s@.take(i + 1).drop_last() =~= s@.take(i as int));
        assert(s@.take(i + 1).last() == c);
        if c == '\\' || c == '`' || c == '*' || c == '_' || c == '{' || c == '}' || c == '['
            || c == ']' || c == '<' || c == '>' || c == '(' || c == ')' || c == '#' || c == '+'
            || c == '-' || c == '.' || c == '!' || c == '|' || c == '~' {
            out.push('\\');
        }
        out.push(c);
        i = i + 1;
    }
    assert(s@.take(i as int) =~= s@);
    out
}

/// Builds the endnote title for a selected text: white space collapsed, at most
/// 24 graphemes, Markdown-special characters escaped.
pub fn selection_title(selected: &str) -> (title: String)
    ensures
        title@ == selection_title_spec(selected@),
{
    let chars = chars_of(selected);
    let compact = squeeze_chars(&chars);
    let compact_string = string_from_chars(&compact);
    let clusters = graphemes(compact_string.as_str());
    let ghost views = string_views(clusters@);
    let shortened = if clusters.len() > NOTE_TITLE_MAX_GRAPHEMES {
        let mut short = String::new();
        let mut i: usize = 0;
        assert(views.take(0) =~= Seq::<Seq<char>>::empty());
        while i < NOTE_TITLE_MAX_GRAPHEMES - 1
            invariant
                i <= NOTE_TITLE_MAX_GRAPHEMES - 1,
                clusters.len() > NOTE_TITLE_MAX_GRAPHEMES,
                views == string_views(clusters@),
                short@ == views.take(i as int).flatten(),
            decreases NOTE_TITLE_MAX_GRAPHEMES - 1 - i,
        {
            short.append(clusters[i].as_str());
            assert(views.take(i + 1) =~= views.take(i as int).push(views[i as int]));
            proof {
                views.take(i as int).lemma_flatten_push(views[i as int]);
            }
            i = i + 1;
        }
        push_char(&mut short, '…');
        chars_of(short.as_str())
    } else {
        compact
    };
    let escaped = escape_chars(&shortened);
    string_from_chars(&escaped)
}

/// `trim_start_matches("rp-")`: the identifier without its (repeated) `rp-` prefix.
pub open spec fn id_suffix(id: Seq<char>) -> Seq<char>
    decreases id.len(),
{
    if id.len() >= 3 && id[0] == 'r' && id[1] == 'p' && id[2] == '-' {
        id_suffix(id.skip(3))
    } else {
        id
    }
}

fn id_suffix_of(id: &str) -> (s: String)
    ensures
        s@ == id_suffix(id@),
{
    let chars = chars_of(id);
    let mut a: usize = 0;
    assert(chars@.skip(0) =~= chars@);
    while chars.len() - a >= 3 && chars[a] == 'r' && chars[a + 1] == 'p' && chars[a + 2] == '-'
        invariant
            a <= chars.len(),
            id_suffix(id@) == id_suffix(chars@.skip(a as int)),
            chars@ == id@,
        decreases chars.len() - a,
    {
        assert(chars@.skip(a as int).skip(3) =~= chars@.skip(a + 3));
        a = a + 3;
    }
    let mut rest: Vec<char> = Vec::new();
    let mut i = a;
    while i < chars.len()
        invariant
            a <= i <= chars.len(),
            rest@ == chars@.subrange(a as int, i as int),
        decreases chars.len() - i,
    {
        rest.push(chars[i]);
        assert(chars@.subrange(a as int, i + 1) =~= chars@.subrange(a as int, i as int).push(chars@[i as int]));
        i = i + 1;
    }
    assert(rest@ =~= chars@.skip(a as int));
    string_from_chars(&rest)
}

/// The label that introduces an endnote of a kind.
pub open spec fn kind_label(kind: NoteKind) -> Seq<char> {
    match kind {
        NoteKind::Explanation => "부연 설명"@,
        NoteKind::Revision => "수정 제안"@,
        NoteKind::Expansion => "보충 자료"@,
        NoteKind::Manual => "사용자 메모"@,
    }
}

/// The label that introduces an endnote of a kind.
pub fn note_label(kind: NoteKind) -> (label: &'static str)
    ensures
        label@ == kind_label(kind),
{
    match kind {
        NoteKind::Explanation => "부연 설명",
        NoteKind::Revision => "수정 제안",
        NoteKind::Expansion => "보충 자료",
        NoteKind::Manual => "사용자 메모",
    }
}

/// One managed endnote: anchor, numbered item with the kind's bold label and
/// the trimmed note, and the link definition.
pub open spec fn note_block(id: Seq<char>, number: nat, kind: NoteKind, note: Seq<char>) -> Seq<char> {
    "<a id=\"rp-note-"@ + id_suffix(id) + "\"></a>\n"@ + decimal(number) + ". **"@ + kind_label(kind)
        + "**: "@ + trim(note) + "\n\n["@ + id + "]: #rp-note-"@ + id_suffix(id) + "\n"@
}

/// Formats one managed endnote.
pub fn format_note(request: &AnnotationRequest<'_>, number: usize) -> (block: String)
    ensures
        block@ == note_block(request.id@, number as nat, request.kind, request.note@),
{
    let id = request.id.as_str();
    let suffix = id_suffix_of(id);
    let note_chars = chars_of(request.note);
    let (a, b) = trim_bounds(&note_chars);
    let mut trimmed: Vec<char> = Vec::new();
    let mut i = a;
    while i < b
        invariant
            a <= i <= b <= note_chars.len(),
            trimmed@ == note_chars@.subrange(a as int, i as int),
        decreases b - i,
    {
        trimmed.push(note_chars[i]);
        assert(note_chars@.subrange(a as int, i + 1) =~= note_chars@.subrange(a as int, i as int).push(note_chars@[i as int]));
        i = i + 1;
    }
    let trimmed = string_from_chars(&trimmed);
    let mut block = String::new();
    block.append("<a id=\"rp-note-");
    block.append(suffix.as_str());
    block.append("\"></a>\n");
    block.append(decimal_string(number).as_str());
    block.append(". **");
    block.append(note_label(request.kind));
    block.append("**: ");
    block.append(trimmed.as_str());
    block.append("\n\n[");
    block.append(id);
    block.append("]: #rp-note-");
    block.append(suffix.as_str());
    block.append("\n");
    proof {
        assert(block@ =~= note_block(request.id@, number as nat, request.kind, request.note@));
    }
    block
}

/// Heading line of a newly created managed-notes block.
pub const NOTES_HEADING: &'static str = "\n## MD RedPen Notes\n\n";

/// Prefix that marks RedPen management syntax inside a note.
pub const RESERVED_PREFIX: &'static str = "<!-- md-redpen:";

/// Prefix of every endnote anchor.
pub const NOTE_ANCHOR: &'static str = "<a id=\"rp-note-";

/// Some byte is a line feed or a carriage return.
pub open spec fn has_line_break(b: Seq<u8>) -> bool {
    exists|i: int| 0 <= i < b.len() && (#[trigger] b[i] == 10u8 || b[i] == 13u8)
}

/// Whether an annotation request may be serialized, and if not the first
/// reason, in the order the checks are made.
pub open spec fn request_verdict(source: Seq<char>, note: Seq<char>, s: int, t: int) -> Result<(), AnnotationError> {
    let src = encode_utf8(source);
    let selected = src.subrange(s, t);
    if s >= t || t > src.len() {
        Err(AnnotationError::InvalidSelection)
    } else if !is_char_boundary(src, s) || !is_char_boundary(src, t) {
        Err(AnnotationError::InvalidUtf8Boundary)
    } else if has_line_break(selected) {
        Err(AnnotationError::MultilineSelection)
    } else if all_white_space(note) {
        Err(AnnotationError::EmptyNote)
    } else if contains_bytes(selected, encode_utf8(NOTES_START@)) || contains_bytes(
        selected,
        encode_utf8(NOTES_END@),
    ) || contains_bytes(encode_utf8(note), encode_utf8(RESERVED_PREFIX@)) {
        Err(AnnotationError::ReservedSyntax)
    } else {
        context_verdict(markdown_events(source, false), s, t)
    }
}

fn has_line_break_in(bytes: &[u8], lo: usize, hi: usize) -> (r: bool)
    requires
        lo <= hi <= bytes@.len(),
    ensures
        r == has_line_break(bytes@.subrange(lo as int, hi as int)),
{
    let ghost sub = bytes@.subrange(lo as int, hi as int);
    let mut i = lo;
    while i < hi
        invariant
            lo <= i <= hi <= bytes@.len(),
            sub == bytes@.subrange(lo as int, hi as int),
            forall|j: int| 0 <= j < i - lo ==> !(#[trigger] sub[j] == 10u8 || sub[j] == 13u8),
        decreases hi - i,
    {
        if bytes[i] == 10 || bytes[i] == 13 {
            assert(sub[i - lo] == bytes@[i as int]);
            return true;
        }
        assert(sub[i - lo] == bytes@[i as int]);
        i = i + 1;
    }
    false
}

/// Checks an annotation request against its source.
pub fn validate_request(source: &str, request: &AnnotationRequest<'_>) -> (r: Result<(), AnnotationError>)
    ensures
        r == request_verdict(source@, request.note@, request.selection.start as int, request.selection.end as int),
{
    let start = request.selection.start;
    let end = request.selection.end;
    let src = source.as_bytes();
    if start >= end || end > src.len() {
        return Err(AnnotationError::InvalidSelection);
    }
    if !source.is_char_boundary(start) || !source.is_char_boundary(end) {
        return Err(AnnotationError::InvalidUtf8Boundary);
    }
    if has_line_break_in(src, start, end) {
        return Err(AnnotationError::MultilineSelection);
    }
    let note_chars = chars_of(request.note);
    let (a, b) = trim_bounds(&note_chars);
    proof {
        lemma_trim_empty(request.note@);
    }
    if a == b {
        return Err(AnnotationError::EmptyNote);
    }
    let note_bytes = request.note.as_bytes();
    assert(note_bytes@.subrange(0, note_bytes@.len() as int) =~= encode_utf8(request.note@));
    if find_bytes(src, start, end, NOTES_START.as_bytes()) || find_bytes(src, start, end, NOTES_END.as_bytes())
        || find_bytes(note_bytes, 0, note_bytes.len(), RESERVED_PREFIX.as_bytes()) {
        return Err(AnnotationError::ReservedSyntax);
    }
    validate_context(source, &request.selection)
}

/// The number that the next endnote gets: one more than the anchors already in
/// the managed-notes block, or 1 without one.
pub open spec fn next_note_number_spec(source: Seq<char>) -> int {
    match managed_notes_of(source) {
        None => 1,
        Some((a, b)) => {
            let src = encode_utf8(source);
            if 0 <= a <= b <= src.len() && is_char_boundary(src, a) && is_char_boundary(src, b) {
                let c = count_occurrences(src.subrange(a, b), encode_utf8(NOTE_ANCHOR@));
                if c + 1 > usize::MAX { usize::MAX as int } else { (c + 1) as int }
            } else {
                1
            }
        },
    }
}

/// Numbers the next endnote of a document.
pub fn next_note_number(source: &str) -> (n: usize)
    ensures
        n == next_note_number_spec(source@),
{
    let notes = managed_notes_range(source);
    match notes {
        None => 1,
        Some(range) => {
            let src = source.as_bytes();
            if range.start <= range.end && range.end <= src.len() && source.is_char_boundary(range.start)
                && source.is_char_boundary(range.end) {
                let c = count_occurrences_in(src, range.start, range.end, NOTE_ANCHOR.as_bytes());
                c.saturating_add(1)
            } else {
                1
            }
        },
    }
}

/// The source with the selection wrapped in a highlighted reference link.
pub open spec fn highlight_bytes(src: Seq<u8>, s: int, t: int, id: Seq<char>) -> Seq<u8> {
    src.subrange(0, s) + encode_utf8("<mark>["@) + src.subrange(s, t) + encode_utf8("]["@)
        + encode_utf8(id) + encode_utf8("]</mark>"@) + src.subrange(t, src.len() as int)
}

/// A new managed-notes block holding one endnote, after a blank line.
pub open spec fn with_notes_block(body: Seq<u8>, block: Seq<u8>) -> Seq<u8> {
    let b1 = if body.len() == 0 || body.last() != 10u8 { body.push(10u8) } else { body };
    let b2 = if b1.len() >= 2 && b1[b1.len() - 1] == 10u8 && b1[b1.len() - 2] == 10u8 {
        b1
    } else {
        b1.push(10u8)
    };
    b2 + encode_utf8(NOTES_START@) + encode_utf8(NOTES_HEADING@) + block + encode_utf8(NOTES_END@)
        + seq![10u8]
}

/// The bytes that annotating a source produces, or the reason it is refused.
pub open spec fn annotate_spec(
    source: Seq<char>,
    id: Seq<char>,
    kind: NoteKind,
    note: Seq<char>,
    s: int,
    t: int,
) -> Result<Seq<u8>, AnnotationError> {
    match request_verdict(source, note, s, t) {
        Err(e) => Err(e),
        Ok(_) => {
            let src = encode_utf8(source);
            let body = highlight_bytes(src, s, t, id);
            let block = encode_utf8(note_block(id, next_note_number_spec(source) as nat, kind, note));
            match managed_notes_of(decode_utf8(body)) {
                Some((_, e)) => if is_char_boundary(body, e) {
                    Ok(body.subrange(0, e) + block + body.subrange(e, body.len() as int))
                } else {
                    Err(AnnotationError::InvalidUtf8Boundary)
                },
                None => Ok(with_notes_block(body, block)),
            }
        },
    }
}

/// A result string agrees with a specified result, compared as UTF-8 bytes.
pub open spec fn bytes_result_matches(r: Result<String, AnnotationError>, m: Result<Seq<u8>, AnnotationError>) -> bool {
    match (r, m) {
        (Ok(out), Ok(bytes)) => encode_utf8(out@) == bytes,
        (Err(e), Err(f)) => e == f,
        _ => false,
    }
}

/// A boundary of a valid sequence stays a boundary of its suffix from an earlier boundary.
proof fn lemma_suffix_boundary(src: Seq<u8>, s: int, t: int)
    requires
        valid_utf8(src),
        0 <= s <= t <= src.len(),
        is_char_boundary(src, s),
        is_char_boundary(src, t),
    ensures
        valid_utf8(src.subrange(s, src.len() as int)),
        is_char_boundary(src.subrange(s, src.len() as int), t - s),
{
    let suffix = src.subrange(s, src.len() as int);
    valid_utf8_split(src, s);
    if t == src.len() {
        is_char_boundary_start_end_of_seq(suffix);
    } else {
        is_char_boundary_iff_not_is_continuation_byte(src, t);
        is_char_boundary_iff_not_is_continuation_byte(suffix, t - s);
        assert(suffix[t - s] == src[t]);
    }
}

/// The three pieces of a valid sequence cut at two boundaries are valid.
pub proof fn lemma_valid_pieces(src: Seq<u8>, s: int, t: int)
    requires
        valid_utf8(src),
        0 <= s <= t <= src.len(),
        is_char_boundary(src, s),
        is_char_boundary(src, t),
    ensures
        valid_utf8(src.subrange(0, s)),
        valid_utf8(src.subrange(s, t)),
        valid_utf8(src.subrange(t, src.len() as int)),
{
    valid_utf8_split(src, s);
    valid_utf8_split(src, t);
    lemma_suffix_boundary(src, s, t);
    let suffix = src.subrange(s, src.len() as int);
    valid_utf8_split(suffix, t - s);
    assert(suffix.subrange(0, t - s) =~= src.subrange(s, t));
}

proof fn lemma_newline_bytes()
    ensures
        encode_utf8(seq!['\n']) == seq![10u8],
        valid_utf8(seq![10u8]),
{
    let nl = seq!['\n'];
    assert(nl[0] as u32 == 10u32);
    assert(((10u32 & 0x7Fu32) as u8) == 10u8) by (bit_vector);
    assert(nl.drop_first() =~= Seq::<char>::empty());
    assert(encode_utf8(Seq::<char>::empty()) =~= Seq::<u8>::empty());
    assert(encode_scalar(10u32) =~= seq![10u8]);
    assert(encode_utf8(nl) == encode_scalar(nl[0] as u32) + encode_utf8(nl.drop_first()));
    assert(encode_utf8(nl) =~= seq![10u8]);
    encode_utf8_valid_utf8(nl);
}

/// The highlighted body of valid UTF-8 cut at two character boundaries is
/// valid UTF-8.
proof fn lemma_highlight_valid(src: Seq<u8>, s: int, t: int, id: Seq<char>)
    requires
        valid_utf8(src),
        0 <= s <= t <= src.len(),
        is_char_boundary(src, s),
        is_char_boundary(src, t),
    ensures
        valid_utf8(highlight_bytes(src, s, t, id)),
{
    lemma_valid_pieces(src, s, t);
    encode_utf8_valid_utf8("<mark>["@);
    encode_utf8_valid_utf8("]["@);
    encode_utf8_valid_utf8(id);
    encode_utf8_valid_utf8("]</mark>"@);
    let p1 = src.subrange(0, s);
    let p2 = encode_utf8("<mark>["@);
    let p3 = src.subrange(s, t);
    let p4 = encode_utf8("]["@);
    let p5 = encode_utf8(id);
    let p6 = encode_utf8("]</mark>"@);
    let p7 = src.subrange(t, src.len() as int);
    valid_utf8_concat(p1, p2);
    valid_utf8_concat(p1 + p2, p3);
    valid_utf8_concat(p1 + p2 + p3, p4);
    valid_utf8_concat(p1 + p2 + p3 + p4, p5);
    valid_utf8_concat(p1 + p2 + p3 + p4 + p5, p6);
    valid_utf8_concat(p1 + p2 + p3 + p4 + p5 + p6, p7);
    assert(highlight_bytes(src, s, t, id) =~= p1 + p2 + p3 + p4 + p5 + p6 + p7);
}

/// Builds the highlighted body bytes.
fn highlight(source: &str, start: usize, end: usize, id: &str) -> (body: Vec<u8>)
    requires
        start <= end <= encode_utf8(source@).len(),
        is_char_boundary(encode_utf8(source@), start as int),
        is_char_boundary(encode_utf8(source@), end as int),
    ensures
        body@ == highlight_bytes(encode_utf8(source@), start as int, end as int, id@),
        valid_utf8(body@),
{
    let src = source.as_bytes();
    let ghost srcb = src@;
    proof {
        encode_utf8_valid_utf8(source@);
        lemma_valid_pieces(srcb, start as int, end as int);
    }
    let mut body: Vec<u8> = Vec::new();
    push_bytes(&mut body, src, 0, start);
    push_all(&mut body, "<mark>[".as_bytes());
    push_bytes(&mut body, src, start, end);
    push_all(&mut body, "][".as_bytes());
    push_all(&mut body, id.as_bytes());
    push_all(&mut body, "]</mark>".as_bytes());
    push_bytes(&mut body, src, end, src.len());
    proof {
        assert(body@ =~= highlight_bytes(srcb, start as int, end as int, id@));
        lemma_highlight_valid(srcb, start as int, end as int, id@);
    }
    body
}

/// The document bytes once an endnote block joins the highlighted body: inside
/// the managed-notes block when there is one, else in a new block at the end.
pub open spec fn attach_spec(body: Seq<u8>, block: Seq<u8>) -> Result<Seq<u8>, AnnotationError> {
    match managed_notes_of(decode_utf8(body)) {
        Some((_, e)) => if is_char_boundary(body, e) {
            Ok(body.subrange(0, e) + block + body.subrange(e, body.len() as int))
        } else {
            Err(AnnotationError::InvalidUtf8Boundary)
        },
        None => Ok(with_notes_block(body, block)),
    }
}

fn attach_note(body: &str, block: &str) -> (r: Result<Vec<u8>, AnnotationError>)
    ensures
        match (r, attach_spec(encode_utf8(body@), encode_utf8(block@))) {
            (Ok(out), Ok(bytes)) => out@ == bytes && valid_utf8(out@),
            (Err(e), Err(f)) => e == f,
            _ => false,
        },
{
    let notes = managed_notes_range(body);
    let hbytes = body.as_bytes();
    let blockb = block.as_bytes();
    let ghost bodyb = hbytes@;
    proof {
        encode_utf8_valid_utf8(block@);
        encode_utf8_valid_utf8(body@);
        encode_utf8_decode_utf8(body@);
    }
    let mut out: Vec<u8> = Vec::new();
    match notes {
        Some(range) => {
            if !body.is_char_boundary(range.end) {
                return Err(AnnotationError::InvalidUtf8Boundary);
            }
            proof {
                valid_utf8_split(bodyb, range.end as int);
            }
            push_bytes(&mut out, hbytes, 0, range.end);
            push_all(&mut out, blockb);
            push_bytes(&mut out, hbytes, range.end, hbytes.len());
            proof {
                let q1 = bodyb.subrange(0, range.end as int);
                let q2 = bodyb.subrange(range.end as int, bodyb.len() as int);
                valid_utf8_concat(q1, blockb@);
                valid_utf8_concat(q1 + blockb@, q2);
            }
        },
        None => {
            proof {
                lemma_newline_bytes();
            }
            push_all(&mut out, hbytes);
            assert(out@ =~= bodyb);
            let n = hbytes.len();
            if n == 0 || hbytes[n - 1] != 10 {
                proof {
                    valid_utf8_concat(out@, seq![10u8]);
                    assert(out@.push(10u8) =~= out@ + seq![10u8]);
                }
                out.push(10u8);
            }
            assert(valid_utf8(out@));
            let m = out.len();
            if !(m >= 2 && out[m - 1] == 10 && out[m - 2] == 10) {
                proof {
                    valid_utf8_concat(out@, seq![10u8]);
                    assert(out@.push(10u8) =~= out@ + seq![10u8]);
                }
                out.push(10u8);
            }
            assert(valid_utf8(out@));
            let ghost b2 = out@;
            proof {
                encode_utf8_valid_utf8(NOTES_START@);
                encode_utf8_valid_utf8(NOTES_HEADING@);
                encode_utf8_valid_utf8(NOTES_END@);
                let r1 = encode_utf8(NOTES_START@);
                let r2 = encode_utf8(NOTES_HEADING@);
                let r4 = encode_utf8(NOTES_END@);
                valid_utf8_concat(b2, r1);
                valid_utf8_concat(b2 + r1, r2);
                valid_utf8_concat(b2 + r1 + r2, blockb@);
                valid_utf8_concat(b2 + r1 + r2 + blockb@, r4);
                valid_utf8_concat(b2 + r1 + r2 + blockb@ + r4, seq![10u8]);
            }
            push_all(&mut out, NOTES_START.as_bytes());
            push_all(&mut out, NOTES_HEADING.as_bytes());
            push_all(&mut out, blockb);
            push_all(&mut out, NOTES_END.as_bytes());
            out.push(10u8);
            assert(out@ =~= with_notes_block(bodyb, blockb@));
        },
    }
    Ok(out)
}

/// Wraps selected body text in a highlighted reference link and appends its
/// managed endnote.
pub fn annotate(source: &str, request: &AnnotationRequest<'_>) -> (r: Result<String, AnnotationError>)
    ensures
        bytes_result_matches(
            r,
            annotate_spec(source@, request.id@, request.kind, request.note@, request.selection.start as int, request.selection.end as int),
        ),
{
    match validate_request(source, request) {
        Err(e) => return Err(e),
        Ok(()) => {},
    }
    let start = request.selection.start;
    let end = request.selection.end;
    let src = source.as_bytes();
    let ghost srcb = src@;
    proof {
        encode_utf8_valid_utf8(source@);
        lemma_valid_pieces(srcb, start as int, end as int);
    }
    let body = highlight(source, start, end, request.id.as_str());
    let ghost bodyb = body@;
    let highlighted = string_from_utf8(body);
    proof {
        decode_utf8_encode_utf8(bodyb);
    }
    let number = next_note_number(source);
    let block = format_note(request, number);
    match attach_note(highlighted.as_str(), block.as_str()) {
        Err(e) => Err(e),
        Ok(out) => {
            let ghost outb = out@;
            let result = string_from_utf8(out);
            proof {
                decode_utf8_encode_utf8(outb);
            }
            Ok(result)
        },
    }
}

/// The endnotes already in a document: the note anchors inside its
/// managed-notes block, or none when it has no block that slices the source.
pub open spec fn existing_note_count(source: Seq<char>) -> nat {
    match managed_notes_of(source) {
        Some((a, b)) => {
            let src = encode_utf8(source);
            if 0 <= a <= b <= src.len() && is_char_boundary(src, a) && is_char_boundary(src, b) {
                count_occurrences(src.subrange(a, b), encode_utf8(NOTE_ANCHOR@))
            } else {
                0
            }
        },
        None => 0,
    }
}

/// `part` occurs as a contiguous run of bytes in `whole`.
pub open spec fn contains_run(whole: Seq<u8>, part: Seq<u8>) -> bool {
    exists|p: int| 0 <= p && p + part.len() <= whole.len() && #[trigger] whole.subrange(p, p + part.len()) == part
}

/// Endnotes are numbered in document order: a new endnote is numbered one
/// past the endnotes already in the managed-notes block (1 when there is
/// none), and an accepted annotation writes exactly that numbered endnote
/// into the document, so that it never repeats an existing note's number.
pub proof fn law_new_note_numbered_after_existing(
    source: Seq<char>,
    id: Seq<char>,
    kind: NoteKind,
    note: Seq<char>,
    s: int,
    t: int,
)
    requires
        existing_note_count(source) < usize::MAX,
    ensures
        next_note_number_spec(source) == existing_note_count(source) + 1,
        managed_notes_of(source) is None ==> next_note_number_spec(source) == 1,
        annotate_spec(source, id, kind, note, s, t) matches Ok(out) ==> contains_run(
            out,
            encode_utf8(note_block(id, existing_note_count(source) + 1, kind, note)),
        ),
{
    let number = next_note_number_spec(source);
    assert(number == existing_note_count(source) + 1);
    if let Ok(out) = annotate_spec(source, id, kind, note, s, t) {
        let src = encode_utf8(source);
        let block = encode_utf8(note_block(id, number as nat, kind, note));
        encode_utf8_valid_utf8(source);
        lemma_highlight_valid(src, s, t, id);
        let body = highlight_bytes(src, s, t, id);
        match managed_notes_of(decode_utf8(body)) {
            Some((_, e)) => {
                assert(0 <= e <= body.len());
                assert(out == body.subrange(0, e) + block + body.subrange(e, body.len() as int));
                assert(out.subrange(e, e + block.len()) =~= block);
            },
            None => {
                let b1 = if body.len() == 0 || body.last() != 10u8 { body.push(10u8) } else { body };
                let b2 = if b1.len() >= 2 && b1[b1.len() - 1] == 10u8 && b1[b1.len() - 2] == 10u8 {
                    b1
                } else {
                    b1.push(10u8)
                };
                let p = (b2.len() + encode_utf8(NOTES_START@).len() + encode_utf8(NOTES_HEADING@).len()) as int;
                assert(out.subrange(p, p + block.len()) =~= block);
            },
        }
    }
}

} // verus!
