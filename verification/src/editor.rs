//! Rendered-grapheme cursor and visual-selection state, with grapheme, word
//! and Markdown paragraph navigation.

use std::ops::Range;

use vstd::prelude::*;
use vstd::string::StringSliceAdditionalSpecFns;
use vstd::utf8::*;

use crate::markdown::{
    all_faithful, projection_spec, project_text, GraphemeModel, Projection, ProjectionError,
};
use crate::text::{chars_of, str_slice};

verus! {

/// Editor projection failure.
#[derive(Debug)]
pub enum EditorError {
    /// Markdown projection failed.
    Projection(ProjectionError),
}

/// Mathematical view of an [`Editor`].
pub struct EditorModel {
    /// The Markdown source.
    pub source: Seq<char>,
    /// The rendered graphemes.
    pub graphemes: Seq<GraphemeModel>,
    /// Rendered index of the cursor.
    pub cursor: int,
    /// Rendered index where the visual selection started, if one is active.
    pub anchor: Option<int>,
}

/// Selection state over one Markdown source.
#[derive(Debug)]
pub struct Editor {
    source: String,
    projection: Projection,
    cursor: usize,
    anchor: Option<usize>,
}

/// The cursor of an editor is a rendered index, or 0 when nothing is rendered.
pub open spec fn cursor_in_range(m: EditorModel) -> bool {
    m.cursor < m.graphemes.len() || (m.graphemes.len() == 0 && m.cursor == 0)
}

/// The selection anchor, if any, is a rendered index, or 0 when nothing is
/// rendered.
pub open spec fn anchor_in_range(m: EditorModel) -> bool {
    m.anchor matches Some(a) ==> (a < m.graphemes.len() || (m.graphemes.len() == 0 && a == 0))
}

/// The rendered index is a selectable grapheme.
pub open spec fn selectable_at(gs: Seq<GraphemeModel>, i: int) -> bool {
    0 <= i < gs.len() && gs[i].selectable
}

/// The optional index agrees with an optional `usize`.
pub open spec fn opt_index(o: Option<usize>) -> Option<int> {
    match o {
        Some(i) => Some(i as int),
        None => None,
    }
}

impl View for Editor {
    type V = EditorModel;

    closed spec fn view(&self) -> EditorModel {
        EditorModel {
            source: self.source@,
            graphemes: self.projection@,
            cursor: self.cursor as int,
            anchor: opt_index(self.anchor),
        }
    }
}

/// The first selectable index, or 0 when there is none.
pub open spec fn first_selectable_or_zero(gs: Seq<GraphemeModel>, c: int) -> bool {
    ||| (selectable_at(gs, c) && forall|k: int| 0 <= k < c ==> !(#[trigger] gs[k]).selectable)
    ||| (c == 0 && forall|k: int| 0 <= k < gs.len() ==> !(#[trigger] gs[k]).selectable)
}

/// The rendered indices `[start, end)` spanned by the anchor and the cursor.
pub open spec fn selection_indices_spec(m: EditorModel) -> Option<(int, int)> {
    match m.anchor {
        Some(a) => {
            let lo = if a <= m.cursor { a } else { m.cursor };
            let hi = if a <= m.cursor { m.cursor } else { a };
            Some((lo, if hi + 1 > usize::MAX { usize::MAX as int } else { hi + 1 }))
        },
        None => None,
    }
}

/// The source byte range from the first to the last selected grapheme.
pub open spec fn selection_range_spec(m: EditorModel) -> Option<(int, int)> {
    match selection_indices_spec(m) {
        Some((lo, hi)) => if lo < m.graphemes.len() && hi >= 1 && hi - 1 < m.graphemes.len() {
            Some((m.graphemes[lo].start, m.graphemes[hi - 1].end))
        } else {
            None
        },
        None => None,
    }
}

/// `str::get` on a byte range: the characters of that slice when it is one.
pub open spec fn source_slice(source: Seq<char>, s: int, t: int) -> Option<Seq<char>> {
    let bytes = encode_utf8(source);
    if 0 <= s <= t <= bytes.len() && is_char_boundary(bytes, s) && is_char_boundary(bytes, t) {
        Some(decode_utf8(bytes.subrange(s, t)))
    } else {
        None
    }
}

/// `str::get` on a byte range: the slice when both ends start characters.
pub fn str_get(s: &str, lo: usize, hi: usize) -> (r: Option<&str>)
    ensures
        match source_slice(s@, lo as int, hi as int) {
            Some(text) => r matches Some(x) && x@ == text,
            None => r is None,
        },
{
    let n = s.as_bytes().len();
    if lo <= hi && hi <= n && s.is_char_boundary(lo) && s.is_char_boundary(hi) {
        Some(str_slice(s, lo, hi))
    } else {
        None
    }
}

/// `k` is the first selectable index at or after `s`.
pub open spec fn first_selectable_from(gs: Seq<GraphemeModel>, s: int, k: int) -> bool {
    &&& s <= k
    &&& selectable_at(gs, k)
    &&& forall|j: int| s <= j < k ==> !(#[trigger] gs[j]).selectable
}

/// No index at or after `s` is selectable.
pub open spec fn none_selectable_from(gs: Seq<GraphemeModel>, s: int) -> bool {
    forall|j: int| s <= j < gs.len() ==> !(#[trigger] gs[j]).selectable
}

/// `k` is the last selectable index at or before `s`.
pub open spec fn last_selectable_upto(gs: Seq<GraphemeModel>, s: int, k: int) -> bool {
    &&& k <= s
    &&& selectable_at(gs, k)
    &&& forall|j: int| k < j <= s ==> !(#[trigger] gs[j]).selectable
}

/// No index in `[0, s]` is selectable.
pub open spec fn none_selectable_upto(gs: Seq<GraphemeModel>, s: int) -> bool {
    forall|j: int| 0 <= j <= s && j < gs.len() ==> !(#[trigger] gs[j]).selectable
}

/// The editor with only the cursor changed.
pub open spec fn with_cursor(m: EditorModel, c: int) -> EditorModel {
    EditorModel { cursor: c, ..m }
}

/// A word grapheme's script class: words stop where ASCII meets non-ASCII text,
/// so that a Korean particle is not part of a Latin word before it.
#[derive(Debug, Clone, Copy, PartialEq, Eq, Structural)]
pub enum WordClass {
    Ascii,
    NonAscii,
}

/// `char::is_alphanumeric`: the Unicode `Alphabetic` or `Numeric` property.
pub uninterp spec fn is_alphanumeric(c: char) -> bool;

/// Tests a character with `char::is_alphanumeric`.
///
/// The contract only names the result; the Unicode property tables are not restated.
#[verifier::external_body]
fn char_is_alphanumeric(c: char) -> (b: bool)
    ensures
        b == is_alphanumeric(c),
{
    c.is_alphanumeric()
}

/// A character that belongs to a word.
pub open spec fn word_char(c: char) -> bool {
    is_alphanumeric(c) || c == '_' || c == '-'
}

/// The first word character of a text.
pub open spec fn first_word_char(g: Seq<char>) -> Option<char>
    decreases g.len(),
{
    if g.len() == 0 {
        None
    } else if word_char(g[0]) {
        Some(g[0])
    } else {
        first_word_char(g.drop_first())
    }
}

/// The word class of a grapheme: that of its first word character.
pub open spec fn word_class_spec(g: Seq<char>) -> Option<WordClass> {
    match first_word_char(g) {
        Some(c) => Some(if (c as u32) < 128 { WordClass::Ascii } else { WordClass::NonAscii }),
        None => None,
    }
}

/// Classifies a rendered grapheme for word selection.
pub fn word_class(grapheme: &str) -> (r: Option<WordClass>)
    ensures
        r == word_class_spec(grapheme@),
{
    let chars = chars_of(grapheme);
    let mut i: usize = 0;
    assert(chars@.skip(0) =~= chars@);
    while i < chars.len()
        invariant
            i <= chars.len(),
            chars@ == grapheme@,
            first_word_char(grapheme@) == first_word_char(chars@.skip(i as int)),
        decreases chars.len() - i,
    {
        let c = chars[i];
        assert(chars@.skip(i as int)[0] == c);
        if char_is_alphanumeric(c) || c == '_' || c == '-' {
            return Some(if (c as u32) < 128 { WordClass::Ascii } else { WordClass::NonAscii });
        }
        assert(chars@.skip(i as int).drop_first() =~= chars@.skip(i + 1));
        i = i + 1;
    }
    assert(chars@.skip(i as int).len() == 0);
    None
}

/// The grapheme's word class is `cls`.
pub open spec fn has_class(gs: Seq<GraphemeModel>, i: int, cls: WordClass) -> bool {
    0 <= i < gs.len() && word_class_spec(gs[i].text) == Some(cls)
}

/// Extends a word leftwards from `s` over graphemes of class `cls`.
pub open spec fn extend_left(gs: Seq<GraphemeModel>, s: int, cls: WordClass) -> int
    decreases s,
{
    if s > 0 && has_class(gs, s - 1, cls) {
        extend_left(gs, s - 1, cls)
    } else {
        s
    }
}

/// Extends a word rightwards from `e` over graphemes of class `cls`.
pub open spec fn extend_right(gs: Seq<GraphemeModel>, e: int, cls: WordClass) -> int
    decreases gs.len() - e,
{
    if e + 1 < gs.len() && has_class(gs, e + 1, cls) {
        extend_right(gs, e + 1, cls)
    } else {
        e
    }
}

/// `j` is the last selectable index in an earlier paragraph than `cur`.
pub open spec fn last_earlier_paragraph(gs: Seq<GraphemeModel>, cur: int, j: int) -> bool {
    &&& selectable_at(gs, j)
    &&& gs[j].paragraph < cur
    &&& forall|k: int| j < k < gs.len() ==> !((#[trigger] gs[k]).selectable && gs[k].paragraph < cur)
}

/// `k` is the first selectable index of paragraph `p`.
pub open spec fn first_of_paragraph(gs: Seq<GraphemeModel>, p: int, k: int) -> bool {
    &&& selectable_at(gs, k)
    &&& gs[k].paragraph == p
    &&& forall|j: int| 0 <= j < k ==> !((#[trigger] gs[j]).selectable && gs[j].paragraph == p)
}

/// `k` is the first selectable index of a later paragraph than `cur`.
pub open spec fn first_later_paragraph(gs: Seq<GraphemeModel>, cur: int, k: int) -> bool {
    &&& selectable_at(gs, k)
    &&& gs[k].paragraph > cur
    &&& forall|j: int| 0 <= j < k ==> !((#[trigger] gs[j]).selectable && gs[j].paragraph > cur)
}

/// The first selectable index at or after `start`.
fn first_selectable(projection: &Projection, start: usize) -> (r: Option<usize>)
    ensures
        match r {
            Some(i) => start <= i && selectable_at(projection@, i as int) && forall|k: int|
                start <= k < i ==> !(#[trigger] projection@[k]).selectable,
            None => forall|k: int| start <= k < projection@.len() ==> !(#[trigger] projection@[k]).selectable,
        },
{
    let n = projection.len();
    let mut i = start;
    while i < n
        invariant
            n == projection@.len(),
            start <= i,
            forall|k: int| start <= k < i ==> !(#[trigger] projection@[k]).selectable,
        decreases n - i,
    {
        if projection.get(i).is_selectable() {
            return Some(i);
        }
        i = i + 1;
    }
    None
}

impl Editor {
    #[verifier::type_invariant]
    spec fn inv(self) -> bool {
        &&& cursor_in_range(self@)
        &&& anchor_in_range(self@)
        &&& self.projection@.len() <= usize::MAX
    }

    /// Creates an editor at the first selectable grapheme.
    pub fn new(source: &str) -> (r: Result<Self, EditorError>)
        ensures
            match projection_spec(source@) {
                Ok(gs) => r matches Ok(e) && e@.source == source@ && e@.graphemes == gs
                    && e@.anchor is None && first_selectable_or_zero(gs, e@.cursor),
                Err(err) => r matches Err(EditorError::Projection(x)) && x == err,
            },
            r matches Ok(e) ==> all_faithful(encode_utf8(source@), e@.graphemes),
    {
        let projection = match project_text(source) {
            Ok(p) => p,
            Err(e) => return Err(EditorError::Projection(e)),
        };
        let rendered = projection.len();
        assert(rendered == projection@.len());
        let cursor = match first_selectable(&projection, 0) {
            Some(i) => i,
            None => 0,
        };
        Ok(Editor { source: source.to_owned(), projection, cursor, anchor: None })
    }

    /// Starts visual selection at the cursor.
    pub fn start_visual(&mut self)
        ensures
            final(self)@ == (EditorModel { anchor: Some(old(self)@.cursor), ..old(self)@ }),
    {
        proof {
            use_type_invariant(&*self);
        }
        self.anchor = Some(self.cursor);
    }

    /// Clears the visual selection.
    pub fn clear_visual(&mut self)
        ensures
            final(self)@ == (EditorModel { anchor: None, ..old(self)@ }),
    {
        proof {
            use_type_invariant(&*self);
        }
        self.anchor = None;
    }

    fn set_cursor(&mut self, index: usize) -> (b: bool)
        ensures
            b == selectable_at(old(self)@.graphemes, index as int),
            b ==> final(self)@ == with_cursor(old(self)@, index as int),
            !b ==> final(self)@ == old(self)@,
    {
        proof {
            use_type_invariant(&*self);
        }
        if index < self.projection.len() && self.projection.get(index).is_selectable() {
            self.cursor = index;
            true
        } else {
            false
        }
    }

    /// Starts visual selection at a selectable rendered grapheme.
    pub fn start_visual_at(&mut self, index: usize) -> (b: bool)
        ensures
            b == selectable_at(old(self)@.graphemes, index as int),
            b ==> final(self)@ == (EditorModel { cursor: index as int, anchor: Some(index as int), ..old(self)@ }),
            !b ==> final(self)@ == old(self)@,
    {
        proof {
            use_type_invariant(&*self);
        }
        if !self.set_cursor(index) {

            return false;
        }
        self.anchor = Some(index);
        true
    }

    /// Extends visual selection to a selectable rendered grapheme.
    pub fn extend_visual_to(&mut self, index: usize) -> (b: bool)
        ensures
            b == (old(self)@.anchor is Some && selectable_at(old(self)@.graphemes, index as int)),
            b ==> final(self)@ == with_cursor(old(self)@, index as int),
            !b ==> final(self)@ == old(self)@,
    {
        self.anchor.is_some() && self.set_cursor(index)
    }

    fn selection_indices(&self) -> (r: Option<Range<usize>>)
        ensures
            match selection_indices_spec(self@) {
                Some((lo, hi)) => r matches Some(x) && x.start == lo && x.end == hi,
                None => r is None,
            },
    {
        let anchor = match self.anchor {
            Some(a) => a,
            None => return None,
        };
        let start = if anchor <= self.cursor { anchor } else { self.cursor };
        let end = if anchor <= self.cursor { self.cursor } else { anchor };
        Some(start..end.saturating_add(1))
    }

    /// Returns the exact selected source byte range.
    pub fn selection_source_range(&self) -> (r: Option<Range<usize>>)
        ensures
            match selection_range_spec(self@) {
                Some((s, t)) => r matches Some(x) && x.start == s && x.end == t,
                None => r is None,
            },
    {
        let indices = match self.selection_indices() {
            Some(i) => i,
            None => return None,
        };
        let n = self.projection.len();
        if indices.start >= n || indices.end == 0 || indices.end - 1 >= n {
            return None;
        }
        let first = self.projection.get(indices.start);
        let last = self.projection.get(indices.end - 1);
        Some(first.source_start()..last.source_end())
    }

    /// Returns selected source text.
    pub fn selected_text(&self) -> (r: Option<&str>)
        ensures
            match selection_range_spec(self@) {
                Some((s, t)) => match source_slice(self@.source, s, t) {
                    Some(text) => r matches Some(x) && x@ == text,
                    None => r is None,
                },
                None => r is None,
            },
    {
        let range = match self.selection_source_range() {
            Some(r) => r,
            None => return None,
        };
        let source = self.source.as_str();
        let len = source.as_bytes().len();
        if !(range.start <= range.end && range.end <= len && source.is_char_boundary(range.start)
            && source.is_char_boundary(range.end)) {
            return None;
        }
        let ghost bytes = encode_utf8(source@);
        proof {
            encode_utf8_valid_utf8(source@);
            valid_utf8_split(bytes, range.start as int);
        }
        let (_, rest) = source.split_at(range.start);
        proof {
            let suffix = bytes.subrange(range.start as int, bytes.len() as int);
            assert(rest.spec_bytes() =~= suffix);
            if range.end == len {
                is_char_boundary_start_end_of_seq(suffix);
            } else {
                is_char_boundary_iff_not_is_continuation_byte(bytes, range.end as int);
                is_char_boundary_iff_not_is_continuation_byte(suffix, range.end - range.start);
                assert(suffix[range.end - range.start] == bytes[range.end as int]);
            }
        }
        let (selected, _) = rest.split_at(range.end - range.start);
        proof {
            assert(selected.spec_bytes() =~= bytes.subrange(range.start as int, range.end as int));
            encode_utf8_decode_utf8(selected@);
        }
        Some(selected)
    }

    /// Reports whether a rendered index is selected.
    pub fn is_selected(&self, index: usize) -> (b: bool)
        ensures
            b == (selection_indices_spec(self@) matches Some((lo, hi)) && lo <= index < hi),
    {
        match self.selection_indices() {
            Some(range) => range.start <= index && index < range.end,
            None => false,
        }
    }

    /// Returns the rendered projection.
    pub fn projection(&self) -> (p: &Projection)
        ensures
            p@ == self@.graphemes,
    {
        &self.projection
    }

    /// Returns the Markdown source.
    pub fn source(&self) -> (s: &str)
        ensures
            s@ == self@.source,
    {
        self.source.as_str()
    }

    /// Returns the cursor's rendered index.
    pub fn cursor(&self) -> (c: usize)
        ensures
            c == self@.cursor,
            cursor_in_range(self@),
            anchor_in_range(self@),
    {
        proof {
            use_type_invariant(self);
        }
        self.cursor
    }

    /// Returns the link target of the grapheme under the cursor.
    pub fn current_link_target(&self) -> (r: Option<&str>)
        ensures
            self@.cursor < self@.graphemes.len() ==> match self@.graphemes[self@.cursor].link_target {
                Some(t) => r matches Some(x) && x@ == t,
                None => r is None,
            },
            self@.cursor >= self@.graphemes.len() ==> r is None,
    {
        if self.cursor < self.projection.len() {
            self.projection.get(self.cursor).link_target()
        } else {
            None
        }
    }

    /// Moves to the first selectable grapheme at or after a source offset.
    pub fn jump_to_source(&mut self, source_offset: usize)
        ensures
            (exists|k: int| first_at_offset(old(self)@.graphemes, source_offset as int, k) && final(self)@ == with_cursor(old(self)@, k))
            || (no_selectable_at_offset(old(self)@.graphemes, source_offset as int) && final(self)@ == old(self)@),
    {
        proof {
            use_type_invariant(&*self);
        }
        let n = self.projection.len();
        let mut i: usize = 0;
        while i < n
            invariant
                n == self.projection@.len(),
                i <= n,
                forall|j: int| 0 <= j < i ==> !(#[trigger] self.projection@[j].selectable && self.projection@[j].start >= source_offset),
                self@ == old(self)@,
                anchor_in_range(self@),
            decreases n - i,
        {
            let item = self.projection.get(i);
            if item.is_selectable() && item.source_start() >= source_offset {
                self.cursor = i;
                assert(first_at_offset(old(self)@.graphemes, source_offset as int, i as int));
                assert(self@ == with_cursor(old(self)@, i as int));
                return;
            }
            i = i + 1;
        }
    }

    /// Sets a previously captured rendered cursor, if it is selectable.
    pub fn restore_cursor(&mut self, cursor: usize)
        ensures
            selectable_at(old(self)@.graphemes, cursor as int) ==> final(self)@ == with_cursor(old(self)@, cursor as int),
            !selectable_at(old(self)@.graphemes, cursor as int) ==> final(self)@ == old(self)@,
    {
        self.set_cursor(cursor);
    }

    fn current_paragraph(&self) -> (r: Option<usize>)
        ensures
            self@.cursor < self@.graphemes.len() ==> (r matches Some(p) && p == self@.graphemes[self@.cursor].paragraph),
            self@.cursor >= self@.graphemes.len() ==> r is None,
    {
        if self.cursor < self.projection.len() {
            Some(self.projection.get(self.cursor).paragraph())
        } else {
            None
        }
    }

    fn next_selectable(&self, start: usize, direction: isize) -> (r: Option<usize>)
        ensures
            direction >= 0 ==> match r {
                Some(k) => first_selectable_from(self@.graphemes, start as int, k as int),
                None => none_selectable_from(self@.graphemes, start as int),
            },
            direction < 0 ==> match r {
                Some(k) => last_selectable_upto(self@.graphemes, start as int, k as int),
                None => start >= self@.graphemes.len() || none_selectable_upto(self@.graphemes, start as int),
            },
    {
        let length = self.projection.len();
        if direction >= 0 {
            return first_selectable(&self.projection, start);
        }
        if start >= length {
            return None;
        }
        let mut index = start;
        loop
            invariant
                index <= start < length,
                direction < 0,
                length == self@.graphemes.len(),
                forall|j: int| index < j <= start ==> !(#[trigger] self@.graphemes[j]).selectable,
            decreases index,
        {
            if self.projection.get(index).is_selectable() {
                return Some(index);
            }
            if index == 0 {
                return None;
            }
            index = index - 1;
        }
    }

    /// Moves to the next selectable grapheme.
    pub fn move_right(&mut self)
        ensures
            final(self)@ == old(self)@ && none_selectable_from(old(self)@.graphemes, old(self)@.cursor + 1)
                || (exists|k: int| first_selectable_from(old(self)@.graphemes, old(self)@.cursor + 1, k)
                && final(self)@ == with_cursor(old(self)@, k)),
    {
        proof {
            use_type_invariant(&*self);
        }
        if let Some(next) = self.next_selectable(self.cursor.saturating_add(1), 1) {
            self.cursor = next;
            assert(final_is(self@, old(self)@, next as int));
        }
    }

    /// Moves to the previous selectable grapheme.
    pub fn move_left(&mut self)
        ensures
            old(self)@.cursor == 0 ==> final(self)@ == old(self)@,
            old(self)@.cursor > 0 ==> (final(self)@ == old(self)@ && none_selectable_upto(old(self)@.graphemes, old(self)@.cursor - 1)
                || (exists|k: int| last_selectable_upto(old(self)@.graphemes, old(self)@.cursor - 1, k)
                && final(self)@ == with_cursor(old(self)@, k))),
    {
        proof {
            use_type_invariant(&*self);
        }
        if self.cursor == 0 {
            return;
        }
        if let Some(previous) = self.next_selectable(self.cursor - 1, -1) {
            self.cursor = previous;
            assert(final_is(self@, old(self)@, previous as int));
        }
    }

    /// Moves to the first selectable grapheme in the next Markdown paragraph.
    pub fn move_paragraph_down(&mut self) -> (moved: bool)
        ensures
            moved == (old(self)@.cursor < old(self)@.graphemes.len() && exists|k: int|
                first_later_paragraph(old(self)@.graphemes, old(self)@.graphemes[old(self)@.cursor].paragraph, k)),
            moved ==> exists|k: int|
                first_later_paragraph(old(self)@.graphemes, old(self)@.graphemes[old(self)@.cursor].paragraph, k)
                && final(self)@ == with_cursor(old(self)@, k),
            !moved ==> final(self)@ == old(self)@,
    {
        proof {
            use_type_invariant(&*self);
        }
        let current = match self.current_paragraph() {
            Some(p) => p,
            None => return false,
        };
        let n = self.projection.len();
        let mut i: usize = 0;
        while i < n
            invariant
                n == self@.graphemes.len(),
                i <= n,
                self@ == old(self)@,
                anchor_in_range(self@),
                self@.cursor < n,
                current == self@.graphemes[self@.cursor].paragraph,
                forall|j: int| 0 <= j < i ==> !((#[trigger] self@.graphemes[j]).selectable && self@.graphemes[j].paragraph > current),
            decreases n - i,
        {
            let item = self.projection.get(i);
            if item.is_selectable() && item.paragraph() > current {
                self.cursor = i;
                assert(first_later_paragraph(old(self)@.graphemes, current as int, i as int));
                assert(final_is(self@, old(self)@, i as int));
                return true;
            }
            i = i + 1;
        }
        false
    }

    /// Moves to the first selectable grapheme in the previous Markdown paragraph.
    pub fn move_paragraph_up(&mut self) -> (moved: bool)
        ensures
            moved == (old(self)@.cursor < old(self)@.graphemes.len() && exists|j: int|
                last_earlier_paragraph(old(self)@.graphemes, old(self)@.graphemes[old(self)@.cursor].paragraph, j)),
            moved ==> exists|j: int, k: int|
                last_earlier_paragraph(old(self)@.graphemes, old(self)@.graphemes[old(self)@.cursor].paragraph, j)
                && first_of_paragraph(old(self)@.graphemes, old(self)@.graphemes[j].paragraph, k)
                && final(self)@ == with_cursor(old(self)@, k),
            !moved ==> final(self)@ == old(self)@,
    {
        proof {
            use_type_invariant(&*self);
        }
        let current = match self.current_paragraph() {
            Some(p) => p,
            None => return false,
        };
        let n = self.projection.len();
        let last = match last_earlier(&self.projection, current) {
            Some(x) => x,
            None => return false,
        };
        assert(last_earlier_paragraph(old(self)@.graphemes, current as int, last as int));
        let previous = self.projection.get(last).paragraph();
        let mut i: usize = 0;
        while i <= last
            invariant
                n == self@.graphemes.len(),
                last < n,
                self@ == old(self)@,
                anchor_in_range(self@),
                i <= last + 1,
                old(self)@.cursor < n,
                current == old(self)@.graphemes[old(self)@.cursor].paragraph,
                last_earlier_paragraph(old(self)@.graphemes, current as int, last as int),
                previous == self@.graphemes[last as int].paragraph,
                self@.graphemes[last as int].selectable,
                forall|k: int| 0 <= k < i ==> !((#[trigger] self@.graphemes[k]).selectable && self@.graphemes[k].paragraph == previous),
            decreases last + 1 - i,
        {
            let item = self.projection.get(i);
            if item.is_selectable() && item.paragraph() == previous {
                self.cursor = i;
                assert(first_of_paragraph(old(self)@.graphemes, previous as int, i as int));
                assert(final_is(self@, old(self)@, i as int));
                assert(last_earlier_paragraph(old(self)@.graphemes, old(self)@.graphemes[old(self)@.cursor].paragraph, last as int)
                    && first_of_paragraph(old(self)@.graphemes, old(self)@.graphemes[last as int].paragraph, i as int)
                    && self@ == with_cursor(old(self)@, i as int));
                return true;
            }
            i = i + 1;
        }
        assert(false);
        false
    }

    /// Selects the current contiguous rendered word.
    pub fn select_current_word(&mut self)
        ensures
            match (if old(self)@.cursor < old(self)@.graphemes.len() {
                word_class_spec(old(self)@.graphemes[old(self)@.cursor].text)
            } else {
                None
            }) {
                Some(cls) => final(self)@ == (EditorModel {
                    anchor: Some(extend_left(old(self)@.graphemes, old(self)@.cursor, cls)),
                    cursor: extend_right(old(self)@.graphemes, old(self)@.cursor, cls),
                    ..old(self)@
                }),
                None => final(self)@ == old(self)@,
            },
    {
        proof {
            use_type_invariant(&*self);
        }
        let n = self.projection.len();
        if self.cursor >= n {
            return;
        }
        let class = match word_class(self.projection.get(self.cursor).text()) {
            Some(c) => c,
            None => return,
        };
        let ghost gs = self@.graphemes;
        let mut start = self.cursor;
        while start > 0 && same_class(&self.projection, start - 1, class)
            invariant
                start <= self.cursor < n,
                n == gs.len(),
                gs == self@.graphemes,
                extend_left(gs, start as int, class) == extend_left(gs, self.cursor as int, class),
            decreases start,
        {
            start = start - 1;
        }
        let mut end = self.cursor;
        while end + 1 < n && same_class(&self.projection, end + 1, class)
            invariant
                self.cursor <= end < n,
                n == gs.len(),
                gs == self@.graphemes,
                extend_right(gs, end as int, class) == extend_right(gs, self.cursor as int, class),
            decreases n - end,
        {
            end = end + 1;
        }
        self.anchor = Some(start);
        self.cursor = end;
    }
} // impl

/// The last selectable index in a paragraph before `current`.
fn last_earlier(projection: &Projection, current: usize) -> (r: Option<usize>)
    ensures
        match r {
            Some(j) => last_earlier_paragraph(projection@, current as int, j as int),
            None => forall|k: int| !last_earlier_paragraph(projection@, current as int, k),
        },
{
    let n = projection.len();
    let mut j = n;
    while j > 0
        invariant
            n == projection@.len(),
            j <= n,
            forall|k: int| j <= k < n ==> !((#[trigger] projection@[k]).selectable && projection@[k].paragraph < current),
        decreases j,
    {
        let item = projection.get(j - 1);
        if item.is_selectable() && item.paragraph() < current {
            return Some(j - 1);
        }
        j = j - 1;
    }
    assert forall|k: int| !last_earlier_paragraph(projection@, current as int, k) by {
        if last_earlier_paragraph(projection@, current as int, k) {
            assert(projection@[k].selectable && projection@[k].paragraph < current);
        }
    }
    None
}

/// The new editor state is the old one with the cursor at `k`.
pub open spec fn final_is(now: EditorModel, before: EditorModel, k: int) -> bool {
    now == with_cursor(before, k)
}

fn same_class(projection: &Projection, i: usize, class: WordClass) -> (b: bool)
    requires
        i < projection@.len(),
    ensures
        b == has_class(projection@, i as int, class),
{
    match word_class(projection.get(i).text()) {
        Some(c) => c == class,
        None => false,
    }
}

/// `k` is the first selectable index whose source starts at or after `offset`.
pub open spec fn first_at_offset(gs: Seq<GraphemeModel>, offset: int, k: int) -> bool {
    &&& selectable_at(gs, k)
    &&& gs[k].start >= offset
    &&& forall|j: int| 0 <= j < k ==> !(#[trigger] gs[j].selectable && gs[j].start >= offset)
}

/// No selectable grapheme starts at or after `offset`.
pub open spec fn no_selectable_at_offset(gs: Seq<GraphemeModel>, offset: int) -> bool {
    forall|j: int| 0 <= j < gs.len() ==> !(#[trigger] gs[j].selectable && gs[j].start >= offset)
}

/// Extending left stops at the start of the run of `cls` graphemes that ends
/// just before `s`.
proof fn lemma_extend_left(gs: Seq<GraphemeModel>, s: int, cls: WordClass)
    requires
        0 <= s <= gs.len(),
    ensures
        0 <= extend_left(gs, s, cls) <= s,
        extend_left(gs, s, cls) == 0 || !has_class(gs, extend_left(gs, s, cls) - 1, cls),
        forall|k: int| extend_left(gs, s, cls) <= k < s ==> #[trigger] has_class(gs, k, cls),
    decreases s,
{
    if s > 0 && has_class(gs, s - 1, cls) {
        lemma_extend_left(gs, s - 1, cls);
    }
}

/// Extending right stops at the end of the run of `cls` graphemes that starts
/// just after `e`.
proof fn lemma_extend_right(gs: Seq<GraphemeModel>, e: int, cls: WordClass)
    requires
        0 <= e < gs.len(),
    ensures
        e <= extend_right(gs, e, cls) < gs.len(),
        extend_right(gs, e, cls) + 1 == gs.len() || !has_class(gs, extend_right(gs, e, cls) + 1, cls),
        forall|k: int| e < k <= extend_right(gs, e, cls) ==> #[trigger] has_class(gs, k, cls),
    decreases gs.len() - e,
{
    if e + 1 < gs.len() && has_class(gs, e + 1, cls) {
        lemma_extend_right(gs, e + 1, cls);
    }
}

/// Selecting the current word selects the whole word around the cursor: the
/// largest run of graphemes of the cursor's word class that contains the
/// cursor, wherever in the word the cursor stands. Every grapheme from the
/// anchor to the new cursor has that class, and the graphemes just outside
/// the run, where there are any, do not.
pub proof fn law_word_selection_is_whole_word(gs: Seq<GraphemeModel>, c: int, cls: WordClass)
    requires
        0 <= c < gs.len(),
        word_class_spec(gs[c].text) == Some(cls),
    ensures
        ({
            let a = extend_left(gs, c, cls);
            let e = extend_right(gs, c, cls);
            &&& 0 <= a <= c <= e < gs.len()
            &&& forall|k: int| a <= k <= e ==> #[trigger] has_class(gs, k, cls)
            &&& a == 0 || !has_class(gs, a - 1, cls)
            &&& e + 1 == gs.len() || !has_class(gs, e + 1, cls)
        }),
{
    lemma_extend_left(gs, c, cls);
    lemma_extend_right(gs, c, cls);
    assert(has_class(gs, c, cls));
}

/// Anchor and cursor play the same part in a selection: swapping them selects
/// the same rendered indices and the same source bytes. The selection runs
/// from whichever of the two comes first to whichever comes last, both
/// included, and no further.
pub proof fn law_selection_is_symmetric(m: EditorModel, a: int)
    requires
        m.anchor == Some(a),
        0 <= a < usize::MAX,
        0 <= m.cursor < usize::MAX,
    ensures
        ({
            let swapped = EditorModel { anchor: Some(m.cursor), cursor: a, ..m };
            &&& selection_indices_spec(swapped) == selection_indices_spec(m)
            &&& selection_range_spec(swapped) == selection_range_spec(m)
        }),
        selection_indices_spec(m) matches Some((lo, hi)) && lo <= a < hi && lo <= m.cursor < hi && (lo == a || lo
            == m.cursor) && (hi - 1 == a || hi - 1 == m.cursor),
{
}

} // verus!
