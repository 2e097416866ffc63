//! Character classes and UTF-8 byte helpers shared by the library.

use unicode_segmentation::UnicodeSegmentation;
use vstd::prelude::*;
use vstd::string::StringSliceAdditionalSpecFns;
use vstd::utf8::*;

verus! {

/// The Unicode `White_Space` property, which is what `char::is_whitespace` tests.
pub open spec fn is_white_space(c: char) -> bool {
    let v = c as u32;
    ||| 0x09 <= v <= 0x0D
    ||| v == 0x20
    ||| v == 0x85
    ||| v == 0xA0
    ||| v == 0x1680
    ||| 0x2000 <= v <= 0x200A
    ||| v == 0x2028
    ||| v == 0x2029
    ||| v == 0x202F
    ||| v == 0x205F
    ||| v == 0x3000
}

/// Executable test of [`is_white_space`].
pub fn char_is_white_space(c: char) -> (b: bool)
    ensures
        b == is_white_space(c),
{
    let v = c as u32;
    (0x09 <= v && v <= 0x0D) || v == 0x20 || v == 0x85 || v == 0xA0 || v == 0x1680 || (0x2000
        <= v && v <= 0x200A) || v == 0x2028 || v == 0x2029 || v == 0x202F || v == 0x205F || v
        == 0x3000
}

/// Decodes bytes as UTF-8 (`String::from_utf8`).
///
/// The contract claims what the standard library documents: the bytes are
/// accepted exactly when they are valid UTF-8, and then decoded as such.
#[verifier::external_body]
pub(crate) fn utf8_to_string(bytes: Vec<u8>) -> (r: Option<String>)
    ensures
        match r {
            Some(s) => valid_utf8(bytes@) && s@ == decode_utf8(bytes@),
            None => !valid_utf8(bytes@),
        },
{
    String::from_utf8(bytes).ok()
}

/// Builds a `String` from bytes that are known to be valid UTF-8.
pub(crate) fn string_from_utf8(bytes: Vec<u8>) -> (s: String)
    requires
        valid_utf8(bytes@),
    ensures
        s@ == decode_utf8(bytes@),
{
    match utf8_to_string(bytes) {
        Some(s) => s,
        None => String::new(),
    }
}

/// The text that `String::from_utf8_lossy` makes of some bytes.
pub uninterp spec fn lossy_decoding(bytes: Seq<u8>) -> Seq<char>;

/// Decodes bytes as UTF-8, replacing invalid sequences
/// (`String::from_utf8_lossy`).
///
/// The contract names the result, and states what the documentation promises
/// of valid input: it is decoded unchanged.
#[verifier::external_body]
pub(crate) fn lossy_string(bytes: &[u8]) -> (s: String)
    ensures
        s@ == lossy_decoding(bytes@),
        valid_utf8(bytes@) ==> s@ == decode_utf8(bytes@),
{
    String::from_utf8_lossy(bytes).into_owned()
}

/// The characters of a string slice, in order.
pub fn chars_of(s: &str) -> (chars: Vec<char>)
    ensures
        chars@ == s@,
{
    let mut chars: Vec<char> = Vec::new();
    for c in it: s.chars()
        invariant
            chars@ == it.seq().take(it.index() as int),
    {
        chars.push(c);
    }
    chars
}

/// `str::trim`: the sequence without leading and trailing white space.
pub open spec fn trim(s: Seq<char>) -> Seq<char>
    decreases s.len(),
{
    if s.len() == 0 {
        s
    } else if is_white_space(s[0]) {
        trim(s.drop_first())
    } else if is_white_space(s.last()) {
        trim(s.drop_last())
    } else {
        s
    }
}

/// Every character is white space (so that `trim` leaves nothing).
pub open spec fn all_white_space(s: Seq<char>) -> bool {
    forall|i: int| 0 <= i < s.len() ==> is_white_space(#[trigger] s[i])
}

/// Trimming leaves nothing exactly when every character is white space.
pub proof fn lemma_trim_empty(s: Seq<char>)
    ensures
        (trim(s).len() == 0) == all_white_space(s),
    decreases s.len(),
{
    if s.len() == 0 {
    } else if is_white_space(s[0]) {
        lemma_trim_empty(s.drop_first());
        if all_white_space(s.drop_first()) {
            assert forall|i: int| 0 <= i < s.len() implies is_white_space(#[trigger] s[i]) by {
                if i > 0 {
                    assert(s[i] == s.drop_first()[i - 1]);
                }
            }
        }
        if all_white_space(s) {
            assert forall|i: int| 0 <= i < s.drop_first().len() implies is_white_space(
                #[trigger] s.drop_first()[i],
            ) by {
                assert(s.drop_first()[i] == s[i + 1]);
            }
        }
    } else if is_white_space(s.last()) {
        assert(!all_white_space(s)) by {
            assert(!is_white_space(s[0]));
        }
        lemma_trim_nonempty_start(s.drop_last());
    } else {
    }
}

proof fn lemma_trim_nonempty_start(s: Seq<char>)
    requires
        s.len() > 0,
        !is_white_space(s[0]),
    ensures
        trim(s).len() > 0,
    decreases s.len(),
{
    if is_white_space(s.last()) {
        assert(s.len() > 1);
        assert(s.drop_last()[0] == s[0]);
        lemma_trim_nonempty_start(s.drop_last());
    }
}

/// The bounds of `trim` within a character vector.
pub fn trim_bounds(s: &Vec<char>) -> (r: (usize, usize))
    ensures
        r.0 <= r.1 <= s.len(),
        s@.subrange(r.0 as int, r.1 as int) == trim(s@),
{
    let mut a: usize = 0;
    let mut b: usize = s.len();
    assert(s@.subrange(0, s.len() as int) =~= s@);
    while a < b && char_is_white_space(s[a])
        invariant
            a <= b == s.len(),
            trim(s@.subrange(a as int, b as int)) == trim(s@),
        decreases b - a,
    {
        assert(s@.subrange(a as int, b as int).drop_first() =~= s@.subrange(a + 1, b as int));
        a = a + 1;
    }
    while b > a && char_is_white_space(s[b - 1])
        invariant
            a <= b <= s.len(),
            a < b ==> !is_white_space(s@[a as int]),
            trim(s@.subrange(a as int, b as int)) == trim(s@),
        decreases b - a,
    {
        let ghost sub = s@.subrange(a as int, b as int);
        assert(sub[0] == s@[a as int]);
        assert(sub.last() == s@[b - 1]);
        assert(sub.drop_last() =~= s@.subrange(a as int, b - 1));
        b = b - 1;
    }
    proof {
        let sub = s@.subrange(a as int, b as int);
        if a < b {
            assert(sub[0] == s@[a as int]);
            assert(sub.last() == s@[b - 1]);
        }
    }
    (a, b)
}

/// The code of a character after ASCII lower-casing (`to_ascii_lowercase`).
pub open spec fn ascii_lower(c: char) -> u32 {
    let v = c as u32;
    if 0x41 <= v <= 0x5A {
        (v + 32) as u32
    } else {
        v
    }
}

/// `eq_ignore_ascii_case` on character sequences.
pub open spec fn eq_ignore_ascii_case(a: Seq<char>, b: Seq<char>) -> bool {
    &&& a.len() == b.len()
    &&& forall|i: int| 0 <= i < a.len() ==> ascii_lower(#[trigger] a[i]) == ascii_lower(b[i])
}

/// Compares `a[lo..hi]` with `b`, ignoring ASCII case.
pub fn slice_eq_ignore_ascii_case(a: &Vec<char>, lo: usize, hi: usize, b: &Vec<char>) -> (r: bool)
    requires
        lo <= hi <= a.len(),
    ensures
        r == eq_ignore_ascii_case(a@.subrange(lo as int, hi as int), b@),
{
    if hi - lo != b.len() {
        return false;
    }
    let mut i: usize = 0;
    while i < b.len()
        invariant
            hi - lo == b.len(),
            lo <= hi <= a.len(),
            i <= b.len(),
            forall|j: int|
                0 <= j < i ==> ascii_lower(#[trigger] a@[lo + j]) == ascii_lower(b@[j]),
        decreases b.len() - i,
    {
        let x = a[lo + i] as u32;
        let y = b[i] as u32;
        let lx = if 0x41 <= x && x <= 0x5A { x + 32 } else { x };
        let ly = if 0x41 <= y && y <= 0x5A { y + 32 } else { y };
        if lx != ly {
            assert(ascii_lower(a@.subrange(lo as int, hi as int)[i as int]) != ascii_lower(b@[i as int]));
            return false;
        }
        i = i + 1;
    }
    assert forall|j: int| 0 <= j < b.len() implies ascii_lower(
        #[trigger] a@.subrange(lo as int, hi as int)[j],
    ) == ascii_lower(b@[j]) by {
        assert(a@.subrange(lo as int, hi as int)[j] == a@[lo + j]);
    }
    true
}

/// Compares `a[lo..hi]` with `b` exactly.
pub fn slice_eq(a: &Vec<char>, lo: usize, hi: usize, b: &Vec<char>) -> (r: bool)
    requires
        lo <= hi <= a.len(),
    ensures
        r == (a@.subrange(lo as int, hi as int) == b@),
{
    if hi - lo != b.len() {
        return false;
    }
    let mut i: usize = 0;
    while i < b.len()
        invariant
            hi - lo == b.len(),
            lo <= hi <= a.len(),
            i <= b.len(),
            forall|j: int| 0 <= j < i ==> #[trigger] a@[lo + j] == b@[j],
        decreases b.len() - i,
    {
        if a[lo + i] != b[i] {
            assert(a@.subrange(lo as int, hi as int)[i as int] != b@[i as int]);
            return false;
        }
        i = i + 1;
    }
    assert(a@.subrange(lo as int, hi as int) =~= b@) by {
        assert forall|j: int| 0 <= j < b.len() implies #[trigger] a@.subrange(
            lo as int,
            hi as int,
        )[j] == b@[j] by {
            assert(a@[lo + j] == b@[j]);
        }
    }
    true
}

/// `needle` occurs in `hay` starting at byte `i`.
pub open spec fn occurs_at(hay: Seq<u8>, needle: Seq<u8>, i: int) -> bool {
    0 <= i && i + needle.len() <= hay.len() && hay.subrange(i, i + needle.len()) == needle
}

/// `str::contains` with a string pattern: the pattern's bytes occur somewhere.
pub open spec fn contains_bytes(hay: Seq<u8>, needle: Seq<u8>) -> bool {
    exists|i: int| occurs_at(hay, needle, i)
}

/// Whether `needle` occurs in `hay` at `pos`.
pub fn bytes_match_at(hay: &[u8], pos: usize, needle: &[u8]) -> (r: bool)
    requires
        pos + needle@.len() <= hay@.len(),
    ensures
        r == (hay@.subrange(pos as int, pos + needle@.len()) == needle@),
{
    let hay_len = hay.len();
    assert(hay_len == hay@.len());
    let mut j: usize = 0;
    while j < needle.len()
        invariant
            pos + needle@.len() <= hay@.len(),
            hay@.len() <= usize::MAX,
            j <= needle@.len(),
            forall|m: int| 0 <= m < j ==> #[trigger] hay@[pos + m] == needle@[m],
        decreases needle@.len() - j,
    {
        if hay[pos + j] != needle[j] {
            assert(hay@.subrange(pos as int, pos + needle@.len())[j as int] != needle@[j as int]);
            return false;
        }
        j = j + 1;
    }
    assert(hay@.subrange(pos as int, pos + needle@.len()) =~= needle@) by {
        assert forall|m: int| 0 <= m < needle@.len() implies #[trigger] hay@.subrange(
            pos as int,
            pos + needle@.len(),
        )[m] == needle@[m] by {
            assert(hay@[pos + m] == needle@[m]);
        }
    }
    true
}

/// Searches `hay[lo..hi]` for `needle`.
pub fn find_bytes(hay: &[u8], lo: usize, hi: usize, needle: &[u8]) -> (r: bool)
    requires
        lo <= hi <= hay@.len(),
    ensures
        r == contains_bytes(hay@.subrange(lo as int, hi as int), needle@),
{
    let ghost sub = hay@.subrange(lo as int, hi as int);
    if needle.len() > hi - lo {
        assert forall|i: int| !occurs_at(sub, needle@, i) by {}
        return false;
    }
    let last = hi - lo - needle.len();
    let mut i: usize = 0;
    while i <= last
        invariant
            lo <= hi <= hay@.len(),
            needle@.len() <= hi - lo,
            last == hi - lo - needle@.len(),
            sub == hay@.subrange(lo as int, hi as int),
            forall|k: int| 0 <= k < i ==> !occurs_at(sub, needle@, k),
        decreases last + 1 - i,
    {
        if bytes_match_at(hay, lo + i, needle) {
            assert(sub.subrange(i as int, i + needle@.len()) =~= hay@.subrange(
                lo + i,
                lo + i + needle@.len(),
            ));
            assert(occurs_at(sub, needle@, i as int));
            return true;
        }
        assert(sub.subrange(i as int, i + needle@.len()) =~= hay@.subrange(
            lo + i,
            lo + i + needle@.len(),
        ));
        if i == last {
            assert forall|k: int| !occurs_at(sub, needle@, k) by {
                if 0 <= k && k + needle@.len() <= sub.len() {
                    assert(k <= i);
                }
            }
            return false;
        }
        i = i + 1;
    }
    assert forall|k: int| !occurs_at(sub, needle@, k) by {
        if 0 <= k && k + needle@.len() <= sub.len() {
            assert(k < i);
        }
    }
    false
}

/// UTF-8 encoding distributes over concatenation.
pub proof fn lemma_encode_concat(a: Seq<char>, b: Seq<char>)
    ensures
        encode_utf8(a + b) == encode_utf8(a) + encode_utf8(b),
    decreases a.len(),
{
    if a.len() == 0 {
        assert(a + b =~= b);
    } else {
        lemma_encode_concat(a.drop_first(), b);
        assert((a + b).drop_first() =~= a.drop_first() + b);
        assert((a + b)[0] == a[0]);
    }
}

/// Appends one character to a string (`String::push`).
#[verifier::external_body]
pub(crate) fn push_char(s: &mut String, c: char)
    ensures
        final(s)@ == old(s)@.push(c),
{
    s.push(c);
}

/// A string holding exactly the given characters.
pub fn string_from_chars(chars: &Vec<char>) -> (s: String)
    ensures
        s@ == chars@,
{
    let mut s = String::new();
    let mut i: usize = 0;
    while i < chars.len()
        invariant
            i <= chars.len(),
            s@ == chars@.take(i as int),
        decreases chars.len() - i,
    {
        push_char(&mut s, chars[i]);
        assert(chars@.take(i + 1) =~= chars@.take(i as int).push(chars@[i as int]));
        i = i + 1;
    }
    assert(chars@.take(i as int) =~= chars@);
    s
}

/// The extended grapheme clusters of a character sequence, as
/// `unicode_segmentation::UnicodeSegmentation::graphemes(s, true)` yields them.
pub uninterp spec fn grapheme_clusters(s: Seq<char>) -> Seq<Seq<char>>;

/// The character sequences held by a vector of strings.
pub open spec fn string_views(v: Seq<String>) -> Seq<Seq<char>> {
    v.map_values(|g: String| g@)
}

/// Splits a string into extended grapheme clusters with
/// `UnicodeSegmentation::graphemes(s, true)`.
///
/// The contract claims that the result is the crate's segmentation of `s`, and
/// that the clusters are non-empty and concatenate back to `s`, as an iterator
/// over the clusters of a string does.
#[verifier::external_body]
pub(crate) fn graphemes(s: &str) -> (clusters: Vec<String>)
    ensures
        string_views(clusters@) == grapheme_clusters(s@),
        string_views(clusters@).flatten() == s@,
        forall|i: int| 0 <= i < clusters@.len() ==> (#[trigger] clusters@[i])@.len() > 0,
{
    s.graphemes(true).map(|g| g.to_owned()).collect()
}

/// The decimal digit character for `d < 10`.
pub open spec fn digit_char(d: nat) -> char {
    ((48 + d) as u8) as char
}

/// The decimal representation of a natural number, as `format!("{n}")` writes it.
pub open spec fn decimal(n: nat) -> Seq<char>
    decreases n,
{
    if n < 10 {
        seq![digit_char(n)]
    } else {
        decimal(n / 10).push(digit_char(n % 10))
    }
}

/// Writes a number in decimal.
pub fn decimal_string(n: usize) -> (s: String)
    ensures
        s@ == decimal(n as nat),
    decreases n,
{
    if n < 10 {
        let mut s = String::new();
        push_char(&mut s, ((48 + n) as u8) as char);
        assert(s@ =~= seq![digit_char(n as nat)]);
        s
    } else {
        let mut s = decimal_string(n / 10);
        push_char(&mut s, ((48 + n % 10) as u8) as char);
        s
    }
}

/// Appends `bytes[lo..hi]` to `out`.
pub fn push_bytes(out: &mut Vec<u8>, bytes: &[u8], lo: usize, hi: usize)
    requires
        lo <= hi <= bytes@.len(),
    ensures
        final(out)@ == old(out)@ + bytes@.subrange(lo as int, hi as int),
{
    let mut i = lo;
    while i < hi
        invariant
            lo <= i <= hi <= bytes@.len(),
            out@ == old(out)@ + bytes@.subrange(lo as int, i as int),
        decreases hi - i,
    {
        out.push(bytes[i]);
        assert(bytes@.subrange(lo as int, i + 1) =~= bytes@.subrange(lo as int, i as int).push(bytes@[i as int]));
        i = i + 1;
    }
}

/// Appends all of `bytes` to `out`.
pub fn push_all(out: &mut Vec<u8>, bytes: &[u8])
    ensures
        final(out)@ == old(out)@ + bytes@,
{
    push_bytes(out, bytes, 0, bytes.len());
    assert(bytes@.subrange(0, bytes@.len() as int) =~= bytes@);
}

/// The number of positions at which `needle` occurs in `hay`.
pub open spec fn count_occurrences(hay: Seq<u8>, needle: Seq<u8>) -> nat
    decreases hay.len(),
{
    if hay.len() == 0 {
        0
    } else {
        count_occurrences(hay.drop_last(), needle) + if 0 < needle.len() <= hay.len()
            && hay.subrange(hay.len() - needle.len(), hay.len() as int) == needle {
            1nat
        } else {
            0nat
        }
    }
}

/// Counts the occurrences of `needle` in `hay[lo..hi]`.
pub fn count_occurrences_in(hay: &[u8], lo: usize, hi: usize, needle: &[u8]) -> (c: usize)
    requires
        lo <= hi <= hay@.len(),
    ensures
        c == count_occurrences(hay@.subrange(lo as int, hi as int), needle@),
{
    let mut c: usize = 0;
    let mut k = lo;
    assert(hay@.subrange(lo as int, lo as int) =~= Seq::<u8>::empty());
    while k < hi
        invariant
            lo <= k <= hi <= hay@.len(),
            c <= k - lo,
            c == count_occurrences(hay@.subrange(lo as int, k as int), needle@),
        decreases hi - k,
    {
        let ghost sub = hay@.subrange(lo as int, k + 1);
        assert(sub.drop_last() =~= hay@.subrange(lo as int, k as int));
        let n = needle.len();
        if 0 < n && n <= k + 1 - lo {
            let found = bytes_match_at(hay, k + 1 - n, needle);
            assert(sub.subrange(sub.len() - n, sub.len() as int) =~= hay@.subrange(k + 1 - n, k + 1));
            if found {
                c = c + 1;
            }
        }
        k = k + 1;
    }
    c
}

/// Compares two string slices.
pub fn str_eq(a: &str, b: &str) -> (r: bool)
    ensures
        r == (a@ == b@),
{
    let x = a.as_bytes();
    let y = b.as_bytes();
    proof {
        encode_utf8_decode_utf8(a@);
        encode_utf8_decode_utf8(b@);
    }
    if x.len() != y.len() {
        return false;
    }
    let mut i: usize = 0;
    while i < x.len()
        invariant
            x@.len() == y@.len(),
            x@ == encode_utf8(a@),
            y@ == encode_utf8(b@),
            i <= x@.len(),
            forall|j: int| 0 <= j < i ==> #[trigger] x@[j] == y@[j],
        decreases x@.len() - i,
    {
        if x[i] != y[i] {
            return false;
        }
        i = i + 1;
    }
    assert(x@ =~= y@);
    true
}


/// A string holding `str::trim` of the given text.
pub fn trim_string(s: &str) -> (r: String)
    ensures
        r@ == trim(s@),
{
    let chars = chars_of(s);
    let (a, b) = trim_bounds(&chars);
    let mut kept: Vec<char> = Vec::new();
    let mut i = a;
    while i < b
        invariant
            a <= i <= b <= chars@.len(),
            kept@ == chars@.subrange(a as int, i as int),
        decreases b - i,
    {
        kept.push(chars[i]);
        i = i + 1;
        assert(kept@ =~= chars@.subrange(a as int, i as int));
    }
    string_from_chars(&kept)
}

/// `o` is the first byte at which `needle` occurs in `hay`.
pub open spec fn first_occurs_at(hay: Seq<u8>, needle: Seq<u8>, o: int) -> bool {
    &&& occurs_at(hay, needle, o)
    &&& forall|k: int| 0 <= k < o ==> !occurs_at(hay, needle, k)
}

/// `str::find` with a string pattern, on bytes: the first byte at which
/// `needle` occurs in `hay`.
pub fn first_occurrence(hay: &[u8], needle: &[u8]) -> (r: Option<usize>)
    ensures
        match r {
            Some(o) => first_occurs_at(hay@, needle@, o as int),
            None => forall|k: int| !occurs_at(hay@, needle@, k),
        },
{
    if needle.len() > hay.len() {
        return None;
    }
    let last = hay.len() - needle.len();
    let mut i: usize = 0;
    while i <= last
        invariant
            needle@.len() <= hay@.len(),
            last == hay@.len() - needle@.len(),
            forall|k: int| 0 <= k < i ==> !occurs_at(hay@, needle@, k),
        decreases last + 1 - i,
    {
        if bytes_match_at(hay, i, needle) {
            return Some(i);
        }
        if i == last {
            assert forall|k: int| !occurs_at(hay@, needle@, k) by {
                if 0 <= k && k + needle@.len() <= hay@.len() {
                    assert(k <= i);
                }
            }
            return None;
        }
        i = i + 1;
    }
    None
}

/// The byte just after the last line feed before `s`, or 0: where the line
/// holding byte `s` starts.
pub open spec fn line_start(b: Seq<u8>, s: int) -> int
    decreases s,
{
    if s <= 0 {
        0
    } else if b[s - 1] == 10u8 {
        s
    } else {
        line_start(b, s - 1)
    }
}

/// The first line feed at or after `t`, or the end: where the line holding
/// byte `t` ends.
pub open spec fn line_end(b: Seq<u8>, t: int) -> int
    decreases b.len() - t,
{
    if t >= b.len() {
        b.len() as int
    } else if b[t] == 10u8 {
        t
    } else {
        line_end(b, t + 1)
    }
}

/// The byte after a line feed starts a character.
pub proof fn lemma_boundary_after_newline(b: Seq<u8>, i: int)
    requires
        valid_utf8(b),
        0 < i <= b.len(),
        b[i - 1] == 10u8,
    ensures
        is_char_boundary(b, i),
{
    if i == b.len() {
        is_char_boundary_start_end_of_seq(b);
    } else {
        is_char_boundary_iff_not_is_continuation_byte(b, i - 1);
        valid_utf8_split(b, i - 1);
        let suffix = b.subrange(i - 1, b.len() as int);
        assert(suffix[0] == 10u8);
        let rest = b.subrange(i, b.len() as int);
        assert(pop_first_scalar(suffix) =~= rest);
        assert(valid_utf8(rest));
        is_char_boundary_iff_not_is_continuation_byte(rest, 0);
        assert(rest[0] == b[i]);
        is_char_boundary_iff_not_is_continuation_byte(b, i);
    }
}

/// A line feed byte starts a character.
pub proof fn lemma_boundary_at_newline(b: Seq<u8>, i: int)
    requires
        valid_utf8(b),
        0 <= i <= b.len(),
        i < b.len() ==> b[i] == 10u8,
    ensures
        is_char_boundary(b, i),
{
    if i == b.len() {
        is_char_boundary_start_end_of_seq(b);
    } else {
        is_char_boundary_iff_not_is_continuation_byte(b, i);
    }
}

/// `&s[lo..hi]` for a byte range whose ends start characters.
pub fn str_slice(s: &str, lo: usize, hi: usize) -> (r: &str)
    requires
        lo <= hi <= encode_utf8(s@).len(),
        is_char_boundary(encode_utf8(s@), lo as int),
        is_char_boundary(encode_utf8(s@), hi as int),
    ensures
        r@ == decode_utf8(encode_utf8(s@).subrange(lo as int, hi as int)),
{
    let ghost bytes = encode_utf8(s@);
    let len = s.as_bytes().len();
    proof {
        encode_utf8_valid_utf8(s@);
        valid_utf8_split(bytes, lo as int);
    }
    let (_, rest) = s.split_at(lo);
    proof {
        let suffix = bytes.subrange(lo as int, bytes.len() as int);
        assert(rest.spec_bytes() =~= suffix);
        if hi == len {
            is_char_boundary_start_end_of_seq(suffix);
        } else {
            is_char_boundary_iff_not_is_continuation_byte(bytes, hi as int);
            is_char_boundary_iff_not_is_continuation_byte(suffix, hi - lo);
            assert(suffix[hi - lo] == bytes[hi as int]);
        }
    }
    let (piece, _) = rest.split_at(hi - lo);
    proof {
        assert(piece.spec_bytes() =~= bytes.subrange(lo as int, hi as int));
        encode_utf8_decode_utf8(piece@);
    }
    piece
}

/// The whole source line (or lines) around a byte range, without the line
/// feeds that bound it.
pub fn line_context(source: &str, s: usize, t: usize) -> (r: String)
    requires
        s <= t <= encode_utf8(source@).len(),
    ensures
        r@ == decode_utf8(encode_utf8(source@).subrange(
            line_start(encode_utf8(source@), s as int),
            line_end(encode_utf8(source@), t as int),
        )),
{
    let bytes = source.as_bytes();
    let ghost b = encode_utf8(source@);
    proof {
        encode_utf8_valid_utf8(source@);
    }
    let mut a = s;
    while a > 0 && bytes[a - 1] != 10u8
        invariant
            bytes@ == b,
            a <= s <= t <= b.len(),
            line_start(b, a as int) == line_start(b, s as int),
        decreases a,
    {
        a = a - 1;
    }
    let mut e = t;
    while e < bytes.len() && bytes[e] != 10u8
        invariant
            bytes@ == b,
            t <= e <= b.len(),
            line_end(b, e as int) == line_end(b, t as int),
        decreases b.len() - e,
    {
        e = e + 1;
    }
    proof {
        if a > 0 {
            lemma_boundary_after_newline(b, a as int);
        } else {
            is_char_boundary_start_end_of_seq(b);
        }
        lemma_boundary_at_newline(b, e as int);
    }
    str_slice(source, a, e).to_owned()
}


/// The text without its last extended grapheme cluster (unchanged when it has
/// none).
pub open spec fn without_last_grapheme(s: Seq<char>) -> Seq<char> {
    let g = grapheme_clusters(s);
    if g.len() == 0 {
        s
    } else {
        g.drop_last().flatten()
    }
}

/// Deletes the last extended grapheme cluster of a string, as Backspace does
/// in a text field.
pub fn remove_last_grapheme(s: &mut String)
    ensures
        final(s)@ == without_last_grapheme(old(s)@),
{
    let clusters = graphemes(s.as_str());
    let n = clusters.len();
    if n == 0 {
        return;
    }
    let ghost views = string_views(clusters@);
    let mut out = String::new();
    let mut i: usize = 0;
    while i < n - 1
        invariant
            n == clusters@.len(),
            n > 0,
            i <= n - 1,
            views == string_views(clusters@),
            out@ == views.take(i as int).flatten(),
        decreases n - 1 - i,
    {
        out.append(clusters[i].as_str());
        proof {
            views.take(i as int).lemma_flatten_push(views[i as int]);
            assert(views.take(i as int).push(views[i as int]) =~= views.take(i + 1));
        }
        i = i + 1;
    }
    assert(views.take((n - 1) as int) =~= views.drop_last());
    *s = out;
}

} // verus!
