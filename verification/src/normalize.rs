//! Unicode normalization tailored to Bible-reference syntax.
//!
//! This module intentionally does not perform general-purpose Unicode
//! normalization or case folding. It only normalizes characters commonly used
//! as reference syntax and removes marks that otherwise make book aliases hard
//! to match.
use vstd::prelude::*;

use crate::text::{
    byte_len, char_utf8_len, chars_eq, chars_of, is_white_space, lemma_byte_len_prefix,
    str_byte_len, string_of, utf8_len, white_space,
};

verus! {

// ---------------------------------------------------------------------------
// Character classes
// ---------------------------------------------------------------------------

/// Comma variants.
pub open spec fn is_comma_value(v: u32) -> bool {
    v == 0x060c || v == 0x3001 || v == 0xfe10 || v == 0xfe11 || v == 0xfe50 || v == 0xfe51 || v
        == 0xff64
}

/// Semicolon variants.
pub open spec fn is_semicolon_value(v: u32) -> bool {
    v == 0x061b || v == 0xfe14 || v == 0xfe54
}

/// Colon variants.
pub open spec fn is_colon_value(v: u32) -> bool {
    v == 0x2236 || v == 0xfe13 || v == 0xfe55
}

/// Full-stop variants.
pub open spec fn is_dot_value(v: u32) -> bool {
    v == 0x066b || v == 0x06d4 || v == 0x2024 || v == 0x3002 || v == 0xfe52 || v == 0xff61
}

/// Dash variants.
pub open spec fn is_dash_value(v: u32) -> bool {
    v == 0x05be || (0x2010 <= v <= 0x2015) || v == 0x2212 || v == 0x2e3a || v == 0x2e3b || v
        == 0xfe58 || v == 0xfe63
}

/// Space variants.
pub open spec fn is_space_value(v: u32) -> bool {
    v == 0x00a0 || v == 0x1680 || v == 0x202f || v == 0x205f || v == 0x3000 || (0x2000 <= v
        <= 0x200a)
}

/// Directional formatting controls.
pub open spec fn is_bidi_value(v: u32) -> bool {
    v == 0x061c || v == 0x200e || v == 0x200f || (0x202a <= v <= 0x202e) || (0x2066 <= v
        <= 0x206f)
}

/// Invisible format characters.
pub open spec fn is_invisible_value(v: u32) -> bool {
    v == 0x00ad || v == 0x180e || v == 0x2060 || v == 0xfeff || (0x200b <= v <= 0x200d)
}

/// Variation selectors.
pub open spec fn is_variation_selector_value(v: u32) -> bool {
    (0xfe00 <= v <= 0xfe0f) || (0xe0100 <= v <= 0xe01ef)
}

/// Combining diacritical marks.
pub open spec fn is_combining_value(v: u32) -> bool {
    (0x0300 <= v <= 0x036f) || (0x1dc0 <= v <= 0x1dff) || (0x20d0 <= v <= 0x20ff) || (0xfe20
        <= v <= 0xfe2f)
}

/// Hebrew points and cantillation marks.
pub open spec fn is_hebrew_mark_value(v: u32) -> bool {
    (0x0591 <= v <= 0x05bd) || v == 0x05bf || (0x05c1 <= v <= 0x05c2) || (0x05c4 <= v <= 0x05c5)
        || v == 0x05c7
}

/// Arabic vowel and Quranic marks.
pub open spec fn is_arabic_mark_value(v: u32) -> bool {
    (0x0610 <= v <= 0x061a) || (0x064b <= v <= 0x065f) || v == 0x0670 || (0x06d6 <= v <= 0x06dc)
        || (0x06df <= v <= 0x06e4) || (0x06e7 <= v <= 0x06e8) || (0x06ea <= v <= 0x06ed) || (
    0x08d3 <= v <= 0x08e1) || (0x08e3 <= v <= 0x08ff)
}

/// Scalars that normalization removes.
pub open spec fn is_removed(c: char) -> bool {
    let v = c as u32;
    is_bidi_value(v) || is_invisible_value(v) || is_variation_selector_value(v)
        || is_combining_value(v) || is_hebrew_mark_value(v) || is_arabic_mark_value(v)
}

/// The replacement for a scalar that normalization keeps.
pub open spec fn norm_char(c: char) -> char {
    let v = c as u32;
    if 0xff01 <= v <= 0xff5e {
        (v - 0xfee0) as char
    } else if 0x0660 <= v <= 0x0669 {
        (0x30 + v - 0x0660) as char
    } else if 0x06f0 <= v <= 0x06f9 {
        (0x30 + v - 0x06f0) as char
    } else if is_comma_value(v) {
        ','
    } else if is_semicolon_value(v) {
        ';'
    } else if is_colon_value(v) {
        ':'
    } else if is_dot_value(v) {
        '.'
    } else if is_dash_value(v) {
        '-'
    } else if is_space_value(v) {
        ' '
    } else {
        c
    }
}

/// Reference-syntax normalization: removed scalars are dropped and every
/// other scalar is replaced by `norm_char`.
pub open spec fn normalize_seq(s: Seq<char>) -> Seq<char>
    decreases s.len(),
{
    if s.len() == 0 {
        seq![]
    } else if is_removed(s.last()) {
        normalize_seq(s.drop_last())
    } else {
        normalize_seq(s.drop_last()).push(norm_char(s.last()))
    }
}

/// Whitespace collapsing, scanning left to right: the output so far and
/// whether a space is pending before the next kept scalar.
pub open spec fn collapse_state(s: Seq<char>) -> (Seq<char>, bool)
    decreases s.len(),
{
    if s.len() == 0 {
        (seq![], false)
    } else {
        let (out, pending) = collapse_state(s.drop_last());
        let c = s.last();
        if white_space(c) {
            (out, out.len() > 0)
        } else if pending {
            (out.push(' ').push(c), false)
        } else {
            (out.push(c), false)
        }
    }
}

/// `s` trimmed, with every inner white-space run replaced by one space.
pub open spec fn collapse_seq(s: Seq<char>) -> Seq<char> {
    collapse_state(s).0
}

/// Normalization followed by whitespace collapsing.
pub open spec fn parsing_form(s: Seq<char>) -> Seq<char> {
    collapse_seq(normalize_seq(s))
}

/// A kept scalar normalizes to a kept scalar that normalization leaves alone.
proof fn lemma_norm_char_stable(c: char)
    requires
        !is_removed(c),
    ensures
        !is_removed(norm_char(c)),
        norm_char(norm_char(c)) == norm_char(c),
{
    let d = norm_char(c);
    vstd::utf8::char_u32_cast(d, d as u32);
    vstd::utf8::char_u32_cast(c, c as u32);
}

/// Normalizing twice gives what normalizing once gives.
pub proof fn lemma_normalize_idempotent(s: Seq<char>)
    ensures
        normalize_seq(normalize_seq(s)) == normalize_seq(s),
    decreases s.len(),
{
    if s.len() > 0 {
        lemma_normalize_idempotent(s.drop_last());
        if !is_removed(s.last()) {
            let t = normalize_seq(s.drop_last());
            let d = norm_char(s.last());
            lemma_norm_char_stable(s.last());
            assert(t.push(d).drop_last() =~= t);
            assert(t.push(d).last() == d);
        }
    }
}

/// The parsing form of normalized text is the parsing form of the text.
pub proof fn lemma_parsing_form_normalized(s: Seq<char>)
    ensures
        parsing_form(normalize_seq(s)) == parsing_form(s),
{
    lemma_normalize_idempotent(s);
}

/// A scalar that normalization keeps and leaves alone.
pub open spec fn is_fixed(c: char) -> bool {
    !is_removed(c) && norm_char(c) == c
}

/// Text made of fixed scalars is its own normalization.
proof fn lemma_normalize_fixed(t: Seq<char>)
    requires
        forall|i: int| 0 <= i < t.len() ==> is_fixed(#[trigger] t[i]),
    ensures
        normalize_seq(t) == t,
    decreases t.len(),
{
    if t.len() > 0 {
        lemma_normalize_fixed(t.drop_last());
        assert(is_fixed(t[t.len() - 1]));
        assert(t.drop_last().push(t.last()) =~= t);
    } else {
        assert(t =~= Seq::<char>::empty());
    }
}

/// Every scalar of normalized text is fixed.
proof fn lemma_normalized_fixed(s: Seq<char>)
    ensures
        forall|i: int| 0 <= i < normalize_seq(s).len() ==> is_fixed(#[trigger] normalize_seq(s)[i]),
    decreases s.len(),
{
    if s.len() > 0 {
        lemma_normalized_fixed(s.drop_last());
        let prev = normalize_seq(s.drop_last());
        if !is_removed(s.last()) {
            lemma_norm_char_stable(s.last());
            let t = normalize_seq(s);
            assert forall|i: int| 0 <= i < t.len() implies is_fixed(#[trigger] t[i]) by {
                if i < prev.len() {
                    assert(t[i] == prev[i]);
                }
            }
        }
    }
}

/// A kept scalar never normalizes to a longer UTF-8 encoding.
proof fn lemma_norm_char_utf8_len(c: char)
    requires
        !is_removed(c),
    ensures
        utf8_len(norm_char(c)) <= utf8_len(c),
{
    let d = norm_char(c);
    vstd::utf8::char_u32_cast(d, d as u32);
    vstd::utf8::char_u32_cast(c, c as u32);
}

/// Normalization removes every listed mark, keeps no removed scalar, and
/// never makes the UTF-8 text longer.
pub proof fn lemma_normalize_shape(s: Seq<char>)
    ensures
        forall|i: int|
            0 <= i < normalize_seq(s).len() ==> !is_removed(#[trigger] normalize_seq(s)[i]),
        byte_len(normalize_seq(s)) <= byte_len(s),
    decreases s.len(),
{
    lemma_normalized_fixed(s);
    if s.len() > 0 {
        lemma_normalize_shape(s.drop_last());
        if !is_removed(s.last()) {
            lemma_norm_char_utf8_len(s.last());
            let t = normalize_seq(s.drop_last()).push(norm_char(s.last()));
            assert(t.drop_last() =~= normalize_seq(s.drop_last()));
        }
    }
}

/// The output of collapsing: no white space at either end, and every inner
/// white-space scalar is a single space between two other scalars.
pub open spec fn is_collapsed(t: Seq<char>) -> bool {
    forall|i: int|
        0 <= i < t.len() && white_space(#[trigger] t[i]) ==> {
            &&& t[i] == ' '
            &&& 0 < i < t.len() - 1
            &&& !white_space(t[i - 1])
            &&& !white_space(t[i + 1])
        }
}

/// Collapsing yields collapsed text, and a space is pending only after
/// something was kept.
proof fn lemma_collapse_state_shape(s: Seq<char>)
    ensures
        is_collapsed(collapse_state(s).0),
        collapse_state(s).1 ==> collapse_state(s).0.len() > 0,
    decreases s.len(),
{
    if s.len() > 0 {
        lemma_collapse_state_shape(s.drop_last());
        let (out, pending) = collapse_state(s.drop_last());
        let c = s.last();
        if !white_space(c) {
            if out.len() > 0 {
                assert(!white_space(out[out.len() - 1]));
            }
            assert(white_space(' '));
            let t = collapse_state(s).0;
            assert forall|i: int| 0 <= i < t.len() && white_space(#[trigger] t[i]) implies {
                &&& t[i] == ' '
                &&& 0 < i < t.len() - 1
                &&& !white_space(t[i - 1])
                &&& !white_space(t[i + 1])
            } by {
                if i < out.len() {
                    assert(t[i] == out[i]);
                    assert(t[i - 1] == out[i - 1]);
                    assert(t[i + 1] == out[i + 1]);
                }
            }
        }
    }
}

/// Collapsing a collapsed prefix: a trailing space becomes pending.
proof fn lemma_collapse_collapsed_prefix(t: Seq<char>, k: int)
    requires
        is_collapsed(t),
        0 <= k <= t.len(),
    ensures
        collapse_state(t.take(k)) == (if k > 0 && white_space(t[k - 1]) {
            (t.take(k - 1), true)
        } else {
            (t.take(k), false)
        }),
    decreases k,
{
    if k > 0 {
        lemma_collapse_collapsed_prefix(t, k - 1);
        assert(t.take(k).drop_last() =~= t.take(k - 1));
        assert(t.take(k).last() == t[k - 1]);
        if white_space(t[k - 1]) {
            assert(!white_space(t[k - 2]));
        } else if k > 1 && white_space(t[k - 2]) {
            assert(t[k - 2] == ' ');
            assert(t.take(k - 2).push(' ').push(t[k - 1]) =~= t.take(k));
        } else {
            assert(t.take(k - 1).push(t[k - 1]) =~= t.take(k));
        }
    } else {
        assert(t.take(0) =~= Seq::<char>::empty());
    }
}

/// The scalars of `s` that are not white space, in order.
pub open spec fn non_white(s: Seq<char>) -> Seq<char>
    decreases s.len(),
{
    if s.len() == 0 {
        seq![]
    } else if white_space(s.last()) {
        non_white(s.drop_last())
    } else {
        non_white(s.drop_last()).push(s.last())
    }
}

/// Collapsing keeps the scalars that are not white space, in order.
proof fn lemma_collapse_non_white(s: Seq<char>)
    ensures
        non_white(collapse_state(s).0) == non_white(s),
    decreases s.len(),
{
    if s.len() > 0 {
        lemma_collapse_non_white(s.drop_last());
        let (out, pending) = collapse_state(s.drop_last());
        let c = s.last();
        assert(non_white(s) == if white_space(c) {
            non_white(s.drop_last())
        } else {
            non_white(s.drop_last()).push(c)
        });
        if !white_space(c) {
            assert(white_space(' '));
            assert(out.push(c).drop_last() =~= out);
            assert(out.push(c).last() == c);
            assert(non_white(out.push(c)) == non_white(out).push(c));
            if pending {
                let o1 = out.push(' ');
                assert(o1.push(c).drop_last() =~= o1);
                assert(o1.push(c).last() == c);
                assert(o1.drop_last() =~= out);
                assert(o1.last() == ' ');
                assert(non_white(o1) == non_white(out));
                assert(non_white(o1.push(c)) == non_white(o1).push(c));
            }
        }
    }
}

/// Collapsed white space has no white space at either end, every inner run
/// is one space, and the other scalars are those of the input, in order.
pub proof fn lemma_collapse_shape(s: Seq<char>)
    ensures
        is_collapsed(collapse_seq(s)),
        non_white(collapse_seq(s)) == non_white(s),
{
    lemma_collapse_state_shape(s);
    lemma_collapse_non_white(s);
}

/// Collapsed text is left unchanged by collapsing.
pub proof fn lemma_collapse_collapsed(t: Seq<char>)
    requires
        is_collapsed(t),
    ensures
        collapse_seq(t) == t,
{
    lemma_collapse_collapsed_prefix(t, t.len() as int);
    assert(t.take(t.len() as int) =~= t);
}

/// Collapsing white space twice gives what collapsing once gives.
pub proof fn lemma_collapse_idempotent(s: Seq<char>)
    ensures
        collapse_seq(collapse_seq(s)) == collapse_seq(s),
{
    let t = collapse_seq(s);
    lemma_collapse_state_shape(s);
    lemma_collapse_collapsed_prefix(t, t.len() as int);
    assert(t.take(t.len() as int) =~= t);
}

/// Collapsing keeps scalars of its input and adds only spaces.
proof fn lemma_collapse_fixed(s: Seq<char>)
    requires
        forall|i: int| 0 <= i < s.len() ==> is_fixed(#[trigger] s[i]),
    ensures
        forall|i: int|
            0 <= i < collapse_state(s).0.len() ==> is_fixed(#[trigger] collapse_state(s).0[i]),
    decreases s.len(),
{
    if s.len() > 0 {
        lemma_collapse_fixed(s.drop_last());
        assert(is_fixed(s[s.len() - 1]));
        assert(is_fixed(' '));
        let out = collapse_state(s.drop_last()).0;
        let t = collapse_state(s).0;
        assert forall|i: int| 0 <= i < t.len() implies is_fixed(#[trigger] t[i]) by {
            if i < out.len() {
                assert(t[i] == out[i]);
            }
        }
    }
}

/// The parsing form is stable: normalizing and collapsing it again changes
/// nothing.
pub proof fn lemma_parsing_form_idempotent(s: Seq<char>)
    ensures
        parsing_form(parsing_form(s)) == parsing_form(s),
{
    let n = normalize_seq(s);
    lemma_normalized_fixed(s);
    lemma_collapse_fixed(n);
    lemma_normalize_fixed(collapse_seq(n));
    lemma_collapse_idempotent(n);
}

/// ASCII text, letter case and whitespace runs included, is left unchanged.
pub proof fn lemma_normalize_ascii(s: Seq<char>)
    requires
        forall|i: int| 0 <= i < s.len() ==> (#[trigger] s[i] as u32) < 0x80,
    ensures
        normalize_seq(s) == s,
    decreases s.len(),
{
    if s.len() > 0 {
        lemma_normalize_ascii(s.drop_last());
        assert((s.last() as u32) < 0x80);
        assert(s.drop_last().push(s.last()) =~= s);
    } else {
        assert(s =~= Seq::<char>::empty());
    }
}

pub fn is_removed_char(c: char) -> (r: bool)
    ensures
        r == is_removed(c),
{
    let v: u32 = c as u32;
    v == 0x061c || v == 0x200e || v == 0x200f || (0x202a <= v && v <= 0x202e) || (0x2066 <= v
        && v <= 0x206f) || v == 0x00ad || v == 0x180e || v == 0x2060 || v == 0xfeff || (0x200b
        <= v && v <= 0x200d) || (0xfe00 <= v && v <= 0xfe0f) || (0xe0100 <= v && v <= 0xe01ef)
        || (0x0300 <= v && v <= 0x036f) || (0x1dc0 <= v && v <= 0x1dff) || (0x20d0 <= v && v
        <= 0x20ff) || (0xfe20 <= v && v <= 0xfe2f) || (0x0591 <= v && v <= 0x05bd) || v == 0x05bf
        || (0x05c1 <= v && v <= 0x05c2) || (0x05c4 <= v && v <= 0x05c5) || v == 0x05c7 || (0x0610
        <= v && v <= 0x061a) || (0x064b <= v && v <= 0x065f) || v == 0x0670 || (0x06d6 <= v && v
        <= 0x06dc) || (0x06df <= v && v <= 0x06e4) || (0x06e7 <= v && v <= 0x06e8) || (0x06ea
        <= v && v <= 0x06ed) || (0x08d3 <= v && v <= 0x08e1) || (0x08e3 <= v && v <= 0x08ff)
}

pub fn normalize_character(c: char) -> (r: char)
    ensures
        r == norm_char(c),
{
    let v: u32 = c as u32;
    if 0xff01 <= v && v <= 0xff5e {
        let b: u8 = (v - 0xfee0) as u8;
        assert((b as char) == ((v - 0xfee0) as char));
        return b as char;
    }
    if 0x0660 <= v && v <= 0x0669 {
        let b: u8 = (0x30 + v - 0x0660) as u8;
        assert((b as char) == ((0x30 + v - 0x0660) as char));
        return b as char;
    }
    if 0x06f0 <= v && v <= 0x06f9 {
        let b: u8 = (0x30 + v - 0x06f0) as u8;
        assert((b as char) == ((0x30 + v - 0x06f0) as char));
        return b as char;
    }
    if v == 0x060c || v == 0x3001 || v == 0xfe10 || v == 0xfe11 || v == 0xfe50 || v == 0xfe51 || v
        == 0xff64 {
        ','
    } else if v == 0x061b || v == 0xfe14 || v == 0xfe54 {
        ';'
    } else if v == 0x2236 || v == 0xfe13 || v == 0xfe55 {
        ':'
    } else if v == 0x066b || v == 0x06d4 || v == 0x2024 || v == 0x3002 || v == 0xfe52 || v
        == 0xff61 {
        '.'
    } else if v == 0x05be || (0x2010 <= v && v <= 0x2015) || v == 0x2212 || v == 0x2e3a || v
        == 0x2e3b || v == 0xfe58 || v == 0xfe63 {
        '-'
    } else if v == 0x00a0 || v == 0x1680 || v == 0x202f || v == 0x205f || v == 0x3000 || (0x2000
        <= v && v <= 0x200a) {
        ' '
    } else {
        c
    }
}

/// Reference-syntax normalization of a character vector.
pub fn normalize_chars(s: &[char]) -> (r: Vec<char>)
    ensures
        r@ == normalize_seq(s@),
{
    let mut out: Vec<char> = Vec::new();
    for i in 0..s.len()
        invariant
            out@ == normalize_seq(s@.take(i as int)),
    {
        assert(s@.take(i + 1).drop_last() == s@.take(i as int));
        assert(s@.take(i + 1).last() == s@[i as int]);
        if !is_removed_char(s[i]) {
            out.push(normalize_character(s[i]));
        }
    }
    assert(s@.take(s@.len() as int) == s@);
    out
}

/// Normalizes compatibility characters used in Bible references.
///
/// Letter case and whitespace runs are preserved. Use
/// [`normalize_for_parsing`] when surrounding and repeated whitespace should be
/// removed as well.
pub fn normalize(input: &str) -> (r: String)
    ensures
        r@ == normalize_seq(input@),
{
    let s = chars_of(input);
    let out = normalize_chars(s.as_slice());
    string_of(out.as_slice())
}

/// Whitespace collapsing of a character vector.
pub fn collapse_chars(s: &[char]) -> (r: Vec<char>)
    ensures
        r@ == collapse_seq(s@),
{
    let mut out: Vec<char> = Vec::new();
    let mut pending = false;
    for i in 0..s.len()
        invariant
            (out@, pending) == collapse_state(s@.take(i as int)),
    {
        assert(s@.take(i + 1).drop_last() == s@.take(i as int));
        assert(s@.take(i + 1).last() == s@[i as int]);
        let c = s[i];
        if is_white_space(c) {
            pending = out.len() > 0;
        } else {
            if pending {
                out.push(' ');
                pending = false;
            }
            out.push(c);
        }
    }
    assert(s@.take(s@.len() as int) == s@);
    out
}

/// Trims an input and replaces each non-empty whitespace run with one ASCII
/// space.
///
/// This helper accepts any Unicode whitespace, not just the spacing characters
/// handled by [`normalize`]. It does not otherwise alter the input.
pub fn collapse_whitespace(input: &str) -> (r: String)
    ensures
        r@ == collapse_seq(input@),
{
    let s = chars_of(input);
    let out = collapse_chars(s.as_slice());
    string_of(out.as_slice())
}

/// Normalization followed by whitespace collapsing, on a character vector.
pub fn parsing_form_chars(s: &[char]) -> (r: Vec<char>)
    ensures
        r@ == parsing_form(s@),
{
    let n = normalize_chars(s);
    collapse_chars(n.as_slice())
}

/// Applies reference normalization, then trims and collapses whitespace.
pub fn normalize_for_parsing(input: &str) -> (r: String)
    ensures
        r@ == parsing_form(input@),
{
    let s = chars_of(input);
    let out = parsing_form_chars(s.as_slice());
    string_of(out.as_slice())
}

// ---------------------------------------------------------------------------
// Source spans
// ---------------------------------------------------------------------------

/// A half-open byte span into an original UTF-8 string.
#[derive(Clone, Copy, Debug, PartialEq, Eq, Structural, Hash)]
pub struct SourceSpan {
    /// Inclusive byte offset.
    start: usize,
    /// Exclusive byte offset.
    end: usize,
}

/// The span with the given offsets.
pub closed spec fn span_of(start: usize, end: usize) -> SourceSpan {
    SourceSpan { start, end }
}

/// Offsets and spans correspond one to one.
pub proof fn lemma_span_of(start: usize, end: usize)
    ensures
        span_of(start, end).spec_start() == start,
        span_of(start, end).spec_end() == end,
{
}

/// The byte offset of scalar position `i` in `s`.
pub open spec fn byte_offset(s: Seq<char>, i: int) -> nat {
    byte_len(s.take(i))
}

/// The scalar position whose byte offset in `s` is `b`, if `b` is a scalar
/// boundary.
pub open spec fn boundary_position(s: Seq<char>, b: int) -> Option<int> {
    if exists|i: int| 0 <= i <= s.len() && byte_offset(s, i) == b {
        Some(choose|i: int| 0 <= i <= s.len() && byte_offset(s, i) == b)
    } else {
        None
    }
}

/// `str::get` with a byte range: `Some` exactly when the range is ordered and
/// both ends are scalar boundaries, and then the scalars between them.
#[verifier::external_body]
pub(crate) fn str_get(s: &str, start: usize, end: usize) -> (r: Option<&str>)
    ensures
        r is Some <==> (start <= end && boundary_position(s@, start as int) is Some
            && boundary_position(s@, end as int) is Some),
        r matches Some(t) ==> t@ == s@.subrange(
            boundary_position(s@, start as int).unwrap(),
            boundary_position(s@, end as int).unwrap(),
        ),
{
    s.get(start..end)
}

impl SourceSpan {
    /// The end never precedes the start.
    #[verifier::type_invariant]
    spec fn well_formed(self) -> bool {
        self.start <= self.end
    }

    /// The inclusive byte offset.
    pub closed spec fn spec_start(self) -> usize {
        self.start
    }

    /// The exclusive byte offset.
    pub closed spec fn spec_end(self) -> usize {
        self.end
    }

    /// Creates a source span; `end` must not precede `start`.
    pub fn new(start: usize, end: usize) -> (r: SourceSpan)
        requires
            end >= start,
        ensures
            r == span_of(start, end),
    {
        SourceSpan { start, end }
    }

    /// Returns the inclusive byte offset.
    pub fn start(self) -> (r: usize)
        ensures
            r == self.spec_start(),
            r <= self.spec_end(),
    {
        proof {
            use_type_invariant(self);
        }
        self.start
    }

    /// Returns the exclusive byte offset.
    pub fn end(self) -> (r: usize)
        ensures
            r == self.spec_end(),
            self.spec_start() <= r,
    {
        proof {
            use_type_invariant(self);
        }
        self.end
    }

    /// Returns the span length in bytes.
    pub fn len(self) -> (r: usize)
        ensures
            r == self.spec_end() - self.spec_start(),
    {
        proof {
            use_type_invariant(self);
        }
        self.end - self.start
    }

    /// Returns whether this span is empty.
    pub fn is_empty(self) -> (r: bool)
        ensures
            r == (self.spec_start() == self.spec_end()),
    {
        self.start == self.end
    }

    /// Returns this span as a standard byte range.
    pub fn as_range(self) -> (r: core::ops::Range<usize>)
        ensures
            r.start == self.spec_start(),
            r.end == self.spec_end(),
    {
        self.start..self.end
    }

    /// Extracts this span from `text` when it lies on UTF-8 boundaries.
    pub fn text_from(self, text: &str) -> (r: Option<&str>)
        ensures
            r is Some <==> (boundary_position(text@, self.spec_start() as int) is Some
                && boundary_position(text@, self.spec_end() as int) is Some),
            r matches Some(t) ==> t@ == text@.subrange(
                boundary_position(text@, self.spec_start() as int).unwrap(),
                boundary_position(text@, self.spec_end() as int).unwrap(),
            ),
    {
        proof {
            use_type_invariant(self);
        }
        str_get(text, self.start, self.end)
    }

    /// `{start}..{end}`.
    pub fn to_string(self) -> (s: String)
        ensures
            s@ == crate::text::decimal(self.spec_start() as nat) + ".."@ + crate::text::decimal(
                self.spec_end() as nat,
            ),
    {
        let mut v: Vec<char> = Vec::new();
        crate::text::push_decimal_usize(&mut v, self.start);
        crate::text::extend_str(&mut v, "..");
        crate::text::push_decimal_usize(&mut v, self.end);
        string_of(v.as_slice())
    }
}

// ---------------------------------------------------------------------------
// Normalization with source mapping
// ---------------------------------------------------------------------------

/// The positions in `s` of the scalars that normalization keeps.
pub open spec fn kept_positions(s: Seq<char>) -> Seq<int>
    decreases s.len(),
{
    if s.len() == 0 {
        seq![]
    } else if is_removed(s.last()) {
        kept_positions(s.drop_last())
    } else {
        kept_positions(s.drop_last()).push(s.len() - 1)
    }
}

/// The original byte span of the `k`-th kept scalar: it starts at the
/// scalar (at zero for the first one, which absorbs removed scalars before
/// it) and extends over the removed scalars that follow it.
pub open spec fn kept_span(s: Seq<char>, k: int) -> (int, int) {
    let kept = kept_positions(s);
    let start = if k == 0 {
        0
    } else {
        byte_offset(s, kept[k]) as int
    };
    let end = if k + 1 < kept.len() {
        byte_offset(s, kept[k + 1]) as int
    } else {
        byte_len(s) as int
    };
    (start, end)
}

/// One span per normalized byte: every byte of the `k`-th normalized scalar
/// maps to `kept_span(s, k)`.
pub open spec fn spans_match(s: Seq<char>, spans: Seq<SourceSpan>) -> bool {
    let out = normalize_seq(s);
    &&& spans.len() == byte_len(out)
    &&& forall|k: int, j: int|
        0 <= k < out.len() && 0 <= j < utf8_len(out[k]) ==> {
            let span = #[trigger] spans[byte_offset(out, k) + j];
            &&& span.spec_start() == kept_span(s, k).0
            &&& span.spec_end() == kept_span(s, k).1
        }
}

/// Spans are ordered: starts and ends never decrease.
pub open spec fn spans_ordered(spans: Seq<SourceSpan>, limit: nat) -> bool {
    &&& forall|p: int, q: int|
        0 <= p <= q < spans.len() ==> (#[trigger] spans[p]).spec_start() <= (
        #[trigger] spans[q]).spec_start() && spans[p].spec_end() <= spans[q].spec_end()
    &&& forall|p: int| 0 <= p < spans.len() ==> (#[trigger] spans[p]).spec_end() <= limit
}

/// A normalized input together with a byte mapping back to the original text.
#[derive(Debug, PartialEq, Eq)]
pub struct NormalizedInput {
    original: String,
    normalized: String,
    source_spans: Vec<SourceSpan>,
}

/// A shorter name for [`NormalizedInput`].
pub type Normalization = NormalizedInput;

/// The normalized text and its spans, derived from the kept positions.
proof fn lemma_kept_positions(s: Seq<char>)
    ensures
        kept_positions(s).len() == normalize_seq(s).len(),
        forall|k: int|
            0 <= k < kept_positions(s).len() ==> 0 <= #[trigger] kept_positions(s)[k] < s.len()
                && !is_removed(s[kept_positions(s)[k]]) && normalize_seq(s)[k] == norm_char(
                s[kept_positions(s)[k]],
            ),
        forall|k: int, l: int|
            0 <= k < l < kept_positions(s).len() ==> #[trigger] kept_positions(s)[k]
                < #[trigger] kept_positions(s)[l],
    decreases s.len(),
{
    if s.len() > 0 {
        lemma_kept_positions(s.drop_last());
    }
}

/// The kept scalars' source spans tile the input: the first starts at byte
/// zero, each ends where the next begins, and the last ends at the input's
/// end, so removed scalars belong to the kept scalar before them (or to the
/// first one when they lead).
pub proof fn lemma_kept_spans_tile(s: Seq<char>)
    ensures
        normalize_seq(s).len() > 0 ==> kept_span(s, 0).0 == 0 && kept_span(
            s,
            normalize_seq(s).len() - 1,
        ).1 == byte_len(s),
        forall|k: int|
            0 <= k < normalize_seq(s).len() - 1 ==> (#[trigger] kept_span(s, k)).1 == kept_span(
                s,
                k + 1,
            ).0,
{
    lemma_kept_positions(s);
}

impl NormalizedInput {
    /// The spans map normalized bytes back into the original text, in order.
    #[verifier::type_invariant]
    spec fn well_formed(self) -> bool {
        &&& self.normalized@ == normalize_seq(self.original@)
        &&& spans_match(self.original@, self.source_spans@)
        &&& spans_ordered(self.source_spans@, byte_len(self.original@))
    }

    /// The input supplied to [`normalize_detailed`].
    pub closed spec fn spec_original(&self) -> Seq<char> {
        self.original@
    }

    /// One original span per normalized byte.
    pub closed spec fn spec_spans(&self) -> Seq<SourceSpan> {
        self.source_spans@
    }

    /// Returns the input supplied to [`normalize_detailed`].
    pub fn original(&self) -> (r: &str)
        ensures
            r@ == self.spec_original(),
    {
        self.original.as_str()
    }

    /// Returns the syntax-normalized text.
    pub fn normalized(&self) -> (r: &str)
        ensures
            r@ == normalize_seq(self.spec_original()),
    {
        proof {
            use_type_invariant(self);
        }
        self.normalized.as_str()
    }

    /// Returns whether normalization changed the input text.
    pub fn changed(&self) -> (r: bool)
        ensures
            r == (normalize_seq(self.spec_original()) != self.spec_original()),
    {
        proof {
            use_type_invariant(self);
        }
        let a = chars_of(self.normalized.as_str());
        let b = chars_of(self.original.as_str());
        !chars_eq(a.as_slice(), b.as_slice())
    }

    /// Returns the normalized UTF-8 length in bytes.
    pub fn len(&self) -> (r: usize)
        ensures
            r == byte_len(normalize_seq(self.spec_original())),
    {
        proof {
            use_type_invariant(self);
        }
        str_byte_len(self.normalized.as_str())
    }

    /// Returns whether the normalized text is empty.
    pub fn is_empty(&self) -> (r: bool)
        ensures
            r == (normalize_seq(self.spec_original()).len() == 0),
    {
        proof {
            use_type_invariant(self);
        }
        self.normalized.as_str().is_empty()
    }

    /// Returns one original source span per normalized UTF-8 byte.
    pub fn source_spans(&self) -> (r: &[SourceSpan])
        ensures
            r@ == self.spec_spans(),
            spans_match(self.spec_original(), r@),
    {
        proof {
            use_type_invariant(self);
        }
        self.source_spans.as_slice()
    }

    /// Maps normalized byte offsets `[start, end)` to an original byte span.
    ///
    /// Returns `None` if the range is reversed or outside the normalized text.
    /// Non-empty ranges that select part of a multi-byte scalar expand to that
    /// scalar's complete original span.
    pub fn map_normalized_span(&self, start: usize, end: usize) -> (r: Option<SourceSpan>)
        ensures
            r == spec_map_span(self.spec_original(), self.spec_spans(), start as int, end as int),
    {
        proof {
            use_type_invariant(self);
        }
        let len = self.len();
        if start > end || end > len {
            return None;
        }
        let spans = &self.source_spans;
        if start < end {
            let a = spans[start].start();
            let b = spans[end - 1].end();
            assert(spans@[start as int].spec_start() <= spans@[end - 1].spec_start());
            return Some(SourceSpan::new(a, b));
        }
        if spans.len() == 0 {
            let total = str_byte_len(self.original.as_str());
            return Some(SourceSpan::new(0, total));
        }
        if start == 0 {
            let offset = spans[0].start();
            return Some(SourceSpan::new(offset, offset));
        }
        if start == spans.len() {
            let offset = spans[spans.len() - 1].end();
            return Some(SourceSpan::new(offset, offset));
        }
        let offset = spans[start].start();
        Some(SourceSpan::new(offset, offset))
    }

    /// Maps a normalized byte range to the corresponding original byte span.
    pub fn map_span(&self, range: core::ops::Range<usize>) -> (r: Option<SourceSpan>)
        ensures
            r == spec_map_span(
                self.spec_original(),
                self.spec_spans(),
                range.start as int,
                range.end as int,
            ),
    {
        self.map_normalized_span(range.start, range.end)
    }

    /// Returns the original text represented by a normalized byte range.
    pub fn original_text_for(&self, range: core::ops::Range<usize>) -> (r: Option<&str>)
        ensures
            r is Some <==> (spec_map_span(
                self.spec_original(),
                self.spec_spans(),
                range.start as int,
                range.end as int,
            ) matches Some(span) && boundary_position(self.spec_original(), span.spec_start() as int)
                is Some && boundary_position(self.spec_original(), span.spec_end() as int) is Some),
    {
        match self.map_normalized_span(range.start, range.end) {
            Some(span) => span.text_from(self.original.as_str()),
            None => None,
        }
    }

    /// Consumes the mapping and returns the normalized string.
    pub fn into_normalized(self) -> (r: String)
        ensures
            r@ == normalize_seq(self.spec_original()),
    {
        proof {
            use_type_invariant(&self);
        }
        self.normalized
    }

    /// The normalized text as an owned string.
    pub fn to_string(&self) -> (r: String)
        ensures
            r@ == normalize_seq(self.spec_original()),
    {
        proof {
            use_type_invariant(self);
        }
        self.normalized.clone()
    }
}

/// The span `map_normalized_span` reports for normalized bytes `[start, end)`.
pub open spec fn spec_map_span(
    original: Seq<char>,
    spans: Seq<SourceSpan>,
    start: int,
    end: int,
) -> Option<SourceSpan> {
    if start > end || end > spans.len() {
        None
    } else if start < end {
        Some(span_of(spans[start].spec_start(), spans[end - 1].spec_end()))
    } else if spans.len() == 0 {
        Some(span_of(0, byte_len(original) as usize))
    } else if start == 0 {
        Some(span_of(spans[0].spec_start(), spans[0].spec_start()))
    } else if start == spans.len() {
        Some(span_of(spans[spans.len() - 1].spec_end(), spans[spans.len() - 1].spec_end()))
    } else {
        Some(span_of(spans[start].spec_start(), spans[start].spec_start()))
    }
}

/// Normalizes an input while retaining byte spans into the original string.
///
/// The mapping contains one [`SourceSpan`] per byte in the normalized UTF-8
/// string. Every byte of a multi-byte scalar maps to that scalar's complete
/// source span. Removed characters are attached to the preceding output scalar,
/// or to the first output scalar when they appear at the beginning.
pub fn normalize_detailed(input: &str) -> (r: NormalizedInput)
    ensures
        r.spec_original() == input@,
        spans_match(input@, r.spec_spans()),
{
    let s = chars_of(input);
    let total = str_byte_len(input);
    let n = s.len();
    // Byte offset of every scalar position.
    let mut offsets: Vec<usize> = Vec::new();
    let mut acc: usize = 0;
    for i in 0..n
        invariant
            n == s@.len(),
            total == byte_len(s@),
            offsets@.len() == i,
            acc == byte_offset(s@, i as int),
            forall|k: int| 0 <= k < i ==> offsets@[k] == byte_offset(s@, k),
    {
        offsets.push(acc);
        proof {
            lemma_byte_len_prefix(s@, i + 1, n as int);
            assert(s@.take(n as int) == s@);
            assert(s@.take(i + 1).drop_last() == s@.take(i as int));
        }
        acc = acc + char_utf8_len(s[i]);
    }
    offsets.push(acc);
    assert(s@.take(n as int) == s@);
    // Kept positions.
    let mut kept: Vec<usize> = Vec::new();
    for i in 0..n
        invariant
            n == s@.len(),
            kept@.len() == kept_positions(s@.take(i as int)).len(),
            forall|k: int|
                0 <= k < kept@.len() ==> kept@[k] as int == kept_positions(s@.take(i as int))[k],
    {
        assert(s@.take(i + 1).drop_last() == s@.take(i as int));
        assert(s@.take(i + 1).last() == s@[i as int]);
        if !is_removed_char(s[i]) {
            kept.push(i);
        }
    }
    proof {
        lemma_kept_positions(s@);
    }
    let mut normalized: Vec<char> = Vec::new();
    let mut spans: Vec<SourceSpan> = Vec::new();
    let m = kept.len();
    for k in 0..m
        invariant
            n == s@.len(),
            m == kept@.len(),
            m == kept_positions(s@).len(),
            forall|q: int| 0 <= q < m ==> kept@[q] as int == kept_positions(s@)[q],
            forall|q: int| 0 <= q < m ==> kept@[q] < n,
            forall|q: int, l: int| 0 <= q < l < m ==> kept@[q] < kept@[l],
            normalize_seq(s@).len() == m,
            forall|q: int| 0 <= q < m ==> normalize_seq(s@)[q] == norm_char(s@[kept@[q] as int]),
            offsets@.len() == n + 1,
            forall|q: int| 0 <= q <= n ==> offsets@[q] == byte_offset(s@, q),
            total == byte_len(s@),
            normalized@ == normalize_seq(s@).take(k as int),
            spans@.len() == byte_len(normalized@),
            forall|q: int, j: int|
                0 <= q < k && 0 <= j < utf8_len(normalized@[q]) ==> {
                    let span = #[trigger] spans@[byte_offset(normalized@, q) + j];
                    &&& span.spec_start() == kept_span(s@, q).0
                    &&& span.spec_end() == kept_span(s@, q).1
                },
            spans_ordered(spans@, total as nat),
            k > 0 ==> spans@.len() > 0 && spans@.last().spec_start() == kept_span(s@, k - 1).0
                && spans@.last().spec_end() == kept_span(s@, k - 1).1,
    {
        let position = kept[k];
        let c = normalize_character(s[position]);
        let start: usize = if k == 0 {
            0
        } else {
            offsets[position]
        };
        let end: usize = if k + 1 < m {
            offsets[kept[k + 1]]
        } else {
            total
        };
        proof {
            lemma_byte_len_prefix(s@, position as int, n as int);
            if k + 1 < m {
                lemma_byte_len_prefix(s@, position as int, kept@[k + 1] as int);
                lemma_byte_len_prefix(s@, kept@[k + 1] as int, n as int);
            }
            if k > 0 {
                lemma_byte_len_prefix(s@, kept@[k - 1] as int, position as int);
                lemma_byte_len_prefix(s@, 0, kept@[k - 1] as int);
            }
            assert(s@.take(n as int) == s@);
        }
        assert(start <= end);
        let span = SourceSpan::new(start, end);
        let width = char_utf8_len(c);
        let ghost before = spans@;
        let ghost base = byte_len(normalized@);
        for j in 0..width
            invariant
                spans@.len() == base + j,
                spans@.take(base as int) == before,
                forall|t: int| base <= t < spans@.len() ==> spans@[t] == span,
                spans_ordered(before, total as nat),
                before.len() > 0 ==> before.last().spec_start() <= span.spec_start()
                    && before.last().spec_end() <= span.spec_end(),
                span.spec_start() <= span.spec_end() <= total,
                spans_ordered(spans@, total as nat),
        {
            spans.push(span);
            assert(spans@.take(base as int) == before);
        }
        let ghost prev = normalized@;
        normalized.push(c);
        proof {
            assert(normalize_seq(s@).take(k + 1) == normalize_seq(s@).take(k as int).push(
                normalize_seq(s@)[k as int],
            ));
            assert(normalized@.drop_last() == prev);
            assert(normalized@.take(k as int) == prev);
            assert forall|q: int, j: int|
                0 <= q < k + 1 && 0 <= j < utf8_len(normalized@[q]) implies {
                let sp = #[trigger] spans@[byte_offset(normalized@, q) + j];
                &&& sp.spec_start() == kept_span(s@, q).0
                &&& sp.spec_end() == kept_span(s@, q).1
            } by {
                if q < k {
                    assert(normalized@.take(q) == prev.take(q));
                    lemma_byte_len_prefix(prev, q + 1, k as int);
                    assert(prev.take(q + 1).drop_last() == prev.take(q));
                    assert(prev.take(k as int) == prev);
                    assert(spans@[byte_offset(normalized@, q) + j] == before[byte_offset(prev, q) + j]);
                } else {
                    assert(normalized@.take(q) == prev);
                }
            }
        }
    }
    assert(normalize_seq(s@).take(m as int) == normalize_seq(s@));
    NormalizedInput {
        original: input.to_owned(),
        normalized: string_of(normalized.as_slice()),
        source_spans: spans,
    }
}

} // verus!
