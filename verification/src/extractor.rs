//! Parser-driven extraction and replacement of passages embedded in prose.
use vstd::prelude::*;

use crate::book::Book;
use crate::language::Language;
use crate::normalize::{
    boundary_position, byte_offset, kept_span, normalize_seq, spans_match, str_get, NormalizedInput,
    SourceSpan,
};
use crate::parser::{MatchModel, MetadataModel, ParseMetadata};
use crate::passage::{lemma_passage_models, spec_parse_passage, Passage, PassageModel, PassageParser, PassageParserModel};
use crate::text::{alphanumeric, byte_len, utf8_len, chars_of, extend_str, is_alphanumeric, is_digit, is_upper, lemma_byte_len_prefix, string_of, to_lowercase, trim_start, lowercase};

verus! {

/// Default normalized-byte search distance before a numeric anchor.
pub const DEFAULT_MAX_LOOKBEHIND: usize = 96;

/// Default normalized-byte search distance after a numeric anchor.
pub const DEFAULT_MAX_LOOKAHEAD: usize = 256;

/// Smallest accepted lookbehind or lookahead window.
pub const MIN_LOOKAROUND: usize = 1;

/// Largest accepted lookbehind or lookahead window.
pub const MAX_LOOKAROUND: usize = 4096;

// ---------------------------------------------------------------------------
// Character classes
// ---------------------------------------------------------------------------

/// Hangul, CJK, kana and related East Asian blocks.
pub open spec fn east_asian(c: char) -> bool {
    let v = c as u32;
    ||| 0x1100 <= v <= 0x11ff
    ||| 0x2e80 <= v <= 0x2fff
    ||| 0x3040 <= v <= 0x30ff
    ||| 0x3130 <= v <= 0x318f
    ||| 0x3400 <= v <= 0x4dbf
    ||| 0x4e00 <= v <= 0x9fff
    ||| 0xac00 <= v <= 0xd7af
    ||| 0xf900 <= v <= 0xfaff
    ||| 0x20000 <= v <= 0x2fa1f
}

/// Directional formatting controls.
pub open spec fn bidi_control(c: char) -> bool {
    let v = c as u32;
    v == 0x061c || v == 0x200e || v == 0x200f || (0x202a <= v <= 0x202e) || (0x2066 <= v <= 0x206f)
}

/// Scalars that never begin or end a candidate.
pub open spec fn edge_delimiter(c: char) -> bool {
    ||| (c as u32) <= 0x20
    ||| (c as u32) == 0x7f
    ||| bidi_control(c)
    ||| c == '.' || c == ',' || c == '!' || c == '?' || c == ';' || c == ':' || c == '('
    ||| c == ')' || c == '[' || c == ']' || c == '{' || c == '}' || c == '<' || c == '>'
    ||| c == '"' || c == '\''
}

/// Two adjacent scalars continue one word: both are alphanumeric or `_`, and
/// neither is East Asian.
pub open spec fn word_continuation(left: char, right: char) -> bool {
    &&& !east_asian(left)
    &&& !east_asian(right)
    &&& (alphanumeric(left) || left == '_')
    &&& (alphanumeric(right) || right == '_')
}

fn is_east_asian(c: char) -> (r: bool)
    ensures
        r == east_asian(c),
{
    let v = c as u32;
    (0x1100 <= v && v <= 0x11ff) || (0x2e80 <= v && v <= 0x2fff) || (0x3040 <= v && v <= 0x30ff)
        || (0x3130 <= v && v <= 0x318f) || (0x3400 <= v && v <= 0x4dbf) || (0x4e00 <= v && v
        <= 0x9fff) || (0xac00 <= v && v <= 0xd7af) || (0xf900 <= v && v <= 0xfaff) || (0x20000
        <= v && v <= 0x2fa1f)
}

fn is_bidi_control(c: char) -> (r: bool)
    ensures
        r == bidi_control(c),
{
    let v = c as u32;
    v == 0x061c || v == 0x200e || v == 0x200f || (0x202a <= v && v <= 0x202e) || (0x2066 <= v && v
        <= 0x206f)
}

fn is_edge_delimiter(c: char) -> (r: bool)
    ensures
        r == edge_delimiter(c),
{
    (c as u32) <= 0x20 || (c as u32) == 0x7f || is_bidi_control(c) || c == '.' || c == ',' || c
        == '!' || c == '?' || c == ';' || c == ':' || c == '(' || c == ')' || c == '[' || c == ']'
        || c == '{' || c == '}' || c == '<' || c == '>' || c == '"' || c == '\''
}

fn forms_word_continuation(left: char, right: char) -> (r: bool)
    ensures
        r == word_continuation(left, right),
{
    if is_east_asian(left) || is_east_asian(right) {
        return false;
    }
    (is_alphanumeric(left) || left == '_') && (is_alphanumeric(right) || right == '_')
}

// ---------------------------------------------------------------------------
// Candidate boundaries (scalar positions in the normalized text)
// ---------------------------------------------------------------------------

/// A candidate may begin at position `i`.
pub open spec fn can_start_at(t: Seq<char>, i: int) -> bool {
    &&& 0 <= i < t.len()
    &&& !edge_delimiter(t[i])
    &&& (i == 0 || !word_continuation(t[i - 1], t[i]))
}

/// A bare-book candidate may end at position `j`.
pub open spec fn can_end_at(t: Seq<char>, j: int) -> bool {
    0 < j <= t.len() && !edge_delimiter(t[j - 1])
}

/// The text after `end` does not continue the reference with more numbers.
pub open spec fn continues_numbering(rest: Seq<char>) -> bool {
    let r = trim_start(rest);
    &&& r.len() > 0
    &&& (r[0] == ':' || r[0] == '.' || r[0] == '-' || r[0] == ',')
    &&& trim_start(r.skip(1)).len() > 0
    &&& is_digit(trim_start(r.skip(1))[0])
}

/// A candidate `[start, end)` does not split a word and is not followed by
/// more reference numbering.
pub open spec fn safe_outer_boundaries(t: Seq<char>, start: int, end: int) -> bool {
    &&& (start > 0 ==> !word_continuation(t[start - 1], t[start]))
    &&& (end < t.len() ==> !continues_numbering(t.skip(end)) && !word_continuation(
        t[end - 1],
        t[end],
    ))
}

fn can_start_at_exec(t: &[char], i: usize) -> (r: bool)
    ensures
        r == can_start_at(t@, i as int),
{
    if i >= t.len() || is_edge_delimiter(t[i]) {
        return false;
    }
    i == 0 || !forms_word_continuation(t[i - 1], t[i])
}

fn can_end_at_exec(t: &[char], j: usize) -> (r: bool)
    ensures
        r == can_end_at(t@, j as int),
{
    j > 0 && j <= t.len() && !is_edge_delimiter(t[j - 1])
}

/// The number of leading white-space scalars from position `i`.
fn skip_white(t: &[char], i: usize) -> (r: usize)
    requires
        i <= t@.len(),
    ensures
        i <= r <= t@.len(),
        t@.subrange(r as int, t@.len() as int) == trim_start(t@.skip(i as int)),
{
    let mut k = i;
    while k < t.len() && crate::text::is_white_space(t[k])
        invariant
            i <= k <= t@.len(),
            trim_start(t@.skip(i as int)) == trim_start(t@.skip(k as int)),
        decreases t.len() - k,
    {
        let ghost s = t@.skip(k as int);
        assert(s.drop_first() == t@.skip(k + 1));
        assert(s[0] == t@[k as int]);
        assert(crate::text::leading_ws(s) == 1 + crate::text::leading_ws(s.drop_first()));
        proof {
            crate::text::lemma_leading_ws(s.drop_first());
        }
        assert(s.skip(crate::text::leading_ws(s) as int) =~= s.drop_first().skip(
            crate::text::leading_ws(s.drop_first()) as int,
        ));
        k += 1;
    }
    proof {
        crate::text::lemma_leading_ws(t@.skip(k as int));
        if k < t.len() {
            assert(t@.skip(k as int)[0] == t@[k as int]);
        }
    }
    assert(t@.skip(k as int).skip(0) == t@.subrange(k as int, t@.len() as int));
    k
}

fn continues_numbering_exec(t: &[char], end: usize) -> (r: bool)
    requires
        end <= t@.len(),
    ensures
        r == continues_numbering(t@.skip(end as int)),
{
    let k = skip_white(t, end);
    if k >= t.len() {
        return false;
    }
    let c = t[k];
    if !(c == ':' || c == '.' || c == '-' || c == ',') {
        return false;
    }
    let ghost r = trim_start(t@.skip(end as int));
    assert(r[0] == t@[k as int]);
    let m = skip_white(t, k + 1);
    assert(r.skip(1) == t@.skip(k + 1));
    m < t.len() && crate::text::is_ascii_digit(t[m])
}

fn safe_outer_boundaries_exec(t: &[char], start: usize, end: usize) -> (r: bool)
    requires
        start < end <= t@.len(),
    ensures
        r == safe_outer_boundaries(t@, start as int, end as int),
{
    if start > 0 && forms_word_continuation(t[start - 1], t[start]) {
        return false;
    }
    if end < t.len() {
        if continues_numbering_exec(t, end) {
            return false;
        }
        if forms_word_continuation(t[end - 1], t[end]) {
            return false;
        }
    }
    true
}

// ---------------------------------------------------------------------------
// Candidate filters
// ---------------------------------------------------------------------------

/// Whether a passage is, or contains, a whole-book passage.
pub open spec fn has_bare_book(m: PassageModel) -> bool
    decreases m,
{
    match m {
        PassageModel::Book(_) => true,
        PassageModel::Chapter(_, _, _) => false,
        PassageModel::Verses(_) => false,
        PassageModel::Sequence(ps) => any_bare_book(ps),
    }
}

/// Whether any passage of a sequence is, or contains, a whole-book passage.
pub open spec fn any_bare_book(ps: Seq<PassageModel>) -> bool
    decreases ps,
{
    if ps.len() == 0 {
        false
    } else {
        any_bare_book(ps.drop_last()) || has_bare_book(ps.last())
    }
}

fn contains_bare_book(p: &Passage) -> (r: bool)
    ensures
        r == has_bare_book(p@),
    decreases p@,
{
    if p.as_book().is_some() {
        return true;
    }
    if p.as_chapter().is_some() || p.as_verses().is_some() {
        return false;
    }
    match p.as_sequence() {
        Some(s) => sequence_has_bare_book(s),
        None => false,
    }
}

fn sequence_has_bare_book(s: &crate::passage::PassageSequence) -> (r: bool)
    ensures
        r == any_bare_book(s@),
    decreases s@,
{
    let ps = s.passages();
    let ghost models = s@;
    proof {
        lemma_passage_models(ps@);
    }
    let mut found = false;
    for i in 0..ps.len()
        invariant
            models == s@,
            models.len() == ps@.len(),
            forall|j: int| 0 <= j < ps@.len() ==> models[j] == (#[trigger] ps@[j])@,
            found == any_bare_book(models.take(i as int)),
    {
        assert(models.take(i + 1).drop_last() == models.take(i as int));
        assert(models.take(i + 1).last() == ps@[i as int]@);
        let here = contains_bare_book(&ps[i]);
        found = found || here;
    }
    assert(models.take(models.len() as int) == models);
    found
}

/// An ASCII letter.
pub open spec fn ascii_letter(c: char) -> bool {
    is_upper(c) || ('a' <= c && c <= 'z')
}

/// The token without spaces and periods, lowercased.
pub open spec fn compact_token(t: Seq<char>) -> Seq<char>
    decreases t.len(),
{
    if t.len() == 0 {
        seq![]
    } else {
        compact_token(t.drop_last()) + if t.last() == ' ' || t.last() == '.' {
            Seq::<char>::empty()
        } else {
            lowercase(t.last())
        }
    }
}

/// The number of ASCII letters.
pub open spec fn letter_count(t: Seq<char>) -> nat
    decreases t.len(),
{
    if t.len() == 0 {
        0
    } else {
        letter_count(t.drop_last()) + if ascii_letter(t.last()) {
            1nat
        } else {
            0nat
        }
    }
}

/// The first ASCII letter is a lowercase one.
pub open spec fn first_letter_lowercase(t: Seq<char>) -> bool
    decreases t.len(),
{
    if t.len() == 0 {
        false
    } else if letter_count(t.drop_last()) > 0 {
        first_letter_lowercase(t.drop_last())
    } else {
        'a' <= t.last() && t.last() <= 'z'
    }
}

/// Only ASCII letters, digits, spaces and periods.
pub open spec fn simple_alias(t: Seq<char>) -> bool {
    forall|i: int|
        0 <= i < t.len() ==> ascii_letter(#[trigger] t[i]) || t[i] == ' ' || t[i] == '.' || is_digit(
            t[i],
        )
}

/// A book token that reads like an ordinary word: `am`, `at`, `is`, `so` in
/// automatic mode, or a token starting in lowercase that names Mark or Job,
/// or (in automatic mode) is a short ASCII alias.
pub open spec fn common_word_match(m: MatchModel, automatic: bool) -> bool {
    let token = trim_start(m.token);
    let compact = compact_token(token);
    ||| automatic && (compact == "am"@ || compact == "at"@ || compact == "is"@ || compact == "so"@)
    ||| first_letter_lowercase(token) && (m.selected.book == Book::Mark || m.selected.book
        == Book::Job || (automatic && simple_alias(token) && letter_count(token) <= 3))
}

/// Whether any book token of a parse reads like an ordinary word.
pub open spec fn looks_common(meta: MetadataModel, automatic: bool) -> bool {
    exists|i: int| 0 <= i < meta.matches.len() && common_word_match(#[trigger] meta.matches[i], automatic)
}

fn compact_token_exec(t: &[char]) -> (r: Vec<char>)
    ensures
        r@ == compact_token(t@),
{
    let mut out: Vec<char> = Vec::new();
    for i in 0..t.len()
        invariant
            out@ == compact_token(t@.take(i as int)),
    {
        assert(t@.take(i + 1).drop_last() == t@.take(i as int));
        assert(t@.take(i + 1).last() == t@[i as int]);
        let c = t[i];
        if c != ' ' && c != '.' {
            let lower = to_lowercase(c);
            crate::text::extend_chars(&mut out, lower.as_slice());
        } else {
            assert(out@ + Seq::<char>::empty() == out@);
        }
    }
    assert(t@.take(t@.len() as int) == t@);
    out
}

fn is_common_word(m: &crate::parser::BookMatch, automatic: bool) -> (r: bool)
    ensures
        r == common_word_match(m@, automatic),
{
    let book = m.selected().book();
    let text = chars_of(m.token());
    let token = crate::text::trim_start_chars(text.as_slice());
    let compact = compact_token_exec(token.as_slice());
    if automatic {
        let c = compact.as_slice();
        if crate::text::chars_eq(c, chars_of("am").as_slice()) || crate::text::chars_eq(
            c,
            chars_of("at").as_slice(),
        ) || crate::text::chars_eq(c, chars_of("is").as_slice()) || crate::text::chars_eq(
            c,
            chars_of("so").as_slice(),
        ) {
            return true;
        }
    }
    let mut first_lowercase = false;
    let mut count: usize = 0;
    let mut simple = true;
    for i in 0..token.len()
        invariant
            count == letter_count(token@.take(i as int)),
            count <= i,
            first_lowercase == first_letter_lowercase(token@.take(i as int)),
            simple == forall|j: int|
                0 <= j < i ==> ascii_letter(#[trigger] token@[j]) || token@[j] == ' ' || token@[j]
                    == '.' || is_digit(token@[j]),
    {
        assert(token@.take(i + 1).drop_last() == token@.take(i as int));
        assert(token@.take(i + 1).last() == token@[i as int]);
        let c = token[i];
        if 'A' <= c && c <= 'Z' {
            count += 1;
        } else if 'a' <= c && c <= 'z' {
            if count == 0 {
                first_lowercase = true;
            }
            count += 1;
        } else if c != ' ' && c != '.' && !('0' <= c && c <= '9') {
            simple = false;
        }
    }
    assert(token@.take(token@.len() as int) == token@);
    if !first_lowercase {
        return false;
    }
    if book == Book::Mark || book == Book::Job {
        return true;
    }
    automatic && simple && count <= 3
}

fn looks_like_common_word(metadata: &ParseMetadata, language: Option<Language>) -> (r: bool)
    ensures
        r == looks_common(
            metadata@,
            language is None || language == Some(Language::Auto),
        ),
{
    let automatic = match language {
        None => true,
        Some(l) => l.is_auto(),
    };
    let matches = metadata.book_matches();
    for i in 0..matches.len()
        invariant
            crate::parser::match_views(matches@) == metadata@.matches,
            automatic == (language is None || language == Some(Language::Auto)),
            forall|j: int| 0 <= j < i ==> !common_word_match(#[trigger] metadata@.matches[j], automatic),
    {
        assert(metadata@.matches[i as int] == matches@[i as int]@);
        if is_common_word(&matches[i], automatic) {
            return true;
        }
    }
    false
}

// ---------------------------------------------------------------------------
// Markdown
// ---------------------------------------------------------------------------

/// Backslashes and square brackets escaped with a backslash.
pub open spec fn escape_label(s: Seq<char>) -> Seq<char>
    decreases s.len(),
{
    if s.len() == 0 {
        seq![]
    } else {
        escape_label(s.drop_last()) + if s.last() == '\\' {
            "\\\\"@
        } else if s.last() == '[' {
            "\\["@
        } else if s.last() == ']' {
            "\\]"@
        } else {
            seq![s.last()]
        }
    }
}

/// Parentheses percent-encoded.
pub open spec fn escape_destination(s: Seq<char>) -> Seq<char>
    decreases s.len(),
{
    if s.len() == 0 {
        seq![]
    } else {
        escape_destination(s.drop_last()) + if s.last() == '(' {
            "%28"@
        } else if s.last() == ')' {
            "%29"@
        } else {
            seq![s.last()]
        }
    }
}

/// `[label](destination)` with both parts escaped.
pub open spec fn markdown_link_text(label: Seq<char>, destination: Seq<char>) -> Seq<char> {
    "["@ + escape_label(label) + "]("@ + escape_destination(destination) + ")"@
}

fn escape_markdown_label(s: &[char], out: &mut Vec<char>)
    ensures
        final(out)@ == old(out)@ + escape_label(s@),
{
    let ghost base = out@;
    for i in 0..s.len()
        invariant
            out@ == base + escape_label(s@.take(i as int)),
    {
        assert(s@.take(i + 1).drop_last() == s@.take(i as int));
        assert(s@.take(i + 1).last() == s@[i as int]);
        let c = s[i];
        if c == '\\' {
            extend_str(out, "\\\\");
        } else if c == '[' {
            extend_str(out, "\\[");
        } else if c == ']' {
            extend_str(out, "\\]");
        } else {
            out.push(c);
        }
    }
    assert(s@.take(s@.len() as int) == s@);
}

fn escape_markdown_destination(s: &[char], out: &mut Vec<char>)
    ensures
        final(out)@ == old(out)@ + escape_destination(s@),
{
    let ghost base = out@;
    for i in 0..s.len()
        invariant
            out@ == base + escape_destination(s@.take(i as int)),
    {
        assert(s@.take(i + 1).drop_last() == s@.take(i as int));
        assert(s@.take(i + 1).last() == s@[i as int]);
        let c = s[i];
        if c == '(' {
            extend_str(out, "%28");
        } else if c == ')' {
            extend_str(out, "%29");
        } else {
            out.push(c);
        }
    }
    assert(s@.take(s@.len() as int) == s@);
}

/// A Markdown link with an escaped label and destination.
pub fn markdown_link(label: &str, destination: &str) -> (r: String)
    ensures
        r@ == markdown_link_text(label@, destination@),
{
    let mut v: Vec<char> = Vec::new();
    extend_str(&mut v, "[");
    let l = chars_of(label);
    escape_markdown_label(l.as_slice(), &mut v);
    extend_str(&mut v, "](");
    let d = chars_of(destination);
    escape_markdown_destination(d.as_slice(), &mut v);
    extend_str(&mut v, ")");
    string_of(v.as_slice())
}

// ---------------------------------------------------------------------------
// Matches and configuration
// ---------------------------------------------------------------------------

/// The value of one extracted match.
pub struct ExtractedMatch {
    pub passage: PassageModel,
    pub start: int,
    pub end: int,
    pub text: Seq<char>,
    pub metadata: MetadataModel,
}

/// A successfully parsed passage and its exact byte location in source text.
#[derive(Debug, PartialEq, Eq)]
pub struct PassageMatch {
    passage: Passage,
    start: usize,
    end: usize,
    source_text: String,
    metadata: ParseMetadata,
}

impl View for PassageMatch {
    type V = ExtractedMatch;

    closed spec fn view(&self) -> ExtractedMatch {
        ExtractedMatch {
            passage: self.passage@,
            start: self.start as int,
            end: self.end as int,
            text: self.source_text@,
            metadata: self.metadata@,
        }
    }
}

impl PassageMatch {
    /// The span is ordered.
    #[verifier::type_invariant]
    spec fn well_formed(self) -> bool {
        self.start <= self.end
    }

    /// Return the parsed passage.
    pub fn passage(&self) -> (r: &Passage)
        ensures
            r@ == self@.passage,
    {
        &self.passage
    }

    /// Return the inclusive UTF-8 byte offset in the original source.
    pub fn start(&self) -> (r: usize)
        ensures
            r == self@.start,
            r <= self@.end,
    {
        proof {
            use_type_invariant(self);
        }
        self.start
    }

    /// Return the exclusive UTF-8 byte offset in the original source.
    pub fn end(&self) -> (r: usize)
        ensures
            r == self@.end,
            self@.start <= r,
    {
        proof {
            use_type_invariant(self);
        }
        self.end
    }

    /// The same as [`Self::start`]: the offset is measured in bytes.
    pub fn start_offset(&self) -> (r: usize)
        ensures
            r == self@.start,
    {
        self.start
    }

    /// The same as [`Self::end`]: the offset is measured in bytes.
    pub fn end_offset(&self) -> (r: usize)
        ensures
            r == self@.end,
    {
        self.end
    }

    /// Return the half-open UTF-8 byte range in the original source.
    pub fn range(&self) -> (r: core::ops::Range<usize>)
        ensures
            r.start == self@.start,
            r.end == self@.end,
    {
        core::ops::Range { start: self.start, end: self.end }
    }

    /// The same as [`Self::range`].
    pub fn byte_range(&self) -> (r: core::ops::Range<usize>)
        ensures
            r.start == self@.start,
            r.end == self@.end,
    {
        self.range()
    }

    /// Return the matched length in UTF-8 bytes.
    pub fn len(&self) -> (r: usize)
        ensures
            r == self@.end - self@.start,
    {
        proof {
            use_type_invariant(self);
        }
        self.end - self.start
    }

    /// Return whether the source range is empty.
    pub fn is_empty(&self) -> (r: bool)
        ensures
            r == (self@.start == self@.end),
    {
        self.start == self.end
    }

    /// Return the exact substring copied from the original source.
    pub fn source_text(&self) -> (r: &str)
        ensures
            r@ == self@.text,
    {
        self.source_text.as_str()
    }

    /// The same as [`Self::source_text`].
    pub fn exact_source(&self) -> (r: &str)
        ensures
            r@ == self@.text,
    {
        self.source_text.as_str()
    }

    /// Return metadata produced by the passage parser.
    pub fn metadata(&self) -> (r: &ParseMetadata)
        ensures
            r@ == self@.metadata,
    {
        &self.metadata
    }

    /// Consume the match and return its parsed passage.
    pub fn into_passage(self) -> (r: Passage)
        ensures
            r@ == self@.passage,
    {
        self.passage
    }
}

impl Clone for PassageMatch {
    fn clone(&self) -> (r: PassageMatch)
        ensures
            r@ == self@,
    {
        proof {
            use_type_invariant(self);
        }
        PassageMatch {
            passage: self.passage.duplicate(),
            start: self.start,
            end: self.end,
            source_text: self.source_text.clone(),
            metadata: self.metadata.duplicate(),
        }
    }
}

/// Identifies an invalid extractor window setting.
#[derive(Clone, Copy, Debug, PartialEq, Eq, Structural, Hash)]
pub enum ExtractorWindow {
    /// The search distance before an anchor.
    Lookbehind,
    /// The search distance after an anchor.
    Lookahead,
}

/// The display name of a window setting.
pub open spec fn window_name(w: ExtractorWindow) -> Seq<char> {
    match w {
        ExtractorWindow::Lookbehind => "max lookbehind"@,
        ExtractorWindow::Lookahead => "max lookahead"@,
    }
}

impl ExtractorWindow {
    /// The display name of the setting.
    pub fn to_string(self) -> (s: String)
        ensures
            s@ == window_name(self),
    {
        match self {
            ExtractorWindow::Lookbehind => "max lookbehind".to_owned(),
            ExtractorWindow::Lookahead => "max lookahead".to_owned(),
        }
    }
}

/// Error returned for an extractor window outside `1..=4096`.
#[derive(Clone, Copy, Debug, PartialEq, Eq, Structural, Hash)]
pub struct ExtractorConfigError {
    window: ExtractorWindow,
    value: usize,
}

/// Whether a window setting lies in `MIN_LOOKAROUND..=MAX_LOOKAROUND`.
pub open spec fn valid_window(value: usize) -> bool {
    MIN_LOOKAROUND <= value <= MAX_LOOKAROUND
}

impl ExtractorConfigError {
    /// The invalid setting.
    pub closed spec fn spec_window(self) -> ExtractorWindow {
        self.window
    }

    /// The rejected value.
    pub closed spec fn spec_value(self) -> usize {
        self.value
    }

    /// Return the invalid setting.
    pub fn window(self) -> (r: ExtractorWindow)
        ensures
            r == self.spec_window(),
    {
        self.window
    }

    /// Return the rejected value.
    pub fn value(self) -> (r: usize)
        ensures
            r == self.spec_value(),
    {
        self.value
    }

    /// `{window} must be between 1 and 4096 bytes (got {value})`.
    pub fn to_string(self) -> (s: String)
        ensures
            s@ == window_name(self.spec_window()) + " must be between 1 and 4096 bytes (got "@
                + crate::text::decimal(self.spec_value() as nat) + ")"@,
    {
        let mut v: Vec<char> = Vec::new();
        let name = self.window.to_string();
        extend_str(&mut v, name.as_str());
        extend_str(&mut v, " must be between 1 and 4096 bytes (got ");
        crate::text::push_decimal_usize(&mut v, self.value);
        extend_str(&mut v, ")");
        string_of(v.as_slice())
    }
}

/// Check one window setting.
fn validate_window(window: ExtractorWindow, value: usize) -> (r: Result<(), ExtractorConfigError>)
    ensures
        r is Ok <==> valid_window(value),
        r matches Err(e) ==> e.spec_window() == window && e.spec_value() == value,
{
    if MIN_LOOKAROUND <= value && value <= MAX_LOOKAROUND {
        Ok(())
    } else {
        Err(ExtractorConfigError { window, value })
    }
}

/// The configuration of an extractor.
pub struct ExtractorModel {
    pub parser: PassageParserModel,
    pub include_bare_books: bool,
    pub max_lookbehind: usize,
    pub max_lookahead: usize,
}

/// The outcome of validating an extractor configuration.
pub open spec fn config_check(lookbehind: usize, lookahead: usize) -> Option<(ExtractorWindow, usize)> {
    if !valid_window(lookbehind) {
        Some((ExtractorWindow::Lookbehind, lookbehind))
    } else if !valid_window(lookahead) {
        Some((ExtractorWindow::Lookahead, lookahead))
    } else {
        None
    }
}

/// Builder for a configurable [`ReferenceExtractor`].
#[derive(Debug)]
pub struct ReferenceExtractorBuilder {
    parser: PassageParser,
    include_bare_books: bool,
    max_lookbehind: usize,
    max_lookahead: usize,
}

impl View for ReferenceExtractorBuilder {
    type V = ExtractorModel;

    closed spec fn view(&self) -> ExtractorModel {
        ExtractorModel {
            parser: self.parser@,
            include_bare_books: self.include_bare_books,
            max_lookbehind: self.max_lookbehind,
            max_lookahead: self.max_lookahead,
        }
    }
}

impl Default for ReferenceExtractorBuilder {
    fn default() -> (r: ReferenceExtractorBuilder)
        ensures
            r@.parser == crate::passage::default_passage_parser(),
            !r@.include_bare_books,
            r@.max_lookbehind == DEFAULT_MAX_LOOKBEHIND,
            r@.max_lookahead == DEFAULT_MAX_LOOKAHEAD,
    {
        ReferenceExtractorBuilder {
            parser: PassageParser::new(),
            include_bare_books: false,
            max_lookbehind: DEFAULT_MAX_LOOKBEHIND,
            max_lookahead: DEFAULT_MAX_LOOKAHEAD,
        }
    }
}

impl ReferenceExtractorBuilder {
    /// Replace the parser used to validate candidate spans.
    pub fn parser(self, parser: PassageParser) -> (r: ReferenceExtractorBuilder)
        ensures
            r@ == (ExtractorModel { parser: parser@, ..self@ }),
    {
        ReferenceExtractorBuilder { parser, ..self }
    }

    /// Configure whether whole-book passages are extracted.
    pub fn include_bare_books(self, enabled: bool) -> (r: ReferenceExtractorBuilder)
        ensures
            r@ == (ExtractorModel { include_bare_books: enabled, ..self@ }),
    {
        ReferenceExtractorBuilder { include_bare_books: enabled, ..self }
    }

    /// Set the normalized-byte search distance before numeric anchors; it is
    /// checked by [`Self::build`].
    pub fn max_lookbehind(self, value: usize) -> (r: ReferenceExtractorBuilder)
        ensures
            r@ == (ExtractorModel { max_lookbehind: value, ..self@ }),
    {
        ReferenceExtractorBuilder { max_lookbehind: value, ..self }
    }

    /// Set the normalized-byte search distance after numeric anchors; it is
    /// checked by [`Self::build`].
    pub fn max_lookahead(self, value: usize) -> (r: ReferenceExtractorBuilder)
        ensures
            r@ == (ExtractorModel { max_lookahead: value, ..self@ }),
    {
        ReferenceExtractorBuilder { max_lookahead: value, ..self }
    }

    /// Validate the settings and construct an extractor.
    pub fn build(self) -> (r: Result<ReferenceExtractor, ExtractorConfigError>)
        ensures
            match config_check(self@.max_lookbehind, self@.max_lookahead) {
                Some((w, v)) => r matches Err(e) && e.spec_window() == w && e.spec_value() == v,
                None => r matches Ok(x) && x@ == self@,
            },
    {
        ReferenceExtractor::with_options(
            self.parser,
            self.include_bare_books,
            self.max_lookbehind,
            self.max_lookahead,
        )
    }
}

/// Finds parseable Bible passages embedded in arbitrary prose.
///
/// Results are returned from left to right and never overlap.
#[derive(Debug)]
pub struct ReferenceExtractor {
    parser: PassageParser,
    include_bare_books: bool,
    max_lookbehind: usize,
    max_lookahead: usize,
}

impl View for ReferenceExtractor {
    type V = ExtractorModel;

    closed spec fn view(&self) -> ExtractorModel {
        ExtractorModel {
            parser: self.parser@,
            include_bare_books: self.include_bare_books,
            max_lookbehind: self.max_lookbehind,
            max_lookahead: self.max_lookahead,
        }
    }
}

impl Default for ReferenceExtractor {
    fn default() -> (r: ReferenceExtractor)
        ensures
            r@.parser == crate::passage::default_passage_parser(),
            !r@.include_bare_books,
            r@.max_lookbehind == DEFAULT_MAX_LOOKBEHIND,
            r@.max_lookahead == DEFAULT_MAX_LOOKAHEAD,
    {
        ReferenceExtractor {
            parser: PassageParser::new(),
            include_bare_books: false,
            max_lookbehind: DEFAULT_MAX_LOOKBEHIND,
            max_lookahead: DEFAULT_MAX_LOOKAHEAD,
        }
    }
}

impl ReferenceExtractor {
    /// Window settings stay within `1..=4096`.
    #[verifier::type_invariant]
    spec fn well_formed(self) -> bool {
        valid_window(self.max_lookbehind) && valid_window(self.max_lookahead)
    }

    /// Construct an extractor with a default passage parser.
    pub fn new() -> (r: ReferenceExtractor)
        ensures
            r@.parser == crate::passage::default_passage_parser(),
            !r@.include_bare_books,
            r@.max_lookbehind == DEFAULT_MAX_LOOKBEHIND,
            r@.max_lookahead == DEFAULT_MAX_LOOKAHEAD,
    {
        ReferenceExtractor::default()
    }

    /// Start configuring an extractor.
    pub fn builder() -> (r: ReferenceExtractorBuilder)
        ensures
            r@.parser == crate::passage::default_passage_parser(),
            !r@.include_bare_books,
            r@.max_lookbehind == DEFAULT_MAX_LOOKBEHIND,
            r@.max_lookahead == DEFAULT_MAX_LOOKAHEAD,
    {
        ReferenceExtractorBuilder::default()
    }

    /// Construct an extractor around an existing parser.
    pub fn from_parser(parser: PassageParser) -> (r: ReferenceExtractor)
        ensures
            r@.parser == parser@,
            !r@.include_bare_books,
            r@.max_lookbehind == DEFAULT_MAX_LOOKBEHIND,
            r@.max_lookahead == DEFAULT_MAX_LOOKAHEAD,
    {
        ReferenceExtractor {
            parser,
            include_bare_books: false,
            max_lookbehind: DEFAULT_MAX_LOOKBEHIND,
            max_lookahead: DEFAULT_MAX_LOOKAHEAD,
        }
    }

    /// Construct an extractor from validated configuration values.
    pub fn with_options(
        parser: PassageParser,
        include_bare_books: bool,
        max_lookbehind: usize,
        max_lookahead: usize,
    ) -> (r: Result<ReferenceExtractor, ExtractorConfigError>)
        ensures
            match config_check(max_lookbehind, max_lookahead) {
                Some((w, v)) => r matches Err(e) && e.spec_window() == w && e.spec_value() == v,
                None => r matches Ok(x) && x@ == (ExtractorModel {
                    parser: parser@,
                    include_bare_books,
                    max_lookbehind,
                    max_lookahead,
                }),
            },
    {
        match validate_window(ExtractorWindow::Lookbehind, max_lookbehind) {
            Ok(()) => {},
            Err(e) => return Err(e),
        }
        match validate_window(ExtractorWindow::Lookahead, max_lookahead) {
            Ok(()) => {},
            Err(e) => return Err(e),
        }
        Ok(ReferenceExtractor { parser, include_bare_books, max_lookbehind, max_lookahead })
    }

    /// Return the parser used to validate candidate spans.
    pub fn parser(&self) -> (r: &PassageParser)
        ensures
            r@ == self@.parser,
    {
        &self.parser
    }

    /// Return whether whole-book passages are included.
    pub fn include_bare_books(&self) -> (r: bool)
        ensures
            r == self@.include_bare_books,
    {
        self.include_bare_books
    }

    /// Return the normalized-byte search distance before numeric anchors.
    pub fn max_lookbehind(&self) -> (r: usize)
        ensures
            r == self@.max_lookbehind,
            valid_window(r),
    {
        proof {
            use_type_invariant(self);
        }
        self.max_lookbehind
    }

    /// Return the normalized-byte search distance after numeric anchors.
    pub fn max_lookahead(&self) -> (r: usize)
        ensures
            r == self@.max_lookahead,
            valid_window(r),
    {
        proof {
            use_type_invariant(self);
        }
        self.max_lookahead
    }

    /// Return a copy configured to extract whole-book passages or not.
    pub fn with_include_bare_books(self, enabled: bool) -> (r: ReferenceExtractor)
        ensures
            r@ == (ExtractorModel { include_bare_books: enabled, ..self@ }),
    {
        proof {
            use_type_invariant(&self);
        }
        ReferenceExtractor { include_bare_books: enabled, ..self }
    }

    /// Return a copy with a validated lookbehind window.
    pub fn with_max_lookbehind(self, value: usize) -> (r: Result<ReferenceExtractor, ExtractorConfigError>)
        ensures
            valid_window(value) ==> (r matches Ok(x) && x@ == (ExtractorModel {
                max_lookbehind: value,
                ..self@
            })),
            !valid_window(value) ==> (r matches Err(e) && e.spec_window()
                == ExtractorWindow::Lookbehind && e.spec_value() == value),
    {
        proof {
            use_type_invariant(&self);
        }
        match validate_window(ExtractorWindow::Lookbehind, value) {
            Ok(()) => Ok(ReferenceExtractor { max_lookbehind: value, ..self }),
            Err(e) => Err(e),
        }
    }

    /// Return a copy with a validated lookahead window.
    pub fn with_max_lookahead(self, value: usize) -> (r: Result<ReferenceExtractor, ExtractorConfigError>)
        ensures
            valid_window(value) ==> (r matches Ok(x) && x@ == (ExtractorModel {
                max_lookahead: value,
                ..self@
            })),
            !valid_window(value) ==> (r matches Err(e) && e.spec_window()
                == ExtractorWindow::Lookahead && e.spec_value() == value),
    {
        proof {
            use_type_invariant(&self);
        }
        match validate_window(ExtractorWindow::Lookahead, value) {
            Ok(()) => Ok(ReferenceExtractor { max_lookahead: value, ..self }),
            Err(e) => Err(e),
        }
    }
}

// ---------------------------------------------------------------------------
// Extraction
// ---------------------------------------------------------------------------

/// The language candidates are parsed in: the given one, or automatic mode.
pub open spec fn parse_language(language: Option<Language>) -> Language {
    match language {
        Some(l) => l,
        None => Language::Auto,
    }
}

/// Whether book names are detected automatically.
pub open spec fn automatic(language: Option<Language>) -> bool {
    language is None || language == Some(Language::Auto)
}

/// A normalized candidate that parses, and that holds a number and no
/// whole book unless whole books are extracted.
pub open spec fn candidate_accepted(x: ExtractorModel, cand: Seq<char>, language: Language) -> bool {
    match spec_parse_passage(x.parser, cand, language) {
        Ok((p, _)) => x.include_bare_books || (!has_bare_book(p) && exists|i: int|
            0 <= i < cand.len() && is_digit(#[trigger] cand[i])),
        Err(_) => false,
    }
}

/// The passage and metadata of a match: the parse of its exact source text
/// when that parses, otherwise the parse of the accepted normalized
/// candidate.
pub open spec fn parsed_from(
    x: ExtractorModel,
    cand: Seq<char>,
    language: Language,
    m: ExtractedMatch,
) -> bool {
    &&& candidate_accepted(x, cand, language)
    &&& match spec_parse_passage(x.parser, m.text, language) {
        Ok(r) => r == (m.passage, m.metadata),
        Err(_) => spec_parse_passage(x.parser, cand, language) == Ok::<
            (PassageModel, MetadataModel),
            crate::error::ErrorModel,
        >((m.passage, m.metadata)),
    }
}

/// A match copies the exact source text between two scalar boundaries,
/// was parsed from an accepted candidate, and does not read like a common
/// word.
pub open spec fn valid_match(
    x: ExtractorModel,
    source: Seq<char>,
    language: Option<Language>,
    m: ExtractedMatch,
) -> bool {
    &&& 0 <= m.start <= m.end
    &&& boundary_position(source, m.start) is Some
    &&& boundary_position(source, m.end) is Some
    &&& m.text == source.subrange(
        boundary_position(source, m.start).unwrap(),
        boundary_position(source, m.end).unwrap(),
    )
    &&& !looks_common(m.metadata, automatic(language))
    &&& exists|cand: Seq<char>| #[trigger] parsed_from(x, cand, parse_language(language), m)
}

/// The models of a sequence of matches.
pub open spec fn match_models(v: Seq<PassageMatch>) -> Seq<ExtractedMatch> {
    v.map_values(|m: PassageMatch| m@)
}

/// Matches run from left to right and never overlap.
pub open spec fn ordered_matches(ms: Seq<ExtractedMatch>) -> bool {
    forall|i: int, j: int| 0 <= i < j < ms.len() ==> (#[trigger] ms[i]).end <= (#[trigger] ms[j]).start
}

/// Every match is valid for the source.
pub open spec fn all_valid(
    x: ExtractorModel,
    source: Seq<char>,
    language: Option<Language>,
    ms: Seq<ExtractedMatch>,
) -> bool {
    forall|i: int| 0 <= i < ms.len() ==> valid_match(x, source, language, #[trigger] ms[i])
}

/// The byte offset of every scalar position, and of the end.
fn byte_offsets(s: &[char], total: usize) -> (r: Vec<usize>)
    requires
        byte_len(s@) == total,
    ensures
        r@.len() == s@.len() + 1,
        forall|i: int| 0 <= i <= s@.len() ==> r@[i] == byte_offset(s@, i),
        forall|i: int| 0 <= i <= s@.len() ==> r@[i] <= total,
        forall|i: int, j: int| 0 <= i < j <= s@.len() ==> r@[i] < r@[j],
{
    let mut out: Vec<usize> = Vec::new();
    let mut acc: usize = 0;
    out.push(0);
    assert(s@.take(0).len() == 0);
    for i in 0..s.len()
        invariant
            byte_len(s@) == total,
            out@.len() == i + 1,
            acc == byte_len(s@.take(i as int)),
            forall|k: int| 0 <= k <= i ==> out@[k] == byte_offset(s@, k),
    {
        assert(s@.take(i + 1).drop_last() == s@.take(i as int));
        assert(s@.take(i + 1).last() == s@[i as int]);
        proof {
            lemma_byte_len_prefix(s@, i + 1, s@.len() as int);
            assert(s@.take(s@.len() as int) == s@);
        }
        acc = acc + crate::text::char_utf8_len(s[i]);
        out.push(acc);
    }
    assert forall|i: int, j: int| 0 <= i < j <= s@.len() implies out@[i] < out@[j] by {
        lemma_byte_len_prefix(s@, i, j);
    }
    assert forall|i: int| 0 <= i <= s@.len() implies out@[i] <= total by {
        lemma_byte_len_prefix(s@, i, s@.len() as int);
        assert(s@.take(s@.len() as int) == s@);
    }
    out
}

/// The scalar position whose byte offset is `b`, if any.
fn position_of_offset(offs: &[usize], b: usize) -> (r: Option<usize>)
    requires
        forall|i: int, j: int| 0 <= i < j < offs@.len() ==> offs@[i] < offs@[j],
    ensures
        match r {
            Some(i) => i < offs@.len() && offs@[i as int] == b,
            None => forall|i: int| 0 <= i < offs@.len() ==> offs@[i] != b,
        },
{
    for i in 0..offs.len()
        invariant
            forall|k: int| 0 <= k < i ==> offs@[k] != b,
    {
        if offs[i] == b {
            return Some(i);
        }
    }
    None
}

/// Remove directional controls from both ends of a byte span of the source.
fn trim_bidi_controls(
    orig: &[char],
    orig_offs: &[usize],
    start: usize,
    end: usize,
) -> (r: (usize, usize))
    requires
        orig_offs@.len() == orig@.len() + 1,
        forall|i: int| 0 <= i <= orig@.len() ==> orig_offs@[i] == byte_offset(orig@, i),
        forall|i: int, j: int| 0 <= i < j < orig_offs@.len() ==> orig_offs@[i] < orig_offs@[j],
        start <= end,
    ensures
        r.0 <= r.1,
        (r.0 as int, r.1 as int) == trim_bidi_span(orig@, start as int, end as int),
{
    let a = match position_of_offset(orig_offs, start) {
        Some(a) => a,
        None => {
            proof {
                lemma_no_boundary(orig@, orig_offs@, start as int);
            }
            return (start, end);
        },
    };
    let b = match position_of_offset(orig_offs, end) {
        Some(b) => b,
        None => {
            proof {
                lemma_boundary_unique(orig@, a as int);
                lemma_no_boundary(orig@, orig_offs@, end as int);
            }
            return (start, end);
        },
    };
    proof {
        lemma_boundary_unique(orig@, a as int);
        lemma_boundary_unique(orig@, b as int);
    }
    if b < a {
        return (start, end);
    }
    let mut i = a;
    let mut j = b;
    while i < j && is_bidi_control(orig[i])
        invariant
            a <= i <= j <= b < orig_offs@.len(),
            j == b,
            orig_offs@.len() == orig@.len() + 1,
            skip_bidi_forward(orig@, a as int, b as int) == skip_bidi_forward(orig@, i as int, b as int),
        decreases j - i,
    {
        i += 1;
    }
    while j > i && is_bidi_control(orig[j - 1])
        invariant
            a <= i <= j <= b < orig_offs@.len(),
            orig_offs@.len() == orig@.len() + 1,
            i == skip_bidi_forward(orig@, a as int, b as int),
            skip_bidi_backward(orig@, i as int, b as int) == skip_bidi_backward(orig@, i as int, j as int),
        decreases j,
    {
        j -= 1;
    }
    proof {
        if i < j {
            assert(orig_offs@[i as int] < orig_offs@[j as int]);
        }
    }
    (orig_offs[i], orig_offs[j])
}

/// A byte offset that no scalar position has is no boundary.
proof fn lemma_no_boundary(s: Seq<char>, offs: Seq<usize>, b: int)
    requires
        offs.len() == s.len() + 1,
        forall|i: int| 0 <= i <= s.len() ==> offs[i] == byte_offset(s, i),
        forall|i: int| 0 <= i < offs.len() ==> offs[i] != b,
    ensures
        boundary_position(s, b) is None,
{
    if exists|i: int| 0 <= i <= s.len() && byte_offset(s, i) == b {
        let i = choose|i: int| 0 <= i <= s.len() && byte_offset(s, i) == b;
        assert(offs[i] == b);
    }
}

/// Whether some scalar is an ASCII digit.
fn has_digit(s: &[char]) -> (r: bool)
    ensures
        r == exists|i: int| 0 <= i < s@.len() && is_digit(#[trigger] s@[i]),
{
    for i in 0..s.len()
        invariant
            forall|k: int| 0 <= k < i ==> !is_digit(#[trigger] s@[k]),
    {
        if crate::text::is_ascii_digit(s[i]) {
            return true;
        }
    }
    false
}

/// Whether a candidate with this source span is already recorded.
fn has_span(cands: &[PassageMatch], start: usize, end: usize) -> (r: bool)
    ensures
        r == has_span_in(match_models(cands@), start as int, end as int),
{
    let ghost models = match_models(cands@);
    for i in 0..cands.len()
        invariant
            models == match_models(cands@),
            forall|k: int| 0 <= k < i ==> !((#[trigger] models[k]).start == start && models[k].end == end),
    {
        assert(models[i as int] == cands@[i as int]@);
        if cands[i].start == start && cands[i].end == end {
            return true;
        }
    }
    false
}

/// A normalized scalar range maps to the source span from the first
/// scalar's kept span to the last one's.
proof fn lemma_mapped_span(s: Seq<char>, spans: Seq<SourceSpan>, start: int, end: int)
    requires
        spans_match(s, spans),
        0 <= start < end <= normalize_seq(s).len(),
    ensures
        byte_offset(normalize_seq(s), start) < byte_offset(normalize_seq(s), end) <= spans.len(),
        spans[byte_offset(normalize_seq(s), start) as int].spec_start() == kept_span(s, start).0,
        spans[byte_offset(normalize_seq(s), end) - 1].spec_end() == kept_span(s, end - 1).1,
{
    let out = normalize_seq(s);
    lemma_byte_len_prefix(out, start, end);
    lemma_byte_len_prefix(out, end, out.len() as int);
    assert(out.take(out.len() as int) == out);
    assert(out.take(end).drop_last() == out.take(end - 1));
    assert(out.take(end).last() == out[end - 1]);
    assert(byte_offset(out, end) == byte_offset(out, end - 1) + utf8_len(out[end - 1]));
    let k = end - 1;
    let j = utf8_len(out[k]) - 1;
    assert(0 <= k < out.len() && 0 <= j < utf8_len(out[k]));
    assert(spans[byte_offset(out, k) + j] == spans[byte_offset(out, end) - 1]);
    assert(0 <= start < out.len() && 0 <= 0 < utf8_len(out[start]));
    assert(spans[byte_offset(out, start) + 0int] == spans[byte_offset(out, start) as int]);
}

/// The text, normalization and offsets a search works on.
struct SearchText<'a> {
    source: &'a str,
    orig: Vec<char>,
    orig_offs: Vec<usize>,
    normalization: NormalizedInput,
    text: Vec<char>,
    offs: Vec<usize>,
    total: usize,
}

impl<'a> SearchText<'a> {
    spec fn wf(&self) -> bool {
        &&& self.orig@ == self.source@
        &&& self.text@ == normalize_seq(self.source@)
        &&& self.total == byte_len(self.text@)
        &&& forall|i: int| 0 <= i <= self.text@.len() ==> self.offs@[i] == byte_offset(self.text@, i)
        &&& self.normalization.spec_original() == self.source@
        &&& spans_match(self.source@, self.normalization.spec_spans())
        &&& self.orig_offs@.len() == self.orig@.len() + 1
        &&& forall|i: int| 0 <= i <= self.orig@.len() ==> self.orig_offs@[i] == byte_offset(self.orig@, i)
        &&& forall|i: int, j: int|
            0 <= i < j < self.orig_offs@.len() ==> self.orig_offs@[i] < self.orig_offs@[j]
        &&& self.offs@.len() == self.text@.len() + 1
        &&& forall|i: int| 0 <= i <= self.text@.len() ==> self.offs@[i] <= self.total
        &&& forall|i: int, j: int| 0 <= i < j < self.offs@.len() ==> self.offs@[i] < self.offs@[j]
        &&& self.offs@[self.text@.len() as int] == self.total
    }
}

impl ReferenceExtractor {
    /// Parse a candidate in the configured language or automatic mode.
    fn parse_candidate(&self, candidate: &str, language: Option<Language>) -> (r: Option<
        crate::parser::Parsed<Passage>,
    >)
        ensures
            match r {
                Some(p) => spec_parse_passage(self@.parser, candidate@, parse_language(language))
                    == Ok::<(PassageModel, MetadataModel), crate::error::ErrorModel>(
                    (p.spec_value()@, p.spec_metadata()),
                ),
                None => spec_parse_passage(self@.parser, candidate@, parse_language(language)) is Err,
            },
    {
        let r = match language {
            Some(l) => self.parser.parse_detailed_with_language(candidate, l),
            None => self.parser.parse_detailed(candidate),
        };
        match r {
            Ok(p) => Some(p),
            Err(_) => None,
        }
    }

    /// Try the normalized candidate `[start, end)`; `true` when a match for
    /// its source span is recorded.
    fn try_candidate(
        &self,
        st: &SearchText,
        start: usize,
        end: usize,
        language: Option<Language>,
        cands: &mut Vec<PassageMatch>,
    ) -> (r: bool)
        requires
            st.wf(),
            start < end <= st.text@.len(),
            all_valid(self@, st.source@, language, match_models(old(cands)@)),
        ensures
            all_valid(self@, st.source@, language, match_models(final(cands)@)),
            (match_models(final(cands)@), r) == try_outcome(
                self@,
                st.source@,
                language,
                start as int,
                end as int,
                match_models(old(cands)@),
            ),
    {
        proof {
            lemma_mapped_span(st.source@, st.normalization.spec_spans(), start as int, end as int);
        }
        let candidate_chars = crate::text::slice_chars(st.text.as_slice(), start, end);
        let candidate = string_of(candidate_chars.as_slice());
        let parsed = match self.parse_candidate(candidate.as_str(), language) {
            Some(p) => p,
            None => {
                return false;
            },
        };
        let (mut passage, mut metadata) = parsed.into_parts();
        if !self.include_bare_books && (contains_bare_book(&passage) || !has_digit(
            candidate_chars.as_slice(),
        )) {
            return false;
        }
        let mapped = match st.normalization.map_normalized_span(st.offs[start], st.offs[end]) {
            Some(span) => span,
            None => {
                return false;
            },
        };
        proof {
            let sp = st.normalization.spec_spans();
            crate::normalize::lemma_span_of(
                sp[st.offs@[start as int] as int].spec_start(),
                sp[st.offs@[end as int] - 1].spec_end(),
            );
            assert(mapped.spec_start() == kept_span(st.source@, start as int).0);
            assert(mapped.spec_end() == kept_span(st.source@, end - 1).1);
        }
        let (span_start, span_end) = trim_bidi_controls(
            st.orig.as_slice(),
            st.orig_offs.as_slice(),
            mapped.start(),
            mapped.end(),
        );
        if has_span(cands.as_slice(), span_start, span_end) {
            return true;
        }
        let source_text = match str_get(st.source, span_start, span_end) {
            Some(t) => t,
            None => {
                return false;
            },
        };
        match self.parse_candidate(source_text, language) {
            Some(original) => {
                let (p, m) = original.into_parts();
                passage = p;
                metadata = m;
            },
            None => {},
        }
        if looks_like_common_word(&metadata, language) {
            return false;
        }
        let found = PassageMatch {
            passage,
            start: span_start,
            end: span_end,
            source_text: source_text.to_owned(),
            metadata,
        };
        let ghost cand = candidate@;
        assert(parsed_from(self@, cand, parse_language(language), found@));
        let ghost before = cands@;
        cands.push(found);
        assert(match_models(cands@) =~= match_models(before).push(found@));
        true
    }
}

impl ReferenceExtractor {
    /// Try every start before the anchor `[a, b)` within the lookbehind
    /// window, each with the longest end first.
    fn search_window(
        &self,
        st: &SearchText,
        a: usize,
        b: usize,
        language: Option<Language>,
        cands: &mut Vec<PassageMatch>,
    )
        requires
            st.wf(),
            0 < b <= st.text@.len(),
            a < b,
            all_valid(self@, st.source@, language, match_models(old(cands)@)),
        ensures
            all_valid(self@, st.source@, language, match_models(final(cands)@)),
            match_models(final(cands)@) == window_outcome(
                self@,
                st.source@,
                language,
                a as int,
                b as int,
                match_models(old(cands)@),
            ),
    {
        proof {
            use_type_invariant(self);
        }
        let ghost x = self@;
        let ghost src = st.source@;
        let ghost text = st.text@;
        let ghost initial = match_models(cands@);
        let n = st.text.len();
        let lookbehind = self.max_lookbehind;
        let lookahead = self.max_lookahead;
        let min_start: usize = if st.offs[a] > lookbehind {
            st.offs[a] - lookbehind
        } else {
            0
        };
        let mut bs: usize = 0;
        while bs < a && st.offs[bs] < min_start
            invariant
                bs <= a < st.offs@.len(),
                st.wf(),
                text == st.text@,
                skip_before(text, 0, a as int, min_start as int) == skip_before(
                    text,
                    bs as int,
                    a as int,
                    min_start as int,
                ),
            decreases a - bs,
        {
            bs += 1;
        }
        let max_end: usize = if lookahead >= st.total - st.offs[b] {
            st.total
        } else {
            st.offs[b] + lookahead
        };
        let mut be: usize = n;
        while be > b && st.offs[be] > max_end
            invariant
                b <= be <= n,
                n == st.text@.len(),
                st.wf(),
                text == st.text@,
                back_to(text, n as int, b as int, max_end as int) == back_to(
                    text,
                    be as int,
                    b as int,
                    max_end as int,
                ),
            decreases be,
        {
            be -= 1;
        }
        let mut ends: Vec<usize> = Vec::new();
        if crate::text::is_ascii_digit(st.text[b - 1]) {
            ends.push(b);
        }
        assert(as_ints(ends@) =~= digit_ends(text, b as int, b as int));
        let mut k = b;
        while k < be
            invariant
                b <= k <= be <= n,
                n == st.text@.len(),
                text == st.text@,
                forall|i: int| 0 <= i < ends@.len() ==> b <= #[trigger] ends@[i] <= n,
                as_ints(ends@) == digit_ends(text, b as int, k as int),
            decreases be - k,
        {
            let ghost before = ends@;
            if crate::text::is_ascii_digit(st.text[k]) {
                ends.push(k + 1);
                assert(as_ints(ends@) =~= as_ints(before).push(k + 1));
            }
            k += 1;
        }
        let ghost es = as_ints(ends@);
        assert(window_outcome(x, src, language, a as int, b as int, initial) == try_starts(
            x,
            src,
            language,
            bs as int,
            a as int,
            es,
            initial,
        ));
        let mut start = bs;
        while start < a
            invariant
                start <= a < b <= n,
                n == st.text@.len(),
                st.wf(),
                x == self@,
                src == st.source@,
                text == st.text@,
                es == as_ints(ends@),
                forall|i: int| 0 <= i < ends@.len() ==> b <= #[trigger] ends@[i] <= n,
                all_valid(self@, st.source@, language, match_models(cands@)),
                window_outcome(x, src, language, a as int, b as int, initial) == try_starts(
                    x,
                    src,
                    language,
                    start as int,
                    a as int,
                    es,
                    match_models(cands@),
                ),
            decreases a - start,
        {
            let ghost at_start = match_models(cands@);
            if can_start_at_exec(st.text.as_slice(), start) {
                let mut idx = ends.len();
                let mut done = false;
                while idx > 0 && !done
                    invariant
                        idx <= ends@.len(),
                        start < a < b <= n,
                        n == st.text@.len(),
                        st.wf(),
                        x == self@,
                        src == st.source@,
                        es == as_ints(ends@),
                        forall|i: int| 0 <= i < ends@.len() ==> b <= #[trigger] ends@[i] <= n,
                        all_valid(self@, st.source@, language, match_models(cands@)),
                        done ==> try_ends(x, src, language, start as int, es, es.len() as int, at_start)
                            == match_models(cands@),
                        !done ==> try_ends(x, src, language, start as int, es, es.len() as int, at_start)
                            == try_ends(x, src, language, start as int, es, idx as int, match_models(cands@)),
                    decreases idx,
                {
                    idx -= 1;
                    let end = ends[idx];
                    assert(es[idx as int] == end as int);
                    if end > start && safe_outer_boundaries_exec(st.text.as_slice(), start, end) {
                        if self.try_candidate(st, start, end, language, cands) {
                            done = true;
                        }
                    }
                }
            }
            start += 1;
        }
    }

    /// Try whole-book candidates at every start, longest end first.
    fn search_bare_passages(
        &self,
        st: &SearchText,
        language: Option<Language>,
        cands: &mut Vec<PassageMatch>,
    )
        requires
            st.wf(),
            all_valid(self@, st.source@, language, match_models(old(cands)@)),
        ensures
            all_valid(self@, st.source@, language, match_models(final(cands)@)),
            match_models(final(cands)@) == scan_bare(self@, st.source@, language, 0, match_models(old(cands)@)),
    {
        proof {
            use_type_invariant(self);
        }
        let ghost x = self@;
        let ghost src = st.source@;
        let ghost text = st.text@;
        let ghost initial = match_models(cands@);
        let n = st.text.len();
        let lookahead = self.max_lookahead;
        let mut start: usize = 0;
        while start < n
            invariant
                start <= n,
                n == st.text@.len(),
                st.wf(),
                x == self@,
                lookahead == self.max_lookahead,
                src == st.source@,
                text == st.text@,
                all_valid(self@, st.source@, language, match_models(cands@)),
                scan_bare(x, src, language, 0, initial) == scan_bare(
                    x,
                    src,
                    language,
                    start as int,
                    match_models(cands@),
                ),
            decreases n - start,
        {
            let ghost at_start = match_models(cands@);
            assert(st.offs@[start as int] == byte_offset(text, start as int));
            if can_start_at_exec(st.text.as_slice(), start) {
                let max_end: usize = if lookahead >= st.total - st.offs[start] {
                    st.total
                } else {
                    st.offs[start] + lookahead
                };
                assert(max_end as int == (if x.max_lookahead >= byte_len(text) as int - byte_offset(
                    text,
                    start as int,
                ) {
                    byte_len(text) as int
                } else {
                    byte_offset(text, start as int) + x.max_lookahead
                }));
                let mut be: usize = n;
                while be > start && st.offs[be] > max_end
                    invariant
                        start <= be <= n,
                        n == st.text@.len(),
                        st.wf(),
                        text == st.text@,
                        back_to(text, n as int, start as int, max_end as int) == back_to(
                            text,
                            be as int,
                            start as int,
                            max_end as int,
                        ),
                    decreases be,
                {
                    be -= 1;
                }
                let mut end = be;
                while end > start
                    invariant
                        start <= end <= be <= n,
                        start < n,
                        n == st.text@.len(),
                        st.wf(),
                        x == self@,
                        src == st.source@,
                        text == st.text@,
                        all_valid(self@, st.source@, language, match_models(cands@)),
                        try_bare_ends(x, src, language, start as int, be as int, at_start)
                            == try_bare_ends(x, src, language, start as int, end as int, match_models(cands@)),
                    decreases end,
                {
                    if can_end_at_exec(st.text.as_slice(), end) && safe_outer_boundaries_exec(
                        st.text.as_slice(),
                        start,
                        end,
                    ) {
                        self.try_candidate(st, start, end, language, cands);
                    }
                    end -= 1;
                }
                assert(match_models(cands@) == try_bare_ends(
                    x,
                    src,
                    language,
                    start as int,
                    back_to(text, text.len() as int, start as int, max_end as int),
                    at_start,
                ));
            }
            assert(scan_bare(x, src, language, start as int, at_start) == scan_bare(
                x,
                src,
                language,
                start + 1,
                match_models(cands@),
            ));
            start += 1;
        }
    }

    /// Find deterministic, non-overlapping passages.
    fn extract_inner(&self, source: &str, language: Option<Language>) -> (r: Vec<PassageMatch>)
        ensures
            ordered_matches(match_models(r@)),
            all_valid(self@, source@, language, match_models(r@)),
            match_models(r@) == spec_extraction(self@, source@, language),
    {
        let mut cands: Vec<PassageMatch> = Vec::new();
        assert(match_models(cands@) =~= Seq::<ExtractedMatch>::empty());
        if crate::text::str_byte_len(source) == 0 {
            return cands;
        }
        let normalization = crate::normalize::normalize_detailed(source);
        let text = chars_of(normalization.normalized());
        let total = crate::text::str_byte_len(normalization.normalized());
        let offs = byte_offsets(text.as_slice(), total);
        let orig = chars_of(source);
        let orig_total = crate::text::str_byte_len(source);
        let orig_offs = byte_offsets(orig.as_slice(), orig_total);
        proof {
            assert(text@.take(text@.len() as int) == text@);
        }
        let st = SearchText { source, orig, orig_offs, normalization, text, offs, total };
        let ghost x = self@;
        let ghost src = source@;
        let ghost tx = st.text@;
        let n = st.text.len();
        let mut i: usize = 0;
        while i < n
            invariant
                i <= n,
                n == st.text@.len(),
                st.wf(),
                st.source@ == source@,
                x == self@,
                src == source@,
                tx == st.text@,
                all_valid(self@, source@, language, match_models(cands@)),
                scan_anchors(x, src, language, 0, seq![]) == scan_anchors(
                    x,
                    src,
                    language,
                    i as int,
                    match_models(cands@),
                ),
            decreases n - i,
        {
            if !crate::text::is_ascii_digit(st.text[i]) {
                i += 1;
            } else {
                let a = i;
                let mut j = i + 1;
                while j < n && crate::text::is_ascii_digit(st.text[j])
                    invariant
                        a < j <= n,
                        n == st.text@.len(),
                        tx == st.text@,
                        digit_run_end(tx, a + 1) == digit_run_end(tx, j as int),
                    decreases n - j,
                {
                    j += 1;
                }
                self.search_window(&st, a, j, language, &mut cands);
                i = j;
            }
        }
        let ghost anchored = match_models(cands@);
        if self.include_bare_books {
            self.search_bare_passages(&st, language, &mut cands);
        }
        let ghost pool = cands@;
        let ordered = order_candidates(cands);
        proof {
            lemma_pool_valid(self@, source@, language, pool, ordered@);
        }
        let ghost ordered_pool = ordered@;
        let selected = select_matches(ordered);
        proof {
            lemma_pool_valid(self@, source@, language, ordered_pool, selected@);
        }
        selected
    }
}

// ---------------------------------------------------------------------------
// The search, as values
// ---------------------------------------------------------------------------

/// The first scalar at or after `i` that is not a directional control,
/// searching up to `j`.
pub open spec fn skip_bidi_forward(s: Seq<char>, i: int, j: int) -> int
    decreases j - i,
{
    if i < j && 0 <= i < s.len() && bidi_control(s[i]) {
        skip_bidi_forward(s, i + 1, j)
    } else {
        i
    }
}

/// The end, at or before `j`, of the run that ends in no directional
/// control, searching down to `i`.
pub open spec fn skip_bidi_backward(s: Seq<char>, i: int, j: int) -> int
    decreases j - i,
{
    if j > i && 0 < j <= s.len() && bidi_control(s[j - 1]) {
        skip_bidi_backward(s, i, j - 1)
    } else {
        j
    }
}

/// A source byte span with directional controls removed from both ends; a
/// span whose ends are not scalar boundaries is kept as it is.
pub open spec fn trim_bidi_span(source: Seq<char>, start: int, end: int) -> (int, int) {
    match boundary_position(source, start) {
        None => (start, end),
        Some(a) => match boundary_position(source, end) {
            None => (start, end),
            Some(b) => if b < a {
                (start, end)
            } else {
                let i = skip_bidi_forward(source, a, b);
                let j = skip_bidi_backward(source, i, b);
                (byte_offset(source, i) as int, byte_offset(source, j) as int)
            },
        },
    }
}

/// Whether a recorded candidate has exactly this source span.
pub open spec fn has_span_in(cands: Seq<ExtractedMatch>, start: int, end: int) -> bool {
    exists|k: int| 0 <= k < cands.len() && (#[trigger] cands[k]).start == start && cands[k].end == end
}

/// The outcome of trying normalized candidate `[start, end)`: the pool after
/// the attempt, and whether the search may stop (a match was recorded, or
/// one with the same source span already was).
pub open spec fn try_outcome(
    x: ExtractorModel,
    source: Seq<char>,
    language: Option<Language>,
    start: int,
    end: int,
    cands: Seq<ExtractedMatch>,
) -> (Seq<ExtractedMatch>, bool) {
    let text = normalize_seq(source);
    let cand = text.subrange(start, end);
    let l = parse_language(language);
    match spec_parse_passage(x.parser, cand, l) {
        Err(_) => (cands, false),
        Ok((p0, m0)) => if !x.include_bare_books && (has_bare_book(p0) || !(exists|i: int|
            0 <= i < cand.len() && is_digit(#[trigger] cand[i]))) {
            (cands, false)
        } else {
            let span = trim_bidi_span(
                source,
                kept_span(source, start).0,
                kept_span(source, end - 1).1,
            );
            let (s0, e0) = span;
            if has_span_in(cands, s0, e0) {
                (cands, true)
            } else if !(s0 <= e0 && boundary_position(source, s0) is Some && boundary_position(
                source,
                e0,
            ) is Some) {
                (cands, false)
            } else {
                let t = source.subrange(
                    boundary_position(source, s0).unwrap(),
                    boundary_position(source, e0).unwrap(),
                );
                let (p, m) = match spec_parse_passage(x.parser, t, l) {
                    Ok((p1, m1)) => (p1, m1),
                    Err(_) => (p0, m0),
                };
                if looks_common(m, automatic(language)) {
                    (cands, false)
                } else {
                    (
                        cands.push(ExtractedMatch { passage: p, start: s0, end: e0, text: t, metadata: m }),
                        true,
                    )
                }
            }
        },
    }
}

/// Trying the ends `ends[idx - 1]`, `ends[idx - 2]`, ... for one start,
/// longest first, until one succeeds.
pub open spec fn try_ends(
    x: ExtractorModel,
    source: Seq<char>,
    language: Option<Language>,
    start: int,
    ends: Seq<int>,
    idx: int,
    cands: Seq<ExtractedMatch>,
) -> Seq<ExtractedMatch>
    decreases idx,
{
    if idx <= 0 {
        cands
    } else {
        let end = ends[idx - 1];
        if end > start && safe_outer_boundaries(normalize_seq(source), start, end) {
            let (c2, found) = try_outcome(x, source, language, start, end, cands);
            if found {
                c2
            } else {
                try_ends(x, source, language, start, ends, idx - 1, c2)
            }
        } else {
            try_ends(x, source, language, start, ends, idx - 1, cands)
        }
    }
}

/// Trying every start from `start` up to the anchor start `a`.
pub open spec fn try_starts(
    x: ExtractorModel,
    source: Seq<char>,
    language: Option<Language>,
    start: int,
    a: int,
    ends: Seq<int>,
    cands: Seq<ExtractedMatch>,
) -> Seq<ExtractedMatch>
    decreases a - start,
{
    if start >= a {
        cands
    } else {
        let c2 = if can_start_at(normalize_seq(source), start) {
            try_ends(x, source, language, start, ends, ends.len() as int, cands)
        } else {
            cands
        };
        try_starts(x, source, language, start + 1, a, ends, c2)
    }
}

/// The first position from `bs` on, before `a`, whose byte offset reaches
/// `min`.
pub open spec fn skip_before(text: Seq<char>, bs: int, a: int, min: int) -> int
    decreases a - bs,
{
    if bs < a && byte_offset(text, bs) < min {
        skip_before(text, bs + 1, a, min)
    } else {
        bs
    }
}

/// The last position from `be` down, after `b`, whose byte offset stays
/// within `max_end`.
pub open spec fn back_to(text: Seq<char>, be: int, b: int, max_end: int) -> int
    decreases be - b,
{
    if be > b && byte_offset(text, be) > max_end {
        back_to(text, be - 1, b, max_end)
    } else {
        be
    }
}

/// The candidate ends up to position `k`: `b`, then each position after a
/// digit.
pub open spec fn digit_ends(text: Seq<char>, b: int, k: int) -> Seq<int>
    decreases k - b,
{
    if k <= b {
        if is_digit(text[b - 1]) {
            seq![b]
        } else {
            seq![]
        }
    } else if is_digit(text[k - 1]) {
        digit_ends(text, b, k - 1).push(k)
    } else {
        digit_ends(text, b, k - 1)
    }
}

/// The search around the digit run `[a, b)`: starts within the lookbehind
/// window, ends after digits within the lookahead window.
pub open spec fn window_outcome(
    x: ExtractorModel,
    source: Seq<char>,
    language: Option<Language>,
    a: int,
    b: int,
    cands: Seq<ExtractedMatch>,
) -> Seq<ExtractedMatch> {
    let text = normalize_seq(source);
    let total = byte_len(text) as int;
    let min_start = if byte_offset(text, a) > x.max_lookbehind {
        byte_offset(text, a) - x.max_lookbehind
    } else {
        0
    };
    let bs = skip_before(text, 0, a, min_start);
    let max_end = if x.max_lookahead >= total - byte_offset(text, b) {
        total
    } else {
        byte_offset(text, b) + x.max_lookahead
    };
    let be = back_to(text, text.len() as int, b, max_end);
    try_starts(x, source, language, bs, a, digit_ends(text, b, be), cands)
}

/// The end of the digit run that continues at `j`.
pub open spec fn digit_run_end(text: Seq<char>, j: int) -> int
    decreases text.len() - j,
{
    if 0 <= j < text.len() && is_digit(text[j]) {
        digit_run_end(text, j + 1)
    } else {
        j
    }
}

/// A digit run ends at or after where it continues, within the text.
pub proof fn lemma_digit_run_end(text: Seq<char>, j: int)
    requires
        0 <= j <= text.len(),
    ensures
        j <= digit_run_end(text, j) <= text.len(),
    decreases text.len() - j,
{
    if j < text.len() && is_digit(text[j]) {
        lemma_digit_run_end(text, j + 1);
    }
}

/// Searching around every digit run from position `i` on.
pub open spec fn scan_anchors(
    x: ExtractorModel,
    source: Seq<char>,
    language: Option<Language>,
    i: int,
    cands: Seq<ExtractedMatch>,
) -> Seq<ExtractedMatch>
    decreases normalize_seq(source).len() - i,
{
    let text = normalize_seq(source);
    if i < 0 || i >= text.len() {
        cands
    } else if !is_digit(text[i]) {
        scan_anchors(x, source, language, i + 1, cands)
    } else {
        let j = digit_run_end(text, i + 1);
        proof {
            lemma_digit_run_end(text, i + 1);
        }
        scan_anchors(x, source, language, j, window_outcome(x, source, language, i, j, cands))
    }
}

/// Trying whole-book candidates for one start, every end from `end` down.
pub open spec fn try_bare_ends(
    x: ExtractorModel,
    source: Seq<char>,
    language: Option<Language>,
    start: int,
    end: int,
    cands: Seq<ExtractedMatch>,
) -> Seq<ExtractedMatch>
    decreases end - start,
{
    if end <= start {
        cands
    } else {
        let text = normalize_seq(source);
        let c2 = if can_end_at(text, end) && safe_outer_boundaries(text, start, end) {
            try_outcome(x, source, language, start, end, cands).0
        } else {
            cands
        };
        try_bare_ends(x, source, language, start, end - 1, c2)
    }
}

/// Trying whole-book candidates at every start from `start` on.
pub open spec fn scan_bare(
    x: ExtractorModel,
    source: Seq<char>,
    language: Option<Language>,
    start: int,
    cands: Seq<ExtractedMatch>,
) -> Seq<ExtractedMatch>
    decreases normalize_seq(source).len() - start,
{
    let text = normalize_seq(source);
    if start < 0 || start >= text.len() {
        cands
    } else {
        let c2 = if can_start_at(text, start) {
            let total = byte_len(text) as int;
            let max_end = if x.max_lookahead >= total - byte_offset(text, start) {
                total
            } else {
                byte_offset(text, start) + x.max_lookahead
            };
            let be = back_to(text, text.len() as int, start, max_end);
            try_bare_ends(x, source, language, start, be, cands)
        } else {
            cands
        };
        scan_bare(x, source, language, start + 1, c2)
    }
}

/// Where `c` is inserted among candidates ordered by start, longest first
/// at one start, after every candidate that does not come after it.
pub open spec fn insert_position(out: Seq<ExtractedMatch>, c: ExtractedMatch, pos: int) -> int
    decreases pos,
{
    if pos > 0 && (out[pos - 1].start > c.start || (out[pos - 1].start == c.start && out[pos
        - 1].end < c.end)) {
        insert_position(out, c, pos - 1)
    } else {
        pos
    }
}

/// The candidates ordered by start, and longest first at one start; equal
/// keys keep their recording order.
pub open spec fn ordered_pool(cands: Seq<ExtractedMatch>) -> Seq<ExtractedMatch>
    decreases cands.len(),
{
    if cands.len() == 0 {
        seq![]
    } else {
        let out = ordered_pool(cands.drop_last());
        out.insert(insert_position(out, cands.last(), out.len() as int), cands.last())
    }
}

/// The greedy selection from the first `k` ordered candidates: each one that
/// starts at or after the end of the last kept one is kept.
pub open spec fn select_state(ordered: Seq<ExtractedMatch>, k: int) -> (Seq<ExtractedMatch>, int)
    decreases k,
{
    if k <= 0 {
        (seq![], 0)
    } else {
        let (sel, consumed) = select_state(ordered, k - 1);
        let c = ordered[k - 1];
        if c.start >= consumed {
            (sel.push(c), c.end)
        } else {
            (sel, consumed)
        }
    }
}

/// The matches of `source`: every digit run is searched, then whole books
/// when they are extracted, then the candidates are ordered and the
/// non-overlapping ones kept from left to right.
pub open spec fn spec_extraction(x: ExtractorModel, source: Seq<char>, language: Option<Language>) -> Seq<
    ExtractedMatch,
> {
    if byte_len(source) == 0 {
        seq![]
    } else {
        let anchored = scan_anchors(x, source, language, 0, seq![]);
        let pool = if x.include_bare_books {
            scan_bare(x, source, language, 0, anchored)
        } else {
            anchored
        };
        let ordered = ordered_pool(pool);
        select_state(ordered, ordered.len() as int).0
    }
}

/// Positions as integers.
pub open spec fn as_ints(v: Seq<usize>) -> Seq<int> {
    v.map_values(|e: usize| e as int)
}

/// `x` is the model of some element of `pool`.
pub open spec fn from_pool(x: ExtractedMatch, pool: Seq<PassageMatch>) -> bool {
    exists|j: int| 0 <= j < pool.len() && pool[j]@ == x
}

/// The candidates ordered by start, and longest first at one start.
fn order_candidates(cands: Vec<PassageMatch>) -> (r: Vec<PassageMatch>)
    ensures
        forall|i: int| 0 <= i < r@.len() ==> from_pool(#[trigger] r@[i]@, cands@),
        match_models(r@) == ordered_pool(match_models(cands@)),
{
    let mut out: Vec<PassageMatch> = Vec::new();
    let ghost models = match_models(cands@);
    for k in 0..cands.len()
        invariant
            models == match_models(cands@),
            forall|i: int| 0 <= i < out@.len() ==> from_pool(#[trigger] out@[i]@, cands@),
            match_models(out@) == ordered_pool(models.take(k as int)),
    {
        let c = cands[k].clone();
        let ghost om = match_models(out@);
        let mut pos = out.len();
        while pos > 0 && (out[pos - 1].start > c.start || (out[pos - 1].start == c.start
            && out[pos - 1].end < c.end))
            invariant
                pos <= out@.len(),
                om == match_models(out@),
                insert_position(om, c@, out@.len() as int) == insert_position(om, c@, pos as int),
            decreases pos,
        {
            assert(om[pos - 1] == out@[pos - 1]@);
            pos -= 1;
        }
        proof {
            if pos > 0 {
                assert(om[pos - 1] == out@[pos - 1]@);
            }
            assert(models.take(k + 1).drop_last() == models.take(k as int));
            assert(models.take(k + 1).last() == cands@[k as int]@);
        }
        let ghost before = out@;
        out.insert(pos, c);
        assert(match_models(out@) =~= om.insert(pos as int, c@)) by {
            assert forall|i: int| 0 <= i < out@.len() implies match_models(out@)[i] == om.insert(
                pos as int,
                c@,
            )[i] by {
                if i < pos {
                    assert(out@[i] == before[i]);
                } else if i > pos {
                    assert(out@[i] == before[i - 1]);
                }
            }
        }
        assert forall|i: int| 0 <= i < out@.len() implies from_pool(#[trigger] out@[i]@, cands@) by {
            if i < pos {
                assert(out@[i] == before[i]);
            } else if i == pos {
                assert(out@[i]@ == cands@[k as int]@);
            } else {
                assert(out@[i] == before[i - 1]);
            }
        }
    }
    assert(models.take(cands.len() as int) == models);
    out
}

/// Keep each candidate that starts at or after the end of the last kept one.
fn select_matches(ordered: Vec<PassageMatch>) -> (r: Vec<PassageMatch>)
    ensures
        ordered_matches(match_models(r@)),
        forall|i: int| 0 <= i < r@.len() ==> from_pool(#[trigger] r@[i]@, ordered@),
        match_models(r@) == select_state(match_models(ordered@), ordered@.len() as int).0,
{
    let mut selected: Vec<PassageMatch> = Vec::new();
    let mut consumed: usize = 0;
    let ghost models = match_models(ordered@);
    for k in 0..ordered.len()
        invariant
            models == match_models(ordered@),
            ordered_matches(match_models(selected@)),
            forall|i: int| 0 <= i < selected@.len() ==> (#[trigger] selected@[i])@.end <= consumed,
            forall|i: int| 0 <= i < selected@.len() ==> from_pool(#[trigger] selected@[i]@, ordered@),
            select_state(models, k as int) == (match_models(selected@), consumed as int),
    {
        let start = ordered[k].start();
        assert(models[k as int] == ordered@[k as int]@);
        if start >= consumed {
            let c = ordered[k].clone();
            let end = c.end();
            let ghost before = selected@;
            selected.push(c);
            consumed = end;
            assert(match_models(selected@) =~= match_models(before).push(c@));
            assert forall|i: int| 0 <= i < selected@.len() implies (#[trigger] selected@[i])@.end
                <= consumed by {
                if i < before.len() {
                    assert(selected@[i] == before[i]);
                }
            }
            assert forall|i: int| 0 <= i < selected@.len() implies from_pool(
                #[trigger] selected@[i]@,
                ordered@,
            ) by {
                if i < before.len() {
                    assert(selected@[i] == before[i]);
                } else {
                    assert(selected@[i]@ == ordered@[k as int]@);
                }
            }
        }
    }
    selected
}

/// Elements drawn from a pool of valid matches are valid.
proof fn lemma_pool_valid(
    x: ExtractorModel,
    source: Seq<char>,
    language: Option<Language>,
    pool: Seq<PassageMatch>,
    r: Seq<PassageMatch>,
)
    requires
        all_valid(x, source, language, match_models(pool)),
        forall|i: int| 0 <= i < r.len() ==> from_pool(#[trigger] r[i]@, pool),
    ensures
        all_valid(x, source, language, match_models(r)),
{
    assert forall|i: int| 0 <= i < match_models(r).len() implies valid_match(
        x,
        source,
        language,
        #[trigger] match_models(r)[i],
    ) by {
        assert(from_pool(r[i]@, pool));
        let j = choose|j: int| 0 <= j < pool.len() && pool[j]@ == r[i]@;
        assert(match_models(pool)[j] == pool[j]@);
    }
}

/// The scalar position of a byte boundary (zero when `b` is not one).
pub open spec fn position_at(source: Seq<char>, b: int) -> int {
    match boundary_position(source, b) {
        Some(i) => i,
        None => 0,
    }
}

/// The source up to the end of the `k`-th match, with each of the first `k`
/// matches replaced by its text.
pub open spec fn spliced_upto(
    source: Seq<char>,
    ms: Seq<ExtractedMatch>,
    reps: Seq<Seq<char>>,
    k: int,
) -> Seq<char>
    decreases k,
{
    if k <= 0 {
        seq![]
    } else {
        let copied = if k == 1 {
            0
        } else {
            position_at(source, ms[k - 2].end)
        };
        spliced_upto(source, ms, reps, k - 1) + source.subrange(
            copied,
            position_at(source, ms[k - 1].start),
        ) + reps[k - 1]
    }
}

/// The source with every match replaced by its text, in one pass.
pub open spec fn spliced(source: Seq<char>, ms: Seq<ExtractedMatch>, reps: Seq<Seq<char>>) -> Seq<char> {
    if ms.len() == 0 {
        source
    } else {
        spliced_upto(source, ms, reps, ms.len() as int) + source.skip(
            position_at(source, ms.last().end),
        )
    }
}

/// The views of a sequence of strings.
pub open spec fn string_views(v: Seq<String>) -> Seq<Seq<char>> {
    v.map_values(|x: String| x@)
}

/// Replace the ordered, valid matches of `source` by the given texts.
fn splice(source: &str, ms: &[PassageMatch], reps: &[String]) -> (r: String)
    requires
        ms@.len() == reps@.len(),
        ordered_matches(match_models(ms@)),
        forall|i: int|
            0 <= i < ms@.len() ==> {
                let m = #[trigger] ms@[i]@;
                0 <= m.start <= m.end && boundary_position(source@, m.start) is Some
                    && boundary_position(source@, m.end) is Some
            },
    ensures
        r@ == spliced(source@, match_models(ms@), string_views(reps@)),
{
    let ghost models = match_models(ms@);
    let ghost texts = string_views(reps@);
    let mut out: Vec<char> = Vec::new();
    let mut copied: usize = 0;
    proof {
        lemma_boundary_unique(source@, 0);
        assert(source@.take(0).len() == 0);
    }
    for k in 0..ms.len()
        invariant
            models == match_models(ms@),
            texts == string_views(reps@),
            ms@.len() == reps@.len(),
            ordered_matches(models),
            forall|i: int|
                0 <= i < ms@.len() ==> {
                    let m = #[trigger] ms@[i]@;
                    0 <= m.start <= m.end && boundary_position(source@, m.start) is Some
                        && boundary_position(source@, m.end) is Some
                },
            out@ == spliced_upto(source@, models, texts, k as int),
            k == 0 ==> copied == 0,
            k > 0 ==> copied == models[k - 1].end,
            boundary_position(source@, copied as int) is Some,
            k == 0 ==> position_at(source@, copied as int) == 0,
    {
        let m = &ms[k];
        let start = m.start();
        assert(models[k as int] == ms@[k as int]@);
        proof {
            if k > 0 {
                assert(models[k - 1].end <= models[k as int].start);
                assert(models[k - 1] == ms@[k - 1]@);
            }
            lemma_boundary_order(source@, copied as int, start as int);
        }
        let gap = match str_get(source, copied, start) {
            Some(t) => t,
            None => "",
        };
        extend_str(&mut out, gap);
        extend_str(&mut out, reps[k].as_str());
        copied = m.end();
    }
    proof {
        if ms@.len() > 0 {
            assert(models.last() == ms@[ms@.len() - 1]@);
        }
    }
    let rest = match crate::normalize::str_get(source, copied, crate::text::str_byte_len(source)) {
        Some(t) => t,
        None => "",
    };
    proof {
        lemma_boundary_end(source@);
        lemma_boundary_within(source@, copied as int);
        lemma_boundary_order(source@, copied as int, crate::text::byte_len(source@) as int);
    }
    extend_str(&mut out, rest);
    string_of(out.as_slice())
}

/// The end of the text is a boundary at the last position.
proof fn lemma_boundary_end(s: Seq<char>)
    ensures
        boundary_position(s, byte_len(s) as int) == Some(s.len() as int),
{
    assert(s.take(s.len() as int) == s);
    lemma_boundary_unique(s, s.len() as int);
}

/// Distinct positions have distinct byte offsets, so a boundary names one
/// position.
proof fn lemma_boundary_unique(s: Seq<char>, i: int)
    requires
        0 <= i <= s.len(),
    ensures
        boundary_position(s, byte_offset(s, i) as int) == Some(i),
{
    let b = byte_offset(s, i) as int;
    assert(0 <= i <= s.len() && byte_offset(s, i) == b);
    let k = choose|k: int| 0 <= k <= s.len() && byte_offset(s, k) == b;
    if k < i {
        lemma_byte_len_prefix(s, k, i);
    } else if i < k {
        lemma_byte_len_prefix(s, i, k);
    }
}

/// A boundary lies within the text.
proof fn lemma_boundary_within(s: Seq<char>, b: int)
    requires
        boundary_position(s, b) is Some,
    ensures
        0 <= b <= byte_len(s),
{
    let i = boundary_position(s, b).unwrap();
    assert(0 <= i <= s.len() && byte_offset(s, i) == b);
    lemma_byte_len_prefix(s, i, s.len() as int);
    assert(s.take(s.len() as int) == s);
}

/// Boundaries in byte order are in position order.
proof fn lemma_boundary_order(s: Seq<char>, a: int, b: int)
    requires
        a <= b,
        boundary_position(s, a) is Some,
        boundary_position(s, b) is Some,
    ensures
        0 <= position_at(s, a) <= position_at(s, b) <= s.len(),
{
    let i = boundary_position(s, a).unwrap();
    let j = boundary_position(s, b).unwrap();
    if j < i {
        lemma_byte_len_prefix(s, j, i);
    }
}

/// The exact source text of each match.
pub open spec fn own_texts(ms: Seq<ExtractedMatch>) -> Seq<Seq<char>> {
    Seq::new(ms.len(), |i: int| ms[i].text)
}

/// Splicing the first `k` matches back in as their own texts rebuilds the
/// source up to the end of the `k`-th match.
#[verifier::spinoff_prover]
#[verifier::rlimit(40)]
proof fn lemma_spliced_upto_own(
    x: ExtractorModel,
    source: Seq<char>,
    language: Option<Language>,
    ms: Seq<ExtractedMatch>,
    k: int,
)
    requires
        all_valid(x, source, language, ms),
        ordered_matches(ms),
        1 <= k <= ms.len(),
    ensures
        position_at(source, ms[k - 1].end) <= source.len(),
        spliced_upto(source, ms, own_texts(ms), k) == source.take(position_at(source, ms[k - 1].end)),
    decreases k,
{
    let m = ms[k - 1];
    assert(valid_match(x, source, language, m));
    lemma_boundary_order(source, m.start, m.end);
    let a = position_at(source, m.start);
    let b = position_at(source, m.end);
    if k == 1 {
        assert(spliced_upto(source, ms, own_texts(ms), 0) == Seq::<char>::empty());
        assert(source.subrange(0, a) + source.subrange(a, b) =~= source.take(b));
    } else {
        lemma_spliced_upto_own(x, source, language, ms, k - 1);
        let prev = ms[k - 2];
        assert(valid_match(x, source, language, prev));
        assert(prev.end <= m.start);
        lemma_boundary_order(source, prev.end, m.start);
        let c = position_at(source, prev.end);
        assert(source.take(c) + source.subrange(c, a) + source.subrange(a, b) =~= source.take(b));
    }
}

/// Replacing every match by its own source text gives back the source:
/// replacement touches nothing outside the matches.
pub proof fn lemma_splice_own_texts(
    x: ExtractorModel,
    source: Seq<char>,
    language: Option<Language>,
    ms: Seq<ExtractedMatch>,
)
    requires
        all_valid(x, source, language, ms),
        ordered_matches(ms),
    ensures
        spliced(source, ms, own_texts(ms)) == source,
{
    if ms.len() > 0 {
        lemma_spliced_upto_own(x, source, language, ms, ms.len() as int);
        let b = position_at(source, ms.last().end);
        assert(source.take(b) + source.skip(b) =~= source);
    }
}

/// The matches are those of `spec_extraction`; they are ordered and valid
/// for the source.
pub open spec fn extraction_of(
    x: ExtractorModel,
    source: Seq<char>,
    language: Option<Language>,
    ms: Seq<PassageMatch>,
) -> bool {
    &&& match_models(ms) == spec_extraction(x, source, language)
    &&& ordered_matches(match_models(ms))
    &&& all_valid(x, source, language, match_models(ms))
}

/// `outs[i]` is what the callback, in its state `states[i]`, returned for
/// `ms[i]`; the first call sees the callback as it was passed.
pub open spec fn callback_outputs<F: FnMut(&PassageMatch) -> String>(
    f: F,
    ms: Seq<PassageMatch>,
    outs: Seq<String>,
    states: Seq<F>,
) -> bool {
    &&& outs.len() == ms.len()
    &&& states.len() == ms.len()
    &&& (ms.len() > 0 ==> states[0] == f)
    &&& forall|i: int| 0 <= i < ms.len() ==> states[i].ensures((&ms[i],), #[trigger] outs[i])
}

/// Markdown links from labels and destinations.
pub open spec fn markdown_texts(labels: Seq<Seq<char>>, dests: Seq<String>) -> Seq<Seq<char>> {
    Seq::new(labels.len(), |i: int| markdown_link_text(labels[i], dests[i]@))
}

/// The exact source texts of matches.
pub open spec fn source_texts(ms: Seq<PassageMatch>) -> Seq<Seq<char>> {
    ms.map_values(|m: PassageMatch| m@.text)
}

/// The views of the texts, as the splice takes them.
proof fn lemma_splice_bounds(
    x: ExtractorModel,
    source: Seq<char>,
    language: Option<Language>,
    ms: Seq<PassageMatch>,
)
    requires
        all_valid(x, source, language, match_models(ms)),
    ensures
        forall|i: int|
            0 <= i < ms.len() ==> {
                let m = #[trigger] ms[i]@;
                0 <= m.start <= m.end && boundary_position(source, m.start) is Some
                    && boundary_position(source, m.end) is Some
            },
{
    assert forall|i: int| 0 <= i < ms.len() implies {
        let m = #[trigger] ms[i]@;
        0 <= m.start <= m.end && boundary_position(source, m.start) is Some && boundary_position(
            source,
            m.end,
        ) is Some
    } by {
        assert(match_models(ms)[i] == ms[i]@);
    }
}

/// Call a callback once per match, in order.
fn call_each<F: FnMut(&PassageMatch) -> String>(ms: &[PassageMatch], mut f: F) -> (r: Vec<String>)
    requires
        forall|m: &PassageMatch| f.requires((m,)),
    ensures
        r@.len() == ms@.len(),
        exists|states: Seq<F>| #[trigger] callback_outputs(f, ms@, r@, states),
{
    let mut outs: Vec<String> = Vec::new();
    let ghost first = f;
    let ghost mut states: Seq<F> = Seq::empty();
    for i in 0..ms.len()
        invariant
            forall|m: &PassageMatch| f.requires((m,)),
            outs@.len() == i,
            states.len() == i,
            i > 0 ==> states[0] == first,
            i == 0 ==> f == first,
            forall|j: int| 0 <= j < i ==> states[j].ensures((&ms@[j],), #[trigger] outs@[j]),
    {
        let ghost before = f;
        let text = f(&ms[i]);
        proof {
            states = states.push(before);
        }
        outs.push(text);
    }
    assert(callback_outputs(first, ms@, outs@, states));
    outs
}

/// Markdown links for matches from their labels and destinations.
fn markdown_links(labels: &[String], dests: &[String]) -> (r: Vec<String>)
    requires
        labels@.len() == dests@.len(),
    ensures
        r@.len() == labels@.len(),
        string_views(r@) == markdown_texts(string_views(labels@), dests@),
{
    let mut out: Vec<String> = Vec::new();
    for i in 0..labels.len()
        invariant
            labels@.len() == dests@.len(),
            out@.len() == i,
            forall|j: int|
                0 <= j < i ==> (#[trigger] out@[j])@ == markdown_link_text(labels@[j]@, dests@[j]@),
    {
        out.push(markdown_link(labels[i].as_str(), dests[i].as_str()));
    }
    assert(string_views(out@) =~= markdown_texts(string_views(labels@), dests@));
    out
}

/// Copies of the exact source texts of matches.
fn match_texts(ms: &[PassageMatch]) -> (r: Vec<String>)
    ensures
        r@.len() == ms@.len(),
        string_views(r@) == source_texts(ms@),
{
    let mut out: Vec<String> = Vec::new();
    for i in 0..ms.len()
        invariant
            out@.len() == i,
            forall|j: int| 0 <= j < i ==> (#[trigger] out@[j])@ == ms@[j]@.text,
    {
        out.push(ms[i].source_text().to_owned());
    }
    assert(string_views(out@) =~= source_texts(ms@));
    out
}

impl ReferenceExtractor {
    /// Find deterministic, non-overlapping passages in `source`.
    pub fn extract(&self, source: &str) -> (r: Vec<PassageMatch>)
        ensures
            extraction_of(self@, source@, None, r@),
    {
        self.extract_inner(source, None)
    }

    /// Find passages while resolving book names in one explicit language.
    pub fn extract_with_language(&self, source: &str, language: Language) -> (r: Vec<PassageMatch>)
        ensures
            extraction_of(self@, source@, Some(language), r@),
    {
        self.extract_inner(source, Some(language))
    }

    /// The same as [`Self::extract`].
    pub fn find_all(&self, source: &str) -> (r: Vec<PassageMatch>)
        ensures
            extraction_of(self@, source@, None, r@),
    {
        self.extract(source)
    }

    /// The same as [`Self::extract_with_language`].
    pub fn find_all_with_language(&self, source: &str, language: Language) -> (r: Vec<PassageMatch>)
        ensures
            extraction_of(self@, source@, Some(language), r@),
    {
        self.extract_with_language(source, language)
    }

    /// Replace every match by the text the callback returns for it, in one
    /// pass: returned text is never scanned again.
    fn replace_inner<F: FnMut(&PassageMatch) -> String>(
        &self,
        source: &str,
        language: Option<Language>,
        replacement: F,
    ) -> (r: String)
        requires
            forall|m: &PassageMatch| replacement.requires((m,)),
        ensures
            exists|ms: Seq<PassageMatch>, outs: Seq<String>, states: Seq<F>|
                #![trigger callback_outputs(replacement, ms, outs, states)]
                {
                    &&& extraction_of(self@, source@, language, ms)
                    &&& callback_outputs(replacement, ms, outs, states)
                    &&& r@ == spliced(source@, match_models(ms), string_views(outs))
                },
    {
        let matches = self.extract_inner(source, language);
        let reps = call_each(matches.as_slice(), replacement);
        proof {
            lemma_splice_bounds(self@, source@, language, matches@);
        }
        splice(source, matches.as_slice(), reps.as_slice())
    }

    /// Replace every match by a Markdown link whose destination the callback
    /// returns, labelled with the exact source text.
    fn markdown_inner<F: FnMut(&PassageMatch) -> String>(
        &self,
        source: &str,
        language: Option<Language>,
        uri_builder: F,
    ) -> (r: String)
        requires
            forall|m: &PassageMatch| uri_builder.requires((m,)),
        ensures
            exists|ms: Seq<PassageMatch>, dests: Seq<String>, states: Seq<F>|
                #![trigger callback_outputs(uri_builder, ms, dests, states)]
                {
                    &&& extraction_of(self@, source@, language, ms)
                    &&& callback_outputs(uri_builder, ms, dests, states)
                    &&& r@ == spliced(
                        source@,
                        match_models(ms),
                        markdown_texts(source_texts(ms), dests),
                    )
                },
    {
        let matches = self.extract_inner(source, language);
        let dests = call_each(matches.as_slice(), uri_builder);
        let labels = match_texts(matches.as_slice());
        let links = markdown_links(labels.as_slice(), dests.as_slice());
        proof {
            lemma_splice_bounds(self@, source@, language, matches@);
        }
        splice(source, matches.as_slice(), links.as_slice())
    }

    /// Replace every match by a Markdown link whose label and destination
    /// the callbacks return; the label is built first.
    fn markdown_label_inner<F: FnMut(&PassageMatch) -> String, L: FnMut(&PassageMatch) -> String>(
        &self,
        source: &str,
        language: Option<Language>,
        uri_builder: F,
        label_builder: L,
    ) -> (r: String)
        requires
            forall|m: &PassageMatch| uri_builder.requires((m,)),
            forall|m: &PassageMatch| label_builder.requires((m,)),
        ensures
            exists|
                ms: Seq<PassageMatch>,
                dests: Seq<String>,
                labels: Seq<String>,
                states: Seq<F>,
                label_states: Seq<L>,
            |
                #![trigger callback_outputs(uri_builder, ms, dests, states), callback_outputs(label_builder, ms, labels, label_states)]
                {
                    &&& extraction_of(self@, source@, language, ms)
                    &&& callback_outputs(uri_builder, ms, dests, states)
                    &&& callback_outputs(label_builder, ms, labels, label_states)
                    &&& r@ == spliced(
                        source@,
                        match_models(ms),
                        markdown_texts(string_views(labels), dests),
                    )
                },
    {
        let matches = self.extract_inner(source, language);
        let labels = call_each(matches.as_slice(), label_builder);
        let dests = call_each(matches.as_slice(), uri_builder);
        let links = markdown_links(labels.as_slice(), dests.as_slice());
        proof {
            lemma_splice_bounds(self@, source@, language, matches@);
        }
        splice(source, matches.as_slice(), links.as_slice())
    }
}

impl ReferenceExtractor {
    /// Replace all matches in one pass; returned text is never scanned again.
    pub fn replace_matches<F: FnMut(&PassageMatch) -> String>(
        &self,
        source: &str,
        replacement: F,
    ) -> (r: String)
        requires
            forall|m: &PassageMatch| replacement.requires((m,)),
        ensures
            exists|ms: Seq<PassageMatch>, outs: Seq<String>, states: Seq<F>|
                #![trigger callback_outputs(replacement, ms, outs, states)]
                {
                    &&& extraction_of(self@, source@, None, ms)
                    &&& callback_outputs(replacement, ms, outs, states)
                    &&& r@ == spliced(source@, match_models(ms), string_views(outs))
                },
    {
        self.replace_inner(source, None, replacement)
    }

    /// Replace language-specific matches in one pass.
    pub fn replace_matches_with_language<F: FnMut(&PassageMatch) -> String>(
        &self,
        source: &str, language: Language,
        replacement: F,
    ) -> (r: String)
        requires
            forall|m: &PassageMatch| replacement.requires((m,)),
        ensures
            exists|ms: Seq<PassageMatch>, outs: Seq<String>, states: Seq<F>|
                #![trigger callback_outputs(replacement, ms, outs, states)]
                {
                    &&& extraction_of(self@, source@, Some(language), ms)
                    &&& callback_outputs(replacement, ms, outs, states)
                    &&& r@ == spliced(source@, match_models(ms), string_views(outs))
                },
    {
        self.replace_inner(source, Some(language), replacement)
    }

    /// Linkify matches with a caller-provided renderer.
    pub fn linkify<F: FnMut(&PassageMatch) -> String>(
        &self,
        source: &str,
        link_builder: F,
    ) -> (r: String)
        requires
            forall|m: &PassageMatch| link_builder.requires((m,)),
        ensures
            exists|ms: Seq<PassageMatch>, outs: Seq<String>, states: Seq<F>|
                #![trigger callback_outputs(link_builder, ms, outs, states)]
                {
                    &&& extraction_of(self@, source@, None, ms)
                    &&& callback_outputs(link_builder, ms, outs, states)
                    &&& r@ == spliced(source@, match_models(ms), string_views(outs))
                },
    {
        self.replace_inner(source, None, link_builder)
    }

    /// Linkify matches resolved with one explicit language.
    pub fn linkify_with_language<F: FnMut(&PassageMatch) -> String>(
        &self,
        source: &str, language: Language,
        link_builder: F,
    ) -> (r: String)
        requires
            forall|m: &PassageMatch| link_builder.requires((m,)),
        ensures
            exists|ms: Seq<PassageMatch>, outs: Seq<String>, states: Seq<F>|
                #![trigger callback_outputs(link_builder, ms, outs, states)]
                {
                    &&& extraction_of(self@, source@, Some(language), ms)
                    &&& callback_outputs(link_builder, ms, outs, states)
                    &&& r@ == spliced(source@, match_models(ms), string_views(outs))
                },
    {
        self.replace_inner(source, Some(language), link_builder)
    }

    /// Linkify matches as Markdown, labelled with each exact source slice.
    pub fn linkify_markdown<F: FnMut(&PassageMatch) -> String>(
        &self,
        source: &str,
        uri_builder: F,
    ) -> (r: String)
        requires
            forall|m: &PassageMatch| uri_builder.requires((m,)),
        ensures
            exists|ms: Seq<PassageMatch>, dests: Seq<String>, states: Seq<F>|
                #![trigger callback_outputs(uri_builder, ms, dests, states)]
                {
                    &&& extraction_of(self@, source@, None, ms)
                    &&& callback_outputs(uri_builder, ms, dests, states)
                    &&& r@ == spliced(
                        source@,
                        match_models(ms),
                        markdown_texts(source_texts(ms), dests),
                    )
                },
    {
        self.markdown_inner(source, None, uri_builder)
    }

    /// Linkify explicitly localized matches as Markdown with exact source labels.
    pub fn linkify_markdown_with_language<F: FnMut(&PassageMatch) -> String>(
        &self,
        source: &str, language: Language,
        uri_builder: F,
    ) -> (r: String)
        requires
            forall|m: &PassageMatch| uri_builder.requires((m,)),
        ensures
            exists|ms: Seq<PassageMatch>, dests: Seq<String>, states: Seq<F>|
                #![trigger callback_outputs(uri_builder, ms, dests, states)]
                {
                    &&& extraction_of(self@, source@, Some(language), ms)
                    &&& callback_outputs(uri_builder, ms, dests, states)
                    &&& r@ == spliced(
                        source@,
                        match_models(ms),
                        markdown_texts(source_texts(ms), dests),
                    )
                },
    {
        self.markdown_inner(source, Some(language), uri_builder)
    }

    /// Linkify matches as Markdown with caller-provided labels and destinations.
    pub fn linkify_markdown_with_label<F: FnMut(&PassageMatch) -> String, L: FnMut(&PassageMatch) -> String>(
        &self,
        source: &str,
        uri_builder: F,
        label_builder: L,
    ) -> (r: String)
        requires
            forall|m: &PassageMatch| uri_builder.requires((m,)),
            forall|m: &PassageMatch| label_builder.requires((m,)),
        ensures
            exists|
                ms: Seq<PassageMatch>,
                dests: Seq<String>,
                labels: Seq<String>,
                states: Seq<F>,
                label_states: Seq<L>,
            |
                #![trigger callback_outputs(uri_builder, ms, dests, states), callback_outputs(label_builder, ms, labels, label_states)]
                {
                    &&& extraction_of(self@, source@, None, ms)
                    &&& callback_outputs(uri_builder, ms, dests, states)
                    &&& callback_outputs(label_builder, ms, labels, label_states)
                    &&& r@ == spliced(
                        source@,
                        match_models(ms),
                        markdown_texts(string_views(labels), dests),
                    )
                },
    {
        self.markdown_label_inner(source, None, uri_builder, label_builder)
    }

    /// Linkify explicitly localized matches with custom Markdown labels.
    pub fn linkify_markdown_with_label_and_language<F: FnMut(&PassageMatch) -> String, L: FnMut(&PassageMatch) -> String>(
        &self,
        source: &str, language: Language,
        uri_builder: F,
        label_builder: L,
    ) -> (r: String)
        requires
            forall|m: &PassageMatch| uri_builder.requires((m,)),
            forall|m: &PassageMatch| label_builder.requires((m,)),
        ensures
            exists|
                ms: Seq<PassageMatch>,
                dests: Seq<String>,
                labels: Seq<String>,
                states: Seq<F>,
                label_states: Seq<L>,
            |
                #![trigger callback_outputs(uri_builder, ms, dests, states), callback_outputs(label_builder, ms, labels, label_states)]
                {
                    &&& extraction_of(self@, source@, Some(language), ms)
                    &&& callback_outputs(uri_builder, ms, dests, states)
                    &&& callback_outputs(label_builder, ms, labels, label_states)
                    &&& r@ == spliced(
                        source@,
                        match_models(ms),
                        markdown_texts(string_views(labels), dests),
                    )
                },
    {
        self.markdown_label_inner(source, Some(language), uri_builder, label_builder)
    }

    /// The same as [`Self::linkify_markdown`].
    pub fn markdown_linkify<F: FnMut(&PassageMatch) -> String>(
        &self,
        source: &str,
        uri_builder: F,
    ) -> (r: String)
        requires
            forall|m: &PassageMatch| uri_builder.requires((m,)),
        ensures
            exists|ms: Seq<PassageMatch>, dests: Seq<String>, states: Seq<F>|
                #![trigger callback_outputs(uri_builder, ms, dests, states)]
                {
                    &&& extraction_of(self@, source@, None, ms)
                    &&& callback_outputs(uri_builder, ms, dests, states)
                    &&& r@ == spliced(
                        source@,
                        match_models(ms),
                        markdown_texts(source_texts(ms), dests),
                    )
                },
    {
        self.markdown_inner(source, None, uri_builder)
    }

    /// The same as [`Self::linkify_markdown_with_language`].
    pub fn markdown_linkify_with_language<F: FnMut(&PassageMatch) -> String>(
        &self,
        source: &str, language: Language,
        uri_builder: F,
    ) -> (r: String)
        requires
            forall|m: &PassageMatch| uri_builder.requires((m,)),
        ensures
            exists|ms: Seq<PassageMatch>, dests: Seq<String>, states: Seq<F>|
                #![trigger callback_outputs(uri_builder, ms, dests, states)]
                {
                    &&& extraction_of(self@, source@, Some(language), ms)
                    &&& callback_outputs(uri_builder, ms, dests, states)
                    &&& r@ == spliced(
                        source@,
                        match_models(ms),
                        markdown_texts(source_texts(ms), dests),
                    )
                },
    {
        self.markdown_inner(source, Some(language), uri_builder)
    }

}

/// A passage is, or holds at some depth of its sequences, a whole book.
pub open spec fn holds_whole_book(p: PassageModel) -> bool
    decreases p,
{
    match p {
        PassageModel::Book(_) => true,
        PassageModel::Sequence(ps) => exists|i: int|
            0 <= i < ps.len() && holds_whole_book(#[trigger] ps[i]),
        _ => false,
    }
}

/// The bare-book test used by extraction finds exactly the passages that
/// hold a whole book.
pub proof fn lemma_bare_book_is_whole_book(p: PassageModel)
    ensures
        has_bare_book(p) == holds_whole_book(p),
    decreases p,
{
    if let PassageModel::Sequence(ps) = p {
        lemma_any_bare_book(ps);
    }
}

proof fn lemma_any_bare_book(ps: Seq<PassageModel>)
    ensures
        any_bare_book(ps) == exists|i: int| 0 <= i < ps.len() && holds_whole_book(#[trigger] ps[i]),
    decreases ps,
{
    if ps.len() > 0 {
        lemma_any_bare_book(ps.drop_last());
        lemma_bare_book_is_whole_book(ps.last());
        if exists|i: int| 0 <= i < ps.len() && holds_whole_book(#[trigger] ps[i]) {
            let i = choose|i: int| 0 <= i < ps.len() && holds_whole_book(#[trigger] ps[i]);
            if i < ps.len() - 1 {
                assert(ps.drop_last()[i] == ps[i]);
            }
        }
        if exists|i: int| 0 <= i < ps.len() - 1 && holds_whole_book(#[trigger] ps.drop_last()[i]) {
            let i = choose|i: int| 0 <= i < ps.len() - 1 && holds_whole_book(#[trigger] ps.drop_last()[i]);
            assert(ps[i] == ps.drop_last()[i]);
        }
    }
}

/// The passage a normalized candidate parses to, if it parses.
pub open spec fn candidate_passage(x: ExtractorModel, cand: Seq<char>, language: Language) -> PassageModel {
    spec_parse_passage(x.parser, cand, language)->Ok_0.0
}

/// With bare-book extraction off, every extracted match was read from a
/// normalized candidate that parses to a passage holding no whole book at any
/// depth and that holds a digit; the match's passage is that passage unless
/// its exact source text parses on its own.
pub proof fn lemma_extraction_without_bare_books(
    x: ExtractorModel,
    source: Seq<char>,
    language: Option<Language>,
    ms: Seq<PassageMatch>,
)
    requires
        extraction_of(x, source, language, ms),
        !x.include_bare_books,
    ensures
        forall|i: int| #![trigger ms[i]] 0 <= i < ms.len() ==> exists|cand: Seq<char>|
            {
                &&& #[trigger] spec_parse_passage(x.parser, cand, parse_language(language)) is Ok
                &&& !holds_whole_book(candidate_passage(x, cand, parse_language(language)))
                &&& exists|k: int| 0 <= k < cand.len() && is_digit(#[trigger] cand[k])
                &&& (spec_parse_passage(x.parser, ms[i]@.text, parse_language(language)) is Err
                    ==> ms[i]@.passage == candidate_passage(x, cand, parse_language(language)))
            },
{
    assert forall|i: int| #![trigger ms[i]] 0 <= i < ms.len() implies exists|cand: Seq<char>|
        {
            &&& #[trigger] spec_parse_passage(x.parser, cand, parse_language(language)) is Ok
            &&& !holds_whole_book(candidate_passage(x, cand, parse_language(language)))
            &&& exists|k: int| 0 <= k < cand.len() && is_digit(#[trigger] cand[k])
            &&& (spec_parse_passage(x.parser, ms[i]@.text, parse_language(language)) is Err
                ==> ms[i]@.passage == candidate_passage(x, cand, parse_language(language)))
        } by {
        let m = match_models(ms)[i];
        assert(m == ms[i]@);
        assert(valid_match(x, source, language, m));
        let cand = choose|cand: Seq<char>| #[trigger] parsed_from(x, cand, parse_language(language), m);
        lemma_bare_book_is_whole_book(candidate_passage(x, cand, parse_language(language)));
        assert(spec_parse_passage(x.parser, cand, parse_language(language)) is Ok);
    }
}

} // verus!
