//! Strict OSIS and USFM machine identifiers.
//!
//! These parsers accept only the case-sensitive machine forms produced by
//! [`MachineIdentifiers`]. They do not normalize whitespace, punctuation, or
//! book-code casing.
use vstd::prelude::*;

use crate::book::{find_book, lemma_find_identifiers, spec_osis, spec_usfm, Book, BookField};
use crate::passage::{lemma_passage_models, BookPassage, ChapterPassage, Passage, PassageModel, PassageSequence, VersePassage};
use crate::reference::{coordinate_name, lemma_coordinate_error_for, lemma_range_eq, lemma_range_of, lemma_verse_eq, range_of, reference_start, verse_before, verse_of, verse_text, Coordinate, Reference, VerseRange, VerseRef, MAX_CHAPTER_NUMBER, MAX_VERSE_NUMBER};
use crate::text::{chars_contains, chars_is_number, chars_of, debug_quote, decimal, digits_value, extend_chars, extend_str, first_index, index_of, is_digit, is_number, is_upper, lemma_decimal, lemma_first_index, lemma_split_on_join, lemma_split_on_len, lemma_split_on_single, parse_u32, piece_views, push_decimal, slice_chars, split_chars, split_on, str_debug, string_of};

verus! {

/// A machine-readable Bible reference vocabulary.
#[derive(Clone, Copy, Debug, PartialEq, Eq, Structural, Hash)]
pub enum IdentifierFormat {
    /// Open Scripture Information Standard identifiers.
    Osis,
    /// Unified Standard Format Marker identifiers.
    Usfm,
}

/// The conventional uppercase name of a format.
pub open spec fn format_name(f: IdentifierFormat) -> Seq<char> {
    match f {
        IdentifierFormat::Osis => "OSIS"@,
        IdentifierFormat::Usfm => "USFM"@,
    }
}

impl IdentifierFormat {
    /// Return the conventional uppercase format name.
    pub fn name(self) -> (r: &'static str)
        ensures
            r@ == format_name(self),
    {
        match self {
            IdentifierFormat::Osis => "OSIS",
            IdentifierFormat::Usfm => "USFM",
        }
    }

    /// The conventional uppercase format name as a string.
    pub fn to_string(self) -> (s: String)
        ensures
            s@ == format_name(self),
    {
        self.name().to_owned()
    }
}

/// Stable classification for a machine-identifier parse failure.
#[derive(Clone, Copy, Debug, PartialEq, Eq, Structural, Hash)]
#[non_exhaustive]
pub enum IdentifierErrorKind {
    /// The input does not have one of the supported exact shapes.
    InvalidSyntax,
    /// The case-sensitive book code is not supported.
    UnknownBook,
    /// A chapter is outside the inclusive `1..=999` sanity range.
    InvalidChapter,
    /// A verse is outside the inclusive `1..=999` sanity range.
    InvalidVerse,
    /// A range is equal or descending in canonical book order.
    RangeNotAscending,
}

/// The stable snake-case code of each kind.
pub open spec fn identifier_code(k: IdentifierErrorKind) -> Seq<char> {
    match k {
        IdentifierErrorKind::InvalidSyntax => "invalid_identifier_syntax"@,
        IdentifierErrorKind::UnknownBook => "unknown_identifier_book"@,
        IdentifierErrorKind::InvalidChapter => "invalid_identifier_chapter"@,
        IdentifierErrorKind::InvalidVerse => "invalid_identifier_verse"@,
        IdentifierErrorKind::RangeNotAscending => "identifier_range_not_ascending"@,
    }
}

impl IdentifierErrorKind {
    /// Return a stable snake-case error code.
    pub fn code(self) -> (r: &'static str)
        ensures
            r@ == identifier_code(self),
    {
        match self {
            IdentifierErrorKind::InvalidSyntax => "invalid_identifier_syntax",
            IdentifierErrorKind::UnknownBook => "unknown_identifier_book",
            IdentifierErrorKind::InvalidChapter => "invalid_identifier_chapter",
            IdentifierErrorKind::InvalidVerse => "invalid_identifier_verse",
            IdentifierErrorKind::RangeNotAscending => "identifier_range_not_ascending",
        }
    }
}

/// A typed failure to parse an OSIS or USFM identifier.
#[derive(Clone, Debug, PartialEq, Eq)]
pub struct IdentifierError {
    format: IdentifierFormat,
    kind: IdentifierErrorKind,
    input: String,
    details: String,
}

/// An identifier error as values: its classification and diagnostic text.
pub struct IdentifierFault {
    /// The classification.
    pub kind: IdentifierErrorKind,
    /// The diagnostic text.
    pub details: Seq<char>,
}

/// The text that says which forms a format accepts.
pub open spec fn expected_forms(format: IdentifierFormat) -> Seq<char> {
    match format {
        IdentifierFormat::Osis => "expected BOOK.CHAPTER.VERSE or BOOK.CHAPTER.VERSE-BOOK.CHAPTER.VERSE"@,
        IdentifierFormat::Usfm => "expected BOOK CHAPTER:VERSE, BOOK CHAPTER:VERSE-VERSE, BOOK CHAPTER:VERSE-CHAPTER:VERSE, or BOOK-BOOK CHAPTER:VERSE-CHAPTER:VERSE"@,
    }
}

/// A malformed identifier.
pub open spec fn syntax_fault(format: IdentifierFormat) -> IdentifierFault {
    IdentifierFault { kind: IdentifierErrorKind::InvalidSyntax, details: expected_forms(format) }
}

/// A book token that names no book.
pub open spec fn unknown_book_fault(format: IdentifierFormat, token: Seq<char>) -> IdentifierFault {
    IdentifierFault {
        kind: IdentifierErrorKind::UnknownBook,
        details: "unknown or non-canonical "@ + format_name(format) + " book identifier "@ + str_debug(
            token,
        ),
    }
}

/// A chapter or verse outside `1..=999`, given as the text of its value.
pub open spec fn coordinate_fault(coordinate: Coordinate, value: Seq<char>) -> IdentifierFault {
    IdentifierFault {
        kind: match coordinate {
            Coordinate::Chapter => IdentifierErrorKind::InvalidChapter,
            Coordinate::Verse => IdentifierErrorKind::InvalidVerse,
        },
        details: coordinate_name(coordinate) + " must be between 1 and 999 (got "@ + value + ")"@,
    }
}

/// A range whose end does not come after its start.
pub open spec fn order_fault(start: VerseRef, end: VerseRef) -> IdentifierFault {
    IdentifierFault {
        kind: IdentifierErrorKind::RangeNotAscending,
        details: "range end "@ + verse_text(end) + " must come after start "@ + verse_text(start),
    }
}

impl IdentifierError {
    /// The identifier vocabulary being parsed.
    pub closed spec fn spec_format(&self) -> IdentifierFormat {
        self.format
    }

    /// The failure classification.
    pub closed spec fn spec_kind(&self) -> IdentifierErrorKind {
        self.kind
    }

    /// The complete rejected identifier.
    pub closed spec fn spec_input(&self) -> Seq<char> {
        self.input@
    }

    /// The input-specific diagnostic.
    pub closed spec fn spec_details(&self) -> Seq<char> {
        self.details@
    }

    /// This error's classification and diagnostic as values.
    pub open spec fn fault(&self) -> IdentifierFault {
        IdentifierFault { kind: self.spec_kind(), details: self.spec_details() }
    }

    fn build(format: IdentifierFormat, kind: IdentifierErrorKind, input: &str, details: String) -> (e:
        IdentifierError)
        ensures
            e.spec_format() == format,
            e.spec_kind() == kind,
            e.spec_input() == input@,
            e.spec_details() == details@,
    {
        IdentifierError { format, kind, input: input.to_owned(), details }
    }

    fn invalid_syntax(format: IdentifierFormat, input: &str) -> (e: IdentifierError)
        ensures
            e.spec_format() == format,
            e.fault() == syntax_fault(format),
            e.spec_input() == input@,
    {
        let expected = match format {
            IdentifierFormat::Osis => "expected BOOK.CHAPTER.VERSE or BOOK.CHAPTER.VERSE-BOOK.CHAPTER.VERSE",
            IdentifierFormat::Usfm => "expected BOOK CHAPTER:VERSE, BOOK CHAPTER:VERSE-VERSE, BOOK CHAPTER:VERSE-CHAPTER:VERSE, or BOOK-BOOK CHAPTER:VERSE-CHAPTER:VERSE",
        };
        IdentifierError::build(format, IdentifierErrorKind::InvalidSyntax, input, expected.to_owned())
    }

    fn unknown_book(format: IdentifierFormat, input: &str, book: &[char]) -> (e: IdentifierError)
        ensures
            e.spec_format() == format,
            e.fault() == unknown_book_fault(format, book@),
            e.spec_input() == input@,
    {
        let mut v: Vec<char> = Vec::new();
        extend_str(&mut v, "unknown or non-canonical ");
        extend_str(&mut v, format.name());
        extend_str(&mut v, " book identifier ");
        let token = string_of(book);
        let quoted = debug_quote(token.as_str());
        extend_str(&mut v, quoted.as_str());
        IdentifierError::build(format, IdentifierErrorKind::UnknownBook, input, string_of(v.as_slice()))
    }

    fn invalid_coordinate(
        format: IdentifierFormat,
        input: &str,
        coordinate: Coordinate,
        value: &[char],
    ) -> (e: IdentifierError)
        ensures
            e.spec_format() == format,
            e.fault() == coordinate_fault(coordinate, value@),
            e.spec_input() == input@,
    {
        let kind = match coordinate {
            Coordinate::Chapter => IdentifierErrorKind::InvalidChapter,
            Coordinate::Verse => IdentifierErrorKind::InvalidVerse,
        };
        let mut v: Vec<char> = Vec::new();
        extend_str(&mut v, coordinate.name());
        extend_str(&mut v, " must be between 1 and 999 (got ");
        extend_chars(&mut v, value);
        extend_str(&mut v, ")");
        IdentifierError::build(format, kind, input, string_of(v.as_slice()))
    }

    fn range_not_ascending(format: IdentifierFormat, input: &str, start: VerseRef, end: VerseRef) -> (e:
        IdentifierError)
        ensures
            e.spec_format() == format,
            e.fault() == order_fault(start, end),
            e.spec_input() == input@,
    {
        let mut v: Vec<char> = Vec::new();
        extend_str(&mut v, "range end ");
        end.write_to(&mut v);
        extend_str(&mut v, " must come after start ");
        start.write_to(&mut v);
        IdentifierError::build(
            format,
            IdentifierErrorKind::RangeNotAscending,
            input,
            string_of(v.as_slice()),
        )
    }

    /// Return the identifier vocabulary being parsed.
    pub fn format(&self) -> (r: IdentifierFormat)
        ensures
            r == self.spec_format(),
    {
        self.format
    }

    /// Return the stable failure classification.
    pub fn kind(&self) -> (r: IdentifierErrorKind)
        ensures
            r == self.spec_kind(),
    {
        self.kind
    }

    /// Return the stable machine-readable error code.
    pub fn code(&self) -> (r: &'static str)
        ensures
            r@ == identifier_code(self.spec_kind()),
    {
        self.kind.code()
    }

    /// Return the complete rejected identifier.
    pub fn input(&self) -> (r: &str)
        ensures
            r@ == self.spec_input(),
    {
        self.input.as_str()
    }

    /// Return the input-specific diagnostic.
    pub fn details(&self) -> (r: &str)
        ensures
            r@ == self.spec_details(),
    {
        self.details.as_str()
    }

    /// `{code} {FORMAT} identifier {input:?}: {details}`.
    pub fn to_string(&self) -> (s: String)
        ensures
            s@ == identifier_code(self.spec_kind()) + " "@ + format_name(self.spec_format())
                + " identifier "@ + str_debug(self.spec_input()) + ": "@ + self.spec_details(),
    {
        let mut v: Vec<char> = Vec::new();
        extend_str(&mut v, self.kind.code());
        extend_str(&mut v, " ");
        extend_str(&mut v, self.format.name());
        extend_str(&mut v, " identifier ");
        let quoted = debug_quote(self.input.as_str());
        extend_str(&mut v, quoted.as_str());
        extend_str(&mut v, ": ");
        extend_str(&mut v, self.details.as_str());
        string_of(v.as_slice())
    }
}

// ---------------------------------------------------------------------------
// Serialization
// ---------------------------------------------------------------------------

/// `BOOK.CHAPTER.VERSE`.
pub open spec fn osis_verse(v: VerseRef) -> Seq<char> {
    spec_osis(v.spec_book()) + "."@ + decimal(v.spec_chapter() as nat) + "."@ + decimal(
        v.spec_verse() as nat,
    )
}

/// `BOOK CHAPTER:VERSE`.
pub open spec fn usfm_verse(v: VerseRef) -> Seq<char> {
    spec_usfm(v.spec_book()) + " "@ + decimal(v.spec_chapter() as nat) + ":"@ + decimal(
        v.spec_verse() as nat,
    )
}

/// Two full OSIS endpoints joined by `-`.
pub open spec fn osis_range(r: VerseRange) -> Seq<char> {
    osis_verse(r.spec_start()) + "-"@ + osis_verse(r.spec_end())
}

/// The USFM range forms: `BOOK C:V-V`, `BOOK C:V-C:V`, or the cross-book
/// extension `BOOK-BOOK C:V-C:V`.
pub open spec fn usfm_range(r: VerseRange) -> Seq<char> {
    let s = r.spec_start();
    let e = r.spec_end();
    if s.spec_book() != e.spec_book() {
        spec_usfm(s.spec_book()) + "-"@ + spec_usfm(e.spec_book()) + " "@ + decimal(
            s.spec_chapter() as nat,
        ) + ":"@ + decimal(s.spec_verse() as nat) + "-"@ + decimal(e.spec_chapter() as nat) + ":"@
            + decimal(e.spec_verse() as nat)
    } else if s.spec_chapter() == e.spec_chapter() {
        usfm_verse(s) + "-"@ + decimal(e.spec_verse() as nat)
    } else {
        usfm_verse(s) + "-"@ + decimal(e.spec_chapter() as nat) + ":"@ + decimal(
            e.spec_verse() as nat,
        )
    }
}

/// The OSIS identifier of a reference.
pub open spec fn osis_reference(r: Reference) -> Seq<char> {
    match r {
        Reference::Verse(v) => osis_verse(v),
        Reference::Range(range) => osis_range(range),
    }
}

/// The USFM identifier of a reference.
pub open spec fn usfm_reference(r: Reference) -> Seq<char> {
    match r {
        Reference::Verse(v) => usfm_verse(v),
        Reference::Range(range) => usfm_range(range),
    }
}

/// The OSIS identifier of a chapter passage.
pub open spec fn osis_chapters(book: Book, start: u16, end: Option<u16>) -> Seq<char> {
    spec_osis(book) + "."@ + decimal(start as nat) + match end {
        Some(e) => "-"@ + spec_osis(book) + "."@ + decimal(e as nat),
        None => Seq::<char>::empty(),
    }
}

/// The USFM identifier of a chapter passage.
pub open spec fn usfm_chapters(book: Book, start: u16, end: Option<u16>) -> Seq<char> {
    spec_usfm(book) + " "@ + decimal(start as nat) + match end {
        Some(e) => "-"@ + decimal(e as nat),
        None => Seq::<char>::empty(),
    }
}

/// The OSIS identifiers of the first `k` selections joined by spaces.
pub open spec fn osis_selections(rs: Seq<Reference>, k: int) -> Seq<char>
    decreases k,
{
    if k <= 0 {
        seq![]
    } else if k == 1 {
        osis_reference(rs[0])
    } else {
        osis_selections(rs, k - 1) + " "@ + osis_reference(rs[k - 1])
    }
}

/// A later selection in compact USFM: bare verses (or a verse range) in the
/// anchor's chapter, otherwise the full identifier.
pub open spec fn compact_usfm(selection: Reference, anchor: VerseRef) -> Seq<char> {
    match selection {
        Reference::Verse(v) => if v.spec_book() == anchor.spec_book() && v.spec_chapter()
            == anchor.spec_chapter() {
            decimal(v.spec_verse() as nat)
        } else {
            usfm_verse(v)
        },
        Reference::Range(range) => {
            let s = range.spec_start();
            let e = range.spec_end();
            if s.spec_book() == anchor.spec_book() && e.spec_book() == anchor.spec_book()
                && s.spec_chapter() == anchor.spec_chapter() && e.spec_chapter()
                == anchor.spec_chapter() {
                decimal(s.spec_verse() as nat) + "-"@ + decimal(e.spec_verse() as nat)
            } else {
                usfm_range(range)
            }
        },
    }
}

/// `,` and the compact USFM of each selection from the second to the `k`-th.
pub open spec fn usfm_tail(rs: Seq<Reference>, k: int, anchor: VerseRef) -> Seq<char>
    decreases k,
{
    if k <= 1 {
        seq![]
    } else {
        usfm_tail(rs, k - 1, anchor) + ","@ + compact_usfm(rs[k - 1], anchor)
    }
}

/// The USFM identifier of verse selections.
pub open spec fn usfm_selections(rs: Seq<Reference>) -> Seq<char> {
    if rs.len() == 0 {
        seq![]
    } else {
        usfm_reference(rs[0]) + usfm_tail(rs, rs.len() as int, reference_start(rs[0]))
    }
}

/// The OSIS identifier of a passage.
pub open spec fn osis_passage(m: PassageModel) -> Seq<char>
    decreases m,
{
    match m {
        PassageModel::Book(b) => spec_osis(b),
        PassageModel::Chapter(b, start, end) => osis_chapters(b, start, end),
        PassageModel::Verses(rs) => osis_selections(rs, rs.len() as int),
        PassageModel::Sequence(ps) => osis_sequence(ps),
    }
}

/// The OSIS identifiers of passages joined by spaces.
pub open spec fn osis_sequence(ps: Seq<PassageModel>) -> Seq<char>
    decreases ps,
{
    if ps.len() == 0 {
        seq![]
    } else if ps.len() == 1 {
        osis_passage(ps[0])
    } else {
        osis_sequence(ps.drop_last()) + " "@ + osis_passage(ps.last())
    }
}

/// The USFM identifier of a passage.
pub open spec fn usfm_passage(m: PassageModel) -> Seq<char>
    decreases m,
{
    match m {
        PassageModel::Book(b) => spec_usfm(b),
        PassageModel::Chapter(b, start, end) => usfm_chapters(b, start, end),
        PassageModel::Verses(rs) => usfm_selections(rs),
        PassageModel::Sequence(ps) => usfm_sequence(ps),
    }
}

/// The USFM identifiers of passages joined by `; `.
pub open spec fn usfm_sequence(ps: Seq<PassageModel>) -> Seq<char>
    decreases ps,
{
    if ps.len() == 0 {
        seq![]
    } else if ps.len() == 1 {
        usfm_passage(ps[0])
    } else {
        usfm_sequence(ps.drop_last()) + "; "@ + usfm_passage(ps.last())
    }
}

/// Canonical OSIS and USFM serialization for Bible reference values.
pub trait MachineIdentifiers {
    /// Encode this value as a case-sensitive OSIS identifier.
    fn osis_identifier(&self) -> String;

    /// Encode this value as a case-sensitive USFM identifier.
    fn usfm_identifier(&self) -> String;
}

impl MachineIdentifiers for Book {
    fn osis_identifier(&self) -> (r: String)
        ensures
            r@ == spec_osis(*self),
    {
        self.osis().to_owned()
    }

    fn usfm_identifier(&self) -> (r: String)
        ensures
            r@ == spec_usfm(*self),
    {
        self.usfm().to_owned()
    }
}

/// Append the OSIS identifier of a verse.
fn write_osis_verse(v: VerseRef, out: &mut Vec<char>)
    ensures
        final(out)@ == old(out)@ + osis_verse(v),
{
    extend_str(out, v.book().osis());
    extend_str(out, ".");
    push_decimal(out, v.chapter() as u32);
    extend_str(out, ".");
    push_decimal(out, v.verse() as u32);
}

/// Append the USFM identifier of a verse.
fn write_usfm_verse(v: VerseRef, out: &mut Vec<char>)
    ensures
        final(out)@ == old(out)@ + usfm_verse(v),
{
    extend_str(out, v.book().usfm());
    extend_str(out, " ");
    push_decimal(out, v.chapter() as u32);
    extend_str(out, ":");
    push_decimal(out, v.verse() as u32);
}

/// Append the USFM identifier of a range.
fn write_usfm_range(r: VerseRange, out: &mut Vec<char>)
    ensures
        final(out)@ == old(out)@ + usfm_range(r),
{
    let s = r.start();
    let e = r.end();
    if s.book() != e.book() {
        extend_str(out, s.book().usfm());
        extend_str(out, "-");
        extend_str(out, e.book().usfm());
        extend_str(out, " ");
        push_decimal(out, s.chapter() as u32);
        extend_str(out, ":");
        push_decimal(out, s.verse() as u32);
        extend_str(out, "-");
        push_decimal(out, e.chapter() as u32);
        extend_str(out, ":");
        push_decimal(out, e.verse() as u32);
    } else if s.chapter() == e.chapter() {
        write_usfm_verse(s, out);
        extend_str(out, "-");
        push_decimal(out, e.verse() as u32);
    } else {
        write_usfm_verse(s, out);
        extend_str(out, "-");
        push_decimal(out, e.chapter() as u32);
        extend_str(out, ":");
        push_decimal(out, e.verse() as u32);
    }
}

/// Append the OSIS identifier of a reference.
fn write_osis_reference(r: Reference, out: &mut Vec<char>)
    ensures
        final(out)@ == old(out)@ + osis_reference(r),
{
    match r {
        Reference::Verse(v) => write_osis_verse(v, out),
        Reference::Range(range) => {
            write_osis_verse(range.start(), out);
            extend_str(out, "-");
            write_osis_verse(range.end(), out);
        },
    }
}

/// Append the USFM identifier of a reference.
fn write_usfm_reference(r: Reference, out: &mut Vec<char>)
    ensures
        final(out)@ == old(out)@ + usfm_reference(r),
{
    match r {
        Reference::Verse(v) => write_usfm_verse(v, out),
        Reference::Range(range) => write_usfm_range(range, out),
    }
}

impl MachineIdentifiers for VerseRef {
    fn osis_identifier(&self) -> (r: String)
        ensures
            r@ == osis_verse(*self),
    {
        let mut v: Vec<char> = Vec::new();
        write_osis_verse(*self, &mut v);
        string_of(v.as_slice())
    }

    fn usfm_identifier(&self) -> (r: String)
        ensures
            r@ == usfm_verse(*self),
    {
        let mut v: Vec<char> = Vec::new();
        write_usfm_verse(*self, &mut v);
        string_of(v.as_slice())
    }
}

impl MachineIdentifiers for VerseRange {
    fn osis_identifier(&self) -> (r: String)
        ensures
            r@ == osis_range(*self),
    {
        let mut v: Vec<char> = Vec::new();
        write_osis_reference(Reference::Range(*self), &mut v);
        string_of(v.as_slice())
    }

    fn usfm_identifier(&self) -> (r: String)
        ensures
            r@ == usfm_range(*self),
    {
        let mut v: Vec<char> = Vec::new();
        write_usfm_range(*self, &mut v);
        string_of(v.as_slice())
    }
}

impl MachineIdentifiers for Reference {
    fn osis_identifier(&self) -> (r: String)
        ensures
            r@ == osis_reference(*self),
    {
        let mut v: Vec<char> = Vec::new();
        write_osis_reference(*self, &mut v);
        string_of(v.as_slice())
    }

    fn usfm_identifier(&self) -> (r: String)
        ensures
            r@ == usfm_reference(*self),
    {
        let mut v: Vec<char> = Vec::new();
        write_usfm_reference(*self, &mut v);
        string_of(v.as_slice())
    }
}

impl MachineIdentifiers for BookPassage {
    fn osis_identifier(&self) -> (r: String)
        ensures
            r@ == spec_osis(self.spec_book()),
    {
        self.book().osis().to_owned()
    }

    fn usfm_identifier(&self) -> (r: String)
        ensures
            r@ == spec_usfm(self.spec_book()),
    {
        self.book().usfm().to_owned()
    }
}

/// Append the OSIS identifier of a chapter passage.
fn write_osis_chapters(p: ChapterPassage, out: &mut Vec<char>)
    ensures
        final(out)@ == old(out)@ + osis_chapters(p.spec_book(), p.spec_start(), p.spec_end()),
{
    let book = p.book().osis();
    extend_str(out, book);
    extend_str(out, ".");
    push_decimal(out, p.start_chapter() as u32);
    if let Some(end) = p.end_chapter() {
        extend_str(out, "-");
        extend_str(out, book);
        extend_str(out, ".");
        push_decimal(out, end as u32);
    }
}

/// Append the USFM identifier of a chapter passage.
fn write_usfm_chapters(p: ChapterPassage, out: &mut Vec<char>)
    ensures
        final(out)@ == old(out)@ + usfm_chapters(p.spec_book(), p.spec_start(), p.spec_end()),
{
    extend_str(out, p.book().usfm());
    extend_str(out, " ");
    push_decimal(out, p.start_chapter() as u32);
    if let Some(end) = p.end_chapter() {
        extend_str(out, "-");
        push_decimal(out, end as u32);
    }
}

impl MachineIdentifiers for ChapterPassage {
    fn osis_identifier(&self) -> (r: String)
        ensures
            r@ == osis_chapters(self.spec_book(), self.spec_start(), self.spec_end()),
    {
        let mut v: Vec<char> = Vec::new();
        write_osis_chapters(*self, &mut v);
        string_of(v.as_slice())
    }

    fn usfm_identifier(&self) -> (r: String)
        ensures
            r@ == usfm_chapters(self.spec_book(), self.spec_start(), self.spec_end()),
    {
        let mut v: Vec<char> = Vec::new();
        write_usfm_chapters(*self, &mut v);
        string_of(v.as_slice())
    }
}

/// Append the OSIS identifiers of selections joined by spaces.
fn write_osis_selections(rs: &[Reference], out: &mut Vec<char>)
    ensures
        final(out)@ == old(out)@ + osis_selections(rs@, rs@.len() as int),
{
    let ghost base = out@;
    for i in 0..rs.len()
        invariant
            out@ == base + osis_selections(rs@, i as int),
    {
        if i > 0 {
            extend_str(out, " ");
        }
        write_osis_reference(rs[i], out);
    }
}

/// Append the compact USFM of a later selection.
fn write_compact_usfm(selection: Reference, anchor: VerseRef, out: &mut Vec<char>)
    ensures
        final(out)@ == old(out)@ + compact_usfm(selection, anchor),
{
    match selection {
        Reference::Verse(v) => {
            if v.book() == anchor.book() && v.chapter() == anchor.chapter() {
                push_decimal(out, v.verse() as u32);
            } else {
                write_usfm_verse(v, out);
            }
        },
        Reference::Range(range) => {
            let s = range.start();
            let e = range.end();
            if s.book() == anchor.book() && e.book() == anchor.book() && s.chapter()
                == anchor.chapter() && e.chapter() == anchor.chapter() {
                push_decimal(out, s.verse() as u32);
                extend_str(out, "-");
                push_decimal(out, e.verse() as u32);
            } else {
                write_usfm_range(range, out);
            }
        },
    }
}

/// Append the USFM identifier of selections.
fn write_usfm_selections(rs: &[Reference], out: &mut Vec<char>)
    ensures
        final(out)@ == old(out)@ + usfm_selections(rs@),
{
    if rs.len() == 0 {
        return;
    }
    let ghost base = out@;
    write_usfm_reference(rs[0], out);
    let anchor = rs[0].start();
    for i in 1..rs.len()
        invariant
            rs@.len() > 0,
            anchor == reference_start(rs@[0]),
            out@ == base + usfm_reference(rs@[0]) + usfm_tail(rs@, i as int, anchor),
    {
        extend_str(out, ",");
        write_compact_usfm(rs[i], anchor, out);
    }
}

impl MachineIdentifiers for VersePassage {
    fn osis_identifier(&self) -> (r: String)
        ensures
            r@ == osis_selections(self@, self@.len() as int),
    {
        let mut v: Vec<char> = Vec::new();
        write_osis_selections(self.selections(), &mut v);
        string_of(v.as_slice())
    }

    fn usfm_identifier(&self) -> (r: String)
        ensures
            r@ == usfm_selections(self@),
    {
        let mut v: Vec<char> = Vec::new();
        write_usfm_selections(self.selections(), &mut v);
        string_of(v.as_slice())
    }
}

/// Append the OSIS identifier of a passage.
fn write_osis_passage(p: &Passage, out: &mut Vec<char>)
    ensures
        final(out)@ == old(out)@ + osis_passage(p@),
    decreases p@,
{
    match p.as_book() {
        Some(b) => {
            extend_str(out, b.book().osis());
            return;
        },
        None => {},
    }
    match p.as_chapter() {
        Some(c) => {
            write_osis_chapters(*c, out);
            return;
        },
        None => {},
    }
    match p.as_verses() {
        Some(v) => {
            write_osis_selections(v.selections(), out);
            return;
        },
        None => {},
    }
    match p.as_sequence() {
        Some(s) => write_osis_sequence(s, out),
        None => {},
    }
}

/// Append the OSIS identifiers of a sequence's passages joined by spaces.
fn write_osis_sequence(s: &PassageSequence, out: &mut Vec<char>)
    ensures
        final(out)@ == old(out)@ + osis_sequence(s@),
    decreases s@,
{
    let ps = s.passages();
    let ghost base = out@;
    let ghost models = s@;
    proof {
        lemma_passage_models(ps@);
    }
    for i in 0..ps.len()
        invariant
            models == s@,
            models.len() == ps@.len(),
            forall|j: int| 0 <= j < ps@.len() ==> models[j] == (#[trigger] ps@[j])@,
            out@ == base + osis_sequence(models.take(i as int)),
    {
        assert(models.take(i + 1).drop_last() == models.take(i as int));
        if i > 0 {
            extend_str(out, " ");
        } else {
            assert(models.take(i as int).len() == 0);
        }
        assert(models.take(i + 1).last() == ps@[i as int]@);
        write_osis_passage(&ps[i], out);
    }
    assert(models.take(models.len() as int) == models);
}

/// Append the USFM identifier of a passage.
fn write_usfm_passage(p: &Passage, out: &mut Vec<char>)
    ensures
        final(out)@ == old(out)@ + usfm_passage(p@),
    decreases p@,
{
    match p.as_book() {
        Some(b) => {
            extend_str(out, b.book().usfm());
            return;
        },
        None => {},
    }
    match p.as_chapter() {
        Some(c) => {
            write_usfm_chapters(*c, out);
            return;
        },
        None => {},
    }
    match p.as_verses() {
        Some(v) => {
            write_usfm_selections(v.selections(), out);
            return;
        },
        None => {},
    }
    match p.as_sequence() {
        Some(s) => write_usfm_sequence(s, out),
        None => {},
    }
}

/// Append the USFM identifiers of a sequence's passages joined by `; `.
fn write_usfm_sequence(s: &PassageSequence, out: &mut Vec<char>)
    ensures
        final(out)@ == old(out)@ + usfm_sequence(s@),
    decreases s@,
{
    let ps = s.passages();
    let ghost base = out@;
    let ghost models = s@;
    proof {
        lemma_passage_models(ps@);
    }
    for i in 0..ps.len()
        invariant
            models == s@,
            models.len() == ps@.len(),
            forall|j: int| 0 <= j < ps@.len() ==> models[j] == (#[trigger] ps@[j])@,
            out@ == base + usfm_sequence(models.take(i as int)),
    {
        assert(models.take(i + 1).drop_last() == models.take(i as int));
        if i > 0 {
            extend_str(out, "; ");
        } else {
            assert(models.take(i as int).len() == 0);
        }
        assert(models.take(i + 1).last() == ps@[i as int]@);
        write_usfm_passage(&ps[i], out);
    }
    assert(models.take(models.len() as int) == models);
}

impl MachineIdentifiers for PassageSequence {
    fn osis_identifier(&self) -> (r: String)
        ensures
            r@ == osis_sequence(self@),
    {
        let mut v: Vec<char> = Vec::new();
        write_osis_sequence(self, &mut v);
        string_of(v.as_slice())
    }

    fn usfm_identifier(&self) -> (r: String)
        ensures
            r@ == usfm_sequence(self@),
    {
        let mut v: Vec<char> = Vec::new();
        write_usfm_sequence(self, &mut v);
        string_of(v.as_slice())
    }
}

impl MachineIdentifiers for Passage {
    fn osis_identifier(&self) -> (r: String)
        ensures
            r@ == osis_passage(self@),
    {
        let mut v: Vec<char> = Vec::new();
        write_osis_passage(self, &mut v);
        string_of(v.as_slice())
    }

    fn usfm_identifier(&self) -> (r: String)
        ensures
            r@ == usfm_passage(self@),
    {
        let mut v: Vec<char> = Vec::new();
        write_usfm_passage(self, &mut v);
        string_of(v.as_slice())
    }
}

// ---------------------------------------------------------------------------
// Parsing
// ---------------------------------------------------------------------------

/// An ASCII letter or digit.
pub open spec fn is_ascii_alnum(c: char) -> bool {
    is_digit(c) || is_upper(c) || ('a' <= c && c <= 'z')
}

/// A non-empty run of ASCII letters and digits.
pub open spec fn osis_book_token(t: Seq<char>) -> bool {
    t.len() > 0 && forall|i: int| 0 <= i < t.len() ==> is_ascii_alnum(#[trigger] t[i])
}

/// Exactly three ASCII capitals or digits `1` to `4`.
pub open spec fn usfm_book_token(t: Seq<char>) -> bool {
    t.len() == 3 && forall|i: int|
        0 <= i < t.len() ==> is_upper(#[trigger] t[i]) || ('1' <= t[i] && t[i] <= '4')
}

/// `BOOK.CHAPTER.VERSE` with a well-formed book token and numbers.
pub open spec fn osis_endpoint_ok(e: Seq<char>) -> bool {
    let parts = split_on(e, '.');
    parts.len() == 3 && osis_book_token(parts[0]) && is_number(parts[1]) && is_number(parts[2])
}

/// A digit run read as `str::parse::<u16>` does.
pub open spec fn u16_of(t: Seq<char>) -> Option<u16> {
    if t.len() > 0 && digits_value(t) <= u16::MAX {
        Some(digits_value(t) as u16)
    } else {
        None
    }
}

/// A verse from a book and chapter and verse tokens; the chapter is checked
/// before the verse.
pub open spec fn build_verse(book: Book, chapter_token: Seq<char>, verse_token: Seq<char>) -> Result<
    VerseRef,
    IdentifierFault,
> {
    match u16_of(chapter_token) {
        None => Err(coordinate_fault(Coordinate::Chapter, chapter_token)),
        Some(c) => match u16_of(verse_token) {
            None => Err(coordinate_fault(Coordinate::Verse, verse_token)),
            Some(v) => if c == 0 || c > MAX_CHAPTER_NUMBER {
                Err(coordinate_fault(Coordinate::Chapter, decimal(c as nat)))
            } else if v == 0 || v > MAX_VERSE_NUMBER {
                Err(coordinate_fault(Coordinate::Verse, decimal(v as nat)))
            } else {
                Ok(verse_of(book, c, v))
            },
        },
    }
}

/// An ascending range, or the range-order error.
pub open spec fn checked_range(start: VerseRef, end: VerseRef) -> Result<Reference, IdentifierFault> {
    if verse_before(start, end) {
        Ok(Reference::Range(range_of(start, end)))
    } else {
        Err(order_fault(start, end))
    }
}

/// The verse of a well-formed OSIS endpoint.
pub open spec fn osis_endpoint(e: Seq<char>) -> Result<VerseRef, IdentifierFault> {
    let parts = split_on(e, '.');
    match find_book(BookField::Osis, parts[0]) {
        None => Err(unknown_book_fault(IdentifierFormat::Osis, parts[0])),
        Some(b) => build_verse(b, parts[1], parts[2]),
    }
}

/// Parsing `BOOK.CHAPTER.VERSE` or `BOOK.CHAPTER.VERSE-BOOK.CHAPTER.VERSE`.
pub open spec fn spec_reference_from_osis(id: Seq<char>) -> Result<Reference, IdentifierFault> {
    let tokens = split_on(id, '-');
    if tokens.len() > 2 || !osis_endpoint_ok(tokens[0]) || (tokens.len() == 2 && !osis_endpoint_ok(
        tokens[1],
    )) {
        Err(syntax_fault(IdentifierFormat::Osis))
    } else {
        match osis_endpoint(tokens[0]) {
            Err(k) => Err(k),
            Ok(start) => if tokens.len() == 1 {
                Ok(Reference::Verse(start))
            } else {
                match osis_endpoint(tokens[1]) {
                    Err(k) => Err(k),
                    Ok(end) => checked_range(start, end),
                }
            },
        }
    }
}

/// `CHAPTER:VERSE` with two numbers.
pub open spec fn usfm_coordinate(c: Seq<char>) -> Result<(Seq<char>, Seq<char>), IdentifierFault> {
    let parts = split_on(c, ':');
    if parts.len() != 2 || !is_number(parts[0]) || !is_number(parts[1]) {
        Err(syntax_fault(IdentifierFormat::Usfm))
    } else {
        Ok((parts[0], parts[1]))
    }
}

/// The end coordinate of a same-book USFM range: `CHAPTER:VERSE`, or a bare
/// verse in the start chapter.
pub open spec fn usfm_end_coordinate(parts: Seq<Seq<char>>, start_chapter: Seq<char>) -> Result<
    Option<(Seq<char>, Seq<char>)>,
    IdentifierFault,
> {
    if parts.len() == 1 {
        Ok(None)
    } else if parts[1].contains(':') {
        match usfm_coordinate(parts[1]) {
            Err(k) => Err(k),
            Ok(p) => Ok(Some(p)),
        }
    } else if is_number(parts[1]) {
        Ok(Some((start_chapter, parts[1])))
    } else {
        Err(syntax_fault(IdentifierFormat::Usfm))
    }
}

/// `BOOK C:V`, `BOOK C:V-V` or `BOOK C:V-C:V`.
pub open spec fn same_book_usfm(book_token: Seq<char>, coordinates: Seq<char>) -> Result<
    Reference,
    IdentifierFault,
> {
    let parts = split_on(coordinates, '-');
    if !usfm_book_token(book_token) || parts.len() > 2 {
        Err(syntax_fault(IdentifierFormat::Usfm))
    } else {
        match usfm_coordinate(parts[0]) {
            Err(k) => Err(k),
            Ok((sc, sv)) => match usfm_end_coordinate(parts, sc) {
                Err(k) => Err(k),
                Ok(end_coordinate) => match find_book(BookField::Usfm, book_token) {
                    None => Err(unknown_book_fault(IdentifierFormat::Usfm, book_token)),
                    Some(b) => match build_verse(b, sc, sv) {
                        Err(k) => Err(k),
                        Ok(start) => match end_coordinate {
                            None => Ok(Reference::Verse(start)),
                            Some((ec, ev)) => match build_verse(b, ec, ev) {
                                Err(k) => Err(k),
                                Ok(end) => checked_range(start, end),
                            },
                        },
                    },
                },
            },
        }
    }
}

/// `BOOK-BOOK C:V-C:V`.
pub open spec fn cross_book_usfm(book_token: Seq<char>, coordinates: Seq<char>) -> Result<
    Reference,
    IdentifierFault,
> {
    let books = split_on(book_token, '-');
    let coords = split_on(coordinates, '-');
    if books.len() != 2 || !usfm_book_token(books[0]) || !usfm_book_token(books[1]) {
        Err(syntax_fault(IdentifierFormat::Usfm))
    } else if coords.len() != 2 {
        Err(syntax_fault(IdentifierFormat::Usfm))
    } else {
        match usfm_coordinate(coords[0]) {
            Err(k) => Err(k),
            Ok((sc, sv)) => match usfm_coordinate(coords[1]) {
                Err(k) => Err(k),
                Ok((ec, ev)) => match find_book(BookField::Usfm, books[0]) {
                    None => Err(unknown_book_fault(IdentifierFormat::Usfm, books[0])),
                    Some(sb) => match find_book(BookField::Usfm, books[1]) {
                        None => Err(unknown_book_fault(IdentifierFormat::Usfm, books[1])),
                        Some(eb) => match build_verse(sb, sc, sv) {
                            Err(k) => Err(k),
                            Ok(start) => match build_verse(eb, ec, ev) {
                                Err(k) => Err(k),
                                Ok(end) => checked_range(start, end),
                            },
                        },
                    },
                },
            },
        }
    }
}

/// Parsing a USFM identifier: the book part and the coordinates are split
/// at the first space, and no other space may follow.
pub open spec fn spec_reference_from_usfm(id: Seq<char>) -> Result<Reference, IdentifierFault> {
    match first_index(id, ' ') {
        None => Err(syntax_fault(IdentifierFormat::Usfm)),
        Some(i) => {
            let book_token = id.take(i);
            let coordinates = id.skip(i + 1);
            if coordinates.contains(' ') {
                Err(syntax_fault(IdentifierFormat::Usfm))
            } else if book_token.contains('-') {
                cross_book_usfm(book_token, coordinates)
            } else {
                same_book_usfm(book_token, coordinates)
            }
        },
    }
}

// ---------------------------------------------------------------------------
// Round trips
// ---------------------------------------------------------------------------

/// A verse with in-range coordinates, as every constructed verse has.
pub open spec fn valid_verse(v: VerseRef) -> bool {
    1 <= v.spec_chapter() <= MAX_CHAPTER_NUMBER && 1 <= v.spec_verse() <= MAX_VERSE_NUMBER
}

/// A reference as every constructed one is: in-range endpoints and, for a
/// range, ascending ones.
pub open spec fn valid_reference(r: Reference) -> bool {
    match r {
        Reference::Verse(v) => valid_verse(v),
        Reference::Range(g) => valid_verse(g.spec_start()) && valid_verse(g.spec_end())
            && verse_before(g.spec_start(), g.spec_end()),
    }
}

/// Every OSIS book identifier is an alphanumeric token and every USFM book
/// identifier a three-character code.
#[verifier::rlimit(100)]
proof fn lemma_book_tokens(b: Book)
    ensures
        osis_book_token(spec_osis(b)),
        usfm_book_token(spec_usfm(b)),
{
}

/// A token of letters and digits holds none of the given punctuation.
proof fn lemma_alnum_excludes(t: Seq<char>, c: char)
    requires
        forall|i: int| 0 <= i < t.len() ==> is_ascii_alnum(#[trigger] t[i]),
        !is_ascii_alnum(c),
    ensures
        !t.contains(c),
{
}

/// A decimal spelling holds none of the given punctuation.
proof fn lemma_decimal_excludes(n: nat, c: char)
    requires
        !is_digit(c),
    ensures
        !decimal(n).contains(c),
        is_number(decimal(n)),
        u16_of(decimal(n)) == (if n <= u16::MAX { Some(n as u16) } else { None::<u16> }),
{
    lemma_decimal(n);
    if decimal(n).contains(c) {
        let k = choose|k: int| 0 <= k < decimal(n).len() && decimal(n)[k] == c;
        assert(is_digit(decimal(n)[k]));
    }
}

/// A constructed verse is rebuilt from its own chapter and verse spellings.
proof fn lemma_build_own_verse(v: VerseRef)
    requires
        valid_verse(v),
    ensures
        build_verse(v.spec_book(), decimal(v.spec_chapter() as nat), decimal(v.spec_verse() as nat))
            == Ok::<VerseRef, IdentifierFault>(v),
{
    lemma_decimal_excludes(v.spec_chapter() as nat, '.');
    lemma_decimal_excludes(v.spec_verse() as nat, '.');
    lemma_verse_eq(v, v);
}

/// The OSIS spelling of a verse is a well-formed endpoint naming that verse.
proof fn lemma_osis_verse(v: VerseRef)
    requires
        valid_verse(v),
    ensures
        osis_endpoint_ok(osis_verse(v)),
        osis_endpoint(osis_verse(v)) == Ok::<VerseRef, IdentifierFault>(v),
        !osis_verse(v).contains('-'),
{
    let b = spec_osis(v.spec_book());
    let c = decimal(v.spec_chapter() as nat);
    let n = decimal(v.spec_verse() as nat);
    reveal_strlit(".");
    lemma_book_tokens(v.spec_book());
    lemma_find_identifiers(v.spec_book());
    lemma_alnum_excludes(b, '.');
    lemma_alnum_excludes(b, '-');
    lemma_decimal_excludes(v.spec_chapter() as nat, '.');
    lemma_decimal_excludes(v.spec_verse() as nat, '.');
    lemma_decimal_excludes(v.spec_chapter() as nat, '-');
    lemma_decimal_excludes(v.spec_verse() as nat, '-');
    assert(osis_verse(v) =~= b + seq!['.'] + (c + seq!['.'] + n));
    lemma_split_on_join(b, c + seq!['.'] + n, '.');
    lemma_split_on_join(c, n, '.');
    lemma_split_on_single(b, '.');
    lemma_split_on_single(c, '.');
    lemma_split_on_single(n, '.');
    assert(split_on(osis_verse(v), '.') =~= seq![b, c, n]);
    lemma_build_own_verse(v);
    if osis_verse(v).contains('-') {
        let k = choose|k: int| 0 <= k < osis_verse(v).len() && osis_verse(v)[k] == '-';
        if k < b.len() {
            assert(b[k] == '-');
        } else if k == b.len() {
        } else if k < b.len() + 1 + c.len() {
            assert(c[k - b.len() - 1] == '-');
        } else if k == b.len() + 1 + c.len() {
        } else {
            assert(n[k - b.len() - 2 - c.len()] == '-');
        }
    }
}

/// Every reference is read back from its own OSIS identifier.
pub proof fn lemma_osis_round_trip(r: Reference)
    requires
        valid_reference(r),
    ensures
        spec_reference_from_osis(osis_reference(r)) == Ok::<Reference, IdentifierFault>(r),
{
    reveal_strlit("-");
    match r {
        Reference::Verse(v) => {
            lemma_osis_verse(v);
            lemma_split_on_single(osis_verse(v), '-');
        },
        Reference::Range(g) => {
            let s = g.spec_start();
            let e = g.spec_end();
            lemma_osis_verse(s);
            lemma_osis_verse(e);
            assert(osis_range(g) =~= osis_verse(s) + seq!['-'] + osis_verse(e));
            lemma_split_on_join(osis_verse(s), osis_verse(e), '-');
            lemma_split_on_single(osis_verse(s), '-');
            lemma_split_on_single(osis_verse(e), '-');
            assert(split_on(osis_range(g), '-') =~= seq![osis_verse(s), osis_verse(e)]);
            lemma_range_of(s, e);
            lemma_range_eq(range_of(s, e), g);
        },
    }
}

/// `CHAPTER:VERSE` spelled from numbers reads back as those spellings and
/// holds no space or hyphen.
proof fn lemma_usfm_coordinate(c: nat, v: nat)
    ensures
        usfm_coordinate(decimal(c) + seq![':'] + decimal(v)) == Ok::<
            (Seq<char>, Seq<char>),
            IdentifierFault,
        >((decimal(c), decimal(v))),
        !(decimal(c) + seq![':'] + decimal(v)).contains(' '),
        !(decimal(c) + seq![':'] + decimal(v)).contains('-'),
{
    lemma_decimal_excludes(c, ':');
    lemma_decimal_excludes(v, ':');
    lemma_decimal_excludes(c, ' ');
    lemma_decimal_excludes(v, ' ');
    lemma_decimal_excludes(c, '-');
    lemma_decimal_excludes(v, '-');
    lemma_split_on_join(decimal(c), decimal(v), ':');
    lemma_split_on_single(decimal(c), ':');
    lemma_split_on_single(decimal(v), ':');
    assert(split_on(decimal(c) + seq![':'] + decimal(v), ':') =~= seq![decimal(c), decimal(v)]);
    lemma_excludes_join(decimal(c), decimal(v), ':', ' ');
    lemma_excludes_join(decimal(c), decimal(v), ':', '-');
}

/// Joining two parts with a separator adds no other character.
proof fn lemma_excludes_join(a: Seq<char>, b: Seq<char>, sep: char, c: char)
    requires
        !a.contains(c),
        !b.contains(c),
        sep != c,
    ensures
        !(a + seq![sep] + b).contains(c),
{
    let s = a + seq![sep] + b;
    if s.contains(c) {
        let k = choose|k: int| 0 <= k < s.len() && s[k] == c;
        if k < a.len() {
            assert(a[k] == c);
        } else if k > a.len() {
            assert(b[k - a.len() - 1] == c);
        }
    }
}

/// The first space of `a + " " + rest`, when `a` has none, separates the two.
proof fn lemma_first_space(a: Seq<char>, rest: Seq<char>)
    requires
        !a.contains(' '),
    ensures
        first_index(a + seq![' '] + rest, ' ') == Some(a.len() as int),
        (a + seq![' '] + rest).take(a.len() as int) == a,
        (a + seq![' '] + rest).skip(a.len() as int + 1) == rest,
{
    let s = a + seq![' '] + rest;
    lemma_first_index(s, ' ');
    assert(s[a.len() as int] == ' ');
    assert(s.contains(' '));
    let i = first_index(s, ' ')->0;
    if i < a.len() {
        assert(a[i] == ' ');
    }
    assert(s.take(a.len() as int) =~= a);
    assert(s.skip(a.len() as int + 1) =~= rest);
}

/// The spelling of a verse's coordinates, `CHAPTER:VERSE`.
pub open spec fn coordinate_text(v: VerseRef) -> Seq<char> {
    decimal(v.spec_chapter() as nat) + seq![':'] + decimal(v.spec_verse() as nat)
}

/// The pieces of a verse's USFM spelling each read back as they were
/// written.
proof fn lemma_usfm_pieces(v: VerseRef)
    requires
        valid_verse(v),
    ensures
        usfm_book_token(spec_usfm(v.spec_book())),
        !spec_usfm(v.spec_book()).contains(' '),
        !spec_usfm(v.spec_book()).contains('-'),
        find_book(BookField::Usfm, spec_usfm(v.spec_book())) == Some(v.spec_book()),
        usfm_coordinate(coordinate_text(v)) == Ok::<(Seq<char>, Seq<char>), IdentifierFault>(
            (decimal(v.spec_chapter() as nat), decimal(v.spec_verse() as nat)),
        ),
        !coordinate_text(v).contains(' '),
        !coordinate_text(v).contains('-'),
        coordinate_text(v).contains(':'),
        split_on(coordinate_text(v), '-') == seq![coordinate_text(v)],
        build_verse(v.spec_book(), decimal(v.spec_chapter() as nat), decimal(v.spec_verse() as nat))
            == Ok::<VerseRef, IdentifierFault>(v),
{
    let b = spec_usfm(v.spec_book());
    lemma_book_tokens(v.spec_book());
    lemma_find_identifiers(v.spec_book());
    lemma_usfm_coordinate(v.spec_chapter() as nat, v.spec_verse() as nat);
    lemma_build_own_verse(v);
    lemma_split_on_single(coordinate_text(v), '-');
    lemma_decimal(v.spec_chapter() as nat);
    assert(coordinate_text(v)[decimal(v.spec_chapter() as nat).len() as int] == ':');
    if b.contains(' ') {
        let k = choose|k: int| 0 <= k < b.len() && b[k] == ' ';
        assert(is_upper(b[k]) || ('1' <= b[k] && b[k] <= '4'));
    }
    if b.contains('-') {
        let k = choose|k: int| 0 <= k < b.len() && b[k] == '-';
        assert(is_upper(b[k]) || ('1' <= b[k] && b[k] <= '4'));
    }
}

/// A verse is read back from its own USFM identifier.
proof fn lemma_usfm_verse_round_trip(v: VerseRef)
    requires
        valid_verse(v),
    ensures
        spec_reference_from_usfm(usfm_verse(v)) == Ok::<Reference, IdentifierFault>(
            Reference::Verse(v),
        ),
{
    reveal_strlit(" ");
    reveal_strlit(":");
    lemma_usfm_pieces(v);
    let b = spec_usfm(v.spec_book());
    assert(usfm_verse(v) =~= b + seq![' '] + coordinate_text(v));
    lemma_first_space(b, coordinate_text(v));
}

/// A range within one book is read back from its own USFM identifier.
#[verifier::spinoff_prover]
#[verifier::rlimit(100)]
proof fn lemma_usfm_same_book_round_trip(g: VerseRange)
    requires
        valid_verse(g.spec_start()),
        valid_verse(g.spec_end()),
        verse_before(g.spec_start(), g.spec_end()),
        g.spec_start().spec_book() == g.spec_end().spec_book(),
    ensures
        spec_reference_from_usfm(usfm_range(g)) == Ok::<Reference, IdentifierFault>(
            Reference::Range(g),
        ),
{
    reveal_strlit("-");
    reveal_strlit(" ");
    reveal_strlit(":");
    let s = g.spec_start();
    let e = g.spec_end();
    let b = spec_usfm(s.spec_book());
    let start = coordinate_text(s);
    lemma_usfm_pieces(s);
    lemma_usfm_pieces(e);
    lemma_range_of(s, e);
    lemma_range_eq(range_of(s, e), g);
    if s.spec_chapter() == e.spec_chapter() {
        let ev = decimal(e.spec_verse() as nat);
        lemma_decimal_excludes(e.spec_verse() as nat, ':');
        lemma_decimal_excludes(e.spec_verse() as nat, '-');
        lemma_decimal_excludes(e.spec_verse() as nat, ' ');
        let coords = start + seq!['-'] + ev;
        assert(usfm_range(g) =~= b + seq![' '] + coords);
        lemma_excludes_join(start, ev, '-', ' ');
        lemma_first_space(b, coords);
        lemma_split_on_join(start, ev, '-');
        lemma_split_on_single(ev, '-');
        assert(split_on(coords, '-') =~= seq![start, ev]);
    } else {
        let end = coordinate_text(e);
        let coords = start + seq!['-'] + end;
        assert(usfm_range(g) =~= b + seq![' '] + coords);
        lemma_excludes_join(start, end, '-', ' ');
        lemma_first_space(b, coords);
        lemma_split_on_join(start, end, '-');
        assert(split_on(coords, '-') =~= seq![start, end]);
    }
}

/// A USFM identifier is split at its first space into a book part and
/// coordinates, and the book part decides between the two forms.
proof fn lemma_usfm_dispatch(book_token: Seq<char>, coords: Seq<char>)
    requires
        !book_token.contains(' '),
        !coords.contains(' '),
    ensures
        spec_reference_from_usfm(book_token + seq![' '] + coords) == (if book_token.contains('-') {
            cross_book_usfm(book_token, coords)
        } else {
            same_book_usfm(book_token, coords)
        }),
{
    lemma_first_space(book_token, coords);
}

/// Two USFM book codes joined by a hyphen split back into the two codes.
proof fn lemma_usfm_book_pair(s: VerseRef, e: VerseRef)
    requires
        valid_verse(s),
        valid_verse(e),
    ensures
        !(spec_usfm(s.spec_book()) + seq!['-'] + spec_usfm(e.spec_book())).contains(' '),
        (spec_usfm(s.spec_book()) + seq!['-'] + spec_usfm(e.spec_book())).contains('-'),
        split_on(spec_usfm(s.spec_book()) + seq!['-'] + spec_usfm(e.spec_book()), '-') == seq![
            spec_usfm(s.spec_book()),
            spec_usfm(e.spec_book()),
        ],
{
    let sb = spec_usfm(s.spec_book());
    let eb = spec_usfm(e.spec_book());
    lemma_usfm_pieces(s);
    lemma_usfm_pieces(e);
    lemma_excludes_join(sb, eb, '-', ' ');
    assert((sb + seq!['-'] + eb)[sb.len() as int] == '-');
    lemma_split_on_join(sb, eb, '-');
    lemma_split_on_single(sb, '-');
    lemma_split_on_single(eb, '-');
    assert(split_on(sb + seq!['-'] + eb, '-') =~= seq![sb, eb]);
}

/// Two coordinates joined by a hyphen split back into the two.
proof fn lemma_coordinate_pair(s: VerseRef, e: VerseRef)
    requires
        valid_verse(s),
        valid_verse(e),
    ensures
        !(coordinate_text(s) + seq!['-'] + coordinate_text(e)).contains(' '),
        split_on(coordinate_text(s) + seq!['-'] + coordinate_text(e), '-') == seq![
            coordinate_text(s),
            coordinate_text(e),
        ],
{
    lemma_usfm_pieces(s);
    lemma_usfm_pieces(e);
    lemma_excludes_join(coordinate_text(s), coordinate_text(e), '-', ' ');
    lemma_split_on_join(coordinate_text(s), coordinate_text(e), '-');
    assert(split_on(coordinate_text(s) + seq!['-'] + coordinate_text(e), '-') =~= seq![
        coordinate_text(s),
        coordinate_text(e),
    ]);
}

/// A range across books is read back from its own USFM identifier.
#[verifier::spinoff_prover]
#[verifier::rlimit(100)]
proof fn lemma_usfm_cross_book_round_trip(g: VerseRange)
    requires
        valid_verse(g.spec_start()),
        valid_verse(g.spec_end()),
        verse_before(g.spec_start(), g.spec_end()),
        g.spec_start().spec_book() != g.spec_end().spec_book(),
    ensures
        spec_reference_from_usfm(usfm_range(g)) == Ok::<Reference, IdentifierFault>(
            Reference::Range(g),
        ),
{
    reveal_strlit("-");
    reveal_strlit(" ");
    reveal_strlit(":");
    let s = g.spec_start();
    let e = g.spec_end();
    let books = spec_usfm(s.spec_book()) + seq!['-'] + spec_usfm(e.spec_book());
    let coords = coordinate_text(s) + seq!['-'] + coordinate_text(e);
    assert(usfm_range(g) =~= books + seq![' '] + coords);
    lemma_usfm_book_pair(s, e);
    lemma_coordinate_pair(s, e);
    lemma_usfm_dispatch(books, coords);
    lemma_usfm_pieces(s);
    lemma_usfm_pieces(e);
    lemma_range_of(s, e);
    lemma_range_eq(range_of(s, e), g);
}

/// Every reference is read back from its own USFM identifier.
pub proof fn lemma_usfm_round_trip(r: Reference)
    requires
        valid_reference(r),
    ensures
        spec_reference_from_usfm(usfm_reference(r)) == Ok::<Reference, IdentifierFault>(r),
{
    match r {
        Reference::Verse(v) => lemma_usfm_verse_round_trip(v),
        Reference::Range(g) => {
            if g.spec_start().spec_book() == g.spec_end().spec_book() {
                lemma_usfm_same_book_round_trip(g);
            } else {
                lemma_usfm_cross_book_round_trip(g);
            }
        },
    }
}

/// An identifier outcome reduced to its value and error classification.
pub open spec fn identifier_outcome<T>(r: Result<T, IdentifierError>) -> Result<T, IdentifierFault> {
    match r {
        Ok(v) => Ok(v),
        Err(e) => Err(e.fault()),
    }
}

/// An error, if any, reports the given format and input.
pub open spec fn reports<T>(r: Result<T, IdentifierError>, format: IdentifierFormat, input: Seq<char>) -> bool {
    r matches Err(e) ==> e.spec_format() == format && e.spec_input() == input
}

/// Resolve an exact, case-sensitive OSIS book identifier.
pub fn book_from_osis_identifier(identifier: &str) -> (r: Result<Book, IdentifierError>)
    ensures
        identifier_outcome(r) == match find_book(BookField::Osis, identifier@) {
            Some(b) => Ok(b),
            None => Err(unknown_book_fault(IdentifierFormat::Osis, identifier@)),
        },
        reports(r, IdentifierFormat::Osis, identifier@),
{
    match Book::from_osis(identifier) {
        Some(b) => Ok(b),
        None => {
            let text = chars_of(identifier);
            Err(IdentifierError::unknown_book(IdentifierFormat::Osis, identifier, text.as_slice()))
        },
    }
}

/// Resolve an exact, case-sensitive USFM book identifier.
pub fn book_from_usfm_identifier(identifier: &str) -> (r: Result<Book, IdentifierError>)
    ensures
        identifier_outcome(r) == match find_book(BookField::Usfm, identifier@) {
            Some(b) => Ok(b),
            None => Err(unknown_book_fault(IdentifierFormat::Usfm, identifier@)),
        },
        reports(r, IdentifierFormat::Usfm, identifier@),
{
    match Book::from_usfm(identifier) {
        Some(b) => Ok(b),
        None => {
            let text = chars_of(identifier);
            Err(IdentifierError::unknown_book(IdentifierFormat::Usfm, identifier, text.as_slice()))
        },
    }
}

/// Whether `t` is a well-formed OSIS book token.
fn is_osis_book_token(t: &[char]) -> (r: bool)
    ensures
        r == osis_book_token(t@),
{
    if t.len() == 0 {
        return false;
    }
    for i in 0..t.len()
        invariant
            forall|j: int| 0 <= j < i ==> is_ascii_alnum(t@[j]),
    {
        let c = t[i];
        if !(('0' <= c && c <= '9') || ('A' <= c && c <= 'Z') || ('a' <= c && c <= 'z')) {
            return false;
        }
    }
    true
}

/// Whether `t` is a well-formed USFM book token.
fn is_usfm_book_token(t: &[char]) -> (r: bool)
    ensures
        r == usfm_book_token(t@),
{
    if t.len() != 3 {
        return false;
    }
    for i in 0..t.len()
        invariant
            t@.len() == 3,
            forall|j: int| 0 <= j < i ==> is_upper(t@[j]) || ('1' <= t@[j] && t@[j] <= '4'),
    {
        let c = t[i];
        if !(('A' <= c && c <= 'Z') || ('1' <= c && c <= '4')) {
            return false;
        }
    }
    true
}

/// Whether `e` is a well-formed OSIS endpoint.
fn is_osis_endpoint(e: &[char]) -> (r: bool)
    ensures
        r == osis_endpoint_ok(e@),
{
    let parts = split_chars(e, '.');
    if parts.len() != 3 {
        return false;
    }
    assert(piece_views(parts@)[0] == parts@[0]@);
    assert(piece_views(parts@)[1] == parts@[1]@);
    assert(piece_views(parts@)[2] == parts@[2]@);
    is_osis_book_token(parts[0].as_slice()) && chars_is_number(parts[1].as_slice())
        && chars_is_number(parts[2].as_slice())
}

/// A digit run read as `str::parse::<u16>` does.
fn parse_u16(t: &[char]) -> (r: Option<u16>)
    requires
        crate::text::all_digits(t@),
    ensures
        r == u16_of(t@),
{
    match parse_u32(t) {
        Some(v) => if v <= 65535 {
            Some(v as u16)
        } else {
            None
        },
        None => None,
    }
}

/// Build a verse from a book and number tokens.
fn build_verse_exec(
    book: Book,
    chapter_token: &[char],
    verse_token: &[char],
    format: IdentifierFormat,
    source: &str,
) -> (r: Result<VerseRef, IdentifierError>)
    requires
        is_number(chapter_token@),
        is_number(verse_token@),
    ensures
        identifier_outcome(r) == build_verse(book, chapter_token@, verse_token@),
        reports(r, format, source@),
{
    let chapter = match parse_u16(chapter_token) {
        Some(c) => c,
        None => {
            return Err(
                IdentifierError::invalid_coordinate(format, source, Coordinate::Chapter, chapter_token),
            );
        },
    };
    let verse = match parse_u16(verse_token) {
        Some(v) => v,
        None => {
            return Err(
                IdentifierError::invalid_coordinate(format, source, Coordinate::Verse, verse_token),
            );
        },
    };
    proof {
        lemma_coordinate_error_for(chapter, verse);
    }
    match VerseRef::new(book, chapter, verse) {
        Ok(v) => Ok(v),
        Err(error) => {
            let mut value: Vec<char> = Vec::new();
            push_decimal(&mut value, error.value() as u32);
            Err(
                IdentifierError::invalid_coordinate(
                    format,
                    source,
                    error.coordinate(),
                    value.as_slice(),
                ),
            )
        },
    }
}

/// An ascending range, or the range-order error.
fn checked_range_exec(start: VerseRef, end: VerseRef, format: IdentifierFormat, source: &str) -> (r:
    Result<Reference, IdentifierError>)
    ensures
        identifier_outcome(r) == checked_range(start, end),
        reports(r, format, source@),
{
    match VerseRange::new(start, end) {
        Ok(range) => Ok(Reference::Range(range)),
        Err(_) => Err(IdentifierError::range_not_ascending(format, source, start, end)),
    }
}

/// The verse of a well-formed OSIS endpoint.
fn parse_osis_endpoint(e: &[char], source: &str) -> (r: Result<VerseRef, IdentifierError>)
    requires
        osis_endpoint_ok(e@),
    ensures
        identifier_outcome(r) == osis_endpoint(e@),
        reports(r, IdentifierFormat::Osis, source@),
{
    let parts = split_chars(e, '.');
    assert(piece_views(parts@)[0] == parts@[0]@);
    assert(piece_views(parts@)[1] == parts@[1]@);
    assert(piece_views(parts@)[2] == parts@[2]@);
    let name = string_of(parts[0].as_slice());
    let book = match Book::from_osis(name.as_str()) {
        Some(b) => b,
        None => {
            return Err(
                IdentifierError::unknown_book(IdentifierFormat::Osis, source, parts[0].as_slice()),
            );
        },
    };
    build_verse_exec(book, parts[1].as_slice(), parts[2].as_slice(), IdentifierFormat::Osis, source)
}

/// Parse a verse or full-endpoint OSIS range identifier, such as
/// `John.3.16` or `2Cor.6.14-2Cor.7.1`.
pub fn reference_from_osis_identifier(identifier: &str) -> (r: Result<Reference, IdentifierError>)
    ensures
        identifier_outcome(r) == spec_reference_from_osis(identifier@),
        reports(r, IdentifierFormat::Osis, identifier@),
{
    let text = chars_of(identifier);
    let tokens = split_chars(text.as_slice(), '-');
    proof {
        lemma_split_on_len(text@, '-');
    }
    assert(piece_views(tokens@)[0] == tokens@[0]@);
    if tokens.len() > 2 {
        return Err(IdentifierError::invalid_syntax(IdentifierFormat::Osis, identifier));
    }
    let start_ok = is_osis_endpoint(tokens[0].as_slice());
    let end_ok = if tokens.len() == 2 {
        assert(piece_views(tokens@)[1] == tokens@[1]@);
        is_osis_endpoint(tokens[1].as_slice())
    } else {
        true
    };
    if !start_ok || !end_ok {
        return Err(IdentifierError::invalid_syntax(IdentifierFormat::Osis, identifier));
    }
    let start = match parse_osis_endpoint(tokens[0].as_slice(), identifier) {
        Ok(v) => v,
        Err(e) => return Err(e),
    };
    if tokens.len() == 1 {
        return Ok(Reference::Verse(start));
    }
    assert(piece_views(tokens@)[1] == tokens@[1]@);
    let end = match parse_osis_endpoint(tokens[1].as_slice(), identifier) {
        Ok(v) => v,
        Err(e) => return Err(e),
    };
    checked_range_exec(start, end, IdentifierFormat::Osis, identifier)
}

/// `CHAPTER:VERSE` with two numbers.
fn parse_usfm_coordinate(c: &[char], source: &str) -> (r: Result<(Vec<char>, Vec<char>), IdentifierError>)
    ensures
        match usfm_coordinate(c@) {
            Ok((a, b)) => r matches Ok((x, y)) && x@ == a && y@ == b,
            Err(k) => r matches Err(e) && e.fault() == k,
        },
        reports(r, IdentifierFormat::Usfm, source@),
{
    let parts = split_chars(c, ':');
    proof {
        lemma_split_on_len(c@, ':');
    }
    if parts.len() != 2 {
        return Err(IdentifierError::invalid_syntax(IdentifierFormat::Usfm, source));
    }
    assert(piece_views(parts@)[0] == parts@[0]@);
    assert(piece_views(parts@)[1] == parts@[1]@);
    if !chars_is_number(parts[0].as_slice()) || !chars_is_number(parts[1].as_slice()) {
        return Err(IdentifierError::invalid_syntax(IdentifierFormat::Usfm, source));
    }
    let chapter = slice_chars(parts[0].as_slice(), 0, parts[0].len());
    let verse = slice_chars(parts[1].as_slice(), 0, parts[1].len());
    assert(chapter@ =~= parts@[0]@);
    assert(verse@ =~= parts@[1]@);
    Ok((chapter, verse))
}

/// The USFM book of a well-formed token.
fn lookup_usfm_book(token: &[char], source: &str) -> (r: Result<Book, IdentifierError>)
    ensures
        identifier_outcome(r) == match find_book(BookField::Usfm, token@) {
            Some(b) => Ok(b),
            None => Err(unknown_book_fault(IdentifierFormat::Usfm, token@)),
        },
        reports(r, IdentifierFormat::Usfm, source@),
{
    let name = string_of(token);
    match Book::from_usfm(name.as_str()) {
        Some(b) => Ok(b),
        None => Err(IdentifierError::unknown_book(IdentifierFormat::Usfm, source, token)),
    }
}

/// `BOOK C:V`, `BOOK C:V-V` or `BOOK C:V-C:V`.
fn parse_same_book_usfm(book_token: &[char], coordinates: &[char], source: &str) -> (r: Result<
    Reference,
    IdentifierError,
>)
    ensures
        identifier_outcome(r) == same_book_usfm(book_token@, coordinates@),
        reports(r, IdentifierFormat::Usfm, source@),
{
    let parts = split_chars(coordinates, '-');
    proof {
        lemma_split_on_len(coordinates@, '-');
    }
    if !is_usfm_book_token(book_token) || parts.len() > 2 {
        return Err(IdentifierError::invalid_syntax(IdentifierFormat::Usfm, source));
    }
    assert(piece_views(parts@)[0] == parts@[0]@);
    let (start_chapter, start_verse) = match parse_usfm_coordinate(parts[0].as_slice(), source) {
        Ok(pair) => pair,
        Err(e) => return Err(e),
    };
    let end_coordinate: Option<(Vec<char>, Vec<char>)> = if parts.len() == 1 {
        None
    } else {
        assert(piece_views(parts@)[1] == parts@[1]@);
        if chars_contains(parts[1].as_slice(), ':') {
            match parse_usfm_coordinate(parts[1].as_slice(), source) {
                Ok(pair) => Some(pair),
                Err(e) => return Err(e),
            }
        } else if chars_is_number(parts[1].as_slice()) {
            let chapter = slice_chars(start_chapter.as_slice(), 0, start_chapter.len());
            let verse = slice_chars(parts[1].as_slice(), 0, parts[1].len());
            assert(chapter@ =~= start_chapter@);
            assert(verse@ =~= parts@[1]@);
            Some((chapter, verse))
        } else {
            return Err(IdentifierError::invalid_syntax(IdentifierFormat::Usfm, source));
        }
    };
    let book = match lookup_usfm_book(book_token, source) {
        Ok(b) => b,
        Err(e) => return Err(e),
    };
    let start = match build_verse_exec(
        book,
        start_chapter.as_slice(),
        start_verse.as_slice(),
        IdentifierFormat::Usfm,
        source,
    ) {
        Ok(v) => v,
        Err(e) => return Err(e),
    };
    match end_coordinate {
        None => Ok(Reference::Verse(start)),
        Some((end_chapter, end_verse)) => {
            let end = match build_verse_exec(
                book,
                end_chapter.as_slice(),
                end_verse.as_slice(),
                IdentifierFormat::Usfm,
                source,
            ) {
                Ok(v) => v,
                Err(e) => return Err(e),
            };
            checked_range_exec(start, end, IdentifierFormat::Usfm, source)
        },
    }
}

/// `BOOK-BOOK C:V-C:V`.
fn parse_cross_book_usfm(book_token: &[char], coordinates: &[char], source: &str) -> (r: Result<
    Reference,
    IdentifierError,
>)
    ensures
        identifier_outcome(r) == cross_book_usfm(book_token@, coordinates@),
        reports(r, IdentifierFormat::Usfm, source@),
{
    let books = split_chars(book_token, '-');
    let coords = split_chars(coordinates, '-');
    if books.len() != 2 {
        return Err(IdentifierError::invalid_syntax(IdentifierFormat::Usfm, source));
    }
    assert(piece_views(books@)[0] == books@[0]@);
    assert(piece_views(books@)[1] == books@[1]@);
    if !is_usfm_book_token(books[0].as_slice()) || !is_usfm_book_token(books[1].as_slice()) {
        return Err(IdentifierError::invalid_syntax(IdentifierFormat::Usfm, source));
    }
    if coords.len() != 2 {
        return Err(IdentifierError::invalid_syntax(IdentifierFormat::Usfm, source));
    }
    assert(piece_views(coords@)[0] == coords@[0]@);
    assert(piece_views(coords@)[1] == coords@[1]@);
    let (start_chapter, start_verse) = match parse_usfm_coordinate(coords[0].as_slice(), source) {
        Ok(pair) => pair,
        Err(e) => return Err(e),
    };
    let (end_chapter, end_verse) = match parse_usfm_coordinate(coords[1].as_slice(), source) {
        Ok(pair) => pair,
        Err(e) => return Err(e),
    };
    let start_book = match lookup_usfm_book(books[0].as_slice(), source) {
        Ok(b) => b,
        Err(e) => return Err(e),
    };
    let end_book = match lookup_usfm_book(books[1].as_slice(), source) {
        Ok(b) => b,
        Err(e) => return Err(e),
    };
    let start = match build_verse_exec(
        start_book,
        start_chapter.as_slice(),
        start_verse.as_slice(),
        IdentifierFormat::Usfm,
        source,
    ) {
        Ok(v) => v,
        Err(e) => return Err(e),
    };
    let end = match build_verse_exec(
        end_book,
        end_chapter.as_slice(),
        end_verse.as_slice(),
        IdentifierFormat::Usfm,
        source,
    ) {
        Ok(v) => v,
        Err(e) => return Err(e),
    };
    checked_range_exec(start, end, IdentifierFormat::Usfm, source)
}

/// Parse a standard USFM verse or same-book range identifier, such as
/// `JHN 3:16`, `JHN 3:16-17` or `JHN 3:16-4:1`, or the cross-book extension
/// `JHN-ACT 21:25-1:2`.
pub fn reference_from_usfm_identifier(identifier: &str) -> (r: Result<Reference, IdentifierError>)
    ensures
        identifier_outcome(r) == spec_reference_from_usfm(identifier@),
        reports(r, IdentifierFormat::Usfm, identifier@),
{
    let text = chars_of(identifier);
    proof {
        lemma_first_index(text@, ' ');
    }
    let space = match index_of(text.as_slice(), ' ') {
        Some(i) => i,
        None => {
            return Err(IdentifierError::invalid_syntax(IdentifierFormat::Usfm, identifier));
        },
    };
    let len = text.len();
    assert(space < len);
    let book_token = slice_chars(text.as_slice(), 0, space);
    let coordinates = slice_chars(text.as_slice(), space + 1, len);
    if chars_contains(coordinates.as_slice(), ' ') {
        return Err(IdentifierError::invalid_syntax(IdentifierFormat::Usfm, identifier));
    }
    if chars_contains(book_token.as_slice(), '-') {
        return parse_cross_book_usfm(book_token.as_slice(), coordinates.as_slice(), identifier);
    }
    parse_same_book_usfm(book_token.as_slice(), coordinates.as_slice(), identifier)
}

/// Whether every endpoint of a selection lies in the anchor's book and
/// chapter.
pub open spec fn in_anchor_chapter(selection: Reference, anchor: VerseRef) -> bool {
    let (s, e) = match selection {
        Reference::Verse(v) => (v, v),
        Reference::Range(r) => (r.spec_start(), r.spec_end()),
    };
    &&& s.spec_book() == anchor.spec_book() && s.spec_chapter() == anchor.spec_chapter()
    &&& e.spec_book() == anchor.spec_book() && e.spec_chapter() == anchor.spec_chapter()
}

/// A later selection's compact USFM text names the selection itself: unless
/// every endpoint lies in the anchor's chapter it is the selection's full
/// identifier, which reads back as the selection; inside the anchor's chapter
/// it is the verse numbers alone, which read back, with the anchor's book and
/// chapter, as the selection's verses.
pub proof fn lemma_compact_usfm_reads_back(selection: Reference, anchor: VerseRef)
    requires
        valid_reference(selection),
    ensures
        !in_anchor_chapter(selection, anchor) ==> compact_usfm(selection, anchor) == usfm_reference(
            selection,
        ) && spec_reference_from_usfm(compact_usfm(selection, anchor)) == Ok::<
            Reference,
            IdentifierFault,
        >(selection),
        in_anchor_chapter(selection, anchor) ==> match selection {
            Reference::Verse(v) => compact_usfm(selection, anchor) == decimal(v.spec_verse() as nat)
                && digits_value(compact_usfm(selection, anchor)) == v.spec_verse(),
            Reference::Range(r) => compact_usfm(selection, anchor) == decimal(
                r.spec_start().spec_verse() as nat,
            ) + "-"@ + decimal(r.spec_end().spec_verse() as nat) && digits_value(
                decimal(r.spec_start().spec_verse() as nat),
            ) == r.spec_start().spec_verse() && digits_value(
                decimal(r.spec_end().spec_verse() as nat),
            ) == r.spec_end().spec_verse(),
        },
{
    lemma_usfm_round_trip(selection);
    match selection {
        Reference::Verse(v) => {
            lemma_decimal(v.spec_verse() as nat);
        },
        Reference::Range(r) => {
            lemma_decimal(r.spec_start().spec_verse() as nat);
            lemma_decimal(r.spec_end().spec_verse() as nat);
        },
    }
}

} // verus!
