//! Checked verse, range, and reference value types.
use vstd::prelude::*;

use crate::book::{book_index, spec_full_name, Book};
use vstd::std_specs::convert::FromSpecImpl;

use crate::text::{decimal, extend_str, push_decimal, string_of};

verus! {

/// Broad upper limit for chapter coordinates.
pub const MAX_CHAPTER_NUMBER: u16 = 999;

/// Broad upper limit for verse coordinates.
pub const MAX_VERSE_NUMBER: u16 = 999;

/// Whether a chapter and a verse are both within `1..=999`.
pub open spec fn valid_coordinates(chapter: u16, verse: u16) -> bool {
    1 <= chapter <= MAX_CHAPTER_NUMBER && 1 <= verse <= MAX_VERSE_NUMBER
}

/// Identifies one coordinate in a verse reference.
#[derive(Clone, Copy, Debug, PartialEq, Eq, Structural, Hash)]
pub enum Coordinate {
    /// Chapter coordinate.
    Chapter,
    /// Verse coordinate.
    Verse,
}

/// The lowercase name of a coordinate.
pub open spec fn coordinate_name(c: Coordinate) -> Seq<char> {
    match c {
        Coordinate::Chapter => "chapter"@,
        Coordinate::Verse => "verse"@,
    }
}

impl Coordinate {
    /// The lowercase coordinate name.
    pub fn name(self) -> (r: &'static str)
        ensures
            r@ == coordinate_name(self),
    {
        match self {
            Coordinate::Chapter => "chapter",
            Coordinate::Verse => "verse",
        }
    }

    /// The lowercase coordinate name as an owned string.
    pub fn to_string(self) -> (s: String)
        ensures
            s@ == coordinate_name(self),
    {
        self.name().to_owned()
    }
}

/// Error returned when constructing a verse with an invalid coordinate.
#[derive(Clone, Copy, Debug, PartialEq, Eq, Structural, Hash)]
pub struct CoordinateError {
    coordinate: Coordinate,
    value: u16,
    maximum: u16,
}

/// The error `VerseRef::new` reports for the given coordinates: the chapter
/// is checked before the verse.
pub closed spec fn coordinate_error_for(chapter: u16, verse: u16) -> CoordinateError {
    if !(1 <= chapter <= MAX_CHAPTER_NUMBER) {
        CoordinateError { coordinate: Coordinate::Chapter, value: chapter, maximum: MAX_CHAPTER_NUMBER }
    } else {
        CoordinateError { coordinate: Coordinate::Verse, value: verse, maximum: MAX_VERSE_NUMBER }
    }
}

impl CoordinateError {
    /// Which coordinate failed validation.
    pub closed spec fn spec_coordinate(self) -> Coordinate {
        self.coordinate
    }

    /// The rejected value.
    pub closed spec fn spec_value(self) -> u16 {
        self.value
    }

    /// The inclusive sanity limit.
    pub closed spec fn spec_maximum(self) -> u16 {
        self.maximum
    }

    /// Return which coordinate failed validation.
    pub fn coordinate(self) -> (r: Coordinate)
        ensures
            r == self.spec_coordinate(),
    {
        self.coordinate
    }

    /// Return the rejected value.
    pub fn value(self) -> (r: u16)
        ensures
            r == self.spec_value(),
    {
        self.value
    }

    /// Return the inclusive sanity limit.
    pub fn maximum(self) -> (r: u16)
        ensures
            r == self.spec_maximum(),
    {
        self.maximum
    }

    /// `{coordinate} must be between 1 and {maximum} (got {value})`.
    pub fn to_string(self) -> (s: String)
        ensures
            s@ == coordinate_name(self.spec_coordinate()) + " must be between 1 and "@ + decimal(
                self.spec_maximum() as nat,
            ) + " (got "@ + decimal(self.spec_value() as nat) + ")"@,
    {
        let mut v: Vec<char> = Vec::new();
        extend_str(&mut v, self.coordinate.name());
        extend_str(&mut v, " must be between 1 and ");
        push_decimal(&mut v, self.maximum as u32);
        extend_str(&mut v, " (got ");
        push_decimal(&mut v, self.value as u32);
        extend_str(&mut v, ")");
        string_of(v.as_slice())
    }
}

/// The errors `coordinate_error_for` builds carry the rejected coordinate.
pub proof fn lemma_coordinate_error_for(chapter: u16, verse: u16)
    ensures
        !(1 <= chapter <= MAX_CHAPTER_NUMBER) ==> {
            &&& coordinate_error_for(chapter, verse).spec_coordinate() == Coordinate::Chapter
            &&& coordinate_error_for(chapter, verse).spec_value() == chapter
            &&& coordinate_error_for(chapter, verse).spec_maximum() == MAX_CHAPTER_NUMBER
        },
        (1 <= chapter <= MAX_CHAPTER_NUMBER) ==> {
            &&& coordinate_error_for(chapter, verse).spec_coordinate() == Coordinate::Verse
            &&& coordinate_error_for(chapter, verse).spec_value() == verse
            &&& coordinate_error_for(chapter, verse).spec_maximum() == MAX_VERSE_NUMBER
        },
{
}

/// A single Bible verse coordinate.
#[derive(Clone, Copy, Debug, PartialEq, Eq, Structural, Hash, PartialOrd, Ord)]
pub struct VerseRef {
    book: Book,
    chapter: u16,
    verse: u16,
}

/// The verse with the given coordinates.
pub closed spec fn verse_of(book: Book, chapter: u16, verse: u16) -> VerseRef {
    VerseRef { book, chapter, verse }
}

/// Whether `a` comes strictly before `b` in book, chapter, verse order.
pub open spec fn verse_before(a: VerseRef, b: VerseRef) -> bool {
    ||| book_index(a.spec_book()) < book_index(b.spec_book())
    ||| (book_index(a.spec_book()) == book_index(b.spec_book()) && (a.spec_chapter()
        < b.spec_chapter() || (a.spec_chapter() == b.spec_chapter() && a.spec_verse()
        < b.spec_verse())))
}

/// `{book} {chapter}:{verse}` with the English book name.
pub open spec fn verse_text(v: VerseRef) -> Seq<char> {
    spec_full_name(v.spec_book()) + " "@ + decimal(v.spec_chapter() as nat) + ":"@ + decimal(
        v.spec_verse() as nat,
    )
}

impl VerseRef {
    /// Coordinates stay within `1..=999`.
    #[verifier::type_invariant]
    spec fn well_formed(self) -> bool {
        valid_coordinates(self.chapter, self.verse)
    }

    /// The book.
    pub closed spec fn spec_book(self) -> Book {
        self.book
    }

    /// The one-based chapter.
    pub closed spec fn spec_chapter(self) -> u16 {
        self.chapter
    }

    /// The one-based verse.
    pub closed spec fn spec_verse(self) -> u16 {
        self.verse
    }

    /// Construct a validated verse coordinate.
    pub fn new(book: Book, chapter: u16, verse: u16) -> (r: Result<VerseRef, CoordinateError>)
        ensures
            r == (if valid_coordinates(chapter, verse) {
                Ok(verse_of(book, chapter, verse))
            } else {
                Err(coordinate_error_for(chapter, verse))
            }),
    {
        if chapter == 0 || chapter > MAX_CHAPTER_NUMBER {
            return Err(
                CoordinateError {
                    coordinate: Coordinate::Chapter,
                    value: chapter,
                    maximum: MAX_CHAPTER_NUMBER,
                },
            );
        }
        if verse == 0 || verse > MAX_VERSE_NUMBER {
            return Err(
                CoordinateError {
                    coordinate: Coordinate::Verse,
                    value: verse,
                    maximum: MAX_VERSE_NUMBER,
                },
            );
        }
        Ok(VerseRef { book, chapter, verse })
    }

    /// Construct a verse from coordinates already known to be valid.
    pub(crate) fn checked(book: Book, chapter: u16, verse: u16) -> (r: VerseRef)
        requires
            valid_coordinates(chapter, verse),
        ensures
            r == verse_of(book, chapter, verse),
    {
        VerseRef { book, chapter, verse }
    }

    /// Return the book.
    pub fn book(self) -> (r: Book)
        ensures
            r == self.spec_book(),
    {
        self.book
    }

    /// Return the one-based chapter.
    pub fn chapter(self) -> (r: u16)
        ensures
            r == self.spec_chapter(),
            1 <= r <= MAX_CHAPTER_NUMBER,
    {
        proof {
            use_type_invariant(self);
        }
        self.chapter
    }

    /// Return the one-based verse.
    pub fn verse(self) -> (r: u16)
        ensures
            r == self.spec_verse(),
            1 <= r <= MAX_VERSE_NUMBER,
    {
        proof {
            use_type_invariant(self);
        }
        self.verse
    }

    /// Return a copy with a different book.
    pub fn with_book(self, book: Book) -> (r: VerseRef)
        ensures
            r == verse_of(book, self.spec_chapter(), self.spec_verse()),
    {
        proof {
            use_type_invariant(self);
        }
        VerseRef { book, ..self }
    }

    /// Return a validated copy with a different chapter.
    pub fn with_chapter(self, chapter: u16) -> (r: Result<VerseRef, CoordinateError>)
        ensures
            r == (if valid_coordinates(chapter, self.spec_verse()) {
                Ok(verse_of(self.spec_book(), chapter, self.spec_verse()))
            } else {
                Err(coordinate_error_for(chapter, self.spec_verse()))
            }),
    {
        VerseRef::new(self.book, chapter, self.verse)
    }

    /// Return a validated copy with a different verse.
    pub fn with_verse(self, verse: u16) -> (r: Result<VerseRef, CoordinateError>)
        ensures
            r == (if valid_coordinates(self.spec_chapter(), verse) {
                Ok(verse_of(self.spec_book(), self.spec_chapter(), verse))
            } else {
                Err(coordinate_error_for(self.spec_chapter(), verse))
            }),
    {
        VerseRef::new(self.book, self.chapter, verse)
    }

    /// Append `{book} {chapter}:{verse}` to `out`.
    pub fn write_to(self, out: &mut Vec<char>)
        ensures
            final(out)@ == old(out)@ + verse_text(self),
    {
        extend_str(out, self.book.full_name());
        extend_str(out, " ");
        push_decimal(out, self.chapter as u32);
        extend_str(out, ":");
        push_decimal(out, self.verse as u32);
    }

    /// `{book} {chapter}:{verse}` with the English book name.
    pub fn to_string(self) -> (s: String)
        ensures
            s@ == verse_text(self),
    {
        let mut v: Vec<char> = Vec::new();
        self.write_to(&mut v);
        string_of(v.as_slice())
    }
}

/// Coordinates and verses correspond one to one, and every verse has valid
/// coordinates.
pub proof fn lemma_verse_of(book: Book, chapter: u16, verse: u16)
    ensures
        verse_of(book, chapter, verse).spec_book() == book,
        verse_of(book, chapter, verse).spec_chapter() == chapter,
        verse_of(book, chapter, verse).spec_verse() == verse,
{
}

/// A verse is determined by its book, chapter and verse.
pub proof fn lemma_verse_eq(a: VerseRef, b: VerseRef)
    ensures
        (a.spec_book() == b.spec_book() && a.spec_chapter() == b.spec_chapter() && a.spec_verse()
            == b.spec_verse()) <==> a == b,
        a == verse_of(a.spec_book(), a.spec_chapter(), a.spec_verse()),
{
}

/// Error returned when an inclusive range does not have ascending endpoints.
#[derive(Clone, Copy, Debug, PartialEq, Eq, Structural, Hash)]
pub struct RangeOrderError {
    start: VerseRef,
    end: VerseRef,
}

/// The order error for two proposed endpoints.
pub closed spec fn order_error_of(start: VerseRef, end: VerseRef) -> RangeOrderError {
    RangeOrderError { start, end }
}

impl RangeOrderError {
    /// The proposed inclusive start.
    pub closed spec fn spec_start(self) -> VerseRef {
        self.start
    }

    /// The proposed inclusive end.
    pub closed spec fn spec_end(self) -> VerseRef {
        self.end
    }

    /// Return the proposed inclusive start.
    pub fn start(self) -> (r: VerseRef)
        ensures
            r == self.spec_start(),
    {
        self.start
    }

    /// Return the proposed inclusive end.
    pub fn end(self) -> (r: VerseRef)
        ensures
            r == self.spec_end(),
    {
        self.end
    }

    /// `range end {end} must come after start {start}`.
    pub fn to_string(self) -> (s: String)
        ensures
            s@ == "range end "@ + verse_text(self.spec_end()) + " must come after start "@
                + verse_text(self.spec_start()),
    {
        let mut v: Vec<char> = Vec::new();
        extend_str(&mut v, "range end ");
        self.end.write_to(&mut v);
        extend_str(&mut v, " must come after start ");
        self.start.write_to(&mut v);
        string_of(v.as_slice())
    }
}

/// Whether `a` comes strictly before `b`.
pub fn is_before(a: VerseRef, b: VerseRef) -> (r: bool)
    ensures
        r == verse_before(a, b),
{
    let ai = a.book().index();
    let bi = b.book().index();
    ai < bi || (ai == bi && (a.chapter() < b.chapter() || (a.chapter() == b.chapter()
        && a.verse() < b.verse())))
}

/// A strictly ascending, inclusive range of Bible verses.
#[derive(Clone, Copy, Debug, PartialEq, Eq, Structural, Hash)]
pub struct VerseRange {
    start: VerseRef,
    end: VerseRef,
}

/// The range with the given endpoints.
pub closed spec fn range_of(start: VerseRef, end: VerseRef) -> VerseRange {
    VerseRange { start, end }
}

/// The English display text of a range: the shared book (and chapter) is
/// written once.
pub open spec fn range_text(r: VerseRange) -> Seq<char> {
    let s = r.spec_start();
    let e = r.spec_end();
    if s.spec_book() == e.spec_book() {
        if s.spec_chapter() == e.spec_chapter() {
            verse_text(s) + "-"@ + decimal(e.spec_verse() as nat)
        } else {
            verse_text(s) + "-"@ + decimal(e.spec_chapter() as nat) + ":"@ + decimal(
                e.spec_verse() as nat,
            )
        }
    } else {
        verse_text(s) + "-"@ + verse_text(e)
    }
}

impl VerseRange {
    /// The start comes strictly before the end.
    #[verifier::type_invariant]
    spec fn well_formed(self) -> bool {
        verse_before(self.start, self.end)
    }

    /// The inclusive start.
    pub closed spec fn spec_start(self) -> VerseRef {
        self.start
    }

    /// The inclusive end.
    pub closed spec fn spec_end(self) -> VerseRef {
        self.end
    }

    /// Construct a validated inclusive range.
    pub fn new(start: VerseRef, end: VerseRef) -> (r: Result<VerseRange, RangeOrderError>)
        ensures
            r == (if verse_before(start, end) {
                Ok(range_of(start, end))
            } else {
                Err(order_error_of(start, end))
            }),
            r matches Ok(v) ==> v.spec_start() == start && v.spec_end() == end,
            r matches Err(e) ==> e.spec_start() == start && e.spec_end() == end,
    {
        if !is_before(start, end) {
            return Err(RangeOrderError { start, end });
        }
        Ok(VerseRange { start, end })
    }

    /// Return the inclusive start.
    pub fn start(self) -> (r: VerseRef)
        ensures
            r == self.spec_start(),
            verse_before(r, self.spec_end()),
    {
        proof {
            use_type_invariant(self);
        }
        self.start
    }

    /// Return the inclusive end.
    pub fn end(self) -> (r: VerseRef)
        ensures
            r == self.spec_end(),
            verse_before(self.spec_start(), r),
    {
        proof {
            use_type_invariant(self);
        }
        self.end
    }

    /// Return a validated copy with a different start.
    pub fn with_start(self, start: VerseRef) -> (r: Result<VerseRange, RangeOrderError>)
        ensures
            r == (if verse_before(start, self.spec_end()) {
                Ok(range_of(start, self.spec_end()))
            } else {
                Err(order_error_of(start, self.spec_end()))
            }),
    {
        VerseRange::new(start, self.end)
    }

    /// Return a validated copy with a different end.
    pub fn with_end(self, end: VerseRef) -> (r: Result<VerseRange, RangeOrderError>)
        ensures
            r == (if verse_before(self.spec_start(), end) {
                Ok(range_of(self.spec_start(), end))
            } else {
                Err(order_error_of(self.spec_start(), end))
            }),
    {
        VerseRange::new(self.start, end)
    }

    /// Append the English display text to `out`.
    pub fn write_to(self, out: &mut Vec<char>)
        ensures
            final(out)@ == old(out)@ + range_text(self),
    {
        let start = self.start;
        let end = self.end;
        if start.book == end.book {
            start.write_to(out);
            extend_str(out, "-");
            if start.chapter == end.chapter {
                push_decimal(out, end.verse as u32);
            } else {
                push_decimal(out, end.chapter as u32);
                extend_str(out, ":");
                push_decimal(out, end.verse as u32);
            }
        } else {
            start.write_to(out);
            extend_str(out, "-");
            end.write_to(out);
        }
    }

    /// The English display text.
    pub fn to_string(self) -> (s: String)
        ensures
            s@ == range_text(self),
    {
        let mut v: Vec<char> = Vec::new();
        self.write_to(&mut v);
        string_of(v.as_slice())
    }
}

/// Endpoints and ranges correspond one to one.
pub proof fn lemma_range_of(start: VerseRef, end: VerseRef)
    ensures
        range_of(start, end).spec_start() == start,
        range_of(start, end).spec_end() == end,
{
}

/// A range is determined by its endpoints.
pub proof fn lemma_range_eq(a: VerseRange, b: VerseRange)
    ensures
        (a.spec_start() == b.spec_start() && a.spec_end() == b.spec_end()) <==> a == b,
{
}

/// A single verse or a contiguous inclusive verse range.
#[derive(Clone, Copy, Debug, PartialEq, Eq, Structural, Hash)]
pub enum Reference {
    /// A single verse.
    Verse(VerseRef),
    /// A contiguous inclusive range.
    Range(VerseRange),
}

/// The first verse of a reference.
pub open spec fn reference_start(r: Reference) -> VerseRef {
    match r {
        Reference::Verse(v) => v,
        Reference::Range(range) => range.spec_start(),
    }
}

/// The last verse of a reference.
pub open spec fn reference_end(r: Reference) -> VerseRef {
    match r {
        Reference::Verse(v) => v,
        Reference::Range(range) => range.spec_end(),
    }
}

/// The English display text of a reference.
pub open spec fn reference_text(r: Reference) -> Seq<char> {
    match r {
        Reference::Verse(v) => verse_text(v),
        Reference::Range(range) => range_text(range),
    }
}

impl Reference {
    /// Return the first verse represented by this value.
    pub fn start(self) -> (r: VerseRef)
        ensures
            r == reference_start(self),
    {
        match self {
            Reference::Verse(verse) => verse,
            Reference::Range(range) => range.start(),
        }
    }

    /// Return the last verse represented by this value.
    pub fn end(self) -> (r: VerseRef)
        ensures
            r == reference_end(self),
    {
        match self {
            Reference::Verse(verse) => verse,
            Reference::Range(range) => range.end(),
        }
    }

    /// Return the inner verse when this is a single-verse reference.
    pub fn as_verse(self) -> (r: Option<VerseRef>)
        ensures
            r == (match self {
                Reference::Verse(v) => Some(v),
                Reference::Range(_) => None::<VerseRef>,
            }),
    {
        match self {
            Reference::Verse(verse) => Some(verse),
            Reference::Range(_) => None,
        }
    }

    /// Return the inner range when this is a range reference.
    pub fn as_range(self) -> (r: Option<VerseRange>)
        ensures
            r == (match self {
                Reference::Verse(_) => None::<VerseRange>,
                Reference::Range(range) => Some(range),
            }),
    {
        match self {
            Reference::Verse(_) => None,
            Reference::Range(range) => Some(range),
        }
    }

    /// Append the English display text to `out`.
    pub fn write_to(self, out: &mut Vec<char>)
        ensures
            final(out)@ == old(out)@ + reference_text(self),
    {
        match self {
            Reference::Verse(verse) => verse.write_to(out),
            Reference::Range(range) => range.write_to(out),
        }
    }

    /// The English display text.
    pub fn to_string(self) -> (s: String)
        ensures
            s@ == reference_text(self),
    {
        let mut v: Vec<char> = Vec::new();
        self.write_to(&mut v);
        string_of(v.as_slice())
    }
}

impl From<VerseRef> for Reference {
    fn from(value: VerseRef) -> Reference {
        Reference::Verse(value)
    }
}

impl FromSpecImpl<VerseRef> for Reference {
    open spec fn obeys_from_spec() -> bool {
        true
    }

    open spec fn from_spec(v: VerseRef) -> Reference {
        Reference::Verse(v)
    }
}

impl From<VerseRange> for Reference {
    fn from(value: VerseRange) -> Reference {
        Reference::Range(value)
    }
}

impl FromSpecImpl<VerseRange> for Reference {
    open spec fn obeys_from_spec() -> bool {
        true
    }

    open spec fn from_spec(v: VerseRange) -> Reference {
        Reference::Range(v)
    }
}

} // verus!
