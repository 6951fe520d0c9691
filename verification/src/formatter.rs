//! Localized, configurable formatting for references and passages.
use vstd::prelude::*;

use crate::book::{spec_abbreviation, spec_full_name, Book};
use crate::language::Language;
use crate::passage::{
    compact_text, lemma_passage_models, passage_text, sequence_text, tail_text, BookPassage, ChapterPassage, Passage, PassageModel, PassageSequence,
    VersePassage,
};
use crate::reference::{reference_start, reference_text, Reference, VerseRange, VerseRef};
use crate::text::{decimal, extend_str, push_decimal, string_of};

verus! {

/// The long display name of a book in a language. The crate bundles the
/// English name pack only, and every other language falls back to it.
pub open spec fn spec_long_name(book: Book, language: Language) -> Seq<char> {
    spec_full_name(book)
}

/// The short display name of a book in a language. The crate bundles the
/// English name pack only, and every other language falls back to the
/// English compact abbreviation.
pub open spec fn spec_short_name(book: Book, language: Language) -> Seq<char> {
    spec_abbreviation(book)
}

/// The long display name of a book in a language.
pub fn long_name(book: Book, language: Language) -> (r: &'static str)
    ensures
        r@ == spec_long_name(book, language),
{
    book.full_name()
}

/// The short display name of a book in a language.
pub fn short_name(book: Book, language: Language) -> (r: &'static str)
    ensures
        r@ == spec_short_name(book, language),
{
    book.abbreviation()
}

/// Controls whether localized book names are written in long or short form.
#[derive(Clone, Copy, Debug, PartialEq, Eq, Structural, Hash)]
pub enum BookNameStyle {
    /// Use a localized full name.
    Long,
    /// Use the shortest localized abbreviation.
    Short,
}

impl Default for BookNameStyle {
    fn default() -> (r: BookNameStyle)
        ensures
            r == BookNameStyle::Long,
    {
        BookNameStyle::Long
    }
}

/// Immutable options for localized reference and passage formatting.
///
/// The default formatter uses English long book names and compact ranges.
#[derive(Clone, Copy, Debug, PartialEq, Eq, Structural, Hash)]
pub struct ReferenceFormatter {
    language: Language,
    book_name_style: BookNameStyle,
    compact_ranges: bool,
}

/// The display name of a book under a formatter's options.
pub open spec fn name_of(f: ReferenceFormatter, book: Book) -> Seq<char> {
    match f.spec_style() {
        BookNameStyle::Long => spec_long_name(book, f.spec_language()),
        BookNameStyle::Short => spec_short_name(book, f.spec_language()),
    }
}

/// `NAME CHAPTER:VERSE`.
pub open spec fn verse_display(f: ReferenceFormatter, v: VerseRef) -> Seq<char> {
    name_of(f, v.spec_book()) + " "@ + decimal(v.spec_chapter() as nat) + ":"@ + decimal(
        v.spec_verse() as nat,
    )
}

/// A range: compacted within one book when the formatter compacts ranges,
/// otherwise two full endpoints.
pub open spec fn range_display(f: ReferenceFormatter, r: VerseRange) -> Seq<char> {
    let s = r.spec_start();
    let e = r.spec_end();
    if !f.spec_compact() || s.spec_book() != e.spec_book() {
        verse_display(f, s) + "-"@ + verse_display(f, e)
    } else if s.spec_chapter() == e.spec_chapter() {
        verse_display(f, s) + "-"@ + decimal(e.spec_verse() as nat)
    } else {
        verse_display(f, s) + "-"@ + decimal(e.spec_chapter() as nat) + ":"@ + decimal(
            e.spec_verse() as nat,
        )
    }
}

/// A verse or a range.
pub open spec fn reference_display(f: ReferenceFormatter, r: Reference) -> Seq<char> {
    match r {
        Reference::Verse(v) => verse_display(f, v),
        Reference::Range(range) => range_display(f, range),
    }
}

/// `NAME START` or `NAME START-END`.
pub open spec fn chapters_display(f: ReferenceFormatter, book: Book, start: u16, end: Option<u16>) -> Seq<char> {
    name_of(f, book) + " "@ + decimal(start as nat) + match end {
        Some(e) => "-"@ + decimal(e as nat),
        None => Seq::<char>::empty(),
    }
}

/// `CHAPTER:VERSE`, or the bare verse within the given chapter.
pub open spec fn coordinate_display(v: VerseRef, chapter: u16) -> Seq<char> {
    if v.spec_chapter() == chapter {
        decimal(v.spec_verse() as nat)
    } else {
        decimal(v.spec_chapter() as nat) + ":"@ + decimal(v.spec_verse() as nat)
    }
}

/// A later selection written relative to the first selection's start.
pub open spec fn relative_display(f: ReferenceFormatter, r: Reference, anchor: VerseRef) -> Seq<char> {
    match r {
        Reference::Verse(v) => if v.spec_book() != anchor.spec_book() {
            verse_display(f, v)
        } else {
            coordinate_display(v, anchor.spec_chapter())
        },
        Reference::Range(range) => {
            let s = range.spec_start();
            let e = range.spec_end();
            if s.spec_book() != anchor.spec_book() || e.spec_book() != anchor.spec_book() {
                range_display(f, range)
            } else {
                coordinate_display(s, anchor.spec_chapter()) + "-"@ + coordinate_display(
                    e,
                    s.spec_chapter(),
                )
            }
        },
    }
}

/// `,` and each selection from the second to the `k`-th, relative or full.
pub open spec fn selections_tail(f: ReferenceFormatter, rs: Seq<Reference>, k: int) -> Seq<char>
    decreases k,
{
    if k <= 1 {
        seq![]
    } else {
        selections_tail(f, rs, k - 1) + ","@ + if f.spec_compact() {
            relative_display(f, rs[k - 1], reference_start(rs[0]))
        } else {
            reference_display(f, rs[k - 1])
        }
    }
}

/// Verse selections separated by commas.
pub open spec fn selections_display(f: ReferenceFormatter, rs: Seq<Reference>) -> Seq<char> {
    if rs.len() == 0 {
        seq![]
    } else {
        reference_display(f, rs[0]) + selections_tail(f, rs, rs.len() as int)
    }
}

/// A whole passage.
pub open spec fn passage_display(f: ReferenceFormatter, m: PassageModel) -> Seq<char>
    decreases m,
{
    match m {
        PassageModel::Book(b) => name_of(f, b),
        PassageModel::Chapter(b, start, end) => chapters_display(f, b, start, end),
        PassageModel::Verses(rs) => selections_display(f, rs),
        PassageModel::Sequence(ps) => sequence_display(f, ps),
    }
}

/// Passages joined by `; `.
pub open spec fn sequence_display(f: ReferenceFormatter, ps: Seq<PassageModel>) -> Seq<char>
    decreases ps,
{
    if ps.len() == 0 {
        seq![]
    } else if ps.len() == 1 {
        passage_display(f, ps[0])
    } else {
        sequence_display(f, ps.drop_last()) + "; "@ + passage_display(f, ps.last())
    }
}

impl ReferenceFormatter {
    /// The output language.
    pub closed spec fn spec_language(self) -> Language {
        self.language
    }

    /// The book-name style.
    pub closed spec fn spec_style(self) -> BookNameStyle {
        self.book_name_style
    }

    /// Whether repeated components are omitted.
    pub closed spec fn spec_compact(self) -> bool {
        self.compact_ranges
    }

    /// Construct a formatter with the package defaults: English, long names,
    /// compact ranges.
    pub fn new() -> (r: ReferenceFormatter)
        ensures
            r.spec_language() == Language::English,
            r.spec_style() == BookNameStyle::Long,
            r.spec_compact(),
    {
        ReferenceFormatter {
            language: Language::English,
            book_name_style: BookNameStyle::Long,
            compact_ranges: true,
        }
    }

    /// Construct a formatter from all configuration values.
    pub fn with_options(language: Language, book_name_style: BookNameStyle, compact_ranges: bool) -> (r:
        ReferenceFormatter)
        ensures
            r.spec_language() == language,
            r.spec_style() == book_name_style,
            r.spec_compact() == compact_ranges,
    {
        ReferenceFormatter { language, book_name_style, compact_ranges }
    }

    /// Construct a formatter for one language, retaining the other defaults.
    pub fn for_language(language: Language) -> (r: ReferenceFormatter)
        ensures
            r == ReferenceFormatter::spec_for_language(language),
            r.spec_language() == language,
            r.spec_style() == BookNameStyle::Long,
            r.spec_compact(),
    {
        ReferenceFormatter::new().with_language(language)
    }

    /// Return the requested output language.
    pub fn language(self) -> (r: Language)
        ensures
            r == self.spec_language(),
    {
        self.language
    }

    /// Return the configured book-name style.
    pub fn book_name_style(self) -> (r: BookNameStyle)
        ensures
            r == self.spec_style(),
    {
        self.book_name_style
    }

    /// Return whether repeated components are omitted from ranges and lists.
    pub fn compact_ranges(self) -> (r: bool)
        ensures
            r == self.spec_compact(),
    {
        self.compact_ranges
    }

    /// Return a copy configured for `language`.
    pub fn with_language(self, language: Language) -> (r: ReferenceFormatter)
        ensures
            r.spec_language() == language,
            r.spec_style() == self.spec_style(),
            r.spec_compact() == self.spec_compact(),
    {
        ReferenceFormatter { language, ..self }
    }

    /// Return a copy configured to use `book_name_style`.
    pub fn with_book_name_style(self, book_name_style: BookNameStyle) -> (r: ReferenceFormatter)
        ensures
            r.spec_language() == self.spec_language(),
            r.spec_style() == book_name_style,
            r.spec_compact() == self.spec_compact(),
    {
        ReferenceFormatter { book_name_style, ..self }
    }

    /// Return a copy configured to compact or expand repeated range components.
    pub fn with_compact_ranges(self, compact_ranges: bool) -> (r: ReferenceFormatter)
        ensures
            r.spec_language() == self.spec_language(),
            r.spec_style() == self.spec_style(),
            r.spec_compact() == compact_ranges,
    {
        ReferenceFormatter { compact_ranges, ..self }
    }

    /// Return the preferred localized display name for `book`.
    pub fn book_name(self, book: Book) -> (r: &'static str)
        ensures
            r@ == name_of(self, book),
    {
        match self.book_name_style {
            BookNameStyle::Long => long_name(book, self.language),
            BookNameStyle::Short => short_name(book, self.language),
        }
    }

    /// The same as [`Self::book_name`].
    pub fn format_book_name(self, book: Book) -> (r: &'static str)
        ensures
            r@ == name_of(self, book),
    {
        self.book_name(book)
    }

    /// Append `NAME CHAPTER:VERSE`.
    fn write_verse(self, v: VerseRef, out: &mut Vec<char>)
        ensures
            final(out)@ == old(out)@ + verse_display(self, v),
    {
        extend_str(out, self.book_name(v.book()));
        extend_str(out, " ");
        push_decimal(out, v.chapter() as u32);
        extend_str(out, ":");
        push_decimal(out, v.verse() as u32);
    }

    /// Append a range.
    fn write_range(self, r: VerseRange, out: &mut Vec<char>)
        ensures
            final(out)@ == old(out)@ + range_display(self, r),
    {
        let s = r.start();
        let e = r.end();
        if !self.compact_ranges || s.book() != e.book() {
            self.write_verse(s, out);
            extend_str(out, "-");
            self.write_verse(e, out);
            return;
        }
        self.write_verse(s, out);
        extend_str(out, "-");
        if s.chapter() == e.chapter() {
            push_decimal(out, e.verse() as u32);
        } else {
            push_decimal(out, e.chapter() as u32);
            extend_str(out, ":");
            push_decimal(out, e.verse() as u32);
        }
    }

    /// Append a verse or a range.
    fn write_reference(self, r: Reference, out: &mut Vec<char>)
        ensures
            final(out)@ == old(out)@ + reference_display(self, r),
    {
        match r {
            Reference::Verse(v) => self.write_verse(v, out),
            Reference::Range(range) => self.write_range(range, out),
        }
    }

    /// Append `NAME START` or `NAME START-END`.
    fn write_chapters(self, p: ChapterPassage, out: &mut Vec<char>)
        ensures
            final(out)@ == old(out)@ + chapters_display(self, p.spec_book(), p.spec_start(), p.spec_end()),
    {
        extend_str(out, self.book_name(p.book()));
        extend_str(out, " ");
        push_decimal(out, p.start_chapter() as u32);
        if let Some(end) = p.end_chapter() {
            extend_str(out, "-");
            push_decimal(out, end as u32);
        }
    }

    /// Append `CHAPTER:VERSE`, or the bare verse within `chapter`.
    fn write_coordinate(v: VerseRef, chapter: u16, out: &mut Vec<char>)
        ensures
            final(out)@ == old(out)@ + coordinate_display(v, chapter),
    {
        if v.chapter() == chapter {
            push_decimal(out, v.verse() as u32);
        } else {
            push_decimal(out, v.chapter() as u32);
            extend_str(out, ":");
            push_decimal(out, v.verse() as u32);
        }
    }

    /// Append a later selection relative to `anchor`.
    fn write_relative(self, r: Reference, anchor: VerseRef, out: &mut Vec<char>)
        ensures
            final(out)@ == old(out)@ + relative_display(self, r, anchor),
    {
        match r {
            Reference::Verse(v) => {
                if v.book() != anchor.book() {
                    self.write_verse(v, out);
                } else {
                    ReferenceFormatter::write_coordinate(v, anchor.chapter(), out);
                }
            },
            Reference::Range(range) => {
                let s = range.start();
                let e = range.end();
                if s.book() != anchor.book() || e.book() != anchor.book() {
                    self.write_range(range, out);
                } else {
                    ReferenceFormatter::write_coordinate(s, anchor.chapter(), out);
                    extend_str(out, "-");
                    ReferenceFormatter::write_coordinate(e, s.chapter(), out);
                }
            },
        }
    }

    /// Append verse selections separated by commas.
    fn write_selections(self, rs: &[Reference], out: &mut Vec<char>)
        ensures
            final(out)@ == old(out)@ + selections_display(self, rs@),
    {
        if rs.len() == 0 {
            return;
        }
        let ghost base = out@;
        self.write_reference(rs[0], out);
        let anchor = rs[0].start();
        for i in 1..rs.len()
            invariant
                rs@.len() > 0,
                anchor == reference_start(rs@[0]),
                out@ == base + reference_display(self, rs@[0]) + selections_tail(self, rs@, i as int),
        {
            extend_str(out, ",");
            if self.compact_ranges {
                self.write_relative(rs[i], anchor, out);
            } else {
                self.write_reference(rs[i], out);
            }
        }
    }

    /// Append a whole passage.
    fn write_passage(self, p: &Passage, out: &mut Vec<char>)
        ensures
            final(out)@ == old(out)@ + passage_display(self, p@),
        decreases p@,
    {
        match p.as_book() {
            Some(b) => {
                extend_str(out, self.book_name(b.book()));
                return;
            },
            None => {},
        }
        match p.as_chapter() {
            Some(c) => {
                self.write_chapters(*c, out);
                return;
            },
            None => {},
        }
        match p.as_verses() {
            Some(v) => {
                self.write_selections(v.selections(), out);
                return;
            },
            None => {},
        }
        match p.as_sequence() {
            Some(s) => self.write_sequence(s, out),
            None => {},
        }
    }

    /// Append passages joined by `; `.
    fn write_sequence(self, s: &PassageSequence, out: &mut Vec<char>)
        ensures
            final(out)@ == old(out)@ + sequence_display(self, s@),
        decreases s@,
    {
        let ps = s.passages();
        let ghost base = out@;
        let ghost models = s@;
        proof {
            lemma_passage_models(ps@);
        }
        for i in 0..ps.len()
            invariant
                models == s@,
                models.len() == ps@.len(),
                forall|j: int| 0 <= j < ps@.len() ==> models[j] == (#[trigger] ps@[j])@,
                out@ == base + sequence_display(self, models.take(i as int)),
        {
            assert(models.take(i + 1).drop_last() == models.take(i as int));
            if i > 0 {
                extend_str(out, "; ");
            } else {
                assert(models.take(i as int).len() == 0);
            }
            assert(models.take(i + 1).last() == ps@[i as int]@);
            self.write_passage(&ps[i], out);
        }
        assert(models.take(models.len() as int) == models);
    }
}

impl Default for ReferenceFormatter {
    fn default() -> (r: ReferenceFormatter)
        ensures
            r.spec_language() == Language::English,
            r.spec_style() == BookNameStyle::Long,
            r.spec_compact(),
    {
        ReferenceFormatter::new()
    }
}

impl From<Language> for ReferenceFormatter {
    fn from(language: Language) -> ReferenceFormatter {
        ReferenceFormatter::for_language(language)
    }
}

impl vstd::std_specs::convert::FromSpecImpl<Language> for ReferenceFormatter {
    open spec fn obeys_from_spec() -> bool {
        true
    }

    open spec fn from_spec(language: Language) -> ReferenceFormatter {
        ReferenceFormatter::spec_for_language(language)
    }
}

impl ReferenceFormatter {
    /// The default formatter for one language.
    pub closed spec fn spec_for_language(language: Language) -> ReferenceFormatter {
        ReferenceFormatter { language, book_name_style: BookNameStyle::Long, compact_ranges: true }
    }

    /// Wrap a book in a formatting adapter.
    pub fn format_book(self, book: Book) -> (r: FormattedBook)
        ensures
            r.spec_text() == name_of(self, book),
    {
        FormattedBook { formatter: self, book }
    }

    /// Wrap a verse or verse range in a formatting adapter.
    pub fn format<R: Into<Reference>>(self, reference: R) -> (r: FormattedReference)
        ensures
            <R as vstd::std_specs::convert::IntoSpec<Reference>>::obeys_into_spec() ==> r.spec_text()
                == reference_display(
                self,
                <R as vstd::std_specs::convert::IntoSpec<Reference>>::into_spec(reference),
            ),
    {
        self.format_reference(reference)
    }

    /// Wrap a verse or verse range in a formatting adapter.
    pub fn format_reference<R: Into<Reference>>(self, reference: R) -> (r: FormattedReference)
        ensures
            <R as vstd::std_specs::convert::IntoSpec<Reference>>::obeys_into_spec() ==> r.spec_text()
                == reference_display(
                self,
                <R as vstd::std_specs::convert::IntoSpec<Reference>>::into_spec(reference),
            ),
    {
        FormattedReference { formatter: self, reference: reference.into() }
    }

    /// Wrap a whole passage expression in a formatting adapter.
    pub fn format_passage<'a>(self, passage: &'a Passage) -> (r: FormattedPassage<'a>)
        ensures
            r.spec_text() == passage_display(self, passage@),
    {
        FormattedPassage { formatter: self, passage }
    }

    /// Wrap a whole-book passage in a formatting adapter.
    pub fn format_book_passage(self, passage: BookPassage) -> (r: FormattedBookPassage)
        ensures
            r.spec_text() == name_of(self, passage.spec_book()),
    {
        FormattedBookPassage { formatter: self, passage }
    }

    /// Wrap a chapter passage in a formatting adapter.
    pub fn format_chapter_passage(self, passage: ChapterPassage) -> (r: FormattedChapterPassage)
        ensures
            r.spec_text() == chapters_display(
                self,
                passage.spec_book(),
                passage.spec_start(),
                passage.spec_end(),
            ),
    {
        FormattedChapterPassage { formatter: self, passage }
    }

    /// Wrap a verse-selection passage in a formatting adapter.
    pub fn format_verse_passage<'a>(self, passage: &'a VersePassage) -> (r: FormattedVersePassage<'a>)
        ensures
            r.spec_text() == selections_display(self, passage@),
    {
        FormattedVersePassage { formatter: self, passage }
    }

    /// Wrap a passage sequence in a formatting adapter.
    pub fn format_passage_sequence<'a>(self, passage: &'a PassageSequence) -> (r:
        FormattedPassageSequence<'a>)
        ensures
            r.spec_text() == sequence_display(self, passage@),
    {
        FormattedPassageSequence { formatter: self, passage }
    }
}

/// A formatted, localized book name.
#[derive(Clone, Copy, Debug, PartialEq, Eq, Structural)]
pub struct FormattedBook {
    formatter: ReferenceFormatter,
    book: Book,
}

impl FormattedBook {
    /// The text this adapter displays.
    pub closed spec fn spec_text(self) -> Seq<char> {
        name_of(self.formatter, self.book)
    }

    /// The displayed text.
    pub fn to_string(self) -> (s: String)
        ensures
            s@ == self.spec_text(),
    {
        self.formatter.book_name(self.book).to_owned()
    }
}

/// A formatted, localized verse or verse range.
#[derive(Clone, Copy, Debug, PartialEq, Eq, Structural)]
pub struct FormattedReference {
    formatter: ReferenceFormatter,
    reference: Reference,
}

impl FormattedReference {
    /// The text this adapter displays.
    pub closed spec fn spec_text(self) -> Seq<char> {
        reference_display(self.formatter, self.reference)
    }

    /// The displayed text.
    pub fn to_string(self) -> (s: String)
        ensures
            s@ == self.spec_text(),
    {
        let mut v: Vec<char> = Vec::new();
        self.formatter.write_reference(self.reference, &mut v);
        string_of(v.as_slice())
    }
}

/// A formatted, localized whole passage expression.
#[derive(Clone, Copy, Debug)]
pub struct FormattedPassage<'a> {
    formatter: ReferenceFormatter,
    passage: &'a Passage,
}

impl<'a> FormattedPassage<'a> {
    /// The text this adapter displays.
    pub closed spec fn spec_text(self) -> Seq<char> {
        passage_display(self.formatter, self.passage@)
    }

    /// The displayed text.
    pub fn to_string(&self) -> (s: String)
        ensures
            s@ == self.spec_text(),
    {
        let mut v: Vec<char> = Vec::new();
        self.formatter.write_passage(self.passage, &mut v);
        string_of(v.as_slice())
    }
}

/// A formatted, localized whole-book passage.
#[derive(Clone, Copy, Debug, PartialEq, Eq, Structural)]
pub struct FormattedBookPassage {
    formatter: ReferenceFormatter,
    passage: BookPassage,
}

impl FormattedBookPassage {
    /// The text this adapter displays.
    pub closed spec fn spec_text(self) -> Seq<char> {
        name_of(self.formatter, self.passage.spec_book())
    }

    /// The displayed text.
    pub fn to_string(self) -> (s: String)
        ensures
            s@ == self.spec_text(),
    {
        self.formatter.book_name(self.passage.book()).to_owned()
    }
}

/// A formatted, localized chapter passage.
#[derive(Clone, Copy, Debug, PartialEq, Eq, Structural)]
pub struct FormattedChapterPassage {
    formatter: ReferenceFormatter,
    passage: ChapterPassage,
}

impl FormattedChapterPassage {
    /// The text this adapter displays.
    pub closed spec fn spec_text(self) -> Seq<char> {
        chapters_display(
            self.formatter,
            self.passage.spec_book(),
            self.passage.spec_start(),
            self.passage.spec_end(),
        )
    }

    /// The displayed text.
    pub fn to_string(self) -> (s: String)
        ensures
            s@ == self.spec_text(),
    {
        let mut v: Vec<char> = Vec::new();
        self.formatter.write_chapters(self.passage, &mut v);
        string_of(v.as_slice())
    }
}

/// A formatted, localized verse-selection passage.
#[derive(Clone, Copy, Debug)]
pub struct FormattedVersePassage<'a> {
    formatter: ReferenceFormatter,
    passage: &'a VersePassage,
}

impl<'a> FormattedVersePassage<'a> {
    /// The text this adapter displays.
    pub closed spec fn spec_text(self) -> Seq<char> {
        selections_display(self.formatter, self.passage@)
    }

    /// The displayed text.
    pub fn to_string(&self) -> (s: String)
        ensures
            s@ == self.spec_text(),
    {
        let mut v: Vec<char> = Vec::new();
        self.formatter.write_selections(self.passage.selections(), &mut v);
        string_of(v.as_slice())
    }
}

/// A formatted, localized passage sequence.
#[derive(Clone, Copy, Debug)]
pub struct FormattedPassageSequence<'a> {
    formatter: ReferenceFormatter,
    passage: &'a PassageSequence,
}

impl<'a> FormattedPassageSequence<'a> {
    /// The text this adapter displays.
    pub closed spec fn spec_text(self) -> Seq<char> {
        sequence_display(self.formatter, self.passage@)
    }

    /// The displayed text.
    pub fn to_string(&self) -> (s: String)
        ensures
            s@ == self.spec_text(),
    {
        let mut v: Vec<char> = Vec::new();
        self.formatter.write_sequence(self.passage, &mut v);
        string_of(v.as_slice())
    }
}

// ---------------------------------------------------------------------------
// The default formatter and `Display`
// ---------------------------------------------------------------------------

/// The package defaults: English long names with compact ranges.
pub open spec fn is_default_formatter(f: ReferenceFormatter) -> bool {
    f.spec_language() == Language::English && f.spec_style() == BookNameStyle::Long && f.spec_compact()
}

/// No later selection is a range that starts in the first selection's book
/// and ends in another, the one shape that the formatter writes in full
/// where `Display` writes it relative to the first selection.
pub open spec fn relative_selections(rs: Seq<Reference>) -> bool {
    forall|k: int|
        1 <= k < rs.len() ==> !(#[trigger] rs[k] matches Reference::Range(g) && g.spec_start().spec_book()
            == reference_start(rs[0]).spec_book() && g.spec_end().spec_book()
            != reference_start(rs[0]).spec_book())
}

/// Every verse-selection passage within `m` satisfies `relative_selections`.
pub open spec fn displays_alike(m: PassageModel) -> bool
    decreases m,
{
    match m {
        PassageModel::Book(_) => true,
        PassageModel::Chapter(..) => true,
        PassageModel::Verses(rs) => relative_selections(rs),
        PassageModel::Sequence(ps) => forall|k: int|
            0 <= k < ps.len() ==> displays_alike(#[trigger] ps[k]),
    }
}

/// The default formatter writes a reference exactly as `Display` does.
pub proof fn lemma_default_reference_display(f: ReferenceFormatter, r: Reference)
    requires
        is_default_formatter(f),
    ensures
        reference_display(f, r) == reference_text(r),
{
}

/// A later selection is written by the default formatter as `Display` writes
/// it, unless it is the excluded cross-book shape.
proof fn lemma_default_relative_display(f: ReferenceFormatter, r: Reference, anchor: VerseRef)
    requires
        is_default_formatter(f),
        !(r matches Reference::Range(g) && g.spec_start().spec_book() == anchor.spec_book()
            && g.spec_end().spec_book() != anchor.spec_book()),
    ensures
        relative_display(f, r, anchor) == compact_text(r, anchor),
{
}

/// The tails of selection lists agree selection by selection.
proof fn lemma_default_tail_display(f: ReferenceFormatter, rs: Seq<Reference>, k: int)
    requires
        is_default_formatter(f),
        rs.len() > 0,
        k <= rs.len(),
        relative_selections(rs),
    ensures
        selections_tail(f, rs, k) == tail_text(rs, k, reference_start(rs[0])),
    decreases k,
{
    if k > 1 {
        lemma_default_tail_display(f, rs, k - 1);
        assert(rs[k - 1] == rs[k - 1]);
        lemma_default_relative_display(f, rs[k - 1], reference_start(rs[0]));
    }
}

/// The default formatter writes a passage exactly as `Display` does, unless
/// some verse selection is a range from the first selection's book into
/// another book.
pub proof fn lemma_default_passage_display(f: ReferenceFormatter, m: PassageModel)
    requires
        is_default_formatter(f),
        displays_alike(m),
    ensures
        passage_display(f, m) == passage_text(m),
    decreases m,
{
    match m {
        PassageModel::Book(_) => {},
        PassageModel::Chapter(..) => {},
        PassageModel::Verses(rs) => {
            if rs.len() > 0 {
                lemma_default_reference_display(f, rs[0]);
                lemma_default_tail_display(f, rs, rs.len() as int);
            }
        },
        PassageModel::Sequence(ps) => {
            lemma_default_sequence_display(f, ps);
        },
    }
}

/// Sequences agree passage by passage.
proof fn lemma_default_sequence_display(f: ReferenceFormatter, ps: Seq<PassageModel>)
    requires
        is_default_formatter(f),
        forall|k: int| 0 <= k < ps.len() ==> displays_alike(#[trigger] ps[k]),
    ensures
        sequence_display(f, ps) == sequence_text(ps),
    decreases ps,
{
    if ps.len() == 1 {
        lemma_default_passage_display(f, ps[0]);
    } else if ps.len() > 1 {
        assert(forall|k: int| 0 <= k < ps.drop_last().len() ==> ps.drop_last()[k] == ps[k]);
        lemma_default_sequence_display(f, ps.drop_last());
        assert(ps.last() == ps[ps.len() - 1]);
        lemma_default_passage_display(f, ps.last());
    }
}

} // verus!
