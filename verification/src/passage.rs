//! Rich Bible passage values and parsing.
//!
//! A [`Reference`] is one verse or one contiguous verse range. A [`Passage`]
//! can also be a whole book, one or more chapters, a comma-separated verse
//! selection, or a semicolon-separated sequence of passage expressions.
use vstd::prelude::*;

use crate::book::{spec_full_name, Book};
use crate::error::{fault, ErrorModel, ParseError, ParseErrorKind};
use crate::grammar::spec_parse_number;
use crate::language::Language;
use crate::normalize::{lemma_parsing_form_idempotent, lemma_parsing_form_normalized, normalize_seq, parsing_form};
use crate::error::result_model;
use crate::grammar::{parse_number, quoted_message};
use crate::normalize::parsing_form_chars;
use crate::parser::{
    default_parser, extend_matches, match_views, spec_parse, spec_parse_book, step_kind, BookMatch,
    MatchModel, MetadataModel, ParseMetadata, Parsed, ParserModel, ReferenceParser,
};
use crate::reference::{
    lemma_verse_of, range_of, reference_start, reference_text, valid_coordinates, verse_before, verse_of,
    verse_text, Reference, VerseRef, MAX_CHAPTER_NUMBER, MAX_VERSE_NUMBER,
};
use crate::reference::VerseRange;
use crate::text::{
    chars_contains, chars_is_number, chars_of, decimal, extend_chars, extend_str, first_index,
    index_of, is_ascii_digit, is_digit, is_number, lemma_first_index, lemma_split_on_len,
    digits_value, lemma_decimal, lemma_split_on_join, lemma_split_on_single, leading_ws, trailing_ws,
    piece_views, push_decimal, slice_chars, split_chars, split_on, str_debug, string_of, trim,
    trim_chars,
};

verus! {

/// Books whose conventional bare-number notation names a verse in chapter 1.
pub const DEFAULT_SINGLE_CHAPTER_BOOKS: [Book; 5] = [
    Book::Obadiah,
    Book::Philemon,
    Book::SecondJohn,
    Book::ThirdJohn,
    Book::Jude,
];

/// The default single-chapter books, in order.
pub open spec fn default_single_chapter_books() -> Seq<Book> {
    seq![Book::Obadiah, Book::Philemon, Book::SecondJohn, Book::ThirdJohn, Book::Jude]
}

/// Failure to construct a passage value without satisfying its invariants.
#[derive(Clone, Copy, Debug, PartialEq, Eq, Structural, Hash)]
#[non_exhaustive]
pub enum PassageBuildError {
    /// A chapter coordinate was zero or exceeded the package sanity limit.
    InvalidChapter {
        /// The rejected chapter coordinate.
        value: u16,
    },
    /// An inclusive chapter range did not have a strictly ascending end.
    ChapterRangeNotAscending {
        /// The first chapter in the rejected range.
        start: u16,
        /// The final chapter in the rejected range.
        end: u16,
    },
    /// A verse passage contained no selections.
    EmptyVersePassage,
    /// A passage sequence contained no passages.
    EmptyPassageSequence,
}

/// The diagnostic text of a build error.
pub open spec fn build_error_text(e: PassageBuildError) -> Seq<char> {
    match e {
        PassageBuildError::InvalidChapter { value } => "chapter must be between 1 and 999 (got "@
            + decimal(value as nat) + ")"@,
        PassageBuildError::ChapterRangeNotAscending { start, end } => "end chapter "@ + decimal(
            end as nat,
        ) + " must come after start chapter "@ + decimal(start as nat),
        PassageBuildError::EmptyVersePassage => "a verse passage must contain at least one reference"@,
        PassageBuildError::EmptyPassageSequence => "a passage sequence must contain at least one passage"@,
    }
}

impl PassageBuildError {
    /// The diagnostic text.
    pub fn to_string(self) -> (s: String)
        ensures
            s@ == build_error_text(self),
    {
        let mut v: Vec<char> = Vec::new();
        match self {
            PassageBuildError::InvalidChapter { value } => {
                extend_str(&mut v, "chapter must be between 1 and 999 (got ");
                push_decimal(&mut v, value as u32);
                extend_str(&mut v, ")");
            },
            PassageBuildError::ChapterRangeNotAscending { start, end } => {
                extend_str(&mut v, "end chapter ");
                push_decimal(&mut v, end as u32);
                extend_str(&mut v, " must come after start chapter ");
                push_decimal(&mut v, start as u32);
            },
            PassageBuildError::EmptyVersePassage => {
                extend_str(&mut v, "a verse passage must contain at least one reference");
            },
            PassageBuildError::EmptyPassageSequence => {
                extend_str(&mut v, "a passage sequence must contain at least one passage");
            },
        }
        string_of(v.as_slice())
    }
}

/// The mathematical value of a passage.
pub enum PassageModel {
    /// A whole book.
    Book(Book),
    /// A book, a first chapter and an optional last chapter.
    Chapter(Book, u16, Option<u16>),
    /// Verse selections in source order.
    Verses(Seq<Reference>),
    /// Component passages in source order.
    Sequence(Seq<PassageModel>),
}

/// A passage covering an entire Bible book.
#[derive(Clone, Copy, Debug, PartialEq, Eq, Structural, Hash)]
pub struct BookPassage {
    book: Book,
}

impl BookPassage {
    /// The represented book.
    pub closed spec fn spec_book(self) -> Book {
        self.book
    }

    /// Construct a whole-book passage.
    pub fn new(book: Book) -> (r: BookPassage)
        ensures
            r.spec_book() == book,
    {
        BookPassage { book }
    }

    /// Return the represented book.
    pub fn book(self) -> (r: Book)
        ensures
            r == self.spec_book(),
    {
        self.book
    }

    /// The English display text: the full book name.
    pub fn to_string(self) -> (s: String)
        ensures
            s@ == spec_full_name(self.spec_book()),
    {
        self.book.full_name().to_owned()
    }
}

impl From<Book> for BookPassage {
    fn from(book: Book) -> BookPassage {
        BookPassage { book }
    }
}

impl vstd::std_specs::convert::FromSpecImpl<Book> for BookPassage {
    open spec fn obeys_from_spec() -> bool {
        true
    }

    open spec fn from_spec(book: Book) -> BookPassage {
        BookPassage::spec_new(book)
    }
}

impl BookPassage {
    /// The whole-book passage of `book`.
    pub closed spec fn spec_new(book: Book) -> BookPassage {
        BookPassage { book }
    }
}

/// Whether a chapter lies within `1..=999`.
pub open spec fn valid_chapter(c: u16) -> bool {
    1 <= c <= MAX_CHAPTER_NUMBER
}

/// The outcome of building a chapter passage.
pub open spec fn chapter_check(start: u16, end: Option<u16>) -> Option<PassageBuildError> {
    if !valid_chapter(start) {
        Some(PassageBuildError::InvalidChapter { value: start })
    } else {
        match end {
            None => None,
            Some(e) => if !valid_chapter(e) {
                Some(PassageBuildError::InvalidChapter { value: e })
            } else if e <= start {
                Some(PassageBuildError::ChapterRangeNotAscending { start, end: e })
            } else {
                None
            },
        }
    }
}

/// A passage covering one chapter or an inclusive range of chapters.
#[derive(Clone, Copy, Debug, PartialEq, Eq, Structural, Hash)]
pub struct ChapterPassage {
    book: Book,
    start_chapter: u16,
    end_chapter: Option<u16>,
}

/// The English display text of a chapter passage.
pub open spec fn chapter_text(book: Book, start: u16, end: Option<u16>) -> Seq<char> {
    spec_full_name(book) + " "@ + decimal(start as nat) + match end {
        Some(e) => "-"@ + decimal(e as nat),
        None => Seq::<char>::empty(),
    }
}

impl ChapterPassage {
    /// Chapters are valid and a range ascends.
    #[verifier::type_invariant]
    spec fn well_formed(self) -> bool {
        chapter_check(self.start_chapter, self.end_chapter) is None
    }

    /// The represented book.
    pub closed spec fn spec_book(self) -> Book {
        self.book
    }

    /// The first represented chapter.
    pub closed spec fn spec_start(self) -> u16 {
        self.start_chapter
    }

    /// The last chapter of a range, or `None` for one chapter.
    pub closed spec fn spec_end(self) -> Option<u16> {
        self.end_chapter
    }

    /// Construct a validated chapter or chapter-range passage.
    pub fn new(book: Book, start_chapter: u16, end_chapter: Option<u16>) -> (r: Result<
        ChapterPassage,
        PassageBuildError,
    >)
        ensures
            match chapter_check(start_chapter, end_chapter) {
                Some(e) => r == Err::<ChapterPassage, PassageBuildError>(e),
                None => r matches Ok(p) && p.spec_book() == book && p.spec_start() == start_chapter
                    && p.spec_end() == end_chapter,
            },
    {
        if start_chapter == 0 || start_chapter > MAX_CHAPTER_NUMBER {
            return Err(PassageBuildError::InvalidChapter { value: start_chapter });
        }
        if let Some(end) = end_chapter {
            if end == 0 || end > MAX_CHAPTER_NUMBER {
                return Err(PassageBuildError::InvalidChapter { value: end });
            }
            if end <= start_chapter {
                return Err(PassageBuildError::ChapterRangeNotAscending { start: start_chapter, end });
            }
        }
        Ok(ChapterPassage { book, start_chapter, end_chapter })
    }

    /// Construct a validated single-chapter passage.
    pub fn single(book: Book, chapter: u16) -> (r: Result<ChapterPassage, PassageBuildError>)
        ensures
            match chapter_check(chapter, None) {
                Some(e) => r == Err::<ChapterPassage, PassageBuildError>(e),
                None => r matches Ok(p) && p.spec_book() == book && p.spec_start() == chapter
                    && p.spec_end() == None::<u16>,
            },
    {
        ChapterPassage::new(book, chapter, None)
    }

    /// Construct a validated inclusive chapter range.
    pub fn range(book: Book, start_chapter: u16, end_chapter: u16) -> (r: Result<
        ChapterPassage,
        PassageBuildError,
    >)
        ensures
            match chapter_check(start_chapter, Some(end_chapter)) {
                Some(e) => r == Err::<ChapterPassage, PassageBuildError>(e),
                None => r matches Ok(p) && p.spec_book() == book && p.spec_start() == start_chapter
                    && p.spec_end() == Some(end_chapter),
            },
    {
        ChapterPassage::new(book, start_chapter, Some(end_chapter))
    }

    /// A passage from components already known to be valid.
    pub(crate) fn checked(book: Book, start_chapter: u16, end_chapter: Option<u16>) -> (r: ChapterPassage)
        requires
            chapter_check(start_chapter, end_chapter) is None,
        ensures
            r.spec_book() == book,
            r.spec_start() == start_chapter,
            r.spec_end() == end_chapter,
    {
        ChapterPassage { book, start_chapter, end_chapter }
    }

    /// Return the represented book.
    pub fn book(self) -> (r: Book)
        ensures
            r == self.spec_book(),
    {
        self.book
    }

    /// Return the first represented chapter.
    pub fn start_chapter(self) -> (r: u16)
        ensures
            r == self.spec_start(),
            valid_chapter(r),
    {
        proof {
            use_type_invariant(self);
        }
        self.start_chapter
    }

    /// Return the inclusive last chapter for a range, or `None` for one chapter.
    pub fn end_chapter(self) -> (r: Option<u16>)
        ensures
            r == self.spec_end(),
            r matches Some(e) ==> valid_chapter(e) && e > self.spec_start(),
    {
        proof {
            use_type_invariant(self);
        }
        self.end_chapter
    }

    /// The English display text, such as `John 3-4`.
    pub fn to_string(self) -> (s: String)
        ensures
            s@ == chapter_text(self.spec_book(), self.spec_start(), self.spec_end()),
    {
        let mut v: Vec<char> = Vec::new();
        extend_str(&mut v, self.book.full_name());
        extend_str(&mut v, " ");
        push_decimal(&mut v, self.start_chapter as u32);
        if let Some(end) = self.end_chapter {
            extend_str(&mut v, "-");
            push_decimal(&mut v, end as u32);
        }
        string_of(v.as_slice())
    }
}

/// One or more discrete verse references belonging to one passage expression.
#[derive(Debug, PartialEq, Eq, Hash)]
pub struct VersePassage {
    selections: Vec<Reference>,
}

impl View for VersePassage {
    type V = Seq<Reference>;

    closed spec fn view(&self) -> Seq<Reference> {
        self.selections@
    }
}

impl VersePassage {
    /// At least one selection.
    #[verifier::type_invariant]
    spec fn well_formed(self) -> bool {
        self.selections@.len() > 0
    }

    /// Construct a non-empty verse-selection passage.
    pub fn new<const N: usize>(selections: [Reference; N]) -> (r: Result<
        VersePassage,
        PassageBuildError,
    >)
        ensures
            N == 0 ==> r == Err::<VersePassage, PassageBuildError>(
                PassageBuildError::EmptyVersePassage,
            ),
            N > 0 ==> (r matches Ok(p) && p@ == selections@),
    {
        let mut v: Vec<Reference> = Vec::new();
        for i in 0..N
            invariant
                N == selections@.len(),
                v@ == selections@.take(i as int),
        {
            v.push(selections[i]);
            assert(selections@.take(i + 1) == selections@.take(i as int).push(selections@[i as int]));
        }
        assert(selections@.take(N as int) == selections@);
        VersePassage::from_vec(v)
    }

    /// Construct a non-empty verse-selection passage from a vector.
    pub fn from_vec(selections: Vec<Reference>) -> (r: Result<VersePassage, PassageBuildError>)
        ensures
            selections@.len() == 0 ==> r == Err::<VersePassage, PassageBuildError>(
                PassageBuildError::EmptyVersePassage,
            ),
            selections@.len() > 0 ==> (r matches Ok(p) && p@ == selections@),
    {
        if selections.len() == 0 {
            return Err(PassageBuildError::EmptyVersePassage);
        }
        Ok(VersePassage { selections })
    }

    /// Borrow the selections in source order.
    pub fn selections(&self) -> (r: &[Reference])
        ensures
            r@ == self@,
            r@.len() > 0,
    {
        proof {
            use_type_invariant(self);
        }
        self.selections.as_slice()
    }

    /// The English display text; later selections are written relative to
    /// the first one.
    pub fn to_string(&self) -> (s: String)
        ensures
            s@ == selections_text(self@),
    {
        let mut v: Vec<char> = Vec::new();
        write_selections(self.selections.as_slice(), &mut v);
        string_of(v.as_slice())
    }
}

/// The text of `selection` relative to `anchor`: the book, and the chapter
/// when it repeats, are left out.
pub open spec fn compact_text(selection: Reference, anchor: VerseRef) -> Seq<char> {
    let start = reference_start(selection);
    if start.spec_book() != anchor.spec_book() {
        reference_text(selection)
    } else {
        let head = if start.spec_chapter() == anchor.spec_chapter() {
            decimal(start.spec_verse() as nat)
        } else {
            decimal(start.spec_chapter() as nat) + ":"@ + decimal(start.spec_verse() as nat)
        };
        match selection {
            Reference::Verse(_) => head,
            Reference::Range(range) => {
                let end = range.spec_end();
                head + "-"@ + if end.spec_book() != start.spec_book() {
                    verse_text(end)
                } else if end.spec_chapter() == start.spec_chapter() {
                    decimal(end.spec_verse() as nat)
                } else {
                    decimal(end.spec_chapter() as nat) + ":"@ + decimal(end.spec_verse() as nat)
                }
            },
        }
    }
}

/// `,` and the compact text of each selection from the second to the `k`-th.
pub open spec fn tail_text(rs: Seq<Reference>, k: int, anchor: VerseRef) -> Seq<char>
    decreases k,
{
    if k <= 1 {
        seq![]
    } else {
        tail_text(rs, k - 1, anchor) + ","@ + compact_text(rs[k - 1], anchor)
    }
}

/// The English display text of verse selections.
pub open spec fn selections_text(rs: Seq<Reference>) -> Seq<char> {
    if rs.len() == 0 {
        seq![]
    } else {
        reference_text(rs[0]) + tail_text(rs, rs.len() as int, reference_start(rs[0]))
    }
}

/// Append the compact text of `selection` relative to `anchor`.
fn write_compact(selection: Reference, anchor: VerseRef, out: &mut Vec<char>)
    ensures
        final(out)@ == old(out)@ + compact_text(selection, anchor),
{
    let start = selection.start();
    if start.book() != anchor.book() {
        selection.write_to(out);
        return;
    }
    if start.chapter() == anchor.chapter() {
        push_decimal(out, start.verse() as u32);
    } else {
        push_decimal(out, start.chapter() as u32);
        extend_str(out, ":");
        push_decimal(out, start.verse() as u32);
    }
    if let Reference::Range(range) = selection {
        let end = range.end();
        extend_str(out, "-");
        if end.book() != start.book() {
            end.write_to(out);
        } else if end.chapter() == start.chapter() {
            push_decimal(out, end.verse() as u32);
        } else {
            push_decimal(out, end.chapter() as u32);
            extend_str(out, ":");
            push_decimal(out, end.verse() as u32);
        }
    }
}

/// Append the display text of verse selections.
fn write_selections(rs: &[Reference], out: &mut Vec<char>)
    ensures
        final(out)@ == old(out)@ + selections_text(rs@),
{
    if rs.len() == 0 {
        return;
    }
    let ghost base = out@;
    rs[0].write_to(out);
    let anchor = rs[0].start();
    for i in 1..rs.len()
        invariant
            rs@.len() > 0,
            anchor == reference_start(rs@[0]),
            out@ == base + reference_text(rs@[0]) + tail_text(rs@, i as int, anchor),
    {
        extend_str(out, ",");
        write_compact(rs[i], anchor, out);
    }
}

/// A source-ordered sequence of passage expressions.
#[derive(Debug, PartialEq, Eq, Hash)]
pub struct PassageSequence {
    passages: Vec<Passage>,
}

/// A complete Bible passage expression.
#[derive(Debug, PartialEq, Eq, Hash)]
pub enum Passage {
    /// A complete book.
    Book(BookPassage),
    /// One chapter or an inclusive range of chapters.
    Chapter(ChapterPassage),
    /// One or more discrete verse references.
    Verses(VersePassage),
    /// A source-ordered sequence of passage expressions.
    Sequence(PassageSequence),
}

/// The model of a passage.
pub closed spec fn passage_model(p: Passage) -> PassageModel
    decreases p,
{
    match p {
        Passage::Book(b) => PassageModel::Book(b.book),
        Passage::Chapter(c) => PassageModel::Chapter(c.book, c.start_chapter, c.end_chapter),
        Passage::Verses(v) => PassageModel::Verses(v.selections@),
        Passage::Sequence(s) => PassageModel::Sequence(passage_models(s.passages@)),
    }
}

/// The models of a sequence of passages.
pub closed spec fn passage_models(ps: Seq<Passage>) -> Seq<PassageModel>
    decreases ps,
{
    if ps.len() == 0 {
        seq![]
    } else {
        passage_models(ps.drop_last()).push(passage_model(ps.last()))
    }
}

impl View for Passage {
    type V = PassageModel;

    closed spec fn view(&self) -> PassageModel {
        passage_model(*self)
    }
}

impl View for PassageSequence {
    type V = Seq<PassageModel>;

    closed spec fn view(&self) -> Seq<PassageModel> {
        passage_models(self.passages@)
    }
}

/// The models of a sequence of passages correspond one to one.
pub proof fn lemma_passage_models(ps: Seq<Passage>)
    ensures
        passage_models(ps).len() == ps.len(),
        forall|i: int| 0 <= i < ps.len() ==> passage_models(ps)[i] == passage_model(#[trigger] ps[i]),
        forall|i: int| 0 <= i < ps.len() ==> passage_models(ps)[i] == (#[trigger] ps[i])@,
    decreases ps.len(),
{
    if ps.len() > 0 {
        lemma_passage_models(ps.drop_last());
        assert forall|i: int| 0 <= i < ps.len() implies passage_models(ps)[i] == passage_model(
            #[trigger] ps[i],
        ) by {
            if i < ps.len() - 1 {
                assert(ps[i] == ps.drop_last()[i]);
            }
        }
    }
}

impl Passage {
    /// A copy with the same model.
    pub fn duplicate(&self) -> (r: Passage)
        ensures
            r@ == self@,
        decreases self,
    {
        match self {
            Passage::Book(b) => Passage::Book(*b),
            Passage::Chapter(c) => Passage::Chapter(*c),
            Passage::Verses(v) => Passage::Verses(v.clone_selections()),
            Passage::Sequence(s) => Passage::Sequence(s.duplicate()),
        }
    }
}

impl VersePassage {
    /// A copy with the same selections.
    fn clone_selections(&self) -> (r: VersePassage)
        ensures
            r@ == self@,
    {
        proof {
            use_type_invariant(self);
        }
        let mut v: Vec<Reference> = Vec::new();
        for i in 0..self.selections.len()
            invariant
                v@ == self.selections@.take(i as int),
        {
            v.push(self.selections[i]);
            assert(self.selections@.take(i + 1) == self.selections@.take(i as int).push(
                self.selections@[i as int],
            ));
        }
        assert(self.selections@.take(self.selections@.len() as int) == self.selections@);
        VersePassage { selections: v }
    }
}

impl PassageSequence {
    /// A copy with the same passages.
    pub fn duplicate(&self) -> (r: PassageSequence)
        ensures
            r@ == self@,
        decreases self,
    {
        proof {
            use_type_invariant(self);
        }
        let mut v: Vec<Passage> = Vec::new();
        for i in 0..self.passages.len()
            invariant
                passage_models(v@) == passage_models(self.passages@.take(i as int)),
                v@.len() == i,
        {
            assert(decreases_to!(self => self.passages@[i as int]));
            let p = self.passages[i].duplicate();
            let ghost before = v@;
            v.push(p);
            assert(v@.drop_last() == before);
            assert(self.passages@.take(i + 1).drop_last() == self.passages@.take(i as int));
        }
        assert(self.passages@.take(self.passages@.len() as int) == self.passages@);
        PassageSequence { passages: v }
    }

    /// At least one passage.
    #[verifier::type_invariant]
    spec fn well_formed(self) -> bool {
        self.passages@.len() > 0
    }
}

impl Clone for Passage {
    fn clone(&self) -> (r: Passage)
        ensures
            r@ == self@,
    {
        self.duplicate()
    }
}

impl Clone for VersePassage {
    fn clone(&self) -> (r: VersePassage)
        ensures
            r@ == self@,
    {
        self.clone_selections()
    }
}

impl Clone for PassageSequence {
    fn clone(&self) -> (r: PassageSequence)
        ensures
            r@ == self@,
    {
        self.duplicate()
    }
}

/// The English display text of a passage.
pub open spec fn passage_text(m: PassageModel) -> Seq<char>
    decreases m,
{
    match m {
        PassageModel::Book(b) => spec_full_name(b),
        PassageModel::Chapter(b, start, end) => chapter_text(b, start, end),
        PassageModel::Verses(rs) => selections_text(rs),
        PassageModel::Sequence(ps) => sequence_text(ps),
    }
}

/// The display texts of passages joined by `; `.
pub open spec fn sequence_text(ps: Seq<PassageModel>) -> Seq<char>
    decreases ps,
{
    if ps.len() == 0 {
        seq![]
    } else if ps.len() == 1 {
        passage_text(ps[0])
    } else {
        sequence_text(ps.drop_last()) + "; "@ + passage_text(ps.last())
    }
}

impl PassageSequence {
    /// Construct a non-empty passage sequence.
    pub fn new<const N: usize>(passages: [Passage; N]) -> (r: Result<
        PassageSequence,
        PassageBuildError,
    >)
        ensures
            N == 0 ==> r == Err::<PassageSequence, PassageBuildError>(
                PassageBuildError::EmptyPassageSequence,
            ),
            N > 0 ==> (r matches Ok(p) && p@ == passage_models(passages@)),
    {
        let mut v: Vec<Passage> = Vec::new();
        for i in 0..N
            invariant
                N == passages@.len(),
                v@.len() == i,
                passage_models(v@) == passage_models(passages@.take(i as int)),
        {
            let p = passages[i].duplicate();
            let ghost before = v@;
            v.push(p);
            assert(v@.drop_last() == before);
            assert(passages@.take(i + 1).drop_last() == passages@.take(i as int));
        }
        assert(passages@.take(N as int) == passages@);
        PassageSequence::from_vec(v)
    }

    /// Construct a non-empty passage sequence from a vector.
    pub fn from_vec(passages: Vec<Passage>) -> (r: Result<PassageSequence, PassageBuildError>)
        ensures
            passages@.len() == 0 ==> r == Err::<PassageSequence, PassageBuildError>(
                PassageBuildError::EmptyPassageSequence,
            ),
            passages@.len() > 0 ==> (r matches Ok(p) && p@ == passage_models(passages@)),
    {
        if passages.len() == 0 {
            return Err(PassageBuildError::EmptyPassageSequence);
        }
        Ok(PassageSequence { passages })
    }

    /// Borrow the component passages in source order.
    pub fn passages(&self) -> (r: &[Passage])
        ensures
            passage_models(r@) == self@,
            r@.len() > 0,
    {
        proof {
            use_type_invariant(self);
        }
        self.passages.as_slice()
    }

    /// The display texts of the passages joined by `; `.
    pub fn to_string(&self) -> (s: String)
        ensures
            s@ == sequence_text(self@),
    {
        let mut v: Vec<char> = Vec::new();
        write_sequence(self, &mut v);
        string_of(v.as_slice())
    }
}

/// Append the display text of a passage.
fn write_passage(p: &Passage, out: &mut Vec<char>)
    ensures
        final(out)@ == old(out)@ + passage_text(p@),
    decreases p,
{
    match p {
        Passage::Book(b) => extend_str(out, b.book.full_name()),
        Passage::Chapter(c) => {
            let text = c.to_string();
            extend_str(out, text.as_str());
        },
        Passage::Verses(v) => write_selections(v.selections.as_slice(), out),
        Passage::Sequence(s) => write_sequence(s, out),
    }
}

/// Append the display texts of a sequence's passages joined by `; `.
fn write_sequence(s: &PassageSequence, out: &mut Vec<char>)
    ensures
        final(out)@ == old(out)@ + sequence_text(s@),
    decreases s,
{
    let ghost base = out@;
    let ghost ps = s.passages@;
    proof {
        lemma_passage_models(ps);
    }
    for i in 0..s.passages.len()
        invariant
            ps == s.passages@,
            passage_models(ps).len() == ps.len(),
            forall|j: int| 0 <= j < ps.len() ==> passage_models(ps)[j] == passage_model(#[trigger] ps[j]),
            out@ == base + sequence_text(passage_models(ps).take(i as int)),
    {
        let ghost models = passage_models(ps);
        assert(models.take(i + 1).drop_last() == models.take(i as int));
        assert(models.take(i + 1).last() == ps[i as int]@);
        if i > 0 {
            extend_str(out, "; ");
        } else {
            assert(models.take(i as int).len() == 0);
        }
        assert(decreases_to!(s => s.passages@[i as int]));
        write_passage(&s.passages[i], out);
    }
    assert(passage_models(ps).take(ps.len() as int) == passage_models(ps));
}

impl Passage {
    /// The English display text.
    pub fn to_string(&self) -> (s: String)
        ensures
            s@ == passage_text(self@),
    {
        let mut v: Vec<char> = Vec::new();
        write_passage(self, &mut v);
        string_of(v.as_slice())
    }

    /// Borrow the whole-book value, if this is one.
    pub fn as_book(&self) -> (r: Option<&BookPassage>)
        ensures
            match self@ {
                PassageModel::Book(b) => r matches Some(p) && p.spec_book() == b,
                _ => r is None,
            },
    {
        match self {
            Passage::Book(passage) => Some(passage),
            _ => None,
        }
    }

    /// Borrow the chapter value, if this is one.
    pub fn as_chapter(&self) -> (r: Option<&ChapterPassage>)
        ensures
            match self@ {
                PassageModel::Chapter(b, start, end) => r matches Some(p) && p.spec_book() == b
                    && p.spec_start() == start && p.spec_end() == end,
                _ => r is None,
            },
    {
        match self {
            Passage::Chapter(passage) => Some(passage),
            _ => None,
        }
    }

    /// Borrow the verse-selection value, if this is one.
    pub fn as_verses(&self) -> (r: Option<&VersePassage>)
        ensures
            match self@ {
                PassageModel::Verses(rs) => r matches Some(p) && p@ == rs,
                _ => r is None,
            },
    {
        match self {
            Passage::Verses(passage) => Some(passage),
            _ => None,
        }
    }

    /// Borrow the sequence value, if this is one.
    pub fn as_sequence(&self) -> (r: Option<&PassageSequence>)
        ensures
            match self@ {
                PassageModel::Sequence(ps) => r matches Some(p) && p@ == ps,
                _ => r is None,
            },
    {
        match self {
            Passage::Sequence(passage) => Some(passage),
            _ => None,
        }
    }
}

impl From<BookPassage> for Passage {
    fn from(passage: BookPassage) -> Passage {
        Passage::Book(passage)
    }
}

impl vstd::std_specs::convert::FromSpecImpl<BookPassage> for Passage {
    open spec fn obeys_from_spec() -> bool {
        true
    }

    open spec fn from_spec(passage: BookPassage) -> Passage {
        Passage::Book(passage)
    }
}

impl From<ChapterPassage> for Passage {
    fn from(passage: ChapterPassage) -> Passage {
        Passage::Chapter(passage)
    }
}

impl vstd::std_specs::convert::FromSpecImpl<ChapterPassage> for Passage {
    open spec fn obeys_from_spec() -> bool {
        true
    }

    open spec fn from_spec(passage: ChapterPassage) -> Passage {
        Passage::Chapter(passage)
    }
}

impl From<VersePassage> for Passage {
    fn from(passage: VersePassage) -> Passage {
        Passage::Verses(passage)
    }
}

impl vstd::std_specs::convert::FromSpecImpl<VersePassage> for Passage {
    open spec fn obeys_from_spec() -> bool {
        true
    }

    open spec fn from_spec(passage: VersePassage) -> Passage {
        Passage::Verses(passage)
    }
}

impl From<PassageSequence> for Passage {
    fn from(passage: PassageSequence) -> Passage {
        Passage::Sequence(passage)
    }
}

impl vstd::std_specs::convert::FromSpecImpl<PassageSequence> for Passage {
    open spec fn obeys_from_spec() -> bool {
        true
    }

    open spec fn from_spec(passage: PassageSequence) -> Passage {
        Passage::Sequence(passage)
    }
}

// ---------------------------------------------------------------------------
// Passage grammar
// ---------------------------------------------------------------------------

/// The configuration of a passage parser.
pub struct PassageParserModel {
    pub parser: ParserModel,
    pub single: Seq<Book>,
}

/// A segment split into its book token, the numeric body after it, and the
/// resolved book.
pub struct SplitModel {
    pub book_token: Seq<char>,
    pub body: Seq<char>,
    pub book: Book,
    pub matches: Seq<MatchModel>,
}

/// The first `:` or `.`.
pub open spec fn coordinate_mark(s: Seq<char>) -> Option<int> {
    match (first_index(s, ':'), first_index(s, '.')) {
        (Some(a), Some(b)) => Some(if a <= b {
            a
        } else {
            b
        }),
        (Some(a), None) => Some(a),
        (None, Some(b)) => Some(b),
        (None, None) => None,
    }
}

/// Splitting at the first `:` or `.` into a chapter number and non-empty
/// trimmed text after it.
pub open spec fn coordinate_once(s: Seq<char>) -> Option<(Seq<char>, Seq<char>)> {
    match coordinate_mark(s) {
        None => None,
        Some(i) => {
            let left = trim(s.take(i));
            let right = trim(s.skip(i + 1));
            if is_number(left) && right.len() > 0 {
                Some((left, right))
            } else {
                None
            }
        },
    }
}

/// `start-end` where both sides are numbers and no second `-` follows.
pub open spec fn numeric_range(s: Seq<char>) -> Option<(Seq<char>, Seq<char>)> {
    match first_index(s, '-') {
        None => None,
        Some(i) => {
            let start = trim(s.take(i));
            let end = trim(s.skip(i + 1));
            if !end.contains('-') && is_number(start) && is_number(end) {
                Some((start, end))
            } else {
                None
            }
        },
    }
}

/// Splitting a segment at the last digit position, moving left, whose
/// prefix resolves as a book; unknown books are passed over.
pub open spec fn split_book_from(
    p: ParserModel,
    s: Seq<char>,
    language: Language,
    pos: int,
    unknown: Option<ErrorModel>,
) -> Result<SplitModel, ErrorModel>
    decreases pos,
{
    if pos <= 0 || pos >= s.len() {
        match unknown {
            Some(k) => Err(k),
            None => Err(
                fault(
                    ParseErrorKind::PatternMismatch,
                    "passage "@ + str_debug(s) + " does not match expected format"@,
                ),
            ),
        }
    } else {
        let book_token = trim(s.take(pos));
        let body = trim(s.skip(pos));
        if !is_digit(s[pos]) || book_token.len() == 0 || !(body.len() > 0 && is_digit(body[0])) {
            split_book_from(p, s, language, pos - 1, unknown)
        } else {
            match spec_parse_book(p, book_token, language) {
                Ok((book, meta)) => Ok(
                    SplitModel { book_token, body, book, matches: meta.matches },
                ),
                Err(k) => if k.kind == ParseErrorKind::UnknownBook {
                    split_book_from(p, s, language, pos - 1, Some(k))
                } else {
                    Err(k)
                },
            }
        }
    }
}

/// Splitting a segment into its book and body.
pub open spec fn split_book(p: ParserModel, s: Seq<char>, language: Language) -> Result<
    SplitModel,
    ErrorModel,
> {
    split_book_from(p, s, language, s.len() - 1, None)
}

/// One endpoint of a verse selection: `chapter:verse`, or a bare verse in the
/// default chapter; `position` (`start` or `end`) names it in diagnostics.
pub open spec fn selection_endpoint(s: Seq<char>, default_chapter: u16, position: Seq<char>) -> Result<
    (u16, u16),
    ErrorModel,
> {
    let mismatch = fault(
        ParseErrorKind::PatternMismatch,
        "verse selection endpoint "@ + str_debug(s) + " does not match expected format"@,
    );
    match coordinate_once(s) {
        Some((c, v)) => if v.contains(':') || v.contains('.') || !is_number(v) {
            Err(mismatch)
        } else {
            match spec_parse_number(c, position + " chapter"@, MAX_CHAPTER_NUMBER) {
                Err(k) => Err(k),
                Ok(ch) => match spec_parse_number(v, position + " verse"@, MAX_VERSE_NUMBER) {
                    Err(k) => Err(k),
                    Ok(vv) => Ok((ch, vv)),
                },
            }
        },
        None => if !is_number(s) {
            Err(mismatch)
        } else {
            match spec_parse_number(s, position + " verse"@, MAX_VERSE_NUMBER) {
                Err(k) => Err(k),
                Ok(vv) => Ok((default_chapter, vv)),
            }
        },
    }
}

/// One comma-separated selection: a verse or an ascending range in `book`.
pub open spec fn selection(s: Seq<char>, book: Book, default_chapter: u16) -> Result<
    Reference,
    ErrorModel,
> {
    let parts = split_on(s, '-');
    let start_text = trim(parts[0]);
    if parts.len() > 2 || start_text.len() == 0 || (parts.len() == 2 && trim(parts[1]).len()
        == 0) {
        Err(
            fault(
                ParseErrorKind::PatternMismatch,
                "verse selection "@ + str_debug(s) + " does not match expected format"@,
            ),
        )
    } else {
        match selection_endpoint(start_text, default_chapter, "start"@) {
            Err(k) => Err(k),
            Ok((sc, sv)) => {
                let start = verse_of(book, sc, sv);
                if parts.len() == 1 {
                    Ok(Reference::Verse(start))
                } else {
                    match selection_endpoint(trim(parts[1]), sc, "end"@) {
                        Err(k) => Err(k),
                        Ok((ec, ev)) => {
                            let end = verse_of(book, ec, ev);
                            if verse_before(start, end) {
                                Ok(Reference::Range(range_of(start, end)))
                            } else {
                                Err(
                                    fault(
                                        ParseErrorKind::SameBookRangeNotAscending,
                                        "end reference must come after start reference"@,
                                    ),
                                )
                            }
                        },
                    }
                }
            },
        }
    }
}

/// The selections of a verse list, in order; the first failing one decides.
pub open spec fn selections(tokens: Seq<Seq<char>>, book: Book, chapter: u16) -> Result<
    Seq<Reference>,
    ErrorModel,
>
    decreases tokens.len(),
{
    if tokens.len() == 0 {
        Ok(seq![])
    } else {
        match selections(tokens.drop_last(), book, chapter) {
            Err(k) => Err(k),
            Ok(rs) => match selection(trim(tokens.last()), book, chapter) {
                Err(k) => Err(k),
                Ok(r) => Ok(rs.push(r)),
            },
        }
    }
}

/// Whether some piece is blank after trimming.
pub open spec fn has_blank(pieces: Seq<Seq<char>>) -> bool {
    exists|i: int| 0 <= i < pieces.len() && trim(#[trigger] pieces[i]).len() == 0
}

/// A verse list `chapter:selection,selection,...`.
pub open spec fn verse_list(split: SplitModel) -> Result<(PassageModel, Seq<MatchModel>), ErrorModel> {
    match coordinate_once(split.body) {
        None => Err(
            fault(
                ParseErrorKind::PatternMismatch,
                "verse list "@ + str_debug(split.body) + " does not match expected format"@,
            ),
        ),
        Some((chapter_token, selection_text)) => match spec_parse_number(
            chapter_token,
            "chapter"@,
            MAX_CHAPTER_NUMBER,
        ) {
            Err(k) => Err(k),
            Ok(chapter) => {
                let tokens = split_on(selection_text, ',');
                if selection_text.len() == 0 || has_blank(tokens) {
                    Err(fault(ParseErrorKind::PatternMismatch, "verse list contains an empty selection"@))
                } else {
                    list_outcome(selections(tokens, split.book, chapter), split.matches)
                }
            },
        },
    }
}

/// The value of a single-chapter or ordinary number run after a book.
pub open spec fn numbered(single: bool, book: Book, n: u16) -> PassageModel {
    if single {
        PassageModel::Verses(seq![Reference::Verse(verse_of(book, 1, n))])
    } else {
        PassageModel::Chapter(book, n, None)
    }
}

/// The value of a number range after a book.
pub open spec fn numbered_range(single: bool, book: Book, a: u16, b: u16) -> PassageModel {
    if single {
        PassageModel::Verses(
            seq![Reference::Range(range_of(verse_of(book, 1, a), verse_of(book, 1, b)))],
        )
    } else {
        PassageModel::Chapter(book, a, Some(b))
    }
}

/// What a bare number after a book counts: verses of a single-chapter book,
/// chapters otherwise.
pub open spec fn number_component(single: bool) -> Seq<char> {
    if single {
        "verse"@
    } else {
        "chapter"@
    }
}

/// A bare number after a book: a chapter, or a chapter-one verse of a
/// single-chapter book.
pub open spec fn number_body(single: bool, split: SplitModel) -> Result<
    (PassageModel, Seq<MatchModel>),
    ErrorModel,
> {
    match spec_parse_number(split.body, number_component(single), MAX_CHAPTER_NUMBER) {
        Err(k) => Err(k),
        Ok(n) => Ok((numbered(single, split.book, n), split.matches)),
    }
}

/// A number range after a book: chapters, or chapter-one verses of a
/// single-chapter book; the end must exceed the start.
pub open spec fn range_body(single: bool, split: SplitModel, st: Seq<char>, et: Seq<char>) -> Result<
    (PassageModel, Seq<MatchModel>),
    ErrorModel,
> {
    let component = number_component(single);
    match spec_parse_number(st, "start "@ + component, MAX_CHAPTER_NUMBER) {
        Err(k) => Err(k),
        Ok(a) => match spec_parse_number(et, "end "@ + component, MAX_CHAPTER_NUMBER) {
            Err(k) => Err(k),
            Ok(b) => if b <= a {
                Err(
                    fault(
                        ParseErrorKind::SameBookRangeNotAscending,
                        "end "@ + component + " must come after start "@ + component,
                    ),
                )
            } else {
                Ok((numbered_range(single, split.book, a, b), split.matches))
            },
        },
    }
}

/// Any other body: the book token and body are parsed as one reference.
pub open spec fn reference_body(p: ParserModel, split: SplitModel, language: Language) -> Result<
    (PassageModel, Seq<MatchModel>),
    ErrorModel,
> {
    match spec_parse(p, split.book_token + " "@ + split.body, language) {
        Err(k) => Err(k),
        Ok((r, meta)) => Ok((PassageModel::Verses(seq![r]), meta.matches)),
    }
}

/// The passage named by a book and the body after it.
#[verifier::opaque]
pub open spec fn segment_body(pp: PassageParserModel, split: SplitModel, language: Language) -> Result<
    (PassageModel, Seq<MatchModel>),
    ErrorModel,
> {
    let single = pp.single.contains(split.book);
    if is_number(split.body) {
        number_body(single, split)
    } else if numeric_range(split.body) is Some {
        range_body(
            single,
            split,
            numeric_range(split.body)->Some_0.0,
            numeric_range(split.body)->Some_0.1,
        )
    } else if split.body.contains(',') {
        verse_list(split)
    } else {
        reference_body(pp.parser, split, language)
    }
}

/// One semicolon-free segment: a whole book, or a book followed by chapters
/// or verses.
#[verifier::opaque]
pub open spec fn segment(pp: PassageParserModel, s: Seq<char>, language: Language) -> Result<
    (PassageModel, Seq<MatchModel>),
    ErrorModel,
> {
    match spec_parse_book(pp.parser, s, language) {
        Ok((book, meta)) => Ok((PassageModel::Book(book), meta.matches)),
        Err(k) => if k.kind != ParseErrorKind::UnknownBook {
            Err(k)
        } else {
            match split_book(pp.parser, s, language) {
                Err(k2) => Err(k2),
                Ok(split) => segment_body(pp, split, language),
            }
        },
    }
}

/// The segments in order, with their book matches concatenated; the first
/// failing one decides.
pub open spec fn segments(pp: PassageParserModel, segs: Seq<Seq<char>>, language: Language) -> Result<
    (Seq<PassageModel>, Seq<MatchModel>),
    ErrorModel,
>
    decreases segs.len(),
{
    if segs.len() == 0 {
        Ok((seq![], seq![]))
    } else {
        match segments(pp, segs.drop_last(), language) {
            Err(k) => Err(k),
            Ok((ps, ms)) => match segment(pp, trim(segs.last()), language) {
                Err(k) => Err(k),
                Ok((p, m)) => Ok((ps.push(p), ms + m)),
            },
        }
    }
}

/// A failing prefix decides the outcome of all segments.
proof fn lemma_segments_prefix_err(
    pp: PassageParserModel,
    segs: Seq<Seq<char>>,
    k: int,
    language: Language,
)
    requires
        0 <= k <= segs.len(),
        segments(pp, segs.take(k), language) is Err,
    ensures
        segments(pp, segs, language) == segments(pp, segs.take(k), language),
    decreases segs.len() - k,
{
    if k < segs.len() {
        assert(segs.take(k + 1).drop_last() == segs.take(k));
        lemma_segments_prefix_err(pp, segs, k + 1, language);
    } else {
        assert(segs.take(k) == segs);
    }
}

/// A failing prefix decides the outcome of all selections.
proof fn lemma_selections_prefix_err(tokens: Seq<Seq<char>>, k: int, book: Book, chapter: u16)
    requires
        0 <= k <= tokens.len(),
        selections(tokens.take(k), book, chapter) is Err,
    ensures
        selections(tokens, book, chapter) == selections(tokens.take(k), book, chapter),
    decreases tokens.len() - k,
{
    if k < tokens.len() {
        assert(tokens.take(k + 1).drop_last() == tokens.take(k));
        lemma_selections_prefix_err(tokens, k + 1, book, chapter);
    } else {
        assert(tokens.take(k) == tokens);
    }
}

/// Parsing a passage: the normalized input is split at `;`, no segment may
/// be blank, and several segments form a sequence.
pub open spec fn spec_parse_passage(pp: PassageParserModel, input: Seq<char>, language: Language) -> Result<
    (PassageModel, MetadataModel),
    ErrorModel,
> {
    let n = parsing_form(input);
    if n.len() == 0 {
        Err(fault(ParseErrorKind::EmptyReference, "passage must not be empty"@))
    } else {
        let segs = split_on(n, ';');
        if has_blank(segs) {
            Err(
                fault(
                    ParseErrorKind::PatternMismatch,
                    "passage sequence contains an empty expression"@,
                ),
            )
        } else {
            assemble(n, segments(pp, segs, language))
        }
    }
}

/// Passage parsing reads its input through reference normalization, so
/// input that was normalized beforehand, alone or with white space collapsed
/// as `normalize_for_parsing` does, parses exactly as the raw input does.
pub proof fn lemma_parse_passage_after_normalize(pp: PassageParserModel, input: Seq<char>, language: Language)
    ensures
        spec_parse_passage(pp, normalize_seq(input), language) == spec_parse_passage(pp, input, language),
        spec_parse_passage(pp, parsing_form(input), language) == spec_parse_passage(pp, input, language),
{
    lemma_parsing_form_normalized(input);
    lemma_parsing_form_idempotent(input);
}

/// One segment's passage stands alone; several form a sequence.
pub open spec fn assemble(
    n: Seq<char>,
    r: Result<(Seq<PassageModel>, Seq<MatchModel>), ErrorModel>,
) -> Result<(PassageModel, MetadataModel), ErrorModel> {
    match r {
        Err(k) => Err(k),
        Ok((ps, ms)) => Ok(
            (
                if ps.len() == 1 {
                    ps[0]
                } else {
                    PassageModel::Sequence(ps)
                },
                MetadataModel { normalized: n, matches: ms },
            ),
        ),
    }
}

/// The outcome of a verse list once its selections are read.
pub open spec fn list_outcome(r: Result<Seq<Reference>, ErrorModel>, matches: Seq<MatchModel>) -> Result<
    (PassageModel, Seq<MatchModel>),
    ErrorModel,
> {
    match r {
        Err(k) => Err(k),
        Ok(rs) => Ok((PassageModel::Verses(rs), matches)),
    }
}

/// A passage outcome reduced to its model, metadata and error classification.
pub open spec fn passage_kind(r: Result<Parsed<Passage>, ParseError>) -> Result<
    (PassageModel, MetadataModel),
    ErrorModel,
> {
    match r {
        Ok(p) => Ok((p.spec_value()@, p.spec_metadata())),
        Err(e) => Err(e.model()),
    }
}

/// `ls` without repetitions, keeping first occurrences.
pub open spec fn dedup_books(ls: Seq<Book>) -> Seq<Book>
    decreases ls.len(),
{
    if ls.len() == 0 {
        seq![]
    } else if dedup_books(ls.drop_last()).contains(ls.last()) {
        dedup_books(ls.drop_last())
    } else {
        dedup_books(ls.drop_last()).push(ls.last())
    }
}

/// A book-resolution outcome reduced to the book and its matches.
pub open spec fn book_step(r: Result<(Book, MetadataModel), ErrorModel>) -> Result<
    (Book, Seq<MatchModel>),
    ErrorModel,
> {
    match r {
        Ok((b, meta)) => Ok((b, meta.matches)),
        Err(k) => Err(k),
    }
}

/// A segment outcome reduced to its model, matches and error classification.
pub open spec fn segment_kind(r: Result<(Passage, Vec<BookMatch>), ParseError>) -> Result<
    (PassageModel, Seq<MatchModel>),
    ErrorModel,
> {
    match r {
        Ok((p, ms)) => Ok((p@, match_views(ms@))),
        Err(e) => Err(e.model()),
    }
}

/// A segment split into its book token, body and resolved book.
struct BookSplit {
    book_token: Vec<char>,
    body: Vec<char>,
    book: Book,
    matches: Vec<BookMatch>,
}

/// The model of a split.
spec fn split_view(b: BookSplit) -> SplitModel {
    SplitModel {
        book_token: b.book_token@,
        body: b.body@,
        book: b.book,
        matches: match_views(b.matches@),
    }
}

/// A split outcome reduced to its model and error classification.
spec fn split_kind(r: Result<BookSplit, ParseError>) -> Result<SplitModel, ErrorModel> {
    match r {
        Ok(b) => Ok(split_view(b)),
        Err(e) => Err(e.model()),
    }
}

/// A reusable parser for book, chapter, verse-list, and passage sequences.
#[derive(Debug)]
pub struct PassageParser {
    reference_parser: ReferenceParser,
    single_chapter_books: Vec<Book>,
}

impl View for PassageParser {
    type V = PassageParserModel;

    closed spec fn view(&self) -> PassageParserModel {
        PassageParserModel { parser: self.reference_parser@, single: self.single_chapter_books@ }
    }
}

/// The default single-chapter books as a vector.
fn default_single_books() -> (r: Vec<Book>)
    ensures
        r@ == default_single_chapter_books(),
{
    let mut v: Vec<Book> = Vec::new();
    for i in 0..5usize
        invariant
            v@ == default_single_chapter_books().take(i as int),
    {
        v.push(DEFAULT_SINGLE_CHAPTER_BOOKS[i]);
        assert(default_single_chapter_books().take(i + 1) == default_single_chapter_books().take(
            i as int,
        ).push(default_single_chapter_books()[i as int]));
    }
    assert(default_single_chapter_books().take(5) == default_single_chapter_books());
    v
}

impl Default for PassageParser {
    fn default() -> (r: PassageParser)
        ensures
            r@ == (PassageParserModel {
                parser: default_parser(),
                single: default_single_chapter_books(),
            }),
    {
        PassageParser {
            reference_parser: ReferenceParser::new(),
            single_chapter_books: default_single_books(),
        }
    }
}

/// Whether a book occurs in `v`.
fn has_book(v: &[Book], b: Book) -> (r: bool)
    ensures
        r == v@.contains(b),
{
    for i in 0..v.len()
        invariant
            forall|j: int| 0 <= j < i ==> v@[j] != b,
    {
        if v[i] == b {
            assert(v@[i as int] == b);
            return true;
        }
    }
    false
}

/// Whether some piece is blank after trimming.
fn any_blank(pieces: &[Vec<char>]) -> (r: bool)
    ensures
        r == has_blank(piece_views(pieces@)),
{
    for i in 0..pieces.len()
        invariant
            forall|j: int| 0 <= j < i ==> trim(#[trigger] piece_views(pieces@)[j]).len() != 0,
    {
        let t = trim_chars(pieces[i].as_slice());
        if t.len() == 0 {
            assert(trim(piece_views(pieces@)[i as int]).len() == 0);
            return true;
        }
    }
    false
}

/// The first `:` or `.` split, as [`coordinate_once`] describes it.
fn coordinate_once_exec(s: &[char]) -> (r: Option<(Vec<char>, Vec<char>)>)
    ensures
        match coordinate_once(s@) {
            Some((a, b)) => r matches Some((x, y)) && x@ == a && y@ == b,
            None => r is None,
        },
{
    proof {
        lemma_first_index(s@, ':');
        lemma_first_index(s@, '.');
    }
    let colon = index_of(s, ':');
    let dot = index_of(s, '.');
    let mark = match (colon, dot) {
        (Some(a), Some(b)) => if a <= b {
            a
        } else {
            b
        },
        (Some(a), None) => a,
        (None, Some(b)) => b,
        (None, None) => {
            return None;
        },
    };
    let len = s.len();
    assert(mark < len);
    let head = slice_chars(s, 0, mark);
    let left = trim_chars(head.as_slice());
    let tail = slice_chars(s, mark + 1, len);
    let right = trim_chars(tail.as_slice());
    if chars_is_number(left.as_slice()) && right.len() > 0 {
        Some((left, right))
    } else {
        None
    }
}

/// The number range split, as [`numeric_range`] describes it.
fn numeric_range_exec(s: &[char]) -> (r: Option<(Vec<char>, Vec<char>)>)
    ensures
        match numeric_range(s@) {
            Some((a, b)) => r matches Some((x, y)) && x@ == a && y@ == b,
            None => r is None,
        },
{
    proof {
        lemma_first_index(s@, '-');
    }
    let dash = match index_of(s, '-') {
        Some(i) => i,
        None => {
            return None;
        },
    };
    let len = s.len();
    assert(dash < len);
    let head = slice_chars(s, 0, dash);
    let start = trim_chars(head.as_slice());
    let tail = slice_chars(s, dash + 1, len);
    let end = trim_chars(tail.as_slice());
    if !chars_contains(end.as_slice(), '-') && chars_is_number(start.as_slice())
        && chars_is_number(end.as_slice()) {
        Some((start, end))
    } else {
        None
    }
}

/// Read one endpoint of a verse selection.
fn parse_selection_endpoint(s: &[char], default_chapter: u16, position: &str) -> (r: Result<
    (u16, u16),
    ParseError,
>)
    requires
        valid_chapter(default_chapter),
    ensures
        result_model(r) == selection_endpoint(s@, default_chapter, position@),
        r matches Ok((c, v)) ==> valid_coordinates(c, v),
{
    match coordinate_once_exec(s) {
        Some((chapter_token, verse_token)) => {
            if chars_contains(verse_token.as_slice(), ':') || chars_contains(
                verse_token.as_slice(),
                '.',
            ) || !chars_is_number(verse_token.as_slice()) {
                let message = quoted_message(
                    "verse selection endpoint ",
                    s,
                    " does not match expected format",
                );
                return Err(ParseError::from_string(ParseErrorKind::PatternMismatch, message));
            }
            let mut chapter_name: Vec<char> = Vec::new();
            extend_str(&mut chapter_name, position);
            extend_str(&mut chapter_name, " chapter");
            let chapter_name = string_of(chapter_name.as_slice());
            let chapter = match parse_number(
                chapter_token.as_slice(),
                chapter_name.as_str(),
                MAX_CHAPTER_NUMBER,
            ) {
                Ok(c) => c,
                Err(e) => return Err(e),
            };
            let mut verse_name: Vec<char> = Vec::new();
            extend_str(&mut verse_name, position);
            extend_str(&mut verse_name, " verse");
            let verse_name = string_of(verse_name.as_slice());
            let verse = match parse_number(
                verse_token.as_slice(),
                verse_name.as_str(),
                MAX_VERSE_NUMBER,
            ) {
                Ok(v) => v,
                Err(e) => return Err(e),
            };
            Ok((chapter, verse))
        },
        None => {
            if !chars_is_number(s) {
                let message = quoted_message(
                    "verse selection endpoint ",
                    s,
                    " does not match expected format",
                );
                return Err(ParseError::from_string(ParseErrorKind::PatternMismatch, message));
            }
            let mut verse_name: Vec<char> = Vec::new();
            extend_str(&mut verse_name, position);
            extend_str(&mut verse_name, " verse");
            let verse_name = string_of(verse_name.as_slice());
            let verse = match parse_number(s, verse_name.as_str(), MAX_VERSE_NUMBER) {
                Ok(v) => v,
                Err(e) => return Err(e),
            };
            Ok((default_chapter, verse))
        },
    }
}

/// Read one comma-separated selection.
fn parse_verse_selection(s: &[char], book: Book, default_chapter: u16) -> (r: Result<
    Reference,
    ParseError,
>)
    requires
        valid_chapter(default_chapter),
    ensures
        result_model(r) == selection(s@, book, default_chapter),
{
    let parts = split_chars(s, '-');
    proof {
        lemma_split_on_len(s@, '-');
    }
    assert(piece_views(parts@)[0] == parts@[0]@);
    let start_text = trim_chars(parts[0].as_slice());
    let end_blank = if parts.len() == 2 {
        assert(piece_views(parts@)[1] == parts@[1]@);
        let end_text = trim_chars(parts[1].as_slice());
        end_text.len() == 0
    } else {
        false
    };
    if parts.len() > 2 || start_text.len() == 0 || end_blank {
        let message = quoted_message("verse selection ", s, " does not match expected format");
        return Err(ParseError::from_string(ParseErrorKind::PatternMismatch, message));
    }
    let (start_chapter, start_verse) = match parse_selection_endpoint(
        start_text.as_slice(),
        default_chapter,
        "start",
    ) {
        Ok(pair) => pair,
        Err(e) => return Err(e),
    };
    let start = VerseRef::checked(book, start_chapter, start_verse);
    if parts.len() == 1 {
        return Ok(Reference::Verse(start));
    }
    assert(piece_views(parts@)[1] == parts@[1]@);
    let end_text = trim_chars(parts[1].as_slice());
    let (end_chapter, end_verse) = match parse_selection_endpoint(
        end_text.as_slice(),
        start_chapter,
        "end",
    ) {
        Ok(pair) => pair,
        Err(e) => return Err(e),
    };
    let end = VerseRef::checked(book, end_chapter, end_verse);
    match VerseRange::new(start, end) {
        Ok(range) => Ok(Reference::Range(range)),
        Err(_) => Err(
            ParseError::new(
                ParseErrorKind::SameBookRangeNotAscending,
                "end reference must come after start reference",
            ),
        ),
    }
}

/// Read a verse list `chapter:selection,selection,...` after its book.
fn parse_verse_list(split: BookSplit) -> (r: Result<(Passage, Vec<BookMatch>), ParseError>)
    ensures
        segment_kind(r) == verse_list(split_view(split)),
{
    let ghost model = split_view(split);
    let (chapter_token, selection_text) = match coordinate_once_exec(split.body.as_slice()) {
        Some(pair) => pair,
        None => {
            let message = quoted_message(
                "verse list ",
                split.body.as_slice(),
                " does not match expected format",
            );
            return Err(ParseError::from_string(ParseErrorKind::PatternMismatch, message));
        },
    };
    let chapter = match parse_number(chapter_token.as_slice(), "chapter", MAX_CHAPTER_NUMBER) {
        Ok(c) => c,
        Err(e) => return Err(e),
    };
    if selection_text.len() == 0 {
        return Err(
            ParseError::new(ParseErrorKind::PatternMismatch, "verse list contains an empty selection"),
        );
    }
    let tokens = split_chars(selection_text.as_slice(), ',');
    if any_blank(tokens.as_slice()) {
        return Err(
            ParseError::new(ParseErrorKind::PatternMismatch, "verse list contains an empty selection"),
        );
    }
    proof {
        lemma_split_on_len(selection_text@, ',');
    }
    let ghost pieces = piece_views(tokens@);
    assert(verse_list(model) == list_outcome(selections(pieces, split.book, chapter), model.matches));
    let mut refs: Vec<Reference> = Vec::new();
    for i in 0..tokens.len()
        invariant
            pieces == piece_views(tokens@),
            model == split_view(split),
            verse_list(model) == list_outcome(selections(pieces, split.book, chapter), model.matches),
            valid_chapter(chapter),
            selections(pieces.take(i as int), split.book, chapter) == Ok::<
                Seq<Reference>,
                ErrorModel,
            >(refs@),
    {
        assert(pieces.take(i + 1).drop_last() == pieces.take(i as int));
        assert(pieces.take(i + 1).last() == tokens@[i as int]@);
        let token = trim_chars(tokens[i].as_slice());
        let r = match parse_verse_selection(token.as_slice(), split.book, chapter) {
            Ok(r) => r,
            Err(e) => {
                proof {
                    lemma_selections_prefix_err(pieces, i + 1, split.book, chapter);
                }
                return Err(e);
            },
        };
        refs.push(r);
    }
    assert(pieces.take(tokens@.len() as int) == pieces);
    let passage = Passage::Verses(VersePassage { selections: refs });
    Ok((passage, split.matches))
}

/// The passage named by a bare number after a book.
fn parse_number_body(single: bool, split: BookSplit) -> (r: Result<
    (Passage, Vec<BookMatch>),
    ParseError,
>)
    requires
        is_number(split.body@),
    ensures
        segment_kind(r) == number_body(single, split_view(split)),
{
    let book = split.book;
    let component = if single {
        "verse"
    } else {
        "chapter"
    };
    let n = match parse_number(split.body.as_slice(), component, MAX_CHAPTER_NUMBER) {
        Ok(n) => n,
        Err(e) => return Err(e),
    };
    let passage = if single {
        let verse = VerseRef::checked(book, 1, n);
        let mut v: Vec<Reference> = Vec::new();
        v.push(Reference::Verse(verse));
        assert(v@ =~= seq![Reference::Verse(verse)]);
        Passage::Verses(VersePassage { selections: v })
    } else {
        Passage::Chapter(ChapterPassage::checked(book, n, None))
    };
    Ok((passage, split.matches))
}

/// The passage named by a number range after a book.
fn parse_range_body(single: bool, split: BookSplit, start_token: &[char], end_token: &[char]) -> (r: Result<
    (Passage, Vec<BookMatch>),
    ParseError,
>)
    requires
        is_number(start_token@),
        is_number(end_token@),
    ensures
        segment_kind(r) == range_body(single, split_view(split), start_token@, end_token@),
{
    let book = split.book;
    let component = if single {
        "verse"
    } else {
        "chapter"
    };
    let mut start_name: Vec<char> = Vec::new();
    extend_str(&mut start_name, "start ");
    extend_str(&mut start_name, component);
    let start_name = string_of(start_name.as_slice());
    let a = match parse_number(start_token, start_name.as_str(), MAX_CHAPTER_NUMBER) {
        Ok(n) => n,
        Err(e) => return Err(e),
    };
    let mut end_name: Vec<char> = Vec::new();
    extend_str(&mut end_name, "end ");
    extend_str(&mut end_name, component);
    let end_name = string_of(end_name.as_slice());
    let b = match parse_number(end_token, end_name.as_str(), MAX_CHAPTER_NUMBER) {
        Ok(n) => n,
        Err(e) => return Err(e),
    };
    if b <= a {
        let mut v: Vec<char> = Vec::new();
        extend_str(&mut v, "end ");
        extend_str(&mut v, component);
        extend_str(&mut v, " must come after start ");
        extend_str(&mut v, component);
        return Err(
            ParseError::from_string(ParseErrorKind::SameBookRangeNotAscending, string_of(v.as_slice())),
        );
    }
    let passage = if single {
        let start = VerseRef::checked(book, 1, a);
        let end = VerseRef::checked(book, 1, b);
        proof {
            lemma_verse_of(book, 1, a);
            lemma_verse_of(book, 1, b);
        }
        let range = match VerseRange::new(start, end) {
            Ok(range) => range,
            Err(_) => {
                return Err(ParseError::new(ParseErrorKind::Unknown, "range out of order"));
            },
        };
        let mut v: Vec<Reference> = Vec::new();
        v.push(Reference::Range(range));
        assert(v@ =~= seq![Reference::Range(range)]);
        Passage::Verses(VersePassage { selections: v })
    } else {
        Passage::Chapter(ChapterPassage::checked(book, a, Some(b)))
    };
    Ok((passage, split.matches))
}

impl PassageParser {
    /// Construct a parser with bundled aliases and conventional shorthand.
    pub fn new() -> (r: PassageParser)
        ensures
            r@ == (PassageParserModel {
                parser: default_parser(),
                single: default_single_chapter_books(),
            }),
    {
        PassageParser::default()
    }

    /// Construct a passage parser around an existing reference parser.
    pub fn from_reference_parser(reference_parser: ReferenceParser) -> (r: PassageParser)
        ensures
            r@ == (PassageParserModel {
                parser: reference_parser@,
                single: default_single_chapter_books(),
            }),
    {
        PassageParser { reference_parser, single_chapter_books: default_single_books() }
    }

    /// Replace the books for which a bare number denotes a chapter-one verse;
    /// repetitions are dropped.
    pub fn with_single_chapter_books<const N: usize>(self, books: [Book; N]) -> (r: PassageParser)
        ensures
            r@ == (PassageParserModel { parser: self@.parser, single: dedup_books(books@) }),
    {
        let mut list: Vec<Book> = Vec::new();
        for i in 0..N
            invariant
                N == books@.len(),
                list@ == dedup_books(books@.take(i as int)),
        {
            assert(books@.take(i + 1).drop_last() == books@.take(i as int));
            assert(books@.take(i + 1).last() == books@[i as int]);
            if !has_book(list.as_slice(), books[i]) {
                list.push(books[i]);
            }
        }
        assert(books@.take(N as int) == books@);
        PassageParser { reference_parser: self.reference_parser, single_chapter_books: list }
    }

    /// Borrow the parser used for book-name resolution and reference parsing.
    pub fn reference_parser(&self) -> (r: &ReferenceParser)
        ensures
            r@ == self@.parser,
    {
        &self.reference_parser
    }

    /// Return the books configured for bare-number verse shorthand.
    pub fn single_chapter_books(&self) -> (r: &[Book])
        ensures
            r@ == self@.single,
    {
        self.single_chapter_books.as_slice()
    }

    /// Whether a book uses bare-number verse shorthand in this parser.
    pub fn is_single_chapter_book(&self, book: Book) -> (r: bool)
        ensures
            r == self@.single.contains(book),
    {
        has_book(self.single_chapter_books.as_slice(), book)
    }

    /// Resolve a book token with the reference parser.
    fn book_of(&self, token: &[char], language: Language) -> (r: Result<
        (Book, Vec<BookMatch>),
        ParseError,
    >)
        ensures
            step_kind(r) == book_step(spec_parse_book(self@.parser, token@, language)),
    {
        let text = string_of(token);
        match self.reference_parser.parse_book_detailed_with_language(text.as_str(), language) {
            Ok(parsed) => {
                let (book, metadata) = parsed.into_parts();
                let mut matches: Vec<BookMatch> = Vec::new();
                assert(match_views(matches@) =~= Seq::<MatchModel>::empty());
                extend_matches(&mut matches, metadata.book_matches());
                Ok((book, matches))
            },
            Err(e) => Err(e),
        }
    }

    /// Split a segment into its book token, body and resolved book.
    fn split_book_and_body(&self, s: &[char], language: Language) -> (r: Result<
        BookSplit,
        ParseError,
    >)
        ensures
            split_kind(r) == split_book(self@.parser, s@, language),
    {
        let ghost p = self@.parser;
        let mut unknown: Option<ParseError> = None;
        let mut pos: usize = s.len();
        while pos > 1
            invariant
                pos <= s@.len(),
                p == self@.parser,
                unknown matches Some(e) ==> e.spec_kind() == ParseErrorKind::UnknownBook,
                split_book(p, s@, language) == split_book_from(
                    p,
                    s@,
                    language,
                    pos - 1,
                    match unknown {
                        Some(e) => Some(e.model()),
                        None => None::<ErrorModel>,
                    },
                ),
            decreases pos,
        {
            pos -= 1;
            if is_ascii_digit(s[pos]) {
                let head = slice_chars(s, 0, pos);
                let book_token = trim_chars(head.as_slice());
                let tail = slice_chars(s, pos, s.len());
                let body = trim_chars(tail.as_slice());
                if book_token.len() > 0 && body.len() > 0 && is_ascii_digit(body[0]) {
                    match self.book_of(book_token.as_slice(), language) {
                        Ok((book, matches)) => {
                            return Ok(BookSplit { book_token, body, book, matches });
                        },
                        Err(e) => {
                            if e.kind() == ParseErrorKind::UnknownBook {
                                unknown = Some(e);
                            } else {
                                return Err(e);
                            }
                        },
                    }
                }
            }
        }
        match unknown {
            Some(e) => Err(e),
            None => {
                let message = quoted_message("passage ", s, " does not match expected format");
                Err(ParseError::from_string(ParseErrorKind::PatternMismatch, message))
            },
        }
    }

    /// The passage named by a book and the body after it.
    fn parse_body(&self, split: BookSplit, language: Language) -> (r: Result<
        (Passage, Vec<BookMatch>),
        ParseError,
    >)
        ensures
            segment_kind(r) == segment_body(self@, split_view(split), language),
    {
        proof {
            reveal(segment_body);
        }
        let single = self.is_single_chapter_book(split.book);
        if chars_is_number(split.body.as_slice()) {
            return parse_number_body(single, split);
        }
        if let Some((start_token, end_token)) = numeric_range_exec(split.body.as_slice()) {
            return parse_range_body(single, split, start_token.as_slice(), end_token.as_slice());
        }
        if chars_contains(split.body.as_slice(), ',') {
            return parse_verse_list(split);
        }
        self.parse_reference_body(split, language)
    }

    /// Parse the book token and body as one reference.
    fn parse_reference_body(&self, split: BookSplit, language: Language) -> (r: Result<
        (Passage, Vec<BookMatch>),
        ParseError,
    >)
        ensures
            segment_kind(r) == reference_body(self@.parser, split_view(split), language),
    {
        let mut input: Vec<char> = Vec::new();
        extend_chars(&mut input, split.book_token.as_slice());
        extend_str(&mut input, " ");
        extend_chars(&mut input, split.body.as_slice());
        let text = string_of(input.as_slice());
        match self.reference_parser.parse_detailed_with_language(text.as_str(), language) {
            Ok(parsed) => {
                let (reference, metadata) = parsed.into_parts();
                let mut matches: Vec<BookMatch> = Vec::new();
                assert(match_views(matches@) =~= Seq::<MatchModel>::empty());
                extend_matches(&mut matches, metadata.book_matches());
                let mut v: Vec<Reference> = Vec::new();
                v.push(reference);
                assert(v@ =~= seq![reference]);
                Ok((Passage::Verses(VersePassage { selections: v }), matches))
            },
            Err(e) => Err(e),
        }
    }

    /// Parse one semicolon-free segment.
    fn parse_segment(&self, s: &[char], language: Language) -> (r: Result<
        (Passage, Vec<BookMatch>),
        ParseError,
    >)
        ensures
            segment_kind(r) == segment(self@, s@, language),
    {
        proof {
            reveal(segment);
        }
        match self.book_of(s, language) {
            Ok((book, matches)) => {
                return Ok((Passage::Book(BookPassage { book }), matches));
            },
            Err(e) => {
                if e.kind() != ParseErrorKind::UnknownBook {
                    return Err(e);
                }
            },
        }
        let split = match self.split_book_and_body(s, language) {
            Ok(split) => split,
            Err(e) => return Err(e),
        };
        self.parse_body(split, language)
    }

    /// Parse a passage in the given language (or automatic mode).
    fn parse_detailed_inner(&self, input: &str, language: Language) -> (r: Result<
        Parsed<Passage>,
        ParseError,
    >)
        ensures
            passage_kind(r) == spec_parse_passage(self@, input@, language),
    {
        let text = chars_of(input);
        let n = parsing_form_chars(text.as_slice());
        if n.len() == 0 {
            return Err(ParseError::new(ParseErrorKind::EmptyReference, "passage must not be empty"));
        }
        let segs = split_chars(n.as_slice(), ';');
        if any_blank(segs.as_slice()) {
            return Err(
                ParseError::new(
                    ParseErrorKind::PatternMismatch,
                    "passage sequence contains an empty expression",
                ),
            );
        }
        proof {
            lemma_split_on_len(n@, ';');
        }
        let ghost pieces = piece_views(segs@);
        let mut passages: Vec<Passage> = Vec::new();
        let mut matches: Vec<BookMatch> = Vec::new();
        assert(match_views(matches@) =~= Seq::<MatchModel>::empty());
        assert(spec_parse_passage(self@, input@, language) == assemble(n@, segments(self@, pieces, language)));
        for i in 0..segs.len()
            invariant
                pieces == piece_views(segs@),
                spec_parse_passage(self@, input@, language) == assemble(
                    n@,
                    segments(self@, pieces, language),
                ),
                passages@.len() == i,
                segments(self@, pieces.take(i as int), language) == Ok::<
                    (Seq<PassageModel>, Seq<MatchModel>),
                    ErrorModel,
                >((passage_models(passages@), match_views(matches@))),
        {
            assert(pieces.take(i + 1).drop_last() == pieces.take(i as int));
            assert(pieces.take(i + 1).last() == segs@[i as int]@);
            let segment = trim_chars(segs[i].as_slice());
            let (passage, segment_matches) = match self.parse_segment(segment.as_slice(), language) {
                Ok(pair) => pair,
                Err(e) => {
                    proof {
                        lemma_segments_prefix_err(self@, pieces, i + 1, language);
                    }
                    return Err(e);
                },
            };
            let ghost before = passages@;
            passages.push(passage);
            assert(passages@.drop_last() == before);
            extend_matches(&mut matches, segment_matches.as_slice());
        }
        assert(pieces.take(segs@.len() as int) == pieces);
        proof {
            lemma_passage_models(passages@);
        }
        let value = if passages.len() == 1 {
            let mut passages = passages;
            match passages.pop() {
                Some(p) => p,
                None => {
                    return Err(ParseError::new(ParseErrorKind::Unknown, "no passage"));
                },
            }
        } else {
            Passage::Sequence(PassageSequence { passages })
        };
        let metadata = ParseMetadata::from_parts(string_of(n.as_slice()), matches);
        Ok(Parsed::new(value, metadata))
    }
}

/// The passage of a detailed outcome.
pub open spec fn passage_value(r: Result<(PassageModel, MetadataModel), ErrorModel>) -> Result<
    PassageModel,
    ErrorModel,
> {
    match r {
        Ok((p, _)) => Ok(p),
        Err(k) => Err(k),
    }
}

/// A passage outcome reduced to its model and error classification.
pub open spec fn passage_result(r: Result<Passage, ParseError>) -> Result<PassageModel, ErrorModel> {
    match r {
        Ok(p) => Ok(p@),
        Err(e) => Err(e.model()),
    }
}

/// The model of an optional passage.
pub open spec fn passage_option(r: Option<Passage>) -> Option<PassageModel> {
    match r {
        Some(p) => Some(p@),
        None => None,
    }
}

/// The passage of a detailed outcome, if any.
pub open spec fn passage_ok(r: Result<(PassageModel, MetadataModel), ErrorModel>) -> Option<
    PassageModel,
> {
    match r {
        Ok((p, _)) => Some(p),
        Err(_) => None,
    }
}

/// The default passage parser's configuration.
pub open spec fn default_passage_parser() -> PassageParserModel {
    PassageParserModel { parser: default_parser(), single: default_single_chapter_books() }
}

impl PassageParser {
    /// Parse a passage using automatic language detection.
    pub fn parse(&self, input: &str) -> (r: Result<Passage, ParseError>)
        ensures
            passage_result(r) == passage_value(spec_parse_passage(self@, input@, Language::Auto)),
    {
        match self.parse_detailed_inner(input, Language::Auto) {
            Ok(parsed) => Ok(parsed.into_value()),
            Err(e) => Err(e),
        }
    }

    /// Parse a passage using one explicit book-name language.
    pub fn parse_with_language(&self, input: &str, language: Language) -> (r: Result<
        Passage,
        ParseError,
    >)
        ensures
            passage_result(r) == passage_value(spec_parse_passage(self@, input@, language)),
    {
        match self.parse_detailed_inner(input, language) {
            Ok(parsed) => Ok(parsed.into_value()),
            Err(e) => Err(e),
        }
    }

    /// Parse a passage and retain normalization and book-resolution metadata.
    pub fn parse_detailed(&self, input: &str) -> (r: Result<Parsed<Passage>, ParseError>)
        ensures
            passage_kind(r) == spec_parse_passage(self@, input@, Language::Auto),
    {
        self.parse_detailed_inner(input, Language::Auto)
    }

    /// Parse with an explicit language and retain resolution metadata.
    pub fn parse_detailed_with_language(&self, input: &str, language: Language) -> (r: Result<
        Parsed<Passage>,
        ParseError,
    >)
        ensures
            passage_kind(r) == spec_parse_passage(self@, input@, language),
    {
        self.parse_detailed_inner(input, language)
    }

    /// Return `None` rather than an error for invalid input.
    pub fn try_parse(&self, input: &str) -> (r: Option<Passage>)
        ensures
            passage_option(r) == passage_ok(spec_parse_passage(self@, input@, Language::Auto)),
    {
        match self.parse(input) {
            Ok(p) => Some(p),
            Err(_) => None,
        }
    }

    /// Return `None` rather than an error when parsing with one language.
    pub fn try_parse_with_language(&self, input: &str, language: Language) -> (r: Option<Passage>)
        ensures
            passage_option(r) == passage_ok(spec_parse_passage(self@, input@, language)),
    {
        match self.parse_with_language(input, language) {
            Ok(p) => Some(p),
            Err(_) => None,
        }
    }
}

impl Passage {
    /// Parse a passage using automatic language detection.
    pub fn parse(input: &str) -> (r: Result<Passage, ParseError>)
        ensures
            passage_result(r) == passage_value(
                spec_parse_passage(default_passage_parser(), input@, Language::Auto),
            ),
    {
        PassageParser::new().parse(input)
    }

    /// Parse a passage using one explicit book-name language.
    pub fn parse_with_language(input: &str, language: Language) -> (r: Result<Passage, ParseError>)
        ensures
            passage_result(r) == passage_value(
                spec_parse_passage(default_passage_parser(), input@, language),
            ),
    {
        PassageParser::new().parse_with_language(input, language)
    }

    /// Parse a passage and retain book-resolution metadata.
    pub fn parse_detailed(input: &str) -> (r: Result<Parsed<Passage>, ParseError>)
        ensures
            passage_kind(r) == spec_parse_passage(default_passage_parser(), input@, Language::Auto),
    {
        PassageParser::new().parse_detailed(input)
    }

    /// Parse with one explicit language and retain book-resolution metadata.
    pub fn parse_detailed_with_language(input: &str, language: Language) -> (r: Result<
        Parsed<Passage>,
        ParseError,
    >)
        ensures
            passage_kind(r) == spec_parse_passage(default_passage_parser(), input@, language),
    {
        PassageParser::new().parse_detailed_with_language(input, language)
    }

    /// Return `None` rather than an error for invalid input.
    pub fn try_parse(input: &str) -> (r: Option<Passage>)
        ensures
            passage_option(r) == passage_ok(
                spec_parse_passage(default_passage_parser(), input@, Language::Auto),
            ),
    {
        PassageParser::new().try_parse(input)
    }

    /// Return `None` rather than an error when parsing with one language.
    pub fn try_parse_with_language(input: &str, language: Language) -> (r: Option<Passage>)
        ensures
            passage_option(r) == passage_ok(
                spec_parse_passage(default_passage_parser(), input@, language),
            ),
    {
        PassageParser::new().try_parse_with_language(input, language)
    }
}

impl core::str::FromStr for Passage {
    type Err = ParseError;

    fn from_str(input: &str) -> (r: Result<Passage, ParseError>)
        ensures
            passage_result(r) == passage_value(
                spec_parse_passage(default_passage_parser(), input@, Language::Auto),
            ),
    {
        Passage::parse(input)
    }
}

/// A decimal spelling is a trimmed number free of punctuation and spaces.
proof fn lemma_decimal_token(n: nat)
    ensures
        is_number(decimal(n)),
        digits_value(decimal(n)) == n,
        trim(decimal(n)) == decimal(n),
        forall|c: char| !is_digit(c) ==> !decimal(n).contains(c),
{
    let d = decimal(n);
    lemma_decimal(n);
    assert(is_digit(d[0]) && is_digit(d[d.len() - 1]));
    assert(leading_ws(d) == 0);
    assert(d.skip(0) =~= d);
    assert(trailing_ws(d) == 0);
    assert(d.take(d.len() as int) =~= d);
    assert forall|c: char| !is_digit(c) implies !d.contains(c) by {
        if d.contains(c) {
            let k = choose|k: int| 0 <= k < d.len() && d[k] == c;
            assert(is_digit(d[k]));
        }
    }
}

/// The first `sep` of `a`, `sep`, `b` is the one after `a` when `a` holds
/// no `sep`.
proof fn lemma_first_after(a: Seq<char>, b: Seq<char>, sep: char)
    requires
        !a.contains(sep),
    ensures
        first_index(a + seq![sep] + b, sep) == Some(a.len() as int),
{
    let s = a + seq![sep] + b;
    lemma_first_index(s, sep);
    assert(s[a.len() as int] == sep);
    assert(s.contains(sep));
    let i = first_index(s, sep)->Some_0;
    if i < a.len() {
        assert(s[i] == a[i]);
    }
}

/// A number range after a single-chapter book names verses of its
/// only chapter: `a-b` with `1 <= a < b <= 999` is the verse range `1:a` to
/// `1:b`, never a chapter range; after any other book it is chapters `a` to
/// `b`.
pub proof fn lemma_number_range_body(
    pp: PassageParserModel,
    split: SplitModel,
    language: Language,
    a: u16,
    b: u16,
)
    requires
        1 <= a < b <= MAX_CHAPTER_NUMBER,
        split.body == decimal(a as nat) + seq!['-'] + decimal(b as nat),
    ensures
        segment_body(pp, split, language) == Ok::<(PassageModel, Seq<MatchModel>), ErrorModel>(
            (
                if pp.single.contains(split.book) {
                    PassageModel::Verses(
                        seq![
                            Reference::Range(
                                range_of(verse_of(split.book, 1, a), verse_of(split.book, 1, b)),
                            ),
                        ],
                    )
                } else {
                    PassageModel::Chapter(split.book, a, Some(b))
                },
                split.matches,
            ),
        ),
{
    reveal(segment_body);
    let da = decimal(a as nat);
    let db = decimal(b as nat);
    let body = split.body;
    lemma_decimal_token(a as nat);
    lemma_decimal_token(b as nat);
    assert(!is_digit('-'));
    assert(body[da.len() as int] == '-');
    assert(!is_number(body));
    lemma_first_after(da, db, '-');
    assert(body.take(da.len() as int) =~= da);
    assert(body.skip(da.len() as int + 1) =~= db);
    assert(numeric_range(body) == Some((da, db)));
}

/// In a comma verse list, a selection `c:x-y` whose end is a bare verse is
/// the range from `c:x` to `c:y` in the list's book, whatever chapter the
/// list started in.
pub proof fn lemma_selection_bare_end(book: Book, list_chapter: u16, c: u16, x: u16, y: u16)
    requires
        1 <= c <= MAX_CHAPTER_NUMBER,
        1 <= x < y <= MAX_VERSE_NUMBER,
    ensures
        selection(
            decimal(c as nat) + seq![':'] + decimal(x as nat) + seq!['-'] + decimal(y as nat),
            book,
            list_chapter,
        ) == Ok::<Reference, ErrorModel>(
            Reference::Range(range_of(verse_of(book, c, x), verse_of(book, c, y))),
        ),
{
    let dc = decimal(c as nat);
    let dx = decimal(x as nat);
    let dy = decimal(y as nat);
    lemma_decimal_token(c as nat);
    lemma_decimal_token(x as nat);
    lemma_decimal_token(y as nat);
    let start_text = dc + seq![':'] + dx;
    let s = start_text + seq!['-'] + dy;
    assert(decimal(c as nat) + seq![':'] + decimal(x as nat) + seq!['-'] + decimal(y as nat) == s);
    assert(!is_digit('-') && !is_digit(':') && !is_digit('.'));
    assert(!start_text.contains('-')) by {
        if start_text.contains('-') {
            let k = choose|k: int| 0 <= k < start_text.len() && start_text[k] == '-';
            if k < dc.len() {
                assert(dc[k] == '-');
            } else if k > dc.len() {
                assert(dx[k - dc.len() - 1] == '-');
            }
        }
    }
    lemma_split_on_join(start_text, dy, '-');
    lemma_split_on_single(start_text, '-');
    lemma_split_on_single(dy, '-');
    let parts = split_on(s, '-');
    assert(parts =~= seq![start_text, dy]);
    // The start endpoint `c:x`.
    assert(start_text[0] == dc[0]);
    assert(start_text[start_text.len() - 1] == dx[dx.len() - 1]);
    assert(leading_ws(start_text) == 0);
    assert(start_text.skip(0) =~= start_text);
    assert(trailing_ws(start_text) == 0);
    assert(start_text.take(start_text.len() as int) =~= start_text);
    lemma_first_after(dc, dx, ':');
    lemma_first_index(start_text, '.');
    assert(!start_text.contains('.')) by {
        if start_text.contains('.') {
            let k = choose|k: int| 0 <= k < start_text.len() && start_text[k] == '.';
            if k < dc.len() {
                assert(dc[k] == '.');
            } else if k > dc.len() {
                assert(dx[k - dc.len() - 1] == '.');
            }
        }
    }
    assert(start_text.take(dc.len() as int) =~= dc);
    assert(start_text.skip(dc.len() as int + 1) =~= dx);
    assert(coordinate_once(start_text) == Some((dc, dx)));
    assert(selection_endpoint(start_text, list_chapter, "start"@) == Ok::<(u16, u16), ErrorModel>((c, x)));
    // The bare end verse `y` takes the start's chapter.
    lemma_first_index(dy, ':');
    lemma_first_index(dy, '.');
    assert(coordinate_once(dy) is None);
    assert(selection_endpoint(dy, c, "end"@) == Ok::<(u16, u16), ErrorModel>((c, y)));
    lemma_verse_of(book, c, x);
    lemma_verse_of(book, c, y);
}

/// A bare number after a single-chapter book is a verse of its only chapter;
/// after any other book it is a chapter.
pub proof fn lemma_number_body(pp: PassageParserModel, split: SplitModel, language: Language, n: u16)
    requires
        1 <= n <= MAX_CHAPTER_NUMBER,
        split.body == decimal(n as nat),
    ensures
        segment_body(pp, split, language) == Ok::<(PassageModel, Seq<MatchModel>), ErrorModel>(
            (
                if pp.single.contains(split.book) {
                    PassageModel::Verses(seq![Reference::Verse(verse_of(split.book, 1, n))])
                } else {
                    PassageModel::Chapter(split.book, n, None)
                },
                split.matches,
            ),
        ),
{
    reveal(segment_body);
    lemma_decimal_token(n as nat);
}

/// A selection `x` or `x-y` of bare verses lies in the list's chapter; a
/// selection `c:x` is that verse; and `c:x-d:y` runs between its two named
/// verses when the second comes after the first.
pub proof fn lemma_selection_shapes(book: Book, list_chapter: u16, c: u16, x: u16, d: u16, y: u16)
    requires
        1 <= list_chapter <= MAX_CHAPTER_NUMBER,
        1 <= c <= MAX_CHAPTER_NUMBER,
        1 <= d <= MAX_CHAPTER_NUMBER,
        1 <= x <= MAX_VERSE_NUMBER,
        1 <= y <= MAX_VERSE_NUMBER,
    ensures
        selection(decimal(x as nat), book, list_chapter) == Ok::<Reference, ErrorModel>(
            Reference::Verse(verse_of(book, list_chapter, x)),
        ),
        x < y ==> selection(decimal(x as nat) + seq!['-'] + decimal(y as nat), book, list_chapter)
            == Ok::<Reference, ErrorModel>(
            Reference::Range(range_of(verse_of(book, list_chapter, x), verse_of(book, list_chapter, y))),
        ),
        selection(decimal(c as nat) + seq![':'] + decimal(x as nat), book, list_chapter) == Ok::<
            Reference,
            ErrorModel,
        >(Reference::Verse(verse_of(book, c, x))),
        (c < d || (c == d && x < y)) ==> selection(
            decimal(c as nat) + seq![':'] + decimal(x as nat) + seq!['-'] + decimal(d as nat) + seq![
                ':',
            ] + decimal(y as nat),
            book,
            list_chapter,
        ) == Ok::<Reference, ErrorModel>(
            Reference::Range(range_of(verse_of(book, c, x), verse_of(book, d, y))),
        ),
{
    let dc = decimal(c as nat);
    let dd = decimal(d as nat);
    let dx = decimal(x as nat);
    let dy = decimal(y as nat);
    lemma_decimal_token(c as nat);
    lemma_decimal_token(d as nat);
    lemma_decimal_token(x as nat);
    lemma_decimal_token(y as nat);
    assert(!is_digit('-') && !is_digit(':') && !is_digit('.'));
    lemma_verse_of(book, list_chapter, x);
    lemma_verse_of(book, list_chapter, y);
    lemma_verse_of(book, c, x);
    lemma_verse_of(book, d, y);
    // A bare verse.
    lemma_split_on_single(dx, '-');
    lemma_first_index(dx, ':');
    lemma_first_index(dx, '.');
    assert(coordinate_once(dx) is None);
    assert(selection_endpoint(dx, list_chapter, "start"@) == Ok::<(u16, u16), ErrorModel>(
        (list_chapter, x),
    ));
    // Bare verses `x-y`.
    lemma_split_on_join(dx, dy, '-');
    lemma_split_on_single(dy, '-');
    assert(split_on(dx + seq!['-'] + dy, '-') =~= seq![dx, dy]);
    lemma_first_index(dy, ':');
    lemma_first_index(dy, '.');
    assert(coordinate_once(dy) is None);
    // `c:x` and `d:y`.
    lemma_coordinate_token(c, x);
    lemma_coordinate_token(d, y);
    let cx = dc + seq![':'] + dx;
    let dy2 = dd + seq![':'] + dy;
    lemma_split_on_single(cx, '-');
    lemma_split_on_join(cx, dy2, '-');
    lemma_split_on_single(dy2, '-');
    assert(split_on(cx + seq!['-'] + dy2, '-') =~= seq![cx, dy2]);
    assert(dc + seq![':'] + dx + seq!['-'] + dd + seq![':'] + dy =~= cx + seq!['-'] + dy2);
}

/// A `chapter:verse` spelling is a trimmed endpoint token without `-` that
/// reads as that chapter and verse.
proof fn lemma_coordinate_token(c: u16, x: u16)
    requires
        1 <= c <= MAX_CHAPTER_NUMBER,
        1 <= x <= MAX_VERSE_NUMBER,
    ensures
        !(decimal(c as nat) + seq![':'] + decimal(x as nat)).contains('-'),
        trim(decimal(c as nat) + seq![':'] + decimal(x as nat)) == decimal(c as nat) + seq![':']
            + decimal(x as nat),
        forall|dc: u16, pos: Seq<char>|
            #![trigger selection_endpoint(decimal(c as nat) + seq![':'] + decimal(x as nat), dc, pos)]
            selection_endpoint(decimal(c as nat) + seq![':'] + decimal(x as nat), dc, pos) == Ok::<
                (u16, u16),
                ErrorModel,
            >((c, x)),
{
    let dc = decimal(c as nat);
    let dx = decimal(x as nat);
    lemma_decimal_token(c as nat);
    lemma_decimal_token(x as nat);
    let t = dc + seq![':'] + dx;
    assert(!is_digit('-') && !is_digit(':') && !is_digit('.'));
    assert(!t.contains('-')) by {
        if t.contains('-') {
            let k = choose|k: int| 0 <= k < t.len() && t[k] == '-';
            if k < dc.len() {
                assert(dc[k] == '-');
            } else if k > dc.len() {
                assert(dx[k - dc.len() - 1] == '-');
            }
        }
    }
    assert(!t.contains('.')) by {
        if t.contains('.') {
            let k = choose|k: int| 0 <= k < t.len() && t[k] == '.';
            if k < dc.len() {
                assert(dc[k] == '.');
            } else if k > dc.len() {
                assert(dx[k - dc.len() - 1] == '.');
            }
        }
    }
    assert(t[0] == dc[0]);
    assert(t[t.len() - 1] == dx[dx.len() - 1]);
    assert(leading_ws(t) == 0);
    assert(t.skip(0) =~= t);
    assert(trailing_ws(t) == 0);
    assert(t.take(t.len() as int) =~= t);
    lemma_first_after(dc, dx, ':');
    lemma_first_index(t, '.');
    assert(t.take(dc.len() as int) =~= dc);
    assert(t.skip(dc.len() as int + 1) =~= dx);
    assert(coordinate_once(t) == Some((dc, dx)));
}

} // verus!
