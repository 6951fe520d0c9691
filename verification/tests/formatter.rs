use bible_io_references::{
    Book, BookNameStyle, BookPassage, ChapterPassage, Language, Passage, PassageSequence,
    Reference, ReferenceFormatter, VersePassage, VerseRange, VerseRef,
};

fn verse(book: Book, chapter: u16, verse: u16) -> VerseRef {
    VerseRef::new(book, chapter, verse).unwrap()
}

fn range(start: VerseRef, end: VerseRef) -> VerseRange {
    VerseRange::new(start, end).unwrap()
}

#[test]
fn english_defaults_and_option_builders() {
    let formatter = ReferenceFormatter::new();
    assert_eq!(formatter.language(), Language::English);
    assert_eq!(formatter.book_name_style(), BookNameStyle::Long);
    assert!(formatter.compact_ranges());
    assert_eq!(formatter.format_book(Book::John).to_string(), "John");

    let short = formatter.with_book_name_style(BookNameStyle::Short);
    assert_eq!(short.format_book(Book::John).to_string(), "jo");
    assert_eq!(short.format(verse(Book::John, 3, 16)).to_string(), "jo 3:16");

    let configured = ReferenceFormatter::with_options(Language::Greek, BookNameStyle::Long, false);
    assert_eq!(configured.language(), Language::Greek);
    assert!(!configured.compact_ranges());
    assert_eq!(configured.format(verse(Book::John, 3, 16)).to_string(), "John 3:16");
}

#[test]
fn english_ranges_compact_and_expand() {
    let formatter = ReferenceFormatter::new();
    let start = verse(Book::John, 3, 16);
    assert_eq!(
        formatter.format(range(start, verse(Book::John, 3, 18))).to_string(),
        "John 3:16-18"
    );
    assert_eq!(
        formatter.format(range(start, verse(Book::John, 4, 1))).to_string(),
        "John 3:16-4:1"
    );
    assert_eq!(
        formatter
            .with_compact_ranges(false)
            .format(range(start, verse(Book::John, 3, 18)))
            .to_string(),
        "John 3:16-John 3:18"
    );
    assert_eq!(
        formatter.format(range(start, verse(Book::Acts, 1, 2))).to_string(),
        "John 3:16-Acts 1:2"
    );
}

#[test]
fn english_passage_shapes_and_sequences() {
    let formatter = ReferenceFormatter::new();
    let chapters = ChapterPassage::new(Book::John, 3, Some(4)).unwrap();
    let selections = VersePassage::new([
        Reference::from(verse(Book::John, 3, 16)),
        Reference::from(range(verse(Book::John, 3, 18), verse(Book::John, 3, 20))),
        Reference::from(verse(Book::John, 4, 1)),
    ])
    .unwrap();
    assert_eq!(formatter.format_book_passage(BookPassage::new(Book::John)).to_string(), "John");
    assert_eq!(formatter.format_chapter_passage(chapters).to_string(), "John 3-4");
    assert_eq!(
        formatter.format_verse_passage(&selections).to_string(),
        "John 3:16,18-20,4:1"
    );
    assert_eq!(
        formatter.with_compact_ranges(false).format_verse_passage(&selections).to_string(),
        "John 3:16,John 3:18-John 3:20,John 4:1"
    );
    let sequence = PassageSequence::new([
        Passage::Book(BookPassage::new(Book::John)),
        Passage::Chapter(chapters),
        Passage::Verses(
            VersePassage::new([Reference::from(range(
                verse(Book::Acts, 2, 1),
                verse(Book::Acts, 2, 4),
            ))])
            .unwrap(),
        ),
    ])
    .unwrap();
    assert_eq!(
        formatter.format_passage_sequence(&sequence).to_string(),
        "John; John 3-4; Acts 2:1-4"
    );
    let passage = Passage::Sequence(sequence);
    assert_eq!(
        formatter.format_passage(&passage).to_string(),
        "John; John 3-4; Acts 2:1-4"
    );
}
