use bible_io_references::normalize::{collapse_whitespace, normalize, normalize_for_parsing};
use bible_io_references::{
    book_from_osis_identifier, book_from_usfm_identifier, reference_from_osis_identifier,
    reference_from_usfm_identifier, Book, MachineIdentifiers, Passage, Reference,
    ReferenceExtractor, ReferenceFormatter, ReferenceParser, VerseRange, VersePassage, VerseRef,
};

fn verse(book: Book, chapter: u16, number: u16) -> VerseRef {
    VerseRef::new(book, chapter, number).unwrap()
}

#[test]
fn every_book_reads_back_from_its_identifiers() {
    for &book in Book::ALL.iter() {
        assert_eq!(book_from_osis_identifier(book.osis()), Ok(book));
        assert_eq!(book_from_usfm_identifier(book.usfm()), Ok(book));
        assert_eq!(Book::from_abbreviation(&book.abbreviation().to_uppercase()), Some(book));
    }
}

#[test]
fn every_book_name_and_code_parses_back() {
    for &book in Book::ALL.iter() {
        assert_eq!(book.to_string().parse::<Book>(), Ok(book));
        assert_eq!(book.full_name().to_uppercase().parse::<Book>(), Ok(book));
        assert_eq!(book.abbreviation().parse::<Book>(), Ok(book));
        assert_eq!(book.osis().parse::<Book>(), Ok(book));
        if book == Book::Jude {
            assert_eq!(book.usfm().parse::<Book>(), Ok(Book::Judges));
        } else {
            assert_eq!(book.usfm().parse::<Book>(), Ok(book));
        }
    }
}

#[test]
fn every_reference_shape_reads_back_from_osis_and_usfm() {
    let mut references = Vec::new();
    for (index, &book) in Book::ALL.iter().enumerate() {
        let first = verse(book, 1, 1);
        references.push(Reference::Verse(verse(book, 999, 999)));
        references.push(Reference::Range(VerseRange::new(first, verse(book, 1, 7)).unwrap()));
        references.push(Reference::Range(VerseRange::new(first, verse(book, 12, 3)).unwrap()));
        if let Some(&next) = Book::ALL.get(index + 1) {
            references.push(Reference::Range(VerseRange::new(first, verse(next, 2, 5)).unwrap()));
        }
    }
    for reference in references {
        assert_eq!(reference_from_osis_identifier(&reference.osis_identifier()), Ok(reference));
        assert_eq!(reference_from_usfm_identifier(&reference.usfm_identifier()), Ok(reference));
    }
}

#[test]
fn normalizing_twice_changes_nothing_more() {
    let input = "\u{202b}Jo\u{0301}hn\u{00a0}３：１６\u{2013}18，Acts\u{3000}2";
    let once = normalize(input);
    assert_eq!(once, "John 3:16-18,Acts 2");
    assert_eq!(normalize(&once), once);
    assert_eq!(normalize("  John  3:16 \t"), "  John  3:16 \t");
}

#[test]
fn parsing_is_unchanged_by_prior_normalization() {
    let parser = ReferenceParser::new();
    for input in ["John\u{00a0}３：１６\u{2013}18", "Acts 2\u{061b}", "\u{200e}Rom 8:28"] {
        let raw = parser.parse(input).map_err(|e| e.kind());
        let normalized = parser.parse(&normalize(input)).map_err(|e| e.kind());
        assert_eq!(raw, normalized);
        assert_eq!(
            normalize_for_parsing(input),
            normalize_for_parsing(&normalize(input))
        );
    }
}

#[test]
fn default_formatter_matches_display_for_references() {
    let formatter = ReferenceFormatter::new();
    let start = verse(Book::John, 3, 16);
    let shapes = [
        Reference::Verse(start),
        Reference::Range(VerseRange::new(start, verse(Book::John, 3, 18)).unwrap()),
        Reference::Range(VerseRange::new(start, verse(Book::John, 4, 1)).unwrap()),
        Reference::Range(VerseRange::new(start, verse(Book::Acts, 1, 2)).unwrap()),
    ];
    for reference in shapes {
        assert_eq!(formatter.format(reference).to_string(), reference.to_string());
    }
    let passage: Passage = "John 3:16,18-20,4:1; Acts 2; Romans".parse().unwrap();
    assert_eq!(formatter.format_passage(&passage).to_string(), passage.to_string());
}

#[test]
fn formatter_writes_cross_book_selections_in_full() {
    let selections = vec![
        Reference::Verse(verse(Book::John, 3, 16)),
        Reference::Range(VerseRange::new(verse(Book::John, 4, 1), verse(Book::Acts, 1, 2)).unwrap()),
    ];
    let passage = Passage::Verses(VersePassage::from_vec(selections).unwrap());
    assert_eq!(passage.to_string(), "John 3:16,4:1-Acts 1:2");
    assert_eq!(
        ReferenceFormatter::new().format_passage(&passage).to_string(),
        "John 3:16,John 4:1-Acts 1:2"
    );
}

#[test]
fn replacing_matches_by_their_own_text_returns_the_source() {
    let source = "Read John 3:16, then Acts 2:1-4; skip 1 Hezekiah 2.";
    let extractor = ReferenceExtractor::new();
    assert!(!extractor.extract(source).is_empty());
    let same = extractor.replace_matches(source, |m| m.source_text().to_owned());
    assert_eq!(same, source);
}

#[test]
fn identifier_lookup_is_exact_and_case_sensitive() {
    for &book in Book::ALL.iter() {
        assert_eq!(book_from_osis_identifier(book.osis()), Ok(book));
        assert!(book_from_osis_identifier(&book.osis().to_lowercase()).is_err()
            || book.osis().to_lowercase() == book.osis());
        assert!(book_from_usfm_identifier(&book.usfm().to_lowercase()).is_err());
        assert!(book_from_osis_identifier(&format!(" {}", book.osis())).is_err());
    }
}

#[test]
fn collapsing_and_parsing_form_are_idempotent() {
    for input in [
        " \tJohn\n  3:16\u{3000}",
        "\u{202b}Jo\u{0301}hn\u{00a0}３：１６\u{2013}18，Acts\u{3000}2  ",
        "",
        "   ",
        "Rom 8 : 28",
    ] {
        let once = collapse_whitespace(input);
        assert_eq!(collapse_whitespace(&once), once);
        let form = normalize_for_parsing(input);
        assert_eq!(normalize_for_parsing(&form), form);
    }
    assert_eq!(collapse_whitespace(" \tJohn\n  3:16\u{3000}"), "John 3:16");
}

#[test]
fn parsing_is_unchanged_by_prior_parsing_form() {
    let parser = ReferenceParser::new();
    for input in ["  John\u{00a0}３：１６\u{2013}18 ", "Acts\t\t2:1", "\u{200e}Rom  8:28", "   "] {
        let raw = parser.parse(input).map_err(|e| e.kind());
        let formed = parser.parse(&normalize_for_parsing(input)).map_err(|e| e.kind());
        assert_eq!(raw, formed);
        let raw = Passage::parse(input).map_err(|e| e.kind());
        let formed = Passage::parse(&normalize_for_parsing(input)).map_err(|e| e.kind());
        assert_eq!(raw, formed);
    }
}

#[test]
fn normalization_drops_marks_and_never_grows() {
    let input = "\u{202b}Jo\u{0301}hn\u{00a0}３：１６\u{2013}18\u{200f}\u{05b0}\u{064b}";
    let normalized = normalize(input);
    assert!(normalized.len() <= input.len());
    assert_eq!(normalized, "John 3:16-18");
    let collapsed = collapse_whitespace(" \tJohn\n  3:16\u{3000}x ");
    assert_eq!(collapsed, "John 3:16 x");
    assert!(!collapsed.contains("  "));
}

#[test]
fn detected_languages_hold_each_language_once() {
    let parser = ReferenceParser::new();
    let parsed = parser.parse_detailed("John 3:16-Acts 1:2").unwrap();
    let languages = parsed.metadata().detected_languages();
    assert_eq!(languages, vec![bible_io_references::Language::English]);
    assert_eq!(
        parsed.metadata().detected_language(),
        Some(bible_io_references::Language::English)
    );
}

#[test]
fn source_spans_tile_the_input() {
    assert_spans_tile("\u{202b}Jo\u{0301}hn\u{00a0}３：１６\u{200f}");
    assert_spans_tile("\u{200e}\u{200e}Acts 2");
}

fn assert_spans_tile(input: &str) {
    let detailed = bible_io_references::normalize::normalize_detailed(input);
    let spans = detailed.source_spans();
    assert_eq!(spans.first().unwrap().start(), 0);
    assert_eq!(spans.last().unwrap().end(), input.len());
    for pair in spans.windows(2) {
        assert!(pair[0].end() == pair[1].start() || pair[0] == pair[1]);
    }
}

#[test]
fn display_text_parses_back_for_every_book() {
    let parser = ReferenceParser::new();
    for (index, &book) in Book::ALL.iter().enumerate() {
        let first = verse(book, 1, 1);
        let mut shapes = vec![
            Reference::Verse(verse(book, 999, 999)),
            Reference::Range(VerseRange::new(first, verse(book, 1, 7)).unwrap()),
            Reference::Range(VerseRange::new(first, verse(book, 12, 3)).unwrap()),
        ];
        if let Some(&next) = Book::ALL.get(index + 1) {
            shapes.push(Reference::Range(VerseRange::new(first, verse(next, 2, 5)).unwrap()));
        }
        for reference in shapes {
            assert_eq!(parser.parse(&reference.to_string()), Ok(reference));
        }
    }
}
