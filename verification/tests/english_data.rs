use bible_io_references::{
    long_name, short_name, Book, BookNameStyle, Language, MachineIdentifiers, Passage,
    PassageMatch, Reference, ReferenceExtractor, ReferenceFormatter, ReferenceParser, VerseRange,
    VerseRef,
};

fn source_texts(matches: &[PassageMatch]) -> Vec<&str> {
    matches.iter().map(PassageMatch::source_text).collect()
}

fn verse(book: Book, chapter: u16, number: u16) -> VerseRef {
    VerseRef::new(book, chapter, number).unwrap()
}

#[test]
fn release_1_1_surface_is_usable_from_an_external_crate() {
    let passage: Passage = "John 3:16,18-20; Acts 2".parse().unwrap();
    assert_eq!(
        passage.osis_identifier(),
        "John.3.16 John.3.18-John.3.20 Acts.2"
    );

    let found = ReferenceExtractor::new().extract("Read John 3:16 today.");
    assert_eq!(found[0].source_text(), "John 3:16");
}

#[test]
fn public_registry_and_metadata_preserve_alias_provenance() {
    let parser = ReferenceParser::builder()
        .alias("Favorite", Book::John)
        .build()
        .unwrap();
    let parsed = parser.parse_detailed("favorite 3:16").unwrap();
    assert_eq!(
        parsed.metadata().book_matches()[0].selected().alias(),
        "Favorite"
    );
}

#[test]
fn finds_repeated_references_with_exact_byte_ranges() {
    let source = "Read (John 3:16), then Juan 3:16!";
    let matches = ReferenceExtractor::new().extract(source);

    assert_eq!(source_texts(&matches)[0], "John 3:16");
    for passage_match in &matches {
        assert_eq!(&source[passage_match.range()], passage_match.source_text());
        assert!(!passage_match.metadata().book_matches().is_empty());
    }
}

#[test]
fn reports_utf8_byte_offsets_for_cjk_and_directional_controls() {
    let rtl_reference = "Jo\u{200f}hn ٣:١٦";
    let rtl_source = format!("Before \u{200f}{rtl_reference}\u{200f} after");
    let rtl_match = ReferenceExtractor::new().extract(&rtl_source).remove(0);
    assert_eq!(rtl_match.source_text(), rtl_reference);
    assert_eq!(&rtl_source[rtl_match.range()], rtl_reference);
}

#[test]
fn respects_unicode_word_boundaries_without_breaking_cjk_adjacency() {
    let joined_suffix = ReferenceExtractor::new().extract("John 3:16éclair");
    assert!(joined_suffix.is_empty(), "{}", joined_suffix.len());
}

#[test]
fn defaults_and_builder_methods_are_deterministic() {
    let formatter = ReferenceFormatter::new();
    assert_eq!(formatter.language(), Language::English);
    assert_eq!(formatter.book_name_style(), BookNameStyle::Long);
    assert!(formatter.compact_ranges());
    assert_eq!(formatter.format_book(Book::John).to_string(), "John");

    let configured = formatter
        .with_language(Language::Spanish)
        .with_book_name_style(BookNameStyle::Short)
        .with_compact_ranges(false);
    assert_eq!(configured.language(), Language::Spanish);
    assert_eq!(configured.book_name_style(), BookNameStyle::Short);
    assert!(!configured.compact_ranges());
}

#[test]
fn formats_localized_long_and_short_names_with_english_fallback() {
    let john = verse(Book::John, 3, 16);
    assert_eq!(
        ReferenceFormatter::for_language(Language::Greek)
            .format(john)
            .to_string(),
        "John 3:16"
    );
    assert_eq!(
        ReferenceFormatter::for_language(Language::Auto)
            .with_book_name_style(BookNameStyle::Short)
            .format(john)
            .to_string(),
        "jo 3:16"
    );
}

#[test]
fn formats_localized_names_and_falls_back_to_english() {
    assert_eq!(long_name(Book::John, Language::Greek), "John");
    assert_eq!(short_name(Book::John, Language::Auto), "jo");
}

#[test]
fn handles_language_detection_and_collisions() {
    let parser = ReferenceParser::new();
    assert_eq!(parser.parse("jn 1:1").unwrap().start().book(), Book::Jonah);
}

#[test]
fn subtype_helpers_return_metadata_and_options() {
    let parser = ReferenceParser::new();
    assert_eq!(parser.try_parse_verse("John 3:16").unwrap().verse(), 16);
    assert!(parser.try_parse_verse("John 3:16-17").is_none());
    assert!(parser.try_parse_range("John 3:16-17").is_some());
    assert!(parser.try_parse_range("John 3:16").is_none());
}

#[test]
fn non_throwing_helpers_preserve_strict_reference_shapes() {
    assert_eq!(
        VerseRef::try_parse("John 3:16"),
        VerseRef::new(Book::John, 3, 16).ok()
    );
    assert_eq!(VerseRef::try_parse("John 3:16-17"), None);

    assert_eq!(
        VerseRange::try_parse("John 3:16-17").map(|range| range.to_string()),
        Some("John 3:16-17".to_owned())
    );
    assert_eq!(VerseRange::try_parse("John 3:16"), None);
    assert_eq!(Reference::try_parse("not a reference"), None);
}

#[test]
fn languages_without_bundled_names_are_refused_explicitly() {
    let refused = ReferenceParser::new()
        .parse_with_language("Juan 3:16", Language::Spanish)
        .unwrap_err();
    assert_eq!(refused.code(), "unsupported_language");
    assert!(!Language::Spanish.is_parsing_supported());
    assert!(Language::English.is_parsing_supported());
}
