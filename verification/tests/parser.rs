use bible_io_references::{
    AmbiguityPolicy, Book, Language, ParseErrorKind, Reference, ReferenceParser, VerseRef,
};

#[test]
fn parses_verse_and_range_shapes() {
    let parser = ReferenceParser::new();
    assert_eq!(
        parser.parse("John 3:16").unwrap(),
        Reference::Verse(VerseRef::new(Book::John, 3, 16).unwrap())
    );
    assert_eq!(
        parser.parse("John 3.16-4.1").unwrap().to_string(),
        "John 3:16-4:1"
    );
    assert_eq!(
        parser.parse("John 3:16-Acts 1:2").unwrap().to_string(),
        "John 3:16-Acts 1:2"
    );
}

#[test]
fn supports_unicode_and_adjacent_coordinates() {
    let parser = ReferenceParser::new();
    assert_eq!(
        parser
            .parse("\u{200f}John\u{0663}\u{ff1a}\u{0661}\u{0666}")
            .unwrap()
            .to_string(),
        "John 3:16"
    );
    assert_eq!(
        parser.parse("1John1:1-2John1:2").unwrap().to_string(),
        "1 John 1:1-2 John 1:2"
    );
}

#[test]
fn configurable_aliases_and_rejection_are_deterministic() {
    let parser = ReferenceParser::builder()
        .language_alias(Language::Spanish, "shared", Book::John)
        .language_alias(Language::French, "shared", Book::Jonah)
        .preferred_languages([Language::French])
        .build()
        .unwrap();
    assert_eq!(
        parser.parse("shared 1:1").unwrap().start().book(),
        Book::Jonah
    );

    let rejecting = ReferenceParser::builder()
        .language_alias(Language::Spanish, "shared", Book::John)
        .language_alias(Language::French, "shared", Book::Jonah)
        .ambiguity_policy(AmbiguityPolicy::Reject)
        .build()
        .unwrap();
    assert_eq!(
        rejecting.parse("shared 1:1").unwrap_err().kind(),
        ParseErrorKind::AmbiguousBook
    );

    let custom_override = ReferenceParser::builder()
        .language_alias(Language::Greek, "jn", Book::John)
        .ambiguity_policy(AmbiguityPolicy::Reject)
        .build()
        .unwrap();
    let parsed = custom_override.parse_detailed("jn 3:16").unwrap();
    assert_eq!(parsed.value().start().book(), Book::John);
    assert_eq!(parsed.metadata().detected_language(), Some(Language::Greek));

    let global_parser = ReferenceParser::builder()
        .alias("Favorite", Book::John)
        .build()
        .unwrap();
    let global = global_parser.parse_detailed("favorite 1:1").unwrap();
    assert_eq!(global.metadata().detected_language(), None);
    assert_eq!(
        global.metadata().book_matches()[0].selected().alias(),
        "Favorite"
    );
    assert_eq!(
        global_parser.aliases().collect::<Vec<_>>(),
        vec![("Favorite", Book::John)]
    );
    assert_eq!(
        global_parser
            .parse_with_language("favorite 1:1", Language::Greek)
            .unwrap_err()
            .kind(),
        ParseErrorKind::UnsupportedLanguage
    );

    let normalized_collision = ReferenceParser::builder()
        .alias("Shared", Book::Acts)
        .alias("shared.", Book::John)
        .ambiguity_policy(AmbiguityPolicy::Reject)
        .build()
        .unwrap();
    assert_eq!(
        normalized_collision.parse("shared 1:1").unwrap_err().kind(),
        ParseErrorKind::AmbiguousBook
    );

    let unsupported_language_order = ReferenceParser::builder()
        .language_alias(Language::Vietnamese, "same", Book::John)
        .language_alias(Language::Greek, "same", Book::John)
        .build()
        .unwrap();
    let parsed = unsupported_language_order
        .parse_detailed("same 1:1")
        .unwrap();
    assert_eq!(
        parsed.metadata().detected_language(),
        Some(Language::Vietnamese)
    );
    assert_eq!(
        unsupported_language_order
            .aliases_by_language()
            .collect::<Vec<_>>(),
        vec![
            (Language::Vietnamese, "same", Book::John),
            (Language::Greek, "same", Book::John),
        ]
    );

    let priorities = ReferenceParser::builder()
        .preferred_languages([Language::French, Language::Spanish, Language::French])
        .build()
        .unwrap();
    assert_eq!(
        priorities.preferred_languages(),
        &[Language::French, Language::Spanish]
    );
    assert_eq!(
        ReferenceParser::builder()
            .preferred_languages([Language::Auto])
            .build()
            .unwrap_err()
            .kind(),
        ParseErrorKind::UnsupportedLanguage
    );
}

#[test]
fn validates_coordinates_and_order() {
    let parser = ReferenceParser::new();
    assert_eq!(
        parser.parse("John 0:1").unwrap_err().kind(),
        ParseErrorKind::NonPositiveNumericToken
    );
    assert_eq!(
        parser.parse("John 1000:1").unwrap_err().kind(),
        ParseErrorKind::NumericTokenOutOfRange
    );
    assert_eq!(
        parser.parse("John 3:17-16").unwrap_err().kind(),
        ParseErrorKind::SameBookRangeNotAscending
    );
    assert_eq!(
        parser.parse("Acts 1:2-John 3:16").unwrap_err().kind(),
        ParseErrorKind::CrossBookRangeNotAscending
    );
}

#[test]
fn every_canonical_book_form_parses() {
    let parser = ReferenceParser::new();
    for &book in Book::ALL {
        for alias in [book.full_name(), book.abbreviation()] {
            let input = format!("{alias} 1:1");
            assert_eq!(
                parser.parse(&input).unwrap().start().book(),
                book,
                "failed to round-trip {input}"
            );
        }
    }
}

#[test]
fn english_parsing_reports_the_selected_alias_and_language() {
    let parser = ReferenceParser::new();
    let parsed = parser.parse_detailed("Gen 1:1").unwrap();
    assert_eq!(parsed.value().start().book(), Book::Genesis);
    assert_eq!(parsed.metadata().normalized_input(), "Gen 1:1");
    assert_eq!(parsed.metadata().detected_language(), Some(Language::English));
    assert_eq!(parsed.metadata().book_matches()[0].token(), "Gen");
    assert_eq!(parsed.metadata().book_matches()[0].selected().alias(), "Gen");
    assert!(!parsed.metadata().has_ambiguity());
    assert_eq!(parser.parse_book("john").unwrap(), Book::John);
    assert_eq!(
        parser.parse_book("nothing").unwrap_err().kind(),
        ParseErrorKind::UnknownBook
    );
    assert_eq!(
        parser.parse("   ").unwrap_err().kind(),
        ParseErrorKind::EmptyReference
    );
    assert_eq!(
        parser.parse("John").unwrap_err().kind(),
        ParseErrorKind::MissingNumericToken
    );
    assert_eq!(
        parser.parse("John 3:16-John 3:17-18").unwrap_err().kind(),
        ParseErrorKind::PatternMismatch
    );
}
