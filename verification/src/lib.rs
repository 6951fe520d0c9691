use vstd::prelude::*;

pub mod book;
pub mod cli;
pub mod bundled;
pub mod error;
pub mod extractor;
pub mod formatter;
pub mod grammar;
pub mod identifiers;
pub mod language;
pub mod normalize;
pub mod parser;
pub mod passage;
pub mod reference;
pub mod text;
pub mod bundled_keys;
pub mod display_round_trip;

pub use book::{Book, ParseBookError};
pub use error::{result_model, ParseError, ParseErrorKind};
pub use extractor::{
    ExtractorConfigError, ExtractorWindow, PassageMatch, ReferenceExtractor,
    ReferenceExtractorBuilder, DEFAULT_MAX_LOOKAHEAD, DEFAULT_MAX_LOOKBEHIND,
};
pub use formatter::{
    long_name, short_name, BookNameStyle, FormattedBook, FormattedBookPassage,
    FormattedChapterPassage, FormattedPassage, FormattedPassageSequence, FormattedReference,
    FormattedVersePassage, ReferenceFormatter,
};
pub use identifiers::{
    book_from_osis_identifier, book_from_usfm_identifier, reference_from_osis_identifier,
    reference_from_usfm_identifier, IdentifierError, IdentifierErrorKind, IdentifierFormat,
    MachineIdentifiers,
};
pub use language::{Language, ParseLanguageError};
pub use parser::{
    default_parser, spec_parse, spec_parse_range, spec_parse_verse, value_of, AmbiguityPolicy,
    BookCandidate, BookMatch, ParseMetadata, Parsed, ParserBuilder, ReferenceParser,
    AUTO_LANGUAGE_PRECEDENCE, auto_language_collisions,
};
pub use passage::{
    BookPassage, ChapterPassage, Passage, PassageBuildError, PassageParser, PassageSequence,
    VersePassage, DEFAULT_SINGLE_CHAPTER_BOOKS,
};
pub use reference::{
    Coordinate, CoordinateError, RangeOrderError, Reference, VerseRange, VerseRef,
    MAX_CHAPTER_NUMBER, MAX_VERSE_NUMBER,
};

verus! {

/// Alternative name for an inclusive verse range.
pub type VerseRangeRef = VerseRange;

/// Parse a verse or inclusive verse range using automatic language detection.
pub fn parse_reference(input: &str) -> (r: Result<Reference, ParseError>)
    ensures
        result_model(r) == value_of(spec_parse(default_parser(), input@, Language::Auto)),
{
    ReferenceParser::new().parse(input)
}

/// Parse exactly one verse after normalization; range syntax is refused.
pub fn verse_ref_from_str(input: &str) -> (r: Result<VerseRef, ParseError>)
    ensures
        result_model(r) == value_of(spec_parse_verse(default_parser(), input@, Language::Auto)),
{
    ReferenceParser::new().parse_verse(input)
}

/// Parse exactly one range after normalization; a single verse is refused.
pub fn verse_range_ref_from_str(input: &str) -> (r: Result<VerseRange, ParseError>)
    ensures
        result_model(r) == value_of(spec_parse_range(default_parser(), input@, Language::Auto)),
{
    ReferenceParser::new().parse_range(input)
}

} // verus!
