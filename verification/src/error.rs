//! Typed parsing errors and stable machine-readable error codes.
use vstd::prelude::*;


verus! {

/// Stable classification for failures produced by the reference and passage parsers.
#[derive(Clone, Copy, Debug, PartialEq, Eq, Structural, Hash)]
#[non_exhaustive]
pub enum ParseErrorKind {
    /// A fallback classification for a parse failure without a more specific kind.
    Unknown,
    /// The input contains no reference text.
    EmptyReference,
    /// The input does not match the requested grammar.
    PatternMismatch,
    /// No known alias matched the book token.
    UnknownBook,
    /// A numeric token was not an integer.
    InvalidNumericToken,
    /// A chapter or verse number was zero.
    NonPositiveNumericToken,
    /// A chapter or verse number exceeded the package sanity limit.
    NumericTokenOutOfRange,
    /// No text remained in a required book token.
    EmptyBookToken,
    /// More than one distinct book matched under a rejecting policy.
    AmbiguousBook,
    /// The requested language has no built-in or custom aliases.
    UnsupportedLanguage,
    /// A same-book range does not move forward.
    SameBookRangeNotAscending,
    /// A cross-book range does not move forward in this crate's book order.
    CrossBookRangeNotAscending,
    /// A required chapter or verse number is absent.
    MissingNumericToken,
}

/// The stable snake-case code of each kind.
pub open spec fn spec_kind_code(kind: ParseErrorKind) -> Seq<char> {
    match kind {
        ParseErrorKind::Unknown => "unknown"@,
        ParseErrorKind::EmptyReference => "empty_reference"@,
        ParseErrorKind::PatternMismatch => "pattern_mismatch"@,
        ParseErrorKind::UnknownBook => "unknown_book"@,
        ParseErrorKind::InvalidNumericToken => "invalid_numeric_token"@,
        ParseErrorKind::NonPositiveNumericToken => "non_positive_numeric_token"@,
        ParseErrorKind::NumericTokenOutOfRange => "numeric_token_out_of_range"@,
        ParseErrorKind::EmptyBookToken => "empty_book_token"@,
        ParseErrorKind::AmbiguousBook => "ambiguous_book"@,
        ParseErrorKind::UnsupportedLanguage => "unsupported_language"@,
        ParseErrorKind::SameBookRangeNotAscending => "same_book_range_not_ascending"@,
        ParseErrorKind::CrossBookRangeNotAscending => "cross_book_range_not_ascending"@,
        ParseErrorKind::MissingNumericToken => "missing_numeric_token"@,
    }
}

impl ParseErrorKind {
    /// Return the stable snake-case code of this kind.
    pub fn code(self) -> (r: &'static str)
        ensures
            r@ == spec_kind_code(self),
    {
        match self {
            ParseErrorKind::Unknown => "unknown",
            ParseErrorKind::EmptyReference => "empty_reference",
            ParseErrorKind::PatternMismatch => "pattern_mismatch",
            ParseErrorKind::UnknownBook => "unknown_book",
            ParseErrorKind::InvalidNumericToken => "invalid_numeric_token",
            ParseErrorKind::NonPositiveNumericToken => "non_positive_numeric_token",
            ParseErrorKind::NumericTokenOutOfRange => "numeric_token_out_of_range",
            ParseErrorKind::EmptyBookToken => "empty_book_token",
            ParseErrorKind::AmbiguousBook => "ambiguous_book",
            ParseErrorKind::UnsupportedLanguage => "unsupported_language",
            ParseErrorKind::SameBookRangeNotAscending => "same_book_range_not_ascending",
            ParseErrorKind::CrossBookRangeNotAscending => "cross_book_range_not_ascending",
            ParseErrorKind::MissingNumericToken => "missing_numeric_token",
        }
    }
}

/// An owned, structured parse failure.
#[derive(Clone, Debug, PartialEq, Eq)]
pub struct ParseError {
    kind: ParseErrorKind,
    details: String,
}

/// A parse error as values: its classification and its diagnostic text.
pub struct ErrorModel {
    /// The classification.
    pub kind: ParseErrorKind,
    /// The diagnostic text.
    pub details: Seq<char>,
}

/// The error with the given classification and diagnostic text.
pub open spec fn fault(kind: ParseErrorKind, details: Seq<char>) -> ErrorModel {
    ErrorModel { kind, details }
}

/// A parse outcome with the error reduced to its classification and text.
pub open spec fn result_model<T>(r: Result<T, ParseError>) -> Result<T, ErrorModel> {
    match r {
        Ok(v) => Ok(v),
        Err(e) => Err(e.model()),
    }
}

impl ParseError {
    /// This error as values.
    pub open spec fn model(&self) -> ErrorModel {
        fault(self.spec_kind(), self.spec_details())
    }

    /// The classification of this error.
    pub closed spec fn spec_kind(&self) -> ParseErrorKind {
        self.kind
    }

    /// The diagnostic text of this error.
    pub closed spec fn spec_details(&self) -> Seq<char> {
        self.details@
    }

    /// Construct a parse error with a stable classification and diagnostic.
    pub fn new(kind: ParseErrorKind, details: &str) -> (e: ParseError)
        ensures
            e.spec_kind() == kind,
            e.spec_details() == details@,
    {
        ParseError { kind, details: details.to_owned() }
    }

    /// Construct a parse error from an owned diagnostic.
    pub fn from_string(kind: ParseErrorKind, details: String) -> (e: ParseError)
        ensures
            e.spec_kind() == kind,
            e.spec_details() == details@,
    {
        ParseError { kind, details }
    }

    /// Return the typed error classification.
    pub fn kind(&self) -> (r: ParseErrorKind)
        ensures
            r == self.spec_kind(),
    {
        self.kind
    }

    /// Return the stable machine-readable error code.
    pub fn code(&self) -> (r: &'static str)
        ensures
            r@ == spec_kind_code(self.spec_kind()),
    {
        self.kind.code()
    }

    /// Return a human-readable diagnostic with input-specific context.
    pub fn details(&self) -> (r: &str)
        ensures
            r@ == self.spec_details(),
    {
        self.details.as_str()
    }

    /// The code, a colon and a space, then the diagnostic.
    pub fn to_string(&self) -> (s: String)
        ensures
            s@ == spec_kind_code(self.spec_kind()) + ": "@ + self.spec_details(),
    {
        let mut s = String::new();
        s.append(self.kind.code());
        s.append(": ");
        s.append(self.details.as_str());
        s
    }
}

} // verus!
