//! Reusable, configurable parsing for verse references and ranges.
use vstd::prelude::*;

use crate::book::{book_at, book_index, spec_full_name, Book, BOOK_COUNT};
use crate::bundled::{bundled_alias, bundled_alias_at, bundled_language, BUNDLED_COUNT};
use crate::error::{fault, result_model, ErrorModel, ParseError, ParseErrorKind};
use crate::grammar::{find_range_separator, lemma_range_separator_bound, lemma_trailing_number_digits, parse_number, quoted_message, range_separator, spec_parse_number, spec_split_coordinate, spec_split_trailing_number, split_coordinate, split_trailing_number};
use crate::language::{spec_code, spec_parsing_supported, Language};
use crate::normalize::{is_removed, is_removed_char, lemma_parsing_form_idempotent, lemma_parsing_form_normalized, norm_char, normalize_character, normalize_seq, parsing_form, parsing_form_chars};
use crate::reference::{is_before, range_of, verse_before, verse_of, verse_text, Reference, VerseRange, VerseRef, MAX_CHAPTER_NUMBER, MAX_VERSE_NUMBER};
use crate::text::{all_digits, chars_all_digits, chars_eq, chars_of, extend_str, is_white_space, slice_chars, string_of, to_lowercase, trim, trim_chars, str_debug, lowercase, white_space};

verus! {

// ---------------------------------------------------------------------------
// Models
// ---------------------------------------------------------------------------

/// One candidate considered while resolving a book token.
pub struct CandidateModel {
    pub book: Book,
    pub alias: Seq<char>,
    pub language: Option<Language>,
    pub custom: bool,
}

/// Resolution details for one book token.
pub struct MatchModel {
    pub token: Seq<char>,
    pub selected: CandidateModel,
    pub alternatives: Seq<CandidateModel>,
}

/// Metadata of one successful parse.
pub struct MetadataModel {
    pub normalized: Seq<char>,
    pub matches: Seq<MatchModel>,
}

/// A configured alias.
pub struct AliasModel {
    pub alias: Seq<char>,
    pub book: Book,
}

/// The configuration of a reference parser.
pub struct ParserModel {
    pub aliases: Seq<AliasModel>,
    pub by_language: Seq<(Language, AliasModel)>,
    pub preferred: Seq<Language>,
    pub policy: AmbiguityPolicy,
}

// ---------------------------------------------------------------------------
// Lookup keys
// ---------------------------------------------------------------------------

/// The lowercase scalars of `s` without white space and periods.
pub open spec fn key_chars(s: Seq<char>) -> Seq<char>
    decreases s.len(),
{
    if s.len() == 0 {
        seq![]
    } else if !white_space(s.last()) && s.last() != '.' {
        key_chars(s.drop_last()).push(s.last())
    } else {
        key_chars(s.drop_last())
    }
}

/// The lookup key contributed by one scalar of a book term.
pub open spec fn key_piece(c: char) -> Seq<char> {
    if is_removed(c) {
        seq![]
    } else {
        key_chars(lowercase(norm_char(c)))
    }
}

/// The lookup key of a book term: normalized, lowercased, and stripped of
/// white space and periods.
pub open spec fn term_key(s: Seq<char>) -> Seq<char>
    decreases s.len(),
{
    if s.len() == 0 {
        seq![]
    } else {
        term_key(s.drop_last()) + key_piece(s.last())
    }
}

/// The lookup key of a book term.
pub fn normalize_book_term(term: &[char]) -> (r: Vec<char>)
    ensures
        r@ == term_key(term@),
{
    let mut out: Vec<char> = Vec::new();
    for i in 0..term.len()
        invariant
            out@ == term_key(term@.take(i as int)),
    {
        assert(term@.take(i + 1).drop_last() == term@.take(i as int));
        assert(term@.take(i + 1).last() == term@[i as int]);
        if !is_removed_char(term[i]) {
            let lower = to_lowercase(normalize_character(term[i]));
            let ghost base = out@;
            for j in 0..lower.len()
                invariant
                    out@ == base + key_chars(lower@.take(j as int)),
            {
                assert(lower@.take(j + 1).drop_last() == lower@.take(j as int));
                assert(lower@.take(j + 1).last() == lower@[j as int]);
                let c = lower[j];
                if !is_white_space(c) && c != '.' {
                    out.push(c);
                }
            }
            assert(lower@.take(lower@.len() as int) == lower@);
        } else {
            assert(key_piece(term@[i as int]) == Seq::<char>::empty());
            assert(out@ + key_piece(term@[i as int]) == out@);
        }
    }
    assert(term@.take(term@.len() as int) == term@);
    out
}

// ---------------------------------------------------------------------------
// Public value types
// ---------------------------------------------------------------------------

/// Controls how a parser handles aliases that name distinct books.
#[derive(Clone, Copy, Debug, PartialEq, Eq, Structural, Hash)]
pub enum AmbiguityPolicy {
    /// Select the first match in configured language priority order.
    PreferLanguagePriority,
    /// Reject an alias when it resolves to more than one distinct book.
    Reject,
}

impl Default for AmbiguityPolicy {
    fn default() -> (r: AmbiguityPolicy)
        ensures
            r == AmbiguityPolicy::PreferLanguagePriority,
    {
        AmbiguityPolicy::PreferLanguagePriority
    }
}

/// Built-in language priority after English during automatic detection.
pub const AUTO_LANGUAGE_PRECEDENCE: [Language; 12] = [
    Language::Arabic,
    Language::Chinese,
    Language::French,
    Language::German,
    Language::Hebrew,
    Language::Hindi,
    Language::Indonesian,
    Language::Korean,
    Language::Portuguese,
    Language::Russian,
    Language::Spanish,
    Language::Tagalog,
];

/// Built-in language priority after English.
pub open spec fn auto_precedence() -> Seq<Language> {
    seq![
        Language::Arabic,
        Language::Chinese,
        Language::French,
        Language::German,
        Language::Hebrew,
        Language::Hindi,
        Language::Indonesian,
        Language::Korean,
        Language::Portuguese,
        Language::Russian,
        Language::Spanish,
        Language::Tagalog,
    ]
}

/// Languages and modes with bundled aliases, in declaration order.
pub open spec fn supported_languages() -> Seq<Language> {
    seq![
        Language::Auto,
        Language::Arabic,
        Language::Chinese,
        Language::English,
        Language::French,
        Language::German,
        Language::Hebrew,
        Language::Hindi,
        Language::Indonesian,
        Language::Korean,
        Language::Portuguese,
        Language::Russian,
        Language::Spanish,
        Language::Tagalog,
    ]
}

/// One candidate considered while resolving a book token.
#[derive(Clone, Debug, PartialEq, Eq, Hash)]
pub struct BookCandidate {
    book: Book,
    alias: String,
    language: Option<Language>,
    custom: bool,
}

impl View for BookCandidate {
    type V = CandidateModel;

    closed spec fn view(&self) -> CandidateModel {
        CandidateModel {
            book: self.book,
            alias: self.alias@,
            language: self.language,
            custom: self.custom,
        }
    }
}

/// The models of a sequence of candidates.
pub open spec fn candidate_views(s: Seq<BookCandidate>) -> Seq<CandidateModel> {
    s.map_values(|c: BookCandidate| c@)
}

impl BookCandidate {
    /// Return the candidate book.
    pub fn book(&self) -> (r: Book)
        ensures
            r == self@.book,
    {
        self.book
    }

    /// Return the registered alias that produced this candidate.
    pub fn alias(&self) -> (r: &str)
        ensures
            r@ == self@.alias,
    {
        self.alias.as_str()
    }

    /// Return the language that contributed the alias; a language-neutral
    /// custom alias returns `None`.
    pub fn language(&self) -> (r: Option<Language>)
        ensures
            r == self@.language,
    {
        self.language
    }

    /// Whether this candidate came from parser configuration.
    pub fn is_custom(&self) -> (r: bool)
        ensures
            r == self@.custom,
    {
        self.custom
    }

    /// A copy with the same model.
    pub fn duplicate(&self) -> (r: BookCandidate)
        ensures
            r@ == self@,
    {
        BookCandidate {
            book: self.book,
            alias: self.alias.clone(),
            language: self.language,
            custom: self.custom,
        }
    }
}

/// Copies of a sequence of candidates.
fn duplicate_all(s: &[BookCandidate], from: usize) -> (r: Vec<BookCandidate>)
    requires
        from <= s@.len(),
    ensures
        candidate_views(r@) == candidate_views(s@).skip(from as int),
{
    let mut out: Vec<BookCandidate> = Vec::new();
    let mut i = from;
    while i < s.len()
        invariant
            from <= i <= s@.len(),
            candidate_views(out@) == candidate_views(s@).subrange(from as int, i as int),
        decreases s.len() - i,
    {
        out.push(s[i].duplicate());
        assert(candidate_views(s@).subrange(from as int, i + 1) == candidate_views(s@).subrange(
            from as int,
            i as int,
        ).push(s@[i as int]@));
        i += 1;
    }
    out
}

/// Resolution details for one explicit book token.
#[derive(Clone, Debug, PartialEq, Eq)]
pub struct BookMatch {
    token: String,
    selected: BookCandidate,
    alternatives: Vec<BookCandidate>,
}

impl View for BookMatch {
    type V = MatchModel;

    closed spec fn view(&self) -> MatchModel {
        MatchModel {
            token: self.token@,
            selected: self.selected@,
            alternatives: candidate_views(self.alternatives@),
        }
    }
}

/// The models of a sequence of matches.
pub open spec fn match_views(s: Seq<BookMatch>) -> Seq<MatchModel> {
    s.map_values(|m: BookMatch| m@)
}

/// Whether any alternative names a different book than the selection.
pub open spec fn match_is_ambiguous(m: MatchModel) -> bool {
    exists|i: int| 0 <= i < m.alternatives.len() && (#[trigger] m.alternatives[i]).book != m.selected.book
}

impl BookMatch {
    /// Return the normalized token as it appeared in the parsed input.
    pub fn token(&self) -> (r: &str)
        ensures
            r@ == self@.token,
    {
        self.token.as_str()
    }

    /// Return the selected candidate.
    pub fn selected(&self) -> (r: &BookCandidate)
        ensures
            r@ == self@.selected,
    {
        &self.selected
    }

    /// Return all candidates not selected by the parser.
    pub fn alternatives(&self) -> (r: &[BookCandidate])
        ensures
            candidate_views(r@) == self@.alternatives,
    {
        self.alternatives.as_slice()
    }

    /// Whether distinct books matched this token.
    pub fn is_ambiguous(&self) -> (r: bool)
        ensures
            r == match_is_ambiguous(self@),
    {
        for i in 0..self.alternatives.len()
            invariant
                forall|j: int| 0 <= j < i ==> self.alternatives@[j].book == self.selected.book,
        {
            if self.alternatives[i].book != self.selected.book {
                assert(self@.alternatives[i as int].book != self@.selected.book);
                return true;
            }
        }
        assert forall|j: int| 0 <= j < self@.alternatives.len() implies (
        #[trigger] self@.alternatives[j]).book == self@.selected.book by {
            assert(self@.alternatives[j] == self.alternatives@[j]@);
        }
        false
    }

    /// A copy with the same model.
    pub fn duplicate(&self) -> (r: BookMatch)
        ensures
            r@ == self@,
    {
        let alternatives = duplicate_all(self.alternatives.as_slice(), 0);
        assert(candidate_views(self.alternatives@).skip(0) == candidate_views(self.alternatives@));
        BookMatch {
            token: self.token.clone(),
            selected: self.selected.duplicate(),
            alternatives,
        }
    }
}

/// Copies of a sequence of matches, appended to `out`.
pub fn extend_matches(out: &mut Vec<BookMatch>, s: &[BookMatch])
    ensures
        match_views(final(out)@) == match_views(old(out)@) + match_views(s@),
{
    let ghost start = match_views(out@);
    for i in 0..s.len()
        invariant
            match_views(out@) == start + match_views(s@).take(i as int),
    {
        let ghost before = out@;
        out.push(s[i].duplicate());
        assert(match_views(out@) =~= match_views(before).push(s@[i as int]@));
        assert(match_views(s@).take(i + 1) =~= match_views(s@).take(i as int).push(s@[i as int]@));
    }
    assert(match_views(s@).take(s@.len() as int) == match_views(s@));
}

/// The selected languages without duplicates, in source order.
pub open spec fn detected_languages_upto(matches: Seq<MatchModel>) -> Seq<Language>
    decreases matches.len(),
{
    if matches.len() == 0 {
        seq![]
    } else {
        let prior = detected_languages_upto(matches.drop_last());
        match matches.last().selected.language {
            Some(l) => if prior.contains(l) {
                prior
            } else {
                prior.push(l)
            },
            None => prior,
        }
    }
}

/// The detected languages hold no language twice, and a language is among
/// them exactly when some match selected a candidate of that language.
pub proof fn lemma_detected_languages(matches: Seq<MatchModel>)
    ensures
        detected_languages_upto(matches).no_duplicates(),
        forall|l: Language|
            detected_languages_upto(matches).contains(l) <==> exists|i: int|
                0 <= i < matches.len() && (#[trigger] matches[i]).selected.language == Some(l),
    decreases matches.len(),
{
    if matches.len() > 0 {
        let prev = matches.drop_last();
        lemma_detected_languages(prev);
        let prior = detected_languages_upto(prev);
        let d = detected_languages_upto(matches);
        assert forall|l: Language| d.contains(l) <==> exists|i: int|
            0 <= i < matches.len() && (#[trigger] matches[i]).selected.language == Some(l) by {
            if d.contains(l) {
                if prior.contains(l) {
                    let i = choose|i: int| 0 <= i < prev.len() && (#[trigger] prev[i]).selected.language == Some(l);
                    assert(matches[i] == prev[i]);
                } else {
                    assert(d == prior.push(l));
                    assert(matches[matches.len() - 1].selected.language == Some(l));
                }
            }
            if exists|i: int| 0 <= i < matches.len() && (#[trigger] matches[i]).selected.language == Some(l) {
                let i = choose|i: int| 0 <= i < matches.len() && (#[trigger] matches[i]).selected.language == Some(l);
                if i < prev.len() {
                    assert(prev[i] == matches[i]);
                    assert(prior.contains(l));
                    let j = choose|j: int| 0 <= j < prior.len() && prior[j] == l;
                    assert(d[j] == l);
                } else {
                    if !prior.contains(l) {
                        assert(d == prior.push(l));
                        assert(d[prior.len() as int] == l);
                    }
                }
            }
        }
        match matches.last().selected.language {
            Some(l) => if !prior.contains(l) {
                assert forall|a: int, b: int| 0 <= a < b < d.len() implies d[a] != d[b] by {
                    if b == prior.len() {
                        assert(prior[a] != l);
                    }
                }
            },
            None => {},
        }
    }
}

/// Metadata captured during a successful parse.
#[derive(Clone, Debug, PartialEq, Eq)]
pub struct ParseMetadata {
    normalized_input: String,
    book_matches: Vec<BookMatch>,
}

impl View for ParseMetadata {
    type V = MetadataModel;

    closed spec fn view(&self) -> MetadataModel {
        MetadataModel {
            normalized: self.normalized_input@,
            matches: match_views(self.book_matches@),
        }
    }
}

/// Whether any language occurs in `v`.
fn contains_language(v: &[Language], l: Language) -> (r: bool)
    ensures
        r == v@.contains(l),
{
    for i in 0..v.len()
        invariant
            forall|j: int| 0 <= j < i ==> v@[j] != l,
    {
        if v[i] == l {
            assert(v@[i as int] == l);
            return true;
        }
    }
    false
}

impl ParseMetadata {
    /// A copy with the same model.
    pub fn duplicate(&self) -> (r: ParseMetadata)
        ensures
            r@ == self@,
    {
        let mut matches: Vec<BookMatch> = Vec::new();
        assert(match_views(matches@) =~= Seq::<MatchModel>::empty());
        extend_matches(&mut matches, self.book_matches.as_slice());
        ParseMetadata { normalized_input: self.normalized_input.clone(), book_matches: matches }
    }

    /// Metadata from a normalized input and its book matches.
    pub fn from_parts(normalized_input: String, book_matches: Vec<BookMatch>) -> (r: ParseMetadata)
        ensures
            r@ == (MetadataModel {
                normalized: normalized_input@,
                matches: match_views(book_matches@),
            }),
    {
        ParseMetadata { normalized_input, book_matches }
    }

    /// Return the parser-ready normalized input.
    pub fn normalized_input(&self) -> (r: &str)
        ensures
            r@ == self@.normalized,
    {
        self.normalized_input.as_str()
    }

    /// Return book matches in source order.
    pub fn book_matches(&self) -> (r: &[BookMatch])
        ensures
            match_views(r@) == self@.matches,
    {
        self.book_matches.as_slice()
    }

    /// Return the selected languages, without duplicates, in source order.
    pub fn detected_languages(&self) -> (r: Vec<Language>)
        ensures
            r@ == detected_languages_upto(self@.matches),
    {
        let mut languages: Vec<Language> = Vec::new();
        for i in 0..self.book_matches.len()
            invariant
                languages@ == detected_languages_upto(match_views(self.book_matches@).take(i as int)),
        {
            let ghost ms = match_views(self.book_matches@);
            assert(ms.take(i + 1).drop_last() == ms.take(i as int));
            assert(ms.take(i + 1).last() == self.book_matches@[i as int]@);
            if let Some(language) = self.book_matches[i].selected.language {
                if !contains_language(languages.as_slice(), language) {
                    languages.push(language);
                }
            }
        }
        assert(match_views(self.book_matches@).take(self.book_matches@.len() as int) == match_views(
            self.book_matches@,
        ));
        languages
    }

    /// Return a language when every localized match selected the same one.
    pub fn detected_language(&self) -> (r: Option<Language>)
        ensures
            r == (if detected_languages_upto(self@.matches).len() == 1 {
                Some(detected_languages_upto(self@.matches)[0])
            } else {
                None::<Language>
            }),
    {
        let languages = self.detected_languages();
        if languages.len() == 1 {
            Some(languages[0])
        } else {
            None
        }
    }

    /// Whether any token had candidates for distinct books.
    pub fn has_ambiguity(&self) -> (r: bool)
        ensures
            r == exists|i: int|
                0 <= i < self@.matches.len() && match_is_ambiguous(#[trigger] self@.matches[i]),
    {
        for i in 0..self.book_matches.len()
            invariant
                forall|j: int|
                    0 <= j < i ==> !match_is_ambiguous(#[trigger] self@.matches[j]),
        {
            if self.book_matches[i].is_ambiguous() {
                assert(match_is_ambiguous(self@.matches[i as int]));
                return true;
            }
        }
        false
    }

    /// Every non-selected book candidate, match by match.
    pub fn alternate_matches(&self) -> (r: Vec<&BookCandidate>)
        ensures
            r@.len() == alternate_count(self@.matches),
    {
        let mut out: Vec<&BookCandidate> = Vec::new();
        for i in 0..self.book_matches.len()
            invariant
                out@.len() == alternate_count(self@.matches.take(i as int)),
        {
            assert(self@.matches.take(i + 1).drop_last() == self@.matches.take(i as int));
            let alternatives = &self.book_matches[i].alternatives;
            for j in 0..alternatives.len()
                invariant
                    out@.len() == alternate_count(self@.matches.take(i as int)) + j,
            {
                out.push(&alternatives[j]);
            }
        }
        assert(self@.matches.take(self@.matches.len() as int) == self@.matches);
        out
    }
}

/// The total number of alternatives over all matches.
pub open spec fn alternate_count(matches: Seq<MatchModel>) -> nat
    decreases matches.len(),
{
    if matches.len() == 0 {
        0
    } else {
        alternate_count(matches.drop_last()) + matches.last().alternatives.len()
    }
}

/// A parsed value paired with detection metadata.
#[derive(Clone, Debug, PartialEq, Eq)]
pub struct Parsed<T> {
    value: T,
    metadata: ParseMetadata,
}

impl<T> Parsed<T> {
    /// The parsed value.
    pub closed spec fn spec_value(&self) -> T {
        self.value
    }

    /// The parse metadata.
    pub closed spec fn spec_metadata(&self) -> MetadataModel {
        self.metadata@
    }

    /// Construct a parsed value. Primarily useful to parser adapters.
    pub fn new(value: T, metadata: ParseMetadata) -> (r: Parsed<T>)
        ensures
            r.spec_value() == value,
            r.spec_metadata() == metadata@,
    {
        Parsed { value, metadata }
    }

    /// Borrow the parsed value.
    pub fn value(&self) -> (r: &T)
        ensures
            *r == self.spec_value(),
    {
        &self.value
    }

    /// Borrow parse metadata.
    pub fn metadata(&self) -> (r: &ParseMetadata)
        ensures
            r@ == self.spec_metadata(),
    {
        &self.metadata
    }

    /// Consume the wrapper and return the parsed value.
    pub fn into_value(self) -> (r: T)
        ensures
            r == self.spec_value(),
    {
        self.value
    }

    /// Consume the wrapper and return both components.
    pub fn into_parts(self) -> (r: (T, ParseMetadata))
        ensures
            r.0 == self.spec_value(),
            r.1@ == self.spec_metadata(),
    {
        (self.value, self.metadata)
    }
}

/// A parse outcome reduced to its value, metadata and error classification.
pub open spec fn parsed_kind<T>(r: Result<Parsed<T>, ParseError>) -> Result<(T, MetadataModel), ErrorModel> {
    match r {
        Ok(p) => Ok((p.spec_value(), p.spec_metadata())),
        Err(e) => Err(e.model()),
    }
}

// ---------------------------------------------------------------------------
// Configuration
// ---------------------------------------------------------------------------

/// Builder for a reusable [`ReferenceParser`].
#[derive(Clone, Debug)]
pub struct ParserBuilder {
    aliases: Vec<(String, Book)>,
    aliases_by_language: Vec<(Language, String, Book)>,
    preferred_languages: Vec<Language>,
    ambiguity_policy: AmbiguityPolicy,
}

/// The configuration a builder has collected.
pub struct BuilderModel {
    pub aliases: Seq<AliasModel>,
    pub by_language: Seq<(Language, AliasModel)>,
    pub preferred: Seq<Language>,
    pub policy: AmbiguityPolicy,
}

impl View for ParserBuilder {
    type V = BuilderModel;

    closed spec fn view(&self) -> BuilderModel {
        BuilderModel {
            aliases: self.aliases@.map_values(
                |a: (String, Book)| AliasModel { alias: a.0@, book: a.1 },
            ),
            by_language: self.aliases_by_language@.map_values(
                |a: (Language, String, Book)| (a.0, AliasModel { alias: a.1@, book: a.2 }),
            ),
            preferred: self.preferred_languages@,
            policy: self.ambiguity_policy,
        }
    }
}

/// `acc` followed by `l` unless `l` is the auto mode or already present.
pub open spec fn add_language(acc: Seq<Language>, l: Language) -> Seq<Language> {
    if l == Language::Auto || acc.contains(l) {
        acc
    } else {
        acc.push(l)
    }
}

/// `acc` extended by every language of `ls` in order, skipping the auto
/// mode and repetitions.
pub open spec fn add_languages(acc: Seq<Language>, ls: Seq<Language>) -> Seq<Language>
    decreases ls.len(),
{
    if ls.len() == 0 {
        acc
    } else {
        add_language(add_languages(acc, ls.drop_last()), ls.last())
    }
}

/// `ls` without repetitions, keeping first occurrences (the auto mode too).
pub open spec fn dedup_languages(ls: Seq<Language>) -> Seq<Language>
    decreases ls.len(),
{
    if ls.len() == 0 {
        seq![]
    } else if dedup_languages(ls.drop_last()).contains(ls.last()) {
        dedup_languages(ls.drop_last())
    } else {
        dedup_languages(ls.drop_last()).push(ls.last())
    }
}

/// The outcome of building a parser from a builder's configuration.
pub open spec fn spec_build(b: BuilderModel) -> Result<ParserModel, ErrorModel> {
    if b.preferred.contains(Language::Auto) {
        Err(
            fault(
                ParseErrorKind::UnsupportedLanguage,
                "preferred languages must be concrete languages, not auto mode"@,
            ),
        )
    } else if exists|i: int|
        0 <= i < b.aliases.len() && term_key((#[trigger] b.aliases[i]).alias).len() == 0 {
        Err(fault(ParseErrorKind::EmptyBookToken, "custom aliases must contain a book token"@))
    } else {
        match first_bad_language_alias(b.by_language) {
            Some(k) => Err(k),
            None => Ok(
                ParserModel {
                    aliases: b.aliases,
                    by_language: b.by_language,
                    preferred: b.preferred,
                    policy: b.policy,
                },
            ),
        }
    }
}

/// The first problem among language-specific aliases, in registration order:
/// the auto mode is rejected before an empty alias is.
pub open spec fn first_bad_language_alias(entries: Seq<(Language, AliasModel)>) -> Option<ErrorModel>
    decreases entries.len(),
{
    if entries.len() == 0 {
        None
    } else {
        match first_bad_language_alias(entries.drop_last()) {
            Some(k) => Some(k),
            None => if entries.last().0 == Language::Auto {
                Some(
                    fault(
                        ParseErrorKind::UnsupportedLanguage,
                        "language-specific aliases cannot use auto mode"@,
                    ),
                )
            } else if term_key(entries.last().1.alias).len() == 0 {
                Some(fault(ParseErrorKind::EmptyBookToken, "custom aliases must contain a book token"@))
            } else {
                None
            },
        }
    }
}

impl Default for ParserBuilder {
    fn default() -> (r: ParserBuilder)
        ensures
            r@.aliases.len() == 0,
            r@.by_language.len() == 0,
            r@.preferred.len() == 0,
            r@.policy == AmbiguityPolicy::PreferLanguagePriority,
    {
        ParserBuilder {
            aliases: Vec::new(),
            aliases_by_language: Vec::new(),
            preferred_languages: Vec::new(),
            ambiguity_policy: AmbiguityPolicy::PreferLanguagePriority,
        }
    }
}

impl ParserBuilder {
    /// Register a language-neutral alias that takes precedence over bundled data.
    pub fn alias(self, alias: &str, book: Book) -> (r: ParserBuilder)
        ensures
            r@.aliases == self@.aliases.push(AliasModel { alias: alias@, book }),
            r@.by_language == self@.by_language,
            r@.preferred == self@.preferred,
            r@.policy == self@.policy,
    {
        let mut b = self;
        let ghost before = b.aliases@;
        b.aliases.push((alias.to_owned(), book));
        assert(b@.aliases =~= self@.aliases.push(AliasModel { alias: alias@, book }));
        b
    }

    /// Register an alias that is available only for one language.
    pub fn language_alias(self, language: Language, alias: &str, book: Book) -> (r: ParserBuilder)
        ensures
            r@.aliases == self@.aliases,
            r@.by_language == self@.by_language.push((language, AliasModel { alias: alias@, book })),
            r@.preferred == self@.preferred,
            r@.policy == self@.policy,
    {
        let mut b = self;
        b.aliases_by_language.push((language, alias.to_owned(), book));
        assert(b@.by_language =~= self@.by_language.push(
            (language, AliasModel { alias: alias@, book }),
        ));
        b
    }

    /// Set languages that should rank before the built-in automatic order;
    /// repetitions are dropped.
    pub fn preferred_languages<const N: usize>(self, languages: [Language; N]) -> (r: ParserBuilder)
        ensures
            r@.aliases == self@.aliases,
            r@.by_language == self@.by_language,
            r@.preferred == dedup_languages(languages@),
            r@.policy == self@.policy,
    {
        let mut b = self;
        let mut list: Vec<Language> = Vec::new();
        for i in 0..N
            invariant
                N == languages@.len(),
                list@ == dedup_languages(languages@.take(i as int)),
        {
            assert(languages@.take(i + 1).drop_last() == languages@.take(i as int));
            assert(languages@.take(i + 1).last() == languages@[i as int]);
            let language = languages[i];
            if !contains_language(list.as_slice(), language) {
                list.push(language);
            }
        }
        assert(languages@.take(N as int) == languages@);
        b.preferred_languages = list;
        b
    }

    /// Set the ambiguity policy.
    pub fn ambiguity_policy(self, policy: AmbiguityPolicy) -> (r: ParserBuilder)
        ensures
            r@.aliases == self@.aliases,
            r@.by_language == self@.by_language,
            r@.preferred == self@.preferred,
            r@.policy == policy,
    {
        let mut b = self;
        b.ambiguity_policy = policy;
        b
    }

    /// Validate configuration and construct a reusable parser.
    pub fn build(self) -> (r: Result<ReferenceParser, ParseError>)
        ensures
            match r {
                Ok(p) => spec_build(self@) == Ok::<ParserModel, ErrorModel>(p@),
                Err(e) => spec_build(self@) == Err::<ParserModel, ErrorModel>(e.model()),
            },
    {
        let ghost model = self@;
        if contains_language(self.preferred_languages.as_slice(), Language::Auto) {
            return Err(
                ParseError::new(
                    ParseErrorKind::UnsupportedLanguage,
                    "preferred languages must be concrete languages, not auto mode",
                ),
            );
        }
        let mut aliases: Vec<CustomAlias> = Vec::new();
        for i in 0..self.aliases.len()
            invariant
                model == self@,
                !model.preferred.contains(Language::Auto),
                aliases@.len() == i,
                forall|j: int| 0 <= j < i ==> (#[trigger] aliases@[j]).wf(),
                forall|j: int|
                    0 <= j < i ==> (#[trigger] aliases@[j]).model() == model.aliases[j],
        {
            let text = chars_of(self.aliases[i].0.as_str());
            let key = normalize_book_term(text.as_slice());
            assert(model.aliases[i as int].alias == self.aliases@[i as int].0@);
            if key.len() == 0 {
                assert(term_key(model.aliases[i as int].alias).len() == 0);
                return Err(
                    ParseError::new(
                        ParseErrorKind::EmptyBookToken,
                        "custom aliases must contain a book token",
                    ),
                );
            }
            aliases.push(
                CustomAlias { key, alias: self.aliases[i].0.clone(), book: self.aliases[i].1 },
            );
        }
        assert forall|j: int| 0 <= j < model.aliases.len() implies term_key(
            (#[trigger] model.aliases[j]).alias,
        ).len() > 0 by {
            assert(aliases@[j].wf());
            assert(aliases@[j].model() == model.aliases[j]);
        }
        let mut by_language: Vec<(Language, CustomAlias)> = Vec::new();
        for i in 0..self.aliases_by_language.len()
            invariant
                model == self@,
                !model.preferred.contains(Language::Auto),
                forall|j: int|
                    0 <= j < model.aliases.len() ==> term_key(
                        (#[trigger] model.aliases[j]).alias,
                    ).len() > 0,
                by_language@.len() == i,
                first_bad_language_alias(model.by_language.take(i as int)) is None,
                forall|j: int|
                    0 <= j < i ==> (#[trigger] by_language@[j]).1.wf() && by_language@[j].0
                        != Language::Auto,
                forall|j: int|
                    0 <= j < i ==> (#[trigger] by_language@[j]).1.model() == model.by_language[j].1
                        && by_language@[j].0 == model.by_language[j].0,
        {
            let language = self.aliases_by_language[i].0;
            assert(model.by_language.take(i + 1).drop_last() == model.by_language.take(i as int));
            assert(model.by_language.take(i + 1).last() == model.by_language[i as int]);
            if language.is_auto() {
                proof {
                    lemma_first_bad_prefix(model.by_language, i as int + 1);
                }
                return Err(
                    ParseError::new(
                        ParseErrorKind::UnsupportedLanguage,
                        "language-specific aliases cannot use auto mode",
                    ),
                );
            }
            let text = chars_of(self.aliases_by_language[i].1.as_str());
            let key = normalize_book_term(text.as_slice());
            if key.len() == 0 {
                proof {
                    lemma_first_bad_prefix(model.by_language, i as int + 1);
                }
                return Err(
                    ParseError::new(
                        ParseErrorKind::EmptyBookToken,
                        "custom aliases must contain a book token",
                    ),
                );
            }
            by_language.push(
                (
                    language,
                    CustomAlias {
                        key,
                        alias: self.aliases_by_language[i].1.clone(),
                        book: self.aliases_by_language[i].2,
                    },
                ),
            );
        }
        assert(model.by_language.take(model.by_language.len() as int) == model.by_language);
        let bundled = bundled_entries();
        let parser = ReferenceParser {
            aliases,
            aliases_by_language: by_language,
            preferred_languages: self.preferred_languages,
            ambiguity_policy: self.ambiguity_policy,
            bundled,
        };
        assert(parser@.aliases =~= model.aliases);
        assert(parser@.by_language =~= model.by_language);
        Ok(parser)
    }
}

/// Once a prefix has a problem, every longer prefix reports the same one.
proof fn lemma_first_bad_prefix(entries: Seq<(Language, AliasModel)>, i: int)
    requires
        0 <= i <= entries.len(),
        first_bad_language_alias(entries.take(i)) is Some,
    ensures
        first_bad_language_alias(entries) == first_bad_language_alias(entries.take(i)),
    decreases entries.len() - i,
{
    if i < entries.len() {
        assert(entries.take(i + 1).drop_last() == entries.take(i));
        lemma_first_bad_prefix(entries, i + 1);
    } else {
        assert(entries.take(i) == entries);
    }
}

/// A configured alias with its lookup key.
#[derive(Clone, Debug)]
struct CustomAlias {
    key: Vec<char>,
    alias: String,
    book: Book,
}

impl CustomAlias {
    spec fn wf(&self) -> bool {
        self.key@ == term_key(self.alias@) && self.key@.len() > 0
    }

    spec fn model(&self) -> AliasModel {
        AliasModel { alias: self.alias@, book: self.book }
    }
}

/// A bundled alias with its lookup key.
#[derive(Clone, Debug)]
struct BundledEntry {
    key: Vec<char>,
    alias: &'static str,
    book: Book,
    language: Language,
}

/// Whether `e` is bundled alias `i` with its lookup key.
spec fn bundled_entry_ok(e: BundledEntry, i: int) -> bool {
    &&& e.alias@ == bundled_alias(i).0
    &&& e.book == bundled_alias(i).1
    &&& e.language == bundled_language(i)
    &&& e.key@ == term_key(e.alias@)
}

/// Every bundled alias with its lookup key, in registration order.
fn bundled_entries() -> (r: Vec<BundledEntry>)
    ensures
        r@.len() == BUNDLED_COUNT,
        forall|i: int| 0 <= i < BUNDLED_COUNT ==> bundled_entry_ok(#[trigger] r@[i], i),
{
    let mut out: Vec<BundledEntry> = Vec::new();
    for i in 0..BUNDLED_COUNT
        invariant
            out@.len() == i,
            forall|j: int| 0 <= j < i ==> bundled_entry_ok(#[trigger] out@[j], j),
    {
        let (alias, book, language) = bundled_alias_at(i);
        let text = chars_of(alias);
        let key = normalize_book_term(text.as_slice());
        out.push(BundledEntry { key, alias, book, language });
    }
    out
}

// ---------------------------------------------------------------------------
// Book resolution
// ---------------------------------------------------------------------------

/// Custom language-neutral candidates for a key, in registration order.
pub open spec fn neutral_candidates(aliases: Seq<AliasModel>, key: Seq<char>) -> Seq<CandidateModel>
    decreases aliases.len(),
{
    if aliases.len() == 0 {
        seq![]
    } else if term_key(aliases.last().alias) == key {
        neutral_candidates(aliases.drop_last(), key).push(
            CandidateModel {
                book: aliases.last().book,
                alias: aliases.last().alias,
                language: None,
                custom: true,
            },
        )
    } else {
        neutral_candidates(aliases.drop_last(), key)
    }
}

/// Custom candidates of one language for a key, in registration order.
pub open spec fn custom_candidates(
    entries: Seq<(Language, AliasModel)>,
    language: Language,
    key: Seq<char>,
) -> Seq<CandidateModel>
    decreases entries.len(),
{
    if entries.len() == 0 {
        seq![]
    } else if entries.last().0 == language && term_key(entries.last().1.alias) == key {
        custom_candidates(entries.drop_last(), language, key).push(
            CandidateModel {
                book: entries.last().1.book,
                alias: entries.last().1.alias,
                language: Some(language),
                custom: true,
            },
        )
    } else {
        custom_candidates(entries.drop_last(), language, key)
    }
}

/// Bundled candidates of one language for a key among the first `n`
/// bundled aliases, in registration order.
pub open spec fn bundled_candidates_upto(n: int, language: Language, key: Seq<char>) -> Seq<CandidateModel>
    decreases n,
{
    if n <= 0 {
        seq![]
    } else if bundled_language(n - 1) == language && term_key(bundled_alias(n - 1).0) == key {
        bundled_candidates_upto(n - 1, language, key).push(
            CandidateModel {
                book: bundled_alias(n - 1).1,
                alias: bundled_alias(n - 1).0,
                language: Some(language),
                custom: false,
            },
        )
    } else {
        bundled_candidates_upto(n - 1, language, key)
    }
}

/// Bundled candidates of one language for a key.
pub open spec fn bundled_candidates(language: Language, key: Seq<char>) -> Seq<CandidateModel> {
    bundled_candidates_upto(BUNDLED_COUNT as int, language, key)
}

/// Custom candidates of each language in turn.
pub open spec fn custom_over(
    entries: Seq<(Language, AliasModel)>,
    languages: Seq<Language>,
    key: Seq<char>,
) -> Seq<CandidateModel>
    decreases languages.len(),
{
    if languages.len() == 0 {
        seq![]
    } else {
        custom_over(entries, languages.drop_last(), key) + custom_candidates(
            entries,
            languages.last(),
            key,
        )
    }
}

/// Bundled candidates of each language in turn.
pub open spec fn bundled_over(languages: Seq<Language>, key: Seq<char>) -> Seq<CandidateModel>
    decreases languages.len(),
{
    if languages.len() == 0 {
        seq![]
    } else {
        bundled_over(languages.drop_last(), key) + bundled_candidates(languages.last(), key)
    }
}

/// Configured languages first, then English, then the built-in order.
pub open spec fn language_priority(p: ParserModel) -> Seq<Language> {
    add_languages(seq![], p.preferred + seq![Language::English] + auto_precedence() + supported_languages())
}

/// The languages of the language-specific aliases, in registration order.
pub open spec fn alias_languages(p: ParserModel) -> Seq<Language> {
    p.by_language.map_values(|e: (Language, AliasModel)| e.0)
}

/// The languages searched in automatic mode: the priority list, then the
/// remaining languages of custom aliases.
pub open spec fn auto_languages(p: ParserModel) -> Seq<Language> {
    add_languages(language_priority(p), alias_languages(p))
}

/// Every candidate for a key, before ordering.
pub open spec fn collected_candidates(p: ParserModel, key: Seq<char>, language: Language) -> Seq<CandidateModel> {
    neutral_candidates(p.aliases, key) + if language == Language::Auto {
        custom_over(p.by_language, auto_languages(p), key) + bundled_over(auto_languages(p), key)
    } else {
        custom_candidates(p.by_language, language, key) + bundled_candidates(language, key)
    }
}

/// The first position at or after `i` of `l` in `s`.
pub open spec fn position_from(s: Seq<Language>, i: int, l: Language) -> Option<int>
    decreases s.len() - i,
{
    if i < 0 || i >= s.len() {
        None
    } else if s[i] == l {
        Some(i)
    } else {
        position_from(s, i + 1, l)
    }
}

/// The rank of a candidate's language: zero for language-neutral aliases,
/// otherwise one more than its priority position, with unlisted languages
/// after every listed one.
pub open spec fn language_rank(priority: Seq<Language>, language: Option<Language>) -> int {
    match language {
        None => 0,
        Some(l) => match position_from(priority, 0, l) {
            Some(i) => i + 1,
            None => priority.len() as int + 1,
        },
    }
}

/// Candidate order: custom before bundled, then language rank, then
/// canonical book order.
pub open spec fn candidate_le(priority: Seq<Language>, a: CandidateModel, b: CandidateModel) -> bool {
    let ca = if a.custom {
        0int
    } else {
        1int
    };
    let cb = if b.custom {
        0int
    } else {
        1int
    };
    let ra = language_rank(priority, a.language);
    let rb = language_rank(priority, b.language);
    ca < cb || (ca == cb && (ra < rb || (ra == rb && book_index(a.book) <= book_index(b.book))))
}

/// `s` with `c` inserted after every element that orders at or before it.
pub open spec fn insert_sorted(priority: Seq<Language>, s: Seq<CandidateModel>, c: CandidateModel) -> Seq<CandidateModel>
    decreases s.len(),
{
    if s.len() == 0 || candidate_le(priority, s.last(), c) {
        s.push(c)
    } else {
        insert_sorted(priority, s.drop_last(), c).push(s.last())
    }
}

/// A stable sort of candidates.
pub open spec fn sort_candidates(priority: Seq<Language>, s: Seq<CandidateModel>) -> Seq<CandidateModel>
    decreases s.len(),
{
    if s.len() == 0 {
        seq![]
    } else {
        insert_sorted(priority, sort_candidates(priority, s.drop_last()), s.last())
    }
}

/// A position at which a contained candidate stands.
proof fn index_of_candidate(s: Seq<CandidateModel>, x: CandidateModel) -> (k: int)
    requires
        s.contains(x),
    ensures
        0 <= k < s.len(),
        s[k] == x,
{
    choose|k: int| 0 <= k < s.len() && s[k] == x
}

/// Candidates in ascending candidate order.
pub open spec fn candidates_sorted(priority: Seq<Language>, s: Seq<CandidateModel>) -> bool {
    forall|i: int, j: int| 0 <= i < j < s.len() ==> candidate_le(priority, #[trigger] s[i], #[trigger] s[j])
}

/// Candidate order is total, reflexive and transitive.
proof fn lemma_candidate_le_order(priority: Seq<Language>)
    ensures
        forall|a: CandidateModel, b: CandidateModel|
            #[trigger] candidate_le(priority, a, b) || candidate_le(priority, b, a),
        forall|a: CandidateModel, b: CandidateModel, c: CandidateModel|
            #[trigger] candidate_le(priority, a, b) && #[trigger] candidate_le(priority, b, c)
                ==> candidate_le(priority, a, c),
{
}

/// Inserting keeps candidates sorted and adds exactly the new candidate.
proof fn lemma_insert_sorted(priority: Seq<Language>, s: Seq<CandidateModel>, c: CandidateModel)
    requires
        candidates_sorted(priority, s),
    ensures
        candidates_sorted(priority, insert_sorted(priority, s, c)),
        forall|x: CandidateModel|
            #[trigger] insert_sorted(priority, s, c).contains(x) <==> (s.contains(x) || x == c),
    decreases s.len(),
{
    lemma_candidate_le_order(priority);
    let r = insert_sorted(priority, s, c);
    if s.len() == 0 || candidate_le(priority, s.last(), c) {
        assert forall|i: int, j: int| 0 <= i < j < r.len() implies candidate_le(
            priority,
            #[trigger] r[i],
            #[trigger] r[j],
        ) by {
            if j == s.len() && i < s.len() - 1 {
                assert(candidate_le(priority, s[i], s[s.len() - 1]));
            }
        }
        assert forall|x: CandidateModel| r.contains(x) <==> (s.contains(x) || x == c) by {
            if s.contains(x) {
                let k = index_of_candidate(s, x);
                assert(r[k] == x);
            }
            if x == c {
                assert(r[s.len() as int] == c);
            }
        }
    } else {
        let prev = s.drop_last();
        let last = s.last();
        assert(candidates_sorted(priority, prev)) by {
            assert forall|i: int, j: int| 0 <= i < j < prev.len() implies candidate_le(
                priority,
                #[trigger] prev[i],
                #[trigger] prev[j],
            ) by {
                assert(prev[i] == s[i] && prev[j] == s[j]);
            }
        }
        lemma_insert_sorted(priority, prev, c);
        let inner = insert_sorted(priority, prev, c);
        assert(r == inner.push(last));
        assert forall|k: int| 0 <= k < inner.len() implies candidate_le(priority, #[trigger] inner[k], last) by {
            let x = inner[k];
            assert(inner.contains(x));
            if x == c {
                assert(candidate_le(priority, c, last));
            } else {
                let m = index_of_candidate(prev, x);
                assert(s[m] == x);
                assert(candidate_le(priority, s[m], s[s.len() - 1]));
            }
        }
        assert forall|i: int, j: int| 0 <= i < j < r.len() implies candidate_le(
            priority,
            #[trigger] r[i],
            #[trigger] r[j],
        ) by {
            if j == inner.len() {
                assert(candidate_le(priority, inner[i], last));
            } else {
                assert(r[i] == inner[i] && r[j] == inner[j]);
            }
        }
        assert forall|x: CandidateModel| r.contains(x) <==> (s.contains(x) || x == c) by {
            if r.contains(x) {
                let k = index_of_candidate(r, x);
                if k < inner.len() {
                    assert(inner[k] == x);
                    assert(inner.contains(x));
                    if x != c {
                        let m = index_of_candidate(prev, x);
                        assert(s[m] == x);
                    }
                }
            }
            if s.contains(x) {
                let m = index_of_candidate(s, x);
                if m == s.len() - 1 {
                    assert(r[inner.len() as int] == x);
                } else {
                    assert(prev[m] == x);
                    assert(prev.contains(x));
                    assert(inner.contains(x));
                    let k = index_of_candidate(inner, x);
                    assert(r[k] == x);
                }
            }
            if x == c {
                assert(inner.contains(c));
                let k = index_of_candidate(inner, c);
                assert(r[k] == c);
            }
        }
    }
}

/// Sorting yields sorted candidates holding exactly the input candidates.
pub(crate) proof fn lemma_sort_candidates(priority: Seq<Language>, s: Seq<CandidateModel>)
    ensures
        candidates_sorted(priority, sort_candidates(priority, s)),
        forall|x: CandidateModel| #[trigger] sort_candidates(priority, s).contains(x) <==> s.contains(x),
    decreases s.len(),
{
    if s.len() > 0 {
        let prev = s.drop_last();
        lemma_sort_candidates(priority, prev);
        lemma_insert_sorted(priority, sort_candidates(priority, prev), s.last());
        assert forall|x: CandidateModel| s.contains(x) <==> (prev.contains(x) || x == s.last()) by {
            if s.contains(x) {
                let k = index_of_candidate(s, x);
                if k < prev.len() {
                    assert(prev[k] == x);
                }
            }
            if prev.contains(x) {
                let k = index_of_candidate(prev, x);
                assert(s[k] == x);
            }
        }
    }
}

/// De-duplication keeps the first candidate and only input candidates.
pub(crate) proof fn lemma_dedup_candidates(s: Seq<CandidateModel>)
    ensures
        s.len() > 0 ==> dedup_candidates(s).len() > 0 && dedup_candidates(s)[0] == s[0],
        forall|x: CandidateModel| dedup_candidates(s).contains(x) ==> s.contains(x),
    decreases s.len(),
{
    if s.len() > 0 {
        let prev = s.drop_last();
        lemma_dedup_candidates(prev);
        let d = dedup_candidates(s);
        let dp = dedup_candidates(prev);
        if prev.len() == 0 {
            assert(!has_identity(dp, s.last()));
        }
        assert forall|x: CandidateModel| d.contains(x) implies s.contains(x) by {
            let k = index_of_candidate(d, x);
            if k < dp.len() {
                assert(dp[k] == x);
                assert(dp.contains(x));
                let m = index_of_candidate(prev, x);
                assert(s[m] == x);
            } else {
                assert(s[s.len() - 1] == x);
            }
        }
        if prev.len() > 0 {
            assert(prev[0] == s[0]);
        }
    }
}

/// Resolution selects a least candidate: among every candidate collected
/// for the token, none orders strictly before the selected one (custom
/// aliases first, then language priority, then canonical book order).
pub proof fn lemma_resolve_selects_least(p: ParserModel, token: Seq<char>, language: Language)
    ensures
        spec_resolve(p, token, language) matches Ok(m) ==> {
            let cands = collected_candidates(p, term_key(trim(token)), language);
            &&& cands.contains(m.selected)
            &&& forall|c: CandidateModel|
                cands.contains(c) ==> candidate_le(language_priority(p), m.selected, c)
        },
{
    let priority = language_priority(p);
    let cands = collected_candidates(p, term_key(trim(token)), language);
    let sorted = sort_candidates(priority, cands);
    lemma_sort_candidates(priority, cands);
    lemma_dedup_candidates(sorted);
    lemma_candidate_le_order(priority);
    if let Ok(m) = spec_resolve(p, token, language) {
        assert(m.selected == sorted[0]);
        assert(sorted.contains(sorted[0]));
        assert forall|c: CandidateModel| cands.contains(c) implies candidate_le(priority, m.selected, c) by {
            assert(sorted.contains(c));
            let k = index_of_candidate(sorted, c);
            if k > 0 {
                assert(candidate_le(priority, sorted[0], sorted[k]));
            }
        }
    }
}

/// Two candidates with the same book, language and origin.
pub open spec fn same_identity(a: CandidateModel, b: CandidateModel) -> bool {
    a.book == b.book && a.language == b.language && a.custom == b.custom
}

/// Whether `s` holds a candidate with the identity of `c`.
pub open spec fn has_identity(s: Seq<CandidateModel>, c: CandidateModel) -> bool {
    exists|i: int| 0 <= i < s.len() && same_identity(#[trigger] s[i], c)
}

/// The first candidate of each identity, in order.
pub open spec fn dedup_candidates(s: Seq<CandidateModel>) -> Seq<CandidateModel>
    decreases s.len(),
{
    if s.len() == 0 {
        seq![]
    } else if has_identity(dedup_candidates(s.drop_last()), s.last()) {
        dedup_candidates(s.drop_last())
    } else {
        dedup_candidates(s.drop_last()).push(s.last())
    }
}

/// Whether any candidate is custom.
pub open spec fn any_custom(s: Seq<CandidateModel>) -> bool {
    exists|i: int| 0 <= i < s.len() && (#[trigger] s[i]).custom
}

/// The distinct books of the candidates considered for ambiguity: the custom
/// ones if any is custom, otherwise all of them.
pub open spec fn ambiguity_books(s: Seq<CandidateModel>, customs_only: bool) -> Seq<Book>
    decreases s.len(),
{
    if s.len() == 0 {
        seq![]
    } else {
        let prior = ambiguity_books(s.drop_last(), customs_only);
        if (customs_only && !s.last().custom) || prior.contains(s.last().book) {
            prior
        } else {
            prior.push(s.last().book)
        }
    }
}

/// English book names joined by `, `.
pub open spec fn book_names(books: Seq<Book>) -> Seq<char>
    decreases books.len(),
{
    if books.len() == 0 {
        seq![]
    } else if books.len() == 1 {
        spec_full_name(books[0])
    } else {
        book_names(books.drop_last()) + ", "@ + spec_full_name(books.last())
    }
}

/// The ordered, de-duplicated candidates for a key.
pub open spec fn final_candidates(p: ParserModel, key: Seq<char>, language: Language) -> Seq<CandidateModel> {
    dedup_candidates(sort_candidates(language_priority(p), collected_candidates(p, key, language)))
}

/// Resolving one book token: the trimmed token's lookup key must be
/// non-empty; an explicit language needs bundled or custom aliases; the first
/// ordered candidate is selected, unless a rejecting policy sees more than
/// one distinct book.
pub open spec fn spec_resolve(p: ParserModel, token: Seq<char>, language: Language) -> Result<MatchModel, ErrorModel> {
    let display = trim(token);
    let key = term_key(display);
    if key.len() == 0 {
        Err(fault(ParseErrorKind::EmptyBookToken, "book token is empty after normalization"@))
    } else if language != Language::Auto && !spec_parsing_supported(language) && !alias_languages(
        p,
    ).contains(language) {
        Err(
            fault(
                ParseErrorKind::UnsupportedLanguage,
                "no aliases are registered for language "@ + spec_code(language),
            ),
        )
    } else {
        let cands = final_candidates(p, key, language);
        if cands.len() == 0 {
            Err(
                fault(
                    ParseErrorKind::UnknownBook,
                    if language == Language::Auto {
                        "book token "@ + str_debug(display) + " did not match a known book"@
                    } else {
                        "book token "@ + str_debug(display) + " is unknown for language "@
                            + spec_code(language)
                    },
                ),
            )
        } else if p.policy == AmbiguityPolicy::Reject && ambiguity_books(cands, any_custom(cands)).len() > 1 {
            Err(
                fault(
                    ParseErrorKind::AmbiguousBook,
                    "book token "@ + str_debug(display) + " matches "@ + book_names(
                        ambiguity_books(cands, any_custom(cands)),
                    ),
                ),
            )
        } else {
            Ok(MatchModel { token: display, selected: cands[0], alternatives: cands.skip(1) })
        }
    }
}

/// A book-match outcome reduced to its model and error classification.
pub open spec fn match_kind(r: Result<BookMatch, ParseError>) -> Result<MatchModel, ErrorModel> {
    match r {
        Ok(m) => Ok(m@),
        Err(e) => Err(e.model()),
    }
}

/// A reusable parser with immutable alias and ambiguity configuration.
#[derive(Debug)]
pub struct ReferenceParser {
    aliases: Vec<CustomAlias>,
    aliases_by_language: Vec<(Language, CustomAlias)>,
    preferred_languages: Vec<Language>,
    ambiguity_policy: AmbiguityPolicy,
    bundled: Vec<BundledEntry>,
}

impl View for ReferenceParser {
    type V = ParserModel;

    closed spec fn view(&self) -> ParserModel {
        ParserModel {
            aliases: self.aliases@.map_values(|a: CustomAlias| a.model()),
            by_language: self.aliases_by_language@.map_values(
                |e: (Language, CustomAlias)| (e.0, e.1.model()),
            ),
            preferred: self.preferred_languages@,
            policy: self.ambiguity_policy,
        }
    }
}

/// The configuration of a parser with bundled aliases only.
pub open spec fn default_parser() -> ParserModel {
    ParserModel {
        aliases: seq![],
        by_language: seq![],
        preferred: seq![],
        policy: AmbiguityPolicy::PreferLanguagePriority,
    }
}

impl Default for ReferenceParser {
    fn default() -> (r: ReferenceParser)
        ensures
            r@ == default_parser(),
    {
        let r = ReferenceParser {
            aliases: Vec::new(),
            aliases_by_language: Vec::new(),
            preferred_languages: Vec::new(),
            ambiguity_policy: AmbiguityPolicy::PreferLanguagePriority,
            bundled: bundled_entries(),
        };
        assert(r@.aliases =~= Seq::<AliasModel>::empty());
        assert(r@.by_language =~= Seq::<(Language, AliasModel)>::empty());
        assert(r@.preferred =~= Seq::<Language>::empty());
        r
    }
}

/// The selected languages without duplicates, in order.
fn push_new_language(list: &mut Vec<Language>, l: Language)
    ensures
        final(list)@ == add_language(old(list)@, l),
{
    if !l.is_auto() && !contains_language(list.as_slice(), l) {
        list.push(l);
    }
}

impl ReferenceParser {
    /// Stored keys match their aliases, and the bundled registry is complete.
    #[verifier::type_invariant]
    spec fn well_formed(self) -> bool {
        &&& forall|i: int| 0 <= i < self.aliases@.len() ==> (#[trigger] self.aliases@[i]).wf()
        &&& forall|i: int|
            0 <= i < self.aliases_by_language@.len() ==> (
            #[trigger] self.aliases_by_language@[i]).1.wf()
        &&& self.bundled@.len() == BUNDLED_COUNT
        &&& forall|i: int| 0 <= i < BUNDLED_COUNT ==> bundled_entry_ok(#[trigger] self.bundled@[i], i)
    }

    /// Construct a parser with bundled aliases and automatic detection.
    pub fn new() -> (r: ReferenceParser)
        ensures
            r@ == default_parser(),
    {
        ReferenceParser::default()
    }

    /// Start configuring a parser.
    pub fn builder() -> (r: ParserBuilder)
        ensures
            r@.aliases.len() == 0,
            r@.by_language.len() == 0,
            r@.preferred.len() == 0,
            r@.policy == AmbiguityPolicy::PreferLanguagePriority,
    {
        ParserBuilder::default()
    }

    /// Return configured preferred languages.
    pub fn preferred_languages(&self) -> (r: &[Language])
        ensures
            r@ == self@.preferred,
    {
        self.preferred_languages.as_slice()
    }

    /// Configured language-neutral aliases in registration order.
    pub fn alias_list(&self) -> (r: Vec<(&str, Book)>)
        ensures
            r@.len() == self@.aliases.len(),
            forall|i: int|
                0 <= i < r@.len() ==> (#[trigger] r@[i]).0@ == self@.aliases[i].alias && r@[i].1
                    == self@.aliases[i].book,
    {
        let mut out: Vec<(&str, Book)> = Vec::new();
        for i in 0..self.aliases.len()
            invariant
                out@.len() == i,
                forall|j: int|
                    0 <= j < i ==> (#[trigger] out@[j]).0@ == self@.aliases[j].alias && out@[j].1
                        == self@.aliases[j].book,
        {
            out.push((self.aliases[i].alias.as_str(), self.aliases[i].book));
        }
        out
    }

    /// Iterate over configured language-neutral aliases in registration order.
    pub fn aliases(&self) -> (r: std::vec::IntoIter<(&str, Book)>)
        ensures
            vstd::std_specs::vec::into_iter_elts(r).len() == self@.aliases.len(),
            forall|i: int|
                0 <= i < self@.aliases.len() ==> (#[trigger] vstd::std_specs::vec::into_iter_elts(
                    r,
                )[i]).0@ == self@.aliases[i].alias && vstd::std_specs::vec::into_iter_elts(r)[i].1
                    == self@.aliases[i].book,
    {
        self.alias_list().into_iter()
    }

    /// Configured language-specific aliases in registration order.
    pub fn language_alias_list(&self) -> (r: Vec<(Language, &str, Book)>)
        ensures
            r@.len() == self@.by_language.len(),
            forall|i: int|
                0 <= i < r@.len() ==> (#[trigger] r@[i]).0 == self@.by_language[i].0 && r@[i].1@
                    == self@.by_language[i].1.alias && r@[i].2 == self@.by_language[i].1.book,
    {
        let mut out: Vec<(Language, &str, Book)> = Vec::new();
        for i in 0..self.aliases_by_language.len()
            invariant
                out@.len() == i,
                forall|j: int|
                    0 <= j < i ==> (#[trigger] out@[j]).0 == self@.by_language[j].0 && out@[j].1@
                        == self@.by_language[j].1.alias && out@[j].2
                        == self@.by_language[j].1.book,
        {
            let entry = &self.aliases_by_language[i];
            out.push((entry.0, entry.1.alias.as_str(), entry.1.book));
        }
        out
    }

    /// Iterate over configured language-specific aliases in registration order.
    pub fn aliases_by_language(&self) -> (r: std::vec::IntoIter<(Language, &str, Book)>)
        ensures
            vstd::std_specs::vec::into_iter_elts(r).len() == self@.by_language.len(),
            forall|i: int|
                0 <= i < self@.by_language.len() ==> (#[trigger] vstd::std_specs::vec::into_iter_elts(
                    r,
                )[i]).0 == self@.by_language[i].0 && vstd::std_specs::vec::into_iter_elts(r)[i].1@
                    == self@.by_language[i].1.alias && vstd::std_specs::vec::into_iter_elts(r)[i].2
                    == self@.by_language[i].1.book,
    {
        self.language_alias_list().into_iter()
    }

    /// Return this parser's ambiguity policy.
    pub fn ambiguity_policy(&self) -> (r: AmbiguityPolicy)
        ensures
            r == self@.policy,
    {
        self.ambiguity_policy
    }

    /// Configured languages first, then English, then the built-in order.
    fn language_priority(&self) -> (r: Vec<Language>)
        ensures
            r@ == language_priority(self@),
    {
        let mut fixed: Vec<Language> = Vec::new();
        for i in 0..self.preferred_languages.len()
            invariant
                fixed@ == self@.preferred.take(i as int),
        {
            fixed.push(self.preferred_languages[i]);
            assert(self@.preferred.take(i + 1) == self@.preferred.take(i as int).push(
                self@.preferred[i as int],
            ));
        }
        assert(self@.preferred.take(self@.preferred.len() as int) == self@.preferred);
        fixed.push(Language::English);
        let ghost head = fixed@;
        for i in 0..12usize
            invariant
                fixed@ == head + auto_precedence().take(i as int),
        {
            fixed.push(AUTO_LANGUAGE_PRECEDENCE[i]);
            assert(auto_precedence().take(i + 1) == auto_precedence().take(i as int).push(
                auto_precedence()[i as int],
            ));
        }
        assert(auto_precedence().take(12) == auto_precedence());
        let ghost head2 = fixed@;
        for i in 0..14usize
            invariant
                fixed@ == head2 + supported_languages().take(i as int),
        {
            fixed.push(Language::SUPPORTED[i]);
            assert(supported_languages().take(i + 1) == supported_languages().take(i as int).push(
                supported_languages()[i as int],
            ));
        }
        assert(supported_languages().take(14) == supported_languages());
        assert(fixed@ =~= self@.preferred + seq![Language::English] + auto_precedence()
            + supported_languages());
        let mut out: Vec<Language> = Vec::new();
        for i in 0..fixed.len()
            invariant
                out@ == add_languages(seq![], fixed@.take(i as int)),
        {
            assert(fixed@.take(i + 1).drop_last() == fixed@.take(i as int));
            assert(fixed@.take(i + 1).last() == fixed@[i as int]);
            push_new_language(&mut out, fixed[i]);
        }
        assert(fixed@.take(fixed@.len() as int) == fixed@);
        out
    }

    /// The priority list followed by the remaining custom-alias languages.
    fn auto_languages(&self) -> (r: Vec<Language>)
        ensures
            r@ == auto_languages(self@),
    {
        let mut out = self.language_priority();
        let ghost base = out@;
        let ghost langs = alias_languages(self@);
        for i in 0..self.aliases_by_language.len()
            invariant
                langs == alias_languages(self@),
                langs.len() == self.aliases_by_language@.len(),
                out@ == add_languages(base, langs.take(i as int)),
        {
            assert(langs.take(i + 1).drop_last() == langs.take(i as int));
            assert(langs.take(i + 1).last() == langs[i as int]);
            push_new_language(&mut out, self.aliases_by_language[i].0);
        }
        assert(langs.take(langs.len() as int) == langs);
        out
    }

    /// Whether any language-specific alias uses `language`.
    fn has_alias_language(&self, language: Language) -> (r: bool)
        ensures
            r == alias_languages(self@).contains(language),
    {
        for i in 0..self.aliases_by_language.len()
            invariant
                forall|j: int| 0 <= j < i ==> alias_languages(self@)[j] != language,
        {
            if self.aliases_by_language[i].0 == language {
                assert(alias_languages(self@)[i as int] == language);
                return true;
            }
        }
        false
    }

    /// Append the language-neutral custom candidates for `key`.
    fn collect_neutral(&self, key: &[char], out: &mut Vec<BookCandidate>)
        ensures
            candidate_views(final(out)@) == candidate_views(old(out)@) + neutral_candidates(
                self@.aliases,
                key@,
            ),
    {
        proof {
            use_type_invariant(self);
        }
        let ghost start = candidate_views(out@);
        let ghost aliases = self@.aliases;
        for i in 0..self.aliases.len()
            invariant
                aliases == self@.aliases,
                aliases.len() == self.aliases@.len(),
                forall|j: int| 0 <= j < self.aliases@.len() ==> (#[trigger] self.aliases@[j]).wf(),
                candidate_views(out@) == start + neutral_candidates(aliases.take(i as int), key@),
        {
            assert(aliases.take(i + 1).drop_last() == aliases.take(i as int));
            assert(aliases.take(i + 1).last() == aliases[i as int]);
            let alias = &self.aliases[i];
            if chars_eq(alias.key.as_slice(), key) {
                let ghost before = out@;
                out.push(
                    BookCandidate {
                        book: alias.book,
                        alias: alias.alias.clone(),
                        language: None,
                        custom: true,
                    },
                );
                assert(candidate_views(out@) == candidate_views(before).push(out@.last()@));
            }
        }
        assert(aliases.take(aliases.len() as int) == aliases);
    }

    /// Append the custom candidates of one language for `key`.
    fn collect_custom(&self, language: Language, key: &[char], out: &mut Vec<BookCandidate>)
        ensures
            candidate_views(final(out)@) == candidate_views(old(out)@) + custom_candidates(
                self@.by_language,
                language,
                key@,
            ),
    {
        proof {
            use_type_invariant(self);
        }
        let ghost start = candidate_views(out@);
        let ghost entries = self@.by_language;
        for i in 0..self.aliases_by_language.len()
            invariant
                entries == self@.by_language,
                entries.len() == self.aliases_by_language@.len(),
                forall|j: int|
                    0 <= j < self.aliases_by_language@.len() ==> (
                    #[trigger] self.aliases_by_language@[j]).1.wf(),
                candidate_views(out@) == start + custom_candidates(
                    entries.take(i as int),
                    language,
                    key@,
                ),
        {
            assert(entries.take(i + 1).drop_last() == entries.take(i as int));
            assert(entries.take(i + 1).last() == entries[i as int]);
            let entry = &self.aliases_by_language[i];
            if entry.0 == language && chars_eq(entry.1.key.as_slice(), key) {
                let ghost before = out@;
                out.push(
                    BookCandidate {
                        book: entry.1.book,
                        alias: entry.1.alias.clone(),
                        language: Some(language),
                        custom: true,
                    },
                );
                assert(candidate_views(out@) == candidate_views(before).push(out@.last()@));
            }
        }
        assert(entries.take(entries.len() as int) == entries);
    }

    /// Append the bundled candidates of one language for `key`.
    fn collect_bundled(&self, language: Language, key: &[char], out: &mut Vec<BookCandidate>)
        ensures
            candidate_views(final(out)@) == candidate_views(old(out)@) + bundled_candidates(
                language,
                key@,
            ),
    {
        proof {
            use_type_invariant(self);
        }
        let ghost start = candidate_views(out@);
        for i in 0..BUNDLED_COUNT
            invariant
                self.bundled@.len() == BUNDLED_COUNT,
                forall|j: int|
                    0 <= j < BUNDLED_COUNT ==> bundled_entry_ok(#[trigger] self.bundled@[j], j),
                candidate_views(out@) == start + bundled_candidates_upto(i as int, language, key@),
        {
            let entry = &self.bundled[i];
            assert(bundled_entry_ok(self.bundled@[i as int], i as int));
            if entry.language == language && chars_eq(entry.key.as_slice(), key) {
                let ghost before = out@;
                out.push(
                    BookCandidate {
                        book: entry.book,
                        alias: entry.alias.to_owned(),
                        language: Some(language),
                        custom: false,
                    },
                );
                assert(candidate_views(out@) == candidate_views(before).push(out@.last()@));
            }
        }
    }

    /// Every candidate for a key, before ordering.
    fn collect_candidates(&self, key: &[char], language: Language) -> (r: Vec<BookCandidate>)
        ensures
            candidate_views(r@) == collected_candidates(self@, key@, language),
    {
        let mut out: Vec<BookCandidate> = Vec::new();
        assert(candidate_views(out@) =~= Seq::<CandidateModel>::empty());
        self.collect_neutral(key, &mut out);
        let ghost after_neutral = candidate_views(out@);
        if language.is_auto() {
            let languages = self.auto_languages();
            for i in 0..languages.len()
                invariant
                    candidate_views(out@) == after_neutral + custom_over(
                        self@.by_language,
                        languages@.take(i as int),
                        key@,
                    ),
            {
                assert(languages@.take(i + 1).drop_last() == languages@.take(i as int));
                assert(languages@.take(i + 1).last() == languages@[i as int]);
                self.collect_custom(languages[i], key, &mut out);
            }
            assert(languages@.take(languages@.len() as int) == languages@);
            let ghost after_custom = candidate_views(out@);
            for i in 0..languages.len()
                invariant
                    candidate_views(out@) == after_custom + bundled_over(
                        languages@.take(i as int),
                        key@,
                    ),
            {
                assert(languages@.take(i + 1).drop_last() == languages@.take(i as int));
                assert(languages@.take(i + 1).last() == languages@[i as int]);
                self.collect_bundled(languages[i], key, &mut out);
            }
        } else {
            self.collect_custom(language, key, &mut out);
            self.collect_bundled(language, key, &mut out);
        }
        out
    }

    /// Resolve one book token to its match details.
    pub fn resolve_book(&self, token: &[char], language: Language) -> (r: Result<BookMatch, ParseError>)
        ensures
            match_kind(r) == spec_resolve(self@, token@, language),
    {
        let display = trim_chars(token);
        let key = normalize_book_term(display.as_slice());
        if key.len() == 0 {
            return Err(
                ParseError::new(ParseErrorKind::EmptyBookToken, "book token is empty after normalization"),
            );
        }
        if !language.is_auto() && !language.is_parsing_supported() && !self.has_alias_language(
            language,
        ) {
            let mut v: Vec<char> = Vec::new();
            extend_str(&mut v, "no aliases are registered for language ");
            extend_str(&mut v, language.code());
            return Err(
                ParseError::from_string(ParseErrorKind::UnsupportedLanguage, string_of(v.as_slice())),
            );
        }
        let collected = self.collect_candidates(key.as_slice(), language);
        let priority = self.language_priority();
        let sorted = sort_candidate_vec(priority.as_slice(), collected);
        let candidates = dedup_candidate_vec(sorted);
        if candidates.len() == 0 {
            let message = if language.is_auto() {
                quoted_message("book token ", display.as_slice(), " did not match a known book")
            } else {
                let mut v: Vec<char> = Vec::new();
                let head = quoted_message("book token ", display.as_slice(), " is unknown for language ");
                extend_str(&mut v, head.as_str());
                extend_str(&mut v, language.code());
                string_of(v.as_slice())
            };
            return Err(ParseError::from_string(ParseErrorKind::UnknownBook, message));
        }
        if self.ambiguity_policy == AmbiguityPolicy::Reject {
            let customs_only = any_custom_candidate(candidates.as_slice());
            let books = ambiguity_book_list(candidates.as_slice(), customs_only);
            if books.len() > 1 {
                let mut v: Vec<char> = Vec::new();
                let head = quoted_message("book token ", display.as_slice(), " matches ");
                extend_str(&mut v, head.as_str());
                for i in 0..books.len()
                    invariant
                        v@ == head@ + book_names(books@.take(i as int)),
                {
                    assert(books@.take(i + 1).drop_last() == books@.take(i as int));
                    assert(books@.take(i + 1).last() == books@[i as int]);
                    if i > 0 {
                        extend_str(&mut v, ", ");
                    } else {
                        assert(books@.take(0).len() == 0);
                    }
                    extend_str(&mut v, books[i].full_name());
                }
                assert(books@.take(books@.len() as int) == books@);
                return Err(
                    ParseError::from_string(ParseErrorKind::AmbiguousBook, string_of(v.as_slice())),
                );
            }
        }
        let selected = candidates[0].duplicate();
        let alternatives = duplicate_all(candidates.as_slice(), 1);
        Ok(BookMatch { token: string_of(display.as_slice()), selected, alternatives })
    }
}

/// Whether `a` orders at or before `b`.
fn candidate_le_exec(priority: &[Language], a: &BookCandidate, b: &BookCandidate) -> (r: bool)
    ensures
        r == candidate_le(priority@, a@, b@),
{
    let ca: u8 = if a.custom {
        0
    } else {
        1
    };
    let cb: u8 = if b.custom {
        0
    } else {
        1
    };
    let ra = language_rank_exec(priority, a.language);
    let rb = language_rank_exec(priority, b.language);
    let ba = a.book.index();
    let bb = b.book.index();
    ca < cb || (ca == cb && (ra < rb || (ra == rb && ba <= bb)))
}

/// The rank of a candidate language.
fn language_rank_exec(priority: &[Language], language: Option<Language>) -> (r: u128)
    ensures
        r == language_rank(priority@, language),
{
    match language {
        None => 0,
        Some(l) => {
            let mut i: usize = 0;
            while i < priority.len()
                invariant
                    i <= priority@.len(),
                    language == Some(l),
                    position_from(priority@, 0, l) == position_from(priority@, i as int, l),
                decreases priority.len() - i,
            {
                if priority[i] == l {
                    assert(position_from(priority@, i as int, l) == Some(i as int));
                    return i as u128 + 1;
                }
                i += 1;
            }
            priority.len() as u128 + 1
        },
    }
}

/// A stable sort of candidates.
fn sort_candidate_vec(priority: &[Language], v: Vec<BookCandidate>) -> (r: Vec<BookCandidate>)
    ensures
        candidate_views(r@) == sort_candidates(priority@, candidate_views(v@)),
{
    let mut out: Vec<BookCandidate> = Vec::new();
    for i in 0..v.len()
        invariant
            candidate_views(out@) == sort_candidates(priority@, candidate_views(v@).take(i as int)),
    {
        let ghost s = candidate_views(v@).take(i + 1);
        assert(s.drop_last() == candidate_views(v@).take(i as int));
        assert(s.last() == v@[i as int]@);
        out = insert_candidate(priority, out, &v[i]);
    }
    assert(candidate_views(v@).take(v@.len() as int) == candidate_views(v@));
    out
}

/// `v` with a copy of `c` inserted after every element ordered at or before it.
fn insert_candidate(priority: &[Language], v: Vec<BookCandidate>, c: &BookCandidate) -> (r: Vec<
    BookCandidate,
>)
    ensures
        candidate_views(r@) == insert_sorted(priority@, candidate_views(v@), c@),
{
    let ghost s = candidate_views(v@);
    let mut k: usize = v.len();
    assert(s.take(k as int) == s);
    assert(s.skip(k as int) =~= Seq::<CandidateModel>::empty());
    while k > 0 && !candidate_le_exec(priority, &v[k - 1], c)
        invariant
            k <= v@.len(),
            s == candidate_views(v@),
            insert_sorted(priority@, s, c@) == insert_sorted(priority@, s.take(k as int), c@) + s.skip(
                k as int,
            ),
        decreases k,
    {
        assert(s.take(k as int).drop_last() == s.take(k - 1));
        assert(s.take(k as int).last() == s[k - 1]);
        assert(s.skip(k - 1) == seq![s[k - 1]] + s.skip(k as int));
        k -= 1;
    }
    proof {
        if k > 0 {
            assert(s.take(k as int).last() == s[k - 1]);
        }
    }
    let mut result: Vec<BookCandidate> = Vec::new();
    for i in 0..k
        invariant
            k <= v@.len(),
            s == candidate_views(v@),
            candidate_views(result@) == s.take(i as int),
    {
        result.push(v[i].duplicate());
        assert(s.take(i + 1) == s.take(i as int).push(s[i as int]));
    }
    result.push(c.duplicate());
    let tail = duplicate_all(v.as_slice(), k);
    let ghost head = result@;
    for i in 0..tail.len()
        invariant
            candidate_views(result@) == candidate_views(head) + candidate_views(tail@).take(i as int),
    {
        let ghost before = result@;
        result.push(tail[i].duplicate());
        assert(candidate_views(result@) =~= candidate_views(before).push(tail@[i as int]@));
        assert(candidate_views(tail@).take(i + 1) == candidate_views(tail@).take(i as int).push(
            tail@[i as int]@,
        ));
    }
    assert(candidate_views(tail@).take(tail@.len() as int) == candidate_views(tail@));
    assert(candidate_views(head) == s.take(k as int).push(c@));
    result
}

/// Whether some candidate in `v` has the identity of `c`.
fn has_identity_exec(v: &[BookCandidate], c: &BookCandidate) -> (r: bool)
    ensures
        r == has_identity(candidate_views(v@), c@),
{
    for i in 0..v.len()
        invariant
            forall|j: int| 0 <= j < i ==> !same_identity(v@[j]@, c@),
    {
        let same_language = match (v[i].language, c.language) {
            (None, None) => true,
            (Some(a), Some(b)) => a == b,
            _ => false,
        };
        if v[i].book == c.book && same_language && v[i].custom == c.custom {
            assert(same_identity(candidate_views(v@)[i as int], c@));
            return true;
        }
    }
    assert forall|j: int| 0 <= j < candidate_views(v@).len() implies !same_identity(
        #[trigger] candidate_views(v@)[j],
        c@,
    ) by {
        assert(candidate_views(v@)[j] == v@[j]@);
    }
    false
}

/// The first candidate of each identity, in order.
fn dedup_candidate_vec(v: Vec<BookCandidate>) -> (r: Vec<BookCandidate>)
    ensures
        candidate_views(r@) == dedup_candidates(candidate_views(v@)),
{
    let mut out: Vec<BookCandidate> = Vec::new();
    for i in 0..v.len()
        invariant
            candidate_views(out@) == dedup_candidates(candidate_views(v@).take(i as int)),
    {
        let ghost s = candidate_views(v@).take(i + 1);
        assert(s.drop_last() == candidate_views(v@).take(i as int));
        assert(s.last() == v@[i as int]@);
        if !has_identity_exec(out.as_slice(), &v[i]) {
            let ghost before = out@;
            out.push(v[i].duplicate());
            assert(candidate_views(out@) == candidate_views(before).push(v@[i as int]@));
        }
    }
    assert(candidate_views(v@).take(v@.len() as int) == candidate_views(v@));
    out
}

/// Whether any candidate is custom.
fn any_custom_candidate(v: &[BookCandidate]) -> (r: bool)
    ensures
        r == any_custom(candidate_views(v@)),
{
    for i in 0..v.len()
        invariant
            forall|j: int| 0 <= j < i ==> !v@[j].custom,
    {
        if v[i].custom {
            assert(candidate_views(v@)[i as int].custom);
            return true;
        }
    }
    assert forall|j: int| 0 <= j < candidate_views(v@).len() implies !(
    #[trigger] candidate_views(v@)[j]).custom by {
        assert(candidate_views(v@)[j] == v@[j]@);
    }
    false
}

/// Whether a book occurs in `v`.
fn contains_book(v: &[Book], b: Book) -> (r: bool)
    ensures
        r == v@.contains(b),
{
    for i in 0..v.len()
        invariant
            forall|j: int| 0 <= j < i ==> v@[j] != b,
    {
        if v[i] == b {
            assert(v@[i as int] == b);
            return true;
        }
    }
    false
}

/// The distinct books considered for ambiguity.
fn ambiguity_book_list(v: &[BookCandidate], customs_only: bool) -> (r: Vec<Book>)
    ensures
        r@ == ambiguity_books(candidate_views(v@), customs_only),
{
    let mut out: Vec<Book> = Vec::new();
    for i in 0..v.len()
        invariant
            out@ == ambiguity_books(candidate_views(v@).take(i as int), customs_only),
    {
        let ghost s = candidate_views(v@).take(i + 1);
        assert(s.drop_last() == candidate_views(v@).take(i as int));
        assert(s.last() == v@[i as int]@);
        if !((customs_only && !v[i].custom) || contains_book(out.as_slice(), v[i].book)) {
            out.push(v[i].book);
        }
    }
    assert(candidate_views(v@).take(v@.len() as int) == candidate_views(v@));
    out
}

// ---------------------------------------------------------------------------
// Reference grammar
// ---------------------------------------------------------------------------

/// A parse step reduced to its value, its book matches and its error
/// classification.
pub open spec fn step_kind<T>(r: Result<(T, Vec<BookMatch>), ParseError>) -> Result<
    (T, Seq<MatchModel>),
    ErrorModel,
> {
    match r {
        Ok((v, ms)) => Ok((v, match_views(ms@))),
        Err(e) => Err(e.model()),
    }
}

/// Reading a chapter and a verse token once the book is known.
pub open spec fn spec_coordinates(
    book: Book,
    chapter_token: Seq<char>,
    verse_token: Seq<char>,
    chapter_name: Seq<char>,
    verse_name: Seq<char>,
    matches: Seq<MatchModel>,
) -> Result<(VerseRef, Seq<MatchModel>), ErrorModel> {
    match spec_parse_number(chapter_token, chapter_name, MAX_CHAPTER_NUMBER) {
        Err(k) => Err(k),
        Ok(c) => match spec_parse_number(verse_token, verse_name, MAX_VERSE_NUMBER) {
            Err(k) => Err(k),
            Ok(v) => Ok((verse_of(book, c, v), matches)),
        },
    }
}

/// Parsing `Book Chapter:Verse`: the verse token follows the last `:` or
/// `.`, the chapter is the digit run before it, and the rest names the book.
pub open spec fn spec_full_endpoint(p: ParserModel, s: Seq<char>, language: Language) -> Result<
    (VerseRef, Seq<MatchModel>),
    ErrorModel,
> {
    match spec_split_coordinate(s) {
        Err(k) => Err(k),
        Ok((left, verse_token)) => match spec_split_trailing_number(left, "chapter"@) {
            Err(k) => Err(k),
            Ok((book_token, chapter_token)) => match spec_resolve(p, book_token, language) {
                Err(k) => Err(k),
                Ok(m) => spec_coordinates(
                    m.selected.book,
                    chapter_token,
                    verse_token,
                    "chapter"@,
                    "verse"@,
                    seq![m],
                ),
            },
        },
    }
}

/// Parsing the end of a range: a bare verse number keeps the start's book and
/// chapter, `Chapter:Verse` keeps its book, and a full endpoint names its own.
pub open spec fn spec_range_end(
    p: ParserModel,
    s: Seq<char>,
    start: VerseRef,
    language: Language,
) -> Result<(VerseRef, Seq<MatchModel>), ErrorModel> {
    let t = trim(s);
    if all_digits(t) {
        match spec_parse_number(t, "end verse"@, MAX_VERSE_NUMBER) {
            Err(k) => Err(k),
            Ok(v) => Ok((verse_of(start.spec_book(), start.spec_chapter(), v), seq![])),
        }
    } else {
        match spec_split_coordinate(t) {
            Err(k) => Err(k),
            Ok((left, verse_token)) => match spec_split_trailing_number(left, "end chapter"@) {
                Err(k) => Err(k),
                Ok((book_token, chapter_token)) => if trim(book_token).len() == 0 {
                    spec_coordinates(
                        start.spec_book(),
                        chapter_token,
                        verse_token,
                        "end chapter"@,
                        "end verse"@,
                        seq![],
                    )
                } else {
                    match spec_resolve(p, book_token, language) {
                        Err(k) => Err(k),
                        Ok(m) => spec_coordinates(
                            m.selected.book,
                            chapter_token,
                            verse_token,
                            "end chapter"@,
                            "end verse"@,
                            seq![m],
                        ),
                    }
                },
            },
        }
    }
}

/// Parsing normalized range text: exactly one range separator between two
/// non-empty endpoints, and an end strictly after the start.
pub open spec fn spec_range_normalized(p: ParserModel, n: Seq<char>, language: Language) -> Result<
    (VerseRange, Seq<MatchModel>),
    ErrorModel,
> {
    match range_separator(n) {
        None => Err(fault(ParseErrorKind::PatternMismatch, "missing range separator"@)),
        Some(i) => {
            let start_text = n.take(i);
            let end_text = n.skip(i + 1);
            if range_separator(end_text) is Some || trim(start_text).len() == 0 || trim(
                end_text,
            ).len() == 0 {
                Err(
                    fault(
                        ParseErrorKind::PatternMismatch,
                        "range must contain exactly two non-empty endpoints"@,
                    ),
                )
            } else {
                match spec_full_endpoint(p, start_text, language) {
                    Err(k) => Err(k),
                    Ok((start, m1)) => match spec_range_end(p, end_text, start, language) {
                        Err(k) => Err(k),
                        Ok((end, m2)) => if verse_before(start, end) {
                            Ok((range_of(start, end), m1 + m2))
                        } else {
                            Err(
                                fault(
                                    if start.spec_book() == end.spec_book() {
                                        ParseErrorKind::SameBookRangeNotAscending
                                    } else {
                                        ParseErrorKind::CrossBookRangeNotAscending
                                    },
                                    "range end "@ + verse_text(end) + " must come after start "@
                                        + verse_text(start),
                                ),
                            )
                        },
                    },
                }
            }
        },
    }
}

/// Attaching the normalized input to a step's matches.
pub open spec fn with_metadata<T>(n: Seq<char>, r: Result<(T, Seq<MatchModel>), ErrorModel>) -> Result<
    (T, MetadataModel),
    ErrorModel,
> {
    match r {
        Ok((v, ms)) => Ok((v, MetadataModel { normalized: n, matches: ms })),
        Err(k) => Err(k),
    }
}

/// Parsing a verse or a range: the input is normalized, must not be empty,
/// and is a range exactly when it holds a range separator.
pub open spec fn spec_parse(p: ParserModel, input: Seq<char>, language: Language) -> Result<
    (Reference, MetadataModel),
    ErrorModel,
> {
    let n = parsing_form(input);
    if n.len() == 0 {
        Err(fault(ParseErrorKind::EmptyReference, "reference must not be empty"@))
    } else if range_separator(n) is Some {
        match with_metadata(n, spec_range_normalized(p, n, language)) {
            Ok((r, m)) => Ok((Reference::Range(r), m)),
            Err(k) => Err(k),
        }
    } else {
        match with_metadata(n, spec_full_endpoint(p, n, language)) {
            Ok((v, m)) => Ok((Reference::Verse(v), m)),
            Err(k) => Err(k),
        }
    }
}

/// Parsing a single verse; range syntax is a pattern mismatch.
pub open spec fn spec_parse_verse(p: ParserModel, input: Seq<char>, language: Language) -> Result<
    (VerseRef, MetadataModel),
    ErrorModel,
> {
    let n = parsing_form(input);
    if n.len() == 0 {
        Err(fault(ParseErrorKind::EmptyReference, "reference must not be empty"@))
    } else if range_separator(n) is Some {
        Err(fault(ParseErrorKind::PatternMismatch, "expected a single verse, found range syntax"@))
    } else {
        with_metadata(n, spec_full_endpoint(p, n, language))
    }
}

/// Parsing a range; text without a range separator is a pattern mismatch.
pub open spec fn spec_parse_range(p: ParserModel, input: Seq<char>, language: Language) -> Result<
    (VerseRange, MetadataModel),
    ErrorModel,
> {
    let n = parsing_form(input);
    if n.len() == 0 {
        Err(fault(ParseErrorKind::EmptyReference, "reference must not be empty"@))
    } else if range_separator(n) is None {
        Err(fault(ParseErrorKind::PatternMismatch, "expected a verse range, found no range separator"@))
    } else {
        with_metadata(n, spec_range_normalized(p, n, language))
    }
}

/// Resolving a standalone book token.
pub open spec fn spec_parse_book(p: ParserModel, input: Seq<char>, language: Language) -> Result<
    (Book, MetadataModel),
    ErrorModel,
> {
    let n = parsing_form(input);
    if n.len() == 0 {
        Err(fault(ParseErrorKind::EmptyReference, "reference must not be empty"@))
    } else {
        match spec_resolve(p, n, language) {
            Err(k) => Err(k),
            Ok(m) => Ok((m.selected.book, MetadataModel { normalized: n, matches: seq![m] })),
        }
    }
}

/// The value of a detailed outcome.
pub open spec fn value_of<T>(r: Result<(T, MetadataModel), ErrorModel>) -> Result<T, ErrorModel> {
    match r {
        Ok((v, _)) => Ok(v),
        Err(k) => Err(k),
    }
}

/// Parsing reads its input through reference normalization, so input that
/// was normalized beforehand parses exactly as the raw input does.
pub proof fn lemma_parse_after_normalize(p: ParserModel, input: Seq<char>, language: Language)
    ensures
        spec_parse(p, normalize_seq(input), language) == spec_parse(p, input, language),
        spec_parse_verse(p, normalize_seq(input), language) == spec_parse_verse(p, input, language),
        spec_parse_range(p, normalize_seq(input), language) == spec_parse_range(p, input, language),
        spec_parse_book(p, normalize_seq(input), language) == spec_parse_book(p, input, language),
{
    lemma_parsing_form_normalized(input);
}

/// Input already in parsing form (what `normalize_for_parsing` returns)
/// parses exactly as the raw input does.
pub proof fn lemma_parse_after_parsing_form(p: ParserModel, input: Seq<char>, language: Language)
    ensures
        spec_parse(p, parsing_form(input), language) == spec_parse(p, input, language),
        spec_parse_verse(p, parsing_form(input), language) == spec_parse_verse(p, input, language),
        spec_parse_range(p, parsing_form(input), language) == spec_parse_range(p, input, language),
        spec_parse_book(p, parsing_form(input), language) == spec_parse_book(p, input, language),
{
    lemma_parsing_form_idempotent(input);
}

/// The value of a detailed outcome, if any.
pub open spec fn ok_value<T>(r: Result<(T, MetadataModel), ErrorModel>) -> Option<T> {
    match r {
        Ok((v, _)) => Some(v),
        Err(_) => None,
    }
}

/// The parser-ready form of `input`, refusing empty input.
fn checked_normalized_input(input: &str) -> (r: Result<Vec<char>, ParseError>)
    ensures
        match r {
            Ok(n) => n@ == parsing_form(input@) && n@.len() > 0,
            Err(e) => parsing_form(input@).len() == 0 && e.model() == fault(
                ParseErrorKind::EmptyReference,
                "reference must not be empty"@,
            ),
        },
{
    let text = chars_of(input);
    let normalized = parsing_form_chars(text.as_slice());
    if normalized.len() == 0 {
        return Err(ParseError::new(ParseErrorKind::EmptyReference, "reference must not be empty"));
    }
    Ok(normalized)
}

/// Read the chapter and verse tokens once the book is known.
fn read_coordinates(
    book: Book,
    chapter_token: &[char],
    verse_token: &[char],
    chapter_name: &str,
    verse_name: &str,
    matches: Vec<BookMatch>,
) -> (r: Result<(VerseRef, Vec<BookMatch>), ParseError>)
    requires
        all_digits(chapter_token@),
        all_digits(verse_token@),
    ensures
        step_kind(r) == spec_coordinates(
            book,
            chapter_token@,
            verse_token@,
            chapter_name@,
            verse_name@,
            match_views(matches@),
        ),
{
    let chapter = match parse_number(chapter_token, chapter_name, MAX_CHAPTER_NUMBER) {
        Ok(c) => c,
        Err(e) => return Err(e),
    };
    let verse = match parse_number(verse_token, verse_name, MAX_VERSE_NUMBER) {
        Ok(v) => v,
        Err(e) => return Err(e),
    };
    Ok((VerseRef::checked(book, chapter, verse), matches))
}

/// A vector holding one match.
fn single_match(m: BookMatch) -> (r: Vec<BookMatch>)
    ensures
        match_views(r@) == seq![m@],
{
    let mut v: Vec<BookMatch> = Vec::new();
    v.push(m);
    assert(match_views(v@) =~= seq![m@]);
    v
}

impl ReferenceParser {
    /// Parse `Book Chapter:Verse`.
    fn parse_full_endpoint(&self, input: &[char], language: Language) -> (r: Result<
        (VerseRef, Vec<BookMatch>),
        ParseError,
    >)
        ensures
            step_kind(r) == spec_full_endpoint(self@, input@, language),
    {
        let (left, verse_token) = match split_coordinate(input) {
            Ok(pair) => pair,
            Err(e) => return Err(e),
        };
        let (book_token, chapter_token) = match split_trailing_number(left.as_slice(), "chapter") {
            Ok(pair) => pair,
            Err(e) => return Err(e),
        };
        proof {
            lemma_trailing_number_digits(left@);
        }
        let m = match self.resolve_book(book_token.as_slice(), language) {
            Ok(m) => m,
            Err(e) => return Err(e),
        };
        let book = m.selected.book;
        let matches = single_match(m);
        read_coordinates(
            book,
            chapter_token.as_slice(),
            verse_token.as_slice(),
            "chapter",
            "verse",
            matches,
        )
    }

    /// Parse the end of a range that starts at `start`.
    fn parse_range_end(&self, input: &[char], start: VerseRef, language: Language) -> (r: Result<
        (VerseRef, Vec<BookMatch>),
        ParseError,
    >)
        ensures
            step_kind(r) == spec_range_end(self@, input@, start, language),
    {
        let trimmed = trim_chars(input);
        if chars_all_digits(trimmed.as_slice()) {
            let verse = match parse_number(trimmed.as_slice(), "end verse", MAX_VERSE_NUMBER) {
                Ok(v) => v,
                Err(e) => return Err(e),
            };
            let matches: Vec<BookMatch> = Vec::new();
            assert(match_views(matches@) =~= Seq::<MatchModel>::empty());
            return Ok((VerseRef::checked(start.book(), start.chapter(), verse), matches));
        }
        let (left, verse_token) = match split_coordinate(trimmed.as_slice()) {
            Ok(pair) => pair,
            Err(e) => return Err(e),
        };
        let (book_token, chapter_token) = match split_trailing_number(
            left.as_slice(),
            "end chapter",
        ) {
            Ok(pair) => pair,
            Err(e) => return Err(e),
        };
        proof {
            lemma_trailing_number_digits(left@);
        }
        let blank = trim_chars(book_token.as_slice());
        if blank.len() == 0 {
            let matches: Vec<BookMatch> = Vec::new();
            assert(match_views(matches@) =~= Seq::<MatchModel>::empty());
            return read_coordinates(
                start.book(),
                chapter_token.as_slice(),
                verse_token.as_slice(),
                "end chapter",
                "end verse",
                matches,
            );
        }
        let m = match self.resolve_book(book_token.as_slice(), language) {
            Ok(m) => m,
            Err(e) => return Err(e),
        };
        let book = m.selected.book;
        let matches = single_match(m);
        read_coordinates(
            book,
            chapter_token.as_slice(),
            verse_token.as_slice(),
            "end chapter",
            "end verse",
            matches,
        )
    }

    /// Parse normalized range text.
    fn parse_normalized_range(&self, n: &[char], language: Language) -> (r: Result<
        (VerseRange, Vec<BookMatch>),
        ParseError,
    >)
        ensures
            step_kind(r) == spec_range_normalized(self@, n@, language),
    {
        let separator = match find_range_separator(n) {
            Some(i) => i,
            None => {
                return Err(ParseError::new(ParseErrorKind::PatternMismatch, "missing range separator"));
            },
        };
        proof {
            lemma_range_separator_bound(n@);
        }
        let len = n.len();
        assert(separator < len);
        let start_text = slice_chars(n, 0, separator);
        let end_text = slice_chars(n, separator + 1, len);
        let start_trimmed = trim_chars(start_text.as_slice());
        let end_trimmed = trim_chars(end_text.as_slice());
        if find_range_separator(end_text.as_slice()).is_some() || start_trimmed.len() == 0
            || end_trimmed.len() == 0 {
            return Err(
                ParseError::new(
                    ParseErrorKind::PatternMismatch,
                    "range must contain exactly two non-empty endpoints",
                ),
            );
        }
        let (start, mut matches) = match self.parse_full_endpoint(start_text.as_slice(), language) {
            Ok(pair) => pair,
            Err(e) => return Err(e),
        };
        let (end, end_matches) = match self.parse_range_end(end_text.as_slice(), start, language) {
            Ok(pair) => pair,
            Err(e) => return Err(e),
        };
        if !is_before(start, end) {
            let kind = if start.book() == end.book() {
                ParseErrorKind::SameBookRangeNotAscending
            } else {
                ParseErrorKind::CrossBookRangeNotAscending
            };
            let mut v: Vec<char> = Vec::new();
            extend_str(&mut v, "range end ");
            end.write_to(&mut v);
            extend_str(&mut v, " must come after start ");
            start.write_to(&mut v);
            return Err(ParseError::from_string(kind, string_of(v.as_slice())));
        }
        extend_matches(&mut matches, end_matches.as_slice());
        let range = match VerseRange::new(start, end) {
            Ok(range) => range,
            Err(_) => {
                return Err(ParseError::new(ParseErrorKind::Unknown, "range endpoints out of order"));
            },
        };
        Ok((range, matches))
    }

    /// Metadata for a successful step over normalized text `n`.
    fn finish<T>(n: &[char], step: Result<(T, Vec<BookMatch>), ParseError>) -> (r: Result<
        Parsed<T>,
        ParseError,
    >)
        ensures
            parsed_kind(r) == with_metadata(n@, step_kind(step)),
    {
        match step {
            Ok((value, matches)) => {
                let metadata = ParseMetadata::from_parts(string_of(n), matches);
                Ok(Parsed::new(value, metadata))
            },
            Err(e) => Err(e),
        }
    }

    /// Parse a reference in the given language (or automatic mode).
    fn parse_detailed_inner(&self, input: &str, language: Language) -> (r: Result<
        Parsed<Reference>,
        ParseError,
    >)
        ensures
            parsed_kind(r) == spec_parse(self@, input@, language),
    {
        let n = match checked_normalized_input(input) {
            Ok(n) => n,
            Err(e) => return Err(e),
        };
        if find_range_separator(n.as_slice()).is_some() {
            let step = self.parse_normalized_range(n.as_slice(), language);
            match Self::finish(n.as_slice(), step) {
                Ok(parsed) => {
                    let (range, metadata) = parsed.into_parts();
                    Ok(Parsed::new(Reference::Range(range), metadata))
                },
                Err(e) => Err(e),
            }
        } else {
            let step = self.parse_full_endpoint(n.as_slice(), language);
            match Self::finish(n.as_slice(), step) {
                Ok(parsed) => {
                    let (verse, metadata) = parsed.into_parts();
                    Ok(Parsed::new(Reference::Verse(verse), metadata))
                },
                Err(e) => Err(e),
            }
        }
    }

    /// Parse a single verse in the given language (or automatic mode).
    fn parse_verse_detailed_inner(&self, input: &str, language: Language) -> (r: Result<
        Parsed<VerseRef>,
        ParseError,
    >)
        ensures
            parsed_kind(r) == spec_parse_verse(self@, input@, language),
    {
        let n = match checked_normalized_input(input) {
            Ok(n) => n,
            Err(e) => return Err(e),
        };
        if find_range_separator(n.as_slice()).is_some() {
            return Err(
                ParseError::new(
                    ParseErrorKind::PatternMismatch,
                    "expected a single verse, found range syntax",
                ),
            );
        }
        let step = self.parse_full_endpoint(n.as_slice(), language);
        Self::finish(n.as_slice(), step)
    }

    /// Parse a range in the given language (or automatic mode).
    fn parse_range_detailed_inner(&self, input: &str, language: Language) -> (r: Result<
        Parsed<VerseRange>,
        ParseError,
    >)
        ensures
            parsed_kind(r) == spec_parse_range(self@, input@, language),
    {
        let n = match checked_normalized_input(input) {
            Ok(n) => n,
            Err(e) => return Err(e),
        };
        if find_range_separator(n.as_slice()).is_none() {
            return Err(
                ParseError::new(
                    ParseErrorKind::PatternMismatch,
                    "expected a verse range, found no range separator",
                ),
            );
        }
        let step = self.parse_normalized_range(n.as_slice(), language);
        Self::finish(n.as_slice(), step)
    }
}

impl ReferenceParser {
    /// Parse a single verse or an inclusive range using automatic language detection.
    pub fn parse(&self, input: &str) -> (r: Result<Reference, ParseError>)
        ensures
            result_model(r) == value_of(spec_parse(self@, input@, Language::Auto)),
    {
        match self.parse_detailed_inner(input, Language::Auto) {
            Ok(parsed) => Ok(parsed.into_value()),
            Err(e) => Err(e),
        }
    }

    /// Parse a single verse or an inclusive range using one explicit language.
    pub fn parse_with_language(&self, input: &str, language: Language) -> (r: Result<
        Reference,
        ParseError,
    >)
        ensures
            result_model(r) == value_of(spec_parse(self@, input@, language)),
    {
        match self.parse_detailed_inner(input, language) {
            Ok(parsed) => Ok(parsed.into_value()),
            Err(e) => Err(e),
        }
    }

    /// Parse a single verse or an inclusive range and retain normalization and detection metadata.
    pub fn parse_detailed(&self, input: &str) -> (r: Result<Parsed<Reference>, ParseError>)
        ensures
            parsed_kind(r) == spec_parse(self@, input@, Language::Auto),
    {
        self.parse_detailed_inner(input, Language::Auto)
    }

    /// Parse a single verse or an inclusive range with an explicit language and retain metadata.
    pub fn parse_detailed_with_language(&self, input: &str, language: Language) -> (r: Result<
        Parsed<Reference>,
        ParseError,
    >)
        ensures
            parsed_kind(r) == spec_parse(self@, input@, language),
    {
        self.parse_detailed_inner(input, language)
    }

    /// Parse a single verse or an inclusive range, returning `None` rather than an error for invalid input.
    pub fn try_parse(&self, input: &str) -> (r: Option<Reference>)
        ensures
            r == ok_value(spec_parse(self@, input@, Language::Auto)),
    {
        match self.parse(input) {
            Ok(v) => Some(v),
            Err(_) => None,
        }
    }

    /// Parse a single verse or an inclusive range with an explicit language, returning `None` for invalid
    /// input.
    pub fn try_parse_with_language(&self, input: &str, language: Language) -> (r: Option<
        Reference,
    >)
        ensures
            r == ok_value(spec_parse(self@, input@, language)),
    {
        match self.parse_with_language(input, language) {
            Ok(v) => Some(v),
            Err(_) => None,
        }
    }

    /// Parse only a single verse using automatic language detection.
    pub fn parse_verse(&self, input: &str) -> (r: Result<VerseRef, ParseError>)
        ensures
            result_model(r) == value_of(spec_parse_verse(self@, input@, Language::Auto)),
    {
        match self.parse_verse_detailed_inner(input, Language::Auto) {
            Ok(parsed) => Ok(parsed.into_value()),
            Err(e) => Err(e),
        }
    }

    /// Parse only a single verse using one explicit language.
    pub fn parse_verse_with_language(&self, input: &str, language: Language) -> (r: Result<
        VerseRef,
        ParseError,
    >)
        ensures
            result_model(r) == value_of(spec_parse_verse(self@, input@, language)),
    {
        match self.parse_verse_detailed_inner(input, language) {
            Ok(parsed) => Ok(parsed.into_value()),
            Err(e) => Err(e),
        }
    }

    /// Parse only a single verse and retain normalization and detection metadata.
    pub fn parse_verse_detailed(&self, input: &str) -> (r: Result<Parsed<VerseRef>, ParseError>)
        ensures
            parsed_kind(r) == spec_parse_verse(self@, input@, Language::Auto),
    {
        self.parse_verse_detailed_inner(input, Language::Auto)
    }

    /// Parse only a single verse with an explicit language and retain metadata.
    pub fn parse_verse_detailed_with_language(&self, input: &str, language: Language) -> (r: Result<
        Parsed<VerseRef>,
        ParseError,
    >)
        ensures
            parsed_kind(r) == spec_parse_verse(self@, input@, language),
    {
        self.parse_verse_detailed_inner(input, language)
    }

    /// Parse only a single verse, returning `None` rather than an error for invalid input.
    pub fn try_parse_verse(&self, input: &str) -> (r: Option<VerseRef>)
        ensures
            r == ok_value(spec_parse_verse(self@, input@, Language::Auto)),
    {
        match self.parse_verse(input) {
            Ok(v) => Some(v),
            Err(_) => None,
        }
    }

    /// Parse only a single verse with an explicit language, returning `None` for invalid
    /// input.
    pub fn try_parse_verse_with_language(&self, input: &str, language: Language) -> (r: Option<
        VerseRef,
    >)
        ensures
            r == ok_value(spec_parse_verse(self@, input@, language)),
    {
        match self.parse_verse_with_language(input, language) {
            Ok(v) => Some(v),
            Err(_) => None,
        }
    }

    /// Parse only a range using automatic language detection.
    pub fn parse_range(&self, input: &str) -> (r: Result<VerseRange, ParseError>)
        ensures
            result_model(r) == value_of(spec_parse_range(self@, input@, Language::Auto)),
    {
        match self.parse_range_detailed_inner(input, Language::Auto) {
            Ok(parsed) => Ok(parsed.into_value()),
            Err(e) => Err(e),
        }
    }

    /// Parse only a range using one explicit language.
    pub fn parse_range_with_language(&self, input: &str, language: Language) -> (r: Result<
        VerseRange,
        ParseError,
    >)
        ensures
            result_model(r) == value_of(spec_parse_range(self@, input@, language)),
    {
        match self.parse_range_detailed_inner(input, language) {
            Ok(parsed) => Ok(parsed.into_value()),
            Err(e) => Err(e),
        }
    }

    /// Parse only a range and retain normalization and detection metadata.
    pub fn parse_range_detailed(&self, input: &str) -> (r: Result<Parsed<VerseRange>, ParseError>)
        ensures
            parsed_kind(r) == spec_parse_range(self@, input@, Language::Auto),
    {
        self.parse_range_detailed_inner(input, Language::Auto)
    }

    /// Parse only a range with an explicit language and retain metadata.
    pub fn parse_range_detailed_with_language(&self, input: &str, language: Language) -> (r: Result<
        Parsed<VerseRange>,
        ParseError,
    >)
        ensures
            parsed_kind(r) == spec_parse_range(self@, input@, language),
    {
        self.parse_range_detailed_inner(input, language)
    }

    /// Parse only a range, returning `None` rather than an error for invalid input.
    pub fn try_parse_range(&self, input: &str) -> (r: Option<VerseRange>)
        ensures
            r == ok_value(spec_parse_range(self@, input@, Language::Auto)),
    {
        match self.parse_range(input) {
            Ok(v) => Some(v),
            Err(_) => None,
        }
    }

    /// Parse only a range with an explicit language, returning `None` for invalid
    /// input.
    pub fn try_parse_range_with_language(&self, input: &str, language: Language) -> (r: Option<
        VerseRange,
    >)
        ensures
            r == ok_value(spec_parse_range(self@, input@, language)),
    {
        match self.parse_range_with_language(input, language) {
            Ok(v) => Some(v),
            Err(_) => None,
        }
    }

    /// Parse a standalone book token using automatic language detection.
    pub fn parse_book(&self, input: &str) -> (r: Result<Book, ParseError>)
        ensures
            result_model(r) == value_of(spec_parse_book(self@, input@, Language::Auto)),
    {
        match self.parse_book_detailed_inner(input, Language::Auto) {
            Ok(parsed) => Ok(parsed.into_value()),
            Err(e) => Err(e),
        }
    }

    /// Parse a standalone book token using one explicit language.
    pub fn parse_book_with_language(&self, input: &str, language: Language) -> (r: Result<
        Book,
        ParseError,
    >)
        ensures
            result_model(r) == value_of(spec_parse_book(self@, input@, language)),
    {
        match self.parse_book_detailed_inner(input, language) {
            Ok(parsed) => Ok(parsed.into_value()),
            Err(e) => Err(e),
        }
    }

    /// Parse a standalone book token and retain normalization and detection metadata.
    pub fn parse_book_detailed(&self, input: &str) -> (r: Result<Parsed<Book>, ParseError>)
        ensures
            parsed_kind(r) == spec_parse_book(self@, input@, Language::Auto),
    {
        self.parse_book_detailed_inner(input, Language::Auto)
    }

    /// Parse a standalone book token with an explicit language and retain metadata.
    pub fn parse_book_detailed_with_language(&self, input: &str, language: Language) -> (r: Result<
        Parsed<Book>,
        ParseError,
    >)
        ensures
            parsed_kind(r) == spec_parse_book(self@, input@, language),
    {
        self.parse_book_detailed_inner(input, language)
    }

    /// Resolve a standalone book token in the given language (or automatic mode).
    fn parse_book_detailed_inner(&self, input: &str, language: Language) -> (r: Result<
        Parsed<Book>,
        ParseError,
    >)
        ensures
            parsed_kind(r) == spec_parse_book(self@, input@, language),
    {
        let n = match checked_normalized_input(input) {
            Ok(n) => n,
            Err(e) => return Err(e),
        };
        let m = match self.resolve_book(n.as_slice(), language) {
            Ok(m) => m,
            Err(e) => return Err(e),
        };
        let book = m.selected.book;
        let matches = single_match(m);
        let metadata = ParseMetadata::from_parts(string_of(n.as_slice()), matches);
        Ok(Parsed::new(book, metadata))
    }
}

impl VerseRef {
    /// Parse with the default parser and one explicit language.
    pub fn parse_with_language(input: &str, language: Language) -> (r: Result<VerseRef, ParseError>)
        ensures
            result_model(r) == value_of(spec_parse_verse(default_parser(), input@, language)),
    {
        ReferenceParser::new().parse_verse_with_language(input, language)
    }

    /// Parse with the default parser in automatic mode, returning `None` for
    /// invalid input.
    pub fn try_parse(input: &str) -> (r: Option<VerseRef>)
        ensures
            r == ok_value(spec_parse_verse(default_parser(), input@, Language::Auto)),
    {
        ReferenceParser::new().try_parse_verse(input)
    }

    /// Parse with the default parser and one explicit language, returning
    /// `None` for invalid input.
    pub fn try_parse_with_language(input: &str, language: Language) -> (r: Option<VerseRef>)
        ensures
            r == ok_value(spec_parse_verse(default_parser(), input@, language)),
    {
        ReferenceParser::new().try_parse_verse_with_language(input, language)
    }
}

impl core::str::FromStr for VerseRef {
    type Err = ParseError;

    fn from_str(input: &str) -> (r: Result<VerseRef, ParseError>)
        ensures
            result_model(r) == value_of(spec_parse_verse(default_parser(), input@, Language::Auto)),
    {
        ReferenceParser::new().parse_verse(input)
    }
}

impl VerseRange {
    /// Parse with the default parser and one explicit language.
    pub fn parse_with_language(input: &str, language: Language) -> (r: Result<VerseRange, ParseError>)
        ensures
            result_model(r) == value_of(spec_parse_range(default_parser(), input@, language)),
    {
        ReferenceParser::new().parse_range_with_language(input, language)
    }

    /// Parse with the default parser in automatic mode, returning `None` for
    /// invalid input.
    pub fn try_parse(input: &str) -> (r: Option<VerseRange>)
        ensures
            r == ok_value(spec_parse_range(default_parser(), input@, Language::Auto)),
    {
        ReferenceParser::new().try_parse_range(input)
    }

    /// Parse with the default parser and one explicit language, returning
    /// `None` for invalid input.
    pub fn try_parse_with_language(input: &str, language: Language) -> (r: Option<VerseRange>)
        ensures
            r == ok_value(spec_parse_range(default_parser(), input@, language)),
    {
        ReferenceParser::new().try_parse_range_with_language(input, language)
    }
}

impl core::str::FromStr for VerseRange {
    type Err = ParseError;

    fn from_str(input: &str) -> (r: Result<VerseRange, ParseError>)
        ensures
            result_model(r) == value_of(spec_parse_range(default_parser(), input@, Language::Auto)),
    {
        ReferenceParser::new().parse_range(input)
    }
}

impl Reference {
    /// Parse with the default parser and one explicit language.
    pub fn parse_with_language(input: &str, language: Language) -> (r: Result<Reference, ParseError>)
        ensures
            result_model(r) == value_of(spec_parse(default_parser(), input@, language)),
    {
        ReferenceParser::new().parse_with_language(input, language)
    }

    /// Parse with the default parser in automatic mode, returning `None` for
    /// invalid input.
    pub fn try_parse(input: &str) -> (r: Option<Reference>)
        ensures
            r == ok_value(spec_parse(default_parser(), input@, Language::Auto)),
    {
        ReferenceParser::new().try_parse(input)
    }

    /// Parse with the default parser and one explicit language, returning
    /// `None` for invalid input.
    pub fn try_parse_with_language(input: &str, language: Language) -> (r: Option<Reference>)
        ensures
            r == ok_value(spec_parse(default_parser(), input@, language)),
    {
        ReferenceParser::new().try_parse_with_language(input, language)
    }
}

impl core::str::FromStr for Reference {
    type Err = ParseError;

    fn from_str(input: &str) -> (r: Result<Reference, ParseError>)
        ensures
            result_model(r) == value_of(spec_parse(default_parser(), input@, Language::Auto)),
    {
        ReferenceParser::new().parse(input)
    }
}

// ---------------------------------------------------------------------------
// Automatic-detection collisions
// ---------------------------------------------------------------------------

/// Lexicographic order of scalar sequences, as `String` orders them.
pub open spec fn chars_less(a: Seq<char>, b: Seq<char>) -> bool
    decreases a.len(),
{
    if b.len() == 0 {
        false
    } else if a.len() == 0 {
        true
    } else if a[0] != b[0] {
        (a[0] as u32) < (b[0] as u32)
    } else {
        chars_less(a.drop_first(), b.drop_first())
    }
}

/// Whether some bundled alias with lookup key `key` names `book`.
pub open spec fn bundled_names(key: Seq<char>, book: Book) -> bool {
    exists|i: int|
        0 <= i < BUNDLED_COUNT && term_key(bundled_alias(i).0) == key && (#[trigger] bundled_alias(
            i,
        )).1 == book
}

/// Whether bundled aliases with lookup key `key` name two distinct books.
pub open spec fn is_collision(key: Seq<char>) -> bool {
    exists|a: Book, b: Book| a != b && #[trigger] bundled_names(key, a) && #[trigger] bundled_names(
        key,
        b,
    )
}

/// The lookup key of bundled alias `i`.
pub open spec fn bundled_key(i: int) -> Seq<char> {
    term_key(bundled_alias(i).0)
}

/// Lexicographic order is transitive.
pub proof fn lemma_chars_less_trans(a: Seq<char>, b: Seq<char>, c: Seq<char>)
    requires
        chars_less(a, b),
        chars_less(b, c),
    ensures
        chars_less(a, c),
    decreases a.len(),
{
    if a.len() > 0 && b.len() > 0 && c.len() > 0 && a[0] == b[0] && b[0] == c[0] {
        lemma_chars_less_trans(a.drop_first(), b.drop_first(), c.drop_first());
    }
}

/// Lexicographic order is total and strict.
pub proof fn lemma_chars_less_total(a: Seq<char>, b: Seq<char>)
    ensures
        !chars_less(a, a),
        chars_less(a, b) ==> !chars_less(b, a),
        a != b ==> chars_less(a, b) || chars_less(b, a),
    decreases a.len(),
{
    if a.len() > 0 {
        lemma_chars_less_total(a.drop_first(), a.drop_first());
    }
    if a.len() > 0 && b.len() > 0 && a[0] == b[0] {
        lemma_chars_less_total(a.drop_first(), b.drop_first());
        if a.drop_first() == b.drop_first() {
            assert forall|i: int| 0 <= i < a.len() implies a[i] == b[i] by {
                if i > 0 {
                    assert(a[i] == a.drop_first()[i - 1]);
                    assert(b[i] == b.drop_first()[i - 1]);
                }
            }
            assert(a =~= b);
        }
    }
    if a.len() == 0 && b.len() == 0 {
        assert(a =~= b);
    }
    if a.len() > 0 && b.len() > 0 && a[0] != b[0] {
        vstd::utf8::char_u32_cast(a[0], a[0] as u32);
        vstd::utf8::char_u32_cast(b[0], b[0] as u32);
    }
}

/// The books of a key form a collision exactly when there are two or more.
proof fn lemma_collision_books(key: Seq<char>, books: Seq<Book>)
    requires
        forall|b: Book| books.contains(b) <==> bundled_names(key, b),
        forall|i: int, j: int| 0 <= i < j < books.len() ==> book_index(books[i]) < book_index(books[j]),
    ensures
        is_collision(key) <==> books.len() >= 2,
{
    if books.len() >= 2 {
        assert(books.contains(books[0]));
        assert(books.contains(books[1]));
        assert(books[0] != books[1]);
        assert(bundled_names(key, books[0]) && bundled_names(key, books[1]));
    }
    if is_collision(key) {
        let (x, y) = choose|x: Book, y: Book| x != y && #[trigger] bundled_names(key, x)
            && #[trigger] bundled_names(key, y);
        assert(books.contains(x) && books.contains(y));
        if books.len() < 2 {
            let i = choose|i: int| 0 <= i < books.len() && books[i] == x;
            let j = choose|j: int| 0 <= j < books.len() && books[j] == y;
            assert(i == 0 && j == 0);
        }
    }
}

/// Whether `a` orders strictly before `b`.
fn chars_less_exec(a: &[char], b: &[char]) -> (r: bool)
    ensures
        r == chars_less(a@, b@),
{
    let mut i: usize = 0;
    assert(a@.skip(0) == a@);
    assert(b@.skip(0) == b@);
    while i < a.len() && i < b.len() && a[i] == b[i]
        invariant
            i <= a@.len(),
            i <= b@.len(),
            chars_less(a@, b@) == chars_less(a@.skip(i as int), b@.skip(i as int)),
        decreases a.len() - i,
    {
        assert(a@.skip(i as int).drop_first() == a@.skip(i + 1));
        assert(b@.skip(i as int).drop_first() == b@.skip(i + 1));
        i += 1;
    }
    if i == b.len() {
        return false;
    }
    if i == a.len() {
        return true;
    }
    assert(a@.skip(i as int)[0] == a@[i as int]);
    assert(b@.skip(i as int)[0] == b@[i as int]);
    (a[i] as u32) < (b[i] as u32)
}

/// The books named by bundled aliases with lookup key `key`, in canonical
/// order.
fn books_for_key(entries: &[BundledEntry], key: &[char]) -> (r: Vec<Book>)
    requires
        entries@.len() == BUNDLED_COUNT,
        forall|i: int| 0 <= i < BUNDLED_COUNT ==> bundled_entry_ok(#[trigger] entries@[i], i),
    ensures
        forall|b: Book| r@.contains(b) <==> bundled_names(key@, b),
        forall|i: int, j: int| 0 <= i < j < r@.len() ==> book_index(r@[i]) < book_index(r@[j]),
{
    let mut marks: Vec<bool> = Vec::new();
    for k in 0..BOOK_COUNT
        invariant
            marks@.len() == k,
            forall|q: int| 0 <= q < k ==> !marks@[q],
    {
        marks.push(false);
    }
    for i in 0..BUNDLED_COUNT
        invariant
            entries@.len() == BUNDLED_COUNT,
            forall|q: int| 0 <= q < BUNDLED_COUNT ==> bundled_entry_ok(#[trigger] entries@[q], q),
            marks@.len() == BOOK_COUNT,
            forall|q: int|
                0 <= q < BOOK_COUNT ==> (marks@[q] <==> exists|e: int|
                    0 <= e < i && bundled_key(e) == key@ && (#[trigger] bundled_alias(e)).1
                        == book_at(q)),
    {
        assert(bundled_entry_ok(entries@[i as int], i as int));
        if chars_eq(entries[i].key.as_slice(), key) {
            let q = entries[i].book.index();
            proof {
                crate::book::lemma_book_index(entries@[i as int].book);
            }
            marks.set(q, true);
            assert forall|p: int|
                0 <= p < BOOK_COUNT implies (marks@[p] <==> exists|e: int|
                    0 <= e < i + 1 && bundled_key(e) == key@ && (#[trigger] bundled_alias(e)).1
                        == book_at(p)) by {
                if p == q {
                    assert(bundled_alias(i as int).1 == book_at(p));
                } else if marks@[p] {
                } else {
                    if exists|e: int|
                        0 <= e < i + 1 && bundled_key(e) == key@ && (#[trigger] bundled_alias(
                            e,
                        )).1 == book_at(p) {
                        let e = choose|e: int|
                            0 <= e < i + 1 && bundled_key(e) == key@ && (#[trigger] bundled_alias(
                                e,
                            )).1 == book_at(p);
                        if e == i {
                            crate::book::lemma_book_at(p);
                        }
                    }
                }
            }
        } else {
            assert forall|p: int|
                0 <= p < BOOK_COUNT implies (marks@[p] <==> exists|e: int|
                    0 <= e < i + 1 && bundled_key(e) == key@ && (#[trigger] bundled_alias(e)).1
                        == book_at(p)) by {
                if exists|e: int|
                    0 <= e < i + 1 && bundled_key(e) == key@ && (#[trigger] bundled_alias(e)).1
                        == book_at(p) {
                    let e = choose|e: int|
                        0 <= e < i + 1 && bundled_key(e) == key@ && (#[trigger] bundled_alias(
                            e,
                        )).1 == book_at(p);
                    assert(e != i);
                }
            }
        }
    }
    let mut out: Vec<Book> = Vec::new();
    for q in 0..BOOK_COUNT
        invariant
            marks@.len() == BOOK_COUNT,
            forall|p: int|
                0 <= p < BOOK_COUNT ==> (marks@[p] <==> exists|e: int|
                    0 <= e < BUNDLED_COUNT && bundled_key(e) == key@ && (#[trigger] bundled_alias(
                        e,
                    )).1 == book_at(p)),
            forall|b: Book| out@.contains(b) <==> (bundled_names(key@, b) && book_index(b) < q),
            forall|i: int, j: int| 0 <= i < j < out@.len() ==> book_index(out@[i]) < book_index(out@[j]),
            forall|i: int| 0 <= i < out@.len() ==> book_index(out@[i]) < q,
    {
        proof {
            crate::book::lemma_book_at(q as int);
        }
        if marks[q] {
            let b = Book::from_index(q);
            let ghost before = out@;
            out.push(b);
            assert forall|c: Book| out@.contains(c) <==> (bundled_names(key@, c) && book_index(c) < q
                + 1) by {
                crate::book::lemma_book_index(c);
                if c == b {
                    assert(out@[out@.len() - 1] == c);
                } else if out@.contains(c) {
                    let k = choose|k: int| 0 <= k < out@.len() && out@[k] == c;
                    assert(before[k] == c);
                    assert(before.contains(c));
                } else if bundled_names(key@, c) && book_index(c) < q + 1 {
                    if book_index(c) == q {
                        crate::book::lemma_book_at(q as int);
                    }
                    assert(before.contains(c));
                    let k = choose|k: int| 0 <= k < before.len() && before[k] == c;
                    assert(out@[k] == c);
                }
            }
        } else {
            assert forall|c: Book| out@.contains(c) <==> (bundled_names(key@, c) && book_index(c) < q
                + 1) by {
                crate::book::lemma_book_index(c);
                if bundled_names(key@, c) && book_index(c) == q {
                    let e = choose|e: int|
                        0 <= e < BUNDLED_COUNT && term_key(bundled_alias(e).0) == key@ && (
                        #[trigger] bundled_alias(e)).1 == c;
                    assert(bundled_alias(e).1 == book_at(q as int));
                }
            }
        }
    }
    assert forall|b: Book| out@.contains(b) <==> bundled_names(key@, b) by {
        crate::book::lemma_book_index(b);
    }
    out
}

/// Whether every entry is a collision with its books in canonical order.
pub open spec fn collision_entries(out: Seq<(String, Vec<Book>)>) -> bool {
    &&& forall|a: int, b: int| 0 <= a < b < out.len() ==> chars_less(out[a].0@, out[b].0@)
    &&& forall|a: int|
        0 <= a < out.len() ==> {
            &&& is_collision(#[trigger] out[a].0@)
            &&& forall|b: Book| out[a].1@.contains(b) <==> bundled_names(out[a].0@, b)
            &&& forall|p: int, q: int|
                0 <= p < q < out[a].1@.len() ==> book_index(out[a].1@[p]) < book_index(out[a].1@[q])
        }
}

/// Whether some entry of `out` has key `key`.
pub open spec fn has_key(out: Seq<(String, Vec<Book>)>, key: Seq<char>) -> bool {
    exists|m: int| 0 <= m < out.len() && (#[trigger] out[m]).0@ == key
}

/// The position of `key` among sorted keys, and whether it is present.
fn find_key(out: &[(String, Vec<Book>)], key: &[char]) -> (r: (usize, bool))
    requires
        forall|a: int, b: int| 0 <= a < b < out@.len() ==> chars_less(out@[a].0@, out@[b].0@),
    ensures
        r.0 <= out@.len(),
        r.1 ==> r.0 < out@.len() && out@[r.0 as int].0@ == key@,
        !r.1 ==> forall|a: int| 0 <= a < r.0 ==> chars_less(out@[a].0@, key@),
        !r.1 ==> (r.0 < out@.len() ==> chars_less(key@, out@[r.0 as int].0@)),
{
    let mut pos: usize = 0;
    while pos < out.len()
        invariant
            pos <= out@.len(),
            forall|a: int| 0 <= a < pos ==> chars_less(out@[a].0@, key@),
        decreases out.len() - pos,
    {
        let here = chars_of(out[pos].0.as_str());
        if chars_eq(here.as_slice(), key) {
            return (pos, true);
        }
        if !chars_less_exec(here.as_slice(), key) {
            proof {
                lemma_chars_less_total(here@, key@);
            }
            return (pos, false);
        }
        pos += 1;
    }
    (pos, false)
}

/// Record the books of `key` when they collide and the key is new.
#[verifier::spinoff_prover]
#[verifier::rlimit(40)]
fn add_collision(out: &mut Vec<(String, Vec<Book>)>, key: &[char], books: Vec<Book>)
    requires
        collision_entries(old(out)@),
        forall|b: Book| books@.contains(b) <==> bundled_names(key@, b),
        forall|i: int, j: int| 0 <= i < j < books@.len() ==> book_index(books@[i]) < book_index(books@[j]),
        is_collision(key@) <==> books@.len() >= 2,
    ensures
        collision_entries(final(out)@),
        forall|k: int| 0 <= k < old(out)@.len() ==> has_key(final(out)@, #[trigger] old(out)@[k].0@),
        is_collision(key@) ==> has_key(final(out)@, key@),
{
    let ghost before = out@;
    let (pos, present) = find_key(out.as_slice(), key);
    if present {
        assert forall|k: int| 0 <= k < before.len() implies has_key(out@, #[trigger] before[k].0@) by {
            assert(out@[k] == before[k]);
        }
        assert(out@[pos as int] == out@[pos as int]);
        return;
    }
    if books.len() < 2 {
        assert forall|k: int| 0 <= k < before.len() implies has_key(out@, #[trigger] before[k].0@) by {
            assert(out@[k] == before[k]);
        }
        assert(out@[pos as int] == out@[pos as int]);
        return;
    }
    let entry = (string_of(key), books);
    out.insert(pos, entry);
    assert(out@[pos as int].0@ == key@);
    assert forall|a: int, b: int| 0 <= a < b < out@.len() implies chars_less(out@[a].0@, out@[b].0@) by {
        if b < pos {
            assert(out@[a] == before[a] && out@[b] == before[b]);
        } else if b == pos {
            assert(out@[a] == before[a]);
        } else if a < pos {
            assert(out@[a] == before[a] && out@[b] == before[b - 1]);
            if b - 1 > pos {
                lemma_chars_less_trans(key@, before[pos as int].0@, before[b - 1].0@);
            }
            lemma_chars_less_trans(before[a].0@, key@, before[b - 1].0@);
        } else if a == pos {
            assert(out@[b] == before[b - 1]);
            if b - 1 > pos {
                lemma_chars_less_trans(key@, before[pos as int].0@, before[b - 1].0@);
            }
        } else {
            assert(out@[a] == before[a - 1] && out@[b] == before[b - 1]);
        }
    }
    assert forall|a: int| 0 <= a < out@.len() implies {
        &&& is_collision(#[trigger] out@[a].0@)
        &&& forall|b: Book| out@[a].1@.contains(b) <==> bundled_names(out@[a].0@, b)
        &&& forall|p: int, q: int|
            0 <= p < q < out@[a].1@.len() ==> book_index(out@[a].1@[p]) < book_index(out@[a].1@[q])
    } by {
        if a < pos {
            assert(out@[a] == before[a]);
        } else if a > pos {
            assert(out@[a] == before[a - 1]);
        }
    }
    assert forall|k: int| 0 <= k < before.len() implies has_key(out@, #[trigger] before[k].0@) by {
        if k < pos {
            assert(out@[k] == before[k]);
        } else {
            assert(out@[k + 1] == before[k]);
        }
    }
}

/// Every bundled automatic-detection alias that can resolve to distinct
/// books, with those books in canonical order; keys are in the parser's
/// case-folded, period-free, whitespace-free lookup form and sorted.
pub fn auto_language_collisions() -> (r: Vec<(String, Vec<Book>)>)
    ensures
        collision_entries(r@),
        forall|k: int| 0 <= k < BUNDLED_COUNT && is_collision(#[trigger] bundled_key(k)) ==> has_key(r@, bundled_key(k)),
{
    let entries = bundled_entries();
    let mut out: Vec<(String, Vec<Book>)> = Vec::new();
    for i in 0..BUNDLED_COUNT
        invariant
            entries@.len() == BUNDLED_COUNT,
            forall|q: int| 0 <= q < BUNDLED_COUNT ==> bundled_entry_ok(#[trigger] entries@[q], q),
            collision_entries(out@),
            forall|k: int| 0 <= k < i && is_collision(#[trigger] bundled_key(k)) ==> has_key(out@, bundled_key(k)),
    {
        assert(bundled_entry_ok(entries@[i as int], i as int));
        let key = entries[i].key.as_slice();
        let books = books_for_key(entries.as_slice(), key);
        proof {
            lemma_collision_books(key@, books@);
        }
        let ghost before = out@;
        add_collision(&mut out, key, books);
        assert forall|k: int| 0 <= k < i + 1 && is_collision(#[trigger] bundled_key(k)) implies has_key(
            out@,
            bundled_key(k),
        ) by {
            if k < i {
                let a = choose|a: int| 0 <= a < before.len() && (#[trigger] before[a]).0@ == bundled_key(k);
                assert(has_key(out@, before[a].0@));
            }
        }
    }
    out
}

} // verus!
