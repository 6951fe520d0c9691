//! Language identifiers and bundled parsing-support introspection.
use vstd::prelude::*;

use crate::text::{chars_eq_ignore_case, chars_of, eq_ignore_case, slice_chars, trim, trim_chars};

verus! {

/// A language understood by the reference parser.
///
/// [`Language::Auto`] searches all bundled languages. The remaining variants
/// represent concrete languages, including languages for which callers may
/// register their own aliases even when this crate does not bundle book names.
#[derive(Clone, Copy, Debug, Default, PartialEq, Eq, Structural, Hash, PartialOrd, Ord)]
pub enum Language {
    /// Search every language with bundled book aliases.
    #[default]
    Auto,
    /// Arabic (`ar`).
    Arabic,
    /// Chinese (`zh`).
    Chinese,
    /// English (`en`).
    English,
    /// Esperanto (`eo`), available for custom aliases.
    Esperanto,
    /// Finnish (`fi`), available for custom aliases.
    Finnish,
    /// French (`fr`).
    French,
    /// German (`de`).
    German,
    /// Greek (`el`), available for custom aliases.
    Greek,
    /// Hebrew (`he`).
    Hebrew,
    /// Hindi (`hi`).
    Hindi,
    /// Indonesian (`id`).
    Indonesian,
    /// Korean (`ko`).
    Korean,
    /// Portuguese (`pt`).
    Portuguese,
    /// Romanian (`ro`), available for custom aliases.
    Romanian,
    /// Russian (`ru`).
    Russian,
    /// Spanish (`es`).
    Spanish,
    /// Tagalog (`tl`).
    Tagalog,
    /// Vietnamese (`vi`), available for custom aliases.
    Vietnamese,
}

/// The number of languages and parser modes.
pub const LANGUAGE_COUNT: usize = 19;

/// The position of a language in declaration order.
pub open spec fn language_index(l: Language) -> int {
    match l {
        Language::Auto => 0,
        Language::Arabic => 1,
        Language::Chinese => 2,
        Language::English => 3,
        Language::Esperanto => 4,
        Language::Finnish => 5,
        Language::French => 6,
        Language::German => 7,
        Language::Greek => 8,
        Language::Hebrew => 9,
        Language::Hindi => 10,
        Language::Indonesian => 11,
        Language::Korean => 12,
        Language::Portuguese => 13,
        Language::Romanian => 14,
        Language::Russian => 15,
        Language::Spanish => 16,
        Language::Tagalog => 17,
        Language::Vietnamese => 18,
    }
}

/// The language at a declaration position (`Vietnamese` past the end).
pub open spec fn language_at(i: int) -> Language {
    if i == 0 {
        Language::Auto
    } else if i == 1 {
        Language::Arabic
    } else if i == 2 {
        Language::Chinese
    } else if i == 3 {
        Language::English
    } else if i == 4 {
        Language::Esperanto
    } else if i == 5 {
        Language::Finnish
    } else if i == 6 {
        Language::French
    } else if i == 7 {
        Language::German
    } else if i == 8 {
        Language::Greek
    } else if i == 9 {
        Language::Hebrew
    } else if i == 10 {
        Language::Hindi
    } else if i == 11 {
        Language::Indonesian
    } else if i == 12 {
        Language::Korean
    } else if i == 13 {
        Language::Portuguese
    } else if i == 14 {
        Language::Romanian
    } else if i == 15 {
        Language::Russian
    } else if i == 16 {
        Language::Spanish
    } else if i == 17 {
        Language::Tagalog
    } else {
        Language::Vietnamese
    }
}

/// The human-readable English name.
pub open spec fn spec_display_name(l: Language) -> Seq<char> {
    match l {
        Language::Auto => "Auto"@,
        Language::Arabic => "Arabic"@,
        Language::Chinese => "Chinese"@,
        Language::English => "English"@,
        Language::Esperanto => "Esperanto"@,
        Language::Finnish => "Finnish"@,
        Language::French => "French"@,
        Language::German => "German"@,
        Language::Greek => "Greek"@,
        Language::Hebrew => "Hebrew"@,
        Language::Hindi => "Hindi"@,
        Language::Indonesian => "Indonesian"@,
        Language::Korean => "Korean"@,
        Language::Portuguese => "Portuguese"@,
        Language::Romanian => "Romanian"@,
        Language::Russian => "Russian"@,
        Language::Spanish => "Spanish"@,
        Language::Tagalog => "Tagalog"@,
        Language::Vietnamese => "Vietnamese"@,
    }
}

/// The canonical ISO 639-1 code, or `auto`.
pub open spec fn spec_code(l: Language) -> Seq<char> {
    match l {
        Language::Auto => "auto"@,
        Language::Arabic => "ar"@,
        Language::Chinese => "zh"@,
        Language::English => "en"@,
        Language::Esperanto => "eo"@,
        Language::Finnish => "fi"@,
        Language::French => "fr"@,
        Language::German => "de"@,
        Language::Greek => "el"@,
        Language::Hebrew => "he"@,
        Language::Hindi => "hi"@,
        Language::Indonesian => "id"@,
        Language::Korean => "ko"@,
        Language::Portuguese => "pt"@,
        Language::Romanian => "ro"@,
        Language::Russian => "ru"@,
        Language::Spanish => "es"@,
        Language::Tagalog => "tl"@,
        Language::Vietnamese => "vi"@,
    }
}

/// The ISO 639-2 identifier.
pub open spec fn spec_identifier_prefix(l: Language) -> Seq<char> {
    match l {
        Language::Auto => "auto"@,
        Language::Arabic => "arb"@,
        Language::Chinese => "zho"@,
        Language::English => "eng"@,
        Language::Esperanto => "epo"@,
        Language::Finnish => "fin"@,
        Language::French => "fra"@,
        Language::German => "deu"@,
        Language::Greek => "ell"@,
        Language::Hebrew => "heb"@,
        Language::Hindi => "hin"@,
        Language::Indonesian => "ind"@,
        Language::Korean => "kor"@,
        Language::Portuguese => "por"@,
        Language::Romanian => "ron"@,
        Language::Russian => "rus"@,
        Language::Spanish => "spa"@,
        Language::Tagalog => "tgl"@,
        Language::Vietnamese => "vie"@,
    }
}

/// The lowercase variant name.
pub open spec fn spec_variant_name(l: Language) -> Seq<char> {
    match l {
        Language::Auto => "auto"@,
        Language::Arabic => "arabic"@,
        Language::Chinese => "chinese"@,
        Language::English => "english"@,
        Language::Esperanto => "esperanto"@,
        Language::Finnish => "finnish"@,
        Language::French => "french"@,
        Language::German => "german"@,
        Language::Greek => "greek"@,
        Language::Hebrew => "hebrew"@,
        Language::Hindi => "hindi"@,
        Language::Indonesian => "indonesian"@,
        Language::Korean => "korean"@,
        Language::Portuguese => "portuguese"@,
        Language::Romanian => "romanian"@,
        Language::Russian => "russian"@,
        Language::Spanish => "spanish"@,
        Language::Tagalog => "tagalog"@,
        Language::Vietnamese => "vietnamese"@,
    }
}

/// Supplemental identifiers.
pub open spec fn spec_aliases(l: Language) -> Seq<Seq<char>> {
    match l {
        Language::Auto => seq!["all"@, "global"@],
        Language::Tagalog => seq!["fil"@],
        _ => seq![],
    }
}

/// Every accepted identifier, in source order: variant name, display name,
/// two-letter code, three-letter identifier, then supplemental aliases.
pub open spec fn spec_all_aliases(l: Language) -> Seq<Seq<char>> {
    seq![spec_variant_name(l), spec_display_name(l), spec_code(l), spec_identifier_prefix(l)]
        + spec_aliases(l)
}

/// Whether an identifier names `l`, ignoring ASCII case.
pub open spec fn matches_identifier(l: Language, id: Seq<char>) -> bool {
    exists|k: int| 0 <= k < spec_all_aliases(l).len() && eq_ignore_case(#[trigger] spec_all_aliases(l)[k], id)
}

/// Whether the crate bundles parsing aliases for a language or mode: the
/// bundled registry holds English names and codes, and automatic detection
/// searches it.
pub open spec fn spec_parsing_supported(l: Language) -> bool {
    l == Language::Auto || l == Language::English
}

/// The first language in declaration order at or after `i` that `a` or `b` identifies.
pub open spec fn find_language_from(i: int, a: Seq<char>, b: Seq<char>) -> Option<Language>
    decreases LANGUAGE_COUNT - i,
{
    if i < 0 || i >= LANGUAGE_COUNT {
        None
    } else if matches_identifier(language_at(i), a) || matches_identifier(language_at(i), b) {
        Some(language_at(i))
    } else {
        find_language_from(i + 1, a, b)
    }
}

/// The number of leading scalars before the first `-` or `_`.
pub open spec fn locale_prefix_len(s: Seq<char>) -> nat
    decreases s.len(),
{
    if s.len() == 0 || s[0] == '-' || s[0] == '_' {
        0
    } else {
        1 + locale_prefix_len(s.drop_first())
    }
}

/// The language named by an identifier: the input is trimmed, and the whole
/// identifier or its part before the first `-` or `_` is compared, ignoring
/// ASCII case, with every accepted identifier of each language in turn.
pub open spec fn spec_parse_language(value: Seq<char>) -> Option<Language> {
    let normalized = trim(value);
    if normalized.len() == 0 {
        None
    } else {
        find_language_from(0, normalized, normalized.take(locale_prefix_len(normalized) as int))
    }
}

impl Language {
    /// Every language and parser mode, in stable declaration order.
    pub const ALL: [Language; 19] = [
        Language::Auto,
        Language::Arabic,
        Language::Chinese,
        Language::English,
        Language::Esperanto,
        Language::Finnish,
        Language::French,
        Language::German,
        Language::Greek,
        Language::Hebrew,
        Language::Hindi,
        Language::Indonesian,
        Language::Korean,
        Language::Portuguese,
        Language::Romanian,
        Language::Russian,
        Language::Spanish,
        Language::Tagalog,
        Language::Vietnamese,
    ];

    /// Languages and parser modes backed by bundled book aliases.
    pub const SUPPORTED: [Language; 14] = [
        Language::Auto,
        Language::Arabic,
        Language::Chinese,
        Language::English,
        Language::French,
        Language::German,
        Language::Hebrew,
        Language::Hindi,
        Language::Indonesian,
        Language::Korean,
        Language::Portuguese,
        Language::Russian,
        Language::Spanish,
        Language::Tagalog,
    ];

    /// The language at a declaration position.
    pub fn from_index(i: usize) -> (l: Language)
        requires
            i < LANGUAGE_COUNT,
        ensures
            l == language_at(i as int),
    {
        match i {
            0 => Language::Auto,
            1 => Language::Arabic,
            2 => Language::Chinese,
            3 => Language::English,
            4 => Language::Esperanto,
            5 => Language::Finnish,
            6 => Language::French,
            7 => Language::German,
            8 => Language::Greek,
            9 => Language::Hebrew,
            10 => Language::Hindi,
            11 => Language::Indonesian,
            12 => Language::Korean,
            13 => Language::Portuguese,
            14 => Language::Romanian,
            15 => Language::Russian,
            16 => Language::Spanish,
            17 => Language::Tagalog,
            _ => Language::Vietnamese,
        }
    }

    /// The position of this language in declaration order.
    pub fn index(self) -> (r: usize)
        ensures
            r == language_index(self),
    {
        match self {
            Language::Auto => 0,
            Language::Arabic => 1,
            Language::Chinese => 2,
            Language::English => 3,
            Language::Esperanto => 4,
            Language::Finnish => 5,
            Language::French => 6,
            Language::German => 7,
            Language::Greek => 8,
            Language::Hebrew => 9,
            Language::Hindi => 10,
            Language::Indonesian => 11,
            Language::Korean => 12,
            Language::Portuguese => 13,
            Language::Romanian => 14,
            Language::Russian => 15,
            Language::Spanish => 16,
            Language::Tagalog => 17,
            Language::Vietnamese => 18,
        }
    }

    /// The human-readable English name of this language.
    pub fn display_name(self) -> (r: &'static str)
        ensures
            r@ == spec_display_name(self),
    {
        match self {
            Language::Auto => "Auto",
            Language::Arabic => "Arabic",
            Language::Chinese => "Chinese",
            Language::English => "English",
            Language::Esperanto => "Esperanto",
            Language::Finnish => "Finnish",
            Language::French => "French",
            Language::German => "German",
            Language::Greek => "Greek",
            Language::Hebrew => "Hebrew",
            Language::Hindi => "Hindi",
            Language::Indonesian => "Indonesian",
            Language::Korean => "Korean",
            Language::Portuguese => "Portuguese",
            Language::Romanian => "Romanian",
            Language::Russian => "Russian",
            Language::Spanish => "Spanish",
            Language::Tagalog => "Tagalog",
            Language::Vietnamese => "Vietnamese",
        }
    }

    /// The canonical ISO 639-1 code, or `"auto"` for auto-detection.
    pub fn code(self) -> (r: &'static str)
        ensures
            r@ == spec_code(self),
    {
        match self {
            Language::Auto => "auto",
            Language::Arabic => "ar",
            Language::Chinese => "zh",
            Language::English => "en",
            Language::Esperanto => "eo",
            Language::Finnish => "fi",
            Language::French => "fr",
            Language::German => "de",
            Language::Greek => "el",
            Language::Hebrew => "he",
            Language::Hindi => "hi",
            Language::Indonesian => "id",
            Language::Korean => "ko",
            Language::Portuguese => "pt",
            Language::Romanian => "ro",
            Language::Russian => "ru",
            Language::Spanish => "es",
            Language::Tagalog => "tl",
            Language::Vietnamese => "vi",
        }
    }

    /// The ISO 639-2 identifier accepted for this language.
    pub fn identifier_prefix(self) -> (r: &'static str)
        ensures
            r@ == spec_identifier_prefix(self),
    {
        match self {
            Language::Auto => "auto",
            Language::Arabic => "arb",
            Language::Chinese => "zho",
            Language::English => "eng",
            Language::Esperanto => "epo",
            Language::Finnish => "fin",
            Language::French => "fra",
            Language::German => "deu",
            Language::Greek => "ell",
            Language::Hebrew => "heb",
            Language::Hindi => "hin",
            Language::Indonesian => "ind",
            Language::Korean => "kor",
            Language::Portuguese => "por",
            Language::Romanian => "ron",
            Language::Russian => "rus",
            Language::Spanish => "spa",
            Language::Tagalog => "tgl",
            Language::Vietnamese => "vie",
        }
    }

    /// The lowercase variant name.
    fn variant_name(self) -> (r: &'static str)
        ensures
            r@ == spec_variant_name(self),
    {
        match self {
            Language::Auto => "auto",
            Language::Arabic => "arabic",
            Language::Chinese => "chinese",
            Language::English => "english",
            Language::Esperanto => "esperanto",
            Language::Finnish => "finnish",
            Language::French => "french",
            Language::German => "german",
            Language::Greek => "greek",
            Language::Hebrew => "hebrew",
            Language::Hindi => "hindi",
            Language::Indonesian => "indonesian",
            Language::Korean => "korean",
            Language::Portuguese => "portuguese",
            Language::Romanian => "romanian",
            Language::Russian => "russian",
            Language::Spanish => "spanish",
            Language::Tagalog => "tagalog",
            Language::Vietnamese => "vietnamese",
        }
    }

    /// Supplemental identifiers in addition to the name and ISO codes.
    pub fn aliases(self) -> (r: Vec<&'static str>)
        ensures
            r@.len() == spec_aliases(self).len(),
            forall|k: int| 0 <= k < r@.len() ==> (#[trigger] r@[k])@ == spec_aliases(self)[k],
    {
        let mut v: Vec<&'static str> = Vec::new();
        match self {
            Language::Auto => {
                v.push("all");
                v.push("global");
            },
            Language::Tagalog => {
                v.push("fil");
            },
            _ => {},
        }
        v
    }

    /// Every accepted identifier for this language, as a vector.
    ///
    /// This includes the lowercase variant name, display name, two-letter code,
    /// three-letter identifier, and supplemental aliases.
    pub fn alias_list(self) -> (r: Vec<&'static str>)
        ensures
            r@.len() == spec_all_aliases(self).len(),
            forall|k: int| 0 <= k < r@.len() ==> (#[trigger] r@[k])@ == spec_all_aliases(self)[k],
    {
        let mut v: Vec<&'static str> = Vec::new();
        v.push(self.variant_name());
        v.push(self.display_name());
        v.push(self.code());
        v.push(self.identifier_prefix());
        let extra = self.aliases();
        for i in 0..extra.len()
            invariant
                v@.len() == 4 + i,
                forall|k: int| 0 <= k < v@.len() ==> (#[trigger] v@[k])@ == spec_all_aliases(self)[k],
                extra@.len() == spec_aliases(self).len(),
                forall|k: int| 0 <= k < extra@.len() ==> (#[trigger] extra@[k])@ == spec_aliases(self)[k],
        {
            v.push(extra[i]);
        }
        v
    }

    /// Every accepted identifier for this language, in source order.
    pub fn all_aliases(self) -> (r: std::vec::IntoIter<&'static str>)
        ensures
            vstd::std_specs::vec::into_iter_elts(r).len() == spec_all_aliases(self).len(),
            forall|k: int|
                0 <= k < spec_all_aliases(self).len() ==> (
                #[trigger] vstd::std_specs::vec::into_iter_elts(r)[k])@ == spec_all_aliases(self)[k],
    {
        self.alias_list().into_iter()
    }

    /// Whether the crate bundles parsing aliases for this language or mode.
    pub fn is_parsing_supported(self) -> (r: bool)
        ensures
            r == spec_parsing_supported(self),
    {
        matches!(self, Language::Auto | Language::English)
    }

    /// Whether this is the auto-detection parser mode rather than a language.
    pub fn is_auto(self) -> (r: bool)
        ensures
            r == (self == Language::Auto),
    {
        matches!(self, Language::Auto)
    }

    /// Whether `identifier` is one of this language's accepted identifiers,
    /// ignoring ASCII case.
    pub fn matches_identifier(self, identifier: &[char]) -> (r: bool)
        ensures
            r == matches_identifier(self, identifier@),
    {
        let list = self.alias_list();
        for i in 0..list.len()
            invariant
                list@.len() == spec_all_aliases(self).len(),
                forall|k: int| 0 <= k < list@.len() ==> (#[trigger] list@[k])@ == spec_all_aliases(self)[k],
                forall|k: int| 0 <= k < i ==> !eq_ignore_case(#[trigger] spec_all_aliases(self)[k], identifier@),
        {
            let alias = chars_of(list[i]);
            if chars_eq_ignore_case(alias.as_slice(), identifier) {
                return true;
            }
        }
        false
    }

    /// Parse a language name, code, alias, or locale tag.
    pub fn parse_identifier(value: &str) -> (r: Result<Language, ParseLanguageError>)
        ensures
            match r {
                Ok(l) => spec_parse_language(value@) == Some(l),
                Err(e) => spec_parse_language(value@) is None && e@ == value@,
            },
    {
        let raw = chars_of(value);
        let normalized = trim_chars(raw.as_slice());
        if normalized.len() == 0 {
            return Err(ParseLanguageError { input: value.to_owned() });
        }
        let mut n: usize = 0;
        assert(normalized@.skip(0) == normalized@);
        while n < normalized.len() && normalized[n] != '-' && normalized[n] != '_'
            invariant
                n <= normalized@.len(),
                locale_prefix_len(normalized@) == n + locale_prefix_len(normalized@.skip(n as int)),
            decreases normalized.len() - n,
        {
            assert(normalized@.skip(n as int).drop_first() == normalized@.skip(n + 1));
            n += 1;
        }
        proof {
            if n < normalized@.len() {
                assert(normalized@.skip(n as int)[0] == normalized@[n as int]);
            }
        }
        assert(locale_prefix_len(normalized@) == n);
        let prefix = slice_chars(normalized.as_slice(), 0, n);
        assert(prefix@ == normalized@.take(locale_prefix_len(normalized@) as int));
        let mut i: usize = 0;
        while i < LANGUAGE_COUNT
            invariant
                i <= LANGUAGE_COUNT,
                normalized@ == trim(value@),
                normalized@.len() > 0,
                prefix@ == normalized@.take(locale_prefix_len(normalized@) as int),
                find_language_from(0, normalized@, prefix@) == find_language_from(
                    i as int,
                    normalized@,
                    prefix@,
                ),
            decreases LANGUAGE_COUNT - i,
        {
            let language = Language::from_index(i);
            if language.matches_identifier(normalized.as_slice())
                || language.matches_identifier(prefix.as_slice()) {
                assert(find_language_from(i as int, normalized@, prefix@) == Some(language));
                return Ok(language);
            }
            i += 1;
        }
        Err(ParseLanguageError { input: value.to_owned() })
    }

    /// The display name as an owned string.
    pub fn to_string(self) -> (s: String)
        ensures
            s@ == spec_display_name(self),
    {
        self.display_name().to_owned()
    }
}

/// Returned when a language name, code, alias, or locale tag is not known.
#[derive(Clone, Debug, PartialEq, Eq)]
pub struct ParseLanguageError {
    input: String,
}

impl View for ParseLanguageError {
    type V = Seq<char>;

    /// The unmodified input that failed to parse.
    closed spec fn view(&self) -> Seq<char> {
        self.input@
    }
}

impl ParseLanguageError {
    /// The unmodified input that failed to parse.
    pub fn input(&self) -> (r: &str)
        ensures
            r@ == self@,
    {
        self.input.as_str()
    }

    /// The diagnostic text: a fixed message for blank input, otherwise
    /// `unknown language: ` followed by the input.
    pub fn to_string(&self) -> (s: String)
        ensures
            s@ == (if trim(self@).len() == 0 {
                "language must be a non-empty string"@
            } else {
                "unknown language: "@ + self@
            }),
    {
        let raw = chars_of(self.input.as_str());
        let trimmed = trim_chars(raw.as_slice());
        if trimmed.len() == 0 {
            "language must be a non-empty string".to_owned()
        } else {
            let mut s = "unknown language: ".to_owned();
            s.append(self.input.as_str());
            s
        }
    }
}

impl core::str::FromStr for Language {
    type Err = ParseLanguageError;

    fn from_str(value: &str) -> (r: Result<Language, ParseLanguageError>)
        ensures
            match r {
                Ok(l) => spec_parse_language(value@) == Some(l),
                Err(e) => spec_parse_language(value@) is None && e@ == value@,
            },
    {
        Language::parse_identifier(value)
    }
}

} // verus!
