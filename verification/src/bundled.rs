//! The bundled book-alias registry used by automatic and explicit detection.
use vstd::prelude::*;

use crate::book::{book_at, spec_abbreviation, spec_full_name, Book, BOOK_COUNT};
use crate::language::Language;

verus! {

/// The number of common English abbreviations that supplement the canonical
/// names and compact codes.
pub const COMMON_ENGLISH_COUNT: usize = 53;

/// The number of bundled aliases.
pub const BUNDLED_COUNT: usize = 219;

/// Common English abbreviations. This deliberately omits `Jn`, whose
/// normalized form is the canonical Jonah abbreviation and would make
/// explicit-English parsing unstable.
pub open spec fn common_english_alias(i: int) -> (Seq<char>, Book) {
    if i == 0 {
        ("Gen"@, Book::Genesis)
    } else if i == 1 {
        ("Exod"@, Book::Exodus)
    } else if i == 2 {
        ("Lev"@, Book::Leviticus)
    } else if i == 3 {
        ("Num"@, Book::Numbers)
    } else if i == 4 {
        ("Deut"@, Book::Deuteronomy)
    } else if i == 5 {
        ("Josh"@, Book::Joshua)
    } else if i == 6 {
        ("Judg"@, Book::Judges)
    } else if i == 7 {
        ("1 Sam"@, Book::FirstSamuel)
    } else if i == 8 {
        ("2 Sam"@, Book::SecondSamuel)
    } else if i == 9 {
        ("1 Kings"@, Book::FirstKings)
    } else if i == 10 {
        ("2 Kings"@, Book::SecondKings)
    } else if i == 11 {
        ("1 Chr"@, Book::FirstChronicles)
    } else if i == 12 {
        ("2 Chr"@, Book::SecondChronicles)
    } else if i == 13 {
        ("Neh"@, Book::Nehemiah)
    } else if i == 14 {
        ("Est"@, Book::Esther)
    } else if i == 15 {
        ("Prov"@, Book::Proverbs)
    } else if i == 16 {
        ("Eccl"@, Book::Ecclesiastes)
    } else if i == 17 {
        ("Song"@, Book::SongOfSolomon)
    } else if i == 18 {
        ("Isa"@, Book::Isaiah)
    } else if i == 19 {
        ("Jer"@, Book::Jeremiah)
    } else if i == 20 {
        ("Lam"@, Book::Lamentations)
    } else if i == 21 {
        ("Ezek"@, Book::Ezekiel)
    } else if i == 22 {
        ("Dan"@, Book::Daniel)
    } else if i == 23 {
        ("Hos"@, Book::Hosea)
    } else if i == 24 {
        ("Obad"@, Book::Obadiah)
    } else if i == 25 {
        ("Mic"@, Book::Micah)
    } else if i == 26 {
        ("Nah"@, Book::Nahum)
    } else if i == 27 {
        ("Hab"@, Book::Habakkuk)
    } else if i == 28 {
        ("Zeph"@, Book::Zephaniah)
    } else if i == 29 {
        ("Zech"@, Book::Zechariah)
    } else if i == 30 {
        ("Matt"@, Book::Matthew)
    } else if i == 31 {
        ("Mar"@, Book::Mark)
    } else if i == 32 {
        ("Luk"@, Book::Luke)
    } else if i == 33 {
        ("Joh"@, Book::John)
    } else if i == 34 {
        ("Rom"@, Book::Romans)
    } else if i == 35 {
        ("1 Cor"@, Book::FirstCorinthians)
    } else if i == 36 {
        ("2 Cor"@, Book::SecondCorinthians)
    } else if i == 37 {
        ("Gal"@, Book::Galatians)
    } else if i == 38 {
        ("Phil"@, Book::Philippians)
    } else if i == 39 {
        ("Col"@, Book::Colossians)
    } else if i == 40 {
        ("1 Thess"@, Book::FirstThessalonians)
    } else if i == 41 {
        ("2 Thess"@, Book::SecondThessalonians)
    } else if i == 42 {
        ("1 Tim"@, Book::FirstTimothy)
    } else if i == 43 {
        ("2 Tim"@, Book::SecondTimothy)
    } else if i == 44 {
        ("Phlm"@, Book::Philemon)
    } else if i == 45 {
        ("Heb"@, Book::Hebrews)
    } else if i == 46 {
        ("Jas"@, Book::James)
    } else if i == 47 {
        ("1 Pet"@, Book::FirstPeter)
    } else if i == 48 {
        ("2 Pet"@, Book::SecondPeter)
    } else if i == 49 {
        ("1 John"@, Book::FirstJohn)
    } else if i == 50 {
        ("2 John"@, Book::SecondJohn)
    } else if i == 51 {
        ("3 John"@, Book::ThirdJohn)
    } else {
        ("Rev"@, Book::Revelation)
    }
}

/// Bundled alias `i` in registration order: for each book in canonical order
/// its English name then its compact code, then the common English
/// abbreviations. Every bundled alias is English.
pub open spec fn bundled_alias(i: int) -> (Seq<char>, Book) {
    if i < 2 * BOOK_COUNT {
        let b = book_at(i / 2);
        if i % 2 == 0 {
            (spec_full_name(b), b)
        } else {
            (spec_abbreviation(b), b)
        }
    } else {
        common_english_alias(i - 2 * BOOK_COUNT)
    }
}

/// The language of bundled alias `i`.
pub open spec fn bundled_language(i: int) -> Language {
    Language::English
}

/// A common English abbreviation and its book.
pub fn common_english_alias_at(i: usize) -> (r: (&'static str, Book))
    requires
        i < COMMON_ENGLISH_COUNT,
    ensures
        r.0@ == common_english_alias(i as int).0,
        r.1 == common_english_alias(i as int).1,
{
    match i {
        0 => ("Gen", Book::Genesis),
        1 => ("Exod", Book::Exodus),
        2 => ("Lev", Book::Leviticus),
        3 => ("Num", Book::Numbers),
        4 => ("Deut", Book::Deuteronomy),
        5 => ("Josh", Book::Joshua),
        6 => ("Judg", Book::Judges),
        7 => ("1 Sam", Book::FirstSamuel),
        8 => ("2 Sam", Book::SecondSamuel),
        9 => ("1 Kings", Book::FirstKings),
        10 => ("2 Kings", Book::SecondKings),
        11 => ("1 Chr", Book::FirstChronicles),
        12 => ("2 Chr", Book::SecondChronicles),
        13 => ("Neh", Book::Nehemiah),
        14 => ("Est", Book::Esther),
        15 => ("Prov", Book::Proverbs),
        16 => ("Eccl", Book::Ecclesiastes),
        17 => ("Song", Book::SongOfSolomon),
        18 => ("Isa", Book::Isaiah),
        19 => ("Jer", Book::Jeremiah),
        20 => ("Lam", Book::Lamentations),
        21 => ("Ezek", Book::Ezekiel),
        22 => ("Dan", Book::Daniel),
        23 => ("Hos", Book::Hosea),
        24 => ("Obad", Book::Obadiah),
        25 => ("Mic", Book::Micah),
        26 => ("Nah", Book::Nahum),
        27 => ("Hab", Book::Habakkuk),
        28 => ("Zeph", Book::Zephaniah),
        29 => ("Zech", Book::Zechariah),
        30 => ("Matt", Book::Matthew),
        31 => ("Mar", Book::Mark),
        32 => ("Luk", Book::Luke),
        33 => ("Joh", Book::John),
        34 => ("Rom", Book::Romans),
        35 => ("1 Cor", Book::FirstCorinthians),
        36 => ("2 Cor", Book::SecondCorinthians),
        37 => ("Gal", Book::Galatians),
        38 => ("Phil", Book::Philippians),
        39 => ("Col", Book::Colossians),
        40 => ("1 Thess", Book::FirstThessalonians),
        41 => ("2 Thess", Book::SecondThessalonians),
        42 => ("1 Tim", Book::FirstTimothy),
        43 => ("2 Tim", Book::SecondTimothy),
        44 => ("Phlm", Book::Philemon),
        45 => ("Heb", Book::Hebrews),
        46 => ("Jas", Book::James),
        47 => ("1 Pet", Book::FirstPeter),
        48 => ("2 Pet", Book::SecondPeter),
        49 => ("1 John", Book::FirstJohn),
        50 => ("2 John", Book::SecondJohn),
        51 => ("3 John", Book::ThirdJohn),
        _ => ("Rev", Book::Revelation),
    }
}

/// Bundled alias `i`, its book and its language.
pub fn bundled_alias_at(i: usize) -> (r: (&'static str, Book, Language))
    requires
        i < BUNDLED_COUNT,
    ensures
        r.0@ == bundled_alias(i as int).0,
        r.1 == bundled_alias(i as int).1,
        r.2 == bundled_language(i as int),
{
    if i < 2 * BOOK_COUNT {
        let b = Book::from_index(i / 2);
        if i % 2 == 0 {
            (b.full_name(), b, Language::English)
        } else {
            (b.abbreviation(), b, Language::English)
        }
    } else {
        let (a, b) = common_english_alias_at(i - 2 * BOOK_COUNT);
        (a, b, Language::English)
    }
}

} // verus!
