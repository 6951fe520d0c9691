//! Canonical Bible book names and standard machine-readable identifiers.
use vstd::prelude::*;

use crate::text::{chars_eq, chars_eq_ignore_case, chars_of, debug_quote, eq_ignore_case, is_upper, lemma_lower_value, lower, lower_seq, str_debug};

verus! {

/// A Bible book supported by this crate.
///
/// Variants are ordered canonically: the 66-book Protestant canon,
/// Catholic deuterocanonical books, then Eastern Orthodox additions.
#[derive(Clone, Copy, Debug, PartialEq, Eq, Structural, Hash, PartialOrd, Ord)]
pub enum Book {
    /// Genesis
    Genesis,
    /// Exodus
    Exodus,
    /// Leviticus
    Leviticus,
    /// Numbers
    Numbers,
    /// Deuteronomy
    Deuteronomy,
    /// Joshua
    Joshua,
    /// Judges
    Judges,
    /// Ruth
    Ruth,
    /// 1 Samuel
    FirstSamuel,
    /// 2 Samuel
    SecondSamuel,
    /// 1 Kings
    FirstKings,
    /// 2 Kings
    SecondKings,
    /// 1 Chronicles
    FirstChronicles,
    /// 2 Chronicles
    SecondChronicles,
    /// Ezra
    Ezra,
    /// Nehemiah
    Nehemiah,
    /// Esther
    Esther,
    /// Job
    Job,
    /// Psalms
    Psalms,
    /// Proverbs
    Proverbs,
    /// Ecclesiastes
    Ecclesiastes,
    /// Song of Solomon
    SongOfSolomon,
    /// Isaiah
    Isaiah,
    /// Jeremiah
    Jeremiah,
    /// Lamentations
    Lamentations,
    /// Ezekiel
    Ezekiel,
    /// Daniel
    Daniel,
    /// Hosea
    Hosea,
    /// Joel
    Joel,
    /// Amos
    Amos,
    /// Obadiah
    Obadiah,
    /// Jonah
    Jonah,
    /// Micah
    Micah,
    /// Nahum
    Nahum,
    /// Habakkuk
    Habakkuk,
    /// Zephaniah
    Zephaniah,
    /// Haggai
    Haggai,
    /// Zechariah
    Zechariah,
    /// Malachi
    Malachi,
    /// Matthew
    Matthew,
    /// Mark
    Mark,
    /// Luke
    Luke,
    /// John
    John,
    /// Acts
    Acts,
    /// Romans
    Romans,
    /// 1 Corinthians
    FirstCorinthians,
    /// 2 Corinthians
    SecondCorinthians,
    /// Galatians
    Galatians,
    /// Ephesians
    Ephesians,
    /// Philippians
    Philippians,
    /// Colossians
    Colossians,
    /// 1 Thessalonians
    FirstThessalonians,
    /// 2 Thessalonians
    SecondThessalonians,
    /// 1 Timothy
    FirstTimothy,
    /// 2 Timothy
    SecondTimothy,
    /// Titus
    Titus,
    /// Philemon
    Philemon,
    /// Hebrews
    Hebrews,
    /// James
    James,
    /// 1 Peter
    FirstPeter,
    /// 2 Peter
    SecondPeter,
    /// 1 John
    FirstJohn,
    /// 2 John
    SecondJohn,
    /// 3 John
    ThirdJohn,
    /// Jude
    Jude,
    /// Revelation
    Revelation,
    /// Tobit
    Tobit,
    /// Judith
    Judith,
    /// Wisdom
    Wisdom,
    /// Sirach
    Sirach,
    /// Baruch
    Baruch,
    /// 1 Maccabees
    FirstMaccabees,
    /// 2 Maccabees
    SecondMaccabees,
    /// Esther (Greek)
    EstherAdditions,
    /// Daniel (Song of Three)
    DanielSongOfThree,
    /// Daniel (Susanna)
    DanielSusanna,
    /// Daniel (Bel and the Dragon)
    DanielBelAndTheDragon,
    /// 1 Esdras
    FirstEsdras,
    /// 2 Esdras
    SecondEsdras,
    /// Prayer of Manasseh
    PrayerOfManasseh,
    /// Psalm 151
    Psalm151,
    /// 3 Maccabees
    ThirdMaccabees,
    /// 4 Maccabees
    FourthMaccabees,
}

/// The number of supported books.
pub const BOOK_COUNT: usize = 83;

/// The position of a book in canonical order, starting at zero.
pub open spec fn book_index(b: Book) -> int {
    match b {
        Book::Genesis => 0,
        Book::Exodus => 1,
        Book::Leviticus => 2,
        Book::Numbers => 3,
        Book::Deuteronomy => 4,
        Book::Joshua => 5,
        Book::Judges => 6,
        Book::Ruth => 7,
        Book::FirstSamuel => 8,
        Book::SecondSamuel => 9,
        Book::FirstKings => 10,
        Book::SecondKings => 11,
        Book::FirstChronicles => 12,
        Book::SecondChronicles => 13,
        Book::Ezra => 14,
        Book::Nehemiah => 15,
        Book::Esther => 16,
        Book::Job => 17,
        Book::Psalms => 18,
        Book::Proverbs => 19,
        Book::Ecclesiastes => 20,
        Book::SongOfSolomon => 21,
        Book::Isaiah => 22,
        Book::Jeremiah => 23,
        Book::Lamentations => 24,
        Book::Ezekiel => 25,
        Book::Daniel => 26,
        Book::Hosea => 27,
        Book::Joel => 28,
        Book::Amos => 29,
        Book::Obadiah => 30,
        Book::Jonah => 31,
        Book::Micah => 32,
        Book::Nahum => 33,
        Book::Habakkuk => 34,
        Book::Zephaniah => 35,
        Book::Haggai => 36,
        Book::Zechariah => 37,
        Book::Malachi => 38,
        Book::Matthew => 39,
        Book::Mark => 40,
        Book::Luke => 41,
        Book::John => 42,
        Book::Acts => 43,
        Book::Romans => 44,
        Book::FirstCorinthians => 45,
        Book::SecondCorinthians => 46,
        Book::Galatians => 47,
        Book::Ephesians => 48,
        Book::Philippians => 49,
        Book::Colossians => 50,
        Book::FirstThessalonians => 51,
        Book::SecondThessalonians => 52,
        Book::FirstTimothy => 53,
        Book::SecondTimothy => 54,
        Book::Titus => 55,
        Book::Philemon => 56,
        Book::Hebrews => 57,
        Book::James => 58,
        Book::FirstPeter => 59,
        Book::SecondPeter => 60,
        Book::FirstJohn => 61,
        Book::SecondJohn => 62,
        Book::ThirdJohn => 63,
        Book::Jude => 64,
        Book::Revelation => 65,
        Book::Tobit => 66,
        Book::Judith => 67,
        Book::Wisdom => 68,
        Book::Sirach => 69,
        Book::Baruch => 70,
        Book::FirstMaccabees => 71,
        Book::SecondMaccabees => 72,
        Book::EstherAdditions => 73,
        Book::DanielSongOfThree => 74,
        Book::DanielSusanna => 75,
        Book::DanielBelAndTheDragon => 76,
        Book::FirstEsdras => 77,
        Book::SecondEsdras => 78,
        Book::PrayerOfManasseh => 79,
        Book::Psalm151 => 80,
        Book::ThirdMaccabees => 81,
        Book::FourthMaccabees => 82,
    }
}

/// The book at a canonical position (`FourthMaccabees` past the end).
pub open spec fn book_at(i: int) -> Book {
    if i == 0 {
        Book::Genesis
    } else if i == 1 {
        Book::Exodus
    } else if i == 2 {
        Book::Leviticus
    } else if i == 3 {
        Book::Numbers
    } else if i == 4 {
        Book::Deuteronomy
    } else if i == 5 {
        Book::Joshua
    } else if i == 6 {
        Book::Judges
    } else if i == 7 {
        Book::Ruth
    } else if i == 8 {
        Book::FirstSamuel
    } else if i == 9 {
        Book::SecondSamuel
    } else if i == 10 {
        Book::FirstKings
    } else if i == 11 {
        Book::SecondKings
    } else if i == 12 {
        Book::FirstChronicles
    } else if i == 13 {
        Book::SecondChronicles
    } else if i == 14 {
        Book::Ezra
    } else if i == 15 {
        Book::Nehemiah
    } else if i == 16 {
        Book::Esther
    } else if i == 17 {
        Book::Job
    } else if i == 18 {
        Book::Psalms
    } else if i == 19 {
        Book::Proverbs
    } else if i == 20 {
        Book::Ecclesiastes
    } else if i == 21 {
        Book::SongOfSolomon
    } else if i == 22 {
        Book::Isaiah
    } else if i == 23 {
        Book::Jeremiah
    } else if i == 24 {
        Book::Lamentations
    } else if i == 25 {
        Book::Ezekiel
    } else if i == 26 {
        Book::Daniel
    } else if i == 27 {
        Book::Hosea
    } else if i == 28 {
        Book::Joel
    } else if i == 29 {
        Book::Amos
    } else if i == 30 {
        Book::Obadiah
    } else if i == 31 {
        Book::Jonah
    } else if i == 32 {
        Book::Micah
    } else if i == 33 {
        Book::Nahum
    } else if i == 34 {
        Book::Habakkuk
    } else if i == 35 {
        Book::Zephaniah
    } else if i == 36 {
        Book::Haggai
    } else if i == 37 {
        Book::Zechariah
    } else if i == 38 {
        Book::Malachi
    } else if i == 39 {
        Book::Matthew
    } else if i == 40 {
        Book::Mark
    } else if i == 41 {
        Book::Luke
    } else if i == 42 {
        Book::John
    } else if i == 43 {
        Book::Acts
    } else if i == 44 {
        Book::Romans
    } else if i == 45 {
        Book::FirstCorinthians
    } else if i == 46 {
        Book::SecondCorinthians
    } else if i == 47 {
        Book::Galatians
    } else if i == 48 {
        Book::Ephesians
    } else if i == 49 {
        Book::Philippians
    } else if i == 50 {
        Book::Colossians
    } else if i == 51 {
        Book::FirstThessalonians
    } else if i == 52 {
        Book::SecondThessalonians
    } else if i == 53 {
        Book::FirstTimothy
    } else if i == 54 {
        Book::SecondTimothy
    } else if i == 55 {
        Book::Titus
    } else if i == 56 {
        Book::Philemon
    } else if i == 57 {
        Book::Hebrews
    } else if i == 58 {
        Book::James
    } else if i == 59 {
        Book::FirstPeter
    } else if i == 60 {
        Book::SecondPeter
    } else if i == 61 {
        Book::FirstJohn
    } else if i == 62 {
        Book::SecondJohn
    } else if i == 63 {
        Book::ThirdJohn
    } else if i == 64 {
        Book::Jude
    } else if i == 65 {
        Book::Revelation
    } else if i == 66 {
        Book::Tobit
    } else if i == 67 {
        Book::Judith
    } else if i == 68 {
        Book::Wisdom
    } else if i == 69 {
        Book::Sirach
    } else if i == 70 {
        Book::Baruch
    } else if i == 71 {
        Book::FirstMaccabees
    } else if i == 72 {
        Book::SecondMaccabees
    } else if i == 73 {
        Book::EstherAdditions
    } else if i == 74 {
        Book::DanielSongOfThree
    } else if i == 75 {
        Book::DanielSusanna
    } else if i == 76 {
        Book::DanielBelAndTheDragon
    } else if i == 77 {
        Book::FirstEsdras
    } else if i == 78 {
        Book::SecondEsdras
    } else if i == 79 {
        Book::PrayerOfManasseh
    } else if i == 80 {
        Book::Psalm151
    } else if i == 81 {
        Book::ThirdMaccabees
    } else {
        Book::FourthMaccabees
    }
}

/// The package's compact, lowercase abbreviation.
pub open spec fn spec_abbreviation(b: Book) -> Seq<char> {
    match b {
        Book::Genesis => seq!['g', 'n'],
        Book::Exodus => seq!['e', 'x'],
        Book::Leviticus => seq!['l', 'v'],
        Book::Numbers => seq!['n', 'm'],
        Book::Deuteronomy => seq!['d', 't'],
        Book::Joshua => seq!['j', 's'],
        Book::Judges => seq!['j', 'u', 'd'],
        Book::Ruth => seq!['r', 't'],
        Book::FirstSamuel => seq!['1', 's', 'm'],
        Book::SecondSamuel => seq!['2', 's', 'm'],
        Book::FirstKings => seq!['1', 'k', 'g', 's'],
        Book::SecondKings => seq!['2', 'k', 'g', 's'],
        Book::FirstChronicles => seq!['1', 'c', 'h'],
        Book::SecondChronicles => seq!['2', 'c', 'h'],
        Book::Ezra => seq!['e', 'z', 'r'],
        Book::Nehemiah => seq!['n', 'e'],
        Book::Esther => seq!['e', 't'],
        Book::Job => seq!['j', 'o', 'b'],
        Book::Psalms => seq!['p', 's'],
        Book::Proverbs => seq!['p', 'r', 'v'],
        Book::Ecclesiastes => seq!['e', 'c'],
        Book::SongOfSolomon => seq!['s', 'o'],
        Book::Isaiah => seq!['i', 's'],
        Book::Jeremiah => seq!['j', 'r'],
        Book::Lamentations => seq!['l', 'm'],
        Book::Ezekiel => seq!['e', 'z'],
        Book::Daniel => seq!['d', 'n'],
        Book::Hosea => seq!['h', 'o'],
        Book::Joel => seq!['j', 'l'],
        Book::Amos => seq!['a', 'm'],
        Book::Obadiah => seq!['o', 'b'],
        Book::Jonah => seq!['j', 'n'],
        Book::Micah => seq!['m', 'i'],
        Book::Nahum => seq!['n', 'a'],
        Book::Habakkuk => seq!['h', 'k'],
        Book::Zephaniah => seq!['z', 'p'],
        Book::Haggai => seq!['h', 'g'],
        Book::Zechariah => seq!['z', 'c'],
        Book::Malachi => seq!['m', 'l'],
        Book::Matthew => seq!['m', 't'],
        Book::Mark => seq!['m', 'k'],
        Book::Luke => seq!['l', 'k'],
        Book::John => seq!['j', 'o'],
        Book::Acts => seq!['a', 'c', 't'],
        Book::Romans => seq!['r', 'm'],
        Book::FirstCorinthians => seq!['1', 'c', 'o'],
        Book::SecondCorinthians => seq!['2', 'c', 'o'],
        Book::Galatians => seq!['g', 'l'],
        Book::Ephesians => seq!['e', 'p', 'h'],
        Book::Philippians => seq!['p', 'h'],
        Book::Colossians => seq!['c', 'l'],
        Book::FirstThessalonians => seq!['1', 't', 's'],
        Book::SecondThessalonians => seq!['2', 't', 's'],
        Book::FirstTimothy => seq!['1', 't', 'm'],
        Book::SecondTimothy => seq!['2', 't', 'm'],
        Book::Titus => seq!['t', 't'],
        Book::Philemon => seq!['p', 'h', 'm'],
        Book::Hebrews => seq!['h', 'b'],
        Book::James => seq!['j', 'm'],
        Book::FirstPeter => seq!['1', 'p', 'e'],
        Book::SecondPeter => seq!['2', 'p', 'e'],
        Book::FirstJohn => seq!['1', 'j', 'o'],
        Book::SecondJohn => seq!['2', 'j', 'o'],
        Book::ThirdJohn => seq!['3', 'j', 'o'],
        Book::Jude => seq!['j', 'd'],
        Book::Revelation => seq!['r', 'e'],
        Book::Tobit => seq!['t', 'b'],
        Book::Judith => seq!['j', 'd', 't'],
        Book::Wisdom => seq!['w', 's'],
        Book::Sirach => seq!['s', 'i', 'r'],
        Book::Baruch => seq!['b', 'a', 'r'],
        Book::FirstMaccabees => seq!['1', 'm', 'c'],
        Book::SecondMaccabees => seq!['2', 'm', 'c'],
        Book::EstherAdditions => seq!['e', 't', 'g'],
        Book::DanielSongOfThree => seq!['d', 'n', '3'],
        Book::DanielSusanna => seq!['d', 'n', 's'],
        Book::DanielBelAndTheDragon => seq!['d', 'n', 'b'],
        Book::FirstEsdras => seq!['1', 'e', 's'],
        Book::SecondEsdras => seq!['2', 'e', 's'],
        Book::PrayerOfManasseh => seq!['p', 'm', 'n'],
        Book::Psalm151 => seq!['p', 's', '1', '5', '1'],
        Book::ThirdMaccabees => seq!['3', 'm', 'c'],
        Book::FourthMaccabees => seq!['4', 'm', 'c'],
    }
}

/// The canonical English display name.
pub open spec fn spec_full_name(b: Book) -> Seq<char> {
    match b {
        Book::Genesis => seq!['G', 'e', 'n', 'e', 's', 'i', 's'],
        Book::Exodus => seq!['E', 'x', 'o', 'd', 'u', 's'],
        Book::Leviticus => seq!['L', 'e', 'v', 'i', 't', 'i', 'c', 'u', 's'],
        Book::Numbers => seq!['N', 'u', 'm', 'b', 'e', 'r', 's'],
        Book::Deuteronomy => seq!['D', 'e', 'u', 't', 'e', 'r', 'o', 'n', 'o', 'm', 'y'],
        Book::Joshua => seq!['J', 'o', 's', 'h', 'u', 'a'],
        Book::Judges => seq!['J', 'u', 'd', 'g', 'e', 's'],
        Book::Ruth => seq!['R', 'u', 't', 'h'],
        Book::FirstSamuel => seq!['1', ' ', 'S', 'a', 'm', 'u', 'e', 'l'],
        Book::SecondSamuel => seq!['2', ' ', 'S', 'a', 'm', 'u', 'e', 'l'],
        Book::FirstKings => seq!['1', ' ', 'K', 'i', 'n', 'g', 's'],
        Book::SecondKings => seq!['2', ' ', 'K', 'i', 'n', 'g', 's'],
        Book::FirstChronicles => seq!['1', ' ', 'C', 'h', 'r', 'o', 'n', 'i', 'c', 'l', 'e', 's'],
        Book::SecondChronicles => seq!['2', ' ', 'C', 'h', 'r', 'o', 'n', 'i', 'c', 'l', 'e', 's'],
        Book::Ezra => seq!['E', 'z', 'r', 'a'],
        Book::Nehemiah => seq!['N', 'e', 'h', 'e', 'm', 'i', 'a', 'h'],
        Book::Esther => seq!['E', 's', 't', 'h', 'e', 'r'],
        Book::Job => seq!['J', 'o', 'b'],
        Book::Psalms => seq!['P', 's', 'a', 'l', 'm', 's'],
        Book::Proverbs => seq!['P', 'r', 'o', 'v', 'e', 'r', 'b', 's'],
        Book::Ecclesiastes => seq!['E', 'c', 'c', 'l', 'e', 's', 'i', 'a', 's', 't', 'e', 's'],
        Book::SongOfSolomon => seq!['S', 'o', 'n', 'g', ' ', 'o', 'f', ' ', 'S', 'o', 'l', 'o', 'm', 'o', 'n'],
        Book::Isaiah => seq!['I', 's', 'a', 'i', 'a', 'h'],
        Book::Jeremiah => seq!['J', 'e', 'r', 'e', 'm', 'i', 'a', 'h'],
        Book::Lamentations => seq!['L', 'a', 'm', 'e', 'n', 't', 'a', 't', 'i', 'o', 'n', 's'],
        Book::Ezekiel => seq!['E', 'z', 'e', 'k', 'i', 'e', 'l'],
        Book::Daniel => seq!['D', 'a', 'n', 'i', 'e', 'l'],
        Book::Hosea => seq!['H', 'o', 's', 'e', 'a'],
        Book::Joel => seq!['J', 'o', 'e', 'l'],
        Book::Amos => seq!['A', 'm', 'o', 's'],
        Book::Obadiah => seq!['O', 'b', 'a', 'd', 'i', 'a', 'h'],
        Book::Jonah => seq!['J', 'o', 'n', 'a', 'h'],
        Book::Micah => seq!['M', 'i', 'c', 'a', 'h'],
        Book::Nahum => seq!['N', 'a', 'h', 'u', 'm'],
        Book::Habakkuk => seq!['H', 'a', 'b', 'a', 'k', 'k', 'u', 'k'],
        Book::Zephaniah => seq!['Z', 'e', 'p', 'h', 'a', 'n', 'i', 'a', 'h'],
        Book::Haggai => seq!['H', 'a', 'g', 'g', 'a', 'i'],
        Book::Zechariah => seq!['Z', 'e', 'c', 'h', 'a', 'r', 'i', 'a', 'h'],
        Book::Malachi => seq!['M', 'a', 'l', 'a', 'c', 'h', 'i'],
        Book::Matthew => seq!['M', 'a', 't', 't', 'h', 'e', 'w'],
        Book::Mark => seq!['M', 'a', 'r', 'k'],
        Book::Luke => seq!['L', 'u', 'k', 'e'],
        Book::John => seq!['J', 'o', 'h', 'n'],
        Book::Acts => seq!['A', 'c', 't', 's'],
        Book::Romans => seq!['R', 'o', 'm', 'a', 'n', 's'],
        Book::FirstCorinthians => seq!['1', ' ', 'C', 'o', 'r', 'i', 'n', 't', 'h', 'i', 'a', 'n', 's'],
        Book::SecondCorinthians => seq!['2', ' ', 'C', 'o', 'r', 'i', 'n', 't', 'h', 'i', 'a', 'n', 's'],
        Book::Galatians => seq!['G', 'a', 'l', 'a', 't', 'i', 'a', 'n', 's'],
        Book::Ephesians => seq!['E', 'p', 'h', 'e', 's', 'i', 'a', 'n', 's'],
        Book::Philippians => seq!['P', 'h', 'i', 'l', 'i', 'p', 'p', 'i', 'a', 'n', 's'],
        Book::Colossians => seq!['C', 'o', 'l', 'o', 's', 's', 'i', 'a', 'n', 's'],
        Book::FirstThessalonians => seq!['1', ' ', 'T', 'h', 'e', 's', 's', 'a', 'l', 'o', 'n', 'i', 'a', 'n', 's'],
        Book::SecondThessalonians => seq!['2', ' ', 'T', 'h', 'e', 's', 's', 'a', 'l', 'o', 'n', 'i', 'a', 'n', 's'],
        Book::FirstTimothy => seq!['1', ' ', 'T', 'i', 'm', 'o', 't', 'h', 'y'],
        Book::SecondTimothy => seq!['2', ' ', 'T', 'i', 'm', 'o', 't', 'h', 'y'],
        Book::Titus => seq!['T', 'i', 't', 'u', 's'],
        Book::Philemon => seq!['P', 'h', 'i', 'l', 'e', 'm', 'o', 'n'],
        Book::Hebrews => seq!['H', 'e', 'b', 'r', 'e', 'w', 's'],
        Book::James => seq!['J', 'a', 'm', 'e', 's'],
        Book::FirstPeter => seq!['1', ' ', 'P', 'e', 't', 'e', 'r'],
        Book::SecondPeter => seq!['2', ' ', 'P', 'e', 't', 'e', 'r'],
        Book::FirstJohn => seq!['1', ' ', 'J', 'o', 'h', 'n'],
        Book::SecondJohn => seq!['2', ' ', 'J', 'o', 'h', 'n'],
        Book::ThirdJohn => seq!['3', ' ', 'J', 'o', 'h', 'n'],
        Book::Jude => seq!['J', 'u', 'd', 'e'],
        Book::Revelation => seq!['R', 'e', 'v', 'e', 'l', 'a', 't', 'i', 'o', 'n'],
        Book::Tobit => seq!['T', 'o', 'b', 'i', 't'],
        Book::Judith => seq!['J', 'u', 'd', 'i', 't', 'h'],
        Book::Wisdom => seq!['W', 'i', 's', 'd', 'o', 'm'],
        Book::Sirach => seq!['S', 'i', 'r', 'a', 'c', 'h'],
        Book::Baruch => seq!['B', 'a', 'r', 'u', 'c', 'h'],
        Book::FirstMaccabees => seq!['1', ' ', 'M', 'a', 'c', 'c', 'a', 'b', 'e', 'e', 's'],
        Book::SecondMaccabees => seq!['2', ' ', 'M', 'a', 'c', 'c', 'a', 'b', 'e', 'e', 's'],
        Book::EstherAdditions => seq!['E', 's', 't', 'h', 'e', 'r', ' ', '(', 'G', 'r', 'e', 'e', 'k', ')'],
        Book::DanielSongOfThree => seq!['D', 'a', 'n', 'i', 'e', 'l', ' ', '(', 'S', 'o', 'n', 'g', ' ', 'o', 'f', ' ', 'T', 'h', 'r', 'e', 'e', ')'],
        Book::DanielSusanna => seq!['D', 'a', 'n', 'i', 'e', 'l', ' ', '(', 'S', 'u', 's', 'a', 'n', 'n', 'a', ')'],
        Book::DanielBelAndTheDragon => seq!['D', 'a', 'n', 'i', 'e', 'l', ' ', '(', 'B', 'e', 'l', ' ', 'a', 'n', 'd', ' ', 't', 'h', 'e', ' ', 'D', 'r', 'a', 'g', 'o', 'n', ')'],
        Book::FirstEsdras => seq!['1', ' ', 'E', 's', 'd', 'r', 'a', 's'],
        Book::SecondEsdras => seq!['2', ' ', 'E', 's', 'd', 'r', 'a', 's'],
        Book::PrayerOfManasseh => seq!['P', 'r', 'a', 'y', 'e', 'r', ' ', 'o', 'f', ' ', 'M', 'a', 'n', 'a', 's', 's', 'e', 'h'],
        Book::Psalm151 => seq!['P', 's', 'a', 'l', 'm', ' ', '1', '5', '1'],
        Book::ThirdMaccabees => seq!['3', ' ', 'M', 'a', 'c', 'c', 'a', 'b', 'e', 'e', 's'],
        Book::FourthMaccabees => seq!['4', ' ', 'M', 'a', 'c', 'c', 'a', 'b', 'e', 'e', 's'],
    }
}

/// The case-sensitive OSIS book identifier.
pub open spec fn spec_osis(b: Book) -> Seq<char> {
    match b {
        Book::Genesis => seq!['G', 'e', 'n'],
        Book::Exodus => seq!['E', 'x', 'o', 'd'],
        Book::Leviticus => seq!['L', 'e', 'v'],
        Book::Numbers => seq!['N', 'u', 'm'],
        Book::Deuteronomy => seq!['D', 'e', 'u', 't'],
        Book::Joshua => seq!['J', 'o', 's', 'h'],
        Book::Judges => seq!['J', 'u', 'd', 'g'],
        Book::Ruth => seq!['R', 'u', 't', 'h'],
        Book::FirstSamuel => seq!['1', 'S', 'a', 'm'],
        Book::SecondSamuel => seq!['2', 'S', 'a', 'm'],
        Book::FirstKings => seq!['1', 'K', 'g', 's'],
        Book::SecondKings => seq!['2', 'K', 'g', 's'],
        Book::FirstChronicles => seq!['1', 'C', 'h', 'r'],
        Book::SecondChronicles => seq!['2', 'C', 'h', 'r'],
        Book::Ezra => seq!['E', 'z', 'r', 'a'],
        Book::Nehemiah => seq!['N', 'e', 'h'],
        Book::Esther => seq!['E', 's', 't', 'h'],
        Book::Job => seq!['J', 'o', 'b'],
        Book::Psalms => seq!['P', 's'],
        Book::Proverbs => seq!['P', 'r', 'o', 'v'],
        Book::Ecclesiastes => seq!['E', 'c', 'c', 'l'],
        Book::SongOfSolomon => seq!['S', 'o', 'n', 'g'],
        Book::Isaiah => seq!['I', 's', 'a'],
        Book::Jeremiah => seq!['J', 'e', 'r'],
        Book::Lamentations => seq!['L', 'a', 'm'],
        Book::Ezekiel => seq!['E', 'z', 'e', 'k'],
        Book::Daniel => seq!['D', 'a', 'n'],
        Book::Hosea => seq!['H', 'o', 's'],
        Book::Joel => seq!['J', 'o', 'e', 'l'],
        Book::Amos => seq!['A', 'm', 'o', 's'],
        Book::Obadiah => seq!['O', 'b', 'a', 'd'],
        Book::Jonah => seq!['J', 'o', 'n', 'a', 'h'],
        Book::Micah => seq!['M', 'i', 'c'],
        Book::Nahum => seq!['N', 'a', 'h'],
        Book::Habakkuk => seq!['H', 'a', 'b'],
        Book::Zephaniah => seq!['Z', 'e', 'p', 'h'],
        Book::Haggai => seq!['H', 'a', 'g'],
        Book::Zechariah => seq!['Z', 'e', 'c', 'h'],
        Book::Malachi => seq!['M', 'a', 'l'],
        Book::Matthew => seq!['M', 'a', 't', 't'],
        Book::Mark => seq!['M', 'a', 'r', 'k'],
        Book::Luke => seq!['L', 'u', 'k', 'e'],
        Book::John => seq!['J', 'o', 'h', 'n'],
        Book::Acts => seq!['A', 'c', 't', 's'],
        Book::Romans => seq!['R', 'o', 'm'],
        Book::FirstCorinthians => seq!['1', 'C', 'o', 'r'],
        Book::SecondCorinthians => seq!['2', 'C', 'o', 'r'],
        Book::Galatians => seq!['G', 'a', 'l'],
        Book::Ephesians => seq!['E', 'p', 'h'],
        Book::Philippians => seq!['P', 'h', 'i', 'l'],
        Book::Colossians => seq!['C', 'o', 'l'],
        Book::FirstThessalonians => seq!['1', 'T', 'h', 'e', 's', 's'],
        Book::SecondThessalonians => seq!['2', 'T', 'h', 'e', 's', 's'],
        Book::FirstTimothy => seq!['1', 'T', 'i', 'm'],
        Book::SecondTimothy => seq!['2', 'T', 'i', 'm'],
        Book::Titus => seq!['T', 'i', 't', 'u', 's'],
        Book::Philemon => seq!['P', 'h', 'l', 'm'],
        Book::Hebrews => seq!['H', 'e', 'b'],
        Book::James => seq!['J', 'a', 's'],
        Book::FirstPeter => seq!['1', 'P', 'e', 't'],
        Book::SecondPeter => seq!['2', 'P', 'e', 't'],
        Book::FirstJohn => seq!['1', 'J', 'o', 'h', 'n'],
        Book::SecondJohn => seq!['2', 'J', 'o', 'h', 'n'],
        Book::ThirdJohn => seq!['3', 'J', 'o', 'h', 'n'],
        Book::Jude => seq!['J', 'u', 'd', 'e'],
        Book::Revelation => seq!['R', 'e', 'v'],
        Book::Tobit => seq!['T', 'o', 'b'],
        Book::Judith => seq!['J', 'd', 't'],
        Book::Wisdom => seq!['W', 'i', 's'],
        Book::Sirach => seq!['S', 'i', 'r'],
        Book::Baruch => seq!['B', 'a', 'r'],
        Book::FirstMaccabees => seq!['1', 'M', 'a', 'c', 'c'],
        Book::SecondMaccabees => seq!['2', 'M', 'a', 'c', 'c'],
        Book::EstherAdditions => seq!['A', 'd', 'd', 'E', 's', 't', 'h'],
        Book::DanielSongOfThree => seq!['P', 'r', 'A', 'z', 'a', 'r'],
        Book::DanielSusanna => seq!['S', 'u', 's'],
        Book::DanielBelAndTheDragon => seq!['B', 'e', 'l'],
        Book::FirstEsdras => seq!['1', 'E', 's', 'd'],
        Book::SecondEsdras => seq!['2', 'E', 's', 'd'],
        Book::PrayerOfManasseh => seq!['P', 'r', 'M', 'a', 'n'],
        Book::Psalm151 => seq!['A', 'd', 'd', 'P', 's'],
        Book::ThirdMaccabees => seq!['3', 'M', 'a', 'c', 'c'],
        Book::FourthMaccabees => seq!['4', 'M', 'a', 'c', 'c'],
    }
}

/// The case-sensitive USFM book identifier.
pub open spec fn spec_usfm(b: Book) -> Seq<char> {
    match b {
        Book::Genesis => seq!['G', 'E', 'N'],
        Book::Exodus => seq!['E', 'X', 'O'],
        Book::Leviticus => seq!['L', 'E', 'V'],
        Book::Numbers => seq!['N', 'U', 'M'],
        Book::Deuteronomy => seq!['D', 'E', 'U'],
        Book::Joshua => seq!['J', 'O', 'S'],
        Book::Judges => seq!['J', 'D', 'G'],
        Book::Ruth => seq!['R', 'U', 'T'],
        Book::FirstSamuel => seq!['1', 'S', 'A'],
        Book::SecondSamuel => seq!['2', 'S', 'A'],
        Book::FirstKings => seq!['1', 'K', 'I'],
        Book::SecondKings => seq!['2', 'K', 'I'],
        Book::FirstChronicles => seq!['1', 'C', 'H'],
        Book::SecondChronicles => seq!['2', 'C', 'H'],
        Book::Ezra => seq!['E', 'Z', 'R'],
        Book::Nehemiah => seq!['N', 'E', 'H'],
        Book::Esther => seq!['E', 'S', 'T'],
        Book::Job => seq!['J', 'O', 'B'],
        Book::Psalms => seq!['P', 'S', 'A'],
        Book::Proverbs => seq!['P', 'R', 'O'],
        Book::Ecclesiastes => seq!['E', 'C', 'C'],
        Book::SongOfSolomon => seq!['S', 'N', 'G'],
        Book::Isaiah => seq!['I', 'S', 'A'],
        Book::Jeremiah => seq!['J', 'E', 'R'],
        Book::Lamentations => seq!['L', 'A', 'M'],
        Book::Ezekiel => seq!['E', 'Z', 'K'],
        Book::Daniel => seq!['D', 'A', 'N'],
        Book::Hosea => seq!['H', 'O', 'S'],
        Book::Joel => seq!['J', 'O', 'L'],
        Book::Amos => seq!['A', 'M', 'O'],
        Book::Obadiah => seq!['O', 'B', 'A'],
        Book::Jonah => seq!['J', 'O', 'N'],
        Book::Micah => seq!['M', 'I', 'C'],
        Book::Nahum => seq!['N', 'A', 'M'],
        Book::Habakkuk => seq!['H', 'A', 'B'],
        Book::Zephaniah => seq!['Z', 'E', 'P'],
        Book::Haggai => seq!['H', 'A', 'G'],
        Book::Zechariah => seq!['Z', 'E', 'C'],
        Book::Malachi => seq!['M', 'A', 'L'],
        Book::Matthew => seq!['M', 'A', 'T'],
        Book::Mark => seq!['M', 'R', 'K'],
        Book::Luke => seq!['L', 'U', 'K'],
        Book::John => seq!['J', 'H', 'N'],
        Book::Acts => seq!['A', 'C', 'T'],
        Book::Romans => seq!['R', 'O', 'M'],
        Book::FirstCorinthians => seq!['1', 'C', 'O'],
        Book::SecondCorinthians => seq!['2', 'C', 'O'],
        Book::Galatians => seq!['G', 'A', 'L'],
        Book::Ephesians => seq!['E', 'P', 'H'],
        Book::Philippians => seq!['P', 'H', 'P'],
        Book::Colossians => seq!['C', 'O', 'L'],
        Book::FirstThessalonians => seq!['1', 'T', 'H'],
        Book::SecondThessalonians => seq!['2', 'T', 'H'],
        Book::FirstTimothy => seq!['1', 'T', 'I'],
        Book::SecondTimothy => seq!['2', 'T', 'I'],
        Book::Titus => seq!['T', 'I', 'T'],
        Book::Philemon => seq!['P', 'H', 'M'],
        Book::Hebrews => seq!['H', 'E', 'B'],
        Book::James => seq!['J', 'A', 'S'],
        Book::FirstPeter => seq!['1', 'P', 'E'],
        Book::SecondPeter => seq!['2', 'P', 'E'],
        Book::FirstJohn => seq!['1', 'J', 'N'],
        Book::SecondJohn => seq!['2', 'J', 'N'],
        Book::ThirdJohn => seq!['3', 'J', 'N'],
        Book::Jude => seq!['J', 'U', 'D'],
        Book::Revelation => seq!['R', 'E', 'V'],
        Book::Tobit => seq!['T', 'O', 'B'],
        Book::Judith => seq!['J', 'D', 'T'],
        Book::Wisdom => seq!['W', 'I', 'S'],
        Book::Sirach => seq!['S', 'I', 'R'],
        Book::Baruch => seq!['B', 'A', 'R'],
        Book::FirstMaccabees => seq!['1', 'M', 'A'],
        Book::SecondMaccabees => seq!['2', 'M', 'A'],
        Book::EstherAdditions => seq!['A', 'D', 'E'],
        Book::DanielSongOfThree => seq!['S', '3', 'Y'],
        Book::DanielSusanna => seq!['S', 'U', 'S'],
        Book::DanielBelAndTheDragon => seq!['B', 'E', 'L'],
        Book::FirstEsdras => seq!['1', 'E', 'S'],
        Book::SecondEsdras => seq!['2', 'E', 'S'],
        Book::PrayerOfManasseh => seq!['M', 'A', 'N'],
        Book::Psalm151 => seq!['P', 'S', '2'],
        Book::ThirdMaccabees => seq!['3', 'M', 'A'],
        Book::FourthMaccabees => seq!['4', 'M', 'A'],
    }
}

/// Canonical order positions and books correspond one to one.
pub proof fn lemma_book_index(b: Book)
    ensures
        0 <= book_index(b) < BOOK_COUNT,
        book_at(book_index(b)) == b,
{
}

/// Canonical order positions and books correspond one to one.
pub proof fn lemma_book_at(i: int)
    requires
        0 <= i < BOOK_COUNT,
    ensures
        book_index(book_at(i)) == i,
{
}

/// Which representation of a book a lookup compares against.
#[derive(Clone, Copy, PartialEq, Eq, Structural)]
pub enum BookField {
    /// Compact abbreviation, compared ignoring ASCII case.
    Abbreviation,
    /// English display name, compared ignoring ASCII case.
    FullName,
    /// OSIS identifier, compared exactly.
    Osis,
    /// USFM identifier, compared exactly.
    Usfm,
}

/// The representation of `b` selected by `field`.
pub open spec fn field_of(b: Book, field: BookField) -> Seq<char> {
    match field {
        BookField::Abbreviation => spec_abbreviation(b),
        BookField::FullName => spec_full_name(b),
        BookField::Osis => spec_osis(b),
        BookField::Usfm => spec_usfm(b),
    }
}

/// Whether `value` names `b` in the representation selected by `field`.
pub open spec fn field_matches(b: Book, field: BookField, value: Seq<char>) -> bool {
    match field {
        BookField::Abbreviation | BookField::FullName => eq_ignore_case(field_of(b, field), value),
        BookField::Osis | BookField::Usfm => field_of(b, field) == value,
    }
}

/// The first book at or after canonical position `i` that `value` names.
pub open spec fn find_book_from(i: int, field: BookField, value: Seq<char>) -> Option<Book>
    decreases BOOK_COUNT - i,
{
    if i < 0 || i >= BOOK_COUNT {
        None
    } else if field_matches(book_at(i), field, value) {
        Some(book_at(i))
    } else {
        find_book_from(i + 1, field, value)
    }
}

/// The first book in canonical order that `value` names.
pub open spec fn find_book(field: BookField, value: Seq<char>) -> Option<Book> {
    find_book_from(0, field, value)
}

/// A lookup returns a matching book, and nothing earlier matches; it returns
/// `None` only when no book matches.
pub proof fn lemma_find_book_from(i: int, field: BookField, value: Seq<char>)
    requires
        0 <= i <= BOOK_COUNT,
    ensures
        find_book_from(i, field, value) matches Some(b) ==> {
            &&& field_matches(b, field, value)
            &&& i <= book_index(b) < BOOK_COUNT
            &&& forall|j: int| i <= j < book_index(b) ==> !field_matches(book_at(j), field, value)
        },
        find_book_from(i, field, value) is None ==> forall|j: int|
            i <= j < BOOK_COUNT ==> !field_matches(#[trigger] book_at(j), field, value),
    decreases BOOK_COUNT - i,
{
    if i < BOOK_COUNT {
        lemma_find_book_from(i + 1, field, value);
        lemma_book_at(i);
    }
}

/// The first book in canonical order that `value` names, and only such a book.
pub proof fn lemma_find_book(field: BookField, value: Seq<char>)
    ensures
        find_book(field, value) matches Some(b) ==> {
            &&& field_matches(b, field, value)
            &&& forall|j: int| 0 <= j < book_index(b) ==> !field_matches(book_at(j), field, value)
        },
        find_book(field, value) is None ==> forall|b: Book| !field_matches(b, field, value),
{
    lemma_find_book_from(0, field, value);
    if find_book(field, value) is None {
        assert forall|b: Book| !field_matches(b, field, value) by {
            lemma_book_index(b);
            assert(!field_matches(book_at(book_index(b)), field, value));
        }
    }
}

/// The book named by `value` under `Book::from_str`: compact abbreviations
/// first, then English names (both ignoring ASCII case), then exact OSIS and
/// USFM identifiers.
pub open spec fn spec_parse_book(value: Seq<char>) -> Option<Book> {
    if find_book(BookField::Abbreviation, value) is Some {
        find_book(BookField::Abbreviation, value)
    } else if find_book(BookField::FullName, value) is Some {
        find_book(BookField::FullName, value)
    } else if find_book(BookField::Osis, value) is Some {
        find_book(BookField::Osis, value)
    } else {
        find_book(BookField::Usfm, value)
    }
}

impl Book {
    /// Every supported book in canonical order.
    pub const ALL: &'static [Book; 83] = &[
        Book::Genesis,
        Book::Exodus,
        Book::Leviticus,
        Book::Numbers,
        Book::Deuteronomy,
        Book::Joshua,
        Book::Judges,
        Book::Ruth,
        Book::FirstSamuel,
        Book::SecondSamuel,
        Book::FirstKings,
        Book::SecondKings,
        Book::FirstChronicles,
        Book::SecondChronicles,
        Book::Ezra,
        Book::Nehemiah,
        Book::Esther,
        Book::Job,
        Book::Psalms,
        Book::Proverbs,
        Book::Ecclesiastes,
        Book::SongOfSolomon,
        Book::Isaiah,
        Book::Jeremiah,
        Book::Lamentations,
        Book::Ezekiel,
        Book::Daniel,
        Book::Hosea,
        Book::Joel,
        Book::Amos,
        Book::Obadiah,
        Book::Jonah,
        Book::Micah,
        Book::Nahum,
        Book::Habakkuk,
        Book::Zephaniah,
        Book::Haggai,
        Book::Zechariah,
        Book::Malachi,
        Book::Matthew,
        Book::Mark,
        Book::Luke,
        Book::John,
        Book::Acts,
        Book::Romans,
        Book::FirstCorinthians,
        Book::SecondCorinthians,
        Book::Galatians,
        Book::Ephesians,
        Book::Philippians,
        Book::Colossians,
        Book::FirstThessalonians,
        Book::SecondThessalonians,
        Book::FirstTimothy,
        Book::SecondTimothy,
        Book::Titus,
        Book::Philemon,
        Book::Hebrews,
        Book::James,
        Book::FirstPeter,
        Book::SecondPeter,
        Book::FirstJohn,
        Book::SecondJohn,
        Book::ThirdJohn,
        Book::Jude,
        Book::Revelation,
        Book::Tobit,
        Book::Judith,
        Book::Wisdom,
        Book::Sirach,
        Book::Baruch,
        Book::FirstMaccabees,
        Book::SecondMaccabees,
        Book::EstherAdditions,
        Book::DanielSongOfThree,
        Book::DanielSusanna,
        Book::DanielBelAndTheDragon,
        Book::FirstEsdras,
        Book::SecondEsdras,
        Book::PrayerOfManasseh,
        Book::Psalm151,
        Book::ThirdMaccabees,
        Book::FourthMaccabees,
    ];

    /// The position of this book in canonical order, starting at zero.
    pub fn index(self) -> (r: usize)
        ensures
            r == book_index(self),
    {
        match self {
            Book::Genesis => 0,
            Book::Exodus => 1,
            Book::Leviticus => 2,
            Book::Numbers => 3,
            Book::Deuteronomy => 4,
            Book::Joshua => 5,
            Book::Judges => 6,
            Book::Ruth => 7,
            Book::FirstSamuel => 8,
            Book::SecondSamuel => 9,
            Book::FirstKings => 10,
            Book::SecondKings => 11,
            Book::FirstChronicles => 12,
            Book::SecondChronicles => 13,
            Book::Ezra => 14,
            Book::Nehemiah => 15,
            Book::Esther => 16,
            Book::Job => 17,
            Book::Psalms => 18,
            Book::Proverbs => 19,
            Book::Ecclesiastes => 20,
            Book::SongOfSolomon => 21,
            Book::Isaiah => 22,
            Book::Jeremiah => 23,
            Book::Lamentations => 24,
            Book::Ezekiel => 25,
            Book::Daniel => 26,
            Book::Hosea => 27,
            Book::Joel => 28,
            Book::Amos => 29,
            Book::Obadiah => 30,
            Book::Jonah => 31,
            Book::Micah => 32,
            Book::Nahum => 33,
            Book::Habakkuk => 34,
            Book::Zephaniah => 35,
            Book::Haggai => 36,
            Book::Zechariah => 37,
            Book::Malachi => 38,
            Book::Matthew => 39,
            Book::Mark => 40,
            Book::Luke => 41,
            Book::John => 42,
            Book::Acts => 43,
            Book::Romans => 44,
            Book::FirstCorinthians => 45,
            Book::SecondCorinthians => 46,
            Book::Galatians => 47,
            Book::Ephesians => 48,
            Book::Philippians => 49,
            Book::Colossians => 50,
            Book::FirstThessalonians => 51,
            Book::SecondThessalonians => 52,
            Book::FirstTimothy => 53,
            Book::SecondTimothy => 54,
            Book::Titus => 55,
            Book::Philemon => 56,
            Book::Hebrews => 57,
            Book::James => 58,
            Book::FirstPeter => 59,
            Book::SecondPeter => 60,
            Book::FirstJohn => 61,
            Book::SecondJohn => 62,
            Book::ThirdJohn => 63,
            Book::Jude => 64,
            Book::Revelation => 65,
            Book::Tobit => 66,
            Book::Judith => 67,
            Book::Wisdom => 68,
            Book::Sirach => 69,
            Book::Baruch => 70,
            Book::FirstMaccabees => 71,
            Book::SecondMaccabees => 72,
            Book::EstherAdditions => 73,
            Book::DanielSongOfThree => 74,
            Book::DanielSusanna => 75,
            Book::DanielBelAndTheDragon => 76,
            Book::FirstEsdras => 77,
            Book::SecondEsdras => 78,
            Book::PrayerOfManasseh => 79,
            Book::Psalm151 => 80,
            Book::ThirdMaccabees => 81,
            Book::FourthMaccabees => 82,
        }
    }

    /// The book at a canonical position.
    pub fn from_index(i: usize) -> (b: Book)
        requires
            i < BOOK_COUNT,
        ensures
            b == book_at(i as int),
    {
        match i {
            0 => Book::Genesis,
            1 => Book::Exodus,
            2 => Book::Leviticus,
            3 => Book::Numbers,
            4 => Book::Deuteronomy,
            5 => Book::Joshua,
            6 => Book::Judges,
            7 => Book::Ruth,
            8 => Book::FirstSamuel,
            9 => Book::SecondSamuel,
            10 => Book::FirstKings,
            11 => Book::SecondKings,
            12 => Book::FirstChronicles,
            13 => Book::SecondChronicles,
            14 => Book::Ezra,
            15 => Book::Nehemiah,
            16 => Book::Esther,
            17 => Book::Job,
            18 => Book::Psalms,
            19 => Book::Proverbs,
            20 => Book::Ecclesiastes,
            21 => Book::SongOfSolomon,
            22 => Book::Isaiah,
            23 => Book::Jeremiah,
            24 => Book::Lamentations,
            25 => Book::Ezekiel,
            26 => Book::Daniel,
            27 => Book::Hosea,
            28 => Book::Joel,
            29 => Book::Amos,
            30 => Book::Obadiah,
            31 => Book::Jonah,
            32 => Book::Micah,
            33 => Book::Nahum,
            34 => Book::Habakkuk,
            35 => Book::Zephaniah,
            36 => Book::Haggai,
            37 => Book::Zechariah,
            38 => Book::Malachi,
            39 => Book::Matthew,
            40 => Book::Mark,
            41 => Book::Luke,
            42 => Book::John,
            43 => Book::Acts,
            44 => Book::Romans,
            45 => Book::FirstCorinthians,
            46 => Book::SecondCorinthians,
            47 => Book::Galatians,
            48 => Book::Ephesians,
            49 => Book::Philippians,
            50 => Book::Colossians,
            51 => Book::FirstThessalonians,
            52 => Book::SecondThessalonians,
            53 => Book::FirstTimothy,
            54 => Book::SecondTimothy,
            55 => Book::Titus,
            56 => Book::Philemon,
            57 => Book::Hebrews,
            58 => Book::James,
            59 => Book::FirstPeter,
            60 => Book::SecondPeter,
            61 => Book::FirstJohn,
            62 => Book::SecondJohn,
            63 => Book::ThirdJohn,
            64 => Book::Jude,
            65 => Book::Revelation,
            66 => Book::Tobit,
            67 => Book::Judith,
            68 => Book::Wisdom,
            69 => Book::Sirach,
            70 => Book::Baruch,
            71 => Book::FirstMaccabees,
            72 => Book::SecondMaccabees,
            73 => Book::EstherAdditions,
            74 => Book::DanielSongOfThree,
            75 => Book::DanielSusanna,
            76 => Book::DanielBelAndTheDragon,
            77 => Book::FirstEsdras,
            78 => Book::SecondEsdras,
            79 => Book::PrayerOfManasseh,
            80 => Book::Psalm151,
            81 => Book::ThirdMaccabees,
            _ => Book::FourthMaccabees,
        }
    }

    /// Return the package's compact, lowercase abbreviation.
    pub fn abbreviation(self) -> (r: &'static str)
        ensures
            r@ == spec_abbreviation(self),
    {
        match self {
            Book::Genesis => {
                proof {
                    reveal_strlit("gn");
                }
                "gn"
            },
            Book::Exodus => {
                proof {
                    reveal_strlit("ex");
                }
                "ex"
            },
            Book::Leviticus => {
                proof {
                    reveal_strlit("lv");
                }
                "lv"
            },
            Book::Numbers => {
                proof {
                    reveal_strlit("nm");
                }
                "nm"
            },
            Book::Deuteronomy => {
                proof {
                    reveal_strlit("dt");
                }
                "dt"
            },
            Book::Joshua => {
                proof {
                    reveal_strlit("js");
                }
                "js"
            },
            Book::Judges => {
                proof {
                    reveal_strlit("jud");
                }
                "jud"
            },
            Book::Ruth => {
                proof {
                    reveal_strlit("rt");
                }
                "rt"
            },
            Book::FirstSamuel => {
                proof {
                    reveal_strlit("1sm");
                }
                "1sm"
            },
            Book::SecondSamuel => {
                proof {
                    reveal_strlit("2sm");
                }
                "2sm"
            },
            Book::FirstKings => {
                proof {
                    reveal_strlit("1kgs");
                }
                "1kgs"
            },
            Book::SecondKings => {
                proof {
                    reveal_strlit("2kgs");
                }
                "2kgs"
            },
            Book::FirstChronicles => {
                proof {
                    reveal_strlit("1ch");
                }
                "1ch"
            },
            Book::SecondChronicles => {
                proof {
                    reveal_strlit("2ch");
                }
                "2ch"
            },
            Book::Ezra => {
                proof {
                    reveal_strlit("ezr");
                }
                "ezr"
            },
            Book::Nehemiah => {
                proof {
                    reveal_strlit("ne");
                }
                "ne"
            },
            Book::Esther => {
                proof {
                    reveal_strlit("et");
                }
                "et"
            },
            Book::Job => {
                proof {
                    reveal_strlit("job");
                }
                "job"
            },
            Book::Psalms => {
                proof {
                    reveal_strlit("ps");
                }
                "ps"
            },
            Book::Proverbs => {
                proof {
                    reveal_strlit("prv");
                }
                "prv"
            },
            Book::Ecclesiastes => {
                proof {
                    reveal_strlit("ec");
                }
                "ec"
            },
            Book::SongOfSolomon => {
                proof {
                    reveal_strlit("so");
                }
                "so"
            },
            Book::Isaiah => {
                proof {
                    reveal_strlit("is");
                }
                "is"
            },
            Book::Jeremiah => {
                proof {
                    reveal_strlit("jr");
                }
                "jr"
            },
            Book::Lamentations => {
                proof {
                    reveal_strlit("lm");
                }
                "lm"
            },
            Book::Ezekiel => {
                proof {
                    reveal_strlit("ez");
                }
                "ez"
            },
            Book::Daniel => {
                proof {
                    reveal_strlit("dn");
                }
                "dn"
            },
            Book::Hosea => {
                proof {
                    reveal_strlit("ho");
                }
                "ho"
            },
            Book::Joel => {
                proof {
                    reveal_strlit("jl");
                }
                "jl"
            },
            Book::Amos => {
                proof {
                    reveal_strlit("am");
                }
                "am"
            },
            Book::Obadiah => {
                proof {
                    reveal_strlit("ob");
                }
                "ob"
            },
            Book::Jonah => {
                proof {
                    reveal_strlit("jn");
                }
                "jn"
            },
            Book::Micah => {
                proof {
                    reveal_strlit("mi");
                }
                "mi"
            },
            Book::Nahum => {
                proof {
                    reveal_strlit("na");
                }
                "na"
            },
            Book::Habakkuk => {
                proof {
                    reveal_strlit("hk");
                }
                "hk"
            },
            Book::Zephaniah => {
                proof {
                    reveal_strlit("zp");
                }
                "zp"
            },
            Book::Haggai => {
                proof {
                    reveal_strlit("hg");
                }
                "hg"
            },
            Book::Zechariah => {
                proof {
                    reveal_strlit("zc");
                }
                "zc"
            },
            Book::Malachi => {
                proof {
                    reveal_strlit("ml");
                }
                "ml"
            },
            Book::Matthew => {
                proof {
                    reveal_strlit("mt");
                }
                "mt"
            },
            Book::Mark => {
                proof {
                    reveal_strlit("mk");
                }
                "mk"
            },
            Book::Luke => {
                proof {
                    reveal_strlit("lk");
                }
                "lk"
            },
            Book::John => {
                proof {
                    reveal_strlit("jo");
                }
                "jo"
            },
            Book::Acts => {
                proof {
                    reveal_strlit("act");
                }
                "act"
            },
            Book::Romans => {
                proof {
                    reveal_strlit("rm");
                }
                "rm"
            },
            Book::FirstCorinthians => {
                proof {
                    reveal_strlit("1co");
                }
                "1co"
            },
            Book::SecondCorinthians => {
                proof {
                    reveal_strlit("2co");
                }
                "2co"
            },
            Book::Galatians => {
                proof {
                    reveal_strlit("gl");
                }
                "gl"
            },
            Book::Ephesians => {
                proof {
                    reveal_strlit("eph");
                }
                "eph"
            },
            Book::Philippians => {
                proof {
                    reveal_strlit("ph");
                }
                "ph"
            },
            Book::Colossians => {
                proof {
                    reveal_strlit("cl");
                }
                "cl"
            },
            Book::FirstThessalonians => {
                proof {
                    reveal_strlit("1ts");
                }
                "1ts"
            },
            Book::SecondThessalonians => {
                proof {
                    reveal_strlit("2ts");
                }
                "2ts"
            },
            Book::FirstTimothy => {
                proof {
                    reveal_strlit("1tm");
                }
                "1tm"
            },
            Book::SecondTimothy => {
                proof {
                    reveal_strlit("2tm");
                }
                "2tm"
            },
            Book::Titus => {
                proof {
                    reveal_strlit("tt");
                }
                "tt"
            },
            Book::Philemon => {
                proof {
                    reveal_strlit("phm");
                }
                "phm"
            },
            Book::Hebrews => {
                proof {
                    reveal_strlit("hb");
                }
                "hb"
            },
            Book::James => {
                proof {
                    reveal_strlit("jm");
                }
                "jm"
            },
            Book::FirstPeter => {
                proof {
                    reveal_strlit("1pe");
                }
                "1pe"
            },
            Book::SecondPeter => {
                proof {
                    reveal_strlit("2pe");
                }
                "2pe"
            },
            Book::FirstJohn => {
                proof {
                    reveal_strlit("1jo");
                }
                "1jo"
            },
            Book::SecondJohn => {
                proof {
                    reveal_strlit("2jo");
                }
                "2jo"
            },
            Book::ThirdJohn => {
                proof {
                    reveal_strlit("3jo");
                }
                "3jo"
            },
            Book::Jude => {
                proof {
                    reveal_strlit("jd");
                }
                "jd"
            },
            Book::Revelation => {
                proof {
                    reveal_strlit("re");
                }
                "re"
            },
            Book::Tobit => {
                proof {
                    reveal_strlit("tb");
                }
                "tb"
            },
            Book::Judith => {
                proof {
                    reveal_strlit("jdt");
                }
                "jdt"
            },
            Book::Wisdom => {
                proof {
                    reveal_strlit("ws");
                }
                "ws"
            },
            Book::Sirach => {
                proof {
                    reveal_strlit("sir");
                }
                "sir"
            },
            Book::Baruch => {
                proof {
                    reveal_strlit("bar");
                }
                "bar"
            },
            Book::FirstMaccabees => {
                proof {
                    reveal_strlit("1mc");
                }
                "1mc"
            },
            Book::SecondMaccabees => {
                proof {
                    reveal_strlit("2mc");
                }
                "2mc"
            },
            Book::EstherAdditions => {
                proof {
                    reveal_strlit("etg");
                }
                "etg"
            },
            Book::DanielSongOfThree => {
                proof {
                    reveal_strlit("dn3");
                }
                "dn3"
            },
            Book::DanielSusanna => {
                proof {
                    reveal_strlit("dns");
                }
                "dns"
            },
            Book::DanielBelAndTheDragon => {
                proof {
                    reveal_strlit("dnb");
                }
                "dnb"
            },
            Book::FirstEsdras => {
                proof {
                    reveal_strlit("1es");
                }
                "1es"
            },
            Book::SecondEsdras => {
                proof {
                    reveal_strlit("2es");
                }
                "2es"
            },
            Book::PrayerOfManasseh => {
                proof {
                    reveal_strlit("pmn");
                }
                "pmn"
            },
            Book::Psalm151 => {
                proof {
                    reveal_strlit("ps151");
                }
                "ps151"
            },
            Book::ThirdMaccabees => {
                proof {
                    reveal_strlit("3mc");
                }
                "3mc"
            },
            Book::FourthMaccabees => {
                proof {
                    reveal_strlit("4mc");
                }
                "4mc"
            },
        }
    }

    /// Return the canonical English display name.
    pub fn full_name(self) -> (r: &'static str)
        ensures
            r@ == spec_full_name(self),
    {
        match self {
            Book::Genesis => {
                proof {
                    reveal_strlit("Genesis");
                }
                "Genesis"
            },
            Book::Exodus => {
                proof {
                    reveal_strlit("Exodus");
                }
                "Exodus"
            },
            Book::Leviticus => {
                proof {
                    reveal_strlit("Leviticus");
                }
                "Leviticus"
            },
            Book::Numbers => {
                proof {
                    reveal_strlit("Numbers");
                }
                "Numbers"
            },
            Book::Deuteronomy => {
                proof {
                    reveal_strlit("Deuteronomy");
                }
                "Deuteronomy"
            },
            Book::Joshua => {
                proof {
                    reveal_strlit("Joshua");
                }
                "Joshua"
            },
            Book::Judges => {
                proof {
                    reveal_strlit("Judges");
                }
                "Judges"
            },
            Book::Ruth => {
                proof {
                    reveal_strlit("Ruth");
                }
                "Ruth"
            },
            Book::FirstSamuel => {
                proof {
                    reveal_strlit("1 Samuel");
                }
                "1 Samuel"
            },
            Book::SecondSamuel => {
                proof {
                    reveal_strlit("2 Samuel");
                }
                "2 Samuel"
            },
            Book::FirstKings => {
                proof {
                    reveal_strlit("1 Kings");
                }
                "1 Kings"
            },
            Book::SecondKings => {
                proof {
                    reveal_strlit("2 Kings");
                }
                "2 Kings"
            },
            Book::FirstChronicles => {
                proof {
                    reveal_strlit("1 Chronicles");
                }
                "1 Chronicles"
            },
            Book::SecondChronicles => {
                proof {
                    reveal_strlit("2 Chronicles");
                }
                "2 Chronicles"
            },
            Book::Ezra => {
                proof {
                    reveal_strlit("Ezra");
                }
                "Ezra"
            },
            Book::Nehemiah => {
                proof {
                    reveal_strlit("Nehemiah");
                }
                "Nehemiah"
            },
            Book::Esther => {
                proof {
                    reveal_strlit("Esther");
                }
                "Esther"
            },
            Book::Job => {
                proof {
                    reveal_strlit("Job");
                }
                "Job"
            },
            Book::Psalms => {
                proof {
                    reveal_strlit("Psalms");
                }
                "Psalms"
            },
            Book::Proverbs => {
                proof {
                    reveal_strlit("Proverbs");
                }
                "Proverbs"
            },
            Book::Ecclesiastes => {
                proof {
                    reveal_strlit("Ecclesiastes");
                }
                "Ecclesiastes"
            },
            Book::SongOfSolomon => {
                proof {
                    reveal_strlit("Song of Solomon");
                }
                "Song of Solomon"
            },
            Book::Isaiah => {
                proof {
                    reveal_strlit("Isaiah");
                }
                "Isaiah"
            },
            Book::Jeremiah => {
                proof {
                    reveal_strlit("Jeremiah");
                }
                "Jeremiah"
            },
            Book::Lamentations => {
                proof {
                    reveal_strlit("Lamentations");
                }
                "Lamentations"
            },
            Book::Ezekiel => {
                proof {
                    reveal_strlit("Ezekiel");
                }
                "Ezekiel"
            },
            Book::Daniel => {
                proof {
                    reveal_strlit("Daniel");
                }
                "Daniel"
            },
            Book::Hosea => {
                proof {
                    reveal_strlit("Hosea");
                }
                "Hosea"
            },
            Book::Joel => {
                proof {
                    reveal_strlit("Joel");
                }
                "Joel"
            },
            Book::Amos => {
                proof {
                    reveal_strlit("Amos");
                }
                "Amos"
            },
            Book::Obadiah => {
                proof {
                    reveal_strlit("Obadiah");
                }
                "Obadiah"
            },
            Book::Jonah => {
                proof {
                    reveal_strlit("Jonah");
                }
                "Jonah"
            },
            Book::Micah => {
                proof {
                    reveal_strlit("Micah");
                }
                "Micah"
            },
            Book::Nahum => {
                proof {
                    reveal_strlit("Nahum");
                }
                "Nahum"
            },
            Book::Habakkuk => {
                proof {
                    reveal_strlit("Habakkuk");
                }
                "Habakkuk"
            },
            Book::Zephaniah => {
                proof {
                    reveal_strlit("Zephaniah");
                }
                "Zephaniah"
            },
            Book::Haggai => {
                proof {
                    reveal_strlit("Haggai");
                }
                "Haggai"
            },
            Book::Zechariah => {
                proof {
                    reveal_strlit("Zechariah");
                }
                "Zechariah"
            },
            Book::Malachi => {
                proof {
                    reveal_strlit("Malachi");
                }
                "Malachi"
            },
            Book::Matthew => {
                proof {
                    reveal_strlit("Matthew");
                }
                "Matthew"
            },
            Book::Mark => {
                proof {
                    reveal_strlit("Mark");
                }
                "Mark"
            },
            Book::Luke => {
                proof {
                    reveal_strlit("Luke");
                }
                "Luke"
            },
            Book::John => {
                proof {
                    reveal_strlit("John");
                }
                "John"
            },
            Book::Acts => {
                proof {
                    reveal_strlit("Acts");
                }
                "Acts"
            },
            Book::Romans => {
                proof {
                    reveal_strlit("Romans");
                }
                "Romans"
            },
            Book::FirstCorinthians => {
                proof {
                    reveal_strlit("1 Corinthians");
                }
                "1 Corinthians"
            },
            Book::SecondCorinthians => {
                proof {
                    reveal_strlit("2 Corinthians");
                }
                "2 Corinthians"
            },
            Book::Galatians => {
                proof {
                    reveal_strlit("Galatians");
                }
                "Galatians"
            },
            Book::Ephesians => {
                proof {
                    reveal_strlit("Ephesians");
                }
                "Ephesians"
            },
            Book::Philippians => {
                proof {
                    reveal_strlit("Philippians");
                }
                "Philippians"
            },
            Book::Colossians => {
                proof {
                    reveal_strlit("Colossians");
                }
                "Colossians"
            },
            Book::FirstThessalonians => {
                proof {
                    reveal_strlit("1 Thessalonians");
                }
                "1 Thessalonians"
            },
            Book::SecondThessalonians => {
                proof {
                    reveal_strlit("2 Thessalonians");
                }
                "2 Thessalonians"
            },
            Book::FirstTimothy => {
                proof {
                    reveal_strlit("1 Timothy");
                }
                "1 Timothy"
            },
            Book::SecondTimothy => {
                proof {
                    reveal_strlit("2 Timothy");
                }
                "2 Timothy"
            },
            Book::Titus => {
                proof {
                    reveal_strlit("Titus");
                }
                "Titus"
            },
            Book::Philemon => {
                proof {
                    reveal_strlit("Philemon");
                }
                "Philemon"
            },
            Book::Hebrews => {
                proof {
                    reveal_strlit("Hebrews");
                }
                "Hebrews"
            },
            Book::James => {
                proof {
                    reveal_strlit("James");
                }
                "James"
            },
            Book::FirstPeter => {
                proof {
                    reveal_strlit("1 Peter");
                }
                "1 Peter"
            },
            Book::SecondPeter => {
                proof {
                    reveal_strlit("2 Peter");
                }
                "2 Peter"
            },
            Book::FirstJohn => {
                proof {
                    reveal_strlit("1 John");
                }
                "1 John"
            },
            Book::SecondJohn => {
                proof {
                    reveal_strlit("2 John");
                }
                "2 John"
            },
            Book::ThirdJohn => {
                proof {
                    reveal_strlit("3 John");
                }
                "3 John"
            },
            Book::Jude => {
                proof {
                    reveal_strlit("Jude");
                }
                "Jude"
            },
            Book::Revelation => {
                proof {
                    reveal_strlit("Revelation");
                }
                "Revelation"
            },
            Book::Tobit => {
                proof {
                    reveal_strlit("Tobit");
                }
                "Tobit"
            },
            Book::Judith => {
                proof {
                    reveal_strlit("Judith");
                }
                "Judith"
            },
            Book::Wisdom => {
                proof {
                    reveal_strlit("Wisdom");
                }
                "Wisdom"
            },
            Book::Sirach => {
                proof {
                    reveal_strlit("Sirach");
                }
                "Sirach"
            },
            Book::Baruch => {
                proof {
                    reveal_strlit("Baruch");
                }
                "Baruch"
            },
            Book::FirstMaccabees => {
                proof {
                    reveal_strlit("1 Maccabees");
                }
                "1 Maccabees"
            },
            Book::SecondMaccabees => {
                proof {
                    reveal_strlit("2 Maccabees");
                }
                "2 Maccabees"
            },
            Book::EstherAdditions => {
                proof {
                    reveal_strlit("Esther (Greek)");
                }
                "Esther (Greek)"
            },
            Book::DanielSongOfThree => {
                proof {
                    reveal_strlit("Daniel (Song of Three)");
                }
                "Daniel (Song of Three)"
            },
            Book::DanielSusanna => {
                proof {
                    reveal_strlit("Daniel (Susanna)");
                }
                "Daniel (Susanna)"
            },
            Book::DanielBelAndTheDragon => {
                proof {
                    reveal_strlit("Daniel (Bel and the Dragon)");
                }
                "Daniel (Bel and the Dragon)"
            },
            Book::FirstEsdras => {
                proof {
                    reveal_strlit("1 Esdras");
                }
                "1 Esdras"
            },
            Book::SecondEsdras => {
                proof {
                    reveal_strlit("2 Esdras");
                }
                "2 Esdras"
            },
            Book::PrayerOfManasseh => {
                proof {
                    reveal_strlit("Prayer of Manasseh");
                }
                "Prayer of Manasseh"
            },
            Book::Psalm151 => {
                proof {
                    reveal_strlit("Psalm 151");
                }
                "Psalm 151"
            },
            Book::ThirdMaccabees => {
                proof {
                    reveal_strlit("3 Maccabees");
                }
                "3 Maccabees"
            },
            Book::FourthMaccabees => {
                proof {
                    reveal_strlit("4 Maccabees");
                }
                "4 Maccabees"
            },
        }
    }

    /// Return the case-sensitive OSIS book identifier.
    pub fn osis(self) -> (r: &'static str)
        ensures
            r@ == spec_osis(self),
    {
        match self {
            Book::Genesis => {
                proof {
                    reveal_strlit("Gen");
                }
                "Gen"
            },
            Book::Exodus => {
                proof {
                    reveal_strlit("Exod");
                }
                "Exod"
            },
            Book::Leviticus => {
                proof {
                    reveal_strlit("Lev");
                }
                "Lev"
            },
            Book::Numbers => {
                proof {
                    reveal_strlit("Num");
                }
                "Num"
            },
            Book::Deuteronomy => {
                proof {
                    reveal_strlit("Deut");
                }
                "Deut"
            },
            Book::Joshua => {
                proof {
                    reveal_strlit("Josh");
                }
                "Josh"
            },
            Book::Judges => {
                proof {
                    reveal_strlit("Judg");
                }
                "Judg"
            },
            Book::Ruth => {
                proof {
                    reveal_strlit("Ruth");
                }
                "Ruth"
            },
            Book::FirstSamuel => {
                proof {
                    reveal_strlit("1Sam");
                }
                "1Sam"
            },
            Book::SecondSamuel => {
                proof {
                    reveal_strlit("2Sam");
                }
                "2Sam"
            },
            Book::FirstKings => {
                proof {
                    reveal_strlit("1Kgs");
                }
                "1Kgs"
            },
            Book::SecondKings => {
                proof {
                    reveal_strlit("2Kgs");
                }
                "2Kgs"
            },
            Book::FirstChronicles => {
                proof {
                    reveal_strlit("1Chr");
                }
                "1Chr"
            },
            Book::SecondChronicles => {
                proof {
                    reveal_strlit("2Chr");
                }
                "2Chr"
            },
            Book::Ezra => {
                proof {
                    reveal_strlit("Ezra");
                }
                "Ezra"
            },
            Book::Nehemiah => {
                proof {
                    reveal_strlit("Neh");
                }
                "Neh"
            },
            Book::Esther => {
                proof {
                    reveal_strlit("Esth");
                }
                "Esth"
            },
            Book::Job => {
                proof {
                    reveal_strlit("Job");
                }
                "Job"
            },
            Book::Psalms => {
                proof {
                    reveal_strlit("Ps");
                }
                "Ps"
            },
            Book::Proverbs => {
                proof {
                    reveal_strlit("Prov");
                }
                "Prov"
            },
            Book::Ecclesiastes => {
                proof {
                    reveal_strlit("Eccl");
                }
                "Eccl"
            },
            Book::SongOfSolomon => {
                proof {
                    reveal_strlit("Song");
                }
                "Song"
            },
            Book::Isaiah => {
                proof {
                    reveal_strlit("Isa");
                }
                "Isa"
            },
            Book::Jeremiah => {
                proof {
                    reveal_strlit("Jer");
                }
                "Jer"
            },
            Book::Lamentations => {
                proof {
                    reveal_strlit("Lam");
                }
                "Lam"
            },
            Book::Ezekiel => {
                proof {
                    reveal_strlit("Ezek");
                }
                "Ezek"
            },
            Book::Daniel => {
                proof {
                    reveal_strlit("Dan");
                }
                "Dan"
            },
            Book::Hosea => {
                proof {
                    reveal_strlit("Hos");
                }
                "Hos"
            },
            Book::Joel => {
                proof {
                    reveal_strlit("Joel");
                }
                "Joel"
            },
            Book::Amos => {
                proof {
                    reveal_strlit("Amos");
                }
                "Amos"
            },
            Book::Obadiah => {
                proof {
                    reveal_strlit("Obad");
                }
                "Obad"
            },
            Book::Jonah => {
                proof {
                    reveal_strlit("Jonah");
                }
                "Jonah"
            },
            Book::Micah => {
                proof {
                    reveal_strlit("Mic");
                }
                "Mic"
            },
            Book::Nahum => {
                proof {
                    reveal_strlit("Nah");
                }
                "Nah"
            },
            Book::Habakkuk => {
                proof {
                    reveal_strlit("Hab");
                }
                "Hab"
            },
            Book::Zephaniah => {
                proof {
                    reveal_strlit("Zeph");
                }
                "Zeph"
            },
            Book::Haggai => {
                proof {
                    reveal_strlit("Hag");
                }
                "Hag"
            },
            Book::Zechariah => {
                proof {
                    reveal_strlit("Zech");
                }
                "Zech"
            },
            Book::Malachi => {
                proof {
                    reveal_strlit("Mal");
                }
                "Mal"
            },
            Book::Matthew => {
                proof {
                    reveal_strlit("Matt");
                }
                "Matt"
            },
            Book::Mark => {
                proof {
                    reveal_strlit("Mark");
                }
                "Mark"
            },
            Book::Luke => {
                proof {
                    reveal_strlit("Luke");
                }
                "Luke"
            },
            Book::John => {
                proof {
                    reveal_strlit("John");
                }
                "John"
            },
            Book::Acts => {
                proof {
                    reveal_strlit("Acts");
                }
                "Acts"
            },
            Book::Romans => {
                proof {
                    reveal_strlit("Rom");
                }
                "Rom"
            },
            Book::FirstCorinthians => {
                proof {
                    reveal_strlit("1Cor");
                }
                "1Cor"
            },
            Book::SecondCorinthians => {
                proof {
                    reveal_strlit("2Cor");
                }
                "2Cor"
            },
            Book::Galatians => {
                proof {
                    reveal_strlit("Gal");
                }
                "Gal"
            },
            Book::Ephesians => {
                proof {
                    reveal_strlit("Eph");
                }
                "Eph"
            },
            Book::Philippians => {
                proof {
                    reveal_strlit("Phil");
                }
                "Phil"
            },
            Book::Colossians => {
                proof {
                    reveal_strlit("Col");
                }
                "Col"
            },
            Book::FirstThessalonians => {
                proof {
                    reveal_strlit("1Thess");
                }
                "1Thess"
            },
            Book::SecondThessalonians => {
                proof {
                    reveal_strlit("2Thess");
                }
                "2Thess"
            },
            Book::FirstTimothy => {
                proof {
                    reveal_strlit("1Tim");
                }
                "1Tim"
            },
            Book::SecondTimothy => {
                proof {
                    reveal_strlit("2Tim");
                }
                "2Tim"
            },
            Book::Titus => {
                proof {
                    reveal_strlit("Titus");
                }
                "Titus"
            },
            Book::Philemon => {
                proof {
                    reveal_strlit("Phlm");
                }
                "Phlm"
            },
            Book::Hebrews => {
                proof {
                    reveal_strlit("Heb");
                }
                "Heb"
            },
            Book::James => {
                proof {
                    reveal_strlit("Jas");
                }
                "Jas"
            },
            Book::FirstPeter => {
                proof {
                    reveal_strlit("1Pet");
                }
                "1Pet"
            },
            Book::SecondPeter => {
                proof {
                    reveal_strlit("2Pet");
                }
                "2Pet"
            },
            Book::FirstJohn => {
                proof {
                    reveal_strlit("1John");
                }
                "1John"
            },
            Book::SecondJohn => {
                proof {
                    reveal_strlit("2John");
                }
                "2John"
            },
            Book::ThirdJohn => {
                proof {
                    reveal_strlit("3John");
                }
                "3John"
            },
            Book::Jude => {
                proof {
                    reveal_strlit("Jude");
                }
                "Jude"
            },
            Book::Revelation => {
                proof {
                    reveal_strlit("Rev");
                }
                "Rev"
            },
            Book::Tobit => {
                proof {
                    reveal_strlit("Tob");
                }
                "Tob"
            },
            Book::Judith => {
                proof {
                    reveal_strlit("Jdt");
                }
                "Jdt"
            },
            Book::Wisdom => {
                proof {
                    reveal_strlit("Wis");
                }
                "Wis"
            },
            Book::Sirach => {
                proof {
                    reveal_strlit("Sir");
                }
                "Sir"
            },
            Book::Baruch => {
                proof {
                    reveal_strlit("Bar");
                }
                "Bar"
            },
            Book::FirstMaccabees => {
                proof {
                    reveal_strlit("1Macc");
                }
                "1Macc"
            },
            Book::SecondMaccabees => {
                proof {
                    reveal_strlit("2Macc");
                }
                "2Macc"
            },
            Book::EstherAdditions => {
                proof {
                    reveal_strlit("AddEsth");
                }
                "AddEsth"
            },
            Book::DanielSongOfThree => {
                proof {
                    reveal_strlit("PrAzar");
                }
                "PrAzar"
            },
            Book::DanielSusanna => {
                proof {
                    reveal_strlit("Sus");
                }
                "Sus"
            },
            Book::DanielBelAndTheDragon => {
                proof {
                    reveal_strlit("Bel");
                }
                "Bel"
            },
            Book::FirstEsdras => {
                proof {
                    reveal_strlit("1Esd");
                }
                "1Esd"
            },
            Book::SecondEsdras => {
                proof {
                    reveal_strlit("2Esd");
                }
                "2Esd"
            },
            Book::PrayerOfManasseh => {
                proof {
                    reveal_strlit("PrMan");
                }
                "PrMan"
            },
            Book::Psalm151 => {
                proof {
                    reveal_strlit("AddPs");
                }
                "AddPs"
            },
            Book::ThirdMaccabees => {
                proof {
                    reveal_strlit("3Macc");
                }
                "3Macc"
            },
            Book::FourthMaccabees => {
                proof {
                    reveal_strlit("4Macc");
                }
                "4Macc"
            },
        }
    }

    /// Return the case-sensitive USFM book identifier.
    pub fn usfm(self) -> (r: &'static str)
        ensures
            r@ == spec_usfm(self),
    {
        match self {
            Book::Genesis => {
                proof {
                    reveal_strlit("GEN");
                }
                "GEN"
            },
            Book::Exodus => {
                proof {
                    reveal_strlit("EXO");
                }
                "EXO"
            },
            Book::Leviticus => {
                proof {
                    reveal_strlit("LEV");
                }
                "LEV"
            },
            Book::Numbers => {
                proof {
                    reveal_strlit("NUM");
                }
                "NUM"
            },
            Book::Deuteronomy => {
                proof {
                    reveal_strlit("DEU");
                }
                "DEU"
            },
            Book::Joshua => {
                proof {
                    reveal_strlit("JOS");
                }
                "JOS"
            },
            Book::Judges => {
                proof {
                    reveal_strlit("JDG");
                }
                "JDG"
            },
            Book::Ruth => {
                proof {
                    reveal_strlit("RUT");
                }
                "RUT"
            },
            Book::FirstSamuel => {
                proof {
                    reveal_strlit("1SA");
                }
                "1SA"
            },
            Book::SecondSamuel => {
                proof {
                    reveal_strlit("2SA");
                }
                "2SA"
            },
            Book::FirstKings => {
                proof {
                    reveal_strlit("1KI");
                }
                "1KI"
            },
            Book::SecondKings => {
                proof {
                    reveal_strlit("2KI");
                }
                "2KI"
            },
            Book::FirstChronicles => {
                proof {
                    reveal_strlit("1CH");
                }
                "1CH"
            },
            Book::SecondChronicles => {
                proof {
                    reveal_strlit("2CH");
                }
                "2CH"
            },
            Book::Ezra => {
                proof {
                    reveal_strlit("EZR");
                }
                "EZR"
            },
            Book::Nehemiah => {
                proof {
                    reveal_strlit("NEH");
                }
                "NEH"
            },
            Book::Esther => {
                proof {
                    reveal_strlit("EST");
                }
                "EST"
            },
            Book::Job => {
                proof {
                    reveal_strlit("JOB");
                }
                "JOB"
            },
            Book::Psalms => {
                proof {
                    reveal_strlit("PSA");
                }
                "PSA"
            },
            Book::Proverbs => {
                proof {
                    reveal_strlit("PRO");
                }
                "PRO"
            },
            Book::Ecclesiastes => {
                proof {
                    reveal_strlit("ECC");
                }
                "ECC"
            },
            Book::SongOfSolomon => {
                proof {
                    reveal_strlit("SNG");
                }
                "SNG"
            },
            Book::Isaiah => {
                proof {
                    reveal_strlit("ISA");
                }
                "ISA"
            },
            Book::Jeremiah => {
                proof {
                    reveal_strlit("JER");
                }
                "JER"
            },
            Book::Lamentations => {
                proof {
                    reveal_strlit("LAM");
                }
                "LAM"
            },
            Book::Ezekiel => {
                proof {
                    reveal_strlit("EZK");
                }
                "EZK"
            },
            Book::Daniel => {
                proof {
                    reveal_strlit("DAN");
                }
                "DAN"
            },
            Book::Hosea => {
                proof {
                    reveal_strlit("HOS");
                }
                "HOS"
            },
            Book::Joel => {
                proof {
                    reveal_strlit("JOL");
                }
                "JOL"
            },
            Book::Amos => {
                proof {
                    reveal_strlit("AMO");
                }
                "AMO"
            },
            Book::Obadiah => {
                proof {
                    reveal_strlit("OBA");
                }
                "OBA"
            },
            Book::Jonah => {
                proof {
                    reveal_strlit("JON");
                }
                "JON"
            },
            Book::Micah => {
                proof {
                    reveal_strlit("MIC");
                }
                "MIC"
            },
            Book::Nahum => {
                proof {
                    reveal_strlit("NAM");
                }
                "NAM"
            },
            Book::Habakkuk => {
                proof {
                    reveal_strlit("HAB");
                }
                "HAB"
            },
            Book::Zephaniah => {
                proof {
                    reveal_strlit("ZEP");
                }
                "ZEP"
            },
            Book::Haggai => {
                proof {
                    reveal_strlit("HAG");
                }
                "HAG"
            },
            Book::Zechariah => {
                proof {
                    reveal_strlit("ZEC");
                }
                "ZEC"
            },
            Book::Malachi => {
                proof {
                    reveal_strlit("MAL");
                }
                "MAL"
            },
            Book::Matthew => {
                proof {
                    reveal_strlit("MAT");
                }
                "MAT"
            },
            Book::Mark => {
                proof {
                    reveal_strlit("MRK");
                }
                "MRK"
            },
            Book::Luke => {
                proof {
                    reveal_strlit("LUK");
                }
                "LUK"
            },
            Book::John => {
                proof {
                    reveal_strlit("JHN");
                }
                "JHN"
            },
            Book::Acts => {
                proof {
                    reveal_strlit("ACT");
                }
                "ACT"
            },
            Book::Romans => {
                proof {
                    reveal_strlit("ROM");
                }
                "ROM"
            },
            Book::FirstCorinthians => {
                proof {
                    reveal_strlit("1CO");
                }
                "1CO"
            },
            Book::SecondCorinthians => {
                proof {
                    reveal_strlit("2CO");
                }
                "2CO"
            },
            Book::Galatians => {
                proof {
                    reveal_strlit("GAL");
                }
                "GAL"
            },
            Book::Ephesians => {
                proof {
                    reveal_strlit("EPH");
                }
                "EPH"
            },
            Book::Philippians => {
                proof {
                    reveal_strlit("PHP");
                }
                "PHP"
            },
            Book::Colossians => {
                proof {
                    reveal_strlit("COL");
                }
                "COL"
            },
            Book::FirstThessalonians => {
                proof {
                    reveal_strlit("1TH");
                }
                "1TH"
            },
            Book::SecondThessalonians => {
                proof {
                    reveal_strlit("2TH");
                }
                "2TH"
            },
            Book::FirstTimothy => {
                proof {
                    reveal_strlit("1TI");
                }
                "1TI"
            },
            Book::SecondTimothy => {
                proof {
                    reveal_strlit("2TI");
                }
                "2TI"
            },
            Book::Titus => {
                proof {
                    reveal_strlit("TIT");
                }
                "TIT"
            },
            Book::Philemon => {
                proof {
                    reveal_strlit("PHM");
                }
                "PHM"
            },
            Book::Hebrews => {
                proof {
                    reveal_strlit("HEB");
                }
                "HEB"
            },
            Book::James => {
                proof {
                    reveal_strlit("JAS");
                }
                "JAS"
            },
            Book::FirstPeter => {
                proof {
                    reveal_strlit("1PE");
                }
                "1PE"
            },
            Book::SecondPeter => {
                proof {
                    reveal_strlit("2PE");
                }
                "2PE"
            },
            Book::FirstJohn => {
                proof {
                    reveal_strlit("1JN");
                }
                "1JN"
            },
            Book::SecondJohn => {
                proof {
                    reveal_strlit("2JN");
                }
                "2JN"
            },
            Book::ThirdJohn => {
                proof {
                    reveal_strlit("3JN");
                }
                "3JN"
            },
            Book::Jude => {
                proof {
                    reveal_strlit("JUD");
                }
                "JUD"
            },
            Book::Revelation => {
                proof {
                    reveal_strlit("REV");
                }
                "REV"
            },
            Book::Tobit => {
                proof {
                    reveal_strlit("TOB");
                }
                "TOB"
            },
            Book::Judith => {
                proof {
                    reveal_strlit("JDT");
                }
                "JDT"
            },
            Book::Wisdom => {
                proof {
                    reveal_strlit("WIS");
                }
                "WIS"
            },
            Book::Sirach => {
                proof {
                    reveal_strlit("SIR");
                }
                "SIR"
            },
            Book::Baruch => {
                proof {
                    reveal_strlit("BAR");
                }
                "BAR"
            },
            Book::FirstMaccabees => {
                proof {
                    reveal_strlit("1MA");
                }
                "1MA"
            },
            Book::SecondMaccabees => {
                proof {
                    reveal_strlit("2MA");
                }
                "2MA"
            },
            Book::EstherAdditions => {
                proof {
                    reveal_strlit("ADE");
                }
                "ADE"
            },
            Book::DanielSongOfThree => {
                proof {
                    reveal_strlit("S3Y");
                }
                "S3Y"
            },
            Book::DanielSusanna => {
                proof {
                    reveal_strlit("SUS");
                }
                "SUS"
            },
            Book::DanielBelAndTheDragon => {
                proof {
                    reveal_strlit("BEL");
                }
                "BEL"
            },
            Book::FirstEsdras => {
                proof {
                    reveal_strlit("1ES");
                }
                "1ES"
            },
            Book::SecondEsdras => {
                proof {
                    reveal_strlit("2ES");
                }
                "2ES"
            },
            Book::PrayerOfManasseh => {
                proof {
                    reveal_strlit("MAN");
                }
                "MAN"
            },
            Book::Psalm151 => {
                proof {
                    reveal_strlit("PS2");
                }
                "PS2"
            },
            Book::ThirdMaccabees => {
                proof {
                    reveal_strlit("3MA");
                }
                "3MA"
            },
            Book::FourthMaccabees => {
                proof {
                    reveal_strlit("4MA");
                }
                "4MA"
            },
        }
    }

    /// The representation selected by `field`.
    pub fn field(self, field: BookField) -> (r: &'static str)
        ensures
            r@ == field_of(self, field),
    {
        match field {
            BookField::Abbreviation => self.abbreviation(),
            BookField::FullName => self.full_name(),
            BookField::Osis => self.osis(),
            BookField::Usfm => self.usfm(),
        }
    }

    /// The first book in canonical order that `value` names in `field`.
    pub fn find(field: BookField, value: &[char]) -> (r: Option<Book>)
        ensures
            r == find_book(field, value@),
    {
        let mut i: usize = 0;
        while i < BOOK_COUNT
            invariant
                i <= BOOK_COUNT,
                find_book(field, value@) == find_book_from(i as int, field, value@),
            decreases BOOK_COUNT - i,
        {
            let book = Book::from_index(i);
            let name = chars_of(book.field(field));
            let matched = match field {
                BookField::Abbreviation | BookField::FullName => chars_eq_ignore_case(
                    name.as_slice(),
                    value,
                ),
                BookField::Osis | BookField::Usfm => chars_eq(name.as_slice(), value),
            };
            if matched {
                return Some(book);
            }
            i += 1;
        }
        None
    }

    /// Resolve an exact compact abbreviation, ignoring only ASCII case.
    ///
    /// Surrounding whitespace and alternate abbreviations are rejected.
    pub fn from_abbreviation(value: &str) -> (r: Option<Book>)
        ensures
            r == find_book(BookField::Abbreviation, value@),
    {
        let v = chars_of(value);
        Book::find(BookField::Abbreviation, v.as_slice())
    }

    /// Resolve an exact, case-sensitive OSIS book identifier.
    pub fn from_osis(value: &str) -> (r: Option<Book>)
        ensures
            r == find_book(BookField::Osis, value@),
    {
        let v = chars_of(value);
        Book::find(BookField::Osis, v.as_slice())
    }

    /// Resolve an exact, case-sensitive USFM book identifier.
    pub fn from_usfm(value: &str) -> (r: Option<Book>)
        ensures
            r == find_book(BookField::Usfm, value@),
    {
        let v = chars_of(value);
        Book::find(BookField::Usfm, v.as_slice())
    }

    /// Resolve an English display name, ignoring only ASCII case.
    pub fn from_full_name(value: &str) -> (r: Option<Book>)
        ensures
            r == find_book(BookField::FullName, value@),
    {
        let v = chars_of(value);
        Book::find(BookField::FullName, v.as_slice())
    }

    /// Resolve a book name: compact abbreviation, English name, OSIS, then USFM.
    pub fn parse_name(value: &str) -> (r: Result<Book, ParseBookError>)
        ensures
            match r {
                Ok(b) => spec_parse_book(value@) == Some(b),
                Err(e) => spec_parse_book(value@) is None && e@ == value@,
            },
    {
        let v = chars_of(value);
        if let Some(b) = Book::find(BookField::Abbreviation, v.as_slice()) {
            return Ok(b);
        }
        if let Some(b) = Book::find(BookField::FullName, v.as_slice()) {
            return Ok(b);
        }
        if let Some(b) = Book::find(BookField::Osis, v.as_slice()) {
            return Ok(b);
        }
        if let Some(b) = Book::find(BookField::Usfm, v.as_slice()) {
            return Ok(b);
        }
        Err(ParseBookError { input: value.to_owned() })
    }

    /// The canonical English display name as an owned string.
    pub fn to_string(self) -> (s: String)
        ensures
            s@ == spec_full_name(self),
    {
        self.full_name().to_owned()
    }
}

/// Error returned when a string does not name a supported Bible book.
#[derive(Clone, Debug, PartialEq, Eq)]
pub struct ParseBookError {
    input: String,
}

impl View for ParseBookError {
    type V = Seq<char>;

    /// The rejected input.
    closed spec fn view(&self) -> Seq<char> {
        self.input@
    }
}

impl ParseBookError {
    /// Return the rejected input.
    pub fn input(&self) -> (r: &str)
        ensures
            r@ == self@,
    {
        self.input.as_str()
    }

    /// The diagnostic `unrecognized Bible book: ` followed by the input in
    /// Rust debug quoting.
    pub fn to_string(&self) -> (s: String)
        ensures
            s@ == "unrecognized Bible book: "@ + str_debug(self@),
    {
        let mut s = String::new();
        s.append("unrecognized Bible book: ");
        let quoted = debug_quote(self.input.as_str());
        s.append(quoted.as_str());
        s
    }
}

impl core::str::FromStr for Book {
    type Err = ParseBookError;

    fn from_str(value: &str) -> (r: Result<Book, ParseBookError>)
        ensures
            match r {
                Ok(b) => spec_parse_book(value@) == Some(b),
                Err(e) => spec_parse_book(value@) is None && e@ == value@,
            },
    {
        Book::parse_name(value)
    }
}


/// Distinct books have distinct OSIS identifiers.
#[verifier::rlimit(100)]
pub proof fn lemma_osis_injective(b: Book, c: Book)
    requires
        spec_osis(b) == spec_osis(c),
    ensures
        b == c,
{
}

/// Distinct books have distinct USFM identifiers.
#[verifier::rlimit(100)]
pub proof fn lemma_usfm_injective(b: Book, c: Book)
    requires
        spec_usfm(b) == spec_usfm(c),
    ensures
        b == c,
{
}

/// Looking up a book's own OSIS or USFM identifier finds that book.
pub proof fn lemma_find_identifiers(b: Book)
    ensures
        find_book(BookField::Osis, spec_osis(b)) == Some(b),
        find_book(BookField::Usfm, spec_usfm(b)) == Some(b),
{
    lemma_find_book(BookField::Osis, spec_osis(b));
    lemma_find_book(BookField::Usfm, spec_usfm(b));
    assert(field_matches(b, BookField::Osis, spec_osis(b)));
    assert(field_matches(b, BookField::Usfm, spec_usfm(b)));
    if let Some(c) = find_book(BookField::Osis, spec_osis(b)) {
        lemma_osis_injective(c, b);
    }
    if let Some(c) = find_book(BookField::Usfm, spec_usfm(b)) {
        lemma_usfm_injective(c, b);
    }
}

/// Identifier lookup is exact and case-sensitive: a value finds `b` by OSIS
/// or USFM identifier exactly when it is that identifier, letter for letter.
pub proof fn lemma_identifier_lookup_exact(b: Book, value: Seq<char>)
    ensures
        find_book(BookField::Osis, value) == Some(b) <==> value == spec_osis(b),
        find_book(BookField::Usfm, value) == Some(b) <==> value == spec_usfm(b),
{
    lemma_find_identifiers(b);
    lemma_find_book(BookField::Osis, value);
    lemma_find_book(BookField::Usfm, value);
}

/// Every compact abbreviation is already in ASCII lowercase.
#[verifier::rlimit(100)]
pub proof fn lemma_abbreviation_lowercase(b: Book)
    ensures
        lower_seq(spec_abbreviation(b)) == spec_abbreviation(b),
{
    assert(lower_seq(spec_abbreviation(b)) =~= spec_abbreviation(b));
}

/// Distinct books have distinct compact abbreviations.
#[verifier::rlimit(100)]
pub proof fn lemma_abbreviation_injective(b: Book, c: Book)
    requires
        spec_abbreviation(b) == spec_abbreviation(c),
    ensures
        b == c,
{
    let (x, y) = (spec_abbreviation(b), spec_abbreviation(c));
    assert(x.len() == y.len() && x[0] == y[0] && x[1] == y[1] && x[2] == y[2]);
}

/// Distinct books have distinct English names.
#[verifier::rlimit(100)]
pub proof fn lemma_full_name_injective(b: Book, c: Book)
    requires
        spec_full_name(b) == spec_full_name(c),
    ensures
        b == c,
{
    let (x, y) = (spec_full_name(b), spec_full_name(c));
    assert(x.len() == y.len() && x[0] == y[0] && x[1] == y[1] && x[2] == y[2] && x[3] == y[3]);
}

/// Any spelling of a book's abbreviation, in any ASCII letter case, looks up
/// that book.
pub proof fn lemma_find_abbreviation(b: Book, value: Seq<char>)
    requires
        eq_ignore_case(spec_abbreviation(b), value),
    ensures
        find_book(BookField::Abbreviation, value) == Some(b),
{
    lemma_find_book(BookField::Abbreviation, value);
    assert(field_matches(b, BookField::Abbreviation, value));
    if let Some(c) = find_book(BookField::Abbreviation, value) {
        lemma_abbreviation_lowercase(b);
        lemma_abbreviation_lowercase(c);
        lemma_abbreviation_injective(c, b);
    }
}

/// The length of a text and the scalar values of its first four scalars,
/// ASCII-lowercased (zero past the end).
pub open spec fn folded_prefix(s: Seq<char>) -> (int, u32, u32, u32, u32) {
    (
        s.len() as int,
        if s.len() > 0 {
            lower(s[0]) as u32
        } else {
            0
        },
        if s.len() > 1 {
            lower(s[1]) as u32
        } else {
            0
        },
        if s.len() > 2 {
            lower(s[2]) as u32
        } else {
            0
        },
        if s.len() > 3 {
            lower(s[3]) as u32
        } else {
            0
        },
    )
}

/// The lowercased scalar values of the first four scalars of two texts.
proof fn lemma_prefix_values(x: Seq<char>, y: Seq<char>)
    ensures
        x.len() > 0 ==> lower(x[0]) as u32 == (if is_upper(x[0]) { (x[0] as u32 + 32) as u32 } else { x[0] as u32 }),
        x.len() > 1 ==> lower(x[1]) as u32 == (if is_upper(x[1]) { (x[1] as u32 + 32) as u32 } else { x[1] as u32 }),
        x.len() > 2 ==> lower(x[2]) as u32 == (if is_upper(x[2]) { (x[2] as u32 + 32) as u32 } else { x[2] as u32 }),
        x.len() > 3 ==> lower(x[3]) as u32 == (if is_upper(x[3]) { (x[3] as u32 + 32) as u32 } else { x[3] as u32 }),
        y.len() > 0 ==> lower(y[0]) as u32 == (if is_upper(y[0]) { (y[0] as u32 + 32) as u32 } else { y[0] as u32 }),
        y.len() > 1 ==> lower(y[1]) as u32 == (if is_upper(y[1]) { (y[1] as u32 + 32) as u32 } else { y[1] as u32 }),
        y.len() > 2 ==> lower(y[2]) as u32 == (if is_upper(y[2]) { (y[2] as u32 + 32) as u32 } else { y[2] as u32 }),
        y.len() > 3 ==> lower(y[3]) as u32 == (if is_upper(y[3]) { (y[3] as u32 + 32) as u32 } else { y[3] as u32 }),
{
    lemma_lower_value(x[0]);
    lemma_lower_value(y[0]);
    lemma_lower_value(x[1]);
    lemma_lower_value(y[1]);
    lemma_lower_value(x[2]);
    lemma_lower_value(y[2]);
    lemma_lower_value(x[3]);
    lemma_lower_value(y[3]);
}

/// Distinct books have English names whose lowercased prefixes differ.
#[verifier::spinoff_prover]
#[verifier::rlimit(100)]
proof fn lemma_folded_prefix_injective(b: Book, c: Book)
    requires
        folded_prefix(spec_full_name(b)) == folded_prefix(spec_full_name(c)),
    ensures
        b == c,
{
    lemma_prefix_values(spec_full_name(b), spec_full_name(c));
}

/// Every English name has at least three scalars.
#[verifier::rlimit(100)]
proof fn lemma_full_name_length(b: Book)
    ensures
        spec_full_name(b).len() >= 3,
{
}

/// Names equal apart from ASCII letter case have equal lowercased prefixes.
proof fn lemma_folded_prefix_of_equal(x: Seq<char>, y: Seq<char>)
    requires
        eq_ignore_case(x, y),
    ensures
        folded_prefix(x) == folded_prefix(y),
{
    assert(lower_seq(x).len() == lower_seq(y).len());
    if x.len() > 0 {
        assert(lower_seq(x)[0] == lower_seq(y)[0]);
    }
    if x.len() > 1 {
        assert(lower_seq(x)[1] == lower_seq(y)[1]);
    }
    if x.len() > 2 {
        assert(lower_seq(x)[2] == lower_seq(y)[2]);
    }
    if x.len() > 3 {
        assert(lower_seq(x)[3] == lower_seq(y)[3]);
    }
}

/// Any spelling of a book's English name, in any ASCII letter case, looks
/// up that book among the English names.
pub proof fn lemma_find_full_name(b: Book, value: Seq<char>)
    requires
        eq_ignore_case(spec_full_name(b), value),
    ensures
        find_book(BookField::FullName, value) == Some(b),
{
    lemma_find_book(BookField::FullName, value);
    assert(field_matches(b, BookField::FullName, value));
    if let Some(c) = find_book(BookField::FullName, value) {
        lemma_full_name_length(b);
        lemma_full_name_length(c);
        assert(eq_ignore_case(spec_full_name(c), spec_full_name(b)));
        lemma_folded_prefix_of_equal(spec_full_name(c), spec_full_name(b));
        lemma_folded_prefix_injective(c, b);
    }
}

/// No abbreviation spells, apart from letter case, the English name of
/// another book.
#[verifier::spinoff_prover]
#[verifier::rlimit(100)]
proof fn lemma_abbreviation_name_prefix(b: Book, c: Book)
    requires
        folded_prefix(spec_abbreviation(c)) == folded_prefix(spec_full_name(b)),
    ensures
        b == c,
{
    lemma_prefix_values(spec_abbreviation(c), spec_full_name(b));
}

/// A book's English name, as `to_string` writes it, parses back to that book
/// in any ASCII letter case; so does its compact abbreviation.
pub proof fn lemma_parse_book_names(b: Book, value: Seq<char>)
    ensures
        eq_ignore_case(spec_full_name(b), value) ==> spec_parse_book(value) == Some(b),
        eq_ignore_case(spec_abbreviation(b), value) ==> spec_parse_book(value) == Some(b),
{
    if eq_ignore_case(spec_abbreviation(b), value) {
        lemma_find_abbreviation(b, value);
    }
    if eq_ignore_case(spec_full_name(b), value) {
        lemma_find_full_name(b, value);
        lemma_find_book(BookField::Abbreviation, value);
        if let Some(c) = find_book(BookField::Abbreviation, value) {
            lemma_full_name_length(b);
            lemma_abbreviation_lowercase(c);
            assert(eq_ignore_case(spec_abbreviation(c), spec_full_name(b)));
            lemma_folded_prefix_of_equal(spec_abbreviation(c), spec_full_name(b));
            lemma_abbreviation_name_prefix(b, c);
        }
    }
}

/// No abbreviation spells, apart from letter case, the OSIS identifier of
/// another book.
#[verifier::spinoff_prover]
#[verifier::rlimit(100)]
proof fn lemma_abbreviation_osis_prefix(b: Book, c: Book)
    requires
        folded_prefix(spec_abbreviation(c)) == folded_prefix(spec_osis(b)),
    ensures
        b == c,
{
    lemma_prefix_values(spec_abbreviation(c), spec_osis(b));
}

/// No English name spells, apart from letter case, the OSIS identifier of
/// another book.
#[verifier::spinoff_prover]
#[verifier::rlimit(100)]
proof fn lemma_name_osis_prefix(b: Book, c: Book)
    requires
        folded_prefix(spec_full_name(c)) == folded_prefix(spec_osis(b)),
    ensures
        b == c,
{
    lemma_prefix_values(spec_full_name(c), spec_osis(b));
}

/// No abbreviation spells, apart from letter case, the USFM identifier of
/// another book, except that the USFM code of Jude is the abbreviation of
/// Judges.
#[verifier::spinoff_prover]
#[verifier::rlimit(100)]
proof fn lemma_abbreviation_usfm_prefix(b: Book, c: Book)
    requires
        folded_prefix(spec_abbreviation(c)) == folded_prefix(spec_usfm(b)),
    ensures
        b == c || (b == Book::Jude && c == Book::Judges),
{
    lemma_prefix_values(spec_abbreviation(c), spec_usfm(b));
}

/// No English name spells, apart from letter case, the USFM identifier of
/// another book.
#[verifier::spinoff_prover]
#[verifier::rlimit(100)]
proof fn lemma_name_usfm_prefix(b: Book, c: Book)
    requires
        folded_prefix(spec_full_name(c)) == folded_prefix(spec_usfm(b)),
    ensures
        b == c,
{
    lemma_prefix_values(spec_full_name(c), spec_usfm(b));
}

/// No OSIS identifier is the USFM identifier of another book.
#[verifier::rlimit(100)]
proof fn lemma_osis_usfm(b: Book, c: Book)
    requires
        spec_osis(c) == spec_usfm(b),
    ensures
        b == c,
{
    let (x, y) = (spec_osis(c), spec_usfm(b));
    assert(x.len() == y.len() && x[0] == y[0] && x[1] == y[1] && x[2] == y[2]);
}

/// General book parsing reads each OSIS identifier as its book, and each USFM
/// identifier too, except Jude's, whose code is the abbreviation of Judges.
pub proof fn lemma_parse_book_identifiers(b: Book)
    ensures
        spec_parse_book(spec_osis(b)) == Some(b),
        b != Book::Jude ==> spec_parse_book(spec_usfm(b)) == Some(b),
{
    lemma_find_identifiers(b);
    lemma_find_book(BookField::Abbreviation, spec_osis(b));
    lemma_find_book(BookField::FullName, spec_osis(b));
    lemma_find_book(BookField::Abbreviation, spec_usfm(b));
    lemma_find_book(BookField::FullName, spec_usfm(b));
    lemma_find_book(BookField::Osis, spec_usfm(b));
    if let Some(c) = find_book(BookField::Abbreviation, spec_osis(b)) {
        lemma_folded_prefix_of_equal(spec_abbreviation(c), spec_osis(b));
        lemma_abbreviation_osis_prefix(b, c);
    }
    if let Some(c) = find_book(BookField::FullName, spec_osis(b)) {
        lemma_folded_prefix_of_equal(spec_full_name(c), spec_osis(b));
        lemma_name_osis_prefix(b, c);
    }
    if let Some(c) = find_book(BookField::Abbreviation, spec_usfm(b)) {
        lemma_folded_prefix_of_equal(spec_abbreviation(c), spec_usfm(b));
        lemma_abbreviation_usfm_prefix(b, c);
    }
    if let Some(c) = find_book(BookField::FullName, spec_usfm(b)) {
        lemma_folded_prefix_of_equal(spec_full_name(c), spec_usfm(b));
        lemma_name_usfm_prefix(b, c);
    }
    if let Some(c) = find_book(BookField::Osis, spec_usfm(b)) {
        lemma_osis_usfm(b, c);
    }
}

} // verus!
