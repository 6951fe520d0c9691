//! The lookup keys of the bundled aliases and the books they name.
use vstd::prelude::*;

use crate::book::{book_index, lemma_book_index, spec_full_name, Book};
use crate::bundled::{bundled_alias, BUNDLED_COUNT};
use crate::normalize::{is_removed, norm_char};
use crate::parser::{key_chars, key_piece, term_key};
use crate::text::{lower, lowercase, white_space};

verus! {

/// The scalars that bundled aliases are written with: ASCII letters and
/// digits, spaces and parentheses.
pub open spec fn alias_scalar(c: char) -> bool {
    ('a' <= c && c <= 'z') || ('A' <= c && c <= 'Z') || ('0' <= c && c <= '9') || c == ' '
        || c == '(' || c == ')'
}

/// Every scalar of `s` is an alias scalar.
pub open spec fn all_class(s: Seq<char>) -> bool
    decreases s.len(),
{
    s.len() == 0 || (alias_scalar(s.last()) && all_class(s.drop_last()))
}

/// The lookup key of text made of alias scalars: lowercase, without spaces.
pub open spec fn ascii_key(s: Seq<char>) -> Seq<char>
    decreases s.len(),
{
    if s.len() == 0 {
        seq![]
    } else if s.last() == ' ' {
        ascii_key(s.drop_last())
    } else {
        ascii_key(s.drop_last()).push(lower(s.last()))
    }
}

/// The book that a bundled lookup key names, read off the key's length
/// and a few of its scalars.
pub open spec fn key_book(k: Seq<char>) -> Option<Book> {
    if k.len() == 2 {
        if k[1] as u32 == 97 {
            Some(Book::Nahum)
        } else if k[1] as u32 == 98 {
            if k[0] as u32 == 104 {
                Some(Book::Hebrews)
            } else if k[0] as u32 == 111 {
                Some(Book::Obadiah)
            } else if k[0] as u32 == 116 {
                Some(Book::Tobit)
            } else {
                None
            }
        } else if k[1] as u32 == 99 {
            if k[0] as u32 == 101 {
                Some(Book::Ecclesiastes)
            } else if k[0] as u32 == 122 {
                Some(Book::Zechariah)
            } else {
                None
            }
        } else if k[1] as u32 == 100 {
            Some(Book::Jude)
        } else if k[1] as u32 == 101 {
            if k[0] as u32 == 110 {
                Some(Book::Nehemiah)
            } else if k[0] as u32 == 114 {
                Some(Book::Revelation)
            } else {
                None
            }
        } else if k[1] as u32 == 103 {
            Some(Book::Haggai)
        } else if k[1] as u32 == 104 {
            Some(Book::Philippians)
        } else if k[1] as u32 == 105 {
            Some(Book::Micah)
        } else if k[1] as u32 == 107 {
            if k[0] as u32 == 104 {
                Some(Book::Habakkuk)
            } else if k[0] as u32 == 108 {
                Some(Book::Luke)
            } else if k[0] as u32 == 109 {
                Some(Book::Mark)
            } else {
                None
            }
        } else if k[1] as u32 == 108 {
            if k[0] as u32 == 99 {
                Some(Book::Colossians)
            } else if k[0] as u32 == 103 {
                Some(Book::Galatians)
            } else if k[0] as u32 == 106 {
                Some(Book::Joel)
            } else if k[0] as u32 == 109 {
                Some(Book::Malachi)
            } else {
                None
            }
        } else if k[1] as u32 == 109 {
            if k[0] as u32 == 97 {
                Some(Book::Amos)
            } else if k[0] as u32 == 106 {
                Some(Book::James)
            } else if k[0] as u32 == 108 {
                Some(Book::Lamentations)
            } else if k[0] as u32 == 110 {
                Some(Book::Numbers)
            } else if k[0] as u32 == 114 {
                Some(Book::Romans)
            } else {
                None
            }
        } else if k[1] as u32 == 110 {
            if k[0] as u32 == 100 {
                Some(Book::Daniel)
            } else if k[0] as u32 == 103 {
                Some(Book::Genesis)
            } else if k[0] as u32 == 106 {
                Some(Book::Jonah)
            } else {
                None
            }
        } else if k[1] as u32 == 111 {
            if k[0] as u32 == 104 {
                Some(Book::Hosea)
            } else if k[0] as u32 == 106 {
                Some(Book::John)
            } else if k[0] as u32 == 115 {
                Some(Book::SongOfSolomon)
            } else {
                None
            }
        } else if k[1] as u32 == 112 {
            Some(Book::Zephaniah)
        } else if k[1] as u32 == 114 {
            Some(Book::Jeremiah)
        } else if k[1] as u32 == 115 {
            if k[0] as u32 == 105 {
                Some(Book::Isaiah)
            } else if k[0] as u32 == 106 {
                Some(Book::Joshua)
            } else if k[0] as u32 == 112 {
                Some(Book::Psalms)
            } else if k[0] as u32 == 119 {
                Some(Book::Wisdom)
            } else {
                None
            }
        } else if k[1] as u32 == 116 {
            if k[0] as u32 == 100 {
                Some(Book::Deuteronomy)
            } else if k[0] as u32 == 101 {
                Some(Book::Esther)
            } else if k[0] as u32 == 109 {
                Some(Book::Matthew)
            } else if k[0] as u32 == 114 {
                Some(Book::Ruth)
            } else if k[0] as u32 == 116 {
                Some(Book::Titus)
            } else {
                None
            }
        } else if k[1] as u32 == 118 {
            Some(Book::Leviticus)
        } else if k[1] as u32 == 120 {
            Some(Book::Exodus)
        } else if k[1] as u32 == 122 {
            Some(Book::Ezekiel)
        } else {
            None
        }
    } else if k.len() == 3 {
        if k[0] as u32 == 49 {
            if k[1] as u32 == 99 {
                if k[2] as u32 == 104 {
                    Some(Book::FirstChronicles)
                } else if k[2] as u32 == 111 {
                    Some(Book::FirstCorinthians)
                } else {
                    None
                }
            } else if k[1] as u32 == 101 {
                Some(Book::FirstEsdras)
            } else if k[1] as u32 == 106 {
                Some(Book::FirstJohn)
            } else if k[1] as u32 == 109 {
                Some(Book::FirstMaccabees)
            } else if k[1] as u32 == 112 {
                Some(Book::FirstPeter)
            } else if k[1] as u32 == 115 {
                Some(Book::FirstSamuel)
            } else if k[1] as u32 == 116 {
                if k[2] as u32 == 109 {
                    Some(Book::FirstTimothy)
                } else if k[2] as u32 == 115 {
                    Some(Book::FirstThessalonians)
                } else {
                    None
                }
            } else {
                None
            }
        } else if k[0] as u32 == 50 {
            if k[1] as u32 == 99 {
                if k[2] as u32 == 104 {
                    Some(Book::SecondChronicles)
                } else if k[2] as u32 == 111 {
                    Some(Book::SecondCorinthians)
                } else {
                    None
                }
            } else if k[1] as u32 == 101 {
                Some(Book::SecondEsdras)
            } else if k[1] as u32 == 106 {
                Some(Book::SecondJohn)
            } else if k[1] as u32 == 109 {
                Some(Book::SecondMaccabees)
            } else if k[1] as u32 == 112 {
                Some(Book::SecondPeter)
            } else if k[1] as u32 == 115 {
                Some(Book::SecondSamuel)
            } else if k[1] as u32 == 116 {
                if k[2] as u32 == 109 {
                    Some(Book::SecondTimothy)
                } else if k[2] as u32 == 115 {
                    Some(Book::SecondThessalonians)
                } else {
                    None
                }
            } else {
                None
            }
        } else if k[0] as u32 == 51 {
            if k[1] as u32 == 106 {
                Some(Book::ThirdJohn)
            } else if k[1] as u32 == 109 {
                Some(Book::ThirdMaccabees)
            } else {
                None
            }
        } else if k[0] as u32 == 52 {
            Some(Book::FourthMaccabees)
        } else if k[0] as u32 == 97 {
            Some(Book::Acts)
        } else if k[0] as u32 == 98 {
            Some(Book::Baruch)
        } else if k[0] as u32 == 99 {
            Some(Book::Colossians)
        } else if k[0] as u32 == 100 {
            if k[2] as u32 == 51 {
                Some(Book::DanielSongOfThree)
            } else if k[2] as u32 == 98 {
                Some(Book::DanielBelAndTheDragon)
            } else if k[2] as u32 == 110 {
                Some(Book::Daniel)
            } else if k[2] as u32 == 115 {
                Some(Book::DanielSusanna)
            } else {
                None
            }
        } else if k[0] as u32 == 101 {
            if k[1] as u32 == 112 {
                Some(Book::Ephesians)
            } else if k[1] as u32 == 115 {
                Some(Book::Esther)
            } else if k[1] as u32 == 116 {
                Some(Book::EstherAdditions)
            } else if k[1] as u32 == 122 {
                Some(Book::Ezra)
            } else {
                None
            }
        } else if k[0] as u32 == 103 {
            if k[1] as u32 == 97 {
                Some(Book::Galatians)
            } else if k[1] as u32 == 101 {
                Some(Book::Genesis)
            } else {
                None
            }
        } else if k[0] as u32 == 104 {
            if k[1] as u32 == 97 {
                Some(Book::Habakkuk)
            } else if k[1] as u32 == 101 {
                Some(Book::Hebrews)
            } else if k[1] as u32 == 111 {
                Some(Book::Hosea)
            } else {
                None
            }
        } else if k[0] as u32 == 105 {
            Some(Book::Isaiah)
        } else if k[0] as u32 == 106 {
            if k[2] as u32 == 98 {
                Some(Book::Job)
            } else if k[2] as u32 == 100 {
                Some(Book::Judges)
            } else if k[2] as u32 == 104 {
                Some(Book::John)
            } else if k[2] as u32 == 114 {
                Some(Book::Jeremiah)
            } else if k[2] as u32 == 115 {
                Some(Book::James)
            } else if k[2] as u32 == 116 {
                Some(Book::Judith)
            } else {
                None
            }
        } else if k[0] as u32 == 108 {
            if k[1] as u32 == 97 {
                Some(Book::Lamentations)
            } else if k[1] as u32 == 101 {
                Some(Book::Leviticus)
            } else if k[1] as u32 == 117 {
                Some(Book::Luke)
            } else {
                None
            }
        } else if k[0] as u32 == 109 {
            if k[1] as u32 == 97 {
                Some(Book::Mark)
            } else if k[1] as u32 == 105 {
                Some(Book::Micah)
            } else {
                None
            }
        } else if k[0] as u32 == 110 {
            if k[1] as u32 == 97 {
                Some(Book::Nahum)
            } else if k[1] as u32 == 101 {
                Some(Book::Nehemiah)
            } else if k[1] as u32 == 117 {
                Some(Book::Numbers)
            } else {
                None
            }
        } else if k[0] as u32 == 112 {
            if k[1] as u32 == 104 {
                Some(Book::Philemon)
            } else if k[1] as u32 == 109 {
                Some(Book::PrayerOfManasseh)
            } else if k[1] as u32 == 114 {
                Some(Book::Proverbs)
            } else {
                None
            }
        } else if k[0] as u32 == 114 {
            if k[1] as u32 == 101 {
                Some(Book::Revelation)
            } else if k[1] as u32 == 111 {
                Some(Book::Romans)
            } else {
                None
            }
        } else if k[0] as u32 == 115 {
            Some(Book::Sirach)
        } else {
            None
        }
    } else if k.len() == 4 {
        if k[2] as u32 == 97 {
            if k[0] as u32 == 49 {
                Some(Book::FirstSamuel)
            } else if k[0] as u32 == 50 {
                Some(Book::SecondSamuel)
            } else if k[0] as u32 == 111 {
                Some(Book::Obadiah)
            } else {
                None
            }
        } else if k[2] as u32 == 99 {
            if k[0] as u32 == 101 {
                Some(Book::Ecclesiastes)
            } else if k[0] as u32 == 122 {
                Some(Book::Zechariah)
            } else {
                None
            }
        } else if k[2] as u32 == 100 {
            if k[3] as u32 == 101 {
                Some(Book::Jude)
            } else if k[3] as u32 == 103 {
                Some(Book::Judges)
            } else {
                None
            }
        } else if k[2] as u32 == 101 {
            if k[0] as u32 == 49 {
                Some(Book::FirstPeter)
            } else if k[0] as u32 == 50 {
                Some(Book::SecondPeter)
            } else if k[0] as u32 == 101 {
                Some(Book::Ezekiel)
            } else if k[0] as u32 == 106 {
                Some(Book::Joel)
            } else {
                None
            }
        } else if k[2] as u32 == 103 {
            if k[0] as u32 == 49 {
                Some(Book::FirstKings)
            } else if k[0] as u32 == 50 {
                Some(Book::SecondKings)
            } else {
                None
            }
        } else if k[2] as u32 == 104 {
            if k[0] as u32 == 49 {
                Some(Book::FirstChronicles)
            } else if k[0] as u32 == 50 {
                Some(Book::SecondChronicles)
            } else if k[0] as u32 == 106 {
                Some(Book::John)
            } else {
                None
            }
        } else if k[2] as u32 == 105 {
            if k[0] as u32 == 49 {
                Some(Book::FirstTimothy)
            } else if k[0] as u32 == 50 {
                Some(Book::SecondTimothy)
            } else if k[0] as u32 == 112 {
                Some(Book::Philippians)
            } else {
                None
            }
        } else if k[2] as u32 == 107 {
            Some(Book::Luke)
        } else if k[2] as u32 == 108 {
            Some(Book::Philemon)
        } else if k[2] as u32 == 110 {
            Some(Book::SongOfSolomon)
        } else if k[2] as u32 == 111 {
            if k[0] as u32 == 49 {
                Some(Book::FirstCorinthians)
            } else if k[0] as u32 == 50 {
                Some(Book::SecondCorinthians)
            } else if k[0] as u32 == 97 {
                Some(Book::Amos)
            } else if k[0] as u32 == 101 {
                Some(Book::Exodus)
            } else if k[0] as u32 == 112 {
                Some(Book::Proverbs)
            } else {
                None
            }
        } else if k[2] as u32 == 112 {
            Some(Book::Zephaniah)
        } else if k[2] as u32 == 114 {
            if k[0] as u32 == 101 {
                Some(Book::Ezra)
            } else if k[0] as u32 == 109 {
                Some(Book::Mark)
            } else {
                None
            }
        } else if k[2] as u32 == 115 {
            Some(Book::Joshua)
        } else if k[2] as u32 == 116 {
            if k[0] as u32 == 97 {
                Some(Book::Acts)
            } else if k[0] as u32 == 109 {
                Some(Book::Matthew)
            } else if k[0] as u32 == 114 {
                Some(Book::Ruth)
            } else {
                None
            }
        } else if k[2] as u32 == 117 {
            Some(Book::Deuteronomy)
        } else {
            None
        }
    } else if k.len() == 5 {
        if k[0] as u32 == 49 {
            Some(Book::FirstJohn)
        } else if k[0] as u32 == 50 {
            Some(Book::SecondJohn)
        } else if k[0] as u32 == 51 {
            Some(Book::ThirdJohn)
        } else if k[0] as u32 == 104 {
            Some(Book::Hosea)
        } else if k[0] as u32 == 106 {
            if k[1] as u32 == 97 {
                Some(Book::James)
            } else if k[1] as u32 == 111 {
                Some(Book::Jonah)
            } else {
                None
            }
        } else if k[0] as u32 == 109 {
            Some(Book::Micah)
        } else if k[0] as u32 == 110 {
            Some(Book::Nahum)
        } else if k[0] as u32 == 112 {
            Some(Book::Psalm151)
        } else if k[0] as u32 == 116 {
            if k[1] as u32 == 105 {
                Some(Book::Titus)
            } else if k[1] as u32 == 111 {
                Some(Book::Tobit)
            } else {
                None
            }
        } else {
            None
        }
    } else if k.len() == 6 {
        if k[0] as u32 == 49 {
            if k[1] as u32 == 107 {
                Some(Book::FirstKings)
            } else if k[1] as u32 == 112 {
                Some(Book::FirstPeter)
            } else if k[1] as u32 == 116 {
                Some(Book::FirstThessalonians)
            } else {
                None
            }
        } else if k[0] as u32 == 50 {
            if k[1] as u32 == 107 {
                Some(Book::SecondKings)
            } else if k[1] as u32 == 112 {
                Some(Book::SecondPeter)
            } else if k[1] as u32 == 116 {
                Some(Book::SecondThessalonians)
            } else {
                None
            }
        } else if k[0] as u32 == 98 {
            Some(Book::Baruch)
        } else if k[0] as u32 == 100 {
            Some(Book::Daniel)
        } else if k[0] as u32 == 101 {
            if k[1] as u32 == 115 {
                Some(Book::Esther)
            } else if k[1] as u32 == 120 {
                Some(Book::Exodus)
            } else {
                None
            }
        } else if k[0] as u32 == 104 {
            Some(Book::Haggai)
        } else if k[0] as u32 == 105 {
            Some(Book::Isaiah)
        } else if k[0] as u32 == 106 {
            if k[3] as u32 == 103 {
                Some(Book::Judges)
            } else if k[3] as u32 == 104 {
                Some(Book::Joshua)
            } else if k[3] as u32 == 105 {
                Some(Book::Judith)
            } else {
                None
            }
        } else if k[0] as u32 == 112 {
            Some(Book::Psalms)
        } else if k[0] as u32 == 114 {
            Some(Book::Romans)
        } else if k[0] as u32 == 115 {
            Some(Book::Sirach)
        } else if k[0] as u32 == 119 {
            Some(Book::Wisdom)
        } else {
            None
        }
    } else if k.len() == 7 {
        if k[0] as u32 == 49 {
            if k[1] as u32 == 101 {
                Some(Book::FirstEsdras)
            } else if k[1] as u32 == 115 {
                Some(Book::FirstSamuel)
            } else {
                None
            }
        } else if k[0] as u32 == 50 {
            if k[1] as u32 == 101 {
                Some(Book::SecondEsdras)
            } else if k[1] as u32 == 115 {
                Some(Book::SecondSamuel)
            } else {
                None
            }
        } else if k[0] as u32 == 101 {
            Some(Book::Ezekiel)
        } else if k[0] as u32 == 103 {
            Some(Book::Genesis)
        } else if k[0] as u32 == 104 {
            Some(Book::Hebrews)
        } else if k[0] as u32 == 109 {
            if k[2] as u32 == 108 {
                Some(Book::Malachi)
            } else if k[2] as u32 == 116 {
                Some(Book::Matthew)
            } else {
                None
            }
        } else if k[0] as u32 == 110 {
            Some(Book::Numbers)
        } else if k[0] as u32 == 111 {
            Some(Book::Obadiah)
        } else {
            None
        }
    } else if k.len() == 8 {
        if k[0] as u32 == 49 {
            Some(Book::FirstTimothy)
        } else if k[0] as u32 == 50 {
            Some(Book::SecondTimothy)
        } else if k[0] as u32 == 104 {
            Some(Book::Habakkuk)
        } else if k[0] as u32 == 106 {
            Some(Book::Jeremiah)
        } else if k[0] as u32 == 110 {
            Some(Book::Nehemiah)
        } else if k[0] as u32 == 112 {
            if k[1] as u32 == 104 {
                Some(Book::Philemon)
            } else if k[1] as u32 == 114 {
                Some(Book::Proverbs)
            } else if k[1] as u32 == 115 {
                Some(Book::Psalm151)
            } else {
                None
            }
        } else {
            None
        }
    } else if k.len() == 9 {
        if k[2] as u32 == 99 {
            Some(Book::Zechariah)
        } else if k[2] as u32 == 104 {
            Some(Book::Ephesians)
        } else if k[2] as u32 == 108 {
            Some(Book::Galatians)
        } else if k[2] as u32 == 112 {
            Some(Book::Zephaniah)
        } else if k[2] as u32 == 118 {
            Some(Book::Leviticus)
        } else {
            None
        }
    } else if k.len() == 10 {
        if k[0] as u32 == 49 {
            Some(Book::FirstMaccabees)
        } else if k[0] as u32 == 50 {
            Some(Book::SecondMaccabees)
        } else if k[0] as u32 == 51 {
            Some(Book::ThirdMaccabees)
        } else if k[0] as u32 == 52 {
            Some(Book::FourthMaccabees)
        } else if k[0] as u32 == 99 {
            Some(Book::Colossians)
        } else if k[0] as u32 == 114 {
            Some(Book::Revelation)
        } else {
            None
        }
    } else if k.len() == 11 {
        if k[0] as u32 == 49 {
            Some(Book::FirstChronicles)
        } else if k[0] as u32 == 50 {
            Some(Book::SecondChronicles)
        } else if k[0] as u32 == 100 {
            Some(Book::Deuteronomy)
        } else if k[0] as u32 == 112 {
            Some(Book::Philippians)
        } else {
            None
        }
    } else if k.len() == 12 {
        if k[0] as u32 == 49 {
            Some(Book::FirstCorinthians)
        } else if k[0] as u32 == 50 {
            Some(Book::SecondCorinthians)
        } else if k[0] as u32 == 101 {
            Some(Book::Ecclesiastes)
        } else if k[0] as u32 == 108 {
            Some(Book::Lamentations)
        } else {
            None
        }
    } else if k.len() == 13 {
        if k[0] as u32 == 101 {
            Some(Book::EstherAdditions)
        } else if k[0] as u32 == 115 {
            Some(Book::SongOfSolomon)
        } else {
            None
        }
    } else if k.len() == 14 {
        if k[0] as u32 == 49 {
            Some(Book::FirstThessalonians)
        } else if k[0] as u32 == 50 {
            Some(Book::SecondThessalonians)
        } else {
            None
        }
    } else if k.len() == 15 {
        Some(Book::DanielSusanna)
    } else if k.len() == 16 {
        Some(Book::PrayerOfManasseh)
    } else if k.len() == 19 {
        Some(Book::DanielSongOfThree)
    } else if k.len() == 23 {
        Some(Book::DanielBelAndTheDragon)
    } else {
        None
    }
}

/// Bundled aliases 0 to 9 are written with alias scalars, and
/// their keys name their books.
#[verifier::rlimit(60)]
proof fn lemma_alias_keys_0(i: int)
    requires
        0 <= i < 10,
    ensures
        all_class(bundled_alias(i).0),
        key_book(ascii_key(bundled_alias(i).0)) == Some(bundled_alias(i).1),
{
    if i == 0 {
        assert(bundled_alias(0) == (seq!['G', 'e', 'n', 'e', 's', 'i', 's'], Book::Genesis));
        let s = seq!['G', 'e', 'n', 'e', 's', 'i', 's'];
        reveal_with_fuel(all_class, 8);
        reveal_with_fuel(ascii_key, 8);
        assert(all_class(s));
        assert(key_book(ascii_key(s)) == Some(Book::Genesis));
    } else if i == 1 {
        assert(bundled_alias(1) == (seq!['g', 'n'], Book::Genesis));
        let s = seq!['g', 'n'];
        reveal_with_fuel(all_class, 3);
        reveal_with_fuel(ascii_key, 3);
        assert(all_class(s));
        assert(key_book(ascii_key(s)) == Some(Book::Genesis));
    } else if i == 2 {
        assert(bundled_alias(2) == (seq!['E', 'x', 'o', 'd', 'u', 's'], Book::Exodus));
        let s = seq!['E', 'x', 'o', 'd', 'u', 's'];
        reveal_with_fuel(all_class, 7);
        reveal_with_fuel(ascii_key, 7);
        assert(all_class(s));
        assert(key_book(ascii_key(s)) == Some(Book::Exodus));
    } else if i == 3 {
        assert(bundled_alias(3) == (seq!['e', 'x'], Book::Exodus));
        let s = seq!['e', 'x'];
        reveal_with_fuel(all_class, 3);
        reveal_with_fuel(ascii_key, 3);
        assert(all_class(s));
        assert(key_book(ascii_key(s)) == Some(Book::Exodus));
    } else if i == 4 {
        assert(bundled_alias(4) == (seq!['L', 'e', 'v', 'i', 't', 'i', 'c', 'u', 's'], Book::Leviticus));
        let s = seq!['L', 'e', 'v', 'i', 't', 'i', 'c', 'u', 's'];
        reveal_with_fuel(all_class, 10);
        reveal_with_fuel(ascii_key, 10);
        assert(all_class(s));
        assert(key_book(ascii_key(s)) == Some(Book::Leviticus));
    } else if i == 5 {
        assert(bundled_alias(5) == (seq!['l', 'v'], Book::Leviticus));
        let s = seq!['l', 'v'];
        reveal_with_fuel(all_class, 3);
        reveal_with_fuel(ascii_key, 3);
        assert(all_class(s));
        assert(key_book(ascii_key(s)) == Some(Book::Leviticus));
    } else if i == 6 {
        assert(bundled_alias(6) == (seq!['N', 'u', 'm', 'b', 'e', 'r', 's'], Book::Numbers));
        let s = seq!['N', 'u', 'm', 'b', 'e', 'r', 's'];
        reveal_with_fuel(all_class, 8);
        reveal_with_fuel(ascii_key, 8);
        assert(all_class(s));
        assert(key_book(ascii_key(s)) == Some(Book::Numbers));
    } else if i == 7 {
        assert(bundled_alias(7) == (seq!['n', 'm'], Book::Numbers));
        let s = seq!['n', 'm'];
        reveal_with_fuel(all_class, 3);
        reveal_with_fuel(ascii_key, 3);
        assert(all_class(s));
        assert(key_book(ascii_key(s)) == Some(Book::Numbers));
    } else if i == 8 {
        assert(bundled_alias(8) == (seq!['D', 'e', 'u', 't', 'e', 'r', 'o', 'n', 'o', 'm', 'y'], Book::Deuteronomy));
        let s = seq!['D', 'e', 'u', 't', 'e', 'r', 'o', 'n', 'o', 'm', 'y'];
        reveal_with_fuel(all_class, 12);
        reveal_with_fuel(ascii_key, 12);
        assert(all_class(s));
        assert(key_book(ascii_key(s)) == Some(Book::Deuteronomy));
    } else if i == 9 {
        assert(bundled_alias(9) == (seq!['d', 't'], Book::Deuteronomy));
        let s = seq!['d', 't'];
        reveal_with_fuel(all_class, 3);
        reveal_with_fuel(ascii_key, 3);
        assert(all_class(s));
        assert(key_book(ascii_key(s)) == Some(Book::Deuteronomy));
    }
}

/// Bundled aliases 10 to 19 are written with alias scalars, and
/// their keys name their books.
#[verifier::rlimit(60)]
proof fn lemma_alias_keys_10(i: int)
    requires
        10 <= i < 20,
    ensures
        all_class(bundled_alias(i).0),
        key_book(ascii_key(bundled_alias(i).0)) == Some(bundled_alias(i).1),
{
    if i == 10 {
        assert(bundled_alias(10) == (seq!['J', 'o', 's', 'h', 'u', 'a'], Book::Joshua));
        let s = seq!['J', 'o', 's', 'h', 'u', 'a'];
        reveal_with_fuel(all_class, 7);
        reveal_with_fuel(ascii_key, 7);
        assert(all_class(s));
        assert(key_book(ascii_key(s)) == Some(Book::Joshua));
    } else if i == 11 {
        assert(bundled_alias(11) == (seq!['j', 's'], Book::Joshua));
        let s = seq!['j', 's'];
        reveal_with_fuel(all_class, 3);
        reveal_with_fuel(ascii_key, 3);
        assert(all_class(s));
        assert(key_book(ascii_key(s)) == Some(Book::Joshua));
    } else if i == 12 {
        assert(bundled_alias(12) == (seq!['J', 'u', 'd', 'g', 'e', 's'], Book::Judges));
        let s = seq!['J', 'u', 'd', 'g', 'e', 's'];
        reveal_with_fuel(all_class, 7);
        reveal_with_fuel(ascii_key, 7);
        assert(all_class(s));
        assert(key_book(ascii_key(s)) == Some(Book::Judges));
    } else if i == 13 {
        assert(bundled_alias(13) == (seq!['j', 'u', 'd'], Book::Judges));
        let s = seq!['j', 'u', 'd'];
        reveal_with_fuel(all_class, 4);
        reveal_with_fuel(ascii_key, 4);
        assert(all_class(s));
        assert(key_book(ascii_key(s)) == Some(Book::Judges));
    } else if i == 14 {
        assert(bundled_alias(14) == (seq!['R', 'u', 't', 'h'], Book::Ruth));
        let s = seq!['R', 'u', 't', 'h'];
        reveal_with_fuel(all_class, 5);
        reveal_with_fuel(ascii_key, 5);
        assert(all_class(s));
        assert(key_book(ascii_key(s)) == Some(Book::Ruth));
    } else if i == 15 {
        assert(bundled_alias(15) == (seq!['r', 't'], Book::Ruth));
        let s = seq!['r', 't'];
        reveal_with_fuel(all_class, 3);
        reveal_with_fuel(ascii_key, 3);
        assert(all_class(s));
        assert(key_book(ascii_key(s)) == Some(Book::Ruth));
    } else if i == 16 {
        assert(bundled_alias(16) == (seq!['1', ' ', 'S', 'a', 'm', 'u', 'e', 'l'], Book::FirstSamuel));
        let s = seq!['1', ' ', 'S', 'a', 'm', 'u', 'e', 'l'];
        reveal_with_fuel(all_class, 9);
        reveal_with_fuel(ascii_key, 9);
        assert(all_class(s));
        assert(key_book(ascii_key(s)) == Some(Book::FirstSamuel));
    } else if i == 17 {
        assert(bundled_alias(17) == (seq!['1', 's', 'm'], Book::FirstSamuel));
        let s = seq!['1', 's', 'm'];
        reveal_with_fuel(all_class, 4);
        reveal_with_fuel(ascii_key, 4);
        assert(all_class(s));
        assert(key_book(ascii_key(s)) == Some(Book::FirstSamuel));
    } else if i == 18 {
        assert(bundled_alias(18) == (seq!['2', ' ', 'S', 'a', 'm', 'u', 'e', 'l'], Book::SecondSamuel));
        let s = seq!['2', ' ', 'S', 'a', 'm', 'u', 'e', 'l'];
        reveal_with_fuel(all_class, 9);
        reveal_with_fuel(ascii_key, 9);
        assert(all_class(s));
        assert(key_book(ascii_key(s)) == Some(Book::SecondSamuel));
    } else if i == 19 {
        assert(bundled_alias(19) == (seq!['2', 's', 'm'], Book::SecondSamuel));
        let s = seq!['2', 's', 'm'];
        reveal_with_fuel(all_class, 4);
        reveal_with_fuel(ascii_key, 4);
        assert(all_class(s));
        assert(key_book(ascii_key(s)) == Some(Book::SecondSamuel));
    }
}

/// Bundled aliases 20 to 29 are written with alias scalars, and
/// their keys name their books.
#[verifier::rlimit(60)]
proof fn lemma_alias_keys_20(i: int)
    requires
        20 <= i < 30,
    ensures
        all_class(bundled_alias(i).0),
        key_book(ascii_key(bundled_alias(i).0)) == Some(bundled_alias(i).1),
{
    if i == 20 {
        assert(bundled_alias(20) == (seq!['1', ' ', 'K', 'i', 'n', 'g', 's'], Book::FirstKings));
        let s = seq!['1', ' ', 'K', 'i', 'n', 'g', 's'];
        reveal_with_fuel(all_class, 8);
        reveal_with_fuel(ascii_key, 8);
        assert(all_class(s));
        assert(key_book(ascii_key(s)) == Some(Book::FirstKings));
    } else if i == 21 {
        assert(bundled_alias(21) == (seq!['1', 'k', 'g', 's'], Book::FirstKings));
        let s = seq!['1', 'k', 'g', 's'];
        reveal_with_fuel(all_class, 5);
        reveal_with_fuel(ascii_key, 5);
        assert(all_class(s));
        assert(key_book(ascii_key(s)) == Some(Book::FirstKings));
    } else if i == 22 {
        assert(bundled_alias(22) == (seq!['2', ' ', 'K', 'i', 'n', 'g', 's'], Book::SecondKings));
        let s = seq!['2', ' ', 'K', 'i', 'n', 'g', 's'];
        reveal_with_fuel(all_class, 8);
        reveal_with_fuel(ascii_key, 8);
        assert(all_class(s));
        assert(key_book(ascii_key(s)) == Some(Book::SecondKings));
    } else if i == 23 {
        assert(bundled_alias(23) == (seq!['2', 'k', 'g', 's'], Book::SecondKings));
        let s = seq!['2', 'k', 'g', 's'];
        reveal_with_fuel(all_class, 5);
        reveal_with_fuel(ascii_key, 5);
        assert(all_class(s));
        assert(key_book(ascii_key(s)) == Some(Book::SecondKings));
    } else if i == 24 {
        assert(bundled_alias(24) == (seq!['1', ' ', 'C', 'h', 'r', 'o', 'n', 'i', 'c', 'l', 'e', 's'], Book::FirstChronicles));
        let s = seq!['1', ' ', 'C', 'h', 'r', 'o', 'n', 'i', 'c', 'l', 'e', 's'];
        reveal_with_fuel(all_class, 13);
        reveal_with_fuel(ascii_key, 13);
        assert(all_class(s));
        assert(key_book(ascii_key(s)) == Some(Book::FirstChronicles));
    } else if i == 25 {
        assert(bundled_alias(25) == (seq!['1', 'c', 'h'], Book::FirstChronicles));
        let s = seq!['1', 'c', 'h'];
        reveal_with_fuel(all_class, 4);
        reveal_with_fuel(ascii_key, 4);
        assert(all_class(s));
        assert(key_book(ascii_key(s)) == Some(Book::FirstChronicles));
    } else if i == 26 {
        assert(bundled_alias(26) == (seq!['2', ' ', 'C', 'h', 'r', 'o', 'n', 'i', 'c', 'l', 'e', 's'], Book::SecondChronicles));
        let s = seq!['2', ' ', 'C', 'h', 'r', 'o', 'n', 'i', 'c', 'l', 'e', 's'];
        reveal_with_fuel(all_class, 13);
        reveal_with_fuel(ascii_key, 13);
        assert(all_class(s));
        assert(key_book(ascii_key(s)) == Some(Book::SecondChronicles));
    } else if i == 27 {
        assert(bundled_alias(27) == (seq!['2', 'c', 'h'], Book::SecondChronicles));
        let s = seq!['2', 'c', 'h'];
        reveal_with_fuel(all_class, 4);
        reveal_with_fuel(ascii_key, 4);
        assert(all_class(s));
        assert(key_book(ascii_key(s)) == Some(Book::SecondChronicles));
    } else if i == 28 {
        assert(bundled_alias(28) == (seq!['E', 'z', 'r', 'a'], Book::Ezra));
        let s = seq!['E', 'z', 'r', 'a'];
        reveal_with_fuel(all_class, 5);
        reveal_with_fuel(ascii_key, 5);
        assert(all_class(s));
        assert(key_book(ascii_key(s)) == Some(Book::Ezra));
    } else if i == 29 {
        assert(bundled_alias(29) == (seq!['e', 'z', 'r'], Book::Ezra));
        let s = seq!['e', 'z', 'r'];
        reveal_with_fuel(all_class, 4);
        reveal_with_fuel(ascii_key, 4);
        assert(all_class(s));
        assert(key_book(ascii_key(s)) == Some(Book::Ezra));
    }
}

/// Bundled aliases 30 to 39 are written with alias scalars, and
/// their keys name their books.
#[verifier::rlimit(60)]
proof fn lemma_alias_keys_30(i: int)
    requires
        30 <= i < 40,
    ensures
        all_class(bundled_alias(i).0),
        key_book(ascii_key(bundled_alias(i).0)) == Some(bundled_alias(i).1),
{
    if i == 30 {
        assert(bundled_alias(30) == (seq!['N', 'e', 'h', 'e', 'm', 'i', 'a', 'h'], Book::Nehemiah));
        let s = seq!['N', 'e', 'h', 'e', 'm', 'i', 'a', 'h'];
        reveal_with_fuel(all_class, 9);
        reveal_with_fuel(ascii_key, 9);
        assert(all_class(s));
        assert(key_book(ascii_key(s)) == Some(Book::Nehemiah));
    } else if i == 31 {
        assert(bundled_alias(31) == (seq!['n', 'e'], Book::Nehemiah));
        let s = seq!['n', 'e'];
        reveal_with_fuel(all_class, 3);
        reveal_with_fuel(ascii_key, 3);
        assert(all_class(s));
        assert(key_book(ascii_key(s)) == Some(Book::Nehemiah));
    } else if i == 32 {
        assert(bundled_alias(32) == (seq!['E', 's', 't', 'h', 'e', 'r'], Book::Esther));
        let s = seq!['E', 's', 't', 'h', 'e', 'r'];
        reveal_with_fuel(all_class, 7);
        reveal_with_fuel(ascii_key, 7);
        assert(all_class(s));
        assert(key_book(ascii_key(s)) == Some(Book::Esther));
    } else if i == 33 {
        assert(bundled_alias(33) == (seq!['e', 't'], Book::Esther));
        let s = seq!['e', 't'];
        reveal_with_fuel(all_class, 3);
        reveal_with_fuel(ascii_key, 3);
        assert(all_class(s));
        assert(key_book(ascii_key(s)) == Some(Book::Esther));
    } else if i == 34 {
        assert(bundled_alias(34) == (seq!['J', 'o', 'b'], Book::Job));
        let s = seq!['J', 'o', 'b'];
        reveal_with_fuel(all_class, 4);
        reveal_with_fuel(ascii_key, 4);
        assert(all_class(s));
        assert(key_book(ascii_key(s)) == Some(Book::Job));
    } else if i == 35 {
        assert(bundled_alias(35) == (seq!['j', 'o', 'b'], Book::Job));
        let s = seq!['j', 'o', 'b'];
        reveal_with_fuel(all_class, 4);
        reveal_with_fuel(ascii_key, 4);
        assert(all_class(s));
        assert(key_book(ascii_key(s)) == Some(Book::Job));
    } else if i == 36 {
        assert(bundled_alias(36) == (seq!['P', 's', 'a', 'l', 'm', 's'], Book::Psalms));
        let s = seq!['P', 's', 'a', 'l', 'm', 's'];
        reveal_with_fuel(all_class, 7);
        reveal_with_fuel(ascii_key, 7);
        assert(all_class(s));
        assert(key_book(ascii_key(s)) == Some(Book::Psalms));
    } else if i == 37 {
        assert(bundled_alias(37) == (seq!['p', 's'], Book::Psalms));
        let s = seq!['p', 's'];
        reveal_with_fuel(all_class, 3);
        reveal_with_fuel(ascii_key, 3);
        assert(all_class(s));
        assert(key_book(ascii_key(s)) == Some(Book::Psalms));
    } else if i == 38 {
        assert(bundled_alias(38) == (seq!['P', 'r', 'o', 'v', 'e', 'r', 'b', 's'], Book::Proverbs));
        let s = seq!['P', 'r', 'o', 'v', 'e', 'r', 'b', 's'];
        reveal_with_fuel(all_class, 9);
        reveal_with_fuel(ascii_key, 9);
        assert(all_class(s));
        assert(key_book(ascii_key(s)) == Some(Book::Proverbs));
    } else if i == 39 {
        assert(bundled_alias(39) == (seq!['p', 'r', 'v'], Book::Proverbs));
        let s = seq!['p', 'r', 'v'];
        reveal_with_fuel(all_class, 4);
        reveal_with_fuel(ascii_key, 4);
        assert(all_class(s));
        assert(key_book(ascii_key(s)) == Some(Book::Proverbs));
    }
}

/// Bundled aliases 40 to 49 are written with alias scalars, and
/// their keys name their books.
#[verifier::rlimit(60)]
proof fn lemma_alias_keys_40(i: int)
    requires
        40 <= i < 50,
    ensures
        all_class(bundled_alias(i).0),
        key_book(ascii_key(bundled_alias(i).0)) == Some(bundled_alias(i).1),
{
    if i == 40 {
        assert(bundled_alias(40) == (seq!['E', 'c', 'c', 'l', 'e', 's', 'i', 'a', 's', 't', 'e', 's'], Book::Ecclesiastes));
        let s = seq!['E', 'c', 'c', 'l', 'e', 's', 'i', 'a', 's', 't', 'e', 's'];
        reveal_with_fuel(all_class, 13);
        reveal_with_fuel(ascii_key, 13);
        assert(all_class(s));
        assert(key_book(ascii_key(s)) == Some(Book::Ecclesiastes));
    } else if i == 41 {
        assert(bundled_alias(41) == (seq!['e', 'c'], Book::Ecclesiastes));
        let s = seq!['e', 'c'];
        reveal_with_fuel(all_class, 3);
        reveal_with_fuel(ascii_key, 3);
        assert(all_class(s));
        assert(key_book(ascii_key(s)) == Some(Book::Ecclesiastes));
    } else if i == 42 {
        assert(bundled_alias(42) == (seq!['S', 'o', 'n', 'g', ' ', 'o', 'f', ' ', 'S', 'o', 'l', 'o', 'm', 'o', 'n'], Book::SongOfSolomon));
        let s = seq!['S', 'o', 'n', 'g', ' ', 'o', 'f', ' ', 'S', 'o', 'l', 'o', 'm', 'o', 'n'];
        reveal_with_fuel(all_class, 16);
        reveal_with_fuel(ascii_key, 16);
        assert(all_class(s));
        assert(key_book(ascii_key(s)) == Some(Book::SongOfSolomon));
    } else if i == 43 {
        assert(bundled_alias(43) == (seq!['s', 'o'], Book::SongOfSolomon));
        let s = seq!['s', 'o'];
        reveal_with_fuel(all_class, 3);
        reveal_with_fuel(ascii_key, 3);
        assert(all_class(s));
        assert(key_book(ascii_key(s)) == Some(Book::SongOfSolomon));
    } else if i == 44 {
        assert(bundled_alias(44) == (seq!['I', 's', 'a', 'i', 'a', 'h'], Book::Isaiah));
        let s = seq!['I', 's', 'a', 'i', 'a', 'h'];
        reveal_with_fuel(all_class, 7);
        reveal_with_fuel(ascii_key, 7);
        assert(all_class(s));
        assert(key_book(ascii_key(s)) == Some(Book::Isaiah));
    } else if i == 45 {
        assert(bundled_alias(45) == (seq!['i', 's'], Book::Isaiah));
        let s = seq!['i', 's'];
        reveal_with_fuel(all_class, 3);
        reveal_with_fuel(ascii_key, 3);
        assert(all_class(s));
        assert(key_book(ascii_key(s)) == Some(Book::Isaiah));
    } else if i == 46 {
        assert(bundled_alias(46) == (seq!['J', 'e', 'r', 'e', 'm', 'i', 'a', 'h'], Book::Jeremiah));
        let s = seq!['J', 'e', 'r', 'e', 'm', 'i', 'a', 'h'];
        reveal_with_fuel(all_class, 9);
        reveal_with_fuel(ascii_key, 9);
        assert(all_class(s));
        assert(key_book(ascii_key(s)) == Some(Book::Jeremiah));
    } else if i == 47 {
        assert(bundled_alias(47) == (seq!['j', 'r'], Book::Jeremiah));
        let s = seq!['j', 'r'];
        reveal_with_fuel(all_class, 3);
        reveal_with_fuel(ascii_key, 3);
        assert(all_class(s));
        assert(key_book(ascii_key(s)) == Some(Book::Jeremiah));
    } else if i == 48 {
        assert(bundled_alias(48) == (seq!['L', 'a', 'm', 'e', 'n', 't', 'a', 't', 'i', 'o', 'n', 's'], Book::Lamentations));
        let s = seq!['L', 'a', 'm', 'e', 'n', 't', 'a', 't', 'i', 'o', 'n', 's'];
        reveal_with_fuel(all_class, 13);
        reveal_with_fuel(ascii_key, 13);
        assert(all_class(s));
        assert(key_book(ascii_key(s)) == Some(Book::Lamentations));
    } else if i == 49 {
        assert(bundled_alias(49) == (seq!['l', 'm'], Book::Lamentations));
        let s = seq!['l', 'm'];
        reveal_with_fuel(all_class, 3);
        reveal_with_fuel(ascii_key, 3);
        assert(all_class(s));
        assert(key_book(ascii_key(s)) == Some(Book::Lamentations));
    }
}

/// Bundled aliases 50 to 59 are written with alias scalars, and
/// their keys name their books.
#[verifier::rlimit(60)]
proof fn lemma_alias_keys_50(i: int)
    requires
        50 <= i < 60,
    ensures
        all_class(bundled_alias(i).0),
        key_book(ascii_key(bundled_alias(i).0)) == Some(bundled_alias(i).1),
{
    if i == 50 {
        assert(bundled_alias(50) == (seq!['E', 'z', 'e', 'k', 'i', 'e', 'l'], Book::Ezekiel));
        let s = seq!['E', 'z', 'e', 'k', 'i', 'e', 'l'];
        reveal_with_fuel(all_class, 8);
        reveal_with_fuel(ascii_key, 8);
        assert(all_class(s));
        assert(key_book(ascii_key(s)) == Some(Book::Ezekiel));
    } else if i == 51 {
        assert(bundled_alias(51) == (seq!['e', 'z'], Book::Ezekiel));
        let s = seq!['e', 'z'];
        reveal_with_fuel(all_class, 3);
        reveal_with_fuel(ascii_key, 3);
        assert(all_class(s));
        assert(key_book(ascii_key(s)) == Some(Book::Ezekiel));
    } else if i == 52 {
        assert(bundled_alias(52) == (seq!['D', 'a', 'n', 'i', 'e', 'l'], Book::Daniel));
        let s = seq!['D', 'a', 'n', 'i', 'e', 'l'];
        reveal_with_fuel(all_class, 7);
        reveal_with_fuel(ascii_key, 7);
        assert(all_class(s));
        assert(key_book(ascii_key(s)) == Some(Book::Daniel));
    } else if i == 53 {
        assert(bundled_alias(53) == (seq!['d', 'n'], Book::Daniel));
        let s = seq!['d', 'n'];
        reveal_with_fuel(all_class, 3);
        reveal_with_fuel(ascii_key, 3);
        assert(all_class(s));
        assert(key_book(ascii_key(s)) == Some(Book::Daniel));
    } else if i == 54 {
        assert(bundled_alias(54) == (seq!['H', 'o', 's', 'e', 'a'], Book::Hosea));
        let s = seq!['H', 'o', 's', 'e', 'a'];
        reveal_with_fuel(all_class, 6);
        reveal_with_fuel(ascii_key, 6);
        assert(all_class(s));
        assert(key_book(ascii_key(s)) == Some(Book::Hosea));
    } else if i == 55 {
        assert(bundled_alias(55) == (seq!['h', 'o'], Book::Hosea));
        let s = seq!['h', 'o'];
        reveal_with_fuel(all_class, 3);
        reveal_with_fuel(ascii_key, 3);
        assert(all_class(s));
        assert(key_book(ascii_key(s)) == Some(Book::Hosea));
    } else if i == 56 {
        assert(bundled_alias(56) == (seq!['J', 'o', 'e', 'l'], Book::Joel));
        let s = seq!['J', 'o', 'e', 'l'];
        reveal_with_fuel(all_class, 5);
        reveal_with_fuel(ascii_key, 5);
        assert(all_class(s));
        assert(key_book(ascii_key(s)) == Some(Book::Joel));
    } else if i == 57 {
        assert(bundled_alias(57) == (seq!['j', 'l'], Book::Joel));
        let s = seq!['j', 'l'];
        reveal_with_fuel(all_class, 3);
        reveal_with_fuel(ascii_key, 3);
        assert(all_class(s));
        assert(key_book(ascii_key(s)) == Some(Book::Joel));
    } else if i == 58 {
        assert(bundled_alias(58) == (seq!['A', 'm', 'o', 's'], Book::Amos));
        let s = seq!['A', 'm', 'o', 's'];
        reveal_with_fuel(all_class, 5);
        reveal_with_fuel(ascii_key, 5);
        assert(all_class(s));
        assert(key_book(ascii_key(s)) == Some(Book::Amos));
    } else if i == 59 {
        assert(bundled_alias(59) == (seq!['a', 'm'], Book::Amos));
        let s = seq!['a', 'm'];
        reveal_with_fuel(all_class, 3);
        reveal_with_fuel(ascii_key, 3);
        assert(all_class(s));
        assert(key_book(ascii_key(s)) == Some(Book::Amos));
    }
}

/// Bundled aliases 60 to 69 are written with alias scalars, and
/// their keys name their books.
#[verifier::rlimit(60)]
proof fn lemma_alias_keys_60(i: int)
    requires
        60 <= i < 70,
    ensures
        all_class(bundled_alias(i).0),
        key_book(ascii_key(bundled_alias(i).0)) == Some(bundled_alias(i).1),
{
    if i == 60 {
        assert(bundled_alias(60) == (seq!['O', 'b', 'a', 'd', 'i', 'a', 'h'], Book::Obadiah));
        let s = seq!['O', 'b', 'a', 'd', 'i', 'a', 'h'];
        reveal_with_fuel(all_class, 8);
        reveal_with_fuel(ascii_key, 8);
        assert(all_class(s));
        assert(key_book(ascii_key(s)) == Some(Book::Obadiah));
    } else if i == 61 {
        assert(bundled_alias(61) == (seq!['o', 'b'], Book::Obadiah));
        let s = seq!['o', 'b'];
        reveal_with_fuel(all_class, 3);
        reveal_with_fuel(ascii_key, 3);
        assert(all_class(s));
        assert(key_book(ascii_key(s)) == Some(Book::Obadiah));
    } else if i == 62 {
        assert(bundled_alias(62) == (seq!['J', 'o', 'n', 'a', 'h'], Book::Jonah));
        let s = seq!['J', 'o', 'n', 'a', 'h'];
        reveal_with_fuel(all_class, 6);
        reveal_with_fuel(ascii_key, 6);
        assert(all_class(s));
        assert(key_book(ascii_key(s)) == Some(Book::Jonah));
    } else if i == 63 {
        assert(bundled_alias(63) == (seq!['j', 'n'], Book::Jonah));
        let s = seq!['j', 'n'];
        reveal_with_fuel(all_class, 3);
        reveal_with_fuel(ascii_key, 3);
        assert(all_class(s));
        assert(key_book(ascii_key(s)) == Some(Book::Jonah));
    } else if i == 64 {
        assert(bundled_alias(64) == (seq!['M', 'i', 'c', 'a', 'h'], Book::Micah));
        let s = seq!['M', 'i', 'c', 'a', 'h'];
        reveal_with_fuel(all_class, 6);
        reveal_with_fuel(ascii_key, 6);
        assert(all_class(s));
        assert(key_book(ascii_key(s)) == Some(Book::Micah));
    } else if i == 65 {
        assert(bundled_alias(65) == (seq!['m', 'i'], Book::Micah));
        let s = seq!['m', 'i'];
        reveal_with_fuel(all_class, 3);
        reveal_with_fuel(ascii_key, 3);
        assert(all_class(s));
        assert(key_book(ascii_key(s)) == Some(Book::Micah));
    } else if i == 66 {
        assert(bundled_alias(66) == (seq!['N', 'a', 'h', 'u', 'm'], Book::Nahum));
        let s = seq!['N', 'a', 'h', 'u', 'm'];
        reveal_with_fuel(all_class, 6);
        reveal_with_fuel(ascii_key, 6);
        assert(all_class(s));
        assert(key_book(ascii_key(s)) == Some(Book::Nahum));
    } else if i == 67 {
        assert(bundled_alias(67) == (seq!['n', 'a'], Book::Nahum));
        let s = seq!['n', 'a'];
        reveal_with_fuel(all_class, 3);
        reveal_with_fuel(ascii_key, 3);
        assert(all_class(s));
        assert(key_book(ascii_key(s)) == Some(Book::Nahum));
    } else if i == 68 {
        assert(bundled_alias(68) == (seq!['H', 'a', 'b', 'a', 'k', 'k', 'u', 'k'], Book::Habakkuk));
        let s = seq!['H', 'a', 'b', 'a', 'k', 'k', 'u', 'k'];
        reveal_with_fuel(all_class, 9);
        reveal_with_fuel(ascii_key, 9);
        assert(all_class(s));
        assert(key_book(ascii_key(s)) == Some(Book::Habakkuk));
    } else if i == 69 {
        assert(bundled_alias(69) == (seq!['h', 'k'], Book::Habakkuk));
        let s = seq!['h', 'k'];
        reveal_with_fuel(all_class, 3);
        reveal_with_fuel(ascii_key, 3);
        assert(all_class(s));
        assert(key_book(ascii_key(s)) == Some(Book::Habakkuk));
    }
}

/// Bundled aliases 70 to 79 are written with alias scalars, and
/// their keys name their books.
#[verifier::rlimit(60)]
proof fn lemma_alias_keys_70(i: int)
    requires
        70 <= i < 80,
    ensures
        all_class(bundled_alias(i).0),
        key_book(ascii_key(bundled_alias(i).0)) == Some(bundled_alias(i).1),
{
    if i == 70 {
        assert(bundled_alias(70) == (seq!['Z', 'e', 'p', 'h', 'a', 'n', 'i', 'a', 'h'], Book::Zephaniah));
        let s = seq!['Z', 'e', 'p', 'h', 'a', 'n', 'i', 'a', 'h'];
        reveal_with_fuel(all_class, 10);
        reveal_with_fuel(ascii_key, 10);
        assert(all_class(s));
        assert(key_book(ascii_key(s)) == Some(Book::Zephaniah));
    } else if i == 71 {
        assert(bundled_alias(71) == (seq!['z', 'p'], Book::Zephaniah));
        let s = seq!['z', 'p'];
        reveal_with_fuel(all_class, 3);
        reveal_with_fuel(ascii_key, 3);
        assert(all_class(s));
        assert(key_book(ascii_key(s)) == Some(Book::Zephaniah));
    } else if i == 72 {
        assert(bundled_alias(72) == (seq!['H', 'a', 'g', 'g', 'a', 'i'], Book::Haggai));
        let s = seq!['H', 'a', 'g', 'g', 'a', 'i'];
        reveal_with_fuel(all_class, 7);
        reveal_with_fuel(ascii_key, 7);
        assert(all_class(s));
        assert(key_book(ascii_key(s)) == Some(Book::Haggai));
    } else if i == 73 {
        assert(bundled_alias(73) == (seq!['h', 'g'], Book::Haggai));
        let s = seq!['h', 'g'];
        reveal_with_fuel(all_class, 3);
        reveal_with_fuel(ascii_key, 3);
        assert(all_class(s));
        assert(key_book(ascii_key(s)) == Some(Book::Haggai));
    } else if i == 74 {
        assert(bundled_alias(74) == (seq!['Z', 'e', 'c', 'h', 'a', 'r', 'i', 'a', 'h'], Book::Zechariah));
        let s = seq!['Z', 'e', 'c', 'h', 'a', 'r', 'i', 'a', 'h'];
        reveal_with_fuel(all_class, 10);
        reveal_with_fuel(ascii_key, 10);
        assert(all_class(s));
        assert(key_book(ascii_key(s)) == Some(Book::Zechariah));
    } else if i == 75 {
        assert(bundled_alias(75) == (seq!['z', 'c'], Book::Zechariah));
        let s = seq!['z', 'c'];
        reveal_with_fuel(all_class, 3);
        reveal_with_fuel(ascii_key, 3);
        assert(all_class(s));
        assert(key_book(ascii_key(s)) == Some(Book::Zechariah));
    } else if i == 76 {
        assert(bundled_alias(76) == (seq!['M', 'a', 'l', 'a', 'c', 'h', 'i'], Book::Malachi));
        let s = seq!['M', 'a', 'l', 'a', 'c', 'h', 'i'];
        reveal_with_fuel(all_class, 8);
        reveal_with_fuel(ascii_key, 8);
        assert(all_class(s));
        assert(key_book(ascii_key(s)) == Some(Book::Malachi));
    } else if i == 77 {
        assert(bundled_alias(77) == (seq!['m', 'l'], Book::Malachi));
        let s = seq!['m', 'l'];
        reveal_with_fuel(all_class, 3);
        reveal_with_fuel(ascii_key, 3);
        assert(all_class(s));
        assert(key_book(ascii_key(s)) == Some(Book::Malachi));
    } else if i == 78 {
        assert(bundled_alias(78) == (seq!['M', 'a', 't', 't', 'h', 'e', 'w'], Book::Matthew));
        let s = seq!['M', 'a', 't', 't', 'h', 'e', 'w'];
        reveal_with_fuel(all_class, 8);
        reveal_with_fuel(ascii_key, 8);
        assert(all_class(s));
        assert(key_book(ascii_key(s)) == Some(Book::Matthew));
    } else if i == 79 {
        assert(bundled_alias(79) == (seq!['m', 't'], Book::Matthew));
        let s = seq!['m', 't'];
        reveal_with_fuel(all_class, 3);
        reveal_with_fuel(ascii_key, 3);
        assert(all_class(s));
        assert(key_book(ascii_key(s)) == Some(Book::Matthew));
    }
}

/// Bundled aliases 80 to 89 are written with alias scalars, and
/// their keys name their books.
#[verifier::rlimit(60)]
proof fn lemma_alias_keys_80(i: int)
    requires
        80 <= i < 90,
    ensures
        all_class(bundled_alias(i).0),
        key_book(ascii_key(bundled_alias(i).0)) == Some(bundled_alias(i).1),
{
    if i == 80 {
        assert(bundled_alias(80) == (seq!['M', 'a', 'r', 'k'], Book::Mark));
        let s = seq!['M', 'a', 'r', 'k'];
        reveal_with_fuel(all_class, 5);
        reveal_with_fuel(ascii_key, 5);
        assert(all_class(s));
        assert(key_book(ascii_key(s)) == Some(Book::Mark));
    } else if i == 81 {
        assert(bundled_alias(81) == (seq!['m', 'k'], Book::Mark));
        let s = seq!['m', 'k'];
        reveal_with_fuel(all_class, 3);
        reveal_with_fuel(ascii_key, 3);
        assert(all_class(s));
        assert(key_book(ascii_key(s)) == Some(Book::Mark));
    } else if i == 82 {
        assert(bundled_alias(82) == (seq!['L', 'u', 'k', 'e'], Book::Luke));
        let s = seq!['L', 'u', 'k', 'e'];
        reveal_with_fuel(all_class, 5);
        reveal_with_fuel(ascii_key, 5);
        assert(all_class(s));
        assert(key_book(ascii_key(s)) == Some(Book::Luke));
    } else if i == 83 {
        assert(bundled_alias(83) == (seq!['l', 'k'], Book::Luke));
        let s = seq!['l', 'k'];
        reveal_with_fuel(all_class, 3);
        reveal_with_fuel(ascii_key, 3);
        assert(all_class(s));
        assert(key_book(ascii_key(s)) == Some(Book::Luke));
    } else if i == 84 {
        assert(bundled_alias(84) == (seq!['J', 'o', 'h', 'n'], Book::John));
        let s = seq!['J', 'o', 'h', 'n'];
        reveal_with_fuel(all_class, 5);
        reveal_with_fuel(ascii_key, 5);
        assert(all_class(s));
        assert(key_book(ascii_key(s)) == Some(Book::John));
    } else if i == 85 {
        assert(bundled_alias(85) == (seq!['j', 'o'], Book::John));
        let s = seq!['j', 'o'];
        reveal_with_fuel(all_class, 3);
        reveal_with_fuel(ascii_key, 3);
        assert(all_class(s));
        assert(key_book(ascii_key(s)) == Some(Book::John));
    } else if i == 86 {
        assert(bundled_alias(86) == (seq!['A', 'c', 't', 's'], Book::Acts));
        let s = seq!['A', 'c', 't', 's'];
        reveal_with_fuel(all_class, 5);
        reveal_with_fuel(ascii_key, 5);
        assert(all_class(s));
        assert(key_book(ascii_key(s)) == Some(Book::Acts));
    } else if i == 87 {
        assert(bundled_alias(87) == (seq!['a', 'c', 't'], Book::Acts));
        let s = seq!['a', 'c', 't'];
        reveal_with_fuel(all_class, 4);
        reveal_with_fuel(ascii_key, 4);
        assert(all_class(s));
        assert(key_book(ascii_key(s)) == Some(Book::Acts));
    } else if i == 88 {
        assert(bundled_alias(88) == (seq!['R', 'o', 'm', 'a', 'n', 's'], Book::Romans));
        let s = seq!['R', 'o', 'm', 'a', 'n', 's'];
        reveal_with_fuel(all_class, 7);
        reveal_with_fuel(ascii_key, 7);
        assert(all_class(s));
        assert(key_book(ascii_key(s)) == Some(Book::Romans));
    } else if i == 89 {
        assert(bundled_alias(89) == (seq!['r', 'm'], Book::Romans));
        let s = seq!['r', 'm'];
        reveal_with_fuel(all_class, 3);
        reveal_with_fuel(ascii_key, 3);
        assert(all_class(s));
        assert(key_book(ascii_key(s)) == Some(Book::Romans));
    }
}

/// Bundled aliases 90 to 99 are written with alias scalars, and
/// their keys name their books.
#[verifier::rlimit(60)]
proof fn lemma_alias_keys_90(i: int)
    requires
        90 <= i < 100,
    ensures
        all_class(bundled_alias(i).0),
        key_book(ascii_key(bundled_alias(i).0)) == Some(bundled_alias(i).1),
{
    if i == 90 {
        assert(bundled_alias(90) == (seq!['1', ' ', 'C', 'o', 'r', 'i', 'n', 't', 'h', 'i', 'a', 'n', 's'], Book::FirstCorinthians));
        let s = seq!['1', ' ', 'C', 'o', 'r', 'i', 'n', 't', 'h', 'i', 'a', 'n', 's'];
        reveal_with_fuel(all_class, 14);
        reveal_with_fuel(ascii_key, 14);
        assert(all_class(s));
        assert(key_book(ascii_key(s)) == Some(Book::FirstCorinthians));
    } else if i == 91 {
        assert(bundled_alias(91) == (seq!['1', 'c', 'o'], Book::FirstCorinthians));
        let s = seq!['1', 'c', 'o'];
        reveal_with_fuel(all_class, 4);
        reveal_with_fuel(ascii_key, 4);
        assert(all_class(s));
        assert(key_book(ascii_key(s)) == Some(Book::FirstCorinthians));
    } else if i == 92 {
        assert(bundled_alias(92) == (seq!['2', ' ', 'C', 'o', 'r', 'i', 'n', 't', 'h', 'i', 'a', 'n', 's'], Book::SecondCorinthians));
        let s = seq!['2', ' ', 'C', 'o', 'r', 'i', 'n', 't', 'h', 'i', 'a', 'n', 's'];
        reveal_with_fuel(all_class, 14);
        reveal_with_fuel(ascii_key, 14);
        assert(all_class(s));
        assert(key_book(ascii_key(s)) == Some(Book::SecondCorinthians));
    } else if i == 93 {
        assert(bundled_alias(93) == (seq!['2', 'c', 'o'], Book::SecondCorinthians));
        let s = seq!['2', 'c', 'o'];
        reveal_with_fuel(all_class, 4);
        reveal_with_fuel(ascii_key, 4);
        assert(all_class(s));
        assert(key_book(ascii_key(s)) == Some(Book::SecondCorinthians));
    } else if i == 94 {
        assert(bundled_alias(94) == (seq!['G', 'a', 'l', 'a', 't', 'i', 'a', 'n', 's'], Book::Galatians));
        let s = seq!['G', 'a', 'l', 'a', 't', 'i', 'a', 'n', 's'];
        reveal_with_fuel(all_class, 10);
        reveal_with_fuel(ascii_key, 10);
        assert(all_class(s));
        assert(key_book(ascii_key(s)) == Some(Book::Galatians));
    } else if i == 95 {
        assert(bundled_alias(95) == (seq!['g', 'l'], Book::Galatians));
        let s = seq!['g', 'l'];
        reveal_with_fuel(all_class, 3);
        reveal_with_fuel(ascii_key, 3);
        assert(all_class(s));
        assert(key_book(ascii_key(s)) == Some(Book::Galatians));
    } else if i == 96 {
        assert(bundled_alias(96) == (seq!['E', 'p', 'h', 'e', 's', 'i', 'a', 'n', 's'], Book::Ephesians));
        let s = seq!['E', 'p', 'h', 'e', 's', 'i', 'a', 'n', 's'];
        reveal_with_fuel(all_class, 10);
        reveal_with_fuel(ascii_key, 10);
        assert(all_class(s));
        assert(key_book(ascii_key(s)) == Some(Book::Ephesians));
    } else if i == 97 {
        assert(bundled_alias(97) == (seq!['e', 'p', 'h'], Book::Ephesians));
        let s = seq!['e', 'p', 'h'];
        reveal_with_fuel(all_class, 4);
        reveal_with_fuel(ascii_key, 4);
        assert(all_class(s));
        assert(key_book(ascii_key(s)) == Some(Book::Ephesians));
    } else if i == 98 {
        assert(bundled_alias(98) == (seq!['P', 'h', 'i', 'l', 'i', 'p', 'p', 'i', 'a', 'n', 's'], Book::Philippians));
        let s = seq!['P', 'h', 'i', 'l', 'i', 'p', 'p', 'i', 'a', 'n', 's'];
        reveal_with_fuel(all_class, 12);
        reveal_with_fuel(ascii_key, 12);
        assert(all_class(s));
        assert(key_book(ascii_key(s)) == Some(Book::Philippians));
    } else if i == 99 {
        assert(bundled_alias(99) == (seq!['p', 'h'], Book::Philippians));
        let s = seq!['p', 'h'];
        reveal_with_fuel(all_class, 3);
        reveal_with_fuel(ascii_key, 3);
        assert(all_class(s));
        assert(key_book(ascii_key(s)) == Some(Book::Philippians));
    }
}

/// Bundled aliases 100 to 109 are written with alias scalars, and
/// their keys name their books.
#[verifier::rlimit(60)]
proof fn lemma_alias_keys_100(i: int)
    requires
        100 <= i < 110,
    ensures
        all_class(bundled_alias(i).0),
        key_book(ascii_key(bundled_alias(i).0)) == Some(bundled_alias(i).1),
{
    if i == 100 {
        assert(bundled_alias(100) == (seq!['C', 'o', 'l', 'o', 's', 's', 'i', 'a', 'n', 's'], Book::Colossians));
        let s = seq!['C', 'o', 'l', 'o', 's', 's', 'i', 'a', 'n', 's'];
        reveal_with_fuel(all_class, 11);
        reveal_with_fuel(ascii_key, 11);
        assert(all_class(s));
        assert(key_book(ascii_key(s)) == Some(Book::Colossians));
    } else if i == 101 {
        assert(bundled_alias(101) == (seq!['c', 'l'], Book::Colossians));
        let s = seq!['c', 'l'];
        reveal_with_fuel(all_class, 3);
        reveal_with_fuel(ascii_key, 3);
        assert(all_class(s));
        assert(key_book(ascii_key(s)) == Some(Book::Colossians));
    } else if i == 102 {
        assert(bundled_alias(102) == (seq!['1', ' ', 'T', 'h', 'e', 's', 's', 'a', 'l', 'o', 'n', 'i', 'a', 'n', 's'], Book::FirstThessalonians));
        let s = seq!['1', ' ', 'T', 'h', 'e', 's', 's', 'a', 'l', 'o', 'n', 'i', 'a', 'n', 's'];
        reveal_with_fuel(all_class, 16);
        reveal_with_fuel(ascii_key, 16);
        assert(all_class(s));
        assert(key_book(ascii_key(s)) == Some(Book::FirstThessalonians));
    } else if i == 103 {
        assert(bundled_alias(103) == (seq!['1', 't', 's'], Book::FirstThessalonians));
        let s = seq!['1', 't', 's'];
        reveal_with_fuel(all_class, 4);
        reveal_with_fuel(ascii_key, 4);
        assert(all_class(s));
        assert(key_book(ascii_key(s)) == Some(Book::FirstThessalonians));
    } else if i == 104 {
        assert(bundled_alias(104) == (seq!['2', ' ', 'T', 'h', 'e', 's', 's', 'a', 'l', 'o', 'n', 'i', 'a', 'n', 's'], Book::SecondThessalonians));
        let s = seq!['2', ' ', 'T', 'h', 'e', 's', 's', 'a', 'l', 'o', 'n', 'i', 'a', 'n', 's'];
        reveal_with_fuel(all_class, 16);
        reveal_with_fuel(ascii_key, 16);
        assert(all_class(s));
        assert(key_book(ascii_key(s)) == Some(Book::SecondThessalonians));
    } else if i == 105 {
        assert(bundled_alias(105) == (seq!['2', 't', 's'], Book::SecondThessalonians));
        let s = seq!['2', 't', 's'];
        reveal_with_fuel(all_class, 4);
        reveal_with_fuel(ascii_key, 4);
        assert(all_class(s));
        assert(key_book(ascii_key(s)) == Some(Book::SecondThessalonians));
    } else if i == 106 {
        assert(bundled_alias(106) == (seq!['1', ' ', 'T', 'i', 'm', 'o', 't', 'h', 'y'], Book::FirstTimothy));
        let s = seq!['1', ' ', 'T', 'i', 'm', 'o', 't', 'h', 'y'];
        reveal_with_fuel(all_class, 10);
        reveal_with_fuel(ascii_key, 10);
        assert(all_class(s));
        assert(key_book(ascii_key(s)) == Some(Book::FirstTimothy));
    } else if i == 107 {
        assert(bundled_alias(107) == (seq!['1', 't', 'm'], Book::FirstTimothy));
        let s = seq!['1', 't', 'm'];
        reveal_with_fuel(all_class, 4);
        reveal_with_fuel(ascii_key, 4);
        assert(all_class(s));
        assert(key_book(ascii_key(s)) == Some(Book::FirstTimothy));
    } else if i == 108 {
        assert(bundled_alias(108) == (seq!['2', ' ', 'T', 'i', 'm', 'o', 't', 'h', 'y'], Book::SecondTimothy));
        let s = seq!['2', ' ', 'T', 'i', 'm', 'o', 't', 'h', 'y'];
        reveal_with_fuel(all_class, 10);
        reveal_with_fuel(ascii_key, 10);
        assert(all_class(s));
        assert(key_book(ascii_key(s)) == Some(Book::SecondTimothy));
    } else if i == 109 {
        assert(bundled_alias(109) == (seq!['2', 't', 'm'], Book::SecondTimothy));
        let s = seq!['2', 't', 'm'];
        reveal_with_fuel(all_class, 4);
        reveal_with_fuel(ascii_key, 4);
        assert(all_class(s));
        assert(key_book(ascii_key(s)) == Some(Book::SecondTimothy));
    }
}

/// Bundled aliases 110 to 119 are written with alias scalars, and
/// their keys name their books.
#[verifier::rlimit(60)]
proof fn lemma_alias_keys_110(i: int)
    requires
        110 <= i < 120,
    ensures
        all_class(bundled_alias(i).0),
        key_book(ascii_key(bundled_alias(i).0)) == Some(bundled_alias(i).1),
{
    if i == 110 {
        assert(bundled_alias(110) == (seq!['T', 'i', 't', 'u', 's'], Book::Titus));
        let s = seq!['T', 'i', 't', 'u', 's'];
        reveal_with_fuel(all_class, 6);
        reveal_with_fuel(ascii_key, 6);
        assert(all_class(s));
        assert(key_book(ascii_key(s)) == Some(Book::Titus));
    } else if i == 111 {
        assert(bundled_alias(111) == (seq!['t', 't'], Book::Titus));
        let s = seq!['t', 't'];
        reveal_with_fuel(all_class, 3);
        reveal_with_fuel(ascii_key, 3);
        assert(all_class(s));
        assert(key_book(ascii_key(s)) == Some(Book::Titus));
    } else if i == 112 {
        assert(bundled_alias(112) == (seq!['P', 'h', 'i', 'l', 'e', 'm', 'o', 'n'], Book::Philemon));
        let s = seq!['P', 'h', 'i', 'l', 'e', 'm', 'o', 'n'];
        reveal_with_fuel(all_class, 9);
        reveal_with_fuel(ascii_key, 9);
        assert(all_class(s));
        assert(key_book(ascii_key(s)) == Some(Book::Philemon));
    } else if i == 113 {
        assert(bundled_alias(113) == (seq!['p', 'h', 'm'], Book::Philemon));
        let s = seq!['p', 'h', 'm'];
        reveal_with_fuel(all_class, 4);
        reveal_with_fuel(ascii_key, 4);
        assert(all_class(s));
        assert(key_book(ascii_key(s)) == Some(Book::Philemon));
    } else if i == 114 {
        assert(bundled_alias(114) == (seq!['H', 'e', 'b', 'r', 'e', 'w', 's'], Book::Hebrews));
        let s = seq!['H', 'e', 'b', 'r', 'e', 'w', 's'];
        reveal_with_fuel(all_class, 8);
        reveal_with_fuel(ascii_key, 8);
        assert(all_class(s));
        assert(key_book(ascii_key(s)) == Some(Book::Hebrews));
    } else if i == 115 {
        assert(bundled_alias(115) == (seq!['h', 'b'], Book::Hebrews));
        let s = seq!['h', 'b'];
        reveal_with_fuel(all_class, 3);
        reveal_with_fuel(ascii_key, 3);
        assert(all_class(s));
        assert(key_book(ascii_key(s)) == Some(Book::Hebrews));
    } else if i == 116 {
        assert(bundled_alias(116) == (seq!['J', 'a', 'm', 'e', 's'], Book::James));
        let s = seq!['J', 'a', 'm', 'e', 's'];
        reveal_with_fuel(all_class, 6);
        reveal_with_fuel(ascii_key, 6);
        assert(all_class(s));
        assert(key_book(ascii_key(s)) == Some(Book::James));
    } else if i == 117 {
        assert(bundled_alias(117) == (seq!['j', 'm'], Book::James));
        let s = seq!['j', 'm'];
        reveal_with_fuel(all_class, 3);
        reveal_with_fuel(ascii_key, 3);
        assert(all_class(s));
        assert(key_book(ascii_key(s)) == Some(Book::James));
    } else if i == 118 {
        assert(bundled_alias(118) == (seq!['1', ' ', 'P', 'e', 't', 'e', 'r'], Book::FirstPeter));
        let s = seq!['1', ' ', 'P', 'e', 't', 'e', 'r'];
        reveal_with_fuel(all_class, 8);
        reveal_with_fuel(ascii_key, 8);
        assert(all_class(s));
        assert(key_book(ascii_key(s)) == Some(Book::FirstPeter));
    } else if i == 119 {
        assert(bundled_alias(119) == (seq!['1', 'p', 'e'], Book::FirstPeter));
        let s = seq!['1', 'p', 'e'];
        reveal_with_fuel(all_class, 4);
        reveal_with_fuel(ascii_key, 4);
        assert(all_class(s));
        assert(key_book(ascii_key(s)) == Some(Book::FirstPeter));
    }
}

/// Bundled aliases 120 to 129 are written with alias scalars, and
/// their keys name their books.
#[verifier::rlimit(60)]
proof fn lemma_alias_keys_120(i: int)
    requires
        120 <= i < 130,
    ensures
        all_class(bundled_alias(i).0),
        key_book(ascii_key(bundled_alias(i).0)) == Some(bundled_alias(i).1),
{
    if i == 120 {
        assert(bundled_alias(120) == (seq!['2', ' ', 'P', 'e', 't', 'e', 'r'], Book::SecondPeter));
        let s = seq!['2', ' ', 'P', 'e', 't', 'e', 'r'];
        reveal_with_fuel(all_class, 8);
        reveal_with_fuel(ascii_key, 8);
        assert(all_class(s));
        assert(key_book(ascii_key(s)) == Some(Book::SecondPeter));
    } else if i == 121 {
        assert(bundled_alias(121) == (seq!['2', 'p', 'e'], Book::SecondPeter));
        let s = seq!['2', 'p', 'e'];
        reveal_with_fuel(all_class, 4);
        reveal_with_fuel(ascii_key, 4);
        assert(all_class(s));
        assert(key_book(ascii_key(s)) == Some(Book::SecondPeter));
    } else if i == 122 {
        assert(bundled_alias(122) == (seq!['1', ' ', 'J', 'o', 'h', 'n'], Book::FirstJohn));
        let s = seq!['1', ' ', 'J', 'o', 'h', 'n'];
        reveal_with_fuel(all_class, 7);
        reveal_with_fuel(ascii_key, 7);
        assert(all_class(s));
        assert(key_book(ascii_key(s)) == Some(Book::FirstJohn));
    } else if i == 123 {
        assert(bundled_alias(123) == (seq!['1', 'j', 'o'], Book::FirstJohn));
        let s = seq!['1', 'j', 'o'];
        reveal_with_fuel(all_class, 4);
        reveal_with_fuel(ascii_key, 4);
        assert(all_class(s));
        assert(key_book(ascii_key(s)) == Some(Book::FirstJohn));
    } else if i == 124 {
        assert(bundled_alias(124) == (seq!['2', ' ', 'J', 'o', 'h', 'n'], Book::SecondJohn));
        let s = seq!['2', ' ', 'J', 'o', 'h', 'n'];
        reveal_with_fuel(all_class, 7);
        reveal_with_fuel(ascii_key, 7);
        assert(all_class(s));
        assert(key_book(ascii_key(s)) == Some(Book::SecondJohn));
    } else if i == 125 {
        assert(bundled_alias(125) == (seq!['2', 'j', 'o'], Book::SecondJohn));
        let s = seq!['2', 'j', 'o'];
        reveal_with_fuel(all_class, 4);
        reveal_with_fuel(ascii_key, 4);
        assert(all_class(s));
        assert(key_book(ascii_key(s)) == Some(Book::SecondJohn));
    } else if i == 126 {
        assert(bundled_alias(126) == (seq!['3', ' ', 'J', 'o', 'h', 'n'], Book::ThirdJohn));
        let s = seq!['3', ' ', 'J', 'o', 'h', 'n'];
        reveal_with_fuel(all_class, 7);
        reveal_with_fuel(ascii_key, 7);
        assert(all_class(s));
        assert(key_book(ascii_key(s)) == Some(Book::ThirdJohn));
    } else if i == 127 {
        assert(bundled_alias(127) == (seq!['3', 'j', 'o'], Book::ThirdJohn));
        let s = seq!['3', 'j', 'o'];
        reveal_with_fuel(all_class, 4);
        reveal_with_fuel(ascii_key, 4);
        assert(all_class(s));
        assert(key_book(ascii_key(s)) == Some(Book::ThirdJohn));
    } else if i == 128 {
        assert(bundled_alias(128) == (seq!['J', 'u', 'd', 'e'], Book::Jude));
        let s = seq!['J', 'u', 'd', 'e'];
        reveal_with_fuel(all_class, 5);
        reveal_with_fuel(ascii_key, 5);
        assert(all_class(s));
        assert(key_book(ascii_key(s)) == Some(Book::Jude));
    } else if i == 129 {
        assert(bundled_alias(129) == (seq!['j', 'd'], Book::Jude));
        let s = seq!['j', 'd'];
        reveal_with_fuel(all_class, 3);
        reveal_with_fuel(ascii_key, 3);
        assert(all_class(s));
        assert(key_book(ascii_key(s)) == Some(Book::Jude));
    }
}

/// Bundled aliases 130 to 139 are written with alias scalars, and
/// their keys name their books.
#[verifier::rlimit(60)]
proof fn lemma_alias_keys_130(i: int)
    requires
        130 <= i < 140,
    ensures
        all_class(bundled_alias(i).0),
        key_book(ascii_key(bundled_alias(i).0)) == Some(bundled_alias(i).1),
{
    if i == 130 {
        assert(bundled_alias(130) == (seq!['R', 'e', 'v', 'e', 'l', 'a', 't', 'i', 'o', 'n'], Book::Revelation));
        let s = seq!['R', 'e', 'v', 'e', 'l', 'a', 't', 'i', 'o', 'n'];
        reveal_with_fuel(all_class, 11);
        reveal_with_fuel(ascii_key, 11);
        assert(all_class(s));
        assert(key_book(ascii_key(s)) == Some(Book::Revelation));
    } else if i == 131 {
        assert(bundled_alias(131) == (seq!['r', 'e'], Book::Revelation));
        let s = seq!['r', 'e'];
        reveal_with_fuel(all_class, 3);
        reveal_with_fuel(ascii_key, 3);
        assert(all_class(s));
        assert(key_book(ascii_key(s)) == Some(Book::Revelation));
    } else if i == 132 {
        assert(bundled_alias(132) == (seq!['T', 'o', 'b', 'i', 't'], Book::Tobit));
        let s = seq!['T', 'o', 'b', 'i', 't'];
        reveal_with_fuel(all_class, 6);
        reveal_with_fuel(ascii_key, 6);
        assert(all_class(s));
        assert(key_book(ascii_key(s)) == Some(Book::Tobit));
    } else if i == 133 {
        assert(bundled_alias(133) == (seq!['t', 'b'], Book::Tobit));
        let s = seq!['t', 'b'];
        reveal_with_fuel(all_class, 3);
        reveal_with_fuel(ascii_key, 3);
        assert(all_class(s));
        assert(key_book(ascii_key(s)) == Some(Book::Tobit));
    } else if i == 134 {
        assert(bundled_alias(134) == (seq!['J', 'u', 'd', 'i', 't', 'h'], Book::Judith));
        let s = seq!['J', 'u', 'd', 'i', 't', 'h'];
        reveal_with_fuel(all_class, 7);
        reveal_with_fuel(ascii_key, 7);
        assert(all_class(s));
        assert(key_book(ascii_key(s)) == Some(Book::Judith));
    } else if i == 135 {
        assert(bundled_alias(135) == (seq!['j', 'd', 't'], Book::Judith));
        let s = seq!['j', 'd', 't'];
        reveal_with_fuel(all_class, 4);
        reveal_with_fuel(ascii_key, 4);
        assert(all_class(s));
        assert(key_book(ascii_key(s)) == Some(Book::Judith));
    } else if i == 136 {
        assert(bundled_alias(136) == (seq!['W', 'i', 's', 'd', 'o', 'm'], Book::Wisdom));
        let s = seq!['W', 'i', 's', 'd', 'o', 'm'];
        reveal_with_fuel(all_class, 7);
        reveal_with_fuel(ascii_key, 7);
        assert(all_class(s));
        assert(key_book(ascii_key(s)) == Some(Book::Wisdom));
    } else if i == 137 {
        assert(bundled_alias(137) == (seq!['w', 's'], Book::Wisdom));
        let s = seq!['w', 's'];
        reveal_with_fuel(all_class, 3);
        reveal_with_fuel(ascii_key, 3);
        assert(all_class(s));
        assert(key_book(ascii_key(s)) == Some(Book::Wisdom));
    } else if i == 138 {
        assert(bundled_alias(138) == (seq!['S', 'i', 'r', 'a', 'c', 'h'], Book::Sirach));
        let s = seq!['S', 'i', 'r', 'a', 'c', 'h'];
        reveal_with_fuel(all_class, 7);
        reveal_with_fuel(ascii_key, 7);
        assert(all_class(s));
        assert(key_book(ascii_key(s)) == Some(Book::Sirach));
    } else if i == 139 {
        assert(bundled_alias(139) == (seq!['s', 'i', 'r'], Book::Sirach));
        let s = seq!['s', 'i', 'r'];
        reveal_with_fuel(all_class, 4);
        reveal_with_fuel(ascii_key, 4);
        assert(all_class(s));
        assert(key_book(ascii_key(s)) == Some(Book::Sirach));
    }
}

/// Bundled aliases 140 to 144 are written with alias scalars, and
/// their keys name their books.
#[verifier::rlimit(60)]
proof fn lemma_alias_keys_140(i: int)
    requires
        140 <= i < 145,
    ensures
        all_class(bundled_alias(i).0),
        key_book(ascii_key(bundled_alias(i).0)) == Some(bundled_alias(i).1),
{
    if i == 140 {
        assert(bundled_alias(140) == (seq!['B', 'a', 'r', 'u', 'c', 'h'], Book::Baruch));
        let s = seq!['B', 'a', 'r', 'u', 'c', 'h'];
        reveal_with_fuel(all_class, 7);
        reveal_with_fuel(ascii_key, 7);
        assert(all_class(s));
        assert(key_book(ascii_key(s)) == Some(Book::Baruch));
    } else if i == 141 {
        assert(bundled_alias(141) == (seq!['b', 'a', 'r'], Book::Baruch));
        let s = seq!['b', 'a', 'r'];
        reveal_with_fuel(all_class, 4);
        reveal_with_fuel(ascii_key, 4);
        assert(all_class(s));
        assert(key_book(ascii_key(s)) == Some(Book::Baruch));
    } else if i == 142 {
        assert(bundled_alias(142) == (seq!['1', ' ', 'M', 'a', 'c', 'c', 'a', 'b', 'e', 'e', 's'], Book::FirstMaccabees));
        let s = seq!['1', ' ', 'M', 'a', 'c', 'c', 'a', 'b', 'e', 'e', 's'];
        reveal_with_fuel(all_class, 12);
        reveal_with_fuel(ascii_key, 12);
        assert(all_class(s));
        assert(key_book(ascii_key(s)) == Some(Book::FirstMaccabees));
    } else if i == 143 {
        assert(bundled_alias(143) == (seq!['1', 'm', 'c'], Book::FirstMaccabees));
        let s = seq!['1', 'm', 'c'];
        reveal_with_fuel(all_class, 4);
        reveal_with_fuel(ascii_key, 4);
        assert(all_class(s));
        assert(key_book(ascii_key(s)) == Some(Book::FirstMaccabees));
    } else if i == 144 {
        assert(bundled_alias(144) == (seq!['2', ' ', 'M', 'a', 'c', 'c', 'a', 'b', 'e', 'e', 's'], Book::SecondMaccabees));
        let s = seq!['2', ' ', 'M', 'a', 'c', 'c', 'a', 'b', 'e', 'e', 's'];
        reveal_with_fuel(all_class, 12);
        reveal_with_fuel(ascii_key, 12);
        assert(all_class(s));
        assert(key_book(ascii_key(s)) == Some(Book::SecondMaccabees));
    }
}

/// Bundled aliases 145 to 149 are written with alias scalars, and
/// their keys name their books.
#[verifier::rlimit(60)]
proof fn lemma_alias_keys_145(i: int)
    requires
        145 <= i < 150,
    ensures
        all_class(bundled_alias(i).0),
        key_book(ascii_key(bundled_alias(i).0)) == Some(bundled_alias(i).1),
{
    if i == 145 {
        assert(bundled_alias(145) == (seq!['2', 'm', 'c'], Book::SecondMaccabees));
        let s = seq!['2', 'm', 'c'];
        reveal_with_fuel(all_class, 4);
        reveal_with_fuel(ascii_key, 4);
        assert(all_class(s));
        assert(key_book(ascii_key(s)) == Some(Book::SecondMaccabees));
    } else if i == 146 {
        assert(bundled_alias(146) == (seq!['E', 's', 't', 'h', 'e', 'r', ' ', '(', 'G', 'r', 'e', 'e', 'k', ')'], Book::EstherAdditions));
        let s = seq!['E', 's', 't', 'h', 'e', 'r', ' ', '(', 'G', 'r', 'e', 'e', 'k', ')'];
        reveal_with_fuel(all_class, 15);
        reveal_with_fuel(ascii_key, 15);
        assert(all_class(s));
        assert(key_book(ascii_key(s)) == Some(Book::EstherAdditions));
    } else if i == 147 {
        assert(bundled_alias(147) == (seq!['e', 't', 'g'], Book::EstherAdditions));
        let s = seq!['e', 't', 'g'];
        reveal_with_fuel(all_class, 4);
        reveal_with_fuel(ascii_key, 4);
        assert(all_class(s));
        assert(key_book(ascii_key(s)) == Some(Book::EstherAdditions));
    } else if i == 148 {
        assert(bundled_alias(148) == (seq!['D', 'a', 'n', 'i', 'e', 'l', ' ', '(', 'S', 'o', 'n', 'g', ' ', 'o', 'f', ' ', 'T', 'h', 'r', 'e', 'e', ')'], Book::DanielSongOfThree));
        let s = seq!['D', 'a', 'n', 'i', 'e', 'l', ' ', '(', 'S', 'o', 'n', 'g', ' ', 'o', 'f', ' ', 'T', 'h', 'r', 'e', 'e', ')'];
        reveal_with_fuel(all_class, 23);
        reveal_with_fuel(ascii_key, 23);
        assert(all_class(s));
        assert(key_book(ascii_key(s)) == Some(Book::DanielSongOfThree));
    } else if i == 149 {
        assert(bundled_alias(149) == (seq!['d', 'n', '3'], Book::DanielSongOfThree));
        let s = seq!['d', 'n', '3'];
        reveal_with_fuel(all_class, 4);
        reveal_with_fuel(ascii_key, 4);
        assert(all_class(s));
        assert(key_book(ascii_key(s)) == Some(Book::DanielSongOfThree));
    }
}

/// Bundled aliases 150 to 154 are written with alias scalars, and
/// their keys name their books.
#[verifier::rlimit(60)]
proof fn lemma_alias_keys_150(i: int)
    requires
        150 <= i < 155,
    ensures
        all_class(bundled_alias(i).0),
        key_book(ascii_key(bundled_alias(i).0)) == Some(bundled_alias(i).1),
{
    if i == 150 {
        assert(bundled_alias(150) == (seq!['D', 'a', 'n', 'i', 'e', 'l', ' ', '(', 'S', 'u', 's', 'a', 'n', 'n', 'a', ')'], Book::DanielSusanna));
        let s = seq!['D', 'a', 'n', 'i', 'e', 'l', ' ', '(', 'S', 'u', 's', 'a', 'n', 'n', 'a', ')'];
        reveal_with_fuel(all_class, 17);
        reveal_with_fuel(ascii_key, 17);
        assert(all_class(s));
        assert(key_book(ascii_key(s)) == Some(Book::DanielSusanna));
    } else if i == 151 {
        assert(bundled_alias(151) == (seq!['d', 'n', 's'], Book::DanielSusanna));
        let s = seq!['d', 'n', 's'];
        reveal_with_fuel(all_class, 4);
        reveal_with_fuel(ascii_key, 4);
        assert(all_class(s));
        assert(key_book(ascii_key(s)) == Some(Book::DanielSusanna));
    } else if i == 152 {
        assert(bundled_alias(152) == (seq!['D', 'a', 'n', 'i', 'e', 'l', ' ', '(', 'B', 'e', 'l', ' ', 'a', 'n', 'd', ' ', 't', 'h', 'e', ' ', 'D', 'r', 'a', 'g', 'o', 'n', ')'], Book::DanielBelAndTheDragon));
        let s = seq!['D', 'a', 'n', 'i', 'e', 'l', ' ', '(', 'B', 'e', 'l', ' ', 'a', 'n', 'd', ' ', 't', 'h', 'e', ' ', 'D', 'r', 'a', 'g', 'o', 'n', ')'];
        reveal_with_fuel(all_class, 28);
        reveal_with_fuel(ascii_key, 28);
        assert(all_class(s));
        assert(key_book(ascii_key(s)) == Some(Book::DanielBelAndTheDragon));
    } else if i == 153 {
        assert(bundled_alias(153) == (seq!['d', 'n', 'b'], Book::DanielBelAndTheDragon));
        let s = seq!['d', 'n', 'b'];
        reveal_with_fuel(all_class, 4);
        reveal_with_fuel(ascii_key, 4);
        assert(all_class(s));
        assert(key_book(ascii_key(s)) == Some(Book::DanielBelAndTheDragon));
    } else if i == 154 {
        assert(bundled_alias(154) == (seq!['1', ' ', 'E', 's', 'd', 'r', 'a', 's'], Book::FirstEsdras));
        let s = seq!['1', ' ', 'E', 's', 'd', 'r', 'a', 's'];
        reveal_with_fuel(all_class, 9);
        reveal_with_fuel(ascii_key, 9);
        assert(all_class(s));
        assert(key_book(ascii_key(s)) == Some(Book::FirstEsdras));
    }
}

/// Bundled aliases 155 to 159 are written with alias scalars, and
/// their keys name their books.
#[verifier::rlimit(60)]
proof fn lemma_alias_keys_155(i: int)
    requires
        155 <= i < 160,
    ensures
        all_class(bundled_alias(i).0),
        key_book(ascii_key(bundled_alias(i).0)) == Some(bundled_alias(i).1),
{
    if i == 155 {
        assert(bundled_alias(155) == (seq!['1', 'e', 's'], Book::FirstEsdras));
        let s = seq!['1', 'e', 's'];
        reveal_with_fuel(all_class, 4);
        reveal_with_fuel(ascii_key, 4);
        assert(all_class(s));
        assert(key_book(ascii_key(s)) == Some(Book::FirstEsdras));
    } else if i == 156 {
        assert(bundled_alias(156) == (seq!['2', ' ', 'E', 's', 'd', 'r', 'a', 's'], Book::SecondEsdras));
        let s = seq!['2', ' ', 'E', 's', 'd', 'r', 'a', 's'];
        reveal_with_fuel(all_class, 9);
        reveal_with_fuel(ascii_key, 9);
        assert(all_class(s));
        assert(key_book(ascii_key(s)) == Some(Book::SecondEsdras));
    } else if i == 157 {
        assert(bundled_alias(157) == (seq!['2', 'e', 's'], Book::SecondEsdras));
        let s = seq!['2', 'e', 's'];
        reveal_with_fuel(all_class, 4);
        reveal_with_fuel(ascii_key, 4);
        assert(all_class(s));
        assert(key_book(ascii_key(s)) == Some(Book::SecondEsdras));
    } else if i == 158 {
        assert(bundled_alias(158) == (seq!['P', 'r', 'a', 'y', 'e', 'r', ' ', 'o', 'f', ' ', 'M', 'a', 'n', 'a', 's', 's', 'e', 'h'], Book::PrayerOfManasseh));
        let s = seq!['P', 'r', 'a', 'y', 'e', 'r', ' ', 'o', 'f', ' ', 'M', 'a', 'n', 'a', 's', 's', 'e', 'h'];
        reveal_with_fuel(all_class, 19);
        reveal_with_fuel(ascii_key, 19);
        assert(all_class(s));
        assert(key_book(ascii_key(s)) == Some(Book::PrayerOfManasseh));
    } else if i == 159 {
        assert(bundled_alias(159) == (seq!['p', 'm', 'n'], Book::PrayerOfManasseh));
        let s = seq!['p', 'm', 'n'];
        reveal_with_fuel(all_class, 4);
        reveal_with_fuel(ascii_key, 4);
        assert(all_class(s));
        assert(key_book(ascii_key(s)) == Some(Book::PrayerOfManasseh));
    }
}

/// Bundled aliases 160 to 164 are written with alias scalars, and
/// their keys name their books.
#[verifier::rlimit(60)]
proof fn lemma_alias_keys_160(i: int)
    requires
        160 <= i < 165,
    ensures
        all_class(bundled_alias(i).0),
        key_book(ascii_key(bundled_alias(i).0)) == Some(bundled_alias(i).1),
{
    if i == 160 {
        assert(bundled_alias(160) == (seq!['P', 's', 'a', 'l', 'm', ' ', '1', '5', '1'], Book::Psalm151));
        let s = seq!['P', 's', 'a', 'l', 'm', ' ', '1', '5', '1'];
        reveal_with_fuel(all_class, 10);
        reveal_with_fuel(ascii_key, 10);
        assert(all_class(s));
        assert(key_book(ascii_key(s)) == Some(Book::Psalm151));
    } else if i == 161 {
        assert(bundled_alias(161) == (seq!['p', 's', '1', '5', '1'], Book::Psalm151));
        let s = seq!['p', 's', '1', '5', '1'];
        reveal_with_fuel(all_class, 6);
        reveal_with_fuel(ascii_key, 6);
        assert(all_class(s));
        assert(key_book(ascii_key(s)) == Some(Book::Psalm151));
    } else if i == 162 {
        assert(bundled_alias(162) == (seq!['3', ' ', 'M', 'a', 'c', 'c', 'a', 'b', 'e', 'e', 's'], Book::ThirdMaccabees));
        let s = seq!['3', ' ', 'M', 'a', 'c', 'c', 'a', 'b', 'e', 'e', 's'];
        reveal_with_fuel(all_class, 12);
        reveal_with_fuel(ascii_key, 12);
        assert(all_class(s));
        assert(key_book(ascii_key(s)) == Some(Book::ThirdMaccabees));
    } else if i == 163 {
        assert(bundled_alias(163) == (seq!['3', 'm', 'c'], Book::ThirdMaccabees));
        let s = seq!['3', 'm', 'c'];
        reveal_with_fuel(all_class, 4);
        reveal_with_fuel(ascii_key, 4);
        assert(all_class(s));
        assert(key_book(ascii_key(s)) == Some(Book::ThirdMaccabees));
    } else if i == 164 {
        assert(bundled_alias(164) == (seq!['4', ' ', 'M', 'a', 'c', 'c', 'a', 'b', 'e', 'e', 's'], Book::FourthMaccabees));
        let s = seq!['4', ' ', 'M', 'a', 'c', 'c', 'a', 'b', 'e', 'e', 's'];
        reveal_with_fuel(all_class, 12);
        reveal_with_fuel(ascii_key, 12);
        assert(all_class(s));
        assert(key_book(ascii_key(s)) == Some(Book::FourthMaccabees));
    }
}

/// Bundled aliases 165 to 165 are written with alias scalars, and
/// their keys name their books.
#[verifier::rlimit(60)]
proof fn lemma_alias_keys_165(i: int)
    requires
        165 <= i < 166,
    ensures
        all_class(bundled_alias(i).0),
        key_book(ascii_key(bundled_alias(i).0)) == Some(bundled_alias(i).1),
{
    if i == 165 {
        assert(bundled_alias(165) == (seq!['4', 'm', 'c'], Book::FourthMaccabees));
        let s = seq!['4', 'm', 'c'];
        reveal_with_fuel(all_class, 4);
        reveal_with_fuel(ascii_key, 4);
        assert(all_class(s));
        assert(key_book(ascii_key(s)) == Some(Book::FourthMaccabees));
    }
}

/// Bundled aliases 166 to 168 are written with alias scalars, and
/// their keys name their books.
#[verifier::rlimit(60)]
proof fn lemma_alias_keys_166(i: int)
    requires
        166 <= i < 169,
    ensures
        all_class(bundled_alias(i).0),
        key_book(ascii_key(bundled_alias(i).0)) == Some(bundled_alias(i).1),
{
    if i == 166 {
        reveal_strlit("Gen");
        assert(bundled_alias(166) == ("Gen"@, Book::Genesis));
        let s = seq!['G', 'e', 'n'];
        reveal_with_fuel(all_class, 4);
        reveal_with_fuel(ascii_key, 4);
        assert(all_class(s));
        assert(key_book(ascii_key(s)) == Some(Book::Genesis));
    } else if i == 167 {
        reveal_strlit("Exod");
        assert(bundled_alias(167) == ("Exod"@, Book::Exodus));
        let s = seq!['E', 'x', 'o', 'd'];
        reveal_with_fuel(all_class, 5);
        reveal_with_fuel(ascii_key, 5);
        assert(all_class(s));
        assert(key_book(ascii_key(s)) == Some(Book::Exodus));
    } else if i == 168 {
        reveal_strlit("Lev");
        assert(bundled_alias(168) == ("Lev"@, Book::Leviticus));
        let s = seq!['L', 'e', 'v'];
        reveal_with_fuel(all_class, 4);
        reveal_with_fuel(ascii_key, 4);
        assert(all_class(s));
        assert(key_book(ascii_key(s)) == Some(Book::Leviticus));
    }
}

/// Bundled aliases 169 to 171 are written with alias scalars, and
/// their keys name their books.
#[verifier::rlimit(60)]
proof fn lemma_alias_keys_169(i: int)
    requires
        169 <= i < 172,
    ensures
        all_class(bundled_alias(i).0),
        key_book(ascii_key(bundled_alias(i).0)) == Some(bundled_alias(i).1),
{
    if i == 169 {
        reveal_strlit("Num");
        assert(bundled_alias(169) == ("Num"@, Book::Numbers));
        let s = seq!['N', 'u', 'm'];
        reveal_with_fuel(all_class, 4);
        reveal_with_fuel(ascii_key, 4);
        assert(all_class(s));
        assert(key_book(ascii_key(s)) == Some(Book::Numbers));
    } else if i == 170 {
        reveal_strlit("Deut");
        assert(bundled_alias(170) == ("Deut"@, Book::Deuteronomy));
        let s = seq!['D', 'e', 'u', 't'];
        reveal_with_fuel(all_class, 5);
        reveal_with_fuel(ascii_key, 5);
        assert(all_class(s));
        assert(key_book(ascii_key(s)) == Some(Book::Deuteronomy));
    } else if i == 171 {
        reveal_strlit("Josh");
        assert(bundled_alias(171) == ("Josh"@, Book::Joshua));
        let s = seq!['J', 'o', 's', 'h'];
        reveal_with_fuel(all_class, 5);
        reveal_with_fuel(ascii_key, 5);
        assert(all_class(s));
        assert(key_book(ascii_key(s)) == Some(Book::Joshua));
    }
}

/// Bundled aliases 172 to 174 are written with alias scalars, and
/// their keys name their books.
#[verifier::rlimit(60)]
proof fn lemma_alias_keys_172(i: int)
    requires
        172 <= i < 175,
    ensures
        all_class(bundled_alias(i).0),
        key_book(ascii_key(bundled_alias(i).0)) == Some(bundled_alias(i).1),
{
    if i == 172 {
        reveal_strlit("Judg");
        assert(bundled_alias(172) == ("Judg"@, Book::Judges));
        let s = seq!['J', 'u', 'd', 'g'];
        reveal_with_fuel(all_class, 5);
        reveal_with_fuel(ascii_key, 5);
        assert(all_class(s));
        assert(key_book(ascii_key(s)) == Some(Book::Judges));
    } else if i == 173 {
        reveal_strlit("1 Sam");
        assert(bundled_alias(173) == ("1 Sam"@, Book::FirstSamuel));
        let s = seq!['1', ' ', 'S', 'a', 'm'];
        reveal_with_fuel(all_class, 6);
        reveal_with_fuel(ascii_key, 6);
        assert(all_class(s));
        assert(key_book(ascii_key(s)) == Some(Book::FirstSamuel));
    } else if i == 174 {
        reveal_strlit("2 Sam");
        assert(bundled_alias(174) == ("2 Sam"@, Book::SecondSamuel));
        let s = seq!['2', ' ', 'S', 'a', 'm'];
        reveal_with_fuel(all_class, 6);
        reveal_with_fuel(ascii_key, 6);
        assert(all_class(s));
        assert(key_book(ascii_key(s)) == Some(Book::SecondSamuel));
    }
}

/// Bundled aliases 175 to 177 are written with alias scalars, and
/// their keys name their books.
#[verifier::rlimit(60)]
proof fn lemma_alias_keys_175(i: int)
    requires
        175 <= i < 178,
    ensures
        all_class(bundled_alias(i).0),
        key_book(ascii_key(bundled_alias(i).0)) == Some(bundled_alias(i).1),
{
    if i == 175 {
        reveal_strlit("1 Kings");
        assert(bundled_alias(175) == ("1 Kings"@, Book::FirstKings));
        let s = seq!['1', ' ', 'K', 'i', 'n', 'g', 's'];
        reveal_with_fuel(all_class, 8);
        reveal_with_fuel(ascii_key, 8);
        assert(all_class(s));
        assert(key_book(ascii_key(s)) == Some(Book::FirstKings));
    } else if i == 176 {
        reveal_strlit("2 Kings");
        assert(bundled_alias(176) == ("2 Kings"@, Book::SecondKings));
        let s = seq!['2', ' ', 'K', 'i', 'n', 'g', 's'];
        reveal_with_fuel(all_class, 8);
        reveal_with_fuel(ascii_key, 8);
        assert(all_class(s));
        assert(key_book(ascii_key(s)) == Some(Book::SecondKings));
    } else if i == 177 {
        reveal_strlit("1 Chr");
        assert(bundled_alias(177) == ("1 Chr"@, Book::FirstChronicles));
        let s = seq!['1', ' ', 'C', 'h', 'r'];
        reveal_with_fuel(all_class, 6);
        reveal_with_fuel(ascii_key, 6);
        assert(all_class(s));
        assert(key_book(ascii_key(s)) == Some(Book::FirstChronicles));
    }
}

/// Bundled aliases 178 to 180 are written with alias scalars, and
/// their keys name their books.
#[verifier::rlimit(60)]
proof fn lemma_alias_keys_178(i: int)
    requires
        178 <= i < 181,
    ensures
        all_class(bundled_alias(i).0),
        key_book(ascii_key(bundled_alias(i).0)) == Some(bundled_alias(i).1),
{
    if i == 178 {
        reveal_strlit("2 Chr");
        assert(bundled_alias(178) == ("2 Chr"@, Book::SecondChronicles));
        let s = seq!['2', ' ', 'C', 'h', 'r'];
        reveal_with_fuel(all_class, 6);
        reveal_with_fuel(ascii_key, 6);
        assert(all_class(s));
        assert(key_book(ascii_key(s)) == Some(Book::SecondChronicles));
    } else if i == 179 {
        reveal_strlit("Neh");
        assert(bundled_alias(179) == ("Neh"@, Book::Nehemiah));
        let s = seq!['N', 'e', 'h'];
        reveal_with_fuel(all_class, 4);
        reveal_with_fuel(ascii_key, 4);
        assert(all_class(s));
        assert(key_book(ascii_key(s)) == Some(Book::Nehemiah));
    } else if i == 180 {
        reveal_strlit("Est");
        assert(bundled_alias(180) == ("Est"@, Book::Esther));
        let s = seq!['E', 's', 't'];
        reveal_with_fuel(all_class, 4);
        reveal_with_fuel(ascii_key, 4);
        assert(all_class(s));
        assert(key_book(ascii_key(s)) == Some(Book::Esther));
    }
}

/// Bundled aliases 181 to 183 are written with alias scalars, and
/// their keys name their books.
#[verifier::rlimit(60)]
proof fn lemma_alias_keys_181(i: int)
    requires
        181 <= i < 184,
    ensures
        all_class(bundled_alias(i).0),
        key_book(ascii_key(bundled_alias(i).0)) == Some(bundled_alias(i).1),
{
    if i == 181 {
        reveal_strlit("Prov");
        assert(bundled_alias(181) == ("Prov"@, Book::Proverbs));
        let s = seq!['P', 'r', 'o', 'v'];
        reveal_with_fuel(all_class, 5);
        reveal_with_fuel(ascii_key, 5);
        assert(all_class(s));
        assert(key_book(ascii_key(s)) == Some(Book::Proverbs));
    } else if i == 182 {
        reveal_strlit("Eccl");
        assert(bundled_alias(182) == ("Eccl"@, Book::Ecclesiastes));
        let s = seq!['E', 'c', 'c', 'l'];
        reveal_with_fuel(all_class, 5);
        reveal_with_fuel(ascii_key, 5);
        assert(all_class(s));
        assert(key_book(ascii_key(s)) == Some(Book::Ecclesiastes));
    } else if i == 183 {
        reveal_strlit("Song");
        assert(bundled_alias(183) == ("Song"@, Book::SongOfSolomon));
        let s = seq!['S', 'o', 'n', 'g'];
        reveal_with_fuel(all_class, 5);
        reveal_with_fuel(ascii_key, 5);
        assert(all_class(s));
        assert(key_book(ascii_key(s)) == Some(Book::SongOfSolomon));
    }
}

/// Bundled aliases 184 to 186 are written with alias scalars, and
/// their keys name their books.
#[verifier::rlimit(60)]
proof fn lemma_alias_keys_184(i: int)
    requires
        184 <= i < 187,
    ensures
        all_class(bundled_alias(i).0),
        key_book(ascii_key(bundled_alias(i).0)) == Some(bundled_alias(i).1),
{
    if i == 184 {
        reveal_strlit("Isa");
        assert(bundled_alias(184) == ("Isa"@, Book::Isaiah));
        let s = seq!['I', 's', 'a'];
        reveal_with_fuel(all_class, 4);
        reveal_with_fuel(ascii_key, 4);
        assert(all_class(s));
        assert(key_book(ascii_key(s)) == Some(Book::Isaiah));
    } else if i == 185 {
        reveal_strlit("Jer");
        assert(bundled_alias(185) == ("Jer"@, Book::Jeremiah));
        let s = seq!['J', 'e', 'r'];
        reveal_with_fuel(all_class, 4);
        reveal_with_fuel(ascii_key, 4);
        assert(all_class(s));
        assert(key_book(ascii_key(s)) == Some(Book::Jeremiah));
    } else if i == 186 {
        reveal_strlit("Lam");
        assert(bundled_alias(186) == ("Lam"@, Book::Lamentations));
        let s = seq!['L', 'a', 'm'];
        reveal_with_fuel(all_class, 4);
        reveal_with_fuel(ascii_key, 4);
        assert(all_class(s));
        assert(key_book(ascii_key(s)) == Some(Book::Lamentations));
    }
}

/// Bundled aliases 187 to 189 are written with alias scalars, and
/// their keys name their books.
#[verifier::rlimit(60)]
proof fn lemma_alias_keys_187(i: int)
    requires
        187 <= i < 190,
    ensures
        all_class(bundled_alias(i).0),
        key_book(ascii_key(bundled_alias(i).0)) == Some(bundled_alias(i).1),
{
    if i == 187 {
        reveal_strlit("Ezek");
        assert(bundled_alias(187) == ("Ezek"@, Book::Ezekiel));
        let s = seq!['E', 'z', 'e', 'k'];
        reveal_with_fuel(all_class, 5);
        reveal_with_fuel(ascii_key, 5);
        assert(all_class(s));
        assert(key_book(ascii_key(s)) == Some(Book::Ezekiel));
    } else if i == 188 {
        reveal_strlit("Dan");
        assert(bundled_alias(188) == ("Dan"@, Book::Daniel));
        let s = seq!['D', 'a', 'n'];
        reveal_with_fuel(all_class, 4);
        reveal_with_fuel(ascii_key, 4);
        assert(all_class(s));
        assert(key_book(ascii_key(s)) == Some(Book::Daniel));
    } else if i == 189 {
        reveal_strlit("Hos");
        assert(bundled_alias(189) == ("Hos"@, Book::Hosea));
        let s = seq!['H', 'o', 's'];
        reveal_with_fuel(all_class, 4);
        reveal_with_fuel(ascii_key, 4);
        assert(all_class(s));
        assert(key_book(ascii_key(s)) == Some(Book::Hosea));
    }
}

/// Bundled aliases 190 to 192 are written with alias scalars, and
/// their keys name their books.
#[verifier::rlimit(60)]
proof fn lemma_alias_keys_190(i: int)
    requires
        190 <= i < 193,
    ensures
        all_class(bundled_alias(i).0),
        key_book(ascii_key(bundled_alias(i).0)) == Some(bundled_alias(i).1),
{
    if i == 190 {
        reveal_strlit("Obad");
        assert(bundled_alias(190) == ("Obad"@, Book::Obadiah));
        let s = seq!['O', 'b', 'a', 'd'];
        reveal_with_fuel(all_class, 5);
        reveal_with_fuel(ascii_key, 5);
        assert(all_class(s));
        assert(key_book(ascii_key(s)) == Some(Book::Obadiah));
    } else if i == 191 {
        reveal_strlit("Mic");
        assert(bundled_alias(191) == ("Mic"@, Book::Micah));
        let s = seq!['M', 'i', 'c'];
        reveal_with_fuel(all_class, 4);
        reveal_with_fuel(ascii_key, 4);
        assert(all_class(s));
        assert(key_book(ascii_key(s)) == Some(Book::Micah));
    } else if i == 192 {
        reveal_strlit("Nah");
        assert(bundled_alias(192) == ("Nah"@, Book::Nahum));
        let s = seq!['N', 'a', 'h'];
        reveal_with_fuel(all_class, 4);
        reveal_with_fuel(ascii_key, 4);
        assert(all_class(s));
        assert(key_book(ascii_key(s)) == Some(Book::Nahum));
    }
}

/// Bundled aliases 193 to 195 are written with alias scalars, and
/// their keys name their books.
#[verifier::rlimit(60)]
proof fn lemma_alias_keys_193(i: int)
    requires
        193 <= i < 196,
    ensures
        all_class(bundled_alias(i).0),
        key_book(ascii_key(bundled_alias(i).0)) == Some(bundled_alias(i).1),
{
    if i == 193 {
        reveal_strlit("Hab");
        assert(bundled_alias(193) == ("Hab"@, Book::Habakkuk));
        let s = seq!['H', 'a', 'b'];
        reveal_with_fuel(all_class, 4);
        reveal_with_fuel(ascii_key, 4);
        assert(all_class(s));
        assert(key_book(ascii_key(s)) == Some(Book::Habakkuk));
    } else if i == 194 {
        reveal_strlit("Zeph");
        assert(bundled_alias(194) == ("Zeph"@, Book::Zephaniah));
        let s = seq!['Z', 'e', 'p', 'h'];
        reveal_with_fuel(all_class, 5);
        reveal_with_fuel(ascii_key, 5);
        assert(all_class(s));
        assert(key_book(ascii_key(s)) == Some(Book::Zephaniah));
    } else if i == 195 {
        reveal_strlit("Zech");
        assert(bundled_alias(195) == ("Zech"@, Book::Zechariah));
        let s = seq!['Z', 'e', 'c', 'h'];
        reveal_with_fuel(all_class, 5);
        reveal_with_fuel(ascii_key, 5);
        assert(all_class(s));
        assert(key_book(ascii_key(s)) == Some(Book::Zechariah));
    }
}

/// Bundled aliases 196 to 198 are written with alias scalars, and
/// their keys name their books.
#[verifier::rlimit(60)]
proof fn lemma_alias_keys_196(i: int)
    requires
        196 <= i < 199,
    ensures
        all_class(bundled_alias(i).0),
        key_book(ascii_key(bundled_alias(i).0)) == Some(bundled_alias(i).1),
{
    if i == 196 {
        reveal_strlit("Matt");
        assert(bundled_alias(196) == ("Matt"@, Book::Matthew));
        let s = seq!['M', 'a', 't', 't'];
        reveal_with_fuel(all_class, 5);
        reveal_with_fuel(ascii_key, 5);
        assert(all_class(s));
        assert(key_book(ascii_key(s)) == Some(Book::Matthew));
    } else if i == 197 {
        reveal_strlit("Mar");
        assert(bundled_alias(197) == ("Mar"@, Book::Mark));
        let s = seq!['M', 'a', 'r'];
        reveal_with_fuel(all_class, 4);
        reveal_with_fuel(ascii_key, 4);
        assert(all_class(s));
        assert(key_book(ascii_key(s)) == Some(Book::Mark));
    } else if i == 198 {
        reveal_strlit("Luk");
        assert(bundled_alias(198) == ("Luk"@, Book::Luke));
        let s = seq!['L', 'u', 'k'];
        reveal_with_fuel(all_class, 4);
        reveal_with_fuel(ascii_key, 4);
        assert(all_class(s));
        assert(key_book(ascii_key(s)) == Some(Book::Luke));
    }
}

/// Bundled aliases 199 to 201 are written with alias scalars, and
/// their keys name their books.
#[verifier::rlimit(60)]
proof fn lemma_alias_keys_199(i: int)
    requires
        199 <= i < 202,
    ensures
        all_class(bundled_alias(i).0),
        key_book(ascii_key(bundled_alias(i).0)) == Some(bundled_alias(i).1),
{
    if i == 199 {
        reveal_strlit("Joh");
        assert(bundled_alias(199) == ("Joh"@, Book::John));
        let s = seq!['J', 'o', 'h'];
        reveal_with_fuel(all_class, 4);
        reveal_with_fuel(ascii_key, 4);
        assert(all_class(s));
        assert(key_book(ascii_key(s)) == Some(Book::John));
    } else if i == 200 {
        reveal_strlit("Rom");
        assert(bundled_alias(200) == ("Rom"@, Book::Romans));
        let s = seq!['R', 'o', 'm'];
        reveal_with_fuel(all_class, 4);
        reveal_with_fuel(ascii_key, 4);
        assert(all_class(s));
        assert(key_book(ascii_key(s)) == Some(Book::Romans));
    } else if i == 201 {
        reveal_strlit("1 Cor");
        assert(bundled_alias(201) == ("1 Cor"@, Book::FirstCorinthians));
        let s = seq!['1', ' ', 'C', 'o', 'r'];
        reveal_with_fuel(all_class, 6);
        reveal_with_fuel(ascii_key, 6);
        assert(all_class(s));
        assert(key_book(ascii_key(s)) == Some(Book::FirstCorinthians));
    }
}

/// Bundled aliases 202 to 204 are written with alias scalars, and
/// their keys name their books.
#[verifier::rlimit(60)]
proof fn lemma_alias_keys_202(i: int)
    requires
        202 <= i < 205,
    ensures
        all_class(bundled_alias(i).0),
        key_book(ascii_key(bundled_alias(i).0)) == Some(bundled_alias(i).1),
{
    if i == 202 {
        reveal_strlit("2 Cor");
        assert(bundled_alias(202) == ("2 Cor"@, Book::SecondCorinthians));
        let s = seq!['2', ' ', 'C', 'o', 'r'];
        reveal_with_fuel(all_class, 6);
        reveal_with_fuel(ascii_key, 6);
        assert(all_class(s));
        assert(key_book(ascii_key(s)) == Some(Book::SecondCorinthians));
    } else if i == 203 {
        reveal_strlit("Gal");
        assert(bundled_alias(203) == ("Gal"@, Book::Galatians));
        let s = seq!['G', 'a', 'l'];
        reveal_with_fuel(all_class, 4);
        reveal_with_fuel(ascii_key, 4);
        assert(all_class(s));
        assert(key_book(ascii_key(s)) == Some(Book::Galatians));
    } else if i == 204 {
        reveal_strlit("Phil");
        assert(bundled_alias(204) == ("Phil"@, Book::Philippians));
        let s = seq!['P', 'h', 'i', 'l'];
        reveal_with_fuel(all_class, 5);
        reveal_with_fuel(ascii_key, 5);
        assert(all_class(s));
        assert(key_book(ascii_key(s)) == Some(Book::Philippians));
    }
}

/// Bundled aliases 205 to 207 are written with alias scalars, and
/// their keys name their books.
#[verifier::rlimit(60)]
proof fn lemma_alias_keys_205(i: int)
    requires
        205 <= i < 208,
    ensures
        all_class(bundled_alias(i).0),
        key_book(ascii_key(bundled_alias(i).0)) == Some(bundled_alias(i).1),
{
    if i == 205 {
        reveal_strlit("Col");
        assert(bundled_alias(205) == ("Col"@, Book::Colossians));
        let s = seq!['C', 'o', 'l'];
        reveal_with_fuel(all_class, 4);
        reveal_with_fuel(ascii_key, 4);
        assert(all_class(s));
        assert(key_book(ascii_key(s)) == Some(Book::Colossians));
    } else if i == 206 {
        reveal_strlit("1 Thess");
        assert(bundled_alias(206) == ("1 Thess"@, Book::FirstThessalonians));
        let s = seq!['1', ' ', 'T', 'h', 'e', 's', 's'];
        reveal_with_fuel(all_class, 8);
        reveal_with_fuel(ascii_key, 8);
        assert(all_class(s));
        assert(key_book(ascii_key(s)) == Some(Book::FirstThessalonians));
    } else if i == 207 {
        reveal_strlit("2 Thess");
        assert(bundled_alias(207) == ("2 Thess"@, Book::SecondThessalonians));
        let s = seq!['2', ' ', 'T', 'h', 'e', 's', 's'];
        reveal_with_fuel(all_class, 8);
        reveal_with_fuel(ascii_key, 8);
        assert(all_class(s));
        assert(key_book(ascii_key(s)) == Some(Book::SecondThessalonians));
    }
}

/// Bundled aliases 208 to 210 are written with alias scalars, and
/// their keys name their books.
#[verifier::rlimit(60)]
proof fn lemma_alias_keys_208(i: int)
    requires
        208 <= i < 211,
    ensures
        all_class(bundled_alias(i).0),
        key_book(ascii_key(bundled_alias(i).0)) == Some(bundled_alias(i).1),
{
    if i == 208 {
        reveal_strlit("1 Tim");
        assert(bundled_alias(208) == ("1 Tim"@, Book::FirstTimothy));
        let s = seq!['1', ' ', 'T', 'i', 'm'];
        reveal_with_fuel(all_class, 6);
        reveal_with_fuel(ascii_key, 6);
        assert(all_class(s));
        assert(key_book(ascii_key(s)) == Some(Book::FirstTimothy));
    } else if i == 209 {
        reveal_strlit("2 Tim");
        assert(bundled_alias(209) == ("2 Tim"@, Book::SecondTimothy));
        let s = seq!['2', ' ', 'T', 'i', 'm'];
        reveal_with_fuel(all_class, 6);
        reveal_with_fuel(ascii_key, 6);
        assert(all_class(s));
        assert(key_book(ascii_key(s)) == Some(Book::SecondTimothy));
    } else if i == 210 {
        reveal_strlit("Phlm");
        assert(bundled_alias(210) == ("Phlm"@, Book::Philemon));
        let s = seq!['P', 'h', 'l', 'm'];
        reveal_with_fuel(all_class, 5);
        reveal_with_fuel(ascii_key, 5);
        assert(all_class(s));
        assert(key_book(ascii_key(s)) == Some(Book::Philemon));
    }
}

/// Bundled aliases 211 to 213 are written with alias scalars, and
/// their keys name their books.
#[verifier::rlimit(60)]
proof fn lemma_alias_keys_211(i: int)
    requires
        211 <= i < 214,
    ensures
        all_class(bundled_alias(i).0),
        key_book(ascii_key(bundled_alias(i).0)) == Some(bundled_alias(i).1),
{
    if i == 211 {
        reveal_strlit("Heb");
        assert(bundled_alias(211) == ("Heb"@, Book::Hebrews));
        let s = seq!['H', 'e', 'b'];
        reveal_with_fuel(all_class, 4);
        reveal_with_fuel(ascii_key, 4);
        assert(all_class(s));
        assert(key_book(ascii_key(s)) == Some(Book::Hebrews));
    } else if i == 212 {
        reveal_strlit("Jas");
        assert(bundled_alias(212) == ("Jas"@, Book::James));
        let s = seq!['J', 'a', 's'];
        reveal_with_fuel(all_class, 4);
        reveal_with_fuel(ascii_key, 4);
        assert(all_class(s));
        assert(key_book(ascii_key(s)) == Some(Book::James));
    } else if i == 213 {
        reveal_strlit("1 Pet");
        assert(bundled_alias(213) == ("1 Pet"@, Book::FirstPeter));
        let s = seq!['1', ' ', 'P', 'e', 't'];
        reveal_with_fuel(all_class, 6);
        reveal_with_fuel(ascii_key, 6);
        assert(all_class(s));
        assert(key_book(ascii_key(s)) == Some(Book::FirstPeter));
    }
}

/// Bundled aliases 214 to 216 are written with alias scalars, and
/// their keys name their books.
#[verifier::rlimit(60)]
proof fn lemma_alias_keys_214(i: int)
    requires
        214 <= i < 217,
    ensures
        all_class(bundled_alias(i).0),
        key_book(ascii_key(bundled_alias(i).0)) == Some(bundled_alias(i).1),
{
    if i == 214 {
        reveal_strlit("2 Pet");
        assert(bundled_alias(214) == ("2 Pet"@, Book::SecondPeter));
        let s = seq!['2', ' ', 'P', 'e', 't'];
        reveal_with_fuel(all_class, 6);
        reveal_with_fuel(ascii_key, 6);
        assert(all_class(s));
        assert(key_book(ascii_key(s)) == Some(Book::SecondPeter));
    } else if i == 215 {
        reveal_strlit("1 John");
        assert(bundled_alias(215) == ("1 John"@, Book::FirstJohn));
        let s = seq!['1', ' ', 'J', 'o', 'h', 'n'];
        reveal_with_fuel(all_class, 7);
        reveal_with_fuel(ascii_key, 7);
        assert(all_class(s));
        assert(key_book(ascii_key(s)) == Some(Book::FirstJohn));
    } else if i == 216 {
        reveal_strlit("2 John");
        assert(bundled_alias(216) == ("2 John"@, Book::SecondJohn));
        let s = seq!['2', ' ', 'J', 'o', 'h', 'n'];
        reveal_with_fuel(all_class, 7);
        reveal_with_fuel(ascii_key, 7);
        assert(all_class(s));
        assert(key_book(ascii_key(s)) == Some(Book::SecondJohn));
    }
}

/// Bundled aliases 217 to 218 are written with alias scalars, and
/// their keys name their books.
#[verifier::rlimit(60)]
proof fn lemma_alias_keys_217(i: int)
    requires
        217 <= i < 219,
    ensures
        all_class(bundled_alias(i).0),
        key_book(ascii_key(bundled_alias(i).0)) == Some(bundled_alias(i).1),
{
    if i == 217 {
        reveal_strlit("3 John");
        assert(bundled_alias(217) == ("3 John"@, Book::ThirdJohn));
        let s = seq!['3', ' ', 'J', 'o', 'h', 'n'];
        reveal_with_fuel(all_class, 7);
        reveal_with_fuel(ascii_key, 7);
        assert(all_class(s));
        assert(key_book(ascii_key(s)) == Some(Book::ThirdJohn));
    } else if i == 218 {
        reveal_strlit("Rev");
        assert(bundled_alias(218) == ("Rev"@, Book::Revelation));
        let s = seq!['R', 'e', 'v'];
        reveal_with_fuel(all_class, 4);
        reveal_with_fuel(ascii_key, 4);
        assert(all_class(s));
        assert(key_book(ascii_key(s)) == Some(Book::Revelation));
    }
}

/// Every bundled alias is written with alias scalars, and its key names its
/// book.
pub proof fn lemma_bundled_key_book(i: int)
    requires
        0 <= i < BUNDLED_COUNT,
    ensures
        all_class(bundled_alias(i).0),
        key_book(ascii_key(bundled_alias(i).0)) == Some(bundled_alias(i).1),
{
    if i < 10 {
        lemma_alias_keys_0(i);
    } else if i < 20 {
        lemma_alias_keys_10(i);
    } else if i < 30 {
        lemma_alias_keys_20(i);
    } else if i < 40 {
        lemma_alias_keys_30(i);
    } else if i < 50 {
        lemma_alias_keys_40(i);
    } else if i < 60 {
        lemma_alias_keys_50(i);
    } else if i < 70 {
        lemma_alias_keys_60(i);
    } else if i < 80 {
        lemma_alias_keys_70(i);
    } else if i < 90 {
        lemma_alias_keys_80(i);
    } else if i < 100 {
        lemma_alias_keys_90(i);
    } else if i < 110 {
        lemma_alias_keys_100(i);
    } else if i < 120 {
        lemma_alias_keys_110(i);
    } else if i < 130 {
        lemma_alias_keys_120(i);
    } else if i < 140 {
        lemma_alias_keys_130(i);
    } else if i < 145 {
        lemma_alias_keys_140(i);
    } else if i < 150 {
        lemma_alias_keys_145(i);
    } else if i < 155 {
        lemma_alias_keys_150(i);
    } else if i < 160 {
        lemma_alias_keys_155(i);
    } else if i < 165 {
        lemma_alias_keys_160(i);
    } else if i < 166 {
        lemma_alias_keys_165(i);
    } else if i < 169 {
        lemma_alias_keys_166(i);
    } else if i < 172 {
        lemma_alias_keys_169(i);
    } else if i < 175 {
        lemma_alias_keys_172(i);
    } else if i < 178 {
        lemma_alias_keys_175(i);
    } else if i < 181 {
        lemma_alias_keys_178(i);
    } else if i < 184 {
        lemma_alias_keys_181(i);
    } else if i < 187 {
        lemma_alias_keys_184(i);
    } else if i < 190 {
        lemma_alias_keys_187(i);
    } else if i < 193 {
        lemma_alias_keys_190(i);
    } else if i < 196 {
        lemma_alias_keys_193(i);
    } else if i < 199 {
        lemma_alias_keys_196(i);
    } else if i < 202 {
        lemma_alias_keys_199(i);
    } else if i < 205 {
        lemma_alias_keys_202(i);
    } else if i < 208 {
        lemma_alias_keys_205(i);
    } else if i < 211 {
        lemma_alias_keys_208(i);
    } else if i < 214 {
        lemma_alias_keys_211(i);
    } else if i < 217 {
        lemma_alias_keys_214(i);
    } else if i < 219 {
        lemma_alias_keys_217(i);
    }
}

/// An alias scalar contributes its lowercase form to a lookup key, and a
/// space contributes nothing.
proof fn lemma_alias_piece(c: char)
    requires
        alias_scalar(c),
    ensures
        key_piece(c) == (if c == ' ' {
            Seq::<char>::empty()
        } else {
            seq![lower(c)]
        }),
{
    assert(!is_removed(c));
    assert(norm_char(c) == c);
    let l = lowercase(c);
    assert(l == seq![lower(c)]);
    assert(l.drop_last() =~= Seq::<char>::empty());
    assert(key_chars(l.drop_last()) == Seq::<char>::empty());
    if c != ' ' {
        assert(!white_space(lower(c)));
    }
}

/// For text of alias scalars, the lookup key is its lowercase form without
/// spaces.
pub proof fn lemma_term_key_ascii(s: Seq<char>)
    requires
        all_class(s),
    ensures
        term_key(s) == ascii_key(s),
    decreases s.len(),
{
    if s.len() > 0 {
        lemma_term_key_ascii(s.drop_last());
        lemma_alias_piece(s.last());
    }
}

/// Bundled alias `2 i` is the full name of the `i`-th book.
pub proof fn lemma_full_name_alias(b: Book)
    ensures
        0 <= 2 * book_index(b) < BUNDLED_COUNT,
        bundled_alias(2 * book_index(b)) == (spec_full_name(b), b),
{
    lemma_book_index(b);
    let j = 2 * book_index(b);
    assert(j / 2 == book_index(b));
    assert(j % 2 == 0);
}

/// The only bundled aliases whose key is the key of a book's full name are
/// aliases of that book.
pub proof fn lemma_full_name_key_unique(b: Book, i: int)
    requires
        0 <= i < BUNDLED_COUNT,
        term_key(bundled_alias(i).0) == term_key(spec_full_name(b)),
    ensures
        bundled_alias(i).1 == b,
{
    lemma_full_name_alias(b);
    let j = 2 * book_index(b);
    lemma_bundled_key_book(i);
    lemma_bundled_key_book(j);
    lemma_term_key_ascii(bundled_alias(i).0);
    lemma_term_key_ascii(bundled_alias(j).0);
}

} // verus!
