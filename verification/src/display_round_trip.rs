//! Reading a reference back from its display text.
use vstd::prelude::*;

use crate::book::{book_index, spec_full_name, Book};
use crate::bundled::{bundled_alias, BUNDLED_COUNT};
use crate::language::Language;
use crate::parser::{
    add_languages, alias_languages, auto_languages, auto_precedence, bundled_candidates,
    bundled_candidates_upto, bundled_over, custom_candidates, custom_over, default_parser,
    collected_candidates, final_candidates, language_priority, lemma_dedup_candidates,
    lemma_resolve_selects_least, lemma_sort_candidates, neutral_candidates, sort_candidates,
    spec_full_endpoint, spec_parse, spec_parse_range, spec_parse_verse, spec_range_end, spec_resolve, supported_languages, term_key, value_of,
    CandidateModel,
};
use crate::bundled_keys::{
    alias_scalar, all_class, key_book, lemma_bundled_key_book, lemma_full_name_alias,
    lemma_full_name_key_unique, lemma_term_key_ascii,
};
use crate::error::ErrorModel;
use crate::grammar::{
    last_separator, range_separator, range_separator_from, spec_split_coordinate,
    spec_split_trailing_number, trailing_digits,
};
use crate::identifiers::{valid_reference, valid_verse};
use crate::normalize::{lemma_collapse_collapsed, lemma_normalize_ascii, parsing_form};
use crate::reference::{
    lemma_range_eq, lemma_range_of, lemma_verse_eq, range_of, range_text, reference_text, verse_before,
    verse_text,
    Reference, VerseRange, VerseRef,
};
use crate::normalize::is_collapsed;
use crate::text::{
    all_digits, decimal, is_digit, lemma_decimal, leading_ws, trailing_ws, trim, trim_end, white_space,
};

verus! {

/// No two spaces stand next to each other.
pub open spec fn spaced_ok(s: Seq<char>) -> bool
    decreases s.len(),
{
    s.len() <= 1 || (!(s.last() == ' ' && s[s.len() - 2] == ' ') && spaced_ok(s.drop_last()))
}

/// Every full book name is non-empty, starts and ends with a non-space, and
/// holds single spaces only.
#[verifier::rlimit(100)]
pub proof fn lemma_full_name_spaced(b: Book)
    ensures
        spec_full_name(b).len() > 0,
        spec_full_name(b)[0] != ' ',
        spec_full_name(b).last() != ' ',
        spaced_ok(spec_full_name(b)),
{
    match b {
        Book::Genesis => {
            reveal_with_fuel(spaced_ok, 8);
        },
        Book::Exodus => {
            reveal_with_fuel(spaced_ok, 7);
        },
        Book::Leviticus => {
            reveal_with_fuel(spaced_ok, 10);
        },
        Book::Numbers => {
            reveal_with_fuel(spaced_ok, 8);
        },
        Book::Deuteronomy => {
            reveal_with_fuel(spaced_ok, 12);
        },
        Book::Joshua => {
            reveal_with_fuel(spaced_ok, 7);
        },
        Book::Judges => {
            reveal_with_fuel(spaced_ok, 7);
        },
        Book::Ruth => {
            reveal_with_fuel(spaced_ok, 5);
        },
        Book::FirstSamuel => {
            reveal_with_fuel(spaced_ok, 9);
        },
        Book::SecondSamuel => {
            reveal_with_fuel(spaced_ok, 9);
        },
        Book::FirstKings => {
            reveal_with_fuel(spaced_ok, 8);
        },
        Book::SecondKings => {
            reveal_with_fuel(spaced_ok, 8);
        },
        Book::FirstChronicles => {
            reveal_with_fuel(spaced_ok, 13);
        },
        Book::SecondChronicles => {
            reveal_with_fuel(spaced_ok, 13);
        },
        Book::Ezra => {
            reveal_with_fuel(spaced_ok, 5);
        },
        Book::Nehemiah => {
            reveal_with_fuel(spaced_ok, 9);
        },
        Book::Esther => {
            reveal_with_fuel(spaced_ok, 7);
        },
        Book::Job => {
            reveal_with_fuel(spaced_ok, 4);
        },
        Book::Psalms => {
            reveal_with_fuel(spaced_ok, 7);
        },
        Book::Proverbs => {
            reveal_with_fuel(spaced_ok, 9);
        },
        Book::Ecclesiastes => {
            reveal_with_fuel(spaced_ok, 13);
        },
        Book::SongOfSolomon => {
            reveal_with_fuel(spaced_ok, 16);
        },
        Book::Isaiah => {
            reveal_with_fuel(spaced_ok, 7);
        },
        Book::Jeremiah => {
            reveal_with_fuel(spaced_ok, 9);
        },
        Book::Lamentations => {
            reveal_with_fuel(spaced_ok, 13);
        },
        Book::Ezekiel => {
            reveal_with_fuel(spaced_ok, 8);
        },
        Book::Daniel => {
            reveal_with_fuel(spaced_ok, 7);
        },
        Book::Hosea => {
            reveal_with_fuel(spaced_ok, 6);
        },
        Book::Joel => {
            reveal_with_fuel(spaced_ok, 5);
        },
        Book::Amos => {
            reveal_with_fuel(spaced_ok, 5);
        },
        Book::Obadiah => {
            reveal_with_fuel(spaced_ok, 8);
        },
        Book::Jonah => {
            reveal_with_fuel(spaced_ok, 6);
        },
        Book::Micah => {
            reveal_with_fuel(spaced_ok, 6);
        },
        Book::Nahum => {
            reveal_with_fuel(spaced_ok, 6);
        },
        Book::Habakkuk => {
            reveal_with_fuel(spaced_ok, 9);
        },
        Book::Zephaniah => {
            reveal_with_fuel(spaced_ok, 10);
        },
        Book::Haggai => {
            reveal_with_fuel(spaced_ok, 7);
        },
        Book::Zechariah => {
            reveal_with_fuel(spaced_ok, 10);
        },
        Book::Malachi => {
            reveal_with_fuel(spaced_ok, 8);
        },
        Book::Matthew => {
            reveal_with_fuel(spaced_ok, 8);
        },
        Book::Mark => {
            reveal_with_fuel(spaced_ok, 5);
        },
        Book::Luke => {
            reveal_with_fuel(spaced_ok, 5);
        },
        Book::John => {
            reveal_with_fuel(spaced_ok, 5);
        },
        Book::Acts => {
            reveal_with_fuel(spaced_ok, 5);
        },
        Book::Romans => {
            reveal_with_fuel(spaced_ok, 7);
        },
        Book::FirstCorinthians => {
            reveal_with_fuel(spaced_ok, 14);
        },
        Book::SecondCorinthians => {
            reveal_with_fuel(spaced_ok, 14);
        },
        Book::Galatians => {
            reveal_with_fuel(spaced_ok, 10);
        },
        Book::Ephesians => {
            reveal_with_fuel(spaced_ok, 10);
        },
        Book::Philippians => {
            reveal_with_fuel(spaced_ok, 12);
        },
        Book::Colossians => {
            reveal_with_fuel(spaced_ok, 11);
        },
        Book::FirstThessalonians => {
            reveal_with_fuel(spaced_ok, 16);
        },
        Book::SecondThessalonians => {
            reveal_with_fuel(spaced_ok, 16);
        },
        Book::FirstTimothy => {
            reveal_with_fuel(spaced_ok, 10);
        },
        Book::SecondTimothy => {
            reveal_with_fuel(spaced_ok, 10);
        },
        Book::Titus => {
            reveal_with_fuel(spaced_ok, 6);
        },
        Book::Philemon => {
            reveal_with_fuel(spaced_ok, 9);
        },
        Book::Hebrews => {
            reveal_with_fuel(spaced_ok, 8);
        },
        Book::James => {
            reveal_with_fuel(spaced_ok, 6);
        },
        Book::FirstPeter => {
            reveal_with_fuel(spaced_ok, 8);
        },
        Book::SecondPeter => {
            reveal_with_fuel(spaced_ok, 8);
        },
        Book::FirstJohn => {
            reveal_with_fuel(spaced_ok, 7);
        },
        Book::SecondJohn => {
            reveal_with_fuel(spaced_ok, 7);
        },
        Book::ThirdJohn => {
            reveal_with_fuel(spaced_ok, 7);
        },
        Book::Jude => {
            reveal_with_fuel(spaced_ok, 5);
        },
        Book::Revelation => {
            reveal_with_fuel(spaced_ok, 11);
        },
        Book::Tobit => {
            reveal_with_fuel(spaced_ok, 6);
        },
        Book::Judith => {
            reveal_with_fuel(spaced_ok, 7);
        },
        Book::Wisdom => {
            reveal_with_fuel(spaced_ok, 7);
        },
        Book::Sirach => {
            reveal_with_fuel(spaced_ok, 7);
        },
        Book::Baruch => {
            reveal_with_fuel(spaced_ok, 7);
        },
        Book::FirstMaccabees => {
            reveal_with_fuel(spaced_ok, 12);
        },
        Book::SecondMaccabees => {
            reveal_with_fuel(spaced_ok, 12);
        },
        Book::EstherAdditions => {
            reveal_with_fuel(spaced_ok, 15);
        },
        Book::DanielSongOfThree => {
            reveal_with_fuel(spaced_ok, 23);
        },
        Book::DanielSusanna => {
            reveal_with_fuel(spaced_ok, 17);
        },
        Book::DanielBelAndTheDragon => {
            reveal_with_fuel(spaced_ok, 28);
        },
        Book::FirstEsdras => {
            reveal_with_fuel(spaced_ok, 9);
        },
        Book::SecondEsdras => {
            reveal_with_fuel(spaced_ok, 9);
        },
        Book::PrayerOfManasseh => {
            reveal_with_fuel(spaced_ok, 19);
        },
        Book::Psalm151 => {
            reveal_with_fuel(spaced_ok, 10);
        },
        Book::ThirdMaccabees => {
            reveal_with_fuel(spaced_ok, 12);
        },
        Book::FourthMaccabees => {
            reveal_with_fuel(spaced_ok, 12);
        },
    }
}

/// Alias scalars at every position.
proof fn lemma_all_class_index(s: Seq<char>)
    requires
        all_class(s),
    ensures
        forall|i: int| 0 <= i < s.len() ==> alias_scalar(#[trigger] s[i]),
    decreases s.len(),
{
    if s.len() > 0 {
        lemma_all_class_index(s.drop_last());
        assert forall|i: int| 0 <= i < s.len() implies alias_scalar(#[trigger] s[i]) by {
            if i < s.len() - 1 {
                assert(s[i] == s.drop_last()[i]);
            }
        }
    }
}

/// Single spacing at every position.
proof fn lemma_spaced_index(s: Seq<char>)
    requires
        spaced_ok(s),
    ensures
        forall|i: int| 0 < i < s.len() ==> !(#[trigger] s[i] == ' ' && s[i - 1] == ' '),
    decreases s.len(),
{
    if s.len() > 1 {
        lemma_spaced_index(s.drop_last());
        assert forall|i: int| 0 < i < s.len() implies !(#[trigger] s[i] == ' ' && s[i - 1] == ' ') by {
            if i < s.len() - 1 {
                assert(s[i] == s.drop_last()[i] && s[i - 1] == s.drop_last()[i - 1]);
            }
        }
    }
}

/// A full book name is collapsed text of alias scalars.
pub proof fn lemma_full_name_collapsed(b: Book)
    ensures
        all_class(spec_full_name(b)),
        is_collapsed(spec_full_name(b)),
        spec_full_name(b).len() > 0,
        !white_space(spec_full_name(b)[0]),
        !white_space(spec_full_name(b).last()),
{
    let f = spec_full_name(b);
    lemma_full_name_alias(b);
    lemma_bundled_key_book(2 * book_index(b));
    lemma_full_name_spaced(b);
    lemma_all_class_index(f);
    lemma_spaced_index(f);
    assert(alias_scalar(f[0]) && alias_scalar(f[f.len() - 1]));
    assert forall|i: int| 0 <= i < f.len() && white_space(#[trigger] f[i]) implies {
        &&& f[i] == ' '
        &&& 0 < i < f.len() - 1
        &&& !white_space(f[i - 1])
        &&& !white_space(f[i + 1])
    } by {
        assert(alias_scalar(f[i]));
        if i > 0 {
            assert(alias_scalar(f[i - 1]));
        }
        if i + 1 < f.len() {
            assert(alias_scalar(f[i + 1]));
            assert(!(f[i + 1] == ' ' && f[i] == ' '));
        }
    }
}

/// Text without `-` has no range separator from any position on.
proof fn lemma_no_range_separator(s: Seq<char>, i: int)
    requires
        forall|k: int| 0 <= k < s.len() ==> #[trigger] s[k] != '-',
    ensures
        range_separator_from(s, i) is None,
    decreases s.len() - i,
{
    if 0 <= i < s.len() {
        lemma_no_range_separator(s, i + 1);
    }
}

/// The last `:` or `.` of `p`, a colon and a digit run is that colon.
proof fn lemma_last_separator(p: Seq<char>, d: Seq<char>)
    requires
        all_digits(d),
    ensures
        last_separator(p + seq![':'] + d) == Some(p.len() as int),
    decreases d.len(),
{
    let s = p + seq![':'] + d;
    if d.len() == 0 {
        assert(s =~= p.push(':'));
    } else {
        assert(is_digit(d.last()));
        assert(s.drop_last() =~= p + seq![':'] + d.drop_last());
        lemma_last_separator(p, d.drop_last());
    }
}

/// A digit run after a space is the whole trailing digit run.
proof fn lemma_trailing_digits_after_space(p: Seq<char>, d: Seq<char>)
    requires
        all_digits(d),
    ensures
        trailing_digits(p + seq![' '] + d) == d.len(),
    decreases d.len(),
{
    let s = p + seq![' '] + d;
    if d.len() == 0 {
        assert(s =~= p.push(' '));
    } else {
        assert(is_digit(d.last()));
        assert(s.drop_last() =~= p + seq![' '] + d.drop_last());
        lemma_trailing_digits_after_space(p, d.drop_last());
    }
}

/// Text that neither starts nor ends with white space is its own trim.
proof fn lemma_trim_plain(s: Seq<char>)
    requires
        s.len() > 0,
        !white_space(s[0]),
        !white_space(s.last()),
    ensures
        trim(s) == s,
        trim_end(s) == s,
{
    assert(leading_ws(s) == 0);
    assert(s.skip(0) =~= s);
    assert(trailing_ws(s) == 0);
    assert(s.take(s.len() as int) =~= s);
}

/// A plain word followed by one space trims back to the word.
proof fn lemma_trim_trailing_space(s: Seq<char>)
    requires
        s.len() > 0,
        !white_space(s[0]),
        !white_space(s.last()),
    ensures
        trim(s.push(' ')) == s,
{
    let t = s.push(' ');
    assert(t[0] == s[0]);
    assert(leading_ws(t) == 0);
    assert(t.skip(0) =~= t);
    assert(t.drop_last() =~= s);
    assert(white_space(' '));
    assert(trailing_ws(s) == 0);
    assert(trailing_ws(t) == 1);
    assert(t.take(t.len() - 1) =~= s);
}

/// The display text of a valid verse is already in parsing form, has no
/// range separator, and splits into its full book name, chapter and verse.
pub proof fn lemma_verse_text_splits(v: VerseRef)
    requires
        valid_verse(v),
    ensures
        ({
            let f = spec_full_name(v.spec_book());
            let c = decimal(v.spec_chapter() as nat);
            let n = decimal(v.spec_verse() as nat);
            let t = verse_text(v);
            &&& parsing_form(t) == t
            &&& t.len() > 0
            &&& range_separator(t) is None
            &&& spec_split_coordinate(t) == Ok::<(Seq<char>, Seq<char>), ErrorModel>(
                (f + seq![' '] + c, n),
            )
            &&& spec_split_trailing_number(f + seq![' '] + c, "chapter"@) == Ok::<
                (Seq<char>, Seq<char>),
                ErrorModel,
            >((f.push(' '), c))
            &&& trim(f.push(' ')) == f
            &&& plain_text(t)
            &&& !all_digits(t)
        }),
{
    let f = spec_full_name(v.spec_book());
    let c = decimal(v.spec_chapter() as nat);
    let n = decimal(v.spec_verse() as nat);
    let t = verse_text(v);
    reveal_strlit(" ");
    reveal_strlit(":");
    assert(t =~= f + seq![' '] + c + seq![':'] + n);
    lemma_full_name_collapsed(v.spec_book());
    lemma_all_class_index(f);
    lemma_decimal(v.spec_chapter() as nat);
    lemma_decimal(v.spec_verse() as nat);
    let fl = f.len() as int;
    let cl = c.len() as int;
    assert forall|k: int| 0 <= k < t.len() implies {
        &&& (#[trigger] t[k] as u32) < 0x80
        &&& t[k] != '-'
        &&& (k != fl ==> !white_space(t[k]) || (k < fl && t[k] == ' '))
    } by {
        if k < fl {
            assert(t[k] == f[k]);
            assert(alias_scalar(f[k]));
        } else if k == fl {
        } else if k < fl + 1 + cl {
            assert(t[k] == c[k - fl - 1]);
            assert(is_digit(c[k - fl - 1]));
        } else if k == fl + 1 + cl {
        } else {
            assert(t[k] == n[k - fl - 2 - cl]);
            assert(is_digit(n[k - fl - 2 - cl]));
        }
    }
    lemma_normalize_ascii(t);
    assert(is_collapsed(t)) by {
        assert forall|i: int| 0 <= i < t.len() && white_space(#[trigger] t[i]) implies {
            &&& t[i] == ' '
            &&& 0 < i < t.len() - 1
            &&& !white_space(t[i - 1])
            &&& !white_space(t[i + 1])
        } by {
            if i < fl {
                assert(t[i] == f[i]);
                assert(white_space(f[i]));
                assert(t[i - 1] == f[i - 1]);
                assert(t[i + 1] == f[i + 1]);
            } else if i == fl {
                assert(t[i - 1] == f[fl - 1]);
                assert(t[i + 1] == c[0]);
                assert(is_digit(c[0]));
            } else {
                assert(!white_space(t[i]));
            }
        }
    }
    lemma_collapse_collapsed(t);
    lemma_no_range_separator(t, 0);
    // Splitting at the colon.
    assert(t =~= (f + seq![' '] + c) + seq![':'] + n);
    lemma_last_separator(f + seq![' '] + c, n);
    assert(t.skip(fl + 1 + cl + 1) =~= n);
    lemma_trim_plain(n);
    assert(t.take(fl + 1 + cl) =~= f + seq![' '] + c);
    // Splitting off the chapter.
    let left = f + seq![' '] + c;
    lemma_trim_plain(left);
    lemma_trailing_digits_after_space(f, c);
    assert(left.take(left.len() - cl) =~= f.push(' '));
    assert(left.skip(left.len() - cl) =~= c);
    lemma_trim_trailing_space(f);
    assert(t[0] == f[0]);
    assert(t[t.len() - 1] == n[n.len() - 1]);
    assert(is_digit(n[n.len() - 1]));
    assert(!is_digit(t[fl + 1 + cl]));
}

/// Adding languages keeps those already present and gains every concrete
/// language of the list.
proof fn lemma_add_languages_contains(acc: Seq<Language>, ls: Seq<Language>, l: Language)
    requires
        acc.contains(l) || (ls.contains(l) && l != Language::Auto),
    ensures
        add_languages(acc, ls).contains(l),
    decreases ls.len(),
{
    if ls.len() > 0 {
        let prev = add_languages(acc, ls.drop_last());
        if acc.contains(l) || ls.drop_last().contains(l) {
            if !acc.contains(l) {
                let k = choose|k: int| 0 <= k < ls.drop_last().len() && ls.drop_last()[k] == l;
                assert(ls.drop_last()[k] == l);
            }
            lemma_add_languages_contains(acc, ls.drop_last(), l);
            let j = choose|j: int| 0 <= j < prev.len() && prev[j] == l;
            if !(ls.last() == Language::Auto || prev.contains(ls.last())) {
                assert(prev.push(ls.last())[j] == l);
            }
        } else {
            let k = choose|k: int| 0 <= k < ls.len() && ls[k] == l;
            if k < ls.len() - 1 {
                assert(ls.drop_last()[k] == l);
            }
            assert(ls.last() == l);
            if !prev.contains(l) {
                assert(prev.push(l)[prev.len() as int] == l);
            }
        }
    }
}

/// Automatic detection with the default parser searches English names.
proof fn lemma_default_searches_english()
    ensures
        auto_languages(default_parser()).contains(Language::English),
{
    let ls = seq![] + seq![Language::English] + auto_precedence() + supported_languages();
    assert(ls[0] == Language::English);
    lemma_add_languages_contains(seq![], ls, Language::English);
    let p = default_parser();
    assert(language_priority(p) == add_languages(seq![], ls));
    assert(alias_languages(p) =~= Seq::<Language>::empty());
    lemma_add_languages_contains(language_priority(p), alias_languages(p), Language::English);
}

/// No custom aliases give no custom candidates.
proof fn lemma_no_custom(languages: Seq<Language>, key: Seq<char>)
    ensures
        custom_over(seq![], languages, key) == Seq::<CandidateModel>::empty(),
    decreases languages.len(),
{
    if languages.len() > 0 {
        lemma_no_custom(languages.drop_last(), key);
        assert(custom_candidates(seq![], languages.last(), key) == Seq::<CandidateModel>::empty());
        assert(Seq::<CandidateModel>::empty() + Seq::<CandidateModel>::empty() =~= Seq::<CandidateModel>::empty());
    }
}

/// A bundled candidate comes from a bundled alias with that key.
#[verifier::rlimit(60)]
proof fn lemma_bundled_upto_source(n: int, language: Language, key: Seq<char>, c: CandidateModel)
    requires
        0 <= n <= BUNDLED_COUNT,
        bundled_candidates_upto(n, language, key).contains(c),
    ensures
        exists|i: int|
            0 <= i < n && term_key(bundled_alias(i).0) == key && c.book == (
            #[trigger] bundled_alias(i)).1,
    decreases n,
{
    let prev = bundled_candidates_upto(n - 1, language, key);
    let cur = bundled_candidates_upto(n, language, key);
    let a = bundled_alias(n - 1);
    let k = choose|k: int| 0 <= k < cur.len() && cur[k] == c;
    if k < prev.len() {
        assert(prev[k] == c);
        assert(prev.contains(c));
        lemma_bundled_upto_source(n - 1, language, key, c);
    } else {
        assert(term_key(a.0) == key && c.book == a.1);
    }
}

/// An English bundled alias with the key gives a candidate.
#[verifier::rlimit(60)]
proof fn lemma_bundled_upto_has(n: int, key: Seq<char>, i: int)
    requires
        0 <= i < n <= BUNDLED_COUNT,
        term_key(bundled_alias(i).0) == key,
    ensures
        bundled_candidates_upto(n, Language::English, key).contains(
            CandidateModel {
                book: bundled_alias(i).1,
                alias: bundled_alias(i).0,
                language: Some(Language::English),
                custom: false,
            },
        ),
    decreases n,
{
    let prev = bundled_candidates_upto(n - 1, Language::English, key);
    let cur = bundled_candidates_upto(n, Language::English, key);
    let x = CandidateModel {
        book: bundled_alias(i).1,
        alias: bundled_alias(i).0,
        language: Some(Language::English),
        custom: false,
    };
    if i < n - 1 {
        lemma_bundled_upto_has(n - 1, key, i);
        let k = choose|k: int| 0 <= k < prev.len() && prev[k] == x;
        assert(cur[k] == x);
    } else {
        assert(cur[cur.len() - 1] == x);
    }
}

/// Candidates over several languages are those of each language.
proof fn lemma_bundled_over(languages: Seq<Language>, key: Seq<char>)
    ensures
        forall|c: CandidateModel|
            #[trigger] bundled_over(languages, key).contains(c) ==> exists|l: Language|
                #[trigger] bundled_candidates(l, key).contains(c),
        forall|c: CandidateModel|
            languages.contains(Language::English) && #[trigger] bundled_candidates(
                Language::English,
                key,
            ).contains(c) ==> bundled_over(languages, key).contains(c),
    decreases languages.len(),
{
    if languages.len() > 0 {
        let prev = languages.drop_last();
        lemma_bundled_over(prev, key);
        let a = bundled_over(prev, key);
        let b = bundled_candidates(languages.last(), key);
        assert(bundled_over(languages, key) == a + b);
        assert forall|c: CandidateModel| #[trigger] bundled_over(languages, key).contains(c) implies exists|l: Language|
            #[trigger] bundled_candidates(l, key).contains(c) by {
            let k = choose|k: int| 0 <= k < (a + b).len() && (a + b)[k] == c;
            if k < a.len() {
                assert(a[k] == c);
                assert(a.contains(c));
            } else {
                assert(b[k - a.len()] == c);
                assert(b.contains(c));
            }
        }
        assert forall|c: CandidateModel|
            languages.contains(Language::English) && #[trigger] bundled_candidates(
                Language::English,
                key,
            ).contains(c) implies bundled_over(languages, key).contains(c) by {
            if languages.last() == Language::English {
                let k = choose|k: int| 0 <= k < b.len() && b[k] == c;
                assert((a + b)[a.len() + k] == c);
            } else {
                let j = choose|j: int| 0 <= j < languages.len() && languages[j] == Language::English;
                assert(prev[j] == Language::English);
                assert(a.contains(c));
                let k = choose|k: int| 0 <= k < a.len() && a[k] == c;
                assert((a + b)[k] == c);
            }
        }
    }
}

/// The default parser resolves a book's full name, followed by a space as
/// it stands before a chapter number, to that book.
pub proof fn lemma_resolve_full_name(b: Book)
    ensures
        spec_resolve(default_parser(), spec_full_name(b).push(' '), Language::Auto) matches Ok(m)
            && m.selected.book == b,
{
    let p = default_parser();
    let f = spec_full_name(b);
    let token = f.push(' ');
    lemma_full_name_collapsed(b);
    lemma_trim_trailing_space(f);
    let key = term_key(f);
    lemma_full_name_alias(b);
    let j = 2 * book_index(b);
    lemma_bundled_key_book(j);
    lemma_term_key_ascii(f);
    assert(key.len() > 0) by {
        if key.len() == 0 {
            assert(key_book(key) is None);
        }
    }
    let langs = auto_languages(p);
    let priority = language_priority(p);
    let x = CandidateModel {
        book: bundled_alias(j).1,
        alias: bundled_alias(j).0,
        language: Some(Language::English),
        custom: false,
    };
    lemma_bundled_upto_has(BUNDLED_COUNT as int, key, j);
    lemma_default_searches_english();
    lemma_bundled_over(langs, key);
    lemma_no_custom(langs, key);
    let bo = bundled_over(langs, key);
    let collected = collected_candidates(p, key, Language::Auto);
    assert(neutral_candidates(p.aliases, key) =~= Seq::<CandidateModel>::empty());
    assert(collected =~= bo);
    assert(bundled_candidates(Language::English, key).contains(x));
    assert(langs.contains(Language::English));
    assert(bo.contains(x));
    let sorted = sort_candidates(priority, collected);
    lemma_sort_candidates(priority, collected);
    assert(sorted.contains(x));
    lemma_dedup_candidates(sorted);
    assert(final_candidates(p, key, Language::Auto).len() > 0);
    lemma_resolve_selects_least(p, token, Language::Auto);
    if let Ok(m) = spec_resolve(p, token, Language::Auto) {
        assert(collected.contains(m.selected));
        let l = choose|l: Language| #[trigger] bundled_candidates(l, key).contains(m.selected);
        lemma_bundled_upto_source(BUNDLED_COUNT as int, l, key, m.selected);
        let i = choose|i: int|
            0 <= i < BUNDLED_COUNT && term_key(bundled_alias(i).0) == key && m.selected.book == (
            #[trigger] bundled_alias(i)).1;
        lemma_full_name_key_unique(b, i);
    }
}

/// The full endpoint read from a valid verse's display text is that verse.
proof fn lemma_full_endpoint_verse(v: VerseRef)
    requires
        valid_verse(v),
    ensures
        spec_full_endpoint(default_parser(), verse_text(v), Language::Auto) matches Ok((w, ms)) && w
            == v,
{
    lemma_verse_text_splits(v);
    lemma_resolve_full_name(v.spec_book());
    lemma_decimal(v.spec_chapter() as nat);
    lemma_decimal(v.spec_verse() as nat);
    lemma_verse_eq(v, v);
}

/// Parsing the display text of a verse with the default parser, in
/// automatic mode, gives the verse back.
pub proof fn lemma_verse_display_parses_back(v: VerseRef)
    requires
        valid_verse(v),
    ensures
        value_of(spec_parse(default_parser(), verse_text(v), Language::Auto)) == Ok::<
            Reference,
            ErrorModel,
        >(Reference::Verse(v)),
        value_of(spec_parse_verse(default_parser(), verse_text(v), Language::Auto)) == Ok::<
            VerseRef,
            ErrorModel,
        >(v),
{
    lemma_verse_text_splits(v);
    lemma_full_endpoint_verse(v);
}

/// Text that parsing leaves alone around a range dash: non-empty ASCII
/// without `-`, collapsed, and with no white space at either end.
pub open spec fn plain_text(s: Seq<char>) -> bool {
    &&& s.len() > 0
    &&& !white_space(s[0])
    &&& !white_space(s.last())
    &&& is_collapsed(s)
    &&& forall|k: int| 0 <= k < s.len() ==> #[trigger] s[k] != '-' && (s[k] as u32) < 0x80
}

/// A decimal spelling is plain text of digits.
proof fn lemma_decimal_plain(n: nat)
    ensures
        plain_text(decimal(n)),
        all_digits(decimal(n)),
{
    let d = decimal(n);
    lemma_decimal(n);
    assert(is_digit(d[0]) && is_digit(d[d.len() - 1]));
    assert forall|i: int| 0 <= i < d.len() && white_space(#[trigger] d[i]) implies {
        &&& d[i] == ' '
        &&& 0 < i < d.len() - 1
        &&& !white_space(d[i - 1])
        &&& !white_space(d[i + 1])
    } by {
        assert(is_digit(d[i]));
    }
    assert forall|k: int| 0 <= k < d.len() implies #[trigger] d[k] != '-' && (d[k] as u32) < 0x80 by {
        assert(is_digit(d[k]));
    }
}

/// `Chapter:Verse` spellings are plain text.
proof fn lemma_coordinate_plain(c: nat, n: nat)
    ensures
        plain_text(decimal(c) + seq![':'] + decimal(n)),
        !all_digits(decimal(c) + seq![':'] + decimal(n)),
{
    let a = decimal(c);
    let b = decimal(n);
    let s = a + seq![':'] + b;
    lemma_decimal_plain(c);
    lemma_decimal_plain(n);
    assert(!is_digit(s[a.len() as int]));
    assert(s[0] == a[0]);
    assert(s[s.len() - 1] == b[b.len() - 1]);
    assert forall|k: int| 0 <= k < s.len() implies !white_space(#[trigger] s[k]) && s[k] != '-' && (
    s[k] as u32) < 0x80 by {
        if k < a.len() {
            assert(s[k] == a[k]);
            assert(is_digit(a[k]));
        } else if k > a.len() {
            assert(s[k] == b[k - a.len() - 1]);
            assert(is_digit(b[k - a.len() - 1]));
        }
    }
}

/// Joining two plain texts with a dash gives plain-looking text that
/// parsing leaves alone.
proof fn lemma_dash_join(s: Seq<char>, e: Seq<char>)
    requires
        plain_text(s),
        plain_text(e),
    ensures
        parsing_form(s + seq!['-'] + e) == s + seq!['-'] + e,
{
    let t = s + seq!['-'] + e;
    let sl = s.len() as int;
    assert forall|k: int| 0 <= k < t.len() implies (#[trigger] t[k] as u32) < 0x80 by {
        if k < sl {
            assert(t[k] == s[k]);
        } else if k > sl {
            assert(t[k] == e[k - sl - 1]);
        }
    }
    lemma_normalize_ascii(t);
    assert(is_collapsed(t)) by {
        assert forall|i: int| 0 <= i < t.len() && white_space(#[trigger] t[i]) implies {
            &&& t[i] == ' '
            &&& 0 < i < t.len() - 1
            &&& !white_space(t[i - 1])
            &&& !white_space(t[i + 1])
        } by {
            if i < sl {
                assert(t[i] == s[i]);
                assert(white_space(s[i]));
                assert(t[i - 1] == s[i - 1]);
                assert(t[i + 1] == s[i + 1]);
            } else if i == sl {
            } else {
                assert(t[i] == e[i - sl - 1]);
                assert(white_space(e[i - sl - 1]));
                assert(i - sl - 1 > 0);
                assert(t[i - 1] == e[i - sl - 2]);
                assert(t[i + 1] == e[i - sl]);
            }
        }
    }
    lemma_collapse_collapsed(t);
}

/// The first dash of `s` at or after `i` is found when its prefix splits.
proof fn lemma_first_dash(s: Seq<char>, i: int, j: int)
    requires
        0 <= i <= j < s.len(),
        s[j] == '-',
        spec_split_coordinate(s.take(j)) is Ok,
        forall|k: int| i <= k < j ==> #[trigger] s[k] != '-',
    ensures
        range_separator_from(s, i) == Some(j),
    decreases j - i,
{
    if i < j {
        lemma_first_dash(s, i + 1, j);
    }
}

/// A run of digits is its own trailing digit run.
proof fn lemma_trailing_digits_all(d: Seq<char>)
    requires
        all_digits(d),
    ensures
        trailing_digits(d) == d.len(),
    decreases d.len(),
{
    if d.len() > 0 {
        assert(is_digit(d.last()));
        assert(all_digits(d.drop_last()));
        lemma_trailing_digits_all(d.drop_last());
    }
}

/// The end read after the dash of a range's display text is the range's end.
proof fn lemma_range_end_text(r: VerseRange)
    requires
        valid_verse(r.spec_start()),
        valid_verse(r.spec_end()),
    ensures
        ({
            let s = r.spec_start();
            let e = r.spec_end();
            let tail = if s.spec_book() == e.spec_book() {
                if s.spec_chapter() == e.spec_chapter() {
                    decimal(e.spec_verse() as nat)
                } else {
                    decimal(e.spec_chapter() as nat) + seq![':'] + decimal(e.spec_verse() as nat)
                }
            } else {
                verse_text(e)
            };
            &&& plain_text(tail)
            &&& range_text(r) == verse_text(s) + seq!['-'] + tail
            &&& spec_range_end(default_parser(), tail, s, Language::Auto) matches Ok((w, ms))
                && w == e
        }),
{
    let s = r.spec_start();
    let e = r.spec_end();
    let p = default_parser();
    reveal_strlit("-");
    reveal_strlit(":");
    lemma_verse_eq(e, e);
    lemma_decimal(e.spec_chapter() as nat);
    lemma_decimal(e.spec_verse() as nat);
    lemma_decimal_plain(e.spec_verse() as nat);
    if s.spec_book() == e.spec_book() {
        if s.spec_chapter() == e.spec_chapter() {
            let tail = decimal(e.spec_verse() as nat);
            assert(range_text(r) =~= verse_text(s) + seq!['-'] + tail);
            lemma_trim_plain(tail);
        } else {
            let a = decimal(e.spec_chapter() as nat);
            let b = decimal(e.spec_verse() as nat);
            let tail = a + seq![':'] + b;
            assert(range_text(r) =~= verse_text(s) + seq!['-'] + tail);
            lemma_coordinate_plain(e.spec_chapter() as nat, e.spec_verse() as nat);
            lemma_trim_plain(tail);
            lemma_last_separator(a, b);
            assert(tail.skip(a.len() as int + 1) =~= b);
            assert(tail.take(a.len() as int) =~= a);
            lemma_trim_plain(b);
            lemma_decimal_plain(e.spec_chapter() as nat);
            lemma_trim_plain(a);
            lemma_trailing_digits_all(a);
            assert(a.take(0) =~= Seq::<char>::empty());
            assert(a.skip(0) =~= a);
            assert(trim(Seq::<char>::empty()).len() == 0) by {
                assert(leading_ws(Seq::<char>::empty()) == 0);
                assert(Seq::<char>::empty().skip(0) =~= Seq::<char>::empty());
            }
        }
    } else {
        let tail = verse_text(e);
        assert(range_text(r) =~= verse_text(s) + seq!['-'] + tail);
        lemma_verse_text_splits(e);
        lemma_trim_plain(tail);
        lemma_resolve_full_name(e.spec_book());
        lemma_full_name_collapsed(e.spec_book());
    }
}

/// Parsing the display text of a range with the default parser, in
/// automatic mode, gives the range back.
pub proof fn lemma_range_display_parses_back(r: VerseRange)
    requires
        valid_verse(r.spec_start()),
        valid_verse(r.spec_end()),
        verse_before(r.spec_start(), r.spec_end()),
    ensures
        value_of(spec_parse(default_parser(), range_text(r), Language::Auto)) == Ok::<
            Reference,
            ErrorModel,
        >(Reference::Range(r)),
        value_of(spec_parse_range(default_parser(), range_text(r), Language::Auto)) == Ok::<
            VerseRange,
            ErrorModel,
        >(r),
{
    let s = r.spec_start();
    let e = r.spec_end();
    let head = verse_text(s);
    lemma_range_end_text(r);
    let tail = if s.spec_book() == e.spec_book() {
        if s.spec_chapter() == e.spec_chapter() {
            decimal(e.spec_verse() as nat)
        } else {
            decimal(e.spec_chapter() as nat) + seq![':'] + decimal(e.spec_verse() as nat)
        }
    } else {
        verse_text(e)
    };
    let t = head + seq!['-'] + tail;
    lemma_verse_text_splits(s);
    lemma_full_endpoint_verse(s);
    lemma_dash_join(head, tail);
    let hl = head.len() as int;
    assert(t.take(hl) =~= head);
    assert(t.skip(hl + 1) =~= tail);
    assert forall|k: int| 0 <= k < hl implies #[trigger] t[k] != '-' by {
        assert(t[k] == head[k]);
    }
    lemma_first_dash(t, 0, hl);
    lemma_no_range_separator(tail, 0);
    lemma_trim_plain(head);
    lemma_trim_plain(tail);
    lemma_range_of(s, e);
    lemma_range_eq(range_of(s, e), r);
}

/// Parsing the display text of any valid reference with the default parser,
/// in automatic mode, gives the reference back.
pub proof fn lemma_display_parses_back(r: Reference)
    requires
        valid_reference(r),
    ensures
        value_of(spec_parse(default_parser(), reference_text(r), Language::Auto)) == Ok::<
            Reference,
            ErrorModel,
        >(r),
{
    match r {
        Reference::Verse(v) => lemma_verse_display_parses_back(v),
        Reference::Range(g) => lemma_range_display_parses_back(g),
    }
}

} // verus!
