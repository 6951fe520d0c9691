//! Token-level grammar shared by the reference and passage parsers.
use vstd::prelude::*;

use crate::error::{fault, ErrorModel, ParseError, ParseErrorKind};
use crate::text::{
    all_digits, chars_all_digits, debug_quote, decimal, digits_value, str_debug, extend_str, is_ascii_digit, is_digit,
    parse_u32, slice_chars, string_of, trailing_ws_len, trim, trim_chars, trim_end,
    lemma_trailing_ws, push_decimal,
};

verus! {

/// A text result reduced to its values and error classification.
pub open spec fn pair_kind(r: Result<(Vec<char>, Vec<char>), ParseError>) -> Result<
    (Seq<char>, Seq<char>),
    ErrorModel,
> {
    match r {
        Ok((a, b)) => Ok((a@, b@)),
        Err(e) => Err(e.model()),
    }
}

/// The position of the last `:` or `.`.
pub open spec fn last_separator(s: Seq<char>) -> Option<int>
    decreases s.len(),
{
    if s.len() == 0 {
        None
    } else if s.last() == ':' || s.last() == '.' {
        Some(s.len() - 1)
    } else {
        last_separator(s.drop_last())
    }
}

/// Splitting at the last `:` or `.` into the text before it and the trimmed
/// verse number after it.
pub open spec fn spec_split_coordinate(s: Seq<char>) -> Result<(Seq<char>, Seq<char>), ErrorModel> {
    match last_separator(s) {
        None => Err(
            fault(
                ParseErrorKind::MissingNumericToken,
                "reference is missing a chapter/verse separator"@,
            ),
        ),
        Some(i) => {
            let right = trim(s.skip(i + 1));
            if right.len() == 0 {
                Err(fault(ParseErrorKind::MissingNumericToken, "reference is missing a verse number"@))
            } else if !all_digits(right) {
                Err(
                    fault(
                        ParseErrorKind::InvalidNumericToken,
                        "verse token "@ + str_debug(right) + " is not an integer"@,
                    ),
                )
            } else {
                Ok((s.take(i), right))
            }
        },
    }
}

/// The number of trailing ASCII digits.
pub open spec fn trailing_digits(s: Seq<char>) -> nat
    decreases s.len(),
{
    if s.len() > 0 && is_digit(s.last()) {
        1 + trailing_digits(s.drop_last())
    } else {
        0
    }
}

/// Splitting the trailing run of digits off the right-trimmed text; the
/// diagnostic names the missing `component`.
pub open spec fn spec_split_trailing_number(s: Seq<char>, component: Seq<char>) -> Result<
    (Seq<char>, Seq<char>),
    ErrorModel,
> {
    let t = trim_end(s);
    let d = trailing_digits(t);
    if d == 0 {
        Err(fault(ParseErrorKind::MissingNumericToken, "reference is missing a "@ + component + " number"@))
    } else {
        Ok((t.take(t.len() - d), t.skip(t.len() - d)))
    }
}

/// The digit run split off by [`spec_split_trailing_number`] is all digits.
pub proof fn lemma_trailing_number_digits(s: Seq<char>)
    ensures
        forall|component: Seq<char>| #[trigger] spec_split_trailing_number(s, component) matches Ok((a, b)) ==> all_digits(b),
{
    let t = trim_end(s);
    lemma_trailing_digits(t);
}

/// The trailing run counted by [`trailing_digits`] lies within `s` and is all digits.
pub proof fn lemma_trailing_digits(s: Seq<char>)
    ensures
        trailing_digits(s) <= s.len(),
        all_digits(s.skip(s.len() - trailing_digits(s))),
    decreases s.len(),
{
    if s.len() > 0 && is_digit(s.last()) {
        lemma_trailing_digits(s.drop_last());
        let d = trailing_digits(s);
        assert forall|i: int| 0 <= i < d implies is_digit(#[trigger] s.skip(s.len() - d)[i]) by {
            if i < d - 1 {
                assert(s.skip(s.len() - d)[i] == s.drop_last().skip(s.len() - d)[i]);
            }
        }
    }
}

/// A chapter or verse number in `1..=maximum`, read from a digit run; the
/// diagnostics name the `component` read.
pub open spec fn spec_parse_number(token: Seq<char>, component: Seq<char>, maximum: u16) -> Result<
    u16,
    ErrorModel,
> {
    if token.len() == 0 || digits_value(token) > u32::MAX {
        Err(
            fault(
                ParseErrorKind::InvalidNumericToken,
                component + " token "@ + str_debug(token) + " is not an integer"@,
            ),
        )
    } else if digits_value(token) == 0 {
        Err(fault(ParseErrorKind::NonPositiveNumericToken, component + " must be greater than zero"@))
    } else if digits_value(token) > maximum {
        Err(
            fault(
                ParseErrorKind::NumericTokenOutOfRange,
                component + " "@ + decimal(digits_value(token)) + " exceeds the sanity limit "@
                    + decimal(maximum as nat),
            ),
        )
    } else {
        Ok(digits_value(token) as u16)
    }
}

/// The first `-` at or after `i` whose prefix splits as a coordinate.
pub open spec fn range_separator_from(s: Seq<char>, i: int) -> Option<int>
    decreases s.len() - i,
{
    if i < 0 || i >= s.len() {
        None
    } else if s[i] == '-' && spec_split_coordinate(s.take(i)) is Ok {
        Some(i)
    } else {
        range_separator_from(s, i + 1)
    }
}

/// The first `-` whose prefix ends in a chapter/verse coordinate.
pub open spec fn range_separator(s: Seq<char>) -> Option<int> {
    range_separator_from(s, 0)
}

/// A range separator lies inside the text.
pub proof fn lemma_range_separator_bound(s: Seq<char>)
    ensures
        range_separator(s) matches Some(i) ==> 0 <= i < s.len(),
{
    lemma_range_separator_from_bound(s, 0);
}

proof fn lemma_range_separator_from_bound(s: Seq<char>, i: int)
    ensures
        range_separator_from(s, i) matches Some(j) ==> i <= j < s.len(),
    decreases s.len() - i,
{
    if 0 <= i < s.len() {
        lemma_range_separator_from_bound(s, i + 1);
    }
}

/// A message made of a fixed text, a debug-quoted token, and a fixed text.
pub fn quoted_message(before: &str, token: &[char], after: &str) -> (s: String)
    ensures
        s@ == before@ + crate::text::str_debug(token@) + after@,
{
    let token_text = string_of(token);
    let quoted = debug_quote(token_text.as_str());
    let mut v: Vec<char> = Vec::new();
    extend_str(&mut v, before);
    extend_str(&mut v, quoted.as_str());
    extend_str(&mut v, after);
    string_of(v.as_slice())
}

/// Split at the last `:` or `.` into the text before it and the trimmed verse
/// number after it.
pub fn split_coordinate(s: &[char]) -> (r: Result<(Vec<char>, Vec<char>), ParseError>)
    ensures
        pair_kind(r) == spec_split_coordinate(s@),
{
    let mut k: usize = s.len();
    assert(s@.take(s@.len() as int) == s@);
    while k > 0 && s[k - 1] != ':' && s[k - 1] != '.'
        invariant
            k <= s@.len(),
            last_separator(s@) == last_separator(s@.take(k as int)),
        decreases k,
    {
        assert(s@.take(k as int).last() == s@[k - 1]);
        assert(s@.take(k as int).drop_last() == s@.take(k - 1));
        k -= 1;
    }
    proof {
        if k > 0 {
            assert(s@.take(k as int).last() == s@[k - 1]);
        }
    }
    if k == 0 {
        assert(s@.take(0).len() == 0);
        return Err(
            ParseError::new(
                ParseErrorKind::MissingNumericToken,
                "reference is missing a chapter/verse separator",
            ),
        );
    }
    assert(last_separator(s@) == Some(k - 1));
    let left = slice_chars(s, 0, k - 1);
    let tail = slice_chars(s, k, s.len());
    let right = trim_chars(tail.as_slice());
    if right.len() == 0 {
        return Err(
            ParseError::new(ParseErrorKind::MissingNumericToken, "reference is missing a verse number"),
        );
    }
    if !chars_all_digits(right.as_slice()) {
        let message = quoted_message("verse token ", right.as_slice(), " is not an integer");
        return Err(ParseError::from_string(ParseErrorKind::InvalidNumericToken, message));
    }
    Ok((left, right))
}

/// Split the trailing run of digits off the right-trimmed text.
pub fn split_trailing_number(s: &[char], component: &str) -> (r: Result<
    (Vec<char>, Vec<char>),
    ParseError,
>)
    ensures
        pair_kind(r) == spec_split_trailing_number(s@, component@),
{
    let n = trailing_ws_len(s);
    proof {
        lemma_trailing_ws(s@);
    }
    let t = slice_chars(s, 0, s.len() - n);
    assert(t@ == trim_end(s@));
    let mut k: usize = t.len();
    assert(t@.take(k as int) == t@);
    while k > 0 && is_ascii_digit(t[k - 1])
        invariant
            k <= t@.len(),
            trailing_digits(t@) == (t@.len() - k) + trailing_digits(t@.take(k as int)),
        decreases k,
    {
        assert(t@.take(k as int).last() == t@[k - 1]);
        assert(t@.take(k as int).drop_last() == t@.take(k - 1));
        k -= 1;
    }
    proof {
        if k > 0 {
            assert(t@.take(k as int).last() == t@[k - 1]);
        }
    }
    assert(trailing_digits(t@.take(k as int)) == 0);
    if k == t.len() {
        let mut v: Vec<char> = Vec::new();
        extend_str(&mut v, "reference is missing a ");
        extend_str(&mut v, component);
        extend_str(&mut v, " number");
        return Err(
            ParseError::from_string(ParseErrorKind::MissingNumericToken, string_of(v.as_slice())),
        );
    }
    let book = slice_chars(t.as_slice(), 0, k);
    let digits = slice_chars(t.as_slice(), k, t.len());
    Ok((book, digits))
}

/// Read a chapter or verse number in `1..=maximum` from a digit run.
pub fn parse_number(token: &[char], component: &str, maximum: u16) -> (r: Result<u16, ParseError>)
    requires
        all_digits(token@),
    ensures
        crate::error::result_model(r) == spec_parse_number(token@, component@, maximum),
{
    let value = match parse_u32(token) {
        Some(v) => v,
        None => {
            let mut v: Vec<char> = Vec::new();
            extend_str(&mut v, component);
            let message = quoted_message(" token ", token, " is not an integer");
            extend_str(&mut v, message.as_str());
            assert(v@ =~= component@ + " token "@ + str_debug(token@) + " is not an integer"@);
            return Err(
                ParseError::from_string(
                    ParseErrorKind::InvalidNumericToken,
                    string_of(v.as_slice()),
                ),
            );
        },
    };
    if value == 0 {
        let mut v: Vec<char> = Vec::new();
        extend_str(&mut v, component);
        extend_str(&mut v, " must be greater than zero");
        return Err(
            ParseError::from_string(ParseErrorKind::NonPositiveNumericToken, string_of(v.as_slice())),
        );
    }
    if value > maximum as u32 {
        let mut v: Vec<char> = Vec::new();
        extend_str(&mut v, component);
        extend_str(&mut v, " ");
        push_decimal(&mut v, value);
        extend_str(&mut v, " exceeds the sanity limit ");
        push_decimal(&mut v, maximum as u32);
        return Err(
            ParseError::from_string(ParseErrorKind::NumericTokenOutOfRange, string_of(v.as_slice())),
        );
    }
    Ok(value as u16)
}

/// The first `-` whose prefix ends in a chapter/verse coordinate.
pub fn find_range_separator(s: &[char]) -> (r: Option<usize>)
    ensures
        match r {
            Some(i) => range_separator(s@) == Some(i as int),
            None => range_separator(s@) is None,
        },
{
    let mut i: usize = 0;
    while i < s.len()
        invariant
            i <= s@.len(),
            range_separator(s@) == range_separator_from(s@, i as int),
        decreases s.len() - i,
    {
        if s[i] == '-' {
            let prefix = slice_chars(s, 0, i);
            if split_coordinate(prefix.as_slice()).is_ok() {
                return Some(i);
            }
        }
        i += 1;
    }
    None
}

} // verus!
