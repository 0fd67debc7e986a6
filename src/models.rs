//! The player profile read from the site's home page.

use crate::content_process::{first_match_text, first_selected, opt_text, Deserializer};
use vstd::prelude::*;

verus! {

/// Whether a character is an ASCII decimal digit.
pub open spec fn is_digit(c: char) -> bool {
    '0' <= c && c <= '9'
}

/// Whether every character of a text is an ASCII decimal digit.
pub open spec fn all_digits(s: Seq<char>) -> bool {
    forall|i: int| 0 <= i < s.len() ==> is_digit(#[trigger] s[i])
}

/// The number that a run of decimal digits denotes, most significant first.
pub open spec fn digits_value(s: Seq<char>) -> int
    decreases s.len(),
{
    if s.len() == 0 {
        0
    } else {
        digits_value(s.drop_last()) * 10 + (s.last() as int - '0' as int)
    }
}

/// Whether a text opens with a sign.
pub open spec fn has_sign(s: Seq<char>) -> bool {
    s.len() > 0 && (s[0] == '+' || s[0] == '-')
}

/// The integer a decimal numeral denotes: an optional `+` or `-`, then one or
/// more ASCII digits, and nothing else.
pub open spec fn numeral_value(s: Seq<char>) -> Option<int> {
    let digits = if has_sign(s) { s.drop_first() } else { s };
    if digits.len() > 0 && all_digits(digits) {
        Some(if s[0] == '-' { -digits_value(digits) } else { digits_value(digits) })
    } else {
        None
    }
}

/// The rating a text denotes: a decimal numeral whose value fits in an `i16`.
pub open spec fn rating_of(s: Seq<char>) -> Option<i16> {
    match numeral_value(s) {
        Some(v) => if i16::MIN <= v <= i16::MAX {
            Some(v as i16)
        } else {
            None
        },
        None => None,
    }
}

proof fn lemma_digits_value_nonneg(s: Seq<char>)
    requires
        all_digits(s),
    ensures
        digits_value(s) >= 0,
    decreases s.len(),
{
    if s.len() > 0 {
        assert(is_digit(s[s.len() - 1]));
        lemma_digits_value_nonneg(s.drop_last());
    }
}

/// The characters of a text, in order.
fn chars_of(s: &str) -> (r: Vec<char>)
    ensures
        r@ == s@,
{
    let mut v: Vec<char> = Vec::new();
    for c in it: s.chars()
        invariant
            v@ == it.seq().take(it.index() as int),
    {
        v.push(c);
    }
    assert(v@ =~= s@);
    v
}

/// Above every magnitude an `i16` can hold.
const SATURATION: u32 = 100000;

/// Reads a rating written as a decimal numeral; `None` when the text is not a
/// numeral or its value does not fit in an `i16`.
pub fn parse_rating(text: &str) -> (r: Option<i16>)
    ensures
        r == rating_of(text@),
{
    let cs = chars_of(text);
    let n = cs.len();
    let ghost s = text@;
    let signed = n > 0 && (cs[0] == '+' || cs[0] == '-');
    let start: usize = if signed { 1 } else { 0 };
    let negative = n > 0 && cs[0] == '-';
    let ghost digits = if has_sign(s) { s.drop_first() } else { s };
    assert(digits =~= s.subrange(start as int, n as int));
    if start >= n {
        return None;
    }
    let mut acc: u32 = 0;
    let mut i: usize = start;
    while i < n
        invariant
            cs@ == s,
            s == text@,
            n == s.len(),
            start <= i <= n,
            digits == s.subrange(start as int, n as int),
            digits == (if has_sign(s) { s.drop_first() } else { s }),
            all_digits(s.subrange(start as int, i as int)),
            acc as int == if digits_value(s.subrange(start as int, i as int)) < SATURATION {
                digits_value(s.subrange(start as int, i as int))
            } else {
                SATURATION as int
            },
        decreases n - i,
    {
        let c = cs[i];
        if !('0' <= c && c <= '9') {
            assert(digits[i - start] == c);
            assert(!is_digit(digits[i - start]));
            assert(!all_digits(digits));
            return None;
        }
        let ghost prefix = s.subrange(start as int, i as int);
        let ghost next = s.subrange(start as int, i + 1);
        assert(next.drop_last() =~= prefix);
        proof {
            lemma_digits_value_nonneg(prefix);
        }
        let d: u32 = (c as u32) - ('0' as u32);
        let grown: u32 = acc * 10 + d;
        acc = if grown >= SATURATION { SATURATION } else { grown };
        i = i + 1;
        assert(all_digits(next));
    }
    assert(s.subrange(start as int, n as int) =~= digits);
    proof {
        lemma_digits_value_nonneg(digits);
    }
    if acc >= SATURATION {
        return None;
    }
    let value: i32 = if negative { -(acc as i32) } else { acc as i32 };
    if value < -32768 || value > 32767 {
        None
    } else {
        Some(value as i16)
    }
}

/// A player's profile.
#[derive(Clone, Debug)]
pub struct MaimaiUser {
    pub name: String,
    pub rating: i16,
}

/// Why a profile could not be read from a page.
#[derive(Clone, Copy, Debug, PartialEq, Eq, Structural)]
pub enum UserError {
    /// The page has no text in a name block.
    MissingName,
    /// The page has no text in a rating block.
    MissingRating,
    /// The rating text is not a number that fits in an `i16`.
    InvalidRating,
}

/// The profile that a name text and a rating text give, as plain values.
pub open spec fn profile_of(name: Option<Seq<char>>, rating: Option<Seq<char>>) -> Result<(Seq<char>, i16), UserError> {
    match name {
        None => Err(UserError::MissingName),
        Some(n) => match rating {
            None => Err(UserError::MissingRating),
            Some(t) => match rating_of(t) {
                None => Err(UserError::InvalidRating),
                Some(v) => Ok((n, v)),
            },
        },
    }
}

/// A profile result seen as plain values.
pub open spec fn result_view(r: Result<MaimaiUser, UserError>) -> Result<(Seq<char>, i16), UserError> {
    match r {
        Ok(u) => Ok((u.name@, u.rating)),
        Err(e) => Err(e),
    }
}

/// The selector of the element that holds the player's name.
pub const NAME_SELECTOR: &'static str = ".name_block";

/// The selector of the element that holds the player's rating.
pub const RATING_SELECTOR: &'static str = ".rating_block";

impl MaimaiUser {
    /// Builds a profile from the first text of the page's name block and of
    /// its rating block.
    pub fn from_texts(name: Option<String>, rating: Option<String>) -> (r: Result<MaimaiUser, UserError>)
        ensures
            result_view(r) == profile_of(opt_text(name), opt_text(rating)),
    {
        match name {
            None => Err(UserError::MissingName),
            Some(n) => match rating {
                None => Err(UserError::MissingRating),
                Some(t) => match parse_rating(t.as_str()) {
                    None => Err(UserError::InvalidRating),
                    Some(v) => Ok(MaimaiUser { name: n, rating: v }),
                },
            },
        }
    }

    /// Reads the profile from the home page of a logged-in session: the name
    /// is the first text of the first name block, the rating that of the
    /// first rating block.
    pub fn populate(home_html: String) -> (r: Result<MaimaiUser, UserError>)
        ensures
            result_view(r) == profile_of(
                first_selected(home_html@, NAME_SELECTOR@),
                first_selected(home_html@, RATING_SELECTOR@),
            ),
    {
        let doc = Deserializer::from_html(home_html);
        let name = first_match_text(&doc, NAME_SELECTOR);
        let rating = first_match_text(&doc, RATING_SELECTOR);
        MaimaiUser::from_texts(name, rating)
    }
}

} // verus!
