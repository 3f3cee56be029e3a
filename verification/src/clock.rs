//! Creation times of result envelopes, as text.

use vstd::prelude::*;
use vstd::string::*;

verus! {

/// A decimal digit.
pub open spec fn is_digit(c: char) -> bool {
    '0' <= c && c <= '9'
}

/// Every character of `s` from `from` up to, not including, `to` is a digit.
pub open spec fn all_digits(s: Seq<char>, from: int, to: int) -> bool {
    forall|i: int| from <= i < to ==> is_digit(#[trigger] s[i])
}

/// The offset that closes every timestamp: `+00:00`.
pub open spec fn utc_offset() -> Seq<char> {
    seq!['+', '0', '0', ':', '0', '0']
}

/// How many characters follow the year in a timestamp whose seconds carry
/// `fraction` decimal places: `-MM-DDTHH:MM:SS`, the fraction with its point,
/// and the offset.
pub open spec fn length_after_year(fraction: int) -> int {
    15 + (if fraction == 0 { 0 } else { fraction + 1 }) + 6
}

/// `s` is a date, a `T`, a time of day with `fraction` decimal places and the
/// offset `+00:00`. The year has four digits, or a `+` and five digits or more.
pub open spec fn is_timestamp_with(s: Seq<char>, fraction: int) -> bool {
    let y = s.len() - length_after_year(fraction);
    &&& (y == 4 && all_digits(s, 0, 4)) || (y >= 6 && s[0] == '+' && all_digits(s, 1, y))
    &&& s[y] == '-' && all_digits(s, y + 1, y + 3)
    &&& s[y + 3] == '-' && all_digits(s, y + 4, y + 6)
    &&& s[y + 6] == 'T' && all_digits(s, y + 7, y + 9)
    &&& s[y + 9] == ':' && all_digits(s, y + 10, y + 12)
    &&& s[y + 12] == ':' && all_digits(s, y + 13, y + 15)
    &&& fraction > 0 ==> s[y + 15] == '.' && all_digits(s, y + 16, y + 16 + fraction)
    &&& s.subrange(s.len() - 6, s.len() as int) == utc_offset()
}

/// An RFC 3339 timestamp in UTC with its offset written out, such as
/// `2024-05-17T09:30:00.125+00:00`: the seconds stand alone or carry three,
/// six or nine decimal places.
pub open spec fn is_timestamp(s: Seq<char>) -> bool {
    is_timestamp_with(s, 0) || is_timestamp_with(s, 3) || is_timestamp_with(s, 6)
        || is_timestamp_with(s, 9)
}

/// Reads the wall clock and renders it: `chrono::Utc::now`, then
/// `DateTime::to_rfc3339`.
///
/// Trusted: the text has the shape of `is_timestamp`. Nothing is claimed about
/// the instant it names: the clock may stand still or be set back between two
/// calls. The call aborts if the system clock is set before 1970.
#[verifier::external_body]
pub(crate) fn current_timestamp() -> (text: String)
    ensures
        is_timestamp(text@),
{
    chrono::Utc::now().to_rfc3339()
}

fn digit(c: char) -> (yes: bool)
    ensures
        yes == is_digit(c),
{
    '0' <= c && c <= '9'
}

fn digits_between(text: &str, from: usize, to: usize) -> (yes: bool)
    requires
        from <= to <= text@.len(),
    ensures
        yes == all_digits(text@, from as int, to as int),
{
    let mut i: usize = from;
    while i < to
        invariant
            from <= i <= to <= text@.len(),
            all_digits(text@, from as int, i as int),
        decreases to - i,
    {
        if !digit(text.get_char(i)) {
            return false;
        }
        i += 1;
    }
    true
}

fn ends_with_utc_offset(text: &str, len: usize) -> (yes: bool)
    requires
        len == text@.len(),
        len >= 6,
    ensures
        yes == (text@.subrange(len - 6, len as int) == utc_offset()),
{
    let sign = text.get_char(len - 6);
    let hours = (text.get_char(len - 5), text.get_char(len - 4));
    let colon = text.get_char(len - 3);
    let minutes = (text.get_char(len - 2), text.get_char(len - 1));
    let yes = sign == '+' && hours.0 == '0' && hours.1 == '0' && colon == ':' && minutes.0 == '0'
        && minutes.1 == '0';
    proof {
        let tail = text@.subrange(len - 6, len as int);
        assert(tail.len() == 6);
        assert(tail[0] == sign && tail[1] == hours.0 && tail[2] == hours.1);
        assert(tail[3] == colon && tail[4] == minutes.0 && tail[5] == minutes.1);
        if yes {
            assert(tail =~= utc_offset());
        }
    }
    yes
}

fn is_well_formed_with(text: &str, len: usize, fraction: usize) -> (yes: bool)
    requires
        len == text@.len(),
        fraction == 0 || fraction == 3 || fraction == 6 || fraction == 9,
    ensures
        yes == is_timestamp_with(text@, fraction as int),
{
    let after: usize = if fraction == 0 {
        21
    } else {
        22 + fraction
    };
    if len < after + 4 {
        return false;
    }
    let y: usize = len - after;
    let year = if y == 4 {
        digits_between(text, 0, 4)
    } else if y >= 6 {
        text.get_char(0) == '+' && digits_between(text, 1, y)
    } else {
        false
    };
    let month = text.get_char(y) == '-' && digits_between(text, y + 1, y + 3);
    let day = text.get_char(y + 3) == '-' && digits_between(text, y + 4, y + 6);
    let hour = text.get_char(y + 6) == 'T' && digits_between(text, y + 7, y + 9);
    let minute = text.get_char(y + 9) == ':' && digits_between(text, y + 10, y + 12);
    let second = text.get_char(y + 12) == ':' && digits_between(text, y + 13, y + 15);
    let places = fraction == 0 || (text.get_char(y + 15) == '.' && digits_between(
        text,
        y + 16,
        y + 16 + fraction,
    ));
    let offset = ends_with_utc_offset(text, len);
    year && month && day && hour && minute && second && places && offset
}

/// Tells whether `text` has the form of a timestamp.
pub fn is_well_formed(text: &str) -> (yes: bool)
    ensures
        yes == is_timestamp(text@),
{
    let len = text.unicode_len();
    is_well_formed_with(text, len, 0) || is_well_formed_with(text, len, 3)
        || is_well_formed_with(text, len, 6) || is_well_formed_with(text, len, 9)
}

/// Every timestamp holds a date, a time and, at its end, the offset from UTC
/// written out.
pub proof fn lemma_timestamp_names_its_offset(s: Seq<char>)
    requires
        is_timestamp(s),
    ensures
        s.len() >= 25,
        s.subrange(s.len() - 6, s.len() as int) == utc_offset(),
        exists|t: int| 10 <= t < s.len() - 14 && s[t] == 'T',
{
    let fraction: int = if is_timestamp_with(s, 0) {
        0
    } else if is_timestamp_with(s, 3) {
        3
    } else if is_timestamp_with(s, 6) {
        6
    } else {
        9
    };
    let t = s.len() - length_after_year(fraction) + 6;
    assert(s[t] == 'T');
}

} // verus!
