//! Dates as the user writes them, and Unix timestamps as the providers read
//! them.

use vstd::prelude::*;
use vstd::string::StringExecFns;

verus! {

/// Whether a character is `+` or `-`.
pub open spec fn is_sign(c: char) -> bool {
    c == '+' || c == '-'
}

/// Whether a character is one of the ten ASCII digits.
pub open spec fn is_digit(c: char) -> bool {
    '0' <= c && c <= '9'
}

/// Whether the text has, from position `i` on, a sign, two digits that make
/// 24 or more, and then a digit or a colon.
pub open spec fn wide_offset_at(text: Seq<char>, i: int) -> bool {
    &&& 0 <= i
    &&& i + 3 < text.len()
    &&& is_sign(text[i])
    &&& is_digit(text[i + 1])
    &&& is_digit(text[i + 2])
    &&& (text[i + 1] >= '3' || (text[i + 1] == '2' && text[i + 2] >= '4'))
    &&& (is_digit(text[i + 3]) || text[i + 3] == ':')
}

/// Whether the last six characters of a text hold what can be read as an
/// offset from UTC of 24 hours or more. No date has such an offset.
pub open spec fn ends_in_wide_offset(text: Seq<char>) -> bool {
    exists|i: int| text.len() - 6 <= i && #[trigger] wide_offset_at(text, i)
}

/// The character of a digit.
pub open spec fn digit_char(digit: int) -> char {
    if digit == 0 {
        '0'
    } else if digit == 1 {
        '1'
    } else if digit == 2 {
        '2'
    } else if digit == 3 {
        '3'
    } else if digit == 4 {
        '4'
    } else if digit == 5 {
        '5'
    } else if digit == 6 {
        '6'
    } else if digit == 7 {
        '7'
    } else if digit == 8 {
        '8'
    } else {
        '9'
    }
}

/// A natural number in decimal digits, without leading zeros.
pub open spec fn natural_text(n: nat) -> Seq<char>
    decreases n,
{
    if n < 10 {
        seq![digit_char(n as int)]
    } else {
        natural_text(n / 10).push(digit_char((n % 10) as int))
    }
}

/// The number that a digit stands for.
pub open spec fn digit_value(c: char) -> int {
    c as int - '0' as int
}

/// The number that a text of decimal digits stands for.
pub open spec fn digits_value(text: Seq<char>) -> int
    decreases text.len(),
{
    if text.len() == 0 {
        0
    } else {
        10 * digits_value(text.drop_last()) + digit_value(text.last())
    }
}

/// The decimal text of a natural number is made of digits, starts with a
/// zero only where the number is below ten, and stands for that number.
pub proof fn lemma_natural_text_stands_for_number(n: nat)
    ensures
        natural_text(n).len() >= 1,
        forall|i: int| 0 <= i < natural_text(n).len() ==> is_digit(#[trigger] natural_text(n)[i]),
        n >= 10 ==> natural_text(n)[0] != '0',
        digits_value(natural_text(n)) == n,
    decreases n,
{
    if n < 10 {
        assert(digits_value(natural_text(n).drop_last()) == 0);
    } else {
        lemma_natural_text_stands_for_number(n / 10);
        assert(natural_text(n).drop_last() =~= natural_text(n / 10));
    }
}

/// An integer in decimal digits, with a minus sign in front where it is
/// negative.
pub open spec fn integer_text(n: int) -> Seq<char> {
    if n < 0 {
        seq!['-'] + natural_text((-n) as nat)
    } else {
        natural_text(n as nat)
    }
}

/// Whether every character of a text is one of the ten ASCII digits.
pub open spec fn all_digits(text: Seq<char>) -> bool {
    forall|i: int| 0 <= i < text.len() ==> is_digit(#[trigger] text[i])
}

/// The moment that a text names as a Unix timestamp, in seconds since the
/// epoch: ten digits count seconds, thirteen digits milliseconds, and
/// nineteen digits nanoseconds, as far as an `i64` holds them. No other text
/// is a Unix timestamp.
pub open spec fn unix_seconds(text: Seq<char>) -> Option<int> {
    if !all_digits(text) {
        None
    } else if text.len() == 10 {
        Some(digits_value(text))
    } else if text.len() == 13 {
        Some(digits_value(text) / 1000)
    } else if text.len() == 19 && digits_value(text) <= i64::MAX {
        Some(digits_value(text) / 1_000_000_000)
    } else {
        None
    }
}

/// A text of digits holds no sign, and so no offset from UTC.
pub proof fn lemma_digits_hold_no_offset(text: Seq<char>)
    requires
        all_digits(text),
    ensures
        !ends_in_wide_offset(text),
{
    assert forall|i: int| !wide_offset_at(text, i) by {
        if 0 <= i && i + 3 < text.len() {
            assert(is_digit(text[i]));
        }
    }
}

/// `dateparser::parse_with`, with UTC as the time zone of a date that names
/// none and midnight as the time of a date that has none: the moment that the
/// text names, in seconds since the Unix epoch, or nothing where no format
/// matches. A Unix timestamp is the first format that `dateparser` tries, and
/// the moment is the one that the digits name. Of every other text nothing is
/// claimed: some formats are completed from the current date. A text that
/// ends in an offset of 24 hours or more is left out, since `dateparser`
/// cannot build such an offset.
#[verifier::external_body]
pub(crate) fn parse_timestamp(date: &str) -> (r: Option<i64>)
    requires
        !ends_in_wide_offset(date@),
    ensures
        unix_seconds(date@) matches Some(seconds) ==> r == Some(seconds as i64),
{
    match dateparser::parse_with(date, &chrono::Utc, chrono::NaiveTime::MIN) {
        Ok(moment) => Some(moment.timestamp()),
        Err(_) => None,
    }
}

/// Tells whether the last six characters of a date hold an offset from UTC of
/// 24 hours or more.
pub fn has_wide_offset(date: &str) -> (r: bool)
    ensures
        r == ends_in_wide_offset(date@),
{
    let length = date.unicode_len();
    if length < 4 {
        return false;
    }
    let mut at: usize = if length > 6 {
        length - 6
    } else {
        0
    };
    while at < length - 3
        invariant
            length == date@.len(),
            length >= 4,
            length - 6 <= at,
            forall|i: int| length - 6 <= i < at ==> !wide_offset_at(date@, i),
        decreases length - at,
    {
        let sign = date.get_char(at);
        let tens = date.get_char(at + 1);
        let ones = date.get_char(at + 2);
        let after = date.get_char(at + 3);
        if (sign == '+' || sign == '-') && '0' <= tens && tens <= '9' && '0' <= ones && ones
            <= '9' && (tens >= '3' || (tens == '2' && ones >= '4')) && (('0' <= after && after
            <= '9') || after == ':') {
            assert(wide_offset_at(date@, at as int));
            return true;
        }
        at = at + 1;
    }
    false
}

/// The timestamp of a date, where `dateparser` finds one. A date that ends in
/// an offset of 24 hours or more has none. A Unix timestamp in seconds,
/// milliseconds or nanoseconds is its own moment, in seconds.
pub fn timestamp_of(date: &str) -> (r: Option<i64>)
    ensures
        ends_in_wide_offset(date@) ==> r is None,
        unix_seconds(date@) matches Some(seconds) ==> r == Some(seconds as i64),
{
    proof {
        if all_digits(date@) {
            lemma_digits_hold_no_offset(date@);
        }
    }
    if has_wide_offset(date) {
        None
    } else {
        parse_timestamp(date)
    }
}

/// The text of one decimal digit.
fn digit_text(digit: u64) -> (r: &'static str)
    requires
        digit < 10,
    ensures
        r@ == seq![digit_char(digit as int)],
{
    proof {
        reveal_strlit("0");
        reveal_strlit("1");
        reveal_strlit("2");
        reveal_strlit("3");
        reveal_strlit("4");
        reveal_strlit("5");
        reveal_strlit("6");
        reveal_strlit("7");
        reveal_strlit("8");
        reveal_strlit("9");
    }
    let text = if digit == 0 {
        "0"
    } else if digit == 1 {
        "1"
    } else if digit == 2 {
        "2"
    } else if digit == 3 {
        "3"
    } else if digit == 4 {
        "4"
    } else if digit == 5 {
        "5"
    } else if digit == 6 {
        "6"
    } else if digit == 7 {
        "7"
    } else if digit == 8 {
        "8"
    } else {
        "9"
    };
    text
}

/// Appends a natural number in decimal digits to a text.
fn push_natural(text: &mut String, n: u64)
    ensures
        final(text)@ == old(text)@ + natural_text(n as nat),
    decreases n,
{
    if n >= 10 {
        push_natural(text, n / 10);
    }
    text.append(digit_text(n % 10));
}

/// Writes a timestamp in decimal digits, as it stands in a query.
pub fn timestamp_text(timestamp: i64) -> (r: String)
    ensures
        r@ == integer_text(timestamp as int),
{
    let mut text = String::new();
    if timestamp < 0 {
        proof {
            reveal_strlit("-");
        }
        text.append("-");
        let magnitude: i128 = -(timestamp as i128);
        push_natural(&mut text, magnitude as u64);
    } else {
        push_natural(&mut text, timestamp as u64);
    }
    text
}

} // verus!
