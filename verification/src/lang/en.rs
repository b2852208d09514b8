//! Numbers, ordinals, months and ranges as they are written in English.

use crate::types::NumRange;
use vstd::prelude::*;
use vstd::string::StringExecFns;

verus! {

/// The character of a decimal digit.
pub open spec fn digit_char(d: nat) -> char {
    if d == 0 {
        '0'
    } else if d == 1 {
        '1'
    } else if d == 2 {
        '2'
    } else if d == 3 {
        '3'
    } else if d == 4 {
        '4'
    } else if d == 5 {
        '5'
    } else if d == 6 {
        '6'
    } else if d == 7 {
        '7'
    } else if d == 8 {
        '8'
    } else {
        '9'
    }
}

/// The decimal digits of a natural number, without leading zeros.
pub open spec fn digits(n: nat) -> Seq<char>
    decreases n,
{
    if n < 10 {
        seq![digit_char(n)]
    } else {
        digits(n / 10).push(digit_char(n % 10))
    }
}

/// A whole number in decimal notation, with a minus sign where it is
/// negative.
pub open spec fn decimal(n: int) -> Seq<char> {
    if n < 0 {
        seq!['-'] + digits((-n) as nat)
    } else {
        digits(n as nat)
    }
}

fn digit_text(d: u64) -> (r: &'static str)
    requires
        d < 10,
    ensures
        r@ == seq![digit_char(d as nat)],
{
    proof {
        reveal_strlit("0");
        reveal_strlit("1");
        reveal_strlit("2");
        reveal_strlit("3");
        reveal_strlit("4");
        reveal_strlit("5");
        reveal_strlit("6");
        reveal_strlit("7");
        reveal_strlit("8");
        reveal_strlit("9");
    }
    let r = if d == 0 {
        "0"
    } else if d == 1 {
        "1"
    } else if d == 2 {
        "2"
    } else if d == 3 {
        "3"
    } else if d == 4 {
        "4"
    } else if d == 5 {
        "5"
    } else if d == 6 {
        "6"
    } else if d == 7 {
        "7"
    } else if d == 8 {
        "8"
    } else {
        "9"
    };
    assert(r@ =~= seq![digit_char(d as nat)]);
    r
}

/// The decimal digits of a natural number.
pub fn digits_text(n: u64) -> (r: String)
    ensures
        r@ == digits(n as nat),
    decreases n,
{
    if n < 10 {
        String::from_str(digit_text(n))
    } else {
        let mut r = digits_text(n / 10);
        r.append(digit_text(n % 10));
        assert(r@ =~= digits(n as nat));
        r
    }
}

/// A whole number in decimal notation.
pub fn number_text(n: i64) -> (r: String)
    ensures
        r@ == decimal(n as int),
{
    if n < 0 {
        proof {
            reveal_strlit("-");
        }
        let magnitude: u64 = (-(n as i128)) as u64;
        let mut r = String::from_str("-");
        let tail = digits_text(magnitude);
        r.append(tail.as_str());
        assert(r@ =~= decimal(n as int));
        r
    } else {
        digits_text(n as u64)
    }
}

/// The ending of the ordinal of a number: "th" for the teens, else by the
/// last digit.
pub open spec fn ordinal_ending(n: int) -> Seq<char> {
    let magnitude = if n < 0 {
        -n
    } else {
        n
    };
    let t = magnitude % 100;
    if 11 <= t <= 13 {
        "th"@
    } else if t % 10 == 1 {
        "st"@
    } else if t % 10 == 2 {
        "nd"@
    } else if t % 10 == 3 {
        "rd"@
    } else {
        "th"@
    }
}

/// The ordinal of a number: "1st", "2nd", "3rd", "4th", "11th", "21st".
pub open spec fn ordinal(n: int) -> Seq<char> {
    decimal(n) + ordinal_ending(n)
}

/// The ordinal of a number.
pub fn get_ordinal(i: i64) -> (r: String)
    ensures
        r@ == ordinal(i as int),
{
    let magnitude: i128 = if i < 0 {
        -(i as i128)
    } else {
        i as i128
    };
    let t = magnitude % 100;
    let ending = if 11 <= t && t <= 13 {
        "th"
    } else if t % 10 == 1 {
        "st"
    } else if t % 10 == 2 {
        "nd"
    } else if t % 10 == 3 {
        "rd"
    } else {
        "th"
    };
    let mut r = number_text(i);
    r.append(ending);
    r
}

/// The short name of a month, January being month zero; nothing for a
/// number that is no month.
pub open spec fn month_name(month: u8) -> Option<Seq<char>> {
    if month == 0 {
        Some("Jan"@)
    } else if month == 1 {
        Some("Feb"@)
    } else if month == 2 {
        Some("Mar"@)
    } else if month == 3 {
        Some("Apr"@)
    } else if month == 4 {
        Some("May"@)
    } else if month == 5 {
        Some("June"@)
    } else if month == 6 {
        Some("July"@)
    } else if month == 7 {
        Some("Aug"@)
    } else if month == 8 {
        Some("Sept"@)
    } else if month == 9 {
        Some("Oct"@)
    } else if month == 10 {
        Some("Nov"@)
    } else if month == 11 {
        Some("Dec"@)
    } else {
        None
    }
}

/// Whether the short name of the month is the full name, after which no
/// period is due.
pub open spec fn month_is_short(month: u8) -> bool {
    month == 4 || month == 5 || month == 6
}

/// The abbreviation of a month; with `period`, a period follows every name
/// that is cut short.
pub open spec fn month_abbr(month: u8, period: bool) -> Option<Seq<char>> {
    match month_name(month) {
        Some(name) => if period && !month_is_short(month) {
            Some(name + "."@)
        } else {
            Some(name)
        },
        None => None,
    }
}

/// The abbreviation of a month, January being month zero.
pub fn get_month_abbr(month: u8, period: bool) -> (r: Option<String>)
    ensures
        match r {
            Some(abbr) => month_abbr(month, period) == Some(abbr@),
            None => month_abbr(month, period) is None,
        },
{
    let name = if month == 0 {
        "Jan"
    } else if month == 1 {
        "Feb"
    } else if month == 2 {
        "Mar"
    } else if month == 3 {
        "Apr"
    } else if month == 4 {
        "May"
    } else if month == 5 {
        "June"
    } else if month == 6 {
        "July"
    } else if month == 7 {
        "Aug"
    } else if month == 8 {
        "Sept"
    } else if month == 9 {
        "Oct"
    } else if month == 10 {
        "Nov"
    } else if month == 11 {
        "Dec"
    } else {
        return None;
    };
    let mut abbr = String::from_str(name);
    if period && !(month == 4 || month == 5 || month == 6) {
        abbr.append(".");
    }
    Some(abbr)
}

/// A range of numbers after a prefix: the prefix for one number and the
/// number where the range is a single number, otherwise the prefix for
/// several, and the two ends with a dash between them. A blank stands after
/// the prefix unless the prefix for one is empty.
pub open spec fn range_text(one: Seq<char>, several: Seq<char>, range: NumRange) -> Seq<char> {
    let space = if one.len() == 0 {
        Seq::empty()
    } else {
        " "@
    };
    if range.start == range.end {
        one + space + decimal(range.start as int)
    } else {
        several + space + decimal(range.start as int) + "–"@ + decimal(range.end as int)
    }
}

/// A range of numbers after a prefix.
pub fn format_range(prefix_s: &str, prefix_m: &str, range: &NumRange) -> (r: String)
    ensures
        r@ == range_text(prefix_s@, prefix_m@, *range),
{
    let space = if prefix_s.unicode_len() == 0 {
        proof {
            reveal_strlit("");
        }
        assert(""@ =~= Seq::<char>::empty());
        ""
    } else {
        " "
    };
    if range.start == range.end {
        let mut r = String::from_str(prefix_s);
        r.append(space);
        r.append(number_text(range.start).as_str());
        r
    } else {
        let mut r = String::from_str(prefix_m);
        r.append(space);
        r.append(number_text(range.start).as_str());
        r.append("–");
        r.append(number_text(range.end).as_str());
        r
    }
}

} // verus!
