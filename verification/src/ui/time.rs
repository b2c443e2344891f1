//! Timestamps in RFC 3339 form and how long ago they were.
use crate::text::{chars_of, decimal, decimal_chars, parse_small_unsigned, parse_unsigned, push_str, slice_chars, string_of};
use vstd::prelude::*;

verus! {

/// Whether `y` is a leap year of the Gregorian calendar.
pub open spec fn spec_is_leap(y: int) -> bool {
    (y % 4 == 0 && y % 100 != 0) || y % 400 == 0
}

/// Whether `y` is a leap year.
pub fn is_leap(y: u64) -> (r: bool)
    ensures
        r == spec_is_leap(y as int),
{
    (y % 4 == 0 && y % 100 != 0) || y % 400 == 0
}

/// The number of days of year `y`.
pub open spec fn year_days(y: int) -> nat {
    if spec_is_leap(y) {
        366
    } else {
        365
    }
}

/// The days from the start of 1970 to the start of year `y` (none before 1970).
pub open spec fn days_before_year(y: nat) -> nat
    decreases y,
{
    if y <= 1970 {
        0
    } else {
        days_before_year((y - 1) as nat) + year_days(y - 1)
    }
}

/// The days of month `m` (counted from zero) in a year that is leap or not.
pub open spec fn month_days(m: nat, leap: bool) -> nat {
    if m == 1 {
        if leap {
            29
        } else {
            28
        }
    } else if m == 3 || m == 5 || m == 8 || m == 10 {
        30
    } else {
        31
    }
}

/// The days of the months before month `month` (counted from one).
pub open spec fn days_before_month(month: nat, leap: bool) -> nat
    decreases month,
{
    if month <= 1 {
        0
    } else {
        days_before_month((month - 1) as nat, leap) + month_days((month - 2) as nat, leap)
    }
}

/// The six numbers of a timestamp `YYYY-MM-DDTHH:MM:SS...`: each field is read
/// as `str::parse::<u64>` reads it and the separators are not looked at; there
/// are none when a field does not parse, when the text is shorter than 19
/// characters, or when one of its first 19 characters is not ASCII.
pub open spec fn rfc3339_fields(s: Seq<char>) -> Option<(nat, nat, nat, nat, nat, nat)> {
    if s.len() < 19 || exists|i: int| 0 <= i < 19 && (#[trigger] s[i] as u32) >= 128 {
        None
    } else {
        match (
            parse_unsigned(s.subrange(0, 4)),
            parse_unsigned(s.subrange(5, 7)),
            parse_unsigned(s.subrange(8, 10)),
            parse_unsigned(s.subrange(11, 13)),
            parse_unsigned(s.subrange(14, 16)),
            parse_unsigned(s.subrange(17, 19)),
        ) {
            (Some(y), Some(mo), Some(d), Some(h), Some(mi), Some(se)) => Some((y, mo, d, h, mi, se)),
            _ => None,
        }
    }
}

/// The timestamp can be converted: when it has its six fields, the month is
/// between 1 and 13 and the day is not 0 (other values make the month table
/// lookup or the day count fail).
pub open spec fn rfc3339_in_range(s: Seq<char>) -> bool {
    rfc3339_fields(s) matches Some(f) ==> 1 <= f.1 <= 13 && f.2 >= 1
}

/// Seconds since the start of 1970 for the given fields.
pub open spec fn epoch_seconds(f: (nat, nat, nat, nat, nat, nat)) -> int {
    let days = days_before_year(f.0) + days_before_month(f.1, spec_is_leap(f.0 as int)) + f.2 - 1;
    days * 86400 + f.3 * 3600 + f.4 * 60 + f.5
}

/// What converting a timestamp gives: the seconds since 1970, or an error when
/// it does not have its six fields.
pub open spec fn spec_parse_rfc3339(s: Seq<char>) -> Result<int, ()> {
    match rfc3339_fields(s) {
        Some(f) => Ok(epoch_seconds(f)),
        None => Err(()),
    }
}

/// The six fields of a timestamp, if it has them.
pub fn rfc3339_fields_of(s: &str) -> (r: Option<(u64, u64, u64, u64, u64, u64)>)
    ensures
        r matches Some(f) ==> rfc3339_fields(s@) == Some(
            (f.0 as nat, f.1 as nat, f.2 as nat, f.3 as nat, f.4 as nat, f.5 as nat),
        ),
        r is None ==> rfc3339_fields(s@) is None,
        r matches Some(f) ==> f.0 < 10000 && f.1 < 100 && f.2 < 100 && f.3 < 100 && f.4 < 100
            && f.5 < 100,
{
    let v = chars_of(s);
    if v.len() < 19 {
        return None;
    }
    let mut i: usize = 0;
    while i < 19
        invariant
            i <= 19 <= v.len(),
            v@ == s@,
            forall|j: int| 0 <= j < i ==> (v@[j] as u32) < 128,
        decreases 19 - i,
    {
        if v[i] as u32 >= 128 {
            assert(s@[i as int] == v@[i as int]);
            return None;
        }
        i += 1;
    }
    let y = parse_small_unsigned(&slice_chars(&v, 0, 4));
    let mo = parse_small_unsigned(&slice_chars(&v, 5, 7));
    let d = parse_small_unsigned(&slice_chars(&v, 8, 10));
    let h = parse_small_unsigned(&slice_chars(&v, 11, 13));
    let mi = parse_small_unsigned(&slice_chars(&v, 14, 16));
    let se = parse_small_unsigned(&slice_chars(&v, 17, 19));
    proof {
        lemma_parse_bound(v@.subrange(0, 4));
        lemma_parse_bound(v@.subrange(5, 7));
        lemma_parse_bound(v@.subrange(8, 10));
        lemma_parse_bound(v@.subrange(11, 13));
        lemma_parse_bound(v@.subrange(14, 16));
        lemma_parse_bound(v@.subrange(17, 19));
    }
    match (y, mo, d, h, mi, se) {
        (Some(y), Some(mo), Some(d), Some(h), Some(mi), Some(se)) => Some((y, mo, d, h, mi, se)),
        _ => None,
    }
}

/// A parsed field of `n` characters is below `10^n`.
proof fn lemma_parse_bound(s: Seq<char>)
    requires
        s.len() <= 4,
    ensures
        parse_unsigned(s) matches Some(x) ==> (s.len() <= 2 ==> x < 100) && x < 10000,
{
    let body = crate::text::unsigned_body(s);
    if body.len() > 0 && crate::text::all_digits(body) {
        lemma_digits_bound(body);
    }
}

proof fn lemma_digits_bound(s: Seq<char>)
    requires
        s.len() <= 4,
        crate::text::all_digits(s),
    ensures
        crate::text::digits_value(s) < crate::text::pow10(s.len()),
        s.len() <= 2 ==> crate::text::digits_value(s) < 100,
        crate::text::digits_value(s) < 10000,
    decreases s.len(),
{
    reveal_with_fuel(crate::text::pow10, 5);
    if s.len() > 0 {
        assert(crate::text::all_digits(s.drop_last())) by {
            assert forall|i: int| 0 <= i < s.drop_last().len() implies crate::text::is_digit(
                #[trigger] s.drop_last()[i],
            ) by {
                assert(s.drop_last()[i] == s[i]);
            }
        }
        lemma_digits_bound(s.drop_last());
        assert(crate::text::is_digit(s[s.len() - 1]));
    }
}

/// Whether `s` can be converted by `parse_rfc3339`.
pub fn timestamp_in_range(s: &str) -> (r: bool)
    ensures
        r == rfc3339_in_range(s@),
{
    match rfc3339_fields_of(s) {
        Some(f) => 1 <= f.1 && f.1 <= 13 && f.2 >= 1,
        None => true,
    }
}

fn month_length(m: u64, leap: bool) -> (r: u64)
    ensures
        r == month_days(m as nat, leap),
{
    if m == 1 {
        if leap {
            29
        } else {
            28
        }
    } else if m == 3 || m == 5 || m == 8 || m == 10 {
        30
    } else {
        31
    }
}

/// The seconds since 1970 of a timestamp `YYYY-MM-DDTHH:MM:SS...`, or an error
/// when it does not have its six fields.
pub fn parse_rfc3339(s: &str) -> (r: Result<u64, ()>)
    requires
        rfc3339_in_range(s@),
    ensures
        r matches Ok(x) ==> spec_parse_rfc3339(s@) == Ok::<int, ()>(x as int),
        r is Err ==> spec_parse_rfc3339(s@) is Err,
{
    let (year, month, day, hour, min, sec) = match rfc3339_fields_of(s) {
        Some(f) => f,
        None => return Err(()),
    };
    let mut days: u64 = 0;
    let mut y: u64 = 1970;
    while y < year
        invariant
            1970 <= y,
            y <= year || y == 1970,
            year < 10000,
            days == days_before_year(y as nat),
            days <= 366 * (y - 1970),
        decreases year - y,
    {
        days = days + if is_leap(y) {
            366
        } else {
            365
        };
        y = y + 1;
    }
    assert(days == days_before_year(year as nat)) by {
        if year < 1970 {
            assert(days_before_year(year as nat) == 0);
        }
    }
    let leap = is_leap(year);
    let mut m: u64 = 0;
    while m < month - 1
        invariant
            1 <= month <= 13,
            m <= month - 1,
            days == days_before_year(year as nat) + days_before_month((m + 1) as nat, leap),
            days <= 366 * 10000 + 31 * m,
            leap == spec_is_leap(year as int),
        decreases month - 1 - m,
    {
        days = days + month_length(m, leap);
        m = m + 1;
    }
    days = days + day - 1;
    Ok(days * 86400 + hour * 3600 + min * 60 + sec)
}

/// How long ago a number of seconds is, in the largest unit that fits:
/// seconds, minutes, hours, days, months of 30 days or years of 365 days.
pub open spec fn ago_text(secs: nat) -> Seq<char> {
    if secs < 60 {
        decimal(secs) + "s ago"@
    } else if secs < 3600 {
        decimal(secs / 60) + "m ago"@
    } else if secs < 86400 {
        decimal(secs / 3600) + "h ago"@
    } else if secs < 86400 * 30 {
        decimal(secs / 86400) + "d ago"@
    } else if secs < 86400 * 365 {
        decimal(secs / (86400 * 30)) + "mo ago"@
    } else {
        decimal(secs / (86400 * 365)) + "y ago"@
    }
}

/// What `timeago` shows for timestamp `ts` at time `now` (seconds since 1970):
/// nothing when `ts` does not convert, else how long before `now` it is
/// (none when it is later than `now`).
pub open spec fn spec_timeago(ts: Seq<char>, now: nat) -> Seq<char> {
    match spec_parse_rfc3339(ts) {
        Ok(then) => ago_text(if now >= then {
            (now - then) as nat
        } else {
            0
        }),
        Err(_) => Seq::empty(),
    }
}

/// How long before `now` (seconds since 1970, read from the clock by the
/// caller) the timestamp `ts` is, as a short text such as `3h ago`.
pub fn timeago(ts: &str, now: u64) -> (r: String)
    requires
        rfc3339_in_range(ts@),
    ensures
        r@ == spec_timeago(ts@, now as nat),
{
    let then = match parse_rfc3339(ts) {
        Ok(t) => t,
        Err(_) => return string_of(&Vec::new()),
    };
    let secs = now.saturating_sub(then);
    let (n, unit) = if secs < 60 {
        (secs, "s ago")
    } else if secs < 3600 {
        (secs / 60, "m ago")
    } else if secs < 86400 {
        (secs / 3600, "h ago")
    } else if secs < 86400 * 30 {
        (secs / 86400, "d ago")
    } else if secs < 86400 * 365 {
        (secs / (86400 * 30), "mo ago")
    } else {
        (secs / (86400 * 365), "y ago")
    };
    let mut v = decimal_chars(n);
    push_str(&mut v, unit);
    string_of(&v)
}

} // verus!
