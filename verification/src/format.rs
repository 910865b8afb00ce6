//! Human-readable numbers in reports: calendar dates from Unix time and
//! binary-prefixed sizes.
use vstd::prelude::*;
use crate::text::{decimal, push_char, push_str, spec_decimal};

verus! {

/// Gregorian leap years.
pub open spec fn is_leap_year(y: int) -> bool {
    y % 4 == 0 && (y % 100 != 0 || y % 400 == 0)
}

/// The number of days in month `m` (1 to 12) of year `y`.
pub open spec fn days_in_month(y: int, m: int) -> int {
    if m == 2 {
        if is_leap_year(y) { 29 } else { 28 }
    } else if m == 4 || m == 6 || m == 9 || m == 11 {
        30
    } else {
        31
    }
}

/// A valid proleptic Gregorian calendar date.
pub open spec fn is_valid_date(y: int, m: int, d: int) -> bool {
    1 <= m <= 12 && 1 <= d <= days_in_month(y, m)
}

/// The number of days from 1970-01-01 to the given date (negative before it).
/// Years are counted from March, so that the leap day closes the year; an
/// era is the 400-year cycle of 146097 days.
pub open spec fn days_from_civil(y: int, m: int, d: int) -> int {
    let yp = if m <= 2 { y - 1 } else { y };
    let era = yp / 400;
    let yoe = yp - era * 400;
    let mp = if m > 2 { m - 3 } else { m + 9 };
    let doy = (153 * mp + 2) / 5 + d - 1;
    let doe = yoe * 365 + yoe / 4 - yoe / 100 + doy;
    era * 146097 + doe - 719468
}

/// The first day, within its era, of March-based year `yoe` of the era.
pub open spec fn year_start(yoe: int) -> int {
    365 * yoe + yoe / 4 - yoe / 100
}

/// The March-based year `yoe` of an era ends with a leap day.
pub open spec fn ends_leap(yoe: int) -> bool {
    (yoe + 1) % 4 == 0 && ((yoe + 1) % 100 != 0 || yoe == 399)
}

/// Which March-based year of its era a day falls in.
#[verifier::spinoff_prover]
#[verifier::rlimit(40)]
proof fn lemma_year_of_era(doe: int)
    requires
        0 <= doe <= 146096,
    ensures
        ({
            let yoe = (doe - doe / 1460 + doe / 36524 - doe / 146096) / 365;
            &&& 0 <= yoe <= 399
            &&& year_start(yoe) <= doe
            &&& doe - year_start(yoe) <= 364 || (doe - year_start(yoe) == 365 && ends_leap(yoe))
        }),
{
}

/// Within a March-based year: the month (counted from March) and its day.
proof fn lemma_month_of_year(doy: int, leap: bool)
    requires
        0 <= doy <= 364 || (doy == 365 && leap),
    ensures
        ({
            let mp = (5 * doy + 2) / 153;
            let d = doy - (153 * mp + 2) / 5 + 1;
            &&& 0 <= mp <= 11
            &&& 1 <= d
            &&& mp == 11 ==> d <= if leap { 29int } else { 28int }
            &&& (mp == 1 || mp == 3 || mp == 6 || mp == 8) ==> d <= 30
            &&& d <= 31
        }),
{
}

/// `z` divided by 146097, rounded toward negative infinity.
fn era_of(z: i64) -> (era: i64)
    requires
        z >= i64::MIN + 146_096,
    ensures
        era * 146_097 <= z < era * 146_097 + 146_097,
        era == z as int / 146_097,
{
    let era = if z >= 0 { z } else { z - 146_096 } / 146_097;
    era
}

/// Splits a day of an era into its March-based year, day of that year, month
/// (counted from March) and day of that month.
fn split_era_day(day_of_era: i64) -> (r: (i64, i64, i64, i64))
    requires
        0 <= day_of_era <= 146_096,
    ensures
        0 <= r.0 <= 399,
        r.1 == day_of_era - year_start(r.0 as int),
        0 <= r.2 <= 11,
        r.3 == r.1 - (153 * r.2 + 2) / 5 + 1,
        1 <= r.3,
        r.2 == 11 ==> r.3 <= if ends_leap(r.0 as int) { 29int } else { 28int },
        (r.2 == 1 || r.2 == 3 || r.2 == 6 || r.2 == 8) ==> r.3 <= 30,
        r.3 <= 31,
{
    proof {
        lemma_year_of_era(day_of_era as int);
    }
    let year_of_era =
        (day_of_era - day_of_era / 1_460 + day_of_era / 36_524 - day_of_era / 146_096) / 365;
    let day_of_year = day_of_era - (365 * year_of_era + year_of_era / 4 - year_of_era / 100);
    proof {
        lemma_month_of_year(day_of_year as int, ends_leap(year_of_era as int));
    }
    let month_prime = (5 * day_of_year + 2) / 153;
    let day = day_of_year - (153 * month_prime + 2) / 5 + 1;
    (year_of_era, day_of_year, month_prime, day)
}

/// The March-based year and its era, written back as a civil year.
proof fn lemma_era_year(era: int, yoe: int)
    requires
        0 <= yoe <= 399,
    ensures
        (yoe + era * 400) / 400 == era,
        (yoe + era * 400) - ((yoe + era * 400) / 400) * 400 == yoe,
        is_leap_year(yoe + era * 400 + 1) <==> ends_leap(yoe),
{
    let y = yoe + era * 400 + 1;
    vstd::arithmetic::div_mod::lemma_fundamental_div_mod_converse_div(yoe + era * 400, 400, era, yoe);
    vstd::arithmetic::div_mod::lemma_mod_multiples_vanish(100 * era, yoe + 1, 4);
    vstd::arithmetic::div_mod::lemma_mod_multiples_vanish(4 * era, yoe + 1, 100);
    vstd::arithmetic::div_mod::lemma_mod_multiples_vanish(era, yoe + 1, 400);
    assert(4 * (100 * era) + (yoe + 1) == y);
    assert(100 * (4 * era) + (yoe + 1) == y);
    assert(400 * era + (yoe + 1) == y);
}

/// Month counted from March back to the calendar month, and the day offset.
proof fn lemma_month_round_trip(mp: int, d: int, doy: int)
    requires
        0 <= mp <= 11,
        d == doy - (153 * mp + 2) / 5 + 1,
    ensures
        ({
            let m = if mp < 10 { mp + 3 } else { mp - 9 };
            let mq = if m > 2 { m - 3 } else { m + 9 };
            &&& mq == mp
            &&& (153 * mq + 2) / 5 + d - 1 == doy
            &&& (mp == 1 || mp == 3 || mp == 6 || mp == 8 <==> m == 4 || m == 6 || m == 9 || m == 11)
            &&& (mp == 11 <==> m == 2)
            &&& (m <= 2 <==> mp >= 10)
        }),
{
}

/// Reassembling the parts gives back the day count.
proof fn lemma_civil_round_trip(z: int, era: int, yoe: int, doy: int, mp: int, d: int)
    requires
        era * 146_097 <= z < era * 146_097 + 146_097,
        0 <= yoe <= 399,
        doy == z - era * 146_097 - year_start(yoe),
        0 <= mp <= 11,
        d == doy - (153 * mp + 2) / 5 + 1,
    ensures
        ({
            let m = if mp < 10 { mp + 3 } else { mp - 9 };
            let y = yoe + era * 400 + if m <= 2 { 1int } else { 0int };
            &&& days_from_civil(y, m, d) == z - 719_468
            &&& (m == 2 ==> (is_leap_year(y) <==> ends_leap(yoe)))
            &&& (mp == 1 || mp == 3 || mp == 6 || mp == 8 <==> m == 4 || m == 6 || m == 9 || m == 11)
            &&& (mp == 11 <==> m == 2)
        }),
{
    lemma_era_year(era, yoe);
    lemma_month_round_trip(mp, d, doy);
    let m = if mp < 10 { mp + 3 } else { mp - 9 };
    let y = yoe + era * 400 + if m <= 2 { 1int } else { 0int };
    let yp = if m <= 2 { y - 1 } else { y };
    assert(yp == yoe + era * 400);
    let e = yp / 400;
    assert(e == era);
    let yo = yp - e * 400;
    assert(yo == yoe);
    let mq = if m > 2 { m - 3 } else { m + 9 };
    let dy = (153 * mq + 2) / 5 + d - 1;
    assert(dy == doy);
    let doe = yo * 365 + yo / 4 - yo / 100 + dy;
    assert(doe == z - era * 146_097);
}

/// The calendar date `days_since_epoch` days after 1970-01-01 (before it
/// when negative), as (year, month, day).
pub fn civil_from_days(days_since_epoch: i64) -> (r: (i64, u32, u32))
    requires
        days_since_epoch <= i64::MAX - 719_468,
    ensures
        is_valid_date(r.0 as int, r.1 as int, r.2 as int),
        days_from_civil(r.0 as int, r.1 as int, r.2 as int) == days_since_epoch as int,
        days_since_epoch >= 0 ==> r.0 >= 0,
        (r.0 as int, r.1 as int, r.2 as int) == date_of_day(days_since_epoch as int),
{
    let z = days_since_epoch + 719_468;
    let era = era_of(z);
    let day_of_era = z - era * 146_097;
    let (year_of_era, day_of_year, month_prime, day) = split_era_day(day_of_era);
    let year = year_of_era + era * 400;
    let month = month_prime + if month_prime < 10 { 3 } else { -9 };
    let year = year + if month <= 2 { 1 } else { 0 };
    proof {
        lemma_civil_round_trip(z as int, era as int, year_of_era as int, day_of_year as int, month_prime as int, day as int);
        lemma_date_of_day(year as int, month as int, day as int);
    }
    (year, month as u32, day as u32)
}

/// The first day, within its March-based year, of month `mp` counted
/// from March.
pub open spec fn month_start(mp: int) -> int {
    (153 * mp + 2) / 5
}

/// Where a valid date falls: its March-based year of the era, month counted
/// from March, and day of that year, and how those rebuild its day count.
proof fn lemma_date_parts(y: int, m: int, d: int)
    requires
        is_valid_date(y, m, d),
    ensures
        ({
            let yp = if m <= 2 { y - 1 } else { y };
            let era = yp / 400;
            let yoe = yp - era * 400;
            let mp = if m > 2 { m - 3 } else { m + 9 };
            let doy = month_start(mp) + d - 1;
            &&& 0 <= yoe <= 399
            &&& 0 <= mp <= 11
            &&& month_start(mp) <= doy
            &&& mp <= 10 ==> doy < month_start(mp + 1)
            &&& mp == 11 ==> (doy <= 364 || (doy == 365 && ends_leap(yoe)))
            &&& days_from_civil(y, m, d) + 719468 == era * 146097 + year_start(yoe) + doy
            &&& yp == era * 400 + yoe
        }),
{
    let yp = if m <= 2 { y - 1 } else { y };
    let era = yp / 400;
    let yoe = yp - era * 400;
    lemma_era_year(era, yoe);
    assert(yoe + era * 400 == yp);
    if m == 2 {
        assert(y == yoe + era * 400 + 1);
    }
    assert(m == 1 || m == 2 || m == 3 || m == 4 || m == 5 || m == 6 || m == 7 || m == 8 || m == 9 || m == 10
        || m == 11 || m == 12);
}

/// One March-based year of an era to the next: 365 days, 366 when the year
/// ends with a leap day.
proof fn lemma_year_start_step(yoe: int)
    requires
        0 <= yoe <= 398,
    ensures
        year_start(yoe + 1) == year_start(yoe) + 365 + if ends_leap(yoe) { 1int } else { 0int },
{
}

/// Later March-based years of an era start later.
proof fn lemma_year_start_later(a: int, b: int)
    requires
        0 <= a < b <= 399,
    ensures
        year_start(a + 1) <= year_start(b),
    decreases b - a,
{
    if a + 1 < b {
        lemma_year_start_later(a, b - 1);
        lemma_year_start_step(b - 1);
    }
}

/// The calendar is one to one: two valid dates with the same day count are
/// the same date.
pub proof fn lemma_days_from_civil_injective(y1: int, m1: int, d1: int, y2: int, m2: int, d2: int)
    requires
        is_valid_date(y1, m1, d1),
        is_valid_date(y2, m2, d2),
        days_from_civil(y1, m1, d1) == days_from_civil(y2, m2, d2),
    ensures
        y1 == y2,
        m1 == m2,
        d1 == d2,
{
    lemma_date_parts(y1, m1, d1);
    lemma_date_parts(y2, m2, d2);
    let yp1 = if m1 <= 2 { y1 - 1 } else { y1 };
    let yp2 = if m2 <= 2 { y2 - 1 } else { y2 };
    let era1 = yp1 / 400;
    let era2 = yp2 / 400;
    let yoe1 = yp1 - era1 * 400;
    let yoe2 = yp2 - era2 * 400;
    let mp1 = if m1 > 2 { m1 - 3 } else { m1 + 9 };
    let mp2 = if m2 > 2 { m2 - 3 } else { m2 + 9 };
    let doy1 = month_start(mp1) + d1 - 1;
    let doy2 = month_start(mp2) + d2 - 1;
    // Each day of year lies within its year.
    assert(doy1 < 365 + if ends_leap(yoe1) { 1int } else { 0int });
    assert(doy2 < 365 + if ends_leap(yoe2) { 1int } else { 0int });
    let doe1 = year_start(yoe1) + doy1;
    let doe2 = year_start(yoe2) + doy2;
    if yoe1 < 399 {
        lemma_year_start_step(yoe1);
        lemma_year_start_later(yoe1, 399);
    }
    if yoe2 < 399 {
        lemma_year_start_step(yoe2);
        lemma_year_start_later(yoe2, 399);
    }
    assert(0 <= doe1 <= 146096);
    assert(0 <= doe2 <= 146096);
    assert(era1 * 146097 + doe1 == era2 * 146097 + doe2);
    assert(era1 == era2);
    assert(doe1 == doe2);
    if yoe1 < yoe2 {
        lemma_year_start_step(yoe1);
        lemma_year_start_later(yoe1, yoe2);
        assert(false);
    }
    if yoe2 < yoe1 {
        lemma_year_start_step(yoe2);
        lemma_year_start_later(yoe2, yoe1);
        assert(false);
    }
    assert(doy1 == doy2);
    if mp1 < mp2 {
        assert(month_start(mp1 + 1) <= month_start(mp2));
        assert(false);
    }
    if mp2 < mp1 {
        assert(month_start(mp2 + 1) <= month_start(mp1));
        assert(false);
    }
}

/// The valid date `days` days after 1970-01-01.
pub open spec fn date_of_day(days: int) -> (int, int, int) {
    choose|t: (int, int, int)| is_valid_date(t.0, t.1, t.2) && days_from_civil(t.0, t.1, t.2) == days
}

/// `date_of_day` names the one valid date with that day count.
pub proof fn lemma_date_of_day(y: int, m: int, d: int)
    requires
        is_valid_date(y, m, d),
    ensures
        date_of_day(days_from_civil(y, m, d)) == (y, m, d),
{
    let days = days_from_civil(y, m, d);
    assert(is_valid_date((y, m, d).0, (y, m, d).1, (y, m, d).2) && days_from_civil((y, m, d).0, (y, m, d).1, (y, m, d).2) == days);
    let t = date_of_day(days);
    lemma_days_from_civil_injective(t.0, t.1, t.2, y, m, d);
}

/// The calendar day after a date: the next day of its month, else the first
/// of the next month, else New Year's Day of the next year.
pub open spec fn next_date(y: int, m: int, d: int) -> (int, int, int) {
    if d < days_in_month(y, m) {
        (y, m, d + 1)
    } else if m < 12 {
        (y, m + 1, 1)
    } else {
        (y + 1, 1, 1)
    }
}

/// The calendar day after a valid date is a valid date, one day later.
pub proof fn lemma_next_date(y: int, m: int, d: int)
    requires
        is_valid_date(y, m, d),
    ensures
        is_valid_date(next_date(y, m, d).0, next_date(y, m, d).1, next_date(y, m, d).2),
        days_from_civil(next_date(y, m, d).0, next_date(y, m, d).1, next_date(y, m, d).2)
            == days_from_civil(y, m, d) + 1,
{
    let t = next_date(y, m, d);
    assert(is_valid_date(t.0, t.1, t.2));
    lemma_date_parts(y, m, d);
    lemma_date_parts(t.0, t.1, t.2);
    let yp = if m <= 2 { y - 1 } else { y };
    let era = yp / 400;
    let yoe = yp - era * 400;
    lemma_era_year(era, yoe);
    if d == days_in_month(y, m) && m == 2 {
        assert(yoe + era * 400 + 1 == y);
        if yoe < 399 {
            lemma_year_start_step(yoe);
            lemma_era_year(era, yoe + 1);
        } else {
            lemma_era_year(era + 1, 0);
        }
    } else {
        assert(m == 1 || m == 2 || m == 3 || m == 4 || m == 5 || m == 6 || m == 7 || m == 8 || m == 9
            || m == 10 || m == 11 || m == 12);
    }
}

/// Every day count names a valid date.
proof fn lemma_day_has_date(n: int)
    ensures
        is_valid_date(date_of_day(n).0, date_of_day(n).1, date_of_day(n).2),
        days_from_civil(date_of_day(n).0, date_of_day(n).1, date_of_day(n).2) == n,
{
    let z = n + 719_468;
    let era = z / 146_097;
    let doe = z - era * 146_097;
    assert(0 <= doe <= 146_096);
    lemma_year_of_era(doe);
    let yoe = (doe - doe / 1460 + doe / 36524 - doe / 146096) / 365;
    let doy = doe - year_start(yoe);
    lemma_month_of_year(doy, ends_leap(yoe));
    let mp = (5 * doy + 2) / 153;
    let d = doy - (153 * mp + 2) / 5 + 1;
    lemma_civil_round_trip(z, era, yoe, doy, mp, d);
    let m = if mp < 10 { mp + 3 } else { mp - 9 };
    let y = yoe + era * 400 + if m <= 2 { 1int } else { 0int };
    assert(is_valid_date(y, m, d));
    lemma_date_of_day(y, m, d);
}

/// Counting on by one day moves to the calendar day after: the date `n + 1`
/// days after 1970-01-01 is `next_date` of the date `n` days after it.
pub proof fn lemma_date_of_day_successor(n: int)
    ensures
        is_valid_date(date_of_day(n).0, date_of_day(n).1, date_of_day(n).2),
        days_from_civil(date_of_day(n).0, date_of_day(n).1, date_of_day(n).2) == n,
        date_of_day(n + 1) == next_date(date_of_day(n).0, date_of_day(n).1, date_of_day(n).2),
{
    lemma_day_has_date(n);
    let t = date_of_day(n);
    lemma_next_date(t.0, t.1, t.2);
    let u = next_date(t.0, t.1, t.2);
    lemma_date_of_day(u.0, u.1, u.2);
}

/// The text `format_unix_timestamp` gives for `seconds` after the epoch.
pub open spec fn spec_unix_timestamp(seconds: nat) -> Seq<char> {
    let (y, m, d) = date_of_day((seconds / 86400) as int);
    timestamp_text(y as nat, m as nat, d as nat, seconds % 86400)
}

/// 2 to the power `s`.
pub open spec fn two_pow(s: nat) -> nat
    decreases s,
{
    if s == 0 { 1 } else { 2 * two_pow((s - 1) as nat) }
}

/// How many low bits of `b` do not fit in the 53-bit significand of an f64.
pub open spec fn excess_bits(b: nat) -> nat
    decreases b,
{
    if b < 0x20_0000_0000_0000 { 0 } else { 1 + excess_bits(b / 2) }
}

/// `n` rounded to a multiple of `unit`, to nearest, ties to the even multiple.
pub open spec fn round_to_multiple(n: nat, unit: nat) -> nat
    recommends
        unit > 0,
{
    let q = n / unit;
    let r = n % unit;
    if 2 * r > unit || (2 * r == unit && q % 2 == 1) { (q + 1) * unit } else { q * unit }
}

/// The exact value of `b as f64`: `b` rounded to 53 significant bits, to
/// nearest, ties to even.
pub open spec fn f64_value(b: nat) -> nat {
    round_to_multiple(b, two_pow(excess_bits(b)))
}

/// How many times a size of `f` bytes is divided by 1024 (at least once,
/// at most four times) before it is shown.
pub open spec fn size_unit(f: nat) -> nat {
    if f < 0x10_0000 { 1 } else if f < 0x4000_0000 { 2 } else if f < 0x100_0000_0000 { 3 } else { 4 }
}

/// 1024 to the power `k`.
pub open spec fn kibi_pow(k: nat) -> nat
    decreases k,
{
    if k == 0 { 1 } else { 1024 * kibi_pow((k - 1) as nat) }
}

/// `f / den` in tenths, rounded to nearest, ties to even.
pub open spec fn tenths(f: nat, den: nat) -> nat
    recommends
        den > 0,
{
    let t = f * 10 / den;
    let r = f * 10 % den;
    if 2 * r > den || (2 * r == den && t % 2 == 1) { t + 1 } else { t }
}

/// The unit names by power of 1024.
pub open spec fn unit_name(k: nat) -> Seq<char> {
    if k == 0 { "B"@ } else if k == 1 { "KiB"@ } else if k == 2 { "MiB"@ } else if k == 3 { "GiB"@ } else { "TiB"@ }
}

/// A byte count for people: whole bytes below 1 KiB, otherwise one decimal
/// place of the largest binary unit (up to TiB) under which it is at least 1,
/// rounded as the value's `f64` is printed.
pub open spec fn spec_human_size(bytes: nat) -> Seq<char> {
    if bytes < 1024 {
        spec_decimal(bytes) + " B"@
    } else {
        let f = f64_value(bytes);
        let k = size_unit(f);
        let n = tenths(f, kibi_pow(k));
        spec_decimal(n / 10) + "."@ + spec_decimal(n % 10) + " "@ + unit_name(k)
    }
}

proof fn lemma_excess_bits_bound(b: nat, t: nat)
    requires
        b < 0x20_0000_0000_0000 * two_pow(t),
    ensures
        excess_bits(b) <= t,
    decreases t,
{
    if b >= 0x20_0000_0000_0000 {
        assert(t > 0);
        assert(two_pow(t) == 2 * two_pow((t - 1) as nat));
        lemma_excess_bits_bound(b / 2, (t - 1) as nat);
    }
}

proof fn lemma_two_pow_pos(s: nat)
    ensures
        two_pow(s) >= 1,
    decreases s,
{
    if s > 0 {
        lemma_two_pow_pos((s - 1) as nat);
    }
}

/// The exact value `b as f64` takes, for `b` below 2^64.
fn f64_value_of(b: u64) -> (f: u128)
    ensures
        f as nat == f64_value(b as nat),
        f <= 0x1_0000_0000_0000_0000,
        b >= 1024 ==> f >= 1024,
{
    let ghost s = excess_bits(b as nat);
    proof {
        reveal_with_fuel(two_pow, 12);
        assert(two_pow(11) == 2048);
        lemma_excess_bits_bound(b as nat, 11);
        lemma_two_pow_pos(s);
        lemma_two_pow_mono(s, 11);
    }
    let mut unit: u128 = 1;
    let mut q: u128 = b as u128;
    let ghost mut k: nat = 0;
    while q >= 0x20_0000_0000_0000
        invariant
            k <= s,
            s <= 11,
            s == excess_bits(b as nat),
            unit as nat == two_pow(k),
            q as nat == (b as nat) / two_pow(k),
            excess_bits(b as nat) == k + excess_bits(q as nat),
            k > 0 ==> q >= 0x10_0000_0000_0000,
            q <= b,
            two_pow(s) <= 2048,
        decreases q,
    {
        proof {
            assert(excess_bits(q as nat) == 1 + excess_bits((q as nat) / 2));
            lemma_two_pow_pos(k);
            lemma_two_pow_pos(k + 1);
            lemma_two_pow_mono(k + 1, s);
            vstd::arithmetic::div_mod::lemma_div_denominator(b as int, two_pow(k) as int, 2);
            assert(two_pow(k + 1) == two_pow(k) * 2);
        }
        q = q / 2;
        unit = unit * 2;
        proof {
            k = k + 1;
        }
    }
    proof {
        assert(k == s);
        lemma_two_pow_pos(s);
        vstd::arithmetic::div_mod::lemma_fundamental_div_mod(b as int, unit as int);
        assert((q + 1) * unit <= 0x1_0000_0000_0000_0000) by (nonlinear_arith)
            requires
                q < 0x20_0000_0000_0000,
                unit <= 2048,
        {
        }
        assert(q * unit <= (q + 1) * unit) by (nonlinear_arith);
    }
    let r: u128 = (b as u128) - q * unit;
    let f = if 2 * r > unit || (2 * r == unit && q % 2 == 1) { (q + 1) * unit } else { q * unit };
    proof {
        assert(r as nat == (b as nat) % two_pow(s));
        if b >= 1024 {
            if s > 0 {
                assert(q * unit >= q) by (nonlinear_arith)
                    requires
                        unit >= 1,
                {
                }
            } else {
                assert(unit == 1);
            }
        }
    }
    f
}

proof fn lemma_two_pow_mono(a: nat, b: nat)
    requires
        a <= b,
    ensures
        two_pow(a) <= two_pow(b),
    decreases b,
{
    if a < b {
        lemma_two_pow_mono(a, (b - 1) as nat);
        lemma_two_pow_pos((b - 1) as nat);
    }
}

/// A byte count for people; see `spec_human_size`.
pub fn human_size(bytes: u64) -> (r: String)
    ensures
        r@ == spec_human_size(bytes as nat),
{
    if bytes < 1024 {
        let mut r = decimal(bytes);
        push_str(&mut r, " B");
        return r;
    }
    let f = f64_value_of(bytes);
    proof {
        reveal_with_fuel(kibi_pow, 5);
    }
    let (den, unit): (u128, &str) = if f < 0x10_0000 {
        (1024, "KiB")
    } else if f < 0x4000_0000 {
        (0x10_0000, "MiB")
    } else if f < 0x100_0000_0000 {
        (0x4000_0000, "GiB")
    } else {
        (0x100_0000_0000, "TiB")
    };
    proof {
        assert(den as nat == kibi_pow(size_unit(f as nat)));
        assert(unit@ == unit_name(size_unit(f as nat)));
    }
    let t = f * 10 / den;
    let rem = f * 10 % den;
    let n = if 2 * rem > den || (2 * rem == den && t % 2 == 1) { t + 1 } else { t };
    proof {
        assert(n as nat == tenths(f as nat, den as nat));
        assert(t <= 0x1_0000_0000_0000_0000 * 10 / 1024);
    }
    let mut r = decimal((n / 10) as u64);
    push_str(&mut r, ".");
    let frac = decimal((n % 10) as u64);
    push_str(&mut r, frac.as_str());
    push_str(&mut r, " ");
    push_str(&mut r, unit);
    r
}

/// `digits` padded on the left with zeros to at least `width` characters.
pub open spec fn zero_pad(digits: Seq<char>, width: nat) -> Seq<char> {
    if digits.len() < width {
        Seq::new((width - digits.len()) as nat, |i: int| '0') + digits
    } else {
        digits
    }
}

/// `format!("{n:0width$}")` for a non-negative `n`.
fn pad_decimal(n: u64, width: usize) -> (r: String)
    ensures
        r@ == zero_pad(spec_decimal(n as nat), width as nat),
{
    let digits = decimal(n);
    let len = crate::text::chars_of(digits.as_str()).len();
    let mut r = String::new();
    let mut k = len;
    while k < width
        invariant
            len == digits@.len(),
            len <= k,
            k <= width || k == len,
            r@ == Seq::new((k - len) as nat, |i: int| '0'),
        decreases width - k,
    {
        push_char(&mut r, '0');
        k = k + 1;
        proof {
            assert(r@ =~= Seq::new((k - len) as nat, |i: int| '0'));
        }
    }
    let ghost pad = r@;
    push_str(&mut r, digits.as_str());
    proof {
        if len >= width {
            assert(pad.len() == 0);
            assert(r@ =~= digits@);
        } else {
            assert(r@ =~= Seq::new((width - len) as nat, |i: int| '0') + digits@);
        }
    }
    r
}

/// The text of a UTC timestamp: `YYYY-MM-DD hh:mm:ss UTC`.
pub open spec fn timestamp_text(y: nat, m: nat, d: nat, second_of_day: nat) -> Seq<char> {
    zero_pad(spec_decimal(y), 4) + "-"@ + zero_pad(spec_decimal(m), 2) + "-"@
        + zero_pad(spec_decimal(d), 2) + " "@ + zero_pad(spec_decimal(second_of_day / 3600), 2)
        + ":"@ + zero_pad(spec_decimal((second_of_day % 3600) / 60), 2) + ":"@
        + zero_pad(spec_decimal(second_of_day % 60), 2) + " UTC"@
}

/// The UTC date and time `seconds` after the Unix epoch.
pub fn format_unix_timestamp(seconds: u64) -> (r: String)
    ensures
        r@ == spec_unix_timestamp(seconds as nat),
        exists|y: int, m: int, d: int| 0 <= y && is_valid_date(y, m, d)
            && days_from_civil(y, m, d) == seconds / 86_400
            && r@ == timestamp_text(y as nat, m as nat, d as nat, (seconds % 86_400) as nat),
{
    let days = (seconds / 86_400) as i64;
    let seconds_of_day = seconds % 86_400;
    let (year, month, day) = civil_from_days(days);
    let hour = seconds_of_day / 3_600;
    let minute = (seconds_of_day % 3_600) / 60;
    let second = seconds_of_day % 60;
    let mut r = pad_decimal(year as u64, 4);
    push_str(&mut r, "-");
    let t = pad_decimal(month as u64, 2);
    push_str(&mut r, t.as_str());
    push_str(&mut r, "-");
    let t = pad_decimal(day as u64, 2);
    push_str(&mut r, t.as_str());
    push_str(&mut r, " ");
    let t = pad_decimal(hour, 2);
    push_str(&mut r, t.as_str());
    push_str(&mut r, ":");
    let t = pad_decimal(minute, 2);
    push_str(&mut r, t.as_str());
    push_str(&mut r, ":");
    let t = pad_decimal(second, 2);
    push_str(&mut r, t.as_str());
    push_str(&mut r, " UTC");
    proof {
        let y = year as int;
        let m = month as int;
        let d = day as int;
        assert(r@ =~= timestamp_text(y as nat, m as nat, d as nat, (seconds % 86_400) as nat));
        lemma_date_of_day(y, m, d);
    }
    r
}

/// The text of a time relative to the Unix epoch.
pub open spec fn system_time_text(since_epoch: Result<u64, u64>) -> Seq<char> {
    match since_epoch {
        Ok(seconds) => spec_unix_timestamp(seconds as nat),
        Err(before) => "before UNIX epoch by "@ + spec_decimal(before as nat) + "s"@,
    }
}

/// A time relative to the Unix epoch: the UTC timestamp when at or after it,
/// otherwise how many whole seconds before it.
pub fn format_system_time(since_epoch: Result<u64, u64>) -> (r: String)
    ensures
        r@ == system_time_text(since_epoch),
        match since_epoch {
            Ok(seconds) => exists|y: int, m: int, d: int| 0 <= y && is_valid_date(y, m, d)
                && days_from_civil(y, m, d) == seconds / 86_400
                && r@ == timestamp_text(y as nat, m as nat, d as nat, (seconds % 86_400) as nat),
            Err(before) => r@ == "before UNIX epoch by "@ + spec_decimal(before as nat) + "s"@,
        },
{
    match since_epoch {
        Ok(seconds) => format_unix_timestamp(seconds),
        Err(before) => {
            let mut r = "before UNIX epoch by ".to_owned();
            let n = decimal(before);
            push_str(&mut r, n.as_str());
            push_str(&mut r, "s");
            r
        },
    }
}

} // verus!
