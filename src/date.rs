//! Calendar dates of a captured instant, shifted by a whole number of hours.
use vstd::prelude::*;
use vstd::arithmetic::div_mod::lemma_fundamental_div_mod_converse;
use chrono::Datelike;

verus! {

/// Seconds in a day.
pub const SECS_PER_DAY: u64 = 86400;

/// Days from 0001-01-01 (day 1 of the common era) to 1970-01-01 (day 0 of
/// the Unix epoch).
pub const EPOCH_CE_DAY: i64 = 719163;

/// A wall-clock reading: seconds since the Unix epoch, and how far local time
/// was ahead of UTC at that moment.
#[derive(Clone, Copy, Debug, PartialEq, Eq, Structural)]
pub struct Instant {
    pub unix_secs: i64,
    pub local_offset_secs: i32,
}

/// A calendar date.
#[derive(Clone, Copy, Debug, PartialEq, Eq, Structural)]
pub struct Date {
    pub year: i32,
    pub month: u8,
    pub day: u8,
}

/// The proleptic Gregorian date (year, month, day) of a day counted from
/// 0001-01-01 as day 1, or `None` where it is out of range.
pub uninterp spec fn ce_date_of(days: i32) -> Option<(i32, u32, u32)>;

/// Relies on chrono's `NaiveDate::from_num_days_from_ce_opt` and its `year`,
/// `month` (1 to 12) and `day` (1 to 31) accessors.
#[verifier::external_body]
fn ce_date(days: i32) -> (r: Option<(i32, u32, u32)>)
    ensures
        r == ce_date_of(days),
        r matches Some((_, m, d)) ==> 1 <= m <= 12 && 1 <= d <= 31,
{
    match chrono::NaiveDate::from_num_days_from_ce_opt(days) {
        Some(d) => Some((d.year(), d.month(), d.day())),
        None => None,
    }
}

/// Relies on chrono's `Local::now`: the current time, and the offset of the
/// local zone at that time, which chrono's `FixedOffset` keeps within a day.
#[verifier::external_body]
pub(crate) fn wall_clock() -> (r: Instant)
    ensures
        -86400 < r.local_offset_secs < 86400,
{
    let now = chrono::Local::now();
    Instant { unix_secs: now.timestamp(), local_offset_secs: now.offset().local_minus_utc() }
}

/// Seconds since the epoch of the wall-clock time that a date is asked for:
/// local time without an offset, UTC shifted by `offset` hours with one.
pub open spec fn shifted_secs(t: Instant, offset: Option<i64>) -> int {
    match offset {
        None => t.unix_secs + t.local_offset_secs,
        Some(h) => t.unix_secs + h * 3600,
    }
}

/// The day since the epoch that holds `shifted_secs(t, offset)`.
pub open spec fn day_number(t: Instant, offset: Option<i64>) -> int {
    shifted_secs(t, offset) / (SECS_PER_DAY as int)
}

/// The date at `t` shifted by `offset`, or `None` where it has no date in
/// range.
pub open spec fn date_at(t: Instant, offset: Option<i64>) -> Option<Date> {
    let ce = day_number(t, offset) + EPOCH_CE_DAY;
    if i32::MIN <= ce <= i32::MAX {
        match ce_date_of(ce as i32) {
            Some((y, m, d)) => Some(Date { year: y, month: m as u8, day: d as u8 }),
            None => None,
        }
    } else {
        None
    }
}

proof fn lemma_floor_of_negative(s: int, q: int)
    requires
        s < 0,
        q == (-s - 1) / 86400,
    ensures
        s / 86400 == -q - 1,
{
    vstd::arithmetic::div_mod::lemma_fundamental_div_mod(-s - 1, 86400);
    vstd::arithmetic::div_mod::lemma_mod_bound(-s - 1, 86400);
    let r = (-s - 1) % 86400;
    assert(s == (-q - 1) * 86400 + (86399 - r)) by (nonlinear_arith)
        requires -s - 1 == 86400 * q + r;
    lemma_fundamental_div_mod_converse(s, 86400, -q - 1, 86399 - r);
}

/// The day since the epoch holding the second `s`.
fn floor_day(s: i128) -> (r: i128)
    requires
        -0x1000_0000_0000_0000_0000_0000 < s < 0x1000_0000_0000_0000_0000_0000,
    ensures
        r == s as int / 86400,
{
    if s >= 0 {
        ((s as u128) / 86400) as i128
    } else {
        let n = ((-(s + 1)) as u128) / 86400;
        proof {
            lemma_floor_of_negative(s as int, n as int);
        }
        -(n as i128) - 1
    }
}

/// The date at `t` shifted by `offset`.
pub fn date_at_offset(t: Instant, offset: Option<i64>) -> (r: Option<Date>)
    ensures
        r == date_at(t, offset),
{
    let s: i128 = match offset {
        None => t.unix_secs as i128 + t.local_offset_secs as i128,
        Some(h) => t.unix_secs as i128 + h as i128 * 3600,
    };
    let days = floor_day(s);
    let ce = days + EPOCH_CE_DAY as i128;
    if ce < i32::MIN as i128 || ce > i32::MAX as i128 {
        return None;
    }
    match ce_date(ce as i32) {
        Some((y, m, d)) => Some(Date { year: y, month: m as u8, day: d as u8 }),
        None => None,
    }
}

/// Shifting by 24 hours moves to the next day: `today(24)` is the day after
/// `today(0)` for every captured instant.
pub proof fn lemma_next_day(t: Instant)
    ensures
        day_number(t, Some(24)) == day_number(t, Some(0)) + 1,
{
    let s = shifted_secs(t, Some(0));
    assert(shifted_secs(t, Some(24)) == s + 86400);
    vstd::arithmetic::div_mod::lemma_fundamental_div_mod(s, 86400);
    vstd::arithmetic::div_mod::lemma_mod_bound(s, 86400);
    let q = s / 86400;
    let r = s % 86400;
    assert(s + 86400 == (q + 1) * 86400 + r) by (nonlinear_arith)
        requires s == 86400 * q + r;
    lemma_fundamental_div_mod_converse(s + 86400, 86400, q + 1, r);
}

/// Local time and UTC fall on the same day or on neighbouring days: with a
/// local offset of less than a day, the local day number differs from the UTC
/// one by at most one.
pub proof fn lemma_local_within_a_day(t: Instant)
    requires
        -86400 < t.local_offset_secs < 86400,
    ensures
        day_number(t, Some(0)) - 1 <= day_number(t, None) <= day_number(t, Some(0)) + 1,
{
    let u = shifted_secs(t, Some(0));
    let l = shifted_secs(t, None);
    vstd::arithmetic::div_mod::lemma_fundamental_div_mod(u, 86400);
    vstd::arithmetic::div_mod::lemma_mod_bound(u, 86400);
    vstd::arithmetic::div_mod::lemma_fundamental_div_mod(l, 86400);
    vstd::arithmetic::div_mod::lemma_mod_bound(l, 86400);
    let qu = u / 86400;
    let ql = l / 86400;
    let ru = u % 86400;
    let rl = l % 86400;
    assert(l - u == t.local_offset_secs);
    assert(ql - 1 <= qu <= ql + 1) by (nonlinear_arith)
        requires
            u == 86400 * qu + ru,
            l == 86400 * ql + rl,
            0 <= ru < 86400,
            0 <= rl < 86400,
            -86400 < l - u < 86400;
}

} // verus!
