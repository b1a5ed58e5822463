//! /etc/os-release: `KEY=value` lines, the value unquoted.

use vstd::prelude::*;
use vstd::string::StringSliceAdditionalSpecFns;

use chrono::Datelike;

use crate::kv::ByteMap;
use crate::text::{find_byte, first_index, lines, split_lines, trim3, trim_bytes, views};

verus! {

/// The key and the unquoted value of a `KEY=value` line: what comes before
/// the first `=`, and what comes after it with the `"` at either end
/// stripped. A line without `=` gives none.
pub open spec fn release_entry(line: Seq<u8>) -> Option<(Seq<u8>, Seq<u8>)> {
    match first_index(line, 0x3du8) {
        Some(i) => Some(
            (line.subrange(0, i), trim3(line.subrange(i + 1, line.len() as int), 0x22u8, 0x22u8, 0x22u8)),
        ),
        None => None,
    }
}

/// The map that the first `n` lines give.
pub open spec fn release_map(ls: Seq<Seq<u8>>, n: nat) -> Map<Seq<u8>, Seq<u8>>
    decreases n,
{
    if n == 0 || n > ls.len() {
        Map::empty()
    } else {
        let m = release_map(ls, (n - 1) as nat);
        match release_entry(ls[n - 1]) {
            Some(kv) => m.insert(kv.0, kv.1),
            None => m,
        }
    }
}

/// Parses an os-release file: each `KEY=value` line sets `KEY`, a later line
/// replacing an earlier one; lines without `=` are skipped.
pub fn parse_os_release(content: &str) -> (r: ByteMap<'_>)
    ensures
        r.wf(),
        r@ == release_map(lines(content.spec_bytes()), lines(content.spec_bytes()).len()),
{
    let all = split_lines(content.as_bytes());
    let ghost ls = lines(content.spec_bytes());
    let mut map = ByteMap::new();
    let mut i: usize = 0;
    while i < all.len()
        invariant
            i <= all@.len(),
            views(all@) == ls,
            map.wf(),
            map@ == release_map(ls, i as nat),
        decreases all@.len() - i,
    {
        let line = all[i];
        assert(line@ == ls[i as int]);
        match find_byte(line, 0x3du8) {
            Some(eq) => {
                assert(eq < line.len());
                let key = &line[0..eq];
                let value = trim_bytes(&line[eq + 1..line.len()], 0x22u8, 0x22u8, 0x22u8);
                assert(key@ =~= line@.subrange(0, eq as int));
                assert(line@.subrange(eq + 1, line@.len() as int) =~= line@.subrange(eq + 1, line@.len() as int));
                map.insert(key, value);
            },
            None => {},
        }
        i = i + 1;
    }
    map
}

/// The date that `chrono::NaiveDate::parse_from_str(s, "%Y-%m-%d")` reads
/// from `s`, as year, month and day; none where it reports an error.
pub uninterp spec fn ymd_of(s: Seq<char>) -> Option<(i32, u32, u32)>;

/// Calls `chrono::NaiveDate::parse_from_str` with the format `%Y-%m-%d` and
/// hands out the year, month and day of the date (chrono's `Datelike`
/// accessors). Trusted: the result is what `ymd_of` names; the month is in
/// 1..=12 and the day in 1..=31, as `Datelike::month` and `Datelike::day`
/// document.
#[verifier::external_body]
fn parse_ymd(s: &str) -> (r: Option<(i32, u32, u32)>)
    ensures
        r == ymd_of(s@),
        r matches Some(t) ==> 1 <= t.1 <= 12 && 1 <= t.2 <= 31,
{
    match chrono::NaiveDate::parse_from_str(s, "%Y-%m-%d") {
        Ok(d) => Some((d.year(), d.month(), d.day())),
        Err(_) => None,
    }
}

/// A leap year of the proleptic Gregorian calendar.
pub open spec fn is_leap(y: int) -> bool {
    y % 4 == 0 && (y % 100 != 0 || y % 400 == 0)
}

/// The days from 0001-01-01 to the first day of year `y`.
pub open spec fn days_before_year(y: int) -> int {
    365 * (y - 1) + (y - 1) / 4 - (y - 1) / 100 + (y - 1) / 400
}

/// The days of year `y` before the first day of month `m`.
pub open spec fn days_before_month(y: int, m: int) -> int {
    let common: int = if m == 1 {
        0
    } else if m == 2 {
        31
    } else if m == 3 {
        59
    } else if m == 4 {
        90
    } else if m == 5 {
        120
    } else if m == 6 {
        151
    } else if m == 7 {
        181
    } else if m == 8 {
        212
    } else if m == 9 {
        243
    } else if m == 10 {
        273
    } else if m == 11 {
        304
    } else {
        334
    };
    if m > 2 && is_leap(y) {
        common + 1
    } else {
        common
    }
}

/// The days from 1970-01-01 to `y`-`m`-`d`.
pub open spec fn unix_days(y: int, m: int, d: int) -> int {
    days_before_year(y) + days_before_month(y, m) + d - 1 - 719162
}

proof fn lemma_cycles(y: int)
    ensures
        days_before_year(y + 2147484000) == days_before_year(y) + 784352424870,
        is_leap(y + 2147484000) == is_leap(y),
{
    assert((y - 1 + 2147484000) / 4 == (y - 1) / 4 + 536871000);
    assert((y - 1 + 2147484000) / 100 == (y - 1) / 100 + 21474840);
    assert((y - 1 + 2147484000) / 400 == (y - 1) / 400 + 5368710);
    assert((y + 2147484000) % 4 == y % 4);
    assert((y + 2147484000) % 100 == y % 100);
    assert((y + 2147484000) % 400 == y % 400);
}

/// The days from 0001-01-01 to `y`-`month`-`day`, for a year from 1 on.
fn days_from_year_one(y: u64, month: u32, day: u32) -> (r: u64)
    requires
        1 <= y <= 4294967648,
        1 <= month <= 12,
        1 <= day <= 31,
    ensures
        r == days_before_year(y as int) + days_before_month(y as int, month as int) + day - 1,
        r <= 1570000000000,
{
    let p: u64 = y - 1;
    proof {
        assert(p / 100 <= p / 4) by (nonlinear_arith);
        assert(p / 4 <= p) by (nonlinear_arith);
        assert(p / 400 <= p) by (nonlinear_arith);
    }
    let leap = y % 4 == 0 && (y % 100 != 0 || y % 400 == 0);
    let common: u64 = if month == 1 {
        0
    } else if month == 2 {
        31
    } else if month == 3 {
        59
    } else if month == 4 {
        90
    } else if month == 5 {
        120
    } else if month == 6 {
        151
    } else if month == 7 {
        181
    } else if month == 8 {
        212
    } else if month == 9 {
        243
    } else if month == 10 {
        273
    } else if month == 11 {
        304
    } else {
        334
    };
    let before_month: u64 = if month > 2 && leap {
        common + 1
    } else {
        common
    };
    365 * p + p / 4 - p / 100 + p / 400 + before_month + day as u64 - 1
}

/// The Unix timestamp of midnight UTC at the start of `year`-`month`-`day`.
pub fn midnight_timestamp(year: i32, month: u32, day: u32) -> (r: i64)
    requires
        1 <= month <= 12,
        1 <= day <= 31,
    ensures
        r == unix_days(year as int, month as int, day as int) * 86400,
{
    // 5368710 cycles of 400 years, 146097 days each, make the year positive.
    let y: u64 = (year as i64 + 2147484000i64) as u64;
    proof {
        lemma_cycles(year as int);
    }
    let days = days_from_year_one(y, month, day);
    let unix: i64 = days as i64 - 784353144032i64;
    unix * 86400
}

/// The Unix timestamp of midnight UTC on the date that a `SUPPORT_END`
/// value gives in the form `YYYY-MM-DD`, or none if chrono does not read a
/// date there.
pub fn support_end_timestamp(value: &str) -> (r: Option<i64>)
    ensures
        match ymd_of(value@) {
            Some(t) => r matches Some(v) && v == unix_days(t.0 as int, t.1 as int, t.2 as int)
                * 86400,
            None => r is None,
        },
{
    match parse_ymd(value) {
        Some(t) => Some(midnight_timestamp(t.0, t.1, t.2)),
        None => None,
    }
}

} // verus!
