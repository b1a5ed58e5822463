//! The CSV report of `nvidia-smi --query-gpu`: metric names from its column
//! headers, the GPUs of its rows, and the values of its fields.

use vstd::prelude::*;
use vstd::string::StringSliceAdditionalSpecFns;

use crate::metric::{tags_view, Kind, Sample, SampleModel, TagModel, TagValue};
use crate::text::{
    dec_text, find_byte, first_index, has_prefix, hex_u64, is_word, lines, parse_hex_u64, split, split_bytes,
    split_lines, starts_with, trim_str_bytes, trim_ws, views, ws_len_at, ws_len_at_exec,
};

verus! {

/// `nvidia_`
pub open spec fn name_prefix() -> Seq<u8> {
    seq![0x6eu8, 0x76u8, 0x69u8, 0x64u8, 0x69u8, 0x61u8, 0x5fu8]
}

/// The name bytes for `s[i..]`: up to the first whitespace character, an
/// ASCII capital becomes `_` and its small letter, a `.` becomes `_`, and
/// every other byte stays.
pub open spec fn sanitized_from(s: Seq<u8>, i: int) -> Seq<u8>
    decreases s.len() - i,
{
    if i < 0 || i >= s.len() || ws_len_at(s, i) > 0 {
        Seq::empty()
    } else if 0x41 <= s[i] <= 0x5a {
        seq![0x5fu8, (s[i] + 0x20) as u8] + sanitized_from(s, i + 1)
    } else if s[i] == 0x2e {
        seq![0x5fu8] + sanitized_from(s, i + 1)
    } else {
        seq![s[i]] + sanitized_from(s, i + 1)
    }
}

/// The metric name for the column `s`: `nvidia_` and the sanitized column.
pub open spec fn sanitized(s: Seq<u8>) -> Seq<u8> {
    name_prefix() + sanitized_from(s, 0)
}

/// The metric name for a column of the report, as UTF-8 bytes: `nvidia_`,
/// then the column up to its first whitespace, with each ASCII capital
/// written `_` and its small letter and each `.` written `_`.
pub fn sanitize(input: &str) -> (r: Vec<u8>)
    ensures
        r@ == sanitized(input.spec_bytes()),
{
    sanitize_bytes(input.as_bytes())
}

fn sanitize_bytes(s: &[u8]) -> (r: Vec<u8>)
    ensures
        r@ == sanitized(s@),
{
    let mut out: Vec<u8> = Vec::new();
    out.push(0x6eu8);
    out.push(0x76u8);
    out.push(0x69u8);
    out.push(0x64u8);
    out.push(0x69u8);
    out.push(0x61u8);
    out.push(0x5fu8);
    assert(out@ =~= name_prefix());
    let mut i: usize = 0;
    while i < s.len()
        invariant
            i <= s@.len(),
            out@ + sanitized_from(s@, i as int) == sanitized(s@),
        decreases s@.len() - i,
    {
        if ws_len_at_exec(s, i) > 0 {
            assert(sanitized_from(s@, i as int) =~= Seq::<u8>::empty());
            assert(out@ + Seq::<u8>::empty() =~= out@);
            return out;
        }
        let b = s[i];
        let ghost before = out@;
        if 0x41u8 <= b && b <= 0x5au8 {
            out.push(0x5fu8);
            out.push(b + 0x20u8);
            assert(before + sanitized_from(s@, i as int) =~= out@ + sanitized_from(s@, i + 1));
        } else if b == 0x2eu8 {
            out.push(0x5fu8);
            assert(before + sanitized_from(s@, i as int) =~= out@ + sanitized_from(s@, i + 1));
        } else {
            out.push(b);
            assert(before + sanitized_from(s@, i as int) =~= out@ + sanitized_from(s@, i + 1));
        }
        i = i + 1;
    }
    assert(sanitized_from(s@, i as int) =~= Seq::<u8>::empty());
    assert(out@ + Seq::<u8>::empty() =~= out@);
    out
}

/// How the values of a column are scaled.
#[derive(Clone, Copy, Debug, PartialEq, Eq)]
pub enum Unit {
    /// ` [W]`: watts, as they are.
    Watts,
    /// ` [MHz]`: megahertz, reported in hertz.
    ClockHz,
    /// ` [MiB]`: mebibytes, reported in bytes.
    Bytes,
    /// ` [%]`: percent, reported as a ratio.
    Ratio,
    /// ` [us]`: microseconds, reported in seconds.
    Seconds,
    /// Any other column: as it is.
    Plain,
}

/// `s` ends with `p`.
pub open spec fn has_suffix(s: Seq<u8>, p: Seq<u8>) -> bool {
    p.len() <= s.len() && s.subrange(s.len() - p.len(), s.len() as int) == p
}

/// `s` without its last `n` bytes.
pub open spec fn drop_end(s: Seq<u8>, n: int) -> Seq<u8> {
    s.subrange(0, s.len() - n)
}

pub open spec fn watts_unit() -> Seq<u8> {
    seq![0x20u8, 0x5bu8, 0x57u8, 0x5du8]
}

pub open spec fn mhz_unit() -> Seq<u8> {
    seq![0x20u8, 0x5bu8, 0x4du8, 0x48u8, 0x7au8, 0x5du8]
}

pub open spec fn mib_unit() -> Seq<u8> {
    seq![0x20u8, 0x5bu8, 0x4du8, 0x69u8, 0x42u8, 0x5du8]
}

pub open spec fn percent_unit() -> Seq<u8> {
    seq![0x20u8, 0x5bu8, 0x25u8, 0x5du8]
}

pub open spec fn us_unit() -> Seq<u8> {
    seq![0x20u8, 0x5bu8, 0x75u8, 0x73u8, 0x5du8]
}

/// `_watts`
pub open spec fn watts_name() -> Seq<u8> {
    seq![0x5fu8, 0x77u8, 0x61u8, 0x74u8, 0x74u8, 0x73u8]
}

/// `_clock_hz`
pub open spec fn clock_name() -> Seq<u8> {
    seq![0x5fu8, 0x63u8, 0x6cu8, 0x6fu8, 0x63u8, 0x6bu8, 0x5fu8, 0x68u8, 0x7au8]
}

/// `_bytes`
pub open spec fn bytes_name() -> Seq<u8> {
    seq![0x5fu8, 0x62u8, 0x79u8, 0x74u8, 0x65u8, 0x73u8]
}

/// `_ratio`
pub open spec fn ratio_name() -> Seq<u8> {
    seq![0x5fu8, 0x72u8, 0x61u8, 0x74u8, 0x69u8, 0x6fu8]
}

/// `_seconds`
pub open spec fn seconds_name() -> Seq<u8> {
    seq![0x5fu8, 0x73u8, 0x65u8, 0x63u8, 0x6fu8, 0x6eu8, 0x64u8, 0x73u8]
}

/// The metric name and the unit of the column `c`: a column that ends in
/// a unit is named after the rest with the unit's name appended.
pub open spec fn column_metric_spec(c: Seq<u8>) -> (Seq<u8>, Unit) {
    if has_suffix(c, watts_unit()) {
        (sanitized(drop_end(c, 4)) + watts_name(), Unit::Watts)
    } else if has_suffix(c, mhz_unit()) {
        (sanitized(drop_end(c, 6)) + clock_name(), Unit::ClockHz)
    } else if has_suffix(c, mib_unit()) {
        (sanitized(drop_end(c, 6)) + bytes_name(), Unit::Bytes)
    } else if has_suffix(c, percent_unit()) {
        (sanitized(drop_end(c, 4)) + ratio_name(), Unit::Ratio)
    } else if has_suffix(c, us_unit()) {
        (sanitized(drop_end(c, 5)) + seconds_name(), Unit::Seconds)
    } else {
        (sanitized(c), Unit::Plain)
    }
}

fn ends_with(s: &[u8], p: &[u8]) -> (r: bool)
    ensures
        r == has_suffix(s@, p@),
{
    if p.len() > s.len() {
        return false;
    }
    let tail = &s[s.len() - p.len()..s.len()];
    crate::text::bytes_eq(tail, p)
}

fn named(c: &[u8], n: usize, unit_name: &[u8]) -> (r: Vec<u8>)
    requires
        n <= c@.len(),
    ensures
        r@ == sanitized(drop_end(c@, n as int)) + unit_name@,
{
    let stem = &c[0..c.len() - n];
    assert(stem@ =~= drop_end(c@, n as int));
    let mut name = sanitize_bytes(stem);
    name.extend_from_slice(unit_name);
    assert(name@ =~= sanitized(drop_end(c@, n as int)) + unit_name@);
    name
}

/// The metric name (as UTF-8 bytes) and the unit of a column of the
/// report.
pub fn column_metric(column: &str) -> (r: (Vec<u8>, Unit))
    ensures
        r.0@ == column_metric_spec(column.spec_bytes()).0,
        r.1 == column_metric_spec(column.spec_bytes()).1,
{
    let c: &[u8] = column.as_bytes();
    let w: [u8; 4] = [0x20u8, 0x5bu8, 0x57u8, 0x5du8];
    let mhz: [u8; 6] = [0x20u8, 0x5bu8, 0x4du8, 0x48u8, 0x7au8, 0x5du8];
    let mib: [u8; 6] = [0x20u8, 0x5bu8, 0x4du8, 0x69u8, 0x42u8, 0x5du8];
    let pct: [u8; 4] = [0x20u8, 0x5bu8, 0x25u8, 0x5du8];
    let us: [u8; 5] = [0x20u8, 0x5bu8, 0x75u8, 0x73u8, 0x5du8];
    let watts: [u8; 6] = [0x5fu8, 0x77u8, 0x61u8, 0x74u8, 0x74u8, 0x73u8];
    let clock: [u8; 9] = [0x5fu8, 0x63u8, 0x6cu8, 0x6fu8, 0x63u8, 0x6bu8, 0x5fu8, 0x68u8, 0x7au8];
    let bytes: [u8; 6] = [0x5fu8, 0x62u8, 0x79u8, 0x74u8, 0x65u8, 0x73u8];
    let ratio: [u8; 6] = [0x5fu8, 0x72u8, 0x61u8, 0x74u8, 0x69u8, 0x6fu8];
    let seconds: [u8; 8] = [0x5fu8, 0x73u8, 0x65u8, 0x63u8, 0x6fu8, 0x6eu8, 0x64u8, 0x73u8];
    assert(w@ =~= watts_unit());
    assert(mhz@ =~= mhz_unit());
    assert(mib@ =~= mib_unit());
    assert(pct@ =~= percent_unit());
    assert(us@ =~= us_unit());
    assert(watts@ =~= watts_name());
    assert(clock@ =~= clock_name());
    assert(bytes@ =~= bytes_name());
    assert(ratio@ =~= ratio_name());
    assert(seconds@ =~= seconds_name());
    if ends_with(c, w.as_slice()) {
        (named(c, 4, watts.as_slice()), Unit::Watts)
    } else if ends_with(c, mhz.as_slice()) {
        (named(c, 6, clock.as_slice()), Unit::ClockHz)
    } else if ends_with(c, mib.as_slice()) {
        (named(c, 6, bytes.as_slice()), Unit::Bytes)
    } else if ends_with(c, pct.as_slice()) {
        (named(c, 4, ratio.as_slice()), Unit::Ratio)
    } else if ends_with(c, us.as_slice()) {
        (named(c, 5, seconds.as_slice()), Unit::Seconds)
    } else {
        (sanitize_bytes(c), Unit::Plain)
    }
}

/// The number that a field spelled as a word stands for: a state, a
/// compute mode or a performance state.
pub open spec fn known_value(f: Seq<u8>) -> Option<int> {
    if f == seq![0x45u8, 0x6eu8, 0x61u8, 0x62u8, 0x6cu8, 0x65u8, 0x64u8] {
        Some(1)
    } else if f == seq![0x59u8, 0x65u8, 0x73u8] {
        Some(1)
    } else if f == seq![0x41u8, 0x63u8, 0x74u8, 0x69u8, 0x76u8, 0x65u8] {
        Some(1)
    } else if f == seq![0x44u8, 0x69u8, 0x73u8, 0x61u8, 0x62u8, 0x6cu8, 0x65u8, 0x64u8] {
        Some(0)
    } else if f == seq![0x4eu8, 0x6fu8] {
        Some(0)
    } else if f == seq![0x4eu8, 0x6fu8, 0x74u8, 0x20u8, 0x41u8, 0x63u8, 0x74u8, 0x69u8, 0x76u8, 0x65u8] {
        Some(0)
    } else if f == seq![0x44u8, 0x65u8, 0x66u8, 0x61u8, 0x75u8, 0x6cu8, 0x74u8] {
        Some(0)
    } else if f == seq![0x45u8, 0x78u8, 0x63u8, 0x6cu8, 0x75u8, 0x73u8, 0x69u8, 0x76u8, 0x65u8, 0x5fu8, 0x54u8, 0x68u8, 0x72u8, 0x65u8, 0x61u8, 0x64u8] {
        Some(1)
    } else if f == seq![0x50u8, 0x72u8, 0x6fu8, 0x68u8, 0x69u8, 0x62u8, 0x69u8, 0x74u8, 0x65u8, 0x64u8] {
        Some(2)
    } else if f == seq![0x45u8, 0x78u8, 0x63u8, 0x6cu8, 0x75u8, 0x73u8, 0x69u8, 0x76u8, 0x65u8, 0x5fu8, 0x50u8, 0x72u8, 0x6fu8, 0x63u8, 0x65u8, 0x73u8, 0x73u8] {
        Some(3)
    } else if f == seq![0x50u8, 0x30u8] {
        Some(0)
    } else if f == seq![0x50u8, 0x31u8] {
        Some(1)
    } else if f == seq![0x50u8, 0x32u8] {
        Some(2)
    } else if f == seq![0x50u8, 0x33u8] {
        Some(3)
    } else if f == seq![0x50u8, 0x34u8] {
        Some(4)
    } else if f == seq![0x50u8, 0x35u8] {
        Some(5)
    } else if f == seq![0x50u8, 0x36u8] {
        Some(6)
    } else if f == seq![0x50u8, 0x37u8] {
        Some(7)
    } else if f == seq![0x50u8, 0x38u8] {
        Some(8)
    } else if f == seq![0x50u8, 0x39u8] {
        Some(9)
    } else if f == seq![0x50u8, 0x31u8, 0x30u8] {
        Some(10)
    } else if f == seq![0x50u8, 0x31u8, 0x31u8] {
        Some(11)
    } else if f == seq![0x50u8, 0x31u8, 0x32u8] {
        Some(12)
    } else {
        None
    }
}

fn known_value_exec(f: &[u8]) -> (r: Option<u8>)
    ensures
        match known_value(f@) {
            Some(v) => r == Some(v as u8),
            None => r is None,
        },
{
    proof {
        assert([0x45u8, 0x6eu8, 0x61u8, 0x62u8, 0x6cu8, 0x65u8, 0x64u8]@ =~= seq![0x45u8, 0x6eu8, 0x61u8, 0x62u8, 0x6cu8, 0x65u8, 0x64u8]);
        assert([0x59u8, 0x65u8, 0x73u8]@ =~= seq![0x59u8, 0x65u8, 0x73u8]);
        assert([0x41u8, 0x63u8, 0x74u8, 0x69u8, 0x76u8, 0x65u8]@ =~= seq![0x41u8, 0x63u8, 0x74u8, 0x69u8, 0x76u8, 0x65u8]);
        assert([0x44u8, 0x69u8, 0x73u8, 0x61u8, 0x62u8, 0x6cu8, 0x65u8, 0x64u8]@ =~= seq![0x44u8, 0x69u8, 0x73u8, 0x61u8, 0x62u8, 0x6cu8, 0x65u8, 0x64u8]);
        assert([0x4eu8, 0x6fu8]@ =~= seq![0x4eu8, 0x6fu8]);
        assert([0x4eu8, 0x6fu8, 0x74u8, 0x20u8, 0x41u8, 0x63u8, 0x74u8, 0x69u8, 0x76u8, 0x65u8]@ =~= seq![0x4eu8, 0x6fu8, 0x74u8, 0x20u8, 0x41u8, 0x63u8, 0x74u8, 0x69u8, 0x76u8, 0x65u8]);
        assert([0x44u8, 0x65u8, 0x66u8, 0x61u8, 0x75u8, 0x6cu8, 0x74u8]@ =~= seq![0x44u8, 0x65u8, 0x66u8, 0x61u8, 0x75u8, 0x6cu8, 0x74u8]);
        assert([0x45u8, 0x78u8, 0x63u8, 0x6cu8, 0x75u8, 0x73u8, 0x69u8, 0x76u8, 0x65u8, 0x5fu8, 0x54u8, 0x68u8, 0x72u8, 0x65u8, 0x61u8, 0x64u8]@ =~= seq![0x45u8, 0x78u8, 0x63u8, 0x6cu8, 0x75u8, 0x73u8, 0x69u8, 0x76u8, 0x65u8, 0x5fu8, 0x54u8, 0x68u8, 0x72u8, 0x65u8, 0x61u8, 0x64u8]);
        assert([0x50u8, 0x72u8, 0x6fu8, 0x68u8, 0x69u8, 0x62u8, 0x69u8, 0x74u8, 0x65u8, 0x64u8]@ =~= seq![0x50u8, 0x72u8, 0x6fu8, 0x68u8, 0x69u8, 0x62u8, 0x69u8, 0x74u8, 0x65u8, 0x64u8]);
        assert([0x45u8, 0x78u8, 0x63u8, 0x6cu8, 0x75u8, 0x73u8, 0x69u8, 0x76u8, 0x65u8, 0x5fu8, 0x50u8, 0x72u8, 0x6fu8, 0x63u8, 0x65u8, 0x73u8, 0x73u8]@ =~= seq![0x45u8, 0x78u8, 0x63u8, 0x6cu8, 0x75u8, 0x73u8, 0x69u8, 0x76u8, 0x65u8, 0x5fu8, 0x50u8, 0x72u8, 0x6fu8, 0x63u8, 0x65u8, 0x73u8, 0x73u8]);
        assert([0x50u8, 0x30u8]@ =~= seq![0x50u8, 0x30u8]);
        assert([0x50u8, 0x31u8]@ =~= seq![0x50u8, 0x31u8]);
        assert([0x50u8, 0x32u8]@ =~= seq![0x50u8, 0x32u8]);
        assert([0x50u8, 0x33u8]@ =~= seq![0x50u8, 0x33u8]);
        assert([0x50u8, 0x34u8]@ =~= seq![0x50u8, 0x34u8]);
        assert([0x50u8, 0x35u8]@ =~= seq![0x50u8, 0x35u8]);
        assert([0x50u8, 0x36u8]@ =~= seq![0x50u8, 0x36u8]);
        assert([0x50u8, 0x37u8]@ =~= seq![0x50u8, 0x37u8]);
        assert([0x50u8, 0x38u8]@ =~= seq![0x50u8, 0x38u8]);
        assert([0x50u8, 0x39u8]@ =~= seq![0x50u8, 0x39u8]);
        assert([0x50u8, 0x31u8, 0x30u8]@ =~= seq![0x50u8, 0x31u8, 0x30u8]);
        assert([0x50u8, 0x31u8, 0x31u8]@ =~= seq![0x50u8, 0x31u8, 0x31u8]);
        assert([0x50u8, 0x31u8, 0x32u8]@ =~= seq![0x50u8, 0x31u8, 0x32u8]);
    }
    if is_word(f, &[0x45u8, 0x6eu8, 0x61u8, 0x62u8, 0x6cu8, 0x65u8, 0x64u8]) {
        Some(1u8)
    } else if is_word(f, &[0x59u8, 0x65u8, 0x73u8]) {
        Some(1u8)
    } else if is_word(f, &[0x41u8, 0x63u8, 0x74u8, 0x69u8, 0x76u8, 0x65u8]) {
        Some(1u8)
    } else if is_word(f, &[0x44u8, 0x69u8, 0x73u8, 0x61u8, 0x62u8, 0x6cu8, 0x65u8, 0x64u8]) {
        Some(0u8)
    } else if is_word(f, &[0x4eu8, 0x6fu8]) {
        Some(0u8)
    } else if is_word(f, &[0x4eu8, 0x6fu8, 0x74u8, 0x20u8, 0x41u8, 0x63u8, 0x74u8, 0x69u8, 0x76u8, 0x65u8]) {
        Some(0u8)
    } else if is_word(f, &[0x44u8, 0x65u8, 0x66u8, 0x61u8, 0x75u8, 0x6cu8, 0x74u8]) {
        Some(0u8)
    } else if is_word(f, &[0x45u8, 0x78u8, 0x63u8, 0x6cu8, 0x75u8, 0x73u8, 0x69u8, 0x76u8, 0x65u8, 0x5fu8, 0x54u8, 0x68u8, 0x72u8, 0x65u8, 0x61u8, 0x64u8]) {
        Some(1u8)
    } else if is_word(f, &[0x50u8, 0x72u8, 0x6fu8, 0x68u8, 0x69u8, 0x62u8, 0x69u8, 0x74u8, 0x65u8, 0x64u8]) {
        Some(2u8)
    } else if is_word(f, &[0x45u8, 0x78u8, 0x63u8, 0x6cu8, 0x75u8, 0x73u8, 0x69u8, 0x76u8, 0x65u8, 0x5fu8, 0x50u8, 0x72u8, 0x6fu8, 0x63u8, 0x65u8, 0x73u8, 0x73u8]) {
        Some(3u8)
    } else if is_word(f, &[0x50u8, 0x30u8]) {
        Some(0u8)
    } else if is_word(f, &[0x50u8, 0x31u8]) {
        Some(1u8)
    } else if is_word(f, &[0x50u8, 0x32u8]) {
        Some(2u8)
    } else if is_word(f, &[0x50u8, 0x33u8]) {
        Some(3u8)
    } else if is_word(f, &[0x50u8, 0x34u8]) {
        Some(4u8)
    } else if is_word(f, &[0x50u8, 0x35u8]) {
        Some(5u8)
    } else if is_word(f, &[0x50u8, 0x36u8]) {
        Some(6u8)
    } else if is_word(f, &[0x50u8, 0x37u8]) {
        Some(7u8)
    } else if is_word(f, &[0x50u8, 0x38u8]) {
        Some(8u8)
    } else if is_word(f, &[0x50u8, 0x39u8]) {
        Some(9u8)
    } else if is_word(f, &[0x50u8, 0x31u8, 0x30u8]) {
        Some(10u8)
    } else if is_word(f, &[0x50u8, 0x31u8, 0x31u8]) {
        Some(11u8)
    } else if is_word(f, &[0x50u8, 0x31u8, 0x32u8]) {
        Some(12u8)
    } else {
        None
    }
}

/// What a field of a GPU row gives.
#[derive(Clone, Copy, Debug, PartialEq, Eq)]
pub enum FieldValue<'a> {
    /// `[N/A]`: nothing.
    Missing,
    /// A word that stands for a number.
    Known(u8),
    /// The text before the field's first space, whose number the caller
    /// reads: in decimal, or else in hexadecimal (see `hex_field`).
    Text(&'a [u8]),
}

/// A field value as plain values.
pub enum FieldModel {
    Missing,
    Known(int),
    Text(Seq<u8>),
}

pub open spec fn field_view(v: FieldValue) -> FieldModel {
    match v {
        FieldValue::Missing => FieldModel::Missing,
        FieldValue::Known(n) => FieldModel::Known(n as int),
        FieldValue::Text(t) => FieldModel::Text(t@),
    }
}

/// `[N/A]`
pub open spec fn not_available() -> Seq<u8> {
    seq![0x5bu8, 0x4eu8, 0x2fu8, 0x41u8, 0x5du8]
}

/// What the field `f` gives: nothing for `[N/A]`, the number of a known
/// word, or else its text up to the first space.
pub open spec fn field_model(f: Seq<u8>) -> FieldModel {
    if f == not_available() {
        FieldModel::Missing
    } else {
        match known_value(f) {
            Some(v) => FieldModel::Known(v),
            None => FieldModel::Text(
                match first_index(f, 0x20u8) {
                    Some(i) => f.subrange(0, i),
                    None => f,
                },
            ),
        }
    }
}

/// Reads a field of a GPU row.
pub fn field_value(f: &[u8]) -> (r: FieldValue<'_>)
    ensures
        field_view(r) == field_model(f@),
{
    assert([0x5bu8, 0x4eu8, 0x2fu8, 0x41u8, 0x5du8]@ =~= not_available());
    if is_word(f, &[0x5bu8, 0x4eu8, 0x2fu8, 0x41u8, 0x5du8]) {
        return FieldValue::Missing;
    }
    match known_value_exec(f) {
        Some(v) => FieldValue::Known(v),
        None => match find_byte(f, 0x20u8) {
            Some(i) => {
                let word = &f[0..i];
                assert(word@ =~= f@.subrange(0, i as int));
                FieldValue::Text(word)
            },
            None => FieldValue::Text(f),
        },
    }
}

/// `0x`
pub open spec fn hex_prefix() -> Seq<u8> {
    seq![0x30u8, 0x78u8]
}

/// The number that a field's text gives in hexadecimal: `0x` and then what
/// `u64::from_str_radix(.., 16)` reads.
pub open spec fn hex_field_spec(t: Seq<u8>) -> Option<u64> {
    if has_prefix(t, hex_prefix()) {
        hex_u64(t.subrange(2, t.len() as int))
    } else {
        None
    }
}

/// Reads a field's text as `0x` and hexadecimal digits.
pub fn hex_field(t: &[u8]) -> (r: Option<u64>)
    ensures
        r == hex_field_spec(t@),
{
    assert([0x30u8, 0x78u8]@ =~= hex_prefix());
    if !starts_with(t, &[0x30u8, 0x78u8]) {
        return None;
    }
    let digits = &t[2..t.len()];
    assert(digits@ =~= t@.subrange(2, t@.len() as int));
    parse_hex_u64(digits)
}

/// The comma-separated cells of a CSV line, each trimmed of whitespace.
pub open spec fn cells(line: Seq<u8>) -> Seq<Seq<u8>> {
    split(line, 0x2cu8, 0x2cu8).map_values(|c: Seq<u8>| trim_ws(c))
}

fn cells_exec(line: &[u8]) -> (r: Vec<&[u8]>)
    ensures
        views(r@) == cells(line@),
{
    let pieces = split_bytes(line, 0x2cu8, 0x2cu8);
    let ghost ps = views(pieces@);
    let mut out: Vec<&[u8]> = Vec::new();
    let mut i: usize = 0;
    while i < pieces.len()
        invariant
            i <= pieces@.len(),
            ps == views(pieces@),
            ps == split(line@, 0x2cu8, 0x2cu8),
            out@.len() == i,
            forall|k: int| 0 <= k < i ==> (#[trigger] out@[k])@ == trim_ws(ps[k]),
        decreases pieces@.len() - i,
    {
        assert(ps[i as int] == pieces@[i as int]@);
        out.push(trim_str_bytes(pieces[i]));
        i = i + 1;
    }
    assert(views(out@) =~= cells(line@)) by {
        assert forall|k: int| 0 <= k < out@.len() implies views(out@)[k] == cells(line@)[k] by {
            assert(views(out@)[k] == out@[k]@);
        }
    }
    out
}

/// The index of the last of `names` that is `w`, among the first `n`.
pub open spec fn last_named(names: Seq<Seq<u8>>, w: Seq<u8>, n: nat) -> Option<int>
    decreases n,
{
    if n == 0 || n > names.len() {
        None
    } else if names[n - 1] == w {
        Some(n - 1)
    } else {
        last_named(names, w, (n - 1) as nat)
    }
}

/// The columns of the report, and where its identifying columns are.
pub struct GpuColumns<'a> {
    pub names: Vec<&'a [u8]>,
    pub name: Option<usize>,
    pub uuid: Option<usize>,
    pub vbios_version: Option<usize>,
    pub driver_version: Option<usize>,
    pub driver_model_current: Option<usize>,
    pub driver_model_pending: Option<usize>,
}

/// `name`, `uuid`, `vbios_version`, `driver_version`,
/// `driver_model.current`, `driver_model.pending`.
pub open spec fn name_column() -> Seq<u8> {
    seq![0x6eu8, 0x61u8, 0x6du8, 0x65u8]
}

pub open spec fn uuid_column() -> Seq<u8> {
    seq![0x75u8, 0x75u8, 0x69u8, 0x64u8]
}

pub open spec fn vbios_column() -> Seq<u8> {
    seq![0x76u8, 0x62u8, 0x69u8, 0x6fu8, 0x73u8, 0x5fu8, 0x76u8, 0x65u8, 0x72u8, 0x73u8, 0x69u8, 0x6fu8, 0x6eu8]
}

pub open spec fn driver_column() -> Seq<u8> {
    seq![0x64u8, 0x72u8, 0x69u8, 0x76u8, 0x65u8, 0x72u8, 0x5fu8, 0x76u8, 0x65u8, 0x72u8, 0x73u8, 0x69u8, 0x6fu8, 0x6eu8]
}

pub open spec fn model_current_column() -> Seq<u8> {
    seq![
        0x64u8, 0x72u8, 0x69u8, 0x76u8, 0x65u8, 0x72u8, 0x5fu8, 0x6du8, 0x6fu8, 0x64u8, 0x65u8, 0x6cu8, 0x2eu8,
        0x63u8, 0x75u8, 0x72u8, 0x72u8, 0x65u8, 0x6eu8, 0x74u8,
    ]
}

pub open spec fn model_pending_column() -> Seq<u8> {
    seq![
        0x64u8, 0x72u8, 0x69u8, 0x76u8, 0x65u8, 0x72u8, 0x5fu8, 0x6du8, 0x6fu8, 0x64u8, 0x65u8, 0x6cu8, 0x2eu8,
        0x70u8, 0x65u8, 0x6eu8, 0x64u8, 0x69u8, 0x6eu8, 0x67u8,
    ]
}

/// An index as a plain value.
pub open spec fn index_view(i: Option<usize>) -> Option<int> {
    match i {
        Some(k) => Some(k as int),
        None => None,
    }
}

/// The columns that a header line names: its cells, and the last cell of
/// each identifying name.
pub open spec fn columns_of(header: Seq<u8>, c: GpuColumns) -> bool {
    let names = cells(header);
    &&& views(c.names@) == names
    &&& index_view(c.name) == last_named(names, name_column(), names.len())
    &&& index_view(c.uuid) == last_named(names, uuid_column(), names.len())
    &&& index_view(c.vbios_version) == last_named(names, vbios_column(), names.len())
    &&& index_view(c.driver_version) == last_named(names, driver_column(), names.len())
    &&& index_view(c.driver_model_current) == last_named(names, model_current_column(), names.len())
    &&& index_view(c.driver_model_pending) == last_named(names, model_pending_column(), names.len())
}

/// Reads the header line of the report.
pub fn parse_columns(header: &str) -> (r: GpuColumns<'_>)
    ensures
        columns_of(header.spec_bytes(), r),
{
    let names = cells_exec(header.as_bytes());
    let ghost ns = views(names@);
    let name_w: [u8; 4] = [0x6eu8, 0x61u8, 0x6du8, 0x65u8];
    let uuid_w: [u8; 4] = [0x75u8, 0x75u8, 0x69u8, 0x64u8];
    let vbios_w: [u8; 13] = [0x76u8, 0x62u8, 0x69u8, 0x6fu8, 0x73u8, 0x5fu8, 0x76u8, 0x65u8, 0x72u8, 0x73u8, 0x69u8, 0x6fu8, 0x6eu8];
    let driver_w: [u8; 14] = [0x64u8, 0x72u8, 0x69u8, 0x76u8, 0x65u8, 0x72u8, 0x5fu8, 0x76u8, 0x65u8, 0x72u8, 0x73u8, 0x69u8, 0x6fu8, 0x6eu8];
    let current_w: [u8; 20] = [
        0x64u8, 0x72u8, 0x69u8, 0x76u8, 0x65u8, 0x72u8, 0x5fu8, 0x6du8, 0x6fu8, 0x64u8, 0x65u8, 0x6cu8, 0x2eu8,
        0x63u8, 0x75u8, 0x72u8, 0x72u8, 0x65u8, 0x6eu8, 0x74u8,
    ];
    let pending_w: [u8; 20] = [
        0x64u8, 0x72u8, 0x69u8, 0x76u8, 0x65u8, 0x72u8, 0x5fu8, 0x6du8, 0x6fu8, 0x64u8, 0x65u8, 0x6cu8, 0x2eu8,
        0x70u8, 0x65u8, 0x6eu8, 0x64u8, 0x69u8, 0x6eu8, 0x67u8,
    ];
    let name = last_index_of(&names, name_w.as_slice());
    let uuid = last_index_of(&names, uuid_w.as_slice());
    let vbios_version = last_index_of(&names, vbios_w.as_slice());
    let driver_version = last_index_of(&names, driver_w.as_slice());
    let driver_model_current = last_index_of(&names, current_w.as_slice());
    let driver_model_pending = last_index_of(&names, pending_w.as_slice());
    assert(name_w@ =~= name_column());
    assert(uuid_w@ =~= uuid_column());
    assert(vbios_w@ =~= vbios_column());
    assert(driver_w@ =~= driver_column());
    assert(current_w@ =~= model_current_column());
    assert(pending_w@ =~= model_pending_column());
    GpuColumns { names, name, uuid, vbios_version, driver_version, driver_model_current, driver_model_pending }
}

fn last_index_of(names: &Vec<&[u8]>, w: &[u8]) -> (r: Option<usize>)
    ensures
        index_view(r) == last_named(views(names@), w@, names@.len()),
{
    let ghost ns = views(names@);
    let mut found: Option<usize> = None;
    let mut i: usize = 0;
    while i < names.len()
        invariant
            i <= names@.len(),
            ns == views(names@),
            index_view(found) == last_named(ns, w@, i as nat),
        decreases names@.len() - i,
    {
        assert(ns[i as int] == names@[i as int]@);
        if is_word(names[i], w) {
            found = Some(i);
        }
        i = i + 1;
    }
    found
}

/// The fields of a data line of the report, when it has one per column.
pub open spec fn row_of(columns: Seq<Seq<u8>>, line: Seq<u8>) -> Option<Seq<Seq<u8>>> {
    if cells(line).len() == columns.len() {
        Some(cells(line))
    } else {
        None
    }
}

/// Reads a data line of the report.
pub fn gpu_row<'a>(columns: &GpuColumns, line: &'a str) -> (r: Option<Vec<&'a [u8]>>)
    ensures
        match row_of(views(columns.names@), line.spec_bytes()) {
            Some(f) => r matches Some(v) && views(v@) == f,
            None => r is None,
        },
{
    let fields = cells_exec(line.as_bytes());
    if fields.len() != columns.names.len() {
        return None;
    }
    Some(fields)
}

/// `GPU-`
pub open spec fn gpu_prefix() -> Seq<u8> {
    seq![0x47u8, 0x50u8, 0x55u8, 0x2du8]
}

/// A GPU's uuid without its `GPU-` prefix.
pub open spec fn uuid_label(f: Seq<u8>) -> Seq<u8> {
    if has_prefix(f, gpu_prefix()) {
        f.subrange(4, f.len() as int)
    } else {
        f
    }
}

/// The label of an identifying column, where the report has it.
pub open spec fn id_label(key: &'static str, index: Option<usize>, fields: Seq<Seq<u8>>) -> Seq<(&'static str, TagModel)> {
    match index {
        Some(i) => if i < fields.len() {
            seq![(key, TagModel::Field(fields[i as int]))]
        } else {
            Seq::empty()
        },
        None => Seq::empty(),
    }
}

/// The information sample of a GPU: labelled by its uuid, and by its
/// name, VBIOS and driver versions and driver models where the report has
/// them.
pub open spec fn gpu_info_spec(columns: GpuColumns, fields: Seq<Seq<u8>>) -> SampleModel {
    SampleModel {
        name: "nvidia_gpu_info",
        description: "A metric with a constant '1' value labeled by gpu uuid, name, driver_model_current, driver_model_pending, vbios_version, driver_version.",
        kind: Kind::Gauge,
        value: 1,
        tags: seq![("uuid", TagModel::Field(uuid_label(fields[columns.uuid->0 as int])))] + id_label(
            "name",
            columns.name,
            fields,
        ) + id_label("vbios_version", columns.vbios_version, fields) + id_label(
            "driver_version",
            columns.driver_version,
            fields,
        ) + id_label("driver_model_current", columns.driver_model_current, fields) + id_label(
            "driver_model_pending",
            columns.driver_model_pending,
            fields,
        ),
    }
}

/// The uuid of a GPU row, without its `GPU-` prefix.
pub fn gpu_uuid<'a>(columns: &GpuColumns, fields: &Vec<&'a [u8]>) -> (r: &'a [u8])
    requires
        columns.uuid is Some,
        columns.uuid->0 < fields@.len(),
    ensures
        r@ == uuid_label(fields@[columns.uuid->0 as int]@),
{
    let f = fields[columns.uuid.unwrap()];
    assert([0x47u8, 0x50u8, 0x55u8, 0x2du8]@ =~= gpu_prefix());
    if starts_with(f, &[0x47u8, 0x50u8, 0x55u8, 0x2du8]) {
        let rest = &f[4..f.len()];
        assert(rest@ =~= f@.subrange(4, f@.len() as int));
        rest
    } else {
        f
    }
}

fn push_id<'a>(tags: &mut Vec<(&'static str, TagValue<'a>)>, key: &'static str, index: Option<usize>, fields: &Vec<&'a [u8]>)
    ensures
        tags_view(final(tags)@) == tags_view(old(tags)@) + id_label(key, index, views(fields@)),
{
    let ghost before = tags@;
    match index {
        Some(i) => if i < fields.len() {
            tags.push((key, TagValue::Field(fields[i])));
            assert(tags_view(tags@) =~= tags_view(before) + seq![(key, TagModel::Field(views(fields@)[i as int]))]);
        } else {
            assert(tags_view(before) + Seq::<(&'static str, TagModel)>::empty() =~= tags_view(before));
        },
        None => {
            assert(tags_view(before) + Seq::<(&'static str, TagModel)>::empty() =~= tags_view(before));
        },
    }
}

/// The information sample of a GPU row, whose report has a `uuid` column.
pub fn gpu_info<'a>(columns: &GpuColumns, fields: &Vec<&'a [u8]>) -> (r: Sample<'a>)
    requires
        columns.uuid is Some,
        columns.uuid->0 < fields@.len(),
    ensures
        r@ == gpu_info_spec(*columns, views(fields@)),
{
    let mut tags: Vec<(&'static str, TagValue<'a>)> = Vec::new();
    tags.push(("uuid", TagValue::Field(gpu_uuid(columns, fields))));
    push_id(&mut tags, "name", columns.name, fields);
    push_id(&mut tags, "vbios_version", columns.vbios_version, fields);
    push_id(&mut tags, "driver_version", columns.driver_version, fields);
    push_id(&mut tags, "driver_model_current", columns.driver_model_current, fields);
    push_id(&mut tags, "driver_model_pending", columns.driver_model_pending, fields);
    let r = Sample {
        name: "nvidia_gpu_info",
        description: "A metric with a constant '1' value labeled by gpu uuid, name, driver_model_current, driver_model_pending, vbios_version, driver_version.",
        kind: Kind::Gauge,
        value: 1,
        tags,
    };
    assert(r@.tags =~= gpu_info_spec(*columns, views(fields@)).tags);
    r
}

/// The index just past the first line from `j` on that is blank once
/// trimmed, or the end.
pub open spec fn past_blank(ls: Seq<Seq<u8>>, j: int) -> int
    decreases ls.len() - j,
{
    if j < 0 || j >= ls.len() {
        ls.len() as int
    } else if trim_ws(ls[j]).len() == 0 {
        j + 1
    } else {
        past_blank(ls, j + 1)
    }
}

/// The name that a line of the field help starts, if it does: the text
/// between the first two `"` of the trimmed line, which starts with one.
pub open spec fn field_name(line: Seq<u8>) -> Option<Seq<u8>> {
    let t = trim_ws(line);
    if t.len() > 0 && t[0] == 0x22u8 {
        let rest = t.subrange(1, t.len() as int);
        match first_index(rest, 0x22u8) {
            Some(q) => Some(rest.subrange(0, q)),
            None => None,
        }
    } else {
        None
    }
}

/// The fields that the help text from line `i` on describes: a line that
/// names a field is followed by its description, one line, and then lines
/// up to a blank one.
pub open spec fn query_fields_from(ls: Seq<Seq<u8>>, i: int) -> Seq<(Seq<u8>, Seq<u8>)>
    decreases ls.len() - i,
{
    if i < 0 || i >= ls.len() {
        Seq::empty()
    } else {
        match field_name(ls[i]) {
            None => query_fields_from(ls, i + 1),
            Some(name) => if i + 1 >= ls.len() {
                Seq::empty()
            } else {
                proof {
                    lemma_past_blank(ls, i + 2);
                }
                seq![(name, ls[i + 1])] + query_fields_from(ls, past_blank(ls, i + 2))
            },
        }
    }
}

/// `past_blank` moves past `j` and stays within the lines.
pub proof fn lemma_past_blank(ls: Seq<Seq<u8>>, j: int)
    requires
        0 <= j,
    ensures
        j < past_blank(ls, j) || (j >= ls.len() && past_blank(ls, j) == ls.len()),
        past_blank(ls, j) <= ls.len() || j > ls.len(),
    decreases ls.len() - j,
{
    if j < ls.len() && trim_ws(ls[j]).len() != 0 {
        lemma_past_blank(ls, j + 1);
    }
}

/// The query fields of a GPU and their descriptions, as
/// `nvidia-smi --help-query-gpu` lists them.
pub open spec fn query_fields_spec(help: Seq<u8>) -> Seq<(Seq<u8>, Seq<u8>)> {
    query_fields_from(lines(help), 0)
}

/// The models of named texts.
pub open spec fn pair_views(v: Seq<(&[u8], &[u8])>) -> Seq<(Seq<u8>, Seq<u8>)> {
    v.map_values(|p: (&[u8], &[u8])| (p.0@, p.1@))
}

fn field_name_exec(line: &[u8]) -> (r: Option<&[u8]>)
    ensures
        match field_name(line@) {
            Some(n) => r matches Some(x) && x@ == n,
            None => r is None,
        },
{
    let t = trim_str_bytes(line);
    if t.len() == 0 || t[0] != 0x22u8 {
        return None;
    }
    let rest = &t[1..t.len()];
    assert(rest@ =~= t@.subrange(1, t@.len() as int));
    match find_byte(rest, 0x22u8) {
        Some(q) => {
            let name = &rest[0..q];
            assert(name@ =~= rest@.subrange(0, q as int));
            Some(name)
        },
        None => None,
    }
}

/// Reads the output of `nvidia-smi --help-query-gpu`: each field's name
/// and its one-line description.
pub fn query_fields(help: &str) -> (r: Vec<(&[u8], &[u8])>)
    ensures
        pair_views(r@) == query_fields_spec(help.spec_bytes()),
{
    let ls = split_lines(help.as_bytes());
    let ghost lv = views(ls@);
    let mut out: Vec<(&[u8], &[u8])> = Vec::new();
    let mut i: usize = 0;
    assert(pair_views(out@) =~= Seq::<(Seq<u8>, Seq<u8>)>::empty());
    while i < ls.len()
        invariant
            i <= ls@.len(),
            lv == views(ls@),
            lv == lines(help.spec_bytes()),
            pair_views(out@) + query_fields_from(lv, i as int) == query_fields_spec(help.spec_bytes()),
        decreases ls@.len() - i,
    {
        assert(lv[i as int] == ls@[i as int]@);
        match field_name_exec(ls[i]) {
            None => {
                i = i + 1;
            },
            Some(name) => {
                if i + 1 >= ls.len() {
                    assert(query_fields_from(lv, i as int) =~= Seq::<(Seq<u8>, Seq<u8>)>::empty());
                    assert(pair_views(out@) + Seq::<(Seq<u8>, Seq<u8>)>::empty() =~= pair_views(out@));
                    return out;
                }
                let ghost before = pair_views(out@);
                assert(lv[i + 1] == ls@[i + 1]@);
                out.push((name, ls[i + 1]));
                let mut j: usize = i + 2;
                while j < ls.len() && trim_str_bytes(ls[j]).len() != 0
                    invariant
                        i + 2 <= j <= ls@.len(),
                        lv == views(ls@),
                        past_blank(lv, i + 2) == past_blank(lv, j as int),
                    decreases ls@.len() - j,
                {
                    assert(lv[j as int] == ls@[j as int]@);
                    j = j + 1;
                }
                if j < ls.len() {
                    assert(lv[j as int] == ls@[j as int]@);
                    j = j + 1;
                }
                proof {
                    assert(pair_views(out@) =~= before.push((field_name(lv[i as int])->0, lv[i + 1])));
                    assert(before + query_fields_from(lv, i as int) =~= pair_views(out@) + query_fields_from(
                        lv,
                        j as int,
                    ));
                }
                i = j;
            },
        }
    }
    assert(query_fields_from(lv, i as int) =~= Seq::<(Seq<u8>, Seq<u8>)>::empty());
    assert(pair_views(out@) + Seq::<(Seq<u8>, Seq<u8>)>::empty() =~= pair_views(out@));
    out
}


/// The performance states `P0` (most performance) to `P12` (least) read as
/// their numbers: `P` followed by the decimal digits of `n` gives `n`.
pub proof fn lemma_performance_states(n: nat)
    requires
        n <= 12,
    ensures
        field_model(seq![0x50u8] + dec_text(n)) == FieldModel::Known(n as int),
{
    reveal_with_fuel(dec_text, 2);
    if n == 0 {
        assert(seq![0x50u8] + dec_text(n) =~= seq![0x50u8, 0x30u8]);
    } else if n == 1 {
        assert(seq![0x50u8] + dec_text(n) =~= seq![0x50u8, 0x31u8]);
    } else if n == 2 {
        assert(seq![0x50u8] + dec_text(n) =~= seq![0x50u8, 0x32u8]);
    } else if n == 3 {
        assert(seq![0x50u8] + dec_text(n) =~= seq![0x50u8, 0x33u8]);
    } else if n == 4 {
        assert(seq![0x50u8] + dec_text(n) =~= seq![0x50u8, 0x34u8]);
    } else if n == 5 {
        assert(seq![0x50u8] + dec_text(n) =~= seq![0x50u8, 0x35u8]);
    } else if n == 6 {
        assert(seq![0x50u8] + dec_text(n) =~= seq![0x50u8, 0x36u8]);
    } else if n == 7 {
        assert(seq![0x50u8] + dec_text(n) =~= seq![0x50u8, 0x37u8]);
    } else if n == 8 {
        assert(seq![0x50u8] + dec_text(n) =~= seq![0x50u8, 0x38u8]);
    } else if n == 9 {
        assert(seq![0x50u8] + dec_text(n) =~= seq![0x50u8, 0x39u8]);
    } else if n == 10 {
        assert(seq![0x50u8] + dec_text(n) =~= seq![0x50u8, 0x31u8, 0x30u8]);
    } else if n == 11 {
        assert(seq![0x50u8] + dec_text(n) =~= seq![0x50u8, 0x31u8, 0x31u8]);
    } else if n == 12 {
        assert(seq![0x50u8] + dec_text(n) =~= seq![0x50u8, 0x31u8, 0x32u8]);
    }
}

/// The words of the state, yes/no and compute mode columns: `Enabled`,
/// `Yes`, `Active` and `Exclusive_Thread` read as 1; `Disabled`, `No`,
/// `Not Active` and `Default` as 0; `Prohibited` as 2 and
/// `Exclusive_Process` as 3.
pub proof fn lemma_state_words()
    ensures
        field_model(seq![0x45u8, 0x6eu8, 0x61u8, 0x62u8, 0x6cu8, 0x65u8, 0x64u8]) == FieldModel::Known(1),  // Enabled
        field_model(seq![0x59u8, 0x65u8, 0x73u8]) == FieldModel::Known(1),  // Yes
        field_model(seq![0x41u8, 0x63u8, 0x74u8, 0x69u8, 0x76u8, 0x65u8]) == FieldModel::Known(1),  // Active
        field_model(seq![0x44u8, 0x69u8, 0x73u8, 0x61u8, 0x62u8, 0x6cu8, 0x65u8, 0x64u8]) == FieldModel::Known(0),  // Disabled
        field_model(seq![0x4eu8, 0x6fu8]) == FieldModel::Known(0),  // No
        field_model(seq![0x4eu8, 0x6fu8, 0x74u8, 0x20u8, 0x41u8, 0x63u8, 0x74u8, 0x69u8, 0x76u8, 0x65u8]) == FieldModel::Known(0),  // Not Active
        field_model(seq![0x44u8, 0x65u8, 0x66u8, 0x61u8, 0x75u8, 0x6cu8, 0x74u8]) == FieldModel::Known(0),  // Default
        field_model(seq![0x45u8, 0x78u8, 0x63u8, 0x6cu8, 0x75u8, 0x73u8, 0x69u8, 0x76u8, 0x65u8, 0x5fu8, 0x54u8, 0x68u8, 0x72u8, 0x65u8, 0x61u8, 0x64u8]) == FieldModel::Known(1),  // Exclusive_Thread
        field_model(seq![0x50u8, 0x72u8, 0x6fu8, 0x68u8, 0x69u8, 0x62u8, 0x69u8, 0x74u8, 0x65u8, 0x64u8]) == FieldModel::Known(2),  // Prohibited
        field_model(seq![0x45u8, 0x78u8, 0x63u8, 0x6cu8, 0x75u8, 0x73u8, 0x69u8, 0x76u8, 0x65u8, 0x5fu8, 0x50u8, 0x72u8, 0x6fu8, 0x63u8, 0x65u8, 0x73u8, 0x73u8]) == FieldModel::Known(3),  // Exclusive_Process
{
}
} // verus!
