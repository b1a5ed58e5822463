//! /proc/stat: interrupts, context switches, forks, boot time and process
//! states.

use vstd::prelude::*;
use vstd::string::StringSliceAdditionalSpecFns;

use crate::text::{dec_u64, fields, has_prefix, lines, parse_u64, split_ascii_ws, split_lines, starts_with, views};

verus! {

/// The counters that /proc/stat reports; 0 until a line gives them.
#[derive(Clone, Copy, Debug, PartialEq, Eq)]
pub struct Stat {
    pub intr: u64,
    pub ctxt: u64,
    pub forks: u64,
    pub btime: u64,
    pub procs_running: u64,
    pub procs_blocked: u64,
}

/// The `u64` that `s` holds, or 0.
pub open spec fn u64_or_zero(s: Seq<u8>) -> u64 {
    match dec_u64(s) {
        Some(v) => v,
        None => 0,
    }
}

/// `ctxt `
pub open spec fn prefix_ctxt() -> Seq<u8> {
    seq![0x63u8, 0x74u8, 0x78u8, 0x74u8, 0x20u8]
}

/// `btime `
pub open spec fn prefix_btime() -> Seq<u8> {
    seq![0x62u8, 0x74u8, 0x69u8, 0x6du8, 0x65u8, 0x20u8]
}

/// `intr `
pub open spec fn prefix_intr() -> Seq<u8> {
    seq![0x69u8, 0x6eu8, 0x74u8, 0x72u8, 0x20u8]
}

/// `processes `
pub open spec fn prefix_forks() -> Seq<u8> {
    seq![0x70u8, 0x72u8, 0x6fu8, 0x63u8, 0x65u8, 0x73u8, 0x73u8, 0x65u8, 0x73u8, 0x20u8]
}

/// `procs_running `
pub open spec fn prefix_procs_running() -> Seq<u8> {
    seq![0x70u8, 0x72u8, 0x6fu8, 0x63u8, 0x73u8, 0x5fu8, 0x72u8, 0x75u8, 0x6eu8, 0x6eu8, 0x69u8, 0x6eu8, 0x67u8, 0x20u8]
}

/// `procs_blocked `
pub open spec fn prefix_procs_blocked() -> Seq<u8> {
    seq![0x70u8, 0x72u8, 0x6fu8, 0x63u8, 0x73u8, 0x5fu8, 0x62u8, 0x6cu8, 0x6fu8, 0x63u8, 0x6bu8, 0x65u8, 0x64u8, 0x20u8]
}

/// The counters after one more line: a line that starts with a counter's
/// label and a space sets that counter to the number after it, 0 if there is
/// none; for "intr " the number is the first field after it.
pub open spec fn stat_step(st: Stat, line: Seq<u8>) -> Stat {
    if has_prefix(line, prefix_ctxt()) {
        Stat { ctxt: u64_or_zero(line.subrange(5, line.len() as int)), ..st }
    } else if has_prefix(line, prefix_btime()) {
        Stat { btime: u64_or_zero(line.subrange(6, line.len() as int)), ..st }
    } else if has_prefix(line, prefix_intr()) {
        let f = fields(line.subrange(5, line.len() as int));
        if f.len() > 0 {
            Stat { intr: u64_or_zero(f[0]), ..st }
        } else {
            st
        }
    } else if has_prefix(line, prefix_forks()) {
        Stat { forks: u64_or_zero(line.subrange(10, line.len() as int)), ..st }
    } else if has_prefix(line, prefix_procs_running()) {
        Stat { procs_running: u64_or_zero(line.subrange(14, line.len() as int)), ..st }
    } else if has_prefix(line, prefix_procs_blocked()) {
        Stat { procs_blocked: u64_or_zero(line.subrange(14, line.len() as int)), ..st }
    } else {
        st
    }
}

/// The counters after the first `n` lines.
pub open spec fn stat_from_lines(ls: Seq<Seq<u8>>, n: nat) -> Stat
    decreases n,
{
    if n == 0 || n > ls.len() {
        Stat { intr: 0, ctxt: 0, forks: 0, btime: 0, procs_running: 0, procs_blocked: 0 }
    } else {
        stat_step(stat_from_lines(ls, (n - 1) as nat), ls[n - 1])
    }
}

fn number_or_zero(s: &[u8]) -> (r: u64)
    ensures
        r == u64_or_zero(s@),
{
    match parse_u64(s) {
        Some(v) => v,
        None => 0,
    }
}

/// Reads one more line of /proc/stat.
pub fn stat_line(st: Stat, line: &[u8]) -> (r: Stat)
    ensures
        r == stat_step(st, line@),
{
    let mut st = st;
    proof {
        assert([0x63u8, 0x74u8, 0x78u8, 0x74u8, 0x20u8]@ =~= prefix_ctxt());
        assert([0x62u8, 0x74u8, 0x69u8, 0x6du8, 0x65u8, 0x20u8]@ =~= prefix_btime());
        assert([0x69u8, 0x6eu8, 0x74u8, 0x72u8, 0x20u8]@ =~= prefix_intr());
        assert([0x70u8, 0x72u8, 0x6fu8, 0x63u8, 0x65u8, 0x73u8, 0x73u8, 0x65u8, 0x73u8, 0x20u8]@ =~= prefix_forks());
        assert([0x70u8, 0x72u8, 0x6fu8, 0x63u8, 0x73u8, 0x5fu8, 0x72u8, 0x75u8, 0x6eu8, 0x6eu8, 0x69u8, 0x6eu8, 0x67u8, 0x20u8]@ =~= prefix_procs_running());
        assert([0x70u8, 0x72u8, 0x6fu8, 0x63u8, 0x73u8, 0x5fu8, 0x62u8, 0x6cu8, 0x6fu8, 0x63u8, 0x6bu8, 0x65u8, 0x64u8, 0x20u8]@ =~= prefix_procs_blocked());
    }
    if starts_with(line, &[0x63u8, 0x74u8, 0x78u8, 0x74u8, 0x20u8]) {
        let rest = &line[5..line.len()];
        assert(rest@ =~= line@.subrange(5, line@.len() as int));
        st.ctxt = number_or_zero(rest);
    } else if starts_with(line, &[0x62u8, 0x74u8, 0x69u8, 0x6du8, 0x65u8, 0x20u8]) {
        let rest = &line[6..line.len()];
        assert(rest@ =~= line@.subrange(6, line@.len() as int));
        st.btime = number_or_zero(rest);
    } else if starts_with(line, &[0x69u8, 0x6eu8, 0x74u8, 0x72u8, 0x20u8]) {
        let rest = &line[5..line.len()];
        assert(rest@ =~= line@.subrange(5, line@.len() as int));
        let parts = split_ascii_ws(rest);
        if parts.len() > 0 {
            assert(parts@[0]@ == fields(rest@)[0]);
            st.intr = number_or_zero(parts[0]);
        }
    } else if starts_with(line, &[0x70u8, 0x72u8, 0x6fu8, 0x63u8, 0x65u8, 0x73u8, 0x73u8, 0x65u8, 0x73u8, 0x20u8]) {
        let rest = &line[10..line.len()];
        assert(rest@ =~= line@.subrange(10, line@.len() as int));
        st.forks = number_or_zero(rest);
    } else if starts_with(line, &[0x70u8, 0x72u8, 0x6fu8, 0x63u8, 0x73u8, 0x5fu8, 0x72u8, 0x75u8, 0x6eu8, 0x6eu8, 0x69u8, 0x6eu8, 0x67u8, 0x20u8]) {
        let rest = &line[14..line.len()];
        assert(rest@ =~= line@.subrange(14, line@.len() as int));
        st.procs_running = number_or_zero(rest);
    } else if starts_with(line, &[0x70u8, 0x72u8, 0x6fu8, 0x63u8, 0x73u8, 0x5fu8, 0x62u8, 0x6cu8, 0x6fu8, 0x63u8, 0x6bu8, 0x65u8, 0x64u8, 0x20u8]) {
        let rest = &line[14..line.len()];
        assert(rest@ =~= line@.subrange(14, line@.len() as int));
        st.procs_blocked = number_or_zero(rest);
    }
    st
}

/// Parses /proc/stat. A number that does not parse counts 0.
pub fn parse_stat(data: &str) -> (r: Stat)
    ensures
        r == stat_from_lines(lines(data.spec_bytes()), lines(data.spec_bytes()).len()),
{
    let all = split_lines(data.as_bytes());
    let ghost ls = lines(data.spec_bytes());
    let mut st = Stat { intr: 0, ctxt: 0, forks: 0, btime: 0, procs_running: 0, procs_blocked: 0 };
    let mut i: usize = 0;
    while i < all.len()
        invariant
            i <= all@.len(),
            views(all@) == ls,
            stat_from_lines(ls, i as nat) == st,
        decreases all@.len() - i,
    {
        let line = all[i];
        assert(line@ == ls[i as int]);
        st = stat_line(st, line);
        i = i + 1;
    }
    st
}

} // verus!
