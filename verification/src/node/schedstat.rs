//! Task scheduler statistics from /proc/schedstat.

use vstd::prelude::*;
use vstd::string::StringSliceAdditionalSpecFns;

use crate::text::{dec_u64, fields, parse_u64, split_ascii_ws};

verus! {

/// The scheduler counters of one CPU.
#[derive(Debug, PartialEq, Eq)]
pub struct SchedStat<'a> {
    pub cpu: &'a [u8],
    pub running_nanoseconds: u64,
    pub waiting_nanoseconds: u64,
    pub run_time_slices: u64,
}

/// Parses the part of a `cpuN ...` line after `cpu`: the CPU id is the first
/// field, the three counters are fields 7, 8 and 9.
pub fn parse_sched_state(line: &str) -> (r: Option<SchedStat<'_>>)
    ensures
        ({
            let f = fields(line.spec_bytes());
            &&& r is Some <==> (f.len() >= 10 && dec_u64(f[7]) is Some && dec_u64(f[8]) is Some
                && dec_u64(f[9]) is Some)
            &&& r matches Some(st) ==> {
                &&& st.cpu@ == f[0]
                &&& Some(st.running_nanoseconds) == dec_u64(f[7])
                &&& Some(st.waiting_nanoseconds) == dec_u64(f[8])
                &&& Some(st.run_time_slices) == dec_u64(f[9])
            }
        }),
{
    let parts = split_ascii_ws(line.as_bytes());
    if parts.len() < 10 {
        return None;
    }
    proof {
        assert(parts@[7]@ == fields(line.spec_bytes())[7]);
        assert(parts@[8]@ == fields(line.spec_bytes())[8]);
        assert(parts@[9]@ == fields(line.spec_bytes())[9]);
        assert(parts@[0]@ == fields(line.spec_bytes())[0]);
    }
    let running_nanoseconds = match parse_u64(parts[7]) {
        Some(v) => v,
        None => return None,
    };
    let waiting_nanoseconds = match parse_u64(parts[8]) {
        Some(v) => v,
        None => return None,
    };
    let run_time_slices = match parse_u64(parts[9]) {
        Some(v) => v,
        None => return None,
    };
    Some(SchedStat { cpu: parts[0], running_nanoseconds, waiting_nanoseconds, run_time_slices })
}

} // verus!
