//! Statistics from /proc/net/softnet_stat.
//!
//! The number of columns grew with the kernel: nine up to 2.6.38, ten from
//! 2.6.39 (received_rps), eleven from 4.18 (flow_limit_count) and thirteen
//! from 5.14 (backlog length and CPU index). Every column is hexadecimal.

use vstd::prelude::*;
use vstd::string::StringSliceAdditionalSpecFns;

use super::Error;
use crate::text::{fields, hex_u32, parse_hex_u32, split_ascii_ws, views};

verus! {

/// A single row of /proc/net/softnet_stat.
#[derive(Debug, Default, PartialEq, Eq)]
pub struct SoftnetStat {
    /// Number of processed packets.
    pub processed: u32,
    /// Number of dropped packets.
    pub dropped: u32,
    /// Number of times processing packets ran out of quota.
    pub time_squeezed: u32,
    /// Number of collisions while obtaining the device lock for transmitting.
    pub cpu_collision: u32,
    /// Number of times the CPU was woken up by received_rps.
    pub received_rps: u32,
    /// Number of times the flow limit has been reached.
    pub flow_limit_count: u32,
    /// Softnet backlog status.
    pub softnet_backlog_len: u32,
    /// CPU id owning this softnet_data.
    pub index: u32,
    /// Number of columns of the row.
    pub width: i16,
}

/// Every column that a row of `f.len()` columns is read from is hexadecimal.
pub open spec fn softnet_columns_ok(f: Seq<Seq<u8>>) -> bool {
    &&& hex_u32(f[0]) is Some
    &&& hex_u32(f[1]) is Some
    &&& hex_u32(f[2]) is Some
    &&& hex_u32(f[8]) is Some
    &&& f.len() >= 10 ==> hex_u32(f[9]) is Some
    &&& f.len() >= 11 ==> hex_u32(f[10]) is Some
    &&& f.len() >= 13 ==> hex_u32(f[11]) is Some && hex_u32(f[12]) is Some
}

/// Column `k` of the row, or 0 when the row has no column `k`.
pub open spec fn column_or_zero(f: Seq<Seq<u8>>, k: int) -> u32 {
    if k < f.len() {
        hex_u32(f[k]).unwrap()
    } else {
        0
    }
}

/// Parses the row `line` of /proc/net/softnet_stat; `index` is its line
/// number, the CPU id for kernels that do not print it.
pub fn parse_softnet(line: &str, index: u32) -> (r: Result<SoftnetStat, Error>)
    ensures
        ({
            let f = fields(line.spec_bytes());
            match r {
                Err(e) => if f.len() < 9 {
                    e == Error::Malformed("softnet stat line")
                } else {
                    e == Error::ParseInt && !softnet_columns_ok(f)
                },
                Ok(st) => {
                    &&& f.len() >= 9
                    &&& softnet_columns_ok(f)
                    &&& st.processed == column_or_zero(f, 0)
                    &&& st.dropped == column_or_zero(f, 1)
                    &&& st.time_squeezed == column_or_zero(f, 2)
                    &&& st.cpu_collision == column_or_zero(f, 8)
                    &&& st.received_rps == column_or_zero(f, 9)
                    &&& st.flow_limit_count == column_or_zero(f, 10)
                    &&& st.softnet_backlog_len == (if f.len() >= 13 {
                        column_or_zero(f, 11)
                    } else {
                        0
                    })
                    &&& st.index == (if f.len() >= 13 {
                        column_or_zero(f, 12)
                    } else {
                        index
                    })
                    &&& st.width == f.len() as i16
                },
            }
        }),
{
    let parts = split_ascii_ws(line.as_bytes());
    let ghost f = fields(line.spec_bytes());
    proof {
        assert forall|k: int| 0 <= k < parts@.len() implies #[trigger] parts@[k]@ == f[k] by {
            assert(views(parts@)[k] == parts@[k]@);
        }
    }
    if parts.len() < 9 {
        return Err(Error::Malformed("softnet stat line"));
    }
    let processed = match parse_hex_u32(parts[0]) {
        Some(v) => v,
        None => return Err(Error::ParseInt),
    };
    let dropped = match parse_hex_u32(parts[1]) {
        Some(v) => v,
        None => return Err(Error::ParseInt),
    };
    let time_squeezed = match parse_hex_u32(parts[2]) {
        Some(v) => v,
        None => return Err(Error::ParseInt),
    };
    let cpu_collision = match parse_hex_u32(parts[8]) {
        Some(v) => v,
        None => return Err(Error::ParseInt),
    };
    let mut received_rps: u32 = 0;
    if parts.len() >= 10 {
        received_rps = match parse_hex_u32(parts[9]) {
            Some(v) => v,
            None => return Err(Error::ParseInt),
        };
    }
    let mut flow_limit_count: u32 = 0;
    if parts.len() >= 11 {
        flow_limit_count = match parse_hex_u32(parts[10]) {
            Some(v) => v,
            None => return Err(Error::ParseInt),
        };
    }
    let mut softnet_backlog_len: u32 = 0;
    let stat_index: u32;
    if parts.len() >= 13 {
        softnet_backlog_len = match parse_hex_u32(parts[11]) {
            Some(v) => v,
            None => return Err(Error::ParseInt),
        };
        stat_index = match parse_hex_u32(parts[12]) {
            Some(v) => v,
            None => return Err(Error::ParseInt),
        };
    } else {
        stat_index = index;
    }
    let width = parts.len() as i16;
    Ok(
        SoftnetStat {
            processed,
            dropped,
            time_squeezed,
            cpu_collision,
            received_rps,
            flow_limit_count,
            softnet_backlog_len,
            index: stat_index,
            width,
        },
    )
}

} // verus!
