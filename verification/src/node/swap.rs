//! Swap devices from /proc/swaps.

use vstd::prelude::*;
use vstd::string::StringSliceAdditionalSpecFns;

use super::Error;
use crate::text::{dec_i32, dec_usize, fields, parse_i32, parse_usize, split_ascii_ws};

verus! {

/// One entry of /proc/swaps.
#[derive(Debug, PartialEq, Eq)]
pub struct Swap<'a> {
    pub device: &'a [u8],
    pub typ: &'a [u8],
    pub size: usize,
    pub used: usize,
    pub priority: i32,
}

/// What `parse_swap_line` gives for the fields `f` of a line: the first
/// missing field or the first number that does not parse decides the error.
pub open spec fn swap_line_error(f: Seq<Seq<u8>>) -> Option<Error> {
    if f.len() == 0 {
        Some(Error::Malformed("filename"))
    } else if f.len() == 1 {
        Some(Error::Malformed("type"))
    } else if f.len() == 2 {
        Some(Error::Malformed("size"))
    } else if dec_usize(f[2]) is None {
        Some(Error::ParseInt)
    } else if f.len() == 3 {
        Some(Error::Malformed("used"))
    } else if dec_usize(f[3]) is None {
        Some(Error::ParseInt)
    } else if f.len() == 4 {
        Some(Error::Malformed("priority"))
    } else if dec_i32(f[4]) is None {
        Some(Error::ParseInt)
    } else {
        None
    }
}

/// Parses a line of /proc/swaps: device, type, size, used, priority.
pub fn parse_swap_line(line: &str) -> (r: Result<Swap<'_>, Error>)
    ensures
        ({
            let f = fields(line.spec_bytes());
            match r {
                Err(e) => swap_line_error(f) == Some(e),
                Ok(s) => {
                    &&& swap_line_error(f) is None
                    &&& s.device@ == f[0]
                    &&& s.typ@ == f[1]
                    &&& Some(s.size) == dec_usize(f[2])
                    &&& Some(s.used) == dec_usize(f[3])
                    &&& Some(s.priority) == dec_i32(f[4])
                },
            }
        }),
{
    let parts = split_ascii_ws(line.as_bytes());
    let ghost f = fields(line.spec_bytes());
    proof {
        assert forall|k: int| 0 <= k < parts@.len() implies #[trigger] parts@[k]@ == f[k] by {
            assert(crate::text::views(parts@)[k] == parts@[k]@);
        }
    }
    if parts.len() == 0 {
        return Err(Error::Malformed("filename"));
    }
    if parts.len() == 1 {
        return Err(Error::Malformed("type"));
    }
    if parts.len() == 2 {
        return Err(Error::Malformed("size"));
    }
    let size = match parse_usize(parts[2]) {
        Some(v) => v,
        None => return Err(Error::ParseInt),
    };
    if parts.len() == 3 {
        return Err(Error::Malformed("used"));
    }
    let used = match parse_usize(parts[3]) {
        Some(v) => v,
        None => return Err(Error::ParseInt),
    };
    if parts.len() == 4 {
        return Err(Error::Malformed("priority"));
    }
    let priority = match parse_i32(parts[4]) {
        Some(v) => v,
        None => return Err(Error::ParseInt),
    };
    Ok(Swap { device: parts[0], typ: parts[1], size, used, priority })
}

} // verus!
