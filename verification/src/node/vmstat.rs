//! /proc/vmstat: virtual memory statistics, one `name value` pair a line.

use vstd::prelude::*;
use vstd::string::StringSliceAdditionalSpecFns;

use crate::pattern::{regex_is_match, Pattern};
use crate::text::{fields, split_ascii_ws, views};

verus! {

/// The name and value that a line of the file gives the collector: its
/// first two fields, where `wanted` matches the line and it has two; the
/// value is read by the caller.
pub fn vmstat_entry<'a>(wanted: &Pattern, line: &'a str) -> (r: Option<(&'a [u8], &'a [u8])>)
    ensures
        ({
            let f = fields(line.spec_bytes());
            &&& r is Some <==> (regex_is_match(wanted@, line@) && f.len() >= 2)
            &&& r matches Some((name, value)) ==> name@ == f[0] && value@ == f[1]
        }),
{
    if !wanted.is_match(line) {
        return None;
    }
    let parts = split_ascii_ws(line.as_bytes());
    proof {
        assert(views(parts@).len() == parts@.len());
    }
    if parts.len() < 2 {
        return None;
    }
    proof {
        assert(views(parts@)[0] == parts@[0]@);
        assert(views(parts@)[1] == parts@[1]@);
    }
    Some((parts[0], parts[1]))
}

} // verus!
