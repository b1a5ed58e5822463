//! Names of RAPL (Running Average Power Limit) zones from
//! /sys/class/powercap.

use vstd::prelude::*;
use vstd::string::StringSliceAdditionalSpecFns;

use crate::text::{dec_i32, find_byte, first_index, parse_i32};

verus! {

/// Splits a zone name such as `package-10` at its first `-` into the name
/// and the index after it; `None` when there is no `-` or the rest is not an
/// `i32`.
pub fn get_name_and_index(s: &str) -> (r: Option<(&[u8], i32)>)
    ensures
        ({
            let b = s.spec_bytes();
            match first_index(b, 0x2du8) {
                None => r is None,
                Some(p) => match dec_i32(b.subrange(p + 1, b.len() as int)) {
                    None => r is None,
                    Some(index) => r matches Some((name, i)) && name@ == b.subrange(0, p) && i
                        == index,
                },
            }
        }),
{
    let b = s.as_bytes();
    let p = match find_byte(b, 0x2du8) {
        Some(p) => p,
        None => return None,
    };
    let len = b.len();
    assert(p < len);
    let name = &b[0..p];
    let next = &b[p + 1..len];
    match parse_i32(next) {
        Some(index) => Some((name, index)),
        None => None,
    }
}

} // verus!
