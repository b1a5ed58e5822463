//! Values read from the XML report of `nvidia-smi`.

use vstd::prelude::*;
use vstd::string::StringSliceAdditionalSpecFns;
use vstd::utf8::encode_utf8;

use crate::text::{dec_i32, parse_i32};

verus! {

/// The PCIe link widths of a GPU, such as `16x`.
pub struct LinkWidth {
    pub current_link_width: String,
}

/// The width that `w` names: the number before a final `x`, or 0 when there
/// is no such `x` or the rest is not an `i32`.
pub open spec fn link_width(w: Seq<u8>) -> i32 {
    if w.len() > 0 && w.last() == 0x78u8 {
        match dec_i32(w.drop_last()) {
            Some(v) => v,
            None => 0,
        }
    } else {
        0
    }
}

impl LinkWidth {
    /// The current link width as a number.
    pub fn get_link_width(&self) -> (r: i32)
        ensures
            r == link_width(encode_utf8(self.current_link_width@)),
    {
        let w: &[u8] = self.current_link_width.as_str().as_bytes();
        if w.len() > 0 && w[w.len() - 1] == 0x78u8 {
            let digits = &w[0..w.len() - 1];
            assert(digits@ =~= w@.drop_last());
            match parse_i32(digits) {
                Some(v) => v,
                None => 0,
            }
        } else {
            0
        }
    }
}

} // verus!
