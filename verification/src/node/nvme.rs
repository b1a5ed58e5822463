//! NVMe controllers and namespaces from /sys/class/nvme.

use vstd::prelude::*;
use vstd::string::StringSliceAdditionalSpecFns;

use crate::pattern::{regex_capture, Pattern};

verus! {

/// The namespace id in the name of a namespace directory: the first capture
/// group of `pattern` (the collector's is `nvme\d+c\d+n(\d+)`); `None` for a
/// directory that is no namespace.
pub fn namespace_id<'a>(pattern: &Pattern, name: &'a str) -> (r: Option<&'a [u8]>)
    ensures
        match regex_capture(pattern@, name@, 1) {
            Some((a, b)) => r matches Some(t) && t@ == name.spec_bytes().subrange(a as int, b as int),
            None => r is None,
        },
{
    pattern.capture(name, 1)
}

} // verus!
