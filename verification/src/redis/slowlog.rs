//! The slow log: what SLOWLOG GET 1 tells of the last slow command.

use vstd::prelude::*;

verus! {

/// The id of the last slow command and how long it ran, in microseconds,
/// from the integers of its entry: the first and the third, each 0 where
/// the entry is too short.
pub fn slowlog_last(values: &[i64]) -> (r: (i64, i64))
    ensures
        r.0 == (if values@.len() > 0 {
            values@[0]
        } else {
            0
        }),
        r.1 == (if values@.len() > 2 {
            values@[2]
        } else {
            0
        }),
{
    let id = if values.len() > 0 {
        values[0]
    } else {
        0
    };
    let micros = if values.len() > 2 {
        values[2]
    } else {
        0
    };
    (id, micros)
}

} // verus!
