//! /proc/zoneinfo: the counters and watermarks of each memory zone.

use vstd::prelude::*;
use vstd::string::StringSliceAdditionalSpecFns;

use super::Error;
use crate::metric::{samples_view, two_tags, Kind, Sample, SampleModel, TagModel, TagValue};
use crate::text::{
    dec_i64, fields, has_prefix, is_word, lines, parse_i64, split_ascii_ws, split_lines,
    split_words, starts_with, trim3, trim_bytes, views, words,
};

verus! {

/// The counters of one zone that /proc/zoneinfo may report, each absent
/// until a line names it.
#[derive(Clone, Copy, Debug, PartialEq, Eq)]
pub struct ZoneCounters {
    pub nr_free_pages: Option<i64>,
    pub min: Option<i64>,
    pub low: Option<i64>,
    pub high: Option<i64>,
    pub scanned: Option<i64>,
    pub spanned: Option<i64>,
    pub present: Option<i64>,
    pub managed: Option<i64>,
    pub nr_active_anon: Option<i64>,
    pub nr_inactive_anon: Option<i64>,
    pub nr_isolated_anon: Option<i64>,
    pub nr_anon_pages: Option<i64>,
    pub nr_anon_transparent_hugepages: Option<i64>,
    pub nr_active_file: Option<i64>,
    pub nr_inactive_file: Option<i64>,
    pub nr_isolated_file: Option<i64>,
    pub nr_file_pages: Option<i64>,
    pub nr_slab_reclaimable: Option<i64>,
    pub nr_slab_unreclaimable: Option<i64>,
    pub nr_mlock_stack: Option<i64>,
    pub nr_kernel_stack: Option<i64>,
    pub nr_mapped: Option<i64>,
    pub nr_dirty: Option<i64>,
    pub nr_writeback: Option<i64>,
    pub nr_unevictable: Option<i64>,
    pub nr_shmem: Option<i64>,
    pub nr_dirtied: Option<i64>,
    pub nr_written: Option<i64>,
    pub numa_hit: Option<i64>,
    pub numa_miss: Option<i64>,
    pub numa_foreign: Option<i64>,
    pub numa_interleave: Option<i64>,
    pub numa_local: Option<i64>,
    pub numa_other: Option<i64>,
}

impl ZoneCounters {
    /// No counter reported.
    pub open spec fn none() -> ZoneCounters {
        ZoneCounters {
            nr_free_pages: None,
            min: None,
            low: None,
            high: None,
            scanned: None,
            spanned: None,
            present: None,
            managed: None,
            nr_active_anon: None,
            nr_inactive_anon: None,
            nr_isolated_anon: None,
            nr_anon_pages: None,
            nr_anon_transparent_hugepages: None,
            nr_active_file: None,
            nr_inactive_file: None,
            nr_isolated_file: None,
            nr_file_pages: None,
            nr_slab_reclaimable: None,
            nr_slab_unreclaimable: None,
            nr_mlock_stack: None,
            nr_kernel_stack: None,
            nr_mapped: None,
            nr_dirty: None,
            nr_writeback: None,
            nr_unevictable: None,
            nr_shmem: None,
            nr_dirtied: None,
            nr_written: None,
            numa_hit: None,
            numa_miss: None,
            numa_foreign: None,
            numa_interleave: None,
            numa_local: None,
            numa_other: None,
        }
    }

    /// The counter in slot `k`, in the order of the fields.
    pub open spec fn get(self, k: int) -> Option<i64> {
        if k == 0 {
            self.nr_free_pages
        } else if k == 1 {
            self.min
        } else if k == 2 {
            self.low
        } else if k == 3 {
            self.high
        } else if k == 4 {
            self.scanned
        } else if k == 5 {
            self.spanned
        } else if k == 6 {
            self.present
        } else if k == 7 {
            self.managed
        } else if k == 8 {
            self.nr_active_anon
        } else if k == 9 {
            self.nr_inactive_anon
        } else if k == 10 {
            self.nr_isolated_anon
        } else if k == 11 {
            self.nr_anon_pages
        } else if k == 12 {
            self.nr_anon_transparent_hugepages
        } else if k == 13 {
            self.nr_active_file
        } else if k == 14 {
            self.nr_inactive_file
        } else if k == 15 {
            self.nr_isolated_file
        } else if k == 16 {
            self.nr_file_pages
        } else if k == 17 {
            self.nr_slab_reclaimable
        } else if k == 18 {
            self.nr_slab_unreclaimable
        } else if k == 19 {
            self.nr_mlock_stack
        } else if k == 20 {
            self.nr_kernel_stack
        } else if k == 21 {
            self.nr_mapped
        } else if k == 22 {
            self.nr_dirty
        } else if k == 23 {
            self.nr_writeback
        } else if k == 24 {
            self.nr_unevictable
        } else if k == 25 {
            self.nr_shmem
        } else if k == 26 {
            self.nr_dirtied
        } else if k == 27 {
            self.nr_written
        } else if k == 28 {
            self.numa_hit
        } else if k == 29 {
            self.numa_miss
        } else if k == 30 {
            self.numa_foreign
        } else if k == 31 {
            self.numa_interleave
        } else if k == 32 {
            self.numa_local
        } else {
            self.numa_other
        }
    }

    /// The counters with slot `k` set to `v`.
    pub open spec fn set(self, k: int, v: Option<i64>) -> ZoneCounters {
        if k == 0 {
            ZoneCounters { nr_free_pages: v, ..self }
        } else if k == 1 {
            ZoneCounters { min: v, ..self }
        } else if k == 2 {
            ZoneCounters { low: v, ..self }
        } else if k == 3 {
            ZoneCounters { high: v, ..self }
        } else if k == 4 {
            ZoneCounters { scanned: v, ..self }
        } else if k == 5 {
            ZoneCounters { spanned: v, ..self }
        } else if k == 6 {
            ZoneCounters { present: v, ..self }
        } else if k == 7 {
            ZoneCounters { managed: v, ..self }
        } else if k == 8 {
            ZoneCounters { nr_active_anon: v, ..self }
        } else if k == 9 {
            ZoneCounters { nr_inactive_anon: v, ..self }
        } else if k == 10 {
            ZoneCounters { nr_isolated_anon: v, ..self }
        } else if k == 11 {
            ZoneCounters { nr_anon_pages: v, ..self }
        } else if k == 12 {
            ZoneCounters { nr_anon_transparent_hugepages: v, ..self }
        } else if k == 13 {
            ZoneCounters { nr_active_file: v, ..self }
        } else if k == 14 {
            ZoneCounters { nr_inactive_file: v, ..self }
        } else if k == 15 {
            ZoneCounters { nr_isolated_file: v, ..self }
        } else if k == 16 {
            ZoneCounters { nr_file_pages: v, ..self }
        } else if k == 17 {
            ZoneCounters { nr_slab_reclaimable: v, ..self }
        } else if k == 18 {
            ZoneCounters { nr_slab_unreclaimable: v, ..self }
        } else if k == 19 {
            ZoneCounters { nr_mlock_stack: v, ..self }
        } else if k == 20 {
            ZoneCounters { nr_kernel_stack: v, ..self }
        } else if k == 21 {
            ZoneCounters { nr_mapped: v, ..self }
        } else if k == 22 {
            ZoneCounters { nr_dirty: v, ..self }
        } else if k == 23 {
            ZoneCounters { nr_writeback: v, ..self }
        } else if k == 24 {
            ZoneCounters { nr_unevictable: v, ..self }
        } else if k == 25 {
            ZoneCounters { nr_shmem: v, ..self }
        } else if k == 26 {
            ZoneCounters { nr_dirtied: v, ..self }
        } else if k == 27 {
            ZoneCounters { nr_written: v, ..self }
        } else if k == 28 {
            ZoneCounters { numa_hit: v, ..self }
        } else if k == 29 {
            ZoneCounters { numa_miss: v, ..self }
        } else if k == 30 {
            ZoneCounters { numa_foreign: v, ..self }
        } else if k == 31 {
            ZoneCounters { numa_interleave: v, ..self }
        } else if k == 32 {
            ZoneCounters { numa_local: v, ..self }
        } else if k == 33 {
            ZoneCounters { numa_other: v, ..self }
        } else {
            self
        }
    }
}

impl Default for ZoneCounters {
    fn default() -> (r: ZoneCounters)
        ensures
            r == ZoneCounters::none(),
    {
        ZoneCounters {
            nr_free_pages: None,
            min: None,
            low: None,
            high: None,
            scanned: None,
            spanned: None,
            present: None,
            managed: None,
            nr_active_anon: None,
            nr_inactive_anon: None,
            nr_isolated_anon: None,
            nr_anon_pages: None,
            nr_anon_transparent_hugepages: None,
            nr_active_file: None,
            nr_inactive_file: None,
            nr_isolated_file: None,
            nr_file_pages: None,
            nr_slab_reclaimable: None,
            nr_slab_unreclaimable: None,
            nr_mlock_stack: None,
            nr_kernel_stack: None,
            nr_mapped: None,
            nr_dirty: None,
            nr_writeback: None,
            nr_unevictable: None,
            nr_shmem: None,
            nr_dirtied: None,
            nr_written: None,
            numa_hit: None,
            numa_miss: None,
            numa_foreign: None,
            numa_interleave: None,
            numa_local: None,
            numa_other: None,
        }
    }
}

/// The key of counter slot `k` in /proc/zoneinfo.
pub open spec fn counter_key(k: int) -> Seq<u8> {
        if k == 0 {
            seq![0x6eu8, 0x72u8, 0x5fu8, 0x66u8, 0x72u8, 0x65u8, 0x65u8, 0x5fu8, 0x70u8, 0x61u8, 0x67u8, 0x65u8, 0x73u8]
        } else if k == 1 {
            seq![0x6du8, 0x69u8, 0x6eu8]
        } else if k == 2 {
            seq![0x6cu8, 0x6fu8, 0x77u8]
        } else if k == 3 {
            seq![0x68u8, 0x69u8, 0x67u8, 0x68u8]
        } else if k == 4 {
            seq![0x73u8, 0x63u8, 0x61u8, 0x6eu8, 0x6eu8, 0x65u8, 0x64u8]
        } else if k == 5 {
            seq![0x73u8, 0x70u8, 0x61u8, 0x6eu8, 0x6eu8, 0x65u8, 0x64u8]
        } else if k == 6 {
            seq![0x70u8, 0x72u8, 0x65u8, 0x73u8, 0x65u8, 0x6eu8, 0x74u8]
        } else if k == 7 {
            seq![0x6du8, 0x61u8, 0x6eu8, 0x61u8, 0x67u8, 0x65u8, 0x64u8]
        } else if k == 8 {
            seq![0x6eu8, 0x72u8, 0x5fu8, 0x61u8, 0x63u8, 0x74u8, 0x69u8, 0x76u8, 0x65u8, 0x5fu8, 0x61u8, 0x6eu8, 0x6fu8, 0x6eu8]
        } else if k == 9 {
            seq![0x6eu8, 0x72u8, 0x5fu8, 0x69u8, 0x6eu8, 0x61u8, 0x63u8, 0x74u8, 0x69u8, 0x76u8, 0x65u8, 0x5fu8, 0x61u8, 0x6eu8, 0x6fu8, 0x6eu8]
        } else if k == 10 {
            seq![0x6eu8, 0x72u8, 0x5fu8, 0x69u8, 0x73u8, 0x6fu8, 0x6cu8, 0x61u8, 0x74u8, 0x65u8, 0x64u8, 0x5fu8, 0x61u8, 0x6eu8, 0x6fu8, 0x6eu8]
        } else if k == 11 {
            seq![0x6eu8, 0x72u8, 0x5fu8, 0x61u8, 0x6eu8, 0x6fu8, 0x6eu8, 0x5fu8, 0x70u8, 0x61u8, 0x67u8, 0x65u8, 0x73u8]
        } else if k == 12 {
            seq![0x6eu8, 0x72u8, 0x5fu8, 0x61u8, 0x6eu8, 0x6fu8, 0x6eu8, 0x5fu8, 0x74u8, 0x72u8, 0x61u8, 0x6eu8, 0x73u8, 0x70u8, 0x61u8, 0x72u8, 0x65u8, 0x6eu8, 0x74u8, 0x5fu8, 0x68u8, 0x75u8, 0x67u8, 0x65u8, 0x70u8, 0x61u8, 0x67u8, 0x65u8, 0x73u8]
        } else if k == 13 {
            seq![0x6eu8, 0x72u8, 0x5fu8, 0x61u8, 0x63u8, 0x74u8, 0x69u8, 0x76u8, 0x65u8, 0x5fu8, 0x66u8, 0x69u8, 0x6cu8, 0x65u8]
        } else if k == 14 {
            seq![0x6eu8, 0x72u8, 0x5fu8, 0x69u8, 0x6eu8, 0x61u8, 0x63u8, 0x74u8, 0x69u8, 0x76u8, 0x65u8, 0x5fu8, 0x66u8, 0x69u8, 0x6cu8, 0x65u8]
        } else if k == 15 {
            seq![0x6eu8, 0x72u8, 0x5fu8, 0x69u8, 0x73u8, 0x6fu8, 0x6cu8, 0x61u8, 0x74u8, 0x65u8, 0x64u8, 0x5fu8, 0x66u8, 0x69u8, 0x6cu8, 0x65u8]
        } else if k == 16 {
            seq![0x6eu8, 0x72u8, 0x5fu8, 0x66u8, 0x69u8, 0x6cu8, 0x65u8, 0x5fu8, 0x70u8, 0x61u8, 0x67u8, 0x65u8, 0x73u8]
        } else if k == 17 {
            seq![0x6eu8, 0x72u8, 0x5fu8, 0x73u8, 0x6cu8, 0x61u8, 0x62u8, 0x5fu8, 0x72u8, 0x65u8, 0x63u8, 0x6cu8, 0x61u8, 0x69u8, 0x6du8, 0x61u8, 0x62u8, 0x6cu8, 0x65u8]
        } else if k == 18 {
            seq![0x6eu8, 0x72u8, 0x5fu8, 0x73u8, 0x6cu8, 0x61u8, 0x62u8, 0x5fu8, 0x75u8, 0x6eu8, 0x72u8, 0x65u8, 0x63u8, 0x6cu8, 0x61u8, 0x69u8, 0x6du8, 0x61u8, 0x62u8, 0x6cu8, 0x65u8]
        } else if k == 19 {
            seq![0x6eu8, 0x72u8, 0x5fu8, 0x6du8, 0x6cu8, 0x6fu8, 0x63u8, 0x6bu8, 0x5fu8, 0x73u8, 0x74u8, 0x61u8, 0x63u8, 0x6bu8]
        } else if k == 20 {
            seq![0x6eu8, 0x72u8, 0x5fu8, 0x6bu8, 0x65u8, 0x72u8, 0x6eu8, 0x65u8, 0x6cu8, 0x5fu8, 0x73u8, 0x74u8, 0x61u8, 0x63u8, 0x6bu8]
        } else if k == 21 {
            seq![0x6eu8, 0x72u8, 0x5fu8, 0x6du8, 0x61u8, 0x70u8, 0x70u8, 0x65u8, 0x64u8]
        } else if k == 22 {
            seq![0x6eu8, 0x72u8, 0x5fu8, 0x64u8, 0x69u8, 0x72u8, 0x74u8, 0x79u8]
        } else if k == 23 {
            seq![0x6eu8, 0x72u8, 0x5fu8, 0x77u8, 0x72u8, 0x69u8, 0x74u8, 0x65u8, 0x62u8, 0x61u8, 0x63u8, 0x6bu8]
        } else if k == 24 {
            seq![0x6eu8, 0x72u8, 0x5fu8, 0x75u8, 0x6eu8, 0x65u8, 0x76u8, 0x69u8, 0x63u8, 0x74u8, 0x61u8, 0x62u8, 0x6cu8, 0x65u8]
        } else if k == 25 {
            seq![0x6eu8, 0x72u8, 0x5fu8, 0x73u8, 0x68u8, 0x6du8, 0x65u8, 0x6du8]
        } else if k == 26 {
            seq![0x6eu8, 0x72u8, 0x5fu8, 0x64u8, 0x69u8, 0x72u8, 0x74u8, 0x69u8, 0x65u8, 0x64u8]
        } else if k == 27 {
            seq![0x6eu8, 0x72u8, 0x5fu8, 0x77u8, 0x72u8, 0x69u8, 0x74u8, 0x74u8, 0x65u8, 0x6eu8]
        } else if k == 28 {
            seq![0x6eu8, 0x75u8, 0x6du8, 0x61u8, 0x5fu8, 0x68u8, 0x69u8, 0x74u8]
        } else if k == 29 {
            seq![0x6eu8, 0x75u8, 0x6du8, 0x61u8, 0x5fu8, 0x6du8, 0x69u8, 0x73u8, 0x73u8]
        } else if k == 30 {
            seq![0x6eu8, 0x75u8, 0x6du8, 0x61u8, 0x5fu8, 0x66u8, 0x6fu8, 0x72u8, 0x65u8, 0x69u8, 0x67u8, 0x6eu8]
        } else if k == 31 {
            seq![0x6eu8, 0x75u8, 0x6du8, 0x61u8, 0x5fu8, 0x69u8, 0x6eu8, 0x74u8, 0x65u8, 0x72u8, 0x6cu8, 0x65u8, 0x61u8, 0x76u8, 0x65u8]
        } else if k == 32 {
            seq![0x6eu8, 0x75u8, 0x6du8, 0x61u8, 0x5fu8, 0x6cu8, 0x6fu8, 0x63u8, 0x61u8, 0x6cu8]
        } else {
            seq![0x6eu8, 0x75u8, 0x6du8, 0x61u8, 0x5fu8, 0x6fu8, 0x74u8, 0x68u8, 0x65u8, 0x72u8]
        }
    }

/// The first counter slot from `k` on whose key is `key`, or -1.
pub open spec fn slot_from(key: Seq<u8>, k: int) -> int
    decreases 34 - k,
{
    if k >= 34 || k < 0 {
        -1
    } else if counter_key(k) == key {
        k
    } else {
        slot_from(key, k + 1)
    }
}

/// The counter slot that a line with this key sets, or -1.
pub open spec fn counter_slot(key: Seq<u8>) -> int {
    slot_from(key, 0)
}

proof fn lemma_slot_from_range(key: Seq<u8>, k: int)
    requires
        0 <= k <= 34,
    ensures
        -1 <= slot_from(key, k) < 34,
        slot_from(key, k) >= 0 ==> k <= slot_from(key, k) && counter_key(slot_from(key, k)) == key,
        slot_from(key, k) == -1 ==> forall|j: int| k <= j < 34 ==> counter_key(j) != key,
    decreases 34 - k,
{
    if k < 34 && counter_key(k) != key {
        lemma_slot_from_range(key, k + 1);
    }
}

/// The counter slot of a key: the position of the key among the counter
/// keys, or -1 for any other word.
fn counter_slot_exec(key: &[u8]) -> (r: i32)
    ensures
        r == counter_slot(key@),
        -1 <= r < 34,
{
    proof {
        lemma_slot_from_range(key@, 0);
    }
    if is_word(key, &[0x6eu8, 0x72u8, 0x5fu8, 0x66u8, 0x72u8, 0x65u8, 0x65u8, 0x5fu8, 0x70u8, 0x61u8, 0x67u8, 0x65u8, 0x73u8]) {
        proof {
            assert([0x6eu8, 0x72u8, 0x5fu8, 0x66u8, 0x72u8, 0x65u8, 0x65u8, 0x5fu8, 0x70u8, 0x61u8, 0x67u8, 0x65u8, 0x73u8]@ =~= counter_key(0));
        }
        return 0;
    }
    proof {
        assert([0x6eu8, 0x72u8, 0x5fu8, 0x66u8, 0x72u8, 0x65u8, 0x65u8, 0x5fu8, 0x70u8, 0x61u8, 0x67u8, 0x65u8, 0x73u8]@ =~= counter_key(0));
        assert(counter_key(0) != key@);
    }
    if is_word(key, &[0x6du8, 0x69u8, 0x6eu8]) {
        proof {
            assert([0x6du8, 0x69u8, 0x6eu8]@ =~= counter_key(1));
            assert(counter_key(0) != key@);
        }
        return 1;
    }
    proof {
        assert([0x6du8, 0x69u8, 0x6eu8]@ =~= counter_key(1));
        assert(counter_key(1) != key@);
    }
    if is_word(key, &[0x6cu8, 0x6fu8, 0x77u8]) {
        proof {
            assert([0x6cu8, 0x6fu8, 0x77u8]@ =~= counter_key(2));
            assert(counter_key(0) != key@);
            assert(counter_key(1) != key@);
        }
        return 2;
    }
    proof {
        assert([0x6cu8, 0x6fu8, 0x77u8]@ =~= counter_key(2));
        assert(counter_key(2) != key@);
    }
    if is_word(key, &[0x68u8, 0x69u8, 0x67u8, 0x68u8]) {
        proof {
            assert([0x68u8, 0x69u8, 0x67u8, 0x68u8]@ =~= counter_key(3));
            assert(counter_key(0) != key@);
            assert(counter_key(1) != key@);
            assert(counter_key(2) != key@);
        }
        return 3;
    }
    proof {
        assert([0x68u8, 0x69u8, 0x67u8, 0x68u8]@ =~= counter_key(3));
        assert(counter_key(3) != key@);
    }
    if is_word(key, &[0x73u8, 0x63u8, 0x61u8, 0x6eu8, 0x6eu8, 0x65u8, 0x64u8]) {
        proof {
            assert([0x73u8, 0x63u8, 0x61u8, 0x6eu8, 0x6eu8, 0x65u8, 0x64u8]@ =~= counter_key(4));
            assert(counter_key(0) != key@);
            assert(counter_key(1) != key@);
            assert(counter_key(2) != key@);
            assert(counter_key(3) != key@);
        }
        return 4;
    }
    proof {
        assert([0x73u8, 0x63u8, 0x61u8, 0x6eu8, 0x6eu8, 0x65u8, 0x64u8]@ =~= counter_key(4));
        assert(counter_key(4) != key@);
    }
    if is_word(key, &[0x73u8, 0x70u8, 0x61u8, 0x6eu8, 0x6eu8, 0x65u8, 0x64u8]) {
        proof {
            assert([0x73u8, 0x70u8, 0x61u8, 0x6eu8, 0x6eu8, 0x65u8, 0x64u8]@ =~= counter_key(5));
            assert(counter_key(0) != key@);
            assert(counter_key(1) != key@);
            assert(counter_key(2) != key@);
            assert(counter_key(3) != key@);
            assert(counter_key(4) != key@);
        }
        return 5;
    }
    proof {
        assert([0x73u8, 0x70u8, 0x61u8, 0x6eu8, 0x6eu8, 0x65u8, 0x64u8]@ =~= counter_key(5));
        assert(counter_key(5) != key@);
    }
    if is_word(key, &[0x70u8, 0x72u8, 0x65u8, 0x73u8, 0x65u8, 0x6eu8, 0x74u8]) {
        proof {
            assert([0x70u8, 0x72u8, 0x65u8, 0x73u8, 0x65u8, 0x6eu8, 0x74u8]@ =~= counter_key(6));
            assert(counter_key(0) != key@);
            assert(counter_key(1) != key@);
            assert(counter_key(2) != key@);
            assert(counter_key(3) != key@);
            assert(counter_key(4) != key@);
            assert(counter_key(5) != key@);
        }
        return 6;
    }
    proof {
        assert([0x70u8, 0x72u8, 0x65u8, 0x73u8, 0x65u8, 0x6eu8, 0x74u8]@ =~= counter_key(6));
        assert(counter_key(6) != key@);
    }
    if is_word(key, &[0x6du8, 0x61u8, 0x6eu8, 0x61u8, 0x67u8, 0x65u8, 0x64u8]) {
        proof {
            assert([0x6du8, 0x61u8, 0x6eu8, 0x61u8, 0x67u8, 0x65u8, 0x64u8]@ =~= counter_key(7));
            assert(counter_key(0) != key@);
            assert(counter_key(1) != key@);
            assert(counter_key(2) != key@);
            assert(counter_key(3) != key@);
            assert(counter_key(4) != key@);
            assert(counter_key(5) != key@);
            assert(counter_key(6) != key@);
        }
        return 7;
    }
    proof {
        assert([0x6du8, 0x61u8, 0x6eu8, 0x61u8, 0x67u8, 0x65u8, 0x64u8]@ =~= counter_key(7));
        assert(counter_key(7) != key@);
    }
    if is_word(key, &[0x6eu8, 0x72u8, 0x5fu8, 0x61u8, 0x63u8, 0x74u8, 0x69u8, 0x76u8, 0x65u8, 0x5fu8, 0x61u8, 0x6eu8, 0x6fu8, 0x6eu8]) {
        proof {
            assert([0x6eu8, 0x72u8, 0x5fu8, 0x61u8, 0x63u8, 0x74u8, 0x69u8, 0x76u8, 0x65u8, 0x5fu8, 0x61u8, 0x6eu8, 0x6fu8, 0x6eu8]@ =~= counter_key(8));
            assert(counter_key(0) != key@);
            assert(counter_key(1) != key@);
            assert(counter_key(2) != key@);
            assert(counter_key(3) != key@);
            assert(counter_key(4) != key@);
            assert(counter_key(5) != key@);
            assert(counter_key(6) != key@);
            assert(counter_key(7) != key@);
        }
        return 8;
    }
    proof {
        assert([0x6eu8, 0x72u8, 0x5fu8, 0x61u8, 0x63u8, 0x74u8, 0x69u8, 0x76u8, 0x65u8, 0x5fu8, 0x61u8, 0x6eu8, 0x6fu8, 0x6eu8]@ =~= counter_key(8));
        assert(counter_key(8) != key@);
    }
    if is_word(key, &[0x6eu8, 0x72u8, 0x5fu8, 0x69u8, 0x6eu8, 0x61u8, 0x63u8, 0x74u8, 0x69u8, 0x76u8, 0x65u8, 0x5fu8, 0x61u8, 0x6eu8, 0x6fu8, 0x6eu8]) {
        proof {
            assert([0x6eu8, 0x72u8, 0x5fu8, 0x69u8, 0x6eu8, 0x61u8, 0x63u8, 0x74u8, 0x69u8, 0x76u8, 0x65u8, 0x5fu8, 0x61u8, 0x6eu8, 0x6fu8, 0x6eu8]@ =~= counter_key(9));
            assert(counter_key(0) != key@);
            assert(counter_key(1) != key@);
            assert(counter_key(2) != key@);
            assert(counter_key(3) != key@);
            assert(counter_key(4) != key@);
            assert(counter_key(5) != key@);
            assert(counter_key(6) != key@);
            assert(counter_key(7) != key@);
            assert(counter_key(8) != key@);
        }
        return 9;
    }
    proof {
        assert([0x6eu8, 0x72u8, 0x5fu8, 0x69u8, 0x6eu8, 0x61u8, 0x63u8, 0x74u8, 0x69u8, 0x76u8, 0x65u8, 0x5fu8, 0x61u8, 0x6eu8, 0x6fu8, 0x6eu8]@ =~= counter_key(9));
        assert(counter_key(9) != key@);
    }
    if is_word(key, &[0x6eu8, 0x72u8, 0x5fu8, 0x69u8, 0x73u8, 0x6fu8, 0x6cu8, 0x61u8, 0x74u8, 0x65u8, 0x64u8, 0x5fu8, 0x61u8, 0x6eu8, 0x6fu8, 0x6eu8]) {
        proof {
            assert([0x6eu8, 0x72u8, 0x5fu8, 0x69u8, 0x73u8, 0x6fu8, 0x6cu8, 0x61u8, 0x74u8, 0x65u8, 0x64u8, 0x5fu8, 0x61u8, 0x6eu8, 0x6fu8, 0x6eu8]@ =~= counter_key(10));
            assert(counter_key(0) != key@);
            assert(counter_key(1) != key@);
            assert(counter_key(2) != key@);
            assert(counter_key(3) != key@);
            assert(counter_key(4) != key@);
            assert(counter_key(5) != key@);
            assert(counter_key(6) != key@);
            assert(counter_key(7) != key@);
            assert(counter_key(8) != key@);
            assert(counter_key(9) != key@);
        }
        return 10;
    }
    proof {
        assert([0x6eu8, 0x72u8, 0x5fu8, 0x69u8, 0x73u8, 0x6fu8, 0x6cu8, 0x61u8, 0x74u8, 0x65u8, 0x64u8, 0x5fu8, 0x61u8, 0x6eu8, 0x6fu8, 0x6eu8]@ =~= counter_key(10));
        assert(counter_key(10) != key@);
    }
    if is_word(key, &[0x6eu8, 0x72u8, 0x5fu8, 0x61u8, 0x6eu8, 0x6fu8, 0x6eu8, 0x5fu8, 0x70u8, 0x61u8, 0x67u8, 0x65u8, 0x73u8]) {
        proof {
            assert([0x6eu8, 0x72u8, 0x5fu8, 0x61u8, 0x6eu8, 0x6fu8, 0x6eu8, 0x5fu8, 0x70u8, 0x61u8, 0x67u8, 0x65u8, 0x73u8]@ =~= counter_key(11));
            assert(counter_key(0) != key@);
            assert(counter_key(1) != key@);
            assert(counter_key(2) != key@);
            assert(counter_key(3) != key@);
            assert(counter_key(4) != key@);
            assert(counter_key(5) != key@);
            assert(counter_key(6) != key@);
            assert(counter_key(7) != key@);
            assert(counter_key(8) != key@);
            assert(counter_key(9) != key@);
            assert(counter_key(10) != key@);
        }
        return 11;
    }
    proof {
        assert([0x6eu8, 0x72u8, 0x5fu8, 0x61u8, 0x6eu8, 0x6fu8, 0x6eu8, 0x5fu8, 0x70u8, 0x61u8, 0x67u8, 0x65u8, 0x73u8]@ =~= counter_key(11));
        assert(counter_key(11) != key@);
    }
    if is_word(key, &[0x6eu8, 0x72u8, 0x5fu8, 0x61u8, 0x6eu8, 0x6fu8, 0x6eu8, 0x5fu8, 0x74u8, 0x72u8, 0x61u8, 0x6eu8, 0x73u8, 0x70u8, 0x61u8, 0x72u8, 0x65u8, 0x6eu8, 0x74u8, 0x5fu8, 0x68u8, 0x75u8, 0x67u8, 0x65u8, 0x70u8, 0x61u8, 0x67u8, 0x65u8, 0x73u8]) {
        proof {
            assert([0x6eu8, 0x72u8, 0x5fu8, 0x61u8, 0x6eu8, 0x6fu8, 0x6eu8, 0x5fu8, 0x74u8, 0x72u8, 0x61u8, 0x6eu8, 0x73u8, 0x70u8, 0x61u8, 0x72u8, 0x65u8, 0x6eu8, 0x74u8, 0x5fu8, 0x68u8, 0x75u8, 0x67u8, 0x65u8, 0x70u8, 0x61u8, 0x67u8, 0x65u8, 0x73u8]@ =~= counter_key(12));
            assert(counter_key(0) != key@);
            assert(counter_key(1) != key@);
            assert(counter_key(2) != key@);
            assert(counter_key(3) != key@);
            assert(counter_key(4) != key@);
            assert(counter_key(5) != key@);
            assert(counter_key(6) != key@);
            assert(counter_key(7) != key@);
            assert(counter_key(8) != key@);
            assert(counter_key(9) != key@);
            assert(counter_key(10) != key@);
            assert(counter_key(11) != key@);
        }
        return 12;
    }
    proof {
        assert([0x6eu8, 0x72u8, 0x5fu8, 0x61u8, 0x6eu8, 0x6fu8, 0x6eu8, 0x5fu8, 0x74u8, 0x72u8, 0x61u8, 0x6eu8, 0x73u8, 0x70u8, 0x61u8, 0x72u8, 0x65u8, 0x6eu8, 0x74u8, 0x5fu8, 0x68u8, 0x75u8, 0x67u8, 0x65u8, 0x70u8, 0x61u8, 0x67u8, 0x65u8, 0x73u8]@ =~= counter_key(12));
        assert(counter_key(12) != key@);
    }
    if is_word(key, &[0x6eu8, 0x72u8, 0x5fu8, 0x61u8, 0x63u8, 0x74u8, 0x69u8, 0x76u8, 0x65u8, 0x5fu8, 0x66u8, 0x69u8, 0x6cu8, 0x65u8]) {
        proof {
            assert([0x6eu8, 0x72u8, 0x5fu8, 0x61u8, 0x63u8, 0x74u8, 0x69u8, 0x76u8, 0x65u8, 0x5fu8, 0x66u8, 0x69u8, 0x6cu8, 0x65u8]@ =~= counter_key(13));
            assert(counter_key(0) != key@);
            assert(counter_key(1) != key@);
            assert(counter_key(2) != key@);
            assert(counter_key(3) != key@);
            assert(counter_key(4) != key@);
            assert(counter_key(5) != key@);
            assert(counter_key(6) != key@);
            assert(counter_key(7) != key@);
            assert(counter_key(8) != key@);
            assert(counter_key(9) != key@);
            assert(counter_key(10) != key@);
            assert(counter_key(11) != key@);
            assert(counter_key(12) != key@);
        }
        return 13;
    }
    proof {
        assert([0x6eu8, 0x72u8, 0x5fu8, 0x61u8, 0x63u8, 0x74u8, 0x69u8, 0x76u8, 0x65u8, 0x5fu8, 0x66u8, 0x69u8, 0x6cu8, 0x65u8]@ =~= counter_key(13));
        assert(counter_key(13) != key@);
    }
    if is_word(key, &[0x6eu8, 0x72u8, 0x5fu8, 0x69u8, 0x6eu8, 0x61u8, 0x63u8, 0x74u8, 0x69u8, 0x76u8, 0x65u8, 0x5fu8, 0x66u8, 0x69u8, 0x6cu8, 0x65u8]) {
        proof {
            assert([0x6eu8, 0x72u8, 0x5fu8, 0x69u8, 0x6eu8, 0x61u8, 0x63u8, 0x74u8, 0x69u8, 0x76u8, 0x65u8, 0x5fu8, 0x66u8, 0x69u8, 0x6cu8, 0x65u8]@ =~= counter_key(14));
            assert(counter_key(0) != key@);
            assert(counter_key(1) != key@);
            assert(counter_key(2) != key@);
            assert(counter_key(3) != key@);
            assert(counter_key(4) != key@);
            assert(counter_key(5) != key@);
            assert(counter_key(6) != key@);
            assert(counter_key(7) != key@);
            assert(counter_key(8) != key@);
            assert(counter_key(9) != key@);
            assert(counter_key(10) != key@);
            assert(counter_key(11) != key@);
            assert(counter_key(12) != key@);
            assert(counter_key(13) != key@);
        }
        return 14;
    }
    proof {
        assert([0x6eu8, 0x72u8, 0x5fu8, 0x69u8, 0x6eu8, 0x61u8, 0x63u8, 0x74u8, 0x69u8, 0x76u8, 0x65u8, 0x5fu8, 0x66u8, 0x69u8, 0x6cu8, 0x65u8]@ =~= counter_key(14));
        assert(counter_key(14) != key@);
    }
    if is_word(key, &[0x6eu8, 0x72u8, 0x5fu8, 0x69u8, 0x73u8, 0x6fu8, 0x6cu8, 0x61u8, 0x74u8, 0x65u8, 0x64u8, 0x5fu8, 0x66u8, 0x69u8, 0x6cu8, 0x65u8]) {
        proof {
            assert([0x6eu8, 0x72u8, 0x5fu8, 0x69u8, 0x73u8, 0x6fu8, 0x6cu8, 0x61u8, 0x74u8, 0x65u8, 0x64u8, 0x5fu8, 0x66u8, 0x69u8, 0x6cu8, 0x65u8]@ =~= counter_key(15));
            assert(counter_key(0) != key@);
            assert(counter_key(1) != key@);
            assert(counter_key(2) != key@);
            assert(counter_key(3) != key@);
            assert(counter_key(4) != key@);
            assert(counter_key(5) != key@);
            assert(counter_key(6) != key@);
            assert(counter_key(7) != key@);
            assert(counter_key(8) != key@);
            assert(counter_key(9) != key@);
            assert(counter_key(10) != key@);
            assert(counter_key(11) != key@);
            assert(counter_key(12) != key@);
            assert(counter_key(13) != key@);
            assert(counter_key(14) != key@);
        }
        return 15;
    }
    proof {
        assert([0x6eu8, 0x72u8, 0x5fu8, 0x69u8, 0x73u8, 0x6fu8, 0x6cu8, 0x61u8, 0x74u8, 0x65u8, 0x64u8, 0x5fu8, 0x66u8, 0x69u8, 0x6cu8, 0x65u8]@ =~= counter_key(15));
        assert(counter_key(15) != key@);
    }
    if is_word(key, &[0x6eu8, 0x72u8, 0x5fu8, 0x66u8, 0x69u8, 0x6cu8, 0x65u8, 0x5fu8, 0x70u8, 0x61u8, 0x67u8, 0x65u8, 0x73u8]) {
        proof {
            assert([0x6eu8, 0x72u8, 0x5fu8, 0x66u8, 0x69u8, 0x6cu8, 0x65u8, 0x5fu8, 0x70u8, 0x61u8, 0x67u8, 0x65u8, 0x73u8]@ =~= counter_key(16));
            assert(counter_key(0) != key@);
            assert(counter_key(1) != key@);
            assert(counter_key(2) != key@);
            assert(counter_key(3) != key@);
            assert(counter_key(4) != key@);
            assert(counter_key(5) != key@);
            assert(counter_key(6) != key@);
            assert(counter_key(7) != key@);
            assert(counter_key(8) != key@);
            assert(counter_key(9) != key@);
            assert(counter_key(10) != key@);
            assert(counter_key(11) != key@);
            assert(counter_key(12) != key@);
            assert(counter_key(13) != key@);
            assert(counter_key(14) != key@);
            assert(counter_key(15) != key@);
        }
        return 16;
    }
    proof {
        assert([0x6eu8, 0x72u8, 0x5fu8, 0x66u8, 0x69u8, 0x6cu8, 0x65u8, 0x5fu8, 0x70u8, 0x61u8, 0x67u8, 0x65u8, 0x73u8]@ =~= counter_key(16));
        assert(counter_key(16) != key@);
    }
    if is_word(key, &[0x6eu8, 0x72u8, 0x5fu8, 0x73u8, 0x6cu8, 0x61u8, 0x62u8, 0x5fu8, 0x72u8, 0x65u8, 0x63u8, 0x6cu8, 0x61u8, 0x69u8, 0x6du8, 0x61u8, 0x62u8, 0x6cu8, 0x65u8]) {
        proof {
            assert([0x6eu8, 0x72u8, 0x5fu8, 0x73u8, 0x6cu8, 0x61u8, 0x62u8, 0x5fu8, 0x72u8, 0x65u8, 0x63u8, 0x6cu8, 0x61u8, 0x69u8, 0x6du8, 0x61u8, 0x62u8, 0x6cu8, 0x65u8]@ =~= counter_key(17));
            assert(counter_key(0) != key@);
            assert(counter_key(1) != key@);
            assert(counter_key(2) != key@);
            assert(counter_key(3) != key@);
            assert(counter_key(4) != key@);
            assert(counter_key(5) != key@);
            assert(counter_key(6) != key@);
            assert(counter_key(7) != key@);
            assert(counter_key(8) != key@);
            assert(counter_key(9) != key@);
            assert(counter_key(10) != key@);
            assert(counter_key(11) != key@);
            assert(counter_key(12) != key@);
            assert(counter_key(13) != key@);
            assert(counter_key(14) != key@);
            assert(counter_key(15) != key@);
            assert(counter_key(16) != key@);
        }
        return 17;
    }
    proof {
        assert([0x6eu8, 0x72u8, 0x5fu8, 0x73u8, 0x6cu8, 0x61u8, 0x62u8, 0x5fu8, 0x72u8, 0x65u8, 0x63u8, 0x6cu8, 0x61u8, 0x69u8, 0x6du8, 0x61u8, 0x62u8, 0x6cu8, 0x65u8]@ =~= counter_key(17));
        assert(counter_key(17) != key@);
    }
    if is_word(key, &[0x6eu8, 0x72u8, 0x5fu8, 0x73u8, 0x6cu8, 0x61u8, 0x62u8, 0x5fu8, 0x75u8, 0x6eu8, 0x72u8, 0x65u8, 0x63u8, 0x6cu8, 0x61u8, 0x69u8, 0x6du8, 0x61u8, 0x62u8, 0x6cu8, 0x65u8]) {
        proof {
            assert([0x6eu8, 0x72u8, 0x5fu8, 0x73u8, 0x6cu8, 0x61u8, 0x62u8, 0x5fu8, 0x75u8, 0x6eu8, 0x72u8, 0x65u8, 0x63u8, 0x6cu8, 0x61u8, 0x69u8, 0x6du8, 0x61u8, 0x62u8, 0x6cu8, 0x65u8]@ =~= counter_key(18));
            assert(counter_key(0) != key@);
            assert(counter_key(1) != key@);
            assert(counter_key(2) != key@);
            assert(counter_key(3) != key@);
            assert(counter_key(4) != key@);
            assert(counter_key(5) != key@);
            assert(counter_key(6) != key@);
            assert(counter_key(7) != key@);
            assert(counter_key(8) != key@);
            assert(counter_key(9) != key@);
            assert(counter_key(10) != key@);
            assert(counter_key(11) != key@);
            assert(counter_key(12) != key@);
            assert(counter_key(13) != key@);
            assert(counter_key(14) != key@);
            assert(counter_key(15) != key@);
            assert(counter_key(16) != key@);
            assert(counter_key(17) != key@);
        }
        return 18;
    }
    proof {
        assert([0x6eu8, 0x72u8, 0x5fu8, 0x73u8, 0x6cu8, 0x61u8, 0x62u8, 0x5fu8, 0x75u8, 0x6eu8, 0x72u8, 0x65u8, 0x63u8, 0x6cu8, 0x61u8, 0x69u8, 0x6du8, 0x61u8, 0x62u8, 0x6cu8, 0x65u8]@ =~= counter_key(18));
        assert(counter_key(18) != key@);
    }
    if is_word(key, &[0x6eu8, 0x72u8, 0x5fu8, 0x6du8, 0x6cu8, 0x6fu8, 0x63u8, 0x6bu8, 0x5fu8, 0x73u8, 0x74u8, 0x61u8, 0x63u8, 0x6bu8]) {
        proof {
            assert([0x6eu8, 0x72u8, 0x5fu8, 0x6du8, 0x6cu8, 0x6fu8, 0x63u8, 0x6bu8, 0x5fu8, 0x73u8, 0x74u8, 0x61u8, 0x63u8, 0x6bu8]@ =~= counter_key(19));
            assert(counter_key(0) != key@);
            assert(counter_key(1) != key@);
            assert(counter_key(2) != key@);
            assert(counter_key(3) != key@);
            assert(counter_key(4) != key@);
            assert(counter_key(5) != key@);
            assert(counter_key(6) != key@);
            assert(counter_key(7) != key@);
            assert(counter_key(8) != key@);
            assert(counter_key(9) != key@);
            assert(counter_key(10) != key@);
            assert(counter_key(11) != key@);
            assert(counter_key(12) != key@);
            assert(counter_key(13) != key@);
            assert(counter_key(14) != key@);
            assert(counter_key(15) != key@);
            assert(counter_key(16) != key@);
            assert(counter_key(17) != key@);
            assert(counter_key(18) != key@);
        }
        return 19;
    }
    proof {
        assert([0x6eu8, 0x72u8, 0x5fu8, 0x6du8, 0x6cu8, 0x6fu8, 0x63u8, 0x6bu8, 0x5fu8, 0x73u8, 0x74u8, 0x61u8, 0x63u8, 0x6bu8]@ =~= counter_key(19));
        assert(counter_key(19) != key@);
    }
    if is_word(key, &[0x6eu8, 0x72u8, 0x5fu8, 0x6bu8, 0x65u8, 0x72u8, 0x6eu8, 0x65u8, 0x6cu8, 0x5fu8, 0x73u8, 0x74u8, 0x61u8, 0x63u8, 0x6bu8]) {
        proof {
            assert([0x6eu8, 0x72u8, 0x5fu8, 0x6bu8, 0x65u8, 0x72u8, 0x6eu8, 0x65u8, 0x6cu8, 0x5fu8, 0x73u8, 0x74u8, 0x61u8, 0x63u8, 0x6bu8]@ =~= counter_key(20));
            assert(counter_key(0) != key@);
            assert(counter_key(1) != key@);
            assert(counter_key(2) != key@);
            assert(counter_key(3) != key@);
            assert(counter_key(4) != key@);
            assert(counter_key(5) != key@);
            assert(counter_key(6) != key@);
            assert(counter_key(7) != key@);
            assert(counter_key(8) != key@);
            assert(counter_key(9) != key@);
            assert(counter_key(10) != key@);
            assert(counter_key(11) != key@);
            assert(counter_key(12) != key@);
            assert(counter_key(13) != key@);
            assert(counter_key(14) != key@);
            assert(counter_key(15) != key@);
            assert(counter_key(16) != key@);
            assert(counter_key(17) != key@);
            assert(counter_key(18) != key@);
            assert(counter_key(19) != key@);
        }
        return 20;
    }
    proof {
        assert([0x6eu8, 0x72u8, 0x5fu8, 0x6bu8, 0x65u8, 0x72u8, 0x6eu8, 0x65u8, 0x6cu8, 0x5fu8, 0x73u8, 0x74u8, 0x61u8, 0x63u8, 0x6bu8]@ =~= counter_key(20));
        assert(counter_key(20) != key@);
    }
    if is_word(key, &[0x6eu8, 0x72u8, 0x5fu8, 0x6du8, 0x61u8, 0x70u8, 0x70u8, 0x65u8, 0x64u8]) {
        proof {
            assert([0x6eu8, 0x72u8, 0x5fu8, 0x6du8, 0x61u8, 0x70u8, 0x70u8, 0x65u8, 0x64u8]@ =~= counter_key(21));
            assert(counter_key(0) != key@);
            assert(counter_key(1) != key@);
            assert(counter_key(2) != key@);
            assert(counter_key(3) != key@);
            assert(counter_key(4) != key@);
            assert(counter_key(5) != key@);
            assert(counter_key(6) != key@);
            assert(counter_key(7) != key@);
            assert(counter_key(8) != key@);
            assert(counter_key(9) != key@);
            assert(counter_key(10) != key@);
            assert(counter_key(11) != key@);
            assert(counter_key(12) != key@);
            assert(counter_key(13) != key@);
            assert(counter_key(14) != key@);
            assert(counter_key(15) != key@);
            assert(counter_key(16) != key@);
            assert(counter_key(17) != key@);
            assert(counter_key(18) != key@);
            assert(counter_key(19) != key@);
            assert(counter_key(20) != key@);
        }
        return 21;
    }
    proof {
        assert([0x6eu8, 0x72u8, 0x5fu8, 0x6du8, 0x61u8, 0x70u8, 0x70u8, 0x65u8, 0x64u8]@ =~= counter_key(21));
        assert(counter_key(21) != key@);
    }
    if is_word(key, &[0x6eu8, 0x72u8, 0x5fu8, 0x64u8, 0x69u8, 0x72u8, 0x74u8, 0x79u8]) {
        proof {
            assert([0x6eu8, 0x72u8, 0x5fu8, 0x64u8, 0x69u8, 0x72u8, 0x74u8, 0x79u8]@ =~= counter_key(22));
            assert(counter_key(0) != key@);
            assert(counter_key(1) != key@);
            assert(counter_key(2) != key@);
            assert(counter_key(3) != key@);
            assert(counter_key(4) != key@);
            assert(counter_key(5) != key@);
            assert(counter_key(6) != key@);
            assert(counter_key(7) != key@);
            assert(counter_key(8) != key@);
            assert(counter_key(9) != key@);
            assert(counter_key(10) != key@);
            assert(counter_key(11) != key@);
            assert(counter_key(12) != key@);
            assert(counter_key(13) != key@);
            assert(counter_key(14) != key@);
            assert(counter_key(15) != key@);
            assert(counter_key(16) != key@);
            assert(counter_key(17) != key@);
            assert(counter_key(18) != key@);
            assert(counter_key(19) != key@);
            assert(counter_key(20) != key@);
            assert(counter_key(21) != key@);
        }
        return 22;
    }
    proof {
        assert([0x6eu8, 0x72u8, 0x5fu8, 0x64u8, 0x69u8, 0x72u8, 0x74u8, 0x79u8]@ =~= counter_key(22));
        assert(counter_key(22) != key@);
    }
    if is_word(key, &[0x6eu8, 0x72u8, 0x5fu8, 0x77u8, 0x72u8, 0x69u8, 0x74u8, 0x65u8, 0x62u8, 0x61u8, 0x63u8, 0x6bu8]) {
        proof {
            assert([0x6eu8, 0x72u8, 0x5fu8, 0x77u8, 0x72u8, 0x69u8, 0x74u8, 0x65u8, 0x62u8, 0x61u8, 0x63u8, 0x6bu8]@ =~= counter_key(23));
            assert(counter_key(0) != key@);
            assert(counter_key(1) != key@);
            assert(counter_key(2) != key@);
            assert(counter_key(3) != key@);
            assert(counter_key(4) != key@);
            assert(counter_key(5) != key@);
            assert(counter_key(6) != key@);
            assert(counter_key(7) != key@);
            assert(counter_key(8) != key@);
            assert(counter_key(9) != key@);
            assert(counter_key(10) != key@);
            assert(counter_key(11) != key@);
            assert(counter_key(12) != key@);
            assert(counter_key(13) != key@);
            assert(counter_key(14) != key@);
            assert(counter_key(15) != key@);
            assert(counter_key(16) != key@);
            assert(counter_key(17) != key@);
            assert(counter_key(18) != key@);
            assert(counter_key(19) != key@);
            assert(counter_key(20) != key@);
            assert(counter_key(21) != key@);
            assert(counter_key(22) != key@);
        }
        return 23;
    }
    proof {
        assert([0x6eu8, 0x72u8, 0x5fu8, 0x77u8, 0x72u8, 0x69u8, 0x74u8, 0x65u8, 0x62u8, 0x61u8, 0x63u8, 0x6bu8]@ =~= counter_key(23));
        assert(counter_key(23) != key@);
    }
    if is_word(key, &[0x6eu8, 0x72u8, 0x5fu8, 0x75u8, 0x6eu8, 0x65u8, 0x76u8, 0x69u8, 0x63u8, 0x74u8, 0x61u8, 0x62u8, 0x6cu8, 0x65u8]) {
        proof {
            assert([0x6eu8, 0x72u8, 0x5fu8, 0x75u8, 0x6eu8, 0x65u8, 0x76u8, 0x69u8, 0x63u8, 0x74u8, 0x61u8, 0x62u8, 0x6cu8, 0x65u8]@ =~= counter_key(24));
            assert(counter_key(0) != key@);
            assert(counter_key(1) != key@);
            assert(counter_key(2) != key@);
            assert(counter_key(3) != key@);
            assert(counter_key(4) != key@);
            assert(counter_key(5) != key@);
            assert(counter_key(6) != key@);
            assert(counter_key(7) != key@);
            assert(counter_key(8) != key@);
            assert(counter_key(9) != key@);
            assert(counter_key(10) != key@);
            assert(counter_key(11) != key@);
            assert(counter_key(12) != key@);
            assert(counter_key(13) != key@);
            assert(counter_key(14) != key@);
            assert(counter_key(15) != key@);
            assert(counter_key(16) != key@);
            assert(counter_key(17) != key@);
            assert(counter_key(18) != key@);
            assert(counter_key(19) != key@);
            assert(counter_key(20) != key@);
            assert(counter_key(21) != key@);
            assert(counter_key(22) != key@);
            assert(counter_key(23) != key@);
        }
        return 24;
    }
    proof {
        assert([0x6eu8, 0x72u8, 0x5fu8, 0x75u8, 0x6eu8, 0x65u8, 0x76u8, 0x69u8, 0x63u8, 0x74u8, 0x61u8, 0x62u8, 0x6cu8, 0x65u8]@ =~= counter_key(24));
        assert(counter_key(24) != key@);
    }
    if is_word(key, &[0x6eu8, 0x72u8, 0x5fu8, 0x73u8, 0x68u8, 0x6du8, 0x65u8, 0x6du8]) {
        proof {
            assert([0x6eu8, 0x72u8, 0x5fu8, 0x73u8, 0x68u8, 0x6du8, 0x65u8, 0x6du8]@ =~= counter_key(25));
            assert(counter_key(0) != key@);
            assert(counter_key(1) != key@);
            assert(counter_key(2) != key@);
            assert(counter_key(3) != key@);
            assert(counter_key(4) != key@);
            assert(counter_key(5) != key@);
            assert(counter_key(6) != key@);
            assert(counter_key(7) != key@);
            assert(counter_key(8) != key@);
            assert(counter_key(9) != key@);
            assert(counter_key(10) != key@);
            assert(counter_key(11) != key@);
            assert(counter_key(12) != key@);
            assert(counter_key(13) != key@);
            assert(counter_key(14) != key@);
            assert(counter_key(15) != key@);
            assert(counter_key(16) != key@);
            assert(counter_key(17) != key@);
            assert(counter_key(18) != key@);
            assert(counter_key(19) != key@);
            assert(counter_key(20) != key@);
            assert(counter_key(21) != key@);
            assert(counter_key(22) != key@);
            assert(counter_key(23) != key@);
            assert(counter_key(24) != key@);
        }
        return 25;
    }
    proof {
        assert([0x6eu8, 0x72u8, 0x5fu8, 0x73u8, 0x68u8, 0x6du8, 0x65u8, 0x6du8]@ =~= counter_key(25));
        assert(counter_key(25) != key@);
    }
    if is_word(key, &[0x6eu8, 0x72u8, 0x5fu8, 0x64u8, 0x69u8, 0x72u8, 0x74u8, 0x69u8, 0x65u8, 0x64u8]) {
        proof {
            assert([0x6eu8, 0x72u8, 0x5fu8, 0x64u8, 0x69u8, 0x72u8, 0x74u8, 0x69u8, 0x65u8, 0x64u8]@ =~= counter_key(26));
            assert(counter_key(0) != key@);
            assert(counter_key(1) != key@);
            assert(counter_key(2) != key@);
            assert(counter_key(3) != key@);
            assert(counter_key(4) != key@);
            assert(counter_key(5) != key@);
            assert(counter_key(6) != key@);
            assert(counter_key(7) != key@);
            assert(counter_key(8) != key@);
            assert(counter_key(9) != key@);
            assert(counter_key(10) != key@);
            assert(counter_key(11) != key@);
            assert(counter_key(12) != key@);
            assert(counter_key(13) != key@);
            assert(counter_key(14) != key@);
            assert(counter_key(15) != key@);
            assert(counter_key(16) != key@);
            assert(counter_key(17) != key@);
            assert(counter_key(18) != key@);
            assert(counter_key(19) != key@);
            assert(counter_key(20) != key@);
            assert(counter_key(21) != key@);
            assert(counter_key(22) != key@);
            assert(counter_key(23) != key@);
            assert(counter_key(24) != key@);
            assert(counter_key(25) != key@);
        }
        return 26;
    }
    proof {
        assert([0x6eu8, 0x72u8, 0x5fu8, 0x64u8, 0x69u8, 0x72u8, 0x74u8, 0x69u8, 0x65u8, 0x64u8]@ =~= counter_key(26));
        assert(counter_key(26) != key@);
    }
    if is_word(key, &[0x6eu8, 0x72u8, 0x5fu8, 0x77u8, 0x72u8, 0x69u8, 0x74u8, 0x74u8, 0x65u8, 0x6eu8]) {
        proof {
            assert([0x6eu8, 0x72u8, 0x5fu8, 0x77u8, 0x72u8, 0x69u8, 0x74u8, 0x74u8, 0x65u8, 0x6eu8]@ =~= counter_key(27));
            assert(counter_key(0) != key@);
            assert(counter_key(1) != key@);
            assert(counter_key(2) != key@);
            assert(counter_key(3) != key@);
            assert(counter_key(4) != key@);
            assert(counter_key(5) != key@);
            assert(counter_key(6) != key@);
            assert(counter_key(7) != key@);
            assert(counter_key(8) != key@);
            assert(counter_key(9) != key@);
            assert(counter_key(10) != key@);
            assert(counter_key(11) != key@);
            assert(counter_key(12) != key@);
            assert(counter_key(13) != key@);
            assert(counter_key(14) != key@);
            assert(counter_key(15) != key@);
            assert(counter_key(16) != key@);
            assert(counter_key(17) != key@);
            assert(counter_key(18) != key@);
            assert(counter_key(19) != key@);
            assert(counter_key(20) != key@);
            assert(counter_key(21) != key@);
            assert(counter_key(22) != key@);
            assert(counter_key(23) != key@);
            assert(counter_key(24) != key@);
            assert(counter_key(25) != key@);
            assert(counter_key(26) != key@);
        }
        return 27;
    }
    proof {
        assert([0x6eu8, 0x72u8, 0x5fu8, 0x77u8, 0x72u8, 0x69u8, 0x74u8, 0x74u8, 0x65u8, 0x6eu8]@ =~= counter_key(27));
        assert(counter_key(27) != key@);
    }
    if is_word(key, &[0x6eu8, 0x75u8, 0x6du8, 0x61u8, 0x5fu8, 0x68u8, 0x69u8, 0x74u8]) {
        proof {
            assert([0x6eu8, 0x75u8, 0x6du8, 0x61u8, 0x5fu8, 0x68u8, 0x69u8, 0x74u8]@ =~= counter_key(28));
            assert(counter_key(0) != key@);
            assert(counter_key(1) != key@);
            assert(counter_key(2) != key@);
            assert(counter_key(3) != key@);
            assert(counter_key(4) != key@);
            assert(counter_key(5) != key@);
            assert(counter_key(6) != key@);
            assert(counter_key(7) != key@);
            assert(counter_key(8) != key@);
            assert(counter_key(9) != key@);
            assert(counter_key(10) != key@);
            assert(counter_key(11) != key@);
            assert(counter_key(12) != key@);
            assert(counter_key(13) != key@);
            assert(counter_key(14) != key@);
            assert(counter_key(15) != key@);
            assert(counter_key(16) != key@);
            assert(counter_key(17) != key@);
            assert(counter_key(18) != key@);
            assert(counter_key(19) != key@);
            assert(counter_key(20) != key@);
            assert(counter_key(21) != key@);
            assert(counter_key(22) != key@);
            assert(counter_key(23) != key@);
            assert(counter_key(24) != key@);
            assert(counter_key(25) != key@);
            assert(counter_key(26) != key@);
            assert(counter_key(27) != key@);
        }
        return 28;
    }
    proof {
        assert([0x6eu8, 0x75u8, 0x6du8, 0x61u8, 0x5fu8, 0x68u8, 0x69u8, 0x74u8]@ =~= counter_key(28));
        assert(counter_key(28) != key@);
    }
    if is_word(key, &[0x6eu8, 0x75u8, 0x6du8, 0x61u8, 0x5fu8, 0x6du8, 0x69u8, 0x73u8, 0x73u8]) {
        proof {
            assert([0x6eu8, 0x75u8, 0x6du8, 0x61u8, 0x5fu8, 0x6du8, 0x69u8, 0x73u8, 0x73u8]@ =~= counter_key(29));
            assert(counter_key(0) != key@);
            assert(counter_key(1) != key@);
            assert(counter_key(2) != key@);
            assert(counter_key(3) != key@);
            assert(counter_key(4) != key@);
            assert(counter_key(5) != key@);
            assert(counter_key(6) != key@);
            assert(counter_key(7) != key@);
            assert(counter_key(8) != key@);
            assert(counter_key(9) != key@);
            assert(counter_key(10) != key@);
            assert(counter_key(11) != key@);
            assert(counter_key(12) != key@);
            assert(counter_key(13) != key@);
            assert(counter_key(14) != key@);
            assert(counter_key(15) != key@);
            assert(counter_key(16) != key@);
            assert(counter_key(17) != key@);
            assert(counter_key(18) != key@);
            assert(counter_key(19) != key@);
            assert(counter_key(20) != key@);
            assert(counter_key(21) != key@);
            assert(counter_key(22) != key@);
            assert(counter_key(23) != key@);
            assert(counter_key(24) != key@);
            assert(counter_key(25) != key@);
            assert(counter_key(26) != key@);
            assert(counter_key(27) != key@);
            assert(counter_key(28) != key@);
        }
        return 29;
    }
    proof {
        assert([0x6eu8, 0x75u8, 0x6du8, 0x61u8, 0x5fu8, 0x6du8, 0x69u8, 0x73u8, 0x73u8]@ =~= counter_key(29));
        assert(counter_key(29) != key@);
    }
    if is_word(key, &[0x6eu8, 0x75u8, 0x6du8, 0x61u8, 0x5fu8, 0x66u8, 0x6fu8, 0x72u8, 0x65u8, 0x69u8, 0x67u8, 0x6eu8]) {
        proof {
            assert([0x6eu8, 0x75u8, 0x6du8, 0x61u8, 0x5fu8, 0x66u8, 0x6fu8, 0x72u8, 0x65u8, 0x69u8, 0x67u8, 0x6eu8]@ =~= counter_key(30));
            assert(counter_key(0) != key@);
            assert(counter_key(1) != key@);
            assert(counter_key(2) != key@);
            assert(counter_key(3) != key@);
            assert(counter_key(4) != key@);
            assert(counter_key(5) != key@);
            assert(counter_key(6) != key@);
            assert(counter_key(7) != key@);
            assert(counter_key(8) != key@);
            assert(counter_key(9) != key@);
            assert(counter_key(10) != key@);
            assert(counter_key(11) != key@);
            assert(counter_key(12) != key@);
            assert(counter_key(13) != key@);
            assert(counter_key(14) != key@);
            assert(counter_key(15) != key@);
            assert(counter_key(16) != key@);
            assert(counter_key(17) != key@);
            assert(counter_key(18) != key@);
            assert(counter_key(19) != key@);
            assert(counter_key(20) != key@);
            assert(counter_key(21) != key@);
            assert(counter_key(22) != key@);
            assert(counter_key(23) != key@);
            assert(counter_key(24) != key@);
            assert(counter_key(25) != key@);
            assert(counter_key(26) != key@);
            assert(counter_key(27) != key@);
            assert(counter_key(28) != key@);
            assert(counter_key(29) != key@);
        }
        return 30;
    }
    proof {
        assert([0x6eu8, 0x75u8, 0x6du8, 0x61u8, 0x5fu8, 0x66u8, 0x6fu8, 0x72u8, 0x65u8, 0x69u8, 0x67u8, 0x6eu8]@ =~= counter_key(30));
        assert(counter_key(30) != key@);
    }
    if is_word(key, &[0x6eu8, 0x75u8, 0x6du8, 0x61u8, 0x5fu8, 0x69u8, 0x6eu8, 0x74u8, 0x65u8, 0x72u8, 0x6cu8, 0x65u8, 0x61u8, 0x76u8, 0x65u8]) {
        proof {
            assert([0x6eu8, 0x75u8, 0x6du8, 0x61u8, 0x5fu8, 0x69u8, 0x6eu8, 0x74u8, 0x65u8, 0x72u8, 0x6cu8, 0x65u8, 0x61u8, 0x76u8, 0x65u8]@ =~= counter_key(31));
            assert(counter_key(0) != key@);
            assert(counter_key(1) != key@);
            assert(counter_key(2) != key@);
            assert(counter_key(3) != key@);
            assert(counter_key(4) != key@);
            assert(counter_key(5) != key@);
            assert(counter_key(6) != key@);
            assert(counter_key(7) != key@);
            assert(counter_key(8) != key@);
            assert(counter_key(9) != key@);
            assert(counter_key(10) != key@);
            assert(counter_key(11) != key@);
            assert(counter_key(12) != key@);
            assert(counter_key(13) != key@);
            assert(counter_key(14) != key@);
            assert(counter_key(15) != key@);
            assert(counter_key(16) != key@);
            assert(counter_key(17) != key@);
            assert(counter_key(18) != key@);
            assert(counter_key(19) != key@);
            assert(counter_key(20) != key@);
            assert(counter_key(21) != key@);
            assert(counter_key(22) != key@);
            assert(counter_key(23) != key@);
            assert(counter_key(24) != key@);
            assert(counter_key(25) != key@);
            assert(counter_key(26) != key@);
            assert(counter_key(27) != key@);
            assert(counter_key(28) != key@);
            assert(counter_key(29) != key@);
            assert(counter_key(30) != key@);
        }
        return 31;
    }
    proof {
        assert([0x6eu8, 0x75u8, 0x6du8, 0x61u8, 0x5fu8, 0x69u8, 0x6eu8, 0x74u8, 0x65u8, 0x72u8, 0x6cu8, 0x65u8, 0x61u8, 0x76u8, 0x65u8]@ =~= counter_key(31));
        assert(counter_key(31) != key@);
    }
    if is_word(key, &[0x6eu8, 0x75u8, 0x6du8, 0x61u8, 0x5fu8, 0x6cu8, 0x6fu8, 0x63u8, 0x61u8, 0x6cu8]) {
        proof {
            assert([0x6eu8, 0x75u8, 0x6du8, 0x61u8, 0x5fu8, 0x6cu8, 0x6fu8, 0x63u8, 0x61u8, 0x6cu8]@ =~= counter_key(32));
            assert(counter_key(0) != key@);
            assert(counter_key(1) != key@);
            assert(counter_key(2) != key@);
            assert(counter_key(3) != key@);
            assert(counter_key(4) != key@);
            assert(counter_key(5) != key@);
            assert(counter_key(6) != key@);
            assert(counter_key(7) != key@);
            assert(counter_key(8) != key@);
            assert(counter_key(9) != key@);
            assert(counter_key(10) != key@);
            assert(counter_key(11) != key@);
            assert(counter_key(12) != key@);
            assert(counter_key(13) != key@);
            assert(counter_key(14) != key@);
            assert(counter_key(15) != key@);
            assert(counter_key(16) != key@);
            assert(counter_key(17) != key@);
            assert(counter_key(18) != key@);
            assert(counter_key(19) != key@);
            assert(counter_key(20) != key@);
            assert(counter_key(21) != key@);
            assert(counter_key(22) != key@);
            assert(counter_key(23) != key@);
            assert(counter_key(24) != key@);
            assert(counter_key(25) != key@);
            assert(counter_key(26) != key@);
            assert(counter_key(27) != key@);
            assert(counter_key(28) != key@);
            assert(counter_key(29) != key@);
            assert(counter_key(30) != key@);
            assert(counter_key(31) != key@);
        }
        return 32;
    }
    proof {
        assert([0x6eu8, 0x75u8, 0x6du8, 0x61u8, 0x5fu8, 0x6cu8, 0x6fu8, 0x63u8, 0x61u8, 0x6cu8]@ =~= counter_key(32));
        assert(counter_key(32) != key@);
    }
    if is_word(key, &[0x6eu8, 0x75u8, 0x6du8, 0x61u8, 0x5fu8, 0x6fu8, 0x74u8, 0x68u8, 0x65u8, 0x72u8]) {
        proof {
            assert([0x6eu8, 0x75u8, 0x6du8, 0x61u8, 0x5fu8, 0x6fu8, 0x74u8, 0x68u8, 0x65u8, 0x72u8]@ =~= counter_key(33));
            assert(counter_key(0) != key@);
            assert(counter_key(1) != key@);
            assert(counter_key(2) != key@);
            assert(counter_key(3) != key@);
            assert(counter_key(4) != key@);
            assert(counter_key(5) != key@);
            assert(counter_key(6) != key@);
            assert(counter_key(7) != key@);
            assert(counter_key(8) != key@);
            assert(counter_key(9) != key@);
            assert(counter_key(10) != key@);
            assert(counter_key(11) != key@);
            assert(counter_key(12) != key@);
            assert(counter_key(13) != key@);
            assert(counter_key(14) != key@);
            assert(counter_key(15) != key@);
            assert(counter_key(16) != key@);
            assert(counter_key(17) != key@);
            assert(counter_key(18) != key@);
            assert(counter_key(19) != key@);
            assert(counter_key(20) != key@);
            assert(counter_key(21) != key@);
            assert(counter_key(22) != key@);
            assert(counter_key(23) != key@);
            assert(counter_key(24) != key@);
            assert(counter_key(25) != key@);
            assert(counter_key(26) != key@);
            assert(counter_key(27) != key@);
            assert(counter_key(28) != key@);
            assert(counter_key(29) != key@);
            assert(counter_key(30) != key@);
            assert(counter_key(31) != key@);
            assert(counter_key(32) != key@);
        }
        return 33;
    }
    proof {
        assert([0x6eu8, 0x75u8, 0x6du8, 0x61u8, 0x5fu8, 0x6fu8, 0x74u8, 0x68u8, 0x65u8, 0x72u8]@ =~= counter_key(33));
        assert(counter_key(33) != key@);
    }
    proof {
        assert forall|j: int| 0 <= j < 34 implies counter_key(j) != key@ by {
        }
    }
    -1
}

/// Sets counter slot `k` of `c` to `v`.
fn set_counter(c: &mut ZoneCounters, k: i32, v: Option<i64>)
    requires
        0 <= k < 34,
    ensures
        *final(c) == old(c).set(k as int, v),
{
    if k == 0 {
        c.nr_free_pages = v;
    } else if k == 1 {
        c.min = v;
    } else if k == 2 {
        c.low = v;
    } else if k == 3 {
        c.high = v;
    } else if k == 4 {
        c.scanned = v;
    } else if k == 5 {
        c.spanned = v;
    } else if k == 6 {
        c.present = v;
    } else if k == 7 {
        c.managed = v;
    } else if k == 8 {
        c.nr_active_anon = v;
    } else if k == 9 {
        c.nr_inactive_anon = v;
    } else if k == 10 {
        c.nr_isolated_anon = v;
    } else if k == 11 {
        c.nr_anon_pages = v;
    } else if k == 12 {
        c.nr_anon_transparent_hugepages = v;
    } else if k == 13 {
        c.nr_active_file = v;
    } else if k == 14 {
        c.nr_inactive_file = v;
    } else if k == 15 {
        c.nr_isolated_file = v;
    } else if k == 16 {
        c.nr_file_pages = v;
    } else if k == 17 {
        c.nr_slab_reclaimable = v;
    } else if k == 18 {
        c.nr_slab_unreclaimable = v;
    } else if k == 19 {
        c.nr_mlock_stack = v;
    } else if k == 20 {
        c.nr_kernel_stack = v;
    } else if k == 21 {
        c.nr_mapped = v;
    } else if k == 22 {
        c.nr_dirty = v;
    } else if k == 23 {
        c.nr_writeback = v;
    } else if k == 24 {
        c.nr_unevictable = v;
    } else if k == 25 {
        c.nr_shmem = v;
    } else if k == 26 {
        c.nr_dirtied = v;
    } else if k == 27 {
        c.nr_written = v;
    } else if k == 28 {
        c.numa_hit = v;
    } else if k == 29 {
        c.numa_miss = v;
    } else if k == 30 {
        c.numa_foreign = v;
    } else if k == 31 {
        c.numa_interleave = v;
    } else if k == 32 {
        c.numa_local = v;
    } else {
        c.numa_other = v;
    }
}

/// How many values of a "protection:" line are read: at most five.
pub open spec fn protection_count(f: Seq<Seq<u8>>) -> int {
    if f.len() - 1 < 5 {
        f.len() - 1
    } else {
        5
    }
}

/// The protection array of a "protection:" line with fields `f`: the first
/// five values, stripped of `(`, `,` and `)`; empty if one of them is not
/// an `i64`.
pub open spec fn protection_values(f: Seq<Seq<u8>>) -> Seq<i64> {
    let n = protection_count(f);
    if forall|j: int| 0 <= j < n ==> #[trigger] dec_i64(trim3(f[j + 1], 0x28u8, 0x2cu8, 0x29u8)) is Some {
        Seq::new(n as nat, |j: int| dec_i64(trim3(f[j + 1], 0x28u8, 0x2cu8, 0x29u8))->0)
    } else {
        Seq::empty()
    }
}

/// Reads the protection array of a "protection:" line.
fn read_protection(parts: &Vec<&[u8]>) -> (r: Vec<i64>)
    requires
        parts@.len() >= 1,
    ensures
        r@ == protection_values(views(parts@)),
{
    let ghost f = views(parts@);
    let n: usize = if parts.len() - 1 < 5 {
        parts.len() - 1
    } else {
        5
    };
    let mut out: Vec<i64> = Vec::new();
    let mut j: usize = 0;
    while j < n
        invariant
            f == views(parts@),
            n == protection_count(f),
            j <= n,
            n < parts@.len(),
            forall|k: int| 0 <= k < j ==> #[trigger] dec_i64(trim3(f[k + 1], 0x28u8, 0x2cu8, 0x29u8)) is Some,
            out@ =~= Seq::new(j as nat, |k: int| dec_i64(trim3(f[k + 1], 0x28u8, 0x2cu8, 0x29u8))->0),
        decreases n - j,
    {
        assert(parts@[j + 1]@ == f[j + 1]);
        match parse_i64(trim_bytes(parts[j + 1], 0x28u8, 0x2cu8, 0x29u8)) {
            Some(v) => {
                out.push(v);
            },
            None => {
                return Vec::new();
            },
        }
        j = j + 1;
    }
    out
}

/// One zone of /proc/zoneinfo.
#[derive(Debug, PartialEq, Eq)]
pub struct ZoneInfo<'a> {
    pub node: &'a [u8],
    pub zone: &'a [u8],
    pub counters: ZoneCounters,
    pub protection: Vec<i64>,
}

/// What a zone holds, as plain values.
pub struct ZoneInfoModel {
    pub node: Seq<u8>,
    pub zone: Seq<u8>,
    pub counters: ZoneCounters,
    pub protection: Seq<i64>,
}

impl ZoneInfoModel {
    /// A zone with no name and nothing reported.
    pub open spec fn empty() -> ZoneInfoModel {
        ZoneInfoModel {
            node: Seq::empty(),
            zone: Seq::empty(),
            counters: ZoneCounters::none(),
            protection: Seq::empty(),
        }
    }
}

impl<'a> View for ZoneInfo<'a> {
    type V = ZoneInfoModel;

    open spec fn view(&self) -> ZoneInfoModel {
        ZoneInfoModel {
            node: self.node@,
            zone: self.zone@,
            counters: self.counters,
            protection: self.protection@,
        }
    }
}

impl<'a> ZoneInfo<'a> {
    /// A zone with no name and nothing reported.
    pub fn new() -> (r: ZoneInfo<'a>)
        ensures
            r@ == ZoneInfoModel::empty(),
    {
        let none: &[u8] = &[];
        proof {
            assert(none@ =~= Seq::<u8>::empty());
        }
        ZoneInfo { node: none, zone: none, counters: ZoneCounters::default(), protection: Vec::new() }
    }
}

/// The models of a sequence of zones.
pub open spec fn zone_views(s: Seq<ZoneInfo>) -> Seq<ZoneInfoModel> {
    s.map_values(|z: ZoneInfo| z@)
}

/// `Node `
pub open spec fn node_prefix() -> Seq<u8> {
    seq![0x4eu8, 0x6fu8, 0x64u8, 0x65u8, 0x20u8]
}

/// `protection:`
pub open spec fn protection_key() -> Seq<u8> {
    seq![0x70u8, 0x72u8, 0x6fu8, 0x74u8, 0x65u8, 0x63u8, 0x74u8, 0x69u8, 0x6fu8, 0x6eu8, 0x3au8]
}

/// The words after "Node " of a zone header, split at whitespace and commas:
/// the node, the word "zone" and the zone's name.
pub open spec fn node_words(line: Seq<u8>) -> Seq<Seq<u8>> {
    words(line.subrange(5, line.len() as int), 0x2cu8)
}

/// A zone header names a node and a zone.
pub open spec fn node_line_ok(line: Seq<u8>) -> bool {
    has_prefix(line, node_prefix()) ==> node_words(line).len() >= 3
}

/// The zones finished so far and the one being read.
pub struct ZoneScan {
    pub infos: Seq<ZoneInfoModel>,
    pub cur: ZoneInfoModel,
}

/// The scan after one more line. A zone header finishes the zone being read
/// (once it has a name) and starts the next; "protection:" sets the
/// protection array; a counter key sets its counter to the `i64` that follows
/// it, or to none; any other line changes nothing.
pub open spec fn zone_step(st: ZoneScan, line: Seq<u8>) -> ZoneScan {
    if has_prefix(line, node_prefix()) {
        let p = node_words(line);
        let flushed = if st.cur.node.len() > 0 || st.cur.zone.len() > 0 {
            ZoneScan { infos: st.infos.push(st.cur), cur: ZoneInfoModel::empty() }
        } else {
            st
        };
        ZoneScan { infos: flushed.infos, cur: ZoneInfoModel { node: p[0], zone: p[2], ..flushed.cur } }
    } else {
        let f = fields(line);
        if f.len() == 0 {
            st
        } else if f[0] == protection_key() {
            ZoneScan { infos: st.infos, cur: ZoneInfoModel { protection: protection_values(f), ..st.cur } }
        } else if counter_slot(f[0]) >= 0 {
            let v = if f.len() >= 2 {
                dec_i64(f[1])
            } else {
                None
            };
            ZoneScan {
                infos: st.infos,
                cur: ZoneInfoModel { counters: st.cur.counters.set(counter_slot(f[0]), v), ..st.cur },
            }
        } else {
            st
        }
    }
}

/// The scan after the first `n` lines.
pub open spec fn zone_scan(ls: Seq<Seq<u8>>, n: nat) -> ZoneScan
    decreases n,
{
    if n == 0 || n > ls.len() {
        ZoneScan { infos: Seq::empty(), cur: ZoneInfoModel::empty() }
    } else {
        zone_step(zone_scan(ls, (n - 1) as nat), ls[n - 1])
    }
}

/// The zones of a /proc/zoneinfo text: those finished by the scan, then the
/// one being read at the end.
pub open spec fn zone_infos(content: Seq<u8>) -> Seq<ZoneInfoModel> {
    let st = zone_scan(lines(content), lines(content).len());
    st.infos.push(st.cur)
}

/// Reads one more line of /proc/zoneinfo.
pub fn zone_line<'a>(infos: Vec<ZoneInfo<'a>>, info: ZoneInfo<'a>, line: &'a [u8]) -> (r: (
    Vec<ZoneInfo<'a>>,
    ZoneInfo<'a>,
))
    requires
        node_line_ok(line@),
    ensures
        zone_step(ZoneScan { infos: zone_views(infos@), cur: info@ }, line@) == (ZoneScan {
            infos: zone_views(r.0@),
            cur: r.1@,
        }),
{
    let mut infos = infos;
    let mut info = info;
    proof {
        assert([0x4eu8, 0x6fu8, 0x64u8, 0x65u8, 0x20u8]@ =~= node_prefix());
        assert([0x70u8, 0x72u8, 0x6fu8, 0x74u8, 0x65u8, 0x63u8, 0x74u8, 0x69u8, 0x6fu8, 0x6eu8, 0x3au8]@ =~= protection_key());
    }
    if starts_with(line, &[0x4eu8, 0x6fu8, 0x64u8, 0x65u8, 0x20u8]) {
        let rest = &line[5..line.len()];
        let parts = split_words(rest, 0x2cu8);
        assert(rest@ =~= line@.subrange(5, line@.len() as int));
        assert(parts@[0]@ == node_words(line@)[0]);
        assert(parts@[2]@ == node_words(line@)[2]);
        if info.node.len() > 0 || info.zone.len() > 0 {
            let ghost before = infos@;
            infos.push(info);
            assert(zone_views(infos@) =~= zone_views(before).push(info@));
            info = ZoneInfo::new();
        }
        info.node = parts[0];
        info.zone = parts[2];
        return (infos, info);
    }
    let parts = split_ascii_ws(line);
    let ghost f = fields(line@);
    if parts.len() == 0 {
        return (infos, info);
    }
    let key = parts[0];
    assert(key@ == f[0]);
    if is_word(key, &[0x70u8, 0x72u8, 0x6fu8, 0x74u8, 0x65u8, 0x63u8, 0x74u8, 0x69u8, 0x6fu8, 0x6eu8, 0x3au8]) {
        info.protection = read_protection(&parts);
        return (infos, info);
    }
    let k = counter_slot_exec(key);
    if k >= 0 {
        let v = if parts.len() >= 2 {
            assert(parts@[1]@ == f[1]);
            parse_i64(parts[1])
        } else {
            None
        };
        set_counter(&mut info.counters, k, v);
    }
    (infos, info)
}

/// Whether every zone header of `content` names a node and a zone, as
/// `parse_zoneinfo` needs.
pub fn zone_headers_ok(content: &str) -> (r: bool)
    ensures
        r == forall|i: int|
            0 <= i < lines(content.spec_bytes()).len() ==> node_line_ok(
                #[trigger] lines(content.spec_bytes())[i],
            ),
{
    let all = split_lines(content.as_bytes());
    let ghost ls = lines(content.spec_bytes());
    let prefix: [u8; 5] = [0x4eu8, 0x6fu8, 0x64u8, 0x65u8, 0x20u8];
    assert(prefix@ =~= node_prefix());
    let mut i: usize = 0;
    while i < all.len()
        invariant
            i <= all@.len(),
            views(all@) == ls,
            ls == lines(content.spec_bytes()),
            prefix@ == node_prefix(),
            forall|k: int| 0 <= k < i ==> node_line_ok(#[trigger] ls[k]),
        decreases all@.len() - i,
    {
        let line = all[i];
        assert(line@ == ls[i as int]);
        if starts_with(line, prefix.as_slice()) {
            let rest = &line[5..line.len()];
            assert(rest@ =~= line@.subrange(5, line@.len() as int));
            let ws = split_words(rest, 0x2cu8);
            if ws.len() < 3 {
                assert(!node_line_ok(ls[i as int]));
                return false;
            }
        }
        i = i + 1;
    }
    true
}

/// Parses /proc/zoneinfo into its zones, in the order of the file. A counter
/// whose value is not an `i64` is none; the text before the first zone header
/// counts for the first zone.
pub fn parse_zoneinfo(content: &str) -> (r: Result<Vec<ZoneInfo<'_>>, Error>)
    requires
        forall|i: int|
            0 <= i < lines(content.spec_bytes()).len() ==> node_line_ok(
                #[trigger] lines(content.spec_bytes())[i],
            ),
    ensures
        match r {
            Ok(v) => zone_views(v@) == zone_infos(content.spec_bytes()),
            Err(_) => false,
        },
{
    let all = split_lines(content.as_bytes());
    let ghost ls = lines(content.spec_bytes());
    let mut infos: Vec<ZoneInfo> = Vec::new();
    let mut info = ZoneInfo::new();
    let mut i: usize = 0;
    proof {
        assert(zone_views(infos@) =~= Seq::<ZoneInfoModel>::empty());
    }
    while i < all.len()
        invariant
            i <= all@.len(),
            views(all@) == ls,
            ls == lines(content.spec_bytes()),
            forall|k: int| 0 <= k < ls.len() ==> node_line_ok(#[trigger] ls[k]),
            zone_scan(ls, i as nat) == (ZoneScan { infos: zone_views(infos@), cur: info@ }),
        decreases all@.len() - i,
    {
        let line = all[i];
        assert(line@ == ls[i as int]);
        let (next_infos, next_info) = zone_line(infos, info, line);
        infos = next_infos;
        info = next_info;
        i = i + 1;
    }
    let ghost before = infos@;
    infos.push(info);
    assert(zone_views(infos@) =~= zone_views(before).push(info@));
    Ok(infos)
}

/// The name, description and kind of the sample of counter slot `k`.
pub open spec fn zone_metric(k: int) -> (&'static str, &'static str, Kind) {
    if k == 0 {
        ("node_zoneinfo_nr_free_pages", "Total number of free pages in the zone", Kind::Gauge)
    } else if k == 1 {
        ("node_zoneinfo_min_pages", "Zone watermark pages_min", Kind::Gauge)
    } else if k == 2 {
        ("node_zoneinfo_low_pages", "Zone watermark pages_low", Kind::Gauge)
    } else if k == 3 {
        ("node_zoneinfo_high_pages", "Zone watermark pages_high", Kind::Gauge)
    } else if k == 4 {
        ("node_zoneinfo_scanned_pages", "Pages scanned since last reclaim", Kind::Gauge)
    } else if k == 5 {
        ("node_zoneinfo_spanned_pages", "Total pages spanned by the zone, including holes", Kind::Gauge)
    } else if k == 6 {
        ("node_zoneinfo_present_pages", "Physical pages existing within the zone", Kind::Gauge)
    } else if k == 7 {
        ("node_zoneinfo_managed_pages", "Present pages managed by the buddy system", Kind::Gauge)
    } else if k == 8 {
        ("node_zoneinfo_nr_active_anon_pages", "Number of anonymous pages recently more used", Kind::Gauge)
    } else if k == 9 {
        ("node_zoneinfo_nr_inactive_anon_pages", "Number of anonymous pages recently less used", Kind::Gauge)
    } else if k == 10 {
        ("node_zoneinfo_nr_isolated_anon_pages", "Temporary isolated pages from anon lru", Kind::Gauge)
    } else if k == 11 {
        ("node_zoneinfo_nr_anon_pages", "Number of anonymous pages currently used by the system", Kind::Gauge)
    } else if k == 12 {
        ("node_zoneinfo_nr_anon_transparent_hugepages", "Number of anonymous transparent huge pages currently used by the system", Kind::Gauge)
    } else if k == 13 {
        ("node_zoneinfo_nr_active_file_pages", "Number of active pages with file-backing", Kind::Gauge)
    } else if k == 14 {
        ("node_zoneinfo_nr_inactive_file_pages", "Number of inactive pages with file-backing", Kind::Gauge)
    } else if k == 15 {
        ("node_zoneinfo_nr_isolated_file_pages", "Temporary isolated pages from file lru", Kind::Gauge)
    } else if k == 16 {
        ("node_zoneinfo_nr_file_pages", "Number of file pages", Kind::Gauge)
    } else if k == 17 {
        ("node_zoneinfo_nr_slab_reclaimable_pages", "Number of reclaimable slab pages", Kind::Gauge)
    } else if k == 18 {
        ("node_zoneinfo_nr_slab_unreclaimable_pages", "Number of unreclaimable slab pages", Kind::Gauge)
    } else if k == 19 {
        ("node_zoneinfo_nr_mlock_stack_pages", "mlock()ed pages found and moved off LRU", Kind::Gauge)
    } else if k == 20 {
        ("node_zoneinfo_nr_kernel_stacks", "Number of kernel stacks", Kind::Gauge)
    } else if k == 21 {
        ("node_zoneinfo_nr_mapped_pages", "Number of mapped pages", Kind::Gauge)
    } else if k == 22 {
        ("node_zoneinfo_nr_dirty_pages", "Number of dirty pages", Kind::Gauge)
    } else if k == 23 {
        ("node_zoneinfo_nr_writeback_pages", "Number of writeback pages", Kind::Gauge)
    } else if k == 24 {
        ("node_zoneinfo_nr_unevictable_pages", "Number of unevictable pages", Kind::Gauge)
    } else if k == 25 {
        ("node_zoneinfo_nr_shmem_pages", "Number of shmem pages (included tmpfs/GEM pages)", Kind::Gauge)
    } else if k == 26 {
        ("node_zoneinfo_nr_dirtied_total", "Page dirtyings since bootup", Kind::Sum)
    } else if k == 27 {
        ("node_zoneinfo_nr_written_total", "Page writings since bootup", Kind::Sum)
    } else if k == 28 {
        ("node_zoneinfo_numa_hit_total", "Allocated in intended node", Kind::Sum)
    } else if k == 29 {
        ("node_zoneinfo_numa_miss_total", "Allocated in non intended node", Kind::Sum)
    } else if k == 30 {
        ("node_zoneinfo_numa_foreign_total", "Was intended here, hit elsewhere", Kind::Sum)
    } else if k == 31 {
        ("node_zoneinfo_numa_interleave_total", "Interleaver preferred this zone", Kind::Sum)
    } else if k == 32 {
        ("node_zoneinfo_numa_local_total", "Allocation from local node", Kind::Sum)
    } else {
        ("node_zoneinfo_numa_other_total", "Allocation from other node", Kind::Sum)
    }
}

fn zone_metric_exec(k: usize) -> (r: (&'static str, &'static str, Kind))
    requires
        k < 34,
    ensures
        r == zone_metric(k as int),
{
    if k == 0 {
        ("node_zoneinfo_nr_free_pages", "Total number of free pages in the zone", Kind::Gauge)
    } else if k == 1 {
        ("node_zoneinfo_min_pages", "Zone watermark pages_min", Kind::Gauge)
    } else if k == 2 {
        ("node_zoneinfo_low_pages", "Zone watermark pages_low", Kind::Gauge)
    } else if k == 3 {
        ("node_zoneinfo_high_pages", "Zone watermark pages_high", Kind::Gauge)
    } else if k == 4 {
        ("node_zoneinfo_scanned_pages", "Pages scanned since last reclaim", Kind::Gauge)
    } else if k == 5 {
        ("node_zoneinfo_spanned_pages", "Total pages spanned by the zone, including holes", Kind::Gauge)
    } else if k == 6 {
        ("node_zoneinfo_present_pages", "Physical pages existing within the zone", Kind::Gauge)
    } else if k == 7 {
        ("node_zoneinfo_managed_pages", "Present pages managed by the buddy system", Kind::Gauge)
    } else if k == 8 {
        ("node_zoneinfo_nr_active_anon_pages", "Number of anonymous pages recently more used", Kind::Gauge)
    } else if k == 9 {
        ("node_zoneinfo_nr_inactive_anon_pages", "Number of anonymous pages recently less used", Kind::Gauge)
    } else if k == 10 {
        ("node_zoneinfo_nr_isolated_anon_pages", "Temporary isolated pages from anon lru", Kind::Gauge)
    } else if k == 11 {
        ("node_zoneinfo_nr_anon_pages", "Number of anonymous pages currently used by the system", Kind::Gauge)
    } else if k == 12 {
        ("node_zoneinfo_nr_anon_transparent_hugepages", "Number of anonymous transparent huge pages currently used by the system", Kind::Gauge)
    } else if k == 13 {
        ("node_zoneinfo_nr_active_file_pages", "Number of active pages with file-backing", Kind::Gauge)
    } else if k == 14 {
        ("node_zoneinfo_nr_inactive_file_pages", "Number of inactive pages with file-backing", Kind::Gauge)
    } else if k == 15 {
        ("node_zoneinfo_nr_isolated_file_pages", "Temporary isolated pages from file lru", Kind::Gauge)
    } else if k == 16 {
        ("node_zoneinfo_nr_file_pages", "Number of file pages", Kind::Gauge)
    } else if k == 17 {
        ("node_zoneinfo_nr_slab_reclaimable_pages", "Number of reclaimable slab pages", Kind::Gauge)
    } else if k == 18 {
        ("node_zoneinfo_nr_slab_unreclaimable_pages", "Number of unreclaimable slab pages", Kind::Gauge)
    } else if k == 19 {
        ("node_zoneinfo_nr_mlock_stack_pages", "mlock()ed pages found and moved off LRU", Kind::Gauge)
    } else if k == 20 {
        ("node_zoneinfo_nr_kernel_stacks", "Number of kernel stacks", Kind::Gauge)
    } else if k == 21 {
        ("node_zoneinfo_nr_mapped_pages", "Number of mapped pages", Kind::Gauge)
    } else if k == 22 {
        ("node_zoneinfo_nr_dirty_pages", "Number of dirty pages", Kind::Gauge)
    } else if k == 23 {
        ("node_zoneinfo_nr_writeback_pages", "Number of writeback pages", Kind::Gauge)
    } else if k == 24 {
        ("node_zoneinfo_nr_unevictable_pages", "Number of unevictable pages", Kind::Gauge)
    } else if k == 25 {
        ("node_zoneinfo_nr_shmem_pages", "Number of shmem pages (included tmpfs/GEM pages)", Kind::Gauge)
    } else if k == 26 {
        ("node_zoneinfo_nr_dirtied_total", "Page dirtyings since bootup", Kind::Sum)
    } else if k == 27 {
        ("node_zoneinfo_nr_written_total", "Page writings since bootup", Kind::Sum)
    } else if k == 28 {
        ("node_zoneinfo_numa_hit_total", "Allocated in intended node", Kind::Sum)
    } else if k == 29 {
        ("node_zoneinfo_numa_miss_total", "Allocated in non intended node", Kind::Sum)
    } else if k == 30 {
        ("node_zoneinfo_numa_foreign_total", "Was intended here, hit elsewhere", Kind::Sum)
    } else if k == 31 {
        ("node_zoneinfo_numa_interleave_total", "Interleaver preferred this zone", Kind::Sum)
    } else if k == 32 {
        ("node_zoneinfo_numa_local_total", "Allocation from local node", Kind::Sum)
    } else {
        ("node_zoneinfo_numa_other_total", "Allocation from other node", Kind::Sum)
    }
}

fn counter_exec(c: &ZoneCounters, k: usize) -> (r: Option<i64>)
    requires
        k < 34,
    ensures
        r == c.get(k as int),
{
    if k == 0 {
        c.nr_free_pages
    } else if k == 1 {
        c.min
    } else if k == 2 {
        c.low
    } else if k == 3 {
        c.high
    } else if k == 4 {
        c.scanned
    } else if k == 5 {
        c.spanned
    } else if k == 6 {
        c.present
    } else if k == 7 {
        c.managed
    } else if k == 8 {
        c.nr_active_anon
    } else if k == 9 {
        c.nr_inactive_anon
    } else if k == 10 {
        c.nr_isolated_anon
    } else if k == 11 {
        c.nr_anon_pages
    } else if k == 12 {
        c.nr_anon_transparent_hugepages
    } else if k == 13 {
        c.nr_active_file
    } else if k == 14 {
        c.nr_inactive_file
    } else if k == 15 {
        c.nr_isolated_file
    } else if k == 16 {
        c.nr_file_pages
    } else if k == 17 {
        c.nr_slab_reclaimable
    } else if k == 18 {
        c.nr_slab_unreclaimable
    } else if k == 19 {
        c.nr_mlock_stack
    } else if k == 20 {
        c.nr_kernel_stack
    } else if k == 21 {
        c.nr_mapped
    } else if k == 22 {
        c.nr_dirty
    } else if k == 23 {
        c.nr_writeback
    } else if k == 24 {
        c.nr_unevictable
    } else if k == 25 {
        c.nr_shmem
    } else if k == 26 {
        c.nr_dirtied
    } else if k == 27 {
        c.nr_written
    } else if k == 28 {
        c.numa_hit
    } else if k == 29 {
        c.numa_miss
    } else if k == 30 {
        c.numa_foreign
    } else if k == 31 {
        c.numa_interleave
    } else if k == 32 {
        c.numa_local
    } else {
        c.numa_other
    }
}

/// The sample of counter slot `k` of a zone, with value `v`.
pub open spec fn zone_sample(node: Seq<u8>, zone: Seq<u8>, k: int, v: i64) -> SampleModel {
    SampleModel {
        name: zone_metric(k).0,
        description: zone_metric(k).1,
        kind: zone_metric(k).2,
        value: v as int,
        tags: seq![("node", TagModel::Field(node)), ("zone", TagModel::Field(zone))],
    }
}

/// The samples of the counters in slots below `n` that the zone reports,
/// in slot order.
pub open spec fn zone_samples_upto(z: ZoneInfoModel, n: nat) -> Seq<SampleModel>
    decreases n,
{
    if n == 0 {
        Seq::empty()
    } else {
        let before = zone_samples_upto(z, (n - 1) as nat);
        match z.counters.get(n - 1) {
            Some(v) => before.push(zone_sample(z.node, z.zone, n - 1, v)),
            None => before,
        }
    }
}

/// The samples of a zone's counters: one for each counter it reports,
/// labelled with the node and the zone.
pub open spec fn zone_samples_spec(z: ZoneInfoModel) -> Seq<SampleModel> {
    zone_samples_upto(z, 34)
}

/// The samples of a zone's counters.
pub fn zone_samples<'a>(info: &ZoneInfo<'a>) -> (r: Vec<Sample<'a>>)
    ensures
        samples_view(r@) == zone_samples_spec(info@),
{
    let mut out: Vec<Sample<'a>> = Vec::new();
    let mut k: usize = 0;
    assert(samples_view(out@) =~= Seq::<SampleModel>::empty());
    while k < 34
        invariant
            k <= 34,
            samples_view(out@) == zone_samples_upto(info@, k as nat),
        decreases 34 - k,
    {
        match counter_exec(&info.counters, k) {
            Some(v) => {
                let (name, description, kind) = zone_metric_exec(k);
                let ghost before = out@;
                out.push(
                    Sample {
                        name,
                        description,
                        kind,
                        value: v as i128,
                        tags: two_tags("node", TagValue::Field(info.node), "zone", TagValue::Field(info.zone)),
                    },
                );
                assert(samples_view(out@) =~= samples_view(before).push(
                    zone_sample(info.node@, info.zone@, k as int, v),
                ));
            },
            None => {},
        }
        k = k + 1;
    }
    out
}

} // verus!
