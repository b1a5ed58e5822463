//! XFS runtime statistics from /proc/fs/xfs/stat and
//! /sys/fs/xfs/<device>/stats/stats.
//!
//! Names and meanings follow http://xfs.org/index.php/Runtime_Stats and
//! xfs_stats.h; most counters are 32-bit, the extended precision ones 64-bit.

use vstd::prelude::*;
use vstd::string::StringSliceAdditionalSpecFns;

use super::Error;
use crate::metric::{one_tag, samples_view, Kind, Sample, SampleModel, TagModel, TagValue};
use crate::text::{dec_u32, dec_u64, fields, is_word, lines, parse_u32, parse_u64, split_ascii_ws, split_lines, views};

verus! {

/// How many counts a line with fields `f` offers to a record of `k`: at
/// most `k` of those after the label.
pub open spec fn run_len(f: Seq<Seq<u8>>, k: nat) -> nat {
    if f.len() - 1 < k {
        (f.len() - 1) as nat
    } else {
        k
    }
}

/// The offered counts are all `u32`.
pub open spec fn run_ok_u32(f: Seq<Seq<u8>>, k: nat) -> bool {
    forall|j: int| 0 <= j < run_len(f, k) ==> (#[trigger] dec_u32(f[1 + j])) is Some
}

/// The offered counts, read as `u32`.
pub open spec fn run_u32(f: Seq<Seq<u8>>, k: nat) -> Seq<u32> {
    Seq::new(run_len(f, k), |j: int| dec_u32(f[1 + j]).unwrap())
}

/// The offered counts are all `u64`.
pub open spec fn run_ok_u64(f: Seq<Seq<u8>>, k: nat) -> bool {
    forall|j: int| 0 <= j < run_len(f, k) ==> (#[trigger] dec_u64(f[1 + j])) is Some
}

/// The offered counts, read as `u64`.
pub open spec fn run_u64(f: Seq<Seq<u8>>, k: nat) -> Seq<u64> {
    Seq::new(run_len(f, k), |j: int| dec_u64(f[1 + j]).unwrap())
}

/// Reads up to `k` counts after the label; the first that is not a `u32`
/// fails the line.
pub fn read_run_u32(parts: &Vec<&[u8]>, k: usize) -> (r: Result<Vec<u32>, Error>)
    requires
        parts@.len() >= 1,
    ensures
        ({
            let f = views(parts@);
            match r {
                Ok(v) => run_ok_u32(f, k as nat) && v@ == run_u32(f, k as nat),
                Err(e) => !run_ok_u32(f, k as nat) && e == Error::ParseInt,
            }
        }),
{
    let ghost f = views(parts@);
    let n = if parts.len() - 1 < k {
        parts.len() - 1
    } else {
        k
    };
    let mut values: Vec<u32> = Vec::new();
    let mut j: usize = 0;
    while j < n
        invariant
            n == run_len(f, k as nat),
            f == views(parts@),
            j <= n,
            n < parts@.len(),
            forall|i: int| 0 <= i < j ==> (#[trigger] dec_u32(f[1 + i])) is Some,
            values@ == Seq::new(j as nat, |i: int| dec_u32(f[1 + i]).unwrap()),
        decreases n - j,
    {
        assert(parts@[1 + j as int]@ == f[1 + j]);
        match parse_u32(parts[1 + j]) {
            Some(v) => {
                values.push(v);
            },
            None => {
                return Err(Error::ParseInt);
            },
        }
        j = j + 1;
        proof {
            assert(values@ =~= Seq::new(j as nat, |i: int| dec_u32(f[1 + i]).unwrap()));
        }
    }
    Ok(values)
}

/// `read_run_u32` for 64-bit counts.
pub fn read_run_u64(parts: &Vec<&[u8]>, k: usize) -> (r: Result<Vec<u64>, Error>)
    requires
        parts@.len() >= 1,
    ensures
        ({
            let f = views(parts@);
            match r {
                Ok(v) => run_ok_u64(f, k as nat) && v@ == run_u64(f, k as nat),
                Err(e) => !run_ok_u64(f, k as nat) && e == Error::ParseInt,
            }
        }),
{
    let ghost f = views(parts@);
    let n = if parts.len() - 1 < k {
        parts.len() - 1
    } else {
        k
    };
    let mut values: Vec<u64> = Vec::new();
    let mut j: usize = 0;
    while j < n
        invariant
            n == run_len(f, k as nat),
            f == views(parts@),
            j <= n,
            n < parts@.len(),
            forall|i: int| 0 <= i < j ==> (#[trigger] dec_u64(f[1 + i])) is Some,
            values@ == Seq::new(j as nat, |i: int| dec_u64(f[1 + i]).unwrap()),
        decreases n - j,
    {
        assert(parts@[1 + j as int]@ == f[1 + j]);
        match parse_u64(parts[1 + j]) {
            Some(v) => {
                values.push(v);
            },
            None => {
                return Err(Error::ParseInt);
            },
        }
        j = j + 1;
        proof {
            assert(values@ =~= Seq::new(j as nat, |i: int| dec_u64(f[1 + i]).unwrap()));
        }
    }
    Ok(values)
}

/// Extent allocation: the "extent_alloc" line.
#[derive(Debug, PartialEq, Eq)]
pub struct ExtentAllocationStats {
    pub extents_allocated: u32,
    pub blocks_allocated: u32,
    pub extents_freed: u32,
    pub blocks_freed: u32,
}

/// Operations on a B+tree: the "abt" (allocation) and "bmbt" (block map) lines.
#[derive(Debug, PartialEq, Eq)]
pub struct BTreeStats {
    pub lookups: u32,
    pub compares: u32,
    pub records_inserted: u32,
    pub records_deleted: u32,
}

/// Block mapping: the "blk_map" line.
#[derive(Debug, PartialEq, Eq)]
pub struct BlockMappingStats {
    pub reads: u32,
    pub writes: u32,
    pub unmaps: u32,
    pub extent_list_insertions: u32,
    pub extent_list_deletions: u32,
    pub extent_list_lookups: u32,
    pub extent_list_compares: u32,
}

/// Directory operations: the "dir" line.
#[derive(Debug, PartialEq, Eq)]
pub struct DirectoryOperationStats {
    pub lookups: u32,
    pub creates: u32,
    pub removes: u32,
    pub getdents: u32,
}

/// Transactions: the "trans" line.
#[derive(Debug, PartialEq, Eq)]
pub struct TransactionStats {
    pub synchronous: u32,
    pub asynchronous: u32,
    pub empty: u32,
}

/// Inode operations: the "ig" line.
#[derive(Debug, PartialEq, Eq)]
pub struct InodeOperationStats {
    pub attempts: u32,
    pub found: u32,
    pub recycle: u32,
    pub missed: u32,
    pub duplicate: u32,
    pub reclaims: u32,
    pub attribute_change: u32,
}

/// Bytes flushed, written and read: the "xpc" line.
#[derive(Debug, PartialEq, Eq)]
pub struct ExtendedPrecisionStats {
    pub flush_bytes: u64,
    pub write_bytes: u64,
    pub read_bytes: u64,
}

/// read(2) and write(2) calls: the "rw" line.
#[derive(Debug, PartialEq, Eq)]
pub struct ReadWriteStats {
    pub write: u32,
    pub read: u32,
}

/// Vnode operations: the "vnodes" line.
#[derive(Debug, PartialEq, Eq)]
pub struct VnodeStats {
    pub active: u32,
    pub allocate: u32,
    pub get: u32,
    pub hold: u32,
    pub release: u32,
    pub reclaim: u32,
    pub remove: u32,
    pub free: u32,
}

/// The statistics of one XFS filesystem.
#[derive(Debug, PartialEq, Eq)]
pub struct Stats {
    pub extent_allocation: ExtentAllocationStats,
    pub allocation_btree: BTreeStats,
    pub block_mapping: BlockMappingStats,
    pub block_map_btree: BTreeStats,
    pub directory_operation: DirectoryOperationStats,
    pub transaction: TransactionStats,
    pub inode_operation: InodeOperationStats,
    pub read_write: ReadWriteStats,
    pub vnode: VnodeStats,
    pub extended_precision: ExtendedPrecisionStats,
}

/// `extent_alloc`
pub open spec fn label_extent_alloc() -> Seq<u8> {
    seq![0x65u8, 0x78u8, 0x74u8, 0x65u8, 0x6eu8, 0x74u8, 0x5fu8, 0x61u8, 0x6cu8, 0x6cu8, 0x6fu8, 0x63u8]
}

/// `abt`
pub open spec fn label_abt() -> Seq<u8> {
    seq![0x61u8, 0x62u8, 0x74u8]
}

/// `blk_map`
pub open spec fn label_blk_map() -> Seq<u8> {
    seq![0x62u8, 0x6cu8, 0x6bu8, 0x5fu8, 0x6du8, 0x61u8, 0x70u8]
}

/// `bmbt`
pub open spec fn label_bmbt() -> Seq<u8> {
    seq![0x62u8, 0x6du8, 0x62u8, 0x74u8]
}

/// `dir`
pub open spec fn label_dir() -> Seq<u8> {
    seq![0x64u8, 0x69u8, 0x72u8]
}

/// `trans`
pub open spec fn label_trans() -> Seq<u8> {
    seq![0x74u8, 0x72u8, 0x61u8, 0x6eu8, 0x73u8]
}

/// `ig`
pub open spec fn label_ig() -> Seq<u8> {
    seq![0x69u8, 0x67u8]
}

/// `xpc`
pub open spec fn label_xpc() -> Seq<u8> {
    seq![0x78u8, 0x70u8, 0x63u8]
}

/// `rw`
pub open spec fn label_rw() -> Seq<u8> {
    seq![0x72u8, 0x77u8]
}

/// `vnodes`
pub open spec fn label_vnodes() -> Seq<u8> {
    seq![0x76u8, 0x6eu8, 0x6fu8, 0x64u8, 0x65u8, 0x73u8]
}

impl Stats {
    pub open spec fn zero() -> Stats {
        Stats { extent_allocation: ExtentAllocationStats { extents_allocated: 0, blocks_allocated: 0, extents_freed: 0, blocks_freed: 0 }, allocation_btree: BTreeStats { lookups: 0, compares: 0, records_inserted: 0, records_deleted: 0 }, block_mapping: BlockMappingStats { reads: 0, writes: 0, unmaps: 0, extent_list_insertions: 0, extent_list_deletions: 0, extent_list_lookups: 0, extent_list_compares: 0 }, block_map_btree: BTreeStats { lookups: 0, compares: 0, records_inserted: 0, records_deleted: 0 }, directory_operation: DirectoryOperationStats { lookups: 0, creates: 0, removes: 0, getdents: 0 }, transaction: TransactionStats { synchronous: 0, asynchronous: 0, empty: 0 }, inode_operation: InodeOperationStats { attempts: 0, found: 0, recycle: 0, missed: 0, duplicate: 0, reclaims: 0, attribute_change: 0 }, read_write: ReadWriteStats { write: 0, read: 0 }, vnode: VnodeStats { active: 0, allocate: 0, get: 0, hold: 0, release: 0, reclaim: 0, remove: 0, free: 0 }, extended_precision: ExtendedPrecisionStats { flush_bytes: 0, write_bytes: 0, read_bytes: 0 } }
    }

    pub fn new() -> (r: Stats)
        ensures
            r == Stats::zero(),
    {
        Stats { extent_allocation: ExtentAllocationStats { extents_allocated: 0, blocks_allocated: 0, extents_freed: 0, blocks_freed: 0 }, allocation_btree: BTreeStats { lookups: 0, compares: 0, records_inserted: 0, records_deleted: 0 }, block_mapping: BlockMappingStats { reads: 0, writes: 0, unmaps: 0, extent_list_insertions: 0, extent_list_deletions: 0, extent_list_lookups: 0, extent_list_compares: 0 }, block_map_btree: BTreeStats { lookups: 0, compares: 0, records_inserted: 0, records_deleted: 0 }, directory_operation: DirectoryOperationStats { lookups: 0, creates: 0, removes: 0, getdents: 0 }, transaction: TransactionStats { synchronous: 0, asynchronous: 0, empty: 0 }, inode_operation: InodeOperationStats { attempts: 0, found: 0, recycle: 0, missed: 0, duplicate: 0, reclaims: 0, attribute_change: 0 }, read_write: ReadWriteStats { write: 0, read: 0 }, vnode: VnodeStats { active: 0, allocate: 0, get: 0, hold: 0, release: 0, reclaim: 0, remove: 0, free: 0 }, extended_precision: ExtendedPrecisionStats { flush_bytes: 0, write_bytes: 0, read_bytes: 0 } }
    }

    /// The statistics after reading one more line: a known label replaces
    /// its record by up to as many counts as the record has (for "vnodes",
    /// seven or eight); a count that is not a number fails the line, and so
    /// do too few counts. Unknown labels and empty lines change nothing.
    #[verifier::opaque]
    pub open spec fn apply_line(st: Stats, line: Seq<u8>) -> Result<Stats, Error> {
        let f = fields(line);
        if f.len() == 0 {
            Ok(st)
        } else if f[0] == label_extent_alloc() {
            if !run_ok_u32(f, 4) {
                Err(Error::ParseInt)
            } else {
                let v = run_u32(f, 4);
                if v.len() != 4 {
                    Err(Error::Malformed("extent_alloc line of stat file"))
                } else {
                    Ok(Stats { extent_allocation: ExtentAllocationStats { extents_allocated: v[0], blocks_allocated: v[1], extents_freed: v[2], blocks_freed: v[3] }, ..st })
                }
            }
        } else if f[0] == label_abt() {
            if !run_ok_u32(f, 4) {
                Err(Error::ParseInt)
            } else {
                let v = run_u32(f, 4);
                if v.len() != 4 {
                    Err(Error::Malformed("abt line of stat file"))
                } else {
                    Ok(Stats { allocation_btree: BTreeStats { lookups: v[0], compares: v[1], records_inserted: v[2], records_deleted: v[3] }, ..st })
                }
            }
        } else if f[0] == label_blk_map() {
            if !run_ok_u32(f, 7) {
                Err(Error::ParseInt)
            } else {
                let v = run_u32(f, 7);
                if v.len() != 7 {
                    Err(Error::Malformed("blk_map line of stat file"))
                } else {
                    Ok(Stats { block_mapping: BlockMappingStats { reads: v[0], writes: v[1], unmaps: v[2], extent_list_insertions: v[3], extent_list_deletions: v[4], extent_list_lookups: v[5], extent_list_compares: v[6] }, ..st })
                }
            }
        } else if f[0] == label_bmbt() {
            if !run_ok_u32(f, 4) {
                Err(Error::ParseInt)
            } else {
                let v = run_u32(f, 4);
                if v.len() != 4 {
                    Err(Error::Malformed("bmbt line of stat file"))
                } else {
                    Ok(Stats { block_map_btree: BTreeStats { lookups: v[0], compares: v[1], records_inserted: v[2], records_deleted: v[3] }, ..st })
                }
            }
        } else if f[0] == label_dir() {
            if !run_ok_u32(f, 4) {
                Err(Error::ParseInt)
            } else {
                let v = run_u32(f, 4);
                if v.len() != 4 {
                    Err(Error::Malformed("dir line of stat file"))
                } else {
                    Ok(Stats { directory_operation: DirectoryOperationStats { lookups: v[0], creates: v[1], removes: v[2], getdents: v[3] }, ..st })
                }
            }
        } else if f[0] == label_trans() {
            if !run_ok_u32(f, 3) {
                Err(Error::ParseInt)
            } else {
                let v = run_u32(f, 3);
                if v.len() != 3 {
                    Err(Error::Malformed("trans line of stat file"))
                } else {
                    Ok(Stats { transaction: TransactionStats { synchronous: v[0], asynchronous: v[1], empty: v[2] }, ..st })
                }
            }
        } else if f[0] == label_ig() {
            if !run_ok_u32(f, 7) {
                Err(Error::ParseInt)
            } else {
                let v = run_u32(f, 7);
                if v.len() != 7 {
                    Err(Error::Malformed("trans line of stat file"))
                } else {
                    Ok(Stats { inode_operation: InodeOperationStats { attempts: v[0], found: v[1], recycle: v[2], missed: v[3], duplicate: v[4], reclaims: v[5], attribute_change: v[6] }, ..st })
                }
            }
        } else if f[0] == label_xpc() {
            if !run_ok_u64(f, 3) {
                Err(Error::ParseInt)
            } else {
                let v = run_u64(f, 3);
                if v.len() != 3 {
                    Err(Error::Malformed("xpc line of stat file"))
                } else {
                    Ok(Stats { extended_precision: ExtendedPrecisionStats { flush_bytes: v[0], write_bytes: v[1], read_bytes: v[2] }, ..st })
                }
            }
        } else if f[0] == label_rw() {
            if !run_ok_u32(f, 2) {
                Err(Error::ParseInt)
            } else {
                let v = run_u32(f, 2);
                if v.len() != 2 {
                    Err(Error::Malformed("rw line of stat file"))
                } else {
                    Ok(Stats { read_write: ReadWriteStats { write: v[0], read: v[1] }, ..st })
                }
            }
        } else if f[0] == label_vnodes() {
            if !run_ok_u32(f, 8) {
                Err(Error::ParseInt)
            } else {
                let v = run_u32(f, 8);
                if v.len() < 7 {
                    Err(Error::Malformed("vnodes line of stat file"))
                } else {
                    Ok(Stats { vnode: VnodeStats { active: v[0], allocate: v[1], get: v[2], hold: v[3], release: v[4], reclaim: v[5], remove: v[6], free: if v.len() == 8 { v[7] } else { st.vnode.free } }, ..st })
                }
            }
        } else {
            Ok(st)
        }
    }

    /// The statistics that the first `n` lines give.
    pub open spec fn from_lines(ls: Seq<Seq<u8>>, n: nat) -> Result<Stats, Error>
        decreases n,
    {
        if n == 0 || n > ls.len() {
            Ok(Stats::zero())
        } else {
            match Stats::from_lines(ls, (n - 1) as nat) {
                Ok(st) => Stats::apply_line(st, ls[n - 1]),
                Err(e) => Err(e),
            }
        }
    }
}

/// Reads one more line of an XFS stat file into `stats`.
pub fn apply_stat_line(stats: Stats, line: &[u8]) -> (r: Result<Stats, Error>)
    ensures
        r == Stats::apply_line(stats, line@),
{
    reveal(Stats::apply_line);
    let mut stats = stats;
    let parts = split_ascii_ws(line);
    if parts.len() == 0 {
        return Ok(stats);
    }
    let label = parts[0];
    proof {
        assert([0x65u8, 0x78u8, 0x74u8, 0x65u8, 0x6eu8, 0x74u8, 0x5fu8, 0x61u8, 0x6cu8, 0x6cu8, 0x6fu8, 0x63u8]@ =~= label_extent_alloc());
        assert([0x61u8, 0x62u8, 0x74u8]@ =~= label_abt());
        assert([0x62u8, 0x6cu8, 0x6bu8, 0x5fu8, 0x6du8, 0x61u8, 0x70u8]@ =~= label_blk_map());
        assert([0x62u8, 0x6du8, 0x62u8, 0x74u8]@ =~= label_bmbt());
        assert([0x64u8, 0x69u8, 0x72u8]@ =~= label_dir());
        assert([0x74u8, 0x72u8, 0x61u8, 0x6eu8, 0x73u8]@ =~= label_trans());
        assert([0x69u8, 0x67u8]@ =~= label_ig());
        assert([0x78u8, 0x70u8, 0x63u8]@ =~= label_xpc());
        assert([0x72u8, 0x77u8]@ =~= label_rw());
        assert([0x76u8, 0x6eu8, 0x6fu8, 0x64u8, 0x65u8, 0x73u8]@ =~= label_vnodes());
    }
    if is_word(label, &[0x65u8, 0x78u8, 0x74u8, 0x65u8, 0x6eu8, 0x74u8, 0x5fu8, 0x61u8, 0x6cu8, 0x6cu8, 0x6fu8, 0x63u8]) {
        match read_run_u32(&parts, 4) {
            Ok(v) => {
                if v.len() != 4 {
                    return Err(Error::Malformed("extent_alloc line of stat file"));
                }
                stats.extent_allocation.extents_allocated = v[0];
                stats.extent_allocation.blocks_allocated = v[1];
                stats.extent_allocation.extents_freed = v[2];
                stats.extent_allocation.blocks_freed = v[3];
            },
            Err(e) => return Err(e),
        }
    } else if is_word(label, &[0x61u8, 0x62u8, 0x74u8]) {
        match read_run_u32(&parts, 4) {
            Ok(v) => {
                if v.len() != 4 {
                    return Err(Error::Malformed("abt line of stat file"));
                }
                stats.allocation_btree.lookups = v[0];
                stats.allocation_btree.compares = v[1];
                stats.allocation_btree.records_inserted = v[2];
                stats.allocation_btree.records_deleted = v[3];
            },
            Err(e) => return Err(e),
        }
    } else if is_word(label, &[0x62u8, 0x6cu8, 0x6bu8, 0x5fu8, 0x6du8, 0x61u8, 0x70u8]) {
        match read_run_u32(&parts, 7) {
            Ok(v) => {
                if v.len() != 7 {
                    return Err(Error::Malformed("blk_map line of stat file"));
                }
                stats.block_mapping.reads = v[0];
                stats.block_mapping.writes = v[1];
                stats.block_mapping.unmaps = v[2];
                stats.block_mapping.extent_list_insertions = v[3];
                stats.block_mapping.extent_list_deletions = v[4];
                stats.block_mapping.extent_list_lookups = v[5];
                stats.block_mapping.extent_list_compares = v[6];
            },
            Err(e) => return Err(e),
        }
    } else if is_word(label, &[0x62u8, 0x6du8, 0x62u8, 0x74u8]) {
        match read_run_u32(&parts, 4) {
            Ok(v) => {
                if v.len() != 4 {
                    return Err(Error::Malformed("bmbt line of stat file"));
                }
                stats.block_map_btree.lookups = v[0];
                stats.block_map_btree.compares = v[1];
                stats.block_map_btree.records_inserted = v[2];
                stats.block_map_btree.records_deleted = v[3];
            },
            Err(e) => return Err(e),
        }
    } else if is_word(label, &[0x64u8, 0x69u8, 0x72u8]) {
        match read_run_u32(&parts, 4) {
            Ok(v) => {
                if v.len() != 4 {
                    return Err(Error::Malformed("dir line of stat file"));
                }
                stats.directory_operation.lookups = v[0];
                stats.directory_operation.creates = v[1];
                stats.directory_operation.removes = v[2];
                stats.directory_operation.getdents = v[3];
            },
            Err(e) => return Err(e),
        }
    } else if is_word(label, &[0x74u8, 0x72u8, 0x61u8, 0x6eu8, 0x73u8]) {
        match read_run_u32(&parts, 3) {
            Ok(v) => {
                if v.len() != 3 {
                    return Err(Error::Malformed("trans line of stat file"));
                }
                stats.transaction.synchronous = v[0];
                stats.transaction.asynchronous = v[1];
                stats.transaction.empty = v[2];
            },
            Err(e) => return Err(e),
        }
    } else if is_word(label, &[0x69u8, 0x67u8]) {
        match read_run_u32(&parts, 7) {
            Ok(v) => {
                if v.len() != 7 {
                    return Err(Error::Malformed("trans line of stat file"));
                }
                stats.inode_operation.attempts = v[0];
                stats.inode_operation.found = v[1];
                stats.inode_operation.recycle = v[2];
                stats.inode_operation.missed = v[3];
                stats.inode_operation.duplicate = v[4];
                stats.inode_operation.reclaims = v[5];
                stats.inode_operation.attribute_change = v[6];
            },
            Err(e) => return Err(e),
        }
    } else if is_word(label, &[0x78u8, 0x70u8, 0x63u8]) {
        match read_run_u64(&parts, 3) {
            Ok(v) => {
                if v.len() != 3 {
                    return Err(Error::Malformed("xpc line of stat file"));
                }
                stats.extended_precision.flush_bytes = v[0];
                stats.extended_precision.write_bytes = v[1];
                stats.extended_precision.read_bytes = v[2];
            },
            Err(e) => return Err(e),
        }
    } else if is_word(label, &[0x72u8, 0x77u8]) {
        match read_run_u32(&parts, 2) {
            Ok(v) => {
                if v.len() != 2 {
                    return Err(Error::Malformed("rw line of stat file"));
                }
                stats.read_write.write = v[0];
                stats.read_write.read = v[1];
            },
            Err(e) => return Err(e),
        }
    } else if is_word(label, &[0x76u8, 0x6eu8, 0x6fu8, 0x64u8, 0x65u8, 0x73u8]) {
        match read_run_u32(&parts, 8) {
            Ok(v) => {
                if v.len() < 7 {
                    return Err(Error::Malformed("vnodes line of stat file"));
                }
                stats.vnode.active = v[0];
                stats.vnode.allocate = v[1];
                stats.vnode.get = v[2];
                stats.vnode.hold = v[3];
                stats.vnode.release = v[4];
                stats.vnode.reclaim = v[5];
                stats.vnode.remove = v[6];
                if v.len() == 8 {
                    stats.vnode.free = v[7];
                }
            },
            Err(e) => return Err(e),
        }
    }
    Ok(stats)
}

proof fn lemma_from_lines_err(ls: Seq<Seq<u8>>, i: nat, n: nat, e: Error)
    requires
        i <= n <= ls.len(),
        Stats::from_lines(ls, i) == Err::<Stats, Error>(e),
    ensures
        Stats::from_lines(ls, n) == Err::<Stats, Error>(e),
    decreases n - i,
{
    if i < n {
        lemma_from_lines_err(ls, i, (n - 1) as nat, e);
    }
}

/// Parses the content of an XFS stat file.
pub fn parse_stat(content: &str) -> (r: Result<Stats, Error>)
    ensures
        r == Stats::from_lines(lines(content.spec_bytes()), lines(content.spec_bytes()).len()),
{
    let all = split_lines(content.as_bytes());
    let ghost ls = lines(content.spec_bytes());
    let mut stats = Stats::new();
    let mut i: usize = 0;
    while i < all.len()
        invariant
            i <= all@.len(),
            views(all@) == ls,
            ls == lines(content.spec_bytes()),
            Stats::from_lines(ls, i as nat) == Ok::<Stats, Error>(stats),
        decreases all@.len() - i,
    {
        let line = all[i];
        assert(line@ == ls[i as int]);
        match apply_stat_line(stats, line) {
            Ok(next) => {
                stats = next;
            },
            Err(e) => {
                proof {
                    assert(Stats::from_lines(ls, (i + 1) as nat) == Err::<Stats, Error>(e));
                    lemma_from_lines_err(ls, (i + 1) as nat, ls.len(), e);
                }
                return Err(e);
            },
        }
        i = i + 1;
    }
    Ok(stats)
}

/// The name and description of XFS sample `k`.
pub open spec fn xfs_metric(k: int) -> (&'static str, &'static str) {
    if k == 0 {
        ("node_xfs_extent_allocation_extents_allocated_total", "Number of extents allocated for a filesystem.")
    } else if k == 1 {
        ("node_xfs_extent_allocation_blocks_allocated_total", "Number of blocks allocated for a filesystem.")
    } else if k == 2 {
        ("node_xfs_extent_allocation_extents_freed_total", "Number of extents freed for a filesystem.")
    } else if k == 3 {
        ("node_xfs_extent_allocation_blocks_freed_total", "Number of blocks freed for a filesystem.")
    } else if k == 4 {
        ("node_xfs_allocation_btree_lookups_total", "Number of allocation B-tree lookups for a filesystem.")
    } else if k == 5 {
        ("node_xfs_allocation_btree_compares_total", "Number of allocation B-tree compares for a filesystem.")
    } else if k == 6 {
        ("node_xfs_allocation_btree_records_inserted_total", "Number of allocation B-tree records inserted for a filesystem.")
    } else if k == 7 {
        ("node_xfs_allocation_btree_records_deleted_total", "Number of allocation B-tree records deleted for a filesystem.")
    } else if k == 8 {
        ("node_xfs_block_mapping_reads_total", "Number of block map for read operations for a filesystem.")
    } else if k == 9 {
        ("node_xfs_block_mapping_writes_total", "Number of block map for write operations for a filesystem.")
    } else if k == 10 {
        ("node_xfs_block_mapping_unmaps_total", "Number of block unmaps (deletes) for a filesystem.")
    } else if k == 11 {
        ("node_xfs_block_mapping_extent_list_insertions_total", "Number of extent list insertions for a filesystem.")
    } else if k == 12 {
        ("node_xfs_block_mapping_extent_list_deletions_total", "Number of extent list deletions for a filesystem.")
    } else if k == 13 {
        ("node_xfs_block_mapping_extent_list_lookups_total", "Number of extent list lookups for a filesystem.")
    } else if k == 14 {
        ("node_xfs_block_mapping_extent_list_compares_total", "Number of extent list compares for a filesystem.")
    } else if k == 15 {
        ("node_xfs_block_map_btree_lookups_total", "Number of block map B-tree lookups for a filesystem.")
    } else if k == 16 {
        ("node_xfs_block_map_btree_compares_total", "Number of block map B-tree compares for a filesystem.")
    } else if k == 17 {
        ("node_xfs_block_map_btree_records_inserted_total", "Number of block map B-tree records inserted for a filesystem.")
    } else if k == 18 {
        ("node_xfs_block_map_btree_records_deleted_total", "Number of block map B-tree records deleted for a filesystem.")
    } else if k == 19 {
        ("node_xfs_directory_operation_lookup_total", "Number of file name directory lookups which miss the operating systems directory name lookup cache.")
    } else if k == 20 {
        ("node_xfs_directory_operation_create_total", "Number of times a new directory entry was created for a filesystem.")
    } else if k == 21 {
        ("node_xfs_directory_operation_remove_total", "Number of times an existing directory entry was created for a filesystem.")
    } else if k == 22 {
        ("node_xfs_directory_operation_getdents_total", "Number of times the directory getdents operation was performed for a filesystem.")
    } else if k == 23 {
        ("node_xfs_inode_operation_attempts_total", "Number of times the OS looked for an XFS inode in the inode cache.")
    } else if k == 24 {
        ("node_xfs_inode_operation_found_total", "Number of times the OS looked for and found an XFS inode in the inode cache.")
    } else if k == 25 {
        ("node_xfs_inode_operation_recycled_total", "Number of times the OS found an XFS inode in the cache, but could not use it as it was being recycled.")
    } else if k == 26 {
        ("node_xfs_inode_operation_missed_total", "Number of times the OS looked for an XFS inode in the cache, but did not find it.")
    } else if k == 27 {
        ("node_xfs_inode_operation_duplicates_total", "Number of times the OS tried to add a missing XFS inode to the inode cache, but found it had already been added by another process.")
    } else if k == 28 {
        ("node_xfs_inode_operation_reclaims_total", "Number of times the OS reclaimed an XFS inode from the inode cache to free memory for another purpose.")
    } else if k == 29 {
        ("node_xfs_inode_operation_attribute_changes_total", "Number of times the OS explicitly changed the attributes of an XFS inode.")
    } else if k == 30 {
        ("node_xfs_read_calls_total", "Number of read(2) system calls made to files in a filesystem.")
    } else if k == 31 {
        ("node_xfs_write_calls_total", "Number of write(2) system calls made to files in a filesystem.")
    } else if k == 32 {
        ("node_xfs_vnode_active_total", "Number of vnodes not on free lists for a filesystem.")
    } else if k == 33 {
        ("node_xfs_vnode_allocate_total", "Number of times vn_alloc called for a filesystem.")
    } else if k == 34 {
        ("node_xfs_vnode_get_total", "Number of times vn_get called for a filesystem.")
    } else if k == 35 {
        ("node_xfs_vnode_hold_total", "Number of times vn_hold called for a filesystem.")
    } else if k == 36 {
        ("node_xfs_vnode_release_total", "Number of times vn_rele called for a filesystem.")
    } else if k == 37 {
        ("node_xfs_vnode_reclaim_total", "Number of times vn_reclaim called for a filesystem.")
    } else {
        ("node_xfs_vnode_remove_total", "Number of times vn_remove called for a filesystem.")
    }
}

/// The value that XFS sample `k` reports.
pub open spec fn xfs_value(st: Stats, k: int) -> int {
    if k == 0 {
        st.extent_allocation.extents_allocated as int
    } else if k == 1 {
        st.extent_allocation.blocks_allocated as int
    } else if k == 2 {
        st.extent_allocation.extents_freed as int
    } else if k == 3 {
        st.extent_allocation.blocks_freed as int
    } else if k == 4 {
        st.allocation_btree.lookups as int
    } else if k == 5 {
        st.allocation_btree.compares as int
    } else if k == 6 {
        st.allocation_btree.records_inserted as int
    } else if k == 7 {
        st.allocation_btree.records_deleted as int
    } else if k == 8 {
        st.block_mapping.reads as int
    } else if k == 9 {
        st.block_mapping.writes as int
    } else if k == 10 {
        st.block_mapping.unmaps as int
    } else if k == 11 {
        st.block_mapping.extent_list_insertions as int
    } else if k == 12 {
        st.block_mapping.extent_list_deletions as int
    } else if k == 13 {
        st.block_mapping.extent_list_lookups as int
    } else if k == 14 {
        st.block_mapping.extent_list_compares as int
    } else if k == 15 {
        st.block_map_btree.lookups as int
    } else if k == 16 {
        st.block_map_btree.compares as int
    } else if k == 17 {
        st.block_map_btree.records_inserted as int
    } else if k == 18 {
        st.block_map_btree.records_deleted as int
    } else if k == 19 {
        st.directory_operation.lookups as int
    } else if k == 20 {
        st.directory_operation.creates as int
    } else if k == 21 {
        st.directory_operation.removes as int
    } else if k == 22 {
        st.directory_operation.getdents as int
    } else if k == 23 {
        st.inode_operation.attempts as int
    } else if k == 24 {
        st.inode_operation.found as int
    } else if k == 25 {
        st.inode_operation.recycle as int
    } else if k == 26 {
        st.inode_operation.missed as int
    } else if k == 27 {
        st.inode_operation.duplicate as int
    } else if k == 28 {
        st.inode_operation.reclaims as int
    } else if k == 29 {
        st.inode_operation.attribute_change as int
    } else if k == 30 {
        st.read_write.read as int
    } else if k == 31 {
        st.read_write.write as int
    } else if k == 32 {
        st.vnode.active as int
    } else if k == 33 {
        st.vnode.allocate as int
    } else if k == 34 {
        st.vnode.get as int
    } else if k == 35 {
        st.vnode.hold as int
    } else if k == 36 {
        st.vnode.release as int
    } else if k == 37 {
        st.vnode.reclaim as int
    } else {
        st.vnode.remove as int
    }
}

fn xfs_metric_exec(k: usize) -> (r: (&'static str, &'static str))
    requires
        k < 39,
    ensures
        r == xfs_metric(k as int),
{
    if k == 0 {
        ("node_xfs_extent_allocation_extents_allocated_total", "Number of extents allocated for a filesystem.")
    } else if k == 1 {
        ("node_xfs_extent_allocation_blocks_allocated_total", "Number of blocks allocated for a filesystem.")
    } else if k == 2 {
        ("node_xfs_extent_allocation_extents_freed_total", "Number of extents freed for a filesystem.")
    } else if k == 3 {
        ("node_xfs_extent_allocation_blocks_freed_total", "Number of blocks freed for a filesystem.")
    } else if k == 4 {
        ("node_xfs_allocation_btree_lookups_total", "Number of allocation B-tree lookups for a filesystem.")
    } else if k == 5 {
        ("node_xfs_allocation_btree_compares_total", "Number of allocation B-tree compares for a filesystem.")
    } else if k == 6 {
        ("node_xfs_allocation_btree_records_inserted_total", "Number of allocation B-tree records inserted for a filesystem.")
    } else if k == 7 {
        ("node_xfs_allocation_btree_records_deleted_total", "Number of allocation B-tree records deleted for a filesystem.")
    } else if k == 8 {
        ("node_xfs_block_mapping_reads_total", "Number of block map for read operations for a filesystem.")
    } else if k == 9 {
        ("node_xfs_block_mapping_writes_total", "Number of block map for write operations for a filesystem.")
    } else if k == 10 {
        ("node_xfs_block_mapping_unmaps_total", "Number of block unmaps (deletes) for a filesystem.")
    } else if k == 11 {
        ("node_xfs_block_mapping_extent_list_insertions_total", "Number of extent list insertions for a filesystem.")
    } else if k == 12 {
        ("node_xfs_block_mapping_extent_list_deletions_total", "Number of extent list deletions for a filesystem.")
    } else if k == 13 {
        ("node_xfs_block_mapping_extent_list_lookups_total", "Number of extent list lookups for a filesystem.")
    } else if k == 14 {
        ("node_xfs_block_mapping_extent_list_compares_total", "Number of extent list compares for a filesystem.")
    } else if k == 15 {
        ("node_xfs_block_map_btree_lookups_total", "Number of block map B-tree lookups for a filesystem.")
    } else if k == 16 {
        ("node_xfs_block_map_btree_compares_total", "Number of block map B-tree compares for a filesystem.")
    } else if k == 17 {
        ("node_xfs_block_map_btree_records_inserted_total", "Number of block map B-tree records inserted for a filesystem.")
    } else if k == 18 {
        ("node_xfs_block_map_btree_records_deleted_total", "Number of block map B-tree records deleted for a filesystem.")
    } else if k == 19 {
        ("node_xfs_directory_operation_lookup_total", "Number of file name directory lookups which miss the operating systems directory name lookup cache.")
    } else if k == 20 {
        ("node_xfs_directory_operation_create_total", "Number of times a new directory entry was created for a filesystem.")
    } else if k == 21 {
        ("node_xfs_directory_operation_remove_total", "Number of times an existing directory entry was created for a filesystem.")
    } else if k == 22 {
        ("node_xfs_directory_operation_getdents_total", "Number of times the directory getdents operation was performed for a filesystem.")
    } else if k == 23 {
        ("node_xfs_inode_operation_attempts_total", "Number of times the OS looked for an XFS inode in the inode cache.")
    } else if k == 24 {
        ("node_xfs_inode_operation_found_total", "Number of times the OS looked for and found an XFS inode in the inode cache.")
    } else if k == 25 {
        ("node_xfs_inode_operation_recycled_total", "Number of times the OS found an XFS inode in the cache, but could not use it as it was being recycled.")
    } else if k == 26 {
        ("node_xfs_inode_operation_missed_total", "Number of times the OS looked for an XFS inode in the cache, but did not find it.")
    } else if k == 27 {
        ("node_xfs_inode_operation_duplicates_total", "Number of times the OS tried to add a missing XFS inode to the inode cache, but found it had already been added by another process.")
    } else if k == 28 {
        ("node_xfs_inode_operation_reclaims_total", "Number of times the OS reclaimed an XFS inode from the inode cache to free memory for another purpose.")
    } else if k == 29 {
        ("node_xfs_inode_operation_attribute_changes_total", "Number of times the OS explicitly changed the attributes of an XFS inode.")
    } else if k == 30 {
        ("node_xfs_read_calls_total", "Number of read(2) system calls made to files in a filesystem.")
    } else if k == 31 {
        ("node_xfs_write_calls_total", "Number of write(2) system calls made to files in a filesystem.")
    } else if k == 32 {
        ("node_xfs_vnode_active_total", "Number of vnodes not on free lists for a filesystem.")
    } else if k == 33 {
        ("node_xfs_vnode_allocate_total", "Number of times vn_alloc called for a filesystem.")
    } else if k == 34 {
        ("node_xfs_vnode_get_total", "Number of times vn_get called for a filesystem.")
    } else if k == 35 {
        ("node_xfs_vnode_hold_total", "Number of times vn_hold called for a filesystem.")
    } else if k == 36 {
        ("node_xfs_vnode_release_total", "Number of times vn_rele called for a filesystem.")
    } else if k == 37 {
        ("node_xfs_vnode_reclaim_total", "Number of times vn_reclaim called for a filesystem.")
    } else {
        ("node_xfs_vnode_remove_total", "Number of times vn_remove called for a filesystem.")
    }
}

fn xfs_value_exec(st: &Stats, k: usize) -> (r: i128)
    requires
        k < 39,
    ensures
        r == xfs_value(*st, k as int),
{
    if k == 0 {
        st.extent_allocation.extents_allocated as i128
    } else if k == 1 {
        st.extent_allocation.blocks_allocated as i128
    } else if k == 2 {
        st.extent_allocation.extents_freed as i128
    } else if k == 3 {
        st.extent_allocation.blocks_freed as i128
    } else if k == 4 {
        st.allocation_btree.lookups as i128
    } else if k == 5 {
        st.allocation_btree.compares as i128
    } else if k == 6 {
        st.allocation_btree.records_inserted as i128
    } else if k == 7 {
        st.allocation_btree.records_deleted as i128
    } else if k == 8 {
        st.block_mapping.reads as i128
    } else if k == 9 {
        st.block_mapping.writes as i128
    } else if k == 10 {
        st.block_mapping.unmaps as i128
    } else if k == 11 {
        st.block_mapping.extent_list_insertions as i128
    } else if k == 12 {
        st.block_mapping.extent_list_deletions as i128
    } else if k == 13 {
        st.block_mapping.extent_list_lookups as i128
    } else if k == 14 {
        st.block_mapping.extent_list_compares as i128
    } else if k == 15 {
        st.block_map_btree.lookups as i128
    } else if k == 16 {
        st.block_map_btree.compares as i128
    } else if k == 17 {
        st.block_map_btree.records_inserted as i128
    } else if k == 18 {
        st.block_map_btree.records_deleted as i128
    } else if k == 19 {
        st.directory_operation.lookups as i128
    } else if k == 20 {
        st.directory_operation.creates as i128
    } else if k == 21 {
        st.directory_operation.removes as i128
    } else if k == 22 {
        st.directory_operation.getdents as i128
    } else if k == 23 {
        st.inode_operation.attempts as i128
    } else if k == 24 {
        st.inode_operation.found as i128
    } else if k == 25 {
        st.inode_operation.recycle as i128
    } else if k == 26 {
        st.inode_operation.missed as i128
    } else if k == 27 {
        st.inode_operation.duplicate as i128
    } else if k == 28 {
        st.inode_operation.reclaims as i128
    } else if k == 29 {
        st.inode_operation.attribute_change as i128
    } else if k == 30 {
        st.read_write.read as i128
    } else if k == 31 {
        st.read_write.write as i128
    } else if k == 32 {
        st.vnode.active as i128
    } else if k == 33 {
        st.vnode.allocate as i128
    } else if k == 34 {
        st.vnode.get as i128
    } else if k == 35 {
        st.vnode.hold as i128
    } else if k == 36 {
        st.vnode.release as i128
    } else if k == 37 {
        st.vnode.reclaim as i128
    } else {
        st.vnode.remove as i128
    }
}

/// The samples of one XFS filesystem: every counter of the statistics as a
/// running total, labelled with the device.
pub open spec fn xfs_samples_spec(device: Seq<u8>, st: Stats) -> Seq<SampleModel> {
    Seq::new(
        39,
        |k: int|
            SampleModel {
                name: xfs_metric(k).0,
                description: xfs_metric(k).1,
                kind: Kind::Sum,
                value: xfs_value(st, k),
                tags: seq![("device", TagModel::Field(device))],
            },
    )
}

/// The samples of one XFS filesystem.
pub fn xfs_samples<'a>(device: &'a [u8], st: &Stats) -> (r: Vec<Sample<'a>>)
    ensures
        samples_view(r@) == xfs_samples_spec(device@, *st),
{
    let mut out: Vec<Sample<'a>> = Vec::new();
    let mut k: usize = 0;
    while k < 39
        invariant
            k <= 39,
            samples_view(out@) =~= xfs_samples_spec(device@, *st).take(k as int),
        decreases 39 - k,
    {
        let (name, description) = xfs_metric_exec(k);
        let value = xfs_value_exec(st, k);
        let ghost before = out@;
        out.push(Sample { name, description, kind: Kind::Sum, value, tags: one_tag("device", TagValue::Field(device)) });
        assert(samples_view(out@) =~= samples_view(before).push(xfs_samples_spec(device@, *st)[k as int]));
        assert(xfs_samples_spec(device@, *st).take(k + 1) =~= xfs_samples_spec(device@, *st).take(k as int).push(
            xfs_samples_spec(device@, *st)[k as int],
        ));
        k = k + 1;
    }
    assert(xfs_samples_spec(device@, *st).take(39) =~= xfs_samples_spec(device@, *st));
    out
}

} // verus!
