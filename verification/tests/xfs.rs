use vertex_sources::metric::{Kind, TagValue};
use vertex_sources::node::xfs::xfs_samples;
use vertex_sources::node::Error;
use vertex_sources::node::xfs::{
    parse_stat, BTreeStats, BlockMappingStats, DirectoryOperationStats, ExtendedPrecisionStats,
    ExtentAllocationStats, InodeOperationStats, ReadWriteStats, Stats, TransactionStats,
    VnodeStats,
};

const XFS_STAT: &str = "extent_alloc 92447 97589 92448 93751
abt 0 0 0 0
blk_map 1767055 188820 184891 92447 92448 2140766 0
bmbt 0 0 0 0
dir 185039 92447 92444 136422
trans 706 944304 0
ig 185045 58807 0 126238 0 33637 22
log 2883 113448 9 17360 739
push_ail 945014 0 134260 15483 0 3940 464 159985 0 40
xstrat 92447 0
rw 107739 94045
attr 4 0 0 0
icluster 8677 7849 135802
vnodes 92601 0 0 0 92444 92444 92444 0
buf 2666287 7122 2659202 3599 2 7085 0 10297 7085
abtb2 184941 1277345 13257 13278 0 0 0 0 0 0 0 0 0 0 2746147
abtc2 345295 2416764 172637 172658 0 0 0 0 0 0 0 0 0 0 21406023
bmbt2 0 0 0 0 0 0 0 0 0 0 0 0 0 0 0
ibt2 343004 1358467 0 0 0 0 0 0 0 0 0 0 0 0 0
fibt2 0 0 0 0 0 0 0 0 0 0 0 0 0 0 0
qm 0 0 0 0 0 0 0 0
xpc 399724544 92823103 86219234
debug 0
";

#[test]
fn proc_stat() {
    let stat = parse_stat(XFS_STAT).unwrap();
    assert_eq!(stat.extent_allocation.extents_allocated, 92447);
}

#[test]
fn ok() {
    let want = Stats {
        extent_allocation: ExtentAllocationStats {
            extents_allocated: 92447,
            blocks_allocated: 97589,
            extents_freed: 92448,
            blocks_freed: 93751,
        },
        allocation_btree: BTreeStats {
            lookups: 0,
            compares: 0,
            records_inserted: 0,
            records_deleted: 0,
        },
        block_mapping: BlockMappingStats {
            reads: 1767055,
            writes: 188820,
            unmaps: 184891,
            extent_list_insertions: 92447,
            extent_list_deletions: 92448,
            extent_list_lookups: 2140766,
            extent_list_compares: 0,
        },
        block_map_btree: BTreeStats {
            lookups: 0,
            compares: 0,
            records_inserted: 0,
            records_deleted: 0,
        },
        directory_operation: DirectoryOperationStats {
            lookups: 185039,
            creates: 92447,
            removes: 92444,
            getdents: 136422,
        },
        transaction: TransactionStats {
            synchronous: 706,
            asynchronous: 944304,
            empty: 0,
        },
        inode_operation: InodeOperationStats {
            attempts: 185045,
            found: 58807,
            recycle: 0,
            missed: 126238,
            duplicate: 0,
            reclaims: 33637,
            attribute_change: 22,
        },
        read_write: ReadWriteStats {
            write: 107739,
            read: 94045,
        },
        vnode: VnodeStats {
            active: 92601,
            allocate: 0,
            get: 0,
            hold: 0,
            release: 92444,
            reclaim: 92444,
            remove: 92444,
            free: 0,
        },
        extended_precision: ExtendedPrecisionStats {
            flush_bytes: 399724544,
            write_bytes: 92823103,
            read_bytes: 86219234,
        },
    };

    let got = parse_stat(XFS_STAT).unwrap();

    assert_eq!(want, got)
}

#[test]
fn short_lines_are_malformed() {
    assert_eq!(
        parse_stat("extent_alloc 1 2 3\n"),
        Err(Error::Malformed("extent_alloc line of stat file"))
    );
    assert_eq!(
        parse_stat("vnodes 1 2 3 4 5 6\n"),
        Err(Error::Malformed("vnodes line of stat file"))
    );
    assert_eq!(
        parse_stat("ig 1 2 3\n"),
        Err(Error::Malformed("trans line of stat file"))
    );
    assert_eq!(parse_stat("xpc 1 2\n"), Err(Error::Malformed("xpc line of stat file")));
}

#[test]
fn counts_that_are_not_numbers_fail() {
    assert_eq!(parse_stat("rw 1 x\n"), Err(Error::ParseInt));
    assert_eq!(parse_stat("abt 1 2 3 4294967296\n"), Err(Error::ParseInt));
    let big = parse_stat("xpc 4294967296 0 18446744073709551615\n").unwrap();
    assert_eq!(big.extended_precision.flush_bytes, 4294967296);
    assert_eq!(big.extended_precision.read_bytes, u64::MAX);
}

#[test]
fn vnodes_without_free_keeps_zero() {
    let got = parse_stat("vnodes 1 2 3 4 5 6 7\n").unwrap();
    assert_eq!(got.vnode.remove, 7);
    assert_eq!(got.vnode.free, 0);
}

#[test]
fn unknown_labels_and_blank_lines_are_skipped() {
    let got = parse_stat("\nfoo 1 2\nrw 3 4\n").unwrap();
    assert_eq!(got.read_write.write, 3);
    assert_eq!(got.read_write.read, 4);
    assert_eq!(got.extent_allocation, Stats::new().extent_allocation);
}

#[test]
fn xfs_samples_report_every_counter_with_the_device() {
    let stat = parse_stat(XFS_STAT).unwrap();
    let samples = xfs_samples(b"sda1", &stat);
    assert_eq!(samples.len(), 39);
    assert_eq!(samples[0].name, "node_xfs_extent_allocation_extents_allocated_total");
    assert_eq!(samples[0].value, 92447);
    assert_eq!(samples[0].kind, Kind::Sum);
    assert_eq!(samples[0].tags, vec![("device", TagValue::Field(&b"sda1"[..]))]);
    assert_eq!(samples[38].name, "node_xfs_vnode_remove_total");
    assert_eq!(samples[38].value, 92444);
}
