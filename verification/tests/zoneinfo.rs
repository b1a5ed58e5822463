use vertex_sources::metric::{Kind, TagValue};
use vertex_sources::node::zoneinfo::zone_samples;
use vertex_sources::node::zoneinfo::{parse_zoneinfo, zone_headers_ok, ZoneCounters, ZoneInfo};

const ZONEINFO: &str = "Node 0, zone      DMA
  per-node stats
      nr_inactive_anon 230981
      nr_active_anon 547580
      nr_inactive_file 316904
      nr_active_file 346282
      nr_unevictable 115467
      nr_slab_reclaimable 131220
      nr_slab_unreclaimable 47320
      nr_isolated_anon 0
      nr_isolated_file 0
      workingset_nodes 11627
      workingset_refault 466886
      workingset_activate 276925
      workingset_restore 84055
      workingset_nodereclaim 487
      nr_anon_pages 795576
      nr_mapped    215483
      nr_file_pages 761874
      nr_dirty     908
      nr_writeback 0
      nr_writeback_temp 0
      nr_shmem     224925
      nr_shmem_hugepages 0
      nr_shmem_pmdmapped 0
      nr_anon_transparent_hugepages 0
      nr_unstable  0
      nr_vmscan_write 12950
      nr_vmscan_immediate_reclaim 3033
      nr_dirtied   8007423
      nr_written   7752121
      nr_kernel_misc_reclaimable 0
  pages free     3952
        min      33
        low      41
        high     49
        spanned  4095
        present  3975
        managed  3956
        protection: (0, 2877, 7826, 7826, 7826)
      nr_free_pages 3952
      nr_zone_inactive_anon 0
      nr_zone_active_anon 0
      nr_zone_inactive_file 0
      nr_zone_active_file 0
      nr_zone_unevictable 0
      nr_zone_write_pending 0
      nr_mlock     0
      nr_page_table_pages 0
      nr_kernel_stack 0
      nr_bounce    0
      nr_zspages   0
      nr_free_cma  0
      numa_hit     1
      numa_miss    0
      numa_foreign 0
      numa_interleave 0
      numa_local   1
      numa_other   0
  pagesets
    cpu: 0
              count: 0
              high:  0
              batch: 1
  vm stats threshold: 8
  node_unreclaimable:  0
  start_pfn:           1
Node 0, zone    DMA32
  pages free     204252
        min      19510
        low      21059
        high     22608
        spanned  1044480
        present  759231
        managed  742806
        protection: (0, 0, 4949, 4949, 4949)
      nr_free_pages 204252
      nr_zone_inactive_anon 118558
      nr_zone_active_anon 106598
      nr_kernel_stack 2208
      numa_hit     113952967
      numa_miss    0
      numa_foreign 0
      numa_interleave 0
      numa_local   113952967
      numa_other   0
  pagesets
    cpu: 0
              count: 345
              high:  378
              batch: 63
  node_unreclaimable:  0
  start_pfn:           4096
Node 0, zone   Normal
  pages free     18553
        min      11176
        low      13842
        high     16508
        spanned  1308160
        present  1308160
        managed  1268711
        protection: (0, 0, 0, 0, 0)
      nr_free_pages 18553
      nr_kernel_stack 15136
      numa_hit     162718019
      numa_miss    0
      numa_foreign 0
      numa_interleave 26812
      numa_local   162718019
      numa_other   0
  start_pfn:           1048576
Node 0, zone  Movable
  pages free     0
        min      0
        low      0
        high     0
        spanned  0
        present  0
        managed  0
        protection: (0, 0, 0, 0, 0)
Node 0, zone   Device
  pages free     0
        min      0
        low      0
        high     0
        spanned  0
        present  0
        managed  0
        protection: (0, 0, 0, 0, 0)
";

#[test]
fn zoneinfo_parse() {
    let got = parse_zoneinfo(ZONEINFO).unwrap();

    let want = [
        ZoneInfo {
            node: b"0",
            zone: b"DMA",
            counters: ZoneCounters {
                nr_free_pages: Some(3952),
                min: Some(33),
                low: Some(41),
                high: Some(49),
                spanned: Some(4095),
                present: Some(3975),
                managed: Some(3956),
                nr_active_anon: Some(547580),
                nr_inactive_anon: Some(230981),
                nr_isolated_anon: Some(0),
                nr_anon_pages: Some(795576),
                nr_anon_transparent_hugepages: Some(0),
                nr_active_file: Some(346282),
                nr_inactive_file: Some(316904),
                nr_isolated_file: Some(0),
                nr_file_pages: Some(761874),
                nr_slab_reclaimable: Some(131220),
                nr_slab_unreclaimable: Some(47320),
                nr_kernel_stack: Some(0),
                nr_mapped: Some(215483),
                nr_dirty: Some(908),
                nr_writeback: Some(0),
                nr_unevictable: Some(115467),
                nr_shmem: Some(224925),
                nr_dirtied: Some(8007423),
                nr_written: Some(7752121),
                numa_hit: Some(1),
                numa_miss: Some(0),
                numa_foreign: Some(0),
                numa_interleave: Some(0),
                numa_local: Some(1),
                numa_other: Some(0),
                ..Default::default()
            },
            protection: vec![0, 2877, 7826, 7826, 7826],
        },
        ZoneInfo {
            node: b"0",
            zone: b"DMA32",
            counters: ZoneCounters {
                nr_free_pages: Some(204252),
                min: Some(19510),
                low: Some(21059),
                high: Some(22608),
                spanned: Some(1044480),
                present: Some(759231),
                managed: Some(742806),
                nr_kernel_stack: Some(2208),
                numa_hit: Some(113952967),
                numa_miss: Some(0),
                numa_foreign: Some(0),
                numa_interleave: Some(0),
                numa_local: Some(113952967),
                numa_other: Some(0),
                ..Default::default()
            },
            protection: vec![0, 0, 4949, 4949, 4949],
        },
        ZoneInfo {
            node: b"0",
            zone: b"Normal",
            counters: ZoneCounters {
                nr_free_pages: Some(18553),
                min: Some(11176),
                low: Some(13842),
                high: Some(16508),
                spanned: Some(1308160),
                present: Some(1308160),
                managed: Some(1268711),
                nr_kernel_stack: Some(15136),
                numa_hit: Some(162718019),
                numa_miss: Some(0),
                numa_foreign: Some(0),
                numa_interleave: Some(26812),
                numa_local: Some(162718019),
                numa_other: Some(0),
                ..Default::default()
            },
            protection: vec![0, 0, 0, 0, 0],
        },
        ZoneInfo {
            node: b"0",
            zone: b"Movable",
            counters: ZoneCounters {
                min: Some(0),
                low: Some(0),
                high: Some(0),
                spanned: Some(0),
                present: Some(0),
                managed: Some(0),
                ..Default::default()
            },
            protection: vec![0, 0, 0, 0, 0],
        },
        ZoneInfo {
            node: b"0",
            zone: b"Device",
            counters: ZoneCounters {
                min: Some(0),
                low: Some(0),
                high: Some(0),
                spanned: Some(0),
                present: Some(0),
                managed: Some(0),
                ..Default::default()
            },
            protection: vec![0, 0, 0, 0, 0],
        },
    ];

    assert_eq!(want.as_ref(), got);
}

#[test]
fn empty_text_gives_one_unnamed_zone() {
    let got = parse_zoneinfo("").unwrap();
    assert_eq!(got.len(), 1);
    assert_eq!(got[0], ZoneInfo::new());
}

#[test]
fn bad_protection_value_empties_the_array() {
    let got = parse_zoneinfo("Node 1, zone Normal\n protection: (0, x, 3)\n").unwrap();
    assert_eq!(got[0].node, b"1");
    assert_eq!(got[0].protection, Vec::<i64>::new());
}

#[test]
fn protection_keeps_at_most_five_values() {
    let got = parse_zoneinfo("Node 0, zone DMA\n protection: (1, 2, 3, 4, 5, 6)\n").unwrap();
    assert_eq!(got[0].protection, vec![1, 2, 3, 4, 5]);
}

#[test]
fn counter_that_is_not_a_number_is_none() {
    let got = parse_zoneinfo("Node 0, zone DMA\n min 12\n min x\n low\n").unwrap();
    assert_eq!(got[0].counters.min, None);
    assert_eq!(got[0].counters.low, None);
}

#[test]
fn zone_samples_follow_the_reported_counters() {
    let got = parse_zoneinfo(ZONEINFO).unwrap();
    let movable = zone_samples(&got[3]);
    assert_eq!(movable.len(), 6);
    assert_eq!(movable[0].name, "node_zoneinfo_min_pages");
    assert_eq!(movable[0].kind, Kind::Gauge);
    assert_eq!(
        movable[0].tags,
        vec![("node", TagValue::Field(&b"0"[..])), ("zone", TagValue::Field(&b"Movable"[..]))]
    );
    let dma = zone_samples(&got[0]);
    assert_eq!(dma.len(), 32);
    assert_eq!(dma[0].name, "node_zoneinfo_nr_free_pages");
    assert_eq!(dma[0].value, 3952);
    let last = &dma[dma.len() - 1];
    assert_eq!(last.name, "node_zoneinfo_numa_other_total");
    assert_eq!(last.kind, Kind::Sum);
}

#[test]
fn zone_headers_must_name_node_and_zone() {
    assert!(zone_headers_ok("Node 0, zone      DMA\n  pages free 3\n"));
    assert!(zone_headers_ok(""));
    assert!(!zone_headers_ok("Node 0\n"));
    assert!(!zone_headers_ok("Node 0, zone\n"));
}
