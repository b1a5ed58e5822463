use vertex_sources::node::zfs::{
    kstat_lines_ok, parse_pool_objset, parse_pool_stats, parse_stat_file, pool_lines_readable,
    KstatValue,
};
use vertex_sources::node::Error;

const POOL1_IO: &str = "12 3 0x00 1 80 2225326830828 32953449343870
nread    nwritten reads    writes   wtime    wlentime wupdate  rtime    rlentime rupdate  wcnt     rcnt
1884160  3206144  22       132      7155162  104112268 1063357963848 5763249 4093520 1063357963848 0 0
";

const POOL2_IO: &str = "12 3 0x00 1 80 2225326830828 32953449343870
nread    nwritten reads    writes   wtime    wlentime wupdate  rtime    rlentime rupdate  wcnt     rcnt
2826240  2820096  25       108      11235823 32014389 2143451049524 6139434 12553493 2143451049524 0 0
";

const OBJSET_1: &str = "23 1 0x01 7 2160 221578688875 6665999035587
name                            type data
dataset_name                    7    pool1
writes                          4    0
nwritten                        4    0
reads                           4    0
nread                           4    0
nunlinks                        4    0
nunlinked                       4    0
";

const OBJSET_2: &str = "23 1 0x01 7 2160 221578688875 6665999035587
name                            type data
dataset_name                    7    pool2/dataset1
writes                          4    10
nwritten                        4    4096
reads                           4    4
nread                           4    4
nunlinks                        4    0
nunlinked                       4    0
";

#[test]
fn pool_procfs_file() {
    let mut parsed = 0;
    for content in [POOL1_IO, POOL2_IO] {
        parsed += 1;

        let kvs = parse_pool_stats(content);
        assert_ne!(kvs.len(), 0);

        for (k, v) in kvs {
            if k != b"kstat.zfs.misc.io.nread" {
                continue;
            }

            if v != 1884160 && v != 2826240 {
                panic!("incorrect value parsed from procfs data")
            }
        }
    }

    assert_eq!(parsed, 2);
}

#[test]
fn pool_io_counters_follow_the_header() {
    let kvs = parse_pool_stats(POOL1_IO);
    assert_eq!(kvs.len(), 12);
    assert_eq!(kvs[0], (&b"nread"[..], 1884160));
    assert_eq!(kvs[3], (&b"writes"[..], 132));
    assert_eq!(parse_pool_stats("nread x\n1 2\n").len(), 0);
}

#[test]
fn pool_objset_file() {
    for content in [OBJSET_1, OBJSET_2] {
        let (_dataset, kvs) = parse_pool_objset(content).unwrap();

        assert_ne!(kvs.len(), 0);
        for (key, value) in kvs {
            if key != b"writes" {
                continue;
            }

            if value != 0u64 && value != 4u64 && value != 10u64 {
                panic!("incorrect value parsed from procfs data")
            }
        }
    }
}

#[test]
fn objset_dataset_name_and_errors() {
    let (dataset, kvs) = parse_pool_objset(OBJSET_2).unwrap();
    assert_eq!(dataset, b"pool2/dataset1");
    assert_eq!(kvs[0], (&b"writes"[..], 10));
    let (dataset, _) = parse_pool_objset("dataset_name 7 7\n").unwrap();
    assert_eq!(dataset, b"7 7");
    assert_eq!(parse_pool_objset("writes 4 x\n"), Err(Error::ParseInt));
}

#[test]
fn kstat_misc_file() {
    let content = "6 1 0x01 3 144 2162305426 2162305426
name                            type data
hits                            4    10
misses                          3    -2
size_label                      7    big
";
    let kvs = parse_stat_file(content).unwrap();
    assert_eq!(
        kvs,
        vec![
            (&b"hits"[..], KstatValue::Unsigned(10)),
            (&b"misses"[..], KstatValue::Signed(-2)),
        ]
    );
    assert_eq!(parse_stat_file("hits 4 x\n"), Err(Error::ParseInt));
}

#[test]
fn pool_lines_must_cover_the_header() {
    let header = "nread nwritten reads writes wtime wlentime wupdate rtime rlentime rupdate wcnt rcnt";
    assert!(pool_lines_readable(&format!("junk\n{header}\n1 2 3 4 5 6 7 8 9 10 11 12\n")));
    assert!(!pool_lines_readable(&format!("{header}\n1 2 3\n")));
    assert!(pool_lines_readable("1 2 3\n"));
}

#[test]
fn kstat_lines_need_their_columns() {
    assert!(kstat_lines_ok("name type data\nhits 4 10\nnote 7\n"));
    assert!(!kstat_lines_ok("hits 4\n"));
    assert!(!kstat_lines_ok("lonely\n"));
}
