use vertex_sources::metric::{Kind, TagValue};
use vertex_sources::node::nfsd::{nfsd_samples, server_lines_ok};
use vertex_sources::node::Error;
use vertex_sources::node::nfs::{Network, V2Stats, V3Stats};
use vertex_sources::node::nfsd::{
parse_server_rpc_stats, FileHandles, InputOutput, ReadAheadCache, ReplyCache, ServerRPC,
ServerRPCStats, ServerV4Stats, Threads, V4Ops,
};

#[test]
fn server_rpc_stats() {
    let cases = vec![
        (
            "invalid file",
            "invalid",
            ServerRPCStats::default(),
            true,
        ),
        (
            "good file",
            "rc 0 6 18622
fh 0 0 0 0 0
io 157286400 0
th 8 0 0.000 0.000 0.000 0.000 0.000 0.000 0.000 0.000 0.000 0.000
ra 32 0 0 0 0 0 0 0 0 0 0 0
net 18628 0 18628 6
rpc 18628 0 0 0 0
proc2 18 2 69 0 0 4410 0 0 0 0 0 0 0 0 0 0 0 99 2
proc3 22 2 112 0 2719 111 0 0 0 0 0 0 0 0 0 0 0 27 216 0 2 1 0
proc4 2 2 10853
proc4ops 72 0 0 0 1098 2 0 0 0 0 8179 5896 0 0 0 0 5900 0 0 2 0 2 0 9609 0 2 150 1272 0 0 0 1236 0 0 0 0 3 3 0 0 0 0 0 0 0 0 0 0 0 0 0 0 0 0 0 0 0 0 0 0 0 0 0 0 0 0 0 0 0 0 0 0 0
wdeleg_getattr 16",
            ServerRPCStats {
                reply_cache: ReplyCache {
                    hits: 0,
                    misses: 6,
                    no_cache: 18622,
                },
                file_handles: FileHandles {
                    stale: 0,
                    total_lookups: 0,
                    anon_lookups: 0,
                    dir_no_cache: 0,
                    no_dir_no_cache: 0,
                },
                input_output: InputOutput {
                    read: 157286400,
                    write: 0,
                },
                threads: Threads {
                    threads: 8,
                    full_cnt: 0,
                },
                read_ahead_cache: ReadAheadCache {
                    cache_size: 32,
                    cache_histogram: [0, 0, 0, 0, 0, 0, 0, 0, 0, 0],
                    not_found: 0,
                },
                network: Network {
                    net_count: 18628,
                    udp_count: 0,
                    tcp_count: 18628,
                    tcp_connect: 6,
                },
                server_rpc: ServerRPC {
                    rpc_count: 18628,
                    bad_cnt: 0,
                    bad_fmt: 0,
                    bad_auth: 0,
                    badc_int: 0,
                },
                v2_stats: V2Stats {
                    null: 2,
                    get_attr: 69,
                    set_attr: 0,
                    root: 0,
                    lookup: 4410,
                    read_link: 0,
                    read: 0,
                    wr_cache: 0,
                    write: 0,
                    create: 0,
                    remove: 0,
                    rename: 0,
                    link: 0,
                    sym_link: 0,
                    mkdir: 0,
                    rmdir: 0,
                    read_dir: 99,
                    fs_stat: 2,
                },
                v3_stats: V3Stats {
                    null: 2,
                    get_attr: 112,
                    set_attr: 0,
                    lookup: 2719,
                    access: 111,
                    read_link: 0,
                    read: 0,
                    write: 0,
                    create: 0,
                    mkdir: 0,
                    sym_link: 0,
                    mknod: 0,
                    remove: 0,
                    rmdir: 0,
                    rename: 0,
                    link: 0,
                    read_dir: 27,
                    read_dir_plus: 216,
                    fs_stat: 0,
                    fs_info: 2,
                    path_conf: 1,
                    commit: 0,
                },
                server_v4_stats: ServerV4Stats {
                    null: 2,
                    compound: 10853,
                },
                v4_ops: V4Ops {
                    op0_unused: 0,
                    op1_unused: 0,
                    op2_future: 0,
                    access: 1098,
                    close: 2,
                    commit: 0,
                    create: 0,
                    deleg_purge: 0,
                    deleg_return: 0,
                    get_attr: 8179,
                    get_fh: 5896,
                    link: 0,
                    lock: 0,
                    lockt: 0,
                    locku: 0,
                    lookup: 5900,
                    lookup_root: 0,
                    nverify: 0,
                    open: 2,
                    open_attr: 0,
                    open_confirm: 2,
                    open_dgrd: 0,
                    put_fh: 9609,
                    put_pub_fh: 0,
                    put_root_fh: 2,
                    read: 150,
                    readdir: 1272,
                    read_link: 0,
                    remove: 0,
                    rename: 0,
                    renew: 1236,
                    restore_fh: 0,
                    save_fh: 0,
                    sec_info: 0,
                    set_attr: 0,
                    set_client_id: 3,
                    set_client_id_confirm: 3,
                    verify: 0,
                    write: 0,
                    rel_lock_owner: 0,
                },
                wdeleg_getattr: 16
            },
            false
        ),
    ];

    for (_name, input, stats, valid) in cases {
        let result = parse_server_rpc_stats(input);
        if valid && result.is_err() {
            continue;
        }

        assert_eq!(result.unwrap(), stats);
    }
}

#[test]
fn server_lines_that_do_not_fit_are_errors() {
    assert_eq!(parse_server_rpc_stats("invalid"), Err(Error::Invalid("NFSd metric line")));
    assert_eq!(parse_server_rpc_stats("th 8"), Err(Error::Invalid("NFSd th metric line")));
    assert_eq!(parse_server_rpc_stats("bogus 1 2"), Err(Error::Invalid("NFSd metric line")));
    assert_eq!(parse_server_rpc_stats(""), Ok(ServerRPCStats::default()));
}

#[test]
fn threads_line_reads_the_first_two_counts() {
    let got = parse_server_rpc_stats("th 8 3 0.000 0.000\n").unwrap();
    assert_eq!(got.threads, Threads { threads: 8, full_cnt: 3 });
}

#[test]
fn nfsd_samples_in_order() {
    let stats = parse_server_rpc_stats("rc 1 2 3\nwdeleg_getattr 16\n").unwrap();
    let samples = nfsd_samples(&stats);
    assert_eq!(samples.len(), 90);
    assert_eq!(samples[0].name, "node_nfsd_reply_cache_hits_total");
    assert_eq!(samples[0].value, 1);
    assert_eq!(samples[0].kind, Kind::Sum);
    let last = &samples[89];
    assert_eq!(last.name, "node_nfsd_requests_total");
    assert_eq!(
        last.tags,
        vec![("proto", TagValue::Text("4")), ("method", TagValue::Text("WdelegGetattr"))]
    );
    assert_eq!(last.value, 16);
}

#[test]
fn server_lines_are_readable_on_this_machine() {
    assert!(server_lines_ok("rc 0 6 18622\nproc4ops 2 0 1\n"));
}
