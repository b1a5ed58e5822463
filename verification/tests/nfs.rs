use vertex_sources::metric::{Kind, TagValue};
use vertex_sources::node::nfs::nfs_samples;
use vertex_sources::node::Error;
use vertex_sources::node::nfs::{
parse_client_rpc_stats, ClientRPC, ClientRPCStats, ClientV4Stats, Network, V2Stats, V3Stats,
};

#[test]
fn client_rpc_stats() {
    let cases = vec![
        (
            "invalid file",
            "invalid",
            true,
            ClientRPCStats::default(),
        ),
        (
            "good old kernel version file",
            "net 70 70 69 45
rpc 1218785755 374636 1218815394
proc2 18 16 57 74 52 71 73 45 86 0 52 83 61 17 53 50 23 70 82
proc3 22 0 1061909262 48906 4077635 117661341 5 29391916 2570425 2993289 590 0 0 7815 15 1130 0 3983 92385 13332 2 1 23729
proc4 48 98 51 54 83 85 23 24 1 28 73 68 83 12 84 39 68 59 58 88 29 74 69 96 21 84 15 53 86 54 66 56 97 36 49 32 85 81 11 58 32 67 13 28 35 1 90 26 1337
",
            false,
            ClientRPCStats {
                network: Network {
                    net_count: 70,
                    udp_count: 70,
                    tcp_count: 69,
                    tcp_connect: 45,
                },
                client_rpc: ClientRPC {
                    rpc_count: 1218785755,
                    retransmissions: 374636,
                    auth_refreshes: 1218815394,
                },
                v2_stats: V2Stats {
                    null: 16,
                    get_attr: 57,
                    set_attr: 74,
                    root: 52,
                    lookup: 71,
                    read_link: 73,
                    read: 45,
                    wr_cache: 86,
                    write: 0,
                    create: 52,
                    remove: 83,
                    rename: 61,
                    link: 17,
                    sym_link: 53,
                    mkdir: 50,
                    rmdir: 23,
                    read_dir: 70,
                    fs_stat: 82,
                },
                v3_stats: V3Stats {
                    null: 0,
                    get_attr: 1061909262,
                    set_attr: 48906,
                    lookup: 4077635,
                    access: 117661341,
                    read_link: 5,
                    read: 29391916,
                    write: 2570425,
                    create: 2993289,
                    mkdir: 590,
                    sym_link: 0,
                    mknod: 0,
                    remove: 7815,
                    rmdir: 15,
                    rename: 1130,
                    link: 0,
                    read_dir: 3983,
                    read_dir_plus: 92385,
                    fs_stat: 13332,
                    fs_info: 2,
                    path_conf: 1,
                    commit: 23729,
                },
                client_v4_stats: ClientV4Stats {
                    null: 98,
                    read: 51,
                    write: 54,
                    commit: 83,
                    open: 85,
                    open_confirm: 23,
                    open_noattr: 24,
                    open_downgrade: 1,
                    close: 28,
                    setattr: 73,
                    fs_info: 68,
                    renew: 83,
                    set_client_id: 12,
                    set_client_id_confirm: 84,
                    lock: 39,
                    lockt: 68,
                    locku: 59,
                    access: 58,
                    getattr: 88,
                    lookup: 29,
                    lookup_root: 74,
                    remove: 69,
                    rename: 96,
                    link: 21,
                    symlink: 84,
                    create: 15,
                    pathconf: 53,
                    stat_fs: 86,
                    read_link: 54,
                    read_dir: 66,
                    server_caps: 56,
                    deleg_return: 97,
                    get_acl: 36,
                    set_acl: 49,
                    fs_locations: 32,
                    release_lockowner: 85,
                    secinfo: 81,
                    fsid_present: 11,
                    exchange_id: 58,
                    create_session: 32,
                    destroy_session: 67,
                    sequence: 13,
                    get_lease_time: 28,
                    reclaim_complete: 35,
                    layout_get: 90,
                    get_device_info: 1,
                    layout_commit: 26,
                    layout_return: 1337,
                    secinfo_no_name: 0,
                    test_state_id: 0,
                    free_state_id: 0,
                    get_device_list: 0,
                    bind_conn_to_session: 0,
                    destroy_client_id: 0,
                    seek: 0,
                    allocate: 0,
                    deallocate: 0,
                    layout_stats: 0,
                    clone: 0,
                },
            },
        ),
        (
            "good file",
            "net 18628 0 18628 6
rpc 4329785 0 4338291
proc2 18 2 69 0 0 4410 0 0 0 0 0 0 0 0 0 0 0 99 2
proc3 22 1 4084749 29200 94754 32580 186 47747 7981 8639 0 6356 0 6962 0 7958 0 0 241 4 4 2 39
proc4 61 1 0 0 0 0 0 0 0 0 0 0 0 1 1 0 0 0 0 0 0 0 2 0 0 0 0 0 0 0 0 0 0 0 0 0 0 0 0 0 0 0 0 0 0 0 0 0 0 0 0 0 0 0 0 0 0 0 0 0 0 0
",
            false,
            ClientRPCStats {
                network: Network {
                    net_count: 18628,
                    udp_count: 0,
                    tcp_count: 18628,
                    tcp_connect: 6,
                },
                client_rpc: ClientRPC {
                    rpc_count: 4329785,
                    retransmissions: 0,
                    auth_refreshes: 4338291,
                },
                v2_stats: V2Stats {
                    null: 2,
                    get_attr: 69,
                    set_attr: 0,
                    root: 0,
                    lookup: 4410,
                    read_link: 0,
                    read: 0,
                    wr_cache: 0,
                    write: 0,
                    create: 0,
                    remove: 0,
                    rename: 0,
                    link: 0,
                    sym_link: 0,
                    mkdir: 0,
                    rmdir: 0,
                    read_dir: 99,
                    fs_stat: 2,
                },
                v3_stats: V3Stats {
                    null: 1,
                    get_attr: 4084749,
                    set_attr: 29200,
                    lookup: 94754,
                    access: 32580,
                    read_link: 186,
                    read: 47747,
                    write: 7981,
                    create: 8639,
                    mkdir: 0,
                    sym_link: 6356,
                    mknod: 0,
                    remove: 6962,
                    rmdir: 0,
                    rename: 7958,
                    link: 0,
                    read_dir: 0,
                    read_dir_plus: 241,
                    fs_stat: 4,
                    fs_info: 4,
                    path_conf: 2,
                    commit: 39,
                },
                client_v4_stats: ClientV4Stats {
                    null: 1,
                    read: 0,
                    write: 0,
                    commit: 0,
                    open: 0,
                    open_confirm: 0,
                    open_noattr: 0,
                    open_downgrade: 0,
                    close: 0,
                    setattr: 0,
                    fs_info: 0,
                    renew: 0,
                    set_client_id: 1,
                    set_client_id_confirm: 1,
                    lock: 0,
                    lockt: 0,
                    locku: 0,
                    access: 0,
                    getattr: 0,
                    lookup: 0,
                    lookup_root: 0,
                    remove: 2,
                    rename: 0,
                    link: 0,
                    symlink: 0,
                    create: 0,
                    pathconf: 0,
                    stat_fs: 0,
                    read_link: 0,
                    read_dir: 0,
                    server_caps: 0,
                    deleg_return: 0,
                    get_acl: 0,
                    set_acl: 0,
                    fs_locations: 0,
                    release_lockowner: 0,
                    secinfo: 0,
                    fsid_present: 0,
                    exchange_id: 0,
                    create_session: 0,
                    destroy_session: 0,
                    sequence: 0,
                    get_lease_time: 0,
                    reclaim_complete: 0,
                    layout_get: 0,
                    get_device_info: 0,
                    layout_commit: 0,
                    layout_return: 0,
                    secinfo_no_name: 0,
                    test_state_id: 0,
                    free_state_id: 0,
                    get_device_list: 0,
                    bind_conn_to_session: 0,
                    destroy_client_id: 0,
                    seek: 0,
                    allocate: 0,
                    deallocate: 0,
                    layout_stats: 0,
                    clone: 0,
                },
            },
        ),
    ];

    for (_name, input, invalid, stats) in cases {
        let result = parse_client_rpc_stats(input);
        if invalid && result.is_err() {
            continue;
        }

        assert_eq!(result.unwrap(), stats)
    }
}

#[test]
fn client_lines_that_do_not_fit_are_errors() {
    assert_eq!(parse_client_rpc_stats("invalid"), Err(Error::Invalid("NFS metric line")));
    assert_eq!(parse_client_rpc_stats("foo 1 2"), Err(Error::Invalid("NFS metric line")));
    assert_eq!(parse_client_rpc_stats("net 1 2 3"), Err(Error::Invalid("Network")));
    assert_eq!(parse_client_rpc_stats("rpc 1 2"), Err(Error::Invalid("RPC line")));
    assert_eq!(parse_client_rpc_stats(""), Ok(ClientRPCStats::default()));
}

#[test]
fn client_counts_that_are_not_numbers_count_zero() {
    let got = parse_client_rpc_stats("net 1 x 3 4\n").unwrap();
    assert_eq!(
        got.network,
        Network {
            net_count: 1,
            udp_count: 0,
            tcp_count: 3,
            tcp_connect: 4,
        }
    );
}

#[test]
fn later_lines_replace_earlier_ones() {
    let got = parse_client_rpc_stats("net 1 2 3 4\nnet 5 6 7 8\n").unwrap();
    assert_eq!(got.network.net_count, 5);
    assert_eq!(got.network.tcp_connect, 8);
}

#[test]
fn nfs_samples_in_order() {
    let stats = parse_client_rpc_stats("net 1 2 3 4\nproc4 2 7 8\n").unwrap();
    let samples = nfs_samples(&stats);
    assert_eq!(samples.len(), 105);
    assert_eq!(samples[0].name, "node_nfs_packets_total");
    assert_eq!(samples[0].value, 2);
    assert_eq!(samples[0].tags, vec![("protocol", TagValue::Text("udp"))]);
    assert_eq!(samples[2].name, "node_nfs_connections_total");
    assert_eq!(samples[2].value, 4);
    assert!(samples[2].tags.is_empty());
    let null4 = samples
        .iter()
        .find(|s| s.tags == vec![("proto", TagValue::Text("4")), ("method", TagValue::Text("Null"))])
        .unwrap();
    assert_eq!(null4.value, 7);
    assert_eq!(null4.kind, Kind::Sum);
}
