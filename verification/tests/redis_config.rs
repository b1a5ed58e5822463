use vertex_sources::redis::config::{buffer_limits, config_samples, Limit};
use vertex_sources::redis::connection::{frame_i64s, frame_pairs, Error, Frame};
use vertex_sources::redis::slowlog::slowlog_last;
use vertex_sources::metric::Kind;
use vertex_sources::redis::generic::{generic_metric, word_value, GenericMetric};
use vertex_sources::redis::connection::frame_pair_maps;
use vertex_sources::redis::sentinel::{count_ok, master_of, master_setting};

#[test]
fn integer_settings() {
    let reply = b"*8\r\n$9\r\nmaxmemory\r\n$4\r\n1024\r\n$10\r\nio-threads\r\n$1\r\n4\r\n$10\r\nmaxclients\r\n$4\r\nmany\r\n$9\r\ndatabases\r\n$2\r\n16\r\n";
    let frame = Frame::parse(reply).unwrap().unwrap();
    let config = frame_pairs(&frame).unwrap();
    let samples = config_samples(&config);
    let got: Vec<(&str, i128)> = samples.iter().map(|s| (s.name, s.value)).collect();
    assert_eq!(
        got,
        vec![
            ("redis_config_io_threads", 4),
            // not a number: 0
            ("redis_config_max_clients", 0),
            ("redis_config_max_memory", 1024),
        ]
    );
    assert!(samples.iter().all(|s| s.tags.is_empty() && s.description.is_empty()));
}

#[test]
fn missing_settings_give_no_samples() {
    let frame = Frame::parse(b"*2\r\n$9\r\ndatabases\r\n$2\r\n16\r\n").unwrap().unwrap();
    let config = frame_pairs(&frame).unwrap();
    assert!(config_samples(&config).is_empty());
}

#[test]
fn output_buffer_limits() {
    let got = buffer_limits(b"normal 0 0 0 slave 268435456 67108864 60 pubsub 33554432");
    assert_eq!(
        got,
        vec![
            (&b"normal"[..], Limit::Hard, &b"0"[..]),
            (&b"normal"[..], Limit::Soft, &b"0"[..]),
            (&b"normal"[..], Limit::SoftSeconds, &b"0"[..]),
            (&b"slave"[..], Limit::Hard, &b"268435456"[..]),
            (&b"slave"[..], Limit::Soft, &b"67108864"[..]),
            (&b"slave"[..], Limit::SoftSeconds, &b"60"[..]),
            (&b"pubsub"[..], Limit::Hard, &b"33554432"[..]),
        ]
    );
    assert!(buffer_limits(b"replica").is_empty());
    assert_eq!(
        Limit::SoftSeconds.metric(),
        (
            "redis_config_client_output_buffer_limit_overcome_seconds",
            "How long for buffer limits per class to be exceeded before replicas are dropped",
            "soft"
        )
    );
    assert_eq!(Limit::Hard.metric().2, "hard");
}

#[test]
fn integer_lists() {
    let frame = Frame::parse(b"*3\r\n:14\r\n:1700000000\r\n:25000\r\n").unwrap().unwrap();
    assert_eq!(frame_i64s(&frame), Ok(vec![14, 1700000000, 25000]));
    let frame = Frame::parse(b"*0\r\n").unwrap().unwrap();
    assert_eq!(frame_i64s(&frame), Ok(vec![]));
    let frame = Frame::parse(b"*2\r\n:1\r\n+OK\r\n").unwrap().unwrap();
    assert_eq!(frame_i64s(&frame), Err(Error::UnknownFrameType));
    let frame = Frame::parse(b":1\r\n").unwrap().unwrap();
    assert_eq!(frame_i64s(&frame), Err(Error::UnknownFrameType));
}

#[test]
fn last_slow_command() {
    assert_eq!(slowlog_last(&[14, 1700000000, 25000]), (14, 25000));
    assert_eq!(slowlog_last(&[14, 1700000000]), (14, 0));
    assert_eq!(slowlog_last(&[]), (0, 0));
}

#[test]
fn generic_fields() {
    assert_eq!(
        generic_metric(b"connected_clients"),
        Some(GenericMetric {
            kind: Kind::Gauge,
            name: "connected_clients",
            description: "Number of client connections (excluding connections from replicas)",
            micros: false,
        })
    );
    assert_eq!(
        generic_metric(b"total_connections_received"),
        Some(GenericMetric {
            kind: Kind::Sum,
            name: "connections_received_total",
            description: "Total number of connections accepted by the server",
            micros: false,
        })
    );
    // in both tables: the gauge wins
    assert_eq!(generic_metric(b"expired_time_cap_reached_count").map(|m| m.kind), Some(Kind::Gauge));
    let fork = generic_metric(b"latest_fork_usec").unwrap();
    assert_eq!((fork.name, fork.micros), ("latest_fork_seconds", true));
    assert_eq!(generic_metric(b"no_such_field"), None);
    assert_eq!(word_value(b"ok"), Some(1));
    assert_eq!(word_value(b"true"), Some(1));
    assert_eq!(word_value(b"fail"), Some(0));
    assert_eq!(word_value(b"false"), Some(0));
    assert_eq!(word_value(b"err"), Some(0));
    assert_eq!(word_value(b"12"), None);
}

#[test]
fn sentinel_replies() {
    let reply = b"*2\r\n*8\r\n$4\r\nname\r\n$8\r\nmymaster\r\n$2\r\nip\r\n$9\r\n127.0.0.1\r\n$4\r\nport\r\n$4\r\n6379\r\n$16\r\nfailover-timeout\r\n$5\r\n60000\r\n*2\r\n$4\r\nname\r\n$5\r\nother\r\n";
    let frame = Frame::parse(reply).unwrap().unwrap();
    let masters = frame_pair_maps(&frame).unwrap();
    assert_eq!(masters.len(), 2);
    assert_eq!(
        master_of(&masters[0]),
        Some((&b"mymaster"[..], &b"127.0.0.1"[..], &b"6379"[..]))
    );
    assert_eq!(master_of(&masters[1]), None);
    assert_eq!(master_setting(&masters[0], "failover-timeout"), 60000);
    assert_eq!(master_setting(&masters[0], "parallel-syncs"), 0);

    let peers = b"*3\r\n*2\r\n$5\r\nflags\r\n$8\r\nsentinel\r\n*2\r\n$5\r\nflags\r\n$15\r\ns_down,sentinel\r\n*2\r\n$4\r\nname\r\n$1\r\nx\r\n";
    let frame = Frame::parse(peers).unwrap().unwrap();
    let infos = frame_pair_maps(&frame).unwrap();
    assert_eq!(count_ok(&infos, 1), 2);
    assert_eq!(count_ok(&infos, 0), 1);

    let odd = Frame::parse(b"*1\r\n*1\r\n$4\r\nname\r\n").unwrap().unwrap();
    assert!(matches!(frame_pair_maps(&odd), Err(Error::OddArray)));
    let flat = Frame::parse(b"*1\r\n:1\r\n").unwrap().unwrap();
    assert!(matches!(frame_pair_maps(&flat), Err(Error::UnknownFrameType)));
}
