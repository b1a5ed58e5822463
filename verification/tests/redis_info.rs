use std::time::Duration;

use vertex_sources::redis::info::{
    comma_fields, info_line, parse_error_stats, unreported_dbs, validate_slave_line, InfoEvent,
    InfoScan, StatsError,
};
use vertex_sources::redis::source::{
    default_namespace, sanitize_metric_name, RedisSource, RedisSourceConfig,
};

#[test]
fn error_stats_lines() {
    assert_eq!(parse_error_stats(b"errorstat_ERR", b"count=4"), Ok((&b"_ERR"[..], 4)));
    assert_eq!(parse_error_stats(b"errorstat_NOAUTH", b"count=3"), Ok((&b"_NOAUTH"[..], 3)));
    assert_eq!(
        parse_error_stats(b"cmdstat_get", b"count=3"),
        Err(StatsError::InvalidStatsLine("Errorstats"))
    );
    assert_eq!(
        parse_error_stats(b"errorstat_ERR", b"count"),
        Err(StatsError::InvalidStatsLine("Errorstats"))
    );
    assert_eq!(parse_error_stats(b"errorstat_ERR", b"count=x"), Err(StatsError::ParseInt));
}

#[test]
fn slave_keys() {
    assert!(validate_slave_line(b"slave0"));
    assert!(validate_slave_line(b"slave12"));
    assert!(!validate_slave_line(b"slave"));
    assert!(!validate_slave_line(b"slave1x"));
    assert!(!validate_slave_line(b"master0"));

    assert!(vertex_sources::redis::source::validate_slave_line(b"slave1x"));
    assert!(!vertex_sources::redis::source::validate_slave_line(b"slave"));
    assert!(!vertex_sources::redis::source::validate_slave_line(b"slavex"));
}

#[test]
fn metric_names_are_sanitized() {
    assert_eq!(sanitize_metric_name(b"used_cpu.sys-children"), b"used_cpu_sys_children".to_vec());
    assert_eq!(sanitize_metric_name("é1".as_bytes()), b"__1".to_vec());
    assert_eq!(sanitize_metric_name(b""), Vec::<u8>::new());
}

#[test]
fn source_from_config() {
    assert_eq!(default_namespace(), Some("redis".to_string()));
    let conf = RedisSourceConfig {
        url: "redis://localhost:6379".to_string(),
        interval: Duration::from_secs(15),
        namespace: default_namespace(),
        user: None,
        password: Some("secret".to_string()),
    };
    let src = RedisSource::from(&conf);
    assert_eq!(src.url, "redis://localhost:6379");
    assert_eq!(src.interval, Duration::from_secs(15));
    assert_eq!(src.namespace, Some("redis".to_string()));
    assert_eq!(src.client_name, None);
}

#[test]
fn info_scan_sections_and_fields() {
    let info = "# Server\r\nredis_version:7.0.5\r\nuptime_in_seconds:100\r\n\r\n# Replication\r\nrole:slave\r\nmaster_host:10.0.0.1\r\nmaster_port:6379\r\nmaster_link_status:up\r\nno colon here\r\n";
    let mut scan = InfoScan::new();
    let mut events = Vec::new();
    for line in info.split('\n') {
        let ev = info_line(&mut scan, line.as_bytes());
        if ev != InfoEvent::Skip {
            events.push((scan.section, ev));
        }
    }
    assert_eq!(
        events,
        vec![
            (&b"Server"[..], InfoEvent::Field(b"uptime_in_seconds", b"100")),
            (&b"Replication"[..], InfoEvent::Field(b"master_link_status", b"up")),
        ]
    );
    assert_eq!(scan.master_host, b"10.0.0.1");
    assert_eq!(scan.master_port, b"6379");
    assert_eq!(scan.instance_infos.get(b"redis_version").unwrap(), b"7.0.5");
    assert_eq!(scan.instance_infos.get(b"role").unwrap(), b"slave");
    assert_eq!(scan.slave_infos.get(b"master_host").unwrap(), b"10.0.0.1");
    assert_eq!(scan.slave_infos.len(), 2);
    // "role" is an instance field, so the scan's own role stays empty.
    assert_eq!(scan.role, b"");
}

#[test]
fn info_scan_trims_and_splits_at_first_colon() {
    let mut scan = InfoScan::new();
    assert_eq!(info_line(&mut scan, b"  cmdstat_get:calls=1,usec=2  "), InfoEvent::Field(b"cmdstat_get", b"calls=1,usec=2"));
    assert_eq!(info_line(&mut scan, b"db0:keys=1:x"), InfoEvent::Field(b"db0", b"keys=1:x"));
    assert_eq!(info_line(&mut scan, b"   "), InfoEvent::Skip);
    assert_eq!(info_line(&mut scan, b"# Keyspace"), InfoEvent::Skip);
    assert_eq!(scan.section, b"Keyspace");
}

#[test]
fn comma_separated_fields() {
    let fields = comma_fields(b"ip=10.254.11.1,port=6379,state=online,offset=1751844676,lag=0");
    assert_eq!(
        fields,
        vec![
            (&b"ip"[..], &b"10.254.11.1"[..]),
            (&b"port"[..], &b"6379"[..]),
            (&b"state"[..], &b"online"[..]),
            (&b"offset"[..], &b"1751844676"[..]),
            (&b"lag"[..], &b"0"[..]),
        ]
    );
    // pieces without '=' are skipped; a value keeps any later '='
    let fields = comma_fields(b"p50=0.001,junk,,p99.9=a=b");
    assert_eq!(fields, vec![(&b"p50"[..], &b"0.001"[..]), (&b"p99.9"[..], &b"a=b"[..])]);
    assert!(comma_fields(b"").is_empty());
}

#[test]
fn databases_missing_from_keyspace() {
    let handled: Vec<&[u8]> = vec![b"db0", b"db2", b"db10"];
    assert_eq!(unreported_dbs(4, &handled), vec![1, 3]);
    assert_eq!(unreported_dbs(12, &handled), vec![1, 3, 4, 5, 6, 7, 8, 9, 11]);
    assert_eq!(unreported_dbs(0, &handled), Vec::<u64>::new());
    assert_eq!(unreported_dbs(2, &vec![]), vec![0, 1]);
}
