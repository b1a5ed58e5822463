use vertex_sources::node::pcidevice::{parse_location, Location, PowerState};
use vertex_sources::node::processes::{parse_state as parse_stat_state, Stats};
use vertex_sources::node::rapl::get_name_and_index;
use vertex_sources::node::schedstat::parse_sched_state;
use vertex_sources::node::softnet::parse_softnet;
use vertex_sources::node::swap::{parse_swap_line, Swap};
use vertex_sources::node::udp_queues::{parse_net_ip_socket_queues, try_socket_summary};
use vertex_sources::node::Error;
use vertex_sources::node::udp_queues;
use vertex_sources::node::xfrm::{parse_xfrm_line, xfrm_metric};
use vertex_sources::node::vmstat::vmstat_entry;
use vertex_sources::pattern::Pattern;
use vertex_sources::node::nvme::namespace_id;

#[test]
fn location() {
    let location = parse_location("0001:9b:0c.0").unwrap();

    assert_eq!(
        location,
        Location {
            segment: 1,
            bus: 0x9b,
            device: 0xc,
            function: 0,
        }
    )
}

#[test]
fn location_too_few_parts() {
    assert_eq!(parse_location("0001:9b:0c"), None);
    assert_eq!(parse_location("0001:9b:zz.0"), None);
    // a fifth piece is ignored
    assert_eq!(
        parse_location("0000:00:02.1.7"),
        Some(Location {
            segment: 0,
            bus: 0,
            device: 2,
            function: 1
        })
    );
}

#[test]
fn power_state_names() {
    assert_eq!(PowerState::from_content(b"D3hot").as_str(), "D3hot");
    assert_eq!(PowerState::from_content(b"D0"), PowerState::D0);
    assert_eq!(PowerState::from_content(b"error").as_str(), "error");
    assert_eq!(PowerState::from_content(b"D4").as_str(), "unknown");
    assert_eq!(PowerState::D3Cold.as_str(), "D3cold");
}

#[test]
fn stats() {
    let mut stats = Stats::new();
    assert_eq!(stats.total(), 0usize);

    stats.append(b"R");
    assert_eq!(stats.total(), 1);

    stats.append(b"R");
    assert_eq!(stats.total(), 2);

    stats.append(b"S");
    assert_eq!(stats.total(), 3);
    assert_eq!(stats.len(), 2);

    stats.clear();
    assert_eq!(stats.total(), 0);
    assert_eq!(stats.len(), 2);
}

#[test]
fn parse_state() {
    let input = r#"26231 (vim) R 5392 7446 5392 34835 7446 4218880 32533 309516 26 82 1677 44 158 99 20 0 1 0 82375 56274944 1981 18446744073709551615 4194304 6294284 140736914091744 140736914087944 139965136429984 0 0 12288 1870679807 0 0 0 17 0 0 0 31 0 0 8391624 8481048 16420864 140736914093252 140736914093279 140736914093279 140736914096107 0"#;

    let c = parse_stat_state(input);

    assert_eq!(c, Some(&b"R"[..]));
}

#[test]
fn parse_state_nested_parentheses() {
    assert_eq!(parse_stat_state("1 (a (b) c) S 0"), Some(&b"S"[..]));
    assert_eq!(parse_stat_state("1 (a) "), None);
    assert_eq!(parse_stat_state("no parentheses"), None);
}

#[test]
fn test_get_name_and_index() {
    assert_eq!(get_name_and_index("package-10"), Some((&b"package"[..], 10)));
    assert_eq!(get_name_and_index("abc"), None);
    assert_eq!(get_name_and_index("package-"), None)
}

#[test]
fn schedstat_parse() {
    let line = "0 498494191 0 3533438552 2553969831 3853684107 2465731542 2045936778163039 343796328169361 4767485306";
    let stat = parse_sched_state(line).unwrap();

    assert_eq!(stat.cpu, b"0");
    assert_eq!(stat.running_nanoseconds, 2045936778163039);
    assert_eq!(stat.waiting_nanoseconds, 343796328169361);
    assert_eq!(stat.run_time_slices, 4767485306)
}

#[test]
fn schedstat_short_or_bad_line() {
    assert!(parse_sched_state("0 1 2 3 4 5 6 7 8").is_none());
    assert!(parse_sched_state("0 1 2 3 4 5 6 x 8 9").is_none());
}

#[test]
fn test_bad_softnet_line() {
    let line = "00015c73 00020e76 F0000769 00000000\n";

    assert!(parse_softnet(line, 0).is_err());
}

#[test]
fn test_parse_softnet() {
    let line = "00015c73 00020e76 F0000769 00000000 00000000 00000000 00000000 00000000 00000000 00000000 00000000\n";

    let stat = parse_softnet(line, 0).unwrap();
    assert_eq!(stat.processed, 0x00015c73);
    assert_eq!(stat.dropped, 0x00020e76);
    assert_eq!(stat.time_squeezed, 0xf0000769);
}

#[test]
fn softnet_new_kernel_line() {
    let line = "00000001 00000002 00000003 0 0 0 0 0 00000004 00000005 00000006 00000007 0000000a";
    let stat = parse_softnet(line, 3).unwrap();
    assert_eq!(stat.cpu_collision, 4);
    assert_eq!(stat.received_rps, 5);
    assert_eq!(stat.flow_limit_count, 6);
    assert_eq!(stat.softnet_backlog_len, 7);
    assert_eq!(stat.index, 10);
    assert_eq!(stat.width, 13);

    let old = parse_softnet("1 2 3 0 0 0 0 0 4", 3).unwrap();
    assert_eq!(old.index, 3);
    assert_eq!(old.received_rps, 0);
    assert_eq!(old.width, 9);

    assert_eq!(
        parse_softnet("1 2 zz 0 0 0 0 0 4", 0),
        Err(Error::ParseInt)
    );
}

#[test]
fn swap_parse() {
    for (line, expect) in [
        (
            "/dev/dm-2                               partition       131068  1024    -2",
            Some(Swap {
                device: b"/dev/dm-2",
                typ: b"partition",
                size: 131068,
                used: 1024,
                priority: -2,
            }),
        ),
        (
            "/foo                                    file            1048572 0       -3",
            Some(Swap {
                device: b"/foo",
                typ: b"file",
                size: 1048572,
                used: 0,
                priority: -3,
            }),
        ),
        (
            "/dev/sda2                               partition       hello   world   -2",
            None,
        ),
        (
            "/dev/dm-2                               partition       131068  1024",
            None,
        ),
    ] {
        let got = parse_swap_line(line).ok();
        assert_eq!(got, expect, "{line}");
    }
}

#[test]
fn swap_errors_name_the_missing_field() {
    assert_eq!(parse_swap_line(""), Err(Error::Malformed("filename")));
    assert_eq!(parse_swap_line("/dev/sda"), Err(Error::Malformed("type")));
    assert_eq!(parse_swap_line("/dev/sda file"), Err(Error::Malformed("size")));
    assert_eq!(parse_swap_line("/dev/sda file x"), Err(Error::ParseInt));
    assert_eq!(parse_swap_line("/dev/sda file 1 2"), Err(Error::Malformed("priority")));
}

#[test]
fn udp_queues_parse() {
    let line = "   73: 0100007F:0143 00000000:0000 07 00000010:00000005 00:00000000 00000000     0        0 36799 2 0000000000000000 0 ";
    let (tx, rx) = parse_net_ip_socket_queues(line).unwrap();

    assert_eq!(tx, 16);
    assert_eq!(rx, 5);
}

#[test]
fn udp_queues_errors() {
    assert_eq!(
        parse_net_ip_socket_queues("1: 2 3 4"),
        Err(Error::Invalid("invalid field"))
    );
    assert_eq!(
        parse_net_ip_socket_queues("1: 2 3 4 0000001g:00000005"),
        Err(Error::ParseInt)
    );
}

#[test]
fn process_states_are_listed_in_first_seen_order() {
    let mut stats = Stats::new();
    stats.append(b"S");
    stats.append(b"R");
    stats.append(b"S");
    assert_eq!(stats.len(), 2);
    assert_eq!(stats.state_at(0), (&b"S"[..], 2));
    assert_eq!(stats.state_at(1), (&b"R"[..], 1));
    assert_eq!(stats.total(), 3);
}

#[test]
fn xfrm_lines() {
    assert_eq!(parse_xfrm_line(""), Ok(None));
    assert_eq!(parse_xfrm_line("   "), Ok(None));
    assert_eq!(
        parse_xfrm_line("XfrmInError             \t1"),
        Ok(Some((&b"XfrmInError"[..], &b"1"[..])))
    );
    assert_eq!(parse_xfrm_line("XfrmInError"), Err(Error::Malformed("xfrm_stat")));
    assert_eq!(
        xfrm_metric(b"XfrmInError"),
        Some(("node_xfrm_in_error_packets_total", "All errors not matched by other"))
    );
    assert_eq!(
        xfrm_metric(b"XfrmAcquireError"),
        Some((
            "node_xfrm_acquire_error_packets_total",
            "State hasn’t been fully acquired before use"
        ))
    );
    assert_eq!(
        xfrm_metric(b"XfrmInStateExpired"),
        Some(("node_xfrm_in_state_expired", "State is expired"))
    );
    assert_eq!(xfrm_metric(b"XfrmUnknown"), None);
}

#[test]
fn vmstat_entries() {
    let wanted = Pattern::new("^(oom_kill|pgpg|pswp|pg.*fault).*").unwrap();
    assert_eq!(
        vmstat_entry(&wanted, "pgpgin 2155380"),
        Some((&b"pgpgin"[..], &b"2155380"[..]))
    );
    assert_eq!(
        vmstat_entry(&wanted, "pgmajfault 4242"),
        Some((&b"pgmajfault"[..], &b"4242"[..]))
    );
    assert_eq!(vmstat_entry(&wanted, "nr_free_pages 12345"), None);
    assert_eq!(vmstat_entry(&wanted, "oom_kill"), None);
}

#[test]
fn nvme_namespace_ids() {
    let pattern = Pattern::new(r"nvme\d+c\d+n(\d+)").unwrap();
    assert_eq!(namespace_id(&pattern, "nvme0c0n1"), Some(&b"1"[..]));
    assert_eq!(namespace_id(&pattern, "nvme12c3n42"), Some(&b"42"[..]));
    assert_eq!(namespace_id(&pattern, "nvme0n1"), None);
    assert_eq!(namespace_id(&pattern, "hwmon0"), None);
    let plain = Pattern::new("nvme").unwrap();
    assert_eq!(plain.capture("nvme0", 1), None);
    assert_eq!(plain.capture("x-nvme0", 0), Some(&b"nvme"[..]));
}

const UDP_HEADER: &str = "  sl  local_address rem_address   st tx_queue rx_queue tr tm->when retrnsmt   uid  timeout inode ref pointer drops";

#[test]
fn socket_summary() {
    // three sockets whose queues add up to 2 and 2
    let udp = format!(
        "{}\n{}\n{}\n{}\n",
        UDP_HEADER,
        "  104: 00000000:0277 00000000:0000 07 00000001:00000000 00:00000000 00000000     0        0 15766 2 0000000000000000 0",
        "  217: 00000000:0035 00000000:0000 07 00000000:00000001 00:00000000 00000000     0        0 15767 2 0000000000000000 0",
        "  371: 0100007F:14E9 00000000:0000 07 00000001:00000001 00:00000000 00000000   101        0 15768 2 0000000000000000 0",
    );
    assert_eq!(udp_queues::socket_summary(&udp), Ok((3, 2, 2)));

    // two IPv6 sockets with empty queues
    let udp6 = format!(
        "{}\n{}\n{}\n",
        UDP_HEADER,
        "  315: 00000000000000000000000000000000:14E9 00000000000000000000000000000000:0000 07 00000000:00000000 00:00000000 00000000   101        0 15769 2 0000000000000000 0",
        "  890: 00000000000000000000000000000000:0222 00000000000000000000000000000000:0000 07 00000000:00000000 00:00000000 00000000     0        0 15770 2 0000000000000000 0",
    );
    assert_eq!(udp_queues::socket_summary(&udp6), Ok((2, 0, 0)));

    // a queue that is not hex is an error
    let broken = format!(
        "{}\n{}\n",
        UDP_HEADER,
        "  104: 00000000:0277 00000000:0000 07 0000000g:00000000 00:00000000 00000000     0        0 15766 2 0000000000000000 0",
    );
    assert!(udp_queues::socket_summary(&broken).is_err());
}

#[test]
fn socket_summary_edges() {
    // no lines, or only the header: nothing is counted
    assert_eq!(udp_queues::socket_summary(""), Ok((0, 0, 0)));
    assert_eq!(udp_queues::socket_summary(UDP_HEADER), Ok((0, 0, 0)));
    // a line with fewer than five fields
    let short = format!("{}\n1: 2 3 4\n", UDP_HEADER);
    assert_eq!(udp_queues::socket_summary(&short), Err(Error::Invalid("invalid field")));
    // the first bad line decides
    let two_bad = format!("{}\n1: a b c 0000001g:00000005\n1: 2 3 4\n", UDP_HEADER);
    assert_eq!(udp_queues::socket_summary(&two_bad), Err(Error::ParseInt));
    // hex queues are summed
    let hex = format!("{}\n1: a b c 000000FF:00000010\n2: a b c 00000001:00000001\n", UDP_HEADER);
    assert_eq!(udp_queues::socket_summary(&hex), Ok((2, 256, 17)));
    // a queue field too short to slice, and a total past u64::MAX
    let short_field = format!("{}\n1: a b c 0001:02\n", UDP_HEADER);
    assert_eq!(try_socket_summary(&short_field), None);
    let overflow = format!(
        "{}\n1: a b c 00000000:FFFFFFFFFFFFFFFF\n2: a b c 00000000:00000001\n",
        UDP_HEADER
    );
    assert_eq!(try_socket_summary(&overflow), None);
}
