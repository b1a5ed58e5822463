use vertex_sources::node::sockstat::{parse_protocol_stats, parse_sockstat, ProtocolStats};
use vertex_sources::node::Error;

const SOCKSTAT6: &str = "TCP6: inuse 17
UDP6: inuse 9
UDPLITE6: inuse 0
RAW6: inuse 1
FRAG6: inuse 0 memory 0
";

const SOCKSTAT: &str = "sockets: used 1602
TCP: inuse 35 orphan 0 tw 4 alloc 59 mem 22
UDP: inuse 12 mem 62
UDPLITE: inuse 0
RAW: inuse 0
FRAG: inuse 0 memory 0
";

#[test]
fn sockstat_parse() {
    let ns = parse_sockstat(SOCKSTAT6).unwrap();
    assert_eq!(ns.used, None);

    // TCP6
    let (protocol, nsp) = ns.protocols.first().unwrap();
    assert_eq!(*protocol, b"TCP6");
    assert_eq!(nsp.inuse, 17);
    assert_eq!(nsp.orphan, None);
    assert_eq!(nsp.tw, None);

    // UDP6
    let (protocol, nsp) = ns.protocols.get(1).unwrap();
    assert_eq!(*protocol, b"UDP6");
    assert_eq!(nsp.inuse, 9);
    assert_eq!(nsp.mem, None);

    // UDPLITE6
    let (protocol, nsp) = ns.protocols.get(2).unwrap();
    assert_eq!(*protocol, b"UDPLITE6");
    assert_eq!(nsp.inuse, 0);

    // RAW6
    let (protocol, nsp) = ns.protocols.get(3).unwrap();
    assert_eq!(*protocol, b"RAW6");
    assert_eq!(nsp.inuse, 1);

    // FRAG6
    let (protocol, nsp) = ns.protocols.get(4).unwrap();
    assert_eq!(*protocol, b"FRAG6");
    assert_eq!(nsp.inuse, 0);
    assert_eq!(nsp.memory, Some(0));
}

#[test]
fn sockstat_ipv4_with_used_sockets() {
    let ns = parse_sockstat(SOCKSTAT).unwrap();
    assert_eq!(ns.used, Some(1602));
    assert_eq!(ns.protocols.len(), 5);
    assert_eq!(
        ns.protocols[0].1,
        ProtocolStats {
            inuse: 35,
            orphan: Some(0),
            tw: Some(4),
            alloc: Some(59),
            mem: Some(22),
            memory: None,
        }
    );
}

#[test]
fn sockstat_errors() {
    assert_eq!(
        parse_sockstat("sockets: 12\n").unwrap_err(),
        Error::Malformed("sockets line of sockstat")
    );
    assert_eq!(
        parse_sockstat("sockets: free 12\n").unwrap_err(),
        Error::Malformed("sockets line of sockstat")
    );
    assert_eq!(parse_sockstat("sockets: used x\n").unwrap_err(), Error::ParseInt);
    assert_eq!(parse_protocol_stats(b" inuse"), Err(Error::Malformed("protocol stats")));
    assert_eq!(parse_protocol_stats(b" inuse 1 tw"), Err(Error::Malformed("protocol stats")));
    assert_eq!(parse_protocol_stats(b" inuse x"), Err(Error::ParseInt));
}

#[test]
fn sockets_line_is_trimmed_and_lines_without_colon_skipped() {
    let ns = parse_sockstat("no colon here\nsockets:   used 7  \n").unwrap();
    assert_eq!(ns.used, Some(7));
    assert!(ns.protocols.is_empty());
}

#[test]
fn unknown_keys_are_ignored() {
    assert_eq!(
        parse_protocol_stats(b" foo 3 inuse 2"),
        Ok(ProtocolStats {
            inuse: 2,
            orphan: None,
            tw: None,
            alloc: None,
            mem: None,
            memory: None,
        })
    );
}
