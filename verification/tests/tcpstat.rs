use vertex_sources::metric::TagValue;
use vertex_sources::node::tcpstat::{
    add_messages, request_message, tcp_samples, try_add_messages, Header, TcpStats, INET_DIAG_MSG_LEN,
    NETLINK_HEADER_LEN,
};

#[test]
fn sizes() {
    assert_eq!(size_of::<Header>(), NETLINK_HEADER_LEN);
    assert_eq!(INET_DIAG_MSG_LEN, 72);
}

fn message(typ: u16, flags: u16, state: u8, rx: u32, tx: u32) -> Vec<u8> {
    let mut m = Vec::new();
    m.extend_from_slice(&88u32.to_le_bytes());
    m.extend_from_slice(&typ.to_le_bytes());
    m.extend_from_slice(&flags.to_le_bytes());
    m.extend_from_slice(&1u32.to_le_bytes());
    m.extend_from_slice(&0u32.to_le_bytes());
    let mut body = vec![0u8; 72];
    body[0] = 2;
    body[1] = state;
    body[56..60].copy_from_slice(&rx.to_le_bytes());
    body[60..64].copy_from_slice(&tx.to_le_bytes());
    m.extend_from_slice(&body);
    m
}

#[test]
fn request_asks_for_every_tcp_state() {
    let msg = request_message(10);
    assert_eq!(msg.len(), 72);
    assert_eq!(&msg[..8], &[72, 0, 0, 0, 20, 0, 1, 3]);
    assert_eq!(msg[16], 10);
    assert_eq!(&msg[17..22], &[6, 2, 0, 255, 15]);
}

#[test]
fn reply_messages_are_counted() {
    let mut buf = vec![0u8; 4096];
    let mut reply = message(20, 2, 1, 5, 7);
    reply.extend(message(20, 2, 10, 0, 1));
    reply.extend(message(3, 2, 0, 0, 0));
    buf[..reply.len()].copy_from_slice(&reply);

    let mut stats = TcpStats::new();
    let more = add_messages(&buf, reply.len(), &mut stats).unwrap();
    assert!(!more);
    assert_eq!(stats.established, 1);
    assert_eq!(stats.listen, 1);
    assert_eq!(stats.rx_queued, 5);
    assert_eq!(stats.tx_queued, 8);

    let samples = tcp_samples(&stats);
    assert_eq!(samples.len(), 4);
    assert_eq!(samples[0].tags, vec![("state", TagValue::Text("established"))]);
    assert_eq!(samples[3].tags, vec![("state", TagValue::Text("tx_queued_bytes"))]);
    assert_eq!(samples[3].value, 8);
}

#[test]
fn reply_without_done_asks_for_more_and_short_reply_fails() {
    let mut buf = vec![0u8; 4096];
    let reply = message(20, 2, 6, 0, 0);
    buf[..reply.len()].copy_from_slice(&reply);
    let mut stats = TcpStats::new();
    assert_eq!(add_messages(&buf, reply.len(), &mut stats), Ok(true));
    assert_eq!(stats.time_wait, 1);

    let mut stats = TcpStats::new();
    assert_eq!(add_messages(&buf, 40, &mut stats), Err(()));
}

#[test]
fn messages_outside_a_multi_part_reply_are_counted_and_passed() {
    let mut buf = vec![0u8; 4096];
    let mut reply = message(20, 0, 1, 3, 4);
    reply.extend(message(20, 2, 10, 0, 0));
    reply.extend(message(3, 2, 0, 0, 0));
    buf[..reply.len()].copy_from_slice(&reply);
    let mut stats = TcpStats::new();
    assert_eq!(try_add_messages(&buf, reply.len(), &mut stats), Some(Ok(false)));
    assert_eq!(stats.established, 1);
    assert_eq!(stats.listen, 1);
    assert_eq!(stats.rx_queued, 3);

    // a lone message outside a multi-part reply: read, and no part follows
    let reply = message(20, 0, 6, 0, 0);
    let mut buf = vec![0u8; 4096];
    buf[..reply.len()].copy_from_slice(&reply);
    let mut stats = TcpStats::new();
    assert_eq!(add_messages(&buf, reply.len(), &mut stats), Ok(false));
    assert_eq!(stats.time_wait, 1);
}

#[test]
fn replies_that_would_not_end() {
    // a message of length 0: reading it would never end
    let mut b = vec![0u8; 120];
    b[4] = 20;
    b[6] = 2;
    let mut stats = TcpStats::new();
    assert_eq!(try_add_messages(&b, 120, &mut stats), None);
    assert_eq!(stats, TcpStats::new());
    // of 88 bytes, of type NLMSG_DONE: read, and nothing more follows
    b[0] = 88;
    b[4] = 3;
    assert_eq!(try_add_messages(&b, 100, &mut stats), Some(Ok(false)));
    // a length beyond what was read
    b[0] = 200;
    assert_eq!(try_add_messages(&b, 120, &mut stats), Some(Err(())));
}
