use vertex_sources::ping::calculate_checksum;
use vertex_sources::ping::default_ttl;
use vertex_sources::ping::echo_request;
use vertex_sources::ping::next_sequence;
use vertex_sources::ping::parse_echo_reply;
use vertex_sources::ping::rtt_extremes;

#[test]
fn checksum() {
    let input = [
        30, 119, 10, 10, 60, 31, 200, 87, 169, 36, 250, 118, 59, 138, 178, 61, 60, 255, 234,
        166, 44, 14, 120, 191, 9, 200, 174, 139, 71, 175, 93, 110,
    ];
    let c = calculate_checksum(&input);

    assert_eq!(c, 51489);
}

#[test]
fn checksum_ignores_its_own_field() {
    let mut input = [8u8, 0, 0, 0, 1, 2, 3, 4, 5];
    let a = calculate_checksum(&input);
    input[2] = 0xab;
    input[3] = 0xcd;
    assert_eq!(calculate_checksum(&input), a);
    // odd length: the last byte counts alone
    assert_eq!(calculate_checksum(&[0x01]), 0xfffe);
}

#[test]
fn sequence_counts_from_one_and_wraps() {
    assert_eq!(next_sequence(0), 1);
    assert_eq!(next_sequence(41), 42);
    assert_eq!(next_sequence(65535), 1);
}

#[test]
fn echo_request_layout() {
    let tracker: u128 = 0x0102_0304_0506_0708_090a_0b0c_0d0e_0f10;
    let req = echo_request(0x1234, 7, -2, tracker, false);
    assert_eq!(req.len(), 32);
    assert_eq!(&req[0..4], &[8, 0, 0, 0]);
    assert_eq!(&req[4..6], &0x1234u16.to_le_bytes());
    assert_eq!(&req[6..8], &7u16.to_le_bytes());
    assert_eq!(&req[8..16], &(-2i64).to_le_bytes());
    assert_eq!(&req[16..32], &tracker.to_le_bytes());
}

#[test]
fn echo_request_carries_its_checksum_for_ipv4() {
    let req = echo_request(9, 3, 1_700_000_000_000_000_000, 77, true);
    let c = calculate_checksum(&req);
    assert_eq!(&req[2..4], &c.to_le_bytes());
    assert_ne!(c, 0);
}

#[test]
fn echo_reply_gives_back_time_and_tracker() {
    let req = echo_request(1, 2, 123_456_789, 0xdead_beef, true);
    assert_eq!(parse_echo_reply(&req), Some((123_456_789, 0xdead_beef)));
    assert_eq!(parse_echo_reply(&req[..31]), None);
    assert_eq!(parse_echo_reply(&[]), None);
}

#[test]
fn round_trip_extremes() {
    assert_eq!(rtt_extremes(&vec![]), (0, 0, 0));
    assert_eq!(rtt_extremes(&vec![5, 100_000, 3]), (100_000, 3, 100_008));
    assert_eq!(rtt_extremes(&vec![70_000]), (70_000, 70_000, 70_000));
    assert_eq!(rtt_extremes(&vec![100_000, 90_000]), (100_000, 90_000, 190_000));
    assert_eq!(rtt_extremes(&vec![-4]), (-4, -4, -4));
}

#[test]
fn ttl_defaults_to_64() {
    assert_eq!(default_ttl(), 64);
}

#[test]
fn checksum_law_on_longest_buffer() {
    let a = [8u8, 0, 0, 0, 0x12, 0x34, 0x56, 0x78, 0x9a];
    let mut b = a;
    b[2] = 0xab;
    b[3] = 0xcd;
    assert_eq!(calculate_checksum(&a), calculate_checksum(&b));
    let long = vec![0xffu8; 65536];
    let mut other = long.clone();
    other[2] = 0;
    other[3] = 7;
    assert_eq!(calculate_checksum(&long), calculate_checksum(&other));
}
