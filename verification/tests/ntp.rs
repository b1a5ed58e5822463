use vertex_sources::ntp::{pool_address, pool_addresses, LeapWatch, Picker, Reply};

const DAY: i64 = 86_400_000_000_000;

#[test]
fn pool_addresses_get_a_port() {
    assert_eq!(pool_address("pool.ntp.org"), Some("pool.ntp.org:123".to_string()));
    assert_eq!(pool_address("10.0.0.1:1123"), Some("10.0.0.1:1123".to_string()));
    assert_eq!(pool_address("10.0.0.1:65536"), None);
    assert_eq!(pool_address("10.0.0.1:"), None);
    assert_eq!(pool_address("10.0.0.1:ntp"), None);
    let pools = vec!["a".to_string(), "b:123".to_string(), "c:x".to_string()];
    assert_eq!(pool_addresses(&pools), Err(2));
    let pools = vec!["a".to_string(), "b:124".to_string()];
    assert_eq!(pool_addresses(&pools), Ok(vec!["a:123".to_string(), "b:124".to_string()]));
}

#[test]
fn picks_go_round() {
    let mut picker = Picker::new(vec!["a".to_string(), "b".to_string(), "c".to_string()]);
    assert_eq!(picker.len(), 3);
    assert_eq!(picker.pick_one(), "b");
    assert_eq!(picker.pick_one(), "c");
    assert_eq!(picker.pick_one(), "a");
    assert_eq!(picker.pick_one(), "b");
    assert_eq!(picker.picks(), 4);
}

fn reply(leap: u8, time: i64, min_err: i64) -> Reply {
    Reply {
        leap,
        time,
        root_distance: 1_000_000,
        min_err,
        valid: true,
    }
}

#[test]
fn leap_seconds_are_tolerated() {
    let now = 100 * DAY + 5;
    let mut watch = LeapWatch::new(0);
    // far from the leap midnight: a millisecond of error is tolerated
    assert!(watch.observe(&reply(0, now, 1_000_000)));
    assert!(!watch.observe(&reply(0, now, 1_000_001)));
    assert_eq!(watch, LeapWatch { max_err: 1_000_000, leap_midnight: 0 });

    // a leap second is announced: midnight is the end of the day, and the
    // reply is within a day of it
    assert!(watch.observe(&reply(1, now, 1_000_001)));
    assert_eq!(
        watch,
        LeapWatch {
            max_err: 1_001_000_000,
            leap_midnight: 101 * DAY as i128
        }
    );

    // an invalid reply, or one too far from the root, is not sane
    let mut bad = reply(0, now, 0);
    bad.valid = false;
    assert!(!watch.observe(&bad));
    let mut far = reply(0, now, 0);
    far.root_distance = 3_466_080_001;
    assert!(!watch.observe(&far));
}

#[test]
fn midnight_before_the_epoch() {
    let mut watch = LeapWatch::new(0);
    watch.observe(&reply(2, -DAY - 1, 0));
    assert_eq!(watch.leap_midnight, -(DAY as i128));
    let mut watch = LeapWatch::new(0);
    watch.observe(&reply(2, -DAY, 0));
    assert_eq!(watch.leap_midnight, 0);
}
