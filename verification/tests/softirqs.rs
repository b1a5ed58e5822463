use vertex_sources::node::softirqs::{parse_softirqs, Softirqs};
use vertex_sources::node::Error;

const SOFTIRQS: &str = "                    CPU0       CPU1
          HI:          3          0
       TIMER:    1024366     247490
      NET_TX:       2419       4561
      NET_RX:      28812      28694
       BLOCK:      24433     262755
    IRQ_POLL:          0          0
     TASKLET:        209        262
       SCHED:    2278692    2052282
     HRTIMER:       1281        229
         RCU:     605871     532783
";

#[test]
fn softirqs_parse() {
    let stat = parse_softirqs(SOFTIRQS).unwrap();

    assert_eq!(stat.hi[0], 3);
    assert_eq!(stat.timer[1], 247490);
    assert_eq!(stat.net_tx[0], 2419);
    assert_eq!(stat.net_rx[1], 28694);
    assert_eq!(stat.block[1], 262755);
    assert_eq!(stat.irq_poll[0], 0);
    assert_eq!(stat.tasklet[0], 209);
    assert_eq!(stat.sched[0], 2278692);
    assert_eq!(stat.hr_timer[0], 1281);
    assert_eq!(stat.rcu[1], 532783);
}

#[test]
fn softirqs_bad_count_is_an_error() {
    assert_eq!(parse_softirqs("HI: 1 x\n"), Err(Error::ParseInt));
}

#[test]
fn softirqs_lines_without_counts_or_known_labels_are_skipped() {
    let stat = parse_softirqs("HI:\nFOO: 1 2\nRCU: 7\n").unwrap();
    assert_eq!(stat.hi, Vec::<u64>::new());
    assert_eq!(stat.rcu, vec![7]);
    assert_eq!(parse_softirqs("").unwrap(), Softirqs::new());
}
