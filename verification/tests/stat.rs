use vertex_sources::node::stat::{parse_stat, stat_line, Stat};

const PROC_STAT: &str = "cpu  301854 612 111922 8979004 3552 2 3944 0 0 0
cpu0 44490 19 21045 1087069 220 1 3410 0 0 0
cpu1 47869 23 16474 1110787 591 0 46 0 0 0
intr 8885917 17 0 0 0 0 0 0 0 1 79281 0 0 0 0 0 0 0 231237 0 0 0 0 250586 103 0 0 0
ctxt 38014093
btime 1418183276
processes 26442
procs_running 2
procs_blocked 1
softirq 5057579 250191 1481983 1647 211099 186066 0 1783454 622196 12499 508444
";

#[test]
fn test_read_stat() {
    let stat = parse_stat(PROC_STAT);

    assert_eq!(stat.ctxt, 38014093);
    assert_eq!(stat.btime, 1418183276);
    assert_eq!(stat.forks, 26442);
    assert_eq!(stat.procs_running, 2);
    assert_eq!(stat.procs_blocked, 1);
    assert_eq!(stat.intr, 8885917);
}

#[test]
fn stat_numbers_that_do_not_parse_count_zero() {
    let zero = Stat { intr: 0, ctxt: 0, forks: 0, btime: 0, procs_running: 0, procs_blocked: 0 };
    let st = stat_line(Stat { ctxt: 5, ..zero }, b"ctxt x");
    assert_eq!(st.ctxt, 0);
    let st = stat_line(Stat { intr: 5, ..zero }, b"intr ");
    assert_eq!(st.intr, 5);
    let st = stat_line(zero, b"ctxt  12");
    assert_eq!(st.ctxt, 0);
    assert_eq!(parse_stat(""), zero);
}
