//! /proc/softirqs: per-CPU counts of each kind of softirq.

use vstd::prelude::*;
use vstd::string::StringSliceAdditionalSpecFns;

use super::Error;
use crate::text::{dec_u64, fields, is_word, lines, parse_u64, split_ascii_ws, split_lines, views};

verus! {

/// The per-CPU counts of each softirq kind, empty until a line reports it.
#[derive(Debug, PartialEq, Eq)]
pub struct Softirqs {
    pub hi: Vec<u64>,
    pub timer: Vec<u64>,
    pub net_tx: Vec<u64>,
    pub net_rx: Vec<u64>,
    pub block: Vec<u64>,
    pub irq_poll: Vec<u64>,
    pub tasklet: Vec<u64>,
    pub sched: Vec<u64>,
    pub hr_timer: Vec<u64>,
    pub rcu: Vec<u64>,
}

/// The counts of each softirq kind, as sequences.
pub struct SoftirqsModel {
    pub hi: Seq<u64>,
    pub timer: Seq<u64>,
    pub net_tx: Seq<u64>,
    pub net_rx: Seq<u64>,
    pub block: Seq<u64>,
    pub irq_poll: Seq<u64>,
    pub tasklet: Seq<u64>,
    pub sched: Seq<u64>,
    pub hr_timer: Seq<u64>,
    pub rcu: Seq<u64>,
}

impl View for Softirqs {
    type V = SoftirqsModel;

    open spec fn view(&self) -> SoftirqsModel {
        SoftirqsModel {
            hi: self.hi@,
            timer: self.timer@,
            net_tx: self.net_tx@,
            net_rx: self.net_rx@,
            block: self.block@,
            irq_poll: self.irq_poll@,
            tasklet: self.tasklet@,
            sched: self.sched@,
            hr_timer: self.hr_timer@,
            rcu: self.rcu@,
        }
    }
}

impl SoftirqsModel {
    /// No kind reported.
    pub open spec fn empty() -> SoftirqsModel {
        SoftirqsModel {
            hi: Seq::empty(),
            timer: Seq::empty(),
            net_tx: Seq::empty(),
            net_rx: Seq::empty(),
            block: Seq::empty(),
            irq_poll: Seq::empty(),
            tasklet: Seq::empty(),
            sched: Seq::empty(),
            hr_timer: Seq::empty(),
            rcu: Seq::empty(),
        }
    }

    /// The model with the counts of kind `k` replaced by `v`.
    pub open spec fn set(self, k: int, v: Seq<u64>) -> SoftirqsModel {
        if k == 0 {
            SoftirqsModel { hi: v, ..self }
        } else if k == 1 {
            SoftirqsModel { timer: v, ..self }
        } else if k == 2 {
            SoftirqsModel { net_tx: v, ..self }
        } else if k == 3 {
            SoftirqsModel { net_rx: v, ..self }
        } else if k == 4 {
            SoftirqsModel { block: v, ..self }
        } else if k == 5 {
            SoftirqsModel { irq_poll: v, ..self }
        } else if k == 6 {
            SoftirqsModel { tasklet: v, ..self }
        } else if k == 7 {
            SoftirqsModel { sched: v, ..self }
        } else if k == 8 {
            SoftirqsModel { hr_timer: v, ..self }
        } else if k == 9 {
            SoftirqsModel { rcu: v, ..self }
        } else {
            self
        }
    }
}

impl Softirqs {
    /// No kind reported.
    pub fn new() -> (r: Softirqs)
        ensures
            r@ == SoftirqsModel::empty(),
    {
        Softirqs {
            hi: Vec::new(),
            timer: Vec::new(),
            net_tx: Vec::new(),
            net_rx: Vec::new(),
            block: Vec::new(),
            irq_poll: Vec::new(),
            tasklet: Vec::new(),
            sched: Vec::new(),
            hr_timer: Vec::new(),
            rcu: Vec::new(),
        }
    }

    /// Replaces the counts of kind `k`.
    fn set(&mut self, k: usize, v: Vec<u64>)
        requires
            k < 10,
        ensures
            final(self)@ == old(self)@.set(k as int, v@),
    {
        if k == 0 {
            self.hi = v;
        } else if k == 1 {
            self.timer = v;
        } else if k == 2 {
            self.net_tx = v;
        } else if k == 3 {
            self.net_rx = v;
        } else if k == 4 {
            self.block = v;
        } else if k == 5 {
            self.irq_poll = v;
        } else if k == 6 {
            self.tasklet = v;
        } else if k == 7 {
            self.sched = v;
        } else if k == 8 {
            self.hr_timer = v;
        } else {
            self.rcu = v;
        }
    }
}

/// The label of softirq kind `k`, with its colon.
pub open spec fn softirq_key(k: int) -> Seq<u8> {
    if k == 0 {
        seq![0x48u8, 0x49u8, 0x3au8]
    } else if k == 1 {
        seq![0x54u8, 0x49u8, 0x4du8, 0x45u8, 0x52u8, 0x3au8]
    } else if k == 2 {
        seq![0x4eu8, 0x45u8, 0x54u8, 0x5fu8, 0x54u8, 0x58u8, 0x3au8]
    } else if k == 3 {
        seq![0x4eu8, 0x45u8, 0x54u8, 0x5fu8, 0x52u8, 0x58u8, 0x3au8]
    } else if k == 4 {
        seq![0x42u8, 0x4cu8, 0x4fu8, 0x43u8, 0x4bu8, 0x3au8]
    } else if k == 5 {
        seq![0x49u8, 0x52u8, 0x51u8, 0x5fu8, 0x50u8, 0x4fu8, 0x4cu8, 0x4cu8, 0x3au8]
    } else if k == 6 {
        seq![0x54u8, 0x41u8, 0x53u8, 0x4bu8, 0x4cu8, 0x45u8, 0x54u8, 0x3au8]
    } else if k == 7 {
        seq![0x53u8, 0x43u8, 0x48u8, 0x45u8, 0x44u8, 0x3au8]
    } else if k == 8 {
        seq![0x48u8, 0x52u8, 0x54u8, 0x49u8, 0x4du8, 0x45u8, 0x52u8, 0x3au8]
    } else {
        seq![0x52u8, 0x43u8, 0x55u8, 0x3au8]
    }
}

/// The first kind from `k` on whose label is `key`, or -1.
pub open spec fn kind_from(key: Seq<u8>, k: int) -> int
    decreases 10 - k,
{
    if k >= 10 || k < 0 {
        -1
    } else if softirq_key(k) == key {
        k
    } else {
        kind_from(key, k + 1)
    }
}

/// The kind that a line with this label reports, or -1.
pub open spec fn softirq_kind(key: Seq<u8>) -> int {
    kind_from(key, 0)
}

proof fn lemma_kind_from(key: Seq<u8>, k: int)
    requires
        0 <= k <= 10,
    ensures
        -1 <= kind_from(key, k) < 10,
        kind_from(key, k) == -1 ==> forall|j: int| k <= j < 10 ==> softirq_key(j) != key,
    decreases 10 - k,
{
    if k < 10 && softirq_key(k) != key {
        lemma_kind_from(key, k + 1);
    }
}

fn softirq_kind_exec(key: &[u8]) -> (r: i32)
    ensures
        r == softirq_kind(key@),
        -1 <= r < 10,
{
    proof {
        lemma_kind_from(key@, 0);
    }
    if is_word(key, &[0x48u8, 0x49u8, 0x3au8]) {
        proof {
            assert([0x48u8, 0x49u8, 0x3au8]@ =~= softirq_key(0));
            assert(kind_from(key@, 0) == 0);
        }
        return 0;
    }
    proof {
        assert([0x48u8, 0x49u8, 0x3au8]@ =~= softirq_key(0));
        assert(softirq_key(0) != key@);
    }
    if is_word(key, &[0x54u8, 0x49u8, 0x4du8, 0x45u8, 0x52u8, 0x3au8]) {
        proof {
            assert([0x54u8, 0x49u8, 0x4du8, 0x45u8, 0x52u8, 0x3au8]@ =~= softirq_key(1));
            assert(softirq_key(0) != key@);
            assert(kind_from(key@, 1) == 1);
            assert(kind_from(key@, 0) == 1);
        }
        return 1;
    }
    proof {
        assert([0x54u8, 0x49u8, 0x4du8, 0x45u8, 0x52u8, 0x3au8]@ =~= softirq_key(1));
        assert(softirq_key(1) != key@);
    }
    if is_word(key, &[0x4eu8, 0x45u8, 0x54u8, 0x5fu8, 0x54u8, 0x58u8, 0x3au8]) {
        proof {
            assert([0x4eu8, 0x45u8, 0x54u8, 0x5fu8, 0x54u8, 0x58u8, 0x3au8]@ =~= softirq_key(2));
            assert(softirq_key(0) != key@);
            assert(softirq_key(1) != key@);
            assert(kind_from(key@, 2) == 2);
            assert(kind_from(key@, 1) == 2);
            assert(kind_from(key@, 0) == 2);
        }
        return 2;
    }
    proof {
        assert([0x4eu8, 0x45u8, 0x54u8, 0x5fu8, 0x54u8, 0x58u8, 0x3au8]@ =~= softirq_key(2));
        assert(softirq_key(2) != key@);
    }
    if is_word(key, &[0x4eu8, 0x45u8, 0x54u8, 0x5fu8, 0x52u8, 0x58u8, 0x3au8]) {
        proof {
            assert([0x4eu8, 0x45u8, 0x54u8, 0x5fu8, 0x52u8, 0x58u8, 0x3au8]@ =~= softirq_key(3));
            assert(softirq_key(0) != key@);
            assert(softirq_key(1) != key@);
            assert(softirq_key(2) != key@);
            assert(kind_from(key@, 3) == 3);
            assert(kind_from(key@, 2) == 3);
            assert(kind_from(key@, 1) == 3);
            assert(kind_from(key@, 0) == 3);
        }
        return 3;
    }
    proof {
        assert([0x4eu8, 0x45u8, 0x54u8, 0x5fu8, 0x52u8, 0x58u8, 0x3au8]@ =~= softirq_key(3));
        assert(softirq_key(3) != key@);
    }
    if is_word(key, &[0x42u8, 0x4cu8, 0x4fu8, 0x43u8, 0x4bu8, 0x3au8]) {
        proof {
            assert([0x42u8, 0x4cu8, 0x4fu8, 0x43u8, 0x4bu8, 0x3au8]@ =~= softirq_key(4));
            assert(softirq_key(0) != key@);
            assert(softirq_key(1) != key@);
            assert(softirq_key(2) != key@);
            assert(softirq_key(3) != key@);
            assert(kind_from(key@, 4) == 4);
            assert(kind_from(key@, 3) == 4);
            assert(kind_from(key@, 2) == 4);
            assert(kind_from(key@, 1) == 4);
            assert(kind_from(key@, 0) == 4);
        }
        return 4;
    }
    proof {
        assert([0x42u8, 0x4cu8, 0x4fu8, 0x43u8, 0x4bu8, 0x3au8]@ =~= softirq_key(4));
        assert(softirq_key(4) != key@);
    }
    if is_word(key, &[0x49u8, 0x52u8, 0x51u8, 0x5fu8, 0x50u8, 0x4fu8, 0x4cu8, 0x4cu8, 0x3au8]) {
        proof {
            assert([0x49u8, 0x52u8, 0x51u8, 0x5fu8, 0x50u8, 0x4fu8, 0x4cu8, 0x4cu8, 0x3au8]@ =~= softirq_key(5));
            assert(softirq_key(0) != key@);
            assert(softirq_key(1) != key@);
            assert(softirq_key(2) != key@);
            assert(softirq_key(3) != key@);
            assert(softirq_key(4) != key@);
            assert(kind_from(key@, 5) == 5);
            assert(kind_from(key@, 4) == 5);
            assert(kind_from(key@, 3) == 5);
            assert(kind_from(key@, 2) == 5);
            assert(kind_from(key@, 1) == 5);
            assert(kind_from(key@, 0) == 5);
        }
        return 5;
    }
    proof {
        assert([0x49u8, 0x52u8, 0x51u8, 0x5fu8, 0x50u8, 0x4fu8, 0x4cu8, 0x4cu8, 0x3au8]@ =~= softirq_key(5));
        assert(softirq_key(5) != key@);
    }
    if is_word(key, &[0x54u8, 0x41u8, 0x53u8, 0x4bu8, 0x4cu8, 0x45u8, 0x54u8, 0x3au8]) {
        proof {
            assert([0x54u8, 0x41u8, 0x53u8, 0x4bu8, 0x4cu8, 0x45u8, 0x54u8, 0x3au8]@ =~= softirq_key(6));
            assert(softirq_key(0) != key@);
            assert(softirq_key(1) != key@);
            assert(softirq_key(2) != key@);
            assert(softirq_key(3) != key@);
            assert(softirq_key(4) != key@);
            assert(softirq_key(5) != key@);
            assert(kind_from(key@, 6) == 6);
            assert(kind_from(key@, 5) == 6);
            assert(kind_from(key@, 4) == 6);
            assert(kind_from(key@, 3) == 6);
            assert(kind_from(key@, 2) == 6);
            assert(kind_from(key@, 1) == 6);
            assert(kind_from(key@, 0) == 6);
        }
        return 6;
    }
    proof {
        assert([0x54u8, 0x41u8, 0x53u8, 0x4bu8, 0x4cu8, 0x45u8, 0x54u8, 0x3au8]@ =~= softirq_key(6));
        assert(softirq_key(6) != key@);
    }
    if is_word(key, &[0x53u8, 0x43u8, 0x48u8, 0x45u8, 0x44u8, 0x3au8]) {
        proof {
            assert([0x53u8, 0x43u8, 0x48u8, 0x45u8, 0x44u8, 0x3au8]@ =~= softirq_key(7));
            assert(softirq_key(0) != key@);
            assert(softirq_key(1) != key@);
            assert(softirq_key(2) != key@);
            assert(softirq_key(3) != key@);
            assert(softirq_key(4) != key@);
            assert(softirq_key(5) != key@);
            assert(softirq_key(6) != key@);
            assert(kind_from(key@, 7) == 7);
            assert(kind_from(key@, 6) == 7);
            assert(kind_from(key@, 5) == 7);
            assert(kind_from(key@, 4) == 7);
            assert(kind_from(key@, 3) == 7);
            assert(kind_from(key@, 2) == 7);
            assert(kind_from(key@, 1) == 7);
            assert(kind_from(key@, 0) == 7);
        }
        return 7;
    }
    proof {
        assert([0x53u8, 0x43u8, 0x48u8, 0x45u8, 0x44u8, 0x3au8]@ =~= softirq_key(7));
        assert(softirq_key(7) != key@);
    }
    if is_word(key, &[0x48u8, 0x52u8, 0x54u8, 0x49u8, 0x4du8, 0x45u8, 0x52u8, 0x3au8]) {
        proof {
            assert([0x48u8, 0x52u8, 0x54u8, 0x49u8, 0x4du8, 0x45u8, 0x52u8, 0x3au8]@ =~= softirq_key(8));
            assert(softirq_key(0) != key@);
            assert(softirq_key(1) != key@);
            assert(softirq_key(2) != key@);
            assert(softirq_key(3) != key@);
            assert(softirq_key(4) != key@);
            assert(softirq_key(5) != key@);
            assert(softirq_key(6) != key@);
            assert(softirq_key(7) != key@);
            assert(kind_from(key@, 8) == 8);
            assert(kind_from(key@, 7) == 8);
            assert(kind_from(key@, 6) == 8);
            assert(kind_from(key@, 5) == 8);
            assert(kind_from(key@, 4) == 8);
            assert(kind_from(key@, 3) == 8);
            assert(kind_from(key@, 2) == 8);
            assert(kind_from(key@, 1) == 8);
            assert(kind_from(key@, 0) == 8);
        }
        return 8;
    }
    proof {
        assert([0x48u8, 0x52u8, 0x54u8, 0x49u8, 0x4du8, 0x45u8, 0x52u8, 0x3au8]@ =~= softirq_key(8));
        assert(softirq_key(8) != key@);
    }
    if is_word(key, &[0x52u8, 0x43u8, 0x55u8, 0x3au8]) {
        proof {
            assert([0x52u8, 0x43u8, 0x55u8, 0x3au8]@ =~= softirq_key(9));
            assert(softirq_key(0) != key@);
            assert(softirq_key(1) != key@);
            assert(softirq_key(2) != key@);
            assert(softirq_key(3) != key@);
            assert(softirq_key(4) != key@);
            assert(softirq_key(5) != key@);
            assert(softirq_key(6) != key@);
            assert(softirq_key(7) != key@);
            assert(softirq_key(8) != key@);
            assert(kind_from(key@, 9) == 9);
            assert(kind_from(key@, 8) == 9);
            assert(kind_from(key@, 7) == 9);
            assert(kind_from(key@, 6) == 9);
            assert(kind_from(key@, 5) == 9);
            assert(kind_from(key@, 4) == 9);
            assert(kind_from(key@, 3) == 9);
            assert(kind_from(key@, 2) == 9);
            assert(kind_from(key@, 1) == 9);
            assert(kind_from(key@, 0) == 9);
        }
        return 9;
    }
    proof {
        assert([0x52u8, 0x43u8, 0x55u8, 0x3au8]@ =~= softirq_key(9));
        assert(softirq_key(9) != key@);
    }
    proof {
        assert(kind_from(key@, 10) == -1);
        assert(kind_from(key@, 9) == -1);
        assert(kind_from(key@, 8) == -1);
        assert(kind_from(key@, 7) == -1);
        assert(kind_from(key@, 6) == -1);
        assert(kind_from(key@, 5) == -1);
        assert(kind_from(key@, 4) == -1);
        assert(kind_from(key@, 3) == -1);
        assert(kind_from(key@, 2) == -1);
        assert(kind_from(key@, 1) == -1);
        assert(kind_from(key@, 0) == -1);
    }
    -1
}

/// Every field after the label is a `u64`.
pub open spec fn counts_ok(f: Seq<Seq<u8>>) -> bool {
    forall|j: int| 1 <= j < f.len() ==> #[trigger] dec_u64(f[j]) is Some
}

/// The counts that follow the label.
pub open spec fn counts(f: Seq<Seq<u8>>) -> Seq<u64> {
    Seq::new((f.len() - 1) as nat, |j: int| dec_u64(f[j + 1])->0)
}

/// Reads every field after the label as a `u64`.
fn read_counts(parts: &Vec<&[u8]>) -> (r: Option<Vec<u64>>)
    requires
        parts@.len() >= 1,
    ensures
        match r {
            Some(v) => counts_ok(views(parts@)) && v@ == counts(views(parts@)),
            None => !counts_ok(views(parts@)),
        },
{
    let ghost f = views(parts@);
    let mut out: Vec<u64> = Vec::new();
    let mut j: usize = 1;
    while j < parts.len()
        invariant
            f == views(parts@),
            1 <= j <= parts@.len(),
            forall|k: int| 1 <= k < j ==> #[trigger] dec_u64(f[k]) is Some,
            out@ =~= Seq::new((j - 1) as nat, |k: int| dec_u64(f[k + 1])->0),
        decreases parts@.len() - j,
    {
        assert(parts@[j as int]@ == f[j as int]);
        match parse_u64(parts[j]) {
            Some(v) => {
                out.push(v);
            },
            None => {
                return None;
            },
        }
        j = j + 1;
    }
    Some(out)
}

/// The counts after one more line: a line with a known label and at least
/// one count replaces that kind's counts; a count that is not a `u64` is an
/// error; other lines change nothing.
pub open spec fn softirqs_step(st: SoftirqsModel, line: Seq<u8>) -> Result<SoftirqsModel, Error> {
    let f = fields(line);
    if f.len() < 2 || softirq_kind(f[0]) < 0 {
        Ok(st)
    } else if counts_ok(f) {
        Ok(st.set(softirq_kind(f[0]), counts(f)))
    } else {
        Err(Error::ParseInt)
    }
}

/// The counts that the first `n` lines give.
pub open spec fn softirqs_from_lines(ls: Seq<Seq<u8>>, n: nat) -> Result<SoftirqsModel, Error>
    decreases n,
{
    if n == 0 || n > ls.len() {
        Ok(SoftirqsModel::empty())
    } else {
        match softirqs_from_lines(ls, (n - 1) as nat) {
            Ok(st) => softirqs_step(st, ls[n - 1]),
            Err(e) => Err(e),
        }
    }
}

proof fn lemma_from_lines_err(ls: Seq<Seq<u8>>, i: nat, n: nat, e: Error)
    requires
        i <= n <= ls.len(),
        softirqs_from_lines(ls, i) == Err::<SoftirqsModel, Error>(e),
    ensures
        softirqs_from_lines(ls, n) == Err::<SoftirqsModel, Error>(e),
    decreases n - i,
{
    if i < n {
        lemma_from_lines_err(ls, i, (n - 1) as nat, e);
    }
}

/// Reads one more line of /proc/softirqs into `stat`.
pub fn softirqs_line(stat: &mut Softirqs, line: &[u8]) -> (r: Result<(), Error>)
    ensures
        match softirqs_step(old(stat)@, line@) {
            Ok(m) => r is Ok && final(stat)@ == m,
            Err(e) => r == Err::<(), Error>(e),
        },
{
    let parts = split_ascii_ws(line);
    let ghost f = fields(line@);
    if parts.len() < 2 {
        return Ok(());
    }
    assert(parts@[0]@ == f[0]);
    let k = softirq_kind_exec(parts[0]);
    if k < 0 {
        return Ok(());
    }
    match read_counts(&parts) {
        Some(v) => {
            stat.set(k as usize, v);
            Ok(())
        },
        None => Err(Error::ParseInt),
    }
}

/// Parses /proc/softirqs.
pub fn parse_softirqs(data: &str) -> (r: Result<Softirqs, Error>)
    ensures
        match softirqs_from_lines(lines(data.spec_bytes()), lines(data.spec_bytes()).len()) {
            Ok(m) => r matches Ok(s) && s@ == m,
            Err(e) => r == Err::<Softirqs, Error>(e),
        },
{
    let all = split_lines(data.as_bytes());
    let ghost ls = lines(data.spec_bytes());
    let mut stat = Softirqs::new();
    let mut i: usize = 0;
    while i < all.len()
        invariant
            i <= all@.len(),
            views(all@) == ls,
            ls == lines(data.spec_bytes()),
            softirqs_from_lines(ls, i as nat) == Ok::<SoftirqsModel, Error>(stat@),
        decreases all@.len() - i,
    {
        let line = all[i];
        assert(line@ == ls[i as int]);
        match softirqs_line(&mut stat, line) {
            Ok(()) => {},
            Err(e) => {
                proof {
                    lemma_from_lines_err(ls, (i + 1) as nat, ls.len(), e);
                }
                return Err(e);
            },
        }
        i = i + 1;
    }
    Ok(stat)
}

} // verus!
