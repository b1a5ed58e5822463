//! TCP connection states from the kernel's sock_diag netlink interface:
//! the request that asks for them and the reading of the replies.

use vstd::prelude::*;

use crate::metric::{one_tag, samples_view, Kind, Sample, SampleModel, TagModel, TagValue};

verus! {

/// The netlink message type SOCK_DIAG_BY_FAMILY.
pub const SOCK_DIAG_BY_FAMILY: u16 = 20;

/// The message type that ends a multi-part message.
pub const NLMSG_DONE: u16 = 3;

/// The flag of the parts of a multi-part message.
pub const NLMSG_MULTI: u16 = 2;

/// The length of a netlink message header.
pub const NETLINK_HEADER_LEN: usize = 16;

/// The length of an inet_diag_msg.
pub const INET_DIAG_MSG_LEN: usize = 72;

/// A netlink message header.
#[derive(Clone, Copy, Debug, PartialEq, Eq)]
pub struct Header {
    pub length: u32,
    pub typ: u16,
    pub flags: u16,
    pub sequence: u32,
    pub pid: u32,
}

/// The little-endian `u16` at `i`.
pub open spec fn le_u16(b: Seq<u8>, i: int) -> int {
    b[i] + b[i + 1] * 256
}

/// The little-endian `u32` at `i`.
pub open spec fn le_u32(b: Seq<u8>, i: int) -> int {
    b[i] + b[i + 1] * 256 + b[i + 2] * 65536 + b[i + 3] * 16777216
}

fn read_u16(b: &[u8], i: usize) -> (r: u16)
    requires
        i + 2 <= b.len(),
    ensures
        r == le_u16(b@, i as int),
{
    b[i] as u16 + b[i + 1] as u16 * 256
}

fn read_u32(b: &[u8], i: usize) -> (r: u32)
    requires
        i + 4 <= b.len(),
    ensures
        r == le_u32(b@, i as int),
{
    b[i] as u32 + b[i + 1] as u32 * 256 + b[i + 2] as u32 * 65536 + b[i + 3] as u32 * 16777216
}

impl Header {
    /// The header that the sixteen bytes at `i` hold, in the little-endian
    /// byte order of the hosts this runs on.
    pub open spec fn at(b: Seq<u8>, i: int) -> Header {
        Header {
            length: le_u32(b, i) as u32,
            typ: le_u16(b, i + 4) as u16,
            flags: le_u16(b, i + 6) as u16,
            sequence: le_u32(b, i + 8) as u32,
            pid: le_u32(b, i + 12) as u32,
        }
    }

    /// Reads the header at `i`.
    pub fn read(b: &[u8], i: usize) -> (r: Header)
        requires
            i + 16 <= b.len(),
        ensures
            r == Header::at(b@, i as int),
    {
        Header {
            length: read_u32(b, i),
            typ: read_u16(b, i + 4),
            flags: read_u16(b, i + 6),
            sequence: read_u32(b, i + 8),
            pid: read_u32(b, i + 12),
        }
    }
}

/// The connection counts by state, and the bytes queued.
#[derive(Clone, Copy, Debug, PartialEq, Eq)]
pub struct TcpStats {
    pub established: usize,
    pub syn_sent: usize,
    pub syn_recv: usize,
    pub fin_wait1: usize,
    pub fin_wait2: usize,
    pub time_wait: usize,
    pub close: usize,
    pub close_wait: usize,
    pub last_ack: usize,
    pub listen: usize,
    pub closing: usize,
    pub rx_queued: usize,
    pub tx_queued: usize,
}

/// The counts as integers.
pub struct TcpStatsModel {
    pub established: int,
    pub syn_sent: int,
    pub syn_recv: int,
    pub fin_wait1: int,
    pub fin_wait2: int,
    pub time_wait: int,
    pub close: int,
    pub close_wait: int,
    pub last_ack: int,
    pub listen: int,
    pub closing: int,
    pub rx_queued: int,
    pub tx_queued: int,
}

impl TcpStats {
    pub open spec fn model(self) -> TcpStatsModel {
        TcpStatsModel {
            established: self.established as int,
            syn_sent: self.syn_sent as int,
            syn_recv: self.syn_recv as int,
            fin_wait1: self.fin_wait1 as int,
            fin_wait2: self.fin_wait2 as int,
            time_wait: self.time_wait as int,
            close: self.close as int,
            close_wait: self.close_wait as int,
            last_ack: self.last_ack as int,
            listen: self.listen as int,
            closing: self.closing as int,
            rx_queued: self.rx_queued as int,
            tx_queued: self.tx_queued as int,
        }
    }

    /// Every count 0.
    pub fn new() -> (r: TcpStats)
        ensures
            r.model() == TcpStatsModel::zero(),
    {
        TcpStats {
            established: 0,
            syn_sent: 0,
            syn_recv: 0,
            fin_wait1: 0,
            fin_wait2: 0,
            time_wait: 0,
            close: 0,
            close_wait: 0,
            last_ack: 0,
            listen: 0,
            closing: 0,
            rx_queued: 0,
            tx_queued: 0,
        }
    }
}

impl TcpStatsModel {
    pub open spec fn zero() -> TcpStatsModel {
        TcpStatsModel {
            established: 0,
            syn_sent: 0,
            syn_recv: 0,
            fin_wait1: 0,
            fin_wait2: 0,
            time_wait: 0,
            close: 0,
            close_wait: 0,
            last_ack: 0,
            listen: 0,
            closing: 0,
            rx_queued: 0,
            tx_queued: 0,
        }
    }

    /// Every count fits a `usize`.
    pub open spec fn fits(self) -> bool {
        self.established <= usize::MAX
            && self.syn_sent <= usize::MAX
            && self.syn_recv <= usize::MAX
            && self.fin_wait1 <= usize::MAX
            && self.fin_wait2 <= usize::MAX
            && self.time_wait <= usize::MAX
            && self.close <= usize::MAX
            && self.close_wait <= usize::MAX
            && self.last_ack <= usize::MAX
            && self.listen <= usize::MAX
            && self.closing <= usize::MAX
            && self.rx_queued <= usize::MAX
            && self.tx_queued <= usize::MAX
    }

    /// The counts after one more connection in TCP state `state` (1 to 11);
    /// another state is counted nowhere.
    pub open spec fn count_state(self, state: u8) -> TcpStatsModel {
        if state == 1 {
            TcpStatsModel { established: self.established + 1, ..self }
        } else if state == 2 {
            TcpStatsModel { syn_sent: self.syn_sent + 1, ..self }
        } else if state == 3 {
            TcpStatsModel { syn_recv: self.syn_recv + 1, ..self }
        } else if state == 4 {
            TcpStatsModel { fin_wait1: self.fin_wait1 + 1, ..self }
        } else if state == 5 {
            TcpStatsModel { fin_wait2: self.fin_wait2 + 1, ..self }
        } else if state == 6 {
            TcpStatsModel { time_wait: self.time_wait + 1, ..self }
        } else if state == 7 {
            TcpStatsModel { close: self.close + 1, ..self }
        } else if state == 8 {
            TcpStatsModel { close_wait: self.close_wait + 1, ..self }
        } else if state == 9 {
            TcpStatsModel { last_ack: self.last_ack + 1, ..self }
        } else if state == 10 {
            TcpStatsModel { listen: self.listen + 1, ..self }
        } else if state == 11 {
            TcpStatsModel { closing: self.closing + 1, ..self }
        } else {
            self
        }
    }
}

/// The outcome of reading the messages of a reply.
pub enum Walk {
    /// The counts, and whether more parts of a multi-part message follow.
    Done(TcpStatsModel, bool),
    /// A message claims more bytes than were read.
    TooShort,
    /// The reading would not end, or would read past the buffer: a message
    /// has length 0, or its body lies beyond the buffer.
    Stuck,
}

/// The counts after the messages of `b[..count]` from `offset` on, starting
/// from `st`. Each message adds its queued bytes and, for a
/// SOCK_DIAG_BY_FAMILY message, one connection in its state; the reading
/// then goes on to the next message. A part of a multi-part message says
/// whether more parts follow: all but one of type NLMSG_DONE, which ends the
/// series.
pub open spec fn walk(b: Seq<u8>, count: int, offset: int, st: TcpStatsModel, multi: bool) -> Walk
    decreases count - offset,
{
    if offset < 0 || offset + 16 >= count {
        Walk::Done(st, multi)
    } else {
        let h = Header::at(b, offset);
        if h.length + offset > count {
            Walk::TooShort
        } else if offset + 16 + 72 > b.len() || h.length == 0 {
            Walk::Stuck
        } else {
            let body = offset + 16;
            let queued = TcpStatsModel {
                rx_queued: st.rx_queued + le_u32(b, body + 56),
                tx_queued: st.tx_queued + le_u32(b, body + 60),
                ..st
            };
            let counted = if h.typ == SOCK_DIAG_BY_FAMILY {
                queued.count_state(b[body + 1])
            } else {
                queued
            };
            let next_multi = if h.flags & NLMSG_MULTI == 0 {
                multi
            } else {
                h.typ != NLMSG_DONE
            };
            walk(b, count, offset + h.length, counted, next_multi)
        }
    }
}

/// The walk ends, and every count it reaches fits a `usize`.
pub open spec fn walk_fits(b: Seq<u8>, count: int, offset: int, st: TcpStatsModel, multi: bool) -> bool
    decreases count - offset,
{
    if offset < 0 || offset + 16 >= count {
        true
    } else {
        let h = Header::at(b, offset);
        if h.length + offset > count {
            true
        } else if offset + 16 + 72 > b.len() || h.length == 0 {
            false
        } else {
            let body = offset + 16;
            let queued = TcpStatsModel {
                rx_queued: st.rx_queued + le_u32(b, body + 56),
                tx_queued: st.tx_queued + le_u32(b, body + 60),
                ..st
            };
            let counted = if h.typ == SOCK_DIAG_BY_FAMILY {
                queued.count_state(b[body + 1])
            } else {
                queued
            };
            let next_multi = if h.flags & NLMSG_MULTI == 0 {
                multi
            } else {
                h.typ != NLMSG_DONE
            };
            counted.fits() && walk_fits(b, count, offset + h.length, counted, next_multi)
        }
    }
}

fn count_state(st: &mut TcpStats, state: u8)
    requires
        old(st).model().count_state(state).fits(),
    ensures
        final(st).model() == old(st).model().count_state(state),
{
    if state == 1 {
        st.established = st.established + 1;
    } else if state == 2 {
        st.syn_sent = st.syn_sent + 1;
    } else if state == 3 {
        st.syn_recv = st.syn_recv + 1;
    } else if state == 4 {
        st.fin_wait1 = st.fin_wait1 + 1;
    } else if state == 5 {
        st.fin_wait2 = st.fin_wait2 + 1;
    } else if state == 6 {
        st.time_wait = st.time_wait + 1;
    } else if state == 7 {
        st.close = st.close + 1;
    } else if state == 8 {
        st.close_wait = st.close_wait + 1;
    } else if state == 9 {
        st.last_ack = st.last_ack + 1;
    } else if state == 10 {
        st.listen = st.listen + 1;
    } else if state == 11 {
        st.closing = st.closing + 1;
    }
}

/// Adds the messages of a reply, `b[..count]`, to `stats`, and reports
/// whether more parts of a multi-part message follow; an error when a
/// message claims more bytes than were read.
pub fn add_messages(b: &[u8], count: usize, stats: &mut TcpStats) -> (r: Result<bool, ()>)
    requires
        count <= b@.len(),
        walk_fits(b@, count as int, 0, old(stats).model(), false),
        old(stats).model().fits(),
    ensures
        match walk(b@, count as int, 0, old(stats).model(), false) {
            Walk::Done(m, multi) => r == Ok::<bool, ()>(multi) && final(stats).model() == m,
            Walk::TooShort => r is Err,
            Walk::Stuck => false,
        },
{
    let ghost start = stats.model();
    let mut offset: usize = 0;
    let mut multi = false;
    while count > 16 && offset < count - 16
        invariant
            count <= b@.len(),
            offset <= count,
            start == old(stats).model(),
            stats.model().fits(),
            walk(b@, count as int, 0, start, false) == walk(b@, count as int, offset as int, stats.model(), multi),
            walk_fits(b@, count as int, offset as int, stats.model(), multi),
        decreases count - offset,
    {
        let h = Header::read(b, offset);
        if h.length as usize > count - offset {
            return Err(());
        }
        assert(offset + 16 + 72 <= b.len());
        let body = offset + 16;
        let rx = read_u32(b, body + 56);
        let tx = read_u32(b, body + 60);
        stats.rx_queued = stats.rx_queued + rx as usize;
        stats.tx_queued = stats.tx_queued + tx as usize;
        if h.typ == SOCK_DIAG_BY_FAMILY {
            count_state(stats, b[body + 1]);
        }
        if h.flags & NLMSG_MULTI != 0 {
            multi = h.typ != NLMSG_DONE;
        }
        offset = offset + h.length as usize;
    }
    Ok(multi)
}


fn state_fits(st: &TcpStats, state: u8) -> (r: bool)
    ensures
        r == st.model().count_state(state).fits(),
{
    if state == 1 {
        st.established < usize::MAX
    } else if state == 2 {
        st.syn_sent < usize::MAX
    } else if state == 3 {
        st.syn_recv < usize::MAX
    } else if state == 4 {
        st.fin_wait1 < usize::MAX
    } else if state == 5 {
        st.fin_wait2 < usize::MAX
    } else if state == 6 {
        st.time_wait < usize::MAX
    } else if state == 7 {
        st.close < usize::MAX
    } else if state == 8 {
        st.close_wait < usize::MAX
    } else if state == 9 {
        st.last_ack < usize::MAX
    } else if state == 10 {
        st.listen < usize::MAX
    } else if state == 11 {
        st.closing < usize::MAX
    } else {
        true
    }
}

/// Whether reading the messages of `b[..count]` into `stats` ends, every
/// count fitting a `usize`.
pub fn walk_ends(b: &[u8], count: usize, stats: &TcpStats) -> (r: bool)
    requires
        count <= b@.len(),
    ensures
        r == walk_fits(b@, count as int, 0, stats.model(), false),
{
    let mut st = *stats;
    let mut offset: usize = 0;
    let mut multi = false;
    while count > 16 && offset < count - 16
        invariant
            count <= b@.len(),
            offset <= count,
            walk_fits(b@, count as int, 0, stats.model(), false) == walk_fits(
                b@,
                count as int,
                offset as int,
                st.model(),
                multi,
            ),
        decreases count - offset,
    {
        let h = Header::read(b, offset);
        if h.length as usize > count - offset {
            return true;
        }
        if b.len() < 88 || offset > b.len() - 88 || h.length == 0 {
            return false;
        }
        let body = offset + 16;
        let rx = read_u32(b, body + 56) as usize;
        let tx = read_u32(b, body + 60) as usize;
        if st.rx_queued > usize::MAX - rx || st.tx_queued > usize::MAX - tx {
            return false;
        }
        st.rx_queued = st.rx_queued + rx;
        st.tx_queued = st.tx_queued + tx;
        if h.typ == SOCK_DIAG_BY_FAMILY {
            if !state_fits(&st, b[body + 1]) {
                return false;
            }
            count_state(&mut st, b[body + 1]);
        }
        if h.flags & NLMSG_MULTI != 0 {
            multi = h.typ != NLMSG_DONE;
        }
        offset = offset + h.length as usize;
    }
    true
}

/// Adds the messages of a reply to `stats` where the reading ends and the
/// counts fit (see `add_messages`); `None`, leaving `stats` as it was, where
/// a message would make the reading go round forever or past the buffer.
pub fn try_add_messages(b: &[u8], count: usize, stats: &mut TcpStats) -> (r: Option<Result<bool, ()>>)
    requires
        count <= b@.len(),
    ensures
        r is None <==> !walk_fits(b@, count as int, 0, old(stats).model(), false),
        r is None ==> *final(stats) == *old(stats),
        r matches Some(res) ==> match walk(b@, count as int, 0, old(stats).model(), false) {
            Walk::Done(m, multi) => res == Ok::<bool, ()>(multi) && final(stats).model() == m,
            Walk::TooShort => res is Err,
            Walk::Stuck => false,
        },
{
    if !walk_ends(b, count, stats) {
        return None;
    }
    Some(add_messages(b, count, stats))
}

/// The sock_diag request for the TCP sockets of an address family (the
/// inet_diag_req_v2 after the netlink header): every state, no extensions.
pub open spec fn request_spec(family: u8) -> Seq<u8> {
    seq![72u8, 0u8, 0u8, 0u8, 20u8, 0u8, 1u8, 3u8, 1u8, 0u8, 0u8, 0u8, 0u8, 0u8, 0u8, 0u8, family, 6u8, 2u8,
        0u8, 255u8, 15u8, 0u8, 0u8] + Seq::new(48, |i: int| 0u8)
}

/// The request that asks for the TCP sockets of `family`.
pub fn request_message(family: u8) -> (r: Vec<u8>)
    ensures
        r@ == request_spec(family),
{
    let mut msg: Vec<u8> = Vec::new();
    let head: [u8; 24] = [72, 0, 0, 0, 20, 0, 1, 3, 1, 0, 0, 0, 0, 0, 0, 0, family, 6, 2, 0, 255, 15, 0, 0];
    let mut i: usize = 0;
    while i < 24
        invariant
            i <= 24,
            msg@ =~= head@.take(i as int),
        decreases 24 - i,
    {
        msg.push(head[i]);
        i = i + 1;
    }
    let mut k: usize = 0;
    while k < 48
        invariant
            k <= 48,
            msg@ =~= head@ + Seq::new(k as nat, |j: int| 0u8),
        decreases 48 - k,
    {
        msg.push(0);
        k = k + 1;
    }
    assert(head@ =~= seq![72u8, 0u8, 0u8, 0u8, 20u8, 0u8, 1u8, 3u8, 1u8, 0u8, 0u8, 0u8, 0u8, 0u8, 0u8, 0u8,
        family, 6u8, 2u8, 0u8, 255u8, 15u8, 0u8, 0u8]);
    msg
}

/// The label of count `k`, in the order of the samples.
pub open spec fn tcp_state_label(k: int) -> &'static str {
    if k == 0 {
        "established"
    } else if k == 1 {
        "syn_sent"
    } else if k == 2 {
        "syn_recv"
    } else if k == 3 {
        "fin_wait1"
    } else if k == 4 {
        "fin_wait2"
    } else if k == 5 {
        "time_wait"
    } else if k == 6 {
        "close"
    } else if k == 7 {
        "close_wait"
    } else if k == 8 {
        "last_ack"
    } else if k == 9 {
        "listen"
    } else if k == 10 {
        "closing"
    } else if k == 11 {
        "rx_queued_bytes"
    } else {
        "tx_queued_bytes"
    }
}

/// Count `k`, in the order of the samples.
pub open spec fn tcp_count(st: TcpStats, k: int) -> int {
    if k == 0 {
        st.established as int
    } else if k == 1 {
        st.syn_sent as int
    } else if k == 2 {
        st.syn_recv as int
    } else if k == 3 {
        st.fin_wait1 as int
    } else if k == 4 {
        st.fin_wait2 as int
    } else if k == 5 {
        st.time_wait as int
    } else if k == 6 {
        st.close as int
    } else if k == 7 {
        st.close_wait as int
    } else if k == 8 {
        st.last_ack as int
    } else if k == 9 {
        st.listen as int
    } else if k == 10 {
        st.closing as int
    } else if k == 11 {
        st.rx_queued as int
    } else {
        st.tx_queued as int
    }
}

fn tcp_state_label_exec(k: usize) -> (r: &'static str)
    requires
        k < 13,
    ensures
        r == tcp_state_label(k as int),
{
    if k == 0 {
        "established"
    } else if k == 1 {
        "syn_sent"
    } else if k == 2 {
        "syn_recv"
    } else if k == 3 {
        "fin_wait1"
    } else if k == 4 {
        "fin_wait2"
    } else if k == 5 {
        "time_wait"
    } else if k == 6 {
        "close"
    } else if k == 7 {
        "close_wait"
    } else if k == 8 {
        "last_ack"
    } else if k == 9 {
        "listen"
    } else if k == 10 {
        "closing"
    } else if k == 11 {
        "rx_queued_bytes"
    } else {
        "tx_queued_bytes"
    }
}

fn tcp_count_exec(st: &TcpStats, k: usize) -> (r: usize)
    requires
        k < 13,
    ensures
        r == tcp_count(*st, k as int),
{
    if k == 0 {
        st.established
    } else if k == 1 {
        st.syn_sent
    } else if k == 2 {
        st.syn_recv
    } else if k == 3 {
        st.fin_wait1
    } else if k == 4 {
        st.fin_wait2
    } else if k == 5 {
        st.time_wait
    } else if k == 6 {
        st.close
    } else if k == 7 {
        st.close_wait
    } else if k == 8 {
        st.last_ack
    } else if k == 9 {
        st.listen
    } else if k == 10 {
        st.closing
    } else if k == 11 {
        st.rx_queued
    } else {
        st.tx_queued
    }
}

/// The sample of count `k`.
pub open spec fn tcp_sample(st: TcpStats, k: int) -> SampleModel {
    SampleModel {
        name: "node_tcp_connection_states",
        description: "Number of connection states.",
        kind: Kind::Gauge,
        value: tcp_count(st, k),
        tags: seq![("state", TagModel::Text(tcp_state_label(k)))],
    }
}

/// The samples of the counts below `n` that are not 0, in order.
pub open spec fn tcp_samples_upto(st: TcpStats, n: nat) -> Seq<SampleModel>
    decreases n,
{
    if n == 0 {
        Seq::empty()
    } else if tcp_count(st, n - 1) == 0 {
        tcp_samples_upto(st, (n - 1) as nat)
    } else {
        tcp_samples_upto(st, (n - 1) as nat).push(tcp_sample(st, n - 1))
    }
}

/// One sample per count that is not 0, labelled with the state (or the
/// queue).
pub fn tcp_samples(st: &TcpStats) -> (r: Vec<Sample<'static>>)
    ensures
        samples_view(r@) == tcp_samples_upto(*st, 13),
{
    let mut out: Vec<Sample<'static>> = Vec::new();
    let mut k: usize = 0;
    assert(samples_view(out@) =~= Seq::<SampleModel>::empty());
    while k < 13
        invariant
            k <= 13,
            samples_view(out@) == tcp_samples_upto(*st, k as nat),
        decreases 13 - k,
    {
        let value = tcp_count_exec(st, k);
        if value != 0 {
            let ghost before = out@;
            out.push(
                Sample {
                    name: "node_tcp_connection_states",
                    description: "Number of connection states.",
                    kind: Kind::Gauge,
                    value: value as i128,
                    tags: one_tag("state", TagValue::Text(tcp_state_label_exec(k))),
                },
            );
            assert(samples_view(out@) =~= samples_view(before).push(tcp_sample(*st, k as int)));
        }
        k = k + 1;
    }
    out
}


/// Among `samples`, those labelled `state=<state>` are connection-state
/// gauges whose value is `value`, and there is one exactly when `value`
/// is not 0.
pub open spec fn reports_state(samples: Seq<SampleModel>, state: &'static str, value: int) -> bool {
    &&& forall|j: int|
        0 <= j < samples.len() && #[trigger] samples[j].tags == seq![("state", TagModel::Text(state))]
            ==> samples[j].value == value && samples[j].name == "node_tcp_connection_states"
    &&& (value != 0 <==> exists|j: int|
        0 <= j < samples.len() && #[trigger] samples[j].tags == seq![("state", TagModel::Text(state))])
}

proof fn lemma_labels_distinct(k: int, l: int)
    requires
        0 <= k < 13,
        0 <= l < 13,
        k != l,
    ensures
        tcp_state_label(k) != tcp_state_label(l),
{
    reveal_strlit("established");
    reveal_strlit("syn_sent");
    reveal_strlit("syn_recv");
    reveal_strlit("fin_wait1");
    reveal_strlit("fin_wait2");
    reveal_strlit("time_wait");
    reveal_strlit("close");
    reveal_strlit("close_wait");
    reveal_strlit("last_ack");
    reveal_strlit("listen");
    reveal_strlit("closing");
    reveal_strlit("rx_queued_bytes");
    reveal_strlit("tx_queued_bytes");
}

proof fn lemma_upto_tagged(st: TcpStats, n: nat, k: int)
    requires
        n <= 13,
        0 <= k < 13,
    ensures
        ({
            let out = tcp_samples_upto(st, n);
            let tag = seq![("state", TagModel::Text(tcp_state_label(k)))];
            &&& forall|j: int|
                0 <= j < out.len() && #[trigger] out[j].tags == tag ==> out[j].value == tcp_count(st, k)
                    && out[j].name == "node_tcp_connection_states"
            &&& (k < n && tcp_count(st, k) != 0 <==> exists|j: int|
                0 <= j < out.len() && #[trigger] out[j].tags == tag)
        }),
    decreases n,
{
    if n > 0 {
        lemma_upto_tagged(st, (n - 1) as nat, k);
        let prev = tcp_samples_upto(st, (n - 1) as nat);
        let out = tcp_samples_upto(st, n);
        let tag = seq![("state", TagModel::Text(tcp_state_label(k)))];
        if tcp_count(st, n - 1) == 0 {
            assert(out == prev);
        } else {
            let smp = tcp_sample(st, n - 1);
            assert(out == prev.push(smp));
            let same = n - 1 == k;
            if !same {
                lemma_labels_distinct(k, n - 1);
                assert(smp.tags[0].1 != tag[0].1);
                assert(smp.tags != tag);
            }
            assert forall|j: int| 0 <= j < out.len() && #[trigger] out[j].tags == tag implies out[j].value
                == tcp_count(st, k) && out[j].name == "node_tcp_connection_states" by {
                if j < prev.len() {
                    assert(out[j] == prev[j]);
                } else {
                    assert(out[j] == smp);
                }
            }
            if k < n && tcp_count(st, k) != 0 {
                if k == n - 1 {
                    assert(out[prev.len() as int] == smp);
                    assert(out[prev.len() as int].tags == tag);
                } else {
                    let j = choose|j: int| 0 <= j < prev.len() && #[trigger] prev[j].tags == tag;
                    assert(out[j] == prev[j]);
                    assert(out[j].tags == tag);
                }
            }
            if exists|j: int| 0 <= j < out.len() && #[trigger] out[j].tags == tag {
                let j = choose|j: int| 0 <= j < out.len() && #[trigger] out[j].tags == tag;
                if j < prev.len() {
                    assert(out[j] == prev[j]);
                    assert(prev[j].tags == tag);
                } else {
                    assert(out[j] == smp);
                }
            }
        }
    }
}

proof fn lemma_reports_count(st: TcpStats, k: int)
    requires
        0 <= k < 13,
    ensures
        reports_state(tcp_samples_upto(st, 13), tcp_state_label(k), tcp_count(st, k)),
{
    lemma_upto_tagged(st, 13, k);
}

/// Each count is reported under its own state: the samples labelled
/// `state=established` carry the established count, `state=close_wait` the
/// close-wait count, `state=last_ack` the last-ack count, and so on for
/// every state and for `rx_queued_bytes` and `tx_queued_bytes`; a count
/// that is 0 gives no sample.
pub proof fn lemma_tcp_samples_by_state(st: TcpStats)
    ensures
        ({
            let out = tcp_samples_upto(st, 13);
            &&& reports_state(out, "established", st.established as int)
            &&& reports_state(out, "syn_sent", st.syn_sent as int)
            &&& reports_state(out, "syn_recv", st.syn_recv as int)
            &&& reports_state(out, "fin_wait1", st.fin_wait1 as int)
            &&& reports_state(out, "fin_wait2", st.fin_wait2 as int)
            &&& reports_state(out, "time_wait", st.time_wait as int)
            &&& reports_state(out, "close", st.close as int)
            &&& reports_state(out, "close_wait", st.close_wait as int)
            &&& reports_state(out, "last_ack", st.last_ack as int)
            &&& reports_state(out, "listen", st.listen as int)
            &&& reports_state(out, "closing", st.closing as int)
            &&& reports_state(out, "rx_queued_bytes", st.rx_queued as int)
            &&& reports_state(out, "tx_queued_bytes", st.tx_queued as int)
        }),
{
    lemma_reports_count(st, 0);
    lemma_reports_count(st, 1);
    lemma_reports_count(st, 2);
    lemma_reports_count(st, 3);
    lemma_reports_count(st, 4);
    lemma_reports_count(st, 5);
    lemma_reports_count(st, 6);
    lemma_reports_count(st, 7);
    lemma_reports_count(st, 8);
    lemma_reports_count(st, 9);
    lemma_reports_count(st, 10);
    lemma_reports_count(st, 11);
    lemma_reports_count(st, 12);
}
} // verus!

