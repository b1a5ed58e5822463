//! UDP queue lengths from /proc/net/udp and /proc/net/udp6.

use vstd::prelude::*;
use vstd::string::StringSliceAdditionalSpecFns;

use super::Error;
use crate::text::{char_boundary, fields, hex_u64, lines, parse_hex_u64, split_ascii_ws, split_lines, views};

verus! {

/// The fifth field of a socket line, `tx_queue:rx_queue`, or nothing when
/// the line has fewer than five fields.
pub open spec fn queues_field(line: Seq<u8>) -> Option<Seq<u8>> {
    if fields(line).len() >= 5 {
        Some(fields(line)[4])
    } else {
        None
    }
}

/// Slicing the queue field at bytes 8 and 9 does not panic.
pub open spec fn queues_sliceable(line: Seq<u8>) -> bool {
    queues_field(line) matches Some(q) ==> q.len() >= 9 && char_boundary(q, 8) && char_boundary(
        q,
        9,
    )
}

/// The transmit and receive queue lengths that a line gives: the fifth
/// field holds both as hex around a colon (bytes 0 to 8, and 9 on).
pub open spec fn socket_queues_spec(line: Seq<u8>) -> Result<(u64, u64), Error> {
    match queues_field(line) {
        None => Err(Error::Invalid("invalid field")),
        Some(q) => match (hex_u64(q.subrange(0, 8)), hex_u64(q.subrange(9, q.len() as int))) {
            (Some(tx), Some(rx)) => Ok((tx, rx)),
            _ => Err(Error::ParseInt),
        },
    }
}

/// `parse_net_ip_socket_queues` on the bytes of a line.
pub fn socket_queues_of(line: &[u8]) -> (r: Result<(u64, u64), Error>)
    requires
        queues_sliceable(line@),
    ensures
        r == socket_queues_spec(line@),
{
    let parts = split_ascii_ws(line);
    if parts.len() < 5 {
        return Err(Error::Invalid("invalid field"));
    }
    let field = parts[4];
    proof {
        assert(views(parts@)[4] == field@);
    }
    let txq = match parse_hex_u64(&field[0..8]) {
        Some(v) => v,
        None => return Err(Error::ParseInt),
    };
    let rxq = match parse_hex_u64(&field[9..field.len()]) {
        Some(v) => v,
        None => return Err(Error::ParseInt),
    };
    Ok((txq, rxq))
}

/// Reads the transmit and receive queue lengths of a line of
/// /proc/net/{t,u}dp{,6}: the fifth field holds both as eight hex digits
/// around a colon.
pub fn parse_net_ip_socket_queues(line: &str) -> (r: Result<(u64, u64), Error>)
    requires
        queues_sliceable(line.spec_bytes()),
    ensures
        r == socket_queues_spec(line.spec_bytes()),
{
    socket_queues_of(line.as_bytes())
}

/// The summary of the socket lines `ls[1..n]` (the first line is the
/// header): the number of lines and the sums of their queue lengths; the
/// first line that cannot be read gives its error.
pub open spec fn summary_upto(ls: Seq<Seq<u8>>, n: nat) -> Result<(int, int, int), Error>
    decreases n,
{
    if n <= 1 || n > ls.len() {
        Ok((0, 0, 0))
    } else {
        match summary_upto(ls, (n - 1) as nat) {
            Err(e) => Err(e),
            Ok((used, tx, rx)) => match socket_queues_spec(ls[n - 1]) {
                Err(e) => Err(e),
                Ok((t, r)) => Ok((used + 1, tx + t, rx + r)),
            },
        }
    }
}

/// Reading the first `n` lines does not panic: each line that is read can
/// be sliced, and the sums fit a `u64`.
pub open spec fn summary_safe(ls: Seq<Seq<u8>>, n: nat) -> bool
    decreases n,
{
    if n <= 1 || n > ls.len() {
        true
    } else {
        summary_safe(ls, (n - 1) as nat) && match summary_upto(ls, (n - 1) as nat) {
            Err(_) => true,
            Ok((used, tx, rx)) => queues_sliceable(ls[n - 1]) && match socket_queues_spec(ls[n - 1]) {
                Err(_) => true,
                Ok((t, r)) => tx + t <= u64::MAX && rx + r <= u64::MAX,
            },
        }
    }
}

proof fn lemma_summary_used(ls: Seq<Seq<u8>>, n: nat)
    ensures
        summary_upto(ls, n) matches Ok((used, tx, rx)) ==> 0 <= used < n || (used == 0 && n == 0),
        summary_upto(ls, n) matches Ok((used, tx, rx)) ==> tx >= 0 && rx >= 0,
    decreases n,
{
    if n > 1 && n <= ls.len() {
        lemma_summary_used(ls, (n - 1) as nat);
    }
}

fn queues_slice_ok(line: &[u8]) -> (r: bool)
    ensures
        r == queues_sliceable(line@),
{
    let parts = split_ascii_ws(line);
    if parts.len() < 5 {
        return true;
    }
    let q = parts[4];
    proof {
        assert(views(parts@)[4] == q@);
    }
    q.len() >= 9 && (q[8] < 0x80u8 || q[8] >= 0xc0u8) && (q.len() == 9 || q[9] < 0x80u8 || q[9]
        >= 0xc0u8)
}

/// Sums the socket lines of a file such as /proc/net/udp where that does
/// not panic (see `socket_summary`); `None` where a line that is read cannot
/// be sliced or a sum overflows.
pub fn try_socket_summary(data: &str) -> (r: Option<Result<(u64, u64, u64), Error>>)
    ensures
        ({
            let ls = lines(data.spec_bytes());
            &&& r is None <==> !summary_safe(ls, ls.len())
            &&& r matches Some(res) ==> match summary_upto(ls, ls.len()) {
                Ok((used, tx, rx)) => res == Ok::<(u64, u64, u64), Error>(
                    (used as u64, tx as u64, rx as u64),
                ),
                Err(e) => res == Err::<(u64, u64, u64), Error>(e),
            }
        }),
{
    let all = split_lines(data.as_bytes());
    let ghost ls = lines(data.spec_bytes());
    let mut used: u64 = 0;
    let mut tx: u64 = 0;
    let mut rx: u64 = 0;
    let mut i: usize = 1;
    if all.len() == 0 {
        return Some(Ok((0, 0, 0)));
    }
    while i < all.len()
        invariant
            ls == lines(data.spec_bytes()),
            views(all@) == ls,
            1 <= i <= all@.len(),
            summary_safe(ls, i as nat),
            summary_upto(ls, i as nat) == Ok::<(int, int, int), Error>(
                (used as int, tx as int, rx as int),
            ),
        decreases all@.len() - i,
    {
        let line = all[i];
        proof {
            assert(ls.len() == all@.len());
            assert(views(all@)[i as int] == line@);
            lemma_summary_used(ls, i as nat);
        }
        if !queues_slice_ok(line) {
            proof {
                assert(!summary_safe(ls, (i + 1) as nat));
                lemma_summary_unsafe_stays(ls, (i + 1) as nat, ls.len());
            }
            return None;
        }
        match socket_queues_of(line) {
            Err(e) => {
                proof {
                    assert(summary_upto(ls, (i + 1) as nat) == Err::<(int, int, int), Error>(e));
                    assert(summary_safe(ls, (i + 1) as nat));
                    lemma_summary_err_stays(ls, (i + 1) as nat, ls.len(), e);
                    lemma_summary_safe_after_err(ls, (i + 1) as nat, ls.len());
                }
                return Some(Err(e));
            },
            Ok((t, r)) => {
                if tx > u64::MAX - t || rx > u64::MAX - r {
                    proof {
                        assert(!summary_safe(ls, (i + 1) as nat));
                        lemma_summary_unsafe_stays(ls, (i + 1) as nat, ls.len());
                    }
                    return None;
                }
                used = used + 1;
                tx = tx + t;
                rx = rx + r;
            },
        }
        i = i + 1;
    }
    Some(Ok((used, tx, rx)))
}

proof fn lemma_summary_err_stays(ls: Seq<Seq<u8>>, i: nat, n: nat, e: Error)
    requires
        1 <= i <= n <= ls.len(),
        summary_upto(ls, i) == Err::<(int, int, int), Error>(e),
    ensures
        summary_upto(ls, n) == Err::<(int, int, int), Error>(e),
    decreases n - i,
{
    if i < n {
        lemma_summary_err_stays(ls, i, (n - 1) as nat, e);
    }
}

proof fn lemma_summary_safe_after_err(ls: Seq<Seq<u8>>, i: nat, n: nat)
    requires
        1 <= i <= n <= ls.len(),
        summary_upto(ls, i) is Err,
        summary_safe(ls, i),
    ensures
        summary_safe(ls, n),
    decreases n - i,
{
    if i < n {
        lemma_summary_safe_after_err(ls, i, (n - 1) as nat);
        let e = summary_upto(ls, i)->Err_0;
        lemma_summary_err_stays(ls, i, (n - 1) as nat, e);
    }
}

proof fn lemma_summary_unsafe_stays(ls: Seq<Seq<u8>>, i: nat, n: nat)
    requires
        1 <= i <= n <= ls.len(),
        !summary_safe(ls, i),
    ensures
        !summary_safe(ls, n),
    decreases n - i,
{
    if i < n {
        lemma_summary_unsafe_stays(ls, i, (n - 1) as nat);
    }
}

/// Sums the socket lines of a file such as /proc/net/udp: the number of
/// lines after the header and the sums of their transmit and receive queue
/// lengths; the first line that cannot be read gives its error.
pub fn socket_summary(data: &str) -> (r: Result<(u64, u64, u64), Error>)
    requires
        summary_safe(lines(data.spec_bytes()), lines(data.spec_bytes()).len()),
    ensures
        match summary_upto(lines(data.spec_bytes()), lines(data.spec_bytes()).len()) {
            Ok((used, tx, rx)) => r == Ok::<(u64, u64, u64), Error>((used as u64, tx as u64, rx as u64)),
            Err(e) => r == Err::<(u64, u64, u64), Error>(e),
        },
{
    match try_socket_summary(data) {
        Some(res) => res,
        None => Err(Error::NoData),
    }
}

} // verus!
