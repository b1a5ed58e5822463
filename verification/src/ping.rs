//! The ICMP echo messages of the ping source: the request it sends, its
//! checksum, the reply it reads back, and the round trip statistics.

use vstd::prelude::*;

verus! {

/// The 16-bit little-endian word at `buf[i..i + 2]`.
pub open spec fn word_at(buf: Seq<u8>, i: int) -> nat {
    buf[i + 1] as nat * 256 + buf[i] as nat
}

/// The sum of the words at `0, 2, 4, .., 2 * (k - 1)`, leaving out the word
/// at 2 where the checksum itself is written.
pub open spec fn pair_sum(buf: Seq<u8>, k: int) -> nat
    decreases k,
{
    if k <= 0 {
        0
    } else {
        pair_sum(buf, k - 1) + (if k - 1 == 1 {
            0
        } else {
            word_at(buf, 2 * (k - 1))
        })
    }
}

/// The 32-bit sum that the checksum folds: every whole word but the
/// checksum's, plus the last byte alone when the length is odd.
pub open spec fn checksum_sum(buf: Seq<u8>) -> nat {
    pair_sum(buf, (buf.len() / 2) as int) + (if buf.len() % 2 == 1 {
        buf[buf.len() - 1] as nat
    } else {
        0
    })
}

/// Folds the carries of a 32-bit sum into 16 bits and complements it.
pub open spec fn fold_complement(s: u32) -> u16 {
    let s1 = ((s >> 16u32) + (s & 0xffffu32)) as u32;
    let s2 = (s1 + (s1 >> 16u32)) as u32;
    (s2 as u16) ^ 0xffffu16
}

proof fn lemma_pair_sum_mono(buf: Seq<u8>, j: int, k: int)
    requires
        j <= k,
    ensures
        pair_sum(buf, j) <= pair_sum(buf, k),
    decreases k - j,
{
    if j < k {
        lemma_pair_sum_mono(buf, j, k - 1);
    }
}

/// The Internet checksum of an ICMP message whose checksum field (bytes 2
/// and 3) is not yet filled in.
pub fn calculate_checksum(buf: &[u8]) -> (r: u16)
    requires
        buf@.len() >= 1,
        checksum_sum(buf@) <= u32::MAX,
    ensures
        r == fold_complement(checksum_sum(buf@) as u32),
{
    let csumcv = buf.len() - 1;
    let mut s: u32 = 0;
    let mut i: usize = 0;
    while i < csumcv
        invariant
            csumcv == buf@.len() - 1,
            i % 2 == 0,
            i <= csumcv + 1,
            s == pair_sum(buf@, (i / 2) as int),
            checksum_sum(buf@) <= u32::MAX,
        decreases csumcv + 1 - i,
    {
        if i != 2 {
            let hi = buf[i + 1] as u32;
            let lo = buf[i] as u32;
            assert((hi << 8u32) | lo == hi * 256 + lo) by (bit_vector)
                requires
                    hi < 256,
                    lo < 256,
            ;
            proof {
                lemma_pair_sum_mono(buf@, (i / 2 + 1) as int, (buf@.len() / 2) as int);
                assert(pair_sum(buf@, (i / 2 + 1) as int) == s + word_at(buf@, i as int));
            }
            s = s + ((hi << 8u32) | lo);
        } else {
            assert(pair_sum(buf@, (i / 2 + 1) as int) == s);
        }
        i = i + 2;
    }
    assert(i / 2 == buf@.len() / 2);
    let odd = csumcv & 1usize;
    assert(csumcv & 1usize == csumcv % 2) by (bit_vector);
    if odd == 0 {
        s = s + buf[csumcv] as u32;
    }
    assert((s >> 16u32) + (s & 0xffffu32) <= 0x1fffe) by (bit_vector);
    let s1 = (s >> 16u32) + (s & 0xffffu32);
    assert(s1 <= 0x1fffe ==> s1 + (s1 >> 16u32) <= 0x1ffff) by (bit_vector);
    let s2 = s1 + (s1 >> 16u32);
    (#[verifier::truncate] (s2 as u16)) ^ 0xffffu16
}

proof fn lemma_pair_sum_same(a: Seq<u8>, b: Seq<u8>, k: int)
    requires
        a.len() == b.len(),
        2 * k <= a.len(),
        forall|i: int| 0 <= i < a.len() && i != 2 && i != 3 ==> a[i] == b[i],
    ensures
        pair_sum(a, k) == pair_sum(b, k),
    decreases k,
{
    if k > 0 {
        lemma_pair_sum_same(a, b, k - 1);
        if k - 1 != 1 {
            assert(a[2 * (k - 1)] == b[2 * (k - 1)]);
            assert(a[2 * (k - 1) + 1] == b[2 * (k - 1) + 1]);
        }
    }
}

/// The checksum does not depend on its own field: two messages that differ
/// only in bytes 2 and 3 have the same checksum. (A message of three bytes
/// is left out: there byte 2 is the odd last byte, which is summed.)
pub proof fn lemma_checksum_ignores_field(a: Seq<u8>, b: Seq<u8>)
    requires
        a.len() == b.len(),
        a.len() != 3,
        forall|i: int| 0 <= i < a.len() && i != 2 && i != 3 ==> a[i] == b[i],
    ensures
        checksum_sum(a) == checksum_sum(b),
{
    lemma_pair_sum_same(a, b, (a.len() / 2) as int);
    if a.len() % 2 == 1 {
        assert(a[a.len() - 1] == b[b.len() - 1]);
    }
}

/// A message of at most 65536 bytes meets the sum bound that
/// `calculate_checksum` requires: its 16-bit words add up to at most
/// 32768 * 65535.
pub proof fn lemma_checksum_sum_bound(buf: Seq<u8>)
    requires
        buf.len() <= 65536,
    ensures
        checksum_sum(buf) <= u32::MAX,
{
    let k = (buf.len() / 2) as int;
    lemma_small_sum(buf, k);
    assert(65535 * k <= 65535 * 32768) by (nonlinear_arith)
        requires
            0 <= k <= 32768,
    ;
}

/// The checksum law: for a message of 4 to 65536 bytes, whatever bytes 2
/// and 3 hold, `calculate_checksum` accepts the message and gives the same
/// checksum.
pub proof fn lemma_checksum_law(buf: Seq<u8>, b2: u8, b3: u8)
    requires
        4 <= buf.len() <= 65536,
    ensures
        checksum_sum(buf) <= u32::MAX,
        checksum_sum(buf.update(2, b2).update(3, b3)) <= u32::MAX,
        fold_complement(checksum_sum(buf.update(2, b2).update(3, b3)) as u32) == fold_complement(
            checksum_sum(buf) as u32,
        ),
{
    let c = buf.update(2, b2).update(3, b3);
    lemma_checksum_sum_bound(buf);
    lemma_checksum_sum_bound(c);
    lemma_checksum_ignores_field(buf, c);
}

/// The TTL of the echo requests unless configured: 64.
pub fn default_ttl() -> (r: u32)
    ensures
        r == 64,
{
    64
}

/// The sequence number after `s`: it counts 1 to 65535 and wraps to 1.
pub fn next_sequence(s: u16) -> (r: u16)
    ensures
        r == (if s == 65535 {
            1
        } else {
            s + 1
        }),
{
    if s == 65535 {
        1
    } else {
        s + 1
    }
}

/// `256^n`.
pub open spec fn pow256(n: nat) -> nat
    decreases n,
{
    if n == 0 {
        1
    } else {
        256 * pow256((n - 1) as nat)
    }
}

/// The `n` low bytes of `v`, least significant first: how a little-endian
/// host lays out an integer of `n` bytes.
pub open spec fn le_bytes(v: nat, n: nat) -> Seq<u8>
    decreases n,
{
    if n == 0 {
        Seq::empty()
    } else {
        seq![(v % 256) as u8] + le_bytes(v / 256, (n - 1) as nat)
    }
}

/// The number whose little-endian bytes are `s`.
pub open spec fn le_value(s: Seq<u8>) -> nat
    decreases s.len(),
{
    if s.len() == 0 {
        0
    } else {
        s[0] as nat + 256 * le_value(s.subrange(1, s.len() as int))
    }
}

/// Reading back the bytes of a number gives the number, when it fits.
pub proof fn lemma_le_roundtrip(v: nat, n: nat)
    requires
        v < pow256(n),
    ensures
        le_value(le_bytes(v, n)) == v,
        le_bytes(v, n).len() == n,
    decreases n,
{
    if n > 0 {
        lemma_le_roundtrip(v / 256, (n - 1) as nat);
        let s = le_bytes(v, n);
        assert(s.subrange(1, s.len() as int) =~= le_bytes(v / 256, (n - 1) as nat));
    }
}

proof fn lemma_le_bytes_len(v: nat, n: nat)
    ensures
        le_bytes(v, n).len() == n,
    decreases n,
{
    if n > 0 {
        lemma_le_bytes_len(v / 256, (n - 1) as nat);
    }
}

proof fn lemma_le_value_bound(s: Seq<u8>)
    ensures
        le_value(s) < pow256(s.len()),
    decreases s.len(),
{
    if s.len() > 0 {
        lemma_le_value_bound(s.subrange(1, s.len() as int));
    }
}

proof fn lemma_pow256_values()
    ensures
        pow256(1) == 0x100,
        pow256(2) == 0x1_0000,
        pow256(8) == 0x1_0000_0000_0000_0000,
        pow256(15) == 0x100_0000_0000_0000_0000_0000_0000_0000,
        pow256(16) == 0x1_0000_0000_0000_0000_0000_0000_0000_0000,
{
    reveal_with_fuel(pow256, 17);
}

proof fn lemma_pow256_mono(a: nat, b: nat)
    requires
        a <= b,
    ensures
        pow256(a) <= pow256(b),
    decreases b,
{
    if a < b {
        lemma_pow256_mono(a, (b - 1) as nat);
    }
}

/// Appends the `n` low bytes of `v`, least significant first.
fn push_le(out: &mut Vec<u8>, v: u128, n: usize)
    ensures
        final(out)@ == old(out)@ + le_bytes(v as nat, n as nat),
{
    let ghost start = out@;
    let mut x = v;
    let mut k: usize = 0;
    while k < n
        invariant
            k <= n,
            out@ + le_bytes(x as nat, (n - k) as nat) == start + le_bytes(v as nat, n as nat),
        decreases n - k,
    {
        let ghost before = out@;
        out.push((x % 256) as u8);
        proof {
            assert(le_bytes(x as nat, (n - k) as nat) == seq![(x % 256) as u8] + le_bytes(
                (x / 256) as nat,
                (n - k - 1) as nat,
            ));
            assert(out@ + le_bytes((x / 256) as nat, (n - k - 1) as nat) =~= before + le_bytes(
                x as nat,
                (n - k) as nat,
            ));
        }
        x = x / 256;
        k = k + 1;
    }
    assert(out@ + le_bytes(x as nat, 0) =~= out@);
}

/// Reads the little-endian number of `n <= 16` bytes at `i`.
fn read_le(b: &[u8], i: usize, n: usize) -> (r: u128)
    requires
        n <= 16,
        i + n <= b.len(),
    ensures
        r == le_value(b@.subrange(i as int, i + n)),
{
    let mut acc: u128 = 0;
    let mut j: usize = n;
    proof {
        assert(b@.subrange(i + n, i + n) =~= Seq::<u8>::empty());
    }
    while j > 0
        invariant
            j <= n <= 16,
            i + n <= b.len(),
            acc == le_value(b@.subrange(i + j, i + n)),
        decreases j,
    {
        let ghost tail = b@.subrange(i + j, i + n);
        let ghost s = b@.subrange(i + j - 1, i + n);
        proof {
            assert(s.subrange(1, s.len() as int) =~= tail);
            lemma_le_value_bound(tail);
            lemma_pow256_values();
            lemma_pow256_mono(tail.len(), 15);
        }
        let idx = i + j - 1;
        acc = b[idx] as u128 + 256 * acc;
        j = j - 1;
    }
    acc
}

/// The bytes of the `i64` `t` as the host lays them out: those of the
/// 64-bit two's complement.
pub open spec fn i64_bits(t: i64) -> nat {
    (t as u64) as nat
}

/// The ICMP echo request that the ping source sends: type 8, code 0, the
/// checksum (for IPv4; 0 for IPv6, where the kernel fills it in), the
/// identifier, the sequence number, the send time in nanoseconds and the
/// tracker id, each little-endian.
pub open spec fn echo_request_spec(identifier: u16, sequence: u16, timestamp: i64, tracker: u128, ipv4: bool) -> Seq<u8> {
    let body = le_bytes(identifier as nat, 2) + le_bytes(sequence as nat, 2) + le_bytes(i64_bits(timestamp), 8)
        + le_bytes(tracker as nat, 16);
    let unsummed = seq![8u8, 0u8, 0u8, 0u8] + body;
    let checksum: u16 = if ipv4 {
        fold_complement(checksum_sum(unsummed) as u32)
    } else {
        0
    };
    seq![8u8, 0u8] + le_bytes(checksum as nat, 2) + body
}

proof fn lemma_small_sum(buf: Seq<u8>, k: int)
    requires
        0 <= k,
    ensures
        pair_sum(buf, k) <= 65535 * k,
    decreases k,
{
    if k > 0 {
        lemma_small_sum(buf, k - 1);
    }
}

/// Builds the echo request.
pub fn echo_request(identifier: u16, sequence: u16, timestamp: i64, tracker: u128, ipv4: bool) -> (r: Vec<u8>)
    ensures
        r@ == echo_request_spec(identifier, sequence, timestamp, tracker, ipv4),
        r@.len() == 32,
{
    let mut body: Vec<u8> = Vec::new();
    push_le(&mut body, identifier as u128, 2);
    push_le(&mut body, sequence as u128, 2);
    push_le(&mut body, (timestamp as u64) as u128, 8);
    push_le(&mut body, tracker, 16);
    let ghost b = body@;
    proof {
        lemma_le_bytes_len(identifier as nat, 2);
        lemma_le_bytes_len(sequence as nat, 2);
        lemma_le_bytes_len(i64_bits(timestamp), 8);
        lemma_le_bytes_len(tracker as nat, 16);
        assert(body@.len() == 28);
    }
    let mut unsummed: Vec<u8> = Vec::new();
    unsummed.push(8u8);
    unsummed.push(0u8);
    unsummed.push(0u8);
    unsummed.push(0u8);
    let mut k: usize = 0;
    while k < body.len()
        invariant
            k <= body@.len(),
            body@ == b,
            b.len() == 28,
            unsummed@ =~= seq![8u8, 0u8, 0u8, 0u8] + b.take(k as int),
        decreases body@.len() - k,
    {
        unsummed.push(body[k]);
        k = k + 1;
    }
    assert(b.take(28) =~= b);
    let checksum: u16 = if ipv4 {
        proof {
            lemma_small_sum(unsummed@, 16);
            assert(checksum_sum(unsummed@) <= 65535 * 16);
        }
        calculate_checksum(&unsummed)
    } else {
        0
    };
    let mut out: Vec<u8> = Vec::new();
    out.push(8u8);
    out.push(0u8);
    push_le(&mut out, checksum as u128, 2);
    let mut j: usize = 0;
    while j < body.len()
        invariant
            j <= body@.len(),
            body@ == b,
            b.len() == 28,
            out@ =~= seq![8u8, 0u8] + le_bytes(checksum as nat, 2) + b.take(j as int),
        decreases body@.len() - j,
    {
        out.push(body[j]);
        j = j + 1;
    }
    proof {
        lemma_le_bytes_len(checksum as nat, 2);
    }
    out
}

/// The send time and the tracker id that a 32-byte echo reply carries back.
pub open spec fn reply_values(resp: Seq<u8>) -> Option<(i64, u128)> {
    if resp.len() != 32 {
        None
    } else {
        Some((le_value(resp.subrange(8, 16)) as u64 as i64, le_value(resp.subrange(16, 32)) as u128))
    }
}

/// Reads the send time and the tracker id of an echo reply; a reply that is
/// not 32 bytes long is not one of ours.
pub fn parse_echo_reply(resp: &[u8]) -> (r: Option<(i64, u128)>)
    ensures
        r == reply_values(resp@),
{
    if resp.len() != 32 {
        return None;
    }
    let sent = read_le(resp, 8, 8);
    proof {
        lemma_le_value_bound(resp@.subrange(8, 16));
        lemma_pow256_values();
    }
    let tracker = read_le(resp, 16, 16);
    Some((#[verifier::truncate] ((sent as u64) as i64), tracker))
}

/// A reply that echoes the data of a request (its bytes from 8 on) gives
/// back the send time and the tracker id that the request carried.
pub proof fn lemma_reply_echoes_request(
    identifier: u16,
    sequence: u16,
    timestamp: i64,
    tracker: u128,
    ipv4: bool,
    reply: Seq<u8>,
)
    requires
        reply.len() == 32,
        reply.subrange(8, 32) == echo_request_spec(identifier, sequence, timestamp, tracker, ipv4).subrange(8, 32),
    ensures
        reply_values(reply) == Some((timestamp, tracker)),
{
    let req = echo_request_spec(identifier, sequence, timestamp, tracker, ipv4);
    lemma_pow256_values();
    lemma_le_bytes_len(identifier as nat, 2);
    lemma_le_bytes_len(sequence as nat, 2);
    lemma_le_roundtrip(i64_bits(timestamp), 8);
    lemma_le_roundtrip(tracker as nat, 16);
    let ts = le_bytes(i64_bits(timestamp), 8);
    let tr = le_bytes(tracker as nat, 16);
    let body = le_bytes(identifier as nat, 2) + le_bytes(sequence as nat, 2) + ts + tr;
    let checksum: u16 = if ipv4 {
        fold_complement(checksum_sum(seq![8u8, 0u8, 0u8, 0u8] + body) as u32)
    } else {
        0
    };
    lemma_le_bytes_len(checksum as nat, 2);
    assert(req == seq![8u8, 0u8] + le_bytes(checksum as nat, 2) + body);
    assert(req.subrange(8, 16) =~= ts);
    assert(req.subrange(16, 32) =~= tr);
    assert(reply.subrange(8, 16) =~= reply.subrange(8, 32).subrange(0, 8));
    assert(req.subrange(8, 16) =~= req.subrange(8, 32).subrange(0, 8));
    assert(reply.subrange(16, 32) =~= reply.subrange(8, 32).subrange(8, 24));
    assert(req.subrange(16, 32) =~= req.subrange(8, 32).subrange(8, 24));
    assert((timestamp as u64) as i64 == timestamp) by (bit_vector);
}


/// The largest round trip time of a non-empty `rtts`.
pub open spec fn rtt_max(rtts: Seq<i64>) -> i64
    decreases rtts.len(),
{
    if rtts.len() <= 1 {
        rtts[0]
    } else {
        let m = rtt_max(rtts.drop_last());
        if rtts.last() > m {
            rtts.last()
        } else {
            m
        }
    }
}

/// The smallest round trip time of a non-empty `rtts`.
pub open spec fn rtt_min(rtts: Seq<i64>) -> i64
    decreases rtts.len(),
{
    if rtts.len() <= 1 {
        rtts[0]
    } else {
        let m = rtt_min(rtts.drop_last());
        if rtts.last() < m {
            rtts.last()
        } else {
            m
        }
    }
}

/// The sum of the round trip times.
pub open spec fn rtt_total(rtts: Seq<i64>) -> int
    decreases rtts.len(),
{
    if rtts.len() == 0 {
        0
    } else {
        rtt_total(rtts.drop_last()) + rtts.last()
    }
}

proof fn lemma_rtt_total_bound(rtts: Seq<i64>)
    ensures
        -0x8000_0000_0000_0000 * rtts.len() <= rtt_total(rtts) <= 0x7fff_ffff_ffff_ffff * rtts.len(),
    decreases rtts.len(),
{
    if rtts.len() > 0 {
        lemma_rtt_total_bound(rtts.drop_last());
    }
}

/// The integer statistics of a window of round trip times: the largest,
/// the smallest and the sum. An empty window gives `(0, 0, 0)`.
pub fn rtt_extremes(rtts: &Vec<i64>) -> (r: (i64, i64, i128))
    ensures
        rtts@.len() == 0 ==> r == (0i64, 0i64, 0i128),
        rtts@.len() > 0 ==> r == (rtt_max(rtts@), rtt_min(rtts@), rtt_total(rtts@) as i128),
{
    if rtts.len() == 0 {
        return (0, 0, 0);
    }
    let mut max: i64 = rtts[0];
    let mut min: i64 = rtts[0];
    let mut total: i128 = rtts[0] as i128;
    let mut i: usize = 1;
    assert(rtts@.take(1) =~= seq![rtts@[0]]);
    assert(rtts@.take(1).drop_last() =~= Seq::<i64>::empty());
    assert(rtt_total(Seq::<i64>::empty()) == 0);
    assert(rtt_total(rtts@.take(1)) == rtts@[0]);
    while i < rtts.len()
        invariant
            1 <= i <= rtts@.len(),
            max == rtt_max(rtts@.take(i as int)),
            min == rtt_min(rtts@.take(i as int)),
            total == rtt_total(rtts@.take(i as int)),
        decreases rtts@.len() - i,
    {
        let rtt = rtts[i];
        proof {
            assert(rtts@.take(i + 1).drop_last() =~= rtts@.take(i as int));
            lemma_rtt_total_bound(rtts@.take(i as int));
            assert(i < 0x1_0000_0000_0000_0000);
            assert(-0x8000_0000_0000_0000 * i >= -0x8000_0000_0000_0000 * 0x1_0000_0000_0000_0000) by (nonlinear_arith)
                requires
                    0 <= i < 0x1_0000_0000_0000_0000,
            ;
            assert(0x7fff_ffff_ffff_ffff * i <= 0x7fff_ffff_ffff_ffff * 0x1_0000_0000_0000_0000) by (nonlinear_arith)
                requires
                    0 <= i < 0x1_0000_0000_0000_0000,
            ;
        }
        if rtt > max {
            max = rtt;
        }
        if rtt < min {
            min = rtt;
        }
        total = total + rtt as i128;
        i = i + 1;
    }
    assert(rtts@.take(rtts@.len() as int) =~= rtts@);
    (max, min, total)
}

} // verus!
