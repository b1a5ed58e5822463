//! The NTP source's decisions: the address of each configured server, the
//! round-robin choice of the next one, and the sanity verdict on a reply,
//! which tolerates leap smearing around a leap second.

use vstd::prelude::*;
use vstd::string::StringSliceAdditionalSpecFns;
use vstd::utf8::encode_utf8;

use crate::strs::{concat4, split_once_ascii};
use crate::text::{dec_u16, first_index, parse_u16};

verus! {

/// The address that a configured pool is queried at: the pool itself where
/// it names a port after its first `:`, which must be a `u16`; else the pool
/// on port 123.
pub open spec fn pool_address_spec(pool: Seq<char>) -> Option<Seq<char>> {
    let bytes = encode_utf8(pool);
    match first_index(bytes, 0x3au8) {
        Some(i) => if dec_u16(bytes.subrange(i + 1, bytes.len() as int)) is Some {
            Some(pool)
        } else {
            None
        },
        None => Some(pool + ":123"@),
    }
}

/// The address of `pool`; `None` where the port it names is invalid.
pub fn pool_address(pool: &str) -> (r: Option<String>)
    ensures
        match pool_address_spec(pool@) {
            Some(a) => r matches Some(s) && s@ == a,
            None => r is None,
        },
{
    match split_once_ascii(pool, 0x3au8) {
        Some((_host, port)) => match parse_u16(port.as_bytes()) {
            Some(_) => Some(pool.to_owned()),
            None => None,
        },
        None => {
            let r = concat4(pool, ":123", "", "");
            proof {
                reveal_strlit("");
                assert(r@ =~= pool@ + ":123"@);
            }
            Some(r)
        },
    }
}

/// The addresses of the configured pools, or the index of the first whose
/// port is invalid.
pub fn pool_addresses(pools: &Vec<String>) -> (r: Result<Vec<String>, usize>)
    ensures
        match r {
            Ok(v) => v@.len() == pools@.len() && forall|j: int|
                0 <= j < pools@.len() ==> pool_address_spec(#[trigger] pools@[j]@) == Some(v@[j]@),
            Err(k) => k < pools@.len() && pool_address_spec(pools@[k as int]@)
                is None && forall|j: int|
                0 <= j < k ==> pool_address_spec(#[trigger] pools@[j]@)
                    is Some,
        },
{
    let mut out: Vec<String> = Vec::new();
    let mut i: usize = 0;
    while i < pools.len()
        invariant
            i <= pools@.len(),
            out@.len() == i,
            forall|j: int|
                0 <= j < i ==> pool_address_spec(#[trigger] pools@[j]@)
                    == Some(out@[j]@),
        decreases pools@.len() - i,
    {
        let pool = pools[i].as_str();
        match pool_address(pool) {
            Some(a) => out.push(a),
            None => return Err(i),
        }
        i = i + 1;
    }
    Ok(out)
}

/// Picks the servers to query in turn.
pub struct Picker {
    pools: Vec<String>,
    state: usize,
}

impl Picker {
    /// The pools the picker chooses from.
    pub closed spec fn pools(&self) -> Seq<String> {
        self.pools@
    }

    /// How many choices the picker has made, modulo the machine word.
    pub closed spec fn state(&self) -> nat {
        self.state as nat
    }

    /// A picker over `pools` that has made no choice yet.
    pub fn new(pools: Vec<String>) -> (r: Picker)
        ensures
            r.pools() == pools@,
            r.state() == 0,
    {
        Picker { pools, state: 0 }
    }

    /// The number of pools.
    pub fn len(&self) -> (r: usize)
        ensures
            r == self.pools().len(),
    {
        self.pools.len()
    }

    /// How many choices the picker has made.
    pub fn picks(&self) -> (r: usize)
        ensures
            r == self.state(),
    {
        self.state
    }

    /// The next pool: the choices go round the pools, starting at the
    /// second.
    pub fn pick_one(&mut self) -> (r: String)
        requires
            old(self).pools().len() > 0,
            old(self).state() < usize::MAX,
        ensures
            final(self).pools() == old(self).pools(),
            final(self).state() == old(self).state() + 1,
            r@ == old(self).pools()[((old(self).state() + 1) % old(self).pools().len()) as int]@,
    {
        self.state = self.state + 1;
        let index = self.state % self.pools.len();
        self.pools[index].clone()
    }
}

/// A day in nanoseconds.
pub open spec fn day_nanos() -> int {
    86_400_000_000_000
}

/// The largest root distance a sane server has: 3.46608 s.
pub open spec fn max_distance_nanos() -> int {
    3_466_080_000
}

/// What the source reads of an NTP reply, the times in nanoseconds (the
/// time of the reply since the Unix epoch).
#[derive(Clone, Copy, Debug, PartialEq, Eq)]
pub struct Reply {
    pub leap: u8,
    pub time: i64,
    pub root_distance: i64,
    pub min_err: i64,
    /// The reply passes the RFC 5905 checks of the client.
    pub valid: bool,
}

/// What the source remembers between replies: the error it tolerates, and
/// the midnight of the last announced leap second, in nanoseconds.
#[derive(Clone, Copy, Debug, PartialEq, Eq)]
pub struct LeapWatch {
    pub max_err: i128,
    pub leap_midnight: i128,
}

/// The midnight that follows the day of `time`.
pub open spec fn next_midnight(time: int) -> int {
    time - time % day_nanos() + day_nanos()
}

/// The watch after `reply`: a reply announcing a leap second (leap 1 or 2)
/// moves the leap midnight to the end of its day; a reply within a day of
/// the leap midnight raises the tolerated error by a second.
pub open spec fn watch_after(w: LeapWatch, reply: Reply) -> LeapWatch {
    let midnight = if reply.leap == 1 || reply.leap == 2 {
        next_midnight(reply.time as int)
    } else {
        w.leap_midnight as int
    };
    let max_err = if midnight - day_nanos() < reply.time && reply.time < midnight + day_nanos() {
        w.max_err + 1_000_000_000
    } else {
        w.max_err as int
    };
    LeapWatch { max_err: max_err as i128, leap_midnight: midnight as i128 }
}

/// The reply is sane by the heuristics of RFC 5905 and the limits: it is
/// valid, its root distance is at most 3.46608 s and its error is within
/// the tolerated error.
pub open spec fn sane(w: LeapWatch, reply: Reply) -> bool {
    reply.valid && reply.root_distance <= max_distance_nanos() && reply.min_err <= w.max_err
}

/// The remainder of `-t` by a day, for a negative `t`.
spec fn k_of(t: int) -> int {
    if t >= 0 {
        0
    } else {
        (-t) % day_nanos()
    }
}

proof fn lemma_euclid_mod(t: int, k: int, m: int)
    requires
        k == k_of(t),
        m == (if t >= 0 {
            t % day_nanos()
        } else if k == 0 {
            0
        } else {
            day_nanos() - k
        }),
    ensures
        m == t % day_nanos(),
{
    let d = day_nanos();
    if t < 0 {
        let q = (-t) / d;
        assert(-t == q * d + k && 0 <= k < d) by (nonlinear_arith)
            requires
                k == (-t) % d,
                q == (-t) / d,
                d > 0,
        ;
        if k == 0 {
            assert(t == (-q) * d);
            assert(t % d == 0) by (nonlinear_arith)
                requires
                    t == (-q) * d,
                    d > 0,
            ;
        } else {
            assert(t == (-q - 1) * d + (d - k)) by (nonlinear_arith)
                requires
                    -t == q * d + k,
            ;
            assert(t % d == d - k) by (nonlinear_arith)
                requires
                    t == (-q - 1) * d + (d - k),
                    0 < d - k < d,
            ;
        }
    }
}

impl LeapWatch {
    /// The watch before any reply: a millisecond of tolerated error, and
    /// `now` standing for the leap midnight.
    pub fn new(now: i64) -> (r: LeapWatch)
        ensures
            r == (LeapWatch { max_err: 1_000_000, leap_midnight: now as i128 }),
    {
        LeapWatch { max_err: 1_000_000, leap_midnight: now as i128 }
    }

    /// Takes in `reply` and says whether it is sane.
    pub fn observe(&mut self, reply: &Reply) -> (r: bool)
        requires
            old(self).max_err < i128::MAX - 1_000_000_000,
            -0x1_0000_0000_0000_0000_0000i128 < old(self).leap_midnight
                < 0x1_0000_0000_0000_0000_0000i128,
        ensures
            *final(self) == watch_after(*old(self), *reply),
            r == sane(*final(self), *reply),
    {
        let day: i128 = 86_400_000_000_000;
        let time = reply.time as i128;
        if reply.leap == 1 || reply.leap == 2 {
            let into_day: i128 = if time >= 0 {
                time % day
            } else {
                let k = (-time) % day;
                if k == 0 {
                    0
                } else {
                    day - k
                }
            };
            proof {
                lemma_euclid_mod(time as int, k_of(time as int), into_day as int);
            }
            self.leap_midnight = time - into_day + day;
        }
        if self.leap_midnight - day < time && time < self.leap_midnight + day {
            self.max_err = self.max_err + 1_000_000_000;
        }
        reply.valid && (reply.root_distance as i128) <= 3_466_080_000 && (reply.min_err as i128)
            <= self.max_err
    }
}

} // verus!
