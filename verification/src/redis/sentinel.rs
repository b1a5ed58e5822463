//! What a Sentinel reports of the masters it monitors: SENTINEL MASTERS,
//! SENTINEL SENTINELS and SENTINEL SLAVES replies, read as field maps.

use vstd::prelude::*;
use vstd::string::StringSliceAdditionalSpecFns;

use crate::kv::ByteMap;
use crate::text::{dec_u64, find_bytes, find_from, parse_u64};

verus! {

/// The name, address and port of a master, where its map gives all three.
pub fn master_of<'a>(info: &ByteMap<'a>) -> (r: Option<(&'a [u8], &'a [u8], &'a [u8])>)
    requires
        info.wf(),
    ensures
        r is Some <==> (info@.contains_key("name".spec_bytes()) && info@.contains_key(
            "ip".spec_bytes(),
        ) && info@.contains_key("port".spec_bytes())),
        r matches Some((name, ip, port)) ==> name@ == info@["name".spec_bytes()] && ip@
            == info@["ip".spec_bytes()] && port@ == info@["port".spec_bytes()],
{
    let name = match info.get("name".as_bytes()) {
        Some(v) => v,
        None => return None,
    };
    let ip = match info.get("ip".as_bytes()) {
        Some(v) => v,
        None => return None,
    };
    let port = match info.get("port".as_bytes()) {
        Some(v) => v,
        None => return None,
    };
    Some((name, ip, port))
}

/// A setting of a master as a `u64`: 0 where it is absent or no number.
pub open spec fn setting_value(m: Map<Seq<u8>, Seq<u8>>, key: Seq<u8>) -> u64 {
    if m.contains_key(key) {
        match dec_u64(m[key]) {
            Some(x) => x,
            None => 0,
        }
    } else {
        0
    }
}

/// The setting `key` of a master, such as `failover-timeout`.
pub fn master_setting(info: &ByteMap, key: &str) -> (r: u64)
    requires
        info.wf(),
    ensures
        r == setting_value(info@, key.spec_bytes()),
{
    match info.get(key.as_bytes()) {
        Some(v) => match parse_u64(v) {
            Some(x) => x,
            None => 0,
        },
        None => 0,
    }
}

/// A peer is up: it reports its flags, and they hold neither `o_down` nor
/// `s_down`.
pub open spec fn peer_ok(m: Map<Seq<u8>, Seq<u8>>) -> bool {
    &&& m.contains_key("flags".spec_bytes())
    &&& find_from(m["flags".spec_bytes()], "o_down".spec_bytes(), 0) is None
    &&& find_from(m["flags".spec_bytes()], "s_down".spec_bytes(), 0) is None
}

/// How many of the peers are up.
pub open spec fn ok_count(s: Seq<ByteMap>) -> nat
    decreases s.len(),
{
    if s.len() == 0 {
        0
    } else {
        ok_count(s.drop_last()) + if peer_ok(s.last()@) {
            1nat
        } else {
            0nat
        }
    }
}

fn is_ok(info: &ByteMap) -> (r: bool)
    requires
        info.wf(),
    ensures
        r == peer_ok(info@),
{
    match info.get("flags".as_bytes()) {
        Some(flags) => find_bytes(flags, "o_down".as_bytes()).is_none() && find_bytes(
            flags,
            "s_down".as_bytes(),
        ).is_none(),
        None => false,
    }
}

/// `start` plus the number of peers that are up: a Sentinel counts itself
/// among the sentinels of a master it reports (`start` 1), not among its
/// replicas (`start` 0).
pub fn count_ok(infos: &Vec<ByteMap>, start: u64) -> (r: u64)
    requires
        forall|j: int| 0 <= j < infos@.len() ==> (#[trigger] infos@[j]).wf(),
        start + infos@.len() <= u64::MAX,
    ensures
        r == start + ok_count(infos@),
{
    let mut n = start;
    let mut i: usize = 0;
    while i < infos.len()
        invariant
            i <= infos@.len(),
            forall|j: int| 0 <= j < infos@.len() ==> (#[trigger] infos@[j]).wf(),
            start + infos@.len() <= u64::MAX,
            n == start + ok_count(infos@.take(i as int)),
            ok_count(infos@.take(i as int)) <= i,
        decreases infos@.len() - i,
    {
        assert(infos@.take(i + 1).drop_last() =~= infos@.take(i as int));
        if is_ok(&infos[i]) {
            n = n + 1;
        }
        i = i + 1;
    }
    assert(infos@.take(infos@.len() as int) =~= infos@);
    n
}

} // verus!
