//! The configuration of the Redis source, and how it names metrics.

use vstd::prelude::*;

use crate::text::{has_prefix, starts_with};

verus! {

/// What the Redis source is configured with.
pub struct RedisSourceConfig {
    /// The server, as `redis://host:port/db`.
    pub url: String,
    /// The time between two scrapes.
    pub interval: std::time::Duration,
    /// The prefix of the metric names.
    pub namespace: Option<String>,
    pub user: Option<String>,
    pub password: Option<String>,
}

/// The namespace when none is configured: `redis`.
pub fn default_namespace() -> (r: Option<String>)
    ensures
        r matches Some(s) && s@ == "redis"@,
{
    Some("redis".to_owned())
}

/// A running Redis source.
pub struct RedisSource {
    pub url: String,
    pub namespace: Option<String>,
    pub interval: std::time::Duration,
    pub client_name: Option<String>,
}

impl RedisSource {
    /// The source that a configuration describes: its server, namespace and
    /// interval, and no client name.
    pub fn from(conf: &RedisSourceConfig) -> (r: RedisSource)
        ensures
            r.url@ == conf.url@,
            r.interval == conf.interval,
            r.client_name is None,
            match conf.namespace {
                Some(n) => r.namespace matches Some(m) && m@ == n@,
                None => r.namespace is None,
            },
    {
        let namespace = match &conf.namespace {
            Some(n) => Some(n.clone()),
            None => None,
        };
        RedisSource { url: conf.url.clone(), namespace, interval: conf.interval, client_name: None }
    }
}

/// `name` with every byte that is not an ASCII letter, digit or `_`
/// replaced by `_`.
pub open spec fn sanitized(name: Seq<u8>) -> Seq<u8> {
    Seq::new(
        name.len(),
        |i: int|
            if (0x30u8 <= name[i] <= 0x39u8) || (0x41u8 <= name[i] <= 0x5au8) || (0x61u8 <= name[i]
                <= 0x7au8) || name[i] == 0x5fu8 {
                name[i]
            } else {
                0x5fu8
            },
    )
}

/// Turns a field name into a metric name: every byte that is not an ASCII
/// letter, digit or `_` becomes `_`.
pub fn sanitize_metric_name(name: &[u8]) -> (r: Vec<u8>)
    ensures
        r@ == sanitized(name@),
{
    let mut out: Vec<u8> = Vec::new();
    let mut i: usize = 0;
    while i < name.len()
        invariant
            i <= name@.len(),
            out@ =~= sanitized(name@).take(i as int),
        decreases name@.len() - i,
    {
        let b = name[i];
        if (0x30u8 <= b && b <= 0x39u8) || (0x41u8 <= b && b <= 0x5au8) || (0x61u8 <= b && b <= 0x7au8)
            || b == 0x5fu8 {
            out.push(b);
        } else {
            out.push(0x5fu8);
        }
        i = i + 1;
    }
    assert(sanitized(name@).take(name@.len() as int) =~= sanitized(name@));
    out
}

/// `slave`
pub open spec fn slave_prefix() -> Seq<u8> {
    seq![0x73u8, 0x6cu8, 0x61u8, 0x76u8, 0x65u8]
}

/// A key of a connected replica: "slave" and then a digit.
pub fn validate_slave_line(line: &[u8]) -> (r: bool)
    ensures
        r == (has_prefix(line@, slave_prefix()) && line@.len() > 5 && 0x30u8 <= line@[5] <= 0x39u8),
{
    proof {
        assert([0x73u8, 0x6cu8, 0x61u8, 0x76u8, 0x65u8]@ =~= slave_prefix());
    }
    if !starts_with(line, &[0x73u8, 0x6cu8, 0x61u8, 0x76u8, 0x65u8]) {
        return false;
    }
    if line.len() <= 5 {
        return false;
    }
    let c = line[5];
    0x30u8 <= c && c <= 0x39u8
}

} // verus!
