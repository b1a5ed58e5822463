//! What CONFIG GET * tells of a server's limits.

use vstd::prelude::*;
use vstd::string::StringSliceAdditionalSpecFns;

use crate::kv::ByteMap;
use crate::metric::{gauge, no_tags, push_gauge, samples_view, Sample, SampleModel, TagModel};
use crate::text::{dec_u64, fields, parse_u64, split_ascii_ws, views};

verus! {

/// A decimal `u64`, 0 where the text is none.
pub open spec fn u64_or_zero(v: Seq<u8>) -> int {
    match dec_u64(v) {
        Some(x) => x as int,
        None => 0,
    }
}

/// The gauge `name` for the setting `key`, where the server reports it.
pub open spec fn setting_sample(m: Map<Seq<u8>, Seq<u8>>, key: Seq<u8>, name: &'static str) -> Seq<
    SampleModel,
> {
    if m.contains_key(key) {
        seq![gauge(name, "", u64_or_zero(m[key]), Seq::<(&'static str, TagModel)>::empty())]
    } else {
        Seq::empty()
    }
}

/// The gauges of the integer settings, in the order of their names:
/// `io-threads`, `maxclients`, `maxmemory`.
pub open spec fn config_samples_spec(m: Map<Seq<u8>, Seq<u8>>) -> Seq<SampleModel> {
    setting_sample(m, "io-threads".spec_bytes(), "redis_config_io_threads") + setting_sample(
        m,
        "maxclients".spec_bytes(),
        "redis_config_max_clients",
    ) + setting_sample(m, "maxmemory".spec_bytes(), "redis_config_max_memory")
}

fn push_setting<'b>(out: &mut Vec<Sample<'b>>, config: &ByteMap, key: &str, name: &'static str)
    requires
        config.wf(),
    ensures
        samples_view(final(out)@) == samples_view(old(out)@) + setting_sample(
            config@,
            key.spec_bytes(),
            name,
        ),
{
    let ghost before = samples_view(out@);
    match config.get(key.as_bytes()) {
        Some(v) => {
            let value: u64 = match parse_u64(v) {
                Some(x) => x,
                None => 0,
            };
            push_gauge(out, name, "", value as i128, no_tags());
            assert(samples_view(out@) =~= before + setting_sample(config@, key.spec_bytes(), name));
        },
        None => {
            assert(samples_view(out@) =~= before + setting_sample(config@, key.spec_bytes(), name));
        },
    }
}

/// The gauges of the integer settings that the server reports.
pub fn config_samples<'b>(config: &ByteMap) -> (r: Vec<Sample<'b>>)
    requires
        config.wf(),
    ensures
        samples_view(r@) == config_samples_spec(config@),
{
    let mut out: Vec<Sample<'b>> = Vec::new();
    push_setting(&mut out, config, "io-threads", "redis_config_io_threads");
    push_setting(&mut out, config, "maxclients", "redis_config_max_clients");
    push_setting(&mut out, config, "maxmemory", "redis_config_max_memory");
    assert(samples_view(out@) =~= config_samples_spec(config@));
    out
}

/// Which limit of an output buffer class a value gives.
#[derive(Clone, Copy, Debug, PartialEq, Eq)]
pub enum Limit {
    /// The hard limit, in bytes.
    Hard,
    /// The soft limit, in bytes.
    Soft,
    /// How long the soft limit may be exceeded, in seconds.
    SoftSeconds,
}

impl Limit {
    /// The name of the metric of the limit, its description, and its
    /// `limit` label: the byte limits share a metric and are told apart by
    /// the label, the soft seconds have a metric of their own.
    pub open spec fn metric_spec(self) -> (&'static str, &'static str, &'static str) {
        match self {
            Limit::Hard => (
                "redis_config_client_output_buffer_limit_bytes",
                "The configured buffer limits per class",
                "hard",
            ),
            Limit::Soft => (
                "redis_config_client_output_buffer_limit_bytes",
                "The configured buffer limits per class",
                "soft",
            ),
            Limit::SoftSeconds => (
                "redis_config_client_output_buffer_limit_overcome_seconds",
                "How long for buffer limits per class to be exceeded before replicas are dropped",
                "soft",
            ),
        }
    }

    /// The name of the metric of the limit, its description, and its
    /// `limit` label.
    pub fn metric(&self) -> (r: (&'static str, &'static str, &'static str))
        ensures
            r == self.metric_spec(),
    {
        match self {
            Limit::Hard => (
                "redis_config_client_output_buffer_limit_bytes",
                "The configured buffer limits per class",
                "hard",
            ),
            Limit::Soft => (
                "redis_config_client_output_buffer_limit_bytes",
                "The configured buffer limits per class",
                "soft",
            ),
            Limit::SoftSeconds => (
                "redis_config_client_output_buffer_limit_overcome_seconds",
                "How long for buffer limits per class to be exceeded before replicas are dropped",
                "soft",
            ),
        }
    }
}

/// The limit that the `k`th value after a class name gives.
pub open spec fn limit_at(k: int) -> Limit {
    if k == 1 {
        Limit::Hard
    } else if k == 2 {
        Limit::Soft
    } else {
        Limit::SoftSeconds
    }
}

/// The limits of the fields of `client-output-buffer-limit` from `i` on:
/// the fields come in groups of a class name and its hard limit, soft limit
/// and soft seconds, and each value is given with its class and kind.
pub open spec fn limit_entries(f: Seq<Seq<u8>>, i: int) -> Seq<(Seq<u8>, Limit, Seq<u8>)>
    decreases f.len() - i,
{
    if i < 0 || i >= f.len() {
        Seq::empty()
    } else if i % 4 == 0 {
        limit_entries(f, i + 1)
    } else {
        seq![(f[i - i % 4], limit_at(i % 4), f[i])] + limit_entries(f, i + 1)
    }
}

/// An entry as plain values.
pub open spec fn entries_view(s: Seq<(&[u8], Limit, &[u8])>) -> Seq<(Seq<u8>, Limit, Seq<u8>)> {
    s.map_values(|e: (&[u8], Limit, &[u8])| (e.0@, e.1, e.2@))
}

/// The class, kind and value text of each limit that the setting
/// `client-output-buffer-limit` gives, such as
/// `normal 0 0 0 slave 268435456 67108864 60`.
pub fn buffer_limits(value: &[u8]) -> (r: Vec<(&[u8], Limit, &[u8])>)
    ensures
        entries_view(r@) == limit_entries(fields(value@), 0),
{
    let parts = split_ascii_ws(value);
    let ghost f = fields(value@);
    let mut out: Vec<(&[u8], Limit, &[u8])> = Vec::new();
    let mut i: usize = 0;
    while i < parts.len()
        invariant
            f == views(parts@),
            i <= parts@.len(),
            entries_view(out@) + limit_entries(f, i as int) == limit_entries(f, 0),
        decreases parts@.len() - i,
    {
        let k = i % 4;
        if k != 0 {
            let kind = if k == 1 {
                Limit::Hard
            } else if k == 2 {
                Limit::Soft
            } else {
                Limit::SoftSeconds
            };
            let ghost before = entries_view(out@);
            out.push((parts[i - k], kind, parts[i]));
            proof {
                assert(views(parts@)[i - k] == parts@[i - k]@);
                assert(views(parts@)[i as int] == parts@[i as int]@);
                assert(entries_view(out@) =~= before.push((f[i - k], limit_at(k as int), f[i as int])));
                assert(seq![(f[i - k], limit_at(k as int), f[i as int])] + limit_entries(f, i + 1)
                    == limit_entries(f, i as int));
                assert(before.push((f[i - k], limit_at(k as int), f[i as int])) + limit_entries(f, i + 1)
                    =~= before + (seq![(f[i - k], limit_at(k as int), f[i as int])] + limit_entries(f, i + 1)));
            }
        }
        i = i + 1;
    }
    assert(limit_entries(f, i as int) =~= Seq::<(Seq<u8>, Limit, Seq<u8>)>::empty());
    assert(entries_view(out@) =~= entries_view(out@) + limit_entries(f, i as int));
    out
}

} // verus!
