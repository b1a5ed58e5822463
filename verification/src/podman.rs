//! The integer statistics of the containers that Podman runs, and the
//! samples they give.

use vstd::prelude::*;

use crate::metric::{
    copy_tags, field, field_of, gauge, push_gauge, push_sum, samples_view, sum, tags_view, three_tags,
    two_tags, Kind, Sample, SampleModel, TagModel, TagValue,
};

verus! {

/// The traffic of one network interface of a container.
#[derive(Clone, Copy, Debug, PartialEq, Eq)]
pub struct Network {
    pub rx_bytes: u64,
    pub rx_dropped: u64,
    pub rx_errors: u64,
    pub rx_packets: u64,
    pub tx_bytes: u64,
    pub tx_dropped: u64,
    pub tx_errors: u64,
    pub tx_packets: u64,
}

/// What the stats endpoint reports of a container as integers (its CPU and
/// memory percentages are reported beside).
#[derive(Clone, Debug, PartialEq, Eq)]
pub struct ContainerStat {
    pub name: String,
    pub container_id: String,
    pub cpu_nano: u64,
    pub cpu_system_nano: u64,
    pub per_cpu: Option<Vec<u64>>,
    pub mem_limit: u64,
    pub mem_usage: u64,
    pub network: Vec<(String, Network)>,
    pub block_input: u64,
    pub block_output: u64,
}

/// The labels `id` and `name` of a container.
pub open spec fn container_tags(s: ContainerStat) -> Seq<(&'static str, TagModel)> {
    seq![("id", field(s.container_id)), ("name", field(s.name))]
}

/// The memory limit and usage of a container.
pub open spec fn memory_samples_spec(s: ContainerStat) -> Seq<SampleModel> {
    seq![
        gauge("podman_container_memory_limit", "Memory limit of the container", s.mem_limit as int, container_tags(s)),
        gauge("podman_container_memory_usage", "Memory usage of the container", s.mem_usage as int, container_tags(s)),
    ]
}

/// The usage of the first `n` CPU cores, each labelled with its index.
pub open spec fn percpu_samples(s: ContainerStat, usage: Seq<u64>, n: nat) -> Seq<SampleModel>
    decreases n,
{
    if n == 0 || n > usage.len() {
        Seq::empty()
    } else {
        percpu_samples(s, usage, (n - 1) as nat).push(
            sum(
                "podman_container_percpu_seconds_total",
                "Total CPU time consumed per CPU-core",
                usage[n - 1] as int,
                seq![("core", TagModel::Number((n - 1) as u64))] + container_tags(s),
            ),
        )
    }
}

/// The counters of one network interface.
pub open spec fn network_samples(s: ContainerStat, interface: String, net: Network) -> Seq<SampleModel> {
    let tags = container_tags(s).push(("interface", field(interface)));
    seq![
        sum("podman_container_network_receive_bytes", "Network receive bytes", net.rx_bytes as int, tags),
        sum("podman_container_network_receive_dropped_bytes", "Network receive dropped bytes", net.rx_dropped as int, tags),
        sum("podman_container_network_receive_errors", "Network receive errors", net.rx_errors as int, tags),
        sum("podman_container_network_receive_packets", "Network receive packets", net.rx_packets as int, tags),
        sum("podman_container_network_sent_bytes", "Network sent bytes", net.tx_bytes as int, tags),
        sum("podman_container_network_sent_dropped_bytes", "Network sent dropped bytes", net.tx_dropped as int, tags),
        sum("podman_container_network_sent_errors", "Network sent errors", net.tx_errors as int, tags),
        sum("podman_container_network_sent_packets", "Network sent packets", net.tx_packets as int, tags),
    ]
}

/// The counters of the first `n` network interfaces.
pub open spec fn networks_samples(s: ContainerStat, n: nat) -> Seq<SampleModel>
    decreases n,
{
    if n == 0 || n > s.network@.len() {
        Seq::empty()
    } else {
        networks_samples(s, (n - 1) as nat) + network_samples(
            s,
            s.network@[n - 1].0,
            s.network@[n - 1].1,
        )
    }
}

/// The block I/O counters, the usage of each CPU core, and the counters of
/// each network interface of a container.
pub open spec fn io_samples_spec(s: ContainerStat) -> Seq<SampleModel> {
    seq![
        sum(
            "podman_container_blockio_read_bytes",
            "Number of bytes transferred from the disk by the container",
            s.block_input as int,
            container_tags(s),
        ),
        sum(
            "podman_container_blockio_write_bytes",
            "Number of bytes transferred from the disk by the container",
            s.block_output as int,
            container_tags(s),
        ),
    ] + match s.per_cpu {
        Some(v) => percpu_samples(s, v@, v@.len()),
        None => Seq::empty(),
    } + networks_samples(s, s.network@.len())
}

fn container_tags_of<'a>(s: &'a ContainerStat) -> (r: Vec<(&'static str, TagValue<'a>)>)
    ensures
        tags_view(r@) == container_tags(*s),
{
    two_tags("id", field_of(&s.container_id), "name", field_of(&s.name))
}

impl ContainerStat {
    /// The memory samples of the container.
    pub fn memory_samples<'a>(&'a self) -> (r: Vec<Sample<'a>>)
        ensures
            samples_view(r@) == memory_samples_spec(*self),
    {
        let mut out: Vec<Sample<'a>> = Vec::new();
        push_gauge(
            &mut out,
            "podman_container_memory_limit",
            "Memory limit of the container",
            self.mem_limit as i128,
            container_tags_of(self),
        );
        push_gauge(
            &mut out,
            "podman_container_memory_usage",
            "Memory usage of the container",
            self.mem_usage as i128,
            container_tags_of(self),
        );
        assert(samples_view(out@) =~= memory_samples_spec(*self));
        out
    }

    fn push_network<'a>(&'a self, out: &mut Vec<Sample<'a>>, k: usize)
        requires
            k < self.network@.len(),
        ensures
            samples_view(final(out)@) == samples_view(old(out)@) + network_samples(
                *self,
                self.network@[k as int].0,
                self.network@[k as int].1,
            ),
    {
        let ghost before = samples_view(out@);
        let (interface, net) = &self.network[k];
        let tags = three_tags("id", field_of(&self.container_id), "name", field_of(&self.name), "interface", field_of(interface));
        proof {
            assert(tags_view(tags@) =~= container_tags(*self).push(("interface", field(*interface))));
        }
        push_sum(out, "podman_container_network_receive_bytes", "Network receive bytes", net.rx_bytes as i128, copy_tags(&tags));
        push_sum(out, "podman_container_network_receive_dropped_bytes", "Network receive dropped bytes", net.rx_dropped as i128, copy_tags(&tags));
        push_sum(out, "podman_container_network_receive_errors", "Network receive errors", net.rx_errors as i128, copy_tags(&tags));
        push_sum(out, "podman_container_network_receive_packets", "Network receive packets", net.rx_packets as i128, copy_tags(&tags));
        push_sum(out, "podman_container_network_sent_bytes", "Network sent bytes", net.tx_bytes as i128, copy_tags(&tags));
        push_sum(out, "podman_container_network_sent_dropped_bytes", "Network sent dropped bytes", net.tx_dropped as i128, copy_tags(&tags));
        push_sum(out, "podman_container_network_sent_errors", "Network sent errors", net.tx_errors as i128, copy_tags(&tags));
        push_sum(out, "podman_container_network_sent_packets", "Network sent packets", net.tx_packets as i128, tags);
        assert(samples_view(out@) =~= before + network_samples(*self, *interface, *net));
    }

    /// The block I/O, per-core and network samples of the container.
    pub fn io_samples<'a>(&'a self) -> (r: Vec<Sample<'a>>)
        ensures
            samples_view(r@) == io_samples_spec(*self),
    {
        let mut out: Vec<Sample<'a>> = Vec::new();
        push_sum(
            &mut out,
            "podman_container_blockio_read_bytes",
            "Number of bytes transferred from the disk by the container",
            self.block_input as i128,
            container_tags_of(self),
        );
        push_sum(
            &mut out,
            "podman_container_blockio_write_bytes",
            "Number of bytes transferred from the disk by the container",
            self.block_output as i128,
            container_tags_of(self),
        );
        let ghost block = samples_view(out@);
        match &self.per_cpu {
            Some(usage) => {
                let mut i: usize = 0;
                assert(block + percpu_samples(*self, usage@, 0) =~= block);
                while i < usage.len()
                    invariant
                        i <= usage@.len(),
                        self.per_cpu == Some(*usage),
                        samples_view(out@) == block + percpu_samples(*self, usage@, i as nat),
                    decreases usage@.len() - i,
                {
                    let mut tags: Vec<(&'static str, TagValue<'a>)> = Vec::new();
                    tags.push(("core", TagValue::Number(i as u64)));
                    tags.push(("id", field_of(&self.container_id)));
                    tags.push(("name", field_of(&self.name)));
                    proof {
                        assert(tags_view(tags@) =~= seq![("core", TagModel::Number(i as u64))] + container_tags(*self));
                    }
                    push_sum(
                        &mut out,
                        "podman_container_percpu_seconds_total",
                        "Total CPU time consumed per CPU-core",
                        usage[i] as i128,
                        tags,
                    );
                    i = i + 1;
                }
            },
            None => {
                assert(block + Seq::<SampleModel>::empty() =~= block);
            },
        }
        let ghost cores = samples_view(out@);
        let mut k: usize = 0;
        assert(cores + networks_samples(*self, 0) =~= cores);
        while k < self.network.len()
            invariant
                k <= self.network@.len(),
                samples_view(out@) == cores + networks_samples(*self, k as nat),
            decreases self.network@.len() - k,
        {
            self.push_network(&mut out, k);
            assert(cores + networks_samples(*self, (k + 1) as nat) =~= cores + networks_samples(
                *self,
                k as nat,
            ) + network_samples(*self, self.network@[k as int].0, self.network@[k as int].1));
            k = k + 1;
        }
        out
    }
}


/// Each counter of a network interface is reported by the sample named
/// after it: `podman_container_network_receive_bytes` carries `rx_bytes`,
/// `..._receive_dropped_bytes` `rx_dropped`, `..._receive_errors`
/// `rx_errors`, `..._receive_packets` `rx_packets`, and the `sent` samples
/// the `tx` counters, each as a counter labelled with the container's id
/// and name and the interface.
pub proof fn lemma_network_counters_named(s: ContainerStat, interface: String, net: Network)
    ensures
        ({
            let out = network_samples(s, interface, net);
            let tags = seq![("id", field(s.container_id)), ("name", field(s.name)), ("interface", field(interface))];
            &&& out.len() == 8
            &&& out[0].name == "podman_container_network_receive_bytes" && out[0].value == net.rx_bytes as int
                && out[0].kind == Kind::Sum && out[0].tags == tags
            &&& out[1].name == "podman_container_network_receive_dropped_bytes" && out[1].value == net.rx_dropped as int
                && out[1].kind == Kind::Sum && out[1].tags == tags
            &&& out[2].name == "podman_container_network_receive_errors" && out[2].value == net.rx_errors as int
                && out[2].kind == Kind::Sum && out[2].tags == tags
            &&& out[3].name == "podman_container_network_receive_packets" && out[3].value == net.rx_packets as int
                && out[3].kind == Kind::Sum && out[3].tags == tags
            &&& out[4].name == "podman_container_network_sent_bytes" && out[4].value == net.tx_bytes as int
                && out[4].kind == Kind::Sum && out[4].tags == tags
            &&& out[5].name == "podman_container_network_sent_dropped_bytes" && out[5].value == net.tx_dropped as int
                && out[5].kind == Kind::Sum && out[5].tags == tags
            &&& out[6].name == "podman_container_network_sent_errors" && out[6].value == net.tx_errors as int
                && out[6].kind == Kind::Sum && out[6].tags == tags
            &&& out[7].name == "podman_container_network_sent_packets" && out[7].value == net.tx_packets as int
                && out[7].kind == Kind::Sum && out[7].tags == tags
        }),
{
    let tags = seq![("id", field(s.container_id)), ("name", field(s.name)), ("interface", field(interface))];
    assert(container_tags(s).push(("interface", field(interface))) =~= tags);
}

proof fn lemma_networks_samples_at(s: ContainerStat, n: nat, k: nat)
    requires
        k < n <= s.network@.len(),
    ensures
        networks_samples(s, n).len() == 8 * n,
        networks_samples(s, n).subrange(8 * k as int, 8 * k as int + 8) == network_samples(
            s,
            s.network@[k as int].0,
            s.network@[k as int].1,
        ),
    decreases n,
{
    lemma_networks_samples_len(s, (n - 1) as nat);
    let prev = networks_samples(s, (n - 1) as nat);
    let last = network_samples(s, s.network@[n - 1].0, s.network@[n - 1].1);
    if k < n - 1 {
        lemma_networks_samples_at(s, (n - 1) as nat, k);
        assert((prev + last).subrange(8 * k as int, 8 * k as int + 8) =~= prev.subrange(8 * k as int, 8 * k as int + 8));
    } else {
        assert((prev + last).subrange(8 * k as int, 8 * k as int + 8) =~= last);
    }
}

proof fn lemma_networks_samples_len(s: ContainerStat, n: nat)
    requires
        n <= s.network@.len(),
    ensures
        networks_samples(s, n).len() == 8 * n,
    decreases n,
{
    if n > 0 {
        lemma_networks_samples_len(s, (n - 1) as nat);
    }
}

/// The I/O samples of a container end with the eight counters of each of
/// its network interfaces, in the order of the interfaces: those of
/// interface `k` stand `8 * (count - k)` samples before the end.
pub proof fn lemma_io_samples_report_each_network(s: ContainerStat, k: nat)
    requires
        k < s.network@.len(),
    ensures
        ({
            let all = io_samples_spec(s);
            let at = all.len() - 8 * (s.network@.len() - k);
            &&& 0 <= at
            &&& all.subrange(at, at + 8) == network_samples(
                s,
                s.network@[k as int].0,
                s.network@[k as int].1,
            )
        }),
{
    let n = s.network@.len();
    lemma_networks_samples_at(s, n, k);
    let head = seq![
        sum(
            "podman_container_blockio_read_bytes",
            "Number of bytes transferred from the disk by the container",
            s.block_input as int,
            container_tags(s),
        ),
        sum(
            "podman_container_blockio_write_bytes",
            "Number of bytes transferred from the disk by the container",
            s.block_output as int,
            container_tags(s),
        ),
    ] + match s.per_cpu {
        Some(v) => percpu_samples(s, v@, v@.len()),
        None => Seq::empty(),
    };
    let nets = networks_samples(s, n);
    assert(io_samples_spec(s) == head + nets);
    let at = head.len() + 8 * k as int;
    assert((head + nets).subrange(at, at + 8) =~= nets.subrange(8 * k as int, 8 * k as int + 8));
}

/// The memory samples carry the limit under `podman_container_memory_limit`
/// and the usage under `podman_container_memory_usage`, as gauges labelled
/// with the container's id and name.
pub proof fn lemma_memory_samples_named(s: ContainerStat)
    ensures
        ({
            let out = memory_samples_spec(s);
            let tags = seq![("id", field(s.container_id)), ("name", field(s.name))];
            &&& out.len() == 2
            &&& out[0].name == "podman_container_memory_limit" && out[0].value == s.mem_limit as int
                && out[0].kind == Kind::Gauge && out[0].tags == tags
            &&& out[1].name == "podman_container_memory_usage" && out[1].value == s.mem_usage as int
                && out[1].kind == Kind::Gauge && out[1].tags == tags
        }),
{
}

proof fn lemma_percpu_samples_at(s: ContainerStat, usage: Seq<u64>, n: nat, i: int)
    requires
        n <= usage.len(),
        0 <= i < n,
    ensures
        percpu_samples(s, usage, n).len() == n,
        percpu_samples(s, usage, n)[i].name == "podman_container_percpu_seconds_total",
        percpu_samples(s, usage, n)[i].value == usage[i] as int,
        percpu_samples(s, usage, n)[i].tags == seq![
            ("core", TagModel::Number(i as u64)),
            ("id", field(s.container_id)),
            ("name", field(s.name)),
        ],
    decreases n,
{
    lemma_percpu_samples_len(s, usage, (n - 1) as nat);
    if i < n - 1 {
        lemma_percpu_samples_at(s, usage, (n - 1) as nat, i);
        assert(percpu_samples(s, usage, n)[i] == percpu_samples(s, usage, (n - 1) as nat)[i]);
    } else {
        let tags = seq![("core", TagModel::Number((n - 1) as u64))] + container_tags(s);
        assert(tags =~= seq![
            ("core", TagModel::Number(i as u64)),
            ("id", field(s.container_id)),
            ("name", field(s.name)),
        ]);
    }
}

proof fn lemma_percpu_samples_len(s: ContainerStat, usage: Seq<u64>, n: nat)
    requires
        n <= usage.len(),
    ensures
        percpu_samples(s, usage, n).len() == n,
    decreases n,
{
    if n > 0 {
        lemma_percpu_samples_len(s, usage, (n - 1) as nat);
    }
}

/// The I/O samples start with the bytes read from disk under
/// `podman_container_blockio_read_bytes` and those written under
/// `podman_container_blockio_write_bytes`; then, where the per-core usage
/// is known, core `i` is the sample labelled `core=i` carrying that core's
/// usage.
pub proof fn lemma_io_samples_named(s: ContainerStat)
    ensures
        ({
            let out = io_samples_spec(s);
            let tags = seq![("id", field(s.container_id)), ("name", field(s.name))];
            &&& out.len() >= 2
            &&& out[0].name == "podman_container_blockio_read_bytes" && out[0].value == s.block_input as int
                && out[0].kind == Kind::Sum && out[0].tags == tags
            &&& out[1].name == "podman_container_blockio_write_bytes" && out[1].value == s.block_output as int
                && out[1].kind == Kind::Sum && out[1].tags == tags
            &&& s.per_cpu matches Some(v) ==> forall|i: int| 0 <= i < v@.len() ==> {
                &&& (#[trigger] out[2 + i]).name == "podman_container_percpu_seconds_total"
                &&& out[2 + i].value == v@[i] as int
                &&& out[2 + i].tags == seq![
                    ("core", TagModel::Number(i as u64)),
                    ("id", field(s.container_id)),
                    ("name", field(s.name)),
                ]
            }
        }),
{
    let head = seq![
        sum(
            "podman_container_blockio_read_bytes",
            "Number of bytes transferred from the disk by the container",
            s.block_input as int,
            container_tags(s),
        ),
        sum(
            "podman_container_blockio_write_bytes",
            "Number of bytes transferred from the disk by the container",
            s.block_output as int,
            container_tags(s),
        ),
    ];
    let cores = match s.per_cpu {
        Some(v) => percpu_samples(s, v@, v@.len()),
        None => Seq::empty(),
    };
    let nets = networks_samples(s, s.network@.len());
    assert(io_samples_spec(s) == head + cores + nets);
    if let Some(v) = s.per_cpu {
        assert forall|i: int| 0 <= i < v@.len() implies {
            &&& (#[trigger] io_samples_spec(s)[2 + i]).name == "podman_container_percpu_seconds_total"
            &&& io_samples_spec(s)[2 + i].value == v@[i] as int
            &&& io_samples_spec(s)[2 + i].tags == seq![
                ("core", TagModel::Number(i as u64)),
                ("id", field(s.container_id)),
                ("name", field(s.name)),
            ]
        } by {
            lemma_percpu_samples_at(s, v@, v@.len(), i);
            assert((head + cores + nets)[2 + i] == cores[i]);
        }
    }
}
} // verus!
