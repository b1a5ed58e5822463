use vertex_sources::metric::{Kind, TagValue};
use vertex_sources::podman::{ContainerStat, Network};

fn stat() -> ContainerStat {
    ContainerStat {
        name: "web".to_string(),
        container_id: "abc123".to_string(),
        cpu_nano: 5_000_000_000,
        cpu_system_nano: 1_000_000_000,
        per_cpu: Some(vec![30, 70]),
        mem_limit: 1 << 30,
        mem_usage: 1 << 20,
        network: vec![(
            "eth0".to_string(),
            Network {
                rx_bytes: 1000,
                rx_dropped: 1,
                rx_errors: 2,
                rx_packets: 10,
                tx_bytes: 2000,
                tx_dropped: 3,
                tx_errors: 4,
                tx_packets: 20,
            },
        )],
        block_input: 4096,
        block_output: 8192,
    }
}

#[test]
fn memory() {
    let s = stat();
    let samples = s.memory_samples();
    assert_eq!(samples.len(), 2);
    assert_eq!(samples[0].name, "podman_container_memory_limit");
    assert_eq!(samples[0].value, 1 << 30);
    assert_eq!(samples[0].kind, Kind::Gauge);
    assert_eq!(samples[1].value, 1 << 20);
    assert_eq!(
        samples[1].tags,
        vec![("id", TagValue::Field(b"abc123")), ("name", TagValue::Field(b"web"))]
    );
}

#[test]
fn io_cores_and_networks() {
    let s = stat();
    let samples = s.io_samples();
    // two block counters, two cores, eight network counters
    assert_eq!(samples.len(), 12);
    assert_eq!(samples[0].value, 4096);
    assert_eq!(samples[1].value, 8192);
    assert_eq!(samples[2].name, "podman_container_percpu_seconds_total");
    assert_eq!(samples[3].value, 70);
    assert_eq!(samples[3].tags[0], ("core", TagValue::Number(1)));
    assert_eq!(samples[4].name, "podman_container_network_receive_bytes");
    assert_eq!(samples[4].value, 1000);
    assert_eq!(samples[4].kind, Kind::Sum);
    assert_eq!(samples[4].tags[2], ("interface", TagValue::Field(b"eth0")));
    assert_eq!(samples[11].name, "podman_container_network_sent_packets");
    assert_eq!(samples[11].value, 20);

    let mut bare = stat();
    bare.per_cpu = None;
    bare.network = Vec::new();
    assert_eq!(bare.io_samples().len(), 2);
}
