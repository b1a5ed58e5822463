# vertex_sources

Parsers and decision logic of a set of host metric sources, verified with
Verus.

- `src/` is the verified library: the procfs and sysfs text formats of the
  node collectors (`node/`), the RESP2 wire format and the INFO, CONFIG,
  slow log and Sentinel replies of Redis (`redis/`), ICMP echo packets and
  round-trip statistics (`ping.rs`), the Redfish resource model and its
  samples (`redfish/`), GPU reports (`nvidia.rs`, `nvidia_smi.rs`),
  Pushgateway paths (`pushgateway.rs`), NTP server choice and sanity
  (`ntp.rs`) and Podman container statistics (`podman.rs`). Each public
  function states what it computes in its `ensures`; `text.rs` holds the
  shared models of splitting, trimming and number parsing.
- `app/` is the unverified rest: file, socket and process I/O, JSON
  decoding, and the float arithmetic of the metrics that carry fractions.
- `tests/` runs the library on concrete inputs.
