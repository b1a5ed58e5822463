//! Parsers and decision logic of the host metrics sources: procfs/sysfs
//! text formats, the RESP wire format spoken to Redis, ICMP checksums, the
//! Redfish resource model and the values of GPU reports.

pub mod kv;
pub mod metric;
pub mod node;
pub mod nvidia;
pub mod nvidia_smi;
pub mod ntp;
pub mod pattern;
pub mod podman;
pub mod ping;
pub mod pushgateway;
pub mod redfish;
pub mod redis;
pub mod strs;
pub mod text;
