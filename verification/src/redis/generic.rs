//! The fields of INFO (and CLUSTER INFO) that are reported as they are:
//! each known field gives one gauge or counter of its value.

use vstd::prelude::*;
use vstd::string::StringSliceAdditionalSpecFns;

use crate::metric::Kind;
use crate::text::bytes_eq;

verus! {

/// How a field is reported: as a gauge or a counter named `name`; where
/// `micros`, the value is in microseconds and is reported in seconds.
#[derive(Clone, Copy, Debug, PartialEq, Eq)]
pub struct GenericMetric {
    pub kind: Kind,
    pub name: &'static str,
    pub description: &'static str,
    pub micros: bool,
}
/// The fields from `uptime_in_seconds` to `used_memory_rss` of the table.
pub open spec fn table_part_0(key: Seq<u8>) -> Option<GenericMetric> {
    if key == "uptime_in_seconds".spec_bytes() {
        Some(GenericMetric { kind: Kind::Gauge, name: "uptime_in_seconds", description: "Number of seconds since Redis server start", micros: false })
    } else if key == "process_id".spec_bytes() {
        Some(GenericMetric { kind: Kind::Gauge, name: "process_id", description: "PID of the server process", micros: false })
    } else if key == "io_threads_active".spec_bytes() {
        Some(GenericMetric { kind: Kind::Gauge, name: "io_threads_active", description: "Flag indicating if I/O threads are active", micros: false })
    } else if key == "connected_clients".spec_bytes() {
        Some(GenericMetric { kind: Kind::Gauge, name: "connected_clients", description: "Number of client connections (excluding connections from replicas)", micros: false })
    } else if key == "blocked_clients".spec_bytes() {
        Some(GenericMetric { kind: Kind::Gauge, name: "blocked_clients", description: "Number of clients pending on a blocking call", micros: false })
    } else if key == "maxclients".spec_bytes() {
        Some(GenericMetric { kind: Kind::Gauge, name: "max_clients", description: "The value of the maxclients configuration directive. This is the upper limit for the sum of connected_clients, connected_slaves and cluster_connections.", micros: false })
    } else if key == "tracking_clients".spec_bytes() {
        Some(GenericMetric { kind: Kind::Gauge, name: "tracking_clients", description: "Number of clients being tracked", micros: false })
    } else if key == "clients_in_timeout_table".spec_bytes() {
        Some(GenericMetric { kind: Kind::Gauge, name: "clients_in_timeout_table", description: "Number of clients in the clients timeout table", micros: false })
    } else if key == "pubsub_clients".spec_bytes() {
        Some(GenericMetric { kind: Kind::Gauge, name: "pubsub_clients", description: "Number of clients in pubsub mode", micros: false })
    } else if key == "watching_clients".spec_bytes() {
        Some(GenericMetric { kind: Kind::Gauge, name: "watching_clients", description: "Number of clients in watching mode", micros: false })
    } else if key == "total_watched_keys".spec_bytes() {
        Some(GenericMetric { kind: Kind::Gauge, name: "total_watched_keys", description: "Number of watched keys", micros: false })
    } else if key == "total_blocking_keys".spec_bytes() {
        Some(GenericMetric { kind: Kind::Gauge, name: "total_blocking_keys", description: "Number of blocking keys", micros: false })
    } else if key == "total_blocking_keys_on_nokey".spec_bytes() {
        Some(GenericMetric { kind: Kind::Gauge, name: "total_blocking_keys_on_nokey", description: "Number of blocking keys that one or more clients that would like to be unblocked when the key is deleted", micros: false })
    } else if key == "client_longest_output_list".spec_bytes() {
        Some(GenericMetric { kind: Kind::Gauge, name: "client_longest_output_list", description: "", micros: false })
    } else if key == "client_biggest_input_buf".spec_bytes() {
        Some(GenericMetric { kind: Kind::Gauge, name: "client_biggest_input_buf", description: "", micros: false })
    } else if key == "client_recent_max_output_buffer".spec_bytes() {
        Some(GenericMetric { kind: Kind::Gauge, name: "client_recent_max_output_buffer_bytes", description: "Biggest output buffer among current client connections", micros: false })
    } else if key == "client_recent_max_input_buffer".spec_bytes() {
        Some(GenericMetric { kind: Kind::Gauge, name: "client_recent_max_input_buffer_bytes", description: "Biggest input buffer among current client connections", micros: false })
    } else if key == "allocator_active".spec_bytes() {
        Some(GenericMetric { kind: Kind::Gauge, name: "allocator_active_bytes", description: "Total bytes in the allocator active pages, this includes external-fragmentation", micros: false })
    } else if key == "allocator_allocated".spec_bytes() {
        Some(GenericMetric { kind: Kind::Gauge, name: "allocator_allocated_bytes", description: "Total bytes allocated form the allocator, including internal-fragmentation. Normally the same as used_memory", micros: false })
    } else if key == "allocator_resident".spec_bytes() {
        Some(GenericMetric { kind: Kind::Gauge, name: "allocator_resident_bytes", description: "Total bytes resident (RSS) in the allocator, this includes pages that can be released to the OS (by MEMORY PURGE, or just waiting)", micros: false })
    } else if key == "allocator_frag_ratio".spec_bytes() {
        Some(GenericMetric { kind: Kind::Gauge, name: "allocator_frag_ratio", description: "Ratio between allocator_active and allocator_allocated. This is the true (external) fragmentation metric (not mem_fragmentation_ratio)", micros: false })
    } else if key == "allocator_frag_bytes".spec_bytes() {
        Some(GenericMetric { kind: Kind::Gauge, name: "allocator_frag_bytes", description: "Delta between allocator_active and allocator_allocated", micros: false })
    } else if key == "allocator_muzzy".spec_bytes() {
        Some(GenericMetric { kind: Kind::Gauge, name: "allocator_muzzy_bytes", description: "Total bytes of 'muzzy' memory (RSS) in the allocator. Muzzy memory is memory that has been freed, but not yet fully returned to the operating system. It can be reused immediately when needed or reclaimed by the OS when system pressure increases.", micros: false })
    } else if key == "allocator_rss_ratio".spec_bytes() {
        Some(GenericMetric { kind: Kind::Gauge, name: "allocator_rss_ratio", description: "Ratio between allocator_resident and allocator_active. This usually indicates pages that the allocator can and probably will soon release back to the OS", micros: false })
    } else if key == "allocator_rss_bytes".spec_bytes() {
        Some(GenericMetric { kind: Kind::Gauge, name: "allocator_rss_bytes", description: "Delta between allocator_resident and allocator_active", micros: false })
    } else if key == "used_memory".spec_bytes() {
        Some(GenericMetric { kind: Kind::Gauge, name: "memory_used_bytes", description: "Total number of bytes allocated by Redis using its allocator", micros: false })
    } else if key == "used_memory_rss".spec_bytes() {
        Some(GenericMetric { kind: Kind::Gauge, name: "memory_used_rss_bytes", description: "Number of bytes that Redis allocated as seen by the operating system (a.k.a resident set size)", micros: false })
    } else {
        None
    }
}

fn lookup_part_0(key: &[u8]) -> (r: Option<GenericMetric>)
    ensures
        r == table_part_0(key@),
{
    if bytes_eq(key, "uptime_in_seconds".as_bytes()) {
        Some(GenericMetric { kind: Kind::Gauge, name: "uptime_in_seconds", description: "Number of seconds since Redis server start", micros: false })
    } else if bytes_eq(key, "process_id".as_bytes()) {
        Some(GenericMetric { kind: Kind::Gauge, name: "process_id", description: "PID of the server process", micros: false })
    } else if bytes_eq(key, "io_threads_active".as_bytes()) {
        Some(GenericMetric { kind: Kind::Gauge, name: "io_threads_active", description: "Flag indicating if I/O threads are active", micros: false })
    } else if bytes_eq(key, "connected_clients".as_bytes()) {
        Some(GenericMetric { kind: Kind::Gauge, name: "connected_clients", description: "Number of client connections (excluding connections from replicas)", micros: false })
    } else if bytes_eq(key, "blocked_clients".as_bytes()) {
        Some(GenericMetric { kind: Kind::Gauge, name: "blocked_clients", description: "Number of clients pending on a blocking call", micros: false })
    } else if bytes_eq(key, "maxclients".as_bytes()) {
        Some(GenericMetric { kind: Kind::Gauge, name: "max_clients", description: "The value of the maxclients configuration directive. This is the upper limit for the sum of connected_clients, connected_slaves and cluster_connections.", micros: false })
    } else if bytes_eq(key, "tracking_clients".as_bytes()) {
        Some(GenericMetric { kind: Kind::Gauge, name: "tracking_clients", description: "Number of clients being tracked", micros: false })
    } else if bytes_eq(key, "clients_in_timeout_table".as_bytes()) {
        Some(GenericMetric { kind: Kind::Gauge, name: "clients_in_timeout_table", description: "Number of clients in the clients timeout table", micros: false })
    } else if bytes_eq(key, "pubsub_clients".as_bytes()) {
        Some(GenericMetric { kind: Kind::Gauge, name: "pubsub_clients", description: "Number of clients in pubsub mode", micros: false })
    } else if bytes_eq(key, "watching_clients".as_bytes()) {
        Some(GenericMetric { kind: Kind::Gauge, name: "watching_clients", description: "Number of clients in watching mode", micros: false })
    } else if bytes_eq(key, "total_watched_keys".as_bytes()) {
        Some(GenericMetric { kind: Kind::Gauge, name: "total_watched_keys", description: "Number of watched keys", micros: false })
    } else if bytes_eq(key, "total_blocking_keys".as_bytes()) {
        Some(GenericMetric { kind: Kind::Gauge, name: "total_blocking_keys", description: "Number of blocking keys", micros: false })
    } else if bytes_eq(key, "total_blocking_keys_on_nokey".as_bytes()) {
        Some(GenericMetric { kind: Kind::Gauge, name: "total_blocking_keys_on_nokey", description: "Number of blocking keys that one or more clients that would like to be unblocked when the key is deleted", micros: false })
    } else if bytes_eq(key, "client_longest_output_list".as_bytes()) {
        Some(GenericMetric { kind: Kind::Gauge, name: "client_longest_output_list", description: "", micros: false })
    } else if bytes_eq(key, "client_biggest_input_buf".as_bytes()) {
        Some(GenericMetric { kind: Kind::Gauge, name: "client_biggest_input_buf", description: "", micros: false })
    } else if bytes_eq(key, "client_recent_max_output_buffer".as_bytes()) {
        Some(GenericMetric { kind: Kind::Gauge, name: "client_recent_max_output_buffer_bytes", description: "Biggest output buffer among current client connections", micros: false })
    } else if bytes_eq(key, "client_recent_max_input_buffer".as_bytes()) {
        Some(GenericMetric { kind: Kind::Gauge, name: "client_recent_max_input_buffer_bytes", description: "Biggest input buffer among current client connections", micros: false })
    } else if bytes_eq(key, "allocator_active".as_bytes()) {
        Some(GenericMetric { kind: Kind::Gauge, name: "allocator_active_bytes", description: "Total bytes in the allocator active pages, this includes external-fragmentation", micros: false })
    } else if bytes_eq(key, "allocator_allocated".as_bytes()) {
        Some(GenericMetric { kind: Kind::Gauge, name: "allocator_allocated_bytes", description: "Total bytes allocated form the allocator, including internal-fragmentation. Normally the same as used_memory", micros: false })
    } else if bytes_eq(key, "allocator_resident".as_bytes()) {
        Some(GenericMetric { kind: Kind::Gauge, name: "allocator_resident_bytes", description: "Total bytes resident (RSS) in the allocator, this includes pages that can be released to the OS (by MEMORY PURGE, or just waiting)", micros: false })
    } else if bytes_eq(key, "allocator_frag_ratio".as_bytes()) {
        Some(GenericMetric { kind: Kind::Gauge, name: "allocator_frag_ratio", description: "Ratio between allocator_active and allocator_allocated. This is the true (external) fragmentation metric (not mem_fragmentation_ratio)", micros: false })
    } else if bytes_eq(key, "allocator_frag_bytes".as_bytes()) {
        Some(GenericMetric { kind: Kind::Gauge, name: "allocator_frag_bytes", description: "Delta between allocator_active and allocator_allocated", micros: false })
    } else if bytes_eq(key, "allocator_muzzy".as_bytes()) {
        Some(GenericMetric { kind: Kind::Gauge, name: "allocator_muzzy_bytes", description: "Total bytes of 'muzzy' memory (RSS) in the allocator. Muzzy memory is memory that has been freed, but not yet fully returned to the operating system. It can be reused immediately when needed or reclaimed by the OS when system pressure increases.", micros: false })
    } else if bytes_eq(key, "allocator_rss_ratio".as_bytes()) {
        Some(GenericMetric { kind: Kind::Gauge, name: "allocator_rss_ratio", description: "Ratio between allocator_resident and allocator_active. This usually indicates pages that the allocator can and probably will soon release back to the OS", micros: false })
    } else if bytes_eq(key, "allocator_rss_bytes".as_bytes()) {
        Some(GenericMetric { kind: Kind::Gauge, name: "allocator_rss_bytes", description: "Delta between allocator_resident and allocator_active", micros: false })
    } else if bytes_eq(key, "used_memory".as_bytes()) {
        Some(GenericMetric { kind: Kind::Gauge, name: "memory_used_bytes", description: "Total number of bytes allocated by Redis using its allocator", micros: false })
    } else if bytes_eq(key, "used_memory_rss".as_bytes()) {
        Some(GenericMetric { kind: Kind::Gauge, name: "memory_used_rss_bytes", description: "Number of bytes that Redis allocated as seen by the operating system (a.k.a resident set size)", micros: false })
    } else {
        None
    }
}
/// The fields from `used_memory_peak` to `expired_stale_perc` of the table.
pub open spec fn table_part_1(key: Seq<u8>) -> Option<GenericMetric> {
    if key == "used_memory_peak".spec_bytes() {
        Some(GenericMetric { kind: Kind::Gauge, name: "memory_used_peak_bytes", description: "Peak memory consumed by Redis in bytes", micros: false })
    } else if key == "used_memory_lua".spec_bytes() {
        Some(GenericMetric { kind: Kind::Gauge, name: "memory_used_lua_bytes", description: "Number of bytes used by the Lua engine for EVAL scripts", micros: false })
    } else if key == "used_memory_vm_eval".spec_bytes() {
        Some(GenericMetric { kind: Kind::Gauge, name: "memory_used_vm_eval_bytes", description: "Number of bytes used by the script VM engines for EVAL framework (not part of used_memory)", micros: false })
    } else if key == "used_memory_scripts_eval".spec_bytes() {
        Some(GenericMetric { kind: Kind::Gauge, name: "memory_used_scripts_eval_bytes", description: "Number of bytes overhead by the EVAL scripts (part of used_memory)", micros: false })
    } else if key == "used_memory_overhead".spec_bytes() {
        Some(GenericMetric { kind: Kind::Gauge, name: "memory_used_overhead_bytes", description: "The sum in bytes of all overheads that the server allocated for managing its internal data structures", micros: false })
    } else if key == "used_memory_startup".spec_bytes() {
        Some(GenericMetric { kind: Kind::Gauge, name: "memory_used_startup_bytes", description: "Initial amount of memory consumed by Redis at startup in bytes", micros: false })
    } else if key == "used_memory_dataset".spec_bytes() {
        Some(GenericMetric { kind: Kind::Gauge, name: "memory_used_dataset_bytes", description: "The size in bytes of the dataset (used_memory_overhead subtracted from used_memory)", micros: false })
    } else if key == "number_of_cached_scripts".spec_bytes() {
        Some(GenericMetric { kind: Kind::Gauge, name: "number_of_cached_scripts", description: "The number of EVAL scripts cached by the server", micros: false })
    } else if key == "number_of_functions".spec_bytes() {
        Some(GenericMetric { kind: Kind::Gauge, name: "number_of_functions", description: "The number of functions", micros: false })
    } else if key == "number_of_libraries".spec_bytes() {
        Some(GenericMetric { kind: Kind::Gauge, name: "number_of_libraries", description: "The number of libraries", micros: false })
    } else if key == "used_memory_vm_functions".spec_bytes() {
        Some(GenericMetric { kind: Kind::Gauge, name: "memory_used_vm_functions_bytes", description: "Number of bytes used by the script VM engines for Functions framework (not part of used_memory)", micros: false })
    } else if key == "used_memory_scripts".spec_bytes() {
        Some(GenericMetric { kind: Kind::Gauge, name: "memory_used_scripts_bytes", description: "used_memory_scripts_eval + used_memory_functions (part of used_memory)", micros: false })
    } else if key == "used_memory_functions".spec_bytes() {
        Some(GenericMetric { kind: Kind::Gauge, name: "memory_used_functions_bytes", description: "Number of bytes overhead by Function scripts (part of used_memory)", micros: false })
    } else if key == "used_memory_vm_total".spec_bytes() {
        Some(GenericMetric { kind: Kind::Gauge, name: "memory_used_vm_total", description: "used_memory_vm_eval + used_memory_vm_functions (not part of used_memory)", micros: false })
    } else if key == "maxmemory".spec_bytes() {
        Some(GenericMetric { kind: Kind::Gauge, name: "memory_max_bytes", description: " The value of the maxmemory configuration directive", micros: false })
    } else if key == "maxmemory_reservation".spec_bytes() {
        Some(GenericMetric { kind: Kind::Gauge, name: "memory_max_reservation_bytes", description: "", micros: false })
    } else if key == "maxmemory_desired_reservation".spec_bytes() {
        Some(GenericMetric { kind: Kind::Gauge, name: "memory_max_reservation_desired_bytes", description: "", micros: false })
    } else if key == "maxfragmentationmemory_reservation".spec_bytes() {
        Some(GenericMetric { kind: Kind::Gauge, name: "memory_max_fragmentation_reservation_bytes", description: "", micros: false })
    } else if key == "maxfragmentationmemory_desired_reservation".spec_bytes() {
        Some(GenericMetric { kind: Kind::Gauge, name: "memory_max_fragmentation_reservation_desired_bytes", description: "", micros: false })
    } else if key == "mem_fragmentation_ratio".spec_bytes() {
        Some(GenericMetric { kind: Kind::Gauge, name: "mem_fragmentation_ratio", description: "Ratio between used_memory_rss and used_memory. Note that this doesn't only includes fragmentation, but also other process overheads (see the allocator_* metrics), and also overheads like code, shared libraries, stack, etc", micros: false })
    } else if key == "mem_fragmentation_bytes".spec_bytes() {
        Some(GenericMetric { kind: Kind::Gauge, name: "mem_fragmentation_bytes", description: "Delta between used_memory_rss and used_memory. Note that when the total fragmentation bytes is low (few megabytes), a high ratio (e.g. 1.5 and above) is not an indication of an issue", micros: false })
    } else if key == "mem_clients_slaves".spec_bytes() {
        Some(GenericMetric { kind: Kind::Gauge, name: "mem_clients_slaves", description: "Memory used by replica clients - Starting Redis 7.0, replica buffers share memory with the replication backlog, so this field can show 0 when replicas don't trigger an increase of memory usage", micros: false })
    } else if key == "mem_clients_normal".spec_bytes() {
        Some(GenericMetric { kind: Kind::Gauge, name: "mem_clients_normal", description: "Memory used by normal clients", micros: false })
    } else if key == "mem_cluster_links".spec_bytes() {
        Some(GenericMetric { kind: Kind::Gauge, name: "mem_cluster_links_bytes", description: "Memory used by links to peers on the cluster bus when cluster mode is enabled", micros: false })
    } else if key == "mem_aof_buffer".spec_bytes() {
        Some(GenericMetric { kind: Kind::Gauge, name: "mem_aof_buffer_bytes", description: "Transient memory used for AOF and AOF rewrite buffers", micros: false })
    } else if key == "mem_replication_backlog".spec_bytes() {
        Some(GenericMetric { kind: Kind::Gauge, name: "mem_replication_backlog_bytes", description: "Memory used by replication backlog", micros: false })
    } else if key == "expired_stale_perc".spec_bytes() {
        Some(GenericMetric { kind: Kind::Gauge, name: "expired_stale_percentage", description: "The percentage of keys probably expired", micros: false })
    } else {
        None
    }
}

fn lookup_part_1(key: &[u8]) -> (r: Option<GenericMetric>)
    ensures
        r == table_part_1(key@),
{
    if bytes_eq(key, "used_memory_peak".as_bytes()) {
        Some(GenericMetric { kind: Kind::Gauge, name: "memory_used_peak_bytes", description: "Peak memory consumed by Redis in bytes", micros: false })
    } else if bytes_eq(key, "used_memory_lua".as_bytes()) {
        Some(GenericMetric { kind: Kind::Gauge, name: "memory_used_lua_bytes", description: "Number of bytes used by the Lua engine for EVAL scripts", micros: false })
    } else if bytes_eq(key, "used_memory_vm_eval".as_bytes()) {
        Some(GenericMetric { kind: Kind::Gauge, name: "memory_used_vm_eval_bytes", description: "Number of bytes used by the script VM engines for EVAL framework (not part of used_memory)", micros: false })
    } else if bytes_eq(key, "used_memory_scripts_eval".as_bytes()) {
        Some(GenericMetric { kind: Kind::Gauge, name: "memory_used_scripts_eval_bytes", description: "Number of bytes overhead by the EVAL scripts (part of used_memory)", micros: false })
    } else if bytes_eq(key, "used_memory_overhead".as_bytes()) {
        Some(GenericMetric { kind: Kind::Gauge, name: "memory_used_overhead_bytes", description: "The sum in bytes of all overheads that the server allocated for managing its internal data structures", micros: false })
    } else if bytes_eq(key, "used_memory_startup".as_bytes()) {
        Some(GenericMetric { kind: Kind::Gauge, name: "memory_used_startup_bytes", description: "Initial amount of memory consumed by Redis at startup in bytes", micros: false })
    } else if bytes_eq(key, "used_memory_dataset".as_bytes()) {
        Some(GenericMetric { kind: Kind::Gauge, name: "memory_used_dataset_bytes", description: "The size in bytes of the dataset (used_memory_overhead subtracted from used_memory)", micros: false })
    } else if bytes_eq(key, "number_of_cached_scripts".as_bytes()) {
        Some(GenericMetric { kind: Kind::Gauge, name: "number_of_cached_scripts", description: "The number of EVAL scripts cached by the server", micros: false })
    } else if bytes_eq(key, "number_of_functions".as_bytes()) {
        Some(GenericMetric { kind: Kind::Gauge, name: "number_of_functions", description: "The number of functions", micros: false })
    } else if bytes_eq(key, "number_of_libraries".as_bytes()) {
        Some(GenericMetric { kind: Kind::Gauge, name: "number_of_libraries", description: "The number of libraries", micros: false })
    } else if bytes_eq(key, "used_memory_vm_functions".as_bytes()) {
        Some(GenericMetric { kind: Kind::Gauge, name: "memory_used_vm_functions_bytes", description: "Number of bytes used by the script VM engines for Functions framework (not part of used_memory)", micros: false })
    } else if bytes_eq(key, "used_memory_scripts".as_bytes()) {
        Some(GenericMetric { kind: Kind::Gauge, name: "memory_used_scripts_bytes", description: "used_memory_scripts_eval + used_memory_functions (part of used_memory)", micros: false })
    } else if bytes_eq(key, "used_memory_functions".as_bytes()) {
        Some(GenericMetric { kind: Kind::Gauge, name: "memory_used_functions_bytes", description: "Number of bytes overhead by Function scripts (part of used_memory)", micros: false })
    } else if bytes_eq(key, "used_memory_vm_total".as_bytes()) {
        Some(GenericMetric { kind: Kind::Gauge, name: "memory_used_vm_total", description: "used_memory_vm_eval + used_memory_vm_functions (not part of used_memory)", micros: false })
    } else if bytes_eq(key, "maxmemory".as_bytes()) {
        Some(GenericMetric { kind: Kind::Gauge, name: "memory_max_bytes", description: " The value of the maxmemory configuration directive", micros: false })
    } else if bytes_eq(key, "maxmemory_reservation".as_bytes()) {
        Some(GenericMetric { kind: Kind::Gauge, name: "memory_max_reservation_bytes", description: "", micros: false })
    } else if bytes_eq(key, "maxmemory_desired_reservation".as_bytes()) {
        Some(GenericMetric { kind: Kind::Gauge, name: "memory_max_reservation_desired_bytes", description: "", micros: false })
    } else if bytes_eq(key, "maxfragmentationmemory_reservation".as_bytes()) {
        Some(GenericMetric { kind: Kind::Gauge, name: "memory_max_fragmentation_reservation_bytes", description: "", micros: false })
    } else if bytes_eq(key, "maxfragmentationmemory_desired_reservation".as_bytes()) {
        Some(GenericMetric { kind: Kind::Gauge, name: "memory_max_fragmentation_reservation_desired_bytes", description: "", micros: false })
    } else if bytes_eq(key, "mem_fragmentation_ratio".as_bytes()) {
        Some(GenericMetric { kind: Kind::Gauge, name: "mem_fragmentation_ratio", description: "Ratio between used_memory_rss and used_memory. Note that this doesn't only includes fragmentation, but also other process overheads (see the allocator_* metrics), and also overheads like code, shared libraries, stack, etc", micros: false })
    } else if bytes_eq(key, "mem_fragmentation_bytes".as_bytes()) {
        Some(GenericMetric { kind: Kind::Gauge, name: "mem_fragmentation_bytes", description: "Delta between used_memory_rss and used_memory. Note that when the total fragmentation bytes is low (few megabytes), a high ratio (e.g. 1.5 and above) is not an indication of an issue", micros: false })
    } else if bytes_eq(key, "mem_clients_slaves".as_bytes()) {
        Some(GenericMetric { kind: Kind::Gauge, name: "mem_clients_slaves", description: "Memory used by replica clients - Starting Redis 7.0, replica buffers share memory with the replication backlog, so this field can show 0 when replicas don't trigger an increase of memory usage", micros: false })
    } else if bytes_eq(key, "mem_clients_normal".as_bytes()) {
        Some(GenericMetric { kind: Kind::Gauge, name: "mem_clients_normal", description: "Memory used by normal clients", micros: false })
    } else if bytes_eq(key, "mem_cluster_links".as_bytes()) {
        Some(GenericMetric { kind: Kind::Gauge, name: "mem_cluster_links_bytes", description: "Memory used by links to peers on the cluster bus when cluster mode is enabled", micros: false })
    } else if bytes_eq(key, "mem_aof_buffer".as_bytes()) {
        Some(GenericMetric { kind: Kind::Gauge, name: "mem_aof_buffer_bytes", description: "Transient memory used for AOF and AOF rewrite buffers", micros: false })
    } else if bytes_eq(key, "mem_replication_backlog".as_bytes()) {
        Some(GenericMetric { kind: Kind::Gauge, name: "mem_replication_backlog_bytes", description: "Memory used by replication backlog", micros: false })
    } else if bytes_eq(key, "expired_stale_perc".as_bytes()) {
        Some(GenericMetric { kind: Kind::Gauge, name: "expired_stale_percentage", description: "The percentage of keys probably expired", micros: false })
    } else {
        None
    }
}
/// The fields from `mem_not_counted_for_evict` to `aof_rewrite_scheduled` of the table.
pub open spec fn table_part_2(key: Seq<u8>) -> Option<GenericMetric> {
    if key == "mem_not_counted_for_evict".spec_bytes() {
        Some(GenericMetric { kind: Kind::Gauge, name: "mem_not_counted_for_eviction_bytes", description: "Used memory that's not counted for key eviction. This is basically transient replica and AOF buffers", micros: false })
    } else if key == "mem_total_replication_buffers".spec_bytes() {
        Some(GenericMetric { kind: Kind::Gauge, name: "mem_total_replication_buffers_bytes", description: "Total memory consumed for replication buffers", micros: false })
    } else if key == "mem_overhead_db_hashtable_rehashing".spec_bytes() {
        Some(GenericMetric { kind: Kind::Gauge, name: "mem_overhead_db_hashtable_rehashing_bytes", description: "Temporary memory overhead of database dictionaries currently being rehashed", micros: false })
    } else if key == "lazyfree_pending_objects".spec_bytes() {
        Some(GenericMetric { kind: Kind::Gauge, name: "lazyfree_pending_objects", description: "The number of objects waiting to be freed", micros: false })
    } else if key == "lazyfreed_objects".spec_bytes() {
        Some(GenericMetric { kind: Kind::Gauge, name: "lazyfreed_objects", description: "The number of objects that have been lazy freed", micros: false })
    } else if key == "active_defrag_running".spec_bytes() {
        Some(GenericMetric { kind: Kind::Gauge, name: "active_defrag_running", description: "When activedefrag is enabled, this indicates whether defragmentation is currently active, and the CPU percentage it intends to utilize", micros: false })
    } else if key == "migrate_cached_sockets".spec_bytes() {
        Some(GenericMetric { kind: Kind::Gauge, name: "migrate_cached_sockets_total", description: "The number of sockets open for MIGRATE purposes", micros: false })
    } else if key == "active_defrag_hits".spec_bytes() {
        Some(GenericMetric { kind: Kind::Gauge, name: "defrag_hits", description: "Number of value reallocations performed by active the defragmentation process", micros: false })
    } else if key == "active_defrag_misses".spec_bytes() {
        Some(GenericMetric { kind: Kind::Gauge, name: "defrag_misses", description: "Number of aborted value reallocations started by the active defragmentation process", micros: false })
    } else if key == "active_defrag_key_hits".spec_bytes() {
        Some(GenericMetric { kind: Kind::Gauge, name: "defrag_key_hits", description: "Number of keys that were actively defragmented", micros: false })
    } else if key == "active_defrag_key_misses".spec_bytes() {
        Some(GenericMetric { kind: Kind::Gauge, name: "defrag_key_misses", description: "Number of keys that were skipped by the active defragmentation process", micros: false })
    } else if key == "expired_time_cap_reached_count".spec_bytes() {
        Some(GenericMetric { kind: Kind::Gauge, name: "expired_time_cap_reached_total", description: "The count of times that active expiry cycles have stopped early", micros: false })
    } else if key == "loading".spec_bytes() {
        Some(GenericMetric { kind: Kind::Gauge, name: "loading_dump_file", description: "Flag indicating if the load of a dump file is on-going", micros: false })
    } else if key == "async_loading".spec_bytes() {
        Some(GenericMetric { kind: Kind::Gauge, name: "async_loading", description: "Currently loading replication data-set asynchronously while serving old data. This means repl-diskless-load is enabled and set to swapdb", micros: false })
    } else if key == "rdb_changes_since_last_save".spec_bytes() {
        Some(GenericMetric { kind: Kind::Gauge, name: "rdb_changes_since_last_save", description: "Number of changes since the last dump", micros: false })
    } else if key == "rdb_bgsave_in_progress".spec_bytes() {
        Some(GenericMetric { kind: Kind::Gauge, name: "rdb_bgsave_in_progress", description: "Flag indicating a RDB save is on-going", micros: false })
    } else if key == "rdb_last_save_time".spec_bytes() {
        Some(GenericMetric { kind: Kind::Gauge, name: "rdb_last_save_timestamp_seconds", description: "Epoch-based timestamp of last successful RDB save", micros: false })
    } else if key == "rdb_last_bgsave_status".spec_bytes() {
        Some(GenericMetric { kind: Kind::Gauge, name: "rdb_last_bgsave_status", description: "Status of the last RDB save operation", micros: false })
    } else if key == "rdb_last_bgsave_time_sec".spec_bytes() {
        Some(GenericMetric { kind: Kind::Gauge, name: "rdb_last_bgsave_duration_sec", description: "Duration of the last RDB save operation in seconds", micros: false })
    } else if key == "rdb_current_bgsave_time_sec".spec_bytes() {
        Some(GenericMetric { kind: Kind::Gauge, name: "rdb_current_bgsave_duration_sec", description: "Duration of the on-going RDB save operation if any", micros: false })
    } else if key == "rdb_saves".spec_bytes() {
        Some(GenericMetric { kind: Kind::Gauge, name: "rdb_saves_total", description: "Number of RDB snapshots performed since startup", micros: false })
    } else if key == "rdb_last_cow_size".spec_bytes() {
        Some(GenericMetric { kind: Kind::Gauge, name: "rdb_last_cow_size_bytes", description: "The size in bytes of copy-on-write memory during the last RDB save operation", micros: false })
    } else if key == "rdb_last_load_keys_expired".spec_bytes() {
        Some(GenericMetric { kind: Kind::Gauge, name: "rdb_last_load_expired_keys", description: "Number of volatile keys deleted during the last RDB loading", micros: false })
    } else if key == "rdb_last_load_keys_loaded".spec_bytes() {
        Some(GenericMetric { kind: Kind::Gauge, name: "rdb_last_load_loaded_keys", description: "Number of keys loaded during the last RDB loading", micros: false })
    } else if key == "aof_enabled".spec_bytes() {
        Some(GenericMetric { kind: Kind::Gauge, name: "aof_enabled", description: "Flag indicating AOF logging is activated", micros: false })
    } else if key == "aof_rewrite_in_progress".spec_bytes() {
        Some(GenericMetric { kind: Kind::Gauge, name: "aof_rewrite_in_progress", description: "Flag indicating a AOF rewrite operation is on-going", micros: false })
    } else if key == "aof_rewrite_scheduled".spec_bytes() {
        Some(GenericMetric { kind: Kind::Gauge, name: "aof_rewrite_scheduled", description: "Flag indicating an AOF rewrite operation will be scheduled once the on-going RDB save is complete", micros: false })
    } else {
        None
    }
}

fn lookup_part_2(key: &[u8]) -> (r: Option<GenericMetric>)
    ensures
        r == table_part_2(key@),
{
    if bytes_eq(key, "mem_not_counted_for_evict".as_bytes()) {
        Some(GenericMetric { kind: Kind::Gauge, name: "mem_not_counted_for_eviction_bytes", description: "Used memory that's not counted for key eviction. This is basically transient replica and AOF buffers", micros: false })
    } else if bytes_eq(key, "mem_total_replication_buffers".as_bytes()) {
        Some(GenericMetric { kind: Kind::Gauge, name: "mem_total_replication_buffers_bytes", description: "Total memory consumed for replication buffers", micros: false })
    } else if bytes_eq(key, "mem_overhead_db_hashtable_rehashing".as_bytes()) {
        Some(GenericMetric { kind: Kind::Gauge, name: "mem_overhead_db_hashtable_rehashing_bytes", description: "Temporary memory overhead of database dictionaries currently being rehashed", micros: false })
    } else if bytes_eq(key, "lazyfree_pending_objects".as_bytes()) {
        Some(GenericMetric { kind: Kind::Gauge, name: "lazyfree_pending_objects", description: "The number of objects waiting to be freed", micros: false })
    } else if bytes_eq(key, "lazyfreed_objects".as_bytes()) {
        Some(GenericMetric { kind: Kind::Gauge, name: "lazyfreed_objects", description: "The number of objects that have been lazy freed", micros: false })
    } else if bytes_eq(key, "active_defrag_running".as_bytes()) {
        Some(GenericMetric { kind: Kind::Gauge, name: "active_defrag_running", description: "When activedefrag is enabled, this indicates whether defragmentation is currently active, and the CPU percentage it intends to utilize", micros: false })
    } else if bytes_eq(key, "migrate_cached_sockets".as_bytes()) {
        Some(GenericMetric { kind: Kind::Gauge, name: "migrate_cached_sockets_total", description: "The number of sockets open for MIGRATE purposes", micros: false })
    } else if bytes_eq(key, "active_defrag_hits".as_bytes()) {
        Some(GenericMetric { kind: Kind::Gauge, name: "defrag_hits", description: "Number of value reallocations performed by active the defragmentation process", micros: false })
    } else if bytes_eq(key, "active_defrag_misses".as_bytes()) {
        Some(GenericMetric { kind: Kind::Gauge, name: "defrag_misses", description: "Number of aborted value reallocations started by the active defragmentation process", micros: false })
    } else if bytes_eq(key, "active_defrag_key_hits".as_bytes()) {
        Some(GenericMetric { kind: Kind::Gauge, name: "defrag_key_hits", description: "Number of keys that were actively defragmented", micros: false })
    } else if bytes_eq(key, "active_defrag_key_misses".as_bytes()) {
        Some(GenericMetric { kind: Kind::Gauge, name: "defrag_key_misses", description: "Number of keys that were skipped by the active defragmentation process", micros: false })
    } else if bytes_eq(key, "expired_time_cap_reached_count".as_bytes()) {
        Some(GenericMetric { kind: Kind::Gauge, name: "expired_time_cap_reached_total", description: "The count of times that active expiry cycles have stopped early", micros: false })
    } else if bytes_eq(key, "loading".as_bytes()) {
        Some(GenericMetric { kind: Kind::Gauge, name: "loading_dump_file", description: "Flag indicating if the load of a dump file is on-going", micros: false })
    } else if bytes_eq(key, "async_loading".as_bytes()) {
        Some(GenericMetric { kind: Kind::Gauge, name: "async_loading", description: "Currently loading replication data-set asynchronously while serving old data. This means repl-diskless-load is enabled and set to swapdb", micros: false })
    } else if bytes_eq(key, "rdb_changes_since_last_save".as_bytes()) {
        Some(GenericMetric { kind: Kind::Gauge, name: "rdb_changes_since_last_save", description: "Number of changes since the last dump", micros: false })
    } else if bytes_eq(key, "rdb_bgsave_in_progress".as_bytes()) {
        Some(GenericMetric { kind: Kind::Gauge, name: "rdb_bgsave_in_progress", description: "Flag indicating a RDB save is on-going", micros: false })
    } else if bytes_eq(key, "rdb_last_save_time".as_bytes()) {
        Some(GenericMetric { kind: Kind::Gauge, name: "rdb_last_save_timestamp_seconds", description: "Epoch-based timestamp of last successful RDB save", micros: false })
    } else if bytes_eq(key, "rdb_last_bgsave_status".as_bytes()) {
        Some(GenericMetric { kind: Kind::Gauge, name: "rdb_last_bgsave_status", description: "Status of the last RDB save operation", micros: false })
    } else if bytes_eq(key, "rdb_last_bgsave_time_sec".as_bytes()) {
        Some(GenericMetric { kind: Kind::Gauge, name: "rdb_last_bgsave_duration_sec", description: "Duration of the last RDB save operation in seconds", micros: false })
    } else if bytes_eq(key, "rdb_current_bgsave_time_sec".as_bytes()) {
        Some(GenericMetric { kind: Kind::Gauge, name: "rdb_current_bgsave_duration_sec", description: "Duration of the on-going RDB save operation if any", micros: false })
    } else if bytes_eq(key, "rdb_saves".as_bytes()) {
        Some(GenericMetric { kind: Kind::Gauge, name: "rdb_saves_total", description: "Number of RDB snapshots performed since startup", micros: false })
    } else if bytes_eq(key, "rdb_last_cow_size".as_bytes()) {
        Some(GenericMetric { kind: Kind::Gauge, name: "rdb_last_cow_size_bytes", description: "The size in bytes of copy-on-write memory during the last RDB save operation", micros: false })
    } else if bytes_eq(key, "rdb_last_load_keys_expired".as_bytes()) {
        Some(GenericMetric { kind: Kind::Gauge, name: "rdb_last_load_expired_keys", description: "Number of volatile keys deleted during the last RDB loading", micros: false })
    } else if bytes_eq(key, "rdb_last_load_keys_loaded".as_bytes()) {
        Some(GenericMetric { kind: Kind::Gauge, name: "rdb_last_load_loaded_keys", description: "Number of keys loaded during the last RDB loading", micros: false })
    } else if bytes_eq(key, "aof_enabled".as_bytes()) {
        Some(GenericMetric { kind: Kind::Gauge, name: "aof_enabled", description: "Flag indicating AOF logging is activated", micros: false })
    } else if bytes_eq(key, "aof_rewrite_in_progress".as_bytes()) {
        Some(GenericMetric { kind: Kind::Gauge, name: "aof_rewrite_in_progress", description: "Flag indicating a AOF rewrite operation is on-going", micros: false })
    } else if bytes_eq(key, "aof_rewrite_scheduled".as_bytes()) {
        Some(GenericMetric { kind: Kind::Gauge, name: "aof_rewrite_scheduled", description: "Flag indicating an AOF rewrite operation will be scheduled once the on-going RDB save is complete", micros: false })
    } else {
        None
    }
}
/// The fields from `aof_last_rewrite_time_sec` to `repl_backlog_histlen` of the table.
pub open spec fn table_part_3(key: Seq<u8>) -> Option<GenericMetric> {
    if key == "aof_last_rewrite_time_sec".spec_bytes() {
        Some(GenericMetric { kind: Kind::Gauge, name: "aof_last_rewrite_duration_sec", description: "Duration of the last AOF rewrite operation in seconds", micros: false })
    } else if key == "aof_current_rewrite_time_sec".spec_bytes() {
        Some(GenericMetric { kind: Kind::Gauge, name: "aof_current_rewrite_duration_sec", description: "Duration of the on-going AOF rewrite operation if any", micros: false })
    } else if key == "aof_last_cow_size".spec_bytes() {
        Some(GenericMetric { kind: Kind::Gauge, name: "aof_last_cow_size_bytes", description: "The size in bytes of copy-on-write memory during the last AOF rewrite operation", micros: false })
    } else if key == "aof_current_size".spec_bytes() {
        Some(GenericMetric { kind: Kind::Gauge, name: "aof_current_size_bytes", description: "AOF current file size", micros: false })
    } else if key == "aof_base_size".spec_bytes() {
        Some(GenericMetric { kind: Kind::Gauge, name: "aof_base_size_bytes", description: "AOF file size on latest startup or rewrite", micros: false })
    } else if key == "aof_pending_rewrite".spec_bytes() {
        Some(GenericMetric { kind: Kind::Gauge, name: "aof_pending_rewrite", description: "Flag indicating an AOF rewrite operation will be scheduled once the on-going RDB save is complete", micros: false })
    } else if key == "aof_buffer_length".spec_bytes() {
        Some(GenericMetric { kind: Kind::Gauge, name: "aof_buffer_length", description: "Size of the AOF buffer", micros: false })
    } else if key == "aof_rewrite_buffer_length".spec_bytes() {
        Some(GenericMetric { kind: Kind::Gauge, name: "aof_rewrite_buffer_length", description: "Size of the AOF rewrite buffer", micros: false })
    } else if key == "aof_pending_bio_fsync".spec_bytes() {
        Some(GenericMetric { kind: Kind::Gauge, name: "aof_pending_bio_fsync", description: "Number of fsync pending jobs in background I/O queue", micros: false })
    } else if key == "aof_delayed_fsync".spec_bytes() {
        Some(GenericMetric { kind: Kind::Gauge, name: "aof_delayed_fsync", description: "Delayed fsync counter", micros: false })
    } else if key == "aof_last_bgrewrite_status".spec_bytes() {
        Some(GenericMetric { kind: Kind::Gauge, name: "aof_last_bgrewrite_status", description: "Status of the last AOF rewrite operation", micros: false })
    } else if key == "aof_last_write_status".spec_bytes() {
        Some(GenericMetric { kind: Kind::Gauge, name: "aof_last_write_status", description: "Status of the last write operation to the AOF", micros: false })
    } else if key == "module_fork_in_progress".spec_bytes() {
        Some(GenericMetric { kind: Kind::Gauge, name: "module_fork_in_progress", description: "Flag indicating a module fork is on-going", micros: false })
    } else if key == "module_fork_last_cow_size".spec_bytes() {
        Some(GenericMetric { kind: Kind::Gauge, name: "module_fork_last_cow_size", description: "The size in bytes of copy-on-write memory during the last module fork operation", micros: false })
    } else if key == "current_eviction_exceeded_time".spec_bytes() {
        Some(GenericMetric { kind: Kind::Gauge, name: "current_eviction_exceeded_time_ms", description: "The time passed since used_memory last rose above maxmemory, in milliseconds", micros: false })
    } else if key == "pubsub_channels".spec_bytes() {
        Some(GenericMetric { kind: Kind::Gauge, name: "pubsub_channels", description: "Global number of pub/sub channels with client subscriptions", micros: false })
    } else if key == "pubsub_patterns".spec_bytes() {
        Some(GenericMetric { kind: Kind::Gauge, name: "pubsub_patterns", description: "Global number of pub/sub pattern with client subscriptions", micros: false })
    } else if key == "pubsubshard_channels".spec_bytes() {
        Some(GenericMetric { kind: Kind::Gauge, name: "pubsubshard_channels", description: "Global number of pub/sub shard channels with client subscriptions", micros: false })
    } else if key == "latest_fork_usec".spec_bytes() {
        Some(GenericMetric { kind: Kind::Gauge, name: "latest_fork_seconds", description: "Duration of the latest fork operation in microseconds", micros: true })
    } else if key == "tracking_total_keys".spec_bytes() {
        Some(GenericMetric { kind: Kind::Gauge, name: "tracking_total_keys", description: "Number of keys being tracked by the server", micros: false })
    } else if key == "tracking_total_items".spec_bytes() {
        Some(GenericMetric { kind: Kind::Gauge, name: "tracking_total_items", description: "Number of items, that is the sum of clients number for each key, that are being tracked", micros: false })
    } else if key == "tracking_total_prefixes".spec_bytes() {
        Some(GenericMetric { kind: Kind::Gauge, name: "tracking_total_prefixes", description: "Number of tracked prefixes in server's prefix table (only applicable for broadcast mode)", micros: false })
    } else if key == "connected_slaves".spec_bytes() {
        Some(GenericMetric { kind: Kind::Gauge, name: "connected_slaves", description: "Number of connected replicas", micros: false })
    } else if key == "repl_backlog_size".spec_bytes() {
        Some(GenericMetric { kind: Kind::Gauge, name: "replication_backlog_bytes", description: "Total size in bytes of the replication backlog buffer", micros: false })
    } else if key == "repl_backlog_active".spec_bytes() {
        Some(GenericMetric { kind: Kind::Gauge, name: "repl_backlog_is_active", description: "Flag indicating replication backlog is active", micros: false })
    } else if key == "repl_backlog_first_byte_offset".spec_bytes() {
        Some(GenericMetric { kind: Kind::Gauge, name: "repl_backlog_first_byte_offset", description: "The master offset of the replication backlog buffer", micros: false })
    } else if key == "repl_backlog_histlen".spec_bytes() {
        Some(GenericMetric { kind: Kind::Gauge, name: "repl_backlog_history_bytes", description: "Size in bytes of the data in the replication backlog buffer", micros: false })
    } else {
        None
    }
}

fn lookup_part_3(key: &[u8]) -> (r: Option<GenericMetric>)
    ensures
        r == table_part_3(key@),
{
    if bytes_eq(key, "aof_last_rewrite_time_sec".as_bytes()) {
        Some(GenericMetric { kind: Kind::Gauge, name: "aof_last_rewrite_duration_sec", description: "Duration of the last AOF rewrite operation in seconds", micros: false })
    } else if bytes_eq(key, "aof_current_rewrite_time_sec".as_bytes()) {
        Some(GenericMetric { kind: Kind::Gauge, name: "aof_current_rewrite_duration_sec", description: "Duration of the on-going AOF rewrite operation if any", micros: false })
    } else if bytes_eq(key, "aof_last_cow_size".as_bytes()) {
        Some(GenericMetric { kind: Kind::Gauge, name: "aof_last_cow_size_bytes", description: "The size in bytes of copy-on-write memory during the last AOF rewrite operation", micros: false })
    } else if bytes_eq(key, "aof_current_size".as_bytes()) {
        Some(GenericMetric { kind: Kind::Gauge, name: "aof_current_size_bytes", description: "AOF current file size", micros: false })
    } else if bytes_eq(key, "aof_base_size".as_bytes()) {
        Some(GenericMetric { kind: Kind::Gauge, name: "aof_base_size_bytes", description: "AOF file size on latest startup or rewrite", micros: false })
    } else if bytes_eq(key, "aof_pending_rewrite".as_bytes()) {
        Some(GenericMetric { kind: Kind::Gauge, name: "aof_pending_rewrite", description: "Flag indicating an AOF rewrite operation will be scheduled once the on-going RDB save is complete", micros: false })
    } else if bytes_eq(key, "aof_buffer_length".as_bytes()) {
        Some(GenericMetric { kind: Kind::Gauge, name: "aof_buffer_length", description: "Size of the AOF buffer", micros: false })
    } else if bytes_eq(key, "aof_rewrite_buffer_length".as_bytes()) {
        Some(GenericMetric { kind: Kind::Gauge, name: "aof_rewrite_buffer_length", description: "Size of the AOF rewrite buffer", micros: false })
    } else if bytes_eq(key, "aof_pending_bio_fsync".as_bytes()) {
        Some(GenericMetric { kind: Kind::Gauge, name: "aof_pending_bio_fsync", description: "Number of fsync pending jobs in background I/O queue", micros: false })
    } else if bytes_eq(key, "aof_delayed_fsync".as_bytes()) {
        Some(GenericMetric { kind: Kind::Gauge, name: "aof_delayed_fsync", description: "Delayed fsync counter", micros: false })
    } else if bytes_eq(key, "aof_last_bgrewrite_status".as_bytes()) {
        Some(GenericMetric { kind: Kind::Gauge, name: "aof_last_bgrewrite_status", description: "Status of the last AOF rewrite operation", micros: false })
    } else if bytes_eq(key, "aof_last_write_status".as_bytes()) {
        Some(GenericMetric { kind: Kind::Gauge, name: "aof_last_write_status", description: "Status of the last write operation to the AOF", micros: false })
    } else if bytes_eq(key, "module_fork_in_progress".as_bytes()) {
        Some(GenericMetric { kind: Kind::Gauge, name: "module_fork_in_progress", description: "Flag indicating a module fork is on-going", micros: false })
    } else if bytes_eq(key, "module_fork_last_cow_size".as_bytes()) {
        Some(GenericMetric { kind: Kind::Gauge, name: "module_fork_last_cow_size", description: "The size in bytes of copy-on-write memory during the last module fork operation", micros: false })
    } else if bytes_eq(key, "current_eviction_exceeded_time".as_bytes()) {
        Some(GenericMetric { kind: Kind::Gauge, name: "current_eviction_exceeded_time_ms", description: "The time passed since used_memory last rose above maxmemory, in milliseconds", micros: false })
    } else if bytes_eq(key, "pubsub_channels".as_bytes()) {
        Some(GenericMetric { kind: Kind::Gauge, name: "pubsub_channels", description: "Global number of pub/sub channels with client subscriptions", micros: false })
    } else if bytes_eq(key, "pubsub_patterns".as_bytes()) {
        Some(GenericMetric { kind: Kind::Gauge, name: "pubsub_patterns", description: "Global number of pub/sub pattern with client subscriptions", micros: false })
    } else if bytes_eq(key, "pubsubshard_channels".as_bytes()) {
        Some(GenericMetric { kind: Kind::Gauge, name: "pubsubshard_channels", description: "Global number of pub/sub shard channels with client subscriptions", micros: false })
    } else if bytes_eq(key, "latest_fork_usec".as_bytes()) {
        Some(GenericMetric { kind: Kind::Gauge, name: "latest_fork_seconds", description: "Duration of the latest fork operation in microseconds", micros: true })
    } else if bytes_eq(key, "tracking_total_keys".as_bytes()) {
        Some(GenericMetric { kind: Kind::Gauge, name: "tracking_total_keys", description: "Number of keys being tracked by the server", micros: false })
    } else if bytes_eq(key, "tracking_total_items".as_bytes()) {
        Some(GenericMetric { kind: Kind::Gauge, name: "tracking_total_items", description: "Number of items, that is the sum of clients number for each key, that are being tracked", micros: false })
    } else if bytes_eq(key, "tracking_total_prefixes".as_bytes()) {
        Some(GenericMetric { kind: Kind::Gauge, name: "tracking_total_prefixes", description: "Number of tracked prefixes in server's prefix table (only applicable for broadcast mode)", micros: false })
    } else if bytes_eq(key, "connected_slaves".as_bytes()) {
        Some(GenericMetric { kind: Kind::Gauge, name: "connected_slaves", description: "Number of connected replicas", micros: false })
    } else if bytes_eq(key, "repl_backlog_size".as_bytes()) {
        Some(GenericMetric { kind: Kind::Gauge, name: "replication_backlog_bytes", description: "Total size in bytes of the replication backlog buffer", micros: false })
    } else if bytes_eq(key, "repl_backlog_active".as_bytes()) {
        Some(GenericMetric { kind: Kind::Gauge, name: "repl_backlog_is_active", description: "Flag indicating replication backlog is active", micros: false })
    } else if bytes_eq(key, "repl_backlog_first_byte_offset".as_bytes()) {
        Some(GenericMetric { kind: Kind::Gauge, name: "repl_backlog_first_byte_offset", description: "The master offset of the replication backlog buffer", micros: false })
    } else if bytes_eq(key, "repl_backlog_histlen".as_bytes()) {
        Some(GenericMetric { kind: Kind::Gauge, name: "repl_backlog_history_bytes", description: "Size in bytes of the data in the replication backlog buffer", micros: false })
    } else {
        None
    }
}
/// The fields from `master_repl_offset` to `tile38_go_goroutines` of the table.
pub open spec fn table_part_4(key: Seq<u8>) -> Option<GenericMetric> {
    if key == "master_repl_offset".spec_bytes() {
        Some(GenericMetric { kind: Kind::Gauge, name: "master_repl_offset", description: "The server's current replication offset", micros: false })
    } else if key == "second_repl_offset".spec_bytes() {
        Some(GenericMetric { kind: Kind::Gauge, name: "second_repl_offset", description: "The offset up to which replication IDs are accepted", micros: false })
    } else if key == "slave_expires_tracked_keys".spec_bytes() {
        Some(GenericMetric { kind: Kind::Gauge, name: "slave_expires_tracked_keys", description: "The number of keys tracked for expiry purposes (applicable only to writable replicas)", micros: false })
    } else if key == "slave_priority".spec_bytes() {
        Some(GenericMetric { kind: Kind::Gauge, name: "slave_priority", description: "The priority of the instance as a candidate for failover", micros: false })
    } else if key == "sync_full".spec_bytes() {
        Some(GenericMetric { kind: Kind::Gauge, name: "replica_resyncs_full", description: "The number of full resyncs with replicas", micros: false })
    } else if key == "sync_partial_ok".spec_bytes() {
        Some(GenericMetric { kind: Kind::Gauge, name: "replica_partial_resync_accepted", description: "The number of accepted partial resync requests", micros: false })
    } else if key == "sync_partial_err".spec_bytes() {
        Some(GenericMetric { kind: Kind::Gauge, name: "replica_partial_resync_denied", description: "The number of denied partial resync requests", micros: false })
    } else if key == "cluster_enabled".spec_bytes() {
        Some(GenericMetric { kind: Kind::Gauge, name: "redis_cluster_enabled", description: "Indicate Redis cluster is enabled", micros: false })
    } else if key == "cluster_stats_messages_sent".spec_bytes() {
        Some(GenericMetric { kind: Kind::Gauge, name: "cluster_messages_sent_total", description: "", micros: false })
    } else if key == "cluster_stats_messages_received".spec_bytes() {
        Some(GenericMetric { kind: Kind::Gauge, name: "cluster_messages_received_total", description: "", micros: false })
    } else if key == "tile38_aof_size".spec_bytes() {
        Some(GenericMetric { kind: Kind::Gauge, name: "tile38_aof_size_bytes", description: "", micros: false })
    } else if key == "tile38_avg_point_size".spec_bytes() {
        Some(GenericMetric { kind: Kind::Gauge, name: "tile38_avg_item_size_bytes", description: "", micros: false })
    } else if key == "tile38_sys_cpus".spec_bytes() {
        Some(GenericMetric { kind: Kind::Gauge, name: "tile38_cpus_total", description: "", micros: false })
    } else if key == "tile38_heap_released_bytes".spec_bytes() {
        Some(GenericMetric { kind: Kind::Gauge, name: "tile38_heap_released_bytes", description: "", micros: false })
    } else if key == "tile38_heap_alloc_bytes".spec_bytes() {
        Some(GenericMetric { kind: Kind::Gauge, name: "tile38_heap_size_bytes", description: "", micros: false })
    } else if key == "tile38_http_transport".spec_bytes() {
        Some(GenericMetric { kind: Kind::Gauge, name: "tile38_http_transport", description: "", micros: false })
    } else if key == "tile38_in_memory_size".spec_bytes() {
        Some(GenericMetric { kind: Kind::Gauge, name: "tile38_in_memory_size_bytes", description: "", micros: false })
    } else if key == "tile38_max_heap_size".spec_bytes() {
        Some(GenericMetric { kind: Kind::Gauge, name: "tile38_max_heap_size_bytes", description: "", micros: false })
    } else if key == "tile38_alloc_bytes".spec_bytes() {
        Some(GenericMetric { kind: Kind::Gauge, name: "tile38_mem_alloc_bytes", description: "", micros: false })
    } else if key == "tile38_num_collections".spec_bytes() {
        Some(GenericMetric { kind: Kind::Gauge, name: "tile38_num_collections_total", description: "", micros: false })
    } else if key == "tile38_num_hooks".spec_bytes() {
        Some(GenericMetric { kind: Kind::Gauge, name: "tile38_num_hooks_total", description: "", micros: false })
    } else if key == "tile38_num_objects".spec_bytes() {
        Some(GenericMetric { kind: Kind::Gauge, name: "tile38_num_objects_total", description: "", micros: false })
    } else if key == "tile38_num_points".spec_bytes() {
        Some(GenericMetric { kind: Kind::Gauge, name: "tile38_num_points_total", description: "", micros: false })
    } else if key == "tile38_pointer_size".spec_bytes() {
        Some(GenericMetric { kind: Kind::Gauge, name: "tile38_pointer_size_bytes", description: "", micros: false })
    } else if key == "tile38_read_only".spec_bytes() {
        Some(GenericMetric { kind: Kind::Gauge, name: "tile38_read_only", description: "", micros: false })
    } else if key == "tile38_go_threads".spec_bytes() {
        Some(GenericMetric { kind: Kind::Gauge, name: "tile38_threads_total", description: "", micros: false })
    } else if key == "tile38_go_goroutines".spec_bytes() {
        Some(GenericMetric { kind: Kind::Gauge, name: "tile38_go_goroutines_total", description: "", micros: false })
    } else {
        None
    }
}

fn lookup_part_4(key: &[u8]) -> (r: Option<GenericMetric>)
    ensures
        r == table_part_4(key@),
{
    if bytes_eq(key, "master_repl_offset".as_bytes()) {
        Some(GenericMetric { kind: Kind::Gauge, name: "master_repl_offset", description: "The server's current replication offset", micros: false })
    } else if bytes_eq(key, "second_repl_offset".as_bytes()) {
        Some(GenericMetric { kind: Kind::Gauge, name: "second_repl_offset", description: "The offset up to which replication IDs are accepted", micros: false })
    } else if bytes_eq(key, "slave_expires_tracked_keys".as_bytes()) {
        Some(GenericMetric { kind: Kind::Gauge, name: "slave_expires_tracked_keys", description: "The number of keys tracked for expiry purposes (applicable only to writable replicas)", micros: false })
    } else if bytes_eq(key, "slave_priority".as_bytes()) {
        Some(GenericMetric { kind: Kind::Gauge, name: "slave_priority", description: "The priority of the instance as a candidate for failover", micros: false })
    } else if bytes_eq(key, "sync_full".as_bytes()) {
        Some(GenericMetric { kind: Kind::Gauge, name: "replica_resyncs_full", description: "The number of full resyncs with replicas", micros: false })
    } else if bytes_eq(key, "sync_partial_ok".as_bytes()) {
        Some(GenericMetric { kind: Kind::Gauge, name: "replica_partial_resync_accepted", description: "The number of accepted partial resync requests", micros: false })
    } else if bytes_eq(key, "sync_partial_err".as_bytes()) {
        Some(GenericMetric { kind: Kind::Gauge, name: "replica_partial_resync_denied", description: "The number of denied partial resync requests", micros: false })
    } else if bytes_eq(key, "cluster_enabled".as_bytes()) {
        Some(GenericMetric { kind: Kind::Gauge, name: "redis_cluster_enabled", description: "Indicate Redis cluster is enabled", micros: false })
    } else if bytes_eq(key, "cluster_stats_messages_sent".as_bytes()) {
        Some(GenericMetric { kind: Kind::Gauge, name: "cluster_messages_sent_total", description: "", micros: false })
    } else if bytes_eq(key, "cluster_stats_messages_received".as_bytes()) {
        Some(GenericMetric { kind: Kind::Gauge, name: "cluster_messages_received_total", description: "", micros: false })
    } else if bytes_eq(key, "tile38_aof_size".as_bytes()) {
        Some(GenericMetric { kind: Kind::Gauge, name: "tile38_aof_size_bytes", description: "", micros: false })
    } else if bytes_eq(key, "tile38_avg_point_size".as_bytes()) {
        Some(GenericMetric { kind: Kind::Gauge, name: "tile38_avg_item_size_bytes", description: "", micros: false })
    } else if bytes_eq(key, "tile38_sys_cpus".as_bytes()) {
        Some(GenericMetric { kind: Kind::Gauge, name: "tile38_cpus_total", description: "", micros: false })
    } else if bytes_eq(key, "tile38_heap_released_bytes".as_bytes()) {
        Some(GenericMetric { kind: Kind::Gauge, name: "tile38_heap_released_bytes", description: "", micros: false })
    } else if bytes_eq(key, "tile38_heap_alloc_bytes".as_bytes()) {
        Some(GenericMetric { kind: Kind::Gauge, name: "tile38_heap_size_bytes", description: "", micros: false })
    } else if bytes_eq(key, "tile38_http_transport".as_bytes()) {
        Some(GenericMetric { kind: Kind::Gauge, name: "tile38_http_transport", description: "", micros: false })
    } else if bytes_eq(key, "tile38_in_memory_size".as_bytes()) {
        Some(GenericMetric { kind: Kind::Gauge, name: "tile38_in_memory_size_bytes", description: "", micros: false })
    } else if bytes_eq(key, "tile38_max_heap_size".as_bytes()) {
        Some(GenericMetric { kind: Kind::Gauge, name: "tile38_max_heap_size_bytes", description: "", micros: false })
    } else if bytes_eq(key, "tile38_alloc_bytes".as_bytes()) {
        Some(GenericMetric { kind: Kind::Gauge, name: "tile38_mem_alloc_bytes", description: "", micros: false })
    } else if bytes_eq(key, "tile38_num_collections".as_bytes()) {
        Some(GenericMetric { kind: Kind::Gauge, name: "tile38_num_collections_total", description: "", micros: false })
    } else if bytes_eq(key, "tile38_num_hooks".as_bytes()) {
        Some(GenericMetric { kind: Kind::Gauge, name: "tile38_num_hooks_total", description: "", micros: false })
    } else if bytes_eq(key, "tile38_num_objects".as_bytes()) {
        Some(GenericMetric { kind: Kind::Gauge, name: "tile38_num_objects_total", description: "", micros: false })
    } else if bytes_eq(key, "tile38_num_points".as_bytes()) {
        Some(GenericMetric { kind: Kind::Gauge, name: "tile38_num_points_total", description: "", micros: false })
    } else if bytes_eq(key, "tile38_pointer_size".as_bytes()) {
        Some(GenericMetric { kind: Kind::Gauge, name: "tile38_pointer_size_bytes", description: "", micros: false })
    } else if bytes_eq(key, "tile38_read_only".as_bytes()) {
        Some(GenericMetric { kind: Kind::Gauge, name: "tile38_read_only", description: "", micros: false })
    } else if bytes_eq(key, "tile38_go_threads".as_bytes()) {
        Some(GenericMetric { kind: Kind::Gauge, name: "tile38_threads_total", description: "", micros: false })
    } else if bytes_eq(key, "tile38_go_goroutines".as_bytes()) {
        Some(GenericMetric { kind: Kind::Gauge, name: "tile38_go_goroutines_total", description: "", micros: false })
    } else {
        None
    }
}
/// The fields from `tile38_last_gc_time_seconds` to `search_gc_total_docs_not_collected` of the table.
pub open spec fn table_part_5(key: Seq<u8>) -> Option<GenericMetric> {
    if key == "tile38_last_gc_time_seconds".spec_bytes() {
        Some(GenericMetric { kind: Kind::Gauge, name: "tile38_last_gc_time_seconds", description: "", micros: false })
    } else if key == "tile38_next_gc_bytes".spec_bytes() {
        Some(GenericMetric { kind: Kind::Gauge, name: "tile38_next_gc_bytes", description: "", micros: false })
    } else if key == "server_threads".spec_bytes() {
        Some(GenericMetric { kind: Kind::Gauge, name: "server_threads_total", description: "", micros: false })
    } else if key == "long_lock_waits".spec_bytes() {
        Some(GenericMetric { kind: Kind::Gauge, name: "long_lock_waits_total", description: "", micros: false })
    } else if key == "current_client_thread".spec_bytes() {
        Some(GenericMetric { kind: Kind::Gauge, name: "current_client_thread", description: "", micros: false })
    } else if key == "search_number_of_indexes".spec_bytes() {
        Some(GenericMetric { kind: Kind::Gauge, name: "search_number_of_indexes", description: "The total number of indexes in the shard", micros: false })
    } else if key == "search_used_memory_indexes".spec_bytes() {
        Some(GenericMetric { kind: Kind::Gauge, name: "search_used_memory_indexes_bytes", description: "The total memory allocated by all indexes in the shard in bytes", micros: false })
    } else if key == "search_global_idle".spec_bytes() {
        Some(GenericMetric { kind: Kind::Gauge, name: "search_global_idle", description: "The total number of user and internal cursors currently holding pending results in the shard", micros: false })
    } else if key == "search_global_total".spec_bytes() {
        Some(GenericMetric { kind: Kind::Gauge, name: "search_global_total", description: "The total number of user and internal cursors in the shard, either holding pending results or actively executing FT.CURSOR READ", micros: false })
    } else if key == "search_bytes_collected".spec_bytes() {
        Some(GenericMetric { kind: Kind::Gauge, name: "search_collected_bytes", description: "The total amount of memory freed by the garbage collectors from indexes in the shard memory in bytes", micros: false })
    } else if key == "search_dialect_1".spec_bytes() {
        Some(GenericMetric { kind: Kind::Gauge, name: "search_dialect_1", description: "", micros: false })
    } else if key == "search_dialect_2".spec_bytes() {
        Some(GenericMetric { kind: Kind::Gauge, name: "search_dialect_2", description: "", micros: false })
    } else if key == "search_dialect_3".spec_bytes() {
        Some(GenericMetric { kind: Kind::Gauge, name: "search_dialect_3", description: "", micros: false })
    } else if key == "search_dialect_4".spec_bytes() {
        Some(GenericMetric { kind: Kind::Gauge, name: "search_dialect_4", description: "", micros: false })
    } else if key == "search_number_of_active_indexes".spec_bytes() {
        Some(GenericMetric { kind: Kind::Gauge, name: "search_number_of_active_indexes", description: "The total number of indexes running a background indexing and/or background query processing operation", micros: false })
    } else if key == "search_number_of_active_indexes_running_queries".spec_bytes() {
        Some(GenericMetric { kind: Kind::Gauge, name: "search_number_of_active_indexes_running_queries", description: "The total count of indexes currently running a background query process", micros: false })
    } else if key == "search_number_of_active_indexes_indexing".spec_bytes() {
        Some(GenericMetric { kind: Kind::Gauge, name: "search_number_of_active_indexes_indexing", description: "The total count of indexes currently undergoing a background indexing process", micros: false })
    } else if key == "search_total_active_write_threads".spec_bytes() {
        Some(GenericMetric { kind: Kind::Gauge, name: "search_total_active_write_threads", description: "The total count of background write (indexing) processes currently running in the shard", micros: false })
    } else if key == "search_smallest_memory_index".spec_bytes() {
        Some(GenericMetric { kind: Kind::Gauge, name: "search_smallest_memory_index_bytes", description: "The memory usage of the index with the smallest memory usage in the shard in bytes", micros: false })
    } else if key == "search_largest_memory_index".spec_bytes() {
        Some(GenericMetric { kind: Kind::Gauge, name: "search_largest_memory_index_bytes", description: "The memory usage of the index with the largest memory usage in the shard in bytes", micros: false })
    } else if key == "search_used_memory_vector_index".spec_bytes() {
        Some(GenericMetric { kind: Kind::Gauge, name: "search_used_memory_vector_index_bytes", description: "The total memory usage of all vector indexes in the shard", micros: false })
    } else if key == "search_global_idle_user".spec_bytes() {
        Some(GenericMetric { kind: Kind::Gauge, name: "search_global_idle_user", description: "", micros: false })
    } else if key == "search_global_idle_internal".spec_bytes() {
        Some(GenericMetric { kind: Kind::Gauge, name: "search_global_idle_internal", description: "", micros: false })
    } else if key == "search_global_total_user".spec_bytes() {
        Some(GenericMetric { kind: Kind::Gauge, name: "search_global_total_user", description: "", micros: false })
    } else if key == "search_global_total_internal".spec_bytes() {
        Some(GenericMetric { kind: Kind::Gauge, name: "search_global_total_internal", description: "", micros: false })
    } else if key == "search_gc_bytes_collected".spec_bytes() {
        Some(GenericMetric { kind: Kind::Gauge, name: "search_gc_collected_bytes", description: "The total amount of memory freed by the garbage collectors from indexes in the shard's memory in bytes", micros: false })
    } else if key == "search_gc_total_docs_not_collected".spec_bytes() {
        Some(GenericMetric { kind: Kind::Gauge, name: "search_gc_total_docs_not_collected", description: "The number of documents marked as deleted, whose memory has not yet been freed by the garbage collector", micros: false })
    } else {
        None
    }
}

fn lookup_part_5(key: &[u8]) -> (r: Option<GenericMetric>)
    ensures
        r == table_part_5(key@),
{
    if bytes_eq(key, "tile38_last_gc_time_seconds".as_bytes()) {
        Some(GenericMetric { kind: Kind::Gauge, name: "tile38_last_gc_time_seconds", description: "", micros: false })
    } else if bytes_eq(key, "tile38_next_gc_bytes".as_bytes()) {
        Some(GenericMetric { kind: Kind::Gauge, name: "tile38_next_gc_bytes", description: "", micros: false })
    } else if bytes_eq(key, "server_threads".as_bytes()) {
        Some(GenericMetric { kind: Kind::Gauge, name: "server_threads_total", description: "", micros: false })
    } else if bytes_eq(key, "long_lock_waits".as_bytes()) {
        Some(GenericMetric { kind: Kind::Gauge, name: "long_lock_waits_total", description: "", micros: false })
    } else if bytes_eq(key, "current_client_thread".as_bytes()) {
        Some(GenericMetric { kind: Kind::Gauge, name: "current_client_thread", description: "", micros: false })
    } else if bytes_eq(key, "search_number_of_indexes".as_bytes()) {
        Some(GenericMetric { kind: Kind::Gauge, name: "search_number_of_indexes", description: "The total number of indexes in the shard", micros: false })
    } else if bytes_eq(key, "search_used_memory_indexes".as_bytes()) {
        Some(GenericMetric { kind: Kind::Gauge, name: "search_used_memory_indexes_bytes", description: "The total memory allocated by all indexes in the shard in bytes", micros: false })
    } else if bytes_eq(key, "search_global_idle".as_bytes()) {
        Some(GenericMetric { kind: Kind::Gauge, name: "search_global_idle", description: "The total number of user and internal cursors currently holding pending results in the shard", micros: false })
    } else if bytes_eq(key, "search_global_total".as_bytes()) {
        Some(GenericMetric { kind: Kind::Gauge, name: "search_global_total", description: "The total number of user and internal cursors in the shard, either holding pending results or actively executing FT.CURSOR READ", micros: false })
    } else if bytes_eq(key, "search_bytes_collected".as_bytes()) {
        Some(GenericMetric { kind: Kind::Gauge, name: "search_collected_bytes", description: "The total amount of memory freed by the garbage collectors from indexes in the shard memory in bytes", micros: false })
    } else if bytes_eq(key, "search_dialect_1".as_bytes()) {
        Some(GenericMetric { kind: Kind::Gauge, name: "search_dialect_1", description: "", micros: false })
    } else if bytes_eq(key, "search_dialect_2".as_bytes()) {
        Some(GenericMetric { kind: Kind::Gauge, name: "search_dialect_2", description: "", micros: false })
    } else if bytes_eq(key, "search_dialect_3".as_bytes()) {
        Some(GenericMetric { kind: Kind::Gauge, name: "search_dialect_3", description: "", micros: false })
    } else if bytes_eq(key, "search_dialect_4".as_bytes()) {
        Some(GenericMetric { kind: Kind::Gauge, name: "search_dialect_4", description: "", micros: false })
    } else if bytes_eq(key, "search_number_of_active_indexes".as_bytes()) {
        Some(GenericMetric { kind: Kind::Gauge, name: "search_number_of_active_indexes", description: "The total number of indexes running a background indexing and/or background query processing operation", micros: false })
    } else if bytes_eq(key, "search_number_of_active_indexes_running_queries".as_bytes()) {
        Some(GenericMetric { kind: Kind::Gauge, name: "search_number_of_active_indexes_running_queries", description: "The total count of indexes currently running a background query process", micros: false })
    } else if bytes_eq(key, "search_number_of_active_indexes_indexing".as_bytes()) {
        Some(GenericMetric { kind: Kind::Gauge, name: "search_number_of_active_indexes_indexing", description: "The total count of indexes currently undergoing a background indexing process", micros: false })
    } else if bytes_eq(key, "search_total_active_write_threads".as_bytes()) {
        Some(GenericMetric { kind: Kind::Gauge, name: "search_total_active_write_threads", description: "The total count of background write (indexing) processes currently running in the shard", micros: false })
    } else if bytes_eq(key, "search_smallest_memory_index".as_bytes()) {
        Some(GenericMetric { kind: Kind::Gauge, name: "search_smallest_memory_index_bytes", description: "The memory usage of the index with the smallest memory usage in the shard in bytes", micros: false })
    } else if bytes_eq(key, "search_largest_memory_index".as_bytes()) {
        Some(GenericMetric { kind: Kind::Gauge, name: "search_largest_memory_index_bytes", description: "The memory usage of the index with the largest memory usage in the shard in bytes", micros: false })
    } else if bytes_eq(key, "search_used_memory_vector_index".as_bytes()) {
        Some(GenericMetric { kind: Kind::Gauge, name: "search_used_memory_vector_index_bytes", description: "The total memory usage of all vector indexes in the shard", micros: false })
    } else if bytes_eq(key, "search_global_idle_user".as_bytes()) {
        Some(GenericMetric { kind: Kind::Gauge, name: "search_global_idle_user", description: "", micros: false })
    } else if bytes_eq(key, "search_global_idle_internal".as_bytes()) {
        Some(GenericMetric { kind: Kind::Gauge, name: "search_global_idle_internal", description: "", micros: false })
    } else if bytes_eq(key, "search_global_total_user".as_bytes()) {
        Some(GenericMetric { kind: Kind::Gauge, name: "search_global_total_user", description: "", micros: false })
    } else if bytes_eq(key, "search_global_total_internal".as_bytes()) {
        Some(GenericMetric { kind: Kind::Gauge, name: "search_global_total_internal", description: "", micros: false })
    } else if bytes_eq(key, "search_gc_bytes_collected".as_bytes()) {
        Some(GenericMetric { kind: Kind::Gauge, name: "search_gc_collected_bytes", description: "The total amount of memory freed by the garbage collectors from indexes in the shard's memory in bytes", micros: false })
    } else if bytes_eq(key, "search_gc_total_docs_not_collected".as_bytes()) {
        Some(GenericMetric { kind: Kind::Gauge, name: "search_gc_total_docs_not_collected", description: "The number of documents marked as deleted, whose memory has not yet been freed by the garbage collector", micros: false })
    } else {
        None
    }
}
/// The fields from `search_gc_marked_deleted_vectors` to `dump_payload_sanitizations` of the table.
pub open spec fn table_part_6(key: Seq<u8>) -> Option<GenericMetric> {
    if key == "search_gc_marked_deleted_vectors".spec_bytes() {
        Some(GenericMetric { kind: Kind::Gauge, name: "search_gc_marked_deleted_vectors", description: "The number of vectors marked as deleted in the vector indexes that have not yet been cleaned", micros: false })
    } else if key == "search_errors_indexing_failures".spec_bytes() {
        Some(GenericMetric { kind: Kind::Gauge, name: "search_errors_indexing_failures", description: "The total number of indexing failures recorded across all indexes in the shard", micros: false })
    } else if key == "total_connections_received".spec_bytes() {
        Some(GenericMetric { kind: Kind::Sum, name: "connections_received_total", description: "Total number of connections accepted by the server", micros: false })
    } else if key == "total_commands_processed".spec_bytes() {
        Some(GenericMetric { kind: Kind::Sum, name: "commands_processed_total", description: "Total number of commands processed by the server", micros: false })
    } else if key == "rejected_connections".spec_bytes() {
        Some(GenericMetric { kind: Kind::Sum, name: "rejected_connections_total", description: "Number of connections rejected because of maxclients limit", micros: false })
    } else if key == "total_net_input_bytes".spec_bytes() {
        Some(GenericMetric { kind: Kind::Sum, name: "net_input_bytes_total", description: "The total number of bytes read from the network", micros: false })
    } else if key == "total_net_output_bytes".spec_bytes() {
        Some(GenericMetric { kind: Kind::Sum, name: "net_output_bytes_total", description: "The total number of bytes written to the network", micros: false })
    } else if key == "total_net_repl_input_bytes".spec_bytes() {
        Some(GenericMetric { kind: Kind::Sum, name: "net_repl_input_bytes_total", description: "The total number of bytes read from the network for replication purposes", micros: false })
    } else if key == "total_net_repl_output_bytes".spec_bytes() {
        Some(GenericMetric { kind: Kind::Sum, name: "net_repl_output_bytes_total", description: "The total number of bytes written to the network for replication purposes", micros: false })
    } else if key == "expired_subkeys".spec_bytes() {
        Some(GenericMetric { kind: Kind::Sum, name: "expired_subkeys_total", description: "The number of hash field expiration events", micros: false })
    } else if key == "expired_keys".spec_bytes() {
        Some(GenericMetric { kind: Kind::Sum, name: "expired_keys_total", description: "Total number of key expiration events", micros: false })
    } else if key == "expire_cycle_cpu_milliseconds".spec_bytes() {
        Some(GenericMetric { kind: Kind::Sum, name: "expire_cycle_cpu_time_ms_total", description: "The cumulative amount of time spent on active expiry cycles", micros: false })
    } else if key == "evicted_keys".spec_bytes() {
        Some(GenericMetric { kind: Kind::Sum, name: "evicted_keys_total", description: "Number of evicted keys due to maxmemory limit", micros: false })
    } else if key == "evicted_clients".spec_bytes() {
        Some(GenericMetric { kind: Kind::Sum, name: "evicted_clients_total", description: "Number of evicted clients due to maxmemory-clients limit", micros: false })
    } else if key == "evicted_scripts".spec_bytes() {
        Some(GenericMetric { kind: Kind::Sum, name: "evicted_scripts_total", description: "Number of evicted EVAL scripts due to LRU policy, see EVAL for more details", micros: false })
    } else if key == "total_eviction_exceeded_time".spec_bytes() {
        Some(GenericMetric { kind: Kind::Sum, name: "eviction_exceeded_time_ms_total", description: "Total time used_memory was greater than maxmemory since server startup, in milliseconds", micros: false })
    } else if key == "keyspace_hits".spec_bytes() {
        Some(GenericMetric { kind: Kind::Sum, name: "keyspace_hits_total", description: "Number of successful lookup of keys in the main dictionary", micros: false })
    } else if key == "keyspace_misses".spec_bytes() {
        Some(GenericMetric { kind: Kind::Sum, name: "keyspace_misses_total", description: "Number of failed lookup of keys in the main dictionary", micros: false })
    } else if key == "used_cpu_sys".spec_bytes() {
        Some(GenericMetric { kind: Kind::Sum, name: "cpu_sys_seconds_total", description: "System CPU consumed by the Redis server, which is the sum of system CPU consumed by all threads of the server process (main thread and background threads)", micros: false })
    } else if key == "used_cpu_user".spec_bytes() {
        Some(GenericMetric { kind: Kind::Sum, name: "cpu_user_seconds_total", description: "User CPU consumed by the Redis server, which is the sum of user CPU consumed by all threads of the server process (main thread and background threads)", micros: false })
    } else if key == "used_cpu_sys_children".spec_bytes() {
        Some(GenericMetric { kind: Kind::Sum, name: "cpu_sys_children_seconds_total", description: "System CPU consumed by the background processes", micros: false })
    } else if key == "used_cpu_user_children".spec_bytes() {
        Some(GenericMetric { kind: Kind::Sum, name: "cpu_user_children_seconds_total", description: "User CPU consumed by the background processes", micros: false })
    } else if key == "used_cpu_sys_main_thread".spec_bytes() {
        Some(GenericMetric { kind: Kind::Sum, name: "cpu_sys_main_thread_seconds_total", description: "System CPU consumed by the Redis server main thread", micros: false })
    } else if key == "used_cpu_user_main_thread".spec_bytes() {
        Some(GenericMetric { kind: Kind::Sum, name: "cpu_user_main_thread_seconds_total", description: "User CPU consumed by the Redis server main thread", micros: false })
    } else if key == "unexpected_error_replies".spec_bytes() {
        Some(GenericMetric { kind: Kind::Sum, name: "unexpected_error_replies", description: "Number of unexpected error replies, that are types of errors from an AOF load or replication", micros: false })
    } else if key == "total_error_replies".spec_bytes() {
        Some(GenericMetric { kind: Kind::Sum, name: "total_error_replies", description: "Total number of issued error replies, that is the sum of rejected commands (errors prior command execution) and failed commands (errors within the command execution)", micros: false })
    } else if key == "dump_payload_sanitizations".spec_bytes() {
        Some(GenericMetric { kind: Kind::Sum, name: "dump_payload_sanitizations", description: "Total number of dump payload deep integrity validations (see sanitize-dump-payload config)", micros: false })
    } else {
        None
    }
}

fn lookup_part_6(key: &[u8]) -> (r: Option<GenericMetric>)
    ensures
        r == table_part_6(key@),
{
    if bytes_eq(key, "search_gc_marked_deleted_vectors".as_bytes()) {
        Some(GenericMetric { kind: Kind::Gauge, name: "search_gc_marked_deleted_vectors", description: "The number of vectors marked as deleted in the vector indexes that have not yet been cleaned", micros: false })
    } else if bytes_eq(key, "search_errors_indexing_failures".as_bytes()) {
        Some(GenericMetric { kind: Kind::Gauge, name: "search_errors_indexing_failures", description: "The total number of indexing failures recorded across all indexes in the shard", micros: false })
    } else if bytes_eq(key, "total_connections_received".as_bytes()) {
        Some(GenericMetric { kind: Kind::Sum, name: "connections_received_total", description: "Total number of connections accepted by the server", micros: false })
    } else if bytes_eq(key, "total_commands_processed".as_bytes()) {
        Some(GenericMetric { kind: Kind::Sum, name: "commands_processed_total", description: "Total number of commands processed by the server", micros: false })
    } else if bytes_eq(key, "rejected_connections".as_bytes()) {
        Some(GenericMetric { kind: Kind::Sum, name: "rejected_connections_total", description: "Number of connections rejected because of maxclients limit", micros: false })
    } else if bytes_eq(key, "total_net_input_bytes".as_bytes()) {
        Some(GenericMetric { kind: Kind::Sum, name: "net_input_bytes_total", description: "The total number of bytes read from the network", micros: false })
    } else if bytes_eq(key, "total_net_output_bytes".as_bytes()) {
        Some(GenericMetric { kind: Kind::Sum, name: "net_output_bytes_total", description: "The total number of bytes written to the network", micros: false })
    } else if bytes_eq(key, "total_net_repl_input_bytes".as_bytes()) {
        Some(GenericMetric { kind: Kind::Sum, name: "net_repl_input_bytes_total", description: "The total number of bytes read from the network for replication purposes", micros: false })
    } else if bytes_eq(key, "total_net_repl_output_bytes".as_bytes()) {
        Some(GenericMetric { kind: Kind::Sum, name: "net_repl_output_bytes_total", description: "The total number of bytes written to the network for replication purposes", micros: false })
    } else if bytes_eq(key, "expired_subkeys".as_bytes()) {
        Some(GenericMetric { kind: Kind::Sum, name: "expired_subkeys_total", description: "The number of hash field expiration events", micros: false })
    } else if bytes_eq(key, "expired_keys".as_bytes()) {
        Some(GenericMetric { kind: Kind::Sum, name: "expired_keys_total", description: "Total number of key expiration events", micros: false })
    } else if bytes_eq(key, "expire_cycle_cpu_milliseconds".as_bytes()) {
        Some(GenericMetric { kind: Kind::Sum, name: "expire_cycle_cpu_time_ms_total", description: "The cumulative amount of time spent on active expiry cycles", micros: false })
    } else if bytes_eq(key, "evicted_keys".as_bytes()) {
        Some(GenericMetric { kind: Kind::Sum, name: "evicted_keys_total", description: "Number of evicted keys due to maxmemory limit", micros: false })
    } else if bytes_eq(key, "evicted_clients".as_bytes()) {
        Some(GenericMetric { kind: Kind::Sum, name: "evicted_clients_total", description: "Number of evicted clients due to maxmemory-clients limit", micros: false })
    } else if bytes_eq(key, "evicted_scripts".as_bytes()) {
        Some(GenericMetric { kind: Kind::Sum, name: "evicted_scripts_total", description: "Number of evicted EVAL scripts due to LRU policy, see EVAL for more details", micros: false })
    } else if bytes_eq(key, "total_eviction_exceeded_time".as_bytes()) {
        Some(GenericMetric { kind: Kind::Sum, name: "eviction_exceeded_time_ms_total", description: "Total time used_memory was greater than maxmemory since server startup, in milliseconds", micros: false })
    } else if bytes_eq(key, "keyspace_hits".as_bytes()) {
        Some(GenericMetric { kind: Kind::Sum, name: "keyspace_hits_total", description: "Number of successful lookup of keys in the main dictionary", micros: false })
    } else if bytes_eq(key, "keyspace_misses".as_bytes()) {
        Some(GenericMetric { kind: Kind::Sum, name: "keyspace_misses_total", description: "Number of failed lookup of keys in the main dictionary", micros: false })
    } else if bytes_eq(key, "used_cpu_sys".as_bytes()) {
        Some(GenericMetric { kind: Kind::Sum, name: "cpu_sys_seconds_total", description: "System CPU consumed by the Redis server, which is the sum of system CPU consumed by all threads of the server process (main thread and background threads)", micros: false })
    } else if bytes_eq(key, "used_cpu_user".as_bytes()) {
        Some(GenericMetric { kind: Kind::Sum, name: "cpu_user_seconds_total", description: "User CPU consumed by the Redis server, which is the sum of user CPU consumed by all threads of the server process (main thread and background threads)", micros: false })
    } else if bytes_eq(key, "used_cpu_sys_children".as_bytes()) {
        Some(GenericMetric { kind: Kind::Sum, name: "cpu_sys_children_seconds_total", description: "System CPU consumed by the background processes", micros: false })
    } else if bytes_eq(key, "used_cpu_user_children".as_bytes()) {
        Some(GenericMetric { kind: Kind::Sum, name: "cpu_user_children_seconds_total", description: "User CPU consumed by the background processes", micros: false })
    } else if bytes_eq(key, "used_cpu_sys_main_thread".as_bytes()) {
        Some(GenericMetric { kind: Kind::Sum, name: "cpu_sys_main_thread_seconds_total", description: "System CPU consumed by the Redis server main thread", micros: false })
    } else if bytes_eq(key, "used_cpu_user_main_thread".as_bytes()) {
        Some(GenericMetric { kind: Kind::Sum, name: "cpu_user_main_thread_seconds_total", description: "User CPU consumed by the Redis server main thread", micros: false })
    } else if bytes_eq(key, "unexpected_error_replies".as_bytes()) {
        Some(GenericMetric { kind: Kind::Sum, name: "unexpected_error_replies", description: "Number of unexpected error replies, that are types of errors from an AOF load or replication", micros: false })
    } else if bytes_eq(key, "total_error_replies".as_bytes()) {
        Some(GenericMetric { kind: Kind::Sum, name: "total_error_replies", description: "Total number of issued error replies, that is the sum of rejected commands (errors prior command execution) and failed commands (errors within the command execution)", micros: false })
    } else if bytes_eq(key, "dump_payload_sanitizations".as_bytes()) {
        Some(GenericMetric { kind: Kind::Sum, name: "dump_payload_sanitizations", description: "Total number of dump payload deep integrity validations (see sanitize-dump-payload config)", micros: false })
    } else {
        None
    }
}
/// The fields from `total_reads_processed` to `search_total_active_queries` of the table.
pub open spec fn table_part_7(key: Seq<u8>) -> Option<GenericMetric> {
    if key == "total_reads_processed".spec_bytes() {
        Some(GenericMetric { kind: Kind::Sum, name: "total_reads_processed", description: "Total number of read events processed", micros: false })
    } else if key == "total_writes_processed".spec_bytes() {
        Some(GenericMetric { kind: Kind::Sum, name: "total_writes_processed", description: "Total number of write events processed", micros: false })
    } else if key == "io_threaded_reads_processed".spec_bytes() {
        Some(GenericMetric { kind: Kind::Sum, name: "io_threaded_reads_processed", description: "Number of read events processed by I/O threads", micros: false })
    } else if key == "io_threaded_writes_processed".spec_bytes() {
        Some(GenericMetric { kind: Kind::Sum, name: "io_threaded_writes_processed", description: "Number of write events processed by I/O threads", micros: false })
    } else if key == "client_query_buffer_limit_disconnections".spec_bytes() {
        Some(GenericMetric { kind: Kind::Sum, name: "client_query_buffer_limit_disconnections_total", description: "Total number of disconnections due to client reaching query buffer limit", micros: false })
    } else if key == "client_output_buffer_limit_disconnections".spec_bytes() {
        Some(GenericMetric { kind: Kind::Sum, name: "client_output_buffer_limit_disconnections_total", description: "Total number of disconnections due to client reaching output buffer limit", micros: false })
    } else if key == "reply_buffer_shrinks".spec_bytes() {
        Some(GenericMetric { kind: Kind::Sum, name: "reply_buffer_shrinks_total", description: "Total number of output buffer shrinks", micros: false })
    } else if key == "reply_buffer_expands".spec_bytes() {
        Some(GenericMetric { kind: Kind::Sum, name: "reply_buffer_expands_total", description: "Total number of output buffer expands", micros: false })
    } else if key == "acl_access_denied_auth".spec_bytes() {
        Some(GenericMetric { kind: Kind::Sum, name: "acl_access_denied_auth_total", description: "Number of authentication failures", micros: false })
    } else if key == "acl_access_denied_cmd".spec_bytes() {
        Some(GenericMetric { kind: Kind::Sum, name: "acl_access_denied_cmd_total", description: "Number of commands rejected because of access denied to the command", micros: false })
    } else if key == "acl_access_denied_key".spec_bytes() {
        Some(GenericMetric { kind: Kind::Sum, name: "acl_access_denied_key_total", description: "Number of commands rejected because of access denied to a key", micros: false })
    } else if key == "acl_access_denied_channel".spec_bytes() {
        Some(GenericMetric { kind: Kind::Sum, name: "acl_access_denied_channel_total", description: "Number of commands rejected because of access denied to a channel", micros: false })
    } else if key == "cached_keys".spec_bytes() {
        Some(GenericMetric { kind: Kind::Sum, name: "cached_keys_total", description: "", micros: false })
    } else if key == "storage_provider_read_hits".spec_bytes() {
        Some(GenericMetric { kind: Kind::Sum, name: "storage_provider_read_hits", description: "", micros: false })
    } else if key == "storage_provider_read_misses".spec_bytes() {
        Some(GenericMetric { kind: Kind::Sum, name: "storage_provider_read_misses", description: "", micros: false })
    } else if key == "search_total_indexing_time".spec_bytes() {
        Some(GenericMetric { kind: Kind::Sum, name: "search_indexing_time_ms_total", description: "The total time spent on indexing operations, excluding the background indexing of vectors in the HNSW graph", micros: false })
    } else if key == "search_total_cycles".spec_bytes() {
        Some(GenericMetric { kind: Kind::Sum, name: "search_cycles_total", description: "The total number of garbage collection cycles executed", micros: false })
    } else if key == "search_total_ms_run".spec_bytes() {
        Some(GenericMetric { kind: Kind::Sum, name: "search_run_ms_total", description: "The total duration of all garbage collection cycles in the shard, measured in milliseconds", micros: false })
    } else if key == "search_gc_total_cycles".spec_bytes() {
        Some(GenericMetric { kind: Kind::Sum, name: "search_gc_cycles_total", description: "The total number of garbage collection cycles executed", micros: false })
    } else if key == "search_gc_total_ms_run".spec_bytes() {
        Some(GenericMetric { kind: Kind::Sum, name: "search_gc_run_ms_total", description: "The total duration of all garbage collection cycles in the shard, measured in milliseconds", micros: false })
    } else if key == "search_total_queries_processed".spec_bytes() {
        Some(GenericMetric { kind: Kind::Sum, name: "search_queries_processed_total", description: "The total number of successful query executions (When using cursors, not counting reading from existing cursors) in the shard", micros: false })
    } else if key == "search_total_query_commands".spec_bytes() {
        Some(GenericMetric { kind: Kind::Sum, name: "search_query_commands_total", description: "The total number of successful query command executions", micros: false })
    } else if key == "search_total_query_execution_time_ms".spec_bytes() {
        Some(GenericMetric { kind: Kind::Sum, name: "search_query_execution_time_ms_total", description: "The cumulative execution time of all query commands, including FT.SEARCH, FT.AGGREGATE, and FT.CURSOR READ, measured in ms", micros: false })
    } else if key == "search_total_active_queries".spec_bytes() {
        Some(GenericMetric { kind: Kind::Sum, name: "search_active_queries_total", description: "The total number of background queries currently being executed in the shard, excluding FT.CURSOR READ", micros: false })
    } else {
        None
    }
}

fn lookup_part_7(key: &[u8]) -> (r: Option<GenericMetric>)
    ensures
        r == table_part_7(key@),
{
    if bytes_eq(key, "total_reads_processed".as_bytes()) {
        Some(GenericMetric { kind: Kind::Sum, name: "total_reads_processed", description: "Total number of read events processed", micros: false })
    } else if bytes_eq(key, "total_writes_processed".as_bytes()) {
        Some(GenericMetric { kind: Kind::Sum, name: "total_writes_processed", description: "Total number of write events processed", micros: false })
    } else if bytes_eq(key, "io_threaded_reads_processed".as_bytes()) {
        Some(GenericMetric { kind: Kind::Sum, name: "io_threaded_reads_processed", description: "Number of read events processed by I/O threads", micros: false })
    } else if bytes_eq(key, "io_threaded_writes_processed".as_bytes()) {
        Some(GenericMetric { kind: Kind::Sum, name: "io_threaded_writes_processed", description: "Number of write events processed by I/O threads", micros: false })
    } else if bytes_eq(key, "client_query_buffer_limit_disconnections".as_bytes()) {
        Some(GenericMetric { kind: Kind::Sum, name: "client_query_buffer_limit_disconnections_total", description: "Total number of disconnections due to client reaching query buffer limit", micros: false })
    } else if bytes_eq(key, "client_output_buffer_limit_disconnections".as_bytes()) {
        Some(GenericMetric { kind: Kind::Sum, name: "client_output_buffer_limit_disconnections_total", description: "Total number of disconnections due to client reaching output buffer limit", micros: false })
    } else if bytes_eq(key, "reply_buffer_shrinks".as_bytes()) {
        Some(GenericMetric { kind: Kind::Sum, name: "reply_buffer_shrinks_total", description: "Total number of output buffer shrinks", micros: false })
    } else if bytes_eq(key, "reply_buffer_expands".as_bytes()) {
        Some(GenericMetric { kind: Kind::Sum, name: "reply_buffer_expands_total", description: "Total number of output buffer expands", micros: false })
    } else if bytes_eq(key, "acl_access_denied_auth".as_bytes()) {
        Some(GenericMetric { kind: Kind::Sum, name: "acl_access_denied_auth_total", description: "Number of authentication failures", micros: false })
    } else if bytes_eq(key, "acl_access_denied_cmd".as_bytes()) {
        Some(GenericMetric { kind: Kind::Sum, name: "acl_access_denied_cmd_total", description: "Number of commands rejected because of access denied to the command", micros: false })
    } else if bytes_eq(key, "acl_access_denied_key".as_bytes()) {
        Some(GenericMetric { kind: Kind::Sum, name: "acl_access_denied_key_total", description: "Number of commands rejected because of access denied to a key", micros: false })
    } else if bytes_eq(key, "acl_access_denied_channel".as_bytes()) {
        Some(GenericMetric { kind: Kind::Sum, name: "acl_access_denied_channel_total", description: "Number of commands rejected because of access denied to a channel", micros: false })
    } else if bytes_eq(key, "cached_keys".as_bytes()) {
        Some(GenericMetric { kind: Kind::Sum, name: "cached_keys_total", description: "", micros: false })
    } else if bytes_eq(key, "storage_provider_read_hits".as_bytes()) {
        Some(GenericMetric { kind: Kind::Sum, name: "storage_provider_read_hits", description: "", micros: false })
    } else if bytes_eq(key, "storage_provider_read_misses".as_bytes()) {
        Some(GenericMetric { kind: Kind::Sum, name: "storage_provider_read_misses", description: "", micros: false })
    } else if bytes_eq(key, "search_total_indexing_time".as_bytes()) {
        Some(GenericMetric { kind: Kind::Sum, name: "search_indexing_time_ms_total", description: "The total time spent on indexing operations, excluding the background indexing of vectors in the HNSW graph", micros: false })
    } else if bytes_eq(key, "search_total_cycles".as_bytes()) {
        Some(GenericMetric { kind: Kind::Sum, name: "search_cycles_total", description: "The total number of garbage collection cycles executed", micros: false })
    } else if bytes_eq(key, "search_total_ms_run".as_bytes()) {
        Some(GenericMetric { kind: Kind::Sum, name: "search_run_ms_total", description: "The total duration of all garbage collection cycles in the shard, measured in milliseconds", micros: false })
    } else if bytes_eq(key, "search_gc_total_cycles".as_bytes()) {
        Some(GenericMetric { kind: Kind::Sum, name: "search_gc_cycles_total", description: "The total number of garbage collection cycles executed", micros: false })
    } else if bytes_eq(key, "search_gc_total_ms_run".as_bytes()) {
        Some(GenericMetric { kind: Kind::Sum, name: "search_gc_run_ms_total", description: "The total duration of all garbage collection cycles in the shard, measured in milliseconds", micros: false })
    } else if bytes_eq(key, "search_total_queries_processed".as_bytes()) {
        Some(GenericMetric { kind: Kind::Sum, name: "search_queries_processed_total", description: "The total number of successful query executions (When using cursors, not counting reading from existing cursors) in the shard", micros: false })
    } else if bytes_eq(key, "search_total_query_commands".as_bytes()) {
        Some(GenericMetric { kind: Kind::Sum, name: "search_query_commands_total", description: "The total number of successful query command executions", micros: false })
    } else if bytes_eq(key, "search_total_query_execution_time_ms".as_bytes()) {
        Some(GenericMetric { kind: Kind::Sum, name: "search_query_execution_time_ms_total", description: "The cumulative execution time of all query commands, including FT.SEARCH, FT.AGGREGATE, and FT.CURSOR READ, measured in ms", micros: false })
    } else if bytes_eq(key, "search_total_active_queries".as_bytes()) {
        Some(GenericMetric { kind: Kind::Sum, name: "search_active_queries_total", description: "The total number of background queries currently being executed in the shard, excluding FT.CURSOR READ", micros: false })
    } else {
        None
    }
}
/// How the field `key` is reported, if it is one of the known fields: the
/// gauges are looked up before the counters.
pub open spec fn generic_metric_spec(key: Seq<u8>) -> Option<GenericMetric> {
    match table_part_0(key) { Some(m) => Some(m), None => match table_part_1(key) { Some(m) => Some(m), None => match table_part_2(key) { Some(m) => Some(m), None => match table_part_3(key) { Some(m) => Some(m), None => match table_part_4(key) { Some(m) => Some(m), None => match table_part_5(key) { Some(m) => Some(m), None => match table_part_6(key) { Some(m) => Some(m), None => table_part_7(key) } } } } } } }
}

/// How the field `key` is reported, if it is one of the known fields.
pub fn generic_metric(key: &[u8]) -> (r: Option<GenericMetric>)
    ensures
        r == generic_metric_spec(key@),
{
    if let Some(m) = lookup_part_0(key) {
        return Some(m);
    }
    if let Some(m) = lookup_part_1(key) {
        return Some(m);
    }
    if let Some(m) = lookup_part_2(key) {
        return Some(m);
    }
    if let Some(m) = lookup_part_3(key) {
        return Some(m);
    }
    if let Some(m) = lookup_part_4(key) {
        return Some(m);
    }
    if let Some(m) = lookup_part_5(key) {
        return Some(m);
    }
    if let Some(m) = lookup_part_6(key) {
        return Some(m);
    }
    lookup_part_7(key)
}

/// The value that a word stands for: 1 for `ok` and `true`, 0 for `err`,
/// `fail` and `false`; other values are numbers.
pub open spec fn word_value_spec(value: Seq<u8>) -> Option<u8> {
    if value == "ok".spec_bytes() || value == "true".spec_bytes() {
        Some(1)
    } else if value == "err".spec_bytes() || value == "fail".spec_bytes() || value
        == "false".spec_bytes() {
        Some(0)
    } else {
        None
    }
}

/// The value that the word `value` stands for, if it is one.
pub fn word_value(value: &[u8]) -> (r: Option<u8>)
    ensures
        r == word_value_spec(value@),
{
    if bytes_eq(value, "ok".as_bytes()) || bytes_eq(value, "true".as_bytes()) {
        Some(1)
    } else if bytes_eq(value, "err".as_bytes()) || bytes_eq(value, "fail".as_bytes()) || bytes_eq(
        value,
        "false".as_bytes(),
    ) {
        Some(0)
    } else {
        None
    }
}


} // verus!
