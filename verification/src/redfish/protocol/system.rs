//! The `ComputerSystem` resource and the memory, network and storage
//! resources below it.

use vstd::prelude::*;

use super::{Link, Status};

verus! {

/// A computer system. Members that default to the empty string when absent
/// are `String`; the others are `Option`.
#[derive(Debug, PartialEq, Eq)]
pub struct System {
    pub id: String,
    pub name: String,
    pub system_type: String,
    pub manufacturer: String,
    pub model: String,
    /// JSON member `SKU`.
    pub sku: String,
    pub serial_number: String,
    pub part_number: String,
    /// JSON member `UUID`.
    pub uuid: String,
    pub host_name: String,
    pub asset_tag: String,
    pub status: Option<Status>,
    /// `Off`, `On`, `Paused`, `PoweringOff` or `PoweringOn`.
    pub power_state: Option<String>,
    pub bios_version: String,
    pub memory: Option<Link>,
    pub network_interfaces: Option<Link>,
    pub storage: Option<Link>,
    pub simple_storage: Option<Link>,
}

/// Where a memory device is connected.
#[derive(Debug, PartialEq, Eq)]
pub struct MemoryLocation {
    pub socket: usize,
    pub memory_controller: usize,
    pub channel: usize,
    pub slot: usize,
}

/// The alarms raised by a memory device since the system last reset.
#[derive(Debug, PartialEq, Eq)]
pub struct AlarmTrips {
    pub address_parity_error: bool,
    /// JSON member `CorrectableECCError`.
    pub correctable_ecc_error: bool,
    pub spare_block: bool,
    pub temperature: bool,
    /// JSON member `UncorrectableECCError`.
    pub uncorrectable_ecc_error: bool,
}

/// A memory device; numbers default to 0 and strings to empty when absent.
#[derive(Debug, PartialEq, Eq)]
pub struct Memory {
    pub id: String,
    pub name: String,
    pub rank_count: u64,
    /// Capacity in MiB; JSON member `CapacityMiB`.
    pub capacity_mib: usize,
    pub data_width_bits: usize,
    pub bus_width_bits: usize,
    pub error_correction: String,
    pub memory_type: String,
    pub memory_device_type: String,
    pub base_module_type: String,
    /// Operating speed in MHz or MT/s.
    pub operating_speed_mhz: i64,
    pub memory_location: Option<MemoryLocation>,
    pub metrics: Option<Link>,
    pub status: Status,
}

/// A network interface of a system.
#[derive(Debug, PartialEq, Eq)]
pub struct NetworkInterface {
    pub id: String,
    pub name: String,
    pub status: Status,
}

/// A storage controller; `member_id` is empty when absent.
#[derive(Debug, PartialEq, Eq)]
pub struct StorageController {
    pub member_id: String,
    pub name: String,
    pub status: Status,
    pub manufacturer: Option<String>,
    pub model: Option<String>,
    pub serial_number: Option<String>,
    pub part_number: Option<String>,
    pub speed_gbps: Option<usize>,
    pub firmware_version: Option<String>,
}

/// A drive.
#[derive(Debug, PartialEq, Eq)]
pub struct StorageDevice {
    pub id: String,
    pub name: String,
    pub model: Option<String>,
    pub revision: Option<String>,
    pub capacity_bytes: Option<usize>,
    /// Whether the drive predicts a failure in the near future.
    pub failure_predicted: Option<usize>,
    pub protocol: Option<String>,
    pub media_type: Option<String>,
    pub manufacturer: Option<String>,
    pub serial_number: Option<String>,
    pub part_number: Option<String>,
    pub encryption_ability: Option<String>,
    pub encryption_status: Option<String>,
    /// Rotation speed in RPM; JSON member `RotationSpeedRPM`.
    pub rotation_speed_rpm: Option<usize>,
    pub block_size_bytes: Option<usize>,
    pub capable_speed_gbs: Option<usize>,
    pub negotiated_speed_gbs: Option<usize>,
    pub status: Status,
}

/// A volume.
#[derive(Debug, PartialEq, Eq)]
pub struct StorageVolume {
    pub id: String,
    pub name: String,
    pub status: Status,
    /// JSON member `RAIDType`.
    pub raid_type: Option<String>,
    pub capacity_bytes: Option<usize>,
}

/// A storage subsystem: its controllers, the links to its drives (none
/// when absent) and to its volumes.
#[derive(Debug, PartialEq, Eq)]
pub struct Storage {
    pub id: String,
    pub name: String,
    pub status: Status,
    pub storage_controllers: Vec<StorageController>,
    pub drives: Vec<Link>,
    pub volumes: Option<Link>,
}

/// A device of a simple storage.
#[derive(Debug, PartialEq, Eq)]
pub struct Device {
    pub name: String,
    pub status: Status,
    pub manufacturer: Option<String>,
    pub model: Option<String>,
    pub capacity_bytes: Option<usize>,
}

/// A simple storage subsystem and its devices.
#[derive(Debug, PartialEq, Eq)]
pub struct SimpleStorage {
    pub id: String,
    pub name: String,
    pub status: Status,
    pub devices: Vec<Device>,
}

} // verus!
