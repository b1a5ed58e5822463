//! The power control part of the `Power` resource of a chassis.

use vstd::prelude::*;

use crate::redfish::protocol::Status;

verus! {

/// The power limit of a chassis, in watts; no limit when `None`.
#[derive(Debug, PartialEq, Eq)]
pub struct PowerLimit {
    pub limit_in_watts: Option<i64>,
    /// `HardPowerOff`, `LogEventOnly`, `NoAction` or `Oem`.
    pub limit_exception: String,
    pub correction_in_ms: Option<i64>,
}

/// Power consumption over the last `interval_in_min` minutes, in watts.
#[derive(Debug, PartialEq, Eq)]
pub struct PowerMetrics {
    pub interval_in_min: Option<i64>,
    pub min_consumed_watts: Option<i64>,
    pub max_consumed_watts: Option<i64>,
    pub average_consumed_watts: Option<i64>,
}

/// Power reading and limiting of a chassis, in watts.
#[derive(Debug, PartialEq, Eq)]
pub struct PowerControl {
    pub name: String,
    pub power_consumed_watts: Option<i64>,
    pub power_requested_watts: Option<i64>,
    pub power_available_watts: Option<i64>,
    pub power_capacity_watts: Option<i64>,
    pub power_allocated_watts: Option<i64>,
    pub power_metrics: Option<PowerMetrics>,
    pub power_limit: Option<PowerLimit>,
}

/// What the source reads of a power supply besides its readings, which are
/// decimal fractions: its names and status.
#[derive(Debug, PartialEq, Eq)]
pub struct PowerSupplyInfo {
    pub member_id: Option<String>,
    pub name: String,
    pub model: Option<String>,
    pub manufacturer: Option<String>,
    pub firmware_version: Option<String>,
    pub serial_number: Option<String>,
    pub part_number: Option<String>,
    pub spare_part_number: Option<String>,
    pub status: Status,
}

} // verus!
