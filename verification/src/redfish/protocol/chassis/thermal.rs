//! The (deprecated) `Thermal` resource of a chassis.

use vstd::prelude::*;

use super::super::Status;

verus! {

/// A fan of the `Thermal` resource.
#[derive(Debug, PartialEq, Eq)]
pub struct Fan {
    /// The identifier of the member within the array.
    pub member_id: String,
    pub name: String,
    pub manufacturer: Option<String>,
    /// Whether the fan can be replaced while the equipment runs.
    pub hot_pluggable: Option<bool>,
    pub status: Status,
    /// The fan speed, in `reading_units`.
    pub reading: Option<i64>,
    /// `Percent` or `RPM`.
    pub reading_units: Option<String>,
    pub lower_threshold_critical: Option<i64>,
    pub lower_threshold_fatal: Option<i64>,
    pub lower_threshold_non_critical: Option<i64>,
}

/// A temperature sensor of the `Thermal` resource; readings in °C.
#[derive(Debug, PartialEq, Eq)]
pub struct Temperature {
    pub member_id: String,
    pub name: String,
    pub status: Status,
    /// `None` when the sensor is disabled.
    pub reading_celsius: Option<i64>,
    pub upper_threshold_non_critical: Option<i64>,
    pub upper_threshold_critical: Option<i64>,
    pub upper_threshold_fatal: Option<i64>,
    pub min_reading_range_temp: Option<i64>,
    pub max_reading_range_temp: Option<i64>,
}

/// The `Thermal` resource: fans and temperature sensors (none when absent).
#[derive(Debug, PartialEq, Eq)]
pub struct Thermal {
    pub id: String,
    pub name: String,
    pub fans: Vec<Fan>,
    pub temperatures: Vec<Temperature>,
}

} // verus!
