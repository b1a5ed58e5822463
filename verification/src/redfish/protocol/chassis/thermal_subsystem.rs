//! The `ThermalSubsystem` resource of a chassis.

use vstd::prelude::*;

use super::super::{Link, Status};

verus! {

/// The speed of a fan; each member is 0 when absent.
#[derive(Debug, PartialEq, Eq)]
pub struct SpeedPercent {
    pub reading: i64,
    /// JSON member `SpeedRPM`.
    pub speed_rpm: i64,
}

/// A fan of the `ThermalSubsystem`.
#[derive(Debug, PartialEq, Eq)]
pub struct Fan {
    pub id: String,
    pub name: String,
    pub model: Option<String>,
    pub manufacturer: Option<String>,
    pub part_number: Option<String>,
    pub spare_part_number: Option<String>,
    pub speed_percent: SpeedPercent,
    pub status: Status,
}

/// The `ThermalSubsystem` resource.
#[derive(Debug, PartialEq, Eq)]
pub struct ThermalSubsystem {
    pub id: String,
    pub name: String,
    pub fans: Option<Link>,
    pub status: Status,
}

} // verus!
