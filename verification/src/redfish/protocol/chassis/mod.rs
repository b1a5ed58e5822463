//! The `Chassis` resource and the thermal and power resources below it.

pub mod power;
pub mod thermal;
pub mod thermal_subsystem;

use vstd::prelude::*;

use super::{Link, Status};

verus! {

/// A chassis: enclosure, blade, rack, ...
#[derive(Debug, PartialEq, Eq)]
pub struct Chassis {
    pub id: String,
    pub name: String,
    pub chassis_type: Option<String>,
    pub asset_tag: Option<String>,
    pub manufacturer: Option<String>,
    pub model: Option<String>,
    /// JSON member `SKU`.
    pub sku: Option<String>,
    pub serial_number: Option<String>,
    pub part_number: Option<String>,
    pub power_state: Option<String>,
    /// The deprecated `Thermal` resource; `ThermalSubsystem` replaces it.
    pub thermal: Option<Link>,
    pub power: Option<Link>,
    pub status: Option<Status>,
}

} // verus!
