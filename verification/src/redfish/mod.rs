//! The Redfish (DMTF DSP0266) resources that the redfish source reads.

pub mod collect;
pub mod protocol;
pub mod samples;
