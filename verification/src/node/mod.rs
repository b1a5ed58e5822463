//! Parsers for the procfs and sysfs files that the node collectors read.

pub mod schedstat;
pub mod slabinfo;
pub mod sockstat;
pub mod softirqs;
pub mod softnet;
pub mod nfs;
pub mod nfsd;
pub mod nvme;
pub mod os_release;
pub mod pcidevice;
pub mod powersupplyclass;
pub mod processes;
pub mod rapl;
pub mod stat;
pub mod swap;
pub mod tcpstat;
pub mod udp_queues;
pub mod vmstat;
pub mod xfrm;
pub mod xfs;
pub mod zfs;
pub mod zoneinfo;

use vstd::prelude::*;

verus! {

/// Why a procfs/sysfs text could not be turned into statistics.
#[derive(Debug, PartialEq, Eq)]
pub enum Error {
    /// A line lacks the field that the message names, or has the wrong shape.
    Malformed(&'static str),
    /// A field that must hold an integer does not.
    ParseInt,
    /// A line's values do not fit the record that the message names.
    Invalid(&'static str),
    /// The text holds no data.
    NoData,
}

} // verus!
