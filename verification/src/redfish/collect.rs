//! Which resources a Redfish collection reads.

use vstd::prelude::*;

use super::protocol::chassis::Chassis;
use super::protocol::system::System;
use super::protocol::Link;

verus! {

/// The resources below systems and chassis that are collected.
#[derive(Clone, Copy, Debug, PartialEq, Eq)]
pub struct CollectConfig {
    pub thermal: bool,
    pub power: bool,
    pub memory: bool,
    pub network: bool,
    pub simple_storage: bool,
    pub storage: bool,
}

impl Default for CollectConfig {
    /// Everything is collected.
    fn default() -> (r: Self)
        ensures
            r == (CollectConfig {
                thermal: true,
                power: true,
                memory: true,
                network: true,
                simple_storage: true,
                storage: true,
            }),
    {
        CollectConfig {
            thermal: true,
            power: true,
            storage: true,
            memory: true,
            network: true,
            simple_storage: true,
        }
    }
}

/// The path that a link names: its `@odata.id`, or its `href` when that is
/// empty.
pub open spec fn link_path(l: Link) -> Seq<char> {
    if l.odata_id_spec().len() == 0 {
        l.href_spec()
    } else {
        l.odata_id_spec()
    }
}

/// The path of the link `l` when `wanted`.
pub open spec fn wanted_path(wanted: bool, l: Option<Link>) -> Option<Seq<char>> {
    match l {
        Some(link) => if wanted {
            Some(link_path(link))
        } else {
            None
        },
        None => None,
    }
}

fn path_if<'a>(wanted: bool, l: &'a Option<Link>) -> (r: Option<&'a str>)
    ensures
        match wanted_path(wanted, *l) {
            Some(p) => r matches Some(s) && s@ == p,
            None => r is None,
        },
{
    match l {
        Some(link) => if wanted {
            Some(link.path())
        } else {
            None
        },
        None => None,
    }
}

/// The lists below a system that are read: its memory, network
/// interfaces, storage and simple storage, each where it is collected and
/// the system links it.
pub fn system_lists<'a>(config: &CollectConfig, system: &'a System) -> (r: (
    Option<&'a str>,
    Option<&'a str>,
    Option<&'a str>,
    Option<&'a str>,
))
    ensures
        match wanted_path(config.memory, system.memory) {
            Some(p) => r.0 matches Some(s) && s@ == p,
            None => r.0 is None,
        },
        match wanted_path(config.network, system.network_interfaces) {
            Some(p) => r.1 matches Some(s) && s@ == p,
            None => r.1 is None,
        },
        match wanted_path(config.storage, system.storage) {
            Some(p) => r.2 matches Some(s) && s@ == p,
            None => r.2 is None,
        },
        match wanted_path(config.simple_storage, system.simple_storage) {
            Some(p) => r.3 matches Some(s) && s@ == p,
            None => r.3 is None,
        },
{
    (
        path_if(config.memory, &system.memory),
        path_if(config.network, &system.network_interfaces),
        path_if(config.storage, &system.storage),
        path_if(config.simple_storage, &system.simple_storage),
    )
}

/// The resources below a chassis that are read: its thermal and power
/// resources, each where it is collected and the chassis links it.
pub fn chassis_resources<'a>(config: &CollectConfig, chassis: &'a Chassis) -> (r: (Option<&'a str>, Option<&'a str>))
    ensures
        match wanted_path(config.thermal, chassis.thermal) {
            Some(p) => r.0 matches Some(s) && s@ == p,
            None => r.0 is None,
        },
        match wanted_path(config.power, chassis.power) {
            Some(p) => r.1 matches Some(s) && s@ == p,
            None => r.1 is None,
        },
{
    (path_if(config.thermal, &chassis.thermal), path_if(config.power, &chassis.power))
}

} // verus!
