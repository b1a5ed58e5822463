//! PCI device locations and power states from /sys/bus/pci/devices.

use vstd::prelude::*;
use vstd::string::StringSliceAdditionalSpecFns;

use crate::metric::{gauge, push_gauge, push_tag, samples_view, tag_view, tags_view, Kind, Sample, SampleModel, TagModel, TagValue};
use crate::text::{
    dec_i32, dec_u32, dec_u64, has_prefix, hex_i32, hex_u32, parse_hex_i32, parse_hex_u32, parse_i32,
    parse_u32, parse_u64, split, split_bytes, trim_end_str_bytes, trim_end_ws, trim_str_bytes, trim_ws,
    views,
};
use super::Error;

verus! {

/// Where a device is attached: `segment:bus:device.function`, in hex.
#[derive(Clone, Copy, Debug, Default, PartialEq, Eq)]
pub struct Location {
    pub segment: i32,
    pub bus: i32,
    pub device: i32,
    pub function: i32,
}

/// The location that the text `b` names: split at every `:` and `.`, the
/// first four pieces are the hex segment, bus, device and function, and any
/// further piece is ignored.
pub open spec fn location_from(b: Seq<u8>) -> Option<Location> {
    let p = split(b, 0x3au8, 0x2eu8);
    if p.len() >= 4 && hex_i32(p[0]) is Some && hex_i32(p[1]) is Some && hex_i32(p[2]) is Some
        && hex_i32(p[3]) is Some {
        Some(
            Location {
                segment: hex_i32(p[0])->0,
                bus: hex_i32(p[1])->0,
                device: hex_i32(p[2])->0,
                function: hex_i32(p[3])->0,
            },
        )
    } else {
        None
    }
}

/// Parses a location such as `0000:00:02.1`.
pub fn parse_location(input: &str) -> (r: Option<Location>)
    ensures
        r == location_from(input.spec_bytes()),
{
    let parts = split_bytes(input.as_bytes(), 0x3au8, 0x2eu8);
    let ghost p = split(input.spec_bytes(), 0x3au8, 0x2eu8);
    proof {
        assert forall|k: int| 0 <= k < parts@.len() implies #[trigger] parts@[k]@ == p[k] by {
            assert(views(parts@)[k] == parts@[k]@);
        }
    }
    if parts.len() < 4 {
        return None;
    }
    let segment = match parse_hex_i32(parts[0]) {
        Some(v) => v,
        None => return None,
    };
    let bus = match parse_hex_i32(parts[1]) {
        Some(v) => v,
        None => return None,
    };
    let device = match parse_hex_i32(parts[2]) {
        Some(v) => v,
        None => return None,
    };
    let function = match parse_hex_i32(parts[3]) {
        Some(v) => v,
        None => return None,
    };
    Some(Location { segment, bus, device, function })
}

/// The PCI power state of a device.
#[derive(Clone, Copy, Debug, Default, PartialEq, Eq, Structural)]
pub enum PowerState {
    #[default]
    Unknown,
    Error,
    D0,
    D1,
    D2,
    D3Hot,
    D3Cold,
}

/// The state that a `power_state` file names once trimmed: one of the six
/// names the kernel writes, anything else being `Unknown`.
pub open spec fn state_named(content: Seq<u8>) -> PowerState {
    if content == seq![0x44u8, 0x30u8] {
        PowerState::D0
    } else if content == seq![0x44u8, 0x31u8] {
        PowerState::D1
    } else if content == seq![0x44u8, 0x32u8] {
        PowerState::D2
    } else if content == seq![0x44u8, 0x33u8, 0x68u8, 0x6fu8, 0x74u8] {
        PowerState::D3Hot
    } else if content == seq![0x44u8, 0x33u8, 0x63u8, 0x6fu8, 0x6cu8, 0x64u8] {
        PowerState::D3Cold
    } else if content == seq![0x65u8, 0x72u8, 0x72u8, 0x6fu8, 0x72u8] {
        PowerState::Error
    } else {
        PowerState::Unknown
    }
}

impl PowerState {
    /// The name the kernel writes for the state.
    pub open spec fn label(&self) -> &'static str {
        match self {
            PowerState::Unknown => "unknown",
            PowerState::Error => "error",
            PowerState::D0 => "D0",
            PowerState::D1 => "D1",
            PowerState::D2 => "D2",
            PowerState::D3Hot => "D3hot",
            PowerState::D3Cold => "D3cold",
        }
    }

    /// The name of the state.
    pub fn as_str(&self) -> (r: &'static str)
        ensures
            r == self.label(),
    {
        match self {
            PowerState::Unknown => "unknown",
            PowerState::Error => "error",
            PowerState::D0 => "D0",
            PowerState::D1 => "D1",
            PowerState::D2 => "D2",
            PowerState::D3Hot => "D3hot",
            PowerState::D3Cold => "D3cold",
        }
    }

    /// The state named by the (trimmed) content of a `power_state` file;
    /// a name other than the six known ones is `Unknown`.
    pub fn from_content(content: &[u8]) -> (r: PowerState)
        ensures
            r == state_named(content@),
    {
        let n = content.len();
        if n == 2 && content[0] == 0x44u8 && content[1] == 0x30u8 {
            assert(content@ =~= seq![0x44u8, 0x30u8]);
            PowerState::D0
        } else if n == 2 && content[0] == 0x44u8 && content[1] == 0x31u8 {
            assert(content@ =~= seq![0x44u8, 0x31u8]);
            PowerState::D1
        } else if n == 2 && content[0] == 0x44u8 && content[1] == 0x32u8 {
            assert(content@ =~= seq![0x44u8, 0x32u8]);
            PowerState::D2
        } else if n == 5 && content[0] == 0x44u8 && content[1] == 0x33u8 && content[2] == 0x68u8
            && content[3] == 0x6fu8 && content[4] == 0x74u8 {
            assert(content@ =~= seq![0x44u8, 0x33u8, 0x68u8, 0x6fu8, 0x74u8]);
            PowerState::D3Hot
        } else if n == 6 && content[0] == 0x44u8 && content[1] == 0x33u8 && content[2] == 0x63u8
            && content[3] == 0x6fu8 && content[4] == 0x6cu8 && content[5] == 0x64u8 {
            assert(content@ =~= seq![0x44u8, 0x33u8, 0x63u8, 0x6fu8, 0x6cu8, 0x64u8]);
            PowerState::D3Cold
        } else if n == 5 && content[0] == 0x65u8 && content[1] == 0x72u8 && content[2] == 0x72u8
            && content[3] == 0x6fu8 && content[4] == 0x72u8 {
            assert(content@ =~= seq![0x65u8, 0x72u8, 0x72u8, 0x6fu8, 0x72u8]);
            PowerState::Error
        } else {
            PowerState::Unknown
        }
    }
}

/// `s` without the `0x` prefixes at its start, as
/// `str::trim_start_matches("0x")` removes them.
pub open spec fn strip_hex_prefix(s: Seq<u8>) -> Seq<u8>
    decreases s.len(),
{
    if s.len() >= 2 && s[0] == 0x30u8 && s[1] == 0x78u8 {
        strip_hex_prefix(s.subrange(2, s.len() as int))
    } else {
        s
    }
}

/// The value of an identifier file (`class`, `vendor`, ...): the hex number
/// after any `0x`, trailing whitespace ignored.
pub open spec fn id_value(content: Seq<u8>) -> Option<u32> {
    hex_u32(strip_hex_prefix(trim_end_ws(content)))
}

/// Reads the content of an identifier file such as `0x060400\n`.
pub fn parse_id(content: &str) -> (r: Option<u32>)
    ensures
        r == id_value(content.spec_bytes()),
{
    let mut t = trim_end_str_bytes(content.as_bytes());
    while t.len() >= 2 && t[0] == 0x30u8 && t[1] == 0x78u8
        invariant
            strip_hex_prefix(t@) == strip_hex_prefix(trim_end_ws(content.spec_bytes())),
        decreases t@.len(),
    {
        let n = t.len();
        let rest = &t[2..n];
        assert(rest@ == t@.subrange(2, t@.len() as int));
        t = rest;
    }
    assert(strip_hex_prefix(t@) == t@);
    parse_hex_u32(t)
}

/// The bytes `pci`, which begin the name of a root bus.
pub open spec fn root_bus_prefix() -> Seq<u8> {
    seq![0x70u8, 0x63u8, 0x69u8]
}

/// The location of the device a device hangs off, from the name of its
/// parent directory: none where that is a root bus (`pci...`), else the
/// location the name gives.
pub fn parent_location(parent: &str) -> (r: Option<Location>)
    ensures
        r == (if has_prefix(parent.spec_bytes(), root_bus_prefix()) {
            None
        } else {
            location_from(parent.spec_bytes())
        }),
{
    let b = parent.as_bytes();
    if b.len() >= 3 && b[0] == 0x70u8 && b[1] == 0x63u8 && b[2] == 0x69u8 {
        assert(b@.subrange(0, 3) =~= root_bus_prefix());
        None
    } else {
        assert(b@.len() >= 3 ==> b@.subrange(0, 3)[0] == b@[0] && b@.subrange(0, 3)[1] == b@[1]
            && b@.subrange(0, 3)[2] == b@[2]);
        parse_location(parent)
    }
}

/// A file of a device directory that the collector reads.
#[derive(Clone, Copy, Debug, PartialEq, Eq)]
pub enum DeviceFile {
    Class,
    Vendor,
    Device,
    SubsystemVendor,
    SubsystemDevice,
    Revision,
    NumaNode,
    SriovDriversAutoprobe,
    SriovNumvfs,
    SriovOffset,
    SriovStride,
    SriovTotalvfs,
    SriovVfDevice,
    SriovVfTotalMsix,
    D3coldAllowed,
    PowerState,
}

impl DeviceFile {
    /// Whether every device directory has the file: the identifiers.
    pub open spec fn is_required(self) -> bool {
        match self {
            DeviceFile::Class | DeviceFile::Vendor | DeviceFile::Device
            | DeviceFile::SubsystemVendor | DeviceFile::SubsystemDevice | DeviceFile::Revision => true,
            _ => false,
        }
    }

    /// Whether every device directory has the file.
    pub fn required(&self) -> (r: bool)
        ensures
            r == self.is_required(),
    {
        match self {
            DeviceFile::Class | DeviceFile::Vendor | DeviceFile::Device
            | DeviceFile::SubsystemVendor | DeviceFile::SubsystemDevice | DeviceFile::Revision => true,
            _ => false,
        }
    }

    /// The name of the file in the device directory.
    pub open spec fn name_spec(self) -> &'static str {
        match self {
            DeviceFile::Class => "class",
            DeviceFile::Vendor => "vendor",
            DeviceFile::Device => "device",
            DeviceFile::SubsystemVendor => "subsystem_vendor",
            DeviceFile::SubsystemDevice => "subsystem_device",
            DeviceFile::Revision => "revision",
            DeviceFile::NumaNode => "numa_node",
            DeviceFile::SriovDriversAutoprobe => "sriov_drivers_autoprobe",
            DeviceFile::SriovNumvfs => "sriov_numvfs",
            DeviceFile::SriovOffset => "sriov_offset",
            DeviceFile::SriovStride => "sriov_stride",
            DeviceFile::SriovTotalvfs => "sriov_totalvfs",
            DeviceFile::SriovVfDevice => "sriov_vf_device",
            DeviceFile::SriovVfTotalMsix => "sriov_vf_total_msix",
            DeviceFile::D3coldAllowed => "d3cold_allowed",
            DeviceFile::PowerState => "power_state",
        }
    }

    /// The name of the file.
    pub fn file_name(&self) -> (r: &'static str)
        ensures
            r == self.name_spec(),
    {
        match self {
            DeviceFile::Class => "class",
            DeviceFile::Vendor => "vendor",
            DeviceFile::Device => "device",
            DeviceFile::SubsystemVendor => "subsystem_vendor",
            DeviceFile::SubsystemDevice => "subsystem_device",
            DeviceFile::Revision => "revision",
            DeviceFile::NumaNode => "numa_node",
            DeviceFile::SriovDriversAutoprobe => "sriov_drivers_autoprobe",
            DeviceFile::SriovNumvfs => "sriov_numvfs",
            DeviceFile::SriovOffset => "sriov_offset",
            DeviceFile::SriovStride => "sriov_stride",
            DeviceFile::SriovTotalvfs => "sriov_totalvfs",
            DeviceFile::SriovVfDevice => "sriov_vf_device",
            DeviceFile::SriovVfTotalMsix => "sriov_vf_total_msix",
            DeviceFile::D3coldAllowed => "d3cold_allowed",
            DeviceFile::PowerState => "power_state",
        }
    }
}

/// The files of a device directory in the order the collector reads them:
/// the identifiers, the NUMA node, the SR-IOV files, the power management
/// files.
pub open spec fn device_files_spec() -> Seq<DeviceFile> {
    seq![
        DeviceFile::Class,
        DeviceFile::Vendor,
        DeviceFile::Device,
        DeviceFile::SubsystemVendor,
        DeviceFile::SubsystemDevice,
        DeviceFile::Revision,
        DeviceFile::NumaNode,
        DeviceFile::SriovDriversAutoprobe,
        DeviceFile::SriovNumvfs,
        DeviceFile::SriovOffset,
        DeviceFile::SriovStride,
        DeviceFile::SriovTotalvfs,
        DeviceFile::SriovVfDevice,
        DeviceFile::SriovVfTotalMsix,
        DeviceFile::D3coldAllowed,
        DeviceFile::PowerState,
    ]
}

/// The files of a device directory, in reading order.
pub fn device_files() -> (r: Vec<DeviceFile>)
    ensures
        r@ == device_files_spec(),
{
    let r = vec![
        DeviceFile::Class,
        DeviceFile::Vendor,
        DeviceFile::Device,
        DeviceFile::SubsystemVendor,
        DeviceFile::SubsystemDevice,
        DeviceFile::Revision,
        DeviceFile::NumaNode,
        DeviceFile::SriovDriversAutoprobe,
        DeviceFile::SriovNumvfs,
        DeviceFile::SriovOffset,
        DeviceFile::SriovStride,
        DeviceFile::SriovTotalvfs,
        DeviceFile::SriovVfDevice,
        DeviceFile::SriovVfTotalMsix,
        DeviceFile::D3coldAllowed,
        DeviceFile::PowerState,
    ];
    assert(r@ =~= device_files_spec());
    r
}

/// What the integer files of /sys/bus/pci/devices/<location> tell of a
/// device. (The link speeds and widths, which are decimal fractions, are
/// read beside it.)
#[derive(Clone, Copy, Debug, PartialEq, Eq)]
pub struct Device {
    pub location: Location,
    pub parent_location: Option<Location>,
    pub class: u32,
    pub vendor: u32,
    pub device: u32,
    pub subsystem_vendor: u32,
    pub subsystem_device: u32,
    pub revision: u32,
    pub numa_node: Option<i32>,
    pub sriov_drivers_autoprobe: Option<u32>,
    pub sriov_numvfs: Option<u32>,
    pub sriov_offset: Option<u32>,
    pub sriov_stride: Option<u32>,
    pub sriov_totalvfs: Option<u32>,
    pub sriov_vf_device: Option<u32>,
    pub sriov_vf_total_msix: Option<u64>,
    pub d3cold_allowed: Option<u32>,
    pub power_state: Option<PowerState>,
}

/// The value of an optional numeric file whose blank content leaves the old
/// value in place.
pub open spec fn unless_blank<T>(old: Option<T>, t: Seq<u8>, parsed: Option<T>) -> Option<T> {
    if t.len() == 0 {
        old
    } else {
        parsed
    }
}

/// The device once `file`, holding `content`, has been read into it; `None`
/// where an identifier file does not hold a hex number. The other files hold
/// decimal numbers once trimmed (a value that is no number is absent), and
/// the SR-IOV and power management files leave the device as it is when
/// they are blank.
pub open spec fn with_file(d: Device, file: DeviceFile, content: Seq<u8>) -> Option<Device> {
    let t = trim_ws(content);
    match file {
        DeviceFile::Class => match id_value(content) {
            Some(v) => Some(Device { class: v, ..d }),
            None => None,
        },
        DeviceFile::Vendor => match id_value(content) {
            Some(v) => Some(Device { vendor: v, ..d }),
            None => None,
        },
        DeviceFile::Device => match id_value(content) {
            Some(v) => Some(Device { device: v, ..d }),
            None => None,
        },
        DeviceFile::SubsystemVendor => match id_value(content) {
            Some(v) => Some(Device { subsystem_vendor: v, ..d }),
            None => None,
        },
        DeviceFile::SubsystemDevice => match id_value(content) {
            Some(v) => Some(Device { subsystem_device: v, ..d }),
            None => None,
        },
        DeviceFile::Revision => match id_value(content) {
            Some(v) => Some(Device { revision: v, ..d }),
            None => None,
        },
        DeviceFile::NumaNode => Some(Device { numa_node: dec_i32(t), ..d }),
        DeviceFile::SriovDriversAutoprobe => Some(
            Device {
                sriov_drivers_autoprobe: unless_blank(d.sriov_drivers_autoprobe, t, dec_u32(t)),
                ..d
            },
        ),
        DeviceFile::SriovNumvfs => Some(
            Device { sriov_numvfs: unless_blank(d.sriov_numvfs, t, dec_u32(t)), ..d },
        ),
        DeviceFile::SriovOffset => Some(
            Device { sriov_offset: unless_blank(d.sriov_offset, t, dec_u32(t)), ..d },
        ),
        DeviceFile::SriovStride => Some(
            Device { sriov_stride: unless_blank(d.sriov_stride, t, dec_u32(t)), ..d },
        ),
        DeviceFile::SriovTotalvfs => Some(
            Device { sriov_totalvfs: unless_blank(d.sriov_totalvfs, t, dec_u32(t)), ..d },
        ),
        DeviceFile::SriovVfDevice => Some(
            Device { sriov_vf_device: unless_blank(d.sriov_vf_device, t, dec_u32(t)), ..d },
        ),
        DeviceFile::SriovVfTotalMsix => Some(
            Device { sriov_vf_total_msix: unless_blank(d.sriov_vf_total_msix, t, dec_u64(t)), ..d },
        ),
        DeviceFile::D3coldAllowed => Some(
            Device { d3cold_allowed: unless_blank(d.d3cold_allowed, t, dec_u32(t)), ..d },
        ),
        DeviceFile::PowerState => Some(
            Device { power_state: unless_blank(d.power_state, t, Some(state_named(t))), ..d },
        ),
    }
}

impl Device {
    /// A device at `location` of which no file has been read yet.
    pub fn new(location: Location, parent_location: Option<Location>) -> (r: Device)
        ensures
            r == (Device {
                location,
                parent_location,
                class: 0,
                vendor: 0,
                device: 0,
                subsystem_vendor: 0,
                subsystem_device: 0,
                revision: 0,
                numa_node: None,
                sriov_drivers_autoprobe: None,
                sriov_numvfs: None,
                sriov_offset: None,
                sriov_stride: None,
                sriov_totalvfs: None,
                sriov_vf_device: None,
                sriov_vf_total_msix: None,
                d3cold_allowed: None,
                power_state: None,
            }),
    {
        Device {
            location,
            parent_location,
            class: 0,
            vendor: 0,
            device: 0,
            subsystem_vendor: 0,
            subsystem_device: 0,
            revision: 0,
            numa_node: None,
            sriov_drivers_autoprobe: None,
            sriov_numvfs: None,
            sriov_offset: None,
            sriov_stride: None,
            sriov_totalvfs: None,
            sriov_vf_device: None,
            sriov_vf_total_msix: None,
            d3cold_allowed: None,
            power_state: None,
        }
    }

    /// Reads `content`, the content of `file`, into the device; an
    /// identifier that is no hex number is an error, and leaves the device
    /// as it was.
    pub fn apply(&mut self, file: DeviceFile, content: &str) -> (r: Result<(), Error>)
        ensures
            with_file(*old(self), file, content.spec_bytes()) matches Some(d) ==> r is Ok
                && *final(self) == d,
            with_file(*old(self), file, content.spec_bytes()) is None ==> r == Err::<(), Error>(
                Error::ParseInt,
            ) && *final(self) == *old(self),
    {
        let t = trim_str_bytes(content.as_bytes());
        match file {
            DeviceFile::Class => match parse_id(content) {
                Some(v) => {
                    self.class = v;
                    Ok(())
                },
                None => Err(Error::ParseInt),
            },
            DeviceFile::Vendor => match parse_id(content) {
                Some(v) => {
                    self.vendor = v;
                    Ok(())
                },
                None => Err(Error::ParseInt),
            },
            DeviceFile::Device => match parse_id(content) {
                Some(v) => {
                    self.device = v;
                    Ok(())
                },
                None => Err(Error::ParseInt),
            },
            DeviceFile::SubsystemVendor => match parse_id(content) {
                Some(v) => {
                    self.subsystem_vendor = v;
                    Ok(())
                },
                None => Err(Error::ParseInt),
            },
            DeviceFile::SubsystemDevice => match parse_id(content) {
                Some(v) => {
                    self.subsystem_device = v;
                    Ok(())
                },
                None => Err(Error::ParseInt),
            },
            DeviceFile::Revision => match parse_id(content) {
                Some(v) => {
                    self.revision = v;
                    Ok(())
                },
                None => Err(Error::ParseInt),
            },
            DeviceFile::NumaNode => {
                self.numa_node = parse_i32(t);
                Ok(())
            },
            DeviceFile::SriovDriversAutoprobe => {
                if t.len() > 0 {
                    self.sriov_drivers_autoprobe = parse_u32(t);
                }
                Ok(())
            },
            DeviceFile::SriovNumvfs => {
                if t.len() > 0 {
                    self.sriov_numvfs = parse_u32(t);
                }
                Ok(())
            },
            DeviceFile::SriovOffset => {
                if t.len() > 0 {
                    self.sriov_offset = parse_u32(t);
                }
                Ok(())
            },
            DeviceFile::SriovStride => {
                if t.len() > 0 {
                    self.sriov_stride = parse_u32(t);
                }
                Ok(())
            },
            DeviceFile::SriovTotalvfs => {
                if t.len() > 0 {
                    self.sriov_totalvfs = parse_u32(t);
                }
                Ok(())
            },
            DeviceFile::SriovVfDevice => {
                if t.len() > 0 {
                    self.sriov_vf_device = parse_u32(t);
                }
                Ok(())
            },
            DeviceFile::SriovVfTotalMsix => {
                if t.len() > 0 {
                    self.sriov_vf_total_msix = parse_u64(t);
                }
                Ok(())
            },
            DeviceFile::D3coldAllowed => {
                if t.len() > 0 {
                    self.d3cold_allowed = parse_u32(t);
                }
                Ok(())
            },
            DeviceFile::PowerState => {
                if t.len() > 0 {
                    self.power_state = Some(PowerState::from_content(t));
                }
                Ok(())
            },
        }
    }
}

/// A label holding the bits of an `i32` in hex, as `{:0N$x}` writes them.
pub open spec fn hex_label(v: i32, digits: u8) -> TagModel {
    TagModel::Hex { value: v as u32 as u64, digits, prefixed: false }
}

/// A label holding an identifier in hex after `0x`.
pub open spec fn id_label(v: u32, digits: u8) -> TagModel {
    TagModel::Hex { value: v as u64, digits, prefixed: true }
}

/// The labels naming a location: segment, bus, device and function.
pub open spec fn location_tags(l: Location) -> Seq<(&'static str, TagModel)> {
    seq![
        ("segment", hex_label(l.segment, 4)),
        ("bus", hex_label(l.bus, 2)),
        ("device", hex_label(l.device, 2)),
        ("function", hex_label(l.function, 1)),
    ]
}

/// The labels naming the parent's location, `*` each where there is none.
pub open spec fn parent_tags(p: Option<Location>) -> Seq<(&'static str, TagModel)> {
    match p {
        Some(l) => seq![
            ("parent_segment", hex_label(l.segment, 4)),
            ("parent_bus", hex_label(l.bus, 2)),
            ("parent_device", hex_label(l.device, 2)),
            ("parent_function", hex_label(l.function, 1)),
        ],
        None => seq![
            ("parent_segment", TagModel::Text("*")),
            ("parent_bus", TagModel::Text("*")),
            ("parent_device", TagModel::Text("*")),
            ("parent_function", TagModel::Text("*")),
        ],
    }
}

/// The labels of the information sample of a device.
pub open spec fn info_tags(d: Device) -> Seq<(&'static str, TagModel)> {
    location_tags(d.location) + seq![
        ("class_id", id_label(d.class, 6)),
        ("vendor_id", id_label(d.vendor, 4)),
        ("device_id", id_label(d.device, 4)),
        ("subsystem_vendor_id", id_label(d.subsystem_vendor, 4)),
        ("subsystem_device_id", id_label(d.subsystem_device, 4)),
        ("revision", id_label(d.revision, 2)),
    ] + parent_tags(d.parent_location)
}

/// The information sample of a device, whose value is always 1.
pub open spec fn info_sample(d: Device) -> SampleModel {
    gauge(
        "node_pcidevice_info",
        "Non-numeric data from /sys/bus/pci/devices/<location>, value is always 1.",
        1,
        info_tags(d),
    )
}

/// An optional count, 0 where absent.
pub open spec fn or_zero(v: Option<u32>) -> int {
    match v {
        Some(x) => x as int,
        None => 0,
    }
}

/// The samples of a device's power management and SR-IOV files, 0 each
/// where the file was absent.
pub open spec fn count_samples(d: Device) -> Seq<SampleModel> {
    let tags = location_tags(d.location);
    seq![
        gauge(
            "node_pcidevice_d3cold_allowed",
            "Whether the PCIe device supports D3cold power state (0/1).",
            or_zero(d.d3cold_allowed),
            tags,
        ),
        gauge(
            "node_pcidevice_sriov_drivers_autoprobe",
            "Whether SR-IOV drivers autoprobe is enabled for the device (0/1).",
            or_zero(d.sriov_drivers_autoprobe),
            tags,
        ),
        gauge(
            "node_pcidevice_sriov_numvfs",
            "Number of Virtual Functions (VFs) currently enabled for SR-IOV.",
            or_zero(d.sriov_numvfs),
            tags,
        ),
        gauge(
            "node_pcidevice_sriov_totalvfs",
            "Total number of Virtual Functions (VFs) supported by the device.",
            or_zero(d.sriov_totalvfs),
            tags,
        ),
        gauge(
            "node_pcidevice_sriov_vf_total_msix",
            "Total number of MSI-X vectors for Virtual Functions.",
            match d.sriov_vf_total_msix {
                Some(x) => x as int,
                None => 0,
            },
            tags,
        ),
    ]
}

/// The description of the power state samples.
pub open spec fn power_description() -> &'static str {
    "PCIe device power state, one of: D0, D1, D2, D3hot, D3cold, unknown or error."
}

/// The sample saying whether a device at `l` in state `p` is in state `s`.
pub open spec fn state_sample(l: Location, p: PowerState, s: PowerState) -> SampleModel {
    gauge(
        "node_pcidevice_power_state",
        power_description(),
        if p == s {
            1
        } else {
            0
        },
        location_tags(l).push(("state", TagModel::Text(s.label()))),
    )
}

/// One sample per state, in the order D0, D1, D2, D3hot, D3cold, unknown,
/// error, each 1 for the device's state and 0 for the others; none where
/// the state is unknown to the collector.
pub open spec fn power_samples(l: Location, p: Option<PowerState>) -> Seq<SampleModel> {
    match p {
        Some(s) => seq![
            state_sample(l, s, PowerState::D0),
            state_sample(l, s, PowerState::D1),
            state_sample(l, s, PowerState::D2),
            state_sample(l, s, PowerState::D3Hot),
            state_sample(l, s, PowerState::D3Cold),
            state_sample(l, s, PowerState::Unknown),
            state_sample(l, s, PowerState::Error),
        ],
        None => Seq::empty(),
    }
}

/// The NUMA node sample, where the node is known and not -1.
pub open spec fn numa_samples(d: Device) -> Seq<SampleModel> {
    match d.numa_node {
        Some(v) => if v != -1 {
            seq![
                gauge(
                    "node_pcidevice_numa_node",
                    "NUMA node number for the PCI device. -1 indicates unknown or not available.",
                    v as int,
                    location_tags(d.location),
                ),
            ]
        } else {
            Seq::empty()
        },
        None => Seq::empty(),
    }
}

/// The samples of a device that follow its link samples.
pub open spec fn state_samples_spec(d: Device) -> Seq<SampleModel> {
    count_samples(d) + power_samples(d.location, d.power_state) + numa_samples(d)
}

fn hex_of<'a>(v: i32, digits: u8) -> (r: TagValue<'a>)
    ensures
        tag_view(r) == hex_label(v, digits),
{
    TagValue::Hex { value: v as u32 as u64, digits, prefixed: false }
}

fn id_of<'a>(v: u32, digits: u8) -> (r: TagValue<'a>)
    ensures
        tag_view(r) == id_label(v, digits),
{
    TagValue::Hex { value: v as u64, digits, prefixed: true }
}

/// The labels naming a location.
pub fn location_tags_of<'a>(l: &Location) -> (r: Vec<(&'static str, TagValue<'a>)>)
    ensures
        tags_view(r@) == location_tags(*l),
{
    let mut r: Vec<(&'static str, TagValue<'a>)> = Vec::new();
    push_tag(&mut r, "segment", hex_of(l.segment, 4));
    push_tag(&mut r, "bus", hex_of(l.bus, 2));
    push_tag(&mut r, "device", hex_of(l.device, 2));
    push_tag(&mut r, "function", hex_of(l.function, 1));
    assert(tags_view(r@) =~= location_tags(*l));
    r
}

fn count_of(v: Option<u32>) -> (r: i128)
    ensures
        r == or_zero(v),
{
    match v {
        Some(x) => x as i128,
        None => 0,
    }
}

fn push_state<'a>(out: &mut Vec<Sample<'a>>, l: &Location, p: PowerState, s: PowerState)
    ensures
        samples_view(final(out)@) == samples_view(old(out)@).push(state_sample(*l, p, s)),
{
    let mut tags = location_tags_of(l);
    push_tag(&mut tags, "state", TagValue::Text(s.as_str()));
    let value: i128 = if p == s {
        1
    } else {
        0
    };
    push_gauge(
        out,
        "node_pcidevice_power_state",
        "PCIe device power state, one of: D0, D1, D2, D3hot, D3cold, unknown or error.",
        value,
        tags,
    );
}

fn push_power<'a>(out: &mut Vec<Sample<'a>>, l: &Location, p: Option<PowerState>)
    ensures
        samples_view(final(out)@) == samples_view(old(out)@) + power_samples(*l, p),
{
    let ghost before = samples_view(out@);
    match p {
        Some(s) => {
            push_state(out, l, s, PowerState::D0);
            push_state(out, l, s, PowerState::D1);
            push_state(out, l, s, PowerState::D2);
            push_state(out, l, s, PowerState::D3Hot);
            push_state(out, l, s, PowerState::D3Cold);
            push_state(out, l, s, PowerState::Unknown);
            push_state(out, l, s, PowerState::Error);
            assert(samples_view(out@) =~= before + power_samples(*l, p));
        },
        None => {
            assert(samples_view(out@) =~= before + power_samples(*l, p));
        },
    }
}

impl Device {
    /// The information sample of the device: its location, identifiers and
    /// parent's location.
    pub fn info_samples<'a>(&self) -> (r: Vec<Sample<'a>>)
        ensures
            samples_view(r@) == seq![info_sample(*self)],
    {
        let mut tags = location_tags_of(&self.location);
        push_tag(&mut tags, "class_id", id_of(self.class, 6));
        push_tag(&mut tags, "vendor_id", id_of(self.vendor, 4));
        push_tag(&mut tags, "device_id", id_of(self.device, 4));
        push_tag(&mut tags, "subsystem_vendor_id", id_of(self.subsystem_vendor, 4));
        push_tag(&mut tags, "subsystem_device_id", id_of(self.subsystem_device, 4));
        push_tag(&mut tags, "revision", id_of(self.revision, 2));
        match self.parent_location {
            Some(l) => {
                push_tag(&mut tags, "parent_segment", hex_of(l.segment, 4));
                push_tag(&mut tags, "parent_bus", hex_of(l.bus, 2));
                push_tag(&mut tags, "parent_device", hex_of(l.device, 2));
                push_tag(&mut tags, "parent_function", hex_of(l.function, 1));
            },
            None => {
                push_tag(&mut tags, "parent_segment", TagValue::Text("*"));
                push_tag(&mut tags, "parent_bus", TagValue::Text("*"));
                push_tag(&mut tags, "parent_device", TagValue::Text("*"));
                push_tag(&mut tags, "parent_function", TagValue::Text("*"));
            },
        }
        assert(tags_view(tags@) =~= info_tags(*self));
        let mut out: Vec<Sample<'a>> = Vec::new();
        push_gauge(
            &mut out,
            "node_pcidevice_info",
            "Non-numeric data from /sys/bus/pci/devices/<location>, value is always 1.",
            1,
            tags,
        );
        assert(samples_view(out@) =~= seq![info_sample(*self)]);
        out
    }

    /// The samples that follow the device's link samples: the power
    /// management and SR-IOV counts, the power state, the NUMA node.
    pub fn state_samples<'a>(&self) -> (r: Vec<Sample<'a>>)
        ensures
            samples_view(r@) == state_samples_spec(*self),
    {
        let mut out: Vec<Sample<'a>> = Vec::new();
        push_gauge(
            &mut out,
            "node_pcidevice_d3cold_allowed",
            "Whether the PCIe device supports D3cold power state (0/1).",
            count_of(self.d3cold_allowed),
            location_tags_of(&self.location),
        );
        push_gauge(
            &mut out,
            "node_pcidevice_sriov_drivers_autoprobe",
            "Whether SR-IOV drivers autoprobe is enabled for the device (0/1).",
            count_of(self.sriov_drivers_autoprobe),
            location_tags_of(&self.location),
        );
        push_gauge(
            &mut out,
            "node_pcidevice_sriov_numvfs",
            "Number of Virtual Functions (VFs) currently enabled for SR-IOV.",
            count_of(self.sriov_numvfs),
            location_tags_of(&self.location),
        );
        push_gauge(
            &mut out,
            "node_pcidevice_sriov_totalvfs",
            "Total number of Virtual Functions (VFs) supported by the device.",
            count_of(self.sriov_totalvfs),
            location_tags_of(&self.location),
        );
        let msix: i128 = match self.sriov_vf_total_msix {
            Some(x) => x as i128,
            None => 0,
        };
        push_gauge(
            &mut out,
            "node_pcidevice_sriov_vf_total_msix",
            "Total number of MSI-X vectors for Virtual Functions.",
            msix,
            location_tags_of(&self.location),
        );
        let ghost counts = samples_view(out@);
        assert(counts =~= count_samples(*self));
        push_power(&mut out, &self.location, self.power_state);
        let ghost powered = samples_view(out@);
        match self.numa_node {
            Some(v) => {
                if v != -1 {
                    push_gauge(
                        &mut out,
                        "node_pcidevice_numa_node",
                        "NUMA node number for the PCI device. -1 indicates unknown or not available.",
                        v as i128,
                        location_tags_of(&self.location),
                    );
                }
            },
            None => {},
        }
        assert(samples_view(out@) =~= powered + numa_samples(*self));
        assert(samples_view(out@) =~= state_samples_spec(*self));
        out
    }
}

} // verus!
