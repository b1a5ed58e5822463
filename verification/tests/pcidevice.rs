use vertex_sources::metric::{Kind, Sample, TagValue};
use vertex_sources::node::pcidevice::{
    device_files, parent_location, parse_id, Device, DeviceFile, Location, PowerState,
};
use vertex_sources::node::Error;

fn tag<'a>(sample: &Sample<'a>, key: &str) -> Option<TagValue<'a>> {
    sample.tags.iter().find(|(k, _)| *k == key).map(|(_, v)| *v)
}

fn bridge() -> Location {
    Location {
        segment: 0,
        bus: 0,
        device: 2,
        function: 1,
    }
}

/// Reads the files of the first device of the sysfs fixture the collector
/// was written against.
fn first_device() -> Device {
    let mut device = Device::new(bridge(), parent_location("pci0000:00"));
    let files = [
        (DeviceFile::Class, "0x060400\n"),
        (DeviceFile::Vendor, "0x1022\n"),
        (DeviceFile::Device, "0x1634\n"),
        (DeviceFile::SubsystemVendor, "0x17aa\n"),
        (DeviceFile::SubsystemDevice, "0x5095\n"),
        (DeviceFile::Revision, "0x00\n"),
        (DeviceFile::NumaNode, "-1\n"),
        (DeviceFile::SriovDriversAutoprobe, "0\n"),
        (DeviceFile::SriovNumvfs, "0\n"),
        (DeviceFile::SriovTotalvfs, "0\n"),
        (DeviceFile::SriovVfTotalMsix, "0\n"),
        (DeviceFile::D3coldAllowed, "1\n"),
        (DeviceFile::PowerState, "D0\n"),
    ];
    for (file, content) in files {
        device.apply(file, content).unwrap();
    }
    device
}

#[test]
fn id_files() {
    assert_eq!(parse_id("0x060400\n"), Some(0x060400));
    assert_eq!(parse_id("0x00\n"), Some(0));
    assert_eq!(parse_id("1022"), Some(0x1022));
    // every leading 0x goes
    assert_eq!(parse_id("0x0x17aa"), Some(0x17aa));
    assert_eq!(parse_id("0xzz\n"), None);
    assert_eq!(parse_id("0x"), None);
    assert_eq!(parse_id(""), None);
}

#[test]
fn parents() {
    assert_eq!(parent_location("pci0000:00"), None);
    assert_eq!(parent_location("0000:00:02.1"), Some(bridge()));
    assert_eq!(parent_location("usb1"), None);
}

#[test]
fn files_in_reading_order() {
    let files = device_files();
    assert_eq!(files.len(), 16);
    assert_eq!(files[0], DeviceFile::Class);
    assert_eq!(files[15], DeviceFile::PowerState);
    assert_eq!(files[0].file_name(), "class");
    assert_eq!(files[14].file_name(), "d3cold_allowed");
    assert!(files[5].required());
    assert!(!files[6].required());
}

#[test]
fn devices() {
    let device = first_device();
    assert_eq!(
        device,
        Device {
            location: bridge(),
            parent_location: None,
            class: 0x060400,
            vendor: 0x1022,
            device: 0x1634,
            subsystem_vendor: 0x17aa,
            subsystem_device: 0x5095,
            revision: 0x00,
            numa_node: Some(-1),
            sriov_drivers_autoprobe: Some(0),
            sriov_numvfs: Some(0),
            sriov_offset: None,
            sriov_stride: None,
            sriov_totalvfs: Some(0),
            sriov_vf_device: None,
            sriov_vf_total_msix: Some(0),
            d3cold_allowed: Some(1),
            power_state: Some(PowerState::D0),
        }
    );

    let mut nic = Device::new(
        Location {
            segment: 0,
            bus: 0x45,
            device: 0,
            function: 0,
        },
        parent_location("0000:40:01.3"),
    );
    let files = [
        (DeviceFile::Class, "0x020000\n"),
        (DeviceFile::Vendor, "0x8086\n"),
        (DeviceFile::Device, "0x1521\n"),
        (DeviceFile::SubsystemVendor, "0x8086\n"),
        (DeviceFile::SubsystemDevice, "0x00a3\n"),
        (DeviceFile::Revision, "0x01\n"),
        (DeviceFile::NumaNode, "0\n"),
        (DeviceFile::SriovDriversAutoprobe, "1\n"),
        (DeviceFile::SriovNumvfs, "0\n"),
        (DeviceFile::SriovOffset, "128\n"),
        (DeviceFile::SriovStride, "4\n"),
        (DeviceFile::SriovTotalvfs, "7\n"),
        (DeviceFile::SriovVfDevice, "1520\n"),
        (DeviceFile::SriovVfTotalMsix, "0\n"),
        (DeviceFile::D3coldAllowed, "1\n"),
        (DeviceFile::PowerState, "D0\n"),
    ];
    for (file, content) in files {
        nic.apply(file, content).unwrap();
    }
    assert_eq!(
        nic,
        Device {
            location: Location {
                segment: 0,
                bus: 0x45,
                device: 0,
                function: 0,
            },
            parent_location: Some(Location {
                segment: 0,
                bus: 0x40,
                device: 1,
                function: 3,
            }),
            class: 0x020000,
            vendor: 0x8086,
            device: 0x1521,
            subsystem_vendor: 0x8086,
            subsystem_device: 0x00a3,
            revision: 0x01,
            numa_node: Some(0),
            sriov_drivers_autoprobe: Some(1),
            sriov_numvfs: Some(0),
            sriov_offset: Some(128),
            sriov_stride: Some(4),
            sriov_totalvfs: Some(7),
            sriov_vf_device: Some(1520),
            sriov_vf_total_msix: Some(0),
            d3cold_allowed: Some(1),
            power_state: Some(PowerState::D0),
        }
    );
}

#[test]
fn bad_identifier_is_an_error() {
    let mut device = Device::new(bridge(), None);
    assert_eq!(device.apply(DeviceFile::Vendor, "vendor\n"), Err(Error::ParseInt));
    assert_eq!(device.vendor, 0);
}

#[test]
fn blank_optional_files_leave_values() {
    let mut device = Device::new(bridge(), None);
    device.apply(DeviceFile::SriovNumvfs, "4\n").unwrap();
    device.apply(DeviceFile::SriovNumvfs, "  \n").unwrap();
    assert_eq!(device.sriov_numvfs, Some(4));
    device.apply(DeviceFile::SriovNumvfs, "many\n").unwrap();
    assert_eq!(device.sriov_numvfs, None);
    device.apply(DeviceFile::PowerState, "\n").unwrap();
    assert_eq!(device.power_state, None);
    device.apply(DeviceFile::PowerState, "D3hot\n").unwrap();
    assert_eq!(device.power_state, Some(PowerState::D3Hot));
    device.apply(DeviceFile::PowerState, "sleepy").unwrap();
    assert_eq!(device.power_state, Some(PowerState::Unknown));
    device.apply(DeviceFile::NumaNode, " 1 ").unwrap();
    assert_eq!(device.numa_node, Some(1));
}

#[test]
fn info_sample() {
    let device = first_device();
    let samples = device.info_samples();
    assert_eq!(samples.len(), 1);
    let info = &samples[0];
    assert_eq!(info.name, "node_pcidevice_info");
    assert_eq!(info.value, 1);
    assert_eq!(info.kind, Kind::Gauge);
    assert_eq!(tag(info, "segment"), Some(TagValue::Hex { value: 0, digits: 4, prefixed: false }));
    assert_eq!(tag(info, "function"), Some(TagValue::Hex { value: 1, digits: 1, prefixed: false }));
    assert_eq!(
        tag(info, "class_id"),
        Some(TagValue::Hex { value: 0x060400, digits: 6, prefixed: true })
    );
    assert_eq!(tag(info, "parent_bus"), Some(TagValue::Text("*")));

    let child = Device::new(
        Location {
            segment: 0,
            bus: 1,
            device: 0,
            function: 0,
        },
        parent_location("0000:00:02.1"),
    );
    let samples = child.info_samples();
    assert_eq!(
        tag(&samples[0], "parent_function"),
        Some(TagValue::Hex { value: 1, digits: 1, prefixed: false })
    );
}

#[test]
fn state_samples() {
    let device = first_device();
    let samples = device.state_samples();
    // five counts and seven power states; the NUMA node is -1
    assert_eq!(samples.len(), 12);
    assert_eq!(samples[0].name, "node_pcidevice_d3cold_allowed");
    assert_eq!(samples[0].value, 1);
    assert_eq!(samples[2].name, "node_pcidevice_sriov_numvfs");
    let states: Vec<(TagValue, i128)> =
        samples[5..].iter().map(|s| (tag(s, "state").unwrap(), s.value)).collect();
    assert_eq!(
        states,
        vec![
            (TagValue::Text("D0"), 1),
            (TagValue::Text("D1"), 0),
            (TagValue::Text("D2"), 0),
            (TagValue::Text("D3hot"), 0),
            (TagValue::Text("D3cold"), 0),
            (TagValue::Text("unknown"), 0),
            (TagValue::Text("error"), 0),
        ]
    );

    let mut other = Device::new(bridge(), None);
    other.apply(DeviceFile::NumaNode, "0\n").unwrap();
    let samples = other.state_samples();
    // no power state file: only the counts, which are 0, and the node
    assert_eq!(samples.len(), 6);
    assert_eq!(samples[4].value, 0);
    assert_eq!(samples[5].name, "node_pcidevice_numa_node");
    assert_eq!(samples[5].value, 0);
}
