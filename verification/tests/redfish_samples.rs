use vertex_sources::metric::{Kind, Sample, TagValue};
use vertex_sources::redfish::collect::{chassis_resources, system_lists, CollectConfig};
use vertex_sources::redfish::protocol::chassis::thermal::{Fan, Temperature, Thermal};
use vertex_sources::redfish::protocol::chassis::power::PowerSupplyInfo;
use vertex_sources::redfish::protocol::chassis::Chassis;
use vertex_sources::redfish::protocol::system::{
    AlarmTrips, Device, Memory, MemoryLocation, NetworkInterface, SimpleStorage, Storage,
    StorageController, StorageDevice, System,
};
use vertex_sources::redfish::protocol::{Link, Status};
use vertex_sources::redfish::samples::{
    chassis_member_ids_of, chassis_samples, drive_samples, memory_health_samples, memory_samples,
    network_samples, power_supply_samples, simple_storage_samples, storage_samples, system_samples,
    thermal_samples,
};

fn status(state: &str, health: Option<&str>) -> Status {
    Status { health: health.map(str::to_string), state: state.to_string() }
}

fn names<'a>(samples: &[Sample<'a>]) -> Vec<(&'static str, i128)> {
    samples.iter().map(|s| (s.name, s.value)).collect()
}

fn tag<'a>(sample: &Sample<'a>, key: &str) -> Option<TagValue<'a>> {
    sample.tags.iter().find(|(k, _)| *k == key).map(|(_, v)| *v)
}

fn fan(name: &str, state: &str, reading: Option<i64>) -> Fan {
    Fan {
        member_id: format!("{name}-id"),
        name: name.to_string(),
        manufacturer: None,
        hot_pluggable: Some(true),
        status: status(state, Some("OK")),
        reading,
        reading_units: Some("RPM".to_string()),
        lower_threshold_critical: Some(500),
        lower_threshold_fatal: None,
        lower_threshold_non_critical: None,
    }
}

#[test]
fn thermal_fans_and_temperatures() {
    let thermal = Thermal {
        id: "Thermal".to_string(),
        name: "Thermal".to_string(),
        fans: vec![fan("Fan1", "Enabled", Some(4200)), fan("Fan2", "Absent", None)],
        temperatures: vec![Temperature {
            member_id: "0".to_string(),
            name: "Inlet".to_string(),
            status: status("Enabled", Some("Warning")),
            reading_celsius: Some(23),
            upper_threshold_non_critical: None,
            upper_threshold_critical: Some(42),
            upper_threshold_fatal: None,
            min_reading_range_temp: None,
            max_reading_range_temp: None,
        }],
    };
    let samples = thermal_samples("1", &thermal);
    assert_eq!(
        names(&samples),
        vec![
            ("redfish_system_thermal_fan_info", 1),
            ("redfish_chassis_fan_state", 1),
            ("redfish_chassis_fan_health", 1),
            ("redfish_chassis_fan_speed", 4200),
            ("redfish_chassis_fan_lower_threshold_critical", 500),
            ("redfish_system_thermal_fan_info", 1),
            ("redfish_chassis_fan_state", 0),
            ("redfish_chassis_temperature_health", 0),
            ("redfish_chassis_temperature_state", 1),
            ("redfish_chassis_temperature_upper_threshold_critical", 42),
            ("redfish_chassis_temperature_celsius", 23),
        ]
    );
    assert_eq!(tag(&samples[0], "chassis"), Some(TagValue::Field(b"1")));
    assert_eq!(tag(&samples[0], "hot_pluggable"), Some(TagValue::Text("true")));
    assert_eq!(tag(&samples[0], "manufacturer"), Some(TagValue::Field(b"")));
    assert_eq!(tag(&samples[3], "member_id"), Some(TagValue::Field(b"Fan1-id")));
    assert!(samples.iter().all(|s| s.kind == Kind::Gauge));
}

fn system(status: Option<Status>, power: Option<&str>) -> System {
    System {
        id: "437XR1138R2".to_string(),
        name: "WebFrontEnd483".to_string(),
        system_type: "Physical".to_string(),
        manufacturer: "Contoso".to_string(),
        model: "3500RX".to_string(),
        sku: "8675309".to_string(),
        serial_number: "437XR1138R2".to_string(),
        part_number: "224071-J23".to_string(),
        uuid: "38947555-7742-3448-3784-823347823834".to_string(),
        host_name: "web483".to_string(),
        asset_tag: "Chicago-45Z-2381".to_string(),
        status,
        power_state: power.map(str::to_string),
        bios_version: "P79 v1.33 (02/28/2015)".to_string(),
        memory: None,
        network_interfaces: None,
        storage: None,
        simple_storage: None,
    }
}

#[test]
fn system_info_power_and_health() {
    let s = system(Some(status("Enabled", Some("OK"))), Some("On"));
    let samples = system_samples(&s);
    assert_eq!(
        names(&samples),
        vec![("redfish_system_info", 1), ("redfish_system_power_state", 1), ("redfish_system_health", 1)]
    );
    assert_eq!(samples[0].tags.len(), 12);
    assert_eq!(tag(&samples[0], "hostname"), Some(TagValue::Field(b"web483")));

    let s = system(Some(status("Enabled", None)), Some("Off"));
    assert_eq!(
        names(&system_samples(&s)),
        vec![("redfish_system_info", 1), ("redfish_system_power_state", 0)]
    );
    let s = system(None, Some("On"));
    assert_eq!(names(&system_samples(&s)), vec![("redfish_system_info", 1)]);
}

#[test]
fn chassis_info_power_state_and_health() {
    let c = Chassis {
        id: "1U".to_string(),
        name: "Computer System Chassis".to_string(),
        chassis_type: Some("RackMount".to_string()),
        asset_tag: None,
        manufacturer: Some("Contoso".to_string()),
        model: None,
        sku: None,
        serial_number: None,
        part_number: None,
        power_state: Some("On".to_string()),
        thermal: Some(Link::new("/redfish/v1/Chassis/1U/Thermal".to_string(), String::new())),
        power: None,
        status: Some(status("Enabled", Some("Critical"))),
    };
    let samples = chassis_samples(&c);
    assert_eq!(
        names(&samples),
        vec![
            ("redfish_chassis_info", 1),
            ("redfish_chassis_power_state", 1),
            ("redfish_chassis_state", 1),
            ("redfish_chassis_health", 0),
        ]
    );
    assert_eq!(tag(&samples[0], "chassis_type"), Some(TagValue::Field(b"RackMount")));
    assert_eq!(tag(&samples[0], "asset_tag"), Some(TagValue::Field(b"")));
}

fn memory() -> Memory {
    Memory {
        id: "DIMM1".to_string(),
        name: "DIMM Slot 1".to_string(),
        rank_count: 2,
        capacity_mib: 32768,
        data_width_bits: 64,
        bus_width_bits: 72,
        error_correction: "MultiBitECC".to_string(),
        memory_type: "DRAM".to_string(),
        memory_device_type: "DDR4".to_string(),
        base_module_type: "RDIMM".to_string(),
        operating_speed_mhz: 2400,
        memory_location: Some(MemoryLocation { socket: 1, memory_controller: 1, channel: 1, slot: 1 }),
        metrics: None,
        status: status("Enabled", Some("OK")),
    }
}

#[test]
fn memory_module_samples() {
    let m = memory();
    let samples = memory_samples("sys", &m);
    assert_eq!(
        names(&samples),
        vec![
            ("redfish_system_memory_info", 1),
            ("redfish_system_memory_state", 1),
            ("redfish_system_memory_capacity", 32768 * 1024 * 1024),
            ("redfish_system_memory_operating_speed", 2400),
            ("redfish_system_memory_health", 1),
        ]
    );
    assert_eq!(tag(&samples[0], "capacity_mib"), Some(TagValue::Number(32768)));
    assert_eq!(tag(&samples[0], "slot"), Some(TagValue::Number(1)));
    assert_eq!(samples[0].tags.len(), 15);

    let trips = AlarmTrips {
        address_parity_error: false,
        correctable_ecc_error: true,
        spare_block: false,
        temperature: false,
        uncorrectable_ecc_error: false,
    };
    assert_eq!(
        names(&memory_health_samples("sys", &m, false, &trips)),
        vec![
            ("redfish_system_memory_data_loss", 0),
            ("redfish_system_memory_correctable_ecc_error", 1),
            ("redfish_system_memory_uncorrectable_ecc_error", 0),
        ]
    );
}

#[test]
fn network_interface_samples() {
    let n = NetworkInterface {
        id: "1".to_string(),
        name: "Network Interface View".to_string(),
        status: status("Disabled", None),
    };
    assert_eq!(
        names(&network_samples("sys", &n)),
        vec![("redfish_system_network_interface_info", 1), ("redfish_system_network_interface_state", 0)]
    );
}

#[test]
fn storage_controllers_and_drives() {
    let storage = Storage {
        id: "RAID.1".to_string(),
        name: "RAID Controller".to_string(),
        status: status("Enabled", Some("OK")),
        storage_controllers: vec![StorageController {
            member_id: "0".to_string(),
            name: "PERC H730".to_string(),
            status: status("Enabled", Some("OK")),
            manufacturer: Some("DELL".to_string()),
            model: None,
            serial_number: None,
            part_number: None,
            speed_gbps: Some(12),
            firmware_version: None,
        }],
        drives: vec![],
        volumes: None,
    };
    let samples = storage_samples("sys", &storage);
    assert_eq!(
        names(&samples),
        vec![("redfish_system_storage_controller_info", 1), ("redfish_system_storage_controller_state", 1)]
    );
    assert_eq!(tag(&samples[0], "speed_gbps"), Some(TagValue::Number(12)));
    assert_eq!(tag(&samples[1], "storage"), Some(TagValue::Field(b"RAID.1")));

    let mut drive = StorageDevice {
        id: "Disk.0".to_string(),
        name: "SSD 0".to_string(),
        model: None,
        revision: None,
        capacity_bytes: Some(480103981056),
        failure_predicted: None,
        protocol: Some("SATA".to_string()),
        media_type: Some("SSD".to_string()),
        manufacturer: None,
        serial_number: None,
        part_number: None,
        encryption_ability: None,
        encryption_status: None,
        rotation_speed_rpm: None,
        block_size_bytes: None,
        capable_speed_gbs: Some(6),
        negotiated_speed_gbs: None,
        status: status("Enabled", Some("OK")),
    };
    assert_eq!(
        names(&drive_samples("sys", "RAID.1", &drive)),
        vec![
            ("redfish_system_storage_drive_info", 1),
            ("redfish_system_storage_drive_capacity_bytes", 480103981056),
            ("redfish_system_storage_drive_capable_speed_gbs", 6),
        ]
    );
    drive.status = status("Absent", None);
    assert!(drive_samples("sys", "RAID.1", &drive).is_empty());
}

#[test]
fn simple_storage_devices() {
    let ss = SimpleStorage {
        id: "1".to_string(),
        name: "Simple Storage Controller".to_string(),
        status: status("Enabled", None),
        devices: vec![
            Device {
                name: "SATA Bay 1".to_string(),
                status: status("Enabled", Some("OK")),
                manufacturer: Some("Contoso".to_string()),
                model: None,
                capacity_bytes: Some(8000000000000),
            },
            Device {
                name: "SATA Bay 2".to_string(),
                status: status("Absent", None),
                manufacturer: None,
                model: None,
                capacity_bytes: Some(1),
            },
        ],
    };
    let samples = simple_storage_samples("sys", &ss);
    assert_eq!(
        names(&samples),
        vec![
            ("redfish_system_simple_storage_info", 1),
            ("redfish_system_simple_storage_state", 1),
            ("redfish_system_simple_storage_health", 0),
            ("redfish_system_simple_storage_device_info", 1),
            ("redfish_system_simple_storage_device_state", 1),
            ("redfish_system_simple_storage_device_health", 1),
            ("redfish_system_simple_storage_drive_capacity_bytes", 8000000000000),
            ("redfish_system_simple_storage_device_info", 1),
            ("redfish_system_simple_storage_device_state", 0),
        ]
    );
    assert_eq!(tag(&samples[7], "index"), Some(TagValue::Number(1)));

    let absent = SimpleStorage { status: status("Absent", None), ..ss };
    assert_eq!(simple_storage_samples("sys", &absent).len(), 2);
}

#[test]
fn collection_follows_configured_links() {
    let config = CollectConfig::default();
    assert!(config.thermal && config.power && config.memory && config.network);
    assert!(config.simple_storage && config.storage);

    let mut s = system(None, None);
    s.memory = Some(Link::new("/redfish/v1/Systems/1/Memory".to_string(), String::new()));
    s.storage = Some(Link::new(String::new(), "/redfish/v1/Systems/1/Storage".to_string()));
    let lists = system_lists(&config, &s);
    assert_eq!(lists, (Some("/redfish/v1/Systems/1/Memory"), None, Some("/redfish/v1/Systems/1/Storage"), None));

    let no_memory = CollectConfig { memory: false, ..config };
    assert_eq!(system_lists(&no_memory, &s).0, None);

    let c = Chassis {
        id: "1".to_string(),
        name: "c".to_string(),
        chassis_type: None,
        asset_tag: None,
        manufacturer: None,
        model: None,
        sku: None,
        serial_number: None,
        part_number: None,
        power_state: None,
        thermal: Some(Link::new("/t".to_string(), String::new())),
        power: Some(Link::new("/p".to_string(), String::new())),
        status: None,
    };
    assert_eq!(chassis_resources(&config, &c), (Some("/t"), Some("/p")));
    let no_power = CollectConfig { power: false, ..config };
    assert_eq!(chassis_resources(&no_power, &c), (Some("/t"), None));
}

fn supply(member_id: Option<&str>, state: &str, health: Option<&str>) -> PowerSupplyInfo {
    PowerSupplyInfo {
        member_id: member_id.map(str::to_string),
        name: "PSU 1".to_string(),
        model: Some("PWR-500".to_string()),
        manufacturer: None,
        firmware_version: None,
        serial_number: None,
        part_number: None,
        spare_part_number: None,
        status: status(state, health),
    }
}

#[test]
fn power_supplies() {
    let s = supply(Some("0"), "Enabled", Some("OK"));
    let (samples, present) = power_supply_samples("1", 3, &s);
    assert!(present);
    assert_eq!(
        names(&samples),
        vec![
            ("redfish_chassis_power_supply_info", 1),
            ("redfish_chassis_power_supply_state", 1),
            ("redfish_chassis_power_supply_health", 1),
        ]
    );
    assert_eq!(tag(&samples[0], "model"), Some(TagValue::Field(b"PWR-500")));
    assert_eq!(tag(&samples[0], "manufacturer"), Some(TagValue::Field(b"")));
    assert_eq!(tag(&samples[1], "member_id"), Some(TagValue::Field(b"0")));

    // no member id: the index stands for it; a critical supply is unhealthy
    let s = supply(None, "Disabled", Some("Critical"));
    let (samples, present) = power_supply_samples("1", 3, &s);
    assert!(present);
    assert_eq!(samples[1].value, 0);
    assert_eq!(samples[2].value, 0);
    assert_eq!(tag(&samples[2], "member_id"), Some(TagValue::Number(3)));

    // absent: no health, no readings
    let s = supply(None, "Absent", Some("OK"));
    let (samples, present) = power_supply_samples("1", 0, &s);
    assert!(!present);
    assert_eq!(samples.len(), 2);

    // no health given
    let s = supply(None, "Enabled", None);
    assert_eq!(power_supply_samples("1", 0, &s).0.len(), 2);

    let name = "V1".to_string();
    let ids = chassis_member_ids_of("1", &name, &None, 5);
    assert_eq!(
        ids,
        vec![
            ("chassis", TagValue::Field(b"1")),
            ("name", TagValue::Field(b"V1")),
            ("member_id", TagValue::Number(5)),
        ]
    );
}
