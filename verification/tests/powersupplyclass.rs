use vertex_sources::metric::TagValue;
use vertex_sources::node::powersupplyclass::{attribute_files, PowerSupply, Scale};

fn read(files: &[(&str, &str)]) -> PowerSupply {
    let mut supply = PowerSupply::new();
    for (file, content) in files {
        supply.set_attribute(file, content.to_string());
    }
    supply
}

fn battery() -> PowerSupply {
    read(&[
        ("capacity", "98"),
        ("capacity_level", "Normal"),
        ("cycle_count", "0"),
        ("energy_full", "50060000"),
        ("energy_full_design", "47520000"),
        ("energy_now", "49450000"),
        ("manufacturer", "LGC"),
        ("model_name", "LNV-45N1"),
        ("power_now", "4830000"),
        ("present", "1"),
        ("serial_number", "38109"),
        ("status", "Discharging"),
        ("technology", "Li-ion"),
        ("type", "Battery"),
        ("voltage_min_design", "10800000"),
        ("voltage_now", "12229000"),
    ])
}

#[test]
fn powersupplyclass_parse() {
    let ac = read(&[("type", "Mains"), ("online", "0")]);
    let mut want = PowerSupply::new();
    want.typ = Some("Mains".to_string());
    want.online = Some(0);
    assert_eq!(ac, want);

    let bat = battery();
    let mut want = PowerSupply::new();
    want.capacity = Some(98);
    want.capacity_level = Some("Normal".to_string());
    want.cycle_count = Some(0);
    want.energy_full = Some(50060000);
    want.energy_full_design = Some(47520000);
    want.energy_now = Some(49450000);
    want.manufacturer = Some("LGC".to_string());
    want.model_name = Some("LNV-45N1".to_string());
    want.power_now = Some(4830000);
    want.present = Some(1);
    want.serial_number = Some("38109".to_string());
    want.status = Some("Discharging".to_string());
    want.technology = Some("Li-ion".to_string());
    want.typ = Some("Battery".to_string());
    want.voltage_min_design = Some(10800000);
    want.voltage_now = Some(12229000);
    assert_eq!(bat, want);
}

#[test]
fn numbers_that_are_not_numbers_are_absent() {
    let supply = read(&[("capacity", "full"), ("unknown_file", "1")]);
    assert_eq!(supply, PowerSupply::new());
}

#[test]
fn attribute_file_names() {
    let files = attribute_files();
    assert_eq!(files.len(), 67);
    assert_eq!(files[0], "capacity_level");
    assert!(files.contains(&"type"));
    assert!(files.contains(&"voltage_ocv"));
}

#[test]
fn supply_samples() {
    let bat = battery();
    let plain = bat.plain_samples("BAT0");
    let got: Vec<(&str, i128)> = plain.iter().map(|s| (s.name, s.value)).collect();
    assert_eq!(
        got,
        vec![
            ("node_power_supply_capacity", 98),
            ("node_power_supply_cyclecount", 0),
            ("node_power_supply_present", 1),
        ]
    );
    assert_eq!(plain[0].tags, vec![("power_supply", TagValue::Field(b"BAT0"))]);
    assert_eq!(
        plain[0].description,
        "capacity value of /sys/class/power_supply/<power_supply>"
    );

    let scaled = bat.scaled_values();
    assert_eq!(
        scaled,
        vec![
            ("energy_full", 50060000, Scale::Micro),
            ("energy_full_design", 47520000, Scale::Micro),
            ("energy_watthour", 49450000, Scale::Micro),
            ("voltage_min_design", 10800000, Scale::Micro),
            ("voltage_volt", 12229000, Scale::Micro),
            ("power_watt", 4830000, Scale::Micro),
        ]
    );

    let info = bat.info_sample("BAT0");
    assert_eq!(info.name, "node_power_supply_info");
    assert_eq!(info.value, 1);
    let keys: Vec<&str> = info.tags.iter().map(|(k, _)| *k).collect();
    assert_eq!(
        keys,
        vec![
            "power_supply",
            "capacity_level",
            "manufacturer",
            "model_name",
            "serial_number",
            "status",
            "technology",
            "type"
        ]
    );
}
