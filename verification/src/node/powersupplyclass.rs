//! /sys/class/power_supply: the attributes of a power supply, and the
//! samples of those reported as they are.

use vstd::prelude::*;
use vstd::string::StringSliceAdditionalSpecFns;
use vstd::utf8::encode_utf8;

use crate::metric::{field, gauge, push_gauge, samples_view, tags_view, Sample, SampleModel, TagModel, TagValue};
use crate::text::{bytes_eq, dec_i64, parse_i64};

verus! {

/// The attributes of a power supply, each absent where its file is (or,
/// for a number, does not hold one).
#[derive(Clone, Debug, Default, PartialEq, Eq)]
pub struct PowerSupply {
    pub authentic: Option<i64>,
    pub calibrate: Option<i64>,
    pub capacity: Option<i64>,
    pub capacity_alert_max: Option<i64>,
    pub capacity_alert_min: Option<i64>,
    pub capacity_level: Option<String>,
    pub charge_avg: Option<i64>,
    pub charge_control_limit: Option<i64>,
    pub charge_control_limit_max: Option<i64>,
    pub charge_counter: Option<i64>,
    pub charge_empty: Option<i64>,
    pub charge_empty_design: Option<i64>,
    pub charge_full: Option<i64>,
    pub charge_full_design: Option<i64>,
    pub charge_now: Option<i64>,
    pub charge_term_current: Option<i64>,
    pub charge_type: Option<String>,
    pub constant_charge_current: Option<i64>,
    pub constant_charge_current_max: Option<i64>,
    pub constant_charge_voltage: Option<i64>,
    pub constant_charge_voltage_max: Option<i64>,
    pub current_avg: Option<i64>,
    pub current_boot: Option<i64>,
    pub current_max: Option<i64>,
    pub current_now: Option<i64>,
    pub cycle_count: Option<i64>,
    pub energy_avg: Option<i64>,
    pub energy_empty: Option<i64>,
    pub energy_empty_design: Option<i64>,
    pub energy_full: Option<i64>,
    pub energy_full_design: Option<i64>,
    pub energy_now: Option<i64>,
    pub health: Option<String>,
    pub input_current_limit: Option<i64>,
    pub manufacturer: Option<String>,
    pub model_name: Option<String>,
    pub online: Option<i64>,
    pub power_avg: Option<i64>,
    pub power_now: Option<i64>,
    pub precharge_current: Option<i64>,
    pub present: Option<i64>,
    pub scope: Option<String>,
    pub serial_number: Option<String>,
    pub status: Option<String>,
    pub technology: Option<String>,
    pub temp: Option<i64>,
    pub temp_alert_max: Option<i64>,
    pub temp_alert_min: Option<i64>,
    pub temp_ambient: Option<i64>,
    pub temp_ambient_max: Option<i64>,
    pub temp_ambient_min: Option<i64>,
    pub temp_max: Option<i64>,
    pub temp_min: Option<i64>,
    pub time_to_empty_avg: Option<i64>,
    pub time_to_empty_now: Option<i64>,
    pub time_to_full_avg: Option<i64>,
    pub time_to_full_now: Option<i64>,
    pub typ: Option<String>,
    pub usb_type: Option<String>,
    pub voltage_avg: Option<i64>,
    pub voltage_boot: Option<i64>,
    pub voltage_max: Option<i64>,
    pub voltage_max_design: Option<i64>,
    pub voltage_min: Option<i64>,
    pub voltage_min_design: Option<i64>,
    pub voltage_now: Option<i64>,
    pub voltage_ocv: Option<i64>,
}

impl PowerSupply {
    /// A power supply none of whose attributes has been read.
    pub fn new() -> (r: PowerSupply)
        ensures
            r == (PowerSupply {
                authentic: None,
                calibrate: None,
                capacity: None,
                capacity_alert_max: None,
                capacity_alert_min: None,
                capacity_level: None,
                charge_avg: None,
                charge_control_limit: None,
                charge_control_limit_max: None,
                charge_counter: None,
                charge_empty: None,
                charge_empty_design: None,
                charge_full: None,
                charge_full_design: None,
                charge_now: None,
                charge_term_current: None,
                charge_type: None,
                constant_charge_current: None,
                constant_charge_current_max: None,
                constant_charge_voltage: None,
                constant_charge_voltage_max: None,
                current_avg: None,
                current_boot: None,
                current_max: None,
                current_now: None,
                cycle_count: None,
                energy_avg: None,
                energy_empty: None,
                energy_empty_design: None,
                energy_full: None,
                energy_full_design: None,
                energy_now: None,
                health: None,
                input_current_limit: None,
                manufacturer: None,
                model_name: None,
                online: None,
                power_avg: None,
                power_now: None,
                precharge_current: None,
                present: None,
                scope: None,
                serial_number: None,
                status: None,
                technology: None,
                temp: None,
                temp_alert_max: None,
                temp_alert_min: None,
                temp_ambient: None,
                temp_ambient_max: None,
                temp_ambient_min: None,
                temp_max: None,
                temp_min: None,
                time_to_empty_avg: None,
                time_to_empty_now: None,
                time_to_full_avg: None,
                time_to_full_now: None,
                typ: None,
                usb_type: None,
                voltage_avg: None,
                voltage_boot: None,
                voltage_max: None,
                voltage_max_design: None,
                voltage_min: None,
                voltage_min_design: None,
                voltage_now: None,
                voltage_ocv: None,
            }),
    {
        PowerSupply {
            authentic: None,
            calibrate: None,
            capacity: None,
            capacity_alert_max: None,
            capacity_alert_min: None,
            capacity_level: None,
            charge_avg: None,
            charge_control_limit: None,
            charge_control_limit_max: None,
            charge_counter: None,
            charge_empty: None,
            charge_empty_design: None,
            charge_full: None,
            charge_full_design: None,
            charge_now: None,
            charge_term_current: None,
            charge_type: None,
            constant_charge_current: None,
            constant_charge_current_max: None,
            constant_charge_voltage: None,
            constant_charge_voltage_max: None,
            current_avg: None,
            current_boot: None,
            current_max: None,
            current_now: None,
            cycle_count: None,
            energy_avg: None,
            energy_empty: None,
            energy_empty_design: None,
            energy_full: None,
            energy_full_design: None,
            energy_now: None,
            health: None,
            input_current_limit: None,
            manufacturer: None,
            model_name: None,
            online: None,
            power_avg: None,
            power_now: None,
            precharge_current: None,
            present: None,
            scope: None,
            serial_number: None,
            status: None,
            technology: None,
            temp: None,
            temp_alert_max: None,
            temp_alert_min: None,
            temp_ambient: None,
            temp_ambient_max: None,
            temp_ambient_min: None,
            temp_max: None,
            temp_min: None,
            time_to_empty_avg: None,
            time_to_empty_now: None,
            time_to_full_avg: None,
            time_to_full_now: None,
            typ: None,
            usb_type: None,
            voltage_avg: None,
            voltage_boot: None,
            voltage_max: None,
            voltage_max_design: None,
            voltage_min: None,
            voltage_min_design: None,
            voltage_now: None,
            voltage_ocv: None,
        }
    }
}

/// The supply once the text attribute `file` has been read as `content`;
/// unchanged where `file` names no text attribute.
pub open spec fn with_text(s: PowerSupply, file: Seq<u8>, content: String) -> PowerSupply {
    if file == "capacity_level".spec_bytes() {
        PowerSupply { capacity_level: Some(content), ..s }
    } else if file == "charge_type".spec_bytes() {
        PowerSupply { charge_type: Some(content), ..s }
    } else if file == "health".spec_bytes() {
        PowerSupply { health: Some(content), ..s }
    } else if file == "manufacturer".spec_bytes() {
        PowerSupply { manufacturer: Some(content), ..s }
    } else if file == "model_name".spec_bytes() {
        PowerSupply { model_name: Some(content), ..s }
    } else if file == "scope".spec_bytes() {
        PowerSupply { scope: Some(content), ..s }
    } else if file == "serial_number".spec_bytes() {
        PowerSupply { serial_number: Some(content), ..s }
    } else if file == "status".spec_bytes() {
        PowerSupply { status: Some(content), ..s }
    } else if file == "technology".spec_bytes() {
        PowerSupply { technology: Some(content), ..s }
    } else if file == "type".spec_bytes() {
        PowerSupply { typ: Some(content), ..s }
    } else if file == "usb_type".spec_bytes() {
        PowerSupply { usb_type: Some(content), ..s }
    } else {
        s
    }
}

/// Whether `file` names a text attribute.
pub open spec fn is_text_file(file: Seq<u8>) -> bool {
    ||| file == "capacity_level".spec_bytes()
    ||| file == "charge_type".spec_bytes()
    ||| file == "health".spec_bytes()
    ||| file == "manufacturer".spec_bytes()
    ||| file == "model_name".spec_bytes()
    ||| file == "scope".spec_bytes()
    ||| file == "serial_number".spec_bytes()
    ||| file == "status".spec_bytes()
    ||| file == "technology".spec_bytes()
    ||| file == "type".spec_bytes()
    ||| file == "usb_type".spec_bytes()
}

/// The supply once the number attribute `file` has been read as `v`, for
/// the attributes from `authentic` to `energy_full`; unchanged for another file.
pub open spec fn with_number_0(s: PowerSupply, file: Seq<u8>, v: Option<i64>) -> PowerSupply {
    if file == "authentic".spec_bytes() {
        PowerSupply { authentic: v, ..s }
    } else if file == "calibrate".spec_bytes() {
        PowerSupply { calibrate: v, ..s }
    } else if file == "capacity".spec_bytes() {
        PowerSupply { capacity: v, ..s }
    } else if file == "capacity_alert_max".spec_bytes() {
        PowerSupply { capacity_alert_max: v, ..s }
    } else if file == "capacity_alert_min".spec_bytes() {
        PowerSupply { capacity_alert_min: v, ..s }
    } else if file == "charge_avg".spec_bytes() {
        PowerSupply { charge_avg: v, ..s }
    } else if file == "charge_control_limit".spec_bytes() {
        PowerSupply { charge_control_limit: v, ..s }
    } else if file == "charge_control_limit_max".spec_bytes() {
        PowerSupply { charge_control_limit_max: v, ..s }
    } else if file == "charge_counter".spec_bytes() {
        PowerSupply { charge_counter: v, ..s }
    } else if file == "charge_empty".spec_bytes() {
        PowerSupply { charge_empty: v, ..s }
    } else if file == "charge_empty_design".spec_bytes() {
        PowerSupply { charge_empty_design: v, ..s }
    } else if file == "charge_full".spec_bytes() {
        PowerSupply { charge_full: v, ..s }
    } else if file == "charge_full_design".spec_bytes() {
        PowerSupply { charge_full_design: v, ..s }
    } else if file == "charge_now".spec_bytes() {
        PowerSupply { charge_now: v, ..s }
    } else if file == "charge_term_current".spec_bytes() {
        PowerSupply { charge_term_current: v, ..s }
    } else if file == "constant_charge_current".spec_bytes() {
        PowerSupply { constant_charge_current: v, ..s }
    } else if file == "constant_charge_current_max".spec_bytes() {
        PowerSupply { constant_charge_current_max: v, ..s }
    } else if file == "constant_charge_voltage".spec_bytes() {
        PowerSupply { constant_charge_voltage: v, ..s }
    } else if file == "constant_charge_voltage_max".spec_bytes() {
        PowerSupply { constant_charge_voltage_max: v, ..s }
    } else if file == "current_avg".spec_bytes() {
        PowerSupply { current_avg: v, ..s }
    } else if file == "current_boot".spec_bytes() {
        PowerSupply { current_boot: v, ..s }
    } else if file == "current_max".spec_bytes() {
        PowerSupply { current_max: v, ..s }
    } else if file == "current_now".spec_bytes() {
        PowerSupply { current_now: v, ..s }
    } else if file == "cycle_count".spec_bytes() {
        PowerSupply { cycle_count: v, ..s }
    } else if file == "energy_avg".spec_bytes() {
        PowerSupply { energy_avg: v, ..s }
    } else if file == "energy_empty".spec_bytes() {
        PowerSupply { energy_empty: v, ..s }
    } else if file == "energy_empty_design".spec_bytes() {
        PowerSupply { energy_empty_design: v, ..s }
    } else if file == "energy_full".spec_bytes() {
        PowerSupply { energy_full: v, ..s }
    } else {
        s
    }
}

/// The supply once the number attribute `file` has been read as `v`, for
/// the attributes from `energy_full_design` to `voltage_ocv`; unchanged for another file.
pub open spec fn with_number_1(s: PowerSupply, file: Seq<u8>, v: Option<i64>) -> PowerSupply {
    if file == "energy_full_design".spec_bytes() {
        PowerSupply { energy_full_design: v, ..s }
    } else if file == "energy_now".spec_bytes() {
        PowerSupply { energy_now: v, ..s }
    } else if file == "input_current_limit".spec_bytes() {
        PowerSupply { input_current_limit: v, ..s }
    } else if file == "online".spec_bytes() {
        PowerSupply { online: v, ..s }
    } else if file == "power_avg".spec_bytes() {
        PowerSupply { power_avg: v, ..s }
    } else if file == "power_now".spec_bytes() {
        PowerSupply { power_now: v, ..s }
    } else if file == "precharge_current".spec_bytes() {
        PowerSupply { precharge_current: v, ..s }
    } else if file == "present".spec_bytes() {
        PowerSupply { present: v, ..s }
    } else if file == "temp".spec_bytes() {
        PowerSupply { temp: v, ..s }
    } else if file == "temp_alert_max".spec_bytes() {
        PowerSupply { temp_alert_max: v, ..s }
    } else if file == "temp_alert_min".spec_bytes() {
        PowerSupply { temp_alert_min: v, ..s }
    } else if file == "temp_ambient".spec_bytes() {
        PowerSupply { temp_ambient: v, ..s }
    } else if file == "temp_ambient_max".spec_bytes() {
        PowerSupply { temp_ambient_max: v, ..s }
    } else if file == "temp_ambient_min".spec_bytes() {
        PowerSupply { temp_ambient_min: v, ..s }
    } else if file == "temp_max".spec_bytes() {
        PowerSupply { temp_max: v, ..s }
    } else if file == "temp_min".spec_bytes() {
        PowerSupply { temp_min: v, ..s }
    } else if file == "time_to_empty_avg".spec_bytes() {
        PowerSupply { time_to_empty_avg: v, ..s }
    } else if file == "time_to_empty_now".spec_bytes() {
        PowerSupply { time_to_empty_now: v, ..s }
    } else if file == "time_to_full_avg".spec_bytes() {
        PowerSupply { time_to_full_avg: v, ..s }
    } else if file == "time_to_full_now".spec_bytes() {
        PowerSupply { time_to_full_now: v, ..s }
    } else if file == "voltage_avg".spec_bytes() {
        PowerSupply { voltage_avg: v, ..s }
    } else if file == "voltage_boot".spec_bytes() {
        PowerSupply { voltage_boot: v, ..s }
    } else if file == "voltage_max".spec_bytes() {
        PowerSupply { voltage_max: v, ..s }
    } else if file == "voltage_max_design".spec_bytes() {
        PowerSupply { voltage_max_design: v, ..s }
    } else if file == "voltage_min".spec_bytes() {
        PowerSupply { voltage_min: v, ..s }
    } else if file == "voltage_min_design".spec_bytes() {
        PowerSupply { voltage_min_design: v, ..s }
    } else if file == "voltage_now".spec_bytes() {
        PowerSupply { voltage_now: v, ..s }
    } else if file == "voltage_ocv".spec_bytes() {
        PowerSupply { voltage_ocv: v, ..s }
    } else {
        s
    }
}

/// The supply once the attribute `file` has been read as `content` (trimmed):
/// a text attribute keeps the text, a number attribute holds the `i64` it
/// spells, if any.
pub open spec fn with_attribute(s: PowerSupply, file: Seq<u8>, content: String) -> PowerSupply {
    if is_text_file(file) {
        with_text(s, file, content)
    } else {
        with_number_1(
            with_number_0(s, file, dec_i64(encode_utf8(content@))),
            file,
            dec_i64(encode_utf8(content@)),
        )
    }
}

impl PowerSupply {
    fn set_text(&mut self, file: &[u8], content: String) -> (r: bool)
        ensures
            r == is_text_file(file@),
            *final(self) == with_text(*old(self), file@, content),
    {
        if bytes_eq(file, "capacity_level".as_bytes()) {
            self.capacity_level = Some(content);
            true
        } else if bytes_eq(file, "charge_type".as_bytes()) {
            self.charge_type = Some(content);
            true
        } else if bytes_eq(file, "health".as_bytes()) {
            self.health = Some(content);
            true
        } else if bytes_eq(file, "manufacturer".as_bytes()) {
            self.manufacturer = Some(content);
            true
        } else if bytes_eq(file, "model_name".as_bytes()) {
            self.model_name = Some(content);
            true
        } else if bytes_eq(file, "scope".as_bytes()) {
            self.scope = Some(content);
            true
        } else if bytes_eq(file, "serial_number".as_bytes()) {
            self.serial_number = Some(content);
            true
        } else if bytes_eq(file, "status".as_bytes()) {
            self.status = Some(content);
            true
        } else if bytes_eq(file, "technology".as_bytes()) {
            self.technology = Some(content);
            true
        } else if bytes_eq(file, "type".as_bytes()) {
            self.typ = Some(content);
            true
        } else if bytes_eq(file, "usb_type".as_bytes()) {
            self.usb_type = Some(content);
            true
        } else {
            false
        }
    }

    fn set_number_0(&mut self, file: &[u8], v: Option<i64>)
        ensures
            *final(self) == with_number_0(*old(self), file@, v),
    {
        if bytes_eq(file, "authentic".as_bytes()) {
            self.authentic = v;
        } else if bytes_eq(file, "calibrate".as_bytes()) {
            self.calibrate = v;
        } else if bytes_eq(file, "capacity".as_bytes()) {
            self.capacity = v;
        } else if bytes_eq(file, "capacity_alert_max".as_bytes()) {
            self.capacity_alert_max = v;
        } else if bytes_eq(file, "capacity_alert_min".as_bytes()) {
            self.capacity_alert_min = v;
        } else if bytes_eq(file, "charge_avg".as_bytes()) {
            self.charge_avg = v;
        } else if bytes_eq(file, "charge_control_limit".as_bytes()) {
            self.charge_control_limit = v;
        } else if bytes_eq(file, "charge_control_limit_max".as_bytes()) {
            self.charge_control_limit_max = v;
        } else if bytes_eq(file, "charge_counter".as_bytes()) {
            self.charge_counter = v;
        } else if bytes_eq(file, "charge_empty".as_bytes()) {
            self.charge_empty = v;
        } else if bytes_eq(file, "charge_empty_design".as_bytes()) {
            self.charge_empty_design = v;
        } else if bytes_eq(file, "charge_full".as_bytes()) {
            self.charge_full = v;
        } else if bytes_eq(file, "charge_full_design".as_bytes()) {
            self.charge_full_design = v;
        } else if bytes_eq(file, "charge_now".as_bytes()) {
            self.charge_now = v;
        } else if bytes_eq(file, "charge_term_current".as_bytes()) {
            self.charge_term_current = v;
        } else if bytes_eq(file, "constant_charge_current".as_bytes()) {
            self.constant_charge_current = v;
        } else if bytes_eq(file, "constant_charge_current_max".as_bytes()) {
            self.constant_charge_current_max = v;
        } else if bytes_eq(file, "constant_charge_voltage".as_bytes()) {
            self.constant_charge_voltage = v;
        } else if bytes_eq(file, "constant_charge_voltage_max".as_bytes()) {
            self.constant_charge_voltage_max = v;
        } else if bytes_eq(file, "current_avg".as_bytes()) {
            self.current_avg = v;
        } else if bytes_eq(file, "current_boot".as_bytes()) {
            self.current_boot = v;
        } else if bytes_eq(file, "current_max".as_bytes()) {
            self.current_max = v;
        } else if bytes_eq(file, "current_now".as_bytes()) {
            self.current_now = v;
        } else if bytes_eq(file, "cycle_count".as_bytes()) {
            self.cycle_count = v;
        } else if bytes_eq(file, "energy_avg".as_bytes()) {
            self.energy_avg = v;
        } else if bytes_eq(file, "energy_empty".as_bytes()) {
            self.energy_empty = v;
        } else if bytes_eq(file, "energy_empty_design".as_bytes()) {
            self.energy_empty_design = v;
        } else if bytes_eq(file, "energy_full".as_bytes()) {
            self.energy_full = v;
        }
    }

    fn set_number_1(&mut self, file: &[u8], v: Option<i64>)
        ensures
            *final(self) == with_number_1(*old(self), file@, v),
    {
        if bytes_eq(file, "energy_full_design".as_bytes()) {
            self.energy_full_design = v;
        } else if bytes_eq(file, "energy_now".as_bytes()) {
            self.energy_now = v;
        } else if bytes_eq(file, "input_current_limit".as_bytes()) {
            self.input_current_limit = v;
        } else if bytes_eq(file, "online".as_bytes()) {
            self.online = v;
        } else if bytes_eq(file, "power_avg".as_bytes()) {
            self.power_avg = v;
        } else if bytes_eq(file, "power_now".as_bytes()) {
            self.power_now = v;
        } else if bytes_eq(file, "precharge_current".as_bytes()) {
            self.precharge_current = v;
        } else if bytes_eq(file, "present".as_bytes()) {
            self.present = v;
        } else if bytes_eq(file, "temp".as_bytes()) {
            self.temp = v;
        } else if bytes_eq(file, "temp_alert_max".as_bytes()) {
            self.temp_alert_max = v;
        } else if bytes_eq(file, "temp_alert_min".as_bytes()) {
            self.temp_alert_min = v;
        } else if bytes_eq(file, "temp_ambient".as_bytes()) {
            self.temp_ambient = v;
        } else if bytes_eq(file, "temp_ambient_max".as_bytes()) {
            self.temp_ambient_max = v;
        } else if bytes_eq(file, "temp_ambient_min".as_bytes()) {
            self.temp_ambient_min = v;
        } else if bytes_eq(file, "temp_max".as_bytes()) {
            self.temp_max = v;
        } else if bytes_eq(file, "temp_min".as_bytes()) {
            self.temp_min = v;
        } else if bytes_eq(file, "time_to_empty_avg".as_bytes()) {
            self.time_to_empty_avg = v;
        } else if bytes_eq(file, "time_to_empty_now".as_bytes()) {
            self.time_to_empty_now = v;
        } else if bytes_eq(file, "time_to_full_avg".as_bytes()) {
            self.time_to_full_avg = v;
        } else if bytes_eq(file, "time_to_full_now".as_bytes()) {
            self.time_to_full_now = v;
        } else if bytes_eq(file, "voltage_avg".as_bytes()) {
            self.voltage_avg = v;
        } else if bytes_eq(file, "voltage_boot".as_bytes()) {
            self.voltage_boot = v;
        } else if bytes_eq(file, "voltage_max".as_bytes()) {
            self.voltage_max = v;
        } else if bytes_eq(file, "voltage_max_design".as_bytes()) {
            self.voltage_max_design = v;
        } else if bytes_eq(file, "voltage_min".as_bytes()) {
            self.voltage_min = v;
        } else if bytes_eq(file, "voltage_min_design".as_bytes()) {
            self.voltage_min_design = v;
        } else if bytes_eq(file, "voltage_now".as_bytes()) {
            self.voltage_now = v;
        } else if bytes_eq(file, "voltage_ocv".as_bytes()) {
            self.voltage_ocv = v;
        }
    }

    /// Reads the attribute `file`, whose trimmed content is `content`, into
    /// the supply.
    pub fn set_attribute(&mut self, file: &str, content: String)
        ensures
            *final(self) == with_attribute(*old(self), file.spec_bytes(), content),
    {
        let v = parse_i64(content.as_str().as_bytes());
        let f = file.as_bytes();
        if !self.set_text(f, content) {
            self.set_number_0(f, v);
            self.set_number_1(f, v);
        }
    }
}

/// The names of the attribute files, in the order the collector reads
/// them: the text attributes, then the numbers.
pub open spec fn attribute_files_spec() -> Seq<&'static str> {
    seq![
        "capacity_level",
        "charge_type",
        "health",
        "manufacturer",
        "model_name",
        "scope",
        "serial_number",
        "status",
        "technology",
        "type",
        "usb_type",
        "authentic",
        "calibrate",
        "capacity",
        "capacity_alert_max",
        "capacity_alert_min",
        "charge_avg",
        "charge_control_limit",
        "charge_control_limit_max",
        "charge_counter",
        "charge_empty",
        "charge_empty_design",
        "charge_full",
        "charge_full_design",
        "charge_now",
        "charge_term_current",
        "constant_charge_current",
        "constant_charge_current_max",
        "constant_charge_voltage",
        "constant_charge_voltage_max",
        "current_avg",
        "current_boot",
        "current_max",
        "current_now",
        "cycle_count",
        "energy_avg",
        "energy_empty",
        "energy_empty_design",
        "energy_full",
        "energy_full_design",
        "energy_now",
        "input_current_limit",
        "online",
        "power_avg",
        "power_now",
        "precharge_current",
        "present",
        "temp",
        "temp_alert_max",
        "temp_alert_min",
        "temp_ambient",
        "temp_ambient_max",
        "temp_ambient_min",
        "temp_max",
        "temp_min",
        "time_to_empty_avg",
        "time_to_empty_now",
        "time_to_full_avg",
        "time_to_full_now",
        "voltage_avg",
        "voltage_boot",
        "voltage_max",
        "voltage_max_design",
        "voltage_min",
        "voltage_min_design",
        "voltage_now",
        "voltage_ocv",
    ]
}

/// The names of the attribute files, in reading order.
pub fn attribute_files() -> (r: Vec<&'static str>)
    ensures
        r@ == attribute_files_spec(),
{
    let r = vec![
        "capacity_level",
        "charge_type",
        "health",
        "manufacturer",
        "model_name",
        "scope",
        "serial_number",
        "status",
        "technology",
        "type",
        "usb_type",
        "authentic",
        "calibrate",
        "capacity",
        "capacity_alert_max",
        "capacity_alert_min",
        "charge_avg",
        "charge_control_limit",
        "charge_control_limit_max",
        "charge_counter",
        "charge_empty",
        "charge_empty_design",
        "charge_full",
        "charge_full_design",
        "charge_now",
        "charge_term_current",
        "constant_charge_current",
        "constant_charge_current_max",
        "constant_charge_voltage",
        "constant_charge_voltage_max",
        "current_avg",
        "current_boot",
        "current_max",
        "current_now",
        "cycle_count",
        "energy_avg",
        "energy_empty",
        "energy_empty_design",
        "energy_full",
        "energy_full_design",
        "energy_now",
        "input_current_limit",
        "online",
        "power_avg",
        "power_now",
        "precharge_current",
        "present",
        "temp",
        "temp_alert_max",
        "temp_alert_min",
        "temp_ambient",
        "temp_ambient_max",
        "temp_ambient_min",
        "temp_max",
        "temp_min",
        "time_to_empty_avg",
        "time_to_empty_now",
        "time_to_full_avg",
        "time_to_full_now",
        "voltage_avg",
        "voltage_boot",
        "voltage_max",
        "voltage_max_design",
        "voltage_min",
        "voltage_min_design",
        "voltage_now",
        "voltage_ocv",
    ];
    assert(r@ =~= attribute_files_spec());
    r
}

/// A gauge for `v`, labelled with the supply's name, if there is one.
pub open spec fn opt_sample(
    name: &'static str,
    description: &'static str,
    v: Option<i64>,
    tags: Seq<(&'static str, TagModel)>,
) -> Seq<SampleModel> {
    match v {
        Some(x) => seq![gauge(name, description, x as int, tags)],
        None => Seq::empty(),
    }
}

/// The label naming the supply.
pub open spec fn supply_tags(name: Seq<u8>) -> Seq<(&'static str, TagModel)> {
    seq![("power_supply", TagModel::Field(name))]
}

/// The samples of the attributes reported as they are, each where present.
pub open spec fn plain_samples_spec(s: PowerSupply, name: Seq<u8>) -> Seq<SampleModel> {
    opt_sample(
        "node_power_supply_authentic",
        "authentic value of /sys/class/power_supply/<power_supply>",
        s.authentic,
        supply_tags(name),
    )
    + opt_sample(
        "node_power_supply_calibrate",
        "calibrate value of /sys/class/power_supply/<power_supply>",
        s.calibrate,
        supply_tags(name),
    )
    + opt_sample(
        "node_power_supply_capacity",
        "capacity value of /sys/class/power_supply/<power_supply>",
        s.capacity,
        supply_tags(name),
    )
    + opt_sample(
        "node_power_supply_capacity_alert_max",
        "capacity_alert_max value of /sys/class/power_supply/<power_supply>",
        s.capacity_alert_max,
        supply_tags(name),
    )
    + opt_sample(
        "node_power_supply_capacity_alert_min",
        "capacity_alert_min value of /sys/class/power_supply/<power_supply>",
        s.capacity_alert_min,
        supply_tags(name),
    )
    + opt_sample(
        "node_power_supply_cyclecount",
        "cyclecount value of /sys/class/power_supply/<power_supply>",
        s.cycle_count,
        supply_tags(name),
    )
    + opt_sample(
        "node_power_supply_online",
        "online value of /sys/class/power_supply/<power_supply>",
        s.online,
        supply_tags(name),
    )
    + opt_sample(
        "node_power_supply_present",
        "present value of /sys/class/power_supply/<power_supply>",
        s.present,
        supply_tags(name),
    )
    + opt_sample(
        "node_power_supply_time_to_empty_seconds",
        "time_to_empty_seconds value of /sys/class/power_supply/<power_supply>",
        s.time_to_empty_now,
        supply_tags(name),
    )
    + opt_sample(
        "node_power_supply_time_to_full_seconds",
        "time_to_full_seconds value of /sys/class/power_supply/<power_supply>",
        s.time_to_full_now,
        supply_tags(name),
    )
}

fn push_opt<'a>(
    out: &mut Vec<Sample<'a>>,
    name: &'static str,
    description: &'static str,
    v: Option<i64>,
    supply: &'a [u8],
)
    ensures
        samples_view(final(out)@) == samples_view(old(out)@) + opt_sample(
            name,
            description,
            v,
            supply_tags(supply@),
        ),
{
    let ghost before = samples_view(out@);
    match v {
        Some(x) => {
            let mut tags: Vec<(&'static str, TagValue<'a>)> = Vec::new();
            tags.push(("power_supply", TagValue::Field(supply)));
            assert(tags_view(tags@) =~= supply_tags(supply@));
            push_gauge(out, name, description, x as i128, tags);
            assert(samples_view(out@) =~= before + opt_sample(name, description, v, supply_tags(supply@)));
        },
        None => {
            assert(samples_view(out@) =~= before + opt_sample(name, description, v, supply_tags(supply@)));
        },
    }
}

impl PowerSupply {
    /// The samples of the attributes reported as they are, labelled with
    /// the supply's name.
    pub fn plain_samples<'a>(&self, name: &'a str) -> (r: Vec<Sample<'a>>)
        ensures
            samples_view(r@) == plain_samples_spec(*self, name.spec_bytes()),
    {
        let supply = name.as_bytes();
        let mut out: Vec<Sample<'a>> = Vec::new();
        push_opt(&mut out, "node_power_supply_authentic", "authentic value of /sys/class/power_supply/<power_supply>", self.authentic, supply);
        push_opt(&mut out, "node_power_supply_calibrate", "calibrate value of /sys/class/power_supply/<power_supply>", self.calibrate, supply);
        push_opt(&mut out, "node_power_supply_capacity", "capacity value of /sys/class/power_supply/<power_supply>", self.capacity, supply);
        push_opt(&mut out, "node_power_supply_capacity_alert_max", "capacity_alert_max value of /sys/class/power_supply/<power_supply>", self.capacity_alert_max, supply);
        push_opt(&mut out, "node_power_supply_capacity_alert_min", "capacity_alert_min value of /sys/class/power_supply/<power_supply>", self.capacity_alert_min, supply);
        push_opt(&mut out, "node_power_supply_cyclecount", "cyclecount value of /sys/class/power_supply/<power_supply>", self.cycle_count, supply);
        push_opt(&mut out, "node_power_supply_online", "online value of /sys/class/power_supply/<power_supply>", self.online, supply);
        push_opt(&mut out, "node_power_supply_present", "present value of /sys/class/power_supply/<power_supply>", self.present, supply);
        push_opt(&mut out, "node_power_supply_time_to_empty_seconds", "time_to_empty_seconds value of /sys/class/power_supply/<power_supply>", self.time_to_empty_now, supply);
        push_opt(&mut out, "node_power_supply_time_to_full_seconds", "time_to_full_seconds value of /sys/class/power_supply/<power_supply>", self.time_to_full_now, supply);
        assert(samples_view(out@) =~= plain_samples_spec(*self, supply@));
        out
    }
}

/// The unit that an attribute's value is divided into.
#[derive(Clone, Copy, Debug, PartialEq, Eq)]
pub enum Scale {
    /// Millionths: microamperes, microvolts, microwatts, micro-watt-hours.
    Micro,
    /// Tenths of a degree Celsius.
    Deci,
}

/// The entry of an attribute reported in a unit, where present.
pub open spec fn opt_scaled(stat: &'static str, v: Option<i64>, scale: Scale) -> Seq<(&'static str, i64, Scale)> {
    match v {
        Some(x) => seq![(stat, x, scale)],
        None => Seq::empty(),
    }
}

/// The attributes reported in a unit, each where present: the name of its
/// metric after `node_power_supply_`, its raw value and its unit.
pub open spec fn scaled_spec(s: PowerSupply) -> Seq<(&'static str, i64, Scale)> {
    opt_scaled("current_boot", s.current_boot, Scale::Micro)
    + opt_scaled("current_max", s.current_max, Scale::Micro)
    + opt_scaled("current_ampere", s.current_now, Scale::Micro)
    + opt_scaled("energy_empty", s.energy_empty, Scale::Micro)
    + opt_scaled("energy_empty_design", s.energy_empty_design, Scale::Micro)
    + opt_scaled("energy_full", s.energy_full, Scale::Micro)
    + opt_scaled("energy_full_design", s.energy_full_design, Scale::Micro)
    + opt_scaled("energy_watthour", s.energy_now, Scale::Micro)
    + opt_scaled("voltage_boot", s.voltage_boot, Scale::Micro)
    + opt_scaled("voltage_max", s.voltage_max, Scale::Micro)
    + opt_scaled("voltage_max_design", s.voltage_max_design, Scale::Micro)
    + opt_scaled("voltage_min", s.voltage_min, Scale::Micro)
    + opt_scaled("voltage_min_design", s.voltage_min_design, Scale::Micro)
    + opt_scaled("voltage_volt", s.voltage_now, Scale::Micro)
    + opt_scaled("voltage_ocv", s.voltage_ocv, Scale::Micro)
    + opt_scaled("charge_control_limit", s.charge_control_limit, Scale::Micro)
    + opt_scaled("charge_control_limit_max", s.charge_control_limit_max, Scale::Micro)
    + opt_scaled("charge_counter", s.charge_counter, Scale::Micro)
    + opt_scaled("charge_empty", s.charge_empty, Scale::Micro)
    + opt_scaled("charge_empty_design", s.charge_empty_design, Scale::Micro)
    + opt_scaled("charge_full", s.charge_full, Scale::Micro)
    + opt_scaled("charge_full_design", s.charge_full_design, Scale::Micro)
    + opt_scaled("charge_ampere", s.charge_now, Scale::Micro)
    + opt_scaled("charge_term_current", s.charge_term_current, Scale::Micro)
    + opt_scaled("constant_charge_current", s.constant_charge_current, Scale::Micro)
    + opt_scaled("constant_charge_current_max", s.constant_charge_current_max, Scale::Micro)
    + opt_scaled("constant_charge_voltage", s.constant_charge_voltage, Scale::Micro)
    + opt_scaled("constant_charge_voltage_max", s.constant_charge_voltage_max, Scale::Micro)
    + opt_scaled("precharge_current", s.precharge_current, Scale::Micro)
    + opt_scaled("input_current_limit", s.input_current_limit, Scale::Micro)
    + opt_scaled("power_watt", s.power_now, Scale::Micro)
    + opt_scaled("temp_celsius", s.temp, Scale::Deci)
    + opt_scaled("temp_alert_max_celsius", s.temp_alert_max, Scale::Deci)
    + opt_scaled("temp_alert_min_celsius", s.temp_alert_min, Scale::Deci)
    + opt_scaled("temp_ambient_celsius", s.temp_ambient, Scale::Deci)
    + opt_scaled("temp_ambient_max_celsius", s.temp_ambient_max, Scale::Deci)
    + opt_scaled("temp_ambient_min_celsius", s.temp_ambient_min, Scale::Deci)
    + opt_scaled("temp_max_celsius", s.temp_max, Scale::Deci)
    + opt_scaled("temp_min_celsius", s.temp_min, Scale::Deci)
}

fn push_scaled(out: &mut Vec<(&'static str, i64, Scale)>, stat: &'static str, v: Option<i64>, scale: Scale)
    ensures
        final(out)@ == old(out)@ + opt_scaled(stat, v, scale),
{
    let ghost before = out@;
    match v {
        Some(x) => {
            out.push((stat, x, scale));
        },
        None => {},
    }
    assert(out@ =~= before + opt_scaled(stat, v, scale));
}

impl PowerSupply {
    /// The attributes reported in a unit, each where present.
    pub fn scaled_values(&self) -> (r: Vec<(&'static str, i64, Scale)>)
        ensures
            r@ == scaled_spec(*self),
    {
        let mut out: Vec<(&'static str, i64, Scale)> = Vec::new();
        push_scaled(&mut out, "current_boot", self.current_boot, Scale::Micro);
        push_scaled(&mut out, "current_max", self.current_max, Scale::Micro);
        push_scaled(&mut out, "current_ampere", self.current_now, Scale::Micro);
        push_scaled(&mut out, "energy_empty", self.energy_empty, Scale::Micro);
        push_scaled(&mut out, "energy_empty_design", self.energy_empty_design, Scale::Micro);
        push_scaled(&mut out, "energy_full", self.energy_full, Scale::Micro);
        push_scaled(&mut out, "energy_full_design", self.energy_full_design, Scale::Micro);
        push_scaled(&mut out, "energy_watthour", self.energy_now, Scale::Micro);
        push_scaled(&mut out, "voltage_boot", self.voltage_boot, Scale::Micro);
        push_scaled(&mut out, "voltage_max", self.voltage_max, Scale::Micro);
        push_scaled(&mut out, "voltage_max_design", self.voltage_max_design, Scale::Micro);
        push_scaled(&mut out, "voltage_min", self.voltage_min, Scale::Micro);
        push_scaled(&mut out, "voltage_min_design", self.voltage_min_design, Scale::Micro);
        push_scaled(&mut out, "voltage_volt", self.voltage_now, Scale::Micro);
        push_scaled(&mut out, "voltage_ocv", self.voltage_ocv, Scale::Micro);
        push_scaled(&mut out, "charge_control_limit", self.charge_control_limit, Scale::Micro);
        push_scaled(&mut out, "charge_control_limit_max", self.charge_control_limit_max, Scale::Micro);
        push_scaled(&mut out, "charge_counter", self.charge_counter, Scale::Micro);
        push_scaled(&mut out, "charge_empty", self.charge_empty, Scale::Micro);
        push_scaled(&mut out, "charge_empty_design", self.charge_empty_design, Scale::Micro);
        push_scaled(&mut out, "charge_full", self.charge_full, Scale::Micro);
        push_scaled(&mut out, "charge_full_design", self.charge_full_design, Scale::Micro);
        push_scaled(&mut out, "charge_ampere", self.charge_now, Scale::Micro);
        push_scaled(&mut out, "charge_term_current", self.charge_term_current, Scale::Micro);
        push_scaled(&mut out, "constant_charge_current", self.constant_charge_current, Scale::Micro);
        push_scaled(&mut out, "constant_charge_current_max", self.constant_charge_current_max, Scale::Micro);
        push_scaled(&mut out, "constant_charge_voltage", self.constant_charge_voltage, Scale::Micro);
        push_scaled(&mut out, "constant_charge_voltage_max", self.constant_charge_voltage_max, Scale::Micro);
        push_scaled(&mut out, "precharge_current", self.precharge_current, Scale::Micro);
        push_scaled(&mut out, "input_current_limit", self.input_current_limit, Scale::Micro);
        push_scaled(&mut out, "power_watt", self.power_now, Scale::Micro);
        push_scaled(&mut out, "temp_celsius", self.temp, Scale::Deci);
        push_scaled(&mut out, "temp_alert_max_celsius", self.temp_alert_max, Scale::Deci);
        push_scaled(&mut out, "temp_alert_min_celsius", self.temp_alert_min, Scale::Deci);
        push_scaled(&mut out, "temp_ambient_celsius", self.temp_ambient, Scale::Deci);
        push_scaled(&mut out, "temp_ambient_max_celsius", self.temp_ambient_max, Scale::Deci);
        push_scaled(&mut out, "temp_ambient_min_celsius", self.temp_ambient_min, Scale::Deci);
        push_scaled(&mut out, "temp_max_celsius", self.temp_max, Scale::Deci);
        push_scaled(&mut out, "temp_min_celsius", self.temp_min, Scale::Deci);
        assert(out@ =~= scaled_spec(*self));
        out
    }
}

/// The label `key` with the text of `v`, where present.
pub open spec fn opt_label(key: &'static str, v: Option<String>) -> Seq<(&'static str, TagModel)> {
    match v {
        Some(t) => seq![(key, field(t))],
        None => Seq::empty(),
    }
}

/// The labels of the information sample: the supply's name, then each
/// text attribute that is present.
pub open spec fn info_tags_spec(s: PowerSupply, name: Seq<u8>) -> Seq<(&'static str, TagModel)> {
    supply_tags(name)
        + opt_label("capacity_level", s.capacity_level)
        + opt_label("charge_type", s.charge_type)
        + opt_label("health", s.health)
        + opt_label("manufacturer", s.manufacturer)
        + opt_label("model_name", s.model_name)
        + opt_label("serial_number", s.serial_number)
        + opt_label("status", s.status)
        + opt_label("technology", s.technology)
        + opt_label("type", s.typ)
        + opt_label("usb_type", s.usb_type)
        + opt_label("scope", s.scope)
}

fn push_label<'a>(tags: &mut Vec<(&'static str, TagValue<'a>)>, key: &'static str, v: &'a Option<String>)
    ensures
        tags_view(final(tags)@) == tags_view(old(tags)@) + opt_label(key, *v),
{
    let ghost before = tags_view(tags@);
    match v {
        Some(t) => {
            tags.push((key, TagValue::Field(t.as_str().as_bytes())));
        },
        None => {},
    }
    assert(tags_view(tags@) =~= before + opt_label(key, *v));
}

impl PowerSupply {
    /// The information sample of the supply, whose value is 1.
    pub fn info_sample<'a>(&'a self, name: &'a str) -> (r: Sample<'a>)
        ensures
            r@ == gauge(
                "node_power_supply_info",
                "info of /sys/class/power_supply/<power_supply>.",
                1,
                info_tags_spec(*self, name.spec_bytes()),
            ),
    {
        let mut tags: Vec<(&'static str, TagValue<'a>)> = Vec::new();
        tags.push(("power_supply", TagValue::Field(name.as_bytes())));
        assert(tags_view(tags@) =~= supply_tags(name.spec_bytes()));
        push_label(&mut tags, "capacity_level", &self.capacity_level);
        push_label(&mut tags, "charge_type", &self.charge_type);
        push_label(&mut tags, "health", &self.health);
        push_label(&mut tags, "manufacturer", &self.manufacturer);
        push_label(&mut tags, "model_name", &self.model_name);
        push_label(&mut tags, "serial_number", &self.serial_number);
        push_label(&mut tags, "status", &self.status);
        push_label(&mut tags, "technology", &self.technology);
        push_label(&mut tags, "type", &self.typ);
        push_label(&mut tags, "usb_type", &self.usb_type);
        push_label(&mut tags, "scope", &self.scope);
        let r = Sample {
            name: "node_power_supply_info",
            description: "info of /sys/class/power_supply/<power_supply>.",
            kind: crate::metric::Kind::Gauge,
            value: 1,
            tags,
        };
        assert(r@.tags =~= info_tags_spec(*self, name.spec_bytes()));
        r
    }
}

} // verus!
