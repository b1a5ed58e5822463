use vertex_sources::metric::TagValue;
use vertex_sources::nvidia::{
    column_metric, field_value, gpu_info, gpu_row, gpu_uuid, hex_field, parse_columns,
    query_fields, sanitize, FieldValue, Unit,
};

#[test]
fn sanitized_names() {
    assert_eq!(sanitize("temperature.gpu"), b"nvidia_temperature_gpu".to_vec());
    assert_eq!(sanitize("clocksThrottleReasons"), b"nvidia_clocks_throttle_reasons".to_vec());
    assert_eq!(sanitize("power.draw [W]"), b"nvidia_power_draw".to_vec());
    assert_eq!(sanitize("a\u{3000}b"), b"nvidia_a".to_vec());
    assert_eq!(sanitize("\u{e9}t\u{e9}"), "nvidia_\u{e9}t\u{e9}".as_bytes().to_vec());
}

#[test]
fn column_units() {
    assert_eq!(column_metric("power.draw [W]"), (b"nvidia_power_draw_watts".to_vec(), Unit::Watts));
    assert_eq!(
        column_metric("clocks.current.sm [MHz]"),
        (b"nvidia_clocks_current_sm_clock_hz".to_vec(), Unit::ClockHz)
    );
    assert_eq!(column_metric("memory.used [MiB]"), (b"nvidia_memory_used_bytes".to_vec(), Unit::Bytes));
    assert_eq!(column_metric("utilization.gpu [%]"), (b"nvidia_utilization_gpu_ratio".to_vec(), Unit::Ratio));
    assert_eq!(
        column_metric("clocks_event_reasons_counters.sw_power_cap [us]"),
        (b"nvidia_clocks_event_reasons_counters_sw_power_cap_seconds".to_vec(), Unit::Seconds)
    );
    assert_eq!(column_metric("pstate"), (b"nvidia_pstate".to_vec(), Unit::Plain));
}

#[test]
fn field_values() {
    assert_eq!(field_value(b"[N/A]"), FieldValue::Missing);
    assert_eq!(field_value(b"Enabled"), FieldValue::Known(1));
    assert_eq!(field_value(b"Not Active"), FieldValue::Known(0));
    assert_eq!(field_value(b"Exclusive_Process"), FieldValue::Known(3));
    assert_eq!(field_value(b"P8"), FieldValue::Known(8));
    assert_eq!(field_value(b"P12"), FieldValue::Known(12));
    assert_eq!(field_value(b"35.79 W"), FieldValue::Text(b"35.79"));
    assert_eq!(field_value(b"0x0001"), FieldValue::Text(b"0x0001"));
    assert_eq!(hex_field(b"0x00000000000000ff"), Some(255));
    assert_eq!(hex_field(b"ff"), None);
    assert_eq!(hex_field(b"0xzz"), None);
}

#[test]
fn report_rows() {
    let columns = parse_columns("name, uuid, driver_version, pstate, power.draw [W]");
    assert_eq!(columns.names.len(), 5);
    assert_eq!(columns.name, Some(0));
    assert_eq!(columns.uuid, Some(1));
    assert_eq!(columns.driver_version, Some(2));
    assert_eq!(columns.vbios_version, None);

    let line = "NVIDIA GeForce RTX 3090, GPU-1b3c2a4e-0000, 535.54, P8, 35.79 W";
    let fields = gpu_row(&columns, line).unwrap();
    assert_eq!(fields[4], b"35.79 W");
    assert_eq!(gpu_uuid(&columns, &fields), b"1b3c2a4e-0000");
    let info = gpu_info(&columns, &fields);
    assert_eq!(info.name, "nvidia_gpu_info");
    assert_eq!(
        info.tags,
        vec![
            ("uuid", TagValue::Field(b"1b3c2a4e-0000")),
            ("name", TagValue::Field(b"NVIDIA GeForce RTX 3090")),
            ("driver_version", TagValue::Field(b"535.54")),
        ]
    );
    assert!(gpu_row(&columns, "only, three, cells").is_none());
}

#[test]
fn help_fields() {
    let help = "List of valid properties to query for the switch \"--query-gpu=\":\n\n\"timestamp\"\nThe timestamp of when the query was made in format \"YYYY/MM/DD HH:MM:SS.msec\".\n\n\"driver_version\"\nThe version of the installed NVIDIA display driver.\nMore text.\n\n\"count\"\n";
    let fields = query_fields(help);
    assert_eq!(
        fields,
        vec![
            (
                &b"timestamp"[..],
                &b"The timestamp of when the query was made in format \"YYYY/MM/DD HH:MM:SS.msec\"."[..]
            ),
            (&b"driver_version"[..], &b"The version of the installed NVIDIA display driver."[..]),
        ]
    );
}
