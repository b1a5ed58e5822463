//! The samples that the Redfish resources give: one per property that the
//! source reports, labelled by the system or chassis they belong to.

use vstd::prelude::*;
use vstd::string::StringSliceAdditionalSpecFns;
use vstd::utf8::encode_utf8;

use super::protocol::chassis::thermal::{Fan, Temperature, Thermal};
use super::protocol::chassis::power::PowerSupplyInfo;
use super::protocol::chassis::Chassis;
use super::protocol::system::{
    AlarmTrips, Device, Memory, NetworkInterface, SimpleStorage, Storage, StorageController, StorageDevice,
    System,
};
use super::protocol::Status;
use crate::metric::{
    copy_tags, field, field_of, gauge, push_gauge, push_tag, samples_view, tag_view, tags_view, three_tags, two_tags,
    Kind, Sample, SampleModel, TagModel, TagValue,
};
use crate::text::bytes_eq;

verus! {

/// `Enabled`
pub open spec fn enabled() -> Seq<u8> {
    seq![0x45u8, 0x6eu8, 0x61u8, 0x62u8, 0x6cu8, 0x65u8, 0x64u8]
}

/// `Absent`
pub open spec fn absent() -> Seq<u8> {
    seq![0x41u8, 0x62u8, 0x73u8, 0x65u8, 0x6eu8, 0x74u8]
}

/// `OK`
pub open spec fn ok_text() -> Seq<u8> {
    seq![0x4fu8, 0x4bu8]
}

/// `On`
pub open spec fn on_text() -> Seq<u8> {
    seq![0x4fu8, 0x6eu8]
}

/// The text of `s` is `t`.
pub open spec fn is_text(s: String, t: Seq<u8>) -> bool {
    encode_utf8(s@) == t
}

/// 1 for true, 0 for false.
pub open spec fn flag(b: bool) -> int {
    if b {
        1
    } else {
        0
    }
}

/// A label with the text of `o`, empty when there is none.
pub open spec fn opt_field(o: Option<String>) -> TagModel {
    match o {
        Some(s) => TagModel::Field(encode_utf8(s@)),
        None => TagModel::Field(Seq::empty()),
    }
}

/// `true` or `false`.
pub open spec fn bool_text(b: bool) -> TagModel {
    TagModel::Text(
        if b {
            "true"
        } else {
            "false"
        },
    )
}

/// A gauge for `v`, if there is one.
pub open spec fn opt_gauge(
    name: &'static str,
    description: &'static str,
    v: Option<int>,
    tags: Seq<(&'static str, TagModel)>,
) -> Seq<SampleModel> {
    match v {
        Some(x) => seq![gauge(name, description, x, tags)],
        None => Seq::empty(),
    }
}

/// The value of an optional reading.
pub open spec fn opt_int(v: Option<i64>) -> Option<int> {
    match v {
        Some(x) => Some(x as int),
        None => None,
    }
}

/// The value of an optional count.
pub open spec fn opt_size(v: Option<usize>) -> Option<int> {
    match v {
        Some(x) => Some(x as int),
        None => None,
    }
}

/// 1 when the health is `OK`, if a health is given.
pub open spec fn health_flag(health: Option<String>) -> Option<int> {
    match health {
        Some(h) => Some(flag(is_text(h, ok_text()))),
        None => None,
    }
}

fn text_is(s: &String, t: &[u8]) -> (r: bool)
    ensures
        r == is_text(*s, t@),
{
    bytes_eq(s.as_str().as_bytes(), t)
}

fn opt_field_of<'a>(o: &'a Option<String>) -> (r: TagValue<'a>)
    ensures
        tag_view(r) == opt_field(*o),
{
    match o {
        Some(s) => TagValue::Field(s.as_str().as_bytes()),
        None => {
            let none: &[u8] = &[];
            assert(none@ =~= Seq::<u8>::empty());
            TagValue::Field(none)
        },
    }
}

fn bool_of<'a>(b: bool) -> (r: TagValue<'a>)
    ensures
        tag_view(r) == bool_text(b),
{
    if b {
        TagValue::Text("true")
    } else {
        TagValue::Text("false")
    }
}

fn flag_of(b: bool) -> (r: i128)
    ensures
        r == flag(b),
{
    if b {
        1
    } else {
        0
    }
}

fn ok_of(status: &Status) -> (r: Option<i128>)
    ensures
        match health_flag(status.health) {
            Some(x) => r == Some(x as i128),
            None => r is None,
        },
{
    proof {
        lemma_literals();
    }
    match &status.health {
        Some(h) => Some(flag_of(text_is(h, [0x4fu8, 0x4bu8].as_slice()))),
        None => None,
    }
}

proof fn lemma_literals()
    ensures
        [0x45u8, 0x6eu8, 0x61u8, 0x62u8, 0x6cu8, 0x65u8, 0x64u8]@ == enabled(),
        [0x41u8, 0x62u8, 0x73u8, 0x65u8, 0x6eu8, 0x74u8]@ == absent(),
        [0x4fu8, 0x4bu8]@ == ok_text(),
        [0x4fu8, 0x6eu8]@ == on_text(),
{
    assert([0x45u8, 0x6eu8, 0x61u8, 0x62u8, 0x6cu8, 0x65u8, 0x64u8]@ =~= enabled());
    assert([0x41u8, 0x62u8, 0x73u8, 0x65u8, 0x6eu8, 0x74u8]@ =~= absent());
    assert([0x4fu8, 0x4bu8]@ =~= ok_text());
    assert([0x4fu8, 0x6eu8]@ =~= on_text());
}

fn is_enabled(status: &Status) -> (r: bool)
    ensures
        r == is_text(status.state, enabled()),
{
    proof {
        lemma_literals();
    }
    text_is(&status.state, [0x45u8, 0x6eu8, 0x61u8, 0x62u8, 0x6cu8, 0x65u8, 0x64u8].as_slice())
}

fn is_absent(status: &Status) -> (r: bool)
    ensures
        r == is_text(status.state, absent()),
{
    proof {
        lemma_literals();
    }
    text_is(&status.state, [0x41u8, 0x62u8, 0x73u8, 0x65u8, 0x6eu8, 0x74u8].as_slice())
}

/// The labels that name a fan or a temperature sensor of a chassis.
pub open spec fn sensor_tags(chassis: Seq<u8>, name: String, member_id: String) -> Seq<(&'static str, TagModel)> {
    seq![("chassis", TagModel::Field(chassis)), ("name", field(name)), ("member_id", field(member_id))]
}

/// The description and the state of a fan.
pub open spec fn fan_head(chassis: Seq<u8>, fan: Fan) -> Seq<SampleModel> {
    let ids = sensor_tags(chassis, fan.name, fan.member_id);
    seq![
        gauge(
            "redfish_system_thermal_fan_info",
            "",
            1,
            ids + seq![
                ("manufacturer", opt_field(fan.manufacturer)),
                (
                    "hot_pluggable",
                    bool_text(
                        match fan.hot_pluggable {
                            Some(b) => b,
                            None => false,
                        },
                    ),
                ),
            ],
        ),
        gauge("redfish_chassis_fan_state", "fan status", flag(is_text(fan.status.state, enabled())), ids),
    ]
}

/// The health, speed and lower thresholds of a fan, where given.
pub open spec fn fan_readings(chassis: Seq<u8>, fan: Fan) -> Seq<SampleModel> {
    let ids = sensor_tags(chassis, fan.name, fan.member_id);
    opt_gauge("redfish_chassis_fan_health", "fan health", health_flag(fan.status.health), ids) + (
    opt_gauge("redfish_chassis_fan_speed", "fan speed in RPM", opt_int(fan.reading), ids) + (opt_gauge(
        "redfish_chassis_fan_lower_threshold_critical",
        "",
        opt_int(fan.lower_threshold_critical),
        ids,
    ) + (opt_gauge("redfish_chassis_fan_lower_threshold_fatal", "", opt_int(fan.lower_threshold_fatal), ids)
        + opt_gauge(
        "redfish_chassis_fan_lower_threshold_non_critical",
        "",
        opt_int(fan.lower_threshold_non_critical),
        ids,
    ))))
}

/// The samples of a fan: its description and state, and, unless it is
/// absent, its health, speed and lower thresholds where given.
pub open spec fn fan_samples(chassis: Seq<u8>, fan: Fan) -> Seq<SampleModel> {
    if is_text(fan.status.state, absent()) {
        fan_head(chassis, fan)
    } else {
        fan_head(chassis, fan) + fan_readings(chassis, fan)
    }
}

/// The health, where given, and the state of a temperature sensor.
pub open spec fn temperature_head(chassis: Seq<u8>, t: Temperature) -> Seq<SampleModel> {
    let ids = sensor_tags(chassis, t.name, t.member_id);
    opt_gauge(
        "redfish_chassis_temperature_health",
        "Temperature sensor health state",
        health_flag(t.status.health),
        ids,
    ) + seq![
        gauge(
            "redfish_chassis_temperature_state",
            "Temperature sensor state",
            flag(is_text(t.status.state, enabled())),
            ids,
        ),
    ]
}

/// The upper thresholds and the reading of a temperature sensor, where
/// given.
pub open spec fn temperature_readings(chassis: Seq<u8>, t: Temperature) -> Seq<SampleModel> {
    let ids = sensor_tags(chassis, t.name, t.member_id);
    opt_gauge(
        "redfish_chassis_temperature_upper_threshold_non_critical",
        "",
        opt_int(t.upper_threshold_non_critical),
        ids,
    ) + (opt_gauge(
        "redfish_chassis_temperature_upper_threshold_critical",
        "",
        opt_int(t.upper_threshold_critical),
        ids,
    ) + (opt_gauge(
        "redfish_chassis_temperature_upper_threshold_fatal",
        "",
        opt_int(t.upper_threshold_fatal),
        ids,
    ) + opt_gauge(
        "redfish_chassis_temperature_celsius",
        "Temperature the sensors reported",
        opt_int(t.reading_celsius),
        ids,
    )))
}

/// The samples of a temperature sensor: its health where given and its
/// state, and, unless it is absent, its upper thresholds and reading where
/// given.
pub open spec fn temperature_samples(chassis: Seq<u8>, t: Temperature) -> Seq<SampleModel> {
    if is_text(t.status.state, absent()) {
        temperature_head(chassis, t)
    } else {
        temperature_head(chassis, t) + temperature_readings(chassis, t)
    }
}

/// The samples of the first `n` fans.
pub open spec fn fans_samples(chassis: Seq<u8>, fans: Seq<Fan>, n: nat) -> Seq<SampleModel>
    decreases n,
{
    if n == 0 || n > fans.len() {
        Seq::empty()
    } else {
        fans_samples(chassis, fans, (n - 1) as nat) + fan_samples(chassis, fans[n - 1])
    }
}

/// The samples of the first `n` temperature sensors.
pub open spec fn temperatures_samples(chassis: Seq<u8>, ts: Seq<Temperature>, n: nat) -> Seq<SampleModel>
    decreases n,
{
    if n == 0 || n > ts.len() {
        Seq::empty()
    } else {
        temperatures_samples(chassis, ts, (n - 1) as nat) + temperature_samples(chassis, ts[n - 1])
    }
}

/// The samples of a chassis's `Thermal` resource: its fans, then its
/// temperature sensors.
pub open spec fn thermal_samples_spec(chassis: Seq<u8>, thermal: Thermal) -> Seq<SampleModel> {
    fans_samples(chassis, thermal.fans@, thermal.fans@.len()) + temperatures_samples(
        chassis,
        thermal.temperatures@,
        thermal.temperatures@.len(),
    )
}

fn sensor_tags_of<'a>(chassis: &'a [u8], name: &'a String, member_id: &'a String) -> (r: Vec<
    (&'static str, TagValue<'a>),
>)
    ensures
        tags_view(r@) == sensor_tags(chassis@, *name, *member_id),
{
    three_tags("chassis", TagValue::Field(chassis), "name", field_of(name), "member_id", field_of(member_id))
}

fn push_opt<'a>(
    out: &mut Vec<Sample<'a>>,
    name: &'static str,
    description: &'static str,
    v: Option<i128>,
    tags: Vec<(&'static str, TagValue<'a>)>,
)
    ensures
        samples_view(final(out)@) == samples_view(old(out)@) + opt_gauge(
            name,
            description,
            match v {
                Some(x) => Some(x as int),
                None => None,
            },
            tags_view(tags@),
        ),
{
    let ghost before = samples_view(out@);
    match v {
        Some(x) => {
            push_gauge(out, name, description, x, tags);
            assert(samples_view(out@) =~= before + seq![gauge(name, description, x as int, tags_view(tags@))]);
        },
        None => {
            assert(before + Seq::<SampleModel>::empty() =~= before);
        },
    }
}

fn opt_reading(v: Option<i64>) -> (r: Option<i128>)
    ensures
        match r {
            Some(x) => opt_int(v) == Some(x as int),
            None => opt_int(v) is None,
        },
{
    match v {
        Some(x) => Some(x as i128),
        None => None,
    }
}

fn opt_count(v: Option<usize>) -> (r: Option<i128>)
    ensures
        match r {
            Some(x) => opt_size(v) == Some(x as int),
            None => opt_size(v) is None,
        },
{
    match v {
        Some(x) => Some(x as i128),
        None => None,
    }
}

/// Appends `tail` and `rest` in turn: the samples are `old + (tail + rest)`.
proof fn lemma_add_assoc(a: Seq<SampleModel>, b: Seq<SampleModel>, c: Seq<SampleModel>)
    ensures
        a + b + c == a + (b + c),
{
    assert(a + b + c =~= a + (b + c));
}

fn push_fan_head<'a>(out: &mut Vec<Sample<'a>>, chassis: &'a [u8], fan: &'a Fan)
    ensures
        samples_view(final(out)@) == samples_view(old(out)@) + fan_head(chassis@, *fan),
{
    let ghost start = samples_view(out@);
    let ghost ids = sensor_tags(chassis@, fan.name, fan.member_id);
    let mut info = sensor_tags_of(chassis, &fan.name, &fan.member_id);
    info.push(("manufacturer", opt_field_of(&fan.manufacturer)));
    let hot = match fan.hot_pluggable {
        Some(b) => b,
        None => false,
    };
    info.push(("hot_pluggable", bool_of(hot)));
    assert(tags_view(info@) =~= ids + seq![("manufacturer", opt_field(fan.manufacturer)), ("hot_pluggable", bool_text(hot))]);
    push_gauge(out, "redfish_system_thermal_fan_info", "", 1, info);
    push_gauge(
        out,
        "redfish_chassis_fan_state",
        "fan status",
        flag_of(is_enabled(&fan.status)),
        sensor_tags_of(chassis, &fan.name, &fan.member_id),
    );
    let ghost spec_head = seq![
        gauge(
            "redfish_system_thermal_fan_info",
            "",
            1,
            ids + seq![("manufacturer", opt_field(fan.manufacturer)), ("hot_pluggable", bool_text(hot))],
        ),
        gauge("redfish_chassis_fan_state", "fan status", flag(is_text(fan.status.state, enabled())), ids),
    ];
    assert(samples_view(out@) =~= start + spec_head);
    assert(fan_head(chassis@, *fan)[0].tags =~= spec_head[0].tags);
    assert(fan_head(chassis@, *fan)[0] == spec_head[0]);
    assert(fan_head(chassis@, *fan)[1] == spec_head[1]);
    assert(fan_head(chassis@, *fan) =~= spec_head);
}

fn push_fan_readings<'a>(out: &mut Vec<Sample<'a>>, chassis: &'a [u8], fan: &'a Fan)
    ensures
        samples_view(final(out)@) == samples_view(old(out)@) + fan_readings(chassis@, *fan),
{
    let ghost s0 = samples_view(out@);
    let ghost ids = sensor_tags(chassis@, fan.name, fan.member_id);
    let ghost a = opt_gauge("redfish_chassis_fan_health", "fan health", health_flag(fan.status.health), ids);
    let ghost b = opt_gauge("redfish_chassis_fan_speed", "fan speed in RPM", opt_int(fan.reading), ids);
    let ghost c = opt_gauge(
        "redfish_chassis_fan_lower_threshold_critical",
        "",
        opt_int(fan.lower_threshold_critical),
        ids,
    );
    let ghost d = opt_gauge("redfish_chassis_fan_lower_threshold_fatal", "", opt_int(fan.lower_threshold_fatal), ids);
    let ghost e = opt_gauge(
        "redfish_chassis_fan_lower_threshold_non_critical",
        "",
        opt_int(fan.lower_threshold_non_critical),
        ids,
    );
    push_opt(out, "redfish_chassis_fan_health", "fan health", ok_of(&fan.status), sensor_tags_of(chassis, &fan.name, &fan.member_id));
    let ghost s1 = samples_view(out@);
    push_opt(out, "redfish_chassis_fan_speed", "fan speed in RPM", opt_reading(fan.reading), sensor_tags_of(chassis, &fan.name, &fan.member_id));
    let ghost s2 = samples_view(out@);
    push_opt(
        out,
        "redfish_chassis_fan_lower_threshold_critical",
        "",
        opt_reading(fan.lower_threshold_critical),
        sensor_tags_of(chassis, &fan.name, &fan.member_id),
    );
    let ghost s3 = samples_view(out@);
    push_opt(
        out,
        "redfish_chassis_fan_lower_threshold_fatal",
        "",
        opt_reading(fan.lower_threshold_fatal),
        sensor_tags_of(chassis, &fan.name, &fan.member_id),
    );
    let ghost s4 = samples_view(out@);
    push_opt(
        out,
        "redfish_chassis_fan_lower_threshold_non_critical",
        "",
        opt_reading(fan.lower_threshold_non_critical),
        sensor_tags_of(chassis, &fan.name, &fan.member_id),
    );
    proof {
        assert(s1 == s0 + a);
        assert(s2 == s1 + b);
        assert(s3 == s2 + c);
        assert(s4 == s3 + d);
        assert(samples_view(out@) == s4 + e);
        lemma_add_assoc(s3, d, e);
        lemma_add_assoc(s2, c, d + e);
        lemma_add_assoc(s1, b, c + (d + e));
        lemma_add_assoc(s0, a, b + (c + (d + e)));
    }
}

fn push_fan<'a>(out: &mut Vec<Sample<'a>>, chassis: &'a [u8], fan: &'a Fan)
    ensures
        samples_view(final(out)@) == samples_view(old(out)@) + fan_samples(chassis@, *fan),
{
    let ghost start = samples_view(out@);
    push_fan_head(out, chassis, fan);
    if is_absent(&fan.status) {
        return;
    }
    push_fan_readings(out, chassis, fan);
    proof {
        lemma_add_assoc(start, fan_head(chassis@, *fan), fan_readings(chassis@, *fan));
    }
}

fn push_temperature_head<'a>(out: &mut Vec<Sample<'a>>, chassis: &'a [u8], t: &'a Temperature)
    ensures
        samples_view(final(out)@) == samples_view(old(out)@) + temperature_head(chassis@, *t),
{
    let ghost s0 = samples_view(out@);
    let ghost ids = sensor_tags(chassis@, t.name, t.member_id);
    push_opt(
        out,
        "redfish_chassis_temperature_health",
        "Temperature sensor health state",
        ok_of(&t.status),
        sensor_tags_of(chassis, &t.name, &t.member_id),
    );
    let ghost s1 = samples_view(out@);
    push_gauge(
        out,
        "redfish_chassis_temperature_state",
        "Temperature sensor state",
        flag_of(is_enabled(&t.status)),
        sensor_tags_of(chassis, &t.name, &t.member_id),
    );
    proof {
        let a = opt_gauge(
            "redfish_chassis_temperature_health",
            "Temperature sensor health state",
            health_flag(t.status.health),
            ids,
        );
        let b = seq![
            gauge(
                "redfish_chassis_temperature_state",
                "Temperature sensor state",
                flag(is_text(t.status.state, enabled())),
                ids,
            ),
        ];
        assert(samples_view(out@) =~= s1 + b);
        lemma_add_assoc(s0, a, b);
    }
}

fn push_temperature_readings<'a>(out: &mut Vec<Sample<'a>>, chassis: &'a [u8], t: &'a Temperature)
    ensures
        samples_view(final(out)@) == samples_view(old(out)@) + temperature_readings(chassis@, *t),
{
    let ghost s0 = samples_view(out@);
    let ghost ids = sensor_tags(chassis@, t.name, t.member_id);
    let ghost a = opt_gauge(
        "redfish_chassis_temperature_upper_threshold_non_critical",
        "",
        opt_int(t.upper_threshold_non_critical),
        ids,
    );
    let ghost b = opt_gauge(
        "redfish_chassis_temperature_upper_threshold_critical",
        "",
        opt_int(t.upper_threshold_critical),
        ids,
    );
    let ghost c = opt_gauge(
        "redfish_chassis_temperature_upper_threshold_fatal",
        "",
        opt_int(t.upper_threshold_fatal),
        ids,
    );
    let ghost d = opt_gauge(
        "redfish_chassis_temperature_celsius",
        "Temperature the sensors reported",
        opt_int(t.reading_celsius),
        ids,
    );
    push_opt(
        out,
        "redfish_chassis_temperature_upper_threshold_non_critical",
        "",
        opt_reading(t.upper_threshold_non_critical),
        sensor_tags_of(chassis, &t.name, &t.member_id),
    );
    let ghost s1 = samples_view(out@);
    push_opt(
        out,
        "redfish_chassis_temperature_upper_threshold_critical",
        "",
        opt_reading(t.upper_threshold_critical),
        sensor_tags_of(chassis, &t.name, &t.member_id),
    );
    let ghost s2 = samples_view(out@);
    push_opt(
        out,
        "redfish_chassis_temperature_upper_threshold_fatal",
        "",
        opt_reading(t.upper_threshold_fatal),
        sensor_tags_of(chassis, &t.name, &t.member_id),
    );
    let ghost s3 = samples_view(out@);
    push_opt(
        out,
        "redfish_chassis_temperature_celsius",
        "Temperature the sensors reported",
        opt_reading(t.reading_celsius),
        sensor_tags_of(chassis, &t.name, &t.member_id),
    );
    proof {
        assert(s1 == s0 + a);
        assert(s2 == s1 + b);
        assert(s3 == s2 + c);
        assert(samples_view(out@) == s3 + d);
        lemma_add_assoc(s2, c, d);
        lemma_add_assoc(s1, b, c + d);
        lemma_add_assoc(s0, a, b + (c + d));
    }
}

fn push_temperature<'a>(out: &mut Vec<Sample<'a>>, chassis: &'a [u8], t: &'a Temperature)
    ensures
        samples_view(final(out)@) == samples_view(old(out)@) + temperature_samples(chassis@, *t),
{
    let ghost start = samples_view(out@);
    push_temperature_head(out, chassis, t);
    if is_absent(&t.status) {
        return;
    }
    push_temperature_readings(out, chassis, t);
    proof {
        lemma_add_assoc(start, temperature_head(chassis@, *t), temperature_readings(chassis@, *t));
    }
}

/// The samples of the `Thermal` resource of the chassis `chassis`.
pub fn thermal_samples<'a>(chassis: &'a str, thermal: &'a Thermal) -> (r: Vec<Sample<'a>>)
    ensures
        samples_view(r@) == thermal_samples_spec(chassis.spec_bytes(), *thermal),
{
    let c: &'a [u8] = chassis.as_bytes();
    let mut out: Vec<Sample<'a>> = Vec::new();
    let mut i: usize = 0;
    assert(samples_view(out@) =~= Seq::<SampleModel>::empty());
    while i < thermal.fans.len()
        invariant
            i <= thermal.fans@.len(),
            c@ == chassis.spec_bytes(),
            samples_view(out@) == fans_samples(c@, thermal.fans@, i as nat),
        decreases thermal.fans@.len() - i,
    {
        push_fan(&mut out, c, &thermal.fans[i]);
        i = i + 1;
    }
    let ghost fans = samples_view(out@);
    let mut j: usize = 0;
    assert(fans + temperatures_samples(c@, thermal.temperatures@, 0) =~= fans);
    while j < thermal.temperatures.len()
        invariant
            j <= thermal.temperatures@.len(),
            c@ == chassis.spec_bytes(),
            samples_view(out@) == fans + temperatures_samples(c@, thermal.temperatures@, j as nat),
        decreases thermal.temperatures@.len() - j,
    {
        push_temperature(&mut out, c, &thermal.temperatures[j]);
        assert(fans + temperatures_samples(c@, thermal.temperatures@, (j + 1) as nat) =~= fans
            + temperatures_samples(c@, thermal.temperatures@, j as nat) + temperature_samples(
            c@,
            thermal.temperatures@[j as int],
        ));
        j = j + 1;
    }
    out
}

fn number_of<'a>(n: usize) -> (r: TagValue<'a>)
    ensures
        tag_view(r) == TagModel::Number(n as u64),
{
    TagValue::Number(n as u64)
}

/// The power state is `On`.
pub open spec fn power_on(state: Option<String>) -> bool {
    match state {
        Some(p) => is_text(p, on_text()),
        None => false,
    }
}

fn is_on(state: &Option<String>) -> (r: bool)
    ensures
        r == power_on(*state),
{
    proof {
        lemma_literals();
    }
    match state {
        Some(p) => text_is(p, [0x4fu8, 0x6eu8].as_slice()),
        None => false,
    }
}

/// The power state and the health, where given, of a resource with
/// labels `ids`, when it has a status.
pub open spec fn status_samples(
    power_name: &'static str,
    power_description: &'static str,
    power: bool,
    health_name: &'static str,
    health_description: &'static str,
    status: Option<Status>,
    ids: Seq<(&'static str, TagModel)>,
) -> Seq<SampleModel> {
    match status {
        None => Seq::empty(),
        Some(st) => seq![gauge(power_name, power_description, flag(power), ids)] + opt_gauge(
            health_name,
            health_description,
            health_flag(st.health),
            ids,
        ),
    }
}

fn push_status<'a>(
    out: &mut Vec<Sample<'a>>,
    power_name: &'static str,
    power_description: &'static str,
    power: bool,
    health_name: &'static str,
    health_description: &'static str,
    status: &Option<Status>,
    ids: &Vec<(&'static str, TagValue<'a>)>,
)
    ensures
        samples_view(final(out)@) == samples_view(old(out)@) + status_samples(
            power_name,
            power_description,
            power,
            health_name,
            health_description,
            *status,
            tags_view(ids@),
        ),
{
    let ghost s0 = samples_view(out@);
    match status {
        None => {
            assert(s0 + Seq::<SampleModel>::empty() =~= s0);
        },
        Some(st) => {
            push_gauge(out, power_name, power_description, flag_of(power), copy_tags(ids));
            let ghost s1 = samples_view(out@);
            push_opt(out, health_name, health_description, ok_of(st), copy_tags(ids));
            proof {
                lemma_add_assoc(
                    s0,
                    seq![gauge(power_name, power_description, flag(power), tags_view(ids@))],
                    opt_gauge(health_name, health_description, health_flag(st.health), tags_view(ids@)),
                );
            }
        },
    }
}

/// The labels `system` and `name` of a system.
pub open spec fn system_ids(s: System) -> Seq<(&'static str, TagModel)> {
    seq![("system", field(s.id)), ("name", field(s.name))]
}

/// The labels of the information sample of a system.
pub open spec fn system_info_tags(s: System) -> Seq<(&'static str, TagModel)> {
    system_ids(s) + seq![
        ("system_type", field(s.system_type)),
        ("manufacturer", field(s.manufacturer)),
        ("model", field(s.model)),
        ("sku", field(s.sku)),
        ("serial_number", field(s.serial_number)),
        ("part_number", field(s.part_number)),
        ("bios_version", field(s.bios_version)),
        ("uuid", field(s.uuid)),
        ("hostname", field(s.host_name)),
        ("asset_tag", field(s.asset_tag)),
    ]
}

/// The samples of a system: its description, and, when it has a status,
/// whether it is powered on and whether it is healthy, where given.
pub open spec fn system_samples_spec(s: System) -> Seq<SampleModel> {
    seq![gauge("redfish_system_info", "Information of the system", 1, system_info_tags(s))] + status_samples(
        "redfish_system_power_state",
        "Power state of the system",
        power_on(s.power_state),
        "redfish_system_health",
        "Health status of the system",
        s.status,
        system_ids(s),
    )
}

/// The samples of a system.
pub fn system_samples<'a>(s: &'a System) -> (r: Vec<Sample<'a>>)
    ensures
        samples_view(r@) == system_samples_spec(*s),
{
    let ids = two_tags("system", field_of(&s.id), "name", field_of(&s.name));
    let mut info = copy_tags(&ids);
    push_tag(&mut info, "system_type", field_of(&s.system_type));
    push_tag(&mut info, "manufacturer", field_of(&s.manufacturer));
    push_tag(&mut info, "model", field_of(&s.model));
    push_tag(&mut info, "sku", field_of(&s.sku));
    push_tag(&mut info, "serial_number", field_of(&s.serial_number));
    push_tag(&mut info, "part_number", field_of(&s.part_number));
    push_tag(&mut info, "bios_version", field_of(&s.bios_version));
    push_tag(&mut info, "uuid", field_of(&s.uuid));
    push_tag(&mut info, "hostname", field_of(&s.host_name));
    push_tag(&mut info, "asset_tag", field_of(&s.asset_tag));
    assert(tags_view(info@) =~= system_info_tags(*s));
    let mut out: Vec<Sample<'a>> = Vec::new();
    push_gauge(&mut out, "redfish_system_info", "Information of the system", 1, info);
    let ghost s1 = samples_view(out@);
    push_status(
        &mut out,
        "redfish_system_power_state",
        "Power state of the system",
        is_on(&s.power_state),
        "redfish_system_health",
        "Health status of the system",
        &s.status,
        &ids,
    );
    assert(s1 =~= seq![gauge("redfish_system_info", "Information of the system", 1, system_info_tags(*s))]);
    out
}

/// The labels `id` and `name` of a chassis.
pub open spec fn chassis_ids(c: Chassis) -> Seq<(&'static str, TagModel)> {
    seq![("id", field(c.id)), ("name", field(c.name))]
}

/// The labels of the information sample of a chassis.
pub open spec fn chassis_info_tags(c: Chassis) -> Seq<(&'static str, TagModel)> {
    chassis_ids(c) + seq![
        ("chassis_type", opt_field(c.chassis_type)),
        ("asset_tag", opt_field(c.asset_tag)),
        ("manufacturer", opt_field(c.manufacturer)),
        ("model", opt_field(c.model)),
        ("sku", opt_field(c.sku)),
        ("serial_number", opt_field(c.serial_number)),
        ("part_number", opt_field(c.part_number)),
    ]
}

/// The state of a chassis and its health, where given, when it has a
/// status.
pub open spec fn chassis_status(c: Chassis) -> Seq<SampleModel> {
    match c.status {
        None => Seq::empty(),
        Some(st) => seq![
            gauge("redfish_chassis_state", "state of the chassis", flag(is_text(st.state, enabled())), chassis_ids(c)),
        ] + opt_gauge("redfish_chassis_health", "Health status of the chassis", health_flag(st.health), chassis_ids(c)),
    }
}

/// The samples of a chassis: its description and whether it is powered
/// on, then its state and health.
pub open spec fn chassis_samples_spec(c: Chassis) -> Seq<SampleModel> {
    seq![
        gauge("redfish_chassis_info", "The information of the chassis", 1, chassis_info_tags(c)),
        gauge("redfish_chassis_power_state", "Power state of the chassis", flag(power_on(c.power_state)), chassis_ids(c)),
    ] + chassis_status(c)
}

/// The samples of a chassis.
pub fn chassis_samples<'a>(c: &'a Chassis) -> (r: Vec<Sample<'a>>)
    ensures
        samples_view(r@) == chassis_samples_spec(*c),
{
    let ids = two_tags("id", field_of(&c.id), "name", field_of(&c.name));
    let mut info = copy_tags(&ids);
    push_tag(&mut info, "chassis_type", opt_field_of(&c.chassis_type));
    push_tag(&mut info, "asset_tag", opt_field_of(&c.asset_tag));
    push_tag(&mut info, "manufacturer", opt_field_of(&c.manufacturer));
    push_tag(&mut info, "model", opt_field_of(&c.model));
    push_tag(&mut info, "sku", opt_field_of(&c.sku));
    push_tag(&mut info, "serial_number", opt_field_of(&c.serial_number));
    push_tag(&mut info, "part_number", opt_field_of(&c.part_number));
    assert(tags_view(info@) =~= chassis_info_tags(*c));
    let mut out: Vec<Sample<'a>> = Vec::new();
    push_gauge(&mut out, "redfish_chassis_info", "The information of the chassis", 1, info);
    push_gauge(&mut out, "redfish_chassis_power_state", "Power state of the chassis", flag_of(is_on(&c.power_state)), copy_tags(&ids));
    let ghost s2 = samples_view(out@);
    assert(s2 =~= seq![
        gauge("redfish_chassis_info", "The information of the chassis", 1, chassis_info_tags(*c)),
        gauge("redfish_chassis_power_state", "Power state of the chassis", flag(power_on(c.power_state)), chassis_ids(*c)),
    ]);
    match &c.status {
        None => {
            assert(s2 + Seq::<SampleModel>::empty() =~= s2);
        },
        Some(st) => {
            push_gauge(&mut out, "redfish_chassis_state", "state of the chassis", flag_of(is_enabled(st)), copy_tags(&ids));
            let ghost s3 = samples_view(out@);
            push_opt(&mut out, "redfish_chassis_health", "Health status of the chassis", ok_of(st), copy_tags(&ids));
            proof {
                lemma_add_assoc(
                    s2,
                    seq![gauge("redfish_chassis_state", "state of the chassis", flag(is_text(st.state, enabled())), chassis_ids(*c))],
                    opt_gauge("redfish_chassis_health", "Health status of the chassis", health_flag(st.health), chassis_ids(*c)),
                );
            }
        },
    }
    out
}

/// The labels `system`, `id` and `name` of a resource of a system.
pub open spec fn member_ids(system: Seq<u8>, id: String, name: String) -> Seq<(&'static str, TagModel)> {
    seq![("system", TagModel::Field(system)), ("id", field(id)), ("name", field(name))]
}

fn member_ids_of<'a>(system: &'a [u8], id: &'a String, name: &'a String) -> (r: Vec<(&'static str, TagValue<'a>)>)
    ensures
        tags_view(r@) == member_ids(system@, *id, *name),
{
    three_tags("system", TagValue::Field(system), "id", field_of(id), "name", field_of(name))
}

/// The labels of the information sample of a memory module.
pub open spec fn memory_info_tags(system: Seq<u8>, m: Memory) -> Seq<(&'static str, TagModel)> {
    member_ids(system, m.id, m.name) + seq![
        ("rank_count", TagModel::Number(m.rank_count)),
        ("capacity_mib", TagModel::Number(m.capacity_mib as u64)),
        ("data_width_bits", TagModel::Number(m.data_width_bits as u64)),
        ("bus_width_bits", TagModel::Number(m.bus_width_bits as u64)),
        ("error_correction", field(m.error_correction)),
        ("memory_type", field(m.memory_type)),
        ("memory_device_type", field(m.memory_device_type)),
        ("base_module_type", field(m.base_module_type)),
    ] + match m.memory_location {
        Some(l) => seq![
            ("socket", TagModel::Number(l.socket as u64)),
            ("memory_controller", TagModel::Number(l.memory_controller as u64)),
            ("channel", TagModel::Number(l.channel as u64)),
            ("slot", TagModel::Number(l.slot as u64)),
        ],
        None => Seq::empty(),
    }
}

/// The samples of a memory module of a system: its description, state,
/// capacity in bytes and speed, and its health where given.
pub open spec fn memory_samples_spec(system: Seq<u8>, m: Memory) -> Seq<SampleModel> {
    let ids = member_ids(system, m.id, m.name);
    seq![
        gauge("redfish_system_memory_info", "Memory information of the system", 1, memory_info_tags(system, m)),
        gauge("redfish_system_memory_state", "Memory state, 1 for enabled", flag(is_text(m.status.state, enabled())), ids),
        gauge("redfish_system_memory_capacity", "Memory capacity in bytes", m.capacity_mib * 1024 * 1024, ids),
        gauge("redfish_system_memory_operating_speed", "Memory speed in MHz", m.operating_speed_mhz as int, ids),
    ] + opt_gauge("redfish_system_memory_health", "Memory health, 1 for ok", health_flag(m.status.health), ids)
}

/// The samples of the memory module `m` of the system `system`. Its
/// capacity in bytes must fit a `usize`.
pub fn memory_samples<'a>(system: &'a str, m: &'a Memory) -> (r: Vec<Sample<'a>>)
    requires
        m.capacity_mib * 1024 * 1024 <= usize::MAX,
    ensures
        samples_view(r@) == memory_samples_spec(system.spec_bytes(), *m),
{
    let sys: &'a [u8] = system.as_bytes();
    let mut info = member_ids_of(sys, &m.id, &m.name);
    push_tag(&mut info, "rank_count", TagValue::Number(m.rank_count));
    push_tag(&mut info, "capacity_mib", number_of(m.capacity_mib));
    push_tag(&mut info, "data_width_bits", number_of(m.data_width_bits));
    push_tag(&mut info, "bus_width_bits", number_of(m.bus_width_bits));
    push_tag(&mut info, "error_correction", field_of(&m.error_correction));
    push_tag(&mut info, "memory_type", field_of(&m.memory_type));
    push_tag(&mut info, "memory_device_type", field_of(&m.memory_device_type));
    push_tag(&mut info, "base_module_type", field_of(&m.base_module_type));
    let ghost fixed = tags_view(info@);
    match &m.memory_location {
        Some(l) => {
            push_tag(&mut info, "socket", number_of(l.socket));
            push_tag(&mut info, "memory_controller", number_of(l.memory_controller));
            push_tag(&mut info, "channel", number_of(l.channel));
            push_tag(&mut info, "slot", number_of(l.slot));
        },
        None => {},
    }
    assert(tags_view(info@) =~= memory_info_tags(sys@, *m));
    let mut out: Vec<Sample<'a>> = Vec::new();
    push_gauge(&mut out, "redfish_system_memory_info", "Memory information of the system", 1, info);
    push_gauge(
        &mut out,
        "redfish_system_memory_state",
        "Memory state, 1 for enabled",
        flag_of(is_enabled(&m.status)),
        member_ids_of(sys, &m.id, &m.name),
    );
    let capacity = m.capacity_mib * 1024 * 1024;
    push_gauge(&mut out, "redfish_system_memory_capacity", "Memory capacity in bytes", capacity as i128, member_ids_of(sys, &m.id, &m.name));
    push_gauge(
        &mut out,
        "redfish_system_memory_operating_speed",
        "Memory speed in MHz",
        m.operating_speed_mhz as i128,
        member_ids_of(sys, &m.id, &m.name),
    );
    let ghost s4 = samples_view(out@);
    let ghost ids = member_ids(sys@, m.id, m.name);
    assert(s4 =~= seq![
        gauge("redfish_system_memory_info", "Memory information of the system", 1, memory_info_tags(sys@, *m)),
        gauge("redfish_system_memory_state", "Memory state, 1 for enabled", flag(is_text(m.status.state, enabled())), ids),
        gauge("redfish_system_memory_capacity", "Memory capacity in bytes", m.capacity_mib * 1024 * 1024, ids),
        gauge("redfish_system_memory_operating_speed", "Memory speed in MHz", m.operating_speed_mhz as int, ids),
    ]);
    push_opt(&mut out, "redfish_system_memory_health", "Memory health, 1 for ok", ok_of(&m.status), member_ids_of(sys, &m.id, &m.name));
    out
}

/// The samples of the `MemoryMetrics` of a memory module: whether data
/// was lost, and the correctable and uncorrectable ECC error alarms.
pub open spec fn memory_health_samples_spec(system: Seq<u8>, m: Memory, data_loss: bool, trips: AlarmTrips) -> Seq<
    SampleModel,
> {
    let ids = member_ids(system, m.id, m.name);
    seq![
        gauge("redfish_system_memory_data_loss", "Memory data loss", flag(data_loss), ids),
        gauge(
            "redfish_system_memory_correctable_ecc_error",
            "Correctable error threshold crossing alarm trip",
            flag(trips.correctable_ecc_error),
            ids,
        ),
        gauge(
            "redfish_system_memory_uncorrectable_ecc_error",
            "Uncorrectable error threshold crossing alarm trip",
            flag(trips.uncorrectable_ecc_error),
            ids,
        ),
    ]
}

/// The samples of the health data of the memory module `m`: whether data
/// was lost (`data_loss`) and its alarm trips.
pub fn memory_health_samples<'a>(system: &'a str, m: &'a Memory, data_loss: bool, trips: &AlarmTrips) -> (r: Vec<
    Sample<'a>,
>)
    ensures
        samples_view(r@) == memory_health_samples_spec(system.spec_bytes(), *m, data_loss, *trips),
{
    let sys: &'a [u8] = system.as_bytes();
    let mut out: Vec<Sample<'a>> = Vec::new();
    push_gauge(&mut out, "redfish_system_memory_data_loss", "Memory data loss", flag_of(data_loss), member_ids_of(sys, &m.id, &m.name));
    push_gauge(
        &mut out,
        "redfish_system_memory_correctable_ecc_error",
        "Correctable error threshold crossing alarm trip",
        flag_of(trips.correctable_ecc_error),
        member_ids_of(sys, &m.id, &m.name),
    );
    push_gauge(
        &mut out,
        "redfish_system_memory_uncorrectable_ecc_error",
        "Uncorrectable error threshold crossing alarm trip",
        flag_of(trips.uncorrectable_ecc_error),
        member_ids_of(sys, &m.id, &m.name),
    );
    assert(samples_view(out@) =~= memory_health_samples_spec(sys@, *m, data_loss, *trips));
    out
}

/// The samples of a network interface of a system: its description and
/// state, and its health where given.
pub open spec fn network_samples_spec(system: Seq<u8>, n: NetworkInterface) -> Seq<SampleModel> {
    let ids = member_ids(system, n.id, n.name);
    seq![
        gauge("redfish_system_network_interface_info", "Network interface info", 1, ids),
        gauge("redfish_system_network_interface_state", "Network interface state", flag(is_text(n.status.state, enabled())), ids),
    ] + opt_gauge("redfish_system_network_interface_health", "Network interface health", health_flag(n.status.health), ids)
}

/// The samples of the network interface `n` of the system `system`.
pub fn network_samples<'a>(system: &'a str, n: &'a NetworkInterface) -> (r: Vec<Sample<'a>>)
    ensures
        samples_view(r@) == network_samples_spec(system.spec_bytes(), *n),
{
    let sys: &'a [u8] = system.as_bytes();
    let mut out: Vec<Sample<'a>> = Vec::new();
    push_gauge(&mut out, "redfish_system_network_interface_info", "Network interface info", 1, member_ids_of(sys, &n.id, &n.name));
    push_gauge(
        &mut out,
        "redfish_system_network_interface_state",
        "Network interface state",
        flag_of(is_enabled(&n.status)),
        member_ids_of(sys, &n.id, &n.name),
    );
    let ghost ids = member_ids(sys@, n.id, n.name);
    assert(samples_view(out@) =~= seq![
        gauge("redfish_system_network_interface_info", "Network interface info", 1, ids),
        gauge("redfish_system_network_interface_state", "Network interface state", flag(is_text(n.status.state, enabled())), ids),
    ]);
    push_opt(
        &mut out,
        "redfish_system_network_interface_health",
        "Network interface health",
        ok_of(&n.status),
        member_ids_of(sys, &n.id, &n.name),
    );
    out
}

/// The labels that name a controller of a storage subsystem.
pub open spec fn controller_ids(system: Seq<u8>, storage: Storage, c: StorageController) -> Seq<
    (&'static str, TagModel),
> {
    seq![
        ("system", TagModel::Field(system)),
        ("storage", field(storage.id)),
        ("member_id", field(c.member_id)),
        ("controller", field(c.name)),
    ]
}

/// The samples of a storage controller: its description and its state.
pub open spec fn controller_samples(system: Seq<u8>, storage: Storage, c: StorageController) -> Seq<SampleModel> {
    let ids = controller_ids(system, storage, c);
    seq![
        gauge(
            "redfish_system_storage_controller_info",
            "Storage controller info",
            1,
            ids + seq![
                ("manufacturer", opt_field(c.manufacturer)),
                ("model", opt_field(c.model)),
                ("serial_number", opt_field(c.serial_number)),
                ("part_number", opt_field(c.part_number)),
                (
                    "speed_gbps",
                    TagModel::Number(
                        match c.speed_gbps {
                            Some(v) => v as u64,
                            None => 0,
                        },
                    ),
                ),
                ("firmware_version", opt_field(c.firmware_version)),
            ],
        ),
        gauge("redfish_system_storage_controller_state", "Storage controller state", flag(is_text(c.status.state, enabled())), ids),
    ]
}

/// The samples of the first `n` controllers of a storage subsystem.
pub open spec fn controllers_samples(system: Seq<u8>, storage: Storage, n: nat) -> Seq<SampleModel>
    decreases n,
{
    if n == 0 || n > storage.storage_controllers@.len() {
        Seq::empty()
    } else {
        controllers_samples(system, storage, (n - 1) as nat) + controller_samples(
            system,
            storage,
            storage.storage_controllers@[n - 1],
        )
    }
}

fn controller_ids_of<'a>(system: &'a [u8], storage: &'a Storage, c: &'a StorageController) -> (r: Vec<
    (&'static str, TagValue<'a>),
>)
    ensures
        tags_view(r@) == controller_ids(system@, *storage, *c),
{
    let mut r = two_tags("system", TagValue::Field(system), "storage", field_of(&storage.id));
    push_tag(&mut r, "member_id", field_of(&c.member_id));
    push_tag(&mut r, "controller", field_of(&c.name));
    assert(tags_view(r@) =~= controller_ids(system@, *storage, *c));
    r
}

fn push_controller<'a>(out: &mut Vec<Sample<'a>>, system: &'a [u8], storage: &'a Storage, c: &'a StorageController)
    ensures
        samples_view(final(out)@) == samples_view(old(out)@) + controller_samples(system@, *storage, *c),
{
    let ghost s0 = samples_view(out@);
    let mut info = controller_ids_of(system, storage, c);
    push_tag(&mut info, "manufacturer", opt_field_of(&c.manufacturer));
    push_tag(&mut info, "model", opt_field_of(&c.model));
    push_tag(&mut info, "serial_number", opt_field_of(&c.serial_number));
    push_tag(&mut info, "part_number", opt_field_of(&c.part_number));
    let speed: u64 = match c.speed_gbps {
        Some(v) => v as u64,
        None => 0,
    };
    push_tag(&mut info, "speed_gbps", TagValue::Number(speed));
    push_tag(&mut info, "firmware_version", opt_field_of(&c.firmware_version));
    let ghost info_tags = tags_view(info@);
    push_gauge(out, "redfish_system_storage_controller_info", "Storage controller info", 1, info);
    push_gauge(
        out,
        "redfish_system_storage_controller_state",
        "Storage controller state",
        flag_of(is_enabled(&c.status)),
        controller_ids_of(system, storage, c),
    );
    let ghost spec = controller_samples(system@, *storage, *c);
    assert(spec[0].tags =~= info_tags);
    assert(samples_view(out@) =~= s0 + spec);
}

/// The samples of the controllers of the storage subsystem `storage` of
/// the system `system`.
pub fn storage_samples<'a>(system: &'a str, storage: &'a Storage) -> (r: Vec<Sample<'a>>)
    ensures
        samples_view(r@) == controllers_samples(system.spec_bytes(), *storage, storage.storage_controllers@.len()),
{
    let sys: &'a [u8] = system.as_bytes();
    let mut out: Vec<Sample<'a>> = Vec::new();
    let mut i: usize = 0;
    assert(samples_view(out@) =~= Seq::<SampleModel>::empty());
    while i < storage.storage_controllers.len()
        invariant
            i <= storage.storage_controllers@.len(),
            sys@ == system.spec_bytes(),
            samples_view(out@) == controllers_samples(sys@, *storage, i as nat),
        decreases storage.storage_controllers@.len() - i,
    {
        push_controller(&mut out, sys, storage, &storage.storage_controllers[i]);
        i = i + 1;
    }
    out
}

/// The labels that name a drive of a storage subsystem.
pub open spec fn drive_ids(system: Seq<u8>, storage: Seq<u8>, d: StorageDevice) -> Seq<(&'static str, TagModel)> {
    seq![("system", TagModel::Field(system)), ("storage", TagModel::Field(storage)), ("drive", field(d.id))]
}

/// The labels of the information sample of a drive.
pub open spec fn drive_info_tags(system: Seq<u8>, storage: Seq<u8>, d: StorageDevice) -> Seq<(&'static str, TagModel)> {
    seq![
        ("system", TagModel::Field(system)),
        ("storage", TagModel::Field(storage)),
        ("id", field(d.id)),
        ("name", field(d.name)),
        ("model", opt_field(d.model)),
        ("revision", opt_field(d.revision)),
        ("protocol", opt_field(d.protocol)),
        ("media_type", opt_field(d.media_type)),
        ("manufacturer", opt_field(d.manufacturer)),
        ("serial_number", opt_field(d.serial_number)),
        ("part_number", opt_field(d.part_number)),
    ]
}

/// The samples of a drive, none when it is absent: its description, and
/// its capacity and speeds where given.
pub open spec fn drive_samples_spec(system: Seq<u8>, storage: Seq<u8>, d: StorageDevice) -> Seq<SampleModel> {
    let ids = drive_ids(system, storage, d);
    if is_text(d.status.state, absent()) {
        Seq::empty()
    } else {
        seq![gauge("redfish_system_storage_drive_info", "Storage drive info", 1, drive_info_tags(system, storage, d))]
            + (opt_gauge(
            "redfish_system_storage_drive_capacity_bytes",
            "The capacity of storage drive in bytes",
            opt_size(d.capacity_bytes),
            ids,
        ) + (opt_gauge(
            "redfish_system_storage_drive_capable_speed_gbs",
            "The capable of speed of this drive",
            opt_size(d.capable_speed_gbs),
            ids,
        ) + opt_gauge(
            "redfish_system_storage_drive_negotiated_speed_gbs",
            "The negotiated speed of this drive",
            opt_size(d.negotiated_speed_gbs),
            ids,
        )))
    }
}

/// The samples of the drive `d` of the storage subsystem `storage` of the
/// system `system`.
pub fn drive_samples<'a>(system: &'a str, storage: &'a str, d: &'a StorageDevice) -> (r: Vec<Sample<'a>>)
    ensures
        samples_view(r@) == drive_samples_spec(system.spec_bytes(), storage.spec_bytes(), *d),
{
    let sys: &'a [u8] = system.as_bytes();
    let st: &'a [u8] = storage.as_bytes();
    let mut out: Vec<Sample<'a>> = Vec::new();
    if is_absent(&d.status) {
        assert(samples_view(out@) =~= Seq::<SampleModel>::empty());
        return out;
    }
    let mut info = two_tags("system", TagValue::Field(sys), "storage", TagValue::Field(st));
    push_tag(&mut info, "id", field_of(&d.id));
    push_tag(&mut info, "name", field_of(&d.name));
    push_tag(&mut info, "model", opt_field_of(&d.model));
    push_tag(&mut info, "revision", opt_field_of(&d.revision));
    push_tag(&mut info, "protocol", opt_field_of(&d.protocol));
    push_tag(&mut info, "media_type", opt_field_of(&d.media_type));
    push_tag(&mut info, "manufacturer", opt_field_of(&d.manufacturer));
    push_tag(&mut info, "serial_number", opt_field_of(&d.serial_number));
    push_tag(&mut info, "part_number", opt_field_of(&d.part_number));
    assert(tags_view(info@) =~= drive_info_tags(sys@, st@, *d));
    push_gauge(&mut out, "redfish_system_storage_drive_info", "Storage drive info", 1, info);
    let ghost s1 = samples_view(out@);
    let ghost ids = drive_ids(sys@, st@, *d);
    push_opt(
        &mut out,
        "redfish_system_storage_drive_capacity_bytes",
        "The capacity of storage drive in bytes",
        opt_count(d.capacity_bytes),
        three_tags("system", TagValue::Field(sys), "storage", TagValue::Field(st), "drive", field_of(&d.id)),
    );
    let ghost s2 = samples_view(out@);
    push_opt(
        &mut out,
        "redfish_system_storage_drive_capable_speed_gbs",
        "The capable of speed of this drive",
        opt_count(d.capable_speed_gbs),
        three_tags("system", TagValue::Field(sys), "storage", TagValue::Field(st), "drive", field_of(&d.id)),
    );
    let ghost s3 = samples_view(out@);
    push_opt(
        &mut out,
        "redfish_system_storage_drive_negotiated_speed_gbs",
        "The negotiated speed of this drive",
        opt_count(d.negotiated_speed_gbs),
        three_tags("system", TagValue::Field(sys), "storage", TagValue::Field(st), "drive", field_of(&d.id)),
    );
    proof {
        let a = opt_gauge(
            "redfish_system_storage_drive_capacity_bytes",
            "The capacity of storage drive in bytes",
            opt_size(d.capacity_bytes),
            ids,
        );
        let b = opt_gauge(
            "redfish_system_storage_drive_capable_speed_gbs",
            "The capable of speed of this drive",
            opt_size(d.capable_speed_gbs),
            ids,
        );
        let c = opt_gauge(
            "redfish_system_storage_drive_negotiated_speed_gbs",
            "The negotiated speed of this drive",
            opt_size(d.negotiated_speed_gbs),
            ids,
        );
        lemma_add_assoc(s2, b, c);
        lemma_add_assoc(s1, a, b + c);
        assert(s1 =~= seq![gauge("redfish_system_storage_drive_info", "Storage drive info", 1, drive_info_tags(sys@, st@, *d))]);
    }
    out
}

/// The health of a simple storage: 1 when it is `OK`, 0 otherwise or
/// when none is given.
pub open spec fn ok_or_zero(health: Option<String>) -> int {
    match health {
        Some(h) => flag(is_text(h, ok_text())),
        None => 0,
    }
}

/// The labels of a device of a simple storage.
pub open spec fn device_ids(system: Seq<u8>, d: Device, index: nat) -> Seq<(&'static str, TagModel)> {
    seq![("system", TagModel::Field(system)), ("name", field(d.name)), ("index", TagModel::Number(index as u64))]
}

/// The samples of the device at `index` of a simple storage: its
/// description and state, and, unless it is absent, its health and
/// capacity where given.
pub open spec fn device_samples(system: Seq<u8>, d: Device, index: nat) -> Seq<SampleModel> {
    let ids = device_ids(system, d, index);
    let head = seq![
        gauge(
            "redfish_system_simple_storage_device_info",
            "Device info",
            1,
            seq![
                ("system", TagModel::Field(system)),
                ("index", TagModel::Number(index as u64)),
                ("name", field(d.name)),
                ("manufacturer", opt_field(d.manufacturer)),
                ("model", opt_field(d.model)),
            ],
        ),
        gauge("redfish_system_simple_storage_device_state", "simple storage device state", flag(is_text(d.status.state, enabled())), ids),
    ];
    if is_text(d.status.state, absent()) {
        head
    } else {
        head + (opt_gauge("redfish_system_simple_storage_device_health", "", health_flag(d.status.health), ids) + opt_gauge(
            "redfish_system_simple_storage_drive_capacity_bytes",
            "The simple storage device size, in bytes, of the storage device.",
            opt_size(d.capacity_bytes),
            seq![("system", TagModel::Field(system)), ("name", field(d.name))],
        ))
    }
}

/// The samples of the first `n` devices of a simple storage.
pub open spec fn devices_samples(system: Seq<u8>, ds: Seq<Device>, n: nat) -> Seq<SampleModel>
    decreases n,
{
    if n == 0 || n > ds.len() {
        Seq::empty()
    } else {
        devices_samples(system, ds, (n - 1) as nat) + device_samples(system, ds[n - 1], (n - 1) as nat)
    }
}

/// The samples of a simple storage: its description and state, and,
/// unless it is absent, its health and those of its devices.
pub open spec fn simple_storage_samples_spec(system: Seq<u8>, ss: SimpleStorage) -> Seq<SampleModel> {
    let ids = member_ids(system, ss.id, ss.name);
    let head = seq![
        gauge("redfish_system_simple_storage_info", "Information about this simple storage", 1, ids),
        gauge("redfish_system_simple_storage_state", "Simple storage state", flag(is_text(ss.status.state, enabled())), ids),
    ];
    if is_text(ss.status.state, absent()) {
        head
    } else {
        head + seq![gauge("redfish_system_simple_storage_health", "", ok_or_zero(ss.status.health), ids)] + devices_samples(
            system,
            ss.devices@,
            ss.devices@.len(),
        )
    }
}

fn push_device<'a>(out: &mut Vec<Sample<'a>>, system: &'a [u8], d: &'a Device, index: usize)
    ensures
        samples_view(final(out)@) == samples_view(old(out)@) + device_samples(system@, *d, index as nat),
{
    let ghost s0 = samples_view(out@);
    let mut info = two_tags("system", TagValue::Field(system), "index", number_of(index));
    push_tag(&mut info, "name", field_of(&d.name));
    push_tag(&mut info, "manufacturer", opt_field_of(&d.manufacturer));
    push_tag(&mut info, "model", opt_field_of(&d.model));
    let ghost info_tags = tags_view(info@);
    push_gauge(out, "redfish_system_simple_storage_device_info", "Device info", 1, info);
    push_gauge(
        out,
        "redfish_system_simple_storage_device_state",
        "simple storage device state",
        flag_of(is_enabled(&d.status)),
        three_tags("system", TagValue::Field(system), "name", field_of(&d.name), "index", number_of(index)),
    );
    let ghost spec = device_samples(system@, *d, index as nat);
    let ghost ids = device_ids(system@, *d, index as nat);
    let ghost head = seq![
        gauge(
            "redfish_system_simple_storage_device_info",
            "Device info",
            1,
            seq![
                ("system", TagModel::Field(system@)),
                ("index", TagModel::Number(index as u64)),
                ("name", field(d.name)),
                ("manufacturer", opt_field(d.manufacturer)),
                ("model", opt_field(d.model)),
            ],
        ),
        gauge("redfish_system_simple_storage_device_state", "simple storage device state", flag(is_text(d.status.state, enabled())), ids),
    ];
    assert(info_tags =~= head[0].tags);
    assert(samples_view(out@) =~= s0 + head);
    if is_absent(&d.status) {
        return;
    }
    let ghost s2 = samples_view(out@);
    push_opt(
        out,
        "redfish_system_simple_storage_device_health",
        "",
        ok_of(&d.status),
        three_tags("system", TagValue::Field(system), "name", field_of(&d.name), "index", number_of(index)),
    );
    let ghost s3 = samples_view(out@);
    push_opt(
        out,
        "redfish_system_simple_storage_drive_capacity_bytes",
        "The simple storage device size, in bytes, of the storage device.",
        opt_count(d.capacity_bytes),
        two_tags("system", TagValue::Field(system), "name", field_of(&d.name)),
    );
    proof {
        let a = opt_gauge("redfish_system_simple_storage_device_health", "", health_flag(d.status.health), ids);
        let b = opt_gauge(
            "redfish_system_simple_storage_drive_capacity_bytes",
            "The simple storage device size, in bytes, of the storage device.",
            opt_size(d.capacity_bytes),
            seq![("system", TagModel::Field(system@)), ("name", field(d.name))],
        );
        lemma_add_assoc(s2, a, b);
        lemma_add_assoc(s0, head, a + b);
    }
}

/// The samples of the simple storage `ss` of the system `system`.
pub fn simple_storage_samples<'a>(system: &'a str, ss: &'a SimpleStorage) -> (r: Vec<Sample<'a>>)
    ensures
        samples_view(r@) == simple_storage_samples_spec(system.spec_bytes(), *ss),
{
    let sys: &'a [u8] = system.as_bytes();
    let mut out: Vec<Sample<'a>> = Vec::new();
    push_gauge(&mut out, "redfish_system_simple_storage_info", "Information about this simple storage", 1, member_ids_of(sys, &ss.id, &ss.name));
    push_gauge(
        &mut out,
        "redfish_system_simple_storage_state",
        "Simple storage state",
        flag_of(is_enabled(&ss.status)),
        member_ids_of(sys, &ss.id, &ss.name),
    );
    let ghost ids = member_ids(sys@, ss.id, ss.name);
    let ghost head = seq![
        gauge("redfish_system_simple_storage_info", "Information about this simple storage", 1, ids),
        gauge("redfish_system_simple_storage_state", "Simple storage state", flag(is_text(ss.status.state, enabled())), ids),
    ];
    assert(samples_view(out@) =~= head);
    if is_absent(&ss.status) {
        return out;
    }
    proof {
        lemma_literals();
    }
    let health: i128 = match &ss.status.health {
        Some(h) => flag_of(text_is(h, [0x4fu8, 0x4bu8].as_slice())),
        None => 0,
    };
    push_gauge(&mut out, "redfish_system_simple_storage_health", "", health, member_ids_of(sys, &ss.id, &ss.name));
    let ghost before = samples_view(out@);
    assert(before =~= head + seq![gauge("redfish_system_simple_storage_health", "", ok_or_zero(ss.status.health), ids)]);
    let mut i: usize = 0;
    assert(before + devices_samples(sys@, ss.devices@, 0) =~= before);
    while i < ss.devices.len()
        invariant
            i <= ss.devices@.len(),
            sys@ == system.spec_bytes(),
            samples_view(out@) == before + devices_samples(sys@, ss.devices@, i as nat),
        decreases ss.devices@.len() - i,
    {
        push_device(&mut out, sys, &ss.devices[i], i);
        proof {
            lemma_add_assoc(
                before,
                devices_samples(sys@, ss.devices@, i as nat),
                device_samples(sys@, ss.devices@[i as int], i as nat),
            );
        }
        i = i + 1;
    }
    out
}

/// The label naming a member of a list: its `MemberId`, or else its index.
pub open spec fn member_tag(member_id: Option<String>, index: nat) -> TagModel {
    match member_id {
        Some(m) => field(m),
        None => TagModel::Number(index as u64),
    }
}

/// The labels `chassis`, `name` and `member_id` of a member of a chassis's
/// list at `index`.
pub open spec fn chassis_member_ids(chassis: Seq<u8>, name: String, member_id: Option<String>, index: nat) -> Seq<
    (&'static str, TagModel),
> {
    seq![("chassis", TagModel::Field(chassis)), ("name", field(name)), ("member_id", member_tag(member_id, index))]
}

/// The labels naming a member of a chassis's list (a power supply or a
/// voltage sensor) at `index`.
pub fn chassis_member_ids_of<'a>(chassis: &'a str, name: &'a String, member_id: &'a Option<String>, index: usize) -> (r: Vec<
    (&'static str, TagValue<'a>),
>)
    ensures
        tags_view(r@) == chassis_member_ids(chassis.spec_bytes(), *name, *member_id, index as nat),
{
    let member = match member_id {
        Some(m) => field_of(m),
        None => TagValue::Number(index as u64),
    };
    three_tags("chassis", TagValue::Field(chassis.as_bytes()), "name", field_of(name), "member_id", member)
}

/// The labels of the information sample of a power supply.
pub open spec fn supply_info_tags(chassis: Seq<u8>, s: PowerSupplyInfo) -> Seq<(&'static str, TagModel)> {
    seq![
        ("chassis", TagModel::Field(chassis)),
        ("name", field(s.name)),
        ("model", opt_field(s.model)),
        ("manufacturer", opt_field(s.manufacturer)),
        ("firmware_version", opt_field(s.firmware_version)),
        ("serial_number", opt_field(s.serial_number)),
        ("part_number", opt_field(s.part_number)),
        ("spare_part_number", opt_field(s.spare_part_number)),
    ]
}

/// The description of the state sample of a power supply.
pub open spec fn supply_state_description() -> &'static str {
    "1(Enabled), 2(Disabled), 3(StandbyOffline), 4(StandbySpare), 5(InTest), 6(Starting), 7(Absent), 8(UnavailableOffline), 9(Deferring), 10(Quiesced), 11(Updating)"
}

/// The samples of the power supply at `index` of a chassis, besides its
/// readings: its information, whether it is enabled, and, unless it is
/// absent, whether it is healthy, where a health is given.
pub open spec fn power_supply_samples_spec(chassis: Seq<u8>, index: nat, s: PowerSupplyInfo) -> Seq<SampleModel> {
    let ids = chassis_member_ids(chassis, s.name, s.member_id, index);
    seq![
        gauge("redfish_chassis_power_supply_info", "Power supply information", 1, supply_info_tags(chassis, s)),
        gauge(
            "redfish_chassis_power_supply_state",
            supply_state_description(),
            flag(is_text(s.status.state, enabled())),
            ids,
        ),
    ] + if is_text(s.status.state, absent()) {
        Seq::empty()
    } else {
        opt_gauge(
            "redfish_chassis_power_supply_health",
            "power supply health of chassis",
            health_flag(s.status.health),
            ids,
        )
    }
}

/// The samples of the power supply at `index` of the chassis `chassis`
/// besides its readings, and whether its readings are reported: they are
/// not for an absent supply.
pub fn power_supply_samples<'a>(chassis: &'a str, index: usize, s: &'a PowerSupplyInfo) -> (r: (
    Vec<Sample<'a>>,
    bool,
))
    ensures
        samples_view(r.0@) == power_supply_samples_spec(chassis.spec_bytes(), index as nat, *s),
        r.1 == !is_text(s.status.state, absent()),
{
    let c: &'a [u8] = chassis.as_bytes();
    let mut info: Vec<(&'static str, TagValue<'a>)> = Vec::new();
    push_tag(&mut info, "chassis", TagValue::Field(c));
    push_tag(&mut info, "name", field_of(&s.name));
    push_tag(&mut info, "model", opt_field_of(&s.model));
    push_tag(&mut info, "manufacturer", opt_field_of(&s.manufacturer));
    push_tag(&mut info, "firmware_version", opt_field_of(&s.firmware_version));
    push_tag(&mut info, "serial_number", opt_field_of(&s.serial_number));
    push_tag(&mut info, "part_number", opt_field_of(&s.part_number));
    push_tag(&mut info, "spare_part_number", opt_field_of(&s.spare_part_number));
    assert(tags_view(info@) =~= supply_info_tags(c@, *s));
    let mut out: Vec<Sample<'a>> = Vec::new();
    push_gauge(&mut out, "redfish_chassis_power_supply_info", "Power supply information", 1, info);
    push_gauge(
        &mut out,
        "redfish_chassis_power_supply_state",
        "1(Enabled), 2(Disabled), 3(StandbyOffline), 4(StandbySpare), 5(InTest), 6(Starting), 7(Absent), 8(UnavailableOffline), 9(Deferring), 10(Quiesced), 11(Updating)",
        flag_of(is_enabled(&s.status)),
        chassis_member_ids_of(chassis, &s.name, &s.member_id, index),
    );
    let ghost head = samples_view(out@);
    let present = !is_absent(&s.status);
    if present {
        push_opt(
            &mut out,
            "redfish_chassis_power_supply_health",
            "power supply health of chassis",
            ok_of(&s.status),
            chassis_member_ids_of(chassis, &s.name, &s.member_id, index),
        );
    } else {
        assert(head + Seq::<SampleModel>::empty() =~= head);
    }
    (out, present)
}

} // verus!
