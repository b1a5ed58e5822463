//! The sections of the output of Redis INFO.

use vstd::prelude::*;

use crate::kv::ByteMap;
use crate::text::{
    bytes_eq, dec_text, dec_u64, find_byte, first_index, has_prefix, is_word, lemma_first_index, parse_u64, split,
    push_dec, split_bytes, starts_with, trim_str_bytes, trim_ws, views,
};

verus! {

/// Why a line of INFO output could not be read.
#[derive(Debug, PartialEq, Eq)]
pub enum StatsError {
    /// The line does not have the shape of the section that the message
    /// names.
    InvalidStatsLine(&'static str),
    /// A count is not a number.
    ParseInt,
}

/// `errorstat`
pub open spec fn errorstat_prefix() -> Seq<u8> {
    seq![0x65u8, 0x72u8, 0x72u8, 0x6fu8, 0x72u8, 0x73u8, 0x74u8, 0x61u8, 0x74u8]
}

/// The error and the count of an Errorstats line `errorstat_ERR:count=4`
/// (key `errorstat_ERR`, value `count=4`): the key after "errorstat", and
/// the `u64` after the first `=` of the value.
pub open spec fn error_stats(key: Seq<u8>, value: Seq<u8>) -> Result<(Seq<u8>, u64), StatsError> {
    if !has_prefix(key, errorstat_prefix()) {
        Err(StatsError::InvalidStatsLine("Errorstats"))
    } else {
        match first_index(value, 0x3du8) {
            None => Err(StatsError::InvalidStatsLine("Errorstats")),
            Some(i) => match dec_u64(value.subrange(i + 1, value.len() as int)) {
                Some(v) => Ok((key.subrange(9, key.len() as int), v)),
                None => Err(StatsError::ParseInt),
            },
        }
    }
}

/// Reads an Errorstats line.
pub fn parse_error_stats<'a>(key: &'a [u8], value: &[u8]) -> (r: Result<(&'a [u8], u64), StatsError>)
    ensures
        match error_stats(key@, value@) {
            Ok(t) => r matches Ok(p) && p.0@ == t.0 && p.1 == t.1,
            Err(e) => r == Err::<(&[u8], u64), StatsError>(e),
        },
{
    proof {
        assert([0x65u8, 0x72u8, 0x72u8, 0x6fu8, 0x72u8, 0x73u8, 0x74u8, 0x61u8, 0x74u8]@ =~= errorstat_prefix());
    }
    if !starts_with(key, &[0x65u8, 0x72u8, 0x72u8, 0x6fu8, 0x72u8, 0x73u8, 0x74u8, 0x61u8, 0x74u8]) {
        return Err(StatsError::InvalidStatsLine("Errorstats"));
    }
    let cmd = &key[9..key.len()];
    assert(cmd@ =~= key@.subrange(9, key@.len() as int));
    match find_byte(value, 0x3du8) {
        None => Err(StatsError::InvalidStatsLine("Errorstats")),
        Some(i) => {
            assert(i < value.len());
            let count = &value[i + 1..value.len()];
            assert(count@ =~= value@.subrange(i + 1, value@.len() as int));
            match parse_u64(count) {
                Some(v) => Ok((cmd, v)),
                None => Err(StatsError::ParseInt),
            }
        },
    }
}

/// `slave`
pub open spec fn slave_prefix() -> Seq<u8> {
    seq![0x73u8, 0x6cu8, 0x61u8, 0x76u8, 0x65u8]
}

/// A key of a connected replica: "slave" and then a `u64`.
pub fn validate_slave_line(slave: &[u8]) -> (r: bool)
    ensures
        r == (has_prefix(slave@, slave_prefix()) && dec_u64(slave@.subrange(5, slave@.len() as int))
            is Some),
{
    proof {
        assert([0x73u8, 0x6cu8, 0x61u8, 0x76u8, 0x65u8]@ =~= slave_prefix());
    }
    if !starts_with(slave, &[0x73u8, 0x6cu8, 0x61u8, 0x76u8, 0x65u8]) {
        return false;
    }
    let num = &slave[5..slave.len()];
    assert(num@ =~= slave@.subrange(5, slave@.len() as int));
    parse_u64(num).is_some()
}

/// The fields that describe the instance: they become labels of one sample.
pub open spec fn is_instance_field(key: Seq<u8>) -> bool {
    key == seq![0x72u8, 0x6fu8, 0x6cu8, 0x65u8]
        || key == seq![0x72u8, 0x65u8, 0x64u8, 0x69u8, 0x73u8, 0x5fu8, 0x76u8, 0x65u8, 0x72u8, 0x73u8, 0x69u8, 0x6fu8, 0x6eu8]
        || key == seq![0x72u8, 0x65u8, 0x64u8, 0x69u8, 0x73u8, 0x5fu8, 0x62u8, 0x75u8, 0x69u8, 0x6cu8, 0x64u8, 0x5fu8, 0x69u8, 0x64u8]
        || key == seq![0x72u8, 0x65u8, 0x64u8, 0x69u8, 0x73u8, 0x5fu8, 0x6du8, 0x6fu8, 0x64u8, 0x65u8]
        || key == seq![0x6fu8, 0x73u8]
        || key == seq![0x6du8, 0x61u8, 0x78u8, 0x6du8, 0x65u8, 0x6du8, 0x6fu8, 0x72u8, 0x79u8, 0x5fu8, 0x70u8, 0x6fu8, 0x6cu8, 0x69u8, 0x63u8, 0x79u8]
        || key == seq![0x74u8, 0x63u8, 0x70u8, 0x5fu8, 0x70u8, 0x6fu8, 0x72u8, 0x74u8]
        || key == seq![0x72u8, 0x75u8, 0x6eu8, 0x5fu8, 0x69u8, 0x64u8]
        || key == seq![0x70u8, 0x72u8, 0x6fu8, 0x63u8, 0x65u8, 0x73u8, 0x73u8, 0x5fu8, 0x69u8, 0x64u8]
        || key == seq![0x6du8, 0x61u8, 0x73u8, 0x74u8, 0x65u8, 0x72u8, 0x5fu8, 0x72u8, 0x65u8, 0x70u8, 0x6cu8, 0x69u8, 0x64u8]
}

fn is_instance_field_exec(key: &[u8]) -> (r: bool)
    ensures
        r == is_instance_field(key@),
{
    proof {
        assert([0x72u8, 0x6fu8, 0x6cu8, 0x65u8]@ =~= seq![0x72u8, 0x6fu8, 0x6cu8, 0x65u8]);
        assert([0x72u8, 0x65u8, 0x64u8, 0x69u8, 0x73u8, 0x5fu8, 0x76u8, 0x65u8, 0x72u8, 0x73u8, 0x69u8, 0x6fu8, 0x6eu8]@ =~= seq![0x72u8, 0x65u8, 0x64u8, 0x69u8, 0x73u8, 0x5fu8, 0x76u8, 0x65u8, 0x72u8, 0x73u8, 0x69u8, 0x6fu8, 0x6eu8]);
        assert([0x72u8, 0x65u8, 0x64u8, 0x69u8, 0x73u8, 0x5fu8, 0x62u8, 0x75u8, 0x69u8, 0x6cu8, 0x64u8, 0x5fu8, 0x69u8, 0x64u8]@ =~= seq![0x72u8, 0x65u8, 0x64u8, 0x69u8, 0x73u8, 0x5fu8, 0x62u8, 0x75u8, 0x69u8, 0x6cu8, 0x64u8, 0x5fu8, 0x69u8, 0x64u8]);
        assert([0x72u8, 0x65u8, 0x64u8, 0x69u8, 0x73u8, 0x5fu8, 0x6du8, 0x6fu8, 0x64u8, 0x65u8]@ =~= seq![0x72u8, 0x65u8, 0x64u8, 0x69u8, 0x73u8, 0x5fu8, 0x6du8, 0x6fu8, 0x64u8, 0x65u8]);
        assert([0x6fu8, 0x73u8]@ =~= seq![0x6fu8, 0x73u8]);
        assert([0x6du8, 0x61u8, 0x78u8, 0x6du8, 0x65u8, 0x6du8, 0x6fu8, 0x72u8, 0x79u8, 0x5fu8, 0x70u8, 0x6fu8, 0x6cu8, 0x69u8, 0x63u8, 0x79u8]@ =~= seq![0x6du8, 0x61u8, 0x78u8, 0x6du8, 0x65u8, 0x6du8, 0x6fu8, 0x72u8, 0x79u8, 0x5fu8, 0x70u8, 0x6fu8, 0x6cu8, 0x69u8, 0x63u8, 0x79u8]);
        assert([0x74u8, 0x63u8, 0x70u8, 0x5fu8, 0x70u8, 0x6fu8, 0x72u8, 0x74u8]@ =~= seq![0x74u8, 0x63u8, 0x70u8, 0x5fu8, 0x70u8, 0x6fu8, 0x72u8, 0x74u8]);
        assert([0x72u8, 0x75u8, 0x6eu8, 0x5fu8, 0x69u8, 0x64u8]@ =~= seq![0x72u8, 0x75u8, 0x6eu8, 0x5fu8, 0x69u8, 0x64u8]);
        assert([0x70u8, 0x72u8, 0x6fu8, 0x63u8, 0x65u8, 0x73u8, 0x73u8, 0x5fu8, 0x69u8, 0x64u8]@ =~= seq![0x70u8, 0x72u8, 0x6fu8, 0x63u8, 0x65u8, 0x73u8, 0x73u8, 0x5fu8, 0x69u8, 0x64u8]);
        assert([0x6du8, 0x61u8, 0x73u8, 0x74u8, 0x65u8, 0x72u8, 0x5fu8, 0x72u8, 0x65u8, 0x70u8, 0x6cu8, 0x69u8, 0x64u8]@ =~= seq![0x6du8, 0x61u8, 0x73u8, 0x74u8, 0x65u8, 0x72u8, 0x5fu8, 0x72u8, 0x65u8, 0x70u8, 0x6cu8, 0x69u8, 0x64u8]);
    }
    is_word(key, &[0x72u8, 0x6fu8, 0x6cu8, 0x65u8])
        || is_word(key, &[0x72u8, 0x65u8, 0x64u8, 0x69u8, 0x73u8, 0x5fu8, 0x76u8, 0x65u8, 0x72u8, 0x73u8, 0x69u8, 0x6fu8, 0x6eu8])
        || is_word(key, &[0x72u8, 0x65u8, 0x64u8, 0x69u8, 0x73u8, 0x5fu8, 0x62u8, 0x75u8, 0x69u8, 0x6cu8, 0x64u8, 0x5fu8, 0x69u8, 0x64u8])
        || is_word(key, &[0x72u8, 0x65u8, 0x64u8, 0x69u8, 0x73u8, 0x5fu8, 0x6du8, 0x6fu8, 0x64u8, 0x65u8])
        || is_word(key, &[0x6fu8, 0x73u8])
        || is_word(key, &[0x6du8, 0x61u8, 0x78u8, 0x6du8, 0x65u8, 0x6du8, 0x6fu8, 0x72u8, 0x79u8, 0x5fu8, 0x70u8, 0x6fu8, 0x6cu8, 0x69u8, 0x63u8, 0x79u8])
        || is_word(key, &[0x74u8, 0x63u8, 0x70u8, 0x5fu8, 0x70u8, 0x6fu8, 0x72u8, 0x74u8])
        || is_word(key, &[0x72u8, 0x75u8, 0x6eu8, 0x5fu8, 0x69u8, 0x64u8])
        || is_word(key, &[0x70u8, 0x72u8, 0x6fu8, 0x63u8, 0x65u8, 0x73u8, 0x73u8, 0x5fu8, 0x69u8, 0x64u8])
        || is_word(key, &[0x6du8, 0x61u8, 0x73u8, 0x74u8, 0x65u8, 0x72u8, 0x5fu8, 0x72u8, 0x65u8, 0x70u8, 0x6cu8, 0x69u8, 0x64u8])
}

/// The fields that describe the master of a replica: they become labels of one sample.
pub open spec fn is_slave_field(key: Seq<u8>) -> bool {
    key == seq![0x6du8, 0x61u8, 0x73u8, 0x74u8, 0x65u8, 0x72u8, 0x5fu8, 0x68u8, 0x6fu8, 0x73u8, 0x74u8]
        || key == seq![0x6du8, 0x61u8, 0x73u8, 0x74u8, 0x65u8, 0x72u8, 0x5fu8, 0x70u8, 0x6fu8, 0x72u8, 0x74u8]
        || key == seq![0x73u8, 0x6cu8, 0x61u8, 0x76u8, 0x65u8, 0x5fu8, 0x72u8, 0x65u8, 0x61u8, 0x64u8, 0x5fu8, 0x6fu8, 0x6eu8, 0x6cu8, 0x79u8]
}

fn is_slave_field_exec(key: &[u8]) -> (r: bool)
    ensures
        r == is_slave_field(key@),
{
    proof {
        assert([0x6du8, 0x61u8, 0x73u8, 0x74u8, 0x65u8, 0x72u8, 0x5fu8, 0x68u8, 0x6fu8, 0x73u8, 0x74u8]@ =~= seq![0x6du8, 0x61u8, 0x73u8, 0x74u8, 0x65u8, 0x72u8, 0x5fu8, 0x68u8, 0x6fu8, 0x73u8, 0x74u8]);
        assert([0x6du8, 0x61u8, 0x73u8, 0x74u8, 0x65u8, 0x72u8, 0x5fu8, 0x70u8, 0x6fu8, 0x72u8, 0x74u8]@ =~= seq![0x6du8, 0x61u8, 0x73u8, 0x74u8, 0x65u8, 0x72u8, 0x5fu8, 0x70u8, 0x6fu8, 0x72u8, 0x74u8]);
        assert([0x73u8, 0x6cu8, 0x61u8, 0x76u8, 0x65u8, 0x5fu8, 0x72u8, 0x65u8, 0x61u8, 0x64u8, 0x5fu8, 0x6fu8, 0x6eu8, 0x6cu8, 0x79u8]@ =~= seq![0x73u8, 0x6cu8, 0x61u8, 0x76u8, 0x65u8, 0x5fu8, 0x72u8, 0x65u8, 0x61u8, 0x64u8, 0x5fu8, 0x6fu8, 0x6eu8, 0x6cu8, 0x79u8]);
    }
    is_word(key, &[0x6du8, 0x61u8, 0x73u8, 0x74u8, 0x65u8, 0x72u8, 0x5fu8, 0x68u8, 0x6fu8, 0x73u8, 0x74u8])
        || is_word(key, &[0x6du8, 0x61u8, 0x73u8, 0x74u8, 0x65u8, 0x72u8, 0x5fu8, 0x70u8, 0x6fu8, 0x72u8, 0x74u8])
        || is_word(key, &[0x73u8, 0x6cu8, 0x61u8, 0x76u8, 0x65u8, 0x5fu8, 0x72u8, 0x65u8, 0x61u8, 0x64u8, 0x5fu8, 0x6fu8, 0x6eu8, 0x6cu8, 0x79u8])
}

/// `master_host`
pub open spec fn master_host_key() -> Seq<u8> {
    seq![0x6du8, 0x61u8, 0x73u8, 0x74u8, 0x65u8, 0x72u8, 0x5fu8, 0x68u8, 0x6fu8, 0x73u8, 0x74u8]
}

/// `master_port`
pub open spec fn master_port_key() -> Seq<u8> {
    seq![0x6du8, 0x61u8, 0x73u8, 0x74u8, 0x65u8, 0x72u8, 0x5fu8, 0x70u8, 0x6fu8, 0x72u8, 0x74u8]
}

/// `role`
pub open spec fn role_key() -> Seq<u8> {
    seq![0x72u8, 0x6fu8, 0x6cu8, 0x65u8]
}

/// `Replication`
pub open spec fn replication_section() -> Seq<u8> {
    seq![0x52u8, 0x65u8, 0x70u8, 0x6cu8, 0x69u8, 0x63u8, 0x61u8, 0x74u8, 0x69u8, 0x6fu8, 0x6eu8]
}

/// `# `
pub open spec fn section_mark() -> Seq<u8> {
    seq![0x23u8, 0x20u8]
}

/// What the scan of INFO output keeps from line to line.
pub struct InfoScan<'a> {
    /// The section being read.
    pub section: &'a [u8],
    /// The last `master_host` and `master_port` read.
    pub master_host: &'a [u8],
    pub master_port: &'a [u8],
    /// The role that the Replication section gives.
    pub role: &'a [u8],
    /// The fields that describe the instance.
    pub instance_infos: ByteMap<'a>,
    /// The fields that describe the master of a replica.
    pub slave_infos: ByteMap<'a>,
}

/// The scan as plain values.
pub struct InfoScanModel {
    pub section: Seq<u8>,
    pub master_host: Seq<u8>,
    pub master_port: Seq<u8>,
    pub role: Seq<u8>,
    pub instance_infos: Map<Seq<u8>, Seq<u8>>,
    pub slave_infos: Map<Seq<u8>, Seq<u8>>,
}

impl<'a> View for InfoScan<'a> {
    type V = InfoScanModel;

    open spec fn view(&self) -> InfoScanModel {
        InfoScanModel {
            section: self.section@,
            master_host: self.master_host@,
            master_port: self.master_port@,
            role: self.role@,
            instance_infos: self.instance_infos@,
            slave_infos: self.slave_infos@,
        }
    }
}

impl<'a> InfoScan<'a> {
    /// Both maps keep their keys unique.
    pub open spec fn wf(self) -> bool {
        self.instance_infos.wf() && self.slave_infos.wf()
    }

    /// The scan before the first line.
    pub fn new() -> (r: InfoScan<'a>)
        ensures
            r.wf(),
            r@ == InfoScanModel::start(),
    {
        let none: &[u8] = &[];
        assert(none@ =~= Seq::<u8>::empty());
        InfoScan {
            section: none,
            master_host: none,
            master_port: none,
            role: none,
            instance_infos: ByteMap::new(),
            slave_infos: ByteMap::new(),
        }
    }
}

impl InfoScanModel {
    pub open spec fn start() -> InfoScanModel {
        InfoScanModel {
            section: Seq::empty(),
            master_host: Seq::empty(),
            master_port: Seq::empty(),
            role: Seq::empty(),
            instance_infos: Map::empty(),
            slave_infos: Map::empty(),
        }
    }
}

/// What a line of INFO output hands to the section's handler.
#[derive(Debug, PartialEq, Eq)]
pub enum InfoEvent<'a> {
    /// Nothing: the line is blank, starts a section, has no colon, or was
    /// taken by the scan itself.
    Skip,
    /// A field of the section being read.
    Field(&'a [u8], &'a [u8]),
}

/// An event as plain values.
pub enum InfoEventModel {
    Skip,
    Field(Seq<u8>, Seq<u8>),
}

pub open spec fn event_view(e: InfoEvent) -> InfoEventModel {
    match e {
        InfoEvent::Skip => InfoEventModel::Skip,
        InfoEvent::Field(k, v) => InfoEventModel::Field(k@, v@),
    }
}

/// The scan after one line, and what the line hands on. The line is
/// trimmed; "# Name" starts section Name; otherwise the line is `key:value`
/// at its first colon. `master_host` and `master_port` are remembered;
/// instance fields and master fields are kept as labels; the role of the
/// Replication section is kept; every other field is handed on.
pub open spec fn info_step(st: InfoScanModel, raw: Seq<u8>) -> (InfoScanModel, InfoEventModel) {
    let line = trim_ws(raw);
    if line.len() == 0 {
        (st, InfoEventModel::Skip)
    } else if has_prefix(line, section_mark()) {
        (InfoScanModel { section: line.subrange(2, line.len() as int), ..st }, InfoEventModel::Skip)
    } else {
        match first_index(line, 0x3au8) {
            None => (st, InfoEventModel::Skip),
            Some(c) => {
                let key = line.subrange(0, c);
                let value = line.subrange(c + 1, line.len() as int);
                let st1 = InfoScanModel {
                    master_host: if key == master_host_key() {
                        value
                    } else {
                        st.master_host
                    },
                    master_port: if key == master_port_key() {
                        value
                    } else {
                        st.master_port
                    },
                    ..st
                };
                if is_instance_field(key) {
                    (InfoScanModel { instance_infos: st1.instance_infos.insert(key, value), ..st1 }, InfoEventModel::Skip)
                } else if is_slave_field(key) {
                    (InfoScanModel { slave_infos: st1.slave_infos.insert(key, value), ..st1 }, InfoEventModel::Skip)
                } else if st1.section == replication_section() && key == role_key() {
                    (InfoScanModel { role: value, ..st1 }, InfoEventModel::Skip)
                } else {
                    (st1, InfoEventModel::Field(key, value))
                }
            },
        }
    }
}

/// Reads one more line of INFO output.
pub fn info_line<'a>(scan: &mut InfoScan<'a>, raw: &'a [u8]) -> (r: InfoEvent<'a>)
    requires
        old(scan).wf(),
    ensures
        final(scan).wf(),
        info_step(old(scan)@, raw@) == (final(scan)@, event_view(r)),
{
    proof {
        assert([0x23u8, 0x20u8]@ =~= section_mark());
        assert([0x6du8, 0x61u8, 0x73u8, 0x74u8, 0x65u8, 0x72u8, 0x5fu8, 0x68u8, 0x6fu8, 0x73u8, 0x74u8]@ =~= master_host_key());
        assert([0x6du8, 0x61u8, 0x73u8, 0x74u8, 0x65u8, 0x72u8, 0x5fu8, 0x70u8, 0x6fu8, 0x72u8, 0x74u8]@ =~= master_port_key());
        assert([0x72u8, 0x6fu8, 0x6cu8, 0x65u8]@ =~= role_key());
        assert([0x52u8, 0x65u8, 0x70u8, 0x6cu8, 0x69u8, 0x63u8, 0x61u8, 0x74u8, 0x69u8, 0x6fu8, 0x6eu8]@ =~= replication_section());
    }
    let line = trim_str_bytes(raw);
    if line.len() == 0 {
        return InfoEvent::Skip;
    }
    if starts_with(line, &[0x23u8, 0x20u8]) {
        let name = &line[2..line.len()];
        assert(name@ =~= line@.subrange(2, line@.len() as int));
        scan.section = name;
        return InfoEvent::Skip;
    }
    match find_byte(line, 0x3au8) {
        None => InfoEvent::Skip,
        Some(c) => {
            assert(c < line.len());
            let key = &line[0..c];
            let value = &line[c + 1..line.len()];
            assert(key@ =~= line@.subrange(0, c as int));
            assert(value@ =~= line@.subrange(c + 1, line@.len() as int));
            if is_word(key, &[0x6du8, 0x61u8, 0x73u8, 0x74u8, 0x65u8, 0x72u8, 0x5fu8, 0x68u8, 0x6fu8, 0x73u8, 0x74u8]) {
                scan.master_host = value;
            }
            if is_word(key, &[0x6du8, 0x61u8, 0x73u8, 0x74u8, 0x65u8, 0x72u8, 0x5fu8, 0x70u8, 0x6fu8, 0x72u8, 0x74u8]) {
                scan.master_port = value;
            }
            if is_instance_field_exec(key) {
                scan.instance_infos.insert(key, value);
                return InfoEvent::Skip;
            }
            if is_slave_field_exec(key) {
                scan.slave_infos.insert(key, value);
                return InfoEvent::Skip;
            }
            if is_word(scan.section, &[0x52u8, 0x65u8, 0x70u8, 0x6cu8, 0x69u8, 0x63u8, 0x61u8, 0x74u8, 0x69u8, 0x6fu8, 0x6eu8]) && is_word(key, &[0x72u8, 0x6fu8, 0x6cu8, 0x65u8]) {
                scan.role = value;
                return InfoEvent::Skip;
            }
            InfoEvent::Field(key, value)
        },
    }
}

/// The scan never changes the role it keeps: `role` is an instance field,
/// taken as a label before the Replication section could see it.
pub proof fn lemma_role_kept(st: InfoScanModel, raw: Seq<u8>)
    ensures
        info_step(st, raw).0.role == st.role,
{
}

/// A piece `k=v` split at its first `=`; a piece without `=` gives none.
pub open spec fn kv_piece(p: Seq<u8>) -> Option<(Seq<u8>, Seq<u8>)> {
    match first_index(p, 0x3du8) {
        None => None,
        Some(i) => Some((p.subrange(0, i), p.subrange(i + 1, p.len() as int))),
    }
}

/// The keys and values of the pieces that have an `=`, in order.
pub open spec fn kv_pieces(pieces: Seq<Seq<u8>>) -> Seq<(Seq<u8>, Seq<u8>)>
    decreases pieces.len(),
{
    if pieces.len() == 0 {
        Seq::empty()
    } else {
        kv_pieces(pieces.drop_last()) + match kv_piece(pieces.last()) {
            Some(kv) => seq![kv],
            None => Seq::empty(),
        }
    }
}

/// The models of pairs of byte strings.
pub open spec fn pair_views(v: Seq<(&[u8], &[u8])>) -> Seq<(Seq<u8>, Seq<u8>)> {
    v.map_values(|x: (&[u8], &[u8])| (x.0@, x.1@))
}

/// The `key=value` fields of a comma-separated INFO value such as
/// `ip=10.0.0.1,port=6379,state=online`: each piece split at its first
/// `=`, pieces without one skipped, in the order they come.
pub fn comma_fields(value: &[u8]) -> (r: Vec<(&[u8], &[u8])>)
    ensures
        pair_views(r@) == kv_pieces(split(value@, 0x2cu8, 0x2cu8)),
{
    let pieces = split_bytes(value, 0x2cu8, 0x2cu8);
    let ghost ps = views(pieces@);
    let mut out: Vec<(&[u8], &[u8])> = Vec::new();
    let mut i: usize = 0;
    assert(ps.take(0) =~= Seq::<Seq<u8>>::empty());
    assert(pair_views(out@) =~= Seq::<(Seq<u8>, Seq<u8>)>::empty());
    while i < pieces.len()
        invariant
            i <= pieces@.len(),
            ps == views(pieces@),
            ps.len() == pieces@.len(),
            pair_views(out@) == kv_pieces(ps.take(i as int)),
        decreases pieces@.len() - i,
    {
        let piece: &[u8] = pieces[i];
        let ghost before = out@;
        proof {
            assert(ps[i as int] == piece@);
            assert(ps.take(i + 1).drop_last() =~= ps.take(i as int));
            assert(ps.take(i + 1).last() == piece@);
            lemma_first_index(piece@, 0x3du8);
        }
        match find_byte(piece, 0x3du8) {
            Some(j) => {
                assert(j < piece.len());
                let k = &piece[0..j];
                let v = &piece[j + 1..piece.len()];
                out.push((k, v));
                proof {
                    assert(k@ =~= piece@.subrange(0, j as int));
                    assert(v@ =~= piece@.subrange(j + 1, piece@.len() as int));
                    assert(pair_views(out@) =~= pair_views(before).push((k@, v@)));
                }
            },
            None => {},
        }
        i = i + 1;
    }
    assert(ps.take(pieces@.len() as int) =~= ps);
    out
}

/// `db<i>`: how the Keyspace section names database `i`.
pub open spec fn db_name(i: nat) -> Seq<u8> {
    seq![0x64u8, 0x62u8] + dec_text(i)
}

/// The databases below `n` whose names are not among `handled`, in order.
pub open spec fn unreported_dbs_below(handled: Seq<Seq<u8>>, n: nat) -> Seq<u64>
    decreases n,
{
    if n == 0 {
        Seq::empty()
    } else {
        let r = unreported_dbs_below(handled, (n - 1) as nat);
        if handled.contains(db_name((n - 1) as nat)) {
            r
        } else {
            r.push((n - 1) as u64)
        }
    }
}

/// The databases of a server with `databases` of them that its Keyspace
/// section did not report (`handled` holds the names it did): each is
/// reported with no keys.
pub fn unreported_dbs(databases: u64, handled: &Vec<&[u8]>) -> (r: Vec<u64>)
    ensures
        r@ == unreported_dbs_below(views(handled@), databases as nat),
{
    let ghost hs = views(handled@);
    let mut out: Vec<u64> = Vec::new();
    let mut i: u64 = 0;
    while i < databases
        invariant
            i <= databases,
            hs == views(handled@),
            out@ == unreported_dbs_below(hs, i as nat),
        decreases databases - i,
    {
        let mut name: Vec<u8> = Vec::new();
        name.push(0x64u8);
        name.push(0x62u8);
        push_dec(&mut name, i);
        assert(name@ =~= db_name(i as nat));
        let mut found = false;
        let mut k: usize = 0;
        while k < handled.len()
            invariant
                k <= handled@.len(),
                hs == views(handled@),
                name@ == db_name(i as nat),
                found <==> exists|j: int| 0 <= j < k && hs[j] == name@,
            decreases handled@.len() - k,
        {
            if bytes_eq(handled[k], name.as_slice()) {
                found = true;
            }
            assert(hs[k as int] == handled@[k as int]@);
            k = k + 1;
        }
        proof {
            if found {
                let j = choose|j: int| 0 <= j < handled@.len() && hs[j] == name@;
                assert(hs.contains(db_name(i as nat)));
            } else {
                assert(!hs.contains(db_name(i as nat)));
            }
        }
        if !found {
            out.push(i);
        }
        i = i + 1;
    }
    out
}

} // verus!
