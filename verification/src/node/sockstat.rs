//! /proc/net/sockstat and /proc/net/sockstat6: socket counts per protocol.

use vstd::prelude::*;
use vstd::string::StringSliceAdditionalSpecFns;

use super::Error;
use crate::text::{
    dec_i32, fields, find_byte, first_index, is_word, lines, parse_i32, split_ascii_ws,
    split_lines, trim_str_bytes, trim_ws, views,
};

verus! {

/// The counts of one protocol; the optional ones are absent until the line
/// reports them.
#[derive(Clone, Copy, Debug, PartialEq, Eq)]
pub struct ProtocolStats {
    pub inuse: i32,
    pub orphan: Option<i32>,
    pub tw: Option<i32>,
    pub alloc: Option<i32>,
    pub mem: Option<i32>,
    pub memory: Option<i32>,
}

impl ProtocolStats {
    pub open spec fn zero() -> ProtocolStats {
        ProtocolStats { inuse: 0, orphan: None, tw: None, alloc: None, mem: None, memory: None }
    }

    /// The counts after a `key value` pair: a known key sets its count,
    /// another leaves them as they were.
    pub open spec fn with(self, key: Seq<u8>, v: i32) -> ProtocolStats {
        if key == seq![0x69u8, 0x6eu8, 0x75u8, 0x73u8, 0x65u8] {
            ProtocolStats { inuse: v, ..self }
        } else if key == seq![0x6fu8, 0x72u8, 0x70u8, 0x68u8, 0x61u8, 0x6eu8] {
            ProtocolStats { orphan: Some(v), ..self }
        } else if key == seq![0x74u8, 0x77u8] {
            ProtocolStats { tw: Some(v), ..self }
        } else if key == seq![0x61u8, 0x6cu8, 0x6cu8, 0x6fu8, 0x63u8] {
            ProtocolStats { alloc: Some(v), ..self }
        } else if key == seq![0x6du8, 0x65u8, 0x6du8] {
            ProtocolStats { mem: Some(v), ..self }
        } else if key == seq![0x6du8, 0x65u8, 0x6du8, 0x6fu8, 0x72u8, 0x79u8] {
            ProtocolStats { memory: Some(v), ..self }
        } else {
            self
        }
    }
}

/// The counts that the `key value` pairs of `f` from `i` on give, starting
/// from `st`: a key without a value is malformed, a value that is not an
/// `i32` an error.
pub open spec fn pairs_from(f: Seq<Seq<u8>>, i: int, st: ProtocolStats) -> Result<ProtocolStats, Error>
    decreases f.len() - i,
{
    if i >= f.len() || i < 0 {
        Ok(st)
    } else if i + 1 >= f.len() {
        Err(Error::Malformed("protocol stats"))
    } else {
        match dec_i32(f[i + 1]) {
            Some(v) => pairs_from(f, i + 2, st.with(f[i], v)),
            None => Err(Error::ParseInt),
        }
    }
}

/// The counts of the text after a protocol's colon.
pub open spec fn protocol_stats(s: Seq<u8>) -> Result<ProtocolStats, Error> {
    pairs_from(fields(s), 0, ProtocolStats::zero())
}

fn with_pair(st: ProtocolStats, key: &[u8], v: i32) -> (r: ProtocolStats)
    ensures
        r == st.with(key@, v),
{
    let mut st = st;
    proof {
        assert([0x69u8, 0x6eu8, 0x75u8, 0x73u8, 0x65u8]@ =~= seq![0x69u8, 0x6eu8, 0x75u8, 0x73u8, 0x65u8]);
        assert([0x6fu8, 0x72u8, 0x70u8, 0x68u8, 0x61u8, 0x6eu8]@ =~= seq![0x6fu8, 0x72u8, 0x70u8, 0x68u8, 0x61u8, 0x6eu8]);
        assert([0x74u8, 0x77u8]@ =~= seq![0x74u8, 0x77u8]);
        assert([0x61u8, 0x6cu8, 0x6cu8, 0x6fu8, 0x63u8]@ =~= seq![0x61u8, 0x6cu8, 0x6cu8, 0x6fu8, 0x63u8]);
        assert([0x6du8, 0x65u8, 0x6du8]@ =~= seq![0x6du8, 0x65u8, 0x6du8]);
        assert([0x6du8, 0x65u8, 0x6du8, 0x6fu8, 0x72u8, 0x79u8]@ =~= seq![0x6du8, 0x65u8, 0x6du8, 0x6fu8, 0x72u8, 0x79u8]);
    }
    if is_word(key, &[0x69u8, 0x6eu8, 0x75u8, 0x73u8, 0x65u8]) {
        st.inuse = v;
    } else if is_word(key, &[0x6fu8, 0x72u8, 0x70u8, 0x68u8, 0x61u8, 0x6eu8]) {
        st.orphan = Some(v);
    } else if is_word(key, &[0x74u8, 0x77u8]) {
        st.tw = Some(v);
    } else if is_word(key, &[0x61u8, 0x6cu8, 0x6cu8, 0x6fu8, 0x63u8]) {
        st.alloc = Some(v);
    } else if is_word(key, &[0x6du8, 0x65u8, 0x6du8]) {
        st.mem = Some(v);
    } else if is_word(key, &[0x6du8, 0x65u8, 0x6du8, 0x6fu8, 0x72u8, 0x79u8]) {
        st.memory = Some(v);
    }
    st
}

/// Reads the `key value` pairs of the text after a protocol's colon.
pub fn parse_protocol_stats(line: &[u8]) -> (r: Result<ProtocolStats, Error>)
    ensures
        r == protocol_stats(line@),
{
    let parts = split_ascii_ws(line);
    let ghost f = fields(line@);
    let mut st = ProtocolStats { inuse: 0, orphan: None, tw: None, alloc: None, mem: None, memory: None };
    let mut i: usize = 0;
    while i < parts.len()
        invariant
            f == views(parts@),
            f == fields(line@),
            i <= parts@.len(),
            pairs_from(f, 0, ProtocolStats::zero()) == pairs_from(f, i as int, st),
        decreases parts@.len() - i,
    {
        assert(f.len() == parts@.len());
        if i + 1 >= parts.len() {
            return Err(Error::Malformed("protocol stats"));
        }
        assert(parts@[i + 1]@ == f[i + 1]);
        assert(parts@[i as int]@ == f[i as int]);
        match parse_i32(parts[i + 1]) {
            Some(v) => {
                st = with_pair(st, parts[i], v);
            },
            None => {
                return Err(Error::ParseInt);
            },
        }
        i = i + 2;
    }
    Ok(st)
}

/// The used-socket count and the per-protocol counts of a sockstat file.
#[derive(Debug, PartialEq, Eq)]
pub struct NetSockstat<'a> {
    pub used: Option<i32>,
    pub protocols: Vec<(&'a [u8], ProtocolStats)>,
}

/// What a sockstat file holds, as plain values.
pub struct NetSockstatModel {
    pub used: Option<i32>,
    pub protocols: Seq<(Seq<u8>, ProtocolStats)>,
}

impl<'a> View for NetSockstat<'a> {
    type V = NetSockstatModel;

    open spec fn view(&self) -> NetSockstatModel {
        NetSockstatModel {
            used: self.used,
            protocols: self.protocols@.map_values(|p: (&[u8], ProtocolStats)| (p.0@, p.1)),
        }
    }
}

/// `sockets`
pub open spec fn sockets_label() -> Seq<u8> {
    seq![0x73u8, 0x6fu8, 0x63u8, 0x6bu8, 0x65u8, 0x74u8, 0x73u8]
}

/// `used`
pub open spec fn used_label() -> Seq<u8> {
    seq![0x75u8, 0x73u8, 0x65u8, 0x64u8]
}

/// The used-socket count of the text after "sockets:": trimmed, it must be
/// "used", a space and an `i32`.
pub open spec fn sockets_used(rest: Seq<u8>) -> Result<i32, Error> {
    let t = trim_ws(rest);
    match first_index(t, 0x20u8) {
        None => Err(Error::Malformed("sockets line of sockstat")),
        Some(k) => if t.subrange(0, k) != used_label() {
            Err(Error::Malformed("sockets line of sockstat"))
        } else {
            match dec_i32(t.subrange(k + 1, t.len() as int)) {
                Some(v) => Ok(v),
                None => Err(Error::ParseInt),
            }
        },
    }
}

/// The statistics after one more line: a line without a colon changes
/// nothing; "sockets:" sets the used count; any other label adds a protocol
/// with the counts that follow its colon.
pub open spec fn sockstat_step(st: NetSockstatModel, line: Seq<u8>) -> Result<NetSockstatModel, Error> {
    match first_index(line, 0x3au8) {
        None => Ok(st),
        Some(c) => {
            let proto = line.subrange(0, c);
            let rest = line.subrange(c + 1, line.len() as int);
            if proto == sockets_label() {
                match sockets_used(rest) {
                    Ok(v) => Ok(NetSockstatModel { used: Some(v), ..st }),
                    Err(e) => Err(e),
                }
            } else {
                match protocol_stats(rest) {
                    Ok(p) => Ok(NetSockstatModel { protocols: st.protocols.push((proto, p)), ..st }),
                    Err(e) => Err(e),
                }
            }
        },
    }
}

/// The statistics that the first `n` lines give.
pub open spec fn sockstat_from_lines(ls: Seq<Seq<u8>>, n: nat) -> Result<NetSockstatModel, Error>
    decreases n,
{
    if n == 0 || n > ls.len() {
        Ok(NetSockstatModel { used: None, protocols: Seq::empty() })
    } else {
        match sockstat_from_lines(ls, (n - 1) as nat) {
            Ok(st) => sockstat_step(st, ls[n - 1]),
            Err(e) => Err(e),
        }
    }
}

proof fn lemma_from_lines_err(ls: Seq<Seq<u8>>, i: nat, n: nat, e: Error)
    requires
        i <= n <= ls.len(),
        sockstat_from_lines(ls, i) == Err::<NetSockstatModel, Error>(e),
    ensures
        sockstat_from_lines(ls, n) == Err::<NetSockstatModel, Error>(e),
    decreases n - i,
{
    if i < n {
        lemma_from_lines_err(ls, i, (n - 1) as nat, e);
    }
}

fn parse_sockets_used(rest: &[u8]) -> (r: Result<i32, Error>)
    ensures
        r == sockets_used(rest@),
{
    let t = trim_str_bytes(rest);
    match find_byte(t, 0x20u8) {
        None => Err(Error::Malformed("sockets line of sockstat")),
        Some(k) => {
            assert(k < t.len());
            proof {
                assert([0x75u8, 0x73u8, 0x65u8, 0x64u8]@ =~= used_label());
            }
            let key = &t[0..k];
            assert(key@ =~= t@.subrange(0, k as int));
            if !is_word(key, &[0x75u8, 0x73u8, 0x65u8, 0x64u8]) {
                return Err(Error::Malformed("sockets line of sockstat"));
            }
            let value = &t[k + 1..t.len()];
            assert(value@ =~= t@.subrange(k + 1, t@.len() as int));
            match parse_i32(value) {
                Some(v) => Ok(v),
                None => Err(Error::ParseInt),
            }
        },
    }
}

/// Parses a sockstat or sockstat6 file.
pub fn parse_sockstat(content: &str) -> (r: Result<NetSockstat<'_>, Error>)
    ensures
        match sockstat_from_lines(lines(content.spec_bytes()), lines(content.spec_bytes()).len()) {
            Ok(m) => r matches Ok(s) && s@ == m,
            Err(e) => r == Err::<NetSockstat, Error>(e),
        },
{
    let all = split_lines(content.as_bytes());
    let ghost ls = lines(content.spec_bytes());
    let mut stat = NetSockstat { used: None, protocols: Vec::new() };
    let mut i: usize = 0;
    proof {
        assert(stat@.protocols =~= Seq::<(Seq<u8>, ProtocolStats)>::empty());
        assert([0x73u8, 0x6fu8, 0x63u8, 0x6bu8, 0x65u8, 0x74u8, 0x73u8]@ =~= sockets_label());
    }
    while i < all.len()
        invariant
            i <= all@.len(),
            views(all@) == ls,
            ls == lines(content.spec_bytes()),
            sockstat_from_lines(ls, i as nat) == Ok::<NetSockstatModel, Error>(stat@),
            [0x73u8, 0x6fu8, 0x63u8, 0x6bu8, 0x65u8, 0x74u8, 0x73u8]@ == sockets_label(),
        decreases all@.len() - i,
    {
        let line = all[i];
        assert(line@ == ls[i as int]);
        match find_byte(line, 0x3au8) {
            None => {},
            Some(c) => {
                assert(c < line.len());
                let proto = &line[0..c];
                let rest = &line[c + 1..line.len()];
                assert(proto@ =~= line@.subrange(0, c as int));
                assert(rest@ =~= line@.subrange(c + 1, line@.len() as int));
                if is_word(proto, &[0x73u8, 0x6fu8, 0x63u8, 0x6bu8, 0x65u8, 0x74u8, 0x73u8]) {
                    match parse_sockets_used(rest) {
                        Ok(v) => {
                            stat.used = Some(v);
                        },
                        Err(e) => {
                            proof {
                                lemma_from_lines_err(ls, (i + 1) as nat, ls.len(), e);
                            }
                            return Err(e);
                        },
                    }
                } else {
                    match parse_protocol_stats(rest) {
                        Ok(p) => {
                            let ghost before = stat@.protocols;
                            stat.protocols.push((proto, p));
                            assert(stat@.protocols =~= before.push((proto@, p)));
                        },
                        Err(e) => {
                            proof {
                                lemma_from_lines_err(ls, (i + 1) as nat, ls.len(), e);
                            }
                            return Err(e);
                        },
                    }
                }
            },
        }
        i = i + 1;
    }
    Ok(stat)
}

} // verus!
