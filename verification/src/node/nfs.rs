//! NFS client statistics from /proc/net/rpc/nfs.
//!
//! Each line is a label followed by counts. The `proc2`, `proc3` and `proc4`
//! lines start with the number of counts that follow.

use vstd::prelude::*;
use vstd::string::StringSliceAdditionalSpecFns;

use super::Error;
use crate::metric::{
    no_tags, one_tag, samples_view, tags_view, two_tags, Kind, Sample, SampleModel, TagModel, TagValue,
};
use crate::text::{dec_u64, fields, is_word, lines, parse_u64, split_ascii_ws, split_lines, views};

verus! {

/// A count as the NFS parsers read it: a field that is not a `u64` counts 0.
pub open spec fn value_or_zero(f: Seq<u8>) -> u64 {
    match dec_u64(f) {
        Some(v) => v,
        None => 0,
    }
}

/// The counts after the label of a line with fields `f`.
pub open spec fn line_values(f: Seq<Seq<u8>>) -> Seq<u64> {
    Seq::new((f.len() - 1) as nat, |i: int| value_or_zero(f[i + 1]))
}

/// Reads the counts of the fields `parts[from..to]`.
pub fn read_values(parts: &Vec<&[u8]>, from: usize, to: usize) -> (r: Vec<u64>)
    requires
        from <= to <= parts@.len(),
    ensures
        r@ == Seq::new((to - from) as nat, |i: int| value_or_zero(parts@[from + i]@)),
{
    let mut values: Vec<u64> = Vec::new();
    let mut k = from;
    while k < to
        invariant
            from <= k <= to <= parts@.len(),
            values@ == Seq::new((k - from) as nat, |i: int| value_or_zero(parts@[from + i]@)),
        decreases to - k,
    {
        let v = match parse_u64(parts[k]) {
            Some(v) => v,
            None => 0,
        };
        values.push(v);
        k = k + 1;
        proof {
            assert(values@ =~= Seq::new((k - from) as nat, |i: int| value_or_zero(parts@[from + i]@)));
        }
    }
    values
}

/// The "net" line.
#[derive(Debug, PartialEq, Eq)]
pub struct Network {
    pub net_count: u64,
    pub udp_count: u64,
    pub tcp_count: u64,
    pub tcp_connect: u64,
}

impl Network {
    /// The record that the four counts of a "net" line give.
    pub open spec fn from_values(v: Seq<u64>) -> Result<Network, Error> {
        if v.len() != 4 {
            Err(Error::Invalid("Network"))
        } else {
            Ok(Network { net_count: v[0], udp_count: v[1], tcp_count: v[2], tcp_connect: v[3] })
        }
    }

    pub open spec fn zero() -> Network {
        Network { net_count: 0, udp_count: 0, tcp_count: 0, tcp_connect: 0 }
    }

    /// The record with every count 0.
    pub fn new() -> (r: Network)
        ensures
            r == Network::zero(),
    {
        Network { net_count: 0, udp_count: 0, tcp_count: 0, tcp_connect: 0 }
    }

    pub fn try_from(values: Vec<u64>) -> (r: Result<Network, Error>)
        ensures
            r == Network::from_values(values@),
    {
        if values.len() != 4 {
            return Err(Error::Invalid("Network"));
        }
        Ok(Network { net_count: values[0], udp_count: values[1], tcp_count: values[2], tcp_connect: values[3] })
    }
}

/// The "proc2" line: NFSv2 procedures.
#[derive(Debug, PartialEq, Eq)]
pub struct V2Stats {
    pub null: u64,
    pub get_attr: u64,
    pub set_attr: u64,
    pub root: u64,
    pub lookup: u64,
    pub read_link: u64,
    pub read: u64,
    pub wr_cache: u64,
    pub write: u64,
    pub create: u64,
    pub remove: u64,
    pub rename: u64,
    pub link: u64,
    pub sym_link: u64,
    pub mkdir: u64,
    pub rmdir: u64,
    pub read_dir: u64,
    pub fs_stat: u64,
}

impl V2Stats {
    /// The record that the counts of the line give: the first count is the
    /// number of counts after it, at least 18.
    pub open spec fn from_values(v: Seq<u64>) -> Result<V2Stats, Error> {
        let vs = v[0] as usize;
        if v.len() - 1 != vs as int || vs < 18 {
            Err(Error::Invalid("V2Stats"))
        } else {
            Ok(V2Stats { null: v[1], get_attr: v[2], set_attr: v[3], root: v[4], lookup: v[5], read_link: v[6], read: v[7], wr_cache: v[8], write: v[9], create: v[10], remove: v[11], rename: v[12], link: v[13], sym_link: v[14], mkdir: v[15], rmdir: v[16], read_dir: v[17], fs_stat: v[18] })
        }
    }

    pub open spec fn zero() -> V2Stats {
        V2Stats { null: 0, get_attr: 0, set_attr: 0, root: 0, lookup: 0, read_link: 0, read: 0, wr_cache: 0, write: 0, create: 0, remove: 0, rename: 0, link: 0, sym_link: 0, mkdir: 0, rmdir: 0, read_dir: 0, fs_stat: 0 }
    }

    /// The record with every count 0.
    pub fn new() -> (r: V2Stats)
        ensures
            r == V2Stats::zero(),
    {
        V2Stats { null: 0, get_attr: 0, set_attr: 0, root: 0, lookup: 0, read_link: 0, read: 0, wr_cache: 0, write: 0, create: 0, remove: 0, rename: 0, link: 0, sym_link: 0, mkdir: 0, rmdir: 0, read_dir: 0, fs_stat: 0 }
    }

    pub fn try_from(values: Vec<u64>) -> (r: Result<V2Stats, Error>)
        requires
            values@.len() >= 1,
        ensures
            r == V2Stats::from_values(values@),
    {
        let vs = values[0] as usize;
        if values.len() - 1 != vs || vs < 18 {
            return Err(Error::Invalid("V2Stats"));
        }
        Ok(V2Stats { null: values[1], get_attr: values[2], set_attr: values[3], root: values[4], lookup: values[5], read_link: values[6], read: values[7], wr_cache: values[8], write: values[9], create: values[10], remove: values[11], rename: values[12], link: values[13], sym_link: values[14], mkdir: values[15], rmdir: values[16], read_dir: values[17], fs_stat: values[18] })
    }
}

/// The "proc3" line: NFSv3 procedures.
#[derive(Debug, PartialEq, Eq)]
pub struct V3Stats {
    pub null: u64,
    pub get_attr: u64,
    pub set_attr: u64,
    pub lookup: u64,
    pub access: u64,
    pub read_link: u64,
    pub read: u64,
    pub write: u64,
    pub create: u64,
    pub mkdir: u64,
    pub sym_link: u64,
    pub mknod: u64,
    pub remove: u64,
    pub rmdir: u64,
    pub rename: u64,
    pub link: u64,
    pub read_dir: u64,
    pub read_dir_plus: u64,
    pub fs_stat: u64,
    pub fs_info: u64,
    pub path_conf: u64,
    pub commit: u64,
}

impl V3Stats {
    /// The record that the counts of the line give: the first count is the
    /// number of counts after it, at least 22.
    pub open spec fn from_values(v: Seq<u64>) -> Result<V3Stats, Error> {
        let vs = v[0] as usize;
        if v.len() - 1 != vs as int || vs < 22 {
            Err(Error::Invalid("V3Stats"))
        } else {
            Ok(V3Stats { null: v[1], get_attr: v[2], set_attr: v[3], lookup: v[4], access: v[5], read_link: v[6], read: v[7], write: v[8], create: v[9], mkdir: v[10], sym_link: v[11], mknod: v[12], remove: v[13], rmdir: v[14], rename: v[15], link: v[16], read_dir: v[17], read_dir_plus: v[18], fs_stat: v[19], fs_info: v[20], path_conf: v[21], commit: v[22] })
        }
    }

    pub open spec fn zero() -> V3Stats {
        V3Stats { null: 0, get_attr: 0, set_attr: 0, lookup: 0, access: 0, read_link: 0, read: 0, write: 0, create: 0, mkdir: 0, sym_link: 0, mknod: 0, remove: 0, rmdir: 0, rename: 0, link: 0, read_dir: 0, read_dir_plus: 0, fs_stat: 0, fs_info: 0, path_conf: 0, commit: 0 }
    }

    /// The record with every count 0.
    pub fn new() -> (r: V3Stats)
        ensures
            r == V3Stats::zero(),
    {
        V3Stats { null: 0, get_attr: 0, set_attr: 0, lookup: 0, access: 0, read_link: 0, read: 0, write: 0, create: 0, mkdir: 0, sym_link: 0, mknod: 0, remove: 0, rmdir: 0, rename: 0, link: 0, read_dir: 0, read_dir_plus: 0, fs_stat: 0, fs_info: 0, path_conf: 0, commit: 0 }
    }

    pub fn try_from(values: Vec<u64>) -> (r: Result<V3Stats, Error>)
        requires
            values@.len() >= 1,
        ensures
            r == V3Stats::from_values(values@),
    {
        let vs = values[0] as usize;
        if values.len() - 1 != vs || vs < 22 {
            return Err(Error::Invalid("V3Stats"));
        }
        Ok(V3Stats { null: values[1], get_attr: values[2], set_attr: values[3], lookup: values[4], access: values[5], read_link: values[6], read: values[7], write: values[8], create: values[9], mkdir: values[10], sym_link: values[11], mknod: values[12], remove: values[13], rmdir: values[14], rename: values[15], link: values[16], read_dir: values[17], read_dir_plus: values[18], fs_stat: values[19], fs_info: values[20], path_conf: values[21], commit: values[22] })
    }
}

/// The "proc4" line of the client: NFSv4 operations.
#[derive(Debug, PartialEq, Eq)]
pub struct ClientV4Stats {
    pub null: u64,
    pub read: u64,
    pub write: u64,
    pub commit: u64,
    pub open: u64,
    pub open_confirm: u64,
    pub open_noattr: u64,
    pub open_downgrade: u64,
    pub close: u64,
    pub setattr: u64,
    pub fs_info: u64,
    pub renew: u64,
    pub set_client_id: u64,
    pub set_client_id_confirm: u64,
    pub lock: u64,
    pub lockt: u64,
    pub locku: u64,
    pub access: u64,
    pub getattr: u64,
    pub lookup: u64,
    pub lookup_root: u64,
    pub remove: u64,
    pub rename: u64,
    pub link: u64,
    pub symlink: u64,
    pub create: u64,
    pub pathconf: u64,
    pub stat_fs: u64,
    pub read_link: u64,
    pub read_dir: u64,
    pub server_caps: u64,
    pub deleg_return: u64,
    pub get_acl: u64,
    pub set_acl: u64,
    pub fs_locations: u64,
    pub release_lockowner: u64,
    pub secinfo: u64,
    pub fsid_present: u64,
    pub exchange_id: u64,
    pub create_session: u64,
    pub destroy_session: u64,
    pub sequence: u64,
    pub get_lease_time: u64,
    pub reclaim_complete: u64,
    pub layout_get: u64,
    pub get_device_info: u64,
    pub layout_commit: u64,
    pub layout_return: u64,
    pub secinfo_no_name: u64,
    pub test_state_id: u64,
    pub free_state_id: u64,
    pub get_device_list: u64,
    pub bind_conn_to_session: u64,
    pub destroy_client_id: u64,
    pub seek: u64,
    pub allocate: u64,
    pub deallocate: u64,
    pub layout_stats: u64,
    pub clone: u64,
}

/// Count `k`, or 0 past the end: older kernels print fewer operations.
pub open spec fn padded(v: Seq<u64>, k: int) -> u64 {
    if k < v.len() {
        v[k]
    } else {
        0
    }
}

fn padded_exec(values: &Vec<u64>, k: usize) -> (r: u64)
    ensures
        r == padded(values@, k as int),
{
    if k < values.len() {
        values[k]
    } else {
        0
    }
}

impl ClientV4Stats {
    /// The record that the counts of the line give; the first count is the
    /// number of counts after it. The 59 known operations are read, missing
    /// ones count 0.
    pub open spec fn from_values(v: Seq<u64>) -> Result<ClientV4Stats, Error> {
        let vs = v[0] as usize;
        if v.len() - 1 != vs as int {
            Err(Error::Invalid("ClientV4Stats"))
        } else {
            Ok(ClientV4Stats { null: padded(v, 1), read: padded(v, 2), write: padded(v, 3), commit: padded(v, 4), open: padded(v, 5), open_confirm: padded(v, 6), open_noattr: padded(v, 7), open_downgrade: padded(v, 8), close: padded(v, 9), setattr: padded(v, 10), fs_info: padded(v, 11), renew: padded(v, 12), set_client_id: padded(v, 13), set_client_id_confirm: padded(v, 14), lock: padded(v, 15), lockt: padded(v, 16), locku: padded(v, 17), access: padded(v, 18), getattr: padded(v, 19), lookup: padded(v, 20), lookup_root: padded(v, 21), remove: padded(v, 22), rename: padded(v, 23), link: padded(v, 24), symlink: padded(v, 25), create: padded(v, 26), pathconf: padded(v, 27), stat_fs: padded(v, 28), read_link: padded(v, 29), read_dir: padded(v, 30), server_caps: padded(v, 31), deleg_return: padded(v, 32), get_acl: padded(v, 33), set_acl: padded(v, 34), fs_locations: padded(v, 35), release_lockowner: padded(v, 36), secinfo: padded(v, 37), fsid_present: padded(v, 38), exchange_id: padded(v, 39), create_session: padded(v, 40), destroy_session: padded(v, 41), sequence: padded(v, 42), get_lease_time: padded(v, 43), reclaim_complete: padded(v, 44), layout_get: padded(v, 46), get_device_info: padded(v, 45), layout_commit: padded(v, 47), layout_return: padded(v, 48), secinfo_no_name: padded(v, 49), test_state_id: padded(v, 50), free_state_id: padded(v, 51), get_device_list: padded(v, 52), bind_conn_to_session: padded(v, 53), destroy_client_id: padded(v, 54), seek: padded(v, 55), allocate: padded(v, 56), deallocate: padded(v, 57), layout_stats: padded(v, 58), clone: padded(v, 59) })
        }
    }

    pub open spec fn zero() -> ClientV4Stats {
        ClientV4Stats { null: 0, read: 0, write: 0, commit: 0, open: 0, open_confirm: 0, open_noattr: 0, open_downgrade: 0, close: 0, setattr: 0, fs_info: 0, renew: 0, set_client_id: 0, set_client_id_confirm: 0, lock: 0, lockt: 0, locku: 0, access: 0, getattr: 0, lookup: 0, lookup_root: 0, remove: 0, rename: 0, link: 0, symlink: 0, create: 0, pathconf: 0, stat_fs: 0, read_link: 0, read_dir: 0, server_caps: 0, deleg_return: 0, get_acl: 0, set_acl: 0, fs_locations: 0, release_lockowner: 0, secinfo: 0, fsid_present: 0, exchange_id: 0, create_session: 0, destroy_session: 0, sequence: 0, get_lease_time: 0, reclaim_complete: 0, layout_get: 0, get_device_info: 0, layout_commit: 0, layout_return: 0, secinfo_no_name: 0, test_state_id: 0, free_state_id: 0, get_device_list: 0, bind_conn_to_session: 0, destroy_client_id: 0, seek: 0, allocate: 0, deallocate: 0, layout_stats: 0, clone: 0 }
    }

    /// The record with every count 0.
    pub fn new() -> (r: ClientV4Stats)
        ensures
            r == ClientV4Stats::zero(),
    {
        ClientV4Stats { null: 0, read: 0, write: 0, commit: 0, open: 0, open_confirm: 0, open_noattr: 0, open_downgrade: 0, close: 0, setattr: 0, fs_info: 0, renew: 0, set_client_id: 0, set_client_id_confirm: 0, lock: 0, lockt: 0, locku: 0, access: 0, getattr: 0, lookup: 0, lookup_root: 0, remove: 0, rename: 0, link: 0, symlink: 0, create: 0, pathconf: 0, stat_fs: 0, read_link: 0, read_dir: 0, server_caps: 0, deleg_return: 0, get_acl: 0, set_acl: 0, fs_locations: 0, release_lockowner: 0, secinfo: 0, fsid_present: 0, exchange_id: 0, create_session: 0, destroy_session: 0, sequence: 0, get_lease_time: 0, reclaim_complete: 0, layout_get: 0, get_device_info: 0, layout_commit: 0, layout_return: 0, secinfo_no_name: 0, test_state_id: 0, free_state_id: 0, get_device_list: 0, bind_conn_to_session: 0, destroy_client_id: 0, seek: 0, allocate: 0, deallocate: 0, layout_stats: 0, clone: 0 }
    }

    pub fn try_from(values: Vec<u64>) -> (r: Result<ClientV4Stats, Error>)
        requires
            values@.len() >= 1,
        ensures
            r == ClientV4Stats::from_values(values@),
    {
        let vs = values[0] as usize;
        if values.len() - 1 != vs {
            return Err(Error::Invalid("ClientV4Stats"));
        }
        Ok(ClientV4Stats { null: padded_exec(&values, 1), read: padded_exec(&values, 2), write: padded_exec(&values, 3), commit: padded_exec(&values, 4), open: padded_exec(&values, 5), open_confirm: padded_exec(&values, 6), open_noattr: padded_exec(&values, 7), open_downgrade: padded_exec(&values, 8), close: padded_exec(&values, 9), setattr: padded_exec(&values, 10), fs_info: padded_exec(&values, 11), renew: padded_exec(&values, 12), set_client_id: padded_exec(&values, 13), set_client_id_confirm: padded_exec(&values, 14), lock: padded_exec(&values, 15), lockt: padded_exec(&values, 16), locku: padded_exec(&values, 17), access: padded_exec(&values, 18), getattr: padded_exec(&values, 19), lookup: padded_exec(&values, 20), lookup_root: padded_exec(&values, 21), remove: padded_exec(&values, 22), rename: padded_exec(&values, 23), link: padded_exec(&values, 24), symlink: padded_exec(&values, 25), create: padded_exec(&values, 26), pathconf: padded_exec(&values, 27), stat_fs: padded_exec(&values, 28), read_link: padded_exec(&values, 29), read_dir: padded_exec(&values, 30), server_caps: padded_exec(&values, 31), deleg_return: padded_exec(&values, 32), get_acl: padded_exec(&values, 33), set_acl: padded_exec(&values, 34), fs_locations: padded_exec(&values, 35), release_lockowner: padded_exec(&values, 36), secinfo: padded_exec(&values, 37), fsid_present: padded_exec(&values, 38), exchange_id: padded_exec(&values, 39), create_session: padded_exec(&values, 40), destroy_session: padded_exec(&values, 41), sequence: padded_exec(&values, 42), get_lease_time: padded_exec(&values, 43), reclaim_complete: padded_exec(&values, 44), layout_get: padded_exec(&values, 46), get_device_info: padded_exec(&values, 45), layout_commit: padded_exec(&values, 47), layout_return: padded_exec(&values, 48), secinfo_no_name: padded_exec(&values, 49), test_state_id: padded_exec(&values, 50), free_state_id: padded_exec(&values, 51), get_device_list: padded_exec(&values, 52), bind_conn_to_session: padded_exec(&values, 53), destroy_client_id: padded_exec(&values, 54), seek: padded_exec(&values, 55), allocate: padded_exec(&values, 56), deallocate: padded_exec(&values, 57), layout_stats: padded_exec(&values, 58), clone: padded_exec(&values, 59) })
    }
}

/// The "rpc" line of the client.
#[derive(Debug, PartialEq, Eq)]
pub struct ClientRPC {
    pub rpc_count: u64,
    pub retransmissions: u64,
    pub auth_refreshes: u64,
}

impl ClientRPC {
    /// The record that the three counts of an "rpc" line give.
    pub open spec fn from_values(v: Seq<u64>) -> Result<ClientRPC, Error> {
        if v.len() != 3 {
            Err(Error::Invalid("RPC line"))
        } else {
            Ok(ClientRPC { rpc_count: v[0], retransmissions: v[1], auth_refreshes: v[2] })
        }
    }

    pub open spec fn zero() -> ClientRPC {
        ClientRPC { rpc_count: 0, retransmissions: 0, auth_refreshes: 0 }
    }

    pub fn new(values: Vec<u64>) -> (r: Result<ClientRPC, Error>)
        ensures
            r == ClientRPC::from_values(values@),
    {
        if values.len() != 3 {
            return Err(Error::Invalid("RPC line"));
        }
        Ok(ClientRPC { rpc_count: values[0], retransmissions: values[1], auth_refreshes: values[2] })
    }
}

/// All statistics of /proc/net/rpc/nfs.
#[derive(Debug, PartialEq, Eq)]
pub struct ClientRPCStats {
    pub network: Network,
    pub client_rpc: ClientRPC,
    pub v2_stats: V2Stats,
    pub v3_stats: V3Stats,
    pub client_v4_stats: ClientV4Stats,
}

/// `net`
pub open spec fn label_net() -> Seq<u8> {
    seq![0x6eu8, 0x65u8, 0x74u8]
}

/// `rpc`
pub open spec fn label_rpc() -> Seq<u8> {
    seq![0x72u8, 0x70u8, 0x63u8]
}

/// `proc2`
pub open spec fn label_proc2() -> Seq<u8> {
    seq![0x70u8, 0x72u8, 0x6fu8, 0x63u8, 0x32u8]
}

/// `proc3`
pub open spec fn label_proc3() -> Seq<u8> {
    seq![0x70u8, 0x72u8, 0x6fu8, 0x63u8, 0x33u8]
}

/// `proc4`
pub open spec fn label_proc4() -> Seq<u8> {
    seq![0x70u8, 0x72u8, 0x6fu8, 0x63u8, 0x34u8]
}

impl ClientRPCStats {
    pub open spec fn zero() -> ClientRPCStats {
        ClientRPCStats {
            network: Network::zero(),
            client_rpc: ClientRPC::zero(),
            v2_stats: V2Stats::zero(),
            v3_stats: V3Stats::zero(),
            client_v4_stats: ClientV4Stats::zero(),
        }
    }

    /// The statistics after reading one more line: the label selects the
    /// record that the counts replace.
    #[verifier::opaque]
    pub open spec fn apply_line(st: ClientRPCStats, line: Seq<u8>) -> Result<ClientRPCStats, Error> {
        let f = fields(line);
        if f.len() < 2 {
            Err(Error::Invalid("NFS metric line"))
        } else {
            let v = line_values(f);
            if f[0] == label_net() {
                match Network::from_values(v) {
                    Ok(x) => Ok(ClientRPCStats { network: x, ..st }),
                    Err(e) => Err(e),
                }
            } else if f[0] == label_rpc() {
                match ClientRPC::from_values(v) {
                    Ok(x) => Ok(ClientRPCStats { client_rpc: x, ..st }),
                    Err(e) => Err(e),
                }
            } else if f[0] == label_proc2() {
                match V2Stats::from_values(v) {
                    Ok(x) => Ok(ClientRPCStats { v2_stats: x, ..st }),
                    Err(e) => Err(e),
                }
            } else if f[0] == label_proc3() {
                match V3Stats::from_values(v) {
                    Ok(x) => Ok(ClientRPCStats { v3_stats: x, ..st }),
                    Err(e) => Err(e),
                }
            } else if f[0] == label_proc4() {
                match ClientV4Stats::from_values(v) {
                    Ok(x) => Ok(ClientRPCStats { client_v4_stats: x, ..st }),
                    Err(e) => Err(e),
                }
            } else {
                Err(Error::Invalid("NFS metric line"))
            }
        }
    }

    /// The statistics that the first `n` lines give.
    pub open spec fn from_lines(ls: Seq<Seq<u8>>, n: nat) -> Result<ClientRPCStats, Error>
        decreases n,
    {
        if n == 0 || n > ls.len() {
            Ok(ClientRPCStats::zero())
        } else {
            match ClientRPCStats::from_lines(ls, (n - 1) as nat) {
                Ok(st) => ClientRPCStats::apply_line(st, ls[n - 1]),
                Err(e) => Err(e),
            }
        }
    }
}

impl Default for ClientRPCStats {
    /// The statistics with every count 0.
    fn default() -> (r: ClientRPCStats)
        ensures
            r == ClientRPCStats::zero(),
    {
        ClientRPCStats {
            network: Network::new(),
            client_rpc: ClientRPC { rpc_count: 0, retransmissions: 0, auth_refreshes: 0 },
            v2_stats: V2Stats::new(),
            v3_stats: V3Stats::new(),
            client_v4_stats: ClientV4Stats::new(),
        }
    }
}

/// Reads one more line of /proc/net/rpc/nfs into `stats`.
pub fn apply_client_line(stats: ClientRPCStats, line: &[u8]) -> (r: Result<ClientRPCStats, Error>)
    ensures
        r == ClientRPCStats::apply_line(stats, line@),
{
    reveal(ClientRPCStats::apply_line);
    let mut stats = stats;
    let parts = split_ascii_ws(line);
    let ghost f = fields(line@);
    proof {
        assert forall|k: int| 0 <= k < parts@.len() implies #[trigger] parts@[k]@ == f[k] by {
            assert(views(parts@)[k] == parts@[k]@);
        }
    }
    if parts.len() < 2 {
        return Err(Error::Invalid("NFS metric line"));
    }
    let values = read_values(&parts, 1, parts.len());
    proof {
        assert(values@ =~= line_values(f));
    }
    let label = parts[0];
    proof {
        assert([0x6eu8, 0x65u8, 0x74u8]@ =~= label_net());
        assert([0x72u8, 0x70u8, 0x63u8]@ =~= label_rpc());
        assert([0x70u8, 0x72u8, 0x6fu8, 0x63u8, 0x32u8]@ =~= label_proc2());
        assert([0x70u8, 0x72u8, 0x6fu8, 0x63u8, 0x33u8]@ =~= label_proc3());
        assert([0x70u8, 0x72u8, 0x6fu8, 0x63u8, 0x34u8]@ =~= label_proc4());
    }
    if is_word(label, &[0x6eu8, 0x65u8, 0x74u8]) {
        match Network::try_from(values) {
            Ok(x) => {
                stats.network = x;
            },
            Err(e) => return Err(e),
        }
    } else if is_word(label, &[0x72u8, 0x70u8, 0x63u8]) {
        match ClientRPC::new(values) {
            Ok(x) => {
                stats.client_rpc = x;
            },
            Err(e) => return Err(e),
        }
    } else if is_word(label, &[0x70u8, 0x72u8, 0x6fu8, 0x63u8, 0x32u8]) {
        match V2Stats::try_from(values) {
            Ok(x) => {
                stats.v2_stats = x;
            },
            Err(e) => return Err(e),
        }
    } else if is_word(label, &[0x70u8, 0x72u8, 0x6fu8, 0x63u8, 0x33u8]) {
        match V3Stats::try_from(values) {
            Ok(x) => {
                stats.v3_stats = x;
            },
            Err(e) => return Err(e),
        }
    } else if is_word(label, &[0x70u8, 0x72u8, 0x6fu8, 0x63u8, 0x34u8]) {
        match ClientV4Stats::try_from(values) {
            Ok(x) => {
                stats.client_v4_stats = x;
            },
            Err(e) => return Err(e),
        }
    } else {
        return Err(Error::Invalid("NFS metric line"));
    }
    Ok(stats)
}

proof fn lemma_from_lines_err(ls: Seq<Seq<u8>>, i: nat, n: nat, e: Error)
    requires
        i <= n <= ls.len(),
        ClientRPCStats::from_lines(ls, i) == Err::<ClientRPCStats, Error>(e),
    ensures
        ClientRPCStats::from_lines(ls, n) == Err::<ClientRPCStats, Error>(e),
    decreases n - i,
{
    if i < n {
        lemma_from_lines_err(ls, i, (n - 1) as nat, e);
    }
}

/// Parses the content of /proc/net/rpc/nfs. A count that is not a number
/// counts 0; a line with no count or an unknown label is an error.
pub fn parse_client_rpc_stats(data: &str) -> (r: Result<ClientRPCStats, Error>)
    ensures
        r == ClientRPCStats::from_lines(lines(data.spec_bytes()), lines(data.spec_bytes()).len()),
{
    let all = split_lines(data.as_bytes());
    let ghost ls = lines(data.spec_bytes());
    let mut stats = ClientRPCStats::default();
    let mut i: usize = 0;
    while i < all.len()
        invariant
            i <= all@.len(),
            views(all@) == ls,
            ls == lines(data.spec_bytes()),
            ClientRPCStats::from_lines(ls, i as nat) == Ok::<ClientRPCStats, Error>(stats),
        decreases all@.len() - i,
    {
        let line = all[i];
        assert(line@ == ls[i as int]);
        match apply_client_line(stats, line) {
            Ok(next) => {
                stats = next;
            },
            Err(e) => {
                proof {
                    assert(ClientRPCStats::from_lines(ls, (i + 1) as nat) == Err::<
                        ClientRPCStats,
                        Error,
                    >(e));
                    lemma_from_lines_err(ls, (i + 1) as nat, ls.len(), e);
                }
                return Err(e);
            },
        }
        i = i + 1;
    }
    Ok(stats)
}

/// The name, description and kind of NFS client sample `k`.
pub open spec fn nfs_metric(k: int) -> (&'static str, &'static str, Kind) {
    if k == 0 {
        ("node_nfs_packets_total", "Total NFSd network packets (sent+received) by protocol type.", Kind::Sum)
    } else if k == 1 {
        ("node_nfs_packets_total", "Total NFSd network packets (sent+received) by protocol type.", Kind::Sum)
    } else if k == 2 {
        ("node_nfs_connections_total", "Total number of NFSd TCP connections.", Kind::Sum)
    } else if k == 3 {
        ("node_nfs_rpcs_total", "Total number of RPCs performed.", Kind::Sum)
    } else if k == 4 {
        ("node_nfs_rpc_retransmissions_total", "Number of RPC transmissions performed.", Kind::Sum)
    } else if k == 5 {
        ("node_nfs_rpc_authentication_refreshes_total", "Number of RPC authentication refreshes performed.", Kind::Sum)
    } else if k == 6 {
        ("node_nfs_requests_total", "Number of NFS procedures invoked.", Kind::Sum)
    } else if k == 7 {
        ("node_nfs_requests_total", "Number of NFS procedures invoked.", Kind::Sum)
    } else if k == 8 {
        ("node_nfs_requests_total", "Number of NFS procedures invoked.", Kind::Sum)
    } else if k == 9 {
        ("node_nfs_requests_total", "Number of NFS procedures invoked.", Kind::Sum)
    } else if k == 10 {
        ("node_nfs_requests_total", "Number of NFS procedures invoked.", Kind::Sum)
    } else if k == 11 {
        ("node_nfs_requests_total", "Number of NFS procedures invoked.", Kind::Sum)
    } else if k == 12 {
        ("node_nfs_requests_total", "Number of NFS procedures invoked.", Kind::Sum)
    } else if k == 13 {
        ("node_nfs_requests_total", "Number of NFS procedures invoked.", Kind::Sum)
    } else if k == 14 {
        ("node_nfs_requests_total", "Number of NFS procedures invoked.", Kind::Sum)
    } else if k == 15 {
        ("node_nfs_requests_total", "Number of NFS procedures invoked.", Kind::Sum)
    } else if k == 16 {
        ("node_nfs_requests_total", "Number of NFS procedures invoked.", Kind::Sum)
    } else if k == 17 {
        ("node_nfs_requests_total", "Number of NFS procedures invoked.", Kind::Sum)
    } else if k == 18 {
        ("node_nfs_requests_total", "Number of NFS procedures invoked.", Kind::Sum)
    } else if k == 19 {
        ("node_nfs_requests_total", "Number of NFS procedures invoked.", Kind::Sum)
    } else if k == 20 {
        ("node_nfs_requests_total", "Number of NFS procedures invoked.", Kind::Sum)
    } else if k == 21 {
        ("node_nfs_requests_total", "Number of NFS procedures invoked.", Kind::Sum)
    } else if k == 22 {
        ("node_nfs_requests_total", "Number of NFS procedures invoked.", Kind::Sum)
    } else if k == 23 {
        ("node_nfs_requests_total", "Number of NFS procedures invoked.", Kind::Sum)
    } else if k == 24 {
        ("node_nfs_requests_total", "Number of NFS procedures invoked.", Kind::Sum)
    } else if k == 25 {
        ("node_nfs_requests_total", "Number of NFS procedures invoked.", Kind::Sum)
    } else if k == 26 {
        ("node_nfs_requests_total", "Number of NFS procedures invoked.", Kind::Sum)
    } else if k == 27 {
        ("node_nfs_requests_total", "Number of NFS procedures invoked.", Kind::Sum)
    } else if k == 28 {
        ("node_nfs_requests_total", "Number of NFS procedures invoked.", Kind::Sum)
    } else if k == 29 {
        ("node_nfs_requests_total", "Number of NFS procedures invoked.", Kind::Sum)
    } else if k == 30 {
        ("node_nfs_requests_total", "Number of NFS procedures invoked.", Kind::Sum)
    } else if k == 31 {
        ("node_nfs_requests_total", "Number of NFS procedures invoked.", Kind::Sum)
    } else if k == 32 {
        ("node_nfs_requests_total", "Number of NFS procedures invoked.", Kind::Sum)
    } else if k == 33 {
        ("node_nfs_requests_total", "Number of NFS procedures invoked.", Kind::Sum)
    } else if k == 34 {
        ("node_nfs_requests_total", "Number of NFS procedures invoked.", Kind::Sum)
    } else if k == 35 {
        ("node_nfs_requests_total", "Number of NFS procedures invoked.", Kind::Sum)
    } else if k == 36 {
        ("node_nfs_requests_total", "Number of NFS procedures invoked.", Kind::Sum)
    } else if k == 37 {
        ("node_nfs_requests_total", "Number of NFS procedures invoked.", Kind::Sum)
    } else if k == 38 {
        ("node_nfs_requests_total", "Number of NFS procedures invoked.", Kind::Sum)
    } else if k == 39 {
        ("node_nfs_requests_total", "Number of NFS procedures invoked.", Kind::Sum)
    } else if k == 40 {
        ("node_nfs_requests_total", "Number of NFS procedures invoked.", Kind::Sum)
    } else if k == 41 {
        ("node_nfs_requests_total", "Number of NFS procedures invoked.", Kind::Sum)
    } else if k == 42 {
        ("node_nfs_requests_total", "Number of NFS procedures invoked.", Kind::Sum)
    } else if k == 43 {
        ("node_nfs_requests_total", "Number of NFS procedures invoked.", Kind::Sum)
    } else if k == 44 {
        ("node_nfs_requests_total", "Number of NFS procedures invoked.", Kind::Sum)
    } else if k == 45 {
        ("node_nfs_requests_total", "Number of NFS procedures invoked.", Kind::Sum)
    } else if k == 46 {
        ("node_nfs_requests_total", "Number of NFS procedures invoked.", Kind::Sum)
    } else if k == 47 {
        ("node_nfs_requests_total", "Number of NFS procedures invoked.", Kind::Sum)
    } else if k == 48 {
        ("node_nfs_requests_total", "Number of NFS procedures invoked.", Kind::Sum)
    } else if k == 49 {
        ("node_nfs_requests_total", "Number of NFS procedures invoked.", Kind::Sum)
    } else if k == 50 {
        ("node_nfs_requests_total", "Number of NFS procedures invoked.", Kind::Sum)
    } else if k == 51 {
        ("node_nfs_requests_total", "Number of NFS procedures invoked.", Kind::Sum)
    } else if k == 52 {
        ("node_nfs_requests_total", "Number of NFS procedures invoked.", Kind::Sum)
    } else if k == 53 {
        ("node_nfs_requests_total", "Number of NFS procedures invoked.", Kind::Sum)
    } else if k == 54 {
        ("node_nfs_requests_total", "Number of NFS procedures invoked.", Kind::Sum)
    } else if k == 55 {
        ("node_nfs_requests_total", "Number of NFS procedures invoked.", Kind::Sum)
    } else if k == 56 {
        ("node_nfs_requests_total", "Number of NFS procedures invoked.", Kind::Sum)
    } else if k == 57 {
        ("node_nfs_requests_total", "Number of NFS procedures invoked.", Kind::Sum)
    } else if k == 58 {
        ("node_nfs_requests_total", "Number of NFS procedures invoked.", Kind::Sum)
    } else if k == 59 {
        ("node_nfs_requests_total", "Number of NFS procedures invoked.", Kind::Sum)
    } else if k == 60 {
        ("node_nfs_requests_total", "Number of NFS procedures invoked.", Kind::Sum)
    } else if k == 61 {
        ("node_nfs_requests_total", "Number of NFS procedures invoked.", Kind::Sum)
    } else if k == 62 {
        ("node_nfs_requests_total", "Number of NFS procedures invoked.", Kind::Sum)
    } else if k == 63 {
        ("node_nfs_requests_total", "Number of NFS procedures invoked.", Kind::Sum)
    } else if k == 64 {
        ("node_nfs_requests_total", "Number of NFS procedures invoked.", Kind::Sum)
    } else if k == 65 {
        ("node_nfs_requests_total", "Number of NFS procedures invoked.", Kind::Sum)
    } else if k == 66 {
        ("node_nfs_requests_total", "Number of NFS procedures invoked.", Kind::Sum)
    } else if k == 67 {
        ("node_nfs_requests_total", "Number of NFS procedures invoked.", Kind::Sum)
    } else if k == 68 {
        ("node_nfs_requests_total", "Number of NFS procedures invoked.", Kind::Sum)
    } else if k == 69 {
        ("node_nfs_requests_total", "Number of NFS procedures invoked.", Kind::Sum)
    } else if k == 70 {
        ("node_nfs_requests_total", "Number of NFS procedures invoked.", Kind::Sum)
    } else if k == 71 {
        ("node_nfs_requests_total", "Number of NFS procedures invoked.", Kind::Sum)
    } else if k == 72 {
        ("node_nfs_requests_total", "Number of NFS procedures invoked.", Kind::Sum)
    } else if k == 73 {
        ("node_nfs_requests_total", "Number of NFS procedures invoked.", Kind::Sum)
    } else if k == 74 {
        ("node_nfs_requests_total", "Number of NFS procedures invoked.", Kind::Sum)
    } else if k == 75 {
        ("node_nfs_requests_total", "Number of NFS procedures invoked.", Kind::Sum)
    } else if k == 76 {
        ("node_nfs_requests_total", "Number of NFS procedures invoked.", Kind::Sum)
    } else if k == 77 {
        ("node_nfs_requests_total", "Number of NFS procedures invoked.", Kind::Sum)
    } else if k == 78 {
        ("node_nfs_requests_total", "Number of NFS procedures invoked.", Kind::Sum)
    } else if k == 79 {
        ("node_nfs_requests_total", "Number of NFS procedures invoked.", Kind::Sum)
    } else if k == 80 {
        ("node_nfs_requests_total", "Number of NFS procedures invoked.", Kind::Sum)
    } else if k == 81 {
        ("node_nfs_requests_total", "Number of NFS procedures invoked.", Kind::Sum)
    } else if k == 82 {
        ("node_nfs_requests_total", "Number of NFS procedures invoked.", Kind::Sum)
    } else if k == 83 {
        ("node_nfs_requests_total", "Number of NFS procedures invoked.", Kind::Sum)
    } else if k == 84 {
        ("node_nfs_requests_total", "Number of NFS procedures invoked.", Kind::Sum)
    } else if k == 85 {
        ("node_nfs_requests_total", "Number of NFS procedures invoked.", Kind::Sum)
    } else if k == 86 {
        ("node_nfs_requests_total", "Number of NFS procedures invoked.", Kind::Sum)
    } else if k == 87 {
        ("node_nfs_requests_total", "Number of NFS procedures invoked.", Kind::Sum)
    } else if k == 88 {
        ("node_nfs_requests_total", "Number of NFS procedures invoked.", Kind::Sum)
    } else if k == 89 {
        ("node_nfs_requests_total", "Number of NFS procedures invoked.", Kind::Sum)
    } else if k == 90 {
        ("node_nfs_requests_total", "Number of NFS procedures invoked.", Kind::Sum)
    } else if k == 91 {
        ("node_nfs_requests_total", "Number of NFS procedures invoked.", Kind::Sum)
    } else if k == 92 {
        ("node_nfs_requests_total", "Number of NFS procedures invoked.", Kind::Sum)
    } else if k == 93 {
        ("node_nfs_requests_total", "Number of NFS procedures invoked.", Kind::Sum)
    } else if k == 94 {
        ("node_nfs_requests_total", "Number of NFS procedures invoked.", Kind::Sum)
    } else if k == 95 {
        ("node_nfs_requests_total", "Number of NFS procedures invoked.", Kind::Sum)
    } else if k == 96 {
        ("node_nfs_requests_total", "Number of NFS procedures invoked.", Kind::Sum)
    } else if k == 97 {
        ("node_nfs_requests_total", "Number of NFS procedures invoked.", Kind::Sum)
    } else if k == 98 {
        ("node_nfs_requests_total", "Number of NFS procedures invoked.", Kind::Sum)
    } else if k == 99 {
        ("node_nfs_requests_total", "Number of NFS procedures invoked.", Kind::Sum)
    } else if k == 100 {
        ("node_nfs_requests_total", "Number of NFS procedures invoked.", Kind::Sum)
    } else if k == 101 {
        ("node_nfs_requests_total", "Number of NFS procedures invoked.", Kind::Sum)
    } else if k == 102 {
        ("node_nfs_requests_total", "Number of NFS procedures invoked.", Kind::Sum)
    } else if k == 103 {
        ("node_nfs_requests_total", "Number of NFS procedures invoked.", Kind::Sum)
    } else {
        ("node_nfs_requests_total", "Number of NFS procedures invoked.", Kind::Sum)
    }
}

/// The labels of NFS client sample `k`.
pub open spec fn nfs_tags(k: int) -> Seq<(&'static str, TagModel)> {
    if k == 0 {
        seq![("protocol", TagModel::Text("udp"))]
    } else if k == 1 {
        seq![("protocol", TagModel::Text("tcp"))]
    } else if k == 2 {
        Seq::empty()
    } else if k == 3 {
        Seq::empty()
    } else if k == 4 {
        Seq::empty()
    } else if k == 5 {
        Seq::empty()
    } else if k == 6 {
        seq![("proto", TagModel::Text("2")), ("method", TagModel::Text("Null"))]
    } else if k == 7 {
        seq![("proto", TagModel::Text("2")), ("method", TagModel::Text("GetAttr"))]
    } else if k == 8 {
        seq![("proto", TagModel::Text("2")), ("method", TagModel::Text("SetAttr"))]
    } else if k == 9 {
        seq![("proto", TagModel::Text("2")), ("method", TagModel::Text("Root"))]
    } else if k == 10 {
        seq![("proto", TagModel::Text("2")), ("method", TagModel::Text("Lookup"))]
    } else if k == 11 {
        seq![("proto", TagModel::Text("2")), ("method", TagModel::Text("ReadLink"))]
    } else if k == 12 {
        seq![("proto", TagModel::Text("2")), ("method", TagModel::Text("Read"))]
    } else if k == 13 {
        seq![("proto", TagModel::Text("2")), ("method", TagModel::Text("WrCache"))]
    } else if k == 14 {
        seq![("proto", TagModel::Text("2")), ("method", TagModel::Text("Write"))]
    } else if k == 15 {
        seq![("proto", TagModel::Text("2")), ("method", TagModel::Text("Create"))]
    } else if k == 16 {
        seq![("proto", TagModel::Text("2")), ("method", TagModel::Text("Remove"))]
    } else if k == 17 {
        seq![("proto", TagModel::Text("2")), ("method", TagModel::Text("Rename"))]
    } else if k == 18 {
        seq![("proto", TagModel::Text("2")), ("method", TagModel::Text("Link"))]
    } else if k == 19 {
        seq![("proto", TagModel::Text("2")), ("method", TagModel::Text("SymLink"))]
    } else if k == 20 {
        seq![("proto", TagModel::Text("2")), ("method", TagModel::Text("MkDir"))]
    } else if k == 21 {
        seq![("proto", TagModel::Text("2")), ("method", TagModel::Text("RmDir"))]
    } else if k == 22 {
        seq![("proto", TagModel::Text("2")), ("method", TagModel::Text("ReadDir"))]
    } else if k == 23 {
        seq![("proto", TagModel::Text("2")), ("method", TagModel::Text("FsStat"))]
    } else if k == 24 {
        seq![("proto", TagModel::Text("3")), ("method", TagModel::Text("Null"))]
    } else if k == 25 {
        seq![("proto", TagModel::Text("3")), ("method", TagModel::Text("GetAttr"))]
    } else if k == 26 {
        seq![("proto", TagModel::Text("3")), ("method", TagModel::Text("SetAttr"))]
    } else if k == 27 {
        seq![("proto", TagModel::Text("3")), ("method", TagModel::Text("Lookup"))]
    } else if k == 28 {
        seq![("proto", TagModel::Text("3")), ("method", TagModel::Text("Access"))]
    } else if k == 29 {
        seq![("proto", TagModel::Text("3")), ("method", TagModel::Text("ReadLink"))]
    } else if k == 30 {
        seq![("proto", TagModel::Text("3")), ("method", TagModel::Text("Read"))]
    } else if k == 31 {
        seq![("proto", TagModel::Text("3")), ("method", TagModel::Text("Write"))]
    } else if k == 32 {
        seq![("proto", TagModel::Text("3")), ("method", TagModel::Text("Create"))]
    } else if k == 33 {
        seq![("proto", TagModel::Text("3")), ("method", TagModel::Text("MkDir"))]
    } else if k == 34 {
        seq![("proto", TagModel::Text("3")), ("method", TagModel::Text("SymLink"))]
    } else if k == 35 {
        seq![("proto", TagModel::Text("3")), ("method", TagModel::Text("MkNod"))]
    } else if k == 36 {
        seq![("proto", TagModel::Text("3")), ("method", TagModel::Text("Remove"))]
    } else if k == 37 {
        seq![("proto", TagModel::Text("3")), ("method", TagModel::Text("RmDir"))]
    } else if k == 38 {
        seq![("proto", TagModel::Text("3")), ("method", TagModel::Text("Rename"))]
    } else if k == 39 {
        seq![("proto", TagModel::Text("3")), ("method", TagModel::Text("Link"))]
    } else if k == 40 {
        seq![("proto", TagModel::Text("3")), ("method", TagModel::Text("ReadDir"))]
    } else if k == 41 {
        seq![("proto", TagModel::Text("3")), ("method", TagModel::Text("ReadDirPlus"))]
    } else if k == 42 {
        seq![("proto", TagModel::Text("3")), ("method", TagModel::Text("FsStat"))]
    } else if k == 43 {
        seq![("proto", TagModel::Text("3")), ("method", TagModel::Text("FsInfo"))]
    } else if k == 44 {
        seq![("proto", TagModel::Text("3")), ("method", TagModel::Text("PathConf"))]
    } else if k == 45 {
        seq![("proto", TagModel::Text("3")), ("method", TagModel::Text("Commit"))]
    } else if k == 46 {
        seq![("proto", TagModel::Text("4")), ("method", TagModel::Text("Null"))]
    } else if k == 47 {
        seq![("proto", TagModel::Text("4")), ("method", TagModel::Text("Read"))]
    } else if k == 48 {
        seq![("proto", TagModel::Text("4")), ("method", TagModel::Text("Write"))]
    } else if k == 49 {
        seq![("proto", TagModel::Text("4")), ("method", TagModel::Text("Commit"))]
    } else if k == 50 {
        seq![("proto", TagModel::Text("4")), ("method", TagModel::Text("Open"))]
    } else if k == 51 {
        seq![("proto", TagModel::Text("4")), ("method", TagModel::Text("OpenConfirm"))]
    } else if k == 52 {
        seq![("proto", TagModel::Text("4")), ("method", TagModel::Text("OpenNoattr"))]
    } else if k == 53 {
        seq![("proto", TagModel::Text("4")), ("method", TagModel::Text("OpenDowngrade"))]
    } else if k == 54 {
        seq![("proto", TagModel::Text("4")), ("method", TagModel::Text("Close"))]
    } else if k == 55 {
        seq![("proto", TagModel::Text("4")), ("method", TagModel::Text("Setattr"))]
    } else if k == 56 {
        seq![("proto", TagModel::Text("4")), ("method", TagModel::Text("FsInfo"))]
    } else if k == 57 {
        seq![("proto", TagModel::Text("4")), ("method", TagModel::Text("Renew"))]
    } else if k == 58 {
        seq![("proto", TagModel::Text("4")), ("method", TagModel::Text("SetClientID"))]
    } else if k == 59 {
        seq![("proto", TagModel::Text("4")), ("method", TagModel::Text("SetClientIDConfirm"))]
    } else if k == 60 {
        seq![("proto", TagModel::Text("4")), ("method", TagModel::Text("Lock"))]
    } else if k == 61 {
        seq![("proto", TagModel::Text("4")), ("method", TagModel::Text("Lockt"))]
    } else if k == 62 {
        seq![("proto", TagModel::Text("4")), ("method", TagModel::Text("Locku"))]
    } else if k == 63 {
        seq![("proto", TagModel::Text("4")), ("method", TagModel::Text("Access"))]
    } else if k == 64 {
        seq![("proto", TagModel::Text("4")), ("method", TagModel::Text("Getattr"))]
    } else if k == 65 {
        seq![("proto", TagModel::Text("4")), ("method", TagModel::Text("Lookup"))]
    } else if k == 66 {
        seq![("proto", TagModel::Text("4")), ("method", TagModel::Text("LookupRoot"))]
    } else if k == 67 {
        seq![("proto", TagModel::Text("4")), ("method", TagModel::Text("Remove"))]
    } else if k == 68 {
        seq![("proto", TagModel::Text("4")), ("method", TagModel::Text("Rename"))]
    } else if k == 69 {
        seq![("proto", TagModel::Text("4")), ("method", TagModel::Text("Link"))]
    } else if k == 70 {
        seq![("proto", TagModel::Text("4")), ("method", TagModel::Text("Symlink"))]
    } else if k == 71 {
        seq![("proto", TagModel::Text("4")), ("method", TagModel::Text("Create"))]
    } else if k == 72 {
        seq![("proto", TagModel::Text("4")), ("method", TagModel::Text("Pathconf"))]
    } else if k == 73 {
        seq![("proto", TagModel::Text("4")), ("method", TagModel::Text("StatFs"))]
    } else if k == 74 {
        seq![("proto", TagModel::Text("4")), ("method", TagModel::Text("ReadLink"))]
    } else if k == 75 {
        seq![("proto", TagModel::Text("4")), ("method", TagModel::Text("ReadDir"))]
    } else if k == 76 {
        seq![("proto", TagModel::Text("4")), ("method", TagModel::Text("ServerCaps"))]
    } else if k == 77 {
        seq![("proto", TagModel::Text("4")), ("method", TagModel::Text("DelegReturn"))]
    } else if k == 78 {
        seq![("proto", TagModel::Text("4")), ("method", TagModel::Text("GetACL"))]
    } else if k == 79 {
        seq![("proto", TagModel::Text("4")), ("method", TagModel::Text("SetACL"))]
    } else if k == 80 {
        seq![("proto", TagModel::Text("4")), ("method", TagModel::Text("FsLocations"))]
    } else if k == 81 {
        seq![("proto", TagModel::Text("4")), ("method", TagModel::Text("ReleaseLockowner"))]
    } else if k == 82 {
        seq![("proto", TagModel::Text("4")), ("method", TagModel::Text("Secinfo"))]
    } else if k == 83 {
        seq![("proto", TagModel::Text("4")), ("method", TagModel::Text("FsidPresent"))]
    } else if k == 84 {
        seq![("proto", TagModel::Text("4")), ("method", TagModel::Text("ExchangeID"))]
    } else if k == 85 {
        seq![("proto", TagModel::Text("4")), ("method", TagModel::Text("CreateSession"))]
    } else if k == 86 {
        seq![("proto", TagModel::Text("4")), ("method", TagModel::Text("DestroySession"))]
    } else if k == 87 {
        seq![("proto", TagModel::Text("4")), ("method", TagModel::Text("Sequence"))]
    } else if k == 88 {
        seq![("proto", TagModel::Text("4")), ("method", TagModel::Text("GetLeaseTime"))]
    } else if k == 89 {
        seq![("proto", TagModel::Text("4")), ("method", TagModel::Text("ReclaimComplete"))]
    } else if k == 90 {
        seq![("proto", TagModel::Text("4")), ("method", TagModel::Text("LayoutGet"))]
    } else if k == 91 {
        seq![("proto", TagModel::Text("4")), ("method", TagModel::Text("GetDeviceInfo"))]
    } else if k == 92 {
        seq![("proto", TagModel::Text("4")), ("method", TagModel::Text("LayoutCommit"))]
    } else if k == 93 {
        seq![("proto", TagModel::Text("4")), ("method", TagModel::Text("LayoutReturn"))]
    } else if k == 94 {
        seq![("proto", TagModel::Text("4")), ("method", TagModel::Text("SecinfoNoName"))]
    } else if k == 95 {
        seq![("proto", TagModel::Text("4")), ("method", TagModel::Text("TestStateID"))]
    } else if k == 96 {
        seq![("proto", TagModel::Text("4")), ("method", TagModel::Text("FreeStateID"))]
    } else if k == 97 {
        seq![("proto", TagModel::Text("4")), ("method", TagModel::Text("GetDeviceList"))]
    } else if k == 98 {
        seq![("proto", TagModel::Text("4")), ("method", TagModel::Text("BindConnToSession"))]
    } else if k == 99 {
        seq![("proto", TagModel::Text("4")), ("method", TagModel::Text("DestroyClientID"))]
    } else if k == 100 {
        seq![("proto", TagModel::Text("4")), ("method", TagModel::Text("Seek"))]
    } else if k == 101 {
        seq![("proto", TagModel::Text("4")), ("method", TagModel::Text("Allocate"))]
    } else if k == 102 {
        seq![("proto", TagModel::Text("4")), ("method", TagModel::Text("DeAllocate"))]
    } else if k == 103 {
        seq![("proto", TagModel::Text("4")), ("method", TagModel::Text("LayoutStats"))]
    } else {
        seq![("proto", TagModel::Text("4")), ("method", TagModel::Text("Clone"))]
    }
}

/// The value that NFS client sample `k` reports.
pub open spec fn nfs_value(st: ClientRPCStats, k: int) -> int {
    if k == 0 {
        st.network.udp_count as int
    } else if k == 1 {
        st.network.tcp_count as int
    } else if k == 2 {
        st.network.tcp_connect as int
    } else if k == 3 {
        st.client_rpc.rpc_count as int
    } else if k == 4 {
        st.client_rpc.retransmissions as int
    } else if k == 5 {
        st.client_rpc.auth_refreshes as int
    } else if k == 6 {
        st.v2_stats.null as int
    } else if k == 7 {
        st.v2_stats.get_attr as int
    } else if k == 8 {
        st.v2_stats.set_attr as int
    } else if k == 9 {
        st.v2_stats.root as int
    } else if k == 10 {
        st.v2_stats.lookup as int
    } else if k == 11 {
        st.v2_stats.read_link as int
    } else if k == 12 {
        st.v2_stats.read as int
    } else if k == 13 {
        st.v2_stats.wr_cache as int
    } else if k == 14 {
        st.v2_stats.write as int
    } else if k == 15 {
        st.v2_stats.create as int
    } else if k == 16 {
        st.v2_stats.remove as int
    } else if k == 17 {
        st.v2_stats.rename as int
    } else if k == 18 {
        st.v2_stats.link as int
    } else if k == 19 {
        st.v2_stats.sym_link as int
    } else if k == 20 {
        st.v2_stats.mkdir as int
    } else if k == 21 {
        st.v2_stats.rmdir as int
    } else if k == 22 {
        st.v2_stats.read_dir as int
    } else if k == 23 {
        st.v2_stats.fs_stat as int
    } else if k == 24 {
        st.v3_stats.null as int
    } else if k == 25 {
        st.v3_stats.get_attr as int
    } else if k == 26 {
        st.v3_stats.set_attr as int
    } else if k == 27 {
        st.v3_stats.lookup as int
    } else if k == 28 {
        st.v3_stats.access as int
    } else if k == 29 {
        st.v3_stats.read_link as int
    } else if k == 30 {
        st.v3_stats.read as int
    } else if k == 31 {
        st.v3_stats.write as int
    } else if k == 32 {
        st.v3_stats.create as int
    } else if k == 33 {
        st.v3_stats.mkdir as int
    } else if k == 34 {
        st.v3_stats.sym_link as int
    } else if k == 35 {
        st.v3_stats.mknod as int
    } else if k == 36 {
        st.v3_stats.remove as int
    } else if k == 37 {
        st.v3_stats.rmdir as int
    } else if k == 38 {
        st.v3_stats.rename as int
    } else if k == 39 {
        st.v3_stats.link as int
    } else if k == 40 {
        st.v3_stats.read_dir as int
    } else if k == 41 {
        st.v3_stats.read_dir_plus as int
    } else if k == 42 {
        st.v3_stats.fs_stat as int
    } else if k == 43 {
        st.v3_stats.fs_info as int
    } else if k == 44 {
        st.v3_stats.path_conf as int
    } else if k == 45 {
        st.v3_stats.commit as int
    } else if k == 46 {
        st.client_v4_stats.null as int
    } else if k == 47 {
        st.client_v4_stats.read as int
    } else if k == 48 {
        st.client_v4_stats.write as int
    } else if k == 49 {
        st.client_v4_stats.commit as int
    } else if k == 50 {
        st.client_v4_stats.open as int
    } else if k == 51 {
        st.client_v4_stats.open_confirm as int
    } else if k == 52 {
        st.client_v4_stats.open_noattr as int
    } else if k == 53 {
        st.client_v4_stats.open_downgrade as int
    } else if k == 54 {
        st.client_v4_stats.close as int
    } else if k == 55 {
        st.client_v4_stats.setattr as int
    } else if k == 56 {
        st.client_v4_stats.fs_info as int
    } else if k == 57 {
        st.client_v4_stats.renew as int
    } else if k == 58 {
        st.client_v4_stats.set_client_id as int
    } else if k == 59 {
        st.client_v4_stats.set_client_id_confirm as int
    } else if k == 60 {
        st.client_v4_stats.lock as int
    } else if k == 61 {
        st.client_v4_stats.lockt as int
    } else if k == 62 {
        st.client_v4_stats.locku as int
    } else if k == 63 {
        st.client_v4_stats.access as int
    } else if k == 64 {
        st.client_v4_stats.getattr as int
    } else if k == 65 {
        st.client_v4_stats.lookup as int
    } else if k == 66 {
        st.client_v4_stats.lookup_root as int
    } else if k == 67 {
        st.client_v4_stats.remove as int
    } else if k == 68 {
        st.client_v4_stats.rename as int
    } else if k == 69 {
        st.client_v4_stats.link as int
    } else if k == 70 {
        st.client_v4_stats.symlink as int
    } else if k == 71 {
        st.client_v4_stats.create as int
    } else if k == 72 {
        st.client_v4_stats.pathconf as int
    } else if k == 73 {
        st.client_v4_stats.stat_fs as int
    } else if k == 74 {
        st.client_v4_stats.read_link as int
    } else if k == 75 {
        st.client_v4_stats.read_dir as int
    } else if k == 76 {
        st.client_v4_stats.server_caps as int
    } else if k == 77 {
        st.client_v4_stats.deleg_return as int
    } else if k == 78 {
        st.client_v4_stats.get_acl as int
    } else if k == 79 {
        st.client_v4_stats.set_acl as int
    } else if k == 80 {
        st.client_v4_stats.fs_locations as int
    } else if k == 81 {
        st.client_v4_stats.release_lockowner as int
    } else if k == 82 {
        st.client_v4_stats.secinfo as int
    } else if k == 83 {
        st.client_v4_stats.fsid_present as int
    } else if k == 84 {
        st.client_v4_stats.exchange_id as int
    } else if k == 85 {
        st.client_v4_stats.create_session as int
    } else if k == 86 {
        st.client_v4_stats.destroy_session as int
    } else if k == 87 {
        st.client_v4_stats.sequence as int
    } else if k == 88 {
        st.client_v4_stats.get_lease_time as int
    } else if k == 89 {
        st.client_v4_stats.reclaim_complete as int
    } else if k == 90 {
        st.client_v4_stats.layout_get as int
    } else if k == 91 {
        st.client_v4_stats.get_device_info as int
    } else if k == 92 {
        st.client_v4_stats.layout_commit as int
    } else if k == 93 {
        st.client_v4_stats.layout_return as int
    } else if k == 94 {
        st.client_v4_stats.secinfo_no_name as int
    } else if k == 95 {
        st.client_v4_stats.test_state_id as int
    } else if k == 96 {
        st.client_v4_stats.free_state_id as int
    } else if k == 97 {
        st.client_v4_stats.get_device_list as int
    } else if k == 98 {
        st.client_v4_stats.bind_conn_to_session as int
    } else if k == 99 {
        st.client_v4_stats.destroy_client_id as int
    } else if k == 100 {
        st.client_v4_stats.seek as int
    } else if k == 101 {
        st.client_v4_stats.allocate as int
    } else if k == 102 {
        st.client_v4_stats.deallocate as int
    } else if k == 103 {
        st.client_v4_stats.layout_stats as int
    } else {
        st.client_v4_stats.clone as int
    }
}

fn nfs_metric_exec(k: usize) -> (r: (&'static str, &'static str, Kind))
    requires
        k < 105,
    ensures
        r == nfs_metric(k as int),
{
    if k == 0 {
        ("node_nfs_packets_total", "Total NFSd network packets (sent+received) by protocol type.", Kind::Sum)
    } else if k == 1 {
        ("node_nfs_packets_total", "Total NFSd network packets (sent+received) by protocol type.", Kind::Sum)
    } else if k == 2 {
        ("node_nfs_connections_total", "Total number of NFSd TCP connections.", Kind::Sum)
    } else if k == 3 {
        ("node_nfs_rpcs_total", "Total number of RPCs performed.", Kind::Sum)
    } else if k == 4 {
        ("node_nfs_rpc_retransmissions_total", "Number of RPC transmissions performed.", Kind::Sum)
    } else if k == 5 {
        ("node_nfs_rpc_authentication_refreshes_total", "Number of RPC authentication refreshes performed.", Kind::Sum)
    } else if k == 6 {
        ("node_nfs_requests_total", "Number of NFS procedures invoked.", Kind::Sum)
    } else if k == 7 {
        ("node_nfs_requests_total", "Number of NFS procedures invoked.", Kind::Sum)
    } else if k == 8 {
        ("node_nfs_requests_total", "Number of NFS procedures invoked.", Kind::Sum)
    } else if k == 9 {
        ("node_nfs_requests_total", "Number of NFS procedures invoked.", Kind::Sum)
    } else if k == 10 {
        ("node_nfs_requests_total", "Number of NFS procedures invoked.", Kind::Sum)
    } else if k == 11 {
        ("node_nfs_requests_total", "Number of NFS procedures invoked.", Kind::Sum)
    } else if k == 12 {
        ("node_nfs_requests_total", "Number of NFS procedures invoked.", Kind::Sum)
    } else if k == 13 {
        ("node_nfs_requests_total", "Number of NFS procedures invoked.", Kind::Sum)
    } else if k == 14 {
        ("node_nfs_requests_total", "Number of NFS procedures invoked.", Kind::Sum)
    } else if k == 15 {
        ("node_nfs_requests_total", "Number of NFS procedures invoked.", Kind::Sum)
    } else if k == 16 {
        ("node_nfs_requests_total", "Number of NFS procedures invoked.", Kind::Sum)
    } else if k == 17 {
        ("node_nfs_requests_total", "Number of NFS procedures invoked.", Kind::Sum)
    } else if k == 18 {
        ("node_nfs_requests_total", "Number of NFS procedures invoked.", Kind::Sum)
    } else if k == 19 {
        ("node_nfs_requests_total", "Number of NFS procedures invoked.", Kind::Sum)
    } else if k == 20 {
        ("node_nfs_requests_total", "Number of NFS procedures invoked.", Kind::Sum)
    } else if k == 21 {
        ("node_nfs_requests_total", "Number of NFS procedures invoked.", Kind::Sum)
    } else if k == 22 {
        ("node_nfs_requests_total", "Number of NFS procedures invoked.", Kind::Sum)
    } else if k == 23 {
        ("node_nfs_requests_total", "Number of NFS procedures invoked.", Kind::Sum)
    } else if k == 24 {
        ("node_nfs_requests_total", "Number of NFS procedures invoked.", Kind::Sum)
    } else if k == 25 {
        ("node_nfs_requests_total", "Number of NFS procedures invoked.", Kind::Sum)
    } else if k == 26 {
        ("node_nfs_requests_total", "Number of NFS procedures invoked.", Kind::Sum)
    } else if k == 27 {
        ("node_nfs_requests_total", "Number of NFS procedures invoked.", Kind::Sum)
    } else if k == 28 {
        ("node_nfs_requests_total", "Number of NFS procedures invoked.", Kind::Sum)
    } else if k == 29 {
        ("node_nfs_requests_total", "Number of NFS procedures invoked.", Kind::Sum)
    } else if k == 30 {
        ("node_nfs_requests_total", "Number of NFS procedures invoked.", Kind::Sum)
    } else if k == 31 {
        ("node_nfs_requests_total", "Number of NFS procedures invoked.", Kind::Sum)
    } else if k == 32 {
        ("node_nfs_requests_total", "Number of NFS procedures invoked.", Kind::Sum)
    } else if k == 33 {
        ("node_nfs_requests_total", "Number of NFS procedures invoked.", Kind::Sum)
    } else if k == 34 {
        ("node_nfs_requests_total", "Number of NFS procedures invoked.", Kind::Sum)
    } else if k == 35 {
        ("node_nfs_requests_total", "Number of NFS procedures invoked.", Kind::Sum)
    } else if k == 36 {
        ("node_nfs_requests_total", "Number of NFS procedures invoked.", Kind::Sum)
    } else if k == 37 {
        ("node_nfs_requests_total", "Number of NFS procedures invoked.", Kind::Sum)
    } else if k == 38 {
        ("node_nfs_requests_total", "Number of NFS procedures invoked.", Kind::Sum)
    } else if k == 39 {
        ("node_nfs_requests_total", "Number of NFS procedures invoked.", Kind::Sum)
    } else if k == 40 {
        ("node_nfs_requests_total", "Number of NFS procedures invoked.", Kind::Sum)
    } else if k == 41 {
        ("node_nfs_requests_total", "Number of NFS procedures invoked.", Kind::Sum)
    } else if k == 42 {
        ("node_nfs_requests_total", "Number of NFS procedures invoked.", Kind::Sum)
    } else if k == 43 {
        ("node_nfs_requests_total", "Number of NFS procedures invoked.", Kind::Sum)
    } else if k == 44 {
        ("node_nfs_requests_total", "Number of NFS procedures invoked.", Kind::Sum)
    } else if k == 45 {
        ("node_nfs_requests_total", "Number of NFS procedures invoked.", Kind::Sum)
    } else if k == 46 {
        ("node_nfs_requests_total", "Number of NFS procedures invoked.", Kind::Sum)
    } else if k == 47 {
        ("node_nfs_requests_total", "Number of NFS procedures invoked.", Kind::Sum)
    } else if k == 48 {
        ("node_nfs_requests_total", "Number of NFS procedures invoked.", Kind::Sum)
    } else if k == 49 {
        ("node_nfs_requests_total", "Number of NFS procedures invoked.", Kind::Sum)
    } else if k == 50 {
        ("node_nfs_requests_total", "Number of NFS procedures invoked.", Kind::Sum)
    } else if k == 51 {
        ("node_nfs_requests_total", "Number of NFS procedures invoked.", Kind::Sum)
    } else if k == 52 {
        ("node_nfs_requests_total", "Number of NFS procedures invoked.", Kind::Sum)
    } else if k == 53 {
        ("node_nfs_requests_total", "Number of NFS procedures invoked.", Kind::Sum)
    } else if k == 54 {
        ("node_nfs_requests_total", "Number of NFS procedures invoked.", Kind::Sum)
    } else if k == 55 {
        ("node_nfs_requests_total", "Number of NFS procedures invoked.", Kind::Sum)
    } else if k == 56 {
        ("node_nfs_requests_total", "Number of NFS procedures invoked.", Kind::Sum)
    } else if k == 57 {
        ("node_nfs_requests_total", "Number of NFS procedures invoked.", Kind::Sum)
    } else if k == 58 {
        ("node_nfs_requests_total", "Number of NFS procedures invoked.", Kind::Sum)
    } else if k == 59 {
        ("node_nfs_requests_total", "Number of NFS procedures invoked.", Kind::Sum)
    } else if k == 60 {
        ("node_nfs_requests_total", "Number of NFS procedures invoked.", Kind::Sum)
    } else if k == 61 {
        ("node_nfs_requests_total", "Number of NFS procedures invoked.", Kind::Sum)
    } else if k == 62 {
        ("node_nfs_requests_total", "Number of NFS procedures invoked.", Kind::Sum)
    } else if k == 63 {
        ("node_nfs_requests_total", "Number of NFS procedures invoked.", Kind::Sum)
    } else if k == 64 {
        ("node_nfs_requests_total", "Number of NFS procedures invoked.", Kind::Sum)
    } else if k == 65 {
        ("node_nfs_requests_total", "Number of NFS procedures invoked.", Kind::Sum)
    } else if k == 66 {
        ("node_nfs_requests_total", "Number of NFS procedures invoked.", Kind::Sum)
    } else if k == 67 {
        ("node_nfs_requests_total", "Number of NFS procedures invoked.", Kind::Sum)
    } else if k == 68 {
        ("node_nfs_requests_total", "Number of NFS procedures invoked.", Kind::Sum)
    } else if k == 69 {
        ("node_nfs_requests_total", "Number of NFS procedures invoked.", Kind::Sum)
    } else if k == 70 {
        ("node_nfs_requests_total", "Number of NFS procedures invoked.", Kind::Sum)
    } else if k == 71 {
        ("node_nfs_requests_total", "Number of NFS procedures invoked.", Kind::Sum)
    } else if k == 72 {
        ("node_nfs_requests_total", "Number of NFS procedures invoked.", Kind::Sum)
    } else if k == 73 {
        ("node_nfs_requests_total", "Number of NFS procedures invoked.", Kind::Sum)
    } else if k == 74 {
        ("node_nfs_requests_total", "Number of NFS procedures invoked.", Kind::Sum)
    } else if k == 75 {
        ("node_nfs_requests_total", "Number of NFS procedures invoked.", Kind::Sum)
    } else if k == 76 {
        ("node_nfs_requests_total", "Number of NFS procedures invoked.", Kind::Sum)
    } else if k == 77 {
        ("node_nfs_requests_total", "Number of NFS procedures invoked.", Kind::Sum)
    } else if k == 78 {
        ("node_nfs_requests_total", "Number of NFS procedures invoked.", Kind::Sum)
    } else if k == 79 {
        ("node_nfs_requests_total", "Number of NFS procedures invoked.", Kind::Sum)
    } else if k == 80 {
        ("node_nfs_requests_total", "Number of NFS procedures invoked.", Kind::Sum)
    } else if k == 81 {
        ("node_nfs_requests_total", "Number of NFS procedures invoked.", Kind::Sum)
    } else if k == 82 {
        ("node_nfs_requests_total", "Number of NFS procedures invoked.", Kind::Sum)
    } else if k == 83 {
        ("node_nfs_requests_total", "Number of NFS procedures invoked.", Kind::Sum)
    } else if k == 84 {
        ("node_nfs_requests_total", "Number of NFS procedures invoked.", Kind::Sum)
    } else if k == 85 {
        ("node_nfs_requests_total", "Number of NFS procedures invoked.", Kind::Sum)
    } else if k == 86 {
        ("node_nfs_requests_total", "Number of NFS procedures invoked.", Kind::Sum)
    } else if k == 87 {
        ("node_nfs_requests_total", "Number of NFS procedures invoked.", Kind::Sum)
    } else if k == 88 {
        ("node_nfs_requests_total", "Number of NFS procedures invoked.", Kind::Sum)
    } else if k == 89 {
        ("node_nfs_requests_total", "Number of NFS procedures invoked.", Kind::Sum)
    } else if k == 90 {
        ("node_nfs_requests_total", "Number of NFS procedures invoked.", Kind::Sum)
    } else if k == 91 {
        ("node_nfs_requests_total", "Number of NFS procedures invoked.", Kind::Sum)
    } else if k == 92 {
        ("node_nfs_requests_total", "Number of NFS procedures invoked.", Kind::Sum)
    } else if k == 93 {
        ("node_nfs_requests_total", "Number of NFS procedures invoked.", Kind::Sum)
    } else if k == 94 {
        ("node_nfs_requests_total", "Number of NFS procedures invoked.", Kind::Sum)
    } else if k == 95 {
        ("node_nfs_requests_total", "Number of NFS procedures invoked.", Kind::Sum)
    } else if k == 96 {
        ("node_nfs_requests_total", "Number of NFS procedures invoked.", Kind::Sum)
    } else if k == 97 {
        ("node_nfs_requests_total", "Number of NFS procedures invoked.", Kind::Sum)
    } else if k == 98 {
        ("node_nfs_requests_total", "Number of NFS procedures invoked.", Kind::Sum)
    } else if k == 99 {
        ("node_nfs_requests_total", "Number of NFS procedures invoked.", Kind::Sum)
    } else if k == 100 {
        ("node_nfs_requests_total", "Number of NFS procedures invoked.", Kind::Sum)
    } else if k == 101 {
        ("node_nfs_requests_total", "Number of NFS procedures invoked.", Kind::Sum)
    } else if k == 102 {
        ("node_nfs_requests_total", "Number of NFS procedures invoked.", Kind::Sum)
    } else if k == 103 {
        ("node_nfs_requests_total", "Number of NFS procedures invoked.", Kind::Sum)
    } else {
        ("node_nfs_requests_total", "Number of NFS procedures invoked.", Kind::Sum)
    }
}

fn nfs_tags_exec<'a>(k: usize) -> (r: Vec<(&'static str, TagValue<'a>)>)
    requires
        k < 105,
    ensures
        tags_view(r@) == nfs_tags(k as int),
{
    if k == 0 {
        one_tag("protocol", TagValue::Text("udp"))
    } else if k == 1 {
        one_tag("protocol", TagValue::Text("tcp"))
    } else if k == 2 {
        no_tags()
    } else if k == 3 {
        no_tags()
    } else if k == 4 {
        no_tags()
    } else if k == 5 {
        no_tags()
    } else if k == 6 {
        two_tags("proto", TagValue::Text("2"), "method", TagValue::Text("Null"))
    } else if k == 7 {
        two_tags("proto", TagValue::Text("2"), "method", TagValue::Text("GetAttr"))
    } else if k == 8 {
        two_tags("proto", TagValue::Text("2"), "method", TagValue::Text("SetAttr"))
    } else if k == 9 {
        two_tags("proto", TagValue::Text("2"), "method", TagValue::Text("Root"))
    } else if k == 10 {
        two_tags("proto", TagValue::Text("2"), "method", TagValue::Text("Lookup"))
    } else if k == 11 {
        two_tags("proto", TagValue::Text("2"), "method", TagValue::Text("ReadLink"))
    } else if k == 12 {
        two_tags("proto", TagValue::Text("2"), "method", TagValue::Text("Read"))
    } else if k == 13 {
        two_tags("proto", TagValue::Text("2"), "method", TagValue::Text("WrCache"))
    } else if k == 14 {
        two_tags("proto", TagValue::Text("2"), "method", TagValue::Text("Write"))
    } else if k == 15 {
        two_tags("proto", TagValue::Text("2"), "method", TagValue::Text("Create"))
    } else if k == 16 {
        two_tags("proto", TagValue::Text("2"), "method", TagValue::Text("Remove"))
    } else if k == 17 {
        two_tags("proto", TagValue::Text("2"), "method", TagValue::Text("Rename"))
    } else if k == 18 {
        two_tags("proto", TagValue::Text("2"), "method", TagValue::Text("Link"))
    } else if k == 19 {
        two_tags("proto", TagValue::Text("2"), "method", TagValue::Text("SymLink"))
    } else if k == 20 {
        two_tags("proto", TagValue::Text("2"), "method", TagValue::Text("MkDir"))
    } else if k == 21 {
        two_tags("proto", TagValue::Text("2"), "method", TagValue::Text("RmDir"))
    } else if k == 22 {
        two_tags("proto", TagValue::Text("2"), "method", TagValue::Text("ReadDir"))
    } else if k == 23 {
        two_tags("proto", TagValue::Text("2"), "method", TagValue::Text("FsStat"))
    } else if k == 24 {
        two_tags("proto", TagValue::Text("3"), "method", TagValue::Text("Null"))
    } else if k == 25 {
        two_tags("proto", TagValue::Text("3"), "method", TagValue::Text("GetAttr"))
    } else if k == 26 {
        two_tags("proto", TagValue::Text("3"), "method", TagValue::Text("SetAttr"))
    } else if k == 27 {
        two_tags("proto", TagValue::Text("3"), "method", TagValue::Text("Lookup"))
    } else if k == 28 {
        two_tags("proto", TagValue::Text("3"), "method", TagValue::Text("Access"))
    } else if k == 29 {
        two_tags("proto", TagValue::Text("3"), "method", TagValue::Text("ReadLink"))
    } else if k == 30 {
        two_tags("proto", TagValue::Text("3"), "method", TagValue::Text("Read"))
    } else if k == 31 {
        two_tags("proto", TagValue::Text("3"), "method", TagValue::Text("Write"))
    } else if k == 32 {
        two_tags("proto", TagValue::Text("3"), "method", TagValue::Text("Create"))
    } else if k == 33 {
        two_tags("proto", TagValue::Text("3"), "method", TagValue::Text("MkDir"))
    } else if k == 34 {
        two_tags("proto", TagValue::Text("3"), "method", TagValue::Text("SymLink"))
    } else if k == 35 {
        two_tags("proto", TagValue::Text("3"), "method", TagValue::Text("MkNod"))
    } else if k == 36 {
        two_tags("proto", TagValue::Text("3"), "method", TagValue::Text("Remove"))
    } else if k == 37 {
        two_tags("proto", TagValue::Text("3"), "method", TagValue::Text("RmDir"))
    } else if k == 38 {
        two_tags("proto", TagValue::Text("3"), "method", TagValue::Text("Rename"))
    } else if k == 39 {
        two_tags("proto", TagValue::Text("3"), "method", TagValue::Text("Link"))
    } else if k == 40 {
        two_tags("proto", TagValue::Text("3"), "method", TagValue::Text("ReadDir"))
    } else if k == 41 {
        two_tags("proto", TagValue::Text("3"), "method", TagValue::Text("ReadDirPlus"))
    } else if k == 42 {
        two_tags("proto", TagValue::Text("3"), "method", TagValue::Text("FsStat"))
    } else if k == 43 {
        two_tags("proto", TagValue::Text("3"), "method", TagValue::Text("FsInfo"))
    } else if k == 44 {
        two_tags("proto", TagValue::Text("3"), "method", TagValue::Text("PathConf"))
    } else if k == 45 {
        two_tags("proto", TagValue::Text("3"), "method", TagValue::Text("Commit"))
    } else if k == 46 {
        two_tags("proto", TagValue::Text("4"), "method", TagValue::Text("Null"))
    } else if k == 47 {
        two_tags("proto", TagValue::Text("4"), "method", TagValue::Text("Read"))
    } else if k == 48 {
        two_tags("proto", TagValue::Text("4"), "method", TagValue::Text("Write"))
    } else if k == 49 {
        two_tags("proto", TagValue::Text("4"), "method", TagValue::Text("Commit"))
    } else if k == 50 {
        two_tags("proto", TagValue::Text("4"), "method", TagValue::Text("Open"))
    } else if k == 51 {
        two_tags("proto", TagValue::Text("4"), "method", TagValue::Text("OpenConfirm"))
    } else if k == 52 {
        two_tags("proto", TagValue::Text("4"), "method", TagValue::Text("OpenNoattr"))
    } else if k == 53 {
        two_tags("proto", TagValue::Text("4"), "method", TagValue::Text("OpenDowngrade"))
    } else if k == 54 {
        two_tags("proto", TagValue::Text("4"), "method", TagValue::Text("Close"))
    } else if k == 55 {
        two_tags("proto", TagValue::Text("4"), "method", TagValue::Text("Setattr"))
    } else if k == 56 {
        two_tags("proto", TagValue::Text("4"), "method", TagValue::Text("FsInfo"))
    } else if k == 57 {
        two_tags("proto", TagValue::Text("4"), "method", TagValue::Text("Renew"))
    } else if k == 58 {
        two_tags("proto", TagValue::Text("4"), "method", TagValue::Text("SetClientID"))
    } else if k == 59 {
        two_tags("proto", TagValue::Text("4"), "method", TagValue::Text("SetClientIDConfirm"))
    } else if k == 60 {
        two_tags("proto", TagValue::Text("4"), "method", TagValue::Text("Lock"))
    } else if k == 61 {
        two_tags("proto", TagValue::Text("4"), "method", TagValue::Text("Lockt"))
    } else if k == 62 {
        two_tags("proto", TagValue::Text("4"), "method", TagValue::Text("Locku"))
    } else if k == 63 {
        two_tags("proto", TagValue::Text("4"), "method", TagValue::Text("Access"))
    } else if k == 64 {
        two_tags("proto", TagValue::Text("4"), "method", TagValue::Text("Getattr"))
    } else if k == 65 {
        two_tags("proto", TagValue::Text("4"), "method", TagValue::Text("Lookup"))
    } else if k == 66 {
        two_tags("proto", TagValue::Text("4"), "method", TagValue::Text("LookupRoot"))
    } else if k == 67 {
        two_tags("proto", TagValue::Text("4"), "method", TagValue::Text("Remove"))
    } else if k == 68 {
        two_tags("proto", TagValue::Text("4"), "method", TagValue::Text("Rename"))
    } else if k == 69 {
        two_tags("proto", TagValue::Text("4"), "method", TagValue::Text("Link"))
    } else if k == 70 {
        two_tags("proto", TagValue::Text("4"), "method", TagValue::Text("Symlink"))
    } else if k == 71 {
        two_tags("proto", TagValue::Text("4"), "method", TagValue::Text("Create"))
    } else if k == 72 {
        two_tags("proto", TagValue::Text("4"), "method", TagValue::Text("Pathconf"))
    } else if k == 73 {
        two_tags("proto", TagValue::Text("4"), "method", TagValue::Text("StatFs"))
    } else if k == 74 {
        two_tags("proto", TagValue::Text("4"), "method", TagValue::Text("ReadLink"))
    } else if k == 75 {
        two_tags("proto", TagValue::Text("4"), "method", TagValue::Text("ReadDir"))
    } else if k == 76 {
        two_tags("proto", TagValue::Text("4"), "method", TagValue::Text("ServerCaps"))
    } else if k == 77 {
        two_tags("proto", TagValue::Text("4"), "method", TagValue::Text("DelegReturn"))
    } else if k == 78 {
        two_tags("proto", TagValue::Text("4"), "method", TagValue::Text("GetACL"))
    } else if k == 79 {
        two_tags("proto", TagValue::Text("4"), "method", TagValue::Text("SetACL"))
    } else if k == 80 {
        two_tags("proto", TagValue::Text("4"), "method", TagValue::Text("FsLocations"))
    } else if k == 81 {
        two_tags("proto", TagValue::Text("4"), "method", TagValue::Text("ReleaseLockowner"))
    } else if k == 82 {
        two_tags("proto", TagValue::Text("4"), "method", TagValue::Text("Secinfo"))
    } else if k == 83 {
        two_tags("proto", TagValue::Text("4"), "method", TagValue::Text("FsidPresent"))
    } else if k == 84 {
        two_tags("proto", TagValue::Text("4"), "method", TagValue::Text("ExchangeID"))
    } else if k == 85 {
        two_tags("proto", TagValue::Text("4"), "method", TagValue::Text("CreateSession"))
    } else if k == 86 {
        two_tags("proto", TagValue::Text("4"), "method", TagValue::Text("DestroySession"))
    } else if k == 87 {
        two_tags("proto", TagValue::Text("4"), "method", TagValue::Text("Sequence"))
    } else if k == 88 {
        two_tags("proto", TagValue::Text("4"), "method", TagValue::Text("GetLeaseTime"))
    } else if k == 89 {
        two_tags("proto", TagValue::Text("4"), "method", TagValue::Text("ReclaimComplete"))
    } else if k == 90 {
        two_tags("proto", TagValue::Text("4"), "method", TagValue::Text("LayoutGet"))
    } else if k == 91 {
        two_tags("proto", TagValue::Text("4"), "method", TagValue::Text("GetDeviceInfo"))
    } else if k == 92 {
        two_tags("proto", TagValue::Text("4"), "method", TagValue::Text("LayoutCommit"))
    } else if k == 93 {
        two_tags("proto", TagValue::Text("4"), "method", TagValue::Text("LayoutReturn"))
    } else if k == 94 {
        two_tags("proto", TagValue::Text("4"), "method", TagValue::Text("SecinfoNoName"))
    } else if k == 95 {
        two_tags("proto", TagValue::Text("4"), "method", TagValue::Text("TestStateID"))
    } else if k == 96 {
        two_tags("proto", TagValue::Text("4"), "method", TagValue::Text("FreeStateID"))
    } else if k == 97 {
        two_tags("proto", TagValue::Text("4"), "method", TagValue::Text("GetDeviceList"))
    } else if k == 98 {
        two_tags("proto", TagValue::Text("4"), "method", TagValue::Text("BindConnToSession"))
    } else if k == 99 {
        two_tags("proto", TagValue::Text("4"), "method", TagValue::Text("DestroyClientID"))
    } else if k == 100 {
        two_tags("proto", TagValue::Text("4"), "method", TagValue::Text("Seek"))
    } else if k == 101 {
        two_tags("proto", TagValue::Text("4"), "method", TagValue::Text("Allocate"))
    } else if k == 102 {
        two_tags("proto", TagValue::Text("4"), "method", TagValue::Text("DeAllocate"))
    } else if k == 103 {
        two_tags("proto", TagValue::Text("4"), "method", TagValue::Text("LayoutStats"))
    } else {
        two_tags("proto", TagValue::Text("4"), "method", TagValue::Text("Clone"))
    }
}

fn nfs_value_exec(st: &ClientRPCStats, k: usize) -> (r: i128)
    requires
        k < 105,
    ensures
        r == nfs_value(*st, k as int),
{
    if k == 0 {
        st.network.udp_count as i128
    } else if k == 1 {
        st.network.tcp_count as i128
    } else if k == 2 {
        st.network.tcp_connect as i128
    } else if k == 3 {
        st.client_rpc.rpc_count as i128
    } else if k == 4 {
        st.client_rpc.retransmissions as i128
    } else if k == 5 {
        st.client_rpc.auth_refreshes as i128
    } else if k == 6 {
        st.v2_stats.null as i128
    } else if k == 7 {
        st.v2_stats.get_attr as i128
    } else if k == 8 {
        st.v2_stats.set_attr as i128
    } else if k == 9 {
        st.v2_stats.root as i128
    } else if k == 10 {
        st.v2_stats.lookup as i128
    } else if k == 11 {
        st.v2_stats.read_link as i128
    } else if k == 12 {
        st.v2_stats.read as i128
    } else if k == 13 {
        st.v2_stats.wr_cache as i128
    } else if k == 14 {
        st.v2_stats.write as i128
    } else if k == 15 {
        st.v2_stats.create as i128
    } else if k == 16 {
        st.v2_stats.remove as i128
    } else if k == 17 {
        st.v2_stats.rename as i128
    } else if k == 18 {
        st.v2_stats.link as i128
    } else if k == 19 {
        st.v2_stats.sym_link as i128
    } else if k == 20 {
        st.v2_stats.mkdir as i128
    } else if k == 21 {
        st.v2_stats.rmdir as i128
    } else if k == 22 {
        st.v2_stats.read_dir as i128
    } else if k == 23 {
        st.v2_stats.fs_stat as i128
    } else if k == 24 {
        st.v3_stats.null as i128
    } else if k == 25 {
        st.v3_stats.get_attr as i128
    } else if k == 26 {
        st.v3_stats.set_attr as i128
    } else if k == 27 {
        st.v3_stats.lookup as i128
    } else if k == 28 {
        st.v3_stats.access as i128
    } else if k == 29 {
        st.v3_stats.read_link as i128
    } else if k == 30 {
        st.v3_stats.read as i128
    } else if k == 31 {
        st.v3_stats.write as i128
    } else if k == 32 {
        st.v3_stats.create as i128
    } else if k == 33 {
        st.v3_stats.mkdir as i128
    } else if k == 34 {
        st.v3_stats.sym_link as i128
    } else if k == 35 {
        st.v3_stats.mknod as i128
    } else if k == 36 {
        st.v3_stats.remove as i128
    } else if k == 37 {
        st.v3_stats.rmdir as i128
    } else if k == 38 {
        st.v3_stats.rename as i128
    } else if k == 39 {
        st.v3_stats.link as i128
    } else if k == 40 {
        st.v3_stats.read_dir as i128
    } else if k == 41 {
        st.v3_stats.read_dir_plus as i128
    } else if k == 42 {
        st.v3_stats.fs_stat as i128
    } else if k == 43 {
        st.v3_stats.fs_info as i128
    } else if k == 44 {
        st.v3_stats.path_conf as i128
    } else if k == 45 {
        st.v3_stats.commit as i128
    } else if k == 46 {
        st.client_v4_stats.null as i128
    } else if k == 47 {
        st.client_v4_stats.read as i128
    } else if k == 48 {
        st.client_v4_stats.write as i128
    } else if k == 49 {
        st.client_v4_stats.commit as i128
    } else if k == 50 {
        st.client_v4_stats.open as i128
    } else if k == 51 {
        st.client_v4_stats.open_confirm as i128
    } else if k == 52 {
        st.client_v4_stats.open_noattr as i128
    } else if k == 53 {
        st.client_v4_stats.open_downgrade as i128
    } else if k == 54 {
        st.client_v4_stats.close as i128
    } else if k == 55 {
        st.client_v4_stats.setattr as i128
    } else if k == 56 {
        st.client_v4_stats.fs_info as i128
    } else if k == 57 {
        st.client_v4_stats.renew as i128
    } else if k == 58 {
        st.client_v4_stats.set_client_id as i128
    } else if k == 59 {
        st.client_v4_stats.set_client_id_confirm as i128
    } else if k == 60 {
        st.client_v4_stats.lock as i128
    } else if k == 61 {
        st.client_v4_stats.lockt as i128
    } else if k == 62 {
        st.client_v4_stats.locku as i128
    } else if k == 63 {
        st.client_v4_stats.access as i128
    } else if k == 64 {
        st.client_v4_stats.getattr as i128
    } else if k == 65 {
        st.client_v4_stats.lookup as i128
    } else if k == 66 {
        st.client_v4_stats.lookup_root as i128
    } else if k == 67 {
        st.client_v4_stats.remove as i128
    } else if k == 68 {
        st.client_v4_stats.rename as i128
    } else if k == 69 {
        st.client_v4_stats.link as i128
    } else if k == 70 {
        st.client_v4_stats.symlink as i128
    } else if k == 71 {
        st.client_v4_stats.create as i128
    } else if k == 72 {
        st.client_v4_stats.pathconf as i128
    } else if k == 73 {
        st.client_v4_stats.stat_fs as i128
    } else if k == 74 {
        st.client_v4_stats.read_link as i128
    } else if k == 75 {
        st.client_v4_stats.read_dir as i128
    } else if k == 76 {
        st.client_v4_stats.server_caps as i128
    } else if k == 77 {
        st.client_v4_stats.deleg_return as i128
    } else if k == 78 {
        st.client_v4_stats.get_acl as i128
    } else if k == 79 {
        st.client_v4_stats.set_acl as i128
    } else if k == 80 {
        st.client_v4_stats.fs_locations as i128
    } else if k == 81 {
        st.client_v4_stats.release_lockowner as i128
    } else if k == 82 {
        st.client_v4_stats.secinfo as i128
    } else if k == 83 {
        st.client_v4_stats.fsid_present as i128
    } else if k == 84 {
        st.client_v4_stats.exchange_id as i128
    } else if k == 85 {
        st.client_v4_stats.create_session as i128
    } else if k == 86 {
        st.client_v4_stats.destroy_session as i128
    } else if k == 87 {
        st.client_v4_stats.sequence as i128
    } else if k == 88 {
        st.client_v4_stats.get_lease_time as i128
    } else if k == 89 {
        st.client_v4_stats.reclaim_complete as i128
    } else if k == 90 {
        st.client_v4_stats.layout_get as i128
    } else if k == 91 {
        st.client_v4_stats.get_device_info as i128
    } else if k == 92 {
        st.client_v4_stats.layout_commit as i128
    } else if k == 93 {
        st.client_v4_stats.layout_return as i128
    } else if k == 94 {
        st.client_v4_stats.secinfo_no_name as i128
    } else if k == 95 {
        st.client_v4_stats.test_state_id as i128
    } else if k == 96 {
        st.client_v4_stats.free_state_id as i128
    } else if k == 97 {
        st.client_v4_stats.get_device_list as i128
    } else if k == 98 {
        st.client_v4_stats.bind_conn_to_session as i128
    } else if k == 99 {
        st.client_v4_stats.destroy_client_id as i128
    } else if k == 100 {
        st.client_v4_stats.seek as i128
    } else if k == 101 {
        st.client_v4_stats.allocate as i128
    } else if k == 102 {
        st.client_v4_stats.deallocate as i128
    } else if k == 103 {
        st.client_v4_stats.layout_stats as i128
    } else {
        st.client_v4_stats.clone as i128
    }
}

/// The samples of the statistics, in a fixed order.
pub open spec fn nfs_samples_spec(st: ClientRPCStats) -> Seq<SampleModel> {
    Seq::new(
        105,
        |k: int|
            SampleModel {
                name: nfs_metric(k).0,
                description: nfs_metric(k).1,
                kind: nfs_metric(k).2,
                value: nfs_value(st, k),
                tags: nfs_tags(k),
            },
    )
}

/// The samples of the statistics.
pub fn nfs_samples(st: &ClientRPCStats) -> (r: Vec<Sample<'static>>)
    ensures
        samples_view(r@) == nfs_samples_spec(*st),
{
    let mut out: Vec<Sample<'static>> = Vec::new();
    let mut k: usize = 0;
    while k < 105
        invariant
            k <= 105,
            samples_view(out@) =~= nfs_samples_spec(*st).take(k as int),
        decreases 105 - k,
    {
        let (name, description, kind) = nfs_metric_exec(k);
        let value = nfs_value_exec(st, k);
        let tags = nfs_tags_exec(k);
        let ghost before = out@;
        out.push(Sample { name, description, kind, value, tags });
        assert(samples_view(out@) =~= samples_view(before).push(nfs_samples_spec(*st)[k as int]));
        assert(nfs_samples_spec(*st).take(k + 1) =~= nfs_samples_spec(*st).take(k as int).push(
            nfs_samples_spec(*st)[k as int],
        ));
        k = k + 1;
    }
    assert(nfs_samples_spec(*st).take(105) =~= nfs_samples_spec(*st));
    out
}


/// The packet, connection and RPC counters are reported under their names and
/// protocol labels: `protocol=udp` and `protocol=tcp` carry the UDP and TCP
/// packet counts, then the TCP connections, the RPC count, the
/// retransmissions and the authentication refreshes.
pub proof fn lemma_nfs_network_rpc_samples(st: ClientRPCStats)
    ensures
        nfs_samples_spec(st).len() == 105,
        nfs_samples_spec(st)[0].name == "node_nfs_packets_total" && nfs_samples_spec(st)[0].tags == seq![("protocol", TagModel::Text("udp"))]
            && nfs_samples_spec(st)[0].value == st.network.udp_count as int,
        nfs_samples_spec(st)[1].name == "node_nfs_packets_total" && nfs_samples_spec(st)[1].tags == seq![("protocol", TagModel::Text("tcp"))]
            && nfs_samples_spec(st)[1].value == st.network.tcp_count as int,
        nfs_samples_spec(st)[2].name == "node_nfs_connections_total" && nfs_samples_spec(st)[2].tags.len() == 0
            && nfs_samples_spec(st)[2].value == st.network.tcp_connect as int,
        nfs_samples_spec(st)[3].name == "node_nfs_rpcs_total" && nfs_samples_spec(st)[3].tags.len() == 0
            && nfs_samples_spec(st)[3].value == st.client_rpc.rpc_count as int,
        nfs_samples_spec(st)[4].name == "node_nfs_rpc_retransmissions_total" && nfs_samples_spec(st)[4].tags.len() == 0
            && nfs_samples_spec(st)[4].value == st.client_rpc.retransmissions as int,
        nfs_samples_spec(st)[5].name == "node_nfs_rpc_authentication_refreshes_total" && nfs_samples_spec(st)[5].tags.len() == 0
            && nfs_samples_spec(st)[5].value == st.client_rpc.auth_refreshes as int,
{
}

/// Each NFSv2 procedure count is the `node_nfs_requests_total` sample labelled
/// `proto=2` and the procedure's name.
pub proof fn lemma_nfs_v2_samples(st: ClientRPCStats)
    ensures
        nfs_samples_spec(st).len() == 105,
        nfs_samples_spec(st)[6].name == "node_nfs_requests_total" && nfs_samples_spec(st)[6].tags == seq![("proto", TagModel::Text("2")), ("method", TagModel::Text("Null"))]
            && nfs_samples_spec(st)[6].value == st.v2_stats.null as int,
        nfs_samples_spec(st)[7].name == "node_nfs_requests_total" && nfs_samples_spec(st)[7].tags == seq![("proto", TagModel::Text("2")), ("method", TagModel::Text("GetAttr"))]
            && nfs_samples_spec(st)[7].value == st.v2_stats.get_attr as int,
        nfs_samples_spec(st)[8].name == "node_nfs_requests_total" && nfs_samples_spec(st)[8].tags == seq![("proto", TagModel::Text("2")), ("method", TagModel::Text("SetAttr"))]
            && nfs_samples_spec(st)[8].value == st.v2_stats.set_attr as int,
        nfs_samples_spec(st)[9].name == "node_nfs_requests_total" && nfs_samples_spec(st)[9].tags == seq![("proto", TagModel::Text("2")), ("method", TagModel::Text("Root"))]
            && nfs_samples_spec(st)[9].value == st.v2_stats.root as int,
        nfs_samples_spec(st)[10].name == "node_nfs_requests_total" && nfs_samples_spec(st)[10].tags == seq![("proto", TagModel::Text("2")), ("method", TagModel::Text("Lookup"))]
            && nfs_samples_spec(st)[10].value == st.v2_stats.lookup as int,
        nfs_samples_spec(st)[11].name == "node_nfs_requests_total" && nfs_samples_spec(st)[11].tags == seq![("proto", TagModel::Text("2")), ("method", TagModel::Text("ReadLink"))]
            && nfs_samples_spec(st)[11].value == st.v2_stats.read_link as int,
        nfs_samples_spec(st)[12].name == "node_nfs_requests_total" && nfs_samples_spec(st)[12].tags == seq![("proto", TagModel::Text("2")), ("method", TagModel::Text("Read"))]
            && nfs_samples_spec(st)[12].value == st.v2_stats.read as int,
        nfs_samples_spec(st)[13].name == "node_nfs_requests_total" && nfs_samples_spec(st)[13].tags == seq![("proto", TagModel::Text("2")), ("method", TagModel::Text("WrCache"))]
            && nfs_samples_spec(st)[13].value == st.v2_stats.wr_cache as int,
        nfs_samples_spec(st)[14].name == "node_nfs_requests_total" && nfs_samples_spec(st)[14].tags == seq![("proto", TagModel::Text("2")), ("method", TagModel::Text("Write"))]
            && nfs_samples_spec(st)[14].value == st.v2_stats.write as int,
        nfs_samples_spec(st)[15].name == "node_nfs_requests_total" && nfs_samples_spec(st)[15].tags == seq![("proto", TagModel::Text("2")), ("method", TagModel::Text("Create"))]
            && nfs_samples_spec(st)[15].value == st.v2_stats.create as int,
        nfs_samples_spec(st)[16].name == "node_nfs_requests_total" && nfs_samples_spec(st)[16].tags == seq![("proto", TagModel::Text("2")), ("method", TagModel::Text("Remove"))]
            && nfs_samples_spec(st)[16].value == st.v2_stats.remove as int,
        nfs_samples_spec(st)[17].name == "node_nfs_requests_total" && nfs_samples_spec(st)[17].tags == seq![("proto", TagModel::Text("2")), ("method", TagModel::Text("Rename"))]
            && nfs_samples_spec(st)[17].value == st.v2_stats.rename as int,
        nfs_samples_spec(st)[18].name == "node_nfs_requests_total" && nfs_samples_spec(st)[18].tags == seq![("proto", TagModel::Text("2")), ("method", TagModel::Text("Link"))]
            && nfs_samples_spec(st)[18].value == st.v2_stats.link as int,
        nfs_samples_spec(st)[19].name == "node_nfs_requests_total" && nfs_samples_spec(st)[19].tags == seq![("proto", TagModel::Text("2")), ("method", TagModel::Text("SymLink"))]
            && nfs_samples_spec(st)[19].value == st.v2_stats.sym_link as int,
        nfs_samples_spec(st)[20].name == "node_nfs_requests_total" && nfs_samples_spec(st)[20].tags == seq![("proto", TagModel::Text("2")), ("method", TagModel::Text("MkDir"))]
            && nfs_samples_spec(st)[20].value == st.v2_stats.mkdir as int,
        nfs_samples_spec(st)[21].name == "node_nfs_requests_total" && nfs_samples_spec(st)[21].tags == seq![("proto", TagModel::Text("2")), ("method", TagModel::Text("RmDir"))]
            && nfs_samples_spec(st)[21].value == st.v2_stats.rmdir as int,
        nfs_samples_spec(st)[22].name == "node_nfs_requests_total" && nfs_samples_spec(st)[22].tags == seq![("proto", TagModel::Text("2")), ("method", TagModel::Text("ReadDir"))]
            && nfs_samples_spec(st)[22].value == st.v2_stats.read_dir as int,
        nfs_samples_spec(st)[23].name == "node_nfs_requests_total" && nfs_samples_spec(st)[23].tags == seq![("proto", TagModel::Text("2")), ("method", TagModel::Text("FsStat"))]
            && nfs_samples_spec(st)[23].value == st.v2_stats.fs_stat as int,
{
}

/// Each NFSv3 procedure count is the `node_nfs_requests_total` sample labelled
/// `proto=3` and the procedure's name: `method=Read` carries the v3 read
/// count, `method=Write` the v3 write count, and so on.
pub proof fn lemma_nfs_v3_samples(st: ClientRPCStats)
    ensures
        nfs_samples_spec(st).len() == 105,
        nfs_samples_spec(st)[24].name == "node_nfs_requests_total" && nfs_samples_spec(st)[24].tags == seq![("proto", TagModel::Text("3")), ("method", TagModel::Text("Null"))]
            && nfs_samples_spec(st)[24].value == st.v3_stats.null as int,
        nfs_samples_spec(st)[25].name == "node_nfs_requests_total" && nfs_samples_spec(st)[25].tags == seq![("proto", TagModel::Text("3")), ("method", TagModel::Text("GetAttr"))]
            && nfs_samples_spec(st)[25].value == st.v3_stats.get_attr as int,
        nfs_samples_spec(st)[26].name == "node_nfs_requests_total" && nfs_samples_spec(st)[26].tags == seq![("proto", TagModel::Text("3")), ("method", TagModel::Text("SetAttr"))]
            && nfs_samples_spec(st)[26].value == st.v3_stats.set_attr as int,
        nfs_samples_spec(st)[27].name == "node_nfs_requests_total" && nfs_samples_spec(st)[27].tags == seq![("proto", TagModel::Text("3")), ("method", TagModel::Text("Lookup"))]
            && nfs_samples_spec(st)[27].value == st.v3_stats.lookup as int,
        nfs_samples_spec(st)[28].name == "node_nfs_requests_total" && nfs_samples_spec(st)[28].tags == seq![("proto", TagModel::Text("3")), ("method", TagModel::Text("Access"))]
            && nfs_samples_spec(st)[28].value == st.v3_stats.access as int,
        nfs_samples_spec(st)[29].name == "node_nfs_requests_total" && nfs_samples_spec(st)[29].tags == seq![("proto", TagModel::Text("3")), ("method", TagModel::Text("ReadLink"))]
            && nfs_samples_spec(st)[29].value == st.v3_stats.read_link as int,
        nfs_samples_spec(st)[30].name == "node_nfs_requests_total" && nfs_samples_spec(st)[30].tags == seq![("proto", TagModel::Text("3")), ("method", TagModel::Text("Read"))]
            && nfs_samples_spec(st)[30].value == st.v3_stats.read as int,
        nfs_samples_spec(st)[31].name == "node_nfs_requests_total" && nfs_samples_spec(st)[31].tags == seq![("proto", TagModel::Text("3")), ("method", TagModel::Text("Write"))]
            && nfs_samples_spec(st)[31].value == st.v3_stats.write as int,
        nfs_samples_spec(st)[32].name == "node_nfs_requests_total" && nfs_samples_spec(st)[32].tags == seq![("proto", TagModel::Text("3")), ("method", TagModel::Text("Create"))]
            && nfs_samples_spec(st)[32].value == st.v3_stats.create as int,
        nfs_samples_spec(st)[33].name == "node_nfs_requests_total" && nfs_samples_spec(st)[33].tags == seq![("proto", TagModel::Text("3")), ("method", TagModel::Text("MkDir"))]
            && nfs_samples_spec(st)[33].value == st.v3_stats.mkdir as int,
        nfs_samples_spec(st)[34].name == "node_nfs_requests_total" && nfs_samples_spec(st)[34].tags == seq![("proto", TagModel::Text("3")), ("method", TagModel::Text("SymLink"))]
            && nfs_samples_spec(st)[34].value == st.v3_stats.sym_link as int,
        nfs_samples_spec(st)[35].name == "node_nfs_requests_total" && nfs_samples_spec(st)[35].tags == seq![("proto", TagModel::Text("3")), ("method", TagModel::Text("MkNod"))]
            && nfs_samples_spec(st)[35].value == st.v3_stats.mknod as int,
        nfs_samples_spec(st)[36].name == "node_nfs_requests_total" && nfs_samples_spec(st)[36].tags == seq![("proto", TagModel::Text("3")), ("method", TagModel::Text("Remove"))]
            && nfs_samples_spec(st)[36].value == st.v3_stats.remove as int,
        nfs_samples_spec(st)[37].name == "node_nfs_requests_total" && nfs_samples_spec(st)[37].tags == seq![("proto", TagModel::Text("3")), ("method", TagModel::Text("RmDir"))]
            && nfs_samples_spec(st)[37].value == st.v3_stats.rmdir as int,
        nfs_samples_spec(st)[38].name == "node_nfs_requests_total" && nfs_samples_spec(st)[38].tags == seq![("proto", TagModel::Text("3")), ("method", TagModel::Text("Rename"))]
            && nfs_samples_spec(st)[38].value == st.v3_stats.rename as int,
        nfs_samples_spec(st)[39].name == "node_nfs_requests_total" && nfs_samples_spec(st)[39].tags == seq![("proto", TagModel::Text("3")), ("method", TagModel::Text("Link"))]
            && nfs_samples_spec(st)[39].value == st.v3_stats.link as int,
        nfs_samples_spec(st)[40].name == "node_nfs_requests_total" && nfs_samples_spec(st)[40].tags == seq![("proto", TagModel::Text("3")), ("method", TagModel::Text("ReadDir"))]
            && nfs_samples_spec(st)[40].value == st.v3_stats.read_dir as int,
        nfs_samples_spec(st)[41].name == "node_nfs_requests_total" && nfs_samples_spec(st)[41].tags == seq![("proto", TagModel::Text("3")), ("method", TagModel::Text("ReadDirPlus"))]
            && nfs_samples_spec(st)[41].value == st.v3_stats.read_dir_plus as int,
        nfs_samples_spec(st)[42].name == "node_nfs_requests_total" && nfs_samples_spec(st)[42].tags == seq![("proto", TagModel::Text("3")), ("method", TagModel::Text("FsStat"))]
            && nfs_samples_spec(st)[42].value == st.v3_stats.fs_stat as int,
        nfs_samples_spec(st)[43].name == "node_nfs_requests_total" && nfs_samples_spec(st)[43].tags == seq![("proto", TagModel::Text("3")), ("method", TagModel::Text("FsInfo"))]
            && nfs_samples_spec(st)[43].value == st.v3_stats.fs_info as int,
        nfs_samples_spec(st)[44].name == "node_nfs_requests_total" && nfs_samples_spec(st)[44].tags == seq![("proto", TagModel::Text("3")), ("method", TagModel::Text("PathConf"))]
            && nfs_samples_spec(st)[44].value == st.v3_stats.path_conf as int,
        nfs_samples_spec(st)[45].name == "node_nfs_requests_total" && nfs_samples_spec(st)[45].tags == seq![("proto", TagModel::Text("3")), ("method", TagModel::Text("Commit"))]
            && nfs_samples_spec(st)[45].value == st.v3_stats.commit as int,
{
}

/// Each NFSv4 client procedure count is the `node_nfs_requests_total` sample
/// labelled `proto=4` and the procedure's name.
pub proof fn lemma_nfs_v4_samples(st: ClientRPCStats)
    ensures
        nfs_samples_spec(st).len() == 105,
        nfs_samples_spec(st)[46].name == "node_nfs_requests_total" && nfs_samples_spec(st)[46].tags == seq![("proto", TagModel::Text("4")), ("method", TagModel::Text("Null"))]
            && nfs_samples_spec(st)[46].value == st.client_v4_stats.null as int,
        nfs_samples_spec(st)[47].name == "node_nfs_requests_total" && nfs_samples_spec(st)[47].tags == seq![("proto", TagModel::Text("4")), ("method", TagModel::Text("Read"))]
            && nfs_samples_spec(st)[47].value == st.client_v4_stats.read as int,
        nfs_samples_spec(st)[48].name == "node_nfs_requests_total" && nfs_samples_spec(st)[48].tags == seq![("proto", TagModel::Text("4")), ("method", TagModel::Text("Write"))]
            && nfs_samples_spec(st)[48].value == st.client_v4_stats.write as int,
        nfs_samples_spec(st)[49].name == "node_nfs_requests_total" && nfs_samples_spec(st)[49].tags == seq![("proto", TagModel::Text("4")), ("method", TagModel::Text("Commit"))]
            && nfs_samples_spec(st)[49].value == st.client_v4_stats.commit as int,
        nfs_samples_spec(st)[50].name == "node_nfs_requests_total" && nfs_samples_spec(st)[50].tags == seq![("proto", TagModel::Text("4")), ("method", TagModel::Text("Open"))]
            && nfs_samples_spec(st)[50].value == st.client_v4_stats.open as int,
        nfs_samples_spec(st)[51].name == "node_nfs_requests_total" && nfs_samples_spec(st)[51].tags == seq![("proto", TagModel::Text("4")), ("method", TagModel::Text("OpenConfirm"))]
            && nfs_samples_spec(st)[51].value == st.client_v4_stats.open_confirm as int,
        nfs_samples_spec(st)[52].name == "node_nfs_requests_total" && nfs_samples_spec(st)[52].tags == seq![("proto", TagModel::Text("4")), ("method", TagModel::Text("OpenNoattr"))]
            && nfs_samples_spec(st)[52].value == st.client_v4_stats.open_noattr as int,
        nfs_samples_spec(st)[53].name == "node_nfs_requests_total" && nfs_samples_spec(st)[53].tags == seq![("proto", TagModel::Text("4")), ("method", TagModel::Text("OpenDowngrade"))]
            && nfs_samples_spec(st)[53].value == st.client_v4_stats.open_downgrade as int,
        nfs_samples_spec(st)[54].name == "node_nfs_requests_total" && nfs_samples_spec(st)[54].tags == seq![("proto", TagModel::Text("4")), ("method", TagModel::Text("Close"))]
            && nfs_samples_spec(st)[54].value == st.client_v4_stats.close as int,
        nfs_samples_spec(st)[55].name == "node_nfs_requests_total" && nfs_samples_spec(st)[55].tags == seq![("proto", TagModel::Text("4")), ("method", TagModel::Text("Setattr"))]
            && nfs_samples_spec(st)[55].value == st.client_v4_stats.setattr as int,
        nfs_samples_spec(st)[56].name == "node_nfs_requests_total" && nfs_samples_spec(st)[56].tags == seq![("proto", TagModel::Text("4")), ("method", TagModel::Text("FsInfo"))]
            && nfs_samples_spec(st)[56].value == st.client_v4_stats.fs_info as int,
        nfs_samples_spec(st)[57].name == "node_nfs_requests_total" && nfs_samples_spec(st)[57].tags == seq![("proto", TagModel::Text("4")), ("method", TagModel::Text("Renew"))]
            && nfs_samples_spec(st)[57].value == st.client_v4_stats.renew as int,
        nfs_samples_spec(st)[58].name == "node_nfs_requests_total" && nfs_samples_spec(st)[58].tags == seq![("proto", TagModel::Text("4")), ("method", TagModel::Text("SetClientID"))]
            && nfs_samples_spec(st)[58].value == st.client_v4_stats.set_client_id as int,
        nfs_samples_spec(st)[59].name == "node_nfs_requests_total" && nfs_samples_spec(st)[59].tags == seq![("proto", TagModel::Text("4")), ("method", TagModel::Text("SetClientIDConfirm"))]
            && nfs_samples_spec(st)[59].value == st.client_v4_stats.set_client_id_confirm as int,
        nfs_samples_spec(st)[60].name == "node_nfs_requests_total" && nfs_samples_spec(st)[60].tags == seq![("proto", TagModel::Text("4")), ("method", TagModel::Text("Lock"))]
            && nfs_samples_spec(st)[60].value == st.client_v4_stats.lock as int,
        nfs_samples_spec(st)[61].name == "node_nfs_requests_total" && nfs_samples_spec(st)[61].tags == seq![("proto", TagModel::Text("4")), ("method", TagModel::Text("Lockt"))]
            && nfs_samples_spec(st)[61].value == st.client_v4_stats.lockt as int,
        nfs_samples_spec(st)[62].name == "node_nfs_requests_total" && nfs_samples_spec(st)[62].tags == seq![("proto", TagModel::Text("4")), ("method", TagModel::Text("Locku"))]
            && nfs_samples_spec(st)[62].value == st.client_v4_stats.locku as int,
        nfs_samples_spec(st)[63].name == "node_nfs_requests_total" && nfs_samples_spec(st)[63].tags == seq![("proto", TagModel::Text("4")), ("method", TagModel::Text("Access"))]
            && nfs_samples_spec(st)[63].value == st.client_v4_stats.access as int,
        nfs_samples_spec(st)[64].name == "node_nfs_requests_total" && nfs_samples_spec(st)[64].tags == seq![("proto", TagModel::Text("4")), ("method", TagModel::Text("Getattr"))]
            && nfs_samples_spec(st)[64].value == st.client_v4_stats.getattr as int,
        nfs_samples_spec(st)[65].name == "node_nfs_requests_total" && nfs_samples_spec(st)[65].tags == seq![("proto", TagModel::Text("4")), ("method", TagModel::Text("Lookup"))]
            && nfs_samples_spec(st)[65].value == st.client_v4_stats.lookup as int,
        nfs_samples_spec(st)[66].name == "node_nfs_requests_total" && nfs_samples_spec(st)[66].tags == seq![("proto", TagModel::Text("4")), ("method", TagModel::Text("LookupRoot"))]
            && nfs_samples_spec(st)[66].value == st.client_v4_stats.lookup_root as int,
        nfs_samples_spec(st)[67].name == "node_nfs_requests_total" && nfs_samples_spec(st)[67].tags == seq![("proto", TagModel::Text("4")), ("method", TagModel::Text("Remove"))]
            && nfs_samples_spec(st)[67].value == st.client_v4_stats.remove as int,
        nfs_samples_spec(st)[68].name == "node_nfs_requests_total" && nfs_samples_spec(st)[68].tags == seq![("proto", TagModel::Text("4")), ("method", TagModel::Text("Rename"))]
            && nfs_samples_spec(st)[68].value == st.client_v4_stats.rename as int,
        nfs_samples_spec(st)[69].name == "node_nfs_requests_total" && nfs_samples_spec(st)[69].tags == seq![("proto", TagModel::Text("4")), ("method", TagModel::Text("Link"))]
            && nfs_samples_spec(st)[69].value == st.client_v4_stats.link as int,
        nfs_samples_spec(st)[70].name == "node_nfs_requests_total" && nfs_samples_spec(st)[70].tags == seq![("proto", TagModel::Text("4")), ("method", TagModel::Text("Symlink"))]
            && nfs_samples_spec(st)[70].value == st.client_v4_stats.symlink as int,
        nfs_samples_spec(st)[71].name == "node_nfs_requests_total" && nfs_samples_spec(st)[71].tags == seq![("proto", TagModel::Text("4")), ("method", TagModel::Text("Create"))]
            && nfs_samples_spec(st)[71].value == st.client_v4_stats.create as int,
        nfs_samples_spec(st)[72].name == "node_nfs_requests_total" && nfs_samples_spec(st)[72].tags == seq![("proto", TagModel::Text("4")), ("method", TagModel::Text("Pathconf"))]
            && nfs_samples_spec(st)[72].value == st.client_v4_stats.pathconf as int,
        nfs_samples_spec(st)[73].name == "node_nfs_requests_total" && nfs_samples_spec(st)[73].tags == seq![("proto", TagModel::Text("4")), ("method", TagModel::Text("StatFs"))]
            && nfs_samples_spec(st)[73].value == st.client_v4_stats.stat_fs as int,
        nfs_samples_spec(st)[74].name == "node_nfs_requests_total" && nfs_samples_spec(st)[74].tags == seq![("proto", TagModel::Text("4")), ("method", TagModel::Text("ReadLink"))]
            && nfs_samples_spec(st)[74].value == st.client_v4_stats.read_link as int,
        nfs_samples_spec(st)[75].name == "node_nfs_requests_total" && nfs_samples_spec(st)[75].tags == seq![("proto", TagModel::Text("4")), ("method", TagModel::Text("ReadDir"))]
            && nfs_samples_spec(st)[75].value == st.client_v4_stats.read_dir as int,
        nfs_samples_spec(st)[76].name == "node_nfs_requests_total" && nfs_samples_spec(st)[76].tags == seq![("proto", TagModel::Text("4")), ("method", TagModel::Text("ServerCaps"))]
            && nfs_samples_spec(st)[76].value == st.client_v4_stats.server_caps as int,
        nfs_samples_spec(st)[77].name == "node_nfs_requests_total" && nfs_samples_spec(st)[77].tags == seq![("proto", TagModel::Text("4")), ("method", TagModel::Text("DelegReturn"))]
            && nfs_samples_spec(st)[77].value == st.client_v4_stats.deleg_return as int,
        nfs_samples_spec(st)[78].name == "node_nfs_requests_total" && nfs_samples_spec(st)[78].tags == seq![("proto", TagModel::Text("4")), ("method", TagModel::Text("GetACL"))]
            && nfs_samples_spec(st)[78].value == st.client_v4_stats.get_acl as int,
        nfs_samples_spec(st)[79].name == "node_nfs_requests_total" && nfs_samples_spec(st)[79].tags == seq![("proto", TagModel::Text("4")), ("method", TagModel::Text("SetACL"))]
            && nfs_samples_spec(st)[79].value == st.client_v4_stats.set_acl as int,
        nfs_samples_spec(st)[80].name == "node_nfs_requests_total" && nfs_samples_spec(st)[80].tags == seq![("proto", TagModel::Text("4")), ("method", TagModel::Text("FsLocations"))]
            && nfs_samples_spec(st)[80].value == st.client_v4_stats.fs_locations as int,
        nfs_samples_spec(st)[81].name == "node_nfs_requests_total" && nfs_samples_spec(st)[81].tags == seq![("proto", TagModel::Text("4")), ("method", TagModel::Text("ReleaseLockowner"))]
            && nfs_samples_spec(st)[81].value == st.client_v4_stats.release_lockowner as int,
        nfs_samples_spec(st)[82].name == "node_nfs_requests_total" && nfs_samples_spec(st)[82].tags == seq![("proto", TagModel::Text("4")), ("method", TagModel::Text("Secinfo"))]
            && nfs_samples_spec(st)[82].value == st.client_v4_stats.secinfo as int,
        nfs_samples_spec(st)[83].name == "node_nfs_requests_total" && nfs_samples_spec(st)[83].tags == seq![("proto", TagModel::Text("4")), ("method", TagModel::Text("FsidPresent"))]
            && nfs_samples_spec(st)[83].value == st.client_v4_stats.fsid_present as int,
        nfs_samples_spec(st)[84].name == "node_nfs_requests_total" && nfs_samples_spec(st)[84].tags == seq![("proto", TagModel::Text("4")), ("method", TagModel::Text("ExchangeID"))]
            && nfs_samples_spec(st)[84].value == st.client_v4_stats.exchange_id as int,
        nfs_samples_spec(st)[85].name == "node_nfs_requests_total" && nfs_samples_spec(st)[85].tags == seq![("proto", TagModel::Text("4")), ("method", TagModel::Text("CreateSession"))]
            && nfs_samples_spec(st)[85].value == st.client_v4_stats.create_session as int,
        nfs_samples_spec(st)[86].name == "node_nfs_requests_total" && nfs_samples_spec(st)[86].tags == seq![("proto", TagModel::Text("4")), ("method", TagModel::Text("DestroySession"))]
            && nfs_samples_spec(st)[86].value == st.client_v4_stats.destroy_session as int,
        nfs_samples_spec(st)[87].name == "node_nfs_requests_total" && nfs_samples_spec(st)[87].tags == seq![("proto", TagModel::Text("4")), ("method", TagModel::Text("Sequence"))]
            && nfs_samples_spec(st)[87].value == st.client_v4_stats.sequence as int,
        nfs_samples_spec(st)[88].name == "node_nfs_requests_total" && nfs_samples_spec(st)[88].tags == seq![("proto", TagModel::Text("4")), ("method", TagModel::Text("GetLeaseTime"))]
            && nfs_samples_spec(st)[88].value == st.client_v4_stats.get_lease_time as int,
        nfs_samples_spec(st)[89].name == "node_nfs_requests_total" && nfs_samples_spec(st)[89].tags == seq![("proto", TagModel::Text("4")), ("method", TagModel::Text("ReclaimComplete"))]
            && nfs_samples_spec(st)[89].value == st.client_v4_stats.reclaim_complete as int,
        nfs_samples_spec(st)[90].name == "node_nfs_requests_total" && nfs_samples_spec(st)[90].tags == seq![("proto", TagModel::Text("4")), ("method", TagModel::Text("LayoutGet"))]
            && nfs_samples_spec(st)[90].value == st.client_v4_stats.layout_get as int,
        nfs_samples_spec(st)[91].name == "node_nfs_requests_total" && nfs_samples_spec(st)[91].tags == seq![("proto", TagModel::Text("4")), ("method", TagModel::Text("GetDeviceInfo"))]
            && nfs_samples_spec(st)[91].value == st.client_v4_stats.get_device_info as int,
        nfs_samples_spec(st)[92].name == "node_nfs_requests_total" && nfs_samples_spec(st)[92].tags == seq![("proto", TagModel::Text("4")), ("method", TagModel::Text("LayoutCommit"))]
            && nfs_samples_spec(st)[92].value == st.client_v4_stats.layout_commit as int,
        nfs_samples_spec(st)[93].name == "node_nfs_requests_total" && nfs_samples_spec(st)[93].tags == seq![("proto", TagModel::Text("4")), ("method", TagModel::Text("LayoutReturn"))]
            && nfs_samples_spec(st)[93].value == st.client_v4_stats.layout_return as int,
        nfs_samples_spec(st)[94].name == "node_nfs_requests_total" && nfs_samples_spec(st)[94].tags == seq![("proto", TagModel::Text("4")), ("method", TagModel::Text("SecinfoNoName"))]
            && nfs_samples_spec(st)[94].value == st.client_v4_stats.secinfo_no_name as int,
        nfs_samples_spec(st)[95].name == "node_nfs_requests_total" && nfs_samples_spec(st)[95].tags == seq![("proto", TagModel::Text("4")), ("method", TagModel::Text("TestStateID"))]
            && nfs_samples_spec(st)[95].value == st.client_v4_stats.test_state_id as int,
        nfs_samples_spec(st)[96].name == "node_nfs_requests_total" && nfs_samples_spec(st)[96].tags == seq![("proto", TagModel::Text("4")), ("method", TagModel::Text("FreeStateID"))]
            && nfs_samples_spec(st)[96].value == st.client_v4_stats.free_state_id as int,
        nfs_samples_spec(st)[97].name == "node_nfs_requests_total" && nfs_samples_spec(st)[97].tags == seq![("proto", TagModel::Text("4")), ("method", TagModel::Text("GetDeviceList"))]
            && nfs_samples_spec(st)[97].value == st.client_v4_stats.get_device_list as int,
        nfs_samples_spec(st)[98].name == "node_nfs_requests_total" && nfs_samples_spec(st)[98].tags == seq![("proto", TagModel::Text("4")), ("method", TagModel::Text("BindConnToSession"))]
            && nfs_samples_spec(st)[98].value == st.client_v4_stats.bind_conn_to_session as int,
        nfs_samples_spec(st)[99].name == "node_nfs_requests_total" && nfs_samples_spec(st)[99].tags == seq![("proto", TagModel::Text("4")), ("method", TagModel::Text("DestroyClientID"))]
            && nfs_samples_spec(st)[99].value == st.client_v4_stats.destroy_client_id as int,
        nfs_samples_spec(st)[100].name == "node_nfs_requests_total" && nfs_samples_spec(st)[100].tags == seq![("proto", TagModel::Text("4")), ("method", TagModel::Text("Seek"))]
            && nfs_samples_spec(st)[100].value == st.client_v4_stats.seek as int,
        nfs_samples_spec(st)[101].name == "node_nfs_requests_total" && nfs_samples_spec(st)[101].tags == seq![("proto", TagModel::Text("4")), ("method", TagModel::Text("Allocate"))]
            && nfs_samples_spec(st)[101].value == st.client_v4_stats.allocate as int,
        nfs_samples_spec(st)[102].name == "node_nfs_requests_total" && nfs_samples_spec(st)[102].tags == seq![("proto", TagModel::Text("4")), ("method", TagModel::Text("DeAllocate"))]
            && nfs_samples_spec(st)[102].value == st.client_v4_stats.deallocate as int,
        nfs_samples_spec(st)[103].name == "node_nfs_requests_total" && nfs_samples_spec(st)[103].tags == seq![("proto", TagModel::Text("4")), ("method", TagModel::Text("LayoutStats"))]
            && nfs_samples_spec(st)[103].value == st.client_v4_stats.layout_stats as int,
        nfs_samples_spec(st)[104].name == "node_nfs_requests_total" && nfs_samples_spec(st)[104].tags == seq![("proto", TagModel::Text("4")), ("method", TagModel::Text("Clone"))]
            && nfs_samples_spec(st)[104].value == st.client_v4_stats.clone as int,
{
}
} // verus!
