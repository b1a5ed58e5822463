//! NFS server statistics from /proc/net/rpc/nfsd.

use vstd::prelude::*;
use vstd::string::StringSliceAdditionalSpecFns;

use super::nfs::{line_values, read_values, value_or_zero, Network, V2Stats, V3Stats, label_net, label_rpc, label_proc2, label_proc3, label_proc4};
use super::Error;
use crate::metric::{
    no_tags, one_tag, samples_view, tags_view, two_tags, Kind, Sample, SampleModel, TagModel, TagValue,
};
use crate::text::{fields, is_word, lines, split_ascii_ws, split_lines, views};

verus! {

/// The "rc" line: the reply cache.
#[derive(Debug, PartialEq, Eq)]
pub struct ReplyCache {
    pub hits: u64,
    pub misses: u64,
    pub no_cache: u64,
}

impl ReplyCache {
    /// The record that the 3 counts of the line give.
    pub open spec fn from_values(v: Seq<u64>) -> Result<ReplyCache, Error> {
        if v.len() != 3 {
            Err(Error::Invalid("ReplyCache"))
        } else {
            Ok(ReplyCache { hits: v[0], misses: v[1], no_cache: v[2] })
        }
    }

    pub open spec fn zero() -> ReplyCache {
        ReplyCache { hits: 0, misses: 0, no_cache: 0 }
    }

    pub fn new() -> (r: ReplyCache)
        ensures
            r == ReplyCache::zero(),
    {
        ReplyCache { hits: 0, misses: 0, no_cache: 0 }
    }

    pub fn try_from(v: Vec<u64>) -> (r: Result<ReplyCache, Error>)
        ensures
            r == ReplyCache::from_values(v@),
    {
        if v.len() != 3 {
            return Err(Error::Invalid("ReplyCache"));
        }
        Ok(ReplyCache { hits: v[0], misses: v[1], no_cache: v[2] })
    }
}

/// The "fh" line: file handles.
#[derive(Debug, PartialEq, Eq)]
pub struct FileHandles {
    pub stale: u64,
    pub total_lookups: u64,
    pub anon_lookups: u64,
    pub dir_no_cache: u64,
    pub no_dir_no_cache: u64,
}

impl FileHandles {
    /// The record that the 5 counts of the line give.
    pub open spec fn from_values(v: Seq<u64>) -> Result<FileHandles, Error> {
        if v.len() != 5 {
            Err(Error::Invalid("FileHandles"))
        } else {
            Ok(FileHandles { stale: v[0], total_lookups: v[1], anon_lookups: v[2], dir_no_cache: v[3], no_dir_no_cache: v[4] })
        }
    }

    pub open spec fn zero() -> FileHandles {
        FileHandles { stale: 0, total_lookups: 0, anon_lookups: 0, dir_no_cache: 0, no_dir_no_cache: 0 }
    }

    pub fn new() -> (r: FileHandles)
        ensures
            r == FileHandles::zero(),
    {
        FileHandles { stale: 0, total_lookups: 0, anon_lookups: 0, dir_no_cache: 0, no_dir_no_cache: 0 }
    }

    pub fn try_from(v: Vec<u64>) -> (r: Result<FileHandles, Error>)
        ensures
            r == FileHandles::from_values(v@),
    {
        if v.len() != 5 {
            return Err(Error::Invalid("FileHandles"));
        }
        Ok(FileHandles { stale: v[0], total_lookups: v[1], anon_lookups: v[2], dir_no_cache: v[3], no_dir_no_cache: v[4] })
    }
}

/// The "io" line: bytes read and written.
#[derive(Debug, PartialEq, Eq)]
pub struct InputOutput {
    pub read: u64,
    pub write: u64,
}

impl InputOutput {
    /// The record that the 2 counts of the line give.
    pub open spec fn from_values(v: Seq<u64>) -> Result<InputOutput, Error> {
        if v.len() != 2 {
            Err(Error::Invalid("InputOutput"))
        } else {
            Ok(InputOutput { read: v[0], write: v[1] })
        }
    }

    pub open spec fn zero() -> InputOutput {
        InputOutput { read: 0, write: 0 }
    }

    pub fn new() -> (r: InputOutput)
        ensures
            r == InputOutput::zero(),
    {
        InputOutput { read: 0, write: 0 }
    }

    pub fn try_from(v: Vec<u64>) -> (r: Result<InputOutput, Error>)
        ensures
            r == InputOutput::from_values(v@),
    {
        if v.len() != 2 {
            return Err(Error::Invalid("InputOutput"));
        }
        Ok(InputOutput { read: v[0], write: v[1] })
    }
}

/// The "th" line: the server threads.
#[derive(Debug, PartialEq, Eq)]
pub struct Threads {
    pub threads: u64,
    pub full_cnt: u64,
}

impl Threads {
    /// The record that the 2 counts of the line give.
    pub open spec fn from_values(v: Seq<u64>) -> Result<Threads, Error> {
        if v.len() != 2 {
            Err(Error::Invalid("Threads"))
        } else {
            Ok(Threads { threads: v[0], full_cnt: v[1] })
        }
    }

    pub open spec fn zero() -> Threads {
        Threads { threads: 0, full_cnt: 0 }
    }

    pub fn new() -> (r: Threads)
        ensures
            r == Threads::zero(),
    {
        Threads { threads: 0, full_cnt: 0 }
    }

    pub fn try_from(v: Vec<u64>) -> (r: Result<Threads, Error>)
        ensures
            r == Threads::from_values(v@),
    {
        if v.len() != 2 {
            return Err(Error::Invalid("Threads"));
        }
        Ok(Threads { threads: v[0], full_cnt: v[1] })
    }
}

/// The "ra" line: the read-ahead cache.
#[derive(Debug, PartialEq, Eq)]
pub struct ReadAheadCache {
    pub cache_size: u64,
    /// How often the cache hit at each tenth of its depth.
    pub cache_histogram: [u64; 10],
    pub not_found: u64,
}

impl ReadAheadCache {
    /// The record that the 12 counts of the line give.
    pub open spec fn from_values(v: Seq<u64>) -> Result<ReadAheadCache, Error> {
        if v.len() != 12 {
            Err(Error::Invalid("ReadAheadCache"))
        } else {
            Ok(ReadAheadCache { cache_size: v[0], cache_histogram: [v[1], v[2], v[3], v[4], v[5], v[6], v[7], v[8], v[9], v[10]], not_found: v[11] })
        }
    }

    pub open spec fn zero() -> ReadAheadCache {
        ReadAheadCache { cache_size: 0, cache_histogram: [0u64, 0, 0, 0, 0, 0, 0, 0, 0, 0], not_found: 0 }
    }

    pub fn new() -> (r: ReadAheadCache)
        ensures
            r == ReadAheadCache::zero(),
    {
        ReadAheadCache { cache_size: 0, cache_histogram: [0u64, 0, 0, 0, 0, 0, 0, 0, 0, 0], not_found: 0 }
    }

    pub fn try_from(v: Vec<u64>) -> (r: Result<ReadAheadCache, Error>)
        ensures
            r == ReadAheadCache::from_values(v@),
    {
        if v.len() != 12 {
            return Err(Error::Invalid("ReadAheadCache"));
        }
        Ok(ReadAheadCache { cache_size: v[0], cache_histogram: [v[1], v[2], v[3], v[4], v[5], v[6], v[7], v[8], v[9], v[10]], not_found: v[11] })
    }
}

/// The "rpc" line of the server.
#[derive(Debug, PartialEq, Eq)]
pub struct ServerRPC {
    pub rpc_count: u64,
    pub bad_cnt: u64,
    pub bad_fmt: u64,
    pub bad_auth: u64,
    pub badc_int: u64,
}

impl ServerRPC {
    /// The record that the 5 counts of the line give.
    pub open spec fn from_values(v: Seq<u64>) -> Result<ServerRPC, Error> {
        if v.len() != 5 {
            Err(Error::Malformed("server RPC values"))
        } else {
            Ok(ServerRPC { rpc_count: v[0], bad_cnt: v[1], bad_fmt: v[2], bad_auth: v[3], badc_int: v[4] })
        }
    }

    pub open spec fn zero() -> ServerRPC {
        ServerRPC { rpc_count: 0, bad_cnt: 0, bad_fmt: 0, bad_auth: 0, badc_int: 0 }
    }

    pub fn new() -> (r: ServerRPC)
        ensures
            r == ServerRPC::zero(),
    {
        ServerRPC { rpc_count: 0, bad_cnt: 0, bad_fmt: 0, bad_auth: 0, badc_int: 0 }
    }

    pub fn try_from(v: Vec<u64>) -> (r: Result<ServerRPC, Error>)
        ensures
            r == ServerRPC::from_values(v@),
    {
        if v.len() != 5 {
            return Err(Error::Malformed("server RPC values"));
        }
        Ok(ServerRPC { rpc_count: v[0], bad_cnt: v[1], bad_fmt: v[2], bad_auth: v[3], badc_int: v[4] })
    }
}

/// The "proc4" line of the server.
#[derive(Debug, PartialEq, Eq)]
pub struct ServerV4Stats {
    pub null: u64,
    pub compound: u64,
}

impl ServerV4Stats {
    /// The record that the counts give: the first is the number of counts
    /// after it, which must be 2.
    pub open spec fn from_values(v: Seq<u64>) -> Result<ServerV4Stats, Error> {
        let vs = v[0] as usize;
        if v.len() - 1 != vs as int || vs != 2 {
            Err(Error::Invalid("V4Stats"))
        } else {
            Ok(ServerV4Stats { null: v[1], compound: v[2] })
        }
    }

    pub open spec fn zero() -> ServerV4Stats {
        ServerV4Stats { null: 0, compound: 0 }
    }

    pub fn new() -> (r: ServerV4Stats)
        ensures
            r == ServerV4Stats::zero(),
    {
        ServerV4Stats { null: 0, compound: 0 }
    }

    pub fn try_from(v: Vec<u64>) -> (r: Result<ServerV4Stats, Error>)
        requires
            v@.len() >= 1,
        ensures
            r == ServerV4Stats::from_values(v@),
    {
        let vs = v[0] as usize;
        if v.len() - 1 != vs || vs != 2 {
            return Err(Error::Invalid("V4Stats"));
        }
        Ok(ServerV4Stats { null: v[1], compound: v[2] })
    }
}

/// The "proc4ops" line: NFSv4 operations. v4.0 has 38 operations (and the
/// reserved first ones), later versions more; the first 39 and
/// `RELEASE_LOCKOWNER` are kept.
#[derive(Debug, PartialEq, Eq)]
pub struct V4Ops {
    pub op0_unused: u64,
    pub op1_unused: u64,
    pub op2_future: u64,
    pub access: u64,
    pub close: u64,
    pub commit: u64,
    pub create: u64,
    pub deleg_purge: u64,
    pub deleg_return: u64,
    pub get_attr: u64,
    pub get_fh: u64,
    pub link: u64,
    pub lock: u64,
    pub lockt: u64,
    pub locku: u64,
    pub lookup: u64,
    pub lookup_root: u64,
    pub nverify: u64,
    pub open: u64,
    pub open_attr: u64,
    pub open_confirm: u64,
    pub open_dgrd: u64,
    pub put_fh: u64,
    pub put_pub_fh: u64,
    pub put_root_fh: u64,
    pub read: u64,
    pub readdir: u64,
    pub read_link: u64,
    pub remove: u64,
    pub rename: u64,
    pub renew: u64,
    pub restore_fh: u64,
    pub save_fh: u64,
    pub sec_info: u64,
    pub set_attr: u64,
    pub set_client_id: u64,
    pub set_client_id_confirm: u64,
    pub verify: u64,
    pub write: u64,
    pub rel_lock_owner: u64,
}

impl V4Ops {
    /// The record that the counts give: the first is the number of counts
    /// after it, at least 39.
    pub open spec fn from_values(v: Seq<u64>) -> Result<V4Ops, Error> {
        let vs = v[0] as usize;
        if v.len() - 1 != vs as int || vs < 39 {
            Err(Error::Invalid("V4Ops"))
        } else {
            Ok(V4Ops { op0_unused: v[1], op1_unused: v[2], op2_future: v[3], access: v[4], close: v[5], commit: v[6], create: v[7], deleg_purge: v[8], deleg_return: v[9], get_attr: v[10], get_fh: v[11], link: v[12], lock: v[13], lockt: v[14], locku: v[15], lookup: v[16], lookup_root: v[17], nverify: v[18], open: v[19], open_attr: v[20], open_confirm: v[21], open_dgrd: v[22], put_fh: v[23], put_pub_fh: v[24], put_root_fh: v[25], read: v[26], readdir: v[27], read_link: v[28], remove: v[29], rename: v[30], renew: v[31], restore_fh: v[32], save_fh: v[33], sec_info: v[34], set_attr: v[35], set_client_id: v[36], set_client_id_confirm: v[37], verify: v[38], write: v[39], rel_lock_owner: if v[0] > 39 { v[40] } else { 0 } })
        }
    }

    pub open spec fn zero() -> V4Ops {
        V4Ops { op0_unused: 0, op1_unused: 0, op2_future: 0, access: 0, close: 0, commit: 0, create: 0, deleg_purge: 0, deleg_return: 0, get_attr: 0, get_fh: 0, link: 0, lock: 0, lockt: 0, locku: 0, lookup: 0, lookup_root: 0, nverify: 0, open: 0, open_attr: 0, open_confirm: 0, open_dgrd: 0, put_fh: 0, put_pub_fh: 0, put_root_fh: 0, read: 0, readdir: 0, read_link: 0, remove: 0, rename: 0, renew: 0, restore_fh: 0, save_fh: 0, sec_info: 0, set_attr: 0, set_client_id: 0, set_client_id_confirm: 0, verify: 0, write: 0, rel_lock_owner: 0 }
    }

    pub fn new() -> (r: V4Ops)
        ensures
            r == V4Ops::zero(),
    {
        V4Ops { op0_unused: 0, op1_unused: 0, op2_future: 0, access: 0, close: 0, commit: 0, create: 0, deleg_purge: 0, deleg_return: 0, get_attr: 0, get_fh: 0, link: 0, lock: 0, lockt: 0, locku: 0, lookup: 0, lookup_root: 0, nverify: 0, open: 0, open_attr: 0, open_confirm: 0, open_dgrd: 0, put_fh: 0, put_pub_fh: 0, put_root_fh: 0, read: 0, readdir: 0, read_link: 0, remove: 0, rename: 0, renew: 0, restore_fh: 0, save_fh: 0, sec_info: 0, set_attr: 0, set_client_id: 0, set_client_id_confirm: 0, verify: 0, write: 0, rel_lock_owner: 0 }
    }

    /// Reading the counts `v` would index past their end: the first count
    /// claims more than 39 operations but, read as a `usize`, matches a
    /// shorter line (only where `usize` is narrower than 64 bits).
    pub open spec fn overruns(v: Seq<u64>) -> bool {
        let vs = v[0] as usize;
        v.len() - 1 == vs as int && vs >= 39 && v[0] > 39 && v.len() <= 40
    }

    pub fn try_from(v: Vec<u64>) -> (r: Result<V4Ops, Error>)
        requires
            v@.len() >= 1,
            !V4Ops::overruns(v@),
        ensures
            r == V4Ops::from_values(v@),
    {
        let vs = v[0] as usize;
        if v.len() - 1 != vs || vs < 39 {
            return Err(Error::Invalid("V4Ops"));
        }
        let rel_lock_owner = if v[0] > 39 {
            v[40]
        } else {
            0
        };
        Ok(V4Ops { op0_unused: v[1], op1_unused: v[2], op2_future: v[3], access: v[4], close: v[5], commit: v[6], create: v[7], deleg_purge: v[8], deleg_return: v[9], get_attr: v[10], get_fh: v[11], link: v[12], lock: v[13], lockt: v[14], locku: v[15], lookup: v[16], lookup_root: v[17], nverify: v[18], open: v[19], open_attr: v[20], open_confirm: v[21], open_dgrd: v[22], put_fh: v[23], put_pub_fh: v[24], put_root_fh: v[25], read: v[26], readdir: v[27], read_link: v[28], remove: v[29], rename: v[30], renew: v[31], restore_fh: v[32], save_fh: v[33], sec_info: v[34], set_attr: v[35], set_client_id: v[36], set_client_id_confirm: v[37], verify: v[38], write: v[39], rel_lock_owner })
    }
}

/// All statistics of /proc/net/rpc/nfsd.
#[derive(Debug, PartialEq, Eq)]
pub struct ServerRPCStats {
    pub reply_cache: ReplyCache,
    pub file_handles: FileHandles,
    pub input_output: InputOutput,
    pub threads: Threads,
    pub read_ahead_cache: ReadAheadCache,
    pub network: Network,
    pub server_rpc: ServerRPC,
    pub v2_stats: V2Stats,
    pub v3_stats: V3Stats,
    pub server_v4_stats: ServerV4Stats,
    pub v4_ops: V4Ops,
    pub wdeleg_getattr: u64,
}

/// `rc`
pub open spec fn label_rc() -> Seq<u8> {
    seq![0x72u8, 0x63u8]
}

/// `fh`
pub open spec fn label_fh() -> Seq<u8> {
    seq![0x66u8, 0x68u8]
}

/// `io`
pub open spec fn label_io() -> Seq<u8> {
    seq![0x69u8, 0x6fu8]
}

/// `th`
pub open spec fn label_th() -> Seq<u8> {
    seq![0x74u8, 0x68u8]
}

/// `ra`
pub open spec fn label_ra() -> Seq<u8> {
    seq![0x72u8, 0x61u8]
}

/// `proc4ops`
pub open spec fn label_proc4ops() -> Seq<u8> {
    seq![0x70u8, 0x72u8, 0x6fu8, 0x63u8, 0x34u8, 0x6fu8, 0x70u8, 0x73u8]
}

/// `wdeleg_getattr`
pub open spec fn label_wdeleg_getattr() -> Seq<u8> {
    seq![0x77u8, 0x64u8, 0x65u8, 0x6cu8, 0x65u8, 0x67u8, 0x5fu8, 0x67u8, 0x65u8, 0x74u8, 0x61u8, 0x74u8, 0x74u8, 0x72u8]
}

/// Replaces one record of `st` by what `r` gives, or passes the error on.
pub open spec fn set_record<T>(r: Result<T, Error>, st: ServerRPCStats, f: spec_fn(ServerRPCStats, T) -> ServerRPCStats) -> Result<ServerRPCStats, Error> {
    match r {
        Ok(x) => Ok(f(st, x)),
        Err(e) => Err(e),
    }
}

impl ServerRPCStats {
    pub open spec fn zero() -> ServerRPCStats {
        ServerRPCStats {
            reply_cache: ReplyCache::zero(),
            file_handles: FileHandles::zero(),
            input_output: InputOutput::zero(),
            threads: Threads::zero(),
            read_ahead_cache: ReadAheadCache::zero(),
            network: Network::zero(),
            server_rpc: ServerRPC::zero(),
            v2_stats: V2Stats::zero(),
            v3_stats: V3Stats::zero(),
            server_v4_stats: ServerV4Stats::zero(),
            v4_ops: V4Ops::zero(),
            wdeleg_getattr: 0,
        }
    }

    /// The counts of a line: for "th" only the first two, for the others
    /// all that follow the label.
    pub open spec fn line_counts(f: Seq<Seq<u8>>) -> Seq<u64> {
        if f[0] == label_th() {
            Seq::new(2, |i: int| value_or_zero(f[i + 1]))
        } else {
            line_values(f)
        }
    }

    /// Reading the line would index past the counts of a "proc4ops" line.
    pub open spec fn line_overruns(line: Seq<u8>) -> bool {
        let f = fields(line);
        f.len() >= 2 && f[0] == label_proc4ops() && V4Ops::overruns(line_values(f))
    }

    /// The statistics after reading one more line.
    #[verifier::opaque]
    pub open spec fn apply_line(st: ServerRPCStats, line: Seq<u8>) -> Result<ServerRPCStats, Error> {
        let f = fields(line);
        if f.len() < 2 {
            Err(Error::Invalid("NFSd metric line"))
        } else if f[0] == label_th() && f.len() < 3 {
            Err(Error::Invalid("NFSd th metric line"))
        } else {
            let v = ServerRPCStats::line_counts(f);
            let l = f[0];
            if l == label_rc() {
                set_record(ReplyCache::from_values(v), st, |s: ServerRPCStats, x: ReplyCache| ServerRPCStats { reply_cache: x, ..s })
            } else if l == label_fh() {
                set_record(FileHandles::from_values(v), st, |s: ServerRPCStats, x: FileHandles| ServerRPCStats { file_handles: x, ..s })
            } else if l == label_io() {
                set_record(InputOutput::from_values(v), st, |s: ServerRPCStats, x: InputOutput| ServerRPCStats { input_output: x, ..s })
            } else if l == label_th() {
                set_record(Threads::from_values(v), st, |s: ServerRPCStats, x: Threads| ServerRPCStats { threads: x, ..s })
            } else if l == label_ra() {
                set_record(ReadAheadCache::from_values(v), st, |s: ServerRPCStats, x: ReadAheadCache| ServerRPCStats { read_ahead_cache: x, ..s })
            } else if l == label_net() {
                set_record(Network::from_values(v), st, |s: ServerRPCStats, x: Network| ServerRPCStats { network: x, ..s })
            } else if l == label_rpc() {
                set_record(ServerRPC::from_values(v), st, |s: ServerRPCStats, x: ServerRPC| ServerRPCStats { server_rpc: x, ..s })
            } else if l == label_proc2() {
                set_record(V2Stats::from_values(v), st, |s: ServerRPCStats, x: V2Stats| ServerRPCStats { v2_stats: x, ..s })
            } else if l == label_proc3() {
                set_record(V3Stats::from_values(v), st, |s: ServerRPCStats, x: V3Stats| ServerRPCStats { v3_stats: x, ..s })
            } else if l == label_proc4() {
                set_record(ServerV4Stats::from_values(v), st, |s: ServerRPCStats, x: ServerV4Stats| ServerRPCStats { server_v4_stats: x, ..s })
            } else if l == label_proc4ops() {
                set_record(V4Ops::from_values(v), st, |s: ServerRPCStats, x: V4Ops| ServerRPCStats { v4_ops: x, ..s })
            } else if l == label_wdeleg_getattr() {
                Ok(ServerRPCStats { wdeleg_getattr: v[0], ..st })
            } else {
                Err(Error::Invalid("NFSd metric line"))
            }
        }
    }

    /// The statistics that the first `n` lines give.
    pub open spec fn from_lines(ls: Seq<Seq<u8>>, n: nat) -> Result<ServerRPCStats, Error>
        decreases n,
    {
        if n == 0 || n > ls.len() {
            Ok(ServerRPCStats::zero())
        } else {
            match ServerRPCStats::from_lines(ls, (n - 1) as nat) {
                Ok(st) => ServerRPCStats::apply_line(st, ls[n - 1]),
                Err(e) => Err(e),
            }
        }
    }
}

impl Default for ServerRPCStats {
    /// The statistics with every count 0.
    fn default() -> (r: ServerRPCStats)
        ensures
            r == ServerRPCStats::zero(),
    {
        ServerRPCStats {
            reply_cache: ReplyCache::new(),
            file_handles: FileHandles::new(),
            input_output: InputOutput::new(),
            threads: Threads::new(),
            read_ahead_cache: ReadAheadCache::new(),
            network: Network::new(),
            server_rpc: ServerRPC::new(),
            v2_stats: V2Stats::new(),
            v3_stats: V3Stats::new(),
            server_v4_stats: ServerV4Stats::new(),
            v4_ops: V4Ops::new(),
            wdeleg_getattr: 0,
        }
    }
}

/// Reads one more line of /proc/net/rpc/nfsd into `stats`.
pub fn apply_server_line(stats: ServerRPCStats, line: &[u8]) -> (r: Result<ServerRPCStats, Error>)
    requires
        !ServerRPCStats::line_overruns(line@),
    ensures
        r == ServerRPCStats::apply_line(stats, line@),
{
    reveal(ServerRPCStats::apply_line);
    let mut stats = stats;
    let parts = split_ascii_ws(line);
    let ghost f = fields(line@);
    proof {
        assert forall|k: int| 0 <= k < parts@.len() implies #[trigger] parts@[k]@ == f[k] by {
            assert(views(parts@)[k] == parts@[k]@);
        }
    }
    if parts.len() < 2 {
        return Err(Error::Invalid("NFSd metric line"));
    }
    let label = parts[0];
    proof {
        assert([0x74u8, 0x68u8]@ =~= label_th());
        assert([0x72u8, 0x63u8]@ =~= label_rc());
        assert([0x66u8, 0x68u8]@ =~= label_fh());
        assert([0x69u8, 0x6fu8]@ =~= label_io());
        assert([0x72u8, 0x61u8]@ =~= label_ra());
        assert([0x6eu8, 0x65u8, 0x74u8]@ =~= label_net());
        assert([0x72u8, 0x70u8, 0x63u8]@ =~= label_rpc());
        assert([0x70u8, 0x72u8, 0x6fu8, 0x63u8, 0x32u8]@ =~= label_proc2());
        assert([0x70u8, 0x72u8, 0x6fu8, 0x63u8, 0x33u8]@ =~= label_proc3());
        assert([0x70u8, 0x72u8, 0x6fu8, 0x63u8, 0x34u8]@ =~= label_proc4());
        assert([0x70u8, 0x72u8, 0x6fu8, 0x63u8, 0x34u8, 0x6fu8, 0x70u8, 0x73u8]@ =~= label_proc4ops());
        assert([0x77u8, 0x64u8, 0x65u8, 0x6cu8, 0x65u8, 0x67u8, 0x5fu8, 0x67u8, 0x65u8, 0x74u8, 0x61u8, 0x74u8, 0x74u8, 0x72u8]@ =~= label_wdeleg_getattr());
    }
    let is_th = is_word(label, &[0x74u8, 0x68u8]);
    if is_th && parts.len() < 3 {
        return Err(Error::Invalid("NFSd th metric line"));
    }
    let values = if is_th {
        read_values(&parts, 1, 3)
    } else {
        read_values(&parts, 1, parts.len())
    };
    proof {
        assert(values@ =~= ServerRPCStats::line_counts(f));
    }
    if is_word(label, &[0x72u8, 0x63u8]) {
        match ReplyCache::try_from(values) {
            Ok(x) => { stats.reply_cache = x; },
            Err(e) => return Err(e),
        }
    } else if is_word(label, &[0x66u8, 0x68u8]) {
        match FileHandles::try_from(values) {
            Ok(x) => { stats.file_handles = x; },
            Err(e) => return Err(e),
        }
    } else if is_word(label, &[0x69u8, 0x6fu8]) {
        match InputOutput::try_from(values) {
            Ok(x) => { stats.input_output = x; },
            Err(e) => return Err(e),
        }
    } else if is_th {
        match Threads::try_from(values) {
            Ok(x) => { stats.threads = x; },
            Err(e) => return Err(e),
        }
    } else if is_word(label, &[0x72u8, 0x61u8]) {
        match ReadAheadCache::try_from(values) {
            Ok(x) => { stats.read_ahead_cache = x; },
            Err(e) => return Err(e),
        }
    } else if is_word(label, &[0x6eu8, 0x65u8, 0x74u8]) {
        match Network::try_from(values) {
            Ok(x) => { stats.network = x; },
            Err(e) => return Err(e),
        }
    } else if is_word(label, &[0x72u8, 0x70u8, 0x63u8]) {
        match ServerRPC::try_from(values) {
            Ok(x) => { stats.server_rpc = x; },
            Err(e) => return Err(e),
        }
    } else if is_word(label, &[0x70u8, 0x72u8, 0x6fu8, 0x63u8, 0x32u8]) {
        match V2Stats::try_from(values) {
            Ok(x) => { stats.v2_stats = x; },
            Err(e) => return Err(e),
        }
    } else if is_word(label, &[0x70u8, 0x72u8, 0x6fu8, 0x63u8, 0x33u8]) {
        match V3Stats::try_from(values) {
            Ok(x) => { stats.v3_stats = x; },
            Err(e) => return Err(e),
        }
    } else if is_word(label, &[0x70u8, 0x72u8, 0x6fu8, 0x63u8, 0x34u8]) {
        match ServerV4Stats::try_from(values) {
            Ok(x) => { stats.server_v4_stats = x; },
            Err(e) => return Err(e),
        }
    } else if is_word(label, &[0x70u8, 0x72u8, 0x6fu8, 0x63u8, 0x34u8, 0x6fu8, 0x70u8, 0x73u8]) {
        match V4Ops::try_from(values) {
            Ok(x) => { stats.v4_ops = x; },
            Err(e) => return Err(e),
        }
    } else if is_word(label, &[0x77u8, 0x64u8, 0x65u8, 0x6cu8, 0x65u8, 0x67u8, 0x5fu8, 0x67u8, 0x65u8, 0x74u8, 0x61u8, 0x74u8, 0x74u8, 0x72u8]) {
        stats.wdeleg_getattr = values[0];
    } else {
        return Err(Error::Invalid("NFSd metric line"));
    }
    Ok(stats)
}

proof fn lemma_from_lines_err(ls: Seq<Seq<u8>>, i: nat, n: nat, e: Error)
    requires
        i <= n <= ls.len(),
        ServerRPCStats::from_lines(ls, i) == Err::<ServerRPCStats, Error>(e),
    ensures
        ServerRPCStats::from_lines(ls, n) == Err::<ServerRPCStats, Error>(e),
    decreases n - i,
{
    if i < n {
        lemma_from_lines_err(ls, i, (n - 1) as nat, e);
    }
}

/// Whether no "proc4ops" line of `data` would be read past its counts, as
/// `parse_server_rpc_stats` needs.
pub fn server_lines_ok(data: &str) -> (r: bool)
    ensures
        r == forall|i: int|
            0 <= i < lines(data.spec_bytes()).len() ==> !ServerRPCStats::line_overruns(
                #[trigger] lines(data.spec_bytes())[i],
            ),
{
    let all = split_lines(data.as_bytes());
    let ghost ls = lines(data.spec_bytes());
    let label: [u8; 8] = [0x70u8, 0x72u8, 0x6fu8, 0x63u8, 0x34u8, 0x6fu8, 0x70u8, 0x73u8];
    assert(label@ =~= label_proc4ops());
    let mut i: usize = 0;
    while i < all.len()
        invariant
            i <= all@.len(),
            views(all@) == ls,
            ls == lines(data.spec_bytes()),
            label@ == label_proc4ops(),
            forall|k: int| 0 <= k < i ==> !ServerRPCStats::line_overruns(#[trigger] ls[k]),
        decreases all@.len() - i,
    {
        let line = all[i];
        assert(line@ == ls[i as int]);
        let parts = split_ascii_ws(line);
        let ghost f = fields(line@);
        proof {
            assert forall|k: int| 0 <= k < parts@.len() implies #[trigger] parts@[k]@ == f[k] by {
                assert(views(parts@)[k] == parts@[k]@);
            }
        }
        if parts.len() >= 2 && is_word(parts[0], label.as_slice()) {
            let v = read_values(&parts, 1, parts.len());
            assert(v@ =~= line_values(f));
            let vs = #[verifier::truncate] (v[0] as usize);
            if v.len() - 1 == vs && vs >= 39 && v[0] > 39 && v.len() <= 40 {
                assert(ServerRPCStats::line_overruns(ls[i as int]));
                return false;
            }
        }
        i = i + 1;
    }
    true
}

/// Parses the content of /proc/net/rpc/nfsd. A count that is not a number
/// counts 0; a line with no count, a "th" line with fewer than two, a line
/// whose counts do not fit its record, or an unknown label is an error.
pub fn parse_server_rpc_stats(data: &str) -> (r: Result<ServerRPCStats, Error>)
    requires
        forall|i: int|
            0 <= i < lines(data.spec_bytes()).len() ==> !ServerRPCStats::line_overruns(
                #[trigger] lines(data.spec_bytes())[i],
            ),
    ensures
        r == ServerRPCStats::from_lines(lines(data.spec_bytes()), lines(data.spec_bytes()).len()),
{
    let all = split_lines(data.as_bytes());
    let ghost ls = lines(data.spec_bytes());
    let mut stats = ServerRPCStats::default();
    let mut i: usize = 0;
    while i < all.len()
        invariant
            i <= all@.len(),
            views(all@) == ls,
            ls == lines(data.spec_bytes()),
            forall|k: int| 0 <= k < ls.len() ==> !ServerRPCStats::line_overruns(#[trigger] ls[k]),
            ServerRPCStats::from_lines(ls, i as nat) == Ok::<ServerRPCStats, Error>(stats),
        decreases all@.len() - i,
    {
        let line = all[i];
        assert(line@ == ls[i as int]);
        match apply_server_line(stats, line) {
            Ok(next) => {
                stats = next;
            },
            Err(e) => {
                proof {
                    assert(ServerRPCStats::from_lines(ls, (i + 1) as nat) == Err::<ServerRPCStats, Error>(e));
                    lemma_from_lines_err(ls, (i + 1) as nat, ls.len(), e);
                }
                return Err(e);
            },
        }
        i = i + 1;
    }
    Ok(stats)
}

/// The name, description and kind of NFS server sample `k`.
pub open spec fn nfsd_metric(k: int) -> (&'static str, &'static str, Kind) {
    if k == 0 {
        ("node_nfsd_reply_cache_hits_total", "Total number of NFSd Reply Cache hits (client lost server response).", Kind::Sum)
    } else if k == 1 {
        ("node_nfsd_reply_cache_misses_total", "Total number of NFSd Reply Cache an operation that requires caching (idempotent).", Kind::Sum)
    } else if k == 2 {
        ("node_nfsd_reply_cache_nocache_total", "Total number of NFSd Reply Cache non-idempotent operations (rename/delete/…).", Kind::Sum)
    } else if k == 3 {
        ("node_nfsd_file_handles_stale_total", "Total number of NFSd stale file handles", Kind::Sum)
    } else if k == 4 {
        ("node_nfsd_disk_bytes_read_total", "Total NFSd bytes read.", Kind::Sum)
    } else if k == 5 {
        ("node_nfsd_disk_bytes_written_total", "Total NFSd bytes written.", Kind::Sum)
    } else if k == 6 {
        ("node_nfsd_server_threads", "Total number of NFSd kernel threads that are running.", Kind::Gauge)
    } else if k == 7 {
        ("node_nfsd_read_ahead_cache_size_blocks", "How large the read ahead cache is in blocks.", Kind::Gauge)
    } else if k == 8 {
        ("node_nfsd_read_ahead_cache_not_found_total", "Total number of NFSd read ahead cache not found.", Kind::Sum)
    } else if k == 9 {
        ("node_nfsd_packets_total", "Total NFSd network packets (sent+received) by protocol type.", Kind::Sum)
    } else if k == 10 {
        ("node_nfsd_packets_total", "Total NFSd network packets (sent+received) by protocol type.", Kind::Sum)
    } else if k == 11 {
        ("node_nfsd_connections_total", "Total number of NFSd TCP connections.", Kind::Sum)
    } else if k == 12 {
        ("node_nfsd_rpc_errors_total", "Total number of NFSd RPC errors by error type.", Kind::Sum)
    } else if k == 13 {
        ("node_nfsd_rpc_errors_total", "Total number of NFSd RPC errors by error type.", Kind::Sum)
    } else if k == 14 {
        ("node_nfsd_rpc_errors_total", "Total number of NFSd RPC errors by error type.", Kind::Sum)
    } else if k == 15 {
        ("node_nfsd_server_rpcs_total", "Total number of NFSd RPCs.", Kind::Sum)
    } else if k == 16 {
        ("node_nfsd_requests_total", "Total number NFSd Requests by method and protocol", Kind::Sum)
    } else if k == 17 {
        ("node_nfsd_requests_total", "Total number NFSd Requests by method and protocol", Kind::Sum)
    } else if k == 18 {
        ("node_nfsd_requests_total", "Total number NFSd Requests by method and protocol", Kind::Sum)
    } else if k == 19 {
        ("node_nfsd_requests_total", "Total number NFSd Requests by method and protocol", Kind::Sum)
    } else if k == 20 {
        ("node_nfsd_requests_total", "Total number NFSd Requests by method and protocol", Kind::Sum)
    } else if k == 21 {
        ("node_nfsd_requests_total", "Total number NFSd Requests by method and protocol", Kind::Sum)
    } else if k == 22 {
        ("node_nfsd_requests_total", "Total number NFSd Requests by method and protocol", Kind::Sum)
    } else if k == 23 {
        ("node_nfsd_requests_total", "Total number NFSd Requests by method and protocol", Kind::Sum)
    } else if k == 24 {
        ("node_nfsd_requests_total", "Total number NFSd Requests by method and protocol", Kind::Sum)
    } else if k == 25 {
        ("node_nfsd_requests_total", "Total number NFSd Requests by method and protocol", Kind::Sum)
    } else if k == 26 {
        ("node_nfsd_requests_total", "Total number NFSd Requests by method and protocol", Kind::Sum)
    } else if k == 27 {
        ("node_nfsd_requests_total", "Total number NFSd Requests by method and protocol", Kind::Sum)
    } else if k == 28 {
        ("node_nfsd_requests_total", "Total number NFSd Requests by method and protocol", Kind::Sum)
    } else if k == 29 {
        ("node_nfsd_requests_total", "Total number NFSd Requests by method and protocol", Kind::Sum)
    } else if k == 30 {
        ("node_nfsd_requests_total", "Total number NFSd Requests by method and protocol", Kind::Sum)
    } else if k == 31 {
        ("node_nfsd_requests_total", "Total number NFSd Requests by method and protocol", Kind::Sum)
    } else if k == 32 {
        ("node_nfsd_requests_total", "Total number NFSd Requests by method and protocol", Kind::Sum)
    } else if k == 33 {
        ("node_nfsd_requests_total", "Total number NFSd Requests by method and protocol", Kind::Sum)
    } else if k == 34 {
        ("node_nfsd_requests_total", "Total number NFSd Requests by method and protocol", Kind::Sum)
    } else if k == 35 {
        ("node_nfsd_requests_total", "Total number NFSd Requests by method and protocol", Kind::Sum)
    } else if k == 36 {
        ("node_nfsd_requests_total", "Total number NFSd Requests by method and protocol", Kind::Sum)
    } else if k == 37 {
        ("node_nfsd_requests_total", "Total number NFSd Requests by method and protocol", Kind::Sum)
    } else if k == 38 {
        ("node_nfsd_requests_total", "Total number NFSd Requests by method and protocol", Kind::Sum)
    } else if k == 39 {
        ("node_nfsd_requests_total", "Total number NFSd Requests by method and protocol", Kind::Sum)
    } else if k == 40 {
        ("node_nfsd_requests_total", "Total number NFSd Requests by method and protocol", Kind::Sum)
    } else if k == 41 {
        ("node_nfsd_requests_total", "Total number NFSd Requests by method and protocol", Kind::Sum)
    } else if k == 42 {
        ("node_nfsd_requests_total", "Total number NFSd Requests by method and protocol", Kind::Sum)
    } else if k == 43 {
        ("node_nfsd_requests_total", "Total number NFSd Requests by method and protocol", Kind::Sum)
    } else if k == 44 {
        ("node_nfsd_requests_total", "Total number NFSd Requests by method and protocol", Kind::Sum)
    } else if k == 45 {
        ("node_nfsd_requests_total", "Total number NFSd Requests by method and protocol", Kind::Sum)
    } else if k == 46 {
        ("node_nfsd_requests_total", "Total number NFSd Requests by method and protocol", Kind::Sum)
    } else if k == 47 {
        ("node_nfsd_requests_total", "Total number NFSd Requests by method and protocol", Kind::Sum)
    } else if k == 48 {
        ("node_nfsd_requests_total", "Total number NFSd Requests by method and protocol", Kind::Sum)
    } else if k == 49 {
        ("node_nfsd_requests_total", "Total number NFSd Requests by method and protocol", Kind::Sum)
    } else if k == 50 {
        ("node_nfsd_requests_total", "Total number NFSd Requests by method and protocol", Kind::Sum)
    } else if k == 51 {
        ("node_nfsd_requests_total", "Total number NFSd Requests by method and protocol", Kind::Sum)
    } else if k == 52 {
        ("node_nfsd_requests_total", "Total number NFSd Requests by method and protocol", Kind::Sum)
    } else if k == 53 {
        ("node_nfsd_requests_total", "Total number NFSd Requests by method and protocol", Kind::Sum)
    } else if k == 54 {
        ("node_nfsd_requests_total", "Total number NFSd Requests by method and protocol", Kind::Sum)
    } else if k == 55 {
        ("node_nfsd_requests_total", "Total number NFSd Requests by method and protocol", Kind::Sum)
    } else if k == 56 {
        ("node_nfsd_requests_total", "Total number NFSd Requests by method and protocol", Kind::Sum)
    } else if k == 57 {
        ("node_nfsd_requests_total", "Total number NFSd Requests by method and protocol", Kind::Sum)
    } else if k == 58 {
        ("node_nfsd_requests_total", "Total number NFSd Requests by method and protocol", Kind::Sum)
    } else if k == 59 {
        ("node_nfsd_requests_total", "Total number NFSd Requests by method and protocol", Kind::Sum)
    } else if k == 60 {
        ("node_nfsd_requests_total", "Total number NFSd Requests by method and protocol", Kind::Sum)
    } else if k == 61 {
        ("node_nfsd_requests_total", "Total number NFSd Requests by method and protocol", Kind::Sum)
    } else if k == 62 {
        ("node_nfsd_requests_total", "Total number NFSd Requests by method and protocol", Kind::Sum)
    } else if k == 63 {
        ("node_nfsd_requests_total", "Total number NFSd Requests by method and protocol", Kind::Sum)
    } else if k == 64 {
        ("node_nfsd_requests_total", "Total number NFSd Requests by method and protocol", Kind::Sum)
    } else if k == 65 {
        ("node_nfsd_requests_total", "Total number NFSd Requests by method and protocol", Kind::Sum)
    } else if k == 66 {
        ("node_nfsd_requests_total", "Total number NFSd Requests by method and protocol", Kind::Sum)
    } else if k == 67 {
        ("node_nfsd_requests_total", "Total number NFSd Requests by method and protocol", Kind::Sum)
    } else if k == 68 {
        ("node_nfsd_requests_total", "Total number NFSd Requests by method and protocol", Kind::Sum)
    } else if k == 69 {
        ("node_nfsd_requests_total", "Total number NFSd Requests by method and protocol", Kind::Sum)
    } else if k == 70 {
        ("node_nfsd_requests_total", "Total number NFSd Requests by method and protocol", Kind::Sum)
    } else if k == 71 {
        ("node_nfsd_requests_total", "Total number NFSd Requests by method and protocol", Kind::Sum)
    } else if k == 72 {
        ("node_nfsd_requests_total", "Total number NFSd Requests by method and protocol", Kind::Sum)
    } else if k == 73 {
        ("node_nfsd_requests_total", "Total number NFSd Requests by method and protocol", Kind::Sum)
    } else if k == 74 {
        ("node_nfsd_requests_total", "Total number NFSd Requests by method and protocol", Kind::Sum)
    } else if k == 75 {
        ("node_nfsd_requests_total", "Total number NFSd Requests by method and protocol", Kind::Sum)
    } else if k == 76 {
        ("node_nfsd_requests_total", "Total number NFSd Requests by method and protocol", Kind::Sum)
    } else if k == 77 {
        ("node_nfsd_requests_total", "Total number NFSd Requests by method and protocol", Kind::Sum)
    } else if k == 78 {
        ("node_nfsd_requests_total", "Total number NFSd Requests by method and protocol", Kind::Sum)
    } else if k == 79 {
        ("node_nfsd_requests_total", "Total number NFSd Requests by method and protocol", Kind::Sum)
    } else if k == 80 {
        ("node_nfsd_requests_total", "Total number NFSd Requests by method and protocol", Kind::Sum)
    } else if k == 81 {
        ("node_nfsd_requests_total", "Total number NFSd Requests by method and protocol", Kind::Sum)
    } else if k == 82 {
        ("node_nfsd_requests_total", "Total number NFSd Requests by method and protocol", Kind::Sum)
    } else if k == 83 {
        ("node_nfsd_requests_total", "Total number NFSd Requests by method and protocol", Kind::Sum)
    } else if k == 84 {
        ("node_nfsd_requests_total", "Total number NFSd Requests by method and protocol", Kind::Sum)
    } else if k == 85 {
        ("node_nfsd_requests_total", "Total number NFSd Requests by method and protocol", Kind::Sum)
    } else if k == 86 {
        ("node_nfsd_requests_total", "Total number NFSd Requests by method and protocol", Kind::Sum)
    } else if k == 87 {
        ("node_nfsd_requests_total", "Total number NFSd Requests by method and protocol", Kind::Sum)
    } else if k == 88 {
        ("node_nfsd_requests_total", "Total number NFSd Requests by method and protocol", Kind::Sum)
    } else {
        ("node_nfsd_requests_total", "Total number NFSd Requests by method and protocol", Kind::Sum)
    }
}

/// The labels of NFS server sample `k`.
pub open spec fn nfsd_tags(k: int) -> Seq<(&'static str, TagModel)> {
    if k == 0 {
        Seq::empty()
    } else if k == 1 {
        Seq::empty()
    } else if k == 2 {
        Seq::empty()
    } else if k == 3 {
        Seq::empty()
    } else if k == 4 {
        Seq::empty()
    } else if k == 5 {
        Seq::empty()
    } else if k == 6 {
        Seq::empty()
    } else if k == 7 {
        Seq::empty()
    } else if k == 8 {
        Seq::empty()
    } else if k == 9 {
        seq![("proto", TagModel::Text("udp"))]
    } else if k == 10 {
        seq![("proto", TagModel::Text("tcp"))]
    } else if k == 11 {
        Seq::empty()
    } else if k == 12 {
        seq![("error", TagModel::Text("fmt"))]
    } else if k == 13 {
        seq![("error", TagModel::Text("auth"))]
    } else if k == 14 {
        seq![("error", TagModel::Text("cInt"))]
    } else if k == 15 {
        Seq::empty()
    } else if k == 16 {
        seq![("proto", TagModel::Text("2")), ("method", TagModel::Text("GetAttr"))]
    } else if k == 17 {
        seq![("proto", TagModel::Text("2")), ("method", TagModel::Text("SetAttr"))]
    } else if k == 18 {
        seq![("proto", TagModel::Text("2")), ("method", TagModel::Text("Root"))]
    } else if k == 19 {
        seq![("proto", TagModel::Text("2")), ("method", TagModel::Text("Lookup"))]
    } else if k == 20 {
        seq![("proto", TagModel::Text("2")), ("method", TagModel::Text("ReadLink"))]
    } else if k == 21 {
        seq![("proto", TagModel::Text("2")), ("method", TagModel::Text("Read"))]
    } else if k == 22 {
        seq![("proto", TagModel::Text("2")), ("method", TagModel::Text("WrCache"))]
    } else if k == 23 {
        seq![("proto", TagModel::Text("2")), ("method", TagModel::Text("Write"))]
    } else if k == 24 {
        seq![("proto", TagModel::Text("2")), ("method", TagModel::Text("Create"))]
    } else if k == 25 {
        seq![("proto", TagModel::Text("2")), ("method", TagModel::Text("Remove"))]
    } else if k == 26 {
        seq![("proto", TagModel::Text("2")), ("method", TagModel::Text("Rename"))]
    } else if k == 27 {
        seq![("proto", TagModel::Text("2")), ("method", TagModel::Text("Link"))]
    } else if k == 28 {
        seq![("proto", TagModel::Text("2")), ("method", TagModel::Text("SymLink"))]
    } else if k == 29 {
        seq![("proto", TagModel::Text("2")), ("method", TagModel::Text("MkDir"))]
    } else if k == 30 {
        seq![("proto", TagModel::Text("2")), ("method", TagModel::Text("RmDir"))]
    } else if k == 31 {
        seq![("proto", TagModel::Text("2")), ("method", TagModel::Text("ReadDir"))]
    } else if k == 32 {
        seq![("proto", TagModel::Text("2")), ("method", TagModel::Text("FsStat"))]
    } else if k == 33 {
        seq![("proto", TagModel::Text("3")), ("method", TagModel::Text("GetAttr"))]
    } else if k == 34 {
        seq![("proto", TagModel::Text("3")), ("method", TagModel::Text("SetAttr"))]
    } else if k == 35 {
        seq![("proto", TagModel::Text("3")), ("method", TagModel::Text("Lookup"))]
    } else if k == 36 {
        seq![("proto", TagModel::Text("3")), ("method", TagModel::Text("Access"))]
    } else if k == 37 {
        seq![("proto", TagModel::Text("3")), ("method", TagModel::Text("ReadLink"))]
    } else if k == 38 {
        seq![("proto", TagModel::Text("3")), ("method", TagModel::Text("Read"))]
    } else if k == 39 {
        seq![("proto", TagModel::Text("3")), ("method", TagModel::Text("Write"))]
    } else if k == 40 {
        seq![("proto", TagModel::Text("3")), ("method", TagModel::Text("Create"))]
    } else if k == 41 {
        seq![("proto", TagModel::Text("3")), ("method", TagModel::Text("MkDir"))]
    } else if k == 42 {
        seq![("proto", TagModel::Text("3")), ("method", TagModel::Text("SymLink"))]
    } else if k == 43 {
        seq![("proto", TagModel::Text("3")), ("method", TagModel::Text("MkNod"))]
    } else if k == 44 {
        seq![("proto", TagModel::Text("3")), ("method", TagModel::Text("Remove"))]
    } else if k == 45 {
        seq![("proto", TagModel::Text("3")), ("method", TagModel::Text("RmDir"))]
    } else if k == 46 {
        seq![("proto", TagModel::Text("3")), ("method", TagModel::Text("Rename"))]
    } else if k == 47 {
        seq![("proto", TagModel::Text("3")), ("method", TagModel::Text("Link"))]
    } else if k == 48 {
        seq![("proto", TagModel::Text("3")), ("method", TagModel::Text("ReadDir"))]
    } else if k == 49 {
        seq![("proto", TagModel::Text("3")), ("method", TagModel::Text("ReadDirPlus"))]
    } else if k == 50 {
        seq![("proto", TagModel::Text("3")), ("method", TagModel::Text("FsStat"))]
    } else if k == 51 {
        seq![("proto", TagModel::Text("3")), ("method", TagModel::Text("FsInfo"))]
    } else if k == 52 {
        seq![("proto", TagModel::Text("3")), ("method", TagModel::Text("PathConf"))]
    } else if k == 53 {
        seq![("proto", TagModel::Text("3")), ("method", TagModel::Text("Commit"))]
    } else if k == 54 {
        seq![("proto", TagModel::Text("4")), ("method", TagModel::Text("Access"))]
    } else if k == 55 {
        seq![("proto", TagModel::Text("4")), ("method", TagModel::Text("Close"))]
    } else if k == 56 {
        seq![("proto", TagModel::Text("4")), ("method", TagModel::Text("Commit"))]
    } else if k == 57 {
        seq![("proto", TagModel::Text("4")), ("method", TagModel::Text("Create"))]
    } else if k == 58 {
        seq![("proto", TagModel::Text("4")), ("method", TagModel::Text("DelegPurge"))]
    } else if k == 59 {
        seq![("proto", TagModel::Text("4")), ("method", TagModel::Text("DelegReturn"))]
    } else if k == 60 {
        seq![("proto", TagModel::Text("4")), ("method", TagModel::Text("GetAttr"))]
    } else if k == 61 {
        seq![("proto", TagModel::Text("4")), ("method", TagModel::Text("GetFH"))]
    } else if k == 62 {
        seq![("proto", TagModel::Text("4")), ("method", TagModel::Text("Link"))]
    } else if k == 63 {
        seq![("proto", TagModel::Text("4")), ("method", TagModel::Text("Lock"))]
    } else if k == 64 {
        seq![("proto", TagModel::Text("4")), ("method", TagModel::Text("Lockt"))]
    } else if k == 65 {
        seq![("proto", TagModel::Text("4")), ("method", TagModel::Text("Locku"))]
    } else if k == 66 {
        seq![("proto", TagModel::Text("4")), ("method", TagModel::Text("Lookup"))]
    } else if k == 67 {
        seq![("proto", TagModel::Text("4")), ("method", TagModel::Text("LookupRoot"))]
    } else if k == 68 {
        seq![("proto", TagModel::Text("4")), ("method", TagModel::Text("Nverify"))]
    } else if k == 69 {
        seq![("proto", TagModel::Text("4")), ("method", TagModel::Text("Open"))]
    } else if k == 70 {
        seq![("proto", TagModel::Text("4")), ("method", TagModel::Text("OpenAttr"))]
    } else if k == 71 {
        seq![("proto", TagModel::Text("4")), ("method", TagModel::Text("OpenConfirm"))]
    } else if k == 72 {
        seq![("proto", TagModel::Text("4")), ("method", TagModel::Text("OpenDgrd"))]
    } else if k == 73 {
        seq![("proto", TagModel::Text("4")), ("method", TagModel::Text("PutFH"))]
    } else if k == 74 {
        seq![("proto", TagModel::Text("4")), ("method", TagModel::Text("Read"))]
    } else if k == 75 {
        seq![("proto", TagModel::Text("4")), ("method", TagModel::Text("ReadDir"))]
    } else if k == 76 {
        seq![("proto", TagModel::Text("4")), ("method", TagModel::Text("ReadLink"))]
    } else if k == 77 {
        seq![("proto", TagModel::Text("4")), ("method", TagModel::Text("Remove"))]
    } else if k == 78 {
        seq![("proto", TagModel::Text("4")), ("method", TagModel::Text("Rename"))]
    } else if k == 79 {
        seq![("proto", TagModel::Text("4")), ("method", TagModel::Text("Renew"))]
    } else if k == 80 {
        seq![("proto", TagModel::Text("4")), ("method", TagModel::Text("RestoreFH"))]
    } else if k == 81 {
        seq![("proto", TagModel::Text("4")), ("method", TagModel::Text("SaveFH"))]
    } else if k == 82 {
        seq![("proto", TagModel::Text("4")), ("method", TagModel::Text("SecInfo"))]
    } else if k == 83 {
        seq![("proto", TagModel::Text("4")), ("method", TagModel::Text("SetAttr"))]
    } else if k == 84 {
        seq![("proto", TagModel::Text("4")), ("method", TagModel::Text("SetClientID"))]
    } else if k == 85 {
        seq![("proto", TagModel::Text("4")), ("method", TagModel::Text("SetClientIDConfirm"))]
    } else if k == 86 {
        seq![("proto", TagModel::Text("4")), ("method", TagModel::Text("Verify"))]
    } else if k == 87 {
        seq![("proto", TagModel::Text("4")), ("method", TagModel::Text("Write"))]
    } else if k == 88 {
        seq![("proto", TagModel::Text("4")), ("method", TagModel::Text("RelLockOwner"))]
    } else {
        seq![("proto", TagModel::Text("4")), ("method", TagModel::Text("WdelegGetattr"))]
    }
}

/// The value that NFS server sample `k` reports.
pub open spec fn nfsd_value(st: ServerRPCStats, k: int) -> int {
    if k == 0 {
        st.reply_cache.hits as int
    } else if k == 1 {
        st.reply_cache.misses as int
    } else if k == 2 {
        st.reply_cache.no_cache as int
    } else if k == 3 {
        st.file_handles.stale as int
    } else if k == 4 {
        st.input_output.read as int
    } else if k == 5 {
        st.input_output.write as int
    } else if k == 6 {
        st.threads.threads as int
    } else if k == 7 {
        st.read_ahead_cache.cache_size as int
    } else if k == 8 {
        st.read_ahead_cache.not_found as int
    } else if k == 9 {
        st.network.udp_count as int
    } else if k == 10 {
        st.network.tcp_count as int
    } else if k == 11 {
        st.network.tcp_connect as int
    } else if k == 12 {
        st.server_rpc.bad_fmt as int
    } else if k == 13 {
        st.server_rpc.bad_auth as int
    } else if k == 14 {
        st.server_rpc.badc_int as int
    } else if k == 15 {
        st.server_rpc.rpc_count as int
    } else if k == 16 {
        st.v2_stats.get_attr as int
    } else if k == 17 {
        st.v2_stats.set_attr as int
    } else if k == 18 {
        st.v2_stats.root as int
    } else if k == 19 {
        st.v2_stats.lookup as int
    } else if k == 20 {
        st.v2_stats.read_link as int
    } else if k == 21 {
        st.v2_stats.read as int
    } else if k == 22 {
        st.v2_stats.wr_cache as int
    } else if k == 23 {
        st.v2_stats.write as int
    } else if k == 24 {
        st.v2_stats.create as int
    } else if k == 25 {
        st.v2_stats.remove as int
    } else if k == 26 {
        st.v2_stats.rename as int
    } else if k == 27 {
        st.v2_stats.link as int
    } else if k == 28 {
        st.v2_stats.sym_link as int
    } else if k == 29 {
        st.v2_stats.mkdir as int
    } else if k == 30 {
        st.v2_stats.rmdir as int
    } else if k == 31 {
        st.v2_stats.read_dir as int
    } else if k == 32 {
        st.v2_stats.fs_stat as int
    } else if k == 33 {
        st.v3_stats.get_attr as int
    } else if k == 34 {
        st.v3_stats.set_attr as int
    } else if k == 35 {
        st.v3_stats.lookup as int
    } else if k == 36 {
        st.v3_stats.access as int
    } else if k == 37 {
        st.v3_stats.read_link as int
    } else if k == 38 {
        st.v3_stats.read as int
    } else if k == 39 {
        st.v3_stats.write as int
    } else if k == 40 {
        st.v3_stats.create as int
    } else if k == 41 {
        st.v3_stats.mkdir as int
    } else if k == 42 {
        st.v3_stats.sym_link as int
    } else if k == 43 {
        st.v3_stats.mknod as int
    } else if k == 44 {
        st.v3_stats.remove as int
    } else if k == 45 {
        st.v3_stats.rmdir as int
    } else if k == 46 {
        st.v3_stats.rename as int
    } else if k == 47 {
        st.v3_stats.link as int
    } else if k == 48 {
        st.v3_stats.read_dir as int
    } else if k == 49 {
        st.v3_stats.read_dir_plus as int
    } else if k == 50 {
        st.v3_stats.fs_stat as int
    } else if k == 51 {
        st.v3_stats.fs_info as int
    } else if k == 52 {
        st.v3_stats.path_conf as int
    } else if k == 53 {
        st.v3_stats.commit as int
    } else if k == 54 {
        st.v4_ops.access as int
    } else if k == 55 {
        st.v4_ops.close as int
    } else if k == 56 {
        st.v4_ops.commit as int
    } else if k == 57 {
        st.v4_ops.create as int
    } else if k == 58 {
        st.v4_ops.deleg_purge as int
    } else if k == 59 {
        st.v4_ops.deleg_return as int
    } else if k == 60 {
        st.v4_ops.get_attr as int
    } else if k == 61 {
        st.v4_ops.get_fh as int
    } else if k == 62 {
        st.v4_ops.link as int
    } else if k == 63 {
        st.v4_ops.lock as int
    } else if k == 64 {
        st.v4_ops.lockt as int
    } else if k == 65 {
        st.v4_ops.locku as int
    } else if k == 66 {
        st.v4_ops.lookup as int
    } else if k == 67 {
        st.v4_ops.lookup_root as int
    } else if k == 68 {
        st.v4_ops.nverify as int
    } else if k == 69 {
        st.v4_ops.open as int
    } else if k == 70 {
        st.v4_ops.open_attr as int
    } else if k == 71 {
        st.v4_ops.open_confirm as int
    } else if k == 72 {
        st.v4_ops.open_dgrd as int
    } else if k == 73 {
        st.v4_ops.put_fh as int
    } else if k == 74 {
        st.v4_ops.read as int
    } else if k == 75 {
        st.v4_ops.readdir as int
    } else if k == 76 {
        st.v4_ops.read_link as int
    } else if k == 77 {
        st.v4_ops.remove as int
    } else if k == 78 {
        st.v4_ops.rename as int
    } else if k == 79 {
        st.v4_ops.renew as int
    } else if k == 80 {
        st.v4_ops.restore_fh as int
    } else if k == 81 {
        st.v4_ops.save_fh as int
    } else if k == 82 {
        st.v4_ops.sec_info as int
    } else if k == 83 {
        st.v4_ops.set_attr as int
    } else if k == 84 {
        st.v4_ops.set_client_id as int
    } else if k == 85 {
        st.v4_ops.set_client_id_confirm as int
    } else if k == 86 {
        st.v4_ops.verify as int
    } else if k == 87 {
        st.v4_ops.write as int
    } else if k == 88 {
        st.v4_ops.rel_lock_owner as int
    } else {
        st.wdeleg_getattr as int
    }
}

fn nfsd_metric_exec(k: usize) -> (r: (&'static str, &'static str, Kind))
    requires
        k < 90,
    ensures
        r == nfsd_metric(k as int),
{
    if k == 0 {
        ("node_nfsd_reply_cache_hits_total", "Total number of NFSd Reply Cache hits (client lost server response).", Kind::Sum)
    } else if k == 1 {
        ("node_nfsd_reply_cache_misses_total", "Total number of NFSd Reply Cache an operation that requires caching (idempotent).", Kind::Sum)
    } else if k == 2 {
        ("node_nfsd_reply_cache_nocache_total", "Total number of NFSd Reply Cache non-idempotent operations (rename/delete/…).", Kind::Sum)
    } else if k == 3 {
        ("node_nfsd_file_handles_stale_total", "Total number of NFSd stale file handles", Kind::Sum)
    } else if k == 4 {
        ("node_nfsd_disk_bytes_read_total", "Total NFSd bytes read.", Kind::Sum)
    } else if k == 5 {
        ("node_nfsd_disk_bytes_written_total", "Total NFSd bytes written.", Kind::Sum)
    } else if k == 6 {
        ("node_nfsd_server_threads", "Total number of NFSd kernel threads that are running.", Kind::Gauge)
    } else if k == 7 {
        ("node_nfsd_read_ahead_cache_size_blocks", "How large the read ahead cache is in blocks.", Kind::Gauge)
    } else if k == 8 {
        ("node_nfsd_read_ahead_cache_not_found_total", "Total number of NFSd read ahead cache not found.", Kind::Sum)
    } else if k == 9 {
        ("node_nfsd_packets_total", "Total NFSd network packets (sent+received) by protocol type.", Kind::Sum)
    } else if k == 10 {
        ("node_nfsd_packets_total", "Total NFSd network packets (sent+received) by protocol type.", Kind::Sum)
    } else if k == 11 {
        ("node_nfsd_connections_total", "Total number of NFSd TCP connections.", Kind::Sum)
    } else if k == 12 {
        ("node_nfsd_rpc_errors_total", "Total number of NFSd RPC errors by error type.", Kind::Sum)
    } else if k == 13 {
        ("node_nfsd_rpc_errors_total", "Total number of NFSd RPC errors by error type.", Kind::Sum)
    } else if k == 14 {
        ("node_nfsd_rpc_errors_total", "Total number of NFSd RPC errors by error type.", Kind::Sum)
    } else if k == 15 {
        ("node_nfsd_server_rpcs_total", "Total number of NFSd RPCs.", Kind::Sum)
    } else if k == 16 {
        ("node_nfsd_requests_total", "Total number NFSd Requests by method and protocol", Kind::Sum)
    } else if k == 17 {
        ("node_nfsd_requests_total", "Total number NFSd Requests by method and protocol", Kind::Sum)
    } else if k == 18 {
        ("node_nfsd_requests_total", "Total number NFSd Requests by method and protocol", Kind::Sum)
    } else if k == 19 {
        ("node_nfsd_requests_total", "Total number NFSd Requests by method and protocol", Kind::Sum)
    } else if k == 20 {
        ("node_nfsd_requests_total", "Total number NFSd Requests by method and protocol", Kind::Sum)
    } else if k == 21 {
        ("node_nfsd_requests_total", "Total number NFSd Requests by method and protocol", Kind::Sum)
    } else if k == 22 {
        ("node_nfsd_requests_total", "Total number NFSd Requests by method and protocol", Kind::Sum)
    } else if k == 23 {
        ("node_nfsd_requests_total", "Total number NFSd Requests by method and protocol", Kind::Sum)
    } else if k == 24 {
        ("node_nfsd_requests_total", "Total number NFSd Requests by method and protocol", Kind::Sum)
    } else if k == 25 {
        ("node_nfsd_requests_total", "Total number NFSd Requests by method and protocol", Kind::Sum)
    } else if k == 26 {
        ("node_nfsd_requests_total", "Total number NFSd Requests by method and protocol", Kind::Sum)
    } else if k == 27 {
        ("node_nfsd_requests_total", "Total number NFSd Requests by method and protocol", Kind::Sum)
    } else if k == 28 {
        ("node_nfsd_requests_total", "Total number NFSd Requests by method and protocol", Kind::Sum)
    } else if k == 29 {
        ("node_nfsd_requests_total", "Total number NFSd Requests by method and protocol", Kind::Sum)
    } else if k == 30 {
        ("node_nfsd_requests_total", "Total number NFSd Requests by method and protocol", Kind::Sum)
    } else if k == 31 {
        ("node_nfsd_requests_total", "Total number NFSd Requests by method and protocol", Kind::Sum)
    } else if k == 32 {
        ("node_nfsd_requests_total", "Total number NFSd Requests by method and protocol", Kind::Sum)
    } else if k == 33 {
        ("node_nfsd_requests_total", "Total number NFSd Requests by method and protocol", Kind::Sum)
    } else if k == 34 {
        ("node_nfsd_requests_total", "Total number NFSd Requests by method and protocol", Kind::Sum)
    } else if k == 35 {
        ("node_nfsd_requests_total", "Total number NFSd Requests by method and protocol", Kind::Sum)
    } else if k == 36 {
        ("node_nfsd_requests_total", "Total number NFSd Requests by method and protocol", Kind::Sum)
    } else if k == 37 {
        ("node_nfsd_requests_total", "Total number NFSd Requests by method and protocol", Kind::Sum)
    } else if k == 38 {
        ("node_nfsd_requests_total", "Total number NFSd Requests by method and protocol", Kind::Sum)
    } else if k == 39 {
        ("node_nfsd_requests_total", "Total number NFSd Requests by method and protocol", Kind::Sum)
    } else if k == 40 {
        ("node_nfsd_requests_total", "Total number NFSd Requests by method and protocol", Kind::Sum)
    } else if k == 41 {
        ("node_nfsd_requests_total", "Total number NFSd Requests by method and protocol", Kind::Sum)
    } else if k == 42 {
        ("node_nfsd_requests_total", "Total number NFSd Requests by method and protocol", Kind::Sum)
    } else if k == 43 {
        ("node_nfsd_requests_total", "Total number NFSd Requests by method and protocol", Kind::Sum)
    } else if k == 44 {
        ("node_nfsd_requests_total", "Total number NFSd Requests by method and protocol", Kind::Sum)
    } else if k == 45 {
        ("node_nfsd_requests_total", "Total number NFSd Requests by method and protocol", Kind::Sum)
    } else if k == 46 {
        ("node_nfsd_requests_total", "Total number NFSd Requests by method and protocol", Kind::Sum)
    } else if k == 47 {
        ("node_nfsd_requests_total", "Total number NFSd Requests by method and protocol", Kind::Sum)
    } else if k == 48 {
        ("node_nfsd_requests_total", "Total number NFSd Requests by method and protocol", Kind::Sum)
    } else if k == 49 {
        ("node_nfsd_requests_total", "Total number NFSd Requests by method and protocol", Kind::Sum)
    } else if k == 50 {
        ("node_nfsd_requests_total", "Total number NFSd Requests by method and protocol", Kind::Sum)
    } else if k == 51 {
        ("node_nfsd_requests_total", "Total number NFSd Requests by method and protocol", Kind::Sum)
    } else if k == 52 {
        ("node_nfsd_requests_total", "Total number NFSd Requests by method and protocol", Kind::Sum)
    } else if k == 53 {
        ("node_nfsd_requests_total", "Total number NFSd Requests by method and protocol", Kind::Sum)
    } else if k == 54 {
        ("node_nfsd_requests_total", "Total number NFSd Requests by method and protocol", Kind::Sum)
    } else if k == 55 {
        ("node_nfsd_requests_total", "Total number NFSd Requests by method and protocol", Kind::Sum)
    } else if k == 56 {
        ("node_nfsd_requests_total", "Total number NFSd Requests by method and protocol", Kind::Sum)
    } else if k == 57 {
        ("node_nfsd_requests_total", "Total number NFSd Requests by method and protocol", Kind::Sum)
    } else if k == 58 {
        ("node_nfsd_requests_total", "Total number NFSd Requests by method and protocol", Kind::Sum)
    } else if k == 59 {
        ("node_nfsd_requests_total", "Total number NFSd Requests by method and protocol", Kind::Sum)
    } else if k == 60 {
        ("node_nfsd_requests_total", "Total number NFSd Requests by method and protocol", Kind::Sum)
    } else if k == 61 {
        ("node_nfsd_requests_total", "Total number NFSd Requests by method and protocol", Kind::Sum)
    } else if k == 62 {
        ("node_nfsd_requests_total", "Total number NFSd Requests by method and protocol", Kind::Sum)
    } else if k == 63 {
        ("node_nfsd_requests_total", "Total number NFSd Requests by method and protocol", Kind::Sum)
    } else if k == 64 {
        ("node_nfsd_requests_total", "Total number NFSd Requests by method and protocol", Kind::Sum)
    } else if k == 65 {
        ("node_nfsd_requests_total", "Total number NFSd Requests by method and protocol", Kind::Sum)
    } else if k == 66 {
        ("node_nfsd_requests_total", "Total number NFSd Requests by method and protocol", Kind::Sum)
    } else if k == 67 {
        ("node_nfsd_requests_total", "Total number NFSd Requests by method and protocol", Kind::Sum)
    } else if k == 68 {
        ("node_nfsd_requests_total", "Total number NFSd Requests by method and protocol", Kind::Sum)
    } else if k == 69 {
        ("node_nfsd_requests_total", "Total number NFSd Requests by method and protocol", Kind::Sum)
    } else if k == 70 {
        ("node_nfsd_requests_total", "Total number NFSd Requests by method and protocol", Kind::Sum)
    } else if k == 71 {
        ("node_nfsd_requests_total", "Total number NFSd Requests by method and protocol", Kind::Sum)
    } else if k == 72 {
        ("node_nfsd_requests_total", "Total number NFSd Requests by method and protocol", Kind::Sum)
    } else if k == 73 {
        ("node_nfsd_requests_total", "Total number NFSd Requests by method and protocol", Kind::Sum)
    } else if k == 74 {
        ("node_nfsd_requests_total", "Total number NFSd Requests by method and protocol", Kind::Sum)
    } else if k == 75 {
        ("node_nfsd_requests_total", "Total number NFSd Requests by method and protocol", Kind::Sum)
    } else if k == 76 {
        ("node_nfsd_requests_total", "Total number NFSd Requests by method and protocol", Kind::Sum)
    } else if k == 77 {
        ("node_nfsd_requests_total", "Total number NFSd Requests by method and protocol", Kind::Sum)
    } else if k == 78 {
        ("node_nfsd_requests_total", "Total number NFSd Requests by method and protocol", Kind::Sum)
    } else if k == 79 {
        ("node_nfsd_requests_total", "Total number NFSd Requests by method and protocol", Kind::Sum)
    } else if k == 80 {
        ("node_nfsd_requests_total", "Total number NFSd Requests by method and protocol", Kind::Sum)
    } else if k == 81 {
        ("node_nfsd_requests_total", "Total number NFSd Requests by method and protocol", Kind::Sum)
    } else if k == 82 {
        ("node_nfsd_requests_total", "Total number NFSd Requests by method and protocol", Kind::Sum)
    } else if k == 83 {
        ("node_nfsd_requests_total", "Total number NFSd Requests by method and protocol", Kind::Sum)
    } else if k == 84 {
        ("node_nfsd_requests_total", "Total number NFSd Requests by method and protocol", Kind::Sum)
    } else if k == 85 {
        ("node_nfsd_requests_total", "Total number NFSd Requests by method and protocol", Kind::Sum)
    } else if k == 86 {
        ("node_nfsd_requests_total", "Total number NFSd Requests by method and protocol", Kind::Sum)
    } else if k == 87 {
        ("node_nfsd_requests_total", "Total number NFSd Requests by method and protocol", Kind::Sum)
    } else if k == 88 {
        ("node_nfsd_requests_total", "Total number NFSd Requests by method and protocol", Kind::Sum)
    } else {
        ("node_nfsd_requests_total", "Total number NFSd Requests by method and protocol", Kind::Sum)
    }
}

fn nfsd_tags_exec<'a>(k: usize) -> (r: Vec<(&'static str, TagValue<'a>)>)
    requires
        k < 90,
    ensures
        tags_view(r@) == nfsd_tags(k as int),
{
    if k == 0 {
        no_tags()
    } else if k == 1 {
        no_tags()
    } else if k == 2 {
        no_tags()
    } else if k == 3 {
        no_tags()
    } else if k == 4 {
        no_tags()
    } else if k == 5 {
        no_tags()
    } else if k == 6 {
        no_tags()
    } else if k == 7 {
        no_tags()
    } else if k == 8 {
        no_tags()
    } else if k == 9 {
        one_tag("proto", TagValue::Text("udp"))
    } else if k == 10 {
        one_tag("proto", TagValue::Text("tcp"))
    } else if k == 11 {
        no_tags()
    } else if k == 12 {
        one_tag("error", TagValue::Text("fmt"))
    } else if k == 13 {
        one_tag("error", TagValue::Text("auth"))
    } else if k == 14 {
        one_tag("error", TagValue::Text("cInt"))
    } else if k == 15 {
        no_tags()
    } else if k == 16 {
        two_tags("proto", TagValue::Text("2"), "method", TagValue::Text("GetAttr"))
    } else if k == 17 {
        two_tags("proto", TagValue::Text("2"), "method", TagValue::Text("SetAttr"))
    } else if k == 18 {
        two_tags("proto", TagValue::Text("2"), "method", TagValue::Text("Root"))
    } else if k == 19 {
        two_tags("proto", TagValue::Text("2"), "method", TagValue::Text("Lookup"))
    } else if k == 20 {
        two_tags("proto", TagValue::Text("2"), "method", TagValue::Text("ReadLink"))
    } else if k == 21 {
        two_tags("proto", TagValue::Text("2"), "method", TagValue::Text("Read"))
    } else if k == 22 {
        two_tags("proto", TagValue::Text("2"), "method", TagValue::Text("WrCache"))
    } else if k == 23 {
        two_tags("proto", TagValue::Text("2"), "method", TagValue::Text("Write"))
    } else if k == 24 {
        two_tags("proto", TagValue::Text("2"), "method", TagValue::Text("Create"))
    } else if k == 25 {
        two_tags("proto", TagValue::Text("2"), "method", TagValue::Text("Remove"))
    } else if k == 26 {
        two_tags("proto", TagValue::Text("2"), "method", TagValue::Text("Rename"))
    } else if k == 27 {
        two_tags("proto", TagValue::Text("2"), "method", TagValue::Text("Link"))
    } else if k == 28 {
        two_tags("proto", TagValue::Text("2"), "method", TagValue::Text("SymLink"))
    } else if k == 29 {
        two_tags("proto", TagValue::Text("2"), "method", TagValue::Text("MkDir"))
    } else if k == 30 {
        two_tags("proto", TagValue::Text("2"), "method", TagValue::Text("RmDir"))
    } else if k == 31 {
        two_tags("proto", TagValue::Text("2"), "method", TagValue::Text("ReadDir"))
    } else if k == 32 {
        two_tags("proto", TagValue::Text("2"), "method", TagValue::Text("FsStat"))
    } else if k == 33 {
        two_tags("proto", TagValue::Text("3"), "method", TagValue::Text("GetAttr"))
    } else if k == 34 {
        two_tags("proto", TagValue::Text("3"), "method", TagValue::Text("SetAttr"))
    } else if k == 35 {
        two_tags("proto", TagValue::Text("3"), "method", TagValue::Text("Lookup"))
    } else if k == 36 {
        two_tags("proto", TagValue::Text("3"), "method", TagValue::Text("Access"))
    } else if k == 37 {
        two_tags("proto", TagValue::Text("3"), "method", TagValue::Text("ReadLink"))
    } else if k == 38 {
        two_tags("proto", TagValue::Text("3"), "method", TagValue::Text("Read"))
    } else if k == 39 {
        two_tags("proto", TagValue::Text("3"), "method", TagValue::Text("Write"))
    } else if k == 40 {
        two_tags("proto", TagValue::Text("3"), "method", TagValue::Text("Create"))
    } else if k == 41 {
        two_tags("proto", TagValue::Text("3"), "method", TagValue::Text("MkDir"))
    } else if k == 42 {
        two_tags("proto", TagValue::Text("3"), "method", TagValue::Text("SymLink"))
    } else if k == 43 {
        two_tags("proto", TagValue::Text("3"), "method", TagValue::Text("MkNod"))
    } else if k == 44 {
        two_tags("proto", TagValue::Text("3"), "method", TagValue::Text("Remove"))
    } else if k == 45 {
        two_tags("proto", TagValue::Text("3"), "method", TagValue::Text("RmDir"))
    } else if k == 46 {
        two_tags("proto", TagValue::Text("3"), "method", TagValue::Text("Rename"))
    } else if k == 47 {
        two_tags("proto", TagValue::Text("3"), "method", TagValue::Text("Link"))
    } else if k == 48 {
        two_tags("proto", TagValue::Text("3"), "method", TagValue::Text("ReadDir"))
    } else if k == 49 {
        two_tags("proto", TagValue::Text("3"), "method", TagValue::Text("ReadDirPlus"))
    } else if k == 50 {
        two_tags("proto", TagValue::Text("3"), "method", TagValue::Text("FsStat"))
    } else if k == 51 {
        two_tags("proto", TagValue::Text("3"), "method", TagValue::Text("FsInfo"))
    } else if k == 52 {
        two_tags("proto", TagValue::Text("3"), "method", TagValue::Text("PathConf"))
    } else if k == 53 {
        two_tags("proto", TagValue::Text("3"), "method", TagValue::Text("Commit"))
    } else if k == 54 {
        two_tags("proto", TagValue::Text("4"), "method", TagValue::Text("Access"))
    } else if k == 55 {
        two_tags("proto", TagValue::Text("4"), "method", TagValue::Text("Close"))
    } else if k == 56 {
        two_tags("proto", TagValue::Text("4"), "method", TagValue::Text("Commit"))
    } else if k == 57 {
        two_tags("proto", TagValue::Text("4"), "method", TagValue::Text("Create"))
    } else if k == 58 {
        two_tags("proto", TagValue::Text("4"), "method", TagValue::Text("DelegPurge"))
    } else if k == 59 {
        two_tags("proto", TagValue::Text("4"), "method", TagValue::Text("DelegReturn"))
    } else if k == 60 {
        two_tags("proto", TagValue::Text("4"), "method", TagValue::Text("GetAttr"))
    } else if k == 61 {
        two_tags("proto", TagValue::Text("4"), "method", TagValue::Text("GetFH"))
    } else if k == 62 {
        two_tags("proto", TagValue::Text("4"), "method", TagValue::Text("Link"))
    } else if k == 63 {
        two_tags("proto", TagValue::Text("4"), "method", TagValue::Text("Lock"))
    } else if k == 64 {
        two_tags("proto", TagValue::Text("4"), "method", TagValue::Text("Lockt"))
    } else if k == 65 {
        two_tags("proto", TagValue::Text("4"), "method", TagValue::Text("Locku"))
    } else if k == 66 {
        two_tags("proto", TagValue::Text("4"), "method", TagValue::Text("Lookup"))
    } else if k == 67 {
        two_tags("proto", TagValue::Text("4"), "method", TagValue::Text("LookupRoot"))
    } else if k == 68 {
        two_tags("proto", TagValue::Text("4"), "method", TagValue::Text("Nverify"))
    } else if k == 69 {
        two_tags("proto", TagValue::Text("4"), "method", TagValue::Text("Open"))
    } else if k == 70 {
        two_tags("proto", TagValue::Text("4"), "method", TagValue::Text("OpenAttr"))
    } else if k == 71 {
        two_tags("proto", TagValue::Text("4"), "method", TagValue::Text("OpenConfirm"))
    } else if k == 72 {
        two_tags("proto", TagValue::Text("4"), "method", TagValue::Text("OpenDgrd"))
    } else if k == 73 {
        two_tags("proto", TagValue::Text("4"), "method", TagValue::Text("PutFH"))
    } else if k == 74 {
        two_tags("proto", TagValue::Text("4"), "method", TagValue::Text("Read"))
    } else if k == 75 {
        two_tags("proto", TagValue::Text("4"), "method", TagValue::Text("ReadDir"))
    } else if k == 76 {
        two_tags("proto", TagValue::Text("4"), "method", TagValue::Text("ReadLink"))
    } else if k == 77 {
        two_tags("proto", TagValue::Text("4"), "method", TagValue::Text("Remove"))
    } else if k == 78 {
        two_tags("proto", TagValue::Text("4"), "method", TagValue::Text("Rename"))
    } else if k == 79 {
        two_tags("proto", TagValue::Text("4"), "method", TagValue::Text("Renew"))
    } else if k == 80 {
        two_tags("proto", TagValue::Text("4"), "method", TagValue::Text("RestoreFH"))
    } else if k == 81 {
        two_tags("proto", TagValue::Text("4"), "method", TagValue::Text("SaveFH"))
    } else if k == 82 {
        two_tags("proto", TagValue::Text("4"), "method", TagValue::Text("SecInfo"))
    } else if k == 83 {
        two_tags("proto", TagValue::Text("4"), "method", TagValue::Text("SetAttr"))
    } else if k == 84 {
        two_tags("proto", TagValue::Text("4"), "method", TagValue::Text("SetClientID"))
    } else if k == 85 {
        two_tags("proto", TagValue::Text("4"), "method", TagValue::Text("SetClientIDConfirm"))
    } else if k == 86 {
        two_tags("proto", TagValue::Text("4"), "method", TagValue::Text("Verify"))
    } else if k == 87 {
        two_tags("proto", TagValue::Text("4"), "method", TagValue::Text("Write"))
    } else if k == 88 {
        two_tags("proto", TagValue::Text("4"), "method", TagValue::Text("RelLockOwner"))
    } else {
        two_tags("proto", TagValue::Text("4"), "method", TagValue::Text("WdelegGetattr"))
    }
}

fn nfsd_value_exec(st: &ServerRPCStats, k: usize) -> (r: i128)
    requires
        k < 90,
    ensures
        r == nfsd_value(*st, k as int),
{
    if k == 0 {
        st.reply_cache.hits as i128
    } else if k == 1 {
        st.reply_cache.misses as i128
    } else if k == 2 {
        st.reply_cache.no_cache as i128
    } else if k == 3 {
        st.file_handles.stale as i128
    } else if k == 4 {
        st.input_output.read as i128
    } else if k == 5 {
        st.input_output.write as i128
    } else if k == 6 {
        st.threads.threads as i128
    } else if k == 7 {
        st.read_ahead_cache.cache_size as i128
    } else if k == 8 {
        st.read_ahead_cache.not_found as i128
    } else if k == 9 {
        st.network.udp_count as i128
    } else if k == 10 {
        st.network.tcp_count as i128
    } else if k == 11 {
        st.network.tcp_connect as i128
    } else if k == 12 {
        st.server_rpc.bad_fmt as i128
    } else if k == 13 {
        st.server_rpc.bad_auth as i128
    } else if k == 14 {
        st.server_rpc.badc_int as i128
    } else if k == 15 {
        st.server_rpc.rpc_count as i128
    } else if k == 16 {
        st.v2_stats.get_attr as i128
    } else if k == 17 {
        st.v2_stats.set_attr as i128
    } else if k == 18 {
        st.v2_stats.root as i128
    } else if k == 19 {
        st.v2_stats.lookup as i128
    } else if k == 20 {
        st.v2_stats.read_link as i128
    } else if k == 21 {
        st.v2_stats.read as i128
    } else if k == 22 {
        st.v2_stats.wr_cache as i128
    } else if k == 23 {
        st.v2_stats.write as i128
    } else if k == 24 {
        st.v2_stats.create as i128
    } else if k == 25 {
        st.v2_stats.remove as i128
    } else if k == 26 {
        st.v2_stats.rename as i128
    } else if k == 27 {
        st.v2_stats.link as i128
    } else if k == 28 {
        st.v2_stats.sym_link as i128
    } else if k == 29 {
        st.v2_stats.mkdir as i128
    } else if k == 30 {
        st.v2_stats.rmdir as i128
    } else if k == 31 {
        st.v2_stats.read_dir as i128
    } else if k == 32 {
        st.v2_stats.fs_stat as i128
    } else if k == 33 {
        st.v3_stats.get_attr as i128
    } else if k == 34 {
        st.v3_stats.set_attr as i128
    } else if k == 35 {
        st.v3_stats.lookup as i128
    } else if k == 36 {
        st.v3_stats.access as i128
    } else if k == 37 {
        st.v3_stats.read_link as i128
    } else if k == 38 {
        st.v3_stats.read as i128
    } else if k == 39 {
        st.v3_stats.write as i128
    } else if k == 40 {
        st.v3_stats.create as i128
    } else if k == 41 {
        st.v3_stats.mkdir as i128
    } else if k == 42 {
        st.v3_stats.sym_link as i128
    } else if k == 43 {
        st.v3_stats.mknod as i128
    } else if k == 44 {
        st.v3_stats.remove as i128
    } else if k == 45 {
        st.v3_stats.rmdir as i128
    } else if k == 46 {
        st.v3_stats.rename as i128
    } else if k == 47 {
        st.v3_stats.link as i128
    } else if k == 48 {
        st.v3_stats.read_dir as i128
    } else if k == 49 {
        st.v3_stats.read_dir_plus as i128
    } else if k == 50 {
        st.v3_stats.fs_stat as i128
    } else if k == 51 {
        st.v3_stats.fs_info as i128
    } else if k == 52 {
        st.v3_stats.path_conf as i128
    } else if k == 53 {
        st.v3_stats.commit as i128
    } else if k == 54 {
        st.v4_ops.access as i128
    } else if k == 55 {
        st.v4_ops.close as i128
    } else if k == 56 {
        st.v4_ops.commit as i128
    } else if k == 57 {
        st.v4_ops.create as i128
    } else if k == 58 {
        st.v4_ops.deleg_purge as i128
    } else if k == 59 {
        st.v4_ops.deleg_return as i128
    } else if k == 60 {
        st.v4_ops.get_attr as i128
    } else if k == 61 {
        st.v4_ops.get_fh as i128
    } else if k == 62 {
        st.v4_ops.link as i128
    } else if k == 63 {
        st.v4_ops.lock as i128
    } else if k == 64 {
        st.v4_ops.lockt as i128
    } else if k == 65 {
        st.v4_ops.locku as i128
    } else if k == 66 {
        st.v4_ops.lookup as i128
    } else if k == 67 {
        st.v4_ops.lookup_root as i128
    } else if k == 68 {
        st.v4_ops.nverify as i128
    } else if k == 69 {
        st.v4_ops.open as i128
    } else if k == 70 {
        st.v4_ops.open_attr as i128
    } else if k == 71 {
        st.v4_ops.open_confirm as i128
    } else if k == 72 {
        st.v4_ops.open_dgrd as i128
    } else if k == 73 {
        st.v4_ops.put_fh as i128
    } else if k == 74 {
        st.v4_ops.read as i128
    } else if k == 75 {
        st.v4_ops.readdir as i128
    } else if k == 76 {
        st.v4_ops.read_link as i128
    } else if k == 77 {
        st.v4_ops.remove as i128
    } else if k == 78 {
        st.v4_ops.rename as i128
    } else if k == 79 {
        st.v4_ops.renew as i128
    } else if k == 80 {
        st.v4_ops.restore_fh as i128
    } else if k == 81 {
        st.v4_ops.save_fh as i128
    } else if k == 82 {
        st.v4_ops.sec_info as i128
    } else if k == 83 {
        st.v4_ops.set_attr as i128
    } else if k == 84 {
        st.v4_ops.set_client_id as i128
    } else if k == 85 {
        st.v4_ops.set_client_id_confirm as i128
    } else if k == 86 {
        st.v4_ops.verify as i128
    } else if k == 87 {
        st.v4_ops.write as i128
    } else if k == 88 {
        st.v4_ops.rel_lock_owner as i128
    } else {
        st.wdeleg_getattr as i128
    }
}

/// The samples of the statistics, in a fixed order.
pub open spec fn nfsd_samples_spec(st: ServerRPCStats) -> Seq<SampleModel> {
    Seq::new(
        90,
        |k: int|
            SampleModel {
                name: nfsd_metric(k).0,
                description: nfsd_metric(k).1,
                kind: nfsd_metric(k).2,
                value: nfsd_value(st, k),
                tags: nfsd_tags(k),
            },
    )
}

/// The samples of the statistics.
pub fn nfsd_samples(st: &ServerRPCStats) -> (r: Vec<Sample<'static>>)
    ensures
        samples_view(r@) == nfsd_samples_spec(*st),
{
    let mut out: Vec<Sample<'static>> = Vec::new();
    let mut k: usize = 0;
    while k < 90
        invariant
            k <= 90,
            samples_view(out@) =~= nfsd_samples_spec(*st).take(k as int),
        decreases 90 - k,
    {
        let (name, description, kind) = nfsd_metric_exec(k);
        let value = nfsd_value_exec(st, k);
        let tags = nfsd_tags_exec(k);
        let ghost before = out@;
        out.push(Sample { name, description, kind, value, tags });
        assert(samples_view(out@) =~= samples_view(before).push(nfsd_samples_spec(*st)[k as int]));
        assert(nfsd_samples_spec(*st).take(k + 1) =~= nfsd_samples_spec(*st).take(k as int).push(
            nfsd_samples_spec(*st)[k as int],
        ));
        k = k + 1;
    }
    assert(nfsd_samples_spec(*st).take(90) =~= nfsd_samples_spec(*st));
    out
}

} // verus!
