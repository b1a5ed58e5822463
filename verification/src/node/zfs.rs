//! ZFS kstat files under /proc/spl/kstat/zfs: the misc statistics, the
//! per-pool I/O counters and the per-dataset object-set counters.

use vstd::prelude::*;
use vstd::string::StringSliceAdditionalSpecFns;

use super::Error;
use crate::text::{
    dec_i64, dec_u64, fields, find_bytes, find_from, is_word, lines, parse_i64, parse_u64,
    split_ascii_ws, split_lines, views,
};

verus! {

/// `name`
pub open spec fn word_name() -> Seq<u8> {
    seq![0x6eu8, 0x61u8, 0x6du8, 0x65u8]
}

/// `type`
pub open spec fn word_type() -> Seq<u8> {
    seq![0x74u8, 0x79u8, 0x70u8, 0x65u8]
}

/// `data`
pub open spec fn word_data() -> Seq<u8> {
    seq![0x64u8, 0x61u8, 0x74u8, 0x61u8]
}

/// `3`: KSTAT_DATA_INT64.
pub open spec fn type_int64() -> Seq<u8> {
    seq![0x33u8]
}

/// `4`: KSTAT_DATA_UINT64.
pub open spec fn type_uint64() -> Seq<u8> {
    seq![0x34u8]
}

/// The first three fields are "name type data".
pub open spec fn is_kstat_header(f: Seq<Seq<u8>>) -> bool {
    f.len() >= 3 && f[0] == word_name() && f[1] == word_type() && f[2] == word_data()
}

fn kstat_header(parts: &Vec<&[u8]>) -> (r: bool)
    ensures
        r == is_kstat_header(views(parts@)),
{
    proof {
        assert([0x6eu8, 0x61u8, 0x6du8, 0x65u8]@ =~= word_name());
        assert([0x74u8, 0x79u8, 0x70u8, 0x65u8]@ =~= word_type());
        assert([0x64u8, 0x61u8, 0x74u8, 0x61u8]@ =~= word_data());
    }
    if parts.len() < 3 {
        return false;
    }
    assert(parts@[0]@ == views(parts@)[0]);
    assert(parts@[1]@ == views(parts@)[1]);
    assert(parts@[2]@ == views(parts@)[2]);
    is_word(parts[0], &[0x6eu8, 0x61u8, 0x6du8, 0x65u8]) && is_word(parts[1], &[0x74u8, 0x79u8, 0x70u8, 0x65u8])
        && is_word(parts[2], &[0x64u8, 0x61u8, 0x74u8, 0x61u8])
}

/// A kstat value of one of the two integer types.
#[derive(Clone, Copy, Debug, PartialEq, Eq)]
pub enum KstatValue {
    Signed(i64),
    Unsigned(u64),
}

/// What the misc statistics scan has read: whether the header was seen, and
/// the named values so far.
pub struct KstatScan {
    pub started: bool,
    pub kvs: Seq<(Seq<u8>, KstatValue)>,
}

/// A line that the misc statistics scan can read: it has a type column,
/// and a data column where the type is an integer one.
pub open spec fn kstat_line_ok(f: Seq<Seq<u8>>) -> bool {
    f.len() >= 2 && ((f[1] == type_int64() || f[1] == type_uint64()) ==> f.len() >= 3)
}

/// The scan after one more line: the first "name type data" line starts it;
/// every other line of an integer type adds its name and value, other types
/// are skipped.
pub open spec fn kstat_step(st: KstatScan, f: Seq<Seq<u8>>) -> Result<KstatScan, Error> {
    if !st.started && f.len() == 3 && is_kstat_header(f) {
        Ok(KstatScan { started: true, kvs: st.kvs })
    } else if f[1] == type_int64() {
        match dec_i64(f[2]) {
            Some(v) => Ok(KstatScan { started: st.started, kvs: st.kvs.push((f[0], KstatValue::Signed(v))) }),
            None => Err(Error::ParseInt),
        }
    } else if f[1] == type_uint64() {
        match dec_u64(f[2]) {
            Some(v) => Ok(KstatScan { started: st.started, kvs: st.kvs.push((f[0], KstatValue::Unsigned(v))) }),
            None => Err(Error::ParseInt),
        }
    } else {
        Ok(st)
    }
}

/// The scan after the first `n` lines.
pub open spec fn kstat_scan(ls: Seq<Seq<u8>>, n: nat) -> Result<KstatScan, Error>
    decreases n,
{
    if n == 0 || n > ls.len() {
        Ok(KstatScan { started: false, kvs: Seq::empty() })
    } else {
        match kstat_scan(ls, (n - 1) as nat) {
            Ok(st) => kstat_step(st, fields(ls[n - 1])),
            Err(e) => Err(e),
        }
    }
}

/// The models of named values.
pub open spec fn named_views<T>(s: Seq<(&[u8], T)>) -> Seq<(Seq<u8>, T)> {
    s.map_values(|p: (&[u8], T)| (p.0@, p.1))
}

proof fn lemma_kstat_err(ls: Seq<Seq<u8>>, i: nat, n: nat, e: Error)
    requires
        i <= n <= ls.len(),
        kstat_scan(ls, i) == Err::<KstatScan, Error>(e),
    ensures
        kstat_scan(ls, n) == Err::<KstatScan, Error>(e),
    decreases n - i,
{
    if i < n {
        lemma_kstat_err(ls, i, (n - 1) as nat, e);
    }
}

/// Parses a misc kstat file (arcstats, zil, ...): the named values of
/// integer type, in the order of the file.
pub fn parse_stat_file(content: &str) -> (r: Result<Vec<(&[u8], KstatValue)>, Error>)
    requires
        forall|i: int|
            0 <= i < lines(content.spec_bytes()).len() ==> kstat_line_ok(
                #[trigger] fields(lines(content.spec_bytes())[i]),
            ),
    ensures
        match kstat_scan(lines(content.spec_bytes()), lines(content.spec_bytes()).len()) {
            Ok(st) => r matches Ok(v) && named_views(v@) == st.kvs,
            Err(e) => r == Err::<Vec<(&[u8], KstatValue)>, Error>(e),
        },
{
    let all = split_lines(content.as_bytes());
    let ghost ls = lines(content.spec_bytes());
    let mut kvs: Vec<(&[u8], KstatValue)> = Vec::new();
    let mut started = false;
    let mut i: usize = 0;
    proof {
        assert(named_views(kvs@) =~= Seq::<(Seq<u8>, KstatValue)>::empty());
        assert([0x33u8]@ =~= type_int64());
        assert([0x34u8]@ =~= type_uint64());
    }
    while i < all.len()
        invariant
            i <= all@.len(),
            views(all@) == ls,
            ls == lines(content.spec_bytes()),
            forall|k: int| 0 <= k < ls.len() ==> kstat_line_ok(#[trigger] fields(ls[k])),
            kstat_scan(ls, i as nat) == Ok::<KstatScan, Error>(KstatScan { started, kvs: named_views(kvs@) }),
            [0x33u8]@ == type_int64(),
            [0x34u8]@ == type_uint64(),
        decreases all@.len() - i,
    {
        let line = all[i];
        assert(line@ == ls[i as int]);
        let parts = split_ascii_ws(line);
        let ghost f = fields(line@);
        assert(kstat_line_ok(f));
        assert(parts@[1]@ == f[1]);
        assert(parts@[0]@ == f[0]);
        if !started && parts.len() == 3 && kstat_header(&parts) {
            started = true;
        } else if is_word(parts[1], &[0x33u8]) {
            assert(parts@[2]@ == f[2]);
            match parse_i64(parts[2]) {
                Some(v) => {
                    let ghost before = kvs@;
                    kvs.push((parts[0], KstatValue::Signed(v)));
                    assert(named_views(kvs@) =~= named_views(before).push((f[0], KstatValue::Signed(v))));
                },
                None => {
                    proof {
                        lemma_kstat_err(ls, (i + 1) as nat, ls.len(), Error::ParseInt);
                    }
                    return Err(Error::ParseInt);
                },
            }
        } else if is_word(parts[1], &[0x34u8]) {
            assert(parts@[2]@ == f[2]);
            match parse_u64(parts[2]) {
                Some(v) => {
                    let ghost before = kvs@;
                    kvs.push((parts[0], KstatValue::Unsigned(v)));
                    assert(named_views(kvs@) =~= named_views(before).push((f[0], KstatValue::Unsigned(v))));
                },
                None => {
                    proof {
                        lemma_kstat_err(ls, (i + 1) as nat, ls.len(), Error::ParseInt);
                    }
                    return Err(Error::ParseInt);
                },
            }
        }
        i = i + 1;
    }
    Ok(kvs)
}

/// `nread`
pub open spec fn word_nread() -> Seq<u8> {
    seq![0x6eu8, 0x72u8, 0x65u8, 0x61u8, 0x64u8]
}

/// What the pool I/O scan has read: the header, once seen, and the named
/// counters so far.
pub struct PoolScan {
    pub started: bool,
    pub headers: Seq<Seq<u8>>,
    pub kvs: Seq<(Seq<u8>, u64)>,
}

/// The `u64` that `s` holds, or 0.
pub open spec fn u64_or_zero(s: Seq<u8>) -> u64 {
    match dec_u64(s) {
        Some(v) => v,
        None => 0,
    }
}

/// The scan after one more line: the first line of at least twelve fields
/// that starts with "nread" is the header; each line after it gives one
/// counter per header field, 0 where its field is not a number.
pub open spec fn pool_step(st: PoolScan, f: Seq<Seq<u8>>) -> PoolScan {
    if !st.started && f.len() >= 12 && f[0] == word_nread() {
        PoolScan { started: true, headers: f, kvs: st.kvs }
    } else if !st.started {
        st
    } else {
        PoolScan {
            started: true,
            headers: st.headers,
            kvs: st.kvs + Seq::new(st.headers.len(), |k: int| (st.headers[k], u64_or_zero(f[k]))),
        }
    }
}

/// The scan after the first `n` lines.
pub open spec fn pool_scan(ls: Seq<Seq<u8>>, n: nat) -> PoolScan
    decreases n,
{
    if n == 0 || n > ls.len() {
        PoolScan { started: false, headers: Seq::empty(), kvs: Seq::empty() }
    } else {
        pool_step(pool_scan(ls, (n - 1) as nat), fields(ls[n - 1]))
    }
}

/// Every line after the header has a field for each header field.
pub open spec fn pool_lines_ok(ls: Seq<Seq<u8>>) -> bool {
    forall|n: nat|
        n < ls.len() ==> (#[trigger] pool_scan(ls, n)).started ==> fields(ls[n as int]).len()
            >= pool_scan(ls, n).headers.len()
}

/// Whether every line of a pool's `io` file after its header has a field
/// for each header field, as `parse_pool_stats` needs.
pub fn pool_lines_readable(content: &str) -> (r: bool)
    ensures
        r == pool_lines_ok(lines(content.spec_bytes())),
{
    let all = split_lines(content.as_bytes());
    let ghost ls = lines(content.spec_bytes());
    let nread: [u8; 5] = [0x6eu8, 0x72u8, 0x65u8, 0x61u8, 0x64u8];
    assert(nread@ =~= word_nread());
    let mut started = false;
    let mut headers: usize = 0;
    let mut i: usize = 0;
    while i < all.len()
        invariant
            i <= all@.len(),
            views(all@) == ls,
            ls == lines(content.spec_bytes()),
            nread@ == word_nread(),
            pool_scan(ls, i as nat).started == started,
            pool_scan(ls, i as nat).headers.len() == headers,
            forall|n: nat|
                n < i ==> (#[trigger] pool_scan(ls, n)).started ==> fields(ls[n as int]).len()
                    >= pool_scan(ls, n).headers.len(),
        decreases all@.len() - i,
    {
        let line = all[i];
        assert(line@ == ls[i as int]);
        let parts = split_ascii_ws(line);
        let ghost f = fields(line@);
        assert(views(parts@) == f);
        if started && parts.len() < headers {
            assert(pool_scan(ls, i as nat).started && fields(ls[i as int]).len() < pool_scan(
                ls,
                i as nat,
            ).headers.len());
            return false;
        }
        if !started && parts.len() >= 12 && is_word(parts[0], nread.as_slice()) {
            assert(parts@[0]@ == f[0]);
            started = true;
            headers = parts.len();
        } else if !started && parts.len() >= 12 {
            assert(parts@[0]@ == f[0]);
        }
        assert(pool_scan(ls, (i + 1) as nat) == pool_step(pool_scan(ls, i as nat), f));
        i = i + 1;
    }
    true
}

/// Whether every line of a kstat file has a type column, and a data column
/// where the type is an integer one, as `parse_stat_file` needs.
pub fn kstat_lines_ok(content: &str) -> (r: bool)
    ensures
        r == forall|i: int|
            0 <= i < lines(content.spec_bytes()).len() ==> kstat_line_ok(
                fields(#[trigger] lines(content.spec_bytes())[i]),
            ),
{
    let all = split_lines(content.as_bytes());
    let ghost ls = lines(content.spec_bytes());
    let int64: [u8; 1] = [0x33u8];
    let uint64: [u8; 1] = [0x34u8];
    assert(int64@ =~= type_int64());
    assert(uint64@ =~= type_uint64());
    let mut i: usize = 0;
    while i < all.len()
        invariant
            i <= all@.len(),
            views(all@) == ls,
            ls == lines(content.spec_bytes()),
            int64@ == type_int64(),
            uint64@ == type_uint64(),
            forall|k: int| 0 <= k < i ==> kstat_line_ok(fields(#[trigger] ls[k])),
        decreases all@.len() - i,
    {
        let line = all[i];
        assert(line@ == ls[i as int]);
        let parts = split_ascii_ws(line);
        let ghost f = fields(line@);
        assert(views(parts@) == f);
        if parts.len() < 2 {
            return false;
        }
        assert(parts@[1]@ == f[1]);
        if (is_word(parts[1], int64.as_slice()) || is_word(parts[1], uint64.as_slice())) && parts.len() < 3 {
            return false;
        }
        i = i + 1;
    }
    true
}

/// Parses a pool's `io` file: one counter per header field for each line
/// after the header.
pub fn parse_pool_stats(content: &str) -> (r: Vec<(&[u8], u64)>)
    requires
        pool_lines_ok(lines(content.spec_bytes())),
    ensures
        named_views(r@) == pool_scan(lines(content.spec_bytes()), lines(content.spec_bytes()).len()).kvs,
{
    let all = split_lines(content.as_bytes());
    let ghost ls = lines(content.spec_bytes());
    let mut kvs: Vec<(&[u8], u64)> = Vec::new();
    let mut headers: Vec<&[u8]> = Vec::new();
    let mut started = false;
    let mut i: usize = 0;
    proof {
        assert(named_views(kvs@) =~= Seq::<(Seq<u8>, u64)>::empty());
        assert(views(headers@) =~= Seq::<Seq<u8>>::empty());
        assert([0x6eu8, 0x72u8, 0x65u8, 0x61u8, 0x64u8]@ =~= word_nread());
    }
    while i < all.len()
        invariant
            i <= all@.len(),
            views(all@) == ls,
            ls == lines(content.spec_bytes()),
            pool_lines_ok(ls),
            pool_scan(ls, i as nat) == (PoolScan { started, headers: views(headers@), kvs: named_views(kvs@) }),
            [0x6eu8, 0x72u8, 0x65u8, 0x61u8, 0x64u8]@ == word_nread(),
        decreases all@.len() - i,
    {
        let line = all[i];
        assert(line@ == ls[i as int]);
        let parts = split_ascii_ws(line);
        let ghost f = fields(line@);
        if !started && parts.len() >= 12 && is_word(parts[0], &[0x6eu8, 0x72u8, 0x65u8, 0x61u8, 0x64u8]) {
            assert(parts@[0]@ == f[0]);
            started = true;
            headers = parts;
        } else if started {
            assert(pool_scan(ls, i as nat).started);
            assert(f.len() >= views(headers@).len());
            let ghost before = kvs@;
            let mut k: usize = 0;
            while k < headers.len()
                invariant
                    k <= headers@.len(),
                    headers@.len() <= parts@.len(),
                    f == views(parts@),
                    named_views(kvs@) =~= named_views(before) + Seq::new(
                        k as nat,
                        |j: int| (views(headers@)[j], u64_or_zero(f[j])),
                    ),
                decreases headers@.len() - k,
            {
                assert(parts@[k as int]@ == f[k as int]);
                let v = match parse_u64(parts[k]) {
                    Some(v) => v,
                    None => 0,
                };
                let ghost prev = kvs@;
                kvs.push((headers[k], v));
                assert(headers@[k as int]@ == views(headers@)[k as int]);
                assert(named_views(kvs@) =~= named_views(prev).push((views(headers@)[k as int], v)));
                assert(Seq::new((k + 1) as nat, |j: int| (views(headers@)[j], u64_or_zero(f[j])))
                    =~= Seq::new(k as nat, |j: int| (views(headers@)[j], u64_or_zero(f[j]))).push(
                    (views(headers@)[k as int], u64_or_zero(f[k as int])),
                ));
                k = k + 1;
            }
        }
        i = i + 1;
    }
    kvs
}

/// `dataset_name`
pub open spec fn word_dataset_name() -> Seq<u8> {
    seq![0x64u8, 0x61u8, 0x74u8, 0x61u8, 0x73u8, 0x65u8, 0x74u8, 0x5fu8, 0x6eu8, 0x61u8, 0x6du8, 0x65u8]
}

/// What the object-set scan has read: whether the header was seen, the
/// dataset's name and the counters so far.
pub struct ObjsetScan {
    pub started: bool,
    pub dataset: Seq<u8>,
    pub kvs: Seq<(Seq<u8>, u64)>,
}

/// The scan after one more line. Lines of fewer than three fields are
/// skipped; the first "name type data" line starts it; "dataset_name" sets
/// the dataset to the line from the first place where its third field
/// occurs; a line of type 4 adds its counter.
pub open spec fn objset_step(st: ObjsetScan, line: Seq<u8>) -> Result<ObjsetScan, Error> {
    let f = fields(line);
    if f.len() < 3 {
        Ok(st)
    } else if !st.started && is_kstat_header(f) {
        Ok(ObjsetScan { started: true, ..st })
    } else if f[0] == word_dataset_name() {
        match find_from(line, f[2], 0) {
            Some(k) => Ok(ObjsetScan { dataset: line.subrange(k, line.len() as int), ..st }),
            None => Err(Error::Malformed("pool objset line")),
        }
    } else if f[1] == type_uint64() {
        match dec_u64(f[2]) {
            Some(v) => Ok(ObjsetScan { kvs: st.kvs.push((f[0], v)), ..st }),
            None => Err(Error::ParseInt),
        }
    } else {
        Ok(st)
    }
}

/// The scan after the first `n` lines.
pub open spec fn objset_scan(ls: Seq<Seq<u8>>, n: nat) -> Result<ObjsetScan, Error>
    decreases n,
{
    if n == 0 || n > ls.len() {
        Ok(ObjsetScan { started: false, dataset: Seq::empty(), kvs: Seq::empty() })
    } else {
        match objset_scan(ls, (n - 1) as nat) {
            Ok(st) => objset_step(st, ls[n - 1]),
            Err(e) => Err(e),
        }
    }
}

proof fn lemma_objset_err(ls: Seq<Seq<u8>>, i: nat, n: nat, e: Error)
    requires
        i <= n <= ls.len(),
        objset_scan(ls, i) == Err::<ObjsetScan, Error>(e),
    ensures
        objset_scan(ls, n) == Err::<ObjsetScan, Error>(e),
    decreases n - i,
{
    if i < n {
        lemma_objset_err(ls, i, (n - 1) as nat, e);
    }
}

/// Parses an `objset-*` file of a pool: the dataset's name and its counters
/// of type 4.
pub fn parse_pool_objset(content: &str) -> (r: Result<(&[u8], Vec<(&[u8], u64)>), Error>)
    ensures
        match objset_scan(lines(content.spec_bytes()), lines(content.spec_bytes()).len()) {
            Ok(st) => r matches Ok(v) && v.0@ == st.dataset && named_views(v.1@) == st.kvs,
            Err(e) => r == Err::<(&[u8], Vec<(&[u8], u64)>), Error>(e),
        },
{
    let all = split_lines(content.as_bytes());
    let ghost ls = lines(content.spec_bytes());
    let mut kvs: Vec<(&[u8], u64)> = Vec::new();
    let mut dataset: &[u8] = &[];
    let mut started = false;
    let mut i: usize = 0;
    proof {
        assert(named_views(kvs@) =~= Seq::<(Seq<u8>, u64)>::empty());
        assert(dataset@ =~= Seq::<u8>::empty());
        assert([0x34u8]@ =~= type_uint64());
        assert([0x64u8, 0x61u8, 0x74u8, 0x61u8, 0x73u8, 0x65u8, 0x74u8, 0x5fu8, 0x6eu8, 0x61u8, 0x6du8, 0x65u8]@
            =~= word_dataset_name());
    }
    while i < all.len()
        invariant
            i <= all@.len(),
            views(all@) == ls,
            ls == lines(content.spec_bytes()),
            objset_scan(ls, i as nat) == Ok::<ObjsetScan, Error>(
                ObjsetScan { started, dataset: dataset@, kvs: named_views(kvs@) },
            ),
            [0x34u8]@ == type_uint64(),
            [0x64u8, 0x61u8, 0x74u8, 0x61u8, 0x73u8, 0x65u8, 0x74u8, 0x5fu8, 0x6eu8, 0x61u8, 0x6du8, 0x65u8]@
                == word_dataset_name(),
        decreases all@.len() - i,
    {
        let line = all[i];
        assert(line@ == ls[i as int]);
        let parts = split_ascii_ws(line);
        let ghost f = fields(line@);
        let ghost st = ObjsetScan { started, dataset: dataset@, kvs: named_views(kvs@) };
        if parts.len() >= 3 {
            assert(parts@[0]@ == f[0]);
            assert(parts@[1]@ == f[1]);
            assert(parts@[2]@ == f[2]);
            if !started && kstat_header(&parts) {
                started = true;
            } else if is_word(
                parts[0],
                &[0x64u8, 0x61u8, 0x74u8, 0x61u8, 0x73u8, 0x65u8, 0x74u8, 0x5fu8, 0x6eu8, 0x61u8, 0x6du8, 0x65u8],
            ) {
                match find_bytes(line, parts[2]) {
                    Some(k) => {
                        dataset = &line[k..line.len()];
                        assert(dataset@ =~= line@.subrange(k as int, line@.len() as int));
                        assert(objset_step(st, line@) == Ok::<ObjsetScan, Error>(
                            ObjsetScan { started, dataset: dataset@, kvs: named_views(kvs@) },
                        ));
                    },
                    None => {
                        proof {
                            lemma_objset_err(ls, (i + 1) as nat, ls.len(), Error::Malformed("pool objset line"));
                        }
                        return Err(Error::Malformed("pool objset line"));
                    },
                }
            } else if is_word(parts[1], &[0x34u8]) {
                match parse_u64(parts[2]) {
                    Some(v) => {
                        let ghost before = kvs@;
                        kvs.push((parts[0], v));
                        assert(named_views(kvs@) =~= named_views(before).push((f[0], v)));
                    },
                    None => {
                        proof {
                            lemma_objset_err(ls, (i + 1) as nat, ls.len(), Error::ParseInt);
                        }
                        return Err(Error::ParseInt);
                    },
                }
            }
        }
        i = i + 1;
    }
    Ok((dataset, kvs))
}

} // verus!
