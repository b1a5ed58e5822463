//! /proc/slabinfo: the caches of the slab allocator.

use vstd::prelude::*;
use vstd::string::StringSliceAdditionalSpecFns;

use super::Error;
use crate::pattern::{regex_is_match, Pattern};
use crate::text::{dec_i64, fields, lines, parse_i64, split_ascii_ws, split_lines, views};

verus! {

/// One cache of /proc/slabinfo (version 2.1).
#[derive(Debug, PartialEq, Eq)]
pub struct Slab<'a> {
    pub name: &'a [u8],
    pub obj_active: i64,
    pub obj_num: i64,
    pub obj_size: i64,
    pub obj_per_slab: i64,
    pub pages_per_slab: i64,
    pub limit: i64,
    pub batch: i64,
    pub shared_factor: i64,
    pub slab_active: i64,
    pub slab_num: i64,
    pub shared_avail: i64,
}

/// What a slab line holds, as plain values.
pub struct SlabModel {
    pub name: Seq<u8>,
    pub obj_active: i64,
    pub obj_num: i64,
    pub obj_size: i64,
    pub obj_per_slab: i64,
    pub pages_per_slab: i64,
    pub limit: i64,
    pub batch: i64,
    pub shared_factor: i64,
    pub slab_active: i64,
    pub slab_num: i64,
    pub shared_avail: i64,
}

impl<'a> View for Slab<'a> {
    type V = SlabModel;

    open spec fn view(&self) -> SlabModel {
        SlabModel {
            name: self.name@,
            obj_active: self.obj_active,
            obj_num: self.obj_num,
            obj_size: self.obj_size,
            obj_per_slab: self.obj_per_slab,
            pages_per_slab: self.pages_per_slab,
            limit: self.limit,
            batch: self.batch,
            shared_factor: self.shared_factor,
            slab_active: self.slab_active,
            slab_num: self.slab_num,
            shared_avail: self.shared_avail,
        }
    }
}

/// The fields of a slab line that hold numbers.
pub open spec fn numeric_field(k: int) -> bool {
    (1 <= k <= 5) || (8 <= k <= 10) || (13 <= k <= 15)
}

/// The cache that a slab line with fields `f` describes: sixteen fields,
/// the name first; a number that is not an `i64` is an error.
pub open spec fn slab_of(f: Seq<Seq<u8>>) -> Result<SlabModel, Error> {
    if f.len() != 16 {
        Err(Error::Malformed("slab line"))
    } else if exists|k: int| 0 <= k < 16 && numeric_field(k) && #[trigger] dec_i64(f[k]) is None {
        Err(Error::ParseInt)
    } else {
        Ok(SlabModel {
            name: f[0],
            obj_active: dec_i64(f[1])->0,
            obj_num: dec_i64(f[2])->0,
            obj_size: dec_i64(f[3])->0,
            obj_per_slab: dec_i64(f[4])->0,
            pages_per_slab: dec_i64(f[5])->0,
            limit: dec_i64(f[8])->0,
            batch: dec_i64(f[9])->0,
            shared_factor: dec_i64(f[10])->0,
            slab_active: dec_i64(f[13])->0,
            slab_num: dec_i64(f[14])->0,
            shared_avail: dec_i64(f[15])->0,
        })
    }
}

/// The caches of the lines of `ls` from the third up to the `n`th.
pub open spec fn slabs_from_lines(ls: Seq<Seq<u8>>, n: nat) -> Result<Seq<SlabModel>, Error>
    decreases n,
{
    if n <= 2 || n > ls.len() {
        Ok(Seq::empty())
    } else {
        match slabs_from_lines(ls, (n - 1) as nat) {
            Ok(s) => match slab_of(fields(ls[n - 1])) {
                Ok(slab) => Ok(s.push(slab)),
                Err(e) => Err(e),
            },
            Err(e) => Err(e),
        }
    }
}

proof fn lemma_from_lines_err(ls: Seq<Seq<u8>>, i: nat, n: nat, e: Error)
    requires
        i <= n <= ls.len(),
        slabs_from_lines(ls, i) == Err::<Seq<SlabModel>, Error>(e),
    ensures
        slabs_from_lines(ls, n) == Err::<Seq<SlabModel>, Error>(e),
    decreases n - i,
{
    if i < n {
        lemma_from_lines_err(ls, i, (n - 1) as nat, e);
    }
}

/// Reads one slab line.
pub fn parse_slab_line(line: &[u8]) -> (r: Result<Slab<'_>, Error>)
    ensures
        match slab_of(fields(line@)) {
            Ok(m) => r matches Ok(s) && s@ == m,
            Err(e) => r == Err::<Slab, Error>(e),
        },
{
    let parts = split_ascii_ws(line);
    let ghost f = fields(line@);
    if parts.len() != 16 {
        return Err(Error::Malformed("slab line"));
    }
    assert(parts@[1]@ == f[1]);
    let obj_active = match parse_i64(parts[1]) {
        Some(v) => v,
        None => {
            assert(numeric_field(1) && dec_i64(f[1]) is None);
            return Err(Error::ParseInt);
        },
    };
    assert(parts@[2]@ == f[2]);
    let obj_num = match parse_i64(parts[2]) {
        Some(v) => v,
        None => {
            assert(numeric_field(2) && dec_i64(f[2]) is None);
            return Err(Error::ParseInt);
        },
    };
    assert(parts@[3]@ == f[3]);
    let obj_size = match parse_i64(parts[3]) {
        Some(v) => v,
        None => {
            assert(numeric_field(3) && dec_i64(f[3]) is None);
            return Err(Error::ParseInt);
        },
    };
    assert(parts@[4]@ == f[4]);
    let obj_per_slab = match parse_i64(parts[4]) {
        Some(v) => v,
        None => {
            assert(numeric_field(4) && dec_i64(f[4]) is None);
            return Err(Error::ParseInt);
        },
    };
    assert(parts@[5]@ == f[5]);
    let pages_per_slab = match parse_i64(parts[5]) {
        Some(v) => v,
        None => {
            assert(numeric_field(5) && dec_i64(f[5]) is None);
            return Err(Error::ParseInt);
        },
    };
    assert(parts@[8]@ == f[8]);
    let limit = match parse_i64(parts[8]) {
        Some(v) => v,
        None => {
            assert(numeric_field(8) && dec_i64(f[8]) is None);
            return Err(Error::ParseInt);
        },
    };
    assert(parts@[9]@ == f[9]);
    let batch = match parse_i64(parts[9]) {
        Some(v) => v,
        None => {
            assert(numeric_field(9) && dec_i64(f[9]) is None);
            return Err(Error::ParseInt);
        },
    };
    assert(parts@[10]@ == f[10]);
    let shared_factor = match parse_i64(parts[10]) {
        Some(v) => v,
        None => {
            assert(numeric_field(10) && dec_i64(f[10]) is None);
            return Err(Error::ParseInt);
        },
    };
    assert(parts@[13]@ == f[13]);
    let slab_active = match parse_i64(parts[13]) {
        Some(v) => v,
        None => {
            assert(numeric_field(13) && dec_i64(f[13]) is None);
            return Err(Error::ParseInt);
        },
    };
    assert(parts@[14]@ == f[14]);
    let slab_num = match parse_i64(parts[14]) {
        Some(v) => v,
        None => {
            assert(numeric_field(14) && dec_i64(f[14]) is None);
            return Err(Error::ParseInt);
        },
    };
    assert(parts@[15]@ == f[15]);
    let shared_avail = match parse_i64(parts[15]) {
        Some(v) => v,
        None => {
            assert(numeric_field(15) && dec_i64(f[15]) is None);
            return Err(Error::ParseInt);
        },
    };
    assert(parts@[0]@ == f[0]);
    proof {
        assert forall|k: int| 0 <= k < 16 && numeric_field(k) implies !(#[trigger] dec_i64(f[k]) is None) by {
        }
    }
    Ok(Slab {
        name: parts[0],
        obj_active,
        obj_num,
        obj_size,
        obj_per_slab,
        pages_per_slab,
        limit,
        batch,
        shared_factor,
        slab_active,
        slab_num,
        shared_avail,
    })
}

/// The models of a sequence of caches.
pub open spec fn slab_views(s: Seq<Slab>) -> Seq<SlabModel> {
    s.map_values(|x: Slab| x@)
}

/// Parses /proc/slabinfo: the version and header lines are skipped, every
/// other line must describe a cache.
pub fn parse_slab_info(content: &str) -> (r: Result<Vec<Slab<'_>>, Error>)
    ensures
        match slabs_from_lines(lines(content.spec_bytes()), lines(content.spec_bytes()).len()) {
            Ok(m) => r matches Ok(v) && slab_views(v@) == m,
            Err(e) => r == Err::<Vec<Slab>, Error>(e),
        },
{
    let all = split_lines(content.as_bytes());
    let ghost ls = lines(content.spec_bytes());
    let mut slabs: Vec<Slab> = Vec::new();
    let mut i: usize = 2;
    if all.len() < 2 {
        assert(slab_views(slabs@) =~= Seq::<SlabModel>::empty());
        return Ok(slabs);
    }
    assert(slab_views(slabs@) =~= Seq::<SlabModel>::empty());
    while i < all.len()
        invariant
            2 <= i <= all@.len(),
            views(all@) == ls,
            ls == lines(content.spec_bytes()),
            slabs_from_lines(ls, i as nat) == Ok::<Seq<SlabModel>, Error>(slab_views(slabs@)),
        decreases all@.len() - i,
    {
        let line = all[i];
        assert(line@ == ls[i as int]);
        match parse_slab_line(line) {
            Ok(slab) => {
                let ghost before = slabs@;
                slabs.push(slab);
                assert(slab_views(slabs@) =~= slab_views(before).push(slab@));
            },
            Err(e) => {
                proof {
                    lemma_from_lines_err(ls, (i + 1) as nat, ls.len(), e);
                }
                return Err(e);
            },
        }
        i = i + 1;
    }
    Ok(slabs)
}

/// Which caches the collector reports.
pub struct Config {
    /// Caches whose name this matches are reported; an empty pattern
    /// reports all.
    pub keep: Pattern,
    /// Caches whose name this matches are not reported.
    pub exclude: Option<Pattern>,
}

impl Config {
    /// Whether the cache `name` is left out: a non-empty exclude pattern
    /// matches it, or a non-empty `keep` pattern does not.
    pub fn ignore(&self, name: &str) -> (r: bool)
        ensures
            r == ((self.exclude matches Some(e) && e@.len() > 0 && regex_is_match(e@, name@)) || (
            self.keep@.len() > 0 && !regex_is_match(self.keep@, name@))),
    {
        match &self.exclude {
            Some(exclude) => {
                if !exclude.as_str().is_empty() && exclude.is_match(name) {
                    return true;
                }
            },
            None => {},
        }
        !self.keep.as_str().is_empty() && !self.keep.is_match(name)
    }
}

} // verus!
