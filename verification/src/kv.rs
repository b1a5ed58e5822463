//! Maps between byte strings that keep their keys unique.

use vstd::prelude::*;

use crate::text::bytes_eq;

verus! {

/// The map that a sequence of key/value pairs gives, later pairs replacing
/// earlier ones.
pub open spec fn pairs_map(s: Seq<(&[u8], &[u8])>) -> Map<Seq<u8>, Seq<u8>>
    decreases s.len(),
{
    if s.len() == 0 {
        Map::empty()
    } else {
        pairs_map(s.drop_last()).insert(s.last().0@, s.last().1@)
    }
}

/// No key occurs twice.
pub open spec fn keys_unique(s: Seq<(&[u8], &[u8])>) -> bool {
    forall|i: int, j: int| 0 <= i < j < s.len() ==> #[trigger] s[i].0@ != #[trigger] s[j].0@
}

proof fn lemma_pairs_map_at(s: Seq<(&[u8], &[u8])>, j: int)
    requires
        keys_unique(s),
        0 <= j < s.len(),
    ensures
        pairs_map(s).contains_key(s[j].0@),
        pairs_map(s)[s[j].0@] == s[j].1@,
    decreases s.len(),
{
    if j < s.len() - 1 {
        assert(keys_unique(s.drop_last()));
        assert(s.drop_last()[j] == s[j]);
        lemma_pairs_map_at(s.drop_last(), j);
        assert(s[j].0@ != s[s.len() - 1].0@);
    }
}

proof fn lemma_pairs_map_keys(s: Seq<(&[u8], &[u8])>, k: Seq<u8>)
    requires
        pairs_map(s).contains_key(k),
    ensures
        exists|i: int| 0 <= i < s.len() && #[trigger] s[i].0@ == k,
    decreases s.len(),
{
    if s.len() > 0 && s.last().0@ != k {
        lemma_pairs_map_keys(s.drop_last(), k);
        let i = choose|i: int| 0 <= i < s.drop_last().len() && #[trigger] s.drop_last()[i].0@ == k;
        assert(s[i].0@ == k);
    }
}

proof fn lemma_pairs_map_update(s: Seq<(&[u8], &[u8])>, j: int, p: (&[u8], &[u8]))
    requires
        keys_unique(s),
        0 <= j < s.len(),
        p.0@ == s[j].0@,
    ensures
        pairs_map(s.update(j, p)) == pairs_map(s).insert(p.0@, p.1@),
    decreases s.len(),
{
    let u = s.update(j, p);
    if j == s.len() - 1 {
        assert(u.drop_last() =~= s.drop_last());
        assert(pairs_map(u) =~= pairs_map(s).insert(p.0@, p.1@));
    } else {
        assert(keys_unique(s.drop_last()));
        assert(u.drop_last() =~= s.drop_last().update(j, p));
        lemma_pairs_map_update(s.drop_last(), j, p);
        assert(s[j].0@ != s.last().0@);
        assert(pairs_map(u) =~= pairs_map(s).insert(p.0@, p.1@));
    }
}

/// Key/value pairs of byte strings, each key once: a map that keeps the
/// pairs in the order their keys were first set.
pub struct ByteMap<'a> {
    entries: Vec<(&'a [u8], &'a [u8])>,
}

impl<'a> View for ByteMap<'a> {
    type V = Map<Seq<u8>, Seq<u8>>;

    closed spec fn view(&self) -> Map<Seq<u8>, Seq<u8>> {
        pairs_map(self.entries@)
    }
}

impl<'a> ByteMap<'a> {
    /// No key occurs twice.
    pub closed spec fn wf(self) -> bool {
        keys_unique(self.entries@)
    }

    /// The pairs, in the order their keys were first inserted.
    pub fn pairs(&self) -> (r: &Vec<(&'a [u8], &'a [u8])>)
        requires
            self.wf(),
        ensures
            pairs_map(r@) == self@,
            keys_unique(r@),
    {
        &self.entries
    }

    /// No pairs.
    pub fn new() -> (r: ByteMap<'a>)
        ensures
            r.wf(),
            r@ == Map::<Seq<u8>, Seq<u8>>::empty(),
    {
        ByteMap { entries: Vec::new() }
    }

    /// The number of keys.
    pub fn len(&self) -> (r: usize)
        requires
            self.wf(),
        ensures
            r == self@.dom().len(),
    {
        proof {
            lemma_dom_len(self.entries@);
        }
        self.entries.len()
    }

    /// The value of `key`, if it has one.
    pub fn get(&self, key: &[u8]) -> (r: Option<&'a [u8]>)
        requires
            self.wf(),
        ensures
            match r {
                Some(v) => self@.contains_key(key@) && self@[key@] == v@,
                None => !self@.contains_key(key@),
            },
    {
        let mut i: usize = 0;
        while i < self.entries.len()
            invariant
                i <= self.entries@.len(),
                keys_unique(self.entries@),
                forall|k: int| 0 <= k < i ==> #[trigger] self.entries@[k].0@ != key@,
            decreases self.entries@.len() - i,
        {
            if bytes_eq(self.entries[i].0, key) {
                proof {
                    lemma_pairs_map_at(self.entries@, i as int);
                }
                return Some(self.entries[i].1);
            }
            i = i + 1;
        }
        proof {
            if pairs_map(self.entries@).contains_key(key@) {
                lemma_pairs_map_keys(self.entries@, key@);
            }
        }
        None
    }

    /// Sets `key` to `value`, replacing what it had.
    pub fn insert(&mut self, key: &'a [u8], value: &'a [u8])
        requires
            old(self).wf(),
        ensures
            final(self).wf(),
            final(self)@ == old(self)@.insert(key@, value@),
    {
        let mut i: usize = 0;
        while i < self.entries.len()
            invariant
                i <= self.entries@.len(),
                self.entries@ == old(self).entries@,
                keys_unique(self.entries@),
                forall|k: int| 0 <= k < i ==> #[trigger] self.entries@[k].0@ != key@,
            decreases self.entries@.len() - i,
        {
            if bytes_eq(self.entries[i].0, key) {
                let ghost before = self.entries@;
                self.entries.set(i, (key, value));
                proof {
                    lemma_pairs_map_update(before, i as int, (key, value));
                    assert(self.entries@ == before.update(i as int, (key, value)));
                    assert forall|a: int, b: int| 0 <= a < b < self.entries@.len() implies #[trigger] self.entries@[a].0@
                        != #[trigger] self.entries@[b].0@ by {
                        assert(before[a].0@ != before[b].0@);
                    }
                }
                return;
            }
            i = i + 1;
        }
        let ghost before = self.entries@;
        self.entries.push((key, value));
        proof {
            assert(self.entries@.drop_last() =~= before);
            assert forall|a: int, b: int| 0 <= a < b < self.entries@.len() implies #[trigger] self.entries@[a].0@
                != #[trigger] self.entries@[b].0@ by {
                if b < before.len() {
                    assert(before[a].0@ != before[b].0@);
                }
            }
        }
    }
}

proof fn lemma_dom_len(s: Seq<(&[u8], &[u8])>)
    requires
        keys_unique(s),
    ensures
        pairs_map(s).dom().finite(),
        pairs_map(s).dom().len() == s.len(),
    decreases s.len(),
{
    if s.len() > 0 {
        let shorter = s.drop_last();
        assert(keys_unique(shorter));
        lemma_dom_len(shorter);
        if pairs_map(shorter).contains_key(s.last().0@) {
            lemma_pairs_map_keys(shorter, s.last().0@);
            let i = choose|i: int| 0 <= i < shorter.len() && #[trigger] shorter[i].0@ == s.last().0@;
            assert(s[i] == shorter[i]);
            assert(false);
        }
    } else {
        assert(pairs_map(s).dom() =~= Set::<Seq<u8>>::empty());
    }
}


} // verus!
