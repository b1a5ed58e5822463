//! Process and thread states from /proc/<pid>/stat and
//! /proc/<pid>/task/<tid>/stat.

use vstd::prelude::*;
use vstd::string::StringSliceAdditionalSpecFns;

use crate::text::{bytes_eq, char_boundary, rfind_byte};

verus! {

/// The state field of a stat line: the single byte two bytes after the last
/// `)` (the command name, in parentheses, may itself hold parentheses).
/// `None` when there is no `)` or that byte is not a whole character.
pub fn parse_state(content: &str) -> (r: Option<&[u8]>)
    ensures
        ({
            let b = content.spec_bytes();
            &&& r is None <==> (forall|k: int| 0 <= k < b.len() ==> b[k] != 0x29u8) || exists|
                i: int,
            |
                0 <= i < b.len() && b[i] == 0x29u8 && (forall|k: int|
                    i < k < b.len() ==> b[k] != 0x29u8) && !(i + 3 <= b.len() && char_boundary(
                    b,
                    i + 2,
                ) && char_boundary(b, i + 3))
            &&& r matches Some(st) ==> exists|i: int|
                0 <= i < b.len() && b[i] == 0x29u8 && (forall|k: int|
                    i < k < b.len() ==> b[k] != 0x29u8) && i + 3 <= b.len() && st@ == b.subrange(
                    i + 2,
                    i + 3,
                )
        }),
{
    let b = content.as_bytes();
    let index = match rfind_byte(b, 0x29u8) {
        Some(i) => i,
        None => return None,
    };
    let len = b.len();
    if len - index < 3 {
        return None;
    }
    let ok2 = index + 2 == len || b[index + 2] < 0x80u8 || b[index + 2] >= 0xc0u8;
    let ok3 = index + 3 == len || b[index + 3] < 0x80u8 || b[index + 3] >= 0xc0u8;
    if !ok2 || !ok3 {
        return None;
    }
    Some(&b[index + 2..index + 3])
}

/// The sum of the counts `s`.
pub open spec fn sum_counts(s: Seq<usize>) -> nat
    decreases s.len(),
{
    if s.len() == 0 {
        0
    } else {
        sum_counts(s.drop_last()) + s.last() as nat
    }
}

proof fn lemma_sum_counts_take(s: Seq<usize>, i: int)
    requires
        0 <= i < s.len(),
    ensures
        sum_counts(s.take(i + 1)) == sum_counts(s.take(i)) + s[i],
{
    assert(s.take(i + 1).drop_last() =~= s.take(i));
}

proof fn lemma_sum_counts_prefix(s: Seq<usize>, i: int)
    requires
        0 <= i <= s.len(),
    ensures
        sum_counts(s.take(i)) <= sum_counts(s),
    decreases s.len() - i,
{
    if i < s.len() {
        lemma_sum_counts_prefix(s, i + 1);
        lemma_sum_counts_take(s, i);
    } else {
        assert(s.take(i) =~= s);
    }
}

proof fn lemma_sum_counts_update(s: Seq<usize>, k: int, v: usize)
    requires
        0 <= k < s.len(),
    ensures
        sum_counts(s.update(k, v)) + s[k] == sum_counts(s) + v,
    decreases s.len(),
{
    if k == s.len() - 1 {
        assert(s.update(k, v).drop_last() =~= s.drop_last());
    } else {
        lemma_sum_counts_update(s.drop_last(), k, v);
        assert(s.update(k, v).drop_last() =~= s.drop_last().update(k, v));
    }
}

proof fn lemma_sum_counts_zero(n: nat)
    ensures
        sum_counts(Seq::new(n, |i: int| 0usize)) == 0,
    decreases n,
{
    if n > 0 {
        lemma_sum_counts_zero((n - 1) as nat);
        assert(Seq::new(n, |i: int| 0usize).drop_last() =~= Seq::new(
            (n - 1) as nat,
            |i: int| 0usize,
        ));
    }
}

/// How many processes (or threads) are in each state.
pub struct Stats {
    states: Vec<Vec<u8>>,
    counts: Vec<usize>,
}

impl Stats {
    /// The states seen, in the order they were first seen.
    pub closed spec fn states(&self) -> Seq<Seq<u8>> {
        self.states@.map_values(|s: Vec<u8>| s@)
    }

    /// The counts, one per state of `states()`.
    pub closed spec fn counts(&self) -> Seq<usize> {
        self.counts@
    }

    /// Each state is listed once, with one count.
    pub closed spec fn wf(&self) -> bool {
        &&& self.states@.len() == self.counts@.len()
        &&& forall|i: int, j: int|
            0 <= i < j < self.states@.len() ==> self.states@[i]@ != self.states@[j]@
    }

    /// The count of `state`, 0 for a state never seen.
    pub open spec fn count(&self, state: Seq<u8>) -> nat {
        if exists|i: int| 0 <= i < self.states().len() && self.states()[i] == state {
            self.counts()[choose|i: int| 0 <= i < self.states().len() && self.states()[i] == state]
                as nat
        } else {
            0
        }
    }

    proof fn lemma_count_at(&self, j: int)
        requires
            self.wf(),
            0 <= j < self.states().len(),
        ensures
            self.count(self.states()[j]) == self.counts()[j],
    {
        let s = self.states()[j];
        let c = choose|i: int| 0 <= i < self.states().len() && self.states()[i] == s;
        assert(self.states@[c]@ == self.states@[j]@);
        if c != j {
            assert(c < j || j < c);
        }
    }

    proof fn lemma_count_absent(&self, s: Seq<u8>)
        requires
            !self.states().contains(s),
        ensures
            self.count(s) == 0,
    {
        if exists|i: int| 0 <= i < self.states().len() && self.states()[i] == s {
            let i = choose|i: int| 0 <= i < self.states().len() && self.states()[i] == s;
            assert(self.states().contains(s));
        }
    }

    /// The sum of all counts.
    pub open spec fn total_spec(&self) -> nat {
        sum_counts(self.counts())
    }

    pub fn new() -> (r: Self)
        ensures
            r.wf(),
            r.states().len() == 0,
            r.total_spec() == 0,
    {
        let r = Stats { states: Vec::new(), counts: Vec::new() };
        proof {
            assert(r.counts() =~= Seq::<usize>::empty());
        }
        r
    }

    /// The number of distinct states seen.
    pub fn len(&self) -> (r: usize)
        requires
            self.wf(),
        ensures
            r == self.states().len(),
    {
        self.states.len()
    }

    /// The `i`-th state seen, with its count.
    pub fn state_at(&self, i: usize) -> (r: (&[u8], usize))
        requires
            self.wf(),
            i < self.states().len(),
        ensures
            r.0@ == self.states()[i as int],
            r.1 == self.counts()[i as int],
            r.1 == self.count(r.0@),
    {
        proof {
            self.lemma_count_at(i as int);
        }
        (self.states[i].as_slice(), self.counts[i])
    }

    /// The sum of all counts.
    pub fn total(&self) -> (r: usize)
        requires
            self.wf(),
            self.total_spec() <= usize::MAX,
        ensures
            r == self.total_spec(),
    {
        let mut acc: usize = 0;
        let mut i: usize = 0;
        while i < self.counts.len()
            invariant
                i <= self.counts@.len(),
                acc == sum_counts(self.counts@.take(i as int)),
                sum_counts(self.counts@) <= usize::MAX,
            decreases self.counts@.len() - i,
        {
            proof {
                lemma_sum_counts_take(self.counts@, i as int);
                lemma_sum_counts_prefix(self.counts@, i + 1);
            }
            acc = acc + self.counts[i];
            i = i + 1;
        }
        proof {
            assert(self.counts@.take(i as int) =~= self.counts@);
        }
        acc
    }

    /// Counts one more process in `state`.
    pub fn append(&mut self, state: &[u8])
        requires
            old(self).wf(),
            old(self).total_spec() < usize::MAX,
        ensures
            final(self).wf(),
            final(self).total_spec() == old(self).total_spec() + 1,
            final(self).count(state@) == old(self).count(state@) + 1,
            forall|s: Seq<u8>| s != state@ ==> final(self).count(s) == old(self).count(s),
            old(self).states().contains(state@) ==> final(self).states() == old(self).states(),
            !old(self).states().contains(state@) ==> final(self).states() == old(
                self,
            ).states().push(state@),
    {
        let ghost old_states = self.states();
        let ghost old_counts = self.counts();
        let mut i: usize = 0;
        while i < self.states.len()
            invariant
                i <= self.states@.len(),
                self.wf(),
                self.states() == old_states,
                self.counts() == old_counts,
                old_states == old(self).states(),
                old_counts == old(self).counts(),
                old(self).wf(),
                sum_counts(old_counts) < usize::MAX,
                forall|k: int| 0 <= k < i ==> self.states@[k]@ != state@,
            decreases self.states@.len() - i,
        {
            if bytes_eq(self.states[i].as_slice(), state) {
                let v = self.counts[i];
                proof {
                    lemma_sum_counts_prefix(self.counts@, i as int + 1);
                    lemma_sum_counts_take(self.counts@, i as int);
                    lemma_sum_counts_update(self.counts@, i as int, (v + 1) as usize);
                }
                self.counts.set(i, v + 1);
                proof {
                    assert(self.states()[i as int] == state@);
                    self.lemma_count_at(i as int);
                    old(self).lemma_count_at(i as int);
                    assert forall|s: Seq<u8>| s != state@ implies self.count(s) == old(self).count(
                        s,
                    ) by {
                        if self.states().contains(s) {
                            let j = choose|j: int|
                                0 <= j < self.states().len() && self.states()[j] == s;
                            self.lemma_count_at(j);
                            old(self).lemma_count_at(j);
                        } else {
                            self.lemma_count_absent(s);
                            old(self).lemma_count_absent(s);
                        }
                    }
                    assert(self.states().contains(state@));
                }
                return;
            }
            i = i + 1;
        }
        let ghost n = self.states@.len();
        self.states.push(vstd::slice::slice_to_vec(state));
        self.counts.push(1);
        proof {
            assert(self.states() =~= old_states.push(state@));
            assert(self.counts() =~= old_counts.push(1usize));
            assert(self.counts().drop_last() =~= old_counts);
            assert(!old_states.contains(state@)) by {
                if old_states.contains(state@) {
                    let k = choose|k: int| 0 <= k < old_states.len() && old_states[k] == state@;
                    assert(self.states@[k]@ == old_states[k]);
                }
            }
            assert(self.states()[n as int] == state@);
            assert(self.wf()) by {
                assert forall|a: int, b: int|
                    0 <= a < b < self.states@.len() implies self.states@[a]@
                    != self.states@[b]@ by {
                    assert(self.states@[a]@ == self.states()[a]);
                    assert(self.states@[b]@ == self.states()[b]);
                    if b < n {
                        assert(old(self).states@[a]@ == old_states[a]);
                        assert(old(self).states@[b]@ == old_states[b]);
                    }
                }
            }
            self.lemma_count_at(n as int);
            old(self).lemma_count_absent(state@);
            assert forall|s: Seq<u8>| s != state@ implies self.count(s) == old(self).count(s) by {
                if self.states().contains(s) {
                    let j = choose|j: int| 0 <= j < self.states().len() && self.states()[j] == s;
                    assert(j < n);
                    self.lemma_count_at(j);
                    assert(old(self).states()[j] == s);
                    old(self).lemma_count_at(j);
                } else {
                    self.lemma_count_absent(s);
                    assert(!old(self).states().contains(s)) by {
                        if old(self).states().contains(s) {
                            let k = choose|k: int|
                                0 <= k < old_states.len() && old_states[k] == s;
                            assert(self.states()[k] == s);
                        }
                    }
                    old(self).lemma_count_absent(s);
                }
            }
        }
    }

    /// Resets every count to 0, keeping the states seen.
    pub fn clear(&mut self)
        requires
            old(self).wf(),
        ensures
            final(self).wf(),
            final(self).states() == old(self).states(),
            final(self).total_spec() == 0,
            forall|s: Seq<u8>| final(self).count(s) == 0,
    {
        let mut i: usize = 0;
        while i < self.counts.len()
            invariant
                i <= self.counts@.len(),
                self.wf(),
                self.states() == old(self).states(),
                forall|k: int| 0 <= k < i ==> self.counts@[k] == 0,
            decreases self.counts@.len() - i,
        {
            self.counts.set(i, 0);
            i = i + 1;
        }
        proof {
            assert(self.counts() =~= Seq::new(self.counts@.len(), |i: int| 0usize));
            lemma_sum_counts_zero(self.counts@.len());
        }
    }
}

} // verus!
