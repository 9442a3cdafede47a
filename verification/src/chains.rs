//! The per-provider chain-name mapping.
//!
//! A provider maps CAIP-2 chain identifiers to its own upstream network
//! token (typically a subdomain segment). The mapping is built once at
//! provider construction from configuration pairs and never changes
//! afterwards; concurrent lookups therefore never race with mutation.
use crate::text::str_eq;
use vstd::prelude::*;

verus! {

/// The mathematical content of a sequence of configuration pairs: pairs are
/// taken in order, and a pair whose chain identifier was already seen is
/// ignored (first entry wins).
pub open spec fn map_of_pairs(pairs: Seq<(String, String)>) -> Map<Seq<char>, Seq<char>>
    decreases pairs.len(),
{
    if pairs.len() == 0 {
        Map::empty()
    } else {
        let prefix = map_of_pairs(pairs.drop_last());
        let last = pairs.last();
        if prefix.contains_key(last.0@) {
            prefix
        } else {
            prefix.insert(last.0@, last.1@)
        }
    }
}

/// An immutable mapping from CAIP-2 chain identifier to upstream network
/// token, with one entry per chain identifier.
pub struct ChainMap {
    entries: Vec<(String, String)>,
}

impl View for ChainMap {
    type V = Map<Seq<char>, Seq<char>>;

    closed spec fn view(&self) -> Map<Seq<char>, Seq<char>> {
        map_of_pairs(self.entries@)
    }
}

/// A key of `map_of_pairs` is exactly a key occurring in the pairs.
proof fn lemma_map_of_pairs_dom(pairs: Seq<(String, String)>, k: Seq<char>)
    ensures
        map_of_pairs(pairs).contains_key(k) <==> exists|i: int|
            0 <= i < pairs.len() && pairs[i].0@ == k,
    decreases pairs.len(),
{
    if pairs.len() > 0 {
        lemma_map_of_pairs_dom(pairs.drop_last(), k);
        if map_of_pairs(pairs).contains_key(k) {
            if pairs.last().0@ == k {
                assert(pairs[pairs.len() - 1].0@ == k);
            } else {
                let i = choose|i: int| 0 <= i < pairs.drop_last().len() && pairs.drop_last()[i].0@
                    == k;
                assert(pairs[i].0@ == k);
            }
        } else {
            assert forall|i: int| 0 <= i < pairs.len() implies pairs[i].0@ != k by {
                if i < pairs.len() - 1 {
                    assert(pairs.drop_last()[i].0@ == pairs[i].0@);
                }
            }
        }
    }
}

/// With distinct keys, the value mapped to the key of entry `i` is the value
/// of entry `i`.
proof fn lemma_map_of_pairs_get(pairs: Seq<(String, String)>, i: int)
    requires
        forall|p: int, q: int|
            0 <= p < q < pairs.len() ==> pairs[p].0@ != pairs[q].0@,
        0 <= i < pairs.len(),
    ensures
        map_of_pairs(pairs).contains_key(pairs[i].0@),
        map_of_pairs(pairs)[pairs[i].0@] == pairs[i].1@,
    decreases pairs.len(),
{
    let k = pairs[i].0@;
    lemma_map_of_pairs_dom(pairs, k);
    lemma_map_of_pairs_dom(pairs.drop_last(), pairs.last().0@);
    if i == pairs.len() - 1 {
        if map_of_pairs(pairs.drop_last()).contains_key(k) {
            let j = choose|j: int| 0 <= j < pairs.drop_last().len() && pairs.drop_last()[j].0@
                == k;
            assert(pairs[j].0@ == k);
        }
    } else {
        assert(pairs.drop_last()[i] == pairs[i]);
        lemma_map_of_pairs_get(pairs.drop_last(), i);
        assert(pairs.last().0@ != k);
    }
}

impl ChainMap {
    /// One entry per chain identifier.
    pub closed spec fn wf(&self) -> bool {
        forall|p: int, q: int|
            0 <= p < q < self.entries@.len() ==> self.entries@[p].0@ != self.entries@[q].0@
    }

    /// Build the mapping from configuration pairs, first entry winning on a
    /// repeated chain identifier.
    pub fn from_pairs(pairs: &Vec<(String, String)>) -> (r: ChainMap)
        ensures
            r.wf(),
            r@ == map_of_pairs(pairs@),
    {
        let mut cm = ChainMap { entries: Vec::new() };
        proof {
            assert(cm@ =~= map_of_pairs(pairs@.subrange(0, 0)));
        }
        let mut idx: usize = 0;
        while idx < pairs.len()
            invariant
                idx <= pairs@.len(),
                cm.wf(),
                cm@ == map_of_pairs(pairs@.subrange(0, idx as int)),
            decreases pairs@.len() - idx,
        {
            let key_present = cm.contains_key(pairs[idx].0.as_str());
            if !key_present {
                let ghost old_entries = cm.entries@;
                let key = pairs[idx].0.clone();
                let value = pairs[idx].1.clone();
                proof {
                    lemma_map_of_pairs_dom(old_entries, key@);
                }
                cm.entries.push((key, value));
                proof {
                    assert(cm.entries@.drop_last() =~= old_entries);
                }
            }
            proof {
                assert(pairs@.subrange(0, idx + 1).drop_last() =~= pairs@.subrange(
                    0,
                    idx as int,
                ));
                assert(pairs@.subrange(0, idx + 1).last() == pairs@[idx as int]);
                assert(cm@ =~= map_of_pairs(pairs@.subrange(0, idx + 1)));
            }
            idx += 1;
        }
        proof {
            assert(pairs@.subrange(0, pairs@.len() as int) =~= pairs@);
        }
        cm
    }

    /// Membership test for a chain identifier.
    pub fn contains_key(&self, chain_id: &str) -> (r: bool)
        ensures
            r == self@.contains_key(chain_id@),
    {
        let mut i: usize = 0;
        while i < self.entries.len()
            invariant
                i <= self.entries@.len(),
                forall|t: int| 0 <= t < i ==> self.entries@[t].0@ != chain_id@,
            decreases self.entries@.len() - i,
        {
            if str_eq(self.entries[i].0.as_str(), chain_id) {
                proof {
                    lemma_map_of_pairs_dom(self.entries@, chain_id@);
                    assert(self.entries@[i as int].0@ == chain_id@);
                }
                return true;
            }
            i += 1;
        }
        proof {
            lemma_map_of_pairs_dom(self.entries@, chain_id@);
        }
        false
    }

    /// Look up the upstream network token mapped to a chain identifier.
    pub fn get(&self, chain_id: &str) -> (r: Option<&String>)
        requires
            self.wf(),
        ensures
            match r {
                Some(v) => self@.contains_key(chain_id@) && v@ == self@[chain_id@],
                None => !self@.contains_key(chain_id@),
            },
    {
        let mut i: usize = 0;
        while i < self.entries.len()
            invariant
                self.wf(),
                i <= self.entries@.len(),
                forall|t: int| 0 <= t < i ==> self.entries@[t].0@ != chain_id@,
            decreases self.entries@.len() - i,
        {
            if str_eq(self.entries[i].0.as_str(), chain_id) {
                proof {
                    lemma_map_of_pairs_get(self.entries@, i as int);
                }
                return Some(&self.entries[i].1);
            }
            i += 1;
        }
        proof {
            lemma_map_of_pairs_dom(self.entries@, chain_id@);
        }
        None
    }

    /// All chain identifiers of the mapping, without duplicates.
    pub fn keys(&self) -> (r: Vec<String>)
        requires
            self.wf(),
        ensures
            forall|i: int| 0 <= i < r@.len() ==> self@.contains_key(#[trigger] r@[i]@),
            forall|k: Seq<char>|
                self@.contains_key(k) ==> exists|i: int| 0 <= i < r@.len() && r@[i]@ == k,
            forall|i: int, j: int| 0 <= i < j < r@.len() ==> r@[i]@ != r@[j]@,
    {
        let mut out: Vec<String> = Vec::new();
        let mut i: usize = 0;
        while i < self.entries.len()
            invariant
                self.wf(),
                i <= self.entries@.len(),
                out@.len() == i,
                forall|t: int| 0 <= t < i ==> out@[t]@ == self.entries@[t].0@,
            decreases self.entries@.len() - i,
        {
            out.push(self.entries[i].0.clone());
            i += 1;
        }
        proof {
            assert forall|i: int| 0 <= i < out@.len() implies self@.contains_key(
                #[trigger] out@[i]@,
            ) by {
                lemma_map_of_pairs_dom(self.entries@, out@[i]@);
            }
            assert forall|k: Seq<char>| self@.contains_key(k) implies exists|i: int|
                0 <= i < out@.len() && out@[i]@ == k by {
                lemma_map_of_pairs_dom(self.entries@, k);
                let i = choose|i: int| 0 <= i < self.entries@.len() && self.entries@[i].0@ == k;
                assert(out@[i]@ == k);
            }
        }
        out
    }
}

} // verus!
