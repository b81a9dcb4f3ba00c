//! A verified string-keyed association map. It backs every cache of the
//! client: later insertions shadow earlier ones, and lookups see the map view
//! `Map<Seq<char>, T>` built from the entry list.

use vstd::prelude::*;
use crate::strutil::str_eq;

verus! {

/// The map denoted by an entry list: a later entry wins over an earlier one
/// with the same key.
pub open spec fn spec_assoc<T>(entries: Seq<(String, T)>) -> Map<Seq<char>, T>
    decreases entries.len(),
{
    if entries.len() == 0 {
        Map::empty()
    } else {
        spec_assoc(entries.drop_last()).insert(entries.last().0@, entries.last().1)
    }
}

/// If no entry at index `i` or later carries key `k`, the whole list and the
/// prefix before `i` agree about `k`.
proof fn lemma_assoc_skip_tail<T>(entries: Seq<(String, T)>, k: Seq<char>, i: int)
    requires
        0 <= i <= entries.len(),
        forall|j: int| i <= j < entries.len() ==> (#[trigger] entries[j].0)@ != k,
    ensures
        spec_assoc(entries).contains_key(k) == spec_assoc(entries.subrange(0, i)).contains_key(k),
        spec_assoc(entries).contains_key(k) ==> spec_assoc(entries)[k] == spec_assoc(
            entries.subrange(0, i),
        )[k],
    decreases entries.len() - i,
{
    if i < entries.len() {
        let pre = entries.subrange(0, entries.len() - 1);
        assert(pre =~= entries.drop_last());
        lemma_assoc_skip_tail(entries.drop_last(), k, i);
        assert(entries.drop_last().subrange(0, i) =~= entries.subrange(0, i));
    } else {
        assert(entries.subrange(0, i) =~= entries);
    }
}

/// A string-keyed map with verified lookup and insertion.
#[derive(Debug, Clone)]
pub struct StrMap<T> {
    entries: Vec<(String, T)>,
}

impl<T> View for StrMap<T> {
    type V = Map<Seq<char>, T>;

    closed spec fn view(&self) -> Map<Seq<char>, T> {
        spec_assoc(self.entries@)
    }
}

impl<T> StrMap<T> {
    /// An empty map.
    pub fn new() -> (r: Self)
        ensures
            r@ == Map::<Seq<char>, T>::empty(),
    {
        let r = Self { entries: Vec::new() };
        proof {
            assert(r.entries@.len() == 0);
        }
        r
    }

    /// The value stored under `k`, if any.
    pub fn get(&self, k: &str) -> (r: Option<&T>)
        ensures
            match r {
                Some(v) => self@.contains_key(k@) && *v == self@[k@],
                None => !self@.contains_key(k@),
            },
    {
        let n = self.entries.len();
        let mut i: usize = n;
        while i > 0
            invariant
                0 <= i <= n,
                n == self.entries@.len(),
                forall|j: int| i <= j < n ==> (#[trigger] self.entries@[j].0)@ != k@,
            decreases i,
        {
            i -= 1;
            if str_eq(self.entries[i].0.as_str(), k) {
                proof {
                    lemma_assoc_skip_tail(self.entries@, k@, i + 1);
                    let pre = self.entries@.subrange(0, i + 1);
                    assert(pre.drop_last() =~= self.entries@.subrange(0, i as int));
                    assert(pre.last() == self.entries@[i as int]);
                }
                return Some(&self.entries[i].1);
            }
        }
        proof {
            lemma_assoc_skip_tail(self.entries@, k@, 0);
            assert(self.entries@.subrange(0, 0) =~= Seq::<(String, T)>::empty());
        }
        None
    }

    /// Stores `v` under `k`, shadowing any earlier entry.
    pub fn insert(&mut self, k: String, v: T)
        ensures
            final(self)@ == old(self)@.insert(k@, v),
    {
        self.entries.push((k, v));
        proof {
            assert(self.entries@.drop_last() =~= old(self).entries@);
        }
    }

    /// Removes every entry.
    pub fn clear(&mut self)
        ensures
            final(self)@ == Map::<Seq<char>, T>::empty(),
    {
        self.entries.clear();
        proof {
            assert(self.entries@.len() == 0);
        }
    }
}

} // verus!
