//! A verified in-memory storage: an association list of byte keys and values
//! whose visible contents are the map its [`crate::traits::Storage`] contract
//! speaks of. Later entries win, `set` first clears the key, so lookups are a
//! scan from the newest entry backward.

use vstd::prelude::*;

use vstd::slice::slice_to_vec;

use crate::traits::Storage;

verus! {

/// Compares two byte strings.
pub fn bytes_eq(a: &[u8], b: &[u8]) -> (r: bool)
    ensures
        r == (a@ == b@),
{
    if a.len() != b.len() {
        return false;
    }
    let mut i: usize = 0;
    while i < a.len()
        invariant
            i <= a@.len(),
            a@.len() == b@.len(),
            forall|j: int| 0 <= j < i as int ==> a@[j] == b@[j],
        decreases a@.len() - i,
    {
        if a[i] != b[i] {
            return false;
        }
        i = i + 1;
    }
    proof {
        assert(a@ =~= b@);
    }
    true
}

/// The views of an association list's entries.
pub open spec fn pairs_view(s: Seq<(Vec<u8>, Vec<u8>)>) -> Seq<(Seq<u8>, Seq<u8>)> {
    Seq::new(s.len(), |i: int| (s[i].0@, s[i].1@))
}

/// The map an association list denotes; a later entry overrides an earlier
/// one with the same key.
pub open spec fn assoc_map(s: Seq<(Seq<u8>, Seq<u8>)>) -> Map<Seq<u8>, Seq<u8>>
    decreases s.len(),
{
    if s.len() == 0 {
        Map::empty()
    } else {
        assoc_map(s.drop_last()).insert(s.last().0, s.last().1)
    }
}

/// The association list with every entry for key `k` dropped.
pub open spec fn assoc_without(s: Seq<(Seq<u8>, Seq<u8>)>, k: Seq<u8>) -> Seq<(Seq<u8>, Seq<u8>)>
    decreases s.len(),
{
    if s.len() == 0 {
        Seq::empty()
    } else if s.last().0 == k {
        assoc_without(s.drop_last(), k)
    } else {
        assoc_without(s.drop_last(), k).push(s.last())
    }
}

/// The newest entry for a key is the one the denoted map holds.
proof fn lemma_assoc_found(s: Seq<(Seq<u8>, Seq<u8>)>, k: Seq<u8>, i: int)
    requires
        0 <= i < s.len(),
        s[i].0 == k,
        forall|j: int| i < j < s.len() ==> s[j].0 != k,
    ensures
        assoc_map(s).contains_key(k),
        assoc_map(s)[k] == s[i].1,
    decreases s.len(),
{
    if i < s.len() - 1 {
        lemma_assoc_found(s.drop_last(), k, i);
    }
}

/// A key no entry carries is absent from the denoted map.
proof fn lemma_assoc_absent(s: Seq<(Seq<u8>, Seq<u8>)>, k: Seq<u8>)
    requires
        forall|j: int| 0 <= j < s.len() ==> s[j].0 != k,
    ensures
        !assoc_map(s).contains_key(k),
    decreases s.len(),
{
    if s.len() > 0 {
        lemma_assoc_absent(s.drop_last(), k);
    }
}

/// Dropping every entry for `k` removes exactly `k` from the denoted map.
proof fn lemma_assoc_without(s: Seq<(Seq<u8>, Seq<u8>)>, k: Seq<u8>)
    ensures
        assoc_map(assoc_without(s, k)) == assoc_map(s).remove(k),
    decreases s.len(),
{
    if s.len() == 0 {
        assert(assoc_map(s).remove(k) =~= Map::<Seq<u8>, Seq<u8>>::empty());
    } else {
        let t = s.drop_last();
        lemma_assoc_without(t, k);
        if s.last().0 == k {
            assert(assoc_map(t).insert(k, s.last().1).remove(k) =~= assoc_map(t).remove(k));
        } else {
            let w = assoc_without(t, k).push(s.last());
            assert(w.drop_last() =~= assoc_without(t, k));
            assert(assoc_map(t).remove(k).insert(s.last().0, s.last().1) =~= assoc_map(t).insert(
                s.last().0,
                s.last().1,
            ).remove(k));
        }
    }
}

/// The library's own storage capability: all contents live in host memory.
pub struct MemoryStorage {
    entries: Vec<(Vec<u8>, Vec<u8>)>,
}

impl MemoryStorage {
    /// An empty storage.
    pub fn new() -> (r: MemoryStorage)
        ensures
            r.contents() == Map::<Seq<u8>, Seq<u8>>::empty(),
    {
        MemoryStorage { entries: Vec::new() }
    }
}

impl Storage for MemoryStorage {
    closed spec fn contents(&self) -> Map<Seq<u8>, Seq<u8>> {
        assoc_map(pairs_view(self.entries@))
    }

    fn get(&self, key: &[u8]) -> (r: Option<Vec<u8>>) {
        let n = self.entries.len();
        let mut i: usize = n;
        while i > 0
            invariant
                i <= n,
                n == self.entries@.len(),
                forall|j: int| i as int <= j < n as int ==> pairs_view(self.entries@)[j].0 != key@,
            decreases i,
        {
            i = i - 1;
            if bytes_eq(self.entries[i].0.as_slice(), key) {
                let v = slice_to_vec(self.entries[i].1.as_slice());
                proof {
                    lemma_assoc_found(pairs_view(self.entries@), key@, i as int);
                }
                return Some(v);
            }
        }
        proof {
            lemma_assoc_absent(pairs_view(self.entries@), key@);
        }
        None
    }

    fn set(&mut self, key: &[u8], value: &[u8]) {
        let ghost before = assoc_map(pairs_view(self.entries@));
        self.remove(key);
        let ghost mid = pairs_view(self.entries@);
        self.entries.push((slice_to_vec(key), slice_to_vec(value)));
        proof {
            let now = pairs_view(self.entries@);
            assert(now =~= mid.push((key@, value@)));
            assert(now.drop_last() =~= mid);
            assert(before.remove(key@).insert(key@, value@) =~= before.insert(key@, value@));
        }
    }

    fn remove(&mut self, key: &[u8]) {
        let ghost s0 = pairs_view(self.entries@);
        let mut kept: Vec<(Vec<u8>, Vec<u8>)> = Vec::new();
        let n = self.entries.len();
        let mut i: usize = 0;
        while i < n
            invariant
                i <= n,
                n == self.entries@.len(),
                s0 == pairs_view(self.entries@),
                pairs_view(kept@) == assoc_without(s0.subrange(0, i as int), key@),
            decreases n - i,
        {
            let ghost kept0 = pairs_view(kept@);
            let keep = !bytes_eq(self.entries[i].0.as_slice(), key);
            if keep {
                kept.push(
                    (
                        slice_to_vec(self.entries[i].0.as_slice()),
                        slice_to_vec(self.entries[i].1.as_slice()),
                    ),
                );
            }
            proof {
                let pre = s0.subrange(0, i as int);
                let cur = s0.subrange(0, i as int + 1);
                assert(cur.drop_last() =~= pre);
                assert(cur.last() == s0[i as int]);
                if keep {
                    assert(pairs_view(kept@) =~= kept0.push(s0[i as int]));
                }
            }
            i = i + 1;
        }
        self.entries = kept;
        proof {
            assert(s0.subrange(0, s0.len() as int) =~= s0);
            lemma_assoc_without(s0, key@);
        }
    }
}

} // verus!
