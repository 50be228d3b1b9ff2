//! The identifier registry: from identifier to feature position.

use vstd::prelude::*;
use crate::ast::{key_of, Diagnostic, Feature};

verus! {

/// Whether no two features of `fs` share an identifier.
pub open spec fn keys_unique(fs: Seq<Feature>) -> bool {
    forall|i: int, j: int|
        0 <= i < j < fs.len() && #[trigger] key_of(fs[i]) is Some ==> key_of(fs[i]) != key_of(
            #[trigger] fs[j],
        )
}

/// Whether some feature of `fs` is registered under `k`.
pub open spec fn has_key(fs: Seq<Feature>, k: Seq<char>) -> bool {
    exists|i: int| 0 <= i < fs.len() && #[trigger] key_of(fs[i]) == Some(k)
}

struct Entry {
    key: String,
    pos: usize,
}

/// Maps each identifier of a program's features to the position of the one
/// feature that carries it. Built once, read-only afterwards.
pub struct Registry {
    entries: Vec<Entry>,
}

impl View for Registry {
    type V = Map<Seq<char>, int>;

    closed spec fn view(&self) -> Map<Seq<char>, int> {
        Map::new(
            |k: Seq<char>| exists|j: int| 0 <= j < self.entries@.len() && #[trigger] self.entries@[j].key@ == k,
            |k: Seq<char>|
                self.entries@[choose|j: int| 0 <= j < self.entries@.len() && #[trigger] self.entries@[j].key@ == k].pos as int,
        )
    }
}

fn find(entries: &Vec<Entry>, k: &String) -> (r: Option<usize>)
    ensures
        match r {
            Some(j) => j < entries@.len() && entries@[j as int].key@ == k@,
            None => forall|j: int| 0 <= j < entries@.len() ==> #[trigger] entries@[j].key@ != k@,
        },
{
    let mut j: usize = 0;
    while j < entries.len()
        invariant
            0 <= j <= entries@.len(),
            forall|t: int| 0 <= t < j ==> #[trigger] entries@[t].key@ != k@,
        decreases entries@.len() - j,
    {
        if entries[j].key == *k {
            return Some(j);
        }
        j += 1;
    }
    None
}

impl Registry {
    /// Every identifier of `fs` is registered, at the position of a feature
    /// that carries it, and nothing else is.
    pub open spec fn indexes(&self, fs: Seq<Feature>) -> bool {
        &&& forall|k: Seq<char>| #[trigger] self@.contains_key(k) <==> has_key(fs, k)
        &&& forall|k: Seq<char>|
            #[trigger] self@.contains_key(k) ==> 0 <= self@[k] < fs.len() && key_of(fs[self@[k]])
                == Some(k)
    }

    /// Entry keys are distinct.
    pub closed spec fn wf(&self) -> bool {
        forall|a: int, b: int|
            0 <= a < b < self.entries@.len() ==> #[trigger] self.entries@[a].key@
                != #[trigger] self.entries@[b].key@
    }

    /// Indexes `features` in one pass. Fails at the first feature whose
    /// identifier an earlier one already carries, naming both positions.
    pub fn build(features: &Vec<Feature>) -> (r: Result<Registry, Diagnostic>)
        ensures
            r is Ok <==> keys_unique(features@),
            r matches Ok(reg) ==> reg.wf() && reg.indexes(features@),
            r matches Err(d) ==> (d matches Diagnostic::DuplicateIdentifier { id, first, second }
                && first < second < features@.len() && key_of(features@[first as int]) == Some(id@)
                && key_of(features@[second as int]) == Some(id@) && keys_unique(
                features@.subrange(0, second as int),
            )),
    {
        let mut entries: Vec<Entry> = Vec::new();
        let mut i: usize = 0;
        while i < features.len()
            invariant
                0 <= i <= features@.len(),
                forall|a: int, b: int|
                    0 <= a < b < entries@.len() ==> #[trigger] entries@[a].key@
                        != #[trigger] entries@[b].key@,
                forall|j: int|
                    0 <= j < entries@.len() ==> (#[trigger] entries@[j]).pos < i && key_of(
                        features@[entries@[j].pos as int],
                    ) == Some(entries@[j].key@),
                forall|p: int|
                    0 <= p < i && #[trigger] key_of(features@[p]) is Some ==> exists|j: int|
                        0 <= j < entries@.len() && key_of(features@[p]) == Some(
                            #[trigger] entries@[j].key@,
                        ) && entries@[j].pos == p,
                forall|a: int, b: int|
                    0 <= a < b < i && #[trigger] key_of(features@[a]) is Some ==> key_of(
                        features@[a],
                    ) != key_of(#[trigger] features@[b]),
            decreases features@.len() - i,
        {
            match features[i].get_id() {
                None => {},
                Some(k) => {
                    match find(&entries, k) {
                        Some(j) => {
                            let first = entries[j].pos;
                            proof {
                                assert(key_of(features@[first as int]) == key_of(features@[i as int]));
                                assert(!keys_unique(features@));
                                assert(keys_unique(features@.subrange(0, i as int)));
                            }
                            return Err(
                                Diagnostic::DuplicateIdentifier { id: k.clone(), first, second: i },
                            );
                        },
                        None => {
                            proof {
                                assert forall|a: int| 0 <= a < i && #[trigger] key_of(features@[a]) is Some
                                    implies key_of(features@[a]) != key_of(features@[i as int]) by {
                                    let j = choose|j: int|
                                        0 <= j < entries@.len() && key_of(features@[a]) == Some(
                                            #[trigger] entries@[j].key@,
                                        ) && entries@[j].pos == a;
                                    assert(entries@[j].key@ != k@);
                                }
                            }
                            let ghost prev = entries@;
                            entries.push(Entry { key: k.clone(), pos: i });
                            proof {
                                let n = entries@.len() - 1;
                                assert(entries@[n].key@ == k@);
                                assert(key_of(features@[i as int]) == Some(entries@[n].key@));
                                assert forall|p: int|
                                    0 <= p < i + 1 && #[trigger] key_of(features@[p]) is Some implies exists|j: int|
                                    0 <= j < entries@.len() && key_of(features@[p]) == Some(
                                        #[trigger] entries@[j].key@,
                                    ) && entries@[j].pos == p by {
                                    if p < i {
                                        let j = choose|j: int|
                                            0 <= j < prev.len() && key_of(features@[p]) == Some(
                                                #[trigger] prev[j].key@,
                                            ) && prev[j].pos == p;
                                        assert(entries@[j] == prev[j]);
                                    } else {
                                        assert(entries@[n].pos == p);
                                    }
                                }
                            }
                        },
                    }
                },
            }
            i += 1;
        }
        let reg = Registry { entries };
        proof {
            assert forall|k: Seq<char>| #[trigger] reg@.contains_key(k) <==> has_key(features@, k) by {
                if reg@.contains_key(k) {
                    let j = choose|j: int| 0 <= j < reg.entries@.len() && #[trigger] reg.entries@[j].key@ == k;
                    assert(key_of(features@[reg.entries@[j].pos as int]) == Some(k));
                }
                if has_key(features@, k) {
                    let p = choose|p: int| 0 <= p < features@.len() && #[trigger] key_of(features@[p]) == Some(k);
                    assert(key_of(features@[p]) is Some);
                }
            }
            assert forall|k: Seq<char>| #[trigger] reg@.contains_key(k) implies 0 <= reg@[k] < features@.len()
                && key_of(features@[reg@[k]]) == Some(k) by {
                let j = choose|j: int| 0 <= j < reg.entries@.len() && #[trigger] reg.entries@[j].key@ == k;
                assert(reg@[k] == reg.entries@[j].pos as int);
            }
        }
        Ok(reg)
    }

    /// The position of the feature registered under `id`; `None` where no
    /// feature carries it.
    pub fn resolve(&self, id: &String) -> (r: Option<usize>)
        requires
            self.wf(),
        ensures
            match r {
                Some(p) => self@.contains_key(id@) && self@[id@] == p as int,
                None => !self@.contains_key(id@),
            },
    {
        match find(&self.entries, id) {
            Some(j) => {
                proof {
                    let c = choose|c: int| 0 <= c < self.entries@.len() && #[trigger] self.entries@[c].key@ == id@;
                    assert(c == j as int);
                }
                Some(self.entries[j].pos)
            },
            None => None,
        }
    }
}

} // verus!
