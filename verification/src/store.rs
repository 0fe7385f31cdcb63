//! The progress store: a keyed registry of progress records, one per model
//! name. Insertion overwrites any prior record for the same key. The host
//! serializes concurrent access (a single lock around the store suffices);
//! this module supplies the verified single-threaded operations.

use vstd::prelude::*;
use crate::record::{ProgressView, PullProgress};
use crate::text::str_eq;

verus! {

/// A registry of [`PullProgress`] records with unique model keys.
pub struct ProgressStore {
    records: Vec<PullProgress>,
}

impl ProgressStore {
    /// Keys are unique: no two records share a model name.
    #[verifier::type_invariant]
    spec fn wf(self) -> bool {
        forall|i: int, j: int|
            0 <= i < j < self.records@.len() ==> self.records@[i]@.model != self.records@[j]@.model
    }

    /// Some record with key `k` is present.
    pub closed spec fn spec_contains(self, k: Seq<char>) -> bool {
        exists|i: int| 0 <= i < self.records@.len() && self.records@[i]@.model == k
    }

    closed spec fn key_index(self, k: Seq<char>) -> int {
        choose|i: int| 0 <= i < self.records@.len() && self.records@[i]@.model == k
    }

    /// The record stored under key `k`, if any.
    pub closed spec fn spec_get(self, k: Seq<char>) -> Option<ProgressView> {
        if self.spec_contains(k) {
            Some(self.records@[self.key_index(k)]@)
        } else {
            None
        }
    }

    /// A stored record's model field is the key it is stored under.
    pub proof fn lemma_get_key(self, k: Seq<char>)
        requires
            self.spec_get(k) is Some,
        ensures
            self.spec_get(k)->0.model == k,
    {
        let i = self.key_index(k);
        assert(0 <= i < self.records@.len() && self.records@[i]@.model == k);
    }

    proof fn lemma_get_at(self, k: Seq<char>, i: int)
        requires
            self.wf(),
            0 <= i < self.records@.len(),
            self.records@[i]@.model == k,
        ensures
            self.spec_get(k) == Some(self.records@[i]@),
    {
        assert(self.spec_contains(k));
        let j = self.key_index(k);
        assert(0 <= j < self.records@.len() && self.records@[j]@.model == k);
        if i < j {
            assert(self.records@[i]@.model != self.records@[j]@.model);
        } else if j < i {
            assert(self.records@[j]@.model != self.records@[i]@.model);
        }
    }

    /// An empty store.
    pub fn new() -> (r: Self)
        ensures
            forall|k: Seq<char>| #[trigger] r.spec_get(k) is None,
    {
        let r = ProgressStore { records: Vec::new() };
        proof {
            assert(forall|k: Seq<char>| !r.spec_contains(k));
        }
        r
    }

    /// Look up the record stored under `name`, if any.
    pub fn get(&self, name: &str) -> (r: Option<&PullProgress>)
        ensures
            match r {
                Some(p) => self.spec_get(name@) == Some(p@),
                None => self.spec_get(name@) is None,
            },
    {
        proof {
            use_type_invariant(&*self);
        }
        let n = self.records.len();
        let mut i: usize = 0;
        while i < n
            invariant
                self.wf(),
                n == self.records@.len(),
                0 <= i <= n,
                forall|j: int| 0 <= j < i ==> self.records@[j]@.model != name@,
            decreases n - i,
        {
            if str_eq(self.records[i].model.as_str(), name) {
                proof {
                    self.lemma_get_at(name@, i as int);
                }
                return Some(&self.records[i]);
            }
            i = i + 1;
        }
        proof {
            assert(!self.spec_contains(name@));
        }
        None
    }

    /// Insert `rec` under its model name, overwriting any prior record for
    /// the same key and leaving every other key unchanged.
    pub fn set(&mut self, rec: PullProgress)
        ensures
            forall|k: Seq<char>| #[trigger]
                final(self).spec_get(k) == if k == rec@.model {
                    Some(rec@)
                } else {
                    old(self).spec_get(k)
                },
    {
        proof {
            use_type_invariant(&*self);
        }
        let ghost old_self = *self;
        let mut records: Vec<PullProgress> = Vec::new();
        core::mem::swap(&mut records, &mut self.records);
        let n = records.len();
        let mut i: usize = 0;
        while i < n
            invariant_except_break
                records@ == old_self.records@,
                n == records@.len(),
                0 <= i <= n,
                forall|j: int| 0 <= j < i ==> records@[j]@.model != rec@.model,
            ensures
                records@ == old_self.records@,
                0 <= i <= n,
                forall|j: int| 0 <= j < i ==> records@[j]@.model != rec@.model,
                i < n ==> records@[i as int]@.model == rec@.model,
            decreases n - i,
        {
            if str_eq(records[i].model.as_str(), rec.model.as_str()) {
                break ;
            }
            i = i + 1;
        }
        if i < n {
            records[i] = rec;
        } else {
            records.push(rec);
        }
        proof {
            let new_store = ProgressStore { records };
            let m = old_self.records@.len();
            assert forall|j: int|
                0 <= j < m implies #[trigger] new_store.records@[j]@.model
                == old_self.records@[j]@.model by {
                if j != i {
                    assert(new_store.records@[j] == old_self.records@[j]);
                }
            }
            if i >= m {
                assert(new_store.records@[m as int]@.model == rec@.model);
            }
            assert forall|a: int, b: int|
                0 <= a < b < new_store.records@.len() implies new_store.records@[a]@.model
                != new_store.records@[b]@.model by {
                if b < m {
                    assert(old_self.records@[a]@.model != old_self.records@[b]@.model);
                } else {
                    assert(old_self.records@[a]@.model != rec@.model);
                }
            }
            assert(new_store.wf());
            assert forall|k: Seq<char>|
                #[trigger] new_store.spec_get(k) == if k == rec@.model {
                    Some(rec@)
                } else {
                    old_self.spec_get(k)
                } by {
                if k == rec@.model {
                    if i < m {
                        assert(new_store.records@[i as int] == rec);
                        new_store.lemma_get_at(k, i as int);
                    } else {
                        assert(new_store.records@[m as int] == rec);
                        new_store.lemma_get_at(k, m as int);
                    }
                } else {
                    if old_self.spec_contains(k) {
                        let j = old_self.key_index(k);
                        assert(old_self.records@[j]@.model == k);
                        assert(j != i);
                        assert(new_store.records@[j] == old_self.records@[j]);
                        new_store.lemma_get_at(k, j);
                        old_self.lemma_get_at(k, j);
                    } else {
                        assert(!new_store.spec_contains(k));
                    }
                }
            }
        }
        self.records = records;
    }
}

} // verus!
