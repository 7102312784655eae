//! The registry of tracked repositories.
//!
//! A [`Config`] maps keys to descriptors. Entries are held sorted by key
//! in ascending lexicographic order, so keys are unique and every listing
//! is ordered the same way regardless of insertion order. Two descriptors
//! are considered the same repository when either their keys or their
//! paths match; that check is the caller-visible [`Config::contains`],
//! while [`Config::add`] inserts unconditionally, keyed by the
//! candidate's key.

use vstd::prelude::*;

use crate::error::RepoRsError;
use crate::order::lemma_seq_lt_connected;
use crate::order::lemma_seq_lt_irreflexive;
use crate::order::lemma_seq_lt_transitive;
use crate::order::seq_lt;
use crate::order::string_lt;
use crate::repo::Repo;
use crate::repo::is_same_repository;
use crate::repo::same_repository;

verus! {

/// The in-memory registry: every tracked repository's descriptor, sorted
/// by key.
#[derive(Debug)]
pub struct Config {
    pub repos: Vec<Repo>,
}

impl Config {
    /// The registry invariant: keys are in strictly ascending
    /// lexicographic order, hence unique.
    pub open spec fn wf(self) -> bool {
        forall|i: int, j: int|
            0 <= i < j < self.repos@.len() ==> seq_lt(
                #[trigger] self.repos@[i].key@,
                #[trigger] self.repos@[j].key@,
            )
    }

    /// Some entry is registered under the key `k`.
    pub open spec fn has_key(self, k: Seq<char>) -> bool {
        exists|i: int| 0 <= i < self.repos@.len() && self.repos@[i].key@ == k
    }

    /// Index of the entry registered under `k`; meaningful when `wf()`
    /// and `has_key(k)` hold.
    pub open spec fn entry_index(self, k: Seq<char>) -> int {
        choose|i: int| 0 <= i < self.repos@.len() && self.repos@[i].key@ == k
    }

    /// The entry registered under `k`; meaningful when `wf()` and
    /// `has_key(k)` hold.
    pub open spec fn entry(self, k: Seq<char>) -> Repo {
        self.repos@[self.entry_index(k)]
    }

    /// Some registered entry matches `candidate` by key or by path.
    pub open spec fn spec_contains(self, candidate: Repo) -> bool {
        exists|i: int|
            0 <= i < self.repos@.len() && same_repository(#[trigger] self.repos@[i], candidate)
    }

    /// Under `wf()`, an index holding key `k` is the only one.
    pub proof fn lemma_key_index_unique(self, k: Seq<char>, i: int, j: int)
        requires
            self.wf(),
            0 <= i < self.repos@.len(),
            0 <= j < self.repos@.len(),
            self.repos@[i].key@ == k,
            self.repos@[j].key@ == k,
        ensures
            i == j,
    {
        if i != j {
            lemma_seq_lt_irreflexive(k);
        }
    }

    /// A registry with no entries.
    pub fn empty() -> (c: Config)
        ensures
            c.wf(),
            c.repos@.len() == 0,
    {
        Config { repos: Vec::new() }
    }

    /// The ordered listing: every entry, sorted by key in strictly
    /// ascending lexicographic order. Pure; the registry is unchanged.
    pub fn repos_sorted(&self) -> (r: Vec<Repo>)
        requires
            self.wf(),
        ensures
            r@ == self.repos@,
            forall|i: int, j: int|
                0 <= i < j < r@.len() ==> seq_lt(#[trigger] r@[i].key@, #[trigger] r@[j].key@),
    {
        let r = self.repos.clone();
        proof {
            assert(r@ =~= self.repos@);
        }
        r
    }

    /// True when some existing entry matches `candidate` by key or by
    /// path: such a candidate denotes an already-tracked repository.
    pub fn contains(&self, candidate: &Repo) -> (r: bool)
        ensures
            r == self.spec_contains(*candidate),
    {
        let mut i: usize = 0;
        while i < self.repos.len()
            invariant
                0 <= i <= self.repos@.len(),
                forall|j: int| 0 <= j < i ==> !same_repository(#[trigger] self.repos@[j], *candidate),
            decreases self.repos@.len() - i,
        {
            if is_same_repository(&self.repos[i], candidate) {
                return true;
            }
            i = i + 1;
        }
        false
    }

    /// Inserts `candidate`, keyed by its key: an existing entry under the
    /// same key is replaced, any other entry is kept, and the ordering
    /// invariant is maintained. Duplicate detection is the caller's
    /// decision, through [`Config::contains`] or [`Config::track`].
    pub fn add(&mut self, candidate: Repo)
        requires
            old(self).wf(),
        ensures
            final(self).wf(),
            final(self).has_key(candidate.key@),
            final(self).entry(candidate.key@) == candidate,
            forall|k: Seq<char>|
                #[trigger] final(self).has_key(k) <==> (old(self).has_key(k) || k
                    == candidate.key@),
            forall|k: Seq<char>|
                k != candidate.key@ && #[trigger] old(self).has_key(k) ==> final(self).entry(k)
                    == old(self).entry(k),
            final(self).repos@.len() == old(self).repos@.len() + (if old(self).has_key(
                candidate.key@,
            ) {
                0int
            } else {
                1int
            }),
    {
        let ghost pre = *self;
        let mut i: usize = 0;
        while i < self.repos.len() && string_lt(&self.repos[i].key, &candidate.key)
            invariant
                *self == pre,
                pre.wf(),
                0 <= i <= self.repos@.len(),
                forall|j: int| 0 <= j < i ==> seq_lt(#[trigger] self.repos@[j].key@, candidate.key@),
            decreases self.repos@.len() - i,
        {
            i = i + 1;
        }
        if i < self.repos.len() && self.repos[i].key == candidate.key {
            let ghost k = candidate.key@;
            self.repos.set(i, candidate);
            proof {
                self.lemma_add_replace_post(pre, candidate, i as int);
            }
        } else {
            proof {
                if i < self.repos@.len() && !seq_lt(candidate.key@, self.repos@[i as int].key@) {
                    lemma_seq_lt_connected(self.repos@[i as int].key@, candidate.key@);
                }
            }
            self.repos.insert(i, candidate);
            proof {
                self.lemma_add_insert_post(pre, candidate, i as int);
            }
        }
    }

    /// After replacing index `i`, whose key equals the candidate's, the
    /// registry satisfies `add`'s contract.
    proof fn lemma_add_replace_post(self, pre: Config, candidate: Repo, i: int)
        requires
            pre.wf(),
            0 <= i < pre.repos@.len(),
            pre.repos@[i].key@ == candidate.key@,
            self.repos@ == pre.repos@.update(i, candidate),
        ensures
            self.wf(),
            self.has_key(candidate.key@),
            self.entry(candidate.key@) == candidate,
            forall|k: Seq<char>|
                #[trigger] self.has_key(k) <==> (pre.has_key(k) || k == candidate.key@),
            forall|k: Seq<char>|
                k != candidate.key@ && #[trigger] pre.has_key(k) ==> self.entry(k) == pre.entry(k),
            self.repos@.len() == pre.repos@.len(),
    {
        assert(forall|j: int|
            0 <= j < self.repos@.len() ==> (#[trigger] self.repos@[j].key@) == pre.repos@[j].key@);
        assert(self.wf());
        assert(self.repos@[i] == candidate);
        assert(self.has_key(candidate.key@));
        self.lemma_key_index_unique(candidate.key@, self.entry_index(candidate.key@), i);
        assert forall|k: Seq<char>| #[trigger] self.has_key(k) implies (pre.has_key(k) || k
            == candidate.key@) by {
            let j = self.entry_index(k);
            assert(pre.repos@[j].key@ == k);
        }
        assert forall|k: Seq<char>| pre.has_key(k) implies self.has_key(k) by {
            let j = pre.entry_index(k);
            assert(self.repos@[j].key@ == k);
        }
        assert forall|k: Seq<char>|
            k != candidate.key@ && #[trigger] pre.has_key(k) implies self.entry(k) == pre.entry(
            k,
        ) by {
            let j = pre.entry_index(k);
            assert(0 <= j < pre.repos@.len() && pre.repos@[j].key@ == k);
            assert(j != i);
            assert(self.repos@[j] == pre.repos@[j]);
            assert(self.has_key(k));
            self.lemma_key_index_unique(k, self.entry_index(k), j);
            pre.lemma_key_index_unique(k, pre.entry_index(k), j);
        }
        assert(pre.has_key(candidate.key@));
    }

    /// After inserting the candidate at position `i`, between the keys
    /// below it and the keys at or above it, the registry satisfies
    /// `add`'s contract.
    proof fn lemma_add_insert_post(self, pre: Config, candidate: Repo, i: int)
        requires
            pre.wf(),
            0 <= i <= pre.repos@.len(),
            forall|j: int| 0 <= j < i ==> seq_lt(#[trigger] pre.repos@[j].key@, candidate.key@),
            i < pre.repos@.len() ==> seq_lt(candidate.key@, pre.repos@[i].key@),
            self.repos@ == pre.repos@.insert(i, candidate),
        ensures
            self.wf(),
            self.has_key(candidate.key@),
            self.entry(candidate.key@) == candidate,
            forall|k: Seq<char>|
                #[trigger] self.has_key(k) <==> (pre.has_key(k) || k == candidate.key@),
            forall|k: Seq<char>|
                k != candidate.key@ && #[trigger] pre.has_key(k) ==> self.entry(k) == pre.entry(k),
            self.repos@.len() == pre.repos@.len() + 1,
            !pre.has_key(candidate.key@),
    {
        assert(self.repos@[i] == candidate);
        assert(forall|j: int| 0 <= j < i ==> #[trigger] self.repos@[j] == pre.repos@[j]);
        assert(forall|j: int|
            i < j < self.repos@.len() ==> #[trigger] self.repos@[j] == pre.repos@[j - 1]);
        // keys at or above the insertion point are above the candidate's
        assert forall|j: int| i <= j < pre.repos@.len() implies seq_lt(
            candidate.key@,
            #[trigger] pre.repos@[j].key@,
        ) by {
            if j > i {
                lemma_seq_lt_transitive(candidate.key@, pre.repos@[i].key@, pre.repos@[j].key@);
            }
        }
        assert forall|p: int, q: int| 0 <= p < q < self.repos@.len() implies seq_lt(
            #[trigger] self.repos@[p].key@,
            #[trigger] self.repos@[q].key@,
        ) by {
            if p < i && q > i {
                assert(seq_lt(pre.repos@[p].key@, candidate.key@));
                lemma_seq_lt_transitive(pre.repos@[p].key@, candidate.key@, pre.repos@[q - 1].key@);
            }
        }
        // no existing entry carries the candidate's key: each is strictly
        // below or above it
        assert forall|j: int| 0 <= j < pre.repos@.len() implies pre.repos@[j].key@
            != candidate.key@ by {
            lemma_seq_lt_irreflexive(candidate.key@);
        }
        assert(self.has_key(candidate.key@));
        self.lemma_key_index_unique(candidate.key@, self.entry_index(candidate.key@), i);
        assert forall|k: Seq<char>| #[trigger] self.has_key(k) implies (pre.has_key(k) || k
            == candidate.key@) by {
            let j = self.entry_index(k);
            if j < i {
                assert(pre.repos@[j].key@ == k);
            } else if j > i {
                assert(pre.repos@[j - 1].key@ == k);
            }
        }
        assert forall|k: Seq<char>| pre.has_key(k) implies #[trigger] self.has_key(k) by {
            let j = pre.entry_index(k);
            if j < i {
                assert(self.repos@[j].key@ == k);
            } else {
                assert(self.repos@[j + 1].key@ == k);
            }
        }
        assert forall|k: Seq<char>|
            k != candidate.key@ && #[trigger] pre.has_key(k) implies self.entry(k) == pre.entry(
            k,
        ) by {
            let j = pre.entry_index(k);
            assert(0 <= j < pre.repos@.len() && pre.repos@[j].key@ == k);
            if j < i {
                assert(self.repos@[j].key@ == k);
                self.lemma_key_index_unique(k, self.entry_index(k), j);
            } else {
                assert(self.repos@[j + 1].key@ == k);
                self.lemma_key_index_unique(k, self.entry_index(k), j + 1);
            }
            pre.lemma_key_index_unique(k, pre.entry_index(k), j);
        }
    }

    /// Removes the entry registered under `key`, if any; returns whether
    /// anything was removed. Every other entry is kept.
    pub fn remove(&mut self, key: &str) -> (r: bool)
        requires
            old(self).wf(),
        ensures
            final(self).wf(),
            r == old(self).has_key(key@),
            !final(self).has_key(key@),
            forall|k: Seq<char>|
                k != key@ ==> (#[trigger] final(self).has_key(k) <==> old(self).has_key(k)),
            forall|k: Seq<char>|
                k != key@ && #[trigger] old(self).has_key(k) ==> final(self).entry(k) == old(
                    self,
                ).entry(k),
            final(self).repos@.len() == old(self).repos@.len() - (if old(self).has_key(key@) {
                1int
            } else {
                0int
            }),
    {
        let ghost pre = *self;
        let mut i: usize = 0;
        while i < self.repos.len()
            invariant
                pre == *old(self),
                *self == pre,
                pre.wf(),
                0 <= i <= self.repos@.len(),
                forall|j: int| 0 <= j < i ==> (#[trigger] self.repos@[j].key@) != key@,
            decreases self.repos@.len() - i,
        {
            if crate::order::str_eq(self.repos[i].key.as_str(), key) {
                self.repos.remove(i);
                proof {
                    self.lemma_remove_post(pre, key@, i as int);
                }
                return true;
            }
            i = i + 1;
        }
        false
    }

    /// After removing index `i`, which held `k`, the registry satisfies
    /// `remove`'s contract.
    proof fn lemma_remove_post(self, pre: Config, k: Seq<char>, i: int)
        requires
            pre.wf(),
            0 <= i < pre.repos@.len(),
            pre.repos@[i].key@ == k,
            self.repos@ == pre.repos@.remove(i),
        ensures
            self.wf(),
            !self.has_key(k),
            forall|k2: Seq<char>| k2 != k ==> (#[trigger] self.has_key(k2) <==> pre.has_key(k2)),
            forall|k2: Seq<char>|
                k2 != k && #[trigger] pre.has_key(k2) ==> self.entry(k2) == pre.entry(k2),
            self.repos@.len() == pre.repos@.len() - 1,
            pre.has_key(k),
    {
        assert(forall|j: int| 0 <= j < i ==> #[trigger] self.repos@[j] == pre.repos@[j]);
        assert(forall|j: int|
            i <= j < self.repos@.len() ==> #[trigger] self.repos@[j] == pre.repos@[j + 1]);
        assert forall|p: int, q: int| 0 <= p < q < self.repos@.len() implies seq_lt(
            #[trigger] self.repos@[p].key@,
            #[trigger] self.repos@[q].key@,
        ) by {}
        if self.has_key(k) {
            let j = self.entry_index(k);
            if j < i {
                pre.lemma_key_index_unique(k, j, i);
            } else {
                pre.lemma_key_index_unique(k, j + 1, i);
            }
        }
        assert forall|k2: Seq<char>| k2 != k && pre.has_key(k2) implies #[trigger] self.has_key(
            k2,
        ) by {
            let j = pre.entry_index(k2);
            pre.lemma_key_index_unique(k2, j, j);
            if j < i {
                assert(self.repos@[j].key@ == k2);
            } else {
                assert(j != i);
                assert(self.repos@[j - 1].key@ == k2);
            }
        }
        assert forall|k2: Seq<char>| k2 != k && self.has_key(k2) implies #[trigger] pre.has_key(
            k2,
        ) by {
            let j = self.entry_index(k2);
            if j < i {
                assert(pre.repos@[j].key@ == k2);
            } else {
                assert(pre.repos@[j + 1].key@ == k2);
            }
        }
        assert forall|k2: Seq<char>|
            k2 != k && #[trigger] pre.has_key(k2) implies self.entry(k2) == pre.entry(k2) by {
            let j = pre.entry_index(k2);
            assert(0 <= j < pre.repos@.len() && pre.repos@[j].key@ == k2);
            if j < i {
                assert(self.repos@[j].key@ == k2);
                assert(self.has_key(k2));
                self.lemma_key_index_unique(k2, self.entry_index(k2), j);
            } else {
                assert(j != i);
                assert(self.repos@[j - 1].key@ == k2);
                assert(self.has_key(k2));
                self.lemma_key_index_unique(k2, self.entry_index(k2), j - 1);
            }
            pre.lemma_key_index_unique(k2, pre.entry_index(k2), j);
        }
    }

    /// Tracks a new repository: rejects the candidate with
    /// `DuplicateRepo` when some existing entry matches it by key or by
    /// path, leaving the registry unchanged; otherwise inserts it.
    pub fn track(&mut self, candidate: Repo) -> (r: Result<(), RepoRsError>)
        requires
            old(self).wf(),
        ensures
            final(self).wf(),
            old(self).spec_contains(candidate) ==> (r matches Err(e) && (e
                matches RepoRsError::DuplicateRepo(k) && k@ == candidate.key@) && *final(self)
                == *old(self)),
            !old(self).spec_contains(candidate) ==> r is Ok && final(self).has_key(candidate.key@)
                && final(self).entry(candidate.key@) == candidate && final(self).repos@.len() == old(
                self,
            ).repos@.len() + 1 && (forall|k: Seq<char>|
                #[trigger] final(self).has_key(k) <==> (old(self).has_key(k) || k
                    == candidate.key@)),
    {
        if self.contains(&candidate) {
            return Result::Err(RepoRsError::DuplicateRepo(candidate.key));
        }
        proof {
            if old(self).has_key(candidate.key@) {
                let j = old(self).entry_index(candidate.key@);
                assert(same_repository(old(self).repos@[j], candidate));
            }
        }
        self.add(candidate);
        Result::Ok(())
    }
}

/// Duplicate detection: once a descriptor `a` is registered, any
/// candidate `b` that matches it by key or by path is reported as already
/// tracked, whatever its other fields hold.
pub proof fn lemma_duplicate_detection(c: Config, a: Repo, b: Repo)
    requires
        c.has_key(a.key@),
        c.entry(a.key@) == a,
        a.key@ == b.key@ || a.path@ == b.path@,
    ensures
        c.spec_contains(b),
{
    let i = c.entry_index(a.key@);
    assert(same_repository(c.repos@[i], b));
}

/// Sorted listing: under the registry invariant every listing is in
/// strictly ascending lexicographic key order, regardless of the order in
/// which entries were inserted.
pub proof fn lemma_sorted_listing(c: Config)
    requires
        c.wf(),
    ensures
        forall|i: int, j: int|
            0 <= i < j < c.repos@.len() ==> seq_lt(
                #[trigger] c.repos@[i].key@,
                #[trigger] c.repos@[j].key@,
            ),
{
}

} // verus!
