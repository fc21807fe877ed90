//! The session registry: the host-side table from session identifier to
//! session record. It exclusively owns all session records; callers
//! interact only through identifiers, never through retained references,
//! which is what lets a host serialize concurrent access around it.
//!
//! The registry guards creation (identifier collisions and the capacity
//! bound are rejected, never silently corrected), lookup, mutation, and
//! destructive teardown (a removed record does not linger).

use vstd::prelude::*;
use crate::errors::ExtensionError;

verus! {

/// One session record: the caller-supplied identifier, the lifecycle
/// timestamps, and the mode-specific accumulator owned exclusively by
/// this entry.
#[derive(Debug, Clone)]
pub struct SessionEntry<A> {
    /// Caller-supplied unique identifier.
    pub id: String,
    /// When the session was registered, in epoch milliseconds.
    pub created_at: i64,
    /// When the session last processed anything, in epoch milliseconds.
    pub last_activity: i64,
    /// The session-scoped running state.
    pub accum: A,
}

/// The identifier-to-record table with its capacity bound.
#[derive(Debug)]
pub struct SessionRegistry<A> {
    entries: Vec<SessionEntry<A>>,
    max_sessions: usize,
}

impl<A> SessionRegistry<A> {
    /// The bound on simultaneously registered sessions.
    pub closed spec fn spec_max(self) -> nat {
        self.max_sessions as nat
    }

    /// How many sessions are currently registered.
    pub closed spec fn spec_len(self) -> nat {
        self.entries@.len()
    }

    /// Whether a session with this identifier is registered.
    pub closed spec fn contains(self, id: Seq<char>) -> bool {
        exists|i: int| 0 <= i < self.entries@.len() && self.entries@[i].id@ == id
    }

    /// The record registered under `id`; meaningful only when
    /// `contains(id)` holds.
    pub closed spec fn spec_get(self, id: Seq<char>) -> SessionEntry<A> {
        self.entries@[choose|i: int| 0 <= i < self.entries@.len() && self.entries@[i].id@ == id]
    }

    /// Well-formedness: identifiers are unique, and the table never holds
    /// more sessions than its bound.
    pub closed spec fn wf(self) -> bool {
        &&& forall|i: int, j: int|
            0 <= i < j < self.entries@.len() ==> self.entries@[i].id@ != self.entries@[j].id@
        &&& self.entries@.len() <= self.max_sessions
    }

    /// In a well-formed registry the record under an identifier is the
    /// record at any index carrying that identifier.
    proof fn lemma_get_at(self, id: Seq<char>, i: int)
        requires
            self.wf(),
            0 <= i < self.entries@.len(),
            self.entries@[i].id@ == id,
        ensures
            self.contains(id),
            self.spec_get(id) == self.entries@[i],
    {
        let j = choose|j: int| 0 <= j < self.entries@.len() && self.entries@[j].id@ == id;
        if i != j {
            assert(self.entries@[i].id@ != self.entries@[j].id@);
        }
    }

    /// A well-formed registry is within its capacity bound.
    pub proof fn lemma_len_le_max(self)
        requires
            self.wf(),
        ensures
            self.spec_len() <= self.spec_max(),
    {
    }

    /// An empty registry with the given capacity bound.
    pub fn new(max_sessions: usize) -> (r: Self)
        ensures
            r.wf(),
            r.spec_len() == 0,
            r.spec_max() == max_sessions,
            forall|k: Seq<char>| !r.contains(k),
    {
        SessionRegistry { entries: Vec::new(), max_sessions }
    }

    /// How many sessions are currently registered.
    pub fn len(&self) -> (r: usize)
        ensures
            r == self.spec_len(),
    {
        self.entries.len()
    }

    /// The capacity bound this registry was created with.
    pub fn max_sessions(&self) -> (r: usize)
        ensures
            r == self.spec_max(),
    {
        self.max_sessions
    }

    /// The index holding `id`, if any.
    fn find(&self, id: &str) -> (r: Option<usize>)
        ensures
            match r {
                Some(i) => i < self.entries@.len() && self.entries@[i as int].id@ == id@,
                None => !self.contains(id@),
            },
    {
        let mut i: usize = 0;
        while i < self.entries.len()
            invariant
                0 <= i <= self.entries@.len(),
                forall|j: int| 0 <= j < i ==> self.entries@[j].id@ != id@,
            decreases self.entries@.len() - i,
        {
            if str_eq(self.entries[i].id.as_str(), id) {
                return Some(i);
            }
            i = i + 1;
        }
        None
    }

    /// Read access to the record under `id`.
    pub fn get(&self, id: &str) -> (r: Option<&SessionEntry<A>>)
        requires
            self.wf(),
        ensures
            r is Some <==> self.contains(id@),
            r matches Some(e) ==> *e == self.spec_get(id@) && e.id@ == id@,
    {
        match self.find(id) {
            Some(i) => {
                proof {
                    self.lemma_get_at(id@, i as int);
                }
                Some(&self.entries[i])
            },
            None => None,
        }
    }

    /// Registers a new record. An identifier collision is rejected with
    /// `SessionAlreadyExists` (the registered record stays untouched), a
    /// full table with `CapacityExceeded`; neither rejection changes the
    /// registry at all. On success the record is added and nothing else
    /// changes.
    pub fn insert(&mut self, entry: SessionEntry<A>) -> (r: Result<(), ExtensionError>)
        requires
            old(self).wf(),
        ensures
            final(self).wf(),
            final(self).spec_max() == old(self).spec_max(),
            r is Ok <==> (!old(self).contains(entry.id@) && old(self).spec_len() < old(
                self,
            ).spec_max()),
            old(self).contains(entry.id@) ==> (r matches Err(e) && e matches
                ExtensionError::SessionAlreadyExists(s) && s@ == entry.id@),
            !old(self).contains(entry.id@) && old(self).spec_len() >= old(self).spec_max()
                ==> (r matches Err(e) && e is CapacityExceeded),
            r is Err ==> *final(self) == *old(self),
            r is Ok ==> final(self).contains(entry.id@) && final(self).spec_get(entry.id@) == entry
                && final(self).spec_len() == old(self).spec_len() + 1,
            forall|k: Seq<char>|
                k != entry.id@ ==> final(self).contains(k) == old(self).contains(k),
            forall|k: Seq<char>|
                k != entry.id@ && old(self).contains(k) ==> final(self).spec_get(k) == old(
                    self,
                ).spec_get(k),
    {
        if let Some(_) = self.find(entry.id.as_str()) {
            let id_copy = entry.id.clone();
            return Err(ExtensionError::SessionAlreadyExists(id_copy));
        }
        if self.entries.len() >= self.max_sessions {
            return Err(
                ExtensionError::CapacityExceeded(String::from_str("max concurrent sessions reached")),
            );
        }
        let ghost old_self = *self;
        let ghost new_id = entry.id@;
        self.entries.push(entry);
        proof {
            let n = self.entries@.len() - 1;
            assert(self.entries@[n].id@ == new_id);
            assert forall|i: int, j: int| 0 <= i < j < self.entries@.len() implies self.entries@[i].id@ != self.entries@[j].id@ by {
                if j < n {
                    assert(old_self.entries@[i].id@ != old_self.entries@[j].id@);
                } else {
                    assert(self.entries@[i] == old_self.entries@[i]);
                    if self.entries@[i].id@ == new_id {
                        assert(old_self.contains(new_id));
                    }
                }
            }
            self.lemma_get_at(new_id, n);
            assert forall|k: Seq<char>| k != new_id implies self.contains(k) == old_self.contains(k) by {
                if old_self.contains(k) {
                    let i = choose|i: int|
                        0 <= i < old_self.entries@.len() && old_self.entries@[i].id@ == k;
                    assert(self.entries@[i].id@ == k);
                }
                if self.contains(k) {
                    let i = choose|i: int|
                        0 <= i < self.entries@.len() && self.entries@[i].id@ == k;
                    assert(i != n);
                    assert(old_self.entries@[i].id@ == k);
                }
            }
            assert forall|k: Seq<char>| k != new_id && old_self.contains(k) implies self.spec_get(k) == old_self.spec_get(k) by {
                let i = choose|i: int|
                    0 <= i < old_self.entries@.len() && old_self.entries@[i].id@ == k;
                old_self.lemma_get_at(k, i);
                assert(self.entries@[i].id@ == k);
                self.lemma_get_at(k, i);
            }
        }
        Ok(())
    }

    /// Replaces the accumulator and activity timestamp of the record under
    /// `id`, leaving its identity and creation time alone. Returns whether
    /// the record existed; when it does not, nothing changes.
    pub fn set_accum(&mut self, id: &str, accum: A, last_activity: i64) -> (r: bool)
        requires
            old(self).wf(),
        ensures
            final(self).wf(),
            final(self).spec_max() == old(self).spec_max(),
            final(self).spec_len() == old(self).spec_len(),
            r == old(self).contains(id@),
            !r ==> *final(self) == *old(self),
            r ==> final(self).contains(id@) && final(self).spec_get(id@) == (SessionEntry {
                id: old(self).spec_get(id@).id,
                created_at: old(self).spec_get(id@).created_at,
                last_activity,
                accum,
            }),
            forall|k: Seq<char>| final(self).contains(k) == old(self).contains(k),
            forall|k: Seq<char>|
                k != id@ && old(self).contains(k) ==> final(self).spec_get(k) == old(
                    self,
                ).spec_get(k),
    {
        let idx = match self.find(id) {
            Some(i) => i,
            None => {
                return false;
            },
        };
        let ghost old_self = *self;
        proof {
            old_self.lemma_get_at(id@, idx as int);
        }
        let old_entry = self.entries.remove(idx);
        let new_entry = SessionEntry {
            id: old_entry.id,
            created_at: old_entry.created_at,
            last_activity,
            accum,
        };
        self.entries.insert(idx, new_entry);
        proof {
            assert forall|j: int|
                0 <= j < self.entries@.len() && j != idx implies self.entries@[j]
                == old_self.entries@[j] by {}
            assert(self.entries@[idx as int].id@ == id@);
            assert forall|i: int, j: int| 0 <= i < j < self.entries@.len() implies self.entries@[i].id@ != self.entries@[j].id@ by {
                assert(old_self.entries@[i].id@ != old_self.entries@[j].id@);
            }
            self.lemma_get_at(id@, idx as int);
            assert forall|k: Seq<char>| self.contains(k) == old_self.contains(k) by {
                if old_self.contains(k) {
                    let i = choose|i: int|
                        0 <= i < old_self.entries@.len() && old_self.entries@[i].id@ == k;
                    assert(self.entries@[i].id@ == k);
                }
                if self.contains(k) {
                    let i = choose|i: int|
                        0 <= i < self.entries@.len() && self.entries@[i].id@ == k;
                    assert(old_self.entries@[i].id@ == k);
                }
            }
            assert forall|k: Seq<char>| k != id@ && old_self.contains(k) implies self.spec_get(k) == old_self.spec_get(k) by {
                let i = choose|i: int|
                    0 <= i < old_self.entries@.len() && old_self.entries@[i].id@ == k;
                old_self.lemma_get_at(k, i);
                assert(i != idx);
                assert(self.entries@[i].id@ == k);
                self.lemma_get_at(k, i);
            }
        }
        true
    }

    /// Destructive teardown: removes and returns the record under `id`.
    /// `None` exactly when the identifier is absent, in which case nothing
    /// changes. After removal the identifier may be registered again.
    pub fn remove(&mut self, id: &str) -> (r: Option<SessionEntry<A>>)
        requires
            old(self).wf(),
        ensures
            final(self).wf(),
            final(self).spec_max() == old(self).spec_max(),
            r is Some <==> old(self).contains(id@),
            r is None ==> *final(self) == *old(self),
            r matches Some(e) ==> e == old(self).spec_get(id@) && e.id@ == id@
                && final(self).spec_len() == old(self).spec_len() - 1
                && !final(self).contains(id@),
            forall|k: Seq<char>| k != id@ ==> final(self).contains(k) == old(self).contains(k),
            forall|k: Seq<char>|
                k != id@ && old(self).contains(k) ==> final(self).spec_get(k) == old(
                    self,
                ).spec_get(k),
    {
        let idx = match self.find(id) {
            Some(i) => i,
            None => {
                return None;
            },
        };
        let ghost old_self = *self;
        proof {
            old_self.lemma_get_at(id@, idx as int);
        }
        let removed = self.entries.remove(idx);
        proof {
            let n = old_self.entries@.len();
            assert forall|j: int|
                0 <= j < self.entries@.len() implies self.entries@[j] == (if j < idx {
                old_self.entries@[j]
            } else {
                old_self.entries@[j + 1]
            }) by {}
            assert forall|i: int, j: int| 0 <= i < j < self.entries@.len() implies self.entries@[i].id@ != self.entries@[j].id@ by {}
            if self.contains(id@) {
                let i = choose|i: int| 0 <= i < self.entries@.len() && self.entries@[i].id@ == id@;
                let oi: int = if i < idx {
                    i
                } else {
                    i + 1
                };
                assert(old_self.entries@[oi].id@ == id@);
                assert(oi != idx);
                assert(old_self.entries@[oi].id@ != old_self.entries@[idx as int].id@);
            }
            assert forall|k: Seq<char>| k != id@ implies self.contains(k) == old_self.contains(k) by {
                if old_self.contains(k) {
                    let i = choose|i: int|
                        0 <= i < old_self.entries@.len() && old_self.entries@[i].id@ == k;
                    assert(i != idx);
                    if i < idx {
                        assert(self.entries@[i].id@ == k);
                    } else {
                        assert(self.entries@[i - 1].id@ == k);
                    }
                }
                if self.contains(k) {
                    let i = choose|i: int|
                        0 <= i < self.entries@.len() && self.entries@[i].id@ == k;
                    if i < idx {
                        assert(old_self.entries@[i].id@ == k);
                    } else {
                        assert(old_self.entries@[i + 1].id@ == k);
                    }
                }
            }
            assert forall|k: Seq<char>| k != id@ && old_self.contains(k) implies self.spec_get(k) == old_self.spec_get(k) by {
                let i = choose|i: int|
                    0 <= i < old_self.entries@.len() && old_self.entries@[i].id@ == k;
                old_self.lemma_get_at(k, i);
                assert(i != idx);
                if i < idx {
                    assert(self.entries@[i].id@ == k);
                    self.lemma_get_at(k, i);
                } else {
                    assert(self.entries@[i - 1].id@ == k);
                    self.lemma_get_at(k, i - 1);
                }
            }
        }
        Some(removed)
    }
}

/// Character-for-character equality of two string slices.
pub fn str_eq(a: &str, b: &str) -> (r: bool)
    ensures
        r == (a@ == b@),
{
    let sa = a.to_owned();
    let sb = b.to_owned();
    sa.eq(&sb)
}

} // verus!
