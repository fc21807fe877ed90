//! The instance lifecycle surface: an explicit opaque-handle ledger with
//! documented ownership transfer. `create` hands a fresh handle to the
//! caller; `destroy` is the only way to give it back, and giving back a
//! handle that is not live is rejected rather than undefined. The ledger
//! counts creations and destructions, so paired create/destroy leaves no
//! live handle behind.

use vstd::prelude::*;
use crate::errors::ExtensionError;

verus! {

/// The host-side ledger of live instance handles.
#[derive(Debug)]
pub struct HandleTable {
    live: Vec<u64>,
    next_handle: u64,
    created: u64,
    destroyed: u64,
}

impl HandleTable {
    /// The live handles, in creation order.
    pub closed spec fn spec_live(self) -> Seq<u64> {
        self.live@
    }

    /// The next handle to be issued.
    pub closed spec fn spec_next(self) -> u64 {
        self.next_handle
    }

    /// How many instances were ever created.
    pub closed spec fn spec_created(self) -> u64 {
        self.created
    }

    /// How many instances were destroyed.
    pub closed spec fn spec_destroyed(self) -> u64 {
        self.destroyed
    }

    /// Whether `h` is currently live.
    pub open spec fn spec_is_live(self, h: u64) -> bool {
        exists|i: int| 0 <= i < self.spec_live().len() && self.spec_live()[i] == h
    }

    /// How many handles are currently live.
    pub open spec fn spec_live_count(self) -> nat {
        self.spec_live().len()
    }

    /// Ledger well-formedness: handles are unique, below the next handle
    /// to be issued, and the counters balance: everything created is
    /// either still live or was destroyed.
    pub closed spec fn wf(self) -> bool {
        &&& forall|i: int, j: int|
            0 <= i < j < self.live@.len() ==> self.live@[i] != self.live@[j]
        &&& forall|i: int| 0 <= i < self.live@.len() ==> self.live@[i] < self.next_handle
        &&& self.created == self.destroyed + self.live@.len()
    }

    /// The balance a well-formed ledger keeps: created minus destroyed is
    /// exactly the number of live handles.
    pub proof fn lemma_balance(self)
        requires
            self.wf(),
        ensures
            self.spec_created() == self.spec_destroyed() + self.spec_live_count(),
            self.spec_destroyed() <= self.spec_created(),
    {
    }

    /// The effect of `create`: a fresh handle becomes live, nothing else
    /// changes, and the creation counter advances.
    pub open spec fn create_transition(pre: Self, post: Self, h: u64) -> bool {
        &&& !pre.spec_is_live(h)
        &&& post.spec_is_live(h)
        &&& post.spec_live_count() == pre.spec_live_count() + 1
        &&& post.spec_created() == pre.spec_created() + 1
        &&& post.spec_destroyed() == pre.spec_destroyed()
        &&& forall|h2: u64| h2 != h ==> post.spec_is_live(h2) == pre.spec_is_live(h2)
    }

    /// The effect of `destroy`: exactly a live handle can be given back,
    /// doing so exactly once; a handle that is not live is rejected with
    /// nothing changed.
    pub open spec fn destroy_transition(
        pre: Self,
        post: Self,
        h: u64,
        r: Result<(), ExtensionError>,
    ) -> bool {
        &&& (r is Ok <==> pre.spec_is_live(h))
        &&& !pre.spec_is_live(h) ==> ((r matches Err(e) && e is InvalidInput) && post == pre)
        &&& pre.spec_is_live(h) ==> {
            &&& !post.spec_is_live(h)
            &&& post.spec_live_count() == pre.spec_live_count() - 1
            &&& post.spec_created() == pre.spec_created()
            &&& post.spec_destroyed() == pre.spec_destroyed() + 1
            &&& forall|h2: u64| h2 != h ==> post.spec_is_live(h2) == pre.spec_is_live(h2)
        }
    }

    /// An empty ledger.
    pub fn new() -> (r: Self)
        ensures
            r.wf(),
            r.spec_live_count() == 0,
            r.spec_created() == 0,
            r.spec_destroyed() == 0,
            r.spec_next() == 1,
            forall|h: u64| !r.spec_is_live(h),
    {
        HandleTable { live: Vec::new(), next_handle: 1, created: 0, destroyed: 0 }
    }

    /// How many handles are currently live.
    pub fn live_count(&self) -> (r: usize)
        ensures
            r == self.spec_live_count(),
    {
        self.live.len()
    }

    /// How many instances were ever created.
    pub fn created(&self) -> (r: u64)
        ensures
            r == self.spec_created(),
    {
        self.created
    }

    /// How many instances were destroyed.
    pub fn destroyed(&self) -> (r: u64)
        ensures
            r == self.spec_destroyed(),
    {
        self.destroyed
    }

    /// Issues a fresh handle, transferring its ownership to the caller.
    pub fn create(&mut self) -> (h: u64)
        requires
            old(self).wf(),
            old(self).spec_next() < u64::MAX,
            old(self).spec_created() < u64::MAX,
        ensures
            final(self).wf(),
            Self::create_transition(*old(self), *final(self), h),
            final(self).spec_next() <= old(self).spec_next() + 1,
    {
        let h = self.next_handle;
        let ghost pre = *self;
        self.live.push(h);
        self.next_handle = self.next_handle + 1;
        self.created = self.created + 1;
        proof {
            assert(pre == *old(self));
            assert(pre.wf());
            let n = self.live@.len() - 1;
            assert(self.live@[n] == h);
            assert forall|a: int, b: int|
                0 <= a < b < self.live@.len() implies self.live@[a] != self.live@[b] by {
                if b < self.live@.len() - 1 {
                    assert(pre.live@[a] != pre.live@[b]);
                } else {
                    assert(self.live@[a] == pre.live@[a]);
                    assert(pre.live@[a] < pre.next_handle);
                }
            }
            assert(self.spec_live()[n] == h);
            assert(self.spec_is_live(h));
            if pre.spec_is_live(h) {
                let i = choose|i: int|
                    0 <= i < pre.spec_live().len() && pre.spec_live()[i] == h;
                assert(pre.live@[i] < pre.next_handle);
            }
            assert forall|h2: u64| h2 != h implies self.spec_is_live(h2) == pre.spec_is_live(
                h2,
            ) by {
                if pre.spec_is_live(h2) {
                    let i = choose|i: int|
                        0 <= i < pre.spec_live().len() && pre.spec_live()[i] == h2;
                    assert(self.spec_live()[i] == h2);
                    assert(self.spec_is_live(h2));
                }
                if self.spec_is_live(h2) {
                    let i = choose|i: int|
                        0 <= i < self.spec_live().len() && self.spec_live()[i] == h2;
                    assert(i != n);
                    assert(pre.spec_live()[i] == h2);
                    assert(pre.spec_is_live(h2));
                }
            }
        }
        h
    }

    /// Releases the instance behind `h`, exactly once: a handle that is
    /// not live (never issued, or already destroyed) is rejected.
    pub fn destroy(&mut self, h: u64) -> (r: Result<(), ExtensionError>)
        requires
            old(self).wf(),
        ensures
            final(self).wf(),
            Self::destroy_transition(*old(self), *final(self), h, r),
    {
        let ghost pre = *self;
        let mut i: usize = 0;
        while i < self.live.len()
            invariant
                0 <= i <= self.live@.len(),
                *self == pre,
                pre == *old(self),
                pre.wf(),
                forall|j: int| 0 <= j < i ==> self.live@[j] != h,
            decreases self.live@.len() - i,
        {
            if self.live[i] == h {
                self.live.remove(i);
                self.destroyed = self.destroyed + 1;
                proof {
                    assert(pre.wf());
                    assert forall|a: int, b: int|
                        0 <= a < b < self.live@.len() implies self.live@[a] != self.live@[b] by {
                        let pa: int = if a < i {
                            a
                        } else {
                            a + 1
                        };
                        let pb: int = if b < i {
                            b
                        } else {
                            b + 1
                        };
                        assert(pre.live@[pa] != pre.live@[pb]);
                    }
                    if self.spec_is_live(h) {
                        let j = choose|j: int|
                            0 <= j < self.spec_live().len() && self.spec_live()[j] == h;
                        let pj: int = if j < i {
                            j
                        } else {
                            j + 1
                        };
                        assert(pre.live@[pj] == h);
                        assert(pre.live@[i as int] == h);
                    }
                    assert(pre.spec_live()[i as int] == h);
                    assert(pre.spec_is_live(h));
                    assert forall|h2: u64| h2 != h implies self.spec_is_live(h2)
                        == pre.spec_is_live(h2) by {
                        if pre.spec_is_live(h2) {
                            let j = choose|j: int|
                                0 <= j < pre.spec_live().len() && pre.spec_live()[j] == h2;
                            assert(j != i);
                            if j < i {
                                assert(self.spec_live()[j] == h2);
                            } else {
                                assert(self.spec_live()[j - 1] == h2);
                            }
                            assert(self.spec_is_live(h2));
                        }
                        if self.spec_is_live(h2) {
                            let j = choose|j: int|
                                0 <= j < self.spec_live().len() && self.spec_live()[j] == h2;
                            if j < i {
                                assert(pre.spec_live()[j] == h2);
                            } else {
                                assert(pre.spec_live()[j + 1] == h2);
                            }
                            assert(pre.spec_is_live(h2));
                        }
                    }
                }
                return Ok(());
            }
            i = i + 1;
        }
        Err(ExtensionError::InvalidInput(String::from_str("handle is not live")))
    }
}

} // verus!
