//! A per-label occurrence tally, used by a stateful session to count how
//! often each object label was detected. An association list with unique
//! labels; counts saturate rather than wrap.

use vstd::prelude::*;
use crate::registry::str_eq;

verus! {

/// Labels are pairwise distinct.
pub open spec fn tally_wf(t: Seq<(String, u32)>) -> bool {
    forall|i: int, j: int| 0 <= i < j < t.len() ==> t[i].0@ != t[j].0@
}

/// Whether the tally has an entry for `l`.
pub open spec fn tally_has(t: Seq<(String, u32)>, l: Seq<char>) -> bool {
    exists|i: int| 0 <= i < t.len() && t[i].0@ == l
}

/// The count recorded for `l`: zero when the label has no entry.
pub open spec fn tally_get(t: Seq<(String, u32)>, l: Seq<char>) -> u32 {
    if tally_has(t, l) {
        t[choose|i: int| 0 <= i < t.len() && t[i].0@ == l].1
    } else {
        0u32
    }
}

/// In a well-formed tally the count for a label is the count at any index
/// carrying that label.
proof fn lemma_tally_at(t: Seq<(String, u32)>, l: Seq<char>, i: int)
    requires
        tally_wf(t),
        0 <= i < t.len(),
        t[i].0@ == l,
    ensures
        tally_has(t, l),
        tally_get(t, l) == t[i].1,
{
    let j = choose|j: int| 0 <= j < t.len() && t[j].0@ == l;
    if i != j {
        assert(t[i].0@ != t[j].0@ || t[j].0@ != t[i].0@);
    }
}

/// Adds one occurrence of `label` (saturating): an existing entry's count
/// grows by one, a missing entry is appended with count one; every other
/// label's count is untouched.
pub fn tally_bump(t: &mut Vec<(String, u32)>, label: &String)
    requires
        tally_wf(old(t)@),
    ensures
        tally_wf(final(t)@),
        tally_has(final(t)@, label@),
        tally_get(final(t)@, label@) == tally_get(old(t)@, label@).saturating_add(1),
        forall|l: Seq<char>|
            l != label@ ==> tally_get(final(t)@, l) == tally_get(old(t)@, l) && tally_has(
                final(t)@,
                l,
            ) == tally_has(old(t)@, l),
{
    let ghost old_t = t@;
    let mut i: usize = 0;
    while i < t.len()
        invariant
            0 <= i <= t@.len(),
            t@ == old_t,
            old_t == old(t)@,
            tally_wf(old_t),
            forall|j: int| 0 <= j < i ==> t@[j].0@ != label@,
        decreases t@.len() - i,
    {
        if str_eq(t[i].0.as_str(), label.as_str()) {
            proof {
                lemma_tally_at(old_t, label@, i as int);
            }
            let bumped = t[i].1.saturating_add(1);
            let name = t[i].0.clone();
            t.set(i, (name, bumped));
            proof {
                assert(t@[i as int].0@ == label@);
                assert(tally_wf(t@)) by {
                    assert(forall|a: int|
                        0 <= a < t@.len() && a != i ==> t@[a] == old_t[a]);
                }
                lemma_tally_at(t@, label@, i as int);
                assert forall|l: Seq<char>| l != label@ implies tally_get(t@, l) == tally_get(
                    old_t,
                    l,
                ) && tally_has(t@, l) == tally_has(old_t, l) by {
                    if tally_has(old_t, l) {
                        let a = choose|a: int| 0 <= a < old_t.len() && old_t[a].0@ == l;
                        assert(a != i);
                        assert(t@[a].0@ == l);
                        lemma_tally_at(old_t, l, a);
                        lemma_tally_at(t@, l, a);
                    } else {
                        if tally_has(t@, l) {
                            let a = choose|a: int| 0 <= a < t@.len() && t@[a].0@ == l;
                            assert(a != i);
                            assert(old_t[a].0@ == l);
                        }
                    }
                }
            }
            return ;
        }
        i = i + 1;
    }
    let fresh = (label.clone(), 1u32);
    t.push(fresh);
    proof {
        let n = t@.len() - 1;
        assert(t@[n].0@ == label@);
        assert(tally_wf(t@)) by {
            assert(forall|a: int| 0 <= a < n ==> t@[a] == old_t[a]);
        }
        assert(!tally_has(old_t, label@));
        lemma_tally_at(t@, label@, n);
        assert forall|l: Seq<char>| l != label@ implies tally_get(t@, l) == tally_get(old_t, l)
            && tally_has(t@, l) == tally_has(old_t, l) by {
            if tally_has(old_t, l) {
                let a = choose|a: int| 0 <= a < old_t.len() && old_t[a].0@ == l;
                assert(t@[a].0@ == l);
                lemma_tally_at(old_t, l, a);
                lemma_tally_at(t@, l, a);
            } else {
                if tally_has(t@, l) {
                    let a = choose|a: int| 0 <= a < t@.len() && t@[a].0@ == l;
                    assert(a != n);
                    assert(old_t[a].0@ == l);
                }
            }
        }
    }
}

/// An element-for-element copy of a tally.
pub fn clone_tally(t: &Vec<(String, u32)>) -> (r: Vec<(String, u32)>)
    ensures
        r@ == t@,
{
    let mut out: Vec<(String, u32)> = Vec::new();
    let mut i: usize = 0;
    while i < t.len()
        invariant
            0 <= i <= t@.len(),
            out@ == t@.subrange(0, i as int),
        decreases t@.len() - i,
    {
        let name = t[i].0.clone();
        let count = t[i].1;
        out.push((name, count));
        proof {
            assert(out@ =~= t@.subrange(0, i + 1));
        }
        i = i + 1;
    }
    proof {
        assert(out@ =~= t@);
    }
    out
}

} // verus!
