//! A verified vote tally: a list of distinct string keys, each carrying a
//! weight that saturates at one full unit.  The vendor-vote functions keep
//! one tally entry per vendor and pick a maximum at the end.

use vstd::prelude::*;
use vstd::string::StringExecFns;
use crate::text::str_eq;

verus! {

/// Keys are pairwise distinct.
pub open spec fn tally_wf(t: Seq<(String, u64)>) -> bool {
    forall|p: int, q: int| 0 <= p < q < t.len() ==> (#[trigger] t[p].0)@ != (#[trigger] t[q].0)@
}

/// The weight recorded for a key; zero when the key is absent.
pub open spec fn tally_get(t: Seq<(String, u64)>, v: Seq<char>) -> int
    decreases t.len(),
{
    if t.len() == 0 {
        0
    } else if t.last().0@ == v {
        t.last().1 as int
    } else {
        tally_get(t.drop_last(), v)
    }
}

/// Addition saturated at one full unit.
pub open spec fn sat_add(a: int, w: int) -> int {
    if a + w > 1000000 {
        1000000
    } else {
        a + w
    }
}

/// A value saturated at one full unit.
pub open spec fn sat1(a: int) -> int {
    if a > 1000000 {
        1000000
    } else {
        a
    }
}

/// Every entry's weight sits between the floor and one full unit.
pub open spec fn tally_bounded(t: Seq<(String, u64)>, floor: u64) -> bool {
    forall|k: int| 0 <= k < t.len() ==> floor <= (#[trigger] t[k].1) && t[k].1 <= 1000000
}

/// Updating one entry in place rewrites exactly that key's weight.
proof fn lemma_tally_get_update(t: Seq<(String, u64)>, k: int, nv: (String, u64), v: Seq<char>)
    requires
        tally_wf(t),
        0 <= k < t.len(),
        nv.0@ == t[k].0@,
    ensures
        tally_get(t.update(k, nv), v) == if v == t[k].0@ {
            nv.1 as int
        } else {
            tally_get(t, v)
        },
    decreases t.len(),
{
    let u = t.update(k, nv);
    if k == t.len() - 1 {
        assert(u.last() == nv);
        assert(u.drop_last() =~= t.drop_last());
        if v != t[k].0@ {
            assert(t.last().0@ != v);
        }
    } else {
        assert(u.last() == t.last());
        assert(u.drop_last() =~= t.drop_last().update(k, nv));
        assert(tally_wf(t.drop_last())) by {
            assert(forall|i: int|
                0 <= i < t.drop_last().len() ==> t.drop_last()[i] == t[i]);
        }
        lemma_tally_get_update(t.drop_last(), k, nv, v);
        if v == t[k].0@ {
            assert(t.last().0@ != v);
        }
    }
}

/// A pushed entry answers for its own key and leaves the rest unchanged.
proof fn lemma_tally_get_push(t: Seq<(String, u64)>, e: (String, u64), v: Seq<char>)
    ensures
        tally_get(t.push(e), v) == if v == e.0@ {
            e.1 as int
        } else {
            tally_get(t, v)
        },
{
    assert(t.push(e).last() == e);
    assert(t.push(e).drop_last() =~= t);
}

/// A key no entry carries reads as zero.
proof fn lemma_tally_get_absent(t: Seq<(String, u64)>, v: Seq<char>)
    requires
        forall|k: int| 0 <= k < t.len() ==> (#[trigger] t[k].0)@ != v,
    ensures
        tally_get(t, v) == 0,
    decreases t.len(),
{
    if t.len() > 0 {
        assert(forall|i: int| 0 <= i < t.drop_last().len() ==> t.drop_last()[i] == t[i]);
        lemma_tally_get_absent(t.drop_last(), v);
    }
}

/// Every key reads as zero or as some entry's weight.
pub proof fn lemma_tally_get_cases(t: Seq<(String, u64)>, v: Seq<char>)
    ensures
        tally_get(t, v) == 0 || exists|k: int|
            0 <= k < t.len() && (#[trigger] t[k].0)@ == v && tally_get(t, v) == t[k].1 as int,
    decreases t.len(),
{
    if t.len() > 0 && t.last().0@ != v {
        assert(forall|i: int| 0 <= i < t.drop_last().len() ==> t.drop_last()[i] == t[i]);
        lemma_tally_get_cases(t.drop_last(), v);
    }
}

/// An entry's own key reads as that entry's weight.
pub proof fn lemma_tally_get_at(t: Seq<(String, u64)>, k: int)
    requires
        tally_wf(t),
        0 <= k < t.len(),
    ensures
        tally_get(t, t[k].0@) == t[k].1 as int,
    decreases t.len(),
{
    if k == t.len() - 1 {
    } else {
        assert(t.last().0@ != t[k].0@);
        assert(tally_wf(t.drop_last())) by {
            assert(forall|i: int|
                0 <= i < t.drop_last().len() ==> t.drop_last()[i] == t[i]);
        }
        lemma_tally_get_at(t.drop_last(), k);
    }
}

/// Adds a saturating weight to the key's entry, creating the entry when
/// the key is new.
pub fn tally_bump(tally: &mut Vec<(String, u64)>, name: &str, weight: u64, Ghost(floor): Ghost<
    u64,
>)
    requires
        tally_wf(old(tally)@),
        tally_bounded(old(tally)@, floor),
        floor <= weight <= 1000000,
    ensures
        tally_wf(final(tally)@),
        tally_bounded(final(tally)@, floor),
        final(tally)@.len() >= 1,
        final(tally)@.len() >= old(tally)@.len(),
        forall|v: Seq<char>| #[trigger]
            tally_get(final(tally)@, v) == if v == name@ {
                sat_add(tally_get(old(tally)@, v), weight as int)
            } else {
                tally_get(old(tally)@, v)
            },
{
    let tn: usize = tally.len();
    let mut k: usize = 0;
    while k < tn
        invariant
            tn == tally@.len(),
            tally@ == old(tally)@,
            tally_wf(tally@),
            tally_bounded(tally@, floor),
            floor <= weight <= 1000000,
            k <= tn,
            forall|q: int| 0 <= q < k ==> (#[trigger] tally@[q].0)@ != name@,
        decreases tn - k,
    {
        if str_eq(tally[k].0.as_str(), name) {
            let c = tally[k].1;
            let updated: u64 = if c + weight > 1000000 {
                1000000
            } else {
                c + weight
            };
            let key = tally[k].0.clone();
            let nv = (key, updated);
            proof {
                assert(nv.0@ == tally@[k as int].0@);
                lemma_tally_get_at(tally@, k as int);
                assert forall|v: Seq<char>| #[trigger]
                    tally_get(tally@.update(k as int, nv), v) == (if v == name@ {
                        sat_add(tally_get(tally@, v), weight as int)
                    } else {
                        tally_get(tally@, v)
                    }) by {
                    lemma_tally_get_update(tally@, k as int, nv, v);
                }
            }
            tally.set(k, nv);
            return ;
        }
        k = k + 1;
    }
    proof {
        lemma_tally_get_absent(tally@, name@);
    }
    let e = (<String as StringExecFns>::from_str(name), weight);
    proof {
        assert forall|v: Seq<char>| #[trigger]
            tally_get(tally@.push(e), v) == (if v == name@ {
                sat_add(tally_get(tally@, v), weight as int)
            } else {
                tally_get(tally@, v)
            }) by {
            lemma_tally_get_push(tally@, e, v);
        }
    }
    tally.push(e);
}

/// The index of an entry whose weight no other entry exceeds.
pub fn tally_max(tally: &Vec<(String, u64)>) -> (best: usize)
    requires
        tally@.len() > 0,
    ensures
        best < tally@.len(),
        forall|k: int| 0 <= k < tally@.len() ==> (#[trigger] tally@[k].1) <= tally@[
            best as int
        ].1,
{
    let tn: usize = tally.len();
    let mut best: usize = 0;
    let mut k: usize = 1;
    while k < tn
        invariant
            tn == tally@.len(),
            best < tn,
            1 <= k <= tn,
            forall|q: int| 0 <= q < k ==> (#[trigger] tally@[q].1) <= tally@[best as int].1,
        decreases tn - k,
    {
        if tally[k].1 > tally[best].1 {
            best = k;
        }
        k = k + 1;
    }
    best
}

/// The weight any key reads is at most the maximum entry's weight.
pub proof fn lemma_tally_get_le(t: Seq<(String, u64)>, v: Seq<char>, m: int)
    requires
        0 <= m,
        forall|k: int| 0 <= k < t.len() ==> (#[trigger] t[k].1) <= m,
    ensures
        tally_get(t, v) <= m,
{
    lemma_tally_get_cases(t, v);
}

} // verus!
