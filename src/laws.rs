//! What holds over a whole run of calls to [`SmallIter::next`], stated over
//! `step`, the one-call contract of `next`.

use vstd::prelude::*;

use crate::small_iter::step;

verus! {

/// The elements left after `k` calls of `next`, starting from `s`.
pub open spec fn after_steps<T>(s: Seq<T>, k: nat) -> Seq<T>
    decreases k,
{
    if k == 0 {
        s
    } else {
        step(after_steps(s, (k - 1) as nat)).1
    }
}

/// What the call of `next` numbered `k` (counting from 0) returns, starting
/// from `s`.
pub open spec fn nth_yield<T>(s: Seq<T>, k: nat) -> Option<T> {
    step(after_steps(s, k)).0
}

/// The elements handed out by the first `k` calls of `next`, in order.
pub open spec fn handed_out<T>(s: Seq<T>, k: nat) -> Seq<T>
    decreases k,
{
    if k == 0 {
        Seq::empty()
    } else {
        match nth_yield(s, (k - 1) as nat) {
            Some(x) => handed_out(s, (k - 1) as nat).push(x),
            None => handed_out(s, (k - 1) as nat),
        }
    }
}

/// The smaller of `k` and the length of `s`: how many calls of `next` out of
/// `k` hand an element out.
pub open spec fn yields_within<T>(s: Seq<T>, k: nat) -> int {
    if k < s.len() {
        k as int
    } else {
        s.len() as int
    }
}

/// After `k` calls of `next`, the elements left (those that `as_slice`
/// shows) are exactly the ones of `s` not yet handed out: the suffix of `s`
/// past its first `k` elements, or nothing once `k` reaches its length.
pub proof fn lemma_view_is_unyielded_suffix<T>(s: Seq<T>, k: nat)
    ensures
        after_steps(s, k) == s.subrange(yields_within(s, k), s.len() as int),
    decreases k,
{
    if k == 0 {
        assert(s.subrange(0, s.len() as int) =~= s);
    } else {
        lemma_view_is_unyielded_suffix(s, (k - 1) as nat);
        assert(after_steps(s, k) =~= s.subrange(yields_within(s, k), s.len() as int));
    }
}

/// An iterator over `n` elements hands out exactly `n` elements, those of
/// `s` in their order, and `None` on every call after that; before the call
/// numbered `k` the count of elements left is `n - k`, and 0 from the end on.
pub proof fn lemma_exhaustion<T>(s: Seq<T>, k: nat)
    ensures
        nth_yield(s, k) == (if k < s.len() { Some(s[k as int]) } else { None::<T> }),
        after_steps(s, k).len() == s.len() - yields_within(s, k),
{
    lemma_view_is_unyielded_suffix(s, k);
}

/// Every element of `s` is, after any number `k` of calls of `next`, either
/// handed out or still held by the iterator, and only one of the two, once:
/// what was handed out followed by what is left is `s` itself. Dropping the
/// iterator at that point drops what is left and nothing else.
pub proof fn lemma_each_element_once<T>(s: Seq<T>, k: nat)
    ensures
        handed_out(s, k) + after_steps(s, k) == s,
        handed_out(s, k) == s.subrange(0, yields_within(s, k)),
    decreases k,
{
    lemma_view_is_unyielded_suffix(s, k);
    if k == 0 {
        assert(handed_out(s, k) + after_steps(s, k) =~= s);
        assert(handed_out(s, k) =~= s.subrange(0, 0));
    } else {
        lemma_each_element_once(s, (k - 1) as nat);
        lemma_exhaustion(s, (k - 1) as nat);
        assert(handed_out(s, k) =~= s.subrange(0, yields_within(s, k)));
        assert(handed_out(s, k) + after_steps(s, k) =~= s);
    }
}

/// An iterator and its clone go on separately: each holds elements of its
/// own, so the calls of `next` on one never change what the other holds, and
/// each hands out as many elements as the other, the one numbered `k` of the
/// clone being a clone of the one numbered `k` of the original.
pub proof fn lemma_clone_yields_clones<T: Clone>(s: Seq<T>, t: Seq<T>, k: nat)
    requires
        t.len() == s.len(),
        forall|i: int| 0 <= i < s.len() ==> cloned::<T>(#[trigger] s[i], t[i]),
    ensures
        nth_yield(s, k) is Some <==> nth_yield(t, k) is Some,
        nth_yield(s, k) is Some ==> cloned::<T>(nth_yield(s, k)->0, nth_yield(t, k)->0),
{
    lemma_exhaustion(s, k);
    lemma_exhaustion(t, k);
}

} // verus!
