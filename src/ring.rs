//! Bounded FIFO history: a `Vec` that keeps only its newest `cap` entries.

use vstd::prelude::*;

verus! {

/// The last `n` entries of `s` (all of `s` when it is shorter).
pub open spec fn last_n<T>(s: Seq<T>, n: nat) -> Seq<T> {
    if s.len() > n {
        s.subrange(s.len() - n, s.len() as int)
    } else {
        s
    }
}

/// The ring `s` after appending `x` with oldest-first eviction at capacity `cap`.
pub open spec fn bounded_push<T>(s: Seq<T>, x: T, cap: nat) -> Seq<T> {
    last_n(s.push(x), cap)
}

/// The ring `s` after appending every item of `xs`, in order.
pub open spec fn bounded_push_all<T>(s: Seq<T>, xs: Seq<T>, cap: nat) -> Seq<T>
    decreases xs.len(),
{
    if xs.len() == 0 {
        s
    } else {
        bounded_push(bounded_push_all(s, xs.drop_last(), cap), xs.last(), cap)
    }
}

/// Appends `x` to `v`, dropping the oldest entry when `v` would exceed `cap`.
pub fn push_bounded<T>(v: &mut Vec<T>, x: T, cap: usize)
    requires
        0 < cap,
        old(v).len() <= cap,
    ensures
        final(v)@ == bounded_push(old(v)@, x, cap as nat),
        final(v)@.len() <= cap,
{
    v.push(x);
    if v.len() > cap {
        v.remove(0);
        assert(v@ =~= old(v)@.push(x).subrange(1, (cap + 1) as int));
    }
}

/// Pushing any sequence of items through a ring of capacity `cap` keeps exactly
/// the newest `cap` of everything pushed, in arrival order.
pub proof fn lemma_ring_keeps_newest<T>(s: Seq<T>, xs: Seq<T>, cap: nat)
    requires
        0 < cap,
        s.len() <= cap,
    ensures
        bounded_push_all(s, xs, cap) == last_n(s + xs, cap),
    decreases xs.len(),
{
    if xs.len() == 0 {
        assert(s + xs =~= s);
    } else {
        lemma_ring_keeps_newest(s, xs.drop_last(), cap);
        let prev = s + xs.drop_last();
        assert((s + xs) =~= prev.push(xs.last()));
        assert(last_n(last_n(prev, cap).push(xs.last()), cap) =~= last_n(prev.push(xs.last()), cap));
    }
}

/// Starting from an empty ring, the retained history after pushing `xs` is the
/// last `cap` items of `xs`.
pub proof fn lemma_ring_from_empty<T>(xs: Seq<T>, cap: nat)
    requires
        0 < cap,
    ensures
        bounded_push_all(Seq::<T>::empty(), xs, cap) == last_n(xs, cap),
{
    lemma_ring_keeps_newest(Seq::<T>::empty(), xs, cap);
    assert(Seq::<T>::empty() + xs =~= xs);
}

} // verus!
