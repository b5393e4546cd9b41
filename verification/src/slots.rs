//! Mathematical models of the fixed-capacity slot arrays that back the packet
//! queues, the loopback queue, the socket table and the protocol registry.
//!
//! A slot array is viewed as a `Seq<Option<T>>`. Tables count their occupied
//! slots and search them front to back; queues read them as a ring that starts
//! at `head` and holds `len` items.

use vstd::prelude::*;

verus! {

/// A slot array of `N` vacant slots.
pub(crate) fn vacant_array<T: Copy, const N: usize>() -> (r: [Option<T>; N])
    ensures
        r@ == Seq::new(N as nat, |i: int| None::<T>),
{
    let r: [Option<T>; N] = [None;N];
    assert(r@ =~= Seq::new(N as nat, |i: int| None::<T>));
    r
}

/// Stores `v` in slot `i`.
pub(crate) fn set_slot<T, const N: usize>(a: &mut [Option<T>; N], i: usize, v: Option<T>)
    requires
        i < N,
    ensures
        final(a)@ == old(a)@.update(i as int, v),
    no_unwind
{
    a[i] = v;
}

/// A mutable reference to the item held in slot `i`, if any. Whatever is
/// written through it is what the slot holds afterwards.
pub(crate) fn slot_mut<T, const N: usize>(a: &mut [Option<T>; N], i: usize) -> (r: Option<&mut T>)
    requires
        i < N,
    ensures
        old(a)@[i as int] is None ==> r is None && final(a)@ == old(a)@,
        old(a)@[i as int] is Some ==> r is Some && *r->0 == old(a)@[i as int]->0 && final(a)@
            == old(a)@.update(i as int, Some(*final(r->0))),
    no_unwind
{
    match &mut a[i] {
        Some(h) => Some(h),
        None => None,
    }
}

/// Number of occupied slots.
pub open spec fn count_some<T>(s: Seq<Option<T>>) -> nat
    decreases s.len(),
{
    if s.len() == 0 {
        0
    } else {
        count_some(s.drop_last()) + if s.last() is Some {
            1nat
        } else {
            0nat
        }
    }
}

/// No more slots are occupied than exist, and fewer when one is vacant.
pub proof fn lemma_count_some_bounds<T>(s: Seq<Option<T>>)
    ensures
        count_some(s) <= s.len(),
        (exists|k: int| 0 <= k < s.len() && #[trigger] s[k] is None) ==> count_some(s) < s.len(),
    decreases s.len(),
{
    if s.len() > 0 {
        lemma_count_some_bounds(s.drop_last());
        if exists|k: int| 0 <= k < s.len() && #[trigger] s[k] is None {
            let k = choose|k: int| 0 <= k < s.len() && #[trigger] s[k] is None;
            if k < s.len() - 1 {
                assert(s.drop_last()[k] is None);
            }
        }
    }
}

/// A slot array with no occupied slot counts zero.
pub proof fn lemma_count_some_vacant<T>(s: Seq<Option<T>>)
    requires
        forall|i: int| 0 <= i < s.len() ==> #[trigger] s[i] is None,
    ensures
        count_some(s) == 0,
    decreases s.len(),
{
    if s.len() > 0 {
        lemma_count_some_vacant(s.drop_last());
    }
}

/// Writing one slot changes the count by what left the slot and what entered
/// it.
pub proof fn lemma_count_some_update<T>(s: Seq<Option<T>>, k: int, v: Option<T>)
    requires
        0 <= k < s.len(),
    ensures
        count_some(s.update(k, v)) == count_some(s) - (if s[k] is Some {
            1int
        } else {
            0int
        }) + (if v is Some {
            1int
        } else {
            0int
        }),
    decreases s.len(),
{
    if k == s.len() - 1 {
        assert(s.update(k, v).drop_last() =~= s.drop_last());
    } else {
        lemma_count_some_update(s.drop_last(), k, v);
        assert(s.update(k, v).drop_last() =~= s.drop_last().update(k, v));
    }
}

/// Matches a vacant slot.
pub open spec fn vacant<T>() -> spec_fn(Option<T>) -> bool {
    |o: Option<T>| o is None
}

/// Index of the first item at or after `i` that satisfies `pred`, or the
/// length of `s` when there is none.
pub open spec fn first_index_from<T>(s: Seq<T>, pred: spec_fn(T) -> bool, i: int) -> int
    decreases s.len() - i,
{
    if i >= s.len() {
        s.len() as int
    } else if i >= 0 && pred(s[i]) {
        i
    } else {
        first_index_from(s, pred, i + 1)
    }
}

/// Index of the first item of `s` that satisfies `pred`, or the length of `s`.
pub open spec fn first_index<T>(s: Seq<T>, pred: spec_fn(T) -> bool) -> int {
    first_index_from(s, pred, 0)
}

/// The first match lies in range, satisfies `pred` when it is not the end,
/// and nothing before it from `i` on satisfies `pred`.
pub proof fn lemma_first_index_from<T>(s: Seq<T>, pred: spec_fn(T) -> bool, i: int)
    requires
        0 <= i <= s.len(),
    ensures
        i <= first_index_from(s, pred, i) <= s.len(),
        first_index_from(s, pred, i) < s.len() ==> pred(s[first_index_from(s, pred, i)]),
        forall|j: int| i <= j < first_index_from(s, pred, i) ==> !pred(#[trigger] s[j]),
    decreases s.len() - i,
{
    if i < s.len() && !pred(s[i]) {
        lemma_first_index_from(s, pred, i + 1);
    }
}

/// The first match of `s` lies in range, satisfies `pred` when it is not the
/// end, and nothing before it satisfies `pred`.
pub proof fn lemma_first_index<T>(s: Seq<T>, pred: spec_fn(T) -> bool)
    ensures
        0 <= first_index(s, pred) <= s.len(),
        first_index(s, pred) < s.len() ==> pred(s[first_index(s, pred)]),
        forall|j: int| 0 <= j < first_index(s, pred) ==> !pred(#[trigger] s[j]),
{
    lemma_first_index_from(s, pred, 0);
}

/// Some item satisfies `pred` exactly when the first match is not the end.
pub proof fn lemma_first_index_exists<T>(s: Seq<T>, pred: spec_fn(T) -> bool)
    ensures
        first_index(s, pred) < s.len() <==> exists|i: int| 0 <= i < s.len() && #[trigger] pred(s[i]),
{
    lemma_first_index(s, pred);
    if exists|i: int| 0 <= i < s.len() && #[trigger] pred(s[i]) {
        let i = choose|i: int| 0 <= i < s.len() && #[trigger] pred(s[i]);
        assert(first_index(s, pred) <= i);
    }
}

/// When `k` satisfies `pred` and nothing in `[i, k)` does, `k` is the first
/// match from `i`.
pub proof fn lemma_first_index_at<T>(s: Seq<T>, pred: spec_fn(T) -> bool, i: int, k: int)
    requires
        0 <= i <= k < s.len(),
        pred(s[k]),
        forall|j: int| i <= j < k ==> !pred(#[trigger] s[j]),
    ensures
        first_index_from(s, pred, i) == k,
    decreases k - i,
{
    if i < k {
        lemma_first_index_at(s, pred, i + 1, k);
    }
}

/// The slot that lies `offset` places after `head` in a ring of `n` slots,
/// for `0 <= head < n` and `0 <= offset < n`: `(head + offset) mod n`.
pub open spec fn ring_slot(head: int, offset: int, n: int) -> int {
    if head + offset < n {
        head + offset
    } else {
        head + offset - n
    }
}

/// Well-formed ring: `len` items fit, `head` is a slot (or zero when there
/// are no slots), and the `len` slots from `head` on are all occupied.
pub open spec fn ring_wf<T>(s: Seq<Option<T>>, head: int, len: int) -> bool {
    &&& 0 <= len <= s.len()
    &&& 0 <= head
    &&& (s.len() == 0 ==> head == 0)
    &&& (s.len() > 0 ==> head < s.len())
    &&& forall|i: int| 0 <= i < len ==> (#[trigger] s[ring_slot(head, i, s.len() as int)]) is Some
}

/// The items of a ring, oldest first.
pub open spec fn ring_view<T>(s: Seq<Option<T>>, head: int, len: int) -> Seq<T> {
    Seq::new(len as nat, |i: int| s[ring_slot(head, i, s.len() as int)].unwrap())
}

/// Storing an item in the slot after the last one appends it to the ring.
pub proof fn lemma_ring_push<T>(s: Seq<Option<T>>, head: int, len: int, x: T)
    requires
        ring_wf(s, head, len),
        len < s.len(),
    ensures
        0 <= ring_slot(head, len, s.len() as int) < s.len(),
        ring_wf(s.update(ring_slot(head, len, s.len() as int), Some(x)), head, len + 1),
        ring_view(s.update(ring_slot(head, len, s.len() as int), Some(x)), head, len + 1)
            == ring_view(s, head, len).push(x),
{
    let n = s.len() as int;
    let t = ring_slot(head, len, n);
    let s2 = s.update(t, Some(x));
    assert forall|i: int| 0 <= i < len + 1 implies (#[trigger] s2[ring_slot(head, i, n)]) is Some by {
        if i < len {
            assert(s[ring_slot(head, i, n)] is Some);
        }
    }
    assert(ring_view(s2, head, len + 1) =~= ring_view(s, head, len).push(x));
}

/// Where the head moves when one item leaves a ring of `len` items: to the
/// next slot, or back to slot zero when the ring empties.
pub open spec fn ring_next_head(head: int, len: int, n: int) -> int {
    if len - 1 == 0 {
        0
    } else {
        ring_slot(head, 1, n)
    }
}

/// Shortening a ring keeps its oldest items.
pub proof fn lemma_ring_shrink<T>(s: Seq<Option<T>>, head: int, len: int)
    requires
        ring_wf(s, head, len),
        len > 0,
    ensures
        ring_wf(s, head, len - 1),
        ring_view(s, head, len - 1) == ring_view(s, head, len).drop_last(),
{
    assert(ring_view(s, head, len - 1) =~= ring_view(s, head, len).drop_last());
}

/// Moving the head one slot on drops the oldest item of the ring.
pub proof fn lemma_ring_advance<T>(s: Seq<Option<T>>, head: int, len: int)
    requires
        ring_wf(s, head, len),
        len > 0,
    ensures
        ring_wf(s, ring_next_head(head, len, s.len() as int), len - 1),
        ring_view(s, ring_next_head(head, len, s.len() as int), len - 1) == ring_view(
            s,
            head,
            len,
        ).drop_first(),
{
    let n = s.len() as int;
    let h2 = ring_next_head(head, len, n);
    assert(s[ring_slot(head, 0, n)] is Some);
    assert forall|i: int| 0 <= i < len - 1 implies (#[trigger] s[ring_slot(h2, i, n)]) is Some by {
        assert(ring_slot(h2, i, n) == ring_slot(head, i + 1, n));
        assert(s[ring_slot(head, i + 1, n)] is Some);
    }
    assert forall|i: int| 0 <= i < len - 1 implies ring_view(s, h2, len - 1)[i] == ring_view(
        s,
        head,
        len,
    ).drop_first()[i] by {
        assert(ring_slot(h2, i, n) == ring_slot(head, i + 1, n));
    }
    assert(ring_view(s, h2, len - 1) =~= ring_view(s, head, len).drop_first());
}

/// Taking the item at `head` removes the oldest item of the ring.
pub proof fn lemma_ring_pop<T>(s: Seq<Option<T>>, head: int, len: int)
    requires
        ring_wf(s, head, len),
        len > 0,
    ensures
        0 <= head < s.len(),
        s[head] is Some,
        ring_view(s, head, len)[0] == s[head].unwrap(),
        ring_wf(s.update(head, None), ring_next_head(head, len, s.len() as int), len - 1),
        ring_view(s.update(head, None), ring_next_head(head, len, s.len() as int), len - 1)
            == ring_view(s, head, len).drop_first(),
{
    let n = s.len() as int;
    let h2 = ring_next_head(head, len, n);
    let s2 = s.update(head, None);
    assert(s[ring_slot(head, 0, n)] is Some);
    assert forall|i: int| 0 <= i < len - 1 implies (#[trigger] s2[ring_slot(h2, i, n)]) is Some by {
        assert(ring_slot(h2, i, n) == ring_slot(head, i + 1, n));
        assert(s[ring_slot(head, i + 1, n)] is Some);
    }
    assert forall|i: int| 0 <= i < len - 1 implies ring_view(s2, h2, len - 1)[i] == ring_view(
        s,
        head,
        len,
    ).drop_first()[i] by {
        assert(ring_slot(h2, i, n) == ring_slot(head, i + 1, n));
    }
    assert(ring_view(s2, h2, len - 1) =~= ring_view(s, head, len).drop_first());
}

} // verus!
