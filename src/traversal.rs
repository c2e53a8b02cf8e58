//! Whole traversals: what a freshly made view over a sequence produces on
//! each request, and the facts that hold of every such run.
use vstd::prelude::*;
use crate::slide::{slide_advance, slide_step};

verus! {

/// The cursor of a fresh view over `s` after `k` requests.
pub open spec fn cursor_after<T>(s: Seq<T>, k: nat) -> nat
    decreases k,
{
    if k == 0 {
        0
    } else {
        slide_advance(s, cursor_after(s, (k - 1) as nat))
    }
}

/// What request number `k` (counting from zero) on a fresh view over `s`
/// produces.
pub open spec fn output_at<T>(s: Seq<T>, k: nat) -> Option<(T, Option<Seq<T>>)> {
    slide_step(s, cursor_after(s, k))
}

/// How many of the first `k` requests on a fresh view over `s` produced an
/// item.
pub open spec fn produced_count<T>(s: Seq<T>, k: nat) -> nat
    decreases k,
{
    if k == 0 {
        0
    } else {
        produced_count(s, (k - 1) as nat) + if output_at(s, (k - 1) as nat) is Some {
            1nat
        } else {
            0nat
        }
    }
}

/// After `k` requests the cursor stands at `k`, or at the end of the
/// sequence once `k` has passed it.
pub proof fn lemma_cursor_after<T>(s: Seq<T>, k: nat)
    ensures
        cursor_after(s, k) == if k < s.len() { k } else { s.len() },
    decreases k,
{
    if k > 0 {
        lemma_cursor_after(s, (k - 1) as nat);
    }
}

/// A view over a sequence of length `n` produces an item on each of its
/// first `n` requests and signals the end on every request after those.
pub proof fn lemma_exactly_len_items<T>(s: Seq<T>, k: nat)
    ensures
        output_at(s, k) is Some <==> k < s.len(),
{
    lemma_cursor_after(s, k);
}

/// The element of the item produced by request `i` is the `i`-th element
/// of the sequence.
pub proof fn lemma_item_element<T>(s: Seq<T>, i: nat)
    requires
        i < s.len(),
    ensures
        output_at(s, i) is Some,
        output_at(s, i).unwrap().0 == s[i as int],
{
    lemma_cursor_after(s, i);
}

/// Before the last element, the rest that comes with the `i`-th element is
/// present, is exactly the elements after it in order, and is not empty.
pub proof fn lemma_item_rest<T>(s: Seq<T>, i: nat)
    requires
        i + 1 < s.len(),
    ensures
        output_at(s, i) is Some,
        output_at(s, i).unwrap().1 == Some(s.subrange(i + 1 as int, s.len() as int)),
        output_at(s, i).unwrap().1.unwrap().len() > 0,
{
    lemma_cursor_after(s, i);
}

/// The last element comes without a rest.
pub proof fn lemma_last_item_rest_absent<T>(s: Seq<T>)
    requires
        s.len() > 0,
    ensures
        output_at(s, (s.len() - 1) as nat) is Some,
        output_at(s, (s.len() - 1) as nat).unwrap().1 is None,
{
    lemma_cursor_after(s, (s.len() - 1) as nat);
}

/// A view over an empty sequence signals the end on every request, the
/// first included.
pub proof fn lemma_empty_never_produces<T>(s: Seq<T>, k: nat)
    requires
        s.len() == 0,
    ensures
        output_at(s, k) is None,
{
    lemma_cursor_after(s, k);
}

/// After any number of requests, the count still to come is the length of
/// the sequence less the number of items produced so far.
pub proof fn lemma_remaining_count<T>(s: Seq<T>, k: nat)
    ensures
        produced_count(s, k) <= s.len(),
        s.len() - cursor_after(s, k) == s.len() - produced_count(s, k),
    decreases k,
{
    lemma_cursor_after(s, k);
    if k > 0 {
        lemma_remaining_count(s, (k - 1) as nat);
        lemma_cursor_after(s, (k - 1) as nat);
    }
}

} // verus!
