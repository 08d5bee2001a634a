//! Facts about streams that are made by joining parts end to end.

use vstd::prelude::*;
use vstd::seq_lib::lemma_flatten_concat;

verus! {

/// When two streams agree before and after a middle part, and agree as
/// wholes, the middle parts agree.
pub proof fn lemma_middle_cancels<T>(
    before: Seq<T>,
    x: Seq<T>,
    y: Seq<T>,
    after: Seq<T>,
)
    requires
        before + x + after == before + y + after,
    ensures
        x == y,
{
    let left = before + x + after;
    let right = before + y + after;
    assert(left.len() == right.len());
    assert(x.len() == y.len());
    assert forall|j: int| 0 <= j < x.len() implies x[j] == y[j] by {
        assert(left[before.len() + j] == x[j]);
        assert(right[before.len() + j] == y[j]);
    }
    assert(x =~= y);
}

/// A joined stream is the parts before `k` joined, then part `k`, then the
/// parts after it joined.
pub proof fn lemma_flatten_split_at<T>(parts: Seq<Seq<T>>, k: int)
    requires
        0 <= k < parts.len(),
    ensures
        parts.flatten() == parts.take(k).flatten() + parts[k] + parts.skip(k + 1).flatten(),
{
    let head = parts.take(k);
    let one = seq![parts[k]];
    let tail = parts.skip(k + 1);
    assert(parts =~= head + one + tail);
    lemma_flatten_concat(head + one, tail);
    lemma_flatten_concat(head, one);
    one.lemma_flatten_one_element();
}

/// Two runs of parts that differ at most at place `k` join to the same
/// stream only if they agree at `k` too.
pub proof fn lemma_flatten_differs_at<T>(a: Seq<Seq<T>>, b: Seq<Seq<T>>, k: int)
    requires
        a.len() == b.len(),
        0 <= k < a.len(),
        forall|i: int| 0 <= i < a.len() && i != k ==> a[i] == b[i],
        a.flatten() == b.flatten(),
    ensures
        a[k] == b[k],
{
    lemma_flatten_split_at(a, k);
    lemma_flatten_split_at(b, k);
    assert(a.take(k) =~= b.take(k));
    assert(a.skip(k + 1) =~= b.skip(k + 1));
    lemma_middle_cancels(a.take(k).flatten(), a[k], b[k], a.skip(k + 1).flatten());
}

/// Parts that all have the same width join to a stream of that width times
/// their number.
pub proof fn lemma_flatten_fixed_width_len<T>(parts: Seq<Seq<T>>, width: nat)
    requires
        forall|i: int| 0 <= i < parts.len() ==> (#[trigger] parts[i]).len() == width,
    ensures
        parts.flatten().len() == parts.len() * width,
    decreases parts.len(),
{
    if parts.len() == 0 {
    } else {
        let front = parts.drop_last();
        assert(parts =~= front.push(parts.last()));
        front.lemma_flatten_push(parts.last());
        lemma_flatten_fixed_width_len(front, width);
        assert(parts.len() * width == front.len() * width + width) by (nonlinear_arith)
            requires
                parts.len() == front.len() + 1,
        ;
    }
}

/// Runs of parts of one width greater than zero that join to the same stream
/// are the same parts in the same order.
pub proof fn lemma_flatten_fixed_width_injective<T>(a: Seq<Seq<T>>, b: Seq<Seq<T>>, width: nat)
    requires
        width > 0,
        forall|i: int| 0 <= i < a.len() ==> (#[trigger] a[i]).len() == width,
        forall|i: int| 0 <= i < b.len() ==> (#[trigger] b[i]).len() == width,
        a.flatten() == b.flatten(),
    ensures
        a == b,
    decreases a.len(),
{
    lemma_flatten_fixed_width_len(a, width);
    lemma_flatten_fixed_width_len(b, width);
    assert(a.len() == b.len()) by (nonlinear_arith)
        requires
            a.len() * width == b.len() * width,
            width > 0,
    ;
    if a.len() == 0 {
        assert(a =~= b);
    } else {
        let fa = a.drop_last();
        let fb = b.drop_last();
        assert(a =~= fa.push(a.last()));
        assert(b =~= fb.push(b.last()));
        fa.lemma_flatten_push(a.last());
        fb.lemma_flatten_push(b.last());
        lemma_flatten_fixed_width_len(fa, width);
        lemma_flatten_fixed_width_len(fb, width);
        let whole = a.flatten();
        let cut = fa.flatten().len() as int;
        assert(fa.flatten() =~= whole.take(cut));
        assert(fb.flatten() =~= whole.take(cut));
        assert(a.last() =~= whole.skip(cut));
        assert(b.last() =~= whole.skip(cut));
        lemma_flatten_fixed_width_injective(fa, fb, width);
        assert(a =~= b);
    }
}

} // verus!
