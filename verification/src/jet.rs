//! Jets: the mathematical model of a tower.
//!
//! A jet is the sequence of a tower's values from the outermost level
//! inwards: entry 0 is the value itself, entry `k` the value attached at
//! depth `k`. A jet is never empty, and a jet of length `n + 1` belongs to
//! a tower of order `n`. The functions of this module say what each tower
//! operation computes, entry by entry, in terms of the scalar operations.

use vstd::prelude::*;
use crate::scalar::TaylorScalar;

verus! {

/// The entrywise sum. Where one jet is longer than the other, its
/// remaining entries are carried over as they are.
pub open spec fn sum<T: TaylorScalar<T>>(a: Seq<T>, b: Seq<T>) -> Seq<T> {
    Seq::new(
        if a.len() >= b.len() { a.len() } else { b.len() },
        |i: int|
            if i < a.len() && i < b.len() {
                a[i].add_spec(b[i])
            } else if i < a.len() {
                a[i]
            } else {
                b[i]
            },
    )
}

/// The entrywise negation.
pub open spec fn negated<T: TaylorScalar<T>>(a: Seq<T>) -> Seq<T> {
    Seq::new(a.len(), |i: int| a[i].neg_spec())
}

/// Every entry multiplied by the factor `s`, with `s` on the right.
pub open spec fn scaled<T: TaylorScalar<T>>(a: Seq<T>, s: T) -> Seq<T> {
    Seq::new(a.len(), |i: int| a[i].mul_spec(s))
}

/// The jet of the derivative: all entries but the first, or a single zero
/// where there is no derivative information.
pub open spec fn derived<T: TaylorScalar<T>>(a: Seq<T>) -> Seq<T> {
    if a.len() <= 1 {
        seq![T::zero_spec()]
    } else {
        a.drop_first()
    }
}

/// The jet after one perturbation by `delta`. A jet with a single entry
/// gets `delta` as its second; a longer one has `delta` added to its
/// second entry, on the right, and keeps its length.
pub open spec fn perturbed<T: TaylorScalar<T>>(a: Seq<T>, delta: T) -> Seq<T> {
    if a.len() <= 1 {
        a.push(delta)
    } else {
        a.update(1, a[1].add_spec(delta))
    }
}

/// The jet of the `n`-th derivative as the descent computes it: the
/// descent starts from the first entry alone, so that step 0 gives that
/// entry and every later step a single zero.
pub open spec fn descended<T: TaylorScalar<T>>(a: Seq<T>, n: nat) -> Seq<T> {
    if n == 0 {
        seq![a[0]]
    } else {
        seq![T::zero_spec()]
    }
}

/// Whether every entry counts as zero.
pub open spec fn all_zero<T: TaylorScalar<T>>(a: Seq<T>) -> bool {
    forall|i: int| 0 <= i < a.len() ==> (#[trigger] a[i]).is_zero_spec()
}

/// The product of two jets by the Leibniz rule. The first entry is the
/// product of the first entries. Where one jet has a single entry, the
/// other's remaining entries are scaled by it; where both have more, the
/// remaining entries are those of `a' * b + b' * a`, with `a'` and `b'`
/// the derivatives of `a` and `b`.
pub open spec fn product<T: TaylorScalar<T>>(a: Seq<T>, b: Seq<T>) -> Seq<T>
    recommends
        a.len() >= 1,
        b.len() >= 1,
    decreases a.len() + b.len(),
{
    let head = seq![a[0].mul_spec(b[0])];
    if a.len() <= 1 && b.len() <= 1 {
        head
    } else if a.len() <= 1 {
        head + scaled(b.drop_first(), a[0])
    } else if b.len() <= 1 {
        head + scaled(a.drop_first(), b[0])
    } else {
        head + sum(product(a.drop_first(), b), product(b.drop_first(), a))
    }
}

} // verus!
