//! What holds of the tower operations, stated over jets and proved.
//!
//! The laws that need no algebra hold for every scalar type. Those that
//! rest on an algebraic identity of the scalars ask for it, entry by
//! entry, of the towers they speak of; for `i64` the identities are proved
//! here, so that the laws hold of every tower over `i64`.

use vstd::prelude::*;
use crate::jet;
use crate::scalar::{lemma_i64_cancels, lemma_i64_one_is_identity, TaylorScalar};
use crate::tower::TaylorNumber;

verus! {

/// A tower built from a value alone returns that value, both as its
/// outermost value and as the value of its derivative of order 0.
pub proof fn law_order_zero_identity<T: TaylorScalar<T>>(v: T)
    ensures
        TaylorNumber::Unperturbed(v)@[0] == v,
        jet::descended(TaylorNumber::Unperturbed(v)@, 0)[0] == v,
{
}

/// After one perturbation by `d` of a tower built from a value alone, the
/// outermost value of the derivative is `d`.
pub proof fn law_perturbation_growth<T: TaylorScalar<T>>(v: T, d: T)
    ensures
        jet::perturbed(TaylorNumber::Unperturbed(v)@, d) == seq![v, d],
        jet::derived(jet::perturbed(TaylorNumber::Unperturbed(v)@, d))[0] == d,
{
    assert(jet::perturbed(seq![v], d) =~= seq![v, d]);
}

/// Addition is linear: the value of a sum is the sum of the values, and
/// where both operands carry derivatives, the derivative of the sum is the
/// sum of the derivatives.
pub proof fn law_add_linear<T: TaylorScalar<T>>(a: TaylorNumber<T>, b: TaylorNumber<T>)
    ensures
        jet::sum(a@, b@)[0] == a@[0].add_spec(b@[0]),
        a is Perturbed && b is Perturbed ==> jet::derived(jet::sum(a@, b@)) == jet::sum(
            jet::derived(a@),
            jet::derived(b@),
        ),
{
    a.lemma_view_nonempty();
    b.lemma_view_nonempty();
    if a@.len() > 1 && b@.len() > 1 {
        assert(jet::derived(jet::sum(a@, b@)) =~= jet::sum(jet::derived(a@), jet::derived(b@)));
    }
}

/// The first entry of a product of jets is the product of the first
/// entries.
pub proof fn lemma_product_head<T: TaylorScalar<T>>(a: Seq<T>, b: Seq<T>)
    requires
        a.len() >= 1,
        b.len() >= 1,
    ensures
        jet::product(a, b).len() >= 1,
        jet::product(a, b)[0] == a[0].mul_spec(b[0]),
{
}

/// Where both jets have a second entry, the second entry of their product
/// is `a[1] * b[0] + b[1] * a[0]`.
pub proof fn lemma_product_second<T: TaylorScalar<T>>(a: Seq<T>, b: Seq<T>)
    requires
        a.len() >= 2,
        b.len() >= 2,
    ensures
        jet::product(a, b).len() >= 2,
        jet::product(a, b)[1] == a[1].mul_spec(b[0]).add_spec(b[1].mul_spec(a[0])),
{
    lemma_product_head(a.drop_first(), b);
    lemma_product_head(b.drop_first(), a);
}

/// The order of a product is the sum of the orders of its factors.
pub proof fn law_product_order<T: TaylorScalar<T>>(a: TaylorNumber<T>, b: TaylorNumber<T>)
    ensures
        jet::product(a@, b@).len() == a@.len() + b@.len() - 1,
        TaylorNumber::from_jet(jet::product(a@, b@)).order() == a.order() + b.order(),
{
    a.lemma_view_nonempty();
    b.lemma_view_nonempty();
    lemma_product_len(a@, b@);
    TaylorNumber::lemma_view_of_from_jet(jet::product(a@, b@));
}

proof fn lemma_product_len<T: TaylorScalar<T>>(a: Seq<T>, b: Seq<T>)
    requires
        a.len() >= 1,
        b.len() >= 1,
    ensures
        jet::product(a, b).len() == a.len() + b.len() - 1,
    decreases a.len() + b.len(),
{
    if a.len() > 1 && b.len() > 1 {
        lemma_product_len(a.drop_first(), b);
        lemma_product_len(b.drop_first(), a);
    }
}

/// The product rule at order 1: for two towers that carry derivatives, the
/// value of the product is the product of the values, and the outermost
/// value of its derivative is `a' * b + b' * a` taken on the outermost
/// values.
pub proof fn law_product_rule<T: TaylorScalar<T>>(a: TaylorNumber<T>, b: TaylorNumber<T>)
    requires
        a is Perturbed,
        b is Perturbed,
    ensures
        jet::product(a@, b@)[0] == a@[0].mul_spec(b@[0]),
        jet::derived(jet::product(a@, b@))[0] == jet::derived(a@)[0].mul_spec(b@[0]).add_spec(
            jet::derived(b@)[0].mul_spec(a@[0]),
        ),
{
    a.lemma_view_nonempty();
    b.lemma_view_nonempty();
    lemma_product_second(a@, b@);
}

/// The product rule at order 2: for two towers that carry second
/// derivatives, the outermost value of the second derivative of the
/// product is `(a'' * b + b' * a') + (b'' * a + a' * b')` taken on the
/// outermost values, which is `a'' * b + 2 * a' * b' + a * b''` wherever
/// the scalars form a commutative ring.
pub proof fn law_product_rule_second_order<T: TaylorScalar<T>>(
    a: TaylorNumber<T>,
    b: TaylorNumber<T>,
)
    requires
        a.order() >= 2,
        b.order() >= 2,
    ensures
        jet::derived(jet::derived(jet::product(a@, b@)))[0] == a@[2].mul_spec(b@[0]).add_spec(
            b@[1].mul_spec(a@[1]),
        ).add_spec(b@[2].mul_spec(a@[0]).add_spec(a@[1].mul_spec(b@[1]))),
{
    lemma_product_second(a@.drop_first(), b@);
    lemma_product_second(b@.drop_first(), a@);
}

/// A tower minus itself is zero at every depth, provided each of its
/// values cancels against its own negation.
pub proof fn law_sub_self_is_zero<T: TaylorScalar<T>>(a: TaylorNumber<T>)
    requires
        forall|i: int| 0 <= i < a@.len() ==> (#[trigger] a@[i]).add_spec(a@[i].neg_spec()).is_zero_spec(),
    ensures
        jet::all_zero(jet::sum(a@, jet::negated(a@))),
{
}

/// Multiplication by a scalar distributes over the levels: the value is
/// multiplied by the scalar, and so is the outermost value of the
/// derivative where there is one.
pub proof fn law_scalar_distribution<T: TaylorScalar<T>>(a: TaylorNumber<T>, s: T)
    ensures
        jet::scaled(a@, s)[0] == a@[0].mul_spec(s),
        a is Perturbed ==> jet::derived(jet::scaled(a@, s))[0] == jet::derived(a@)[0].mul_spec(s),
{
    a.lemma_view_nonempty();
}

/// The zero tower is zero.
pub proof fn law_zero_is_zero<T: TaylorScalar<T>>()
    ensures
        jet::all_zero(seq![T::zero_spec()]),
{
    T::lemma_zero_is_zero();
}

/// One times a tower is that tower, provided one is a left identity for
/// the tower's value and a right identity for each of its deeper values.
pub proof fn law_one_is_identity<T: TaylorScalar<T>>(a: TaylorNumber<T>)
    requires
        T::one_spec().mul_spec(a@[0]) == a@[0],
        forall|i: int| 1 <= i < a@.len() ==> (#[trigger] a@[i]).mul_spec(T::one_spec()) == a@[i],
    ensures
        jet::product(seq![T::one_spec()], a@) == a@,
        TaylorNumber::from_jet(jet::product(seq![T::one_spec()], a@)) == a,
{
    a.lemma_view_nonempty();
    assert(jet::product(seq![T::one_spec()], a@) =~= a@);
    a.lemma_from_jet_of_view();
}

/// Over `i64`, every tower minus itself is zero at every depth.
pub proof fn law_sub_self_is_zero_i64(a: TaylorNumber<i64>)
    ensures
        jet::all_zero(jet::sum(a@, jet::negated(a@))),
{
    assert forall|i: int| 0 <= i < a@.len() implies (#[trigger] a@[i]).add_spec(
        a@[i].neg_spec(),
    ).is_zero_spec() by {
        lemma_i64_cancels(a@[i]);
    }
    law_sub_self_is_zero(a);
}

/// Over `i64`, one times a tower is that tower.
pub proof fn law_one_is_identity_i64(a: TaylorNumber<i64>)
    ensures
        jet::product(seq![1i64], a@) == a@,
{
    a.lemma_view_nonempty();
    lemma_i64_one_is_identity(a@[0]);
    assert forall|i: int| 1 <= i < a@.len() implies (#[trigger] a@[i]).mul_spec(1i64) == a@[i] by {
        lemma_i64_one_is_identity(a@[i]);
    }
    law_one_is_identity(a);
}

} // verus!
