//! The leaf numbers of a tower: what a type must offer to be differentiated.

use vstd::prelude::*;

verus! {

/// A number type that can stand at the leaves of a tower.
///
/// Every operation is paired with a specification function that names its
/// result, so that the contracts of the tower arithmetic can say exactly
/// which scalar operations were applied, and in which order. The one law
/// asked of an implementation is that its zero is recognised as zero.
pub trait TaylorScalar<T>: Copy + Sized {
    /// The additive identity.
    spec fn zero_spec() -> Self;

    /// The multiplicative identity.
    spec fn one_spec() -> Self;

    /// Whether a value counts as the additive identity.
    spec fn is_zero_spec(&self) -> bool;

    /// The sum `self + rhs`.
    spec fn add_spec(self, rhs: T) -> T;

    /// The difference `self - rhs`.
    spec fn sub_spec(self, rhs: T) -> T;

    /// The product `self * rhs`.
    spec fn mul_spec(self, rhs: T) -> T;

    /// Whether the quotient `self / rhs` is defined.
    spec fn div_defined(self, rhs: T) -> bool;

    /// The quotient `self / rhs`, meaningful where `div_defined` holds.
    spec fn div_spec(self, rhs: T) -> T;

    /// The negation `-self`.
    spec fn neg_spec(self) -> T;

    /// The additive identity is recognised as zero.
    proof fn lemma_zero_is_zero()
        ensures
            Self::zero_spec().is_zero_spec(),
    ;

    /// Returns the additive identity.
    fn zero() -> (r: Self)
        ensures
            r == Self::zero_spec(),
    ;

    /// Returns the multiplicative identity.
    fn one() -> (r: Self)
        ensures
            r == Self::one_spec(),
    ;

    /// Tells whether the value counts as the additive identity.
    fn is_zero(&self) -> (r: bool)
        ensures
            r == self.is_zero_spec(),
    ;

    /// Computes `self + rhs`.
    fn add(self, rhs: T) -> (r: T)
        ensures
            r == self.add_spec(rhs),
    ;

    /// Computes `self - rhs`.
    fn sub(self, rhs: T) -> (r: T)
        ensures
            r == self.sub_spec(rhs),
    ;

    /// Computes `self * rhs`.
    fn mul(self, rhs: T) -> (r: T)
        ensures
            r == self.mul_spec(rhs),
    ;

    /// Computes `self / rhs` where it is defined. The tower operations
    /// never divide; the quotient is offered to callers of the scalar.
    fn div(self, rhs: T) -> (r: T)
        requires
            self.div_defined(rhs),
        ensures
            r == self.div_spec(rhs),
    ;

    /// Computes `-self`.
    fn neg(self) -> (r: T)
        ensures
            r == self.neg_spec(),
    ;
}

/// `num_traits::Zero::zero` at `i64`: the additive identity, which is 0.
#[verifier::external_body]
fn i64_zero() -> (r: i64)
    ensures
        r == 0,
{
    num_traits::Zero::zero()
}

/// `num_traits::One::one` at `i64`: the multiplicative identity, which is 1.
#[verifier::external_body]
fn i64_one() -> (r: i64)
    ensures
        r == 1,
{
    num_traits::One::one()
}

/// `num_traits::Zero::is_zero` at `i64`: whether the value equals 0.
#[verifier::external_body]
fn i64_is_zero(x: i64) -> (r: bool)
    ensures
        r == (x == 0),
{
    num_traits::Zero::is_zero(&x)
}

/// Signed 64-bit integers under two's-complement arithmetic: sums,
/// differences, products and negations wrap around, so each of them is
/// defined on every input. A quotient truncates towards zero and is defined
/// unless the divisor is 0 or the quotient would not fit.
impl TaylorScalar<i64> for i64 {
    open spec fn zero_spec() -> i64 {
        0
    }

    open spec fn one_spec() -> i64 {
        1
    }

    open spec fn is_zero_spec(&self) -> bool {
        *self == 0
    }

    open spec fn add_spec(self, rhs: i64) -> i64 {
        vstd::wrapping::i64_specs::wrapping_add(self, rhs)
    }

    open spec fn sub_spec(self, rhs: i64) -> i64 {
        vstd::wrapping::i64_specs::wrapping_sub(self, rhs)
    }

    open spec fn mul_spec(self, rhs: i64) -> i64 {
        vstd::wrapping::i64_specs::wrapping_mul(self, rhs)
    }

    open spec fn div_defined(self, rhs: i64) -> bool {
        rhs != 0 && !(self == i64::MIN && rhs == -1)
    }

    open spec fn div_spec(self, rhs: i64) -> i64 {
        if self >= 0 {
            (self / rhs) as i64
        } else {
            (-((-self) / (rhs as int))) as i64
        }
    }

    open spec fn neg_spec(self) -> i64 {
        vstd::wrapping::i64_specs::wrapping_sub(0, self)
    }

    proof fn lemma_zero_is_zero() {
    }

    fn zero() -> (r: i64) {
        i64_zero()
    }

    fn one() -> (r: i64) {
        i64_one()
    }

    fn is_zero(&self) -> (r: bool) {
        i64_is_zero(*self)
    }

    fn add(self, rhs: i64) -> (r: i64) {
        self.wrapping_add(rhs)
    }

    fn sub(self, rhs: i64) -> (r: i64) {
        self.wrapping_sub(rhs)
    }

    fn mul(self, rhs: i64) -> (r: i64) {
        self.wrapping_mul(rhs)
    }

    fn div(self, rhs: i64) -> (r: i64) {
        self / rhs
    }

    fn neg(self) -> (r: i64) {
        0i64.wrapping_sub(self)
    }
}

/// In `i64`, every value cancels against its own negation.
pub proof fn lemma_i64_cancels(x: i64)
    ensures
        x.add_spec(x.neg_spec()).is_zero_spec(),
{
}

/// In `i64`, one is a left and a right identity of the product.
pub proof fn lemma_i64_one_is_identity(x: i64)
    ensures
        <i64 as TaylorScalar<i64>>::one_spec().mul_spec(x) == x,
        x.mul_spec(<i64 as TaylorScalar<i64>>::one_spec()) == x,
{
}

} // verus!
