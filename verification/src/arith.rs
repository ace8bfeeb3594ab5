//! Tower arithmetic: the operators, each with the jet it computes.

use vstd::prelude::*;
use crate::jet;
use crate::scalar::TaylorScalar;
use crate::tower::TaylorNumber;

verus! {

impl<T: TaylorScalar<T>> vstd::std_specs::ops::AddSpecImpl for TaylorNumber<T> {
    open spec fn obeys_add_spec() -> bool {
        true
    }

    open spec fn add_req(self, rhs: TaylorNumber<T>) -> bool {
        true
    }

    open spec fn add_spec(self, rhs: TaylorNumber<T>) -> TaylorNumber<T> {
        TaylorNumber::from_jet(jet::sum(self@, rhs@))
    }
}

impl<T: TaylorScalar<T>> core::ops::Add for TaylorNumber<T> {
    type Output = TaylorNumber<T>;

    /// Adds level by level; the deeper operand's extra levels are kept.
    fn add(self, rhs: TaylorNumber<T>) -> (r: TaylorNumber<T>)
        ensures
            r@ == jet::sum(self@, rhs@),
        decreases self,
    {
        proof {
            self.lemma_view_nonempty();
            rhs.lemma_view_nonempty();
        }
        let r = match (self, rhs) {
            (TaylorNumber::Unperturbed(a), TaylorNumber::Unperturbed(b)) => {
                TaylorNumber::Unperturbed(a.add(b))
            },
            (TaylorNumber::Unperturbed(a), TaylorNumber::Perturbed(b, df)) => {
                TaylorNumber::Perturbed(a.add(b), df)
            },
            (TaylorNumber::Perturbed(a, df), TaylorNumber::Unperturbed(b)) => {
                TaylorNumber::Perturbed(a.add(b), df)
            },
            (TaylorNumber::Perturbed(a, df_a), TaylorNumber::Perturbed(b, df_b)) => {
                let inner = *df_a + *df_b;
                TaylorNumber::Perturbed(a.add(b), Box::new(inner))
            },
        };
        proof {
            assert(r@ =~= jet::sum(self@, rhs@));
            r.lemma_from_jet_of_view();
        }
        r
    }
}

impl<T: TaylorScalar<T>> vstd::std_specs::ops::NegSpecImpl for TaylorNumber<T> {
    open spec fn obeys_neg_spec() -> bool {
        true
    }

    open spec fn neg_req(self) -> bool {
        true
    }

    open spec fn neg_spec(self) -> TaylorNumber<T> {
        TaylorNumber::from_jet(jet::negated(self@))
    }
}

impl<T: TaylorScalar<T>> core::ops::Neg for TaylorNumber<T> {
    type Output = TaylorNumber<T>;

    /// Negates the value and every derivative.
    fn neg(self) -> (r: TaylorNumber<T>)
        ensures
            r@ == jet::negated(self@),
        decreases self,
    {
        proof {
            self.lemma_view_nonempty();
        }
        let r = match self {
            TaylorNumber::Unperturbed(re) => TaylorNumber::Unperturbed(re.neg()),
            TaylorNumber::Perturbed(re, df) => {
                let inner = core::ops::Neg::neg(*df);
                TaylorNumber::Perturbed(re.neg(), Box::new(inner))
            },
        };
        proof {
            assert(r@ =~= jet::negated(self@));
            r.lemma_from_jet_of_view();
        }
        r
    }
}

impl<T: TaylorScalar<T>> vstd::std_specs::ops::SubSpecImpl for TaylorNumber<T> {
    open spec fn obeys_sub_spec() -> bool {
        true
    }

    open spec fn sub_req(self, rhs: TaylorNumber<T>) -> bool {
        true
    }

    open spec fn sub_spec(self, rhs: TaylorNumber<T>) -> TaylorNumber<T> {
        TaylorNumber::from_jet(jet::sum(self@, jet::negated(rhs@)))
    }
}

impl<T: TaylorScalar<T>> core::ops::Sub for TaylorNumber<T> {
    type Output = TaylorNumber<T>;

    /// Subtracts by adding the negation of `rhs`.
    fn sub(self, rhs: TaylorNumber<T>) -> (r: TaylorNumber<T>)
        ensures
            r@ == jet::sum(self@, jet::negated(rhs@)),
    {
        self + core::ops::Neg::neg(rhs)
    }
}

impl<T: TaylorScalar<T>> vstd::std_specs::ops::MulSpecImpl<T> for TaylorNumber<T> {
    open spec fn obeys_mul_spec() -> bool {
        true
    }

    open spec fn mul_req(self, rhs: T) -> bool {
        true
    }

    open spec fn mul_spec(self, rhs: T) -> TaylorNumber<T> {
        TaylorNumber::from_jet(jet::scaled(self@, rhs))
    }
}

impl<T: TaylorScalar<T>> core::ops::Mul<T> for TaylorNumber<T> {
    type Output = TaylorNumber<T>;

    /// Multiplies the value and every derivative by the scalar `rhs`.
    fn mul(self, rhs: T) -> (r: TaylorNumber<T>)
        ensures
            r@ == jet::scaled(self@, rhs),
        decreases self,
    {
        proof {
            self.lemma_view_nonempty();
        }
        let r = match self {
            TaylorNumber::Unperturbed(re) => TaylorNumber::Unperturbed(re.mul(rhs)),
            TaylorNumber::Perturbed(re, df) => {
                let inner = *df * rhs;
                TaylorNumber::Perturbed(re.mul(rhs), Box::new(inner))
            },
        };
        proof {
            assert(r@ =~= jet::scaled(self@, rhs));
            r.lemma_from_jet_of_view();
        }
        r
    }
}

impl<T: TaylorScalar<T>> vstd::std_specs::ops::MulSpecImpl<TaylorNumber<T>> for TaylorNumber<T> {
    open spec fn obeys_mul_spec() -> bool {
        true
    }

    open spec fn mul_req(self, rhs: TaylorNumber<T>) -> bool {
        true
    }

    open spec fn mul_spec(self, rhs: TaylorNumber<T>) -> TaylorNumber<T> {
        TaylorNumber::from_jet(jet::product(self@, rhs@))
    }
}

impl<T: TaylorScalar<T>> core::ops::Mul<TaylorNumber<T>> for TaylorNumber<T> {
    type Output = TaylorNumber<T>;

    /// Multiplies two towers by the Leibniz rule. Against an operand of
    /// order 0 the other operand's derivatives are scaled by its value.
    /// Where both carry derivatives, the derivative of the product is
    /// `self' * rhs + rhs' * self`, computed with the tower operations.
    fn mul(self, rhs: TaylorNumber<T>) -> (r: TaylorNumber<T>)
        ensures
            r@ == jet::product(self@, rhs@),
        decreases self@.len() + rhs@.len(),
    {
        proof {
            self.lemma_view_nonempty();
            rhs.lemma_view_nonempty();
        }
        let r = match (&self, &rhs) {
            (TaylorNumber::Unperturbed(a), TaylorNumber::Unperturbed(b)) => {
                TaylorNumber::new(a.mul(*b))
            },
            (TaylorNumber::Unperturbed(a), TaylorNumber::Perturbed(b, df)) => {
                proof {
                    df.lemma_view_nonempty();
                    assert(rhs@.drop_first() =~= df@);
                }
                let inner = (&**df).clone() * *a;
                TaylorNumber::Perturbed(a.mul(*b), Box::new(inner))
            },
            (TaylorNumber::Perturbed(a, df), TaylorNumber::Unperturbed(b)) => {
                proof {
                    df.lemma_view_nonempty();
                    assert(self@.drop_first() =~= df@);
                }
                let inner = (&**df).clone() * *b;
                TaylorNumber::Perturbed(a.mul(*b), Box::new(inner))
            },
            _ => {
                let new_real = self.real_part().mul(rhs.real_part());
                let product_rule = self.clone().diff() * rhs.clone() + rhs.diff() * self;
                TaylorNumber::Perturbed(new_real, Box::new(product_rule))
            },
        };
        proof {
            assert(r@ =~= jet::product(self@, rhs@));
            r.lemma_from_jet_of_view();
        }
        r
    }
}

impl<T: TaylorScalar<T>> vstd::std_specs::ops::DivSpecImpl<T> for TaylorNumber<T> {
    open spec fn obeys_div_spec() -> bool {
        true
    }

    open spec fn div_req(self, rhs: T) -> bool {
        true
    }

    open spec fn div_spec(self, rhs: T) -> TaylorNumber<T> {
        TaylorNumber::from_jet(jet::scaled(self@, rhs))
    }
}

impl<T: TaylorScalar<T>> core::ops::Div<T> for TaylorNumber<T> {
    type Output = TaylorNumber<T>;

    /// Rescales the value and every derivative by the scalar `rhs`, which
    /// is applied as a factor: no reciprocal is taken, and `t / s` is the
    /// same tower as `t * s`.
    fn div(self, rhs: T) -> (r: TaylorNumber<T>)
        ensures
            r@ == jet::scaled(self@, rhs),
    {
        self * rhs
    }
}

/// The third power `x * x * x`, with the products taken from the left.
pub fn cube<T: TaylorScalar<T>>(x: TaylorNumber<T>) -> (r: TaylorNumber<T>)
    ensures
        r@ == jet::product(jet::product(x@, x@), x@),
{
    x.clone() * x.clone() * x
}

} // verus!
