//! The tower type: its construction and inspection.

use vstd::prelude::*;
use crate::jet;
use crate::scalar::TaylorScalar;

verus! {

/// A value with the chain of its successive derivatives at a point.
///
/// An `Unperturbed` tower has order 0: it carries a value and no derivative
/// information. A `Perturbed` tower carries its value and, owned by it
/// alone, the tower of its first derivative, which may itself be perturbed.
/// The order of a tower is the depth of that nesting.
#[derive(Debug)]
pub enum TaylorNumber<T: TaylorScalar<T>> {
    Unperturbed(T),
    Perturbed(T, Box<TaylorNumber<T>>),
}

impl<T: TaylorScalar<T>> View for TaylorNumber<T> {
    type V = Seq<T>;

    /// The jet of the tower.
    open spec fn view(&self) -> Seq<T> {
        self.jet()
    }
}

impl<T: TaylorScalar<T>> TaylorNumber<T> {
    /// The jet of the tower: its value, then the jet of its derivative.
    pub open spec fn jet(&self) -> Seq<T>
        decreases self,
    {
        match self {
            TaylorNumber::Unperturbed(re) => seq![*re],
            TaylorNumber::Perturbed(re, df) => seq![*re] + df.jet(),
        }
    }

    /// A jet is never empty.
    pub proof fn lemma_view_nonempty(&self)
        ensures
            self@.len() >= 1,
            self is Unperturbed <==> self@.len() == 1,
        decreases self,
    {
        match self {
            TaylorNumber::Unperturbed(_) => {},
            TaylorNumber::Perturbed(_, df) => {
                df.lemma_view_nonempty();
            },
        }
    }

    /// The tower with a given jet: the inverse of the view.
    pub open spec fn from_jet(s: Seq<T>) -> Self
        recommends
            s.len() >= 1,
        decreases s.len(),
    {
        if s.len() <= 1 {
            TaylorNumber::Unperturbed(s[0])
        } else {
            TaylorNumber::Perturbed(s[0], Box::new(Self::from_jet(s.drop_first())))
        }
    }

    /// A tower is determined by its jet.
    pub proof fn lemma_from_jet_of_view(&self)
        ensures
            Self::from_jet(self@) == *self,
        decreases self,
    {
        self.lemma_view_nonempty();
        match self {
            TaylorNumber::Unperturbed(_) => {},
            TaylorNumber::Perturbed(re, df) => {
                df.lemma_from_jet_of_view();
                df.lemma_view_nonempty();
                assert(self@.drop_first() =~= df@);
            },
        }
    }

    /// Every non-empty sequence is the jet of a tower.
    pub proof fn lemma_view_of_from_jet(s: Seq<T>)
        requires
            s.len() >= 1,
        ensures
            Self::from_jet(s)@ == s,
        decreases s.len(),
    {
        if s.len() > 1 {
            Self::lemma_view_of_from_jet(s.drop_first());
            assert(seq![s[0]] + s.drop_first() =~= s);
        } else {
            assert(seq![s[0]] =~= s);
        }
    }

    /// The nesting depth: how many derivatives the tower carries.
    pub open spec fn order(&self) -> nat {
        (self@.len() - 1) as nat
    }

    /// A tower of order 0 that holds `re`.
    pub fn new(re: T) -> (r: Self)
        ensures
            r == TaylorNumber::Unperturbed(re),
            r@ == seq![re],
            r.order() == 0,
    {
        TaylorNumber::Unperturbed(re)
    }

    /// Grows the tower by one perturbation. A tower of order 0 gets the
    /// constant `df` as its first derivative. In a tower that already has
    /// a derivative, `df` is added to it as a constant: its outermost
    /// value grows by `df` and no new level appears.
    pub fn perturb_by(&mut self, df: T)
        ensures
            final(self)@ == jet::perturbed(old(self)@, df),
    {
        proof {
            self.lemma_view_nonempty();
        }
        let next = match &*self {
            TaylorNumber::Unperturbed(re) => {
                TaylorNumber::Perturbed(*re, Box::new(TaylorNumber::Unperturbed(df)))
            },
            TaylorNumber::Perturbed(re, df_self) => {
                proof {
                    df_self.lemma_view_nonempty();
                }
                let grown = (&**df_self).clone() + TaylorNumber::Unperturbed(df);
                TaylorNumber::Perturbed(*re, Box::new(grown))
            },
        };
        assert(next@ =~= jet::perturbed(self@, df));
        *self = next;
    }

    /// The value at the outermost level.
    pub fn real_part(&self) -> (r: T)
        ensures
            r == self@[0],
    {
        match self {
            TaylorNumber::Unperturbed(re) => *re,
            TaylorNumber::Perturbed(re, _) => *re,
        }
    }

    /// The tower of the first derivative: the nested tower where there is
    /// one, and a zero of order 0 where there is none.
    pub fn diff(self) -> (r: Self)
        ensures
            r@ == jet::derived(self@),
    {
        proof {
            self.lemma_view_nonempty();
        }
        match self {
            TaylorNumber::Unperturbed(_) => TaylorNumber::Unperturbed(T::zero()),
            TaylorNumber::Perturbed(_, df) => {
                proof {
                    df.lemma_view_nonempty();
                    assert(self@.drop_first() =~= df@);
                }
                *df
            },
        }
    }

    /// The result of `nth` descents that start from the value alone: the
    /// tower of order 0 that holds the value for `nth == 0`, and a zero of
    /// order 0 after any further descent, however deep `self` is.
    pub fn derivative(self, nth: u32) -> (r: Self)
        ensures
            r@ == jet::descended(self@, nth as nat),
        decreases nth,
    {
        if nth == 0 {
            TaylorNumber::Unperturbed(self.real_part())
        } else {
            self.derivative(nth - 1).diff()
        }
    }

    /// The additive identity: a zero of order 0.
    pub fn zero() -> (r: Self)
        ensures
            r@ == seq![T::zero_spec()],
    {
        TaylorNumber::Unperturbed(T::zero())
    }

    /// The multiplicative identity: a one of order 0.
    pub fn one() -> (r: Self)
        ensures
            r@ == seq![T::one_spec()],
    {
        TaylorNumber::Unperturbed(T::one())
    }

    /// Whether the value and every derivative, down to the innermost
    /// level, count as zero.
    pub fn is_zero(&self) -> (r: bool)
        ensures
            r == jet::all_zero(self@),
        decreases self,
    {
        match self {
            TaylorNumber::Unperturbed(re) => {
                assert(self@[0] == *re);
                re.is_zero()
            },
            TaylorNumber::Perturbed(re, df) => {
                let z = re.is_zero() && df.is_zero();
                proof {
                    assert(self@[0] == *re);
                    assert(forall|i: int| 0 <= i < df@.len() ==> df@[i] == self@[i + 1]);
                    if z {
                        assert forall|i: int| 0 <= i < self@.len() implies (#[trigger] self@[i]).is_zero_spec() by {
                            if i > 0 {
                                assert(self@[i] == df@[i - 1]);
                            }
                        }
                    }
                }
                z
            },
        }
    }
}

impl<T: TaylorScalar<T>> Clone for TaylorNumber<T> {
    /// An independent copy of the whole chain.
    fn clone(&self) -> (r: Self)
        ensures
            r == *self,
        decreases self,
    {
        match self {
            TaylorNumber::Unperturbed(re) => TaylorNumber::Unperturbed(*re),
            TaylorNumber::Perturbed(re, df) => {
                let inner = (&**df).clone();
                TaylorNumber::Perturbed(*re, Box::new(inner))
            },
        }
    }
}

} // verus!
