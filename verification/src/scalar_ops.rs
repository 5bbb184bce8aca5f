//! The operator algebra of scalars. For each operator the form that borrows its
//! operands computes, through the contract of the field type; every other ownership
//! form forwards to it, so that all forms agree by construction.
use crate::scalar::{Scalar, ScalarNumber};
use core::ops::{Add, AddAssign, Mul, MulAssign, Neg, Sub};
use vstd::prelude::*;
use vstd::std_specs::ops::{AddSpecImpl, MulSpecImpl, NegSpecImpl, SubSpecImpl};

verus! {

impl<'a, S: ScalarNumber> Neg for &'a Scalar<S> {
    type Output = Scalar<S>;

    /// The additive inverse of a scalar.
    fn neg(self) -> (r: Scalar<S>)
        ensures
            r.valid(),
    {
        proof {
            S::lemma_closed(self.0, self.0);
        }
        Scalar(self.0.neg())
    }
}

impl<'a, S: ScalarNumber> NegSpecImpl for &'a Scalar<S> {
    open spec fn obeys_neg_spec() -> bool {
        true
    }

    open spec fn neg_req(self) -> bool {
        self.valid()
    }

    open spec fn neg_spec(self) -> Scalar<S> {
        Scalar(self.0.neg_spec())
    }
}

impl<S: ScalarNumber> Neg for Scalar<S> {
    type Output = Scalar<S>;

    /// The additive inverse of a scalar. Forwards to the form that borrows its operand.
    fn neg(self) -> (r: Scalar<S>)
        ensures
            r.valid(),
    {
        (&self).neg()
    }
}

impl<S: ScalarNumber> NegSpecImpl for Scalar<S> {
    open spec fn obeys_neg_spec() -> bool {
        true
    }

    open spec fn neg_req(self) -> bool {
        self.valid()
    }

    open spec fn neg_spec(self) -> Scalar<S> {
        Scalar(self.0.neg_spec())
    }
}

impl<'a, 'b, S: ScalarNumber> Add<&'b Scalar<S>> for &'a Scalar<S> {
    type Output = Scalar<S>;

    /// The sum of two scalars.
    fn add(self, rhs: &'b Scalar<S>) -> (r: Scalar<S>)
        ensures
            r.valid(),
    {
        proof {
            S::lemma_closed(self.0, rhs.0);
        }
        let inner = self.0.add(&rhs.0);
        Scalar(inner)
    }
}

impl<'a, 'b, S: ScalarNumber> AddSpecImpl<&'b Scalar<S>> for &'a Scalar<S> {
    open spec fn obeys_add_spec() -> bool {
        true
    }

    open spec fn add_req(self, rhs: &'b Scalar<S>) -> bool {
        self.valid() && rhs.valid()
    }

    open spec fn add_spec(self, rhs: &'b Scalar<S>) -> Scalar<S> {
        Scalar(self.0.add_spec(rhs.0))
    }
}

impl<'b, S: ScalarNumber> Add<&'b Scalar<S>> for Scalar<S> {
    type Output = Scalar<S>;

    /// The sum of two scalars. Forwards to the form that borrows both operands.
    fn add(self, rhs: &'b Scalar<S>) -> (r: Scalar<S>)
        ensures
            r.valid(),
    {
        (&self).add(rhs)
    }
}

impl<'b, S: ScalarNumber> AddSpecImpl<&'b Scalar<S>> for Scalar<S> {
    open spec fn obeys_add_spec() -> bool {
        true
    }

    open spec fn add_req(self, rhs: &'b Scalar<S>) -> bool {
        self.valid() && rhs.valid()
    }

    open spec fn add_spec(self, rhs: &'b Scalar<S>) -> Scalar<S> {
        Scalar(self.0.add_spec(rhs.0))
    }
}

impl<S: ScalarNumber> Add<Scalar<S>> for Scalar<S> {
    type Output = Scalar<S>;

    /// The sum of two scalars. Forwards to the form that borrows both operands.
    fn add(self, rhs: Scalar<S>) -> (r: Scalar<S>)
        ensures
            r.valid(),
    {
        (&self).add(&rhs)
    }
}

impl<S: ScalarNumber> AddSpecImpl<Scalar<S>> for Scalar<S> {
    open spec fn obeys_add_spec() -> bool {
        true
    }

    open spec fn add_req(self, rhs: Scalar<S>) -> bool {
        self.valid() && rhs.valid()
    }

    open spec fn add_spec(self, rhs: Scalar<S>) -> Scalar<S> {
        Scalar(self.0.add_spec(rhs.0))
    }
}

impl<'a, S: ScalarNumber> Add<Scalar<S>> for &'a Scalar<S> {
    type Output = Scalar<S>;

    /// The sum of two scalars. Forwards to the form that borrows both operands.
    fn add(self, rhs: Scalar<S>) -> (r: Scalar<S>)
        ensures
            r.valid(),
    {
        self.add(&rhs)
    }
}

impl<'a, S: ScalarNumber> AddSpecImpl<Scalar<S>> for &'a Scalar<S> {
    open spec fn obeys_add_spec() -> bool {
        true
    }

    open spec fn add_req(self, rhs: Scalar<S>) -> bool {
        self.valid() && rhs.valid()
    }

    open spec fn add_spec(self, rhs: Scalar<S>) -> Scalar<S> {
        Scalar(self.0.add_spec(rhs.0))
    }
}

impl<'a, 'b, S: ScalarNumber> Mul<&'b Scalar<S>> for &'a Scalar<S> {
    type Output = Scalar<S>;

    /// The product of two scalars.
    fn mul(self, rhs: &'b Scalar<S>) -> (r: Scalar<S>)
        ensures
            r.valid(),
    {
        proof {
            S::lemma_closed(self.0, rhs.0);
        }
        let inner = self.0.mul(&rhs.0);
        Scalar(inner)
    }
}

impl<'a, 'b, S: ScalarNumber> MulSpecImpl<&'b Scalar<S>> for &'a Scalar<S> {
    open spec fn obeys_mul_spec() -> bool {
        true
    }

    open spec fn mul_req(self, rhs: &'b Scalar<S>) -> bool {
        self.valid() && rhs.valid()
    }

    open spec fn mul_spec(self, rhs: &'b Scalar<S>) -> Scalar<S> {
        Scalar(self.0.mul_spec(rhs.0))
    }
}

impl<'b, S: ScalarNumber> Mul<&'b Scalar<S>> for Scalar<S> {
    type Output = Scalar<S>;

    /// The product of two scalars. Forwards to the form that borrows both operands.
    fn mul(self, rhs: &'b Scalar<S>) -> (r: Scalar<S>)
        ensures
            r.valid(),
    {
        (&self).mul(rhs)
    }
}

impl<'b, S: ScalarNumber> MulSpecImpl<&'b Scalar<S>> for Scalar<S> {
    open spec fn obeys_mul_spec() -> bool {
        true
    }

    open spec fn mul_req(self, rhs: &'b Scalar<S>) -> bool {
        self.valid() && rhs.valid()
    }

    open spec fn mul_spec(self, rhs: &'b Scalar<S>) -> Scalar<S> {
        Scalar(self.0.mul_spec(rhs.0))
    }
}

impl<S: ScalarNumber> Mul<Scalar<S>> for Scalar<S> {
    type Output = Scalar<S>;

    /// The product of two scalars. Forwards to the form that borrows both operands.
    fn mul(self, rhs: Scalar<S>) -> (r: Scalar<S>)
        ensures
            r.valid(),
    {
        (&self).mul(&rhs)
    }
}

impl<S: ScalarNumber> MulSpecImpl<Scalar<S>> for Scalar<S> {
    open spec fn obeys_mul_spec() -> bool {
        true
    }

    open spec fn mul_req(self, rhs: Scalar<S>) -> bool {
        self.valid() && rhs.valid()
    }

    open spec fn mul_spec(self, rhs: Scalar<S>) -> Scalar<S> {
        Scalar(self.0.mul_spec(rhs.0))
    }
}

impl<'a, S: ScalarNumber> Mul<Scalar<S>> for &'a Scalar<S> {
    type Output = Scalar<S>;

    /// The product of two scalars. Forwards to the form that borrows both operands.
    fn mul(self, rhs: Scalar<S>) -> (r: Scalar<S>)
        ensures
            r.valid(),
    {
        self.mul(&rhs)
    }
}

impl<'a, S: ScalarNumber> MulSpecImpl<Scalar<S>> for &'a Scalar<S> {
    open spec fn obeys_mul_spec() -> bool {
        true
    }

    open spec fn mul_req(self, rhs: Scalar<S>) -> bool {
        self.valid() && rhs.valid()
    }

    open spec fn mul_spec(self, rhs: Scalar<S>) -> Scalar<S> {
        Scalar(self.0.mul_spec(rhs.0))
    }
}

impl<'a, 'b, S: ScalarNumber> Sub<&'b Scalar<S>> for &'a Scalar<S> {
    type Output = Scalar<S>;

    /// The difference of two scalars: the left operand plus the negation of the right
    /// one.
    fn sub(self, rhs: &'b Scalar<S>) -> (r: Scalar<S>)
        ensures
            r.valid(),
    {
        proof {
            S::lemma_closed(rhs.0, rhs.0);
            S::lemma_closed(self.0, rhs.0.neg_spec());
        }
        let inner = self.0.add(&rhs.0.neg());
        Scalar(inner)
    }
}

impl<'a, 'b, S: ScalarNumber> SubSpecImpl<&'b Scalar<S>> for &'a Scalar<S> {
    open spec fn obeys_sub_spec() -> bool {
        true
    }

    open spec fn sub_req(self, rhs: &'b Scalar<S>) -> bool {
        self.valid() && rhs.valid()
    }

    open spec fn sub_spec(self, rhs: &'b Scalar<S>) -> Scalar<S> {
        Scalar(self.0.add_spec(rhs.0.neg_spec()))
    }
}

impl<'b, S: ScalarNumber> Sub<&'b Scalar<S>> for Scalar<S> {
    type Output = Scalar<S>;

    /// The difference of two scalars: the left operand plus the negation of the right
    /// one. Forwards to the form that borrows both operands.
    fn sub(self, rhs: &'b Scalar<S>) -> (r: Scalar<S>)
        ensures
            r.valid(),
    {
        (&self).sub(rhs)
    }
}

impl<'b, S: ScalarNumber> SubSpecImpl<&'b Scalar<S>> for Scalar<S> {
    open spec fn obeys_sub_spec() -> bool {
        true
    }

    open spec fn sub_req(self, rhs: &'b Scalar<S>) -> bool {
        self.valid() && rhs.valid()
    }

    open spec fn sub_spec(self, rhs: &'b Scalar<S>) -> Scalar<S> {
        Scalar(self.0.add_spec(rhs.0.neg_spec()))
    }
}

impl<S: ScalarNumber> Sub<Scalar<S>> for Scalar<S> {
    type Output = Scalar<S>;

    /// The difference of two scalars: the left operand plus the negation of the right
    /// one. Forwards to the form that borrows both operands.
    fn sub(self, rhs: Scalar<S>) -> (r: Scalar<S>)
        ensures
            r.valid(),
    {
        (&self).sub(&rhs)
    }
}

impl<S: ScalarNumber> SubSpecImpl<Scalar<S>> for Scalar<S> {
    open spec fn obeys_sub_spec() -> bool {
        true
    }

    open spec fn sub_req(self, rhs: Scalar<S>) -> bool {
        self.valid() && rhs.valid()
    }

    open spec fn sub_spec(self, rhs: Scalar<S>) -> Scalar<S> {
        Scalar(self.0.add_spec(rhs.0.neg_spec()))
    }
}

impl<'a, S: ScalarNumber> Sub<Scalar<S>> for &'a Scalar<S> {
    type Output = Scalar<S>;

    /// The difference of two scalars: the left operand plus the negation of the right
    /// one. Forwards to the form that borrows both operands.
    fn sub(self, rhs: Scalar<S>) -> (r: Scalar<S>)
        ensures
            r.valid(),
    {
        self.sub(&rhs)
    }
}

impl<'a, S: ScalarNumber> SubSpecImpl<Scalar<S>> for &'a Scalar<S> {
    open spec fn obeys_sub_spec() -> bool {
        true
    }

    open spec fn sub_req(self, rhs: Scalar<S>) -> bool {
        self.valid() && rhs.valid()
    }

    open spec fn sub_spec(self, rhs: Scalar<S>) -> Scalar<S> {
        Scalar(self.0.add_spec(rhs.0.neg_spec()))
    }
}

impl<'b, S: ScalarNumber> AddAssign<&'b Scalar<S>> for Scalar<S> {
    /// Replaces the scalar by its sum with `rhs`.
    fn add_assign(&mut self, rhs: &'b Scalar<S>)
        requires
            old(self).valid(),
            rhs.valid(),
        ensures
            final(self)@ == old(self)@.add_spec(rhs@),
            final(self).valid(),
    {
        proof {
            S::lemma_closed(self.0, rhs.0);
        }
        self.0 = self.0.add(&rhs.0)
    }
}

impl<'b, S: ScalarNumber> MulAssign<&'b Scalar<S>> for Scalar<S> {
    /// Replaces the scalar by its product with `rhs`.
    fn mul_assign(&mut self, rhs: &'b Scalar<S>)
        requires
            old(self).valid(),
            rhs.valid(),
        ensures
            final(self)@ == old(self)@.mul_spec(rhs@),
            final(self).valid(),
    {
        proof {
            S::lemma_closed(self.0, rhs.0);
        }
        self.0 = self.0.mul(&rhs.0)
    }
}

} // verus!
