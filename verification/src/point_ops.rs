//! The operator algebra of points, and the products of a point and a scalar in
//! both operand orders. For each operator the form that borrows its operands
//! computes, through the contract of the group type; every other ownership form
//! forwards to it, so that all forms agree by construction.
use crate::point::{DisLogPoint, Point};
use crate::scalar::{Scalar, ScalarNumber};
use core::ops::{Add, AddAssign, Mul, Neg, Sub};
use vstd::prelude::*;
use vstd::std_specs::ops::{AddSpecImpl, MulSpecImpl, NegSpecImpl, SubSpecImpl};

verus! {

impl<'a, P: DisLogPoint> Neg for &'a Point<P> {
    type Output = Point<P>;

    /// The inverse of a point.
    fn neg(self) -> (r: Point<P>)
        ensures
            r.valid(),
    {
        proof {
            P::Scalar::lemma_constants_valid();
            P::lemma_closed(self.0, self.0, P::Scalar::zero_spec());
        }
        Point(self.0.neg())
    }
}

impl<'a, P: DisLogPoint> NegSpecImpl for &'a Point<P> {
    open spec fn obeys_neg_spec() -> bool {
        true
    }

    open spec fn neg_req(self) -> bool {
        self.valid()
    }

    open spec fn neg_spec(self) -> Point<P> {
        Point(self.0.neg_spec())
    }
}

impl<P: DisLogPoint> Neg for Point<P> {
    type Output = Point<P>;

    /// The inverse of a point. Forwards to the form that borrows its operand.
    fn neg(self) -> (r: Point<P>)
        ensures
            r.valid(),
    {
        (&self).neg()
    }
}

impl<P: DisLogPoint> NegSpecImpl for Point<P> {
    open spec fn obeys_neg_spec() -> bool {
        true
    }

    open spec fn neg_req(self) -> bool {
        self.valid()
    }

    open spec fn neg_spec(self) -> Point<P> {
        Point(self.0.neg_spec())
    }
}

impl<'a, 'b, P: DisLogPoint> Add<&'b Point<P>> for &'a Point<P> {
    type Output = Point<P>;

    /// The sum of two points.
    fn add(self, rhs: &'b Point<P>) -> (r: Point<P>)
        ensures
            r.valid(),
    {
        proof {
            P::Scalar::lemma_constants_valid();
            P::lemma_closed(self.0, rhs.0, P::Scalar::zero_spec());
        }
        let inner = self.0.add(&rhs.0);
        Point(inner)
    }
}

impl<'a, 'b, P: DisLogPoint> AddSpecImpl<&'b Point<P>> for &'a Point<P> {
    open spec fn obeys_add_spec() -> bool {
        true
    }

    open spec fn add_req(self, rhs: &'b Point<P>) -> bool {
        self.valid() && rhs.valid()
    }

    open spec fn add_spec(self, rhs: &'b Point<P>) -> Point<P> {
        Point(self.0.add_spec(rhs.0))
    }
}

impl<'b, P: DisLogPoint> Add<&'b Point<P>> for Point<P> {
    type Output = Point<P>;

    /// The sum of two points. Forwards to the form that borrows both operands.
    fn add(self, rhs: &'b Point<P>) -> (r: Point<P>)
        ensures
            r.valid(),
    {
        (&self).add(rhs)
    }
}

impl<'b, P: DisLogPoint> AddSpecImpl<&'b Point<P>> for Point<P> {
    open spec fn obeys_add_spec() -> bool {
        true
    }

    open spec fn add_req(self, rhs: &'b Point<P>) -> bool {
        self.valid() && rhs.valid()
    }

    open spec fn add_spec(self, rhs: &'b Point<P>) -> Point<P> {
        Point(self.0.add_spec(rhs.0))
    }
}

impl<P: DisLogPoint> Add<Point<P>> for Point<P> {
    type Output = Point<P>;

    /// The sum of two points. Forwards to the form that borrows both operands.
    fn add(self, rhs: Point<P>) -> (r: Point<P>)
        ensures
            r.valid(),
    {
        (&self).add(&rhs)
    }
}

impl<P: DisLogPoint> AddSpecImpl<Point<P>> for Point<P> {
    open spec fn obeys_add_spec() -> bool {
        true
    }

    open spec fn add_req(self, rhs: Point<P>) -> bool {
        self.valid() && rhs.valid()
    }

    open spec fn add_spec(self, rhs: Point<P>) -> Point<P> {
        Point(self.0.add_spec(rhs.0))
    }
}

impl<'a, P: DisLogPoint> Add<Point<P>> for &'a Point<P> {
    type Output = Point<P>;

    /// The sum of two points. Forwards to the form that borrows both operands.
    fn add(self, rhs: Point<P>) -> (r: Point<P>)
        ensures
            r.valid(),
    {
        self.add(&rhs)
    }
}

impl<'a, P: DisLogPoint> AddSpecImpl<Point<P>> for &'a Point<P> {
    open spec fn obeys_add_spec() -> bool {
        true
    }

    open spec fn add_req(self, rhs: Point<P>) -> bool {
        self.valid() && rhs.valid()
    }

    open spec fn add_spec(self, rhs: Point<P>) -> Point<P> {
        Point(self.0.add_spec(rhs.0))
    }
}

impl<'a, 'b, P: DisLogPoint> Sub<&'b Point<P>> for &'a Point<P> {
    type Output = Point<P>;

    /// The difference of two points: the left operand plus the inverse of the right
    /// one.
    fn sub(self, rhs: &'b Point<P>) -> (r: Point<P>)
        ensures
            r.valid(),
    {
        proof {
            P::Scalar::lemma_constants_valid();
            P::lemma_closed(rhs.0, rhs.0, P::Scalar::zero_spec());
            P::lemma_closed(self.0, rhs.0.neg_spec(), P::Scalar::zero_spec());
        }
        let inner = self.0.add(&rhs.0.neg());
        Point(inner)
    }
}

impl<'a, 'b, P: DisLogPoint> SubSpecImpl<&'b Point<P>> for &'a Point<P> {
    open spec fn obeys_sub_spec() -> bool {
        true
    }

    open spec fn sub_req(self, rhs: &'b Point<P>) -> bool {
        self.valid() && rhs.valid()
    }

    open spec fn sub_spec(self, rhs: &'b Point<P>) -> Point<P> {
        Point(self.0.add_spec(rhs.0.neg_spec()))
    }
}

impl<'b, P: DisLogPoint> Sub<&'b Point<P>> for Point<P> {
    type Output = Point<P>;

    /// The difference of two points: the left operand plus the inverse of the right
    /// one. Forwards to the form that borrows both operands.
    fn sub(self, rhs: &'b Point<P>) -> (r: Point<P>)
        ensures
            r.valid(),
    {
        (&self).sub(rhs)
    }
}

impl<'b, P: DisLogPoint> SubSpecImpl<&'b Point<P>> for Point<P> {
    open spec fn obeys_sub_spec() -> bool {
        true
    }

    open spec fn sub_req(self, rhs: &'b Point<P>) -> bool {
        self.valid() && rhs.valid()
    }

    open spec fn sub_spec(self, rhs: &'b Point<P>) -> Point<P> {
        Point(self.0.add_spec(rhs.0.neg_spec()))
    }
}

impl<P: DisLogPoint> Sub<Point<P>> for Point<P> {
    type Output = Point<P>;

    /// The difference of two points: the left operand plus the inverse of the right
    /// one. Forwards to the form that borrows both operands.
    fn sub(self, rhs: Point<P>) -> (r: Point<P>)
        ensures
            r.valid(),
    {
        (&self).sub(&rhs)
    }
}

impl<P: DisLogPoint> SubSpecImpl<Point<P>> for Point<P> {
    open spec fn obeys_sub_spec() -> bool {
        true
    }

    open spec fn sub_req(self, rhs: Point<P>) -> bool {
        self.valid() && rhs.valid()
    }

    open spec fn sub_spec(self, rhs: Point<P>) -> Point<P> {
        Point(self.0.add_spec(rhs.0.neg_spec()))
    }
}

impl<'a, P: DisLogPoint> Sub<Point<P>> for &'a Point<P> {
    type Output = Point<P>;

    /// The difference of two points: the left operand plus the inverse of the right
    /// one. Forwards to the form that borrows both operands.
    fn sub(self, rhs: Point<P>) -> (r: Point<P>)
        ensures
            r.valid(),
    {
        self.sub(&rhs)
    }
}

impl<'a, P: DisLogPoint> SubSpecImpl<Point<P>> for &'a Point<P> {
    open spec fn obeys_sub_spec() -> bool {
        true
    }

    open spec fn sub_req(self, rhs: Point<P>) -> bool {
        self.valid() && rhs.valid()
    }

    open spec fn sub_spec(self, rhs: Point<P>) -> Point<P> {
        Point(self.0.add_spec(rhs.0.neg_spec()))
    }
}

impl<'a, 'b, P: DisLogPoint<Scalar = S>, S: ScalarNumber<Point = P>> Mul<&'b Scalar<S>>
    for &'a Point<P> {
    type Output = Point<P>;

    /// The multiple of a point by a scalar.
    fn mul(self, rhs: &'b Scalar<S>) -> (r: Point<P>)
        ensures
            r.valid(),
    {
        proof {
            P::lemma_closed(self.0, self.0, rhs.0);
        }
        let inner = self.0.mul(&rhs.0);
        Point(inner)
    }
}

impl<'a, 'b, P: DisLogPoint<Scalar = S>, S: ScalarNumber<Point = P>> MulSpecImpl<&'b Scalar<S>>
    for &'a Point<P> {
    open spec fn obeys_mul_spec() -> bool {
        true
    }

    open spec fn mul_req(self, rhs: &'b Scalar<S>) -> bool {
        self.valid() && rhs.valid()
    }

    open spec fn mul_spec(self, rhs: &'b Scalar<S>) -> Point<P> {
        Point(self.0.mul_spec(rhs.0))
    }
}

impl<'b, P: DisLogPoint<Scalar = S>, S: ScalarNumber<Point = P>> Mul<&'b Scalar<S>> for Point<P> {
    type Output = Point<P>;

    /// The multiple of a point by a scalar. Forwards to the form that borrows both
    /// operands.
    fn mul(self, rhs: &'b Scalar<S>) -> (r: Point<P>)
        ensures
            r.valid(),
    {
        (&self).mul(rhs)
    }
}

impl<'b, P: DisLogPoint<Scalar = S>, S: ScalarNumber<Point = P>> MulSpecImpl<&'b Scalar<S>>
    for Point<P> {
    open spec fn obeys_mul_spec() -> bool {
        true
    }

    open spec fn mul_req(self, rhs: &'b Scalar<S>) -> bool {
        self.valid() && rhs.valid()
    }

    open spec fn mul_spec(self, rhs: &'b Scalar<S>) -> Point<P> {
        Point(self.0.mul_spec(rhs.0))
    }
}

impl<P: DisLogPoint<Scalar = S>, S: ScalarNumber<Point = P>> Mul<Scalar<S>> for Point<P> {
    type Output = Point<P>;

    /// The multiple of a point by a scalar. Forwards to the form that borrows both
    /// operands.
    fn mul(self, rhs: Scalar<S>) -> (r: Point<P>)
        ensures
            r.valid(),
    {
        (&self).mul(&rhs)
    }
}

impl<P: DisLogPoint<Scalar = S>, S: ScalarNumber<Point = P>> MulSpecImpl<Scalar<S>> for Point<P> {
    open spec fn obeys_mul_spec() -> bool {
        true
    }

    open spec fn mul_req(self, rhs: Scalar<S>) -> bool {
        self.valid() && rhs.valid()
    }

    open spec fn mul_spec(self, rhs: Scalar<S>) -> Point<P> {
        Point(self.0.mul_spec(rhs.0))
    }
}

impl<'a, P: DisLogPoint<Scalar = S>, S: ScalarNumber<Point = P>> Mul<Scalar<S>> for &'a Point<P> {
    type Output = Point<P>;

    /// The multiple of a point by a scalar. Forwards to the form that borrows both
    /// operands.
    fn mul(self, rhs: Scalar<S>) -> (r: Point<P>)
        ensures
            r.valid(),
    {
        self.mul(&rhs)
    }
}

impl<'a, P: DisLogPoint<Scalar = S>, S: ScalarNumber<Point = P>> MulSpecImpl<Scalar<S>>
    for &'a Point<P> {
    open spec fn obeys_mul_spec() -> bool {
        true
    }

    open spec fn mul_req(self, rhs: Scalar<S>) -> bool {
        self.valid() && rhs.valid()
    }

    open spec fn mul_spec(self, rhs: Scalar<S>) -> Point<P> {
        Point(self.0.mul_spec(rhs.0))
    }
}

impl<'a, 'b, S: ScalarNumber<Point = P>, P: DisLogPoint<Scalar = S>> Mul<&'b Point<P>>
    for &'a Scalar<S> {
    type Output = Point<P>;

    /// The multiple of a point by a scalar, with the scalar on the left.
    fn mul(self, rhs: &'b Point<P>) -> (r: Point<P>)
        ensures
            r.valid(),
    {
        proof {
            P::lemma_closed(rhs.0, rhs.0, self.0);
        }
        let inner = rhs.0.mul(&self.0);
        Point(inner)
    }
}

impl<'a, 'b, S: ScalarNumber<Point = P>, P: DisLogPoint<Scalar = S>> MulSpecImpl<&'b Point<P>>
    for &'a Scalar<S> {
    open spec fn obeys_mul_spec() -> bool {
        true
    }

    open spec fn mul_req(self, rhs: &'b Point<P>) -> bool {
        self.valid() && rhs.valid()
    }

    open spec fn mul_spec(self, rhs: &'b Point<P>) -> Point<P> {
        Point(rhs.0.mul_spec(self.0))
    }
}

impl<'b, S: ScalarNumber<Point = P>, P: DisLogPoint<Scalar = S>> Mul<&'b Point<P>> for Scalar<S> {
    type Output = Point<P>;

    /// The multiple of a point by a scalar, with the scalar on the left. Forwards to
    /// the form that borrows both operands.
    fn mul(self, rhs: &'b Point<P>) -> (r: Point<P>)
        ensures
            r.valid(),
    {
        (&self).mul(rhs)
    }
}

impl<'b, S: ScalarNumber<Point = P>, P: DisLogPoint<Scalar = S>> MulSpecImpl<&'b Point<P>>
    for Scalar<S> {
    open spec fn obeys_mul_spec() -> bool {
        true
    }

    open spec fn mul_req(self, rhs: &'b Point<P>) -> bool {
        self.valid() && rhs.valid()
    }

    open spec fn mul_spec(self, rhs: &'b Point<P>) -> Point<P> {
        Point(rhs.0.mul_spec(self.0))
    }
}

impl<S: ScalarNumber<Point = P>, P: DisLogPoint<Scalar = S>> Mul<Point<P>> for Scalar<S> {
    type Output = Point<P>;

    /// The multiple of a point by a scalar, with the scalar on the left. Forwards to
    /// the form that borrows both operands.
    fn mul(self, rhs: Point<P>) -> (r: Point<P>)
        ensures
            r.valid(),
    {
        (&self).mul(&rhs)
    }
}

impl<S: ScalarNumber<Point = P>, P: DisLogPoint<Scalar = S>> MulSpecImpl<Point<P>> for Scalar<S> {
    open spec fn obeys_mul_spec() -> bool {
        true
    }

    open spec fn mul_req(self, rhs: Point<P>) -> bool {
        self.valid() && rhs.valid()
    }

    open spec fn mul_spec(self, rhs: Point<P>) -> Point<P> {
        Point(rhs.0.mul_spec(self.0))
    }
}

impl<'a, S: ScalarNumber<Point = P>, P: DisLogPoint<Scalar = S>> Mul<Point<P>> for &'a Scalar<S> {
    type Output = Point<P>;

    /// The multiple of a point by a scalar, with the scalar on the left. Forwards to
    /// the form that borrows both operands.
    fn mul(self, rhs: Point<P>) -> (r: Point<P>)
        ensures
            r.valid(),
    {
        self.mul(&rhs)
    }
}

impl<'a, S: ScalarNumber<Point = P>, P: DisLogPoint<Scalar = S>> MulSpecImpl<Point<P>>
    for &'a Scalar<S> {
    open spec fn obeys_mul_spec() -> bool {
        true
    }

    open spec fn mul_req(self, rhs: Point<P>) -> bool {
        self.valid() && rhs.valid()
    }

    open spec fn mul_spec(self, rhs: Point<P>) -> Point<P> {
        Point(rhs.0.mul_spec(self.0))
    }
}

impl<'b, P: DisLogPoint> AddAssign<&'b Point<P>> for Point<P> {
    /// Replaces the point by its sum with `rhs`.
    fn add_assign(&mut self, rhs: &'b Point<P>)
        requires
            old(self).valid(),
            rhs.valid(),
        ensures
            final(self)@ == old(self)@.add_spec(rhs@),
            final(self).valid(),
    {
        proof {
            P::Scalar::lemma_constants_valid();
            P::lemma_closed(self.0, rhs.0, P::Scalar::zero_spec());
        }
        self.0 = self.0.add(&rhs.0)
    }
}

/// The Diffie-Hellman shared point: the public point `pk` of the other party times
/// one's own secret scalar `sk`.
pub fn dh<SK: ScalarNumber<Point = PK>, PK: DisLogPoint<Scalar = SK>>(
    sk: Scalar<SK>,
    pk: Point<PK>,
) -> (r: Point<PK>)
    requires
        sk.valid(),
        pk.valid(),
    ensures
        r@ == pk@.mul_spec(sk@),
        r.valid(),
{
    sk.mul(pk)
}

} // verus!
