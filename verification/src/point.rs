//! Group elements: the contract of a concrete group type, and the wrapper that
//! protocol code works with.
use crate::bytes::{decodable, decode, encodes, lemma_decode_unique, Bytes};
use crate::scalar::{Scalar, ScalarNumber};
use vstd::prelude::*;
use vstd::std_specs::cmp::{PartialEqSpec, PartialEqSpecImpl};

verus! {

/// The contract of a concrete group: a cyclic group, written additively, whose
/// order is the modulus of the field named by `Scalar`.
///
/// The `_spec` functions say what the operations compute, the lemmas are the group
/// laws and the laws of scalar multiplication that those functions have to satisfy
/// on valid values, and the executable functions have to compute what the `_spec`
/// functions say. Elements are plain values: a clone is an equal value, and a value
/// can be sent to and shared with other threads.
pub trait DisLogPoint: Bytes + Clone + PartialEq + Send + Sync {
    /// The scalars of this group. The scalar type has to name this type as its
    /// `Point`, so the two declarations agree.
    type Scalar: ScalarNumber<Point = Self>;

    /// The identity of the group.
    spec fn zero_spec() -> Self;

    /// A second distinguished element, chosen by the concrete type.
    spec fn one_spec() -> Self;

    /// The generator of the group.
    spec fn generator_spec() -> Self;

    /// The sum of two elements.
    spec fn add_spec(self, o: Self) -> Self;

    /// The multiple of an element by a scalar.
    spec fn mul_spec(self, o: Self::Scalar) -> Self;

    /// The inverse of an element.
    spec fn neg_spec(self) -> Self;

    /// The first coordinate of an element, for a concrete type that has
    /// coordinates.
    spec fn x_spec(self) -> Self::Scalar;

    /// The second coordinate of an element, for a concrete type that has
    /// coordinates.
    spec fn y_spec(self) -> Self::Scalar;

    /// The distinguished constants are valid.
    proof fn lemma_constants_valid()
        ensures
            Self::zero_spec().valid(),
            Self::one_spec().valid(),
            Self::generator_spec().valid(),
    ;

    /// Sums, negations and scalar multiples of valid elements are valid.
    proof fn lemma_closed(p: Self, q: Self, k: Self::Scalar)
        requires
            p.valid(),
            q.valid(),
            k.valid(),
        ensures
            p.add_spec(q).valid(),
            p.neg_spec().valid(),
            p.mul_spec(k).valid(),
    ;

    /// The coordinates of a valid element are valid scalars.
    proof fn lemma_coordinates_valid(p: Self)
        requires
            p.valid(),
        ensures
            p.x_spec().valid(),
            p.y_spec().valid(),
    ;

    /// Addition is associative.
    proof fn lemma_add_associative(p: Self, q: Self, r: Self)
        requires
            p.valid(),
            q.valid(),
            r.valid(),
        ensures
            p.add_spec(q.add_spec(r)) == p.add_spec(q).add_spec(r),
    ;

    /// Adding the identity changes nothing.
    proof fn lemma_add_zero(p: Self)
        requires
            p.valid(),
        ensures
            p.add_spec(Self::zero_spec()) == p,
    ;

    /// An element and its inverse add up to the identity.
    proof fn lemma_add_neg(p: Self)
        requires
            p.valid(),
        ensures
            p.add_spec(p.neg_spec()) == Self::zero_spec(),
    ;

    /// Scalar multiplication distributes over the addition of scalars.
    proof fn lemma_mul_distributive(p: Self, a: Self::Scalar, b: Self::Scalar)
        requires
            p.valid(),
            a.valid(),
            b.valid(),
        ensures
            p.mul_spec(a.add_spec(b)) == p.mul_spec(a).add_spec(p.mul_spec(b)),
    ;

    /// Multiplying by the scalar one changes nothing.
    proof fn lemma_mul_one(p: Self)
        requires
            p.valid(),
        ensures
            p.mul_spec(Self::Scalar::one_spec()) == p,
    ;

    /// Multiplying by the scalar zero gives the identity.
    proof fn lemma_mul_zero(p: Self)
        requires
            p.valid(),
        ensures
            p.mul_spec(Self::Scalar::zero_spec()) == Self::zero_spec(),
    ;

    /// The generator is not the identity.
    proof fn lemma_generator_not_zero()
        ensures
            Self::generator_spec() != Self::zero_spec(),
    ;

    /// The group is cyclic: every valid element is a multiple of the generator.
    proof fn lemma_generator_spans(p: Self)
        requires
            p.valid(),
        ensures
            exists|k: Self::Scalar|
                k.valid() && #[trigger] Self::generator_spec().mul_spec(k) == p,
    ;

    /// The generator times the order of the group is the identity.
    proof fn lemma_generator_order()
        ensures
            Self::generator_spec().mul_spec(Self::Scalar::order_spec()) == Self::zero_spec(),
    ;

    /// Multiplying the generator by two scalars gives the same element in either
    /// order.
    proof fn lemma_mul_commutes(a: Self::Scalar, b: Self::Scalar)
        requires
            a.valid(),
            b.valid(),
        ensures
            Self::generator_spec().mul_spec(a).mul_spec(b) == Self::generator_spec().mul_spec(
                b,
            ).mul_spec(a),
    ;

    /// `==` on valid elements is equality of values.
    proof fn lemma_eq()
        ensures
            <Self as PartialEqSpec>::obeys_eq_spec(),
            forall|p: Self, q: Self|
                p.valid() && q.valid() ==> (#[trigger] p.eq_spec(&q) <==> p == q),
    ;

    /// A clone is an equal value.
    proof fn lemma_clone(p: Self, q: Self)
        requires
            cloned(p, q),
        ensures
            p == q,
    ;

    /// The order of the group, as a scalar.
    fn order() -> (r: Self::Scalar)
        ensures
            r == Self::Scalar::order_spec(),
    ;

    /// The identity of the group.
    fn zero() -> (r: Self)
        ensures
            r == Self::zero_spec(),
    ;

    /// The second distinguished element.
    fn one() -> (r: Self)
        ensures
            r == Self::one_spec(),
    ;

    /// The generator of the group.
    fn generator() -> (r: Self)
        ensures
            r == Self::generator_spec(),
    ;

    /// The sum of `self` and `o`.
    fn add(&self, o: &Self) -> (r: Self)
        requires
            self.valid(),
            o.valid(),
        ensures
            r == self.add_spec(*o),
    ;

    /// The multiple of `self` by the scalar `o`.
    fn mul(&self, o: &Self::Scalar) -> (r: Self)
        requires
            self.valid(),
            o.valid(),
        ensures
            r == self.mul_spec(*o),
    ;

    /// The inverse of `self`.
    fn neg(&self) -> (r: Self)
        requires
            self.valid(),
        ensures
            r == self.neg_spec(),
    ;

    /// The first coordinate of `self`.
    fn get_x(&self) -> (r: Scalar<Self::Scalar>)
        requires
            self.valid(),
        ensures
            r@ == self.x_spec(),
    ;

    /// The second coordinate of `self`.
    fn get_y(&self) -> (r: Scalar<Self::Scalar>)
        requires
            self.valid(),
        ensures
            r@ == self.y_spec(),
    ;
}

/// An element of a group, wrapping the concrete group element `P`.
#[derive(Debug)]
pub struct Point<P: DisLogPoint>(pub P);

impl<P: DisLogPoint> View for Point<P> {
    type V = P;

    /// A point is modelled by the group element it wraps.
    open spec fn view(&self) -> P {
        self.0
    }
}

impl<P: DisLogPoint> Point<P> {
    /// Whether the wrapped element satisfies the invariants of its type. The
    /// constructors establish this and the operators preserve it.
    pub open spec fn valid(&self) -> bool {
        self.0.valid()
    }

    /// Tests whether the wrapped element is valid.
    pub fn is_valid(&self) -> (r: bool)
        ensures
            r == self.valid(),
    {
        self.0.is_valid()
    }

    /// The order of the group, as a scalar.
    pub fn order() -> (r: Scalar<P::Scalar>)
        ensures
            r@ == P::Scalar::order_spec(),
            r.valid(),
    {
        proof {
            P::Scalar::lemma_constants_valid();
        }
        Scalar(P::order())
    }

    /// The identity of the group.
    pub fn zero() -> (r: Point<P>)
        ensures
            r@ == P::zero_spec(),
            r.valid(),
    {
        proof {
            P::lemma_constants_valid();
        }
        Point(P::zero())
    }

    /// The second distinguished element of the group.
    pub fn one() -> (r: Point<P>)
        ensures
            r@ == P::one_spec(),
            r.valid(),
    {
        proof {
            P::lemma_constants_valid();
        }
        Point(P::one())
    }

    /// The generator of the group.
    pub fn generator() -> (r: Point<P>)
        ensures
            r@ == P::generator_spec(),
            r.valid(),
    {
        proof {
            P::lemma_constants_valid();
        }
        Point(P::generator())
    }

    /// The first coordinate of the point.
    pub fn get_x(&self) -> (r: Scalar<P::Scalar>)
        requires
            self.valid(),
        ensures
            r@ == self@.x_spec(),
            r.valid(),
    {
        proof {
            P::lemma_coordinates_valid(self.0);
        }
        self.0.get_x()
    }

    /// The second coordinate of the point.
    pub fn get_y(&self) -> (r: Scalar<P::Scalar>)
        requires
            self.valid(),
        ensures
            r@ == self@.y_spec(),
            r.valid(),
    {
        proof {
            P::lemma_coordinates_valid(self.0);
        }
        self.0.get_y()
    }

    /// What decoding `bytes` gives: the valid group element that `bytes` encodes, wrapped,
    /// if there is one, and the rejection of `bytes` otherwise.
    pub open spec fn from_bytes_spec(bytes: Seq<u8>) -> Result<Point<P>, P::Error> {
        match decode::<P>(bytes) {
            Ok(v) => Ok(Point(v)),
            Err(e) => Err(e),
        }
    }

    /// Decodes a point. Succeeds exactly when `bytes` is the encoding of a valid
    /// group element, and then returns that element; fails with the rejection of
    /// `bytes` otherwise.
    pub fn from_bytes(bytes: &[u8]) -> (r: Result<Self, P::Error>)
        ensures
            r == Self::from_bytes_spec(bytes@),
            r is Ok <==> decodable::<P>(bytes@),
            r matches Ok(p) ==> p.valid() && p@.encoding() == bytes@,
            r matches Err(e) ==> e == P::rejection(bytes@),
    {
        match P::from_bytes(bytes) {
            Ok(x) => {
                proof {
                    assert(encodes(bytes@, x));
                    lemma_decode_unique::<P>(bytes@, x);
                }
                Ok(Point(x))
            },
            Err(x) => {
                assert forall|v: P| !encodes(bytes@, v) by {
                    if v.valid() {
                        assert(v.encoding() != bytes@);
                    }
                }
                Err(x)
            },
        }
    }

    /// The canonical encoding of the point.
    pub fn to_bytes(&self) -> (r: P::BytesType)
        requires
            self.valid(),
        ensures
            r@ == self@.encoding(),
    {
        self.0.to_bytes()
    }
}

impl<P: DisLogPoint> Clone for Point<P> {
    /// A copy of the point.
    fn clone(&self) -> (r: Point<P>)
        ensures
            r == *self,
    {
        let inner = self.0.clone();
        proof {
            P::lemma_clone(self.0, inner);
        }
        Point(inner)
    }
}

impl<P: DisLogPoint> Default for Point<P> {
    /// The default point is the generator.
    fn default() -> (r: Point<P>)
        ensures
            r@ == P::generator_spec(),
            r.valid(),
    {
        proof {
            P::lemma_constants_valid();
        }
        let inner = P::generator();
        Point(inner)
    }
}

impl<P: DisLogPoint> PartialEq for Point<P> {
    /// Whether the two points wrap equal elements.
    fn eq(&self, other: &Point<P>) -> (r: bool) {
        proof {
            P::lemma_eq();
        }
        self.0.eq(&other.0)
    }
}

impl<P: DisLogPoint> PartialEqSpecImpl for Point<P> {
    open spec fn obeys_eq_spec() -> bool {
        true
    }

    open spec fn eq_spec(&self, other: &Point<P>) -> bool {
        self.0.eq_spec(&other.0)
    }
}

impl<P: DisLogPoint> Eq for Point<P> {

}

/// On valid points `==` decides equality of the wrapped elements.
pub proof fn lemma_point_eq<P: DisLogPoint>(p: Point<P>, q: Point<P>)
    requires
        p.valid(),
        q.valid(),
    ensures
        PartialEqSpec::eq_spec(&p, &q) <==> (p@ == q@),
{
    P::lemma_eq();
}

} // verus!
