//! The laws of the wrappers: the ownership forms of each operator agree, the field
//! and group laws hold of the operators, and decoding inverts encoding. Each law is
//! proved from the contract of the concrete type, so it holds of every field and
//! group that meets the contract.
use crate::bytes::{lemma_decode_encoding, lemma_decode_sound, Bytes};
use crate::point::{DisLogPoint, Point};
use crate::scalar::{Scalar, ScalarNumber};
use vstd::prelude::*;
use vstd::std_specs::ops::{AddSpec, MulSpec, NegSpec, SubSpec};

verus! {

/// Both ownership forms of unary `-` on scalars ask the same of their operand, namely
/// that it is valid, and give the same result.
pub proof fn lemma_scalar_neg_forms_agree<S: ScalarNumber>(a: Scalar<S>)
    ensures
        (&a).neg_spec()@ == a@.neg_spec(),
        a.neg_spec() == (&a).neg_spec(),
        (&a).neg_req() == a.valid(),
        a.neg_req() == (&a).neg_req(),
{
}

/// The four ownership forms of `+` on scalars ask the same of their operands, namely
/// that both are valid, and give the same result.
pub proof fn lemma_scalar_add_forms_agree<S: ScalarNumber>(a: Scalar<S>, b: Scalar<S>)
    ensures
        (&a).add_spec(&b)@ == a@.add_spec(b@),
        a.add_spec(&b) == (&a).add_spec(&b),
        a.add_spec(b) == (&a).add_spec(&b),
        (&a).add_spec(b) == (&a).add_spec(&b),
        (&a).add_req(&b) == (a.valid() && b.valid()),
        a.add_req(&b) == (&a).add_req(&b),
        a.add_req(b) == (&a).add_req(&b),
        (&a).add_req(b) == (&a).add_req(&b),
{
}

/// The four ownership forms of `*` on scalars ask the same of their operands, namely
/// that both are valid, and give the same result.
pub proof fn lemma_scalar_mul_forms_agree<S: ScalarNumber>(a: Scalar<S>, b: Scalar<S>)
    ensures
        (&a).mul_spec(&b)@ == a@.mul_spec(b@),
        a.mul_spec(&b) == (&a).mul_spec(&b),
        a.mul_spec(b) == (&a).mul_spec(&b),
        (&a).mul_spec(b) == (&a).mul_spec(&b),
        (&a).mul_req(&b) == (a.valid() && b.valid()),
        a.mul_req(&b) == (&a).mul_req(&b),
        a.mul_req(b) == (&a).mul_req(&b),
        (&a).mul_req(b) == (&a).mul_req(&b),
{
}

/// The four ownership forms of `-` on scalars ask the same of their operands, namely
/// that both are valid, and give the same result.
pub proof fn lemma_scalar_sub_forms_agree<S: ScalarNumber>(a: Scalar<S>, b: Scalar<S>)
    ensures
        (&a).sub_spec(&b)@ == a@.add_spec(b@.neg_spec()),
        a.sub_spec(&b) == (&a).sub_spec(&b),
        a.sub_spec(b) == (&a).sub_spec(&b),
        (&a).sub_spec(b) == (&a).sub_spec(&b),
        (&a).sub_req(&b) == (a.valid() && b.valid()),
        a.sub_req(&b) == (&a).sub_req(&b),
        a.sub_req(b) == (&a).sub_req(&b),
        (&a).sub_req(b) == (&a).sub_req(&b),
{
}

/// Both ownership forms of unary `-` on points ask the same of their operand, namely
/// that it is valid, and give the same result.
pub proof fn lemma_point_neg_forms_agree<P: DisLogPoint>(a: Point<P>)
    ensures
        (&a).neg_spec()@ == a@.neg_spec(),
        a.neg_spec() == (&a).neg_spec(),
        (&a).neg_req() == a.valid(),
        a.neg_req() == (&a).neg_req(),
{
}

/// The four ownership forms of `+` on points ask the same of their operands, namely
/// that both are valid, and give the same result.
pub proof fn lemma_point_add_forms_agree<P: DisLogPoint>(a: Point<P>, b: Point<P>)
    ensures
        (&a).add_spec(&b)@ == a@.add_spec(b@),
        a.add_spec(&b) == (&a).add_spec(&b),
        a.add_spec(b) == (&a).add_spec(&b),
        (&a).add_spec(b) == (&a).add_spec(&b),
        (&a).add_req(&b) == (a.valid() && b.valid()),
        a.add_req(&b) == (&a).add_req(&b),
        a.add_req(b) == (&a).add_req(&b),
        (&a).add_req(b) == (&a).add_req(&b),
{
}

/// The four ownership forms of `-` on points ask the same of their operands, namely
/// that both are valid, and give the same result.
pub proof fn lemma_point_sub_forms_agree<P: DisLogPoint>(a: Point<P>, b: Point<P>)
    ensures
        (&a).sub_spec(&b)@ == a@.add_spec(b@.neg_spec()),
        a.sub_spec(&b) == (&a).sub_spec(&b),
        a.sub_spec(b) == (&a).sub_spec(&b),
        (&a).sub_spec(b) == (&a).sub_spec(&b),
        (&a).sub_req(&b) == (a.valid() && b.valid()),
        a.sub_req(&b) == (&a).sub_req(&b),
        a.sub_req(b) == (&a).sub_req(&b),
        (&a).sub_req(b) == (&a).sub_req(&b),
{
}

/// The four ownership forms of a point times a scalar ask the same of their operands,
/// namely that both are valid, and give the same result.
pub proof fn lemma_point_mul_forms_agree<
    P: DisLogPoint<Scalar = S>,
    S: ScalarNumber<Point = P>,
>(a: Point<P>, b: Scalar<S>)
    ensures
        (&a).mul_spec(&b)@ == a@.mul_spec(b@),
        a.mul_spec(&b) == (&a).mul_spec(&b),
        a.mul_spec(b) == (&a).mul_spec(&b),
        (&a).mul_spec(b) == (&a).mul_spec(&b),
        (&a).mul_req(&b) == (a.valid() && b.valid()),
        a.mul_req(&b) == (&a).mul_req(&b),
        a.mul_req(b) == (&a).mul_req(&b),
        (&a).mul_req(b) == (&a).mul_req(&b),
{
}

/// The four ownership forms of a scalar times a point ask the same of their operands,
/// namely that both are valid, and give the same result.
pub proof fn lemma_scalar_mul_point_forms_agree<
    P: DisLogPoint<Scalar = S>,
    S: ScalarNumber<Point = P>,
>(a: Scalar<S>, b: Point<P>)
    ensures
        (&a).mul_spec(&b)@ == b@.mul_spec(a@),
        a.mul_spec(&b) == (&a).mul_spec(&b),
        a.mul_spec(b) == (&a).mul_spec(&b),
        (&a).mul_spec(b) == (&a).mul_spec(&b),
        (&a).mul_req(&b) == (a.valid() && b.valid()),
        a.mul_req(&b) == (&a).mul_req(&b),
        a.mul_req(b) == (&a).mul_req(&b),
        (&a).mul_req(b) == (&a).mul_req(&b),
{
}

/// A scalar times a point is the point times the scalar.
pub proof fn lemma_mul_orders_agree<P: DisLogPoint<Scalar = S>, S: ScalarNumber<Point = P>>(
    p: Point<P>,
    k: Scalar<S>,
)
    ensures
        (&k).mul_spec(&p) == (&p).mul_spec(&k),
        (&k).mul_req(&p) == (&p).mul_req(&k),
{
}

/// Scalar addition is associative: `a + (b + c) == (a + b) + c`.
pub proof fn lemma_scalar_add_associative<S: ScalarNumber>(
    a: Scalar<S>,
    b: Scalar<S>,
    c: Scalar<S>,
)
    requires
        a.valid(),
        b.valid(),
        c.valid(),
    ensures
        a.add_spec(b.add_spec(c)) == a.add_spec(b).add_spec(c),
{
    S::lemma_add_associative(a@, b@, c@);
}

/// Scalar addition is commutative: `a + b == b + a`.
pub proof fn lemma_scalar_add_commutative<S: ScalarNumber>(a: Scalar<S>, b: Scalar<S>)
    requires
        a.valid(),
        b.valid(),
    ensures
        a.add_spec(b) == b.add_spec(a),
{
    S::lemma_add_commutative(a@, b@);
}

/// Scalar multiplication is commutative: `a * b == b * a`.
pub proof fn lemma_scalar_mul_commutative<S: ScalarNumber>(a: Scalar<S>, b: Scalar<S>)
    requires
        a.valid(),
        b.valid(),
    ensures
        a.mul_spec(b) == b.mul_spec(a),
{
    S::lemma_mul_commutative(a@, b@);
}

/// Scalar multiplication is associative: `a * (b * c) == (a * b) * c`.
pub proof fn lemma_scalar_mul_associative<S: ScalarNumber>(
    a: Scalar<S>,
    b: Scalar<S>,
    c: Scalar<S>,
)
    requires
        a.valid(),
        b.valid(),
        c.valid(),
    ensures
        a.mul_spec(b.mul_spec(c)) == a.mul_spec(b).mul_spec(c),
{
    S::lemma_mul_associative(a@, b@, c@);
}

/// Scalar multiplication distributes over addition:
/// `a * (b + c) == a * b + a * c`.
pub proof fn lemma_scalar_mul_distributive<S: ScalarNumber>(
    a: Scalar<S>,
    b: Scalar<S>,
    c: Scalar<S>,
)
    requires
        a.valid(),
        b.valid(),
        c.valid(),
    ensures
        a.mul_spec(b.add_spec(c)) == a.mul_spec(b).add_spec(a.mul_spec(c)),
{
    S::lemma_mul_distributive(a@, b@, c@);
}

/// Adding zero to a scalar changes nothing: `a + 0 == a`.
pub proof fn lemma_scalar_add_zero<S: ScalarNumber>(a: Scalar<S>)
    requires
        a.valid(),
    ensures
        a.add_spec(Scalar(S::zero_spec())) == a,
{
    S::lemma_add_zero(a@);
}

/// Multiplying a scalar by one changes nothing: `a * 1 == a`.
pub proof fn lemma_scalar_mul_one<S: ScalarNumber>(a: Scalar<S>)
    requires
        a.valid(),
    ensures
        a.mul_spec(Scalar(S::one_spec())) == a,
{
    S::lemma_mul_one(a@);
}

/// Multiplying a scalar by zero gives zero: `a * 0 == 0`.
pub proof fn lemma_scalar_mul_zero<S: ScalarNumber>(a: Scalar<S>)
    requires
        a.valid(),
    ensures
        a.mul_spec(Scalar(S::zero_spec())) == Scalar(S::zero_spec()),
{
    let zero = S::zero_spec();
    let t = a@.mul_spec(zero);
    S::lemma_constants_valid();
    S::lemma_closed(a@, zero);
    S::lemma_closed(t, t);
    // t == t + t, because 0 == 0 + 0 and multiplication distributes
    S::lemma_add_zero(zero);
    S::lemma_mul_distributive(a@, zero, zero);
    assert(t == t.add_spec(t));
    // so t == t + (t + (-t)) == (t + t) + (-t) == t + (-t) == 0
    S::lemma_add_neg(t);
    S::lemma_add_zero(t);
    S::lemma_add_associative(t, t, t.neg_spec());
    assert(t == zero);
}

/// The negation of zero is zero: `-0 == 0`.
pub proof fn lemma_scalar_neg_zero<S: ScalarNumber>()
    ensures
        Scalar(S::zero_spec()).neg_spec() == Scalar(S::zero_spec()),
{
    let zero = S::zero_spec();
    S::lemma_constants_valid();
    S::lemma_closed(zero, zero);
    S::lemma_add_neg(zero);
    S::lemma_add_commutative(zero, zero.neg_spec());
    S::lemma_add_zero(zero.neg_spec());
}

/// Subtraction undoes addition: `(a - b) + b == a`, where `a - b == a + (-b)`.
pub proof fn lemma_scalar_sub_add<S: ScalarNumber>(a: Scalar<S>, b: Scalar<S>)
    requires
        a.valid(),
        b.valid(),
    ensures
        a.sub_spec(b) == a.add_spec(b.neg_spec()),
        a.sub_spec(b).add_spec(b) == a,
{
    let neg_b = b@.neg_spec();
    S::lemma_closed(b@, b@);
    S::lemma_add_associative(a@, neg_b, b@);
    S::lemma_add_commutative(neg_b, b@);
    S::lemma_add_neg(b@);
    S::lemma_add_zero(a@);
}

/// Every valid scalar other than zero can be inverted: it is invertible, it times
/// its inverse is one, and its inverse is not zero.
pub proof fn lemma_scalar_nonzero_inv<S: ScalarNumber>(a: Scalar<S>)
    requires
        a.valid(),
        a != Scalar(S::zero_spec()),
    ensures
        a@.invertible(),
        a.mul_spec(Scalar(a@.inv_spec())) == Scalar(S::one_spec()),
        Scalar(a@.inv_spec()) != Scalar(S::zero_spec()),
        Scalar(a@.inv_spec()).valid(),
{
    S::lemma_nonzero_invertible(a@);
    S::lemma_mul_inv(a@);
    S::lemma_inv_valid(a@);
    if a@.inv_spec() == S::zero_spec() {
        lemma_scalar_mul_zero(a);
        S::lemma_one_not_zero();
    }
}

/// A scalar and its negation add up to zero: `a + (-a) == 0`.
pub proof fn lemma_scalar_add_neg<S: ScalarNumber>(a: Scalar<S>)
    requires
        a.valid(),
    ensures
        a.add_spec(a.neg_spec()) == Scalar(S::zero_spec()),
{
    S::lemma_add_neg(a@);
}

/// Subtracting a scalar from itself gives zero: `a - a == 0`.
pub proof fn lemma_scalar_sub_self<S: ScalarNumber>(a: Scalar<S>)
    requires
        a.valid(),
    ensures
        a.sub_spec(a) == Scalar(S::zero_spec()),
        a.sub_spec(a) == a.add_spec(a.neg_spec()),
{
    S::lemma_add_neg(a@);
}

/// An invertible scalar times its inverse is one.
pub proof fn lemma_scalar_mul_inv<S: ScalarNumber>(a: Scalar<S>)
    requires
        a.valid(),
        a@.invertible(),
    ensures
        a.mul_spec(Scalar(a@.inv_spec())) == Scalar(S::one_spec()),
{
    S::lemma_mul_inv(a@);
}

/// Round trip: decoding the encoding of a valid scalar gives that scalar back.
pub proof fn lemma_scalar_round_trip<S: ScalarNumber>(v: Scalar<S>)
    requires
        v.valid(),
    ensures
        Scalar::<S>::from_bytes_spec(v@.encoding()) == Ok::<Scalar<S>, S::Error>(v),
{
    lemma_decode_encoding::<S>(v@);
}

/// Rejection: decoding fails exactly on the bytes that are the encoding of no valid
/// field element, and then with the rejection of those bytes; whatever it yields
/// is valid and encodes back to the same bytes.
pub proof fn lemma_scalar_decode_rejection<S: ScalarNumber>(bytes: Seq<u8>)
    ensures
        Scalar::<S>::from_bytes_spec(bytes) is Err <==> forall|v: S|
            v.valid() ==> v.encoding() != bytes,
        Scalar::<S>::from_bytes_spec(bytes) matches Ok(v) ==> v.valid() && v@.encoding() == bytes,
        Scalar::<S>::from_bytes_spec(bytes) matches Err(e) ==> e == S::rejection(bytes),
{
    lemma_decode_sound::<S>(bytes);
}

/// Point addition is associative: `p + (q + r) == (p + q) + r`.
pub proof fn lemma_point_add_associative<P: DisLogPoint>(p: Point<P>, q: Point<P>, r: Point<P>)
    requires
        p.valid(),
        q.valid(),
        r.valid(),
    ensures
        p.add_spec(q.add_spec(r)) == p.add_spec(q).add_spec(r),
{
    P::lemma_add_associative(p@, q@, r@);
}

/// Adding the identity changes nothing: `p + 0 == p`.
pub proof fn lemma_point_add_zero<P: DisLogPoint>(p: Point<P>)
    requires
        p.valid(),
    ensures
        p.add_spec(Point(P::zero_spec())) == p,
{
    P::lemma_add_zero(p@);
}

/// A point and its inverse add up to the identity: `p + (-p) == 0`.
pub proof fn lemma_point_add_neg<P: DisLogPoint>(p: Point<P>)
    requires
        p.valid(),
    ensures
        p.add_spec(p.neg_spec()) == Point(P::zero_spec()),
{
    P::lemma_add_neg(p@);
}

/// Subtracting a point from itself gives the identity: `p - p == 0`.
pub proof fn lemma_point_sub_self<P: DisLogPoint>(p: Point<P>)
    requires
        p.valid(),
    ensures
        p.sub_spec(p) == Point(P::zero_spec()),
        p.sub_spec(p) == p.add_spec(p.neg_spec()),
{
    P::lemma_add_neg(p@);
}

/// Scalar multiplication distributes over the addition of scalars:
/// `p * (a + b) == p * a + p * b`.
pub proof fn lemma_point_mul_distributive<
    P: DisLogPoint<Scalar = S>,
    S: ScalarNumber<Point = P>,
>(p: Point<P>, a: Scalar<S>, b: Scalar<S>)
    requires
        p.valid(),
        a.valid(),
        b.valid(),
    ensures
        p.mul_spec(a.add_spec(b)) == p.mul_spec(a).add_spec(p.mul_spec(b)),
{
    P::lemma_mul_distributive(p@, a@, b@);
}

/// Multiplying by the scalar one changes nothing, and multiplying by the scalar
/// zero gives the identity.
pub proof fn lemma_point_mul_one_zero<P: DisLogPoint<Scalar = S>, S: ScalarNumber<Point = P>>(
    p: Point<P>,
)
    requires
        p.valid(),
    ensures
        p.mul_spec(Scalar(S::one_spec())) == p,
        p.mul_spec(Scalar(S::zero_spec())) == Point(P::zero_spec()),
{
    P::lemma_mul_one(p@);
    P::lemma_mul_zero(p@);
}

/// The generator is not the identity, and the generator times the order of the
/// group is the identity.
pub proof fn lemma_generator_order<P: DisLogPoint<Scalar = S>, S: ScalarNumber<Point = P>>()
    ensures
        Point(P::generator_spec()) != Point(P::zero_spec()),
        Point(P::generator_spec()).mul_spec(Scalar(S::order_spec())) == Point(P::zero_spec()),
{
    P::lemma_generator_not_zero();
    P::lemma_generator_order();
}

/// The group is cyclic: every valid point is the generator times some valid scalar.
pub proof fn lemma_generator_spans<P: DisLogPoint<Scalar = S>, S: ScalarNumber<Point = P>>(
    p: Point<P>,
)
    requires
        p.valid(),
    ensures
        exists|k: Scalar<S>| k.valid() && #[trigger] Point(P::generator_spec()).mul_spec(k) == p,
{
    P::lemma_generator_spans(p@);
    let k = choose|k: S| k.valid() && #[trigger] P::generator_spec().mul_spec(k) == p@;
    assert(Scalar(k).valid() && Point(P::generator_spec()).mul_spec(Scalar(k)) == p);
}

/// Multiplying the generator by two scalars gives the same point in either order:
/// `(g * a) * b == (g * b) * a`, with the scalar on either side of the point.
pub proof fn lemma_generator_mul_commutes<
    P: DisLogPoint<Scalar = S>,
    S: ScalarNumber<Point = P>,
>(a: Scalar<S>, b: Scalar<S>)
    requires
        a.valid(),
        b.valid(),
    ensures
        Point(P::generator_spec()).mul_spec(a).mul_spec(b) == Point(
            P::generator_spec(),
        ).mul_spec(b).mul_spec(a),
        b.mul_spec(a.mul_spec(Point(P::generator_spec()))) == a.mul_spec(
            b.mul_spec(Point(P::generator_spec())),
        ),
{
    P::lemma_mul_commutes(a@, b@);
}

/// Round trip: decoding the encoding of a valid point gives that point back.
pub proof fn lemma_point_round_trip<P: DisLogPoint>(v: Point<P>)
    requires
        v.valid(),
    ensures
        Point::<P>::from_bytes_spec(v@.encoding()) == Ok::<Point<P>, P::Error>(v),
{
    lemma_decode_encoding::<P>(v@);
}

/// Rejection: decoding fails exactly on the bytes that are the encoding of no valid
/// group element, and then with the rejection of those bytes; whatever it yields
/// is valid and encodes back to the same bytes.
pub proof fn lemma_point_decode_rejection<P: DisLogPoint>(bytes: Seq<u8>)
    ensures
        Point::<P>::from_bytes_spec(bytes) is Err <==> forall|v: P|
            v.valid() ==> v.encoding() != bytes,
        Point::<P>::from_bytes_spec(bytes) matches Ok(v) ==> v.valid() && v@.encoding() == bytes,
        Point::<P>::from_bytes_spec(bytes) matches Err(e) ==> e == P::rejection(bytes),
{
    lemma_decode_sound::<P>(bytes);
}

} // verus!
