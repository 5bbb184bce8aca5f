//! Scalar field elements: the contract of a concrete field type, and the wrapper
//! that protocol code works with.
use crate::bytes::{decodable, decode, encodes, lemma_decode_unique, Bytes};
use rand::RngCore;
use vstd::prelude::*;
use vstd::std_specs::cmp::{PartialEqSpec, PartialEqSpecImpl};

verus! {

/// The contract of a concrete scalar field: the integers modulo the order of the
/// group named by `Point`.
///
/// The `_spec` functions say what the operations compute, the lemmas are the field
/// laws that those functions have to satisfy on valid values, and the executable
/// functions have to compute what the `_spec` functions say. Elements are plain
/// values: a clone is an equal value, and a value can be sent to and shared with
/// other threads.
pub trait ScalarNumber: Bytes + Clone + PartialEq + Send + Sync {
    /// The group that these scalars multiply. The group type names this type back
    /// as its `Scalar`, so a scalar and a point can only meet if they belong
    /// together.
    type Point;

    /// The order of the group, as a value of the scalar type.
    spec fn order_spec() -> Self;

    /// The additive identity.
    spec fn zero_spec() -> Self;

    /// The multiplicative identity.
    spec fn one_spec() -> Self;

    /// The sum of two elements.
    spec fn add_spec(self, o: Self) -> Self;

    /// The product of two elements.
    spec fn mul_spec(self, o: Self) -> Self;

    /// The additive inverse.
    spec fn neg_spec(self) -> Self;

    /// The multiplicative inverse of an invertible element.
    spec fn inv_spec(self) -> Self;

    /// Whether the element has a multiplicative inverse.
    spec fn invertible(self) -> bool;

    /// The distinguished constants are valid.
    proof fn lemma_constants_valid()
        ensures
            Self::order_spec().valid(),
            Self::zero_spec().valid(),
            Self::one_spec().valid(),
    ;

    /// Sums, products and negations of valid elements are valid.
    proof fn lemma_closed(a: Self, b: Self)
        requires
            a.valid(),
            b.valid(),
        ensures
            a.add_spec(b).valid(),
            a.mul_spec(b).valid(),
            a.neg_spec().valid(),
    ;

    /// The inverse of a valid invertible element is valid.
    proof fn lemma_inv_valid(a: Self)
        requires
            a.valid(),
            a.invertible(),
        ensures
            a.inv_spec().valid(),
    ;

    /// Addition is associative.
    proof fn lemma_add_associative(a: Self, b: Self, c: Self)
        requires
            a.valid(),
            b.valid(),
            c.valid(),
        ensures
            a.add_spec(b.add_spec(c)) == a.add_spec(b).add_spec(c),
    ;

    /// Addition is commutative.
    proof fn lemma_add_commutative(a: Self, b: Self)
        requires
            a.valid(),
            b.valid(),
        ensures
            a.add_spec(b) == b.add_spec(a),
    ;

    /// Multiplication is associative.
    proof fn lemma_mul_associative(a: Self, b: Self, c: Self)
        requires
            a.valid(),
            b.valid(),
            c.valid(),
        ensures
            a.mul_spec(b.mul_spec(c)) == a.mul_spec(b).mul_spec(c),
    ;

    /// Multiplication is commutative.
    proof fn lemma_mul_commutative(a: Self, b: Self)
        requires
            a.valid(),
            b.valid(),
        ensures
            a.mul_spec(b) == b.mul_spec(a),
    ;

    /// Multiplication distributes over addition.
    proof fn lemma_mul_distributive(a: Self, b: Self, c: Self)
        requires
            a.valid(),
            b.valid(),
            c.valid(),
        ensures
            a.mul_spec(b.add_spec(c)) == a.mul_spec(b).add_spec(a.mul_spec(c)),
    ;

    /// Adding zero changes nothing.
    proof fn lemma_add_zero(a: Self)
        requires
            a.valid(),
        ensures
            a.add_spec(Self::zero_spec()) == a,
    ;

    /// Multiplying by one changes nothing.
    proof fn lemma_mul_one(a: Self)
        requires
            a.valid(),
        ensures
            a.mul_spec(Self::one_spec()) == a,
    ;

    /// An element and its negation add up to zero.
    proof fn lemma_add_neg(a: Self)
        requires
            a.valid(),
        ensures
            a.add_spec(a.neg_spec()) == Self::zero_spec(),
    ;

    /// An invertible element times its inverse is one.
    proof fn lemma_mul_inv(a: Self)
        requires
            a.valid(),
            a.invertible(),
        ensures
            a.mul_spec(a.inv_spec()) == Self::one_spec(),
    ;

    /// Zero has no multiplicative inverse.
    proof fn lemma_zero_not_invertible()
        ensures
            !Self::zero_spec().invertible(),
    ;

    /// Every valid element other than zero has a multiplicative inverse.
    proof fn lemma_nonzero_invertible(a: Self)
        requires
            a.valid(),
            a != Self::zero_spec(),
        ensures
            a.invertible(),
    ;

    /// One is not zero.
    proof fn lemma_one_not_zero()
        ensures
            Self::one_spec() != Self::zero_spec(),
    ;

    /// `==` on valid elements is equality of values.
    proof fn lemma_eq()
        ensures
            <Self as PartialEqSpec>::obeys_eq_spec(),
            forall|a: Self, b: Self|
                a.valid() && b.valid() ==> (#[trigger] a.eq_spec(&b) <==> a == b),
    ;

    /// A clone is an equal value.
    proof fn lemma_clone(a: Self, b: Self)
        requires
            cloned(a, b),
        ensures
            a == b,
    ;

    /// Draws an element from `rng`. Gives nothing when the source fails to
    /// deliver; whatever it delivers, the element drawn is valid.
    fn random<R: RngCore>(rng: &mut R) -> (r: Option<Self>)
        ensures
            r matches Some(v) ==> v.valid(),
    ;

    /// The order of the group.
    fn order() -> (r: Self)
        ensures
            r == Self::order_spec(),
    ;

    /// The additive identity.
    fn zero() -> (r: Self)
        ensures
            r == Self::zero_spec(),
    ;

    /// The multiplicative identity.
    fn one() -> (r: Self)
        ensures
            r == Self::one_spec(),
    ;

    /// The sum of `self` and `o`.
    fn add(&self, o: &Self) -> (r: Self)
        requires
            self.valid(),
            o.valid(),
        ensures
            r == self.add_spec(*o),
    ;

    /// The product of `self` and `o`.
    fn mul(&self, o: &Self) -> (r: Self)
        requires
            self.valid(),
            o.valid(),
        ensures
            r == self.mul_spec(*o),
    ;

    /// The multiplicative inverse of `self`, which has to be invertible.
    fn inv(&self) -> (r: Self)
        requires
            self.valid(),
            self.invertible(),
        ensures
            r == self.inv_spec(),
    ;

    /// The additive inverse of `self`.
    fn neg(&self) -> (r: Self)
        requires
            self.valid(),
        ensures
            r == self.neg_spec(),
    ;
}

/// An element of the scalar field of a group, wrapping the concrete field element
/// `S`.
#[derive(Debug)]
pub struct Scalar<S: ScalarNumber>(pub S);

impl<S: ScalarNumber> View for Scalar<S> {
    type V = S;

    /// A scalar is modelled by the field element it wraps.
    open spec fn view(&self) -> S {
        self.0
    }
}

impl<S: ScalarNumber> Scalar<S> {
    /// Whether the wrapped element satisfies the invariants of its type. The
    /// constructors establish this and the operators preserve it.
    pub open spec fn valid(&self) -> bool {
        self.0.valid()
    }

    /// Tests whether the wrapped element is valid.
    pub fn is_valid(&self) -> (r: bool)
        ensures
            r == self.valid(),
    {
        self.0.is_valid()
    }

    /// Draws a scalar from `rng`. Gives nothing when the source fails to deliver;
    /// whatever it delivers, the scalar drawn is valid.
    pub fn random<R: RngCore>(rng: &mut R) -> (r: Option<Scalar<S>>)
        ensures
            r matches Some(s) ==> s.valid(),
    {
        match S::random::<R>(rng) {
            Some(inner) => Some(Scalar(inner)),
            None => None,
        }
    }

    /// The order of the group.
    pub fn order() -> (r: Scalar<S>)
        ensures
            r@ == S::order_spec(),
            r.valid(),
    {
        proof {
            S::lemma_constants_valid();
        }
        Scalar(S::order())
    }

    /// The additive identity.
    pub fn zero() -> (r: Scalar<S>)
        ensures
            r@ == S::zero_spec(),
            r.valid(),
    {
        proof {
            S::lemma_constants_valid();
        }
        Scalar(S::zero())
    }

    /// The multiplicative identity.
    pub fn one() -> (r: Scalar<S>)
        ensures
            r@ == S::one_spec(),
            r.valid(),
    {
        proof {
            S::lemma_constants_valid();
        }
        Scalar(S::one())
    }

    /// The multiplicative inverse of an invertible scalar. Every valid scalar other
    /// than zero is invertible.
    pub fn inv(&self) -> (r: Scalar<S>)
        requires
            self.valid(),
            self@.invertible(),
        ensures
            r@ == self@.inv_spec(),
            r.valid(),
    {
        proof {
            S::lemma_inv_valid(self.0);
        }
        Scalar(self.0.inv())
    }

    /// What decoding `bytes` gives: the valid field element that `bytes` encodes, wrapped,
    /// if there is one, and the rejection of `bytes` otherwise.
    pub open spec fn from_bytes_spec(bytes: Seq<u8>) -> Result<Scalar<S>, S::Error> {
        match decode::<S>(bytes) {
            Ok(v) => Ok(Scalar(v)),
            Err(e) => Err(e),
        }
    }

    /// Decodes a scalar. Succeeds exactly when `bytes` is the encoding of a valid
    /// field element, and then returns that element; fails with the rejection of
    /// `bytes` otherwise.
    pub fn from_bytes(bytes: &[u8]) -> (r: Result<Self, S::Error>)
        ensures
            r == Self::from_bytes_spec(bytes@),
            r is Ok <==> decodable::<S>(bytes@),
            r matches Ok(s) ==> s.valid() && s@.encoding() == bytes@,
            r matches Err(e) ==> e == S::rejection(bytes@),
    {
        match S::from_bytes(bytes) {
            Ok(x) => {
                proof {
                    assert(encodes(bytes@, x));
                    lemma_decode_unique::<S>(bytes@, x);
                }
                Ok(Scalar(x))
            },
            Err(x) => {
                assert forall|v: S| !encodes(bytes@, v) by {
                    if v.valid() {
                        assert(v.encoding() != bytes@);
                    }
                }
                Err(x)
            },
        }
    }

    /// The canonical encoding of the scalar.
    pub fn to_bytes(&self) -> (r: S::BytesType)
        requires
            self.valid(),
        ensures
            r@ == self@.encoding(),
    {
        self.0.to_bytes()
    }
}

impl<S: ScalarNumber> Clone for Scalar<S> {
    /// A copy of the scalar.
    fn clone(&self) -> (r: Scalar<S>)
        ensures
            r == *self,
    {
        let inner = self.0.clone();
        proof {
            S::lemma_clone(self.0, inner);
        }
        Scalar(inner)
    }
}

impl<S: ScalarNumber> Default for Scalar<S> {
    /// The default scalar is zero.
    fn default() -> (r: Scalar<S>)
        ensures
            r@ == S::zero_spec(),
            r.valid(),
    {
        proof {
            S::lemma_constants_valid();
        }
        let inner = S::zero();
        Scalar(inner)
    }
}

impl<S: ScalarNumber> PartialEq for Scalar<S> {
    /// Whether the two scalars wrap equal elements.
    fn eq(&self, other: &Scalar<S>) -> (r: bool) {
        proof {
            S::lemma_eq();
        }
        self.0.eq(&other.0)
    }
}

impl<S: ScalarNumber> PartialEqSpecImpl for Scalar<S> {
    open spec fn obeys_eq_spec() -> bool {
        true
    }

    open spec fn eq_spec(&self, other: &Scalar<S>) -> bool {
        self.0.eq_spec(&other.0)
    }
}

impl<S: ScalarNumber> Eq for Scalar<S> {

}

/// On valid scalars `==` decides equality of the wrapped elements.
pub proof fn lemma_scalar_eq<S: ScalarNumber>(a: Scalar<S>, b: Scalar<S>)
    requires
        a.valid(),
        b.valid(),
    ensures
        PartialEqSpec::eq_spec(&a, &b) <==> (a@ == b@),
{
    S::lemma_eq();
}

} // verus!
