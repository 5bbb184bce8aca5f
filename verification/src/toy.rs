//! The smallest instance of the contracts of this crate: the field of five
//! elements, the additive group of the same order, and a one-byte checksum as a
//! hasher. Every obligation of the contracts is proved for these types, which
//! shows that the contracts can be met; the types are fit for examples and tests,
//! not for cryptography.
use crate::bytes::Bytes;
use crate::hasher::Hasher;
use crate::point::DisLogPoint;
use crate::scalar::{Scalar, ScalarNumber};
use rand::RngCore;
use vstd::arithmetic::div_mod::{
    lemma_add_mod_noop, lemma_mul_mod_noop_left, lemma_mul_mod_noop_right,
};
use vstd::arithmetic::mul::{
    lemma_mul_is_associative, lemma_mul_is_commutative, lemma_mul_is_distributive_add,
};
use vstd::bytes::u32_from_le_bytes;
use vstd::prelude::*;
use vstd::std_specs::cmp::PartialEqSpecImpl;

verus! {

/// The order of the toy field and of the toy group.
pub const ORDER: u8 = 5;

/// Why a byte sequence does not decode.
#[derive(Debug, Clone, Copy, PartialEq, Eq)]
pub enum DecodeError {
    /// The input is not exactly one byte long.
    WrongLength,
    /// The byte is no residue modulo the order.
    OutOfRange,
}

/// Why `bytes` is not the encoding of a residue: its length if that is wrong, its
/// range otherwise.
pub open spec fn rejection_of(bytes: Seq<u8>) -> DecodeError {
    if bytes.len() != 1 {
        DecodeError::WrongLength
    } else {
        DecodeError::OutOfRange
    }
}

/// A residue is encoded as the one byte that holds it.
pub open spec fn residue_of(bytes: Seq<u8>) -> Result<u8, DecodeError> {
    if bytes.len() == 1 && bytes[0] < ORDER {
        Ok(bytes[0])
    } else {
        Err(rejection_of(bytes))
    }
}

/// Decodes one residue modulo the order.
pub fn decode_residue(bytes: &[u8]) -> (r: Result<u8, DecodeError>)
    ensures
        r == residue_of(bytes@),
{
    if bytes.len() != 1 {
        Err(DecodeError::WrongLength)
    } else if bytes[0] >= ORDER {
        Err(DecodeError::OutOfRange)
    } else {
        Ok(bytes[0])
    }
}

/// The byte sequence that holds `value` and nothing else.
pub fn single_byte(value: u8) -> (r: Vec<u8>)
    ensures
        r@ == seq![value],
{
    let mut out: Vec<u8> = Vec::new();
    out.push(value);
    assert(out@ =~= seq![value]);
    out
}

/// Asks `rng` for four bytes with `RngCore::try_fill_bytes`, the one method of a
/// source that reports a failure as a value. Gives the bytes when the source
/// delivered them and nothing when it reported an error. The bytes depend on the
/// state of the source, so nothing is claimed of them.
#[verifier::external_body]
fn try_draw<R: RngCore>(rng: &mut R) -> Option<[u8; 4]> {
    let mut buf = [0u8; 4];
    match rng.try_fill_bytes(&mut buf) {
        Ok(()) => Some(buf),
        Err(_) => None,
    }
}

/// An element of the field of five elements, held as its residue `0..5`.
#[derive(Debug, Copy)]
pub struct Z5(pub u8);

impl Z5 {
    /// The element that the integer `n` stands for: `n` reduced modulo the order.
    pub fn new(n: u32) -> (r: Z5)
        ensures
            r == Z5((n % 5) as u8),
            r.valid(),
    {
        Z5((n % 5) as u8)
    }
}

impl Clone for Z5 {
    fn clone(&self) -> (r: Z5)
        ensures
            r == *self,
    {
        Z5(self.0)
    }
}

impl PartialEq for Z5 {
    fn eq(&self, other: &Z5) -> (r: bool) {
        self.0 == other.0
    }
}

impl PartialEqSpecImpl for Z5 {
    open spec fn obeys_eq_spec() -> bool {
        true
    }

    open spec fn eq_spec(&self, other: &Z5) -> bool {
        self.0 == other.0
    }
}

impl Eq for Z5 {

}

impl Bytes for Z5 {
    type BytesType = Vec<u8>;

    type Error = DecodeError;

    open spec fn valid(&self) -> bool {
        self.0 < ORDER
    }

    open spec fn encoding(&self) -> Seq<u8> {
        seq![self.0]
    }

    open spec fn rejection(bytes: Seq<u8>) -> DecodeError {
        rejection_of(bytes)
    }

    proof fn lemma_encoding_prefix_free(a: Z5, b: Z5) {
        assert(a.encoding()[0] == a.0);
        assert(b.encoding().subrange(0, 1)[0] == b.0);
    }

    fn is_valid(&self) -> (r: bool) {
        self.0 < ORDER
    }

    fn from_bytes(bytes: &[u8]) -> (r: Result<Z5, DecodeError>)
        ensures
            r == match residue_of(bytes@) {
                Ok(value) => Ok(Z5(value)),
                Err(e) => Err(e),
            },
    {
        match decode_residue(bytes) {
            Ok(value) => {
                assert(seq![value] =~= bytes@);
                Ok(Z5(value))
            },
            Err(e) => {
                assert forall|v: Z5| v.valid() implies #[trigger] v.encoding() != bytes@ by {
                    if v.encoding() == bytes@ {
                        assert(v.encoding()[0] == bytes@[0]);
                    }
                }
                Err(e)
            },
        }
    }

    fn to_bytes(&self) -> (r: Vec<u8>) {
        single_byte(self.0)
    }
}

impl ScalarNumber for Z5 {
    type Point = Z5Point;

    /// Five is zero in the field of five elements.
    open spec fn order_spec() -> Z5 {
        Z5(0)
    }

    open spec fn zero_spec() -> Z5 {
        Z5(0)
    }

    open spec fn one_spec() -> Z5 {
        Z5(1)
    }

    open spec fn add_spec(self, o: Z5) -> Z5 {
        Z5(((self.0 + o.0) % 5) as u8)
    }

    open spec fn mul_spec(self, o: Z5) -> Z5 {
        Z5(((self.0 * o.0) % 5) as u8)
    }

    open spec fn neg_spec(self) -> Z5 {
        Z5(((5 - self.0 % 5) % 5) as u8)
    }

    /// By Fermat's little theorem the inverse of `a` is `a` cubed.
    open spec fn inv_spec(self) -> Z5 {
        Z5(((self.0 * self.0 * self.0) % 5) as u8)
    }

    open spec fn invertible(self) -> bool {
        self.0 % 5 != 0
    }

    proof fn lemma_constants_valid() {
    }

    proof fn lemma_closed(a: Z5, b: Z5) {
    }

    proof fn lemma_inv_valid(a: Z5) {
    }

    proof fn lemma_add_associative(a: Z5, b: Z5, c: Z5) {
    }

    proof fn lemma_add_commutative(a: Z5, b: Z5) {
    }

    proof fn lemma_mul_associative(a: Z5, b: Z5, c: Z5) {
        lemma_product_small(a.0 as int, b.0 as int);
        lemma_product_small(b.0 as int, c.0 as int);
        lemma_mul_mod_associative(a.0 as int, b.0 as int, c.0 as int);
    }

    proof fn lemma_mul_commutative(a: Z5, b: Z5) {
        lemma_mul_is_commutative(a.0 as int, b.0 as int);
    }

    proof fn lemma_mul_distributive(a: Z5, b: Z5, c: Z5) {
        lemma_product_small(a.0 as int, b.0 as int);
        lemma_product_small(a.0 as int, c.0 as int);
        lemma_mul_mod_distributive(a.0 as int, b.0 as int, c.0 as int);
    }

    proof fn lemma_add_zero(a: Z5) {
    }

    proof fn lemma_mul_one(a: Z5) {
        assert(a.0 * 1 == a.0) by (nonlinear_arith);
    }

    proof fn lemma_add_neg(a: Z5) {
    }

    proof fn lemma_mul_inv(a: Z5) {
        lemma_cube_inverts(a.0 as int);
    }

    proof fn lemma_zero_not_invertible() {
    }

    proof fn lemma_nonzero_invertible(a: Z5) {
    }

    proof fn lemma_one_not_zero() {
    }

    proof fn lemma_eq() {
    }

    proof fn lemma_clone(a: Z5, b: Z5) {
    }

    /// Reduces four bytes drawn from `rng`, read as a little-endian integer,
    /// modulo the order.
    fn random<R: RngCore>(rng: &mut R) -> (r: Option<Z5>) {
        match try_draw(rng) {
            Some(bytes) => {
                let drawn: u32 = u32_from_le_bytes(bytes.as_slice());
                Some(Z5::new(drawn))
            },
            None => None,
        }
    }

    fn order() -> (r: Z5) {
        Z5(0)
    }

    fn zero() -> (r: Z5) {
        Z5(0)
    }

    fn one() -> (r: Z5) {
        Z5(1)
    }

    fn add(&self, o: &Z5) -> (r: Z5) {
        Z5((self.0 + o.0) % 5)
    }

    fn mul(&self, o: &Z5) -> (r: Z5) {
        proof {
            lemma_product_small(self.0 as int, o.0 as int);
        }
        Z5((self.0 * o.0) % 5)
    }

    fn inv(&self) -> (r: Z5) {
        proof {
            lemma_product_small(self.0 as int, self.0 as int);
            lemma_cube_inverts(self.0 as int);
        }
        Z5((self.0 * self.0 * self.0) % 5)
    }

    fn neg(&self) -> (r: Z5) {
        Z5((5 - self.0) % 5)
    }
}

/// The product of two residues fits in a byte.
proof fn lemma_product_small(a: int, b: int)
    by (nonlinear_arith)
    requires
        0 <= a < 5,
        0 <= b < 5,
    ensures
        0 <= a * b <= 16,
{
}

/// Multiplication modulo five is associative.
proof fn lemma_mul_mod_associative(a: int, b: int, c: int)
    ensures
        (a * ((b * c) % 5)) % 5 == (((a * b) % 5) * c) % 5,
{
    lemma_mul_mod_noop_right(a, b * c, 5);
    lemma_mul_is_associative(a, b, c);
    lemma_mul_mod_noop_left(a * b, c, 5);
}

/// Multiplication modulo five distributes over addition modulo five.
proof fn lemma_mul_mod_distributive(a: int, b: int, c: int)
    ensures
        (a * ((b + c) % 5)) % 5 == ((a * b) % 5 + (a * c) % 5) % 5,
{
    lemma_mul_mod_noop_right(a, b + c, 5);
    lemma_mul_is_distributive_add(a, b, c);
    lemma_add_mod_noop(a * b, a * c, 5);
}

/// Fermat's little theorem for the prime five: the fourth power of a residue
/// other than zero is one, so the cube of the residue is its inverse.
proof fn lemma_cube_inverts(a: int)
    requires
        0 < a < 5,
    ensures
        0 < a * a * a <= 64,
        (a * ((a * a * a) % 5)) % 5 == 1,
{
    lemma_mul_mod_noop_right(a, a * a * a, 5);
    assert(a == 1 ==> a * a * a == 1 && a * (a * a * a) == 1) by (nonlinear_arith);
    assert(a == 2 ==> a * a * a == 8 && a * (a * a * a) == 16) by (nonlinear_arith);
    assert(a == 3 ==> a * a * a == 27 && a * (a * a * a) == 81) by (nonlinear_arith);
    assert(a == 4 ==> a * a * a == 64 && a * (a * a * a) == 256) by (nonlinear_arith);
}

/// An element of the additive group of the integers modulo five, held as its
/// residue `0..5`. The generator is the residue one.
#[derive(Debug, Copy)]
pub struct Z5Point(pub u8);

impl Clone for Z5Point {
    fn clone(&self) -> (r: Z5Point)
        ensures
            r == *self,
    {
        Z5Point(self.0)
    }
}

impl PartialEq for Z5Point {
    fn eq(&self, other: &Z5Point) -> (r: bool) {
        self.0 == other.0
    }
}

impl PartialEqSpecImpl for Z5Point {
    open spec fn obeys_eq_spec() -> bool {
        true
    }

    open spec fn eq_spec(&self, other: &Z5Point) -> bool {
        self.0 == other.0
    }
}

impl Eq for Z5Point {

}

impl Bytes for Z5Point {
    type BytesType = Vec<u8>;

    type Error = DecodeError;

    open spec fn valid(&self) -> bool {
        self.0 < ORDER
    }

    open spec fn encoding(&self) -> Seq<u8> {
        seq![self.0]
    }

    open spec fn rejection(bytes: Seq<u8>) -> DecodeError {
        rejection_of(bytes)
    }

    proof fn lemma_encoding_prefix_free(a: Z5Point, b: Z5Point) {
        assert(a.encoding()[0] == a.0);
        assert(b.encoding().subrange(0, 1)[0] == b.0);
    }

    fn is_valid(&self) -> (r: bool) {
        self.0 < ORDER
    }

    fn from_bytes(bytes: &[u8]) -> (r: Result<Z5Point, DecodeError>)
        ensures
            r == match residue_of(bytes@) {
                Ok(value) => Ok(Z5Point(value)),
                Err(e) => Err(e),
            },
    {
        match decode_residue(bytes) {
            Ok(value) => {
                assert(seq![value] =~= bytes@);
                Ok(Z5Point(value))
            },
            Err(e) => {
                assert forall|v: Z5Point| v.valid() implies #[trigger] v.encoding()
                    != bytes@ by {
                    if v.encoding() == bytes@ {
                        assert(v.encoding()[0] == bytes@[0]);
                    }
                }
                Err(e)
            },
        }
    }

    fn to_bytes(&self) -> (r: Vec<u8>) {
        single_byte(self.0)
    }
}

impl DisLogPoint for Z5Point {
    type Scalar = Z5;

    open spec fn zero_spec() -> Z5Point {
        Z5Point(0)
    }

    open spec fn one_spec() -> Z5Point {
        Z5Point(1)
    }

    open spec fn generator_spec() -> Z5Point {
        Z5Point(1)
    }

    open spec fn add_spec(self, o: Z5Point) -> Z5Point {
        Z5Point(((self.0 + o.0) % 5) as u8)
    }

    open spec fn mul_spec(self, o: Z5) -> Z5Point {
        Z5Point(((self.0 * o.0) % 5) as u8)
    }

    open spec fn neg_spec(self) -> Z5Point {
        Z5Point(((5 - self.0 % 5) % 5) as u8)
    }

    /// The group has one coordinate, the residue itself.
    open spec fn x_spec(self) -> Z5 {
        Z5(self.0)
    }

    open spec fn y_spec(self) -> Z5 {
        Z5(0)
    }

    proof fn lemma_constants_valid() {
    }

    proof fn lemma_closed(p: Z5Point, q: Z5Point, k: Z5) {
    }

    proof fn lemma_coordinates_valid(p: Z5Point) {
    }

    proof fn lemma_add_associative(p: Z5Point, q: Z5Point, r: Z5Point) {
    }

    proof fn lemma_add_zero(p: Z5Point) {
    }

    proof fn lemma_add_neg(p: Z5Point) {
    }

    proof fn lemma_mul_distributive(p: Z5Point, a: Z5, b: Z5) {
        lemma_product_small(p.0 as int, a.0 as int);
        lemma_product_small(p.0 as int, b.0 as int);
        lemma_mul_mod_distributive(p.0 as int, a.0 as int, b.0 as int);
    }

    proof fn lemma_mul_one(p: Z5Point) {
    }

    proof fn lemma_mul_zero(p: Z5Point) {
    }

    proof fn lemma_generator_not_zero() {
    }

    proof fn lemma_generator_spans(p: Z5Point) {
        let k = Z5(p.0);
        assert(1 * k.0 == k.0) by (nonlinear_arith);
        assert(k.valid() && Self::generator_spec().mul_spec(k) == p);
    }

    proof fn lemma_generator_order() {
    }

    proof fn lemma_mul_commutes(a: Z5, b: Z5) {
        let g = Self::generator_spec();
        assert(g.mul_spec(a) == Z5Point(a.0)) by {
            assert(1 * a.0 == a.0) by (nonlinear_arith);
        }
        assert(g.mul_spec(b) == Z5Point(b.0)) by {
            assert(1 * b.0 == b.0) by (nonlinear_arith);
        }
        assert(a.0 * b.0 == b.0 * a.0) by (nonlinear_arith);
    }

    proof fn lemma_eq() {
    }

    proof fn lemma_clone(p: Z5Point, q: Z5Point) {
    }

    fn order() -> (r: Z5) {
        Z5(0)
    }

    fn zero() -> (r: Z5Point) {
        Z5Point(0)
    }

    fn one() -> (r: Z5Point) {
        Z5Point(1)
    }

    fn generator() -> (r: Z5Point) {
        Z5Point(1)
    }

    fn add(&self, o: &Z5Point) -> (r: Z5Point) {
        Z5Point((self.0 + o.0) % 5)
    }

    fn mul(&self, o: &Z5) -> (r: Z5Point) {
        proof {
            lemma_product_small(self.0 as int, o.0 as int);
        }
        Z5Point((self.0 * o.0) % 5)
    }

    fn neg(&self) -> (r: Z5Point) {
        Z5Point((5 - self.0) % 5)
    }

    fn get_x(&self) -> (r: Scalar<Z5>) {
        Scalar(Z5(self.0))
    }

    fn get_y(&self) -> (r: Scalar<Z5>) {
        Scalar(Z5(0))
    }
}

/// The sum of the bytes of `data` modulo 256.
pub open spec fn byte_sum(data: Seq<u8>) -> u8
    decreases data.len(),
{
    if data.len() == 0 {
        0
    } else {
        ((byte_sum(data.drop_last()) + data.last()) % 256) as u8
    }
}

/// A hasher whose digest is the one byte that holds the sum of its input modulo
/// 256.
pub struct ByteSum {
    sum: u8,
    seen: Ghost<Seq<u8>>,
}

impl ByteSum {
    /// The running sum is the sum of what was absorbed.
    #[verifier::type_invariant]
    spec fn inv(&self) -> bool {
        self.sum == byte_sum(self.seen@)
    }

    /// A hasher that has absorbed nothing.
    pub fn new() -> (r: ByteSum)
        ensures
            r.absorbed() == Seq::<u8>::empty(),
    {
        ByteSum { sum: 0, seen: Ghost(Seq::empty()) }
    }
}

impl Hasher for ByteSum {
    type Output = Vec<u8>;

    closed spec fn absorbed(&self) -> Seq<u8> {
        self.seen@
    }

    open spec fn digest_spec(data: Seq<u8>) -> Seq<u8> {
        seq![byte_sum(data)]
    }

    open spec fn output_len() -> nat {
        1
    }

    proof fn lemma_digest_len(data: Seq<u8>) {
    }

    fn update(&mut self, data: &[u8]) {
        proof {
            use_type_invariant(&*self);
        }
        let mut sum: u8 = self.sum;
        let ghost start: Seq<u8> = self.seen@;
        let mut i: usize = 0;
        while i < data.len()
            invariant
                i <= data.len(),
                sum == byte_sum(start + data@.subrange(0, i as int)),
            decreases data.len() - i,
        {
            proof {
                let next = start + data@.subrange(0, i + 1);
                assert(next.drop_last() =~= start + data@.subrange(0, i as int));
                assert(next.last() == data@[i as int]);
            }
            sum = sum.wrapping_add(data[i]);
            i = i + 1;
        }
        assert(data@.subrange(0, i as int) =~= data@);
        *self = ByteSum { sum, seen: Ghost(start + data@) };
    }

    fn finalize(self) -> (r: Vec<u8>) {
        proof {
            use_type_invariant(&self);
        }
        single_byte(self.sum)
    }
}

} // verus!
