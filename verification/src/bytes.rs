//! The byte codec: a canonical, reversible mapping between a value and its bytes.
use vstd::prelude::*;

verus! {

/// A type whose valid values have exactly one byte encoding each.
///
/// `valid` says which values of the type satisfy its invariants, and `encoding`
/// gives the canonical bytes of such a value. Decoding is the inverse of encoding
/// on valid values and fails everywhere else.
pub trait Bytes: Sized {
    /// The container an encoding is handed out in. Its view is the byte sequence.
    type BytesType: core::fmt::Debug + View<V = Seq<u8>>;

    /// What decoding reports for bytes that encode no valid value.
    type Error: core::fmt::Debug;

    /// Whether the value satisfies the invariants of its type.
    spec fn valid(&self) -> bool;

    /// The canonical encoding of a valid value.
    spec fn encoding(&self) -> Seq<u8>;

    /// The error that decoding reports for bytes that encode no valid value.
    spec fn rejection(bytes: Seq<u8>) -> Self::Error;

    /// An encoding tells where it ends, as one of a fixed length does and as one
    /// that carries its length does: no encoding of a valid value is the beginning
    /// of the encoding of another valid value.
    proof fn lemma_encoding_prefix_free(a: Self, b: Self)
        requires
            a.valid(),
            b.valid(),
            a.encoding().is_prefix_of(b.encoding()),
        ensures
            a == b,
    ;

    /// Tests whether `self` is valid.
    fn is_valid(&self) -> (r: bool)
        ensures
            r == self.valid(),
    ;

    /// Decodes `bytes`. Succeeds exactly when `bytes` is the encoding of a valid
    /// value, and then returns that value. Fails with the rejection of `bytes`
    /// otherwise.
    fn from_bytes(bytes: &[u8]) -> (r: Result<Self, Self::Error>)
        ensures
            r matches Ok(v) ==> v.valid() && v.encoding() == bytes@,
            r matches Err(e) ==> e == Self::rejection(bytes@),
            r is Err ==> forall|v: Self| v.valid() ==> #[trigger] v.encoding() != bytes@,
    ;

    /// The canonical encoding of `self`.
    fn to_bytes(&self) -> (r: Self::BytesType)
        requires
            self.valid(),
        ensures
            r@ == self.encoding(),
    ;
}

/// `bytes` is the encoding of the valid value `v`.
pub open spec fn encodes<T: Bytes>(bytes: Seq<u8>, v: T) -> bool {
    v.valid() && v.encoding() == bytes
}

/// Some valid value has `bytes` as its encoding.
pub open spec fn decodable<T: Bytes>(bytes: Seq<u8>) -> bool {
    exists|v: T| encodes(bytes, v)
}

/// What decoding `bytes` gives: the valid value encoded by `bytes` if there is one,
/// and the rejection of `bytes` otherwise.
pub open spec fn decode<T: Bytes>(bytes: Seq<u8>) -> Result<T, T::Error> {
    if decodable::<T>(bytes) {
        Ok(choose|v: T| encodes(bytes, v))
    } else {
        Err(T::rejection(bytes))
    }
}

/// One value, one encoding: valid values with equal encodings are equal.
pub proof fn lemma_encoding_injective<T: Bytes>(a: T, b: T)
    requires
        a.valid(),
        b.valid(),
        a.encoding() == b.encoding(),
    ensures
        a == b,
{
    assert(a.encoding().is_prefix_of(b.encoding()));
    T::lemma_encoding_prefix_free(a, b);
}

/// A successful decoding determines the value: if `bytes` encodes `v`, then
/// `decode` yields `v` and no other value.
pub proof fn lemma_decode_unique<T: Bytes>(bytes: Seq<u8>, v: T)
    requires
        encodes(bytes, v),
    ensures
        decode::<T>(bytes) == Ok::<T, T::Error>(v),
{
    let w = choose|w: T| encodes(bytes, w);
    lemma_encoding_injective(v, w);
}

/// Round trip: decoding the encoding of a valid value gives that value back.
pub proof fn lemma_decode_encoding<T: Bytes>(v: T)
    requires
        v.valid(),
    ensures
        decode::<T>(v.encoding()) == Ok::<T, T::Error>(v),
{
    lemma_decode_unique(v.encoding(), v);
}

/// Rejection: bytes that are not the encoding of a valid value decode to nothing,
/// and whatever does decode is valid and encodes back to the same bytes.
pub proof fn lemma_decode_sound<T: Bytes>(bytes: Seq<u8>)
    ensures
        decode::<T>(bytes) matches Ok(v) ==> v.valid() && v.encoding() == bytes,
        decode::<T>(bytes) is Err <==> forall|v: T| v.valid() ==> v.encoding() != bytes,
        decode::<T>(bytes) matches Err(e) ==> e == T::rejection(bytes),
{
    if decodable::<T>(bytes) {
        let w = choose|w: T| encodes(bytes, w);
        assert(encodes(bytes, w));
    } else {
        assert forall|v: T| v.valid() implies v.encoding() != bytes by {
            if v.encoding() == bytes {
                assert(encodes(bytes, v));
            }
        }
    }
}

} // verus!
