//! The digest contract: incremental hashing with a fixed-size output.
use vstd::prelude::*;

verus! {

/// An incremental hash computation.
///
/// A hasher is modelled by the bytes it has absorbed so far. Its output is a
/// function of those bytes alone, so how the bytes were split over calls of
/// `update` cannot matter.
pub trait Hasher: Sized {
    /// The digest. Its view is the byte sequence of the digest.
    type Output: core::fmt::Debug + PartialEq + View<V = Seq<u8>>;

    /// All bytes absorbed so far, in order.
    spec fn absorbed(&self) -> Seq<u8>;

    /// The digest of a whole message.
    spec fn digest_spec(data: Seq<u8>) -> Seq<u8>;

    /// The length that every digest has.
    spec fn output_len() -> nat;

    /// Every digest has the same length.
    proof fn lemma_digest_len(data: Seq<u8>)
        ensures
            Self::digest_spec(data).len() == Self::output_len(),
    ;

    /// Appends `data` to what was absorbed.
    fn update(&mut self, data: &[u8])
        ensures
            final(self).absorbed() == old(self).absorbed() + data@,
    ;

    /// Consumes the hasher and returns the digest of everything absorbed.
    fn finalize(self) -> (r: Self::Output)
        ensures
            r@ == Self::digest_spec(self.absorbed()),
    ;
}

/// The bytes a hasher has absorbed after `update` was called with each of `chunks`
/// in turn, when it had absorbed `start` before.
pub open spec fn absorbed_after(start: Seq<u8>, chunks: Seq<Seq<u8>>) -> Seq<u8>
    decreases chunks.len(),
{
    if chunks.len() == 0 {
        start
    } else {
        absorbed_after(start + chunks.first(), chunks.drop_first())
    }
}

/// Absorbing chunk by chunk is absorbing the concatenation of the chunks.
pub proof fn lemma_absorbed_after(start: Seq<u8>, chunks: Seq<Seq<u8>>)
    ensures
        absorbed_after(start, chunks) == start + chunks.flatten(),
    decreases chunks.len(),
{
    if chunks.len() == 0 {
        assert(chunks.flatten() =~= Seq::<u8>::empty());
        assert(start + chunks.flatten() =~= start);
    } else {
        lemma_absorbed_after(start + chunks.first(), chunks.drop_first());
        assert(chunks.flatten() == chunks.first() + chunks.drop_first().flatten());
        assert((start + chunks.first()) + chunks.drop_first().flatten() =~= start + (
        chunks.first() + chunks.drop_first().flatten()));
    }
}

/// Determinism: two hashers of one type that start from the same state and absorb
/// the same content give the same digest, however the content is split into
/// chunks.
pub proof fn lemma_digest_chunking<H: Hasher>(
    start: Seq<u8>,
    chunks: Seq<Seq<u8>>,
    other_chunks: Seq<Seq<u8>>,
)
    requires
        chunks.flatten() == other_chunks.flatten(),
    ensures
        H::digest_spec(absorbed_after(start, chunks)) == H::digest_spec(
            absorbed_after(start, other_chunks),
        ),
        H::digest_spec(absorbed_after(start, chunks)).len() == H::output_len(),
{
    lemma_absorbed_after(start, chunks);
    lemma_absorbed_after(start, other_chunks);
    H::lemma_digest_len(absorbed_after(start, chunks));
}

} // verus!
