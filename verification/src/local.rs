//! The local chain, as the followers see it.

use vstd::prelude::*;
use crate::error::ClientError;
use crate::task::Action;

verus! {

/// Helper for the local client.
///
/// An implementor stands for one local chain: it says how the headers of that
/// chain are decoded and identified, and it marks blocks of that chain as best
/// or as finalized. Nothing is required of what its methods return: the
/// followers are specified for every result.
pub trait LocalClient {
    /// The hash by which a block of the local chain is known.
    type Hash;

    /// Decodes a header of the local chain and returns its hash, or `None`
    /// where `head_data` does not decode.
    ///
    /// The result is meant to depend on the bytes alone: the same bytes
    /// always give the same hash, or always fail.
    fn decode_head(head_data: &[u8]) -> (hash: Option<Self::Hash>);

    /// Mark the given block as the best block.
    /// Returns `false` if the block is not known.
    fn mark_best(&self, hash: Self::Hash) -> (known: Result<bool, ClientError>);

    /// Finalize the given block.
    /// Returns `false` if the block is not known.
    fn finalize(&self, hash: Self::Hash) -> (known: Result<bool, ClientError>);
}

/// Whether the decoder of `L` may return `decoded` for the bytes `head_data`.
pub open spec fn decodes_to<L: LocalClient>(head_data: Seq<u8>, decoded: Option<L::Hash>) -> bool {
    exists|bytes: &[u8]| bytes@ == head_data && #[trigger] call_ensures(
        L::decode_head,
        (bytes,),
        decoded,
    )
}

/// Whether `local` may return `answer` when `call` is made on it: `mark_best`
/// with the hash of an [`Action::MarkBest`], `finalize` with the hash of an
/// [`Action::Finalize`].
pub open spec fn answers_with<L: LocalClient>(
    local: &L,
    call: Action<L::Hash>,
    answer: Result<bool, ClientError>,
) -> bool {
    match call {
        Action::MarkBest(hash) => call_ensures(L::mark_best, (local, hash), answer),
        Action::Finalize(hash) => call_ensures(L::finalize, (local, hash), answer),
    }
}

/// Makes `call` on the local client, with the hash that it holds, and returns
/// the answer.
pub fn perform<L: LocalClient>(local: &L, call: Action<L::Hash>) -> (answer: Result<
    bool,
    ClientError,
>)
    ensures
        answers_with(local, call, answer),
{
    match call {
        Action::MarkBest(hash) => local.mark_best(hash),
        Action::Finalize(hash) => local.finalize(hash),
    }
}

} // verus!
