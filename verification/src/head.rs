//! What the best-head subscription of the relay chain yields.

use vstd::prelude::*;
use polkadot_primitives::{BlockNumber as PBlockNumber, Hash as PHash};

verus! {

/// The relay chain's block hash, `polkadot_primitives::Hash`: 32 bytes that
/// nothing here looks into. An update carries it along.
#[verifier::external_type_specification]
#[verifier::external_body]
pub struct ExRelayHash(polkadot_primitives::Hash);

/// A parachain head update.
#[derive(Debug, PartialEq, Eq)]
pub struct HeadUpdate {
    /// The relay-chain's block hash where the parachain head updated.
    pub relay_hash: PHash,
    /// The relay-chain's block number where the parachain head updated.
    pub relay_number: PBlockNumber,
    /// The parachain head-data.
    pub head_data: Vec<u8>,
}

} // verus!
