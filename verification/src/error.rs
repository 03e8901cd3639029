//! The faults that end the following of the relay chain.

use vstd::prelude::*;

verus! {

/// A failure of the local chain's store, as the local client reports it.
#[derive(Debug, PartialEq, Eq)]
pub struct ClientError {
    /// What the store said went wrong.
    pub message: String,
}

/// Errors that can occur while following the relay chain.
///
/// `P` is the error type of the relay-chain client in use.
#[derive(Debug, PartialEq, Eq)]
pub enum Error<P> {
    /// An underlying error of the local client.
    Client(ClientError),
    /// An error of the relay-chain client.
    Polkadot(P),
    /// Head data that does not decode to a header of the local chain.
    InvalidHeadData,
}

} // verus!
