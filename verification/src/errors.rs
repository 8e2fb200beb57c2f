use vstd::prelude::*;

verus! {

/// The failure taxonomy shared by every operation in this crate. Each step of
/// a submission maps its outcome onto exactly one of these variants, so a
/// caller can branch on what went wrong instead of inspecting error text.
#[derive(Clone, Copy, Debug, PartialEq, Eq, Structural)]
pub enum TxError {
    /// A network round trip (blockhash, slot or account fetch) could not be
    /// completed.
    NetworkUnavailable,
    /// The referenced account does not exist on the network.
    AccountNotFound,
    /// Serialized data could not be produced or understood.
    SerializationFailed,
    /// A required signer was missing or a signature could not be produced.
    SigningFailed,
    /// The network rejected the submitted transaction.
    SubmissionRejected,
    /// The transaction was submitted but confirmation could not be obtained.
    ConfirmationTimeout,
}

/// How a fetch of a remote value ended, as the caller observed it.
#[derive(Clone, Copy, Debug, PartialEq, Eq, Structural)]
pub enum FetchFailure {
    /// The requested item does not exist.
    NotFound,
    /// The request itself could not be completed.
    Network,
}

/// Why producing a signed, serialized transaction failed: the versioned
/// message could not be compiled against the lookup table, or signing or
/// serializing the compiled message failed.
#[derive(Clone, Copy, Debug, PartialEq, Eq, Structural)]
pub enum SignFailure {
    Compile,
    Sign,
}

/// How a submission round trip ended when it did not succeed: the node
/// rejected the transaction outright, or it was sent but confirmation could
/// not be obtained.
#[derive(Clone, Copy, Debug, PartialEq, Eq, Structural)]
pub enum SubmitFailure {
    Rejected,
    Unconfirmed,
}

} // verus!
