use vstd::prelude::*;
use crate::client_type::ClientType;
use crate::height::Height;

verus! {

/// Why an operation of the client layer failed.
#[derive(Clone, Debug, PartialEq, Eq)]
pub enum Error {
    /// The payload bytes do not parse as the message its tag declares.
    ProtoDecodingFailure,
    /// A decoded client state breaks its algorithm's validity rules.
    InvalidRawClientState,
    /// A decoded consensus state breaks its algorithm's validity rules.
    InvalidRawConsensusState,
    /// No algorithm is registered for this client-state tag.
    UnknownClientStateType(String),
    /// No algorithm is registered for this consensus-state tag.
    UnknownConsensusStateType(String),
    /// An argument belongs to another algorithm than the dispatcher's.
    ClientArgsTypeMismatch(ClientType),
    /// The client is frozen and accepts no further headers.
    ClientFrozen,
    /// The header was produced for another chain.
    MismatchedChainId,
    /// The header does not advance the client's latest height.
    LowHeaderHeight { header_height: Height, latest_height: Height },
    /// The header is not signed by the validator set it is trusted through.
    InvalidValidatorSet,
    /// The client trusts no root at the requested height.
    ConsensusStateNotFound(Height),
    /// The proof does not verify against the trusted root.
    ProofVerificationFailure,
}

} // verus!
