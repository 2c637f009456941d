use vstd::prelude::*;
use crate::client_def::{AnyClientState, AnyConsensusState, ClientDef};
use crate::commitment::{
    verify_stored, ClientId, CommitmentPrefix, CommitmentProof, CommitmentRoot,
    ConnectionId, Path,
};
use crate::connection::ConnectionEnd;
use crate::proto::connection_end_encoding;
use crate::client_type::ClientType;
use crate::error::Error;
use crate::height::Height;
use crate::proto::{RawMockClientState, RawMockConsensusState, RawMockHeader};

verus! {

/// A mock header: a height and a timestamp, with no evidence.
#[derive(PartialEq, Eq, Structural, Clone, Copy, Debug)]
pub struct MockHeader {
    pub height: Height,
    pub timestamp: u64,
}

/// A mock client trusts the latest header it admitted.
#[derive(Clone, Debug, PartialEq, Eq)]
pub struct MockClientState {
    /// The tracked chain; the mock wire form does not carry it, so a decoded
    /// state has an empty one.
    pub chain_id: String,
    pub header: MockHeader,
    pub trusting_period: u64,
    pub frozen: bool,
}

/// A mock block as presented to a mock client: its header and the root of
/// its state tree.
#[derive(Clone, Debug, PartialEq, Eq)]
pub struct MockBlock {
    pub header: MockHeader,
    pub root: CommitmentRoot,
}

/// A mock consensus state: the header it was built from and the root it
/// trusts. The mock wire form does not carry the root, so a decoded state has
/// an empty one.
#[derive(Clone, Debug, PartialEq, Eq)]
pub struct MockConsensusState {
    pub header: MockHeader,
    pub root: CommitmentRoot,
}

/// The mock algorithm; it holds no data of its own.
#[derive(PartialEq, Eq, Structural, Clone, Copy, Debug)]
pub struct MockClient;

impl MockHeader {
    pub open spec fn raw_of(self) -> RawMockHeader {
        RawMockHeader { height: Some(self.height), timestamp: self.timestamp }
    }

    pub open spec fn from_raw_spec(raw: Option<RawMockHeader>) -> Option<MockHeader> {
        match raw {
            Some(RawMockHeader { height: Some(h), timestamp }) => Some(
                MockHeader { height: h, timestamp },
            ),
            _ => None,
        }
    }

    pub fn try_from_raw(raw: Option<RawMockHeader>) -> (r: Option<MockHeader>)
        ensures
            r == Self::from_raw_spec(raw),
    {
        match raw {
            Some(RawMockHeader { height: Some(h), timestamp }) => Some(
                MockHeader { height: h, timestamp },
            ),
            _ => None,
        }
    }
}

impl MockClientState {
    pub open spec fn raw_of(self) -> RawMockClientState {
        RawMockClientState {
            header: Some(self.header.raw_of()),
            trusting_period: self.trusting_period,
            frozen: self.frozen,
        }
    }

    /// The client state a wire form stands for, tracking `chain_id`: it needs
    /// a header with a height.
    pub open spec fn from_raw_spec(raw: RawMockClientState, chain_id: String) -> Result<
        MockClientState,
        Error,
    > {
        match MockHeader::from_raw_spec(raw.header) {
            Some(header) => Ok(
                MockClientState {
                    chain_id,
                    header,
                    trusting_period: raw.trusting_period,
                    frozen: raw.frozen,
                },
            ),
            None => Err(Error::InvalidRawClientState),
        }
    }

    pub fn try_from_raw(raw: RawMockClientState, chain_id: String) -> (r: Result<
        MockClientState,
        Error,
    >)
        ensures
            r == Self::from_raw_spec(raw, chain_id),
    {
        match MockHeader::try_from_raw(raw.header) {
            Some(header) => Ok(
                MockClientState {
                    chain_id,
                    header,
                    trusting_period: raw.trusting_period,
                    frozen: raw.frozen,
                },
            ),
            None => Err(Error::InvalidRawClientState),
        }
    }

    /// The client state frozen; it keeps its header.
    pub fn freeze(self) -> (r: MockClientState)
        ensures
            r == (MockClientState { frozen: true, ..self }),
    {
        MockClientState { frozen: true, ..self }
    }
}

impl MockConsensusState {
    pub open spec fn raw_of(self) -> RawMockConsensusState {
        RawMockConsensusState { header: Some(self.header.raw_of()) }
    }

    /// The consensus state a wire form, stored at `height` and trusting
    /// `root`, stands for: it needs a header at that height.
    pub open spec fn from_raw_spec(
        raw: RawMockConsensusState,
        height: Height,
        root: CommitmentRoot,
    ) -> Result<MockConsensusState, Error> {
        match MockHeader::from_raw_spec(raw.header) {
            Some(header) => if header.height == height {
                Ok(MockConsensusState { header, root })
            } else {
                Err(Error::InvalidRawConsensusState)
            },
            None => Err(Error::InvalidRawConsensusState),
        }
    }

    pub fn try_from_raw(raw: RawMockConsensusState, height: Height, root: CommitmentRoot) -> (r:
        Result<MockConsensusState, Error>)
        ensures
            r == Self::from_raw_spec(raw, height, root),
    {
        match MockHeader::try_from_raw(raw.header) {
            Some(header) => if header.height == height {
                Ok(MockConsensusState { header, root })
            } else {
                Err(Error::InvalidRawConsensusState)
            },
            None => Err(Error::InvalidRawConsensusState),
        }
    }
}

/// Admitting `block` into a mock client: its header must lie past the latest
/// trusted height and the client must not be frozen; the client then trusts
/// the header, with the block's root.
pub open spec fn mock_update(cs: MockClientState, block: MockBlock) -> Result<
    (MockClientState, MockConsensusState),
    Error,
> {
    if !cs.header.height.before(block.header.height) {
        Err(
            Error::LowHeaderHeight {
                header_height: block.header.height,
                latest_height: cs.header.height,
            },
        )
    } else if cs.frozen {
        Err(Error::ClientFrozen)
    } else {
        Ok(
            (
                MockClientState { header: block.header, ..cs },
                MockConsensusState { header: block.header, root: block.root },
            ),
        )
    }
}

impl ClientDef for MockClient {
    type Header = MockBlock;
    type ClientState = MockClientState;
    type ConsensusState = MockConsensusState;

    open spec fn outcome_of_update(&self, client_state: MockClientState, header: MockBlock) -> Result<
        (MockClientState, MockConsensusState),
        Error,
    > {
        mock_update(client_state, header)
    }

    open spec fn frozen_state(&self, client_state: MockClientState) -> bool {
        client_state.frozen
    }

    open spec fn latest_of(&self, client_state: MockClientState) -> Height {
        client_state.header.height
    }

    /// A polymorphic argument of another algorithm is refused before any check.
    open spec fn guarded(
        &self,
        client_state: MockClientState,
        other: Option<ClientType>,
        checked: Result<(), Error>,
    ) -> Result<(), Error> {
        match other {
            Some(k) => if k != ClientType::Mock {
                Err(Error::ClientArgsTypeMismatch(ClientType::Mock))
            } else {
                checked
            },
            None => checked,
        }
    }

    fn check_header_and_update_state(&self, client_state: MockClientState, header: MockBlock) -> (r:
        Result<(MockClientState, MockConsensusState), Error>)
        ensures
            r == mock_update(client_state, header),
    {
        if !client_state.header.height.is_before(&header.header.height) {
            return Err(
                Error::LowHeaderHeight {
                    header_height: header.header.height,
                    latest_height: client_state.header.height,
                },
            );
        }
        if client_state.frozen {
            return Err(Error::ClientFrozen);
        }
        let trusted = header.header;
        Ok(
            (
                MockClientState { header: trusted, ..client_state },
                MockConsensusState { header: trusted, root: header.root },
            ),
        )
    }

    /// Checks that the counterparty stores `expected_consensus_state` as the
    /// consensus state of `client_id` at `consensus_height`, against the
    /// root trusted at `height`.
    fn verify_client_consensus_state(
        &self,
        client_state: &MockClientState,
        height: Height,
        root: &CommitmentRoot,
        prefix: &CommitmentPrefix,
        proof: &CommitmentProof,
        client_id: &ClientId,
        consensus_height: Height,
        expected_consensus_state: &AnyConsensusState,
    ) -> (r: Result<(), Error>) {
        let path = Path::ClientConsensusState {
            client_id: ClientId { id: client_id.id.clone() },
            height: consensus_height,
        };
        if expected_consensus_state.client_type() != ClientType::Mock {
            return Err(Error::ClientArgsTypeMismatch(ClientType::Mock));
        }
        let value = expected_consensus_state.encode_value();
        verify_stored(client_state.frozen, client_state.header.height, proof, height, root, prefix, &path, &value)
    }

    /// Checks that the counterparty stores `expected_connection_end` under
    /// `connection_id`, against the root trusted at `height`.
    fn verify_connection_state(
        &self,
        client_state: &MockClientState,
        height: Height,
        root: &CommitmentRoot,
        prefix: &CommitmentPrefix,
        proof: &CommitmentProof,
        connection_id: &ConnectionId,
        expected_connection_end: &ConnectionEnd,
    ) -> (r: Result<(), Error>) {
        let path = Path::Connection { connection_id: ConnectionId { id: connection_id.id.clone() } };
        let value = expected_connection_end.encode_value();
        verify_stored(client_state.frozen, client_state.header.height, proof, height, root, prefix, &path, &value)
    }

    /// Checks that the counterparty stores `client_state_on_counterparty` as
    /// the client state of `client_id`, against `root` at `height`.
    fn verify_client_full_state(
        &self,
        client_state: &MockClientState,
        height: Height,
        root: &CommitmentRoot,
        prefix: &CommitmentPrefix,
        client_id: &ClientId,
        proof: &CommitmentProof,
        client_state_on_counterparty: &AnyClientState,
    ) -> (r: Result<(), Error>) {
        let path = Path::ClientState { client_id: ClientId { id: client_id.id.clone() } };
        if client_state_on_counterparty.client_type() != ClientType::Mock {
            return Err(Error::ClientArgsTypeMismatch(ClientType::Mock));
        }
        let value = client_state_on_counterparty.encode_value();
        verify_stored(client_state.frozen, client_state.header.height, proof, height, root, prefix, &path, &value)
    }
}

} // verus!
