use vstd::prelude::*;
use crate::client_type::ClientType;
use crate::commitment::{
    stored_outcome, ClientId, CommitmentPrefix, CommitmentProof, CommitmentRoot, ConnectionId, Path,
};
use crate::connection::ConnectionEnd;
use crate::error::Error;
use crate::height::Height;
use crate::mock_client::{
    mock_update, MockBlock, MockClient, MockClientState, MockConsensusState,
};
use crate::proto::{
    connection_end_encoding, decode_mock_client_state, decode_mock_consensus_state,
    decode_tm_client_state, decode_tm_consensus_state, encode_mock_client_state,
    encode_mock_consensus_state, encode_tm_client_state, encode_tm_consensus_state,
    mock_client_state_decoding, mock_client_state_encoding, mock_consensus_state_decoding,
    mock_consensus_state_encoding, tm_client_state_decoding, tm_client_state_encoding,
    tm_consensus_state_decoding, tm_consensus_state_encoding,
};
use crate::tendermint_client::{
    tm_update, TendermintClient, TmClientState, TmConsensusState, TmHeader,
};

verus! {

/// Tag of an encoded consensus-following client state.
pub const TENDERMINT_CLIENT_STATE_TYPE_URL: &'static str = "/ibc.tendermint.ClientState";

/// Tag of an encoded consensus-following consensus state.
pub const TENDERMINT_CONSENSUS_STATE_TYPE_URL: &'static str = "/ibc.tendermint.ConsensusState";

/// Tag of an encoded mock client state.
pub const MOCK_CLIENT_STATE_TYPE_URL: &'static str = "/ibc.mock.ClientState";

/// Tag of an encoded mock consensus state.
pub const MOCK_CONSENSUS_STATE_TYPE_URL: &'static str = "/ibc.mock.ConsensusState";

/// The contract every client algorithm meets, typed to its own header and
/// states: admitting a header, and checking proofs of what the counterparty
/// stores against a trusted root.
pub trait ClientDef {
    type Header;
    type ClientState;
    type ConsensusState;

    /// What admitting `header` into `client_state` yields.
    spec fn outcome_of_update(&self, client_state: Self::ClientState, header: Self::Header) -> Result<
        (Self::ClientState, Self::ConsensusState),
        Error,
    >;

    /// The client is frozen.
    spec fn frozen_state(&self, client_state: Self::ClientState) -> bool;

    /// The latest height the client trusts.
    spec fn latest_of(&self, client_state: Self::ClientState) -> Height;

    /// What a proof check yields once the polymorphic arguments, the client
    /// state and the `other` state if there is one, have been narrowed to
    /// this algorithm: `checked` where they all belong to it.
    spec fn guarded(
        &self,
        client_state: Self::ClientState,
        other: Option<ClientType>,
        checked: Result<(), Error>,
    ) -> Result<(), Error>;

    /// Admits `header` into `client_state` and returns the advanced client
    /// state with the consensus state trusted at the header's height.
    fn check_header_and_update_state(
        &self,
        client_state: Self::ClientState,
        header: Self::Header,
    ) -> (r: Result<(Self::ClientState, Self::ConsensusState), Error>)
        ensures
            r == self.outcome_of_update(client_state, header),
    ;

    /// Checks that the counterparty stores `expected_consensus_state` as the
    /// consensus state of `client_id` at `consensus_height`, against `root`,
    /// the root that the client trusted at `height`.
    fn verify_client_consensus_state(
        &self,
        client_state: &Self::ClientState,
        height: Height,
        root: &CommitmentRoot,
        prefix: &CommitmentPrefix,
        proof: &CommitmentProof,
        client_id: &ClientId,
        consensus_height: Height,
        expected_consensus_state: &AnyConsensusState,
    ) -> (r: Result<(), Error>)
        ensures
            r == self.guarded(
                *client_state,
                Some(expected_consensus_state.kind()),
                stored_outcome(
                    self.frozen_state(*client_state),
                    self.latest_of(*client_state),
                    *proof,
                    height,
                    root.bytes@,
                    prefix.bytes@,
                    Path::ClientConsensusState { client_id: *client_id, height: consensus_height },
                    expected_consensus_state.encoding(),
                ),
            ),
    ;

    /// Checks that the counterparty stores `expected_connection_end` under
    /// `connection_id`, against `root`, the root that the client trusted at
    /// `height`.
    fn verify_connection_state(
        &self,
        client_state: &Self::ClientState,
        height: Height,
        root: &CommitmentRoot,
        prefix: &CommitmentPrefix,
        proof: &CommitmentProof,
        connection_id: &ConnectionId,
        expected_connection_end: &ConnectionEnd,
    ) -> (r: Result<(), Error>)
        ensures
            r == self.guarded(
                *client_state,
                None,
                stored_outcome(
                    self.frozen_state(*client_state),
                    self.latest_of(*client_state),
                    *proof,
                    height,
                    root.bytes@,
                    prefix.bytes@,
                    Path::Connection { connection_id: *connection_id },
                    connection_end_encoding(expected_connection_end.raw_of()),
                ),
            ),
    ;

    /// Checks that the counterparty stores `client_state_on_counterparty` as
    /// the client state of `client_id`, against `root` at `height`.
    fn verify_client_full_state(
        &self,
        client_state: &Self::ClientState,
        height: Height,
        root: &CommitmentRoot,
        prefix: &CommitmentPrefix,
        client_id: &ClientId,
        proof: &CommitmentProof,
        client_state_on_counterparty: &AnyClientState,
    ) -> (r: Result<(), Error>)
        ensures
            r == self.guarded(
                *client_state,
                Some(client_state_on_counterparty.kind()),
                stored_outcome(
                    self.frozen_state(*client_state),
                    self.latest_of(*client_state),
                    *proof,
                    height,
                    root.bytes@,
                    prefix.bytes@,
                    Path::ClientState { client_id: *client_id },
                    client_state_on_counterparty.encoding(),
                ),
            ),
    ;
}

/// A type-tagged encoded value: the tag names the message its bytes encode.
#[derive(Clone, Debug, PartialEq, Eq)]
pub struct TypedPayload {
    pub type_url: String,
    pub value: Vec<u8>,
}

/// A header of any supported algorithm.
#[derive(Clone, Debug, PartialEq, Eq)]
pub enum AnyHeader {
    Tendermint(TmHeader),
    Mock(MockBlock),
}

/// A client state of any supported algorithm.
#[derive(Clone, Debug, PartialEq, Eq)]
pub enum AnyClientState {
    Tendermint(TmClientState),
    Mock(MockClientState),
}

/// A consensus state of any supported algorithm.
#[derive(Clone, Debug, PartialEq, Eq)]
pub enum AnyConsensusState {
    Tendermint(TmConsensusState),
    Mock(MockConsensusState),
}

/// The dispatcher: one variant per supported algorithm.
#[derive(PartialEq, Eq, Structural, Clone, Copy, Debug)]
pub enum AnyClient {
    Tendermint(TendermintClient),
    Mock(MockClient),
}

impl AnyHeader {
    pub open spec fn kind(self) -> ClientType {
        match self {
            AnyHeader::Tendermint(_) => ClientType::Tendermint,
            AnyHeader::Mock(_) => ClientType::Mock,
        }
    }

    pub open spec fn target(self) -> Height {
        match self {
            AnyHeader::Tendermint(h) => h.height,
            AnyHeader::Mock(b) => b.header.height,
        }
    }

    pub fn client_type(&self) -> (r: ClientType)
        ensures
            r == self.kind(),
    {
        match self {
            AnyHeader::Tendermint(_) => ClientType::Tendermint,
            AnyHeader::Mock(_) => ClientType::Mock,
        }
    }

    /// The height the header claims to advance the client to.
    pub fn height(&self) -> (r: Height)
        ensures
            r == self.target(),
    {
        match self {
            AnyHeader::Tendermint(h) => h.height,
            AnyHeader::Mock(b) => b.header.height,
        }
    }
}

/// The algorithm a client-state tag is registered for, if any.
pub open spec fn client_state_type_of(url: Seq<char>) -> Option<ClientType> {
    if url == TENDERMINT_CLIENT_STATE_TYPE_URL@ {
        Some(ClientType::Tendermint)
    } else if url == MOCK_CLIENT_STATE_TYPE_URL@ {
        Some(ClientType::Mock)
    } else {
        None
    }
}

/// The algorithm a consensus-state tag is registered for, if any.
pub open spec fn consensus_state_type_of(url: Seq<char>) -> Option<ClientType> {
    if url == TENDERMINT_CONSENSUS_STATE_TYPE_URL@ {
        Some(ClientType::Tendermint)
    } else if url == MOCK_CONSENSUS_STATE_TYPE_URL@ {
        Some(ClientType::Mock)
    } else {
        None
    }
}

impl AnyClientState {
    pub open spec fn kind(self) -> ClientType {
        match self {
            AnyClientState::Tendermint(_) => ClientType::Tendermint,
            AnyClientState::Mock(_) => ClientType::Mock,
        }
    }

    pub open spec fn latest(self) -> Height {
        match self {
            AnyClientState::Tendermint(s) => s.latest_height,
            AnyClientState::Mock(s) => s.header.height,
        }
    }

    pub open spec fn frozen(self) -> bool {
        match self {
            AnyClientState::Tendermint(s) => s.frozen(),
            AnyClientState::Mock(s) => s.frozen,
        }
    }

    /// The algorithm's own validity rules hold.
    pub open spec fn wf(self) -> bool {
        match self {
            AnyClientState::Tendermint(s) => s.wf(),
            AnyClientState::Mock(_) => true,
        }
    }

    /// The tag under which the state is encoded.
    pub open spec fn type_url(self) -> Seq<char> {
        match self {
            AnyClientState::Tendermint(_) => TENDERMINT_CLIENT_STATE_TYPE_URL@,
            AnyClientState::Mock(_) => MOCK_CLIENT_STATE_TYPE_URL@,
        }
    }

    /// The encoded bytes of the state.
    pub open spec fn encoding(self) -> Seq<u8> {
        match self {
            AnyClientState::Tendermint(s) => tm_client_state_encoding(s.raw_of()),
            AnyClientState::Mock(s) => mock_client_state_encoding(s.raw_of()),
        }
    }

    /// What the decoding adapter makes of a payload: the tag selects the
    /// algorithm, whose decoder and validity rules then apply. The mock wire
    /// form carries no chain id: a mock state gets `mock_chain_id`.
    pub open spec fn from_payload(p: TypedPayload, mock_chain_id: String) -> Result<
        AnyClientState,
        Error,
    > {
        if p.type_url@ == TENDERMINT_CLIENT_STATE_TYPE_URL@ {
            match tm_client_state_decoding(p.value@) {
                None => Err(Error::ProtoDecodingFailure),
                Some(raw) => match TmClientState::from_raw_spec(raw) {
                    Ok(s) => Ok(AnyClientState::Tendermint(s)),
                    Err(e) => Err(e),
                },
            }
        } else if p.type_url@ == MOCK_CLIENT_STATE_TYPE_URL@ {
            match mock_client_state_decoding(p.value@) {
                None => Err(Error::ProtoDecodingFailure),
                Some(raw) => match MockClientState::from_raw_spec(raw, mock_chain_id) {
                    Ok(s) => Ok(AnyClientState::Mock(s)),
                    Err(e) => Err(e),
                },
            }
        } else {
            Err(Error::UnknownClientStateType(p.type_url))
        }
    }

    /// Decodes a type-tagged payload into the client state of its algorithm;
    /// a mock state gets an empty chain id.
    pub fn try_from(raw: TypedPayload) -> (r: Result<AnyClientState, Error>)
        ensures
            exists|c: String| c@ == Seq::<char>::empty() && r == Self::from_payload(raw, c),
            r is Ok ==> r->Ok_0.wf(),
    {
        let empty = String::new();
        let ghost c = empty;
        let tm_url = String::from_str(TENDERMINT_CLIENT_STATE_TYPE_URL);
        let mock_url = String::from_str(MOCK_CLIENT_STATE_TYPE_URL);
        let ghost payload = raw;
        let r = if raw.type_url == tm_url {
            match decode_tm_client_state(&raw.value) {
                None => Err(Error::ProtoDecodingFailure),
                Some(r) => match TmClientState::try_from_raw(r) {
                    Ok(s) => Ok(AnyClientState::Tendermint(s)),
                    Err(e) => Err(e),
                },
            }
        } else if raw.type_url == mock_url {
            match decode_mock_client_state(&raw.value) {
                None => Err(Error::ProtoDecodingFailure),
                Some(r) => match MockClientState::try_from_raw(r, empty) {
                    Ok(s) => Ok(AnyClientState::Mock(s)),
                    Err(e) => Err(e),
                },
            }
        } else {
            Err(Error::UnknownClientStateType(raw.type_url))
        };
        assert(c@ == Seq::<char>::empty() && r == Self::from_payload(payload, c));
        r
    }

    /// The encoded bytes of the state.
    pub fn encode_value(&self) -> (r: Vec<u8>)
        ensures
            r@ == self.encoding(),
    {
        match self {
            AnyClientState::Tendermint(s) => encode_tm_client_state(s),
            AnyClientState::Mock(s) => encode_mock_client_state(s),
        }
    }

    /// The state as a type-tagged payload, the decoding adapter's input.
    pub fn encode(&self) -> (r: TypedPayload)
        ensures
            r.type_url@ == self.type_url(),
            r.value@ == self.encoding(),
    {
        let type_url = match self {
            AnyClientState::Tendermint(_) => String::from_str(TENDERMINT_CLIENT_STATE_TYPE_URL),
            AnyClientState::Mock(_) => String::from_str(MOCK_CLIENT_STATE_TYPE_URL),
        };
        TypedPayload { type_url, value: self.encode_value() }
    }

    /// The identifier of the tracked chain.
    pub fn chain_id(&self) -> (r: String)
        ensures
            r == match self {
                AnyClientState::Tendermint(s) => s.chain_id,
                AnyClientState::Mock(s) => s.chain_id,
            },
    {
        match self {
            AnyClientState::Tendermint(s) => s.chain_id.clone(),
            AnyClientState::Mock(s) => s.chain_id.clone(),
        }
    }

    pub fn client_type(&self) -> (r: ClientType)
        ensures
            r == self.kind(),
    {
        match self {
            AnyClientState::Tendermint(_) => ClientType::Tendermint,
            AnyClientState::Mock(_) => ClientType::Mock,
        }
    }

    pub fn latest_height(&self) -> (r: Height)
        ensures
            r == self.latest(),
    {
        match self {
            AnyClientState::Tendermint(s) => s.latest_height,
            AnyClientState::Mock(s) => s.header.height,
        }
    }

    pub fn is_frozen(&self) -> (r: bool)
        ensures
            r == self.frozen(),
    {
        match self {
            AnyClientState::Tendermint(s) => s.is_frozen(),
            AnyClientState::Mock(s) => s.frozen,
        }
    }

    /// Freezes the client on evidence of misbehaviour at `height`; it keeps
    /// its algorithm and its latest height.
    pub fn freeze(self, height: Height) -> (r: AnyClientState)
        ensures
            r == match self {
                AnyClientState::Tendermint(s) => AnyClientState::Tendermint(
                    TmClientState { frozen_height: Some(height), ..s },
                ),
                AnyClientState::Mock(s) => AnyClientState::Mock(MockClientState { frozen: true, ..s }),
            },
            r.frozen(),
            r.kind() == self.kind(),
            r.latest() == self.latest(),
            self.wf() ==> r.wf(),
    {
        match self {
            AnyClientState::Tendermint(s) => AnyClientState::Tendermint(s.freeze(height)),
            AnyClientState::Mock(s) => AnyClientState::Mock(s.freeze()),
        }
    }
}

impl AnyConsensusState {
    pub open spec fn kind(self) -> ClientType {
        match self {
            AnyConsensusState::Tendermint(_) => ClientType::Tendermint,
            AnyConsensusState::Mock(_) => ClientType::Mock,
        }
    }

    pub open spec fn trusted_height(self) -> Height {
        match self {
            AnyConsensusState::Tendermint(s) => s.height,
            AnyConsensusState::Mock(s) => s.header.height,
        }
    }

    pub open spec fn wf(self) -> bool {
        match self {
            AnyConsensusState::Tendermint(s) => s.wf(),
            AnyConsensusState::Mock(_) => true,
        }
    }

    pub open spec fn type_url(self) -> Seq<char> {
        match self {
            AnyConsensusState::Tendermint(_) => TENDERMINT_CONSENSUS_STATE_TYPE_URL@,
            AnyConsensusState::Mock(_) => MOCK_CONSENSUS_STATE_TYPE_URL@,
        }
    }

    /// The encoded bytes of the state.
    pub open spec fn encoding(self) -> Seq<u8> {
        match self {
            AnyConsensusState::Tendermint(s) => tm_consensus_state_encoding(s.raw_of()),
            AnyConsensusState::Mock(s) => mock_consensus_state_encoding(s.raw_of()),
        }
    }

    /// What the decoding adapter makes of a payload stored at `height`. The
    /// mock wire form carries no root: a mock state gets `mock_root`.
    pub open spec fn from_payload(p: TypedPayload, height: Height, mock_root: CommitmentRoot) -> Result<
        AnyConsensusState,
        Error,
    > {
        if p.type_url@ == TENDERMINT_CONSENSUS_STATE_TYPE_URL@ {
            match tm_consensus_state_decoding(p.value@) {
                None => Err(Error::ProtoDecodingFailure),
                Some(raw) => match TmConsensusState::from_raw_spec(raw, height) {
                    Ok(s) => Ok(AnyConsensusState::Tendermint(s)),
                    Err(e) => Err(e),
                },
            }
        } else if p.type_url@ == MOCK_CONSENSUS_STATE_TYPE_URL@ {
            match mock_consensus_state_decoding(p.value@) {
                None => Err(Error::ProtoDecodingFailure),
                Some(raw) => match MockConsensusState::from_raw_spec(raw, height, mock_root) {
                    Ok(s) => Ok(AnyConsensusState::Mock(s)),
                    Err(e) => Err(e),
                },
            }
        } else {
            Err(Error::UnknownConsensusStateType(p.type_url))
        }
    }

    /// Decodes a type-tagged payload, stored at `height`, into the consensus
    /// state of its algorithm, trusted at that height; a mock state gets an
    /// empty root.
    pub fn try_from(value: TypedPayload, height: Height) -> (r: Result<AnyConsensusState, Error>)
        ensures
            exists|root: CommitmentRoot|
                root.bytes@ == Seq::<u8>::empty() && r == Self::from_payload(value, height, root),
            r is Ok ==> r->Ok_0.trusted_height() == height,
            r is Ok ==> r->Ok_0.wf(),
    {
        let empty = CommitmentRoot { bytes: Vec::new() };
        let ghost root = empty;
        let ghost payload = value;
        let tm_url = String::from_str(TENDERMINT_CONSENSUS_STATE_TYPE_URL);
        let mock_url = String::from_str(MOCK_CONSENSUS_STATE_TYPE_URL);
        let r = if value.type_url == tm_url {
            match decode_tm_consensus_state(&value.value) {
                None => Err(Error::ProtoDecodingFailure),
                Some(r) => match TmConsensusState::try_from_raw(r, height) {
                    Ok(s) => Ok(AnyConsensusState::Tendermint(s)),
                    Err(e) => Err(e),
                },
            }
        } else if value.type_url == mock_url {
            match decode_mock_consensus_state(&value.value) {
                None => Err(Error::ProtoDecodingFailure),
                Some(r) => match MockConsensusState::try_from_raw(r, height, empty) {
                    Ok(s) => Ok(AnyConsensusState::Mock(s)),
                    Err(e) => Err(e),
                },
            }
        } else {
            Err(Error::UnknownConsensusStateType(value.type_url))
        };
        assert(root.bytes@ == Seq::<u8>::empty() && r == Self::from_payload(payload, height, root));
        r
    }

    /// The encoded bytes of the state.
    pub fn encode_value(&self) -> (r: Vec<u8>)
        ensures
            r@ == self.encoding(),
    {
        match self {
            AnyConsensusState::Tendermint(s) => encode_tm_consensus_state(s),
            AnyConsensusState::Mock(s) => encode_mock_consensus_state(s),
        }
    }

    /// The state as a type-tagged payload, the decoding adapter's input.
    pub fn encode(&self) -> (r: TypedPayload)
        ensures
            r.type_url@ == self.type_url(),
            r.value@ == self.encoding(),
    {
        let type_url = match self {
            AnyConsensusState::Tendermint(_) => String::from_str(
                TENDERMINT_CONSENSUS_STATE_TYPE_URL,
            ),
            AnyConsensusState::Mock(_) => String::from_str(MOCK_CONSENSUS_STATE_TYPE_URL),
        };
        TypedPayload { type_url, value: self.encode_value() }
    }

    pub fn client_type(&self) -> (r: ClientType)
        ensures
            r == self.kind(),
    {
        match self {
            AnyConsensusState::Tendermint(_) => ClientType::Tendermint,
            AnyConsensusState::Mock(_) => ClientType::Mock,
        }
    }

    /// The height the state is trusted at.
    pub fn height(&self) -> (r: Height)
        ensures
            r == self.trusted_height(),
    {
        match self {
            AnyConsensusState::Tendermint(s) => s.height,
            AnyConsensusState::Mock(s) => s.header.height,
        }
    }

    /// The commitment root the state trusts.
    pub fn root(&self) -> (r: &CommitmentRoot)
        ensures
            *r == match self {
                AnyConsensusState::Tendermint(s) => s.root,
                AnyConsensusState::Mock(s) => s.root,
            },
    {
        match self {
            AnyConsensusState::Tendermint(s) => &s.root,
            AnyConsensusState::Mock(s) => &s.root,
        }
    }

    /// Checks the state before it is stored.
    pub fn validate_basic(&self) -> (r: Result<(), Error>)
        ensures
            r is Ok <==> self.wf(),
            r is Err ==> r == Err::<(), Error>(Error::InvalidRawConsensusState),
    {
        match self {
            AnyConsensusState::Tendermint(s) => s.validate_basic(),
            AnyConsensusState::Mock(_) => Ok(()),
        }
    }
}


impl AnyClient {
    pub open spec fn kind(self) -> ClientType {
        match self {
            AnyClient::Tendermint(_) => ClientType::Tendermint,
            AnyClient::Mock(_) => ClientType::Mock,
        }
    }

    /// The dispatcher bound to the algorithm that `client_type` names.
    pub fn from_client_type(client_type: ClientType) -> (r: AnyClient)
        ensures
            r.kind() == client_type,
    {
        match client_type {
            ClientType::Tendermint => AnyClient::Tendermint(TendermintClient),
            ClientType::Mock => AnyClient::Mock(MockClient),
        }
    }

    pub fn client_type(&self) -> (r: ClientType)
        ensures
            r == self.kind(),
    {
        match self {
            AnyClient::Tendermint(_) => ClientType::Tendermint,
            AnyClient::Mock(_) => ClientType::Mock,
        }
    }

    /// What admitting `header` into `client_state` yields: both must belong
    /// to the dispatcher's algorithm, whose rules then decide.
    pub open spec fn update(self, client_state: AnyClientState, header: AnyHeader) -> Result<
        (AnyClientState, AnyConsensusState),
        Error,
    > {
        match (self, client_state, header) {
            (
                AnyClient::Tendermint(_),
                AnyClientState::Tendermint(s),
                AnyHeader::Tendermint(h),
            ) => match tm_update(s, h) {
                Ok((s2, c2)) => Ok((AnyClientState::Tendermint(s2), AnyConsensusState::Tendermint(c2))),
                Err(e) => Err(e),
            },
            (AnyClient::Mock(_), AnyClientState::Mock(s), AnyHeader::Mock(h)) => match mock_update(
                s,
                h,
            ) {
                Ok((s2, c2)) => Ok((AnyClientState::Mock(s2), AnyConsensusState::Mock(c2))),
                Err(e) => Err(e),
            },
            _ => Err(Error::ClientArgsTypeMismatch(self.kind())),
        }
    }

}

impl ClientDef for AnyClient {
    type Header = AnyHeader;
    type ClientState = AnyClientState;
    type ConsensusState = AnyConsensusState;

    open spec fn outcome_of_update(&self, client_state: AnyClientState, header: AnyHeader) -> Result<
        (AnyClientState, AnyConsensusState),
        Error,
    > {
        self.update(client_state, header)
    }

    open spec fn frozen_state(&self, client_state: AnyClientState) -> bool {
        client_state.frozen()
    }

    open spec fn latest_of(&self, client_state: AnyClientState) -> Height {
        client_state.latest()
    }

    /// A polymorphic argument of another algorithm is refused before any check.
    open spec fn guarded(
        &self,
        client_state: AnyClientState,
        other: Option<ClientType>,
        checked: Result<(), Error>,
    ) -> Result<(), Error> {
        if client_state.kind() != self.kind() || (other is Some && other->Some_0 != self.kind()) {
            Err(Error::ClientArgsTypeMismatch(self.kind()))
        } else {
            checked
        }
    }

    /// Admits `header` into `client_state` and returns the advanced client
    /// state with the consensus state trusted at the header's height.
    fn check_header_and_update_state(
        &self,
        client_state: AnyClientState,
        header: AnyHeader,
    ) -> (r: Result<(AnyClientState, AnyConsensusState), Error>)
        ensures
            r == self.update(client_state, header),
    {
        match self {
            AnyClient::Tendermint(client) => match (client_state, header) {
                (AnyClientState::Tendermint(s), AnyHeader::Tendermint(h)) => {
                    match client.check_header_and_update_state(s, h) {
                        Ok((s2, c2)) => Ok(
                            (AnyClientState::Tendermint(s2), AnyConsensusState::Tendermint(c2)),
                        ),
                        Err(e) => Err(e),
                    }
                },
                _ => Err(Error::ClientArgsTypeMismatch(ClientType::Tendermint)),
            },
            AnyClient::Mock(client) => match (client_state, header) {
                (AnyClientState::Mock(s), AnyHeader::Mock(h)) => {
                    match client.check_header_and_update_state(s, h) {
                        Ok((s2, c2)) => Ok((AnyClientState::Mock(s2), AnyConsensusState::Mock(c2))),
                        Err(e) => Err(e),
                    }
                },
                _ => Err(Error::ClientArgsTypeMismatch(ClientType::Mock)),
            },
        }
    }

    /// Checks that the counterparty stores `expected_consensus_state` as the
    /// consensus state of `client_id` at `consensus_height`, against `root`,
    /// the root that the client trusted at `height`.
    fn verify_client_consensus_state(
        &self,
        client_state: &AnyClientState,
        height: Height,
        root: &CommitmentRoot,
        prefix: &CommitmentPrefix,
        proof: &CommitmentProof,
        client_id: &ClientId,
        consensus_height: Height,
        expected_consensus_state: &AnyConsensusState,
    ) -> (r: Result<(), Error>) {
        if expected_consensus_state.client_type() != self.client_type() {
            return Err(Error::ClientArgsTypeMismatch(self.client_type()));
        }
        match (self, client_state) {
            (AnyClient::Tendermint(client), AnyClientState::Tendermint(s)) => client.verify_client_consensus_state(
                s,
                height,
                root,
                prefix,
                proof,
                client_id,
                consensus_height,
                expected_consensus_state,
            ),
            (AnyClient::Mock(client), AnyClientState::Mock(s)) => client.verify_client_consensus_state(
                s,
                height,
                root,
                prefix,
                proof,
                client_id,
                consensus_height,
                expected_consensus_state,
            ),
            _ => Err(Error::ClientArgsTypeMismatch(self.client_type())),
        }
    }

    /// Checks that the counterparty stores `expected_connection_end` under
    /// `connection_id`, against `root`, the root that the client trusted at
    /// `height`.
    fn verify_connection_state(
        &self,
        client_state: &AnyClientState,
        height: Height,
        root: &CommitmentRoot,
        prefix: &CommitmentPrefix,
        proof: &CommitmentProof,
        connection_id: &ConnectionId,
        expected_connection_end: &ConnectionEnd,
    ) -> (r: Result<(), Error>) {
        match (self, client_state) {
            (AnyClient::Tendermint(client), AnyClientState::Tendermint(s)) => client.verify_connection_state(
                s,
                height,
                root,
                prefix,
                proof,
                connection_id,
                expected_connection_end,
            ),
            (AnyClient::Mock(client), AnyClientState::Mock(s)) => client.verify_connection_state(
                s,
                height,
                root,
                prefix,
                proof,
                connection_id,
                expected_connection_end,
            ),
            _ => Err(Error::ClientArgsTypeMismatch(self.client_type())),
        }
    }

    /// Checks that the counterparty stores `client_state_on_counterparty` as
    /// the client state of `client_id`, against `root` at `height`.
    fn verify_client_full_state(
        &self,
        client_state: &AnyClientState,
        height: Height,
        root: &CommitmentRoot,
        prefix: &CommitmentPrefix,
        client_id: &ClientId,
        proof: &CommitmentProof,
        client_state_on_counterparty: &AnyClientState,
    ) -> (r: Result<(), Error>) {
        if client_state_on_counterparty.client_type() != self.client_type() {
            return Err(Error::ClientArgsTypeMismatch(self.client_type()));
        }
        match (self, client_state) {
            (AnyClient::Tendermint(client), AnyClientState::Tendermint(s)) => client.verify_client_full_state(
                s,
                height,
                root,
                prefix,
                client_id,
                proof,
                client_state_on_counterparty,
            ),
            (AnyClient::Mock(client), AnyClientState::Mock(s)) => client.verify_client_full_state(
                s,
                height,
                root,
                prefix,
                client_id,
                proof,
                client_state_on_counterparty,
            ),
            _ => Err(Error::ClientArgsTypeMismatch(self.client_type())),
        }
    }
}

} // verus!
