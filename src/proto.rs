use vstd::prelude::*;
use prost::Message;
use ibc_proto::google::protobuf::Duration as ProtoDuration;
use ibc_proto::google::protobuf::Timestamp as ProtoTimestamp;
use ibc_proto::ibc::lightclients::tendermint::v1::ClientState as ProtoTmClientState;
use ibc_proto::ibc::lightclients::tendermint::v1::ConsensusState as ProtoTmConsensusState;
use ibc_proto::ibc::lightclients::tendermint::v1::Fraction as ProtoFraction;
use ibc_proto::ibc::mock::ClientState as ProtoMockClientState;
use ibc_proto::ibc::mock::ConsensusState as ProtoMockConsensusState;
use ibc_proto::ibc::mock::Header as ProtoMockHeader;
use crate::connection::{ConnectionEnd, ConnectionVersion};
use crate::height::Height;
use crate::mock_client::{MockClientState, MockConsensusState};
use crate::tendermint_client::{TmClientState, TmConsensusState};

verus! {

type ProtoHeight = ibc_proto::ibc::core::client::v1::Height;

type ProtoMerkleRoot = ibc_proto::ibc::core::commitment::v1::MerkleRoot;

type ProtoConnectionEnd = ibc_proto::ibc::core::connection::v1::ConnectionEnd;

type ProtoCounterparty = ibc_proto::ibc::core::connection::v1::Counterparty;

type ProtoVersion = ibc_proto::ibc::core::connection::v1::Version;

type ProtoMerklePrefix = ibc_proto::ibc::core::commitment::v1::MerklePrefix;

/// The wire form of a consensus-following client state, field by field.
#[derive(Clone, Debug, PartialEq, Eq)]
pub struct RawTmClientState {
    pub chain_id: String,
    /// numerator, denominator
    pub trust_level: Option<(u64, u64)>,
    /// seconds, nanoseconds
    pub trusting_period: Option<(i64, i32)>,
    pub frozen_height: Option<Height>,
    pub latest_height: Option<Height>,
}

/// The wire form of a consensus-following consensus state.
#[derive(Clone, Debug, PartialEq, Eq)]
pub struct RawTmConsensusState {
    /// seconds, nanoseconds
    pub timestamp: Option<(i64, i32)>,
    pub root: Option<Vec<u8>>,
    pub next_validators_hash: Vec<u8>,
}

/// The wire form of a mock header.
#[derive(Clone, Copy, Debug, PartialEq, Eq)]
pub struct RawMockHeader {
    pub height: Option<Height>,
    pub timestamp: u64,
}

/// The wire form of a mock client state.
#[derive(Clone, Copy, Debug, PartialEq, Eq)]
pub struct RawMockClientState {
    pub header: Option<RawMockHeader>,
    pub trusting_period: u64,
    pub frozen: bool,
}

/// The wire form of a mock consensus state.
#[derive(Clone, Copy, Debug, PartialEq, Eq)]
pub struct RawMockConsensusState {
    pub header: Option<RawMockHeader>,
}

/// The wire form of a connection record.
#[derive(Clone, Debug, PartialEq, Eq)]
pub struct RawConnectionEnd {
    pub client_id: String,
    pub versions: Vec<ConnectionVersion>,
    pub state: i32,
    pub counterparty_client_id: String,
    pub counterparty_connection_id: String,
    pub counterparty_prefix: Vec<u8>,
    pub delay_period: u64,
}

/// What protobuf decoding makes of bytes as a consensus-following client
/// state; `None` where they do not parse.
pub uninterp spec fn tm_client_state_decoding(b: Seq<u8>) -> Option<RawTmClientState>;

/// The protobuf encoding of a consensus-following client state.
pub uninterp spec fn tm_client_state_encoding(raw: RawTmClientState) -> Seq<u8>;

/// What protobuf decoding makes of bytes as a consensus-following consensus state.
pub uninterp spec fn tm_consensus_state_decoding(b: Seq<u8>) -> Option<RawTmConsensusState>;

/// The protobuf encoding of a consensus-following consensus state.
pub uninterp spec fn tm_consensus_state_encoding(raw: RawTmConsensusState) -> Seq<u8>;

/// What protobuf decoding makes of bytes as a mock client state.
pub uninterp spec fn mock_client_state_decoding(b: Seq<u8>) -> Option<RawMockClientState>;

/// The protobuf encoding of a mock client state.
pub uninterp spec fn mock_client_state_encoding(raw: RawMockClientState) -> Seq<u8>;

/// What protobuf decoding makes of bytes as a mock consensus state.
pub uninterp spec fn mock_consensus_state_decoding(b: Seq<u8>) -> Option<RawMockConsensusState>;

/// The protobuf encoding of a mock consensus state.
pub uninterp spec fn mock_consensus_state_encoding(raw: RawMockConsensusState) -> Seq<u8>;

/// The protobuf encoding of a connection record.
pub uninterp spec fn connection_end_encoding(raw: RawConnectionEnd) -> Seq<u8>;

/// Relies on prost's `Message::decode` for ibc-proto's tendermint `ClientState`:
/// the outcome depends on the bytes alone.
#[verifier::external_body]
pub(crate) fn decode_tm_client_state(b: &Vec<u8>) -> (r: Option<RawTmClientState>)
    ensures
        r == tm_client_state_decoding(b@),
{
    let m = ProtoTmClientState::decode(b.as_slice()).ok()?;
    let h = |h: ProtoHeight| Height { revision_number: h.revision_number, revision_height: h.revision_height };
    Some(RawTmClientState {
        chain_id: m.chain_id,
        trust_level: m.trust_level.map(|f| (f.numerator, f.denominator)),
        trusting_period: m.trusting_period.map(|d| (d.seconds, d.nanos)),
        frozen_height: m.frozen_height.map(h),
        latest_height: m.latest_height.map(h),
    })
}

/// Relies on prost's `Message::encode_to_vec` for ibc-proto's tendermint
/// `ClientState`: the bytes depend on the fields alone.
#[verifier::external_body]
pub(crate) fn encode_tm_client_state(cs: &TmClientState) -> (r: Vec<u8>)
    ensures
        r@ == tm_client_state_encoding(cs.raw_of()),
{
    let h = |h: Height| ProtoHeight { revision_number: h.revision_number, revision_height: h.revision_height };
    ProtoTmClientState {
        chain_id: cs.chain_id.clone(),
        trust_level: Some(ProtoFraction { numerator: cs.trust_level.numerator, denominator: cs.trust_level.denominator }),
        trusting_period: Some(ProtoDuration { seconds: cs.trusting_period.seconds, nanos: cs.trusting_period.nanos }),
        frozen_height: cs.frozen_height.map(h),
        latest_height: Some(h(cs.latest_height)),
        ..Default::default()
    }.encode_to_vec()
}

/// Relies on prost's `Message::decode` for ibc-proto's tendermint
/// `ConsensusState`: the outcome depends on the bytes alone.
#[verifier::external_body]
pub(crate) fn decode_tm_consensus_state(b: &Vec<u8>) -> (r: Option<RawTmConsensusState>)
    ensures
        r == tm_consensus_state_decoding(b@),
{
    let m = ProtoTmConsensusState::decode(b.as_slice()).ok()?;
    Some(RawTmConsensusState {
        timestamp: m.timestamp.map(|t| (t.seconds, t.nanos)),
        root: m.root.map(|r| r.hash),
        next_validators_hash: m.next_validators_hash,
    })
}

/// Relies on prost's `Message::encode_to_vec` for ibc-proto's tendermint
/// `ConsensusState`: the bytes depend on the fields alone.
#[verifier::external_body]
pub(crate) fn encode_tm_consensus_state(cs: &TmConsensusState) -> (r: Vec<u8>)
    ensures
        r@ == tm_consensus_state_encoding(cs.raw_of()),
{
    ProtoTmConsensusState {
        timestamp: Some(ProtoTimestamp { seconds: cs.timestamp.seconds, nanos: cs.timestamp.nanos }),
        root: Some(ProtoMerkleRoot { hash: cs.root.bytes.clone() }),
        next_validators_hash: cs.next_validators_hash.clone(),
    }.encode_to_vec()
}

/// Relies on prost's `Message::decode` for ibc-proto's mock `ClientState`:
/// the outcome depends on the bytes alone.
#[verifier::external_body]
pub(crate) fn decode_mock_client_state(b: &Vec<u8>) -> (r: Option<RawMockClientState>)
    ensures
        r == mock_client_state_decoding(b@),
{
    let m = ProtoMockClientState::decode(b.as_slice()).ok()?;
    let h = |h: ProtoHeight| Height { revision_number: h.revision_number, revision_height: h.revision_height };
    Some(RawMockClientState {
        header: m.header.map(|x| RawMockHeader { height: x.height.map(h), timestamp: x.timestamp }),
        trusting_period: m.trusting_period,
        frozen: m.frozen,
    })
}

/// Relies on prost's `Message::encode_to_vec` for ibc-proto's mock
/// `ClientState`: the bytes depend on the fields alone.
#[verifier::external_body]
pub(crate) fn encode_mock_client_state(cs: &MockClientState) -> (r: Vec<u8>)
    ensures
        r@ == mock_client_state_encoding(cs.raw_of()),
{
    let h = |h: Height| ProtoHeight { revision_number: h.revision_number, revision_height: h.revision_height };
    ProtoMockClientState {
        header: Some(ProtoMockHeader { height: Some(h(cs.header.height)), timestamp: cs.header.timestamp }),
        trusting_period: cs.trusting_period,
        frozen: cs.frozen,
    }.encode_to_vec()
}

/// Relies on prost's `Message::decode` for ibc-proto's mock `ConsensusState`:
/// the outcome depends on the bytes alone.
#[verifier::external_body]
pub(crate) fn decode_mock_consensus_state(b: &Vec<u8>) -> (r: Option<RawMockConsensusState>)
    ensures
        r == mock_consensus_state_decoding(b@),
{
    let m = ProtoMockConsensusState::decode(b.as_slice()).ok()?;
    let h = |h: ProtoHeight| Height { revision_number: h.revision_number, revision_height: h.revision_height };
    Some(RawMockConsensusState {
        header: m.header.map(|x| RawMockHeader { height: x.height.map(h), timestamp: x.timestamp }),
    })
}

/// Relies on prost's `Message::encode_to_vec` for ibc-proto's mock
/// `ConsensusState`: the bytes depend on the fields alone.
#[verifier::external_body]
pub(crate) fn encode_mock_consensus_state(cs: &MockConsensusState) -> (r: Vec<u8>)
    ensures
        r@ == mock_consensus_state_encoding(cs.raw_of()),
{
    let h = |h: Height| ProtoHeight { revision_number: h.revision_number, revision_height: h.revision_height };
    ProtoMockConsensusState {
        header: Some(ProtoMockHeader { height: Some(h(cs.header.height)), timestamp: cs.header.timestamp }),
    }.encode_to_vec()
}

/// Relies on prost's `Message::encode_to_vec` for ibc-proto's connection
/// `ConnectionEnd`: the bytes depend on the fields alone.
#[verifier::external_body]
pub(crate) fn encode_connection_end(c: &ConnectionEnd) -> (r: Vec<u8>)
    ensures
        r@ == connection_end_encoding(c.raw_of()),
{
    let counterparty = ProtoCounterparty {
        client_id: c.counterparty_client_id.id.clone(),
        connection_id: c.counterparty_connection_id.id.clone(),
        prefix: Some(ProtoMerklePrefix { key_prefix: c.counterparty_prefix.bytes.clone() }),
    };
    let v = |v: &ConnectionVersion| ProtoVersion { identifier: v.identifier.clone(), features: v.features.clone() };
    ProtoConnectionEnd {
        client_id: c.client_id.id.clone(),
        versions: c.versions.iter().map(v).collect(),
        state: c.state,
        counterparty: Some(counterparty),
        delay_period: c.delay_period,
    }.encode_to_vec()
}

} // verus!
