use vstd::prelude::*;
use crate::client_def::{AnyClientState, AnyConsensusState, ClientDef};
use crate::commitment::{
    verify_stored, ClientId, CommitmentPrefix, CommitmentProof, CommitmentRoot,
    ConnectionId, Path,
};
use crate::connection::ConnectionEnd;
use crate::proto::connection_end_encoding;
use crate::client_type::ClientType;
use crate::error::Error;
use crate::height::Height;
use crate::proto::{RawTmClientState, RawTmConsensusState};

verus! {

/// A fraction of voting power.
#[derive(PartialEq, Eq, Structural, Clone, Copy, Debug)]
pub struct Fraction {
    pub numerator: u64,
    pub denominator: u64,
}

/// A span of time, or a point in time since the Unix epoch.
#[derive(PartialEq, Eq, Structural, Clone, Copy, Debug)]
pub struct Duration {
    pub seconds: i64,
    pub nanos: i32,
}

/// What a consensus-following client currently trusts.
#[derive(Clone, Debug, PartialEq, Eq)]
pub struct TmClientState {
    pub chain_id: String,
    pub trust_level: Fraction,
    pub trusting_period: Duration,
    pub latest_height: Height,
    pub frozen_height: Option<Height>,
}

/// What a consensus-following client trusted at one height.
#[derive(Clone, Debug, PartialEq, Eq)]
pub struct TmConsensusState {
    /// The height the state is trusted at; the store keys it by this height.
    pub height: Height,
    pub timestamp: Duration,
    pub root: CommitmentRoot,
    pub next_validators_hash: Vec<u8>,
}

/// A signed header of the counterparty chain.
#[derive(Clone, Debug, PartialEq, Eq)]
pub struct TmHeader {
    pub chain_id: String,
    pub height: Height,
    pub timestamp: Duration,
    pub root: CommitmentRoot,
    /// Hash of the validator set the header declares.
    pub validators_hash: Vec<u8>,
    /// Hash of the validator set whose signatures the commit carries.
    pub signers_hash: Vec<u8>,
    pub next_validators_hash: Vec<u8>,
}

/// The consensus-following algorithm; it holds no data of its own.
#[derive(PartialEq, Eq, Structural, Clone, Copy, Debug)]
pub struct TendermintClient;

/// A trust level is a fraction in [1/3, 1].
pub open spec fn valid_trust_level(t: Fraction) -> bool {
    t.denominator > 0 && t.numerator <= t.denominator && 3 * t.numerator >= t.denominator
}

/// A period is positive, with nanoseconds below one second.
pub open spec fn valid_period(d: Duration) -> bool {
    0 <= d.nanos < 1_000_000_000 && d.seconds >= 0 && (d.seconds > 0 || d.nanos > 0)
}

/// A timestamp has nanoseconds in [0, 1e9).
pub open spec fn valid_timestamp(t: Duration) -> bool {
    0 <= t.nanos < 1_000_000_000
}

impl TmClientState {
    pub open spec fn wf(self) -> bool {
        valid_trust_level(self.trust_level) && valid_period(self.trusting_period)
    }

    pub open spec fn frozen(self) -> bool {
        self.frozen_height is Some
    }

    /// The wire form of a client state.
    pub open spec fn raw_of(self) -> RawTmClientState {
        RawTmClientState {
            chain_id: self.chain_id,
            trust_level: Some((self.trust_level.numerator, self.trust_level.denominator)),
            trusting_period: Some((self.trusting_period.seconds, self.trusting_period.nanos)),
            frozen_height: self.frozen_height,
            latest_height: Some(self.latest_height),
        }
    }

    /// The client state a wire form stands for, or why it stands for none.
    pub open spec fn from_raw_spec(raw: RawTmClientState) -> Result<TmClientState, Error> {
        match (raw.trust_level, raw.trusting_period, raw.latest_height) {
            (Some(t), Some(p), Some(h)) => if valid_trust_level(
                Fraction { numerator: t.0, denominator: t.1 },
            ) && valid_period(Duration { seconds: p.0, nanos: p.1 }) {
                Ok(
                    TmClientState {
                        chain_id: raw.chain_id,
                        trust_level: Fraction { numerator: t.0, denominator: t.1 },
                        trusting_period: Duration { seconds: p.0, nanos: p.1 },
                        latest_height: h,
                        frozen_height: raw.frozen_height,
                    },
                )
            } else {
                Err(Error::InvalidRawClientState)
            },
            _ => Err(Error::InvalidRawClientState),
        }
    }

    /// Checks a decoded client state against the algorithm's validity rules.
    pub fn try_from_raw(raw: RawTmClientState) -> (r: Result<TmClientState, Error>)
        ensures
            r == Self::from_raw_spec(raw),
            r is Ok ==> r->Ok_0.wf(),
    {
        match (raw.trust_level, raw.trusting_period, raw.latest_height) {
            (Some(t), Some(p), Some(h)) => {
                let tl_ok = t.1 > 0 && t.0 <= t.1 && (t.0 as u128) * 3 >= t.1 as u128;
                let p_ok = 0 <= p.1 && p.1 < 1_000_000_000 && p.0 >= 0 && (p.0 > 0 || p.1 > 0);
                if tl_ok && p_ok {
                    Ok(
                        TmClientState {
                            chain_id: raw.chain_id,
                            trust_level: Fraction { numerator: t.0, denominator: t.1 },
                            trusting_period: Duration { seconds: p.0, nanos: p.1 },
                            latest_height: h,
                            frozen_height: raw.frozen_height,
                        },
                    )
                } else {
                    Err(Error::InvalidRawClientState)
                }
            },
            _ => Err(Error::InvalidRawClientState),
        }
    }

    pub fn is_frozen(&self) -> (r: bool)
        ensures
            r == self.frozen(),
    {
        self.frozen_height.is_some()
    }

    /// The client state frozen at `height`.
    pub fn freeze(self, height: Height) -> (r: TmClientState)
        ensures
            r == (TmClientState { frozen_height: Some(height), ..self }),
    {
        TmClientState { frozen_height: Some(height), ..self }
    }
}

impl TmConsensusState {
    pub open spec fn wf(self) -> bool {
        valid_timestamp(self.timestamp)
    }

    /// The wire form of a consensus state.
    pub open spec fn raw_of(self) -> RawTmConsensusState {
        RawTmConsensusState {
            timestamp: Some((self.timestamp.seconds, self.timestamp.nanos)),
            root: Some(self.root.bytes),
            next_validators_hash: self.next_validators_hash,
        }
    }

    /// The consensus state a wire form, stored at `height`, stands for, or
    /// why it stands for none. The wire form does not carry the height.
    pub open spec fn from_raw_spec(raw: RawTmConsensusState, height: Height) -> Result<
        TmConsensusState,
        Error,
    > {
        match (raw.timestamp, raw.root) {
            (Some(t), Some(root)) => if valid_timestamp(Duration { seconds: t.0, nanos: t.1 }) {
                Ok(
                    TmConsensusState {
                        height,
                        timestamp: Duration { seconds: t.0, nanos: t.1 },
                        root: CommitmentRoot { bytes: root },
                        next_validators_hash: raw.next_validators_hash,
                    },
                )
            } else {
                Err(Error::InvalidRawConsensusState)
            },
            _ => Err(Error::InvalidRawConsensusState),
        }
    }

    /// Checks a decoded consensus state, stored at `height`, against the
    /// algorithm's validity rules.
    pub fn try_from_raw(raw: RawTmConsensusState, height: Height) -> (r: Result<
        TmConsensusState,
        Error,
    >)
        ensures
            r == Self::from_raw_spec(raw, height),
            r is Ok ==> r->Ok_0.wf(),
    {
        match (raw.timestamp, raw.root) {
            (Some(t), Some(root)) => {
                if 0 <= t.1 && t.1 < 1_000_000_000 {
                    Ok(
                        TmConsensusState {
                            height,
                            timestamp: Duration { seconds: t.0, nanos: t.1 },
                            root: CommitmentRoot { bytes: root },
                            next_validators_hash: raw.next_validators_hash,
                        },
                    )
                } else {
                    Err(Error::InvalidRawConsensusState)
                }
            },
            _ => Err(Error::InvalidRawConsensusState),
        }
    }

    /// Checks the consensus state before it is stored.
    pub fn validate_basic(&self) -> (r: Result<(), Error>)
        ensures
            r is Ok <==> self.wf(),
            r is Err ==> r == Err::<(), Error>(Error::InvalidRawConsensusState),
    {
        if 0 <= self.timestamp.nanos && self.timestamp.nanos < 1_000_000_000 {
            Ok(())
        } else {
            Err(Error::InvalidRawConsensusState)
        }
    }
}

/// Admitting `header` into a client in state `cs`: the header must lie past
/// the latest trusted height, the client must not be frozen, and the header
/// must come from the tracked chain and be signed by the validator set it
/// declares; the client then trusts the header's height, with the header's
/// root. Checking the commit's signatures is outside this layer: the header
/// reports the set whose signatures its commit carries.
pub open spec fn tm_update(cs: TmClientState, header: TmHeader) -> Result<
    (TmClientState, TmConsensusState),
    Error,
> {
    if !cs.latest_height.before(header.height) {
        Err(Error::LowHeaderHeight { header_height: header.height, latest_height: cs.latest_height })
    } else if cs.frozen() {
        Err(Error::ClientFrozen)
    } else if header.chain_id@ != cs.chain_id@ {
        Err(Error::MismatchedChainId)
    } else if header.validators_hash@.len() == 0 || header.validators_hash@
        != header.signers_hash@ {
        Err(Error::InvalidValidatorSet)
    } else {
        Ok(
            (
                TmClientState { latest_height: header.height, ..cs },
                TmConsensusState {
                    height: header.height,
                    timestamp: header.timestamp,
                    root: header.root,
                    next_validators_hash: header.next_validators_hash,
                },
            ),
        )
    }
}

impl ClientDef for TendermintClient {
    type Header = TmHeader;
    type ClientState = TmClientState;
    type ConsensusState = TmConsensusState;

    open spec fn outcome_of_update(&self, client_state: TmClientState, header: TmHeader) -> Result<
        (TmClientState, TmConsensusState),
        Error,
    > {
        tm_update(client_state, header)
    }

    open spec fn frozen_state(&self, client_state: TmClientState) -> bool {
        client_state.frozen()
    }

    open spec fn latest_of(&self, client_state: TmClientState) -> Height {
        client_state.latest_height
    }

    /// A polymorphic argument of another algorithm is refused before any check.
    open spec fn guarded(
        &self,
        client_state: TmClientState,
        other: Option<ClientType>,
        checked: Result<(), Error>,
    ) -> Result<(), Error> {
        match other {
            Some(k) => if k != ClientType::Tendermint {
                Err(Error::ClientArgsTypeMismatch(ClientType::Tendermint))
            } else {
                checked
            },
            None => checked,
        }
    }

    fn check_header_and_update_state(&self, client_state: TmClientState, header: TmHeader) -> (r:
        Result<(TmClientState, TmConsensusState), Error>)
        ensures
            r == tm_update(client_state, header),
    {
        if !client_state.latest_height.is_before(&header.height) {
            return Err(
                Error::LowHeaderHeight {
                    header_height: header.height,
                    latest_height: client_state.latest_height,
                },
            );
        }
        if client_state.is_frozen() {
            return Err(Error::ClientFrozen);
        }
        if header.chain_id != client_state.chain_id {
            return Err(Error::MismatchedChainId);
        }
        if header.validators_hash.len() == 0 || !crate::commitment::bytes_eq(
            &header.validators_hash,
            &header.signers_hash,
        ) {
            return Err(Error::InvalidValidatorSet);
        }
        let latest_height = header.height;
        Ok(
            (
                TmClientState { latest_height, ..client_state },
                TmConsensusState {
                    height: header.height,
                    timestamp: header.timestamp,
                    root: header.root,
                    next_validators_hash: header.next_validators_hash,
                },
            ),
        )
    }

    /// Checks that the counterparty stores `expected_consensus_state` as the
    /// consensus state of `client_id` at `consensus_height`, against the
    /// root trusted at `height`.
    fn verify_client_consensus_state(
        &self,
        client_state: &TmClientState,
        height: Height,
        root: &CommitmentRoot,
        prefix: &CommitmentPrefix,
        proof: &CommitmentProof,
        client_id: &ClientId,
        consensus_height: Height,
        expected_consensus_state: &AnyConsensusState,
    ) -> (r: Result<(), Error>) {
        let path = Path::ClientConsensusState {
            client_id: ClientId { id: client_id.id.clone() },
            height: consensus_height,
        };
        if expected_consensus_state.client_type() != ClientType::Tendermint {
            return Err(Error::ClientArgsTypeMismatch(ClientType::Tendermint));
        }
        let value = expected_consensus_state.encode_value();
        verify_stored(client_state.is_frozen(), client_state.latest_height, proof, height, root, prefix, &path, &value)
    }

    /// Checks that the counterparty stores `expected_connection_end` under
    /// `connection_id`, against the root trusted at `height`.
    fn verify_connection_state(
        &self,
        client_state: &TmClientState,
        height: Height,
        root: &CommitmentRoot,
        prefix: &CommitmentPrefix,
        proof: &CommitmentProof,
        connection_id: &ConnectionId,
        expected_connection_end: &ConnectionEnd,
    ) -> (r: Result<(), Error>) {
        let path = Path::Connection { connection_id: ConnectionId { id: connection_id.id.clone() } };
        let value = expected_connection_end.encode_value();
        verify_stored(client_state.is_frozen(), client_state.latest_height, proof, height, root, prefix, &path, &value)
    }

    /// Checks that the counterparty stores `client_state_on_counterparty` as
    /// the client state of `client_id`, against `root` at `height`.
    fn verify_client_full_state(
        &self,
        client_state: &TmClientState,
        height: Height,
        root: &CommitmentRoot,
        prefix: &CommitmentPrefix,
        client_id: &ClientId,
        proof: &CommitmentProof,
        client_state_on_counterparty: &AnyClientState,
    ) -> (r: Result<(), Error>) {
        let path = Path::ClientState { client_id: ClientId { id: client_id.id.clone() } };
        if client_state_on_counterparty.client_type() != ClientType::Tendermint {
            return Err(Error::ClientArgsTypeMismatch(ClientType::Tendermint));
        }
        let value = client_state_on_counterparty.encode_value();
        verify_stored(client_state.is_frozen(), client_state.latest_height, proof, height, root, prefix, &path, &value)
    }
}

} // verus!
