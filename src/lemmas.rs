use vstd::prelude::*;
use crate::client_def::{
    client_state_type_of, consensus_state_type_of, AnyClient, AnyClientState, AnyConsensusState,
    AnyHeader, ClientDef, TypedPayload, MOCK_CLIENT_STATE_TYPE_URL, MOCK_CONSENSUS_STATE_TYPE_URL,
    TENDERMINT_CLIENT_STATE_TYPE_URL, TENDERMINT_CONSENSUS_STATE_TYPE_URL,
};
use crate::client_type::ClientType;
use crate::commitment::{proves, stored_outcome, ClientId, CommitmentProof, CommitmentRoot, Path};
use crate::error::Error;
use crate::height::Height;
use crate::proto::{
    mock_client_state_decoding, mock_client_state_encoding, mock_consensus_state_decoding,
    mock_consensus_state_encoding, tm_client_state_decoding, tm_client_state_encoding,
    tm_consensus_state_decoding, tm_consensus_state_encoding,
};

verus! {

proof fn lemma_type_urls_distinct()
    ensures
        TENDERMINT_CLIENT_STATE_TYPE_URL@ != MOCK_CLIENT_STATE_TYPE_URL@,
        TENDERMINT_CONSENSUS_STATE_TYPE_URL@ != MOCK_CONSENSUS_STATE_TYPE_URL@,
{
    reveal_strlit("/ibc.tendermint.ClientState");
    reveal_strlit("/ibc.mock.ClientState");
    reveal_strlit("/ibc.tendermint.ConsensusState");
    reveal_strlit("/ibc.mock.ConsensusState");
    assert(TENDERMINT_CLIENT_STATE_TYPE_URL@[5] != MOCK_CLIENT_STATE_TYPE_URL@[5]);
    assert(TENDERMINT_CONSENSUS_STATE_TYPE_URL@[5] != MOCK_CONSENSUS_STATE_TYPE_URL@[5]);
}

/// Decoding a client-state payload that succeeds yields a state of the
/// algorithm its tag is registered for; a tag registered for no algorithm
/// always fails with `UnknownClientStateType`.
pub proof fn lemma_decoded_client_state_type(p: TypedPayload, mock_chain_id: String)
    ensures
        AnyClientState::from_payload(p, mock_chain_id) is Ok ==> client_state_type_of(p.type_url@)
            == Some(AnyClientState::from_payload(p, mock_chain_id)->Ok_0.kind()),
        client_state_type_of(p.type_url@) is None ==> AnyClientState::from_payload(p, mock_chain_id)
            == Err::<AnyClientState, Error>(Error::UnknownClientStateType(p.type_url)),
{
    lemma_type_urls_distinct();
}

/// Decoding a consensus-state payload that succeeds yields a state of the
/// algorithm its tag is registered for; a tag registered for no algorithm
/// always fails with `UnknownConsensusStateType`.
pub proof fn lemma_decoded_consensus_state_type(
    p: TypedPayload,
    height: Height,
    mock_root: CommitmentRoot,
)
    ensures
        AnyConsensusState::from_payload(p, height, mock_root) is Ok ==> consensus_state_type_of(
            p.type_url@,
        ) == Some(AnyConsensusState::from_payload(p, height, mock_root)->Ok_0.kind()),
        consensus_state_type_of(p.type_url@) is None ==> AnyConsensusState::from_payload(
            p,
            height,
            mock_root,
        ) == Err::<AnyConsensusState, Error>(Error::UnknownConsensusStateType(p.type_url)),
{
    lemma_type_urls_distinct();
}

/// A dispatcher handed a client state or a header of another algorithm
/// refuses the update with `ClientArgsTypeMismatch` naming its own algorithm.
pub proof fn lemma_update_rejects_mismatch(c: AnyClient, cs: AnyClientState, h: AnyHeader)
    requires
        cs.kind() != c.kind() || h.kind() != c.kind(),
    ensures
        c.update(cs, h) == Err::<(AnyClientState, AnyConsensusState), Error>(
            Error::ClientArgsTypeMismatch(c.kind()),
        ),
{
}

/// A header that does not lie past the client's latest height is refused as
/// stale, whatever else holds of the client and the header, once both belong
/// to the dispatcher's algorithm.
pub proof fn lemma_stale_header_rejected(c: AnyClient, cs: AnyClientState, h: AnyHeader)
    requires
        cs.kind() == c.kind(),
        h.kind() == c.kind(),
        !cs.latest().before(h.target()),
    ensures
        c.update(cs, h) == Err::<(AnyClientState, AnyConsensusState), Error>(
            Error::LowHeaderHeight { header_height: h.target(), latest_height: cs.latest() },
        ),
{
}

/// An admitted header yields a consensus state trusted at the header's
/// height.
pub proof fn lemma_update_consensus_height(c: AnyClient, cs: AnyClientState, h: AnyHeader)
    ensures
        c.update(cs, h) is Ok ==> c.update(cs, h)->Ok_0.1.trusted_height() == h.target()
            && c.update(cs, h)->Ok_0.1.kind() == c.kind(),
{
}

/// A proof that does not open the expected consensus state under the root
/// fails with `ProofVerificationFailure` once the arguments belong to the
/// dispatcher's algorithm, whatever the expected state is, and whether or
/// not the client is frozen or trusts that height.
pub proof fn lemma_bad_consensus_proof_rejected(
    c: AnyClient,
    cs: AnyClientState,
    expected: AnyConsensusState,
    proof: CommitmentProof,
    height: Height,
    root: Seq<u8>,
    prefix: Seq<u8>,
    client_id: ClientId,
    consensus_height: Height,
)
    requires
        cs.kind() == c.kind(),
        expected.kind() == c.kind(),
        !proves(
            proof,
            height,
            root,
            prefix,
            Path::ClientConsensusState { client_id, height: consensus_height },
            expected.encoding(),
        ),
    ensures
        c.guarded(
            cs,
            Some(expected.kind()),
            stored_outcome(
                cs.frozen(),
                cs.latest(),
                proof,
                height,
                root,
                prefix,
                Path::ClientConsensusState { client_id, height: consensus_height },
                expected.encoding(),
            ),
        ) == Err::<(), Error>(Error::ProofVerificationFailure),
{
}

/// Every verification refuses a polymorphic argument of another algorithm
/// with `ClientArgsTypeMismatch` naming the dispatcher's own algorithm.
pub proof fn lemma_verify_rejects_mismatch(
    c: AnyClient,
    cs: AnyClientState,
    other: Option<ClientType>,
    checked: Result<(), Error>,
)
    requires
        cs.kind() != c.kind() || (other is Some && other->Some_0 != c.kind()),
    ensures
        c.guarded(cs, other, checked) == Err::<(), Error>(Error::ClientArgsTypeMismatch(c.kind())),
{
}

/// Admitting the same header into the same client state gives the same
/// outcome every time.
pub proof fn lemma_update_deterministic(
    c: AnyClient,
    cs1: AnyClientState,
    h1: AnyHeader,
    cs2: AnyClientState,
    h2: AnyHeader,
)
    requires
        cs1 == cs2,
        h1 == h2,
    ensures
        c.update(cs1, h1) == c.update(cs2, h2),
{
}

/// An admitted header moves the latest height strictly forward and keeps
/// the algorithm, the validity and the unfrozen state; a frozen client
/// admits no header.
pub proof fn lemma_update_advances(c: AnyClient, cs: AnyClientState, h: AnyHeader)
    ensures
        c.update(cs, h) is Ok ==> {
            let next = c.update(cs, h)->Ok_0.0;
            &&& cs.latest().before(next.latest())
            &&& next.latest() == h.target()
            &&& next.kind() == cs.kind()
            &&& !next.frozen()
            &&& cs.wf() ==> next.wf()
        },
        cs.frozen() ==> c.update(cs, h) is Err,
{
}

/// The client state after admitting `headers` one after the other, or the
/// first failure.
pub open spec fn apply_headers(c: AnyClient, cs: AnyClientState, headers: Seq<AnyHeader>) -> Result<
    AnyClientState,
    Error,
>
    decreases headers.len(),
{
    if headers.len() == 0 {
        Ok(cs)
    } else {
        match c.update(cs, headers[0]) {
            Ok((next, _)) => apply_headers(c, next, headers.drop_first()),
            Err(e) => Err(e),
        }
    }
}

/// Over any run of admitted headers the latest height never decreases; a
/// frozen client admits no header, so its state never changes again.
pub proof fn lemma_apply_headers_monotone(c: AnyClient, cs: AnyClientState, headers: Seq<AnyHeader>)
    ensures
        apply_headers(c, cs, headers) is Ok ==> cs.latest().not_after(
            apply_headers(c, cs, headers)->Ok_0.latest(),
        ),
        cs.frozen() && headers.len() > 0 ==> apply_headers(c, cs, headers) is Err,
        cs.frozen() && apply_headers(c, cs, headers) is Ok ==> apply_headers(c, cs, headers)->Ok_0
            == cs,
    decreases headers.len(),
{
    if headers.len() > 0 {
        lemma_update_advances(c, cs, headers[0]);
        match c.update(cs, headers[0]) {
            Ok((next, _)) => {
                lemma_apply_headers_monotone(c, next, headers.drop_first());
            },
            Err(_) => {},
        }
    }
}

/// The protobuf codec gives back the wire form of `cs` from its encoding.
pub open spec fn codec_inverts_client_state(cs: AnyClientState) -> bool {
    match cs {
        AnyClientState::Tendermint(s) => tm_client_state_decoding(
            tm_client_state_encoding(s.raw_of()),
        ) == Some(s.raw_of()),
        AnyClientState::Mock(s) => mock_client_state_decoding(mock_client_state_encoding(s.raw_of()))
            == Some(s.raw_of()),
    }
}

/// The protobuf codec gives back the wire form of `cs` from its encoding.
pub open spec fn codec_inverts_consensus_state(cs: AnyConsensusState) -> bool {
    match cs {
        AnyConsensusState::Tendermint(s) => tm_consensus_state_decoding(
            tm_consensus_state_encoding(s.raw_of()),
        ) == Some(s.raw_of()),
        AnyConsensusState::Mock(s) => mock_consensus_state_decoding(
            mock_consensus_state_encoding(s.raw_of()),
        ) == Some(s.raw_of()),
    }
}

/// A valid client state, encoded under its registered tag, decodes back to
/// itself wherever the protobuf codec gives back the wire form it encoded:
/// the wire form keeps every field and the validity rules accept it. The
/// mock wire form has no chain id, so a mock state comes back with the one
/// the decoder supplies.
pub proof fn lemma_client_state_round_trip(cs: AnyClientState, p: TypedPayload)
    requires
        cs.wf(),
        p.type_url@ == cs.type_url(),
        p.value@ == cs.encoding(),
        codec_inverts_client_state(cs),
    ensures
        AnyClientState::from_payload(
            p,
            match cs {
                AnyClientState::Mock(s) => s.chain_id,
                _ => arbitrary(),
            },
        ) == Ok::<AnyClientState, Error>(cs),
{
    lemma_type_urls_distinct();
}

/// A valid consensus state, encoded under its registered tag and decoded as
/// the state stored at its own height, decodes back to itself wherever the
/// protobuf codec gives back the wire form it encoded. The mock wire form has
/// no root, so a mock state comes back with the one the decoder supplies.
pub proof fn lemma_consensus_state_round_trip(cs: AnyConsensusState, p: TypedPayload)
    requires
        cs.wf(),
        p.type_url@ == cs.type_url(),
        p.value@ == cs.encoding(),
        codec_inverts_consensus_state(cs),
    ensures
        AnyConsensusState::from_payload(
            p,
            cs.trusted_height(),
            match cs {
                AnyConsensusState::Mock(s) => s.root,
                _ => arbitrary(),
            },
        ) == Ok::<AnyConsensusState, Error>(cs),
{
    lemma_type_urls_distinct();
}

} // verus!
