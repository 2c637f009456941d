use ibc_client::client_def::{
    AnyClient, AnyClientState, AnyConsensusState, AnyHeader, ClientDef, TypedPayload,
    MOCK_CLIENT_STATE_TYPE_URL, TENDERMINT_CLIENT_STATE_TYPE_URL,
    TENDERMINT_CONSENSUS_STATE_TYPE_URL,
};
use ibc_client::client_type::ClientType;
use ibc_client::commitment::{
    ClientId, CommitmentPrefix, CommitmentProof, CommitmentRoot, ConnectionId, Path,
};
use ibc_client::connection::{ConnectionEnd, ConnectionVersion};
use ibc_client::error::Error;
use ibc_client::height::Height;
use ibc_client::mock_client::{MockBlock, MockClientState, MockConsensusState, MockHeader};
use ibc_client::tendermint_client::{
    Duration, Fraction, TmClientState, TmConsensusState, TmHeader,
};

fn h(n: u64) -> Height {
    Height::new(0, n)
}

fn tm_state(latest: u64) -> TmClientState {
    TmClientState {
        chain_id: "chain-a".to_string(),
        trust_level: Fraction { numerator: 1, denominator: 3 },
        trusting_period: Duration { seconds: 1_209_600, nanos: 0 },
        latest_height: h(latest),
        frozen_height: None,
    }
}

fn tm_header(height: u64) -> TmHeader {
    TmHeader {
        chain_id: "chain-a".to_string(),
        height: h(height),
        timestamp: Duration { seconds: 1_600_000_000, nanos: 5 },
        root: CommitmentRoot { bytes: vec![0xab, 0xcd, height as u8] },
        validators_hash: vec![1, 2, 3],
        signers_hash: vec![1, 2, 3],
        next_validators_hash: vec![4, 5, 6],
    }
}

fn mock_state(latest: u64) -> MockClientState {
    MockClientState {
        chain_id: "mock-chain".to_string(),
        header: MockHeader { height: h(latest), timestamp: 7 },
        trusting_period: 100,
        frozen: false,
    }
}

fn tm_consensus() -> TmConsensusState {
    TmConsensusState {
        height: h(90),
        timestamp: Duration { seconds: 1_600_000_000, nanos: 9 },
        root: CommitmentRoot { bytes: vec![9, 9, 9] },
        next_validators_hash: vec![4, 5, 6],
    }
}

fn mock_block(height: u64, timestamp: u64) -> MockBlock {
    MockBlock {
        header: MockHeader { height: h(height), timestamp },
        root: CommitmentRoot { bytes: vec![0x5a, height as u8] },
    }
}

fn tm() -> AnyClient {
    AnyClient::from_client_type(ClientType::Tendermint)
}

fn mock() -> AnyClient {
    AnyClient::from_client_type(ClientType::Mock)
}

fn prefix() -> CommitmentPrefix {
    CommitmentPrefix { bytes: b"ibc".to_vec() }
}

fn client_id() -> ClientId {
    ClientId { id: "07-tendermint-0".to_string() }
}

fn consensus_proof(height: Height, root: &CommitmentRoot, value: Vec<u8>) -> CommitmentProof {
    CommitmentProof {
        height,
        root: root.bytes.clone(),
        prefix: prefix().bytes,
        path: Path::ClientConsensusState { client_id: client_id(), height: h(90) },
        value,
    }
}

#[test]
fn from_client_type_binds_algorithm() {
    assert_eq!(tm(), AnyClient::Tendermint(ibc_client::tendermint_client::TendermintClient));
    assert_eq!(mock().client_type(), ClientType::Mock);
    assert_eq!(tm().client_type(), ClientType::Tendermint);
}

#[test]
fn tendermint_header_advances_to_next_height() {
    let cs = AnyClientState::Tendermint(tm_state(100));
    let header = AnyHeader::Tendermint(tm_header(101));
    let (new_state, new_consensus) = tm().check_header_and_update_state(cs, header).unwrap();
    assert_eq!(new_state.latest_height(), h(101));
    assert!(!new_state.is_frozen());
    assert_eq!(new_state.chain_id(), "chain-a".to_string());
    match new_consensus {
        AnyConsensusState::Tendermint(ref c) => {
            assert_eq!(c.height, h(101));
            assert_eq!(c.root, CommitmentRoot { bytes: vec![0xab, 0xcd, 101] });
            assert_eq!(c.timestamp, Duration { seconds: 1_600_000_000, nanos: 5 });
            assert_eq!(c.next_validators_hash, vec![4, 5, 6]);
        }
        ref other => panic!("unexpected consensus state {:?}", other),
    }
    assert_eq!(new_consensus.height(), h(101));
    assert_eq!(new_consensus.root(), &CommitmentRoot { bytes: vec![0xab, 0xcd, 101] });
}

#[test]
fn stale_header_is_rejected_and_state_kept() {
    let cs = AnyClientState::Tendermint(tm_state(100));
    let kept = cs.clone();
    let r = tm().check_header_and_update_state(cs.clone(), AnyHeader::Tendermint(tm_header(50)));
    assert_eq!(
        r,
        Err(Error::LowHeaderHeight { header_height: h(50), latest_height: h(100) })
    );
    assert_eq!(cs, kept);
    let same = tm().check_header_and_update_state(cs, AnyHeader::Tendermint(tm_header(100)));
    assert!(matches!(same, Err(Error::LowHeaderHeight { .. })));
}

#[test]
fn header_for_other_chain_is_rejected() {
    let mut header = tm_header(101);
    header.chain_id = "chain-b".to_string();
    let r = tm().check_header_and_update_state(
        AnyClientState::Tendermint(tm_state(100)),
        AnyHeader::Tendermint(header),
    );
    assert_eq!(r, Err(Error::MismatchedChainId));
}

#[test]
fn header_signed_by_other_set_is_rejected() {
    let mut header = tm_header(101);
    header.signers_hash = vec![7, 7];
    let r = tm().check_header_and_update_state(
        AnyClientState::Tendermint(tm_state(100)),
        AnyHeader::Tendermint(header),
    );
    assert_eq!(r, Err(Error::InvalidValidatorSet));
    let mut empty = tm_header(101);
    empty.validators_hash = vec![];
    empty.signers_hash = vec![];
    let r = tm().check_header_and_update_state(
        AnyClientState::Tendermint(tm_state(100)),
        AnyHeader::Tendermint(empty),
    );
    assert_eq!(r, Err(Error::InvalidValidatorSet));
}

#[test]
fn update_is_deterministic() {
    let cs = AnyClientState::Tendermint(tm_state(100));
    let a = tm().check_header_and_update_state(cs.clone(), AnyHeader::Tendermint(tm_header(101)));
    let b = tm().check_header_and_update_state(cs.clone(), AnyHeader::Tendermint(tm_header(101)));
    assert_eq!(a, b);
    let c = tm().check_header_and_update_state(cs.clone(), AnyHeader::Tendermint(tm_header(3)));
    let d = tm().check_header_and_update_state(cs, AnyHeader::Tendermint(tm_header(3)));
    assert_eq!(c, d);
}

#[test]
fn heights_rise_and_frozen_is_terminal() {
    let mut cs = AnyClientState::Mock(mock_state(1));
    let mut last = cs.latest_height();
    for n in [2u64, 5, 9, 30] {
        let header = AnyHeader::Mock(mock_block(n, n));
        let (next, consensus) = mock().check_header_and_update_state(cs, header).unwrap();
        assert!(last.is_before(&next.latest_height()));
        assert_eq!(consensus.height(), h(n));
        last = next.latest_height();
        cs = next;
    }
    assert_eq!(last, h(30));
    let frozen = cs.freeze(h(31));
    assert!(frozen.is_frozen());
    assert_eq!(frozen.latest_height(), h(30));
    for n in [31u64, 40] {
        let header = AnyHeader::Mock(mock_block(n, n));
        let r = mock().check_header_and_update_state(frozen.clone(), header);
        assert_eq!(r, Err(Error::ClientFrozen));
    }
    let tm_frozen = AnyClientState::Tendermint(tm_state(100)).freeze(h(100));
    assert!(tm_frozen.is_frozen());
    let r = tm().check_header_and_update_state(tm_frozen, AnyHeader::Tendermint(tm_header(101)));
    assert_eq!(r, Err(Error::ClientFrozen));
}

#[test]
fn mismatched_arguments_are_refused() {
    let r = tm().check_header_and_update_state(
        AnyClientState::Mock(mock_state(1)),
        AnyHeader::Tendermint(tm_header(2)),
    );
    assert_eq!(r, Err(Error::ClientArgsTypeMismatch(ClientType::Tendermint)));
    let r = tm().check_header_and_update_state(
        AnyClientState::Tendermint(tm_state(1)),
        AnyHeader::Mock(mock_block(2, 0)),
    );
    assert_eq!(r, Err(Error::ClientArgsTypeMismatch(ClientType::Tendermint)));
    let r = mock().check_header_and_update_state(
        AnyClientState::Tendermint(tm_state(1)),
        AnyHeader::Mock(mock_block(2, 0)),
    );
    assert_eq!(r, Err(Error::ClientArgsTypeMismatch(ClientType::Mock)));

    let cs = AnyClientState::Mock(mock_state(100));
    let root = CommitmentRoot { bytes: vec![1] };
    let expected = AnyConsensusState::Tendermint(tm_consensus());
    let proof = consensus_proof(h(100), &root, expected.encode_value());
    let want = Err(Error::ClientArgsTypeMismatch(ClientType::Tendermint));
    assert_eq!(
        tm().verify_client_consensus_state(
            &cs, h(100), &root, &prefix(), &proof, &client_id(), h(90), &expected
        ),
        want
    );
    let conn = connection_end();
    assert_eq!(
        tm().verify_connection_state(
            &cs,
            h(100),
            &root,
            &prefix(),
            &proof,
            &ConnectionId { id: "connection-0".to_string() },
            &conn
        ),
        want
    );
    assert_eq!(
        tm().verify_client_full_state(&cs, h(100), &root, &prefix(), &client_id(), &proof, &cs),
        want
    );
}

fn connection_end() -> ConnectionEnd {
    ConnectionEnd {
        client_id: client_id(),
        versions: vec![ConnectionVersion {
            identifier: "1".to_string(),
            features: vec!["ORDER_ORDERED".to_string(), "ORDER_UNORDERED".to_string()],
        }],
        state: 3,
        counterparty_client_id: ClientId { id: "07-tendermint-9".to_string() },
        counterparty_connection_id: ConnectionId { id: "connection-4".to_string() },
        counterparty_prefix: CommitmentPrefix { bytes: b"ibc".to_vec() },
        delay_period: 0,
    }
}

#[test]
fn consensus_state_proof_checks() {
    let cs = AnyClientState::Tendermint(tm_state(100));
    let root = CommitmentRoot { bytes: vec![0x11, 0x22] };
    let expected = AnyConsensusState::Tendermint(tm_consensus());
    let good = consensus_proof(h(100), &root, expected.encode_value());
    assert_eq!(
        tm().verify_client_consensus_state(
            &cs, h(100), &root, &prefix(), &good, &client_id(), h(90), &expected
        ),
        Ok(())
    );
    let mut other_root = good.clone();
    other_root.root = vec![0x99];
    assert_eq!(
        tm().verify_client_consensus_state(
            &cs, h(100), &root, &prefix(), &other_root, &client_id(), h(90), &expected
        ),
        Err(Error::ProofVerificationFailure)
    );
    let mut other_value = good.clone();
    other_value.value = vec![1, 2, 3];
    assert_eq!(
        tm().verify_client_consensus_state(
            &cs, h(100), &root, &prefix(), &other_value, &client_id(), h(90), &expected
        ),
        Err(Error::ProofVerificationFailure)
    );
    let bad_expected = AnyConsensusState::Tendermint(TmConsensusState {
        timestamp: Duration { seconds: 1, nanos: -1 },
        ..tm_consensus()
    });
    assert_eq!(
        tm().verify_client_consensus_state(
            &cs, h(100), &root, &prefix(), &other_root, &client_id(), h(90), &bad_expected
        ),
        Err(Error::ProofVerificationFailure)
    );
}

#[test]
fn proof_past_latest_height_or_on_frozen_client_fails() {
    let cs = AnyClientState::Tendermint(tm_state(100));
    let root = CommitmentRoot { bytes: vec![0x11] };
    let expected = AnyConsensusState::Tendermint(tm_consensus());
    let proof = consensus_proof(h(101), &root, expected.encode_value());
    assert_eq!(
        tm().verify_client_consensus_state(
            &cs, h(101), &root, &prefix(), &proof, &client_id(), h(90), &expected
        ),
        Err(Error::ConsensusStateNotFound(h(101)))
    );
    let frozen = cs.freeze(h(100));
    let proof = consensus_proof(h(100), &root, expected.encode_value());
    assert_eq!(
        tm().verify_client_consensus_state(
            &frozen, h(100), &root, &prefix(), &proof, &client_id(), h(90), &expected
        ),
        Err(Error::ClientFrozen)
    );
}

#[test]
fn connection_and_client_state_proofs() {
    let cs = AnyClientState::Mock(mock_state(20));
    let root = CommitmentRoot { bytes: vec![5, 6] };
    let conn = connection_end();
    let conn_id = ConnectionId { id: "connection-0".to_string() };
    let conn_proof = CommitmentProof {
        height: h(20),
        root: root.bytes.clone(),
        prefix: prefix().bytes,
        path: Path::Connection { connection_id: conn_id.clone() },
        value: conn.encode_value(),
    };
    assert_eq!(
        mock().verify_connection_state(&cs, h(20), &root, &prefix(), &conn_proof, &conn_id, &conn),
        Ok(())
    );
    let mut changed = conn.clone();
    changed.state = 1;
    assert_eq!(
        mock().verify_connection_state(&cs, h(20), &root, &prefix(), &conn_proof, &conn_id, &changed),
        Err(Error::ProofVerificationFailure)
    );

    let on_counterparty = AnyClientState::Mock(mock_state(7));
    let full_proof = CommitmentProof {
        height: h(20),
        root: root.bytes.clone(),
        prefix: prefix().bytes,
        path: Path::ClientState { client_id: client_id() },
        value: on_counterparty.encode_value(),
    };
    assert_eq!(
        mock().verify_client_full_state(
            &cs, h(20), &root, &prefix(), &client_id(), &full_proof, &on_counterparty
        ),
        Ok(())
    );
    let other_id = ClientId { id: "07-tendermint-1".to_string() };
    assert_eq!(
        mock().verify_client_full_state(
            &cs, h(20), &root, &prefix(), &other_id, &full_proof, &on_counterparty
        ),
        Err(Error::ProofVerificationFailure)
    );
}

#[test]
fn decoded_state_has_the_tag_algorithm() {
    let p = AnyClientState::Tendermint(tm_state(12)).encode();
    assert_eq!(p.type_url, TENDERMINT_CLIENT_STATE_TYPE_URL);
    assert!(!p.value.is_empty());
    let decoded = AnyClientState::try_from(p).unwrap();
    assert_eq!(decoded.client_type(), ClientType::Tendermint);
    let p = AnyClientState::Mock(mock_state(3)).encode();
    assert_eq!(p.type_url, MOCK_CLIENT_STATE_TYPE_URL);
    assert_eq!(AnyClientState::try_from(p).unwrap().client_type(), ClientType::Mock);
    let p = AnyConsensusState::Tendermint(tm_consensus()).encode();
    assert_eq!(p.type_url, TENDERMINT_CONSENSUS_STATE_TYPE_URL);
    assert_eq!(AnyConsensusState::try_from(p, h(90)).unwrap().client_type(), ClientType::Tendermint);
}

#[test]
fn unknown_tags_are_refused() {
    let bytes = AnyClientState::Tendermint(tm_state(12)).encode_value();
    let p = TypedPayload { type_url: "/ibc.solomachine.ClientState".to_string(), value: bytes };
    assert_eq!(
        AnyClientState::try_from(p),
        Err(Error::UnknownClientStateType("/ibc.solomachine.ClientState".to_string()))
    );
    let p = TypedPayload { type_url: String::new(), value: vec![] };
    assert_eq!(
        AnyConsensusState::try_from(p, h(1)),
        Err(Error::UnknownConsensusStateType(String::new()))
    );
    // A client-state tag is no consensus-state tag.
    let p = AnyClientState::Tendermint(tm_state(12)).encode();
    assert_eq!(
        AnyConsensusState::try_from(p, h(12)),
        Err(Error::UnknownConsensusStateType(TENDERMINT_CLIENT_STATE_TYPE_URL.to_string()))
    );
}

#[test]
fn undecodable_bytes_are_refused() {
    let p = TypedPayload {
        type_url: TENDERMINT_CLIENT_STATE_TYPE_URL.to_string(),
        value: vec![0xff, 0xff, 0xff],
    };
    assert_eq!(AnyClientState::try_from(p), Err(Error::ProtoDecodingFailure));
    let p = TypedPayload {
        type_url: TENDERMINT_CONSENSUS_STATE_TYPE_URL.to_string(),
        value: vec![0x0a, 0x05, 0x01],
    };
    assert_eq!(AnyConsensusState::try_from(p, h(1)), Err(Error::ProtoDecodingFailure));
}

#[test]
fn invalid_decoded_states_are_refused() {
    let mut bad = tm_state(12);
    bad.trust_level = Fraction { numerator: 1, denominator: 4 };
    let p = AnyClientState::Tendermint(bad).encode();
    assert_eq!(AnyClientState::try_from(p), Err(Error::InvalidRawClientState));
    let mut bad = tm_state(12);
    bad.trusting_period = Duration { seconds: 0, nanos: 0 };
    let p = AnyClientState::Tendermint(bad).encode();
    assert_eq!(AnyClientState::try_from(p), Err(Error::InvalidRawClientState));
    // An empty message has no latest height.
    let p = TypedPayload { type_url: TENDERMINT_CLIENT_STATE_TYPE_URL.to_string(), value: vec![] };
    assert_eq!(AnyClientState::try_from(p), Err(Error::InvalidRawClientState));
    let p = TypedPayload { type_url: MOCK_CLIENT_STATE_TYPE_URL.to_string(), value: vec![] };
    assert_eq!(AnyClientState::try_from(p), Err(Error::InvalidRawClientState));

    let bad = TmConsensusState { timestamp: Duration { seconds: 5, nanos: -3 }, ..tm_consensus() };
    assert_eq!(
        AnyConsensusState::Tendermint(bad.clone()).validate_basic(),
        Err(Error::InvalidRawConsensusState)
    );
    let p = AnyConsensusState::Tendermint(bad).encode();
    assert_eq!(AnyConsensusState::try_from(p, h(90)), Err(Error::InvalidRawConsensusState));
}

#[test]
fn encoded_states_decode_to_themselves() {
    let states = vec![
        AnyClientState::Tendermint(tm_state(12)),
        AnyClientState::Tendermint(TmClientState {
            frozen_height: Some(Height::new(2, 8)),
            latest_height: Height::new(2, 9),
            ..tm_state(0)
        }),
        AnyClientState::Mock(MockClientState { chain_id: String::new(), ..mock_state(3) }),
        AnyClientState::Mock(MockClientState {
            chain_id: String::new(),
            frozen: true,
            ..mock_state(4)
        }),
    ];
    for s in states {
        assert_eq!(AnyClientState::try_from(s.encode()), Ok(s));
    }
    let consensus = vec![
        AnyConsensusState::Tendermint(tm_consensus()),
        AnyConsensusState::Mock(MockConsensusState {
            header: MockHeader { height: Height::new(1, 44), timestamp: 123 },
            root: CommitmentRoot { bytes: vec![] },
        }),
    ];
    for c in consensus {
        assert_eq!(c.validate_basic(), Ok(()));
        let at = c.height();
        assert_eq!(AnyConsensusState::try_from(c.encode(), at), Ok(c));
    }
}

#[test]
fn consensus_state_accessors_delegate() {
    let t = AnyConsensusState::Tendermint(tm_consensus());
    assert_eq!(t.client_type(), ClientType::Tendermint);
    assert_eq!(t.root(), &CommitmentRoot { bytes: vec![9, 9, 9] });
    assert_eq!(t.height(), h(90));
    let m = AnyConsensusState::Mock(MockConsensusState {
        header: MockHeader { height: h(6), timestamp: 1 },
        root: CommitmentRoot { bytes: vec![3, 3] },
    });
    assert_eq!(m.client_type(), ClientType::Mock);
    assert_eq!(m.root(), &CommitmentRoot { bytes: vec![3, 3] });
    assert_eq!(m.height(), h(6));
    let header = AnyHeader::Tendermint(tm_header(77));
    assert_eq!(header.client_type(), ClientType::Tendermint);
    assert_eq!(header.height(), h(77));
    assert_eq!(AnyClientState::Mock(mock_state(1)).chain_id(), "mock-chain".to_string());
}

#[test]
fn heights_order_by_revision_first() {
    assert!(Height::new(0, 100).is_before(&Height::new(1, 1)));
    assert!(Height::new(1, 1).is_before(&Height::new(1, 2)));
    assert!(!Height::new(1, 2).is_before(&Height::new(1, 2)));
    assert!(!Height::new(2, 0).is_before(&Height::new(1, 9)));
}

#[test]
fn decoded_consensus_state_takes_stored_height() {
    let p = AnyConsensusState::Tendermint(tm_consensus()).encode();
    let at_91 = AnyConsensusState::try_from(p, h(91)).unwrap();
    assert_eq!(at_91.height(), h(91));
    let mock_state = AnyConsensusState::Mock(MockConsensusState {
        header: MockHeader { height: h(6), timestamp: 1 },
        root: CommitmentRoot { bytes: vec![3, 3] },
    });
    assert_eq!(
        AnyConsensusState::try_from(mock_state.encode(), h(7)),
        Err(Error::InvalidRawConsensusState)
    );
}

#[test]
fn other_algorithm_arguments_are_refused_in_verification() {
    let cs = AnyClientState::Tendermint(tm_state(100));
    let root = CommitmentRoot { bytes: vec![1] };
    let mock_expected = AnyConsensusState::Mock(MockConsensusState {
        header: MockHeader { height: h(90), timestamp: 1 },
        root: CommitmentRoot { bytes: vec![3, 3] },
    });
    let proof = consensus_proof(h(100), &root, mock_expected.encode_value());
    let want = Err(Error::ClientArgsTypeMismatch(ClientType::Tendermint));
    assert_eq!(
        tm().verify_client_consensus_state(
            &cs, h(100), &root, &prefix(), &proof, &client_id(), h(90), &mock_expected
        ),
        want
    );
    let on_counterparty = AnyClientState::Mock(mock_state(3));
    let full_proof = CommitmentProof {
        height: h(100),
        root: root.bytes.clone(),
        prefix: prefix().bytes,
        path: Path::ClientState { client_id: client_id() },
        value: on_counterparty.encode_value(),
    };
    assert_eq!(
        tm().verify_client_full_state(
            &cs, h(100), &root, &prefix(), &client_id(), &full_proof, &on_counterparty
        ),
        want
    );
}

#[test]
fn stale_header_on_frozen_client_is_reported_stale() {
    let frozen = AnyClientState::Tendermint(tm_state(100)).freeze(h(100));
    let r = tm().check_header_and_update_state(frozen, AnyHeader::Tendermint(tm_header(50)));
    assert_eq!(
        r,
        Err(Error::LowHeaderHeight { header_height: h(50), latest_height: h(100) })
    );
}

#[test]
fn bad_proof_on_frozen_client_is_a_proof_failure() {
    let frozen = AnyClientState::Tendermint(tm_state(100)).freeze(h(100));
    let root = CommitmentRoot { bytes: vec![0x11] };
    let expected = AnyConsensusState::Tendermint(tm_consensus());
    let mut proof = consensus_proof(h(100), &root, expected.encode_value());
    proof.root = vec![0x12];
    assert_eq!(
        tm().verify_client_consensus_state(
            &frozen, h(100), &root, &prefix(), &proof, &client_id(), h(90), &expected
        ),
        Err(Error::ProofVerificationFailure)
    );
}

#[test]
fn freeze_keeps_every_other_field() {
    let s = tm_state(100);
    match AnyClientState::Tendermint(s.clone()).freeze(h(99)) {
        AnyClientState::Tendermint(f) => {
            assert_eq!(f, TmClientState { frozen_height: Some(h(99)), ..s });
        }
        other => panic!("unexpected client state {:?}", other),
    }
    let m = mock_state(4);
    assert_eq!(
        AnyClientState::Mock(m.clone()).freeze(h(4)),
        AnyClientState::Mock(MockClientState { frozen: true, ..m })
    );
}

#[test]
fn decoded_mock_states_have_no_chain_id_or_root() {
    let decoded = AnyClientState::try_from(AnyClientState::Mock(mock_state(5)).encode()).unwrap();
    assert_eq!(decoded.chain_id(), String::new());
    assert_eq!(decoded.latest_height(), h(5));
    let c = AnyConsensusState::Mock(MockConsensusState {
        header: MockHeader { height: h(5), timestamp: 2 },
        root: CommitmentRoot { bytes: vec![1] },
    });
    let decoded = AnyConsensusState::try_from(c.encode(), h(5)).unwrap();
    assert_eq!(decoded.root(), &CommitmentRoot { bytes: vec![] });
    assert_eq!(decoded.height(), h(5));
}

#[test]
fn mock_update_trusts_block_root() {
    let (next, consensus) = mock()
        .check_header_and_update_state(
            AnyClientState::Mock(mock_state(1)),
            AnyHeader::Mock(mock_block(2, 9)),
        )
        .unwrap();
    assert_eq!(next.chain_id(), "mock-chain".to_string());
    assert_eq!(consensus.root(), &CommitmentRoot { bytes: vec![0x5a, 2] });
    assert_eq!(consensus.height(), h(2));
}
