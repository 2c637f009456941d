use vstd::prelude::*;
use crate::commitment::{ClientId, CommitmentPrefix, ConnectionId};
use crate::proto::{connection_end_encoding, encode_connection_end, RawConnectionEnd};

verus! {

/// A version of the connection protocol, with the features it supports.
#[derive(Clone, Debug, PartialEq, Eq)]
pub struct ConnectionVersion {
    pub identifier: String,
    pub features: Vec<String>,
}

/// A connection record as the counterparty stores it.
#[derive(Clone, Debug, PartialEq, Eq)]
pub struct ConnectionEnd {
    pub client_id: ClientId,
    pub versions: Vec<ConnectionVersion>,
    /// The handshake state, as its protobuf enumeration value.
    pub state: i32,
    pub counterparty_client_id: ClientId,
    pub counterparty_connection_id: ConnectionId,
    pub counterparty_prefix: CommitmentPrefix,
    pub delay_period: u64,
}

impl ConnectionEnd {
    /// The wire form of the record.
    pub open spec fn raw_of(self) -> RawConnectionEnd {
        RawConnectionEnd {
            client_id: self.client_id.id,
            versions: self.versions,
            state: self.state,
            counterparty_client_id: self.counterparty_client_id.id,
            counterparty_connection_id: self.counterparty_connection_id.id,
            counterparty_prefix: self.counterparty_prefix.bytes,
            delay_period: self.delay_period,
        }
    }

    /// The record's protobuf encoding, the value a proof of it opens.
    pub fn encode_value(&self) -> (r: Vec<u8>)
        ensures
            r@ == connection_end_encoding(self.raw_of()),
    {
        encode_connection_end(self)
    }
}

} // verus!
