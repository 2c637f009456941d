use vstd::prelude::*;

verus! {

/// Identifies the trust algorithm a client follows.
#[derive(PartialEq, Eq, Structural, Clone, Copy, Debug)]
pub enum ClientType {
    /// A client that follows the counterparty's consensus.
    Tendermint,
    /// A lightweight client for tests.
    Mock,
}

} // verus!
