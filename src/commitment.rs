use vstd::prelude::*;
use crate::error::Error;
use crate::height::Height;

verus! {

/// The root of the counterparty's state tree at some height.
#[derive(Clone, Debug, PartialEq, Eq)]
pub struct CommitmentRoot {
    pub bytes: Vec<u8>,
}

/// The key prefix under which the counterparty stores protocol records.
#[derive(Clone, Debug, PartialEq, Eq)]
pub struct CommitmentPrefix {
    pub bytes: Vec<u8>,
}

/// Identifies a client on a chain.
#[derive(Clone, Debug, PartialEq, Eq)]
pub struct ClientId {
    pub id: String,
}

/// Identifies a connection on a chain.
#[derive(Clone, Debug, PartialEq, Eq)]
pub struct ConnectionId {
    pub id: String,
}

/// The record a proof speaks of, below the prefix.
#[derive(Clone, Debug, PartialEq, Eq)]
pub enum Path {
    ClientConsensusState { client_id: ClientId, height: Height },
    Connection { connection_id: ConnectionId },
    ClientState { client_id: ClientId },
}

/// A membership proof in opened form: it names the entry
/// `prefix / path -> value` of the state tree whose root is `root`, as
/// committed at `height`. Evaluating a Merkle proof is the commitment
/// verifier's work, outside this layer; this form stands in for its verdict,
/// so whoever builds a proof is trusted to have checked it against the tree.
#[derive(Clone, Debug, PartialEq, Eq)]
pub struct CommitmentProof {
    pub height: Height,
    pub root: Vec<u8>,
    pub prefix: Vec<u8>,
    pub path: Path,
    pub value: Vec<u8>,
}

/// Two paths name the same record.
pub open spec fn same_path(a: Path, b: Path) -> bool {
    match (a, b) {
        (
            Path::ClientConsensusState { client_id: c1, height: h1 },
            Path::ClientConsensusState { client_id: c2, height: h2 },
        ) => c1.id@ == c2.id@ && h1 == h2,
        (Path::Connection { connection_id: c1 }, Path::Connection { connection_id: c2 }) => c1.id@
            == c2.id@,
        (Path::ClientState { client_id: c1 }, Path::ClientState { client_id: c2 }) => c1.id@
            == c2.id@,
        _ => false,
    }
}

/// `proof` shows that, at `height`, the tree with root `root` maps
/// `prefix / path` to `value`.
pub open spec fn proves(
    proof: CommitmentProof,
    height: Height,
    root: Seq<u8>,
    prefix: Seq<u8>,
    path: Path,
    value: Seq<u8>,
) -> bool {
    &&& proof.height == height
    &&& proof.root@ == root
    &&& proof.prefix@ == prefix
    &&& same_path(proof.path, path)
    &&& proof.value@ == value
}

pub fn bytes_eq(a: &Vec<u8>, b: &Vec<u8>) -> (r: bool)
    ensures
        r == (a@ == b@),
{
    if a.len() != b.len() {
        return false;
    }
    let mut i: usize = 0;
    while i < a.len()
        invariant
            a.len() == b.len(),
            0 <= i <= a.len(),
            forall|j: int| 0 <= j < i ==> a@[j] == b@[j],
        decreases a.len() - i,
    {
        if a[i] != b[i] {
            return false;
        }
        i = i + 1;
    }
    assert(a@ =~= b@);
    true
}

pub fn path_eq(a: &Path, b: &Path) -> (r: bool)
    ensures
        r == same_path(*a, *b),
{
    match (a, b) {
        (
            Path::ClientConsensusState { client_id: c1, height: h1 },
            Path::ClientConsensusState { client_id: c2, height: h2 },
        ) => c1.id == c2.id && *h1 == *h2,
        (Path::Connection { connection_id: c1 }, Path::Connection { connection_id: c2 }) => c1.id
            == c2.id,
        (Path::ClientState { client_id: c1 }, Path::ClientState { client_id: c2 }) => c1.id
            == c2.id,
        _ => false,
    }
}

/// Checks a membership proof against a trusted root.
pub fn verify_membership(
    proof: &CommitmentProof,
    height: Height,
    root: &CommitmentRoot,
    prefix: &CommitmentPrefix,
    path: &Path,
    value: &Vec<u8>,
) -> (r: bool)
    ensures
        r == proves(*proof, height, root.bytes@, prefix.bytes@, *path, value@),
{
    proof.height == height && bytes_eq(&proof.root, &root.bytes) && bytes_eq(
        &proof.prefix,
        &prefix.bytes,
    ) && path_eq(&proof.path, path) && bytes_eq(&proof.value, value)
}

/// What checking a stored record against a client yields: a proof that does
/// not open the record under the root fails, whatever else holds; then a
/// frozen client verifies nothing, and a height past the latest trusted one
/// has no root.
pub open spec fn stored_outcome(
    frozen: bool,
    latest_height: Height,
    proof: CommitmentProof,
    height: Height,
    root: Seq<u8>,
    prefix: Seq<u8>,
    path: Path,
    value: Seq<u8>,
) -> Result<(), Error> {
    if !proves(proof, height, root, prefix, path, value) {
        Err(Error::ProofVerificationFailure)
    } else if frozen {
        Err(Error::ClientFrozen)
    } else if latest_height.before(height) {
        Err(Error::ConsensusStateNotFound(height))
    } else {
        Ok(())
    }
}

/// Checks that a client with the given latest height and frozen flag trusts
/// `root` at `height`, and that `proof` opens `prefix / path -> value` in it.
pub fn verify_stored(
    frozen: bool,
    latest_height: Height,
    proof: &CommitmentProof,
    height: Height,
    root: &CommitmentRoot,
    prefix: &CommitmentPrefix,
    path: &Path,
    value: &Vec<u8>,
) -> (r: Result<(), Error>)
    ensures
        r == stored_outcome(
            frozen,
            latest_height,
            *proof,
            height,
            root.bytes@,
            prefix.bytes@,
            *path,
            value@,
        ),
{
    if !verify_membership(proof, height, root, prefix, path, value) {
        Err(Error::ProofVerificationFailure)
    } else if frozen {
        Err(Error::ClientFrozen)
    } else if latest_height.is_before(&height) {
        Err(Error::ConsensusStateNotFound(height))
    } else {
        Ok(())
    }
}

} // verus!
