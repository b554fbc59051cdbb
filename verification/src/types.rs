//! Value types shared by the administrative protocol: identity keys,
//! content hashes, cell identities and capability secrets.

use vstd::prelude::*;

verus! {

/// Number of bytes in an agent identity public key.
pub const AGENT_PUB_KEY_BYTES: usize = 32;

/// Number of bytes in a blueprint content hash.
pub const DNA_HASH_BYTES: usize = 32;

/// Number of bytes in a capability secret.
pub const CAP_SECRET_BYTES: usize = 64;

/// An agent's identity: an asymmetric public key, held as its raw bytes.
#[derive(Debug, PartialEq, Eq)]
pub struct AgentPubKey {
    bytes: Vec<u8>,
}

impl AgentPubKey {
    /// Well-formed keys hold exactly the raw key bytes.
    pub open spec fn wf(&self) -> bool {
        self@.len() == AGENT_PUB_KEY_BYTES
    }

    /// The raw key bytes.
    pub closed spec fn view(&self) -> Seq<u8> {
        self.bytes@
    }

    /// Wraps the 32 raw bytes of a public key.
    pub fn from_raw_32(bytes: Vec<u8>) -> (r: Self)
        requires
            bytes@.len() == AGENT_PUB_KEY_BYTES,
        ensures
            r.wf(),
            r@ == bytes@,
    {
        AgentPubKey { bytes }
    }

    /// The raw key bytes, for callers that hand the key onward.
    pub fn as_bytes(&self) -> (r: &Vec<u8>)
        ensures
            r@ == self@,
    {
        &self.bytes
    }
}

impl Clone for AgentPubKey {
    fn clone(&self) -> (r: Self)
        ensures
            r@ == self@,
    {
        AgentPubKey { bytes: clone_bytes(&self.bytes) }
    }
}

/// A content hash identifying one deployed application blueprint.
#[derive(Debug, PartialEq, Eq)]
pub struct DnaHash {
    bytes: Vec<u8>,
}

impl DnaHash {
    /// Well-formed hashes hold exactly the raw hash bytes.
    pub open spec fn wf(&self) -> bool {
        self@.len() == DNA_HASH_BYTES
    }

    /// The raw hash bytes.
    pub closed spec fn view(&self) -> Seq<u8> {
        self.bytes@
    }

    /// Wraps the 32 raw bytes of a blueprint content hash.
    pub fn from_raw_32(bytes: Vec<u8>) -> (r: Self)
        requires
            bytes@.len() == DNA_HASH_BYTES,
        ensures
            r.wf(),
            r@ == bytes@,
    {
        DnaHash { bytes }
    }

    /// The raw hash bytes.
    pub fn as_bytes(&self) -> (r: &Vec<u8>)
        ensures
            r@ == self@,
    {
        &self.bytes
    }
}

impl Clone for DnaHash {
    fn clone(&self) -> (r: Self)
        ensures
            r@ == self@,
    {
        DnaHash { bytes: clone_bytes(&self.bytes) }
    }
}

/// Identifies one executable unit within an installed application: a
/// blueprint content hash paired with the agent the unit runs as.
#[derive(Debug, PartialEq, Eq)]
pub struct CellId {
    pub dna_hash: DnaHash,
    pub agent_pub_key: AgentPubKey,
}

/// The mathematical value of a cell identity: the raw bytes of its two
/// components.
pub ghost struct CellIdView {
    pub dna_hash: Seq<u8>,
    pub agent_pub_key: Seq<u8>,
}

impl View for CellId {
    type V = CellIdView;

    open spec fn view(&self) -> CellIdView {
        CellIdView { dna_hash: self.dna_hash@, agent_pub_key: self.agent_pub_key@ }
    }
}

impl CellId {
    /// Both components are well-formed.
    pub open spec fn wf(&self) -> bool {
        self.dna_hash.wf() && self.agent_pub_key.wf()
    }

    /// Pairs a blueprint hash with an agent key.
    pub fn new(dna_hash: DnaHash, agent_pub_key: AgentPubKey) -> (r: Self)
        ensures
            r.dna_hash == dna_hash,
            r.agent_pub_key == agent_pub_key,
    {
        CellId { dna_hash, agent_pub_key }
    }
}

impl Clone for CellId {
    fn clone(&self) -> (r: Self)
        ensures
            r@ == self@,
    {
        CellId { dna_hash: self.dna_hash.clone(), agent_pub_key: self.agent_pub_key.clone() }
    }
}

/// A random value a bearer must present to exercise a non-unrestricted
/// capability grant.
#[derive(Debug, PartialEq, Eq)]
pub struct CapSecret {
    bytes: Vec<u8>,
}

impl CapSecret {
    /// Well-formed secrets hold exactly the fixed number of secret bytes.
    pub open spec fn wf(&self) -> bool {
        self@.len() == CAP_SECRET_BYTES
    }

    /// The secret bytes.
    pub closed spec fn view(&self) -> Seq<u8> {
        self.bytes@
    }

    /// Wraps the fixed-length secret bytes.
    pub fn from_raw_64(bytes: Vec<u8>) -> (r: Self)
        requires
            bytes@.len() == CAP_SECRET_BYTES,
        ensures
            r.wf(),
            r@ == bytes@,
    {
        CapSecret { bytes }
    }

    /// The secret bytes.
    pub fn as_bytes(&self) -> (r: &Vec<u8>)
        ensures
            r@ == self@,
    {
        &self.bytes
    }
}

impl Clone for CapSecret {
    fn clone(&self) -> (r: Self)
        ensures
            r@ == self@,
    {
        CapSecret { bytes: clone_bytes(&self.bytes) }
    }
}

/// Copies a byte vector; the copy holds the same bytes.
fn clone_bytes(v: &Vec<u8>) -> (r: Vec<u8>)
    ensures
        r@ == v@,
{
    let r = v.clone();
    proof {
        assert(r@ =~= v@);
    }
    r
}

} // verus!
