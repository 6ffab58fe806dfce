//! Proof-carrying value types that cross the boundary: fixed-size
//! commitments, piece and replica descriptors, and the proof records
//! whose byte payloads live in the allocation table.

use crate::buffer::{copy_vec, Buf};
use crate::heap::Heap;
use crate::registry::{
    post_to_internal, cess_RegisteredPoStProof, RegisteredPoStProof,
};
use vstd::prelude::*;

verus! {

/// All 32 bytes of a commitment are zero.
pub open spec fn is_zeroed32(a: [u8; 32]) -> bool {
    forall|i: int| 0 <= i < 32 ==> a@[i] == 0u8
}

/// A 32-byte commitment, ticket or seed in its boundary layout.
#[derive(Debug, Clone, Copy)]
pub struct cess_32ByteArray {
    pub inner: [u8; 32],
}

impl Default for cess_32ByteArray {
    /// The all-zero array.
    fn default() -> (r: Self)
        ensures
            is_zeroed32(r.inner),
    {
        cess_32ByteArray { inner: [0u8; 32] }
    }
}

/// A byte count of unpadded (caller-visible) data, as the proving
/// engine counts it.
#[derive(Clone, Copy, Debug, PartialEq, Eq, Structural)]
pub struct UnpaddedBytesAmount(pub u64);

/// A piece of caller data as the proving engine describes it: its
/// commitment and its unpadded size.
#[derive(Clone, Copy, Debug)]
pub struct PieceInfo {
    pub commitment: [u8; 32],
    pub size: UnpaddedBytesAmount,
}

/// A piece of caller data in its boundary layout.
#[derive(Clone, Copy, Debug)]
pub struct cess_PublicPieceInfo {
    pub num_bytes: u64,
    pub comm_p: [u8; 32],
}

impl From<cess_PublicPieceInfo> for PieceInfo {
    fn from(x: cess_PublicPieceInfo) -> (r: Self) {
        let cess_PublicPieceInfo { num_bytes, comm_p } = x;
        PieceInfo { commitment: comm_p, size: UnpaddedBytesAmount(num_bytes) }
    }
}

impl vstd::std_specs::convert::FromSpecImpl<cess_PublicPieceInfo> for PieceInfo {
    open spec fn obeys_from_spec() -> bool {
        true
    }

    open spec fn from_spec(x: cess_PublicPieceInfo) -> Self {
        PieceInfo { commitment: x.comm_p, size: UnpaddedBytesAmount(x.num_bytes) }
    }
}

/// Everything the verifier side needs to know about one sector replica.
#[derive(Clone, Copy, Debug)]
pub struct cess_PublicReplicaInfo {
    pub registered_proof: cess_RegisteredPoStProof,
    pub comm_r: [u8; 32],
    pub sector_id: u64,
}

/// Everything the prover side needs to know about one sector replica.
/// The two path fields are boundary-owned C strings held in the
/// allocation table.
#[derive(Clone, Copy, Debug)]
pub struct cess_PrivateReplicaInfo {
    pub registered_proof: cess_RegisteredPoStProof,
    pub cache_dir_path: Buf,
    pub comm_r: [u8; 32],
    pub replica_path: Buf,
    pub sector_id: u64,
}

impl cess_PrivateReplicaInfo {
    /// Both path strings are live, and distinct allocations.
    pub open spec fn valid_in(self, h: Heap) -> bool {
        &&& self.cache_dir_path.valid_in(h)
        &&& self.replica_path.valid_in(h)
        &&& !self.cache_dir_path.is_null() && !self.replica_path.is_null()
            ==> self.cache_dir_path.ptr != self.replica_path.ptr
    }
}

/// A single unaggregated proof in its boundary layout.
#[derive(Clone, Copy, Debug)]
pub struct cess_VanillaProof {
    pub proof: Buf,
}

impl cess_VanillaProof {
    pub open spec fn valid_in(self, h: Heap) -> bool {
        self.proof.valid_in(h)
    }

    pub open spec fn owned_count(self) -> nat {
        self.proof.owned_count()
    }

    /// Deep copy: the result owns a fresh allocation with the same
    /// bytes, and the source stays valid and unchanged.
    pub fn duplicate(&self, h: &mut Heap) -> (r: Self)
        requires
            self.valid_in(*old(h)),
        ensures
            r.valid_in(*final(h)),
            r.proof.bytes_in(*final(h)) == self.proof.bytes_in(*old(h)),
            r.proof.len == self.proof.len,
            !r.proof.is_null() ==> !old(h).live(r.proof.ptr) && r.proof.ptr != self.proof.ptr,
            self.valid_in(*final(h)),
            self.proof.bytes_in(*final(h)) == self.proof.bytes_in(*old(h)),
            forall|q: usize| q != r.proof.ptr ==> final(h).live(q) == old(h).live(q),
            forall|q: usize|
                q != r.proof.ptr && old(h).live(q) ==> final(h).mem(q) == old(h).mem(q),
            final(h).live_count() == old(h).live_count() + r.owned_count(),
    {
        cess_VanillaProof { proof: Buf::duplicate(h, &self.proof) }
    }

    /// Release the proof bytes exactly once.
    pub fn destroy(self, h: &mut Heap)
        requires
            self.valid_in(*old(h)),
        ensures
            !self.proof.is_null() ==> !final(h).live(self.proof.ptr),
            forall|q: usize| q != self.proof.ptr ==> final(h).live(q) == old(h).live(q),
            forall|q: usize|
                q != self.proof.ptr && old(h).live(q) ==> final(h).mem(q) == old(h).mem(q),
            old(h).live_count() == final(h).live_count() + self.owned_count(),
            self.owned_count() == 0 ==> final(h)@ == old(h)@,
    {
        Buf::release(h, self.proof);
    }
}

/// A Proof-of-Spacetime proof as the proving engine hands it over.
#[derive(Clone, Debug)]
pub struct PoStProof {
    pub registered_proof: RegisteredPoStProof,
    pub proof: Vec<u8>,
}

/// A Proof-of-Spacetime proof in its boundary layout: the registry
/// variant it belongs to, and its serialized bytes.
#[derive(Clone, Copy, Debug)]
pub struct cess_PoStProof {
    pub registered_proof: cess_RegisteredPoStProof,
    pub proof: Buf,
}

impl cess_PoStProof {
    pub open spec fn valid_in(self, h: Heap) -> bool {
        self.proof.valid_in(h)
    }

    pub open spec fn owned_count(self) -> nat {
        self.proof.owned_count()
    }

    /// Deep copy: same registry variant, same bytes, fresh independent
    /// allocation.
    pub fn duplicate(&self, h: &mut Heap) -> (r: Self)
        requires
            self.valid_in(*old(h)),
        ensures
            r.valid_in(*final(h)),
            r.registered_proof == self.registered_proof,
            r.proof.bytes_in(*final(h)) == self.proof.bytes_in(*old(h)),
            r.proof.len == self.proof.len,
            !r.proof.is_null() ==> !old(h).live(r.proof.ptr) && r.proof.ptr != self.proof.ptr,
            self.valid_in(*final(h)),
            self.proof.bytes_in(*final(h)) == self.proof.bytes_in(*old(h)),
            forall|q: usize| q != r.proof.ptr ==> final(h).live(q) == old(h).live(q),
            forall|q: usize|
                q != r.proof.ptr && old(h).live(q) ==> final(h).mem(q) == old(h).mem(q),
            final(h).live_count() == old(h).live_count() + r.owned_count(),
    {
        cess_PoStProof {
            registered_proof: self.registered_proof,
            proof: Buf::duplicate(h, &self.proof),
        }
    }

    /// Release the proof bytes exactly once.
    pub fn destroy(self, h: &mut Heap)
        requires
            self.valid_in(*old(h)),
        ensures
            !self.proof.is_null() ==> !final(h).live(self.proof.ptr),
            forall|q: usize| q != self.proof.ptr ==> final(h).live(q) == old(h).live(q),
            forall|q: usize|
                q != self.proof.ptr && old(h).live(q) ==> final(h).mem(q) == old(h).mem(q),
            old(h).live_count() == final(h).live_count() + self.owned_count(),
            self.owned_count() == 0 ==> final(h)@ == old(h)@,
    {
        Buf::release(h, self.proof);
    }

    /// Convert back to the proving engine's representation, consuming
    /// the boundary record: the bytes are copied out and the boundary
    /// allocation is released.
    pub fn into_internal(self, h: &mut Heap) -> (r: PoStProof)
        requires
            self.valid_in(*old(h)),
        ensures
            r.registered_proof == post_to_internal(self.registered_proof),
            r.proof@ == self.proof.bytes_in(*old(h)),
            !self.proof.is_null() ==> !final(h).live(self.proof.ptr),
            forall|q: usize| q != self.proof.ptr ==> final(h).live(q) == old(h).live(q),
            forall|q: usize|
                q != self.proof.ptr && old(h).live(q) ==> final(h).mem(q) == old(h).mem(q),
            old(h).live_count() == final(h).live_count() + self.owned_count(),
    {
        let bytes = if self.proof.ptr != 0 {
            copy_vec(h.read(self.proof.ptr))
        } else {
            Vec::new()
        };
        let registered_proof = RegisteredPoStProof::from(self.registered_proof);
        Buf::release(h, self.proof);
        PoStProof { registered_proof, proof: bytes }
    }
}

/// A single partition's SNARK proof as the proving engine hands it
/// over.
#[derive(Clone, Debug)]
pub struct PartitionSnarkProof {
    pub registered_proof: RegisteredPoStProof,
    pub proof: Vec<u8>,
}

/// A single partition's SNARK proof in its boundary layout.
#[derive(Clone, Copy, Debug)]
pub struct cess_PartitionSnarkProof {
    pub registered_proof: cess_RegisteredPoStProof,
    pub proof: Buf,
}

impl cess_PartitionSnarkProof {
    pub open spec fn valid_in(self, h: Heap) -> bool {
        self.proof.valid_in(h)
    }

    pub open spec fn owned_count(self) -> nat {
        self.proof.owned_count()
    }

    /// Deep copy: same registry variant, same bytes, fresh independent
    /// allocation.
    pub fn duplicate(&self, h: &mut Heap) -> (r: Self)
        requires
            self.valid_in(*old(h)),
        ensures
            r.valid_in(*final(h)),
            r.registered_proof == self.registered_proof,
            r.proof.bytes_in(*final(h)) == self.proof.bytes_in(*old(h)),
            r.proof.len == self.proof.len,
            !r.proof.is_null() ==> !old(h).live(r.proof.ptr) && r.proof.ptr != self.proof.ptr,
            self.valid_in(*final(h)),
            self.proof.bytes_in(*final(h)) == self.proof.bytes_in(*old(h)),
            forall|q: usize| q != r.proof.ptr ==> final(h).live(q) == old(h).live(q),
            forall|q: usize|
                q != r.proof.ptr && old(h).live(q) ==> final(h).mem(q) == old(h).mem(q),
            final(h).live_count() == old(h).live_count() + r.owned_count(),
    {
        cess_PartitionSnarkProof {
            registered_proof: self.registered_proof,
            proof: Buf::duplicate(h, &self.proof),
        }
    }

    /// Release the proof bytes exactly once.
    pub fn destroy(self, h: &mut Heap)
        requires
            self.valid_in(*old(h)),
        ensures
            !self.proof.is_null() ==> !final(h).live(self.proof.ptr),
            forall|q: usize| q != self.proof.ptr ==> final(h).live(q) == old(h).live(q),
            forall|q: usize|
                q != self.proof.ptr && old(h).live(q) ==> final(h).mem(q) == old(h).mem(q),
            old(h).live_count() == final(h).live_count() + self.owned_count(),
            self.owned_count() == 0 ==> final(h)@ == old(h)@,
    {
        Buf::release(h, self.proof);
    }

    /// Convert back to the proving engine's representation, consuming
    /// the boundary record: the bytes are copied out and the boundary
    /// allocation is released.
    pub fn into_internal(self, h: &mut Heap) -> (r: PartitionSnarkProof)
        requires
            self.valid_in(*old(h)),
        ensures
            r.registered_proof == post_to_internal(self.registered_proof),
            r.proof@ == self.proof.bytes_in(*old(h)),
            !self.proof.is_null() ==> !final(h).live(self.proof.ptr),
            forall|q: usize| q != self.proof.ptr ==> final(h).live(q) == old(h).live(q),
            forall|q: usize|
                q != self.proof.ptr && old(h).live(q) ==> final(h).mem(q) == old(h).mem(q),
            old(h).live_count() == final(h).live_count() + self.owned_count(),
    {
        let bytes = if self.proof.ptr != 0 {
            copy_vec(h.read(self.proof.ptr))
        } else {
            Vec::new()
        };
        let registered_proof = RegisteredPoStProof::from(self.registered_proof);
        Buf::release(h, self.proof);
        PartitionSnarkProof { registered_proof, proof: bytes }
    }
}

/// The per-sector inputs of one proof inside an aggregated seal proof.
/// All fields are plain values; the record owns no allocation.
#[derive(Clone, Copy, Debug)]
pub struct cess_AggregationInputs {
    pub comm_r: cess_32ByteArray,
    pub comm_d: cess_32ByteArray,
    pub sector_id: u64,
    pub ticket: cess_32ByteArray,
    pub seed: cess_32ByteArray,
}

impl Default for cess_AggregationInputs {
    /// All commitments zero, sector id zero.
    fn default() -> (r: Self)
        ensures
            is_zeroed32(r.comm_r.inner),
            is_zeroed32(r.comm_d.inner),
            r.sector_id == 0,
            is_zeroed32(r.ticket.inner),
            is_zeroed32(r.seed.inner),
    {
        cess_AggregationInputs {
            comm_r: cess_32ByteArray::default(),
            comm_d: cess_32ByteArray::default(),
            sector_id: 0,
            ticket: cess_32ByteArray::default(),
            seed: cess_32ByteArray::default(),
        }
    }
}

/// The serialized output of the second seal-commit phase as the
/// proving engine represents it.
#[derive(Clone, Debug)]
pub struct SealCommitPhase2Output {
    pub proof: Vec<u8>,
}

} // verus!
