//! Response records whose payload carries proof buffers or lists of
//! proof sub-records, with deep release (and, for the seal-commit
//! output, deep duplication) defined recursively over the elements.

use crate::buffer::{copy_vec, Buf};
use crate::heap::Heap;
use crate::proofs::{
    cess_AggregationInputs, cess_PartitionSnarkProof, cess_PoStProof, cess_VanillaProof,
    SealCommitPhase2Output,
};
use crate::registry::cess_RegisteredPoStProof;
use crate::status::FCPResponseStatus;
use vstd::prelude::*;

verus! {

/// Every proof in the list is live, and no two of them share an
/// allocation.
pub open spec fn proofs_valid_in(ps: Seq<cess_PoStProof>, h: Heap) -> bool {
    &&& forall|i: int| 0 <= i < ps.len() ==> (#[trigger] ps[i]).valid_in(h)
    &&& forall|i: int, j: int|
        0 <= i < j < ps.len() && !ps[i].proof.is_null() ==> (#[trigger] ps[i].proof.ptr) != (
        #[trigger] ps[j].proof.ptr)
}

/// The allocation `q` backs one of the proofs in the list.
pub open spec fn proofs_ptr_owned(ps: Seq<cess_PoStProof>, q: usize) -> bool {
    exists|i: int| 0 <= i < ps.len() && !(#[trigger] ps[i]).proof.is_null() && ps[i].proof.ptr == q
}

/// How many allocations the list owns.
pub open spec fn proofs_owned_count(ps: Seq<cess_PoStProof>) -> nat
    decreases ps.len(),
{
    if ps.len() == 0 {
        0
    } else {
        proofs_owned_count(ps.drop_last()) + ps.last().owned_count()
    }
}

proof fn lemma_proofs_owned_count_zero(ps: Seq<cess_PoStProof>, i: int)
    requires
        proofs_owned_count(ps) == 0,
        0 <= i < ps.len(),
    ensures
        ps[i].proof.is_null(),
    decreases ps.len(),
{
    if i == ps.len() - 1 {
        assert(ps.last() == ps[i]);
    } else {
        assert(ps.drop_last()[i] == ps[i]);
        lemma_proofs_owned_count_zero(ps.drop_last(), i);
    }
}

proof fn lemma_proofs_owned_count_step(ps: Seq<cess_PoStProof>, i: int)
    requires
        0 <= i < ps.len(),
    ensures
        proofs_owned_count(ps.take(i + 1)) == proofs_owned_count(ps.take(i)) + ps[i].owned_count(),
{
    assert(ps.take(i + 1).drop_last() =~= ps.take(i));
    assert(ps.take(i + 1).last() == ps[i]);
}

/// Release every proof buffer in the list exactly once.  Allocations
/// not owned by the list keep their liveness and bytes; if the list
/// owns nothing, the table is untouched.
pub fn release_post_proofs(h: &mut Heap, ps: Vec<cess_PoStProof>)
    requires
        proofs_valid_in(ps@, *old(h)),
    ensures
        forall|q: usize| proofs_ptr_owned(ps@, q) ==> !final(h).live(q),
        forall|q: usize| !proofs_ptr_owned(ps@, q) ==> final(h).live(q) == old(h).live(q),
        forall|q: usize|
            !proofs_ptr_owned(ps@, q) && old(h).live(q) ==> final(h).mem(q) == old(h).mem(q),
        old(h).live_count() == final(h).live_count() + proofs_owned_count(ps@),
        proofs_owned_count(ps@) == 0 ==> final(h)@ == old(h)@,
{
    let ghost h0: Heap = *h;
    let mut i: usize = 0;
    while i < ps.len()
        invariant
            i <= ps@.len(),
            proofs_valid_in(ps@, h0),
            forall|j: int| i <= j < ps@.len() ==> (#[trigger] ps@[j]).valid_in(*h),
            forall|q: usize| proofs_ptr_owned(ps@.take(i as int), q) ==> !h.live(q),
            forall|q: usize| !proofs_ptr_owned(ps@, q) ==> h.live(q) == h0.live(q),
            forall|q: usize|
                !proofs_ptr_owned(ps@, q) && h0.live(q) ==> h.mem(q) == h0.mem(q),
            h0.live_count() == h.live_count() + proofs_owned_count(ps@.take(i as int)),
            proofs_owned_count(ps@) == 0 ==> h@ == h0@,
        decreases ps@.len() - i,
    {
        let e = ps[i];
        Buf::release(h, e.proof);
        proof {
            lemma_proofs_owned_count_step(ps@, i as int);
            if proofs_owned_count(ps@) == 0 {
                lemma_proofs_owned_count_zero(ps@, i as int);
            }
            // the released allocation is owned by the list
            if !e.proof.is_null() {
                assert(proofs_ptr_owned(ps@, e.proof.ptr));
            }
            // the prefix now includes index i
            assert forall|q: usize| proofs_ptr_owned(ps@.take(i as int + 1), q) implies !h.live(
                q,
            ) by {
                let k = choose|k: int|
                    0 <= k < ps@.take(i as int + 1).len() && !(#[trigger] ps@.take(
                        i as int + 1,
                    )[k]).proof.is_null() && ps@.take(i as int + 1)[k].proof.ptr == q;
                if k < i {
                    assert(proofs_ptr_owned(ps@.take(i as int), q));
                }
            }
            // the suffix stays valid: its buffers are distinct from the
            // one just released
            assert forall|j: int| i + 1 <= j < ps@.len() implies (#[trigger] ps@[j]).valid_in(
                *h,
            ) by {
                if !e.proof.is_null() && !ps@[j].proof.is_null() {
                    assert(ps@[i as int].proof.ptr != ps@[j].proof.ptr);
                }
            }
        }
        i = i + 1;
    }
    proof {
        assert(ps@.take(ps@.len() as int) =~= ps@);
    }
}

/// A single vanilla (unaggregated) proof produced for one sector.
pub struct cess_GenerateSingleVanillaProofResponse {
    pub error_msg: Buf,
    pub vanilla_proof: cess_VanillaProof,
    pub status_code: FCPResponseStatus,
}

impl cess_GenerateSingleVanillaProofResponse {
    /// Every payload field holds its zero/null default.
    pub open spec fn payload_cleared(self) -> bool {
        self.vanilla_proof.proof.is_null() && self.vanilla_proof.proof.len == 0
    }

    pub open spec fn valid_in(self, h: Heap) -> bool {
        &&& self.error_msg.valid_in(h)
        &&& self.vanilla_proof.valid_in(h)
        &&& !self.error_msg.is_null() && !self.vanilla_proof.proof.is_null()
            ==> self.error_msg.ptr != self.vanilla_proof.proof.ptr
    }

    pub open spec fn owned_count(self) -> nat {
        self.error_msg.owned_count() + self.vanilla_proof.owned_count()
    }

    pub open spec fn owns_ptr(self, q: usize) -> bool {
        ||| !self.error_msg.is_null() && q == self.error_msg.ptr
        ||| !self.vanilla_proof.proof.is_null() && q == self.vanilla_proof.proof.ptr
    }

    /// Record a failure: set the status and allocate the boundary-owned
    /// message.  The payload stays untouched, so a record that was
    /// cleared stays cleared.
    pub fn set_error(&mut self, h: &mut Heap, status: FCPResponseStatus, msg: &Vec<u8>)
        requires
            old(self).error_msg.is_null(),
            status != FCPResponseStatus::FCPNoError,
        ensures
            final(self).status_code == status,
            !final(self).error_msg.is_null(),
            final(self).error_msg.valid_in(*final(h)),
            final(self).error_msg.bytes_in(*final(h)) == msg@.push(0u8),
            !old(h).live(final(self).error_msg.ptr),
            final(self).vanilla_proof == old(self).vanilla_proof,
            old(self).payload_cleared() ==> final(self).payload_cleared(),
            forall|q: usize|
                q != final(self).error_msg.ptr ==> final(h).live(q) == old(h).live(q),
            forall|q: usize|
                q != final(self).error_msg.ptr && old(h).live(q) ==> final(h).mem(q) == old(
                    h,
                ).mem(q),
            final(h).live_count() == old(h).live_count() + 1,
    {
        self.status_code = status;
        self.error_msg = Buf::wrap_c_string(h, msg);
    }

    /// Release everything the record owns, exactly once.
    pub fn destroy(self, h: &mut Heap)
        requires
            self.valid_in(*old(h)),
        ensures
            forall|q: usize| self.owns_ptr(q) ==> !final(h).live(q),
            forall|q: usize| !self.owns_ptr(q) ==> final(h).live(q) == old(h).live(q),
            forall|q: usize|
                !self.owns_ptr(q) && old(h).live(q) ==> final(h).mem(q) == old(h).mem(q),
            old(h).live_count() == final(h).live_count() + self.owned_count(),
            self.owned_count() == 0 ==> final(h)@ == old(h)@,
    {
        Buf::release(h, self.error_msg);
        self.vanilla_proof.destroy(h);
    }
}

impl Default for cess_GenerateSingleVanillaProofResponse {
    /// No error, cleared payload, nothing owned.
    fn default() -> (r: Self)
        ensures
            r.status_code == FCPResponseStatus::FCPNoError,
            r.error_msg.is_null(),
            r.error_msg.len == 0,
            r.vanilla_proof.proof.is_null(),
            r.vanilla_proof.proof.len == 0,
            r.payload_cleared(),
            r.owned_count() == 0,
    {
        cess_GenerateSingleVanillaProofResponse {
            error_msg: Buf::null(),
            vanilla_proof: cess_VanillaProof { proof: Buf::null() },
            status_code: FCPResponseStatus::FCPNoError,
        }
    }
}

/// The proofs of a Winning Proof-of-Spacetime run.
pub struct cess_GenerateWinningPoStResponse {
    pub error_msg: Buf,
    pub proofs: Vec<cess_PoStProof>,
    pub status_code: FCPResponseStatus,
}

impl cess_GenerateWinningPoStResponse {
    /// Every payload field holds its zero/null default.
    pub open spec fn payload_cleared(self) -> bool {
        self.proofs@.len() == 0
    }

    pub open spec fn valid_in(self, h: Heap) -> bool {
        &&& self.error_msg.valid_in(h)
        &&& proofs_valid_in(self.proofs@, h)
        &&& !self.error_msg.is_null() ==> !proofs_ptr_owned(self.proofs@, self.error_msg.ptr)
    }

    pub open spec fn owned_count(self) -> nat {
        self.error_msg.owned_count() + proofs_owned_count(self.proofs@)
    }

    pub open spec fn owns_ptr(self, q: usize) -> bool {
        ||| !self.error_msg.is_null() && q == self.error_msg.ptr
        ||| proofs_ptr_owned(self.proofs@, q)
    }

    /// Record a failure: set the status and allocate the boundary-owned
    /// message.  The payload stays untouched, so a record that was
    /// cleared stays cleared.
    pub fn set_error(&mut self, h: &mut Heap, status: FCPResponseStatus, msg: &Vec<u8>)
        requires
            old(self).error_msg.is_null(),
            status != FCPResponseStatus::FCPNoError,
        ensures
            final(self).status_code == status,
            !final(self).error_msg.is_null(),
            final(self).error_msg.valid_in(*final(h)),
            final(self).error_msg.bytes_in(*final(h)) == msg@.push(0u8),
            !old(h).live(final(self).error_msg.ptr),
            final(self).proofs@ == old(self).proofs@,
            old(self).payload_cleared() ==> final(self).payload_cleared(),
            forall|q: usize|
                q != final(self).error_msg.ptr ==> final(h).live(q) == old(h).live(q),
            forall|q: usize|
                q != final(self).error_msg.ptr && old(h).live(q) ==> final(h).mem(q) == old(
                    h,
                ).mem(q),
            final(h).live_count() == old(h).live_count() + 1,
    {
        self.status_code = status;
        self.error_msg = Buf::wrap_c_string(h, msg);
    }

    /// Release everything the record owns - the error string and every
    /// proof buffer in the list - exactly once.
    pub fn destroy(self, h: &mut Heap)
        requires
            self.valid_in(*old(h)),
        ensures
            forall|q: usize| self.owns_ptr(q) ==> !final(h).live(q),
            forall|q: usize| !self.owns_ptr(q) ==> final(h).live(q) == old(h).live(q),
            forall|q: usize|
                !self.owns_ptr(q) && old(h).live(q) ==> final(h).mem(q) == old(h).mem(q),
            old(h).live_count() == final(h).live_count() + self.owned_count(),
            self.owned_count() == 0 ==> final(h)@ == old(h)@,
    {
        let cess_GenerateWinningPoStResponse { error_msg, proofs, .. } = self;
        Buf::release(h, error_msg);
        release_post_proofs(h, proofs);
    }
}

impl Default for cess_GenerateWinningPoStResponse {
    /// No error, cleared payload, nothing owned.
    fn default() -> (r: Self)
        ensures
            r.status_code == FCPResponseStatus::FCPNoError,
            r.error_msg.is_null(),
            r.error_msg.len == 0,
            r.proofs@.len() == 0,
            r.payload_cleared(),
            r.owned_count() == 0,
    {
        cess_GenerateWinningPoStResponse {
            error_msg: Buf::null(),
            proofs: Vec::new(),
            status_code: FCPResponseStatus::FCPNoError,
        }
    }
}

/// The proofs of a Window Proof-of-Spacetime run, with the sectors
/// found faulty.
pub struct cess_GenerateWindowPoStResponse {
    pub error_msg: Buf,
    pub proofs: Vec<cess_PoStProof>,
    pub faulty_sectors: Vec<u64>,
    pub status_code: FCPResponseStatus,
}

impl cess_GenerateWindowPoStResponse {
    /// Every payload field holds its zero/null default.
    pub open spec fn payload_cleared(self) -> bool {
        self.proofs@.len() == 0 && self.faulty_sectors@.len() == 0
    }

    pub open spec fn valid_in(self, h: Heap) -> bool {
        &&& self.error_msg.valid_in(h)
        &&& proofs_valid_in(self.proofs@, h)
        &&& !self.error_msg.is_null() ==> !proofs_ptr_owned(self.proofs@, self.error_msg.ptr)
    }

    pub open spec fn owned_count(self) -> nat {
        self.error_msg.owned_count() + proofs_owned_count(self.proofs@)
    }

    pub open spec fn owns_ptr(self, q: usize) -> bool {
        ||| !self.error_msg.is_null() && q == self.error_msg.ptr
        ||| proofs_ptr_owned(self.proofs@, q)
    }

    /// Record a failure: set the status and allocate the boundary-owned
    /// message.  The payload stays untouched, so a record that was
    /// cleared stays cleared.
    pub fn set_error(&mut self, h: &mut Heap, status: FCPResponseStatus, msg: &Vec<u8>)
        requires
            old(self).error_msg.is_null(),
            status != FCPResponseStatus::FCPNoError,
        ensures
            final(self).status_code == status,
            !final(self).error_msg.is_null(),
            final(self).error_msg.valid_in(*final(h)),
            final(self).error_msg.bytes_in(*final(h)) == msg@.push(0u8),
            !old(h).live(final(self).error_msg.ptr),
            final(self).proofs@ == old(self).proofs@,
            final(self).faulty_sectors@ == old(self).faulty_sectors@,
            old(self).payload_cleared() ==> final(self).payload_cleared(),
            forall|q: usize|
                q != final(self).error_msg.ptr ==> final(h).live(q) == old(h).live(q),
            forall|q: usize|
                q != final(self).error_msg.ptr && old(h).live(q) ==> final(h).mem(q) == old(
                    h,
                ).mem(q),
            final(h).live_count() == old(h).live_count() + 1,
    {
        self.status_code = status;
        self.error_msg = Buf::wrap_c_string(h, msg);
    }

    /// Release everything the record owns - the error string and every
    /// proof buffer in the list - exactly once.  The faulty-sector ids
    /// are plain values and own no boundary allocation.
    pub fn destroy(self, h: &mut Heap)
        requires
            self.valid_in(*old(h)),
        ensures
            forall|q: usize| self.owns_ptr(q) ==> !final(h).live(q),
            forall|q: usize| !self.owns_ptr(q) ==> final(h).live(q) == old(h).live(q),
            forall|q: usize|
                !self.owns_ptr(q) && old(h).live(q) ==> final(h).mem(q) == old(h).mem(q),
            old(h).live_count() == final(h).live_count() + self.owned_count(),
            self.owned_count() == 0 ==> final(h)@ == old(h)@,
    {
        let cess_GenerateWindowPoStResponse { error_msg, proofs, .. } = self;
        Buf::release(h, error_msg);
        release_post_proofs(h, proofs);
    }
}

impl Default for cess_GenerateWindowPoStResponse {
    /// No error, cleared payload, nothing owned.
    fn default() -> (r: Self)
        ensures
            r.status_code == FCPResponseStatus::FCPNoError,
            r.error_msg.is_null(),
            r.error_msg.len == 0,
            r.proofs@.len() == 0,
            r.faulty_sectors@.len() == 0,
            r.payload_cleared(),
            r.owned_count() == 0,
    {
        cess_GenerateWindowPoStResponse {
            error_msg: Buf::null(),
            proofs: Vec::new(),
            faulty_sectors: Vec::new(),
            status_code: FCPResponseStatus::FCPNoError,
        }
    }
}

/// One partition's Window Proof-of-Spacetime proof built from vanilla
/// proofs, with the sectors found faulty.
pub struct cess_GenerateSingleWindowPoStWithVanillaResponse {
    pub error_msg: Buf,
    pub partition_proof: cess_PartitionSnarkProof,
    pub faulty_sectors: Vec<u64>,
    pub status_code: FCPResponseStatus,
}

impl cess_GenerateSingleWindowPoStWithVanillaResponse {
    /// Every payload field holds its zero/null default.
    pub open spec fn payload_cleared(self) -> bool {
        &&& self.partition_proof.proof.is_null()
        &&& self.partition_proof.proof.len == 0
        &&& self.partition_proof.registered_proof
            == cess_RegisteredPoStProof::StackedDrgWinning2KiBV1
        &&& self.faulty_sectors@.len() == 0
    }

    pub open spec fn valid_in(self, h: Heap) -> bool {
        &&& self.error_msg.valid_in(h)
        &&& self.partition_proof.valid_in(h)
        &&& !self.error_msg.is_null() && !self.partition_proof.proof.is_null()
            ==> self.error_msg.ptr != self.partition_proof.proof.ptr
    }

    pub open spec fn owned_count(self) -> nat {
        self.error_msg.owned_count() + self.partition_proof.owned_count()
    }

    pub open spec fn owns_ptr(self, q: usize) -> bool {
        ||| !self.error_msg.is_null() && q == self.error_msg.ptr
        ||| !self.partition_proof.proof.is_null() && q == self.partition_proof.proof.ptr
    }

    /// Record a failure: set the status and allocate the boundary-owned
    /// message.  The payload stays untouched, so a record that was
    /// cleared stays cleared.
    pub fn set_error(&mut self, h: &mut Heap, status: FCPResponseStatus, msg: &Vec<u8>)
        requires
            old(self).error_msg.is_null(),
            status != FCPResponseStatus::FCPNoError,
        ensures
            final(self).status_code == status,
            !final(self).error_msg.is_null(),
            final(self).error_msg.valid_in(*final(h)),
            final(self).error_msg.bytes_in(*final(h)) == msg@.push(0u8),
            !old(h).live(final(self).error_msg.ptr),
            final(self).partition_proof == old(self).partition_proof,
            final(self).faulty_sectors@ == old(self).faulty_sectors@,
            old(self).payload_cleared() ==> final(self).payload_cleared(),
            forall|q: usize|
                q != final(self).error_msg.ptr ==> final(h).live(q) == old(h).live(q),
            forall|q: usize|
                q != final(self).error_msg.ptr && old(h).live(q) ==> final(h).mem(q) == old(
                    h,
                ).mem(q),
            final(h).live_count() == old(h).live_count() + 1,
    {
        self.status_code = status;
        self.error_msg = Buf::wrap_c_string(h, msg);
    }

    /// Release everything the record owns, exactly once.
    pub fn destroy(self, h: &mut Heap)
        requires
            self.valid_in(*old(h)),
        ensures
            forall|q: usize| self.owns_ptr(q) ==> !final(h).live(q),
            forall|q: usize| !self.owns_ptr(q) ==> final(h).live(q) == old(h).live(q),
            forall|q: usize|
                !self.owns_ptr(q) && old(h).live(q) ==> final(h).mem(q) == old(h).mem(q),
            old(h).live_count() == final(h).live_count() + self.owned_count(),
            self.owned_count() == 0 ==> final(h)@ == old(h)@,
    {
        Buf::release(h, self.error_msg);
        self.partition_proof.destroy(h);
    }
}

impl Default for cess_GenerateSingleWindowPoStWithVanillaResponse {
    /// No error, cleared payload, nothing owned.
    fn default() -> (r: Self)
        ensures
            r.status_code == FCPResponseStatus::FCPNoError,
            r.error_msg.is_null(),
            r.error_msg.len == 0,
            r.partition_proof.proof.is_null(),
            r.partition_proof.proof.len == 0,
            r.partition_proof.registered_proof
                == cess_RegisteredPoStProof::StackedDrgWinning2KiBV1,
            r.faulty_sectors@.len() == 0,
            r.payload_cleared(),
            r.owned_count() == 0,
    {
        cess_GenerateSingleWindowPoStWithVanillaResponse {
            error_msg: Buf::null(),
            partition_proof: cess_PartitionSnarkProof {
                registered_proof: cess_RegisteredPoStProof::StackedDrgWinning2KiBV1,
                proof: Buf::null(),
            },
            faulty_sectors: Vec::new(),
            status_code: FCPResponseStatus::FCPNoError,
        }
    }
}

/// A single Window Proof-of-Spacetime proof merged from partition
/// proofs.
pub struct cess_MergeWindowPoStPartitionProofsResponse {
    pub error_msg: Buf,
    pub proof: cess_PoStProof,
    pub status_code: FCPResponseStatus,
}

impl cess_MergeWindowPoStPartitionProofsResponse {
    /// Every payload field holds its zero/null default.
    pub open spec fn payload_cleared(self) -> bool {
        &&& self.proof.proof.is_null()
        &&& self.proof.proof.len == 0
        &&& self.proof.registered_proof == cess_RegisteredPoStProof::StackedDrgWinning2KiBV1
    }

    pub open spec fn valid_in(self, h: Heap) -> bool {
        &&& self.error_msg.valid_in(h)
        &&& self.proof.valid_in(h)
        &&& !self.error_msg.is_null() && !self.proof.proof.is_null() ==> self.error_msg.ptr
            != self.proof.proof.ptr
    }

    pub open spec fn owned_count(self) -> nat {
        self.error_msg.owned_count() + self.proof.owned_count()
    }

    pub open spec fn owns_ptr(self, q: usize) -> bool {
        ||| !self.error_msg.is_null() && q == self.error_msg.ptr
        ||| !self.proof.proof.is_null() && q == self.proof.proof.ptr
    }

    /// Record a failure: set the status and allocate the boundary-owned
    /// message.  The payload stays untouched, so a record that was
    /// cleared stays cleared.
    pub fn set_error(&mut self, h: &mut Heap, status: FCPResponseStatus, msg: &Vec<u8>)
        requires
            old(self).error_msg.is_null(),
            status != FCPResponseStatus::FCPNoError,
        ensures
            final(self).status_code == status,
            !final(self).error_msg.is_null(),
            final(self).error_msg.valid_in(*final(h)),
            final(self).error_msg.bytes_in(*final(h)) == msg@.push(0u8),
            !old(h).live(final(self).error_msg.ptr),
            final(self).proof == old(self).proof,
            old(self).payload_cleared() ==> final(self).payload_cleared(),
            forall|q: usize|
                q != final(self).error_msg.ptr ==> final(h).live(q) == old(h).live(q),
            forall|q: usize|
                q != final(self).error_msg.ptr && old(h).live(q) ==> final(h).mem(q) == old(
                    h,
                ).mem(q),
            final(h).live_count() == old(h).live_count() + 1,
    {
        self.status_code = status;
        self.error_msg = Buf::wrap_c_string(h, msg);
    }

    /// Release everything the record owns, exactly once.
    pub fn destroy(self, h: &mut Heap)
        requires
            self.valid_in(*old(h)),
        ensures
            forall|q: usize| self.owns_ptr(q) ==> !final(h).live(q),
            forall|q: usize| !self.owns_ptr(q) ==> final(h).live(q) == old(h).live(q),
            forall|q: usize|
                !self.owns_ptr(q) && old(h).live(q) ==> final(h).mem(q) == old(h).mem(q),
            old(h).live_count() == final(h).live_count() + self.owned_count(),
            self.owned_count() == 0 ==> final(h)@ == old(h)@,
    {
        Buf::release(h, self.error_msg);
        self.proof.destroy(h);
    }
}

impl Default for cess_MergeWindowPoStPartitionProofsResponse {
    /// No error, cleared payload, nothing owned.
    fn default() -> (r: Self)
        ensures
            r.status_code == FCPResponseStatus::FCPNoError,
            r.error_msg.is_null(),
            r.error_msg.len == 0,
            r.proof.proof.is_null(),
            r.proof.proof.len == 0,
            r.proof.registered_proof == cess_RegisteredPoStProof::StackedDrgWinning2KiBV1,
            r.payload_cleared(),
            r.owned_count() == 0,
    {
        cess_MergeWindowPoStPartitionProofsResponse {
            error_msg: Buf::null(),
            proof: cess_PoStProof {
                registered_proof: cess_RegisteredPoStProof::StackedDrgWinning2KiBV1,
                proof: Buf::null(),
            },
            status_code: FCPResponseStatus::FCPNoError,
        }
    }
}

/// Output of the second seal-commit phase: the serialized proof and the
/// per-sector aggregation inputs it was built from.
pub struct cess_SealCommitPhase2Response {
    pub status_code: FCPResponseStatus,
    pub error_msg: Buf,
    pub proof: Buf,
    pub commit_inputs: Vec<cess_AggregationInputs>,
}

impl cess_SealCommitPhase2Response {
    /// Every payload field holds its zero/null default.
    pub open spec fn payload_cleared(self) -> bool {
        &&& self.proof.is_null()
        &&& self.proof.len == 0
        &&& self.commit_inputs@.len() == 0
    }

    pub open spec fn valid_in(self, h: Heap) -> bool {
        &&& self.error_msg.valid_in(h)
        &&& self.proof.valid_in(h)
        &&& !self.error_msg.is_null() && !self.proof.is_null() ==> self.error_msg.ptr
            != self.proof.ptr
    }

    pub open spec fn owned_count(self) -> nat {
        self.error_msg.owned_count() + self.proof.owned_count()
    }

    pub open spec fn owns_ptr(self, q: usize) -> bool {
        ||| !self.error_msg.is_null() && q == self.error_msg.ptr
        ||| !self.proof.is_null() && q == self.proof.ptr
    }

    /// Record a failure: set the status and allocate the boundary-owned
    /// message.  The payload stays untouched, so a record that was
    /// cleared stays cleared.
    pub fn set_error(&mut self, h: &mut Heap, status: FCPResponseStatus, msg: &Vec<u8>)
        requires
            old(self).error_msg.is_null(),
            status != FCPResponseStatus::FCPNoError,
        ensures
            final(self).status_code == status,
            !final(self).error_msg.is_null(),
            final(self).error_msg.valid_in(*final(h)),
            final(self).error_msg.bytes_in(*final(h)) == msg@.push(0u8),
            !old(h).live(final(self).error_msg.ptr),
            final(self).proof == old(self).proof,
            final(self).commit_inputs@ == old(self).commit_inputs@,
            old(self).payload_cleared() ==> final(self).payload_cleared(),
            forall|q: usize|
                q != final(self).error_msg.ptr ==> final(h).live(q) == old(h).live(q),
            forall|q: usize|
                q != final(self).error_msg.ptr && old(h).live(q) ==> final(h).mem(q) == old(
                    h,
                ).mem(q),
            final(h).live_count() == old(h).live_count() + 1,
    {
        self.status_code = status;
        self.error_msg = Buf::wrap_c_string(h, msg);
    }

    /// Deep duplicate: the proof bytes and the error string each get a
    /// fresh, independently owned allocation with identical content,
    /// and the aggregation inputs (plain values) are copied into a new
    /// list of identical length.  The source stays valid and untouched.
    pub fn duplicate(&self, h: &mut Heap) -> (r: Self)
        requires
            self.valid_in(*old(h)),
        ensures
            r.status_code == self.status_code,
            r.error_msg.is_null() == self.error_msg.is_null(),
            r.error_msg.len == self.error_msg.len,
            r.error_msg.bytes_in(*final(h)) == self.error_msg.bytes_in(*old(h)),
            r.proof.is_null() == self.proof.is_null(),
            r.proof.len == self.proof.len,
            r.proof.bytes_in(*final(h)) == self.proof.bytes_in(*old(h)),
            r.commit_inputs@ == self.commit_inputs@,
            r.valid_in(*final(h)),
            !r.error_msg.is_null() ==> !old(h).live(r.error_msg.ptr),
            !r.proof.is_null() ==> !old(h).live(r.proof.ptr),
            self.valid_in(*final(h)),
            self.error_msg.bytes_in(*final(h)) == self.error_msg.bytes_in(*old(h)),
            self.proof.bytes_in(*final(h)) == self.proof.bytes_in(*old(h)),
            forall|q: usize|
                q != r.error_msg.ptr && q != r.proof.ptr ==> final(h).live(q) == old(h).live(q),
            forall|q: usize|
                q != r.error_msg.ptr && q != r.proof.ptr && old(h).live(q) ==> final(h).mem(q)
                    == old(h).mem(q),
            final(h).live_count() == old(h).live_count() + r.owned_count(),
    {
        let error_msg = Buf::duplicate(h, &self.error_msg);
        let proof = Buf::duplicate(h, &self.proof);
        let commit_inputs = copy_vec(&self.commit_inputs);
        cess_SealCommitPhase2Response {
            status_code: self.status_code,
            error_msg,
            proof,
            commit_inputs,
        }
    }

    /// Convert to the proving engine's representation of the phase
    /// output, copying the proof bytes out of the boundary allocation.
    pub fn to_internal(&self, h: &Heap) -> (r: SealCommitPhase2Output)
        requires
            self.proof.valid_in(*h),
        ensures
            r.proof@ == self.proof.bytes_in(*h),
    {
        let proof = if self.proof.ptr != 0 {
            copy_vec(h.read(self.proof.ptr))
        } else {
            Vec::new()
        };
        SealCommitPhase2Output { proof }
    }

    /// Release everything the record owns, exactly once.  The
    /// aggregation inputs are plain values and own no boundary
    /// allocation.
    pub fn destroy(self, h: &mut Heap)
        requires
            self.valid_in(*old(h)),
        ensures
            forall|q: usize| self.owns_ptr(q) ==> !final(h).live(q),
            forall|q: usize| !self.owns_ptr(q) ==> final(h).live(q) == old(h).live(q),
            forall|q: usize|
                !self.owns_ptr(q) && old(h).live(q) ==> final(h).mem(q) == old(h).mem(q),
            old(h).live_count() == final(h).live_count() + self.owned_count(),
            self.owned_count() == 0 ==> final(h)@ == old(h)@,
    {
        Buf::release(h, self.error_msg);
        Buf::release(h, self.proof);
    }
}

impl Default for cess_SealCommitPhase2Response {
    /// No error, cleared payload, nothing owned.
    fn default() -> (r: Self)
        ensures
            r.status_code == FCPResponseStatus::FCPNoError,
            r.error_msg.is_null(),
            r.error_msg.len == 0,
            r.proof.is_null(),
            r.proof.len == 0,
            r.commit_inputs@.len() == 0,
            r.payload_cleared(),
            r.owned_count() == 0,
    {
        cess_SealCommitPhase2Response {
            status_code: FCPResponseStatus::FCPNoError,
            error_msg: Buf::null(),
            proof: Buf::null(),
            commit_inputs: Vec::new(),
        }
    }
}


/// Destroying a freshly default-constructed record is safe and a
/// no-op, shown on the richest record: the allocation table is exactly
/// what it was.
pub fn default_window_post_destroy_is_noop(h: &mut Heap)
    ensures
        final(h)@ == old(h)@,
        final(h).live_count() == old(h).live_count(),
{
    let r = cess_GenerateWindowPoStResponse::default();
    r.destroy(h);
}
} // verus!
