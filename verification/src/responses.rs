//! Response records with scalar, fixed-array or single-buffer payloads.
//!
//! Every record couples a status code and an optional boundary-owned
//! error string with the payload of one operation family.  The uniform
//! contract: a default-constructed record has status `FCPNoError`, a
//! null error string and a cleared payload; recording a failure sets a
//! non-`FCPNoError` status and allocates the message while leaving the
//! payload untouched; and the record's destroy operation releases every
//! allocation it owns exactly once and touches nothing else.

use crate::buffer::Buf;
use crate::heap::Heap;
use crate::proofs::is_zeroed32;
use crate::registry::cess_RegisteredSealProof;
use crate::status::FCPResponseStatus;
use vstd::prelude::*;

verus! {

/// Status-only record of an unseal-range operation.
pub struct cess_UnsealRangeResponse {
    pub status_code: FCPResponseStatus,
    pub error_msg: Buf,
}

impl cess_UnsealRangeResponse {
    /// This record has no payload.
    pub open spec fn payload_cleared(self) -> bool {
        true
    }

    pub open spec fn valid_in(self, h: Heap) -> bool {
        self.error_msg.valid_in(h)
    }

    pub open spec fn owned_count(self) -> nat {
        self.error_msg.owned_count()
    }

    pub open spec fn owns_ptr(self, q: usize) -> bool {
        !self.error_msg.is_null() && q == self.error_msg.ptr
    }

    /// Record a failure: set the status and allocate the boundary-owned
    /// message.  The payload stays untouched, so a record that was
    /// cleared stays cleared.
    pub fn set_error(&mut self, h: &mut Heap, status: FCPResponseStatus, msg: &Vec<u8>)
        requires
            old(self).error_msg.is_null(),
            status != FCPResponseStatus::FCPNoError,
        ensures
            final(self).status_code == status,
            !final(self).error_msg.is_null(),
            final(self).error_msg.valid_in(*final(h)),
            final(self).error_msg.bytes_in(*final(h)) == msg@.push(0u8),
            !old(h).live(final(self).error_msg.ptr),
            old(self).payload_cleared() ==> final(self).payload_cleared(),
            forall|q: usize|
                q != final(self).error_msg.ptr ==> final(h).live(q) == old(h).live(q),
            forall|q: usize|
                q != final(self).error_msg.ptr && old(h).live(q) ==> final(h).mem(q) == old(
                    h,
                ).mem(q),
            final(h).live_count() == old(h).live_count() + 1,
    {
        self.status_code = status;
        self.error_msg = Buf::wrap_c_string(h, msg);
    }

    /// Release everything the record owns, exactly once.
    pub fn destroy(self, h: &mut Heap)
        requires
            self.valid_in(*old(h)),
        ensures
            forall|q: usize| self.owns_ptr(q) ==> !final(h).live(q),
            forall|q: usize| !self.owns_ptr(q) ==> final(h).live(q) == old(h).live(q),
            forall|q: usize|
                !self.owns_ptr(q) && old(h).live(q) ==> final(h).mem(q) == old(h).mem(q),
            old(h).live_count() == final(h).live_count() + self.owned_count(),
            self.owned_count() == 0 ==> final(h)@ == old(h)@,
    {
        Buf::release(h, self.error_msg);
    }
}

impl Default for cess_UnsealRangeResponse {
    /// No error, nothing owned.
    fn default() -> (r: Self)
        ensures
            r.status_code == FCPResponseStatus::FCPNoError,
            r.error_msg.is_null(),
            r.error_msg.len == 0,
            r.payload_cleared(),
            r.owned_count() == 0,
    {
        cess_UnsealRangeResponse {
            status_code: FCPResponseStatus::FCPNoError,
            error_msg: Buf::null(),
        }
    }
}

/// Status-only record of a cache-clearing operation.
pub struct cess_ClearCacheResponse {
    pub error_msg: Buf,
    pub status_code: FCPResponseStatus,
}

impl cess_ClearCacheResponse {
    /// This record has no payload.
    pub open spec fn payload_cleared(self) -> bool {
        true
    }

    pub open spec fn valid_in(self, h: Heap) -> bool {
        self.error_msg.valid_in(h)
    }

    pub open spec fn owned_count(self) -> nat {
        self.error_msg.owned_count()
    }

    pub open spec fn owns_ptr(self, q: usize) -> bool {
        !self.error_msg.is_null() && q == self.error_msg.ptr
    }

    /// Record a failure: set the status and allocate the boundary-owned
    /// message.  The payload stays untouched, so a record that was
    /// cleared stays cleared.
    pub fn set_error(&mut self, h: &mut Heap, status: FCPResponseStatus, msg: &Vec<u8>)
        requires
            old(self).error_msg.is_null(),
            status != FCPResponseStatus::FCPNoError,
        ensures
            final(self).status_code == status,
            !final(self).error_msg.is_null(),
            final(self).error_msg.valid_in(*final(h)),
            final(self).error_msg.bytes_in(*final(h)) == msg@.push(0u8),
            !old(h).live(final(self).error_msg.ptr),
            old(self).payload_cleared() ==> final(self).payload_cleared(),
            forall|q: usize|
                q != final(self).error_msg.ptr ==> final(h).live(q) == old(h).live(q),
            forall|q: usize|
                q != final(self).error_msg.ptr && old(h).live(q) ==> final(h).mem(q) == old(
                    h,
                ).mem(q),
            final(h).live_count() == old(h).live_count() + 1,
    {
        self.status_code = status;
        self.error_msg = Buf::wrap_c_string(h, msg);
    }

    /// Release everything the record owns, exactly once.
    pub fn destroy(self, h: &mut Heap)
        requires
            self.valid_in(*old(h)),
        ensures
            forall|q: usize| self.owns_ptr(q) ==> !final(h).live(q),
            forall|q: usize| !self.owns_ptr(q) ==> final(h).live(q) == old(h).live(q),
            forall|q: usize|
                !self.owns_ptr(q) && old(h).live(q) ==> final(h).mem(q) == old(h).mem(q),
            old(h).live_count() == final(h).live_count() + self.owned_count(),
            self.owned_count() == 0 ==> final(h)@ == old(h)@,
    {
        Buf::release(h, self.error_msg);
    }
}

impl Default for cess_ClearCacheResponse {
    /// No error, nothing owned.
    fn default() -> (r: Self)
        ensures
            r.status_code == FCPResponseStatus::FCPNoError,
            r.error_msg.is_null(),
            r.error_msg.len == 0,
            r.payload_cleared(),
            r.owned_count() == 0,
    {
        cess_ClearCacheResponse {
            error_msg: Buf::null(),
            status_code: FCPResponseStatus::FCPNoError,
        }
    }
}

/// Verdict of a seal proof verification.
pub struct cess_VerifySealResponse {
    pub status_code: FCPResponseStatus,
    pub error_msg: Buf,
    pub is_valid: bool,
}

impl cess_VerifySealResponse {
    /// The verdict holds its zero default.
    pub open spec fn payload_cleared(self) -> bool {
        self.is_valid == false
    }

    pub open spec fn valid_in(self, h: Heap) -> bool {
        self.error_msg.valid_in(h)
    }

    pub open spec fn owned_count(self) -> nat {
        self.error_msg.owned_count()
    }

    pub open spec fn owns_ptr(self, q: usize) -> bool {
        !self.error_msg.is_null() && q == self.error_msg.ptr
    }

    /// Record a failure: set the status and allocate the boundary-owned
    /// message.  The payload stays untouched, so a record that was
    /// cleared stays cleared.
    pub fn set_error(&mut self, h: &mut Heap, status: FCPResponseStatus, msg: &Vec<u8>)
        requires
            old(self).error_msg.is_null(),
            status != FCPResponseStatus::FCPNoError,
        ensures
            final(self).status_code == status,
            !final(self).error_msg.is_null(),
            final(self).error_msg.valid_in(*final(h)),
            final(self).error_msg.bytes_in(*final(h)) == msg@.push(0u8),
            !old(h).live(final(self).error_msg.ptr),
            final(self).is_valid == old(self).is_valid,
            old(self).payload_cleared() ==> final(self).payload_cleared(),
            forall|q: usize|
                q != final(self).error_msg.ptr ==> final(h).live(q) == old(h).live(q),
            forall|q: usize|
                q != final(self).error_msg.ptr && old(h).live(q) ==> final(h).mem(q) == old(
                    h,
                ).mem(q),
            final(h).live_count() == old(h).live_count() + 1,
    {
        self.status_code = status;
        self.error_msg = Buf::wrap_c_string(h, msg);
    }

    /// Release everything the record owns, exactly once.
    pub fn destroy(self, h: &mut Heap)
        requires
            self.valid_in(*old(h)),
        ensures
            forall|q: usize| self.owns_ptr(q) ==> !final(h).live(q),
            forall|q: usize| !self.owns_ptr(q) ==> final(h).live(q) == old(h).live(q),
            forall|q: usize|
                !self.owns_ptr(q) && old(h).live(q) ==> final(h).mem(q) == old(h).mem(q),
            old(h).live_count() == final(h).live_count() + self.owned_count(),
            self.owned_count() == 0 ==> final(h)@ == old(h)@,
    {
        Buf::release(h, self.error_msg);
    }
}

impl Default for cess_VerifySealResponse {
    /// No error, verdict false, nothing owned.
    fn default() -> (r: Self)
        ensures
            r.status_code == FCPResponseStatus::FCPNoError,
            r.error_msg.is_null(),
            r.error_msg.len == 0,
            r.is_valid == false,
            r.payload_cleared(),
            r.owned_count() == 0,
    {
        cess_VerifySealResponse {
            status_code: FCPResponseStatus::FCPNoError,
            error_msg: Buf::null(),
            is_valid: false,
        }
    }
}

/// Verdict of an aggregate seal proof verification.
pub struct cess_VerifyAggregateSealProofResponse {
    pub status_code: FCPResponseStatus,
    pub error_msg: Buf,
    pub is_valid: bool,
}

impl cess_VerifyAggregateSealProofResponse {
    /// Every payload field holds its zero/null default.
    pub open spec fn payload_cleared(self) -> bool {
        self.is_valid == false
    }

    pub open spec fn valid_in(self, h: Heap) -> bool {
        self.error_msg.valid_in(h)
    }

    pub open spec fn owned_count(self) -> nat {
        self.error_msg.owned_count()
    }

    pub open spec fn owns_ptr(self, q: usize) -> bool {
        !self.error_msg.is_null() && q == self.error_msg.ptr
    }

    /// Record a failure: set the status and allocate the boundary-owned
    /// message.  The payload stays untouched, so a record that was
    /// cleared stays cleared.
    pub fn set_error(&mut self, h: &mut Heap, status: FCPResponseStatus, msg: &Vec<u8>)
        requires
            old(self).error_msg.is_null(),
            status != FCPResponseStatus::FCPNoError,
        ensures
            final(self).status_code == status,
            !final(self).error_msg.is_null(),
            final(self).error_msg.valid_in(*final(h)),
            final(self).error_msg.bytes_in(*final(h)) == msg@.push(0u8),
            !old(h).live(final(self).error_msg.ptr),
            final(self).is_valid == old(self).is_valid,
            old(self).payload_cleared() ==> final(self).payload_cleared(),
            forall|q: usize|
                q != final(self).error_msg.ptr ==> final(h).live(q) == old(h).live(q),
            forall|q: usize|
                q != final(self).error_msg.ptr && old(h).live(q) ==> final(h).mem(q) == old(
                    h,
                ).mem(q),
            final(h).live_count() == old(h).live_count() + 1,
    {
        self.status_code = status;
        self.error_msg = Buf::wrap_c_string(h, msg);
    }

    /// Release everything the record owns, exactly once.
    pub fn destroy(self, h: &mut Heap)
        requires
            self.valid_in(*old(h)),
        ensures
            forall|q: usize| self.owns_ptr(q) ==> !final(h).live(q),
            forall|q: usize| !self.owns_ptr(q) ==> final(h).live(q) == old(h).live(q),
            forall|q: usize|
                !self.owns_ptr(q) && old(h).live(q) ==> final(h).mem(q) == old(h).mem(q),
            old(h).live_count() == final(h).live_count() + self.owned_count(),
            self.owned_count() == 0 ==> final(h)@ == old(h)@,
    {
        Buf::release(h, self.error_msg);
    }
}

impl Default for cess_VerifyAggregateSealProofResponse {
    /// No error, cleared payload, nothing owned.
    fn default() -> (r: Self)
        ensures
            r.status_code == FCPResponseStatus::FCPNoError,
            r.error_msg.is_null(),
            r.error_msg.len == 0,
            r.is_valid == false,
            r.payload_cleared(),
            r.owned_count() == 0,
    {
        cess_VerifyAggregateSealProofResponse {
            status_code: FCPResponseStatus::FCPNoError,
            error_msg: Buf::null(),
            is_valid: false,
        }
    }
}

/// Verdict of a Winning Proof-of-Spacetime verification.
pub struct cess_VerifyWinningPoStResponse {
    pub status_code: FCPResponseStatus,
    pub error_msg: Buf,
    pub is_valid: bool,
}

impl cess_VerifyWinningPoStResponse {
    /// Every payload field holds its zero/null default.
    pub open spec fn payload_cleared(self) -> bool {
        self.is_valid == false
    }

    pub open spec fn valid_in(self, h: Heap) -> bool {
        self.error_msg.valid_in(h)
    }

    pub open spec fn owned_count(self) -> nat {
        self.error_msg.owned_count()
    }

    pub open spec fn owns_ptr(self, q: usize) -> bool {
        !self.error_msg.is_null() && q == self.error_msg.ptr
    }

    /// Record a failure: set the status and allocate the boundary-owned
    /// message.  The payload stays untouched, so a record that was
    /// cleared stays cleared.
    pub fn set_error(&mut self, h: &mut Heap, status: FCPResponseStatus, msg: &Vec<u8>)
        requires
            old(self).error_msg.is_null(),
            status != FCPResponseStatus::FCPNoError,
        ensures
            final(self).status_code == status,
            !final(self).error_msg.is_null(),
            final(self).error_msg.valid_in(*final(h)),
            final(self).error_msg.bytes_in(*final(h)) == msg@.push(0u8),
            !old(h).live(final(self).error_msg.ptr),
            final(self).is_valid == old(self).is_valid,
            old(self).payload_cleared() ==> final(self).payload_cleared(),
            forall|q: usize|
                q != final(self).error_msg.ptr ==> final(h).live(q) == old(h).live(q),
            forall|q: usize|
                q != final(self).error_msg.ptr && old(h).live(q) ==> final(h).mem(q) == old(
                    h,
                ).mem(q),
            final(h).live_count() == old(h).live_count() + 1,
    {
        self.status_code = status;
        self.error_msg = Buf::wrap_c_string(h, msg);
    }

    /// Release everything the record owns, exactly once.
    pub fn destroy(self, h: &mut Heap)
        requires
            self.valid_in(*old(h)),
        ensures
            forall|q: usize| self.owns_ptr(q) ==> !final(h).live(q),
            forall|q: usize| !self.owns_ptr(q) ==> final(h).live(q) == old(h).live(q),
            forall|q: usize|
                !self.owns_ptr(q) && old(h).live(q) ==> final(h).mem(q) == old(h).mem(q),
            old(h).live_count() == final(h).live_count() + self.owned_count(),
            self.owned_count() == 0 ==> final(h)@ == old(h)@,
    {
        Buf::release(h, self.error_msg);
    }
}

impl Default for cess_VerifyWinningPoStResponse {
    /// No error, cleared payload, nothing owned.
    fn default() -> (r: Self)
        ensures
            r.status_code == FCPResponseStatus::FCPNoError,
            r.error_msg.is_null(),
            r.error_msg.len == 0,
            r.is_valid == false,
            r.payload_cleared(),
            r.owned_count() == 0,
    {
        cess_VerifyWinningPoStResponse {
            status_code: FCPResponseStatus::FCPNoError,
            error_msg: Buf::null(),
            is_valid: false,
        }
    }
}

/// Verdict of a Window Proof-of-Spacetime verification.
pub struct cess_VerifyWindowPoStResponse {
    pub status_code: FCPResponseStatus,
    pub error_msg: Buf,
    pub is_valid: bool,
}

impl cess_VerifyWindowPoStResponse {
    /// Every payload field holds its zero/null default.
    pub open spec fn payload_cleared(self) -> bool {
        self.is_valid == false
    }

    pub open spec fn valid_in(self, h: Heap) -> bool {
        self.error_msg.valid_in(h)
    }

    pub open spec fn owned_count(self) -> nat {
        self.error_msg.owned_count()
    }

    pub open spec fn owns_ptr(self, q: usize) -> bool {
        !self.error_msg.is_null() && q == self.error_msg.ptr
    }

    /// Record a failure: set the status and allocate the boundary-owned
    /// message.  The payload stays untouched, so a record that was
    /// cleared stays cleared.
    pub fn set_error(&mut self, h: &mut Heap, status: FCPResponseStatus, msg: &Vec<u8>)
        requires
            old(self).error_msg.is_null(),
            status != FCPResponseStatus::FCPNoError,
        ensures
            final(self).status_code == status,
            !final(self).error_msg.is_null(),
            final(self).error_msg.valid_in(*final(h)),
            final(self).error_msg.bytes_in(*final(h)) == msg@.push(0u8),
            !old(h).live(final(self).error_msg.ptr),
            final(self).is_valid == old(self).is_valid,
            old(self).payload_cleared() ==> final(self).payload_cleared(),
            forall|q: usize|
                q != final(self).error_msg.ptr ==> final(h).live(q) == old(h).live(q),
            forall|q: usize|
                q != final(self).error_msg.ptr && old(h).live(q) ==> final(h).mem(q) == old(
                    h,
                ).mem(q),
            final(h).live_count() == old(h).live_count() + 1,
    {
        self.status_code = status;
        self.error_msg = Buf::wrap_c_string(h, msg);
    }

    /// Release everything the record owns, exactly once.
    pub fn destroy(self, h: &mut Heap)
        requires
            self.valid_in(*old(h)),
        ensures
            forall|q: usize| self.owns_ptr(q) ==> !final(h).live(q),
            forall|q: usize| !self.owns_ptr(q) ==> final(h).live(q) == old(h).live(q),
            forall|q: usize|
                !self.owns_ptr(q) && old(h).live(q) ==> final(h).mem(q) == old(h).mem(q),
            old(h).live_count() == final(h).live_count() + self.owned_count(),
            self.owned_count() == 0 ==> final(h)@ == old(h)@,
    {
        Buf::release(h, self.error_msg);
    }
}

impl Default for cess_VerifyWindowPoStResponse {
    /// No error, cleared payload, nothing owned.
    fn default() -> (r: Self)
        ensures
            r.status_code == FCPResponseStatus::FCPNoError,
            r.error_msg.is_null(),
            r.error_msg.len == 0,
            r.is_valid == false,
            r.payload_cleared(),
            r.owned_count() == 0,
    {
        cess_VerifyWindowPoStResponse {
            status_code: FCPResponseStatus::FCPNoError,
            error_msg: Buf::null(),
            is_valid: false,
        }
    }
}

/// Commitment produced by a faux replication.
pub struct cess_FauxRepResponse {
    pub error_msg: Buf,
    pub status_code: FCPResponseStatus,
    pub commitment: [u8; 32],
}

impl cess_FauxRepResponse {
    /// Every payload field holds its zero/null default.
    pub open spec fn payload_cleared(self) -> bool {
        is_zeroed32(self.commitment)
    }

    pub open spec fn valid_in(self, h: Heap) -> bool {
        self.error_msg.valid_in(h)
    }

    pub open spec fn owned_count(self) -> nat {
        self.error_msg.owned_count()
    }

    pub open spec fn owns_ptr(self, q: usize) -> bool {
        !self.error_msg.is_null() && q == self.error_msg.ptr
    }

    /// Record a failure: set the status and allocate the boundary-owned
    /// message.  The payload stays untouched, so a record that was
    /// cleared stays cleared.
    pub fn set_error(&mut self, h: &mut Heap, status: FCPResponseStatus, msg: &Vec<u8>)
        requires
            old(self).error_msg.is_null(),
            status != FCPResponseStatus::FCPNoError,
        ensures
            final(self).status_code == status,
            !final(self).error_msg.is_null(),
            final(self).error_msg.valid_in(*final(h)),
            final(self).error_msg.bytes_in(*final(h)) == msg@.push(0u8),
            !old(h).live(final(self).error_msg.ptr),
            final(self).commitment == old(self).commitment,
            old(self).payload_cleared() ==> final(self).payload_cleared(),
            forall|q: usize|
                q != final(self).error_msg.ptr ==> final(h).live(q) == old(h).live(q),
            forall|q: usize|
                q != final(self).error_msg.ptr && old(h).live(q) ==> final(h).mem(q) == old(
                    h,
                ).mem(q),
            final(h).live_count() == old(h).live_count() + 1,
    {
        self.status_code = status;
        self.error_msg = Buf::wrap_c_string(h, msg);
    }

    /// Release everything the record owns, exactly once.
    pub fn destroy(self, h: &mut Heap)
        requires
            self.valid_in(*old(h)),
        ensures
            forall|q: usize| self.owns_ptr(q) ==> !final(h).live(q),
            forall|q: usize| !self.owns_ptr(q) ==> final(h).live(q) == old(h).live(q),
            forall|q: usize|
                !self.owns_ptr(q) && old(h).live(q) ==> final(h).mem(q) == old(h).mem(q),
            old(h).live_count() == final(h).live_count() + self.owned_count(),
            self.owned_count() == 0 ==> final(h)@ == old(h)@,
    {
        Buf::release(h, self.error_msg);
    }
}

impl Default for cess_FauxRepResponse {
    /// No error, cleared payload, nothing owned.
    fn default() -> (r: Self)
        ensures
            r.status_code == FCPResponseStatus::FCPNoError,
            r.error_msg.is_null(),
            r.error_msg.len == 0,
            is_zeroed32(r.commitment),
            r.payload_cleared(),
            r.owned_count() == 0,
    {
        cess_FauxRepResponse {
            error_msg: Buf::null(),
            status_code: FCPResponseStatus::FCPNoError,
            commitment: [0u8; 32],
        }
    }
}

/// A finalized randomness ticket.
pub struct cess_FinalizeTicketResponse {
    pub status_code: FCPResponseStatus,
    pub error_msg: Buf,
    pub ticket: [u8; 32],
}

impl cess_FinalizeTicketResponse {
    /// Every payload field holds its zero/null default.
    pub open spec fn payload_cleared(self) -> bool {
        is_zeroed32(self.ticket)
    }

    pub open spec fn valid_in(self, h: Heap) -> bool {
        self.error_msg.valid_in(h)
    }

    pub open spec fn owned_count(self) -> nat {
        self.error_msg.owned_count()
    }

    pub open spec fn owns_ptr(self, q: usize) -> bool {
        !self.error_msg.is_null() && q == self.error_msg.ptr
    }

    /// Record a failure: set the status and allocate the boundary-owned
    /// message.  The payload stays untouched, so a record that was
    /// cleared stays cleared.
    pub fn set_error(&mut self, h: &mut Heap, status: FCPResponseStatus, msg: &Vec<u8>)
        requires
            old(self).error_msg.is_null(),
            status != FCPResponseStatus::FCPNoError,
        ensures
            final(self).status_code == status,
            !final(self).error_msg.is_null(),
            final(self).error_msg.valid_in(*final(h)),
            final(self).error_msg.bytes_in(*final(h)) == msg@.push(0u8),
            !old(h).live(final(self).error_msg.ptr),
            final(self).ticket == old(self).ticket,
            old(self).payload_cleared() ==> final(self).payload_cleared(),
            forall|q: usize|
                q != final(self).error_msg.ptr ==> final(h).live(q) == old(h).live(q),
            forall|q: usize|
                q != final(self).error_msg.ptr && old(h).live(q) ==> final(h).mem(q) == old(
                    h,
                ).mem(q),
            final(h).live_count() == old(h).live_count() + 1,
    {
        self.status_code = status;
        self.error_msg = Buf::wrap_c_string(h, msg);
    }

    /// Release everything the record owns, exactly once.
    pub fn destroy(self, h: &mut Heap)
        requires
            self.valid_in(*old(h)),
        ensures
            forall|q: usize| self.owns_ptr(q) ==> !final(h).live(q),
            forall|q: usize| !self.owns_ptr(q) ==> final(h).live(q) == old(h).live(q),
            forall|q: usize|
                !self.owns_ptr(q) && old(h).live(q) ==> final(h).mem(q) == old(h).mem(q),
            old(h).live_count() == final(h).live_count() + self.owned_count(),
            self.owned_count() == 0 ==> final(h)@ == old(h)@,
    {
        Buf::release(h, self.error_msg);
    }
}

impl Default for cess_FinalizeTicketResponse {
    /// No error, cleared payload, nothing owned.
    fn default() -> (r: Self)
        ensures
            r.status_code == FCPResponseStatus::FCPNoError,
            r.error_msg.is_null(),
            r.error_msg.len == 0,
            is_zeroed32(r.ticket),
            r.payload_cleared(),
            r.owned_count() == 0,
    {
        cess_FinalizeTicketResponse {
            status_code: FCPResponseStatus::FCPNoError,
            error_msg: Buf::null(),
            ticket: [0u8; 32],
        }
    }
}

/// Data commitment computed over a set of pieces.
pub struct cess_GenerateDataCommitmentResponse {
    pub status_code: FCPResponseStatus,
    pub error_msg: Buf,
    pub comm_d: [u8; 32],
}

impl cess_GenerateDataCommitmentResponse {
    /// Every payload field holds its zero/null default.
    pub open spec fn payload_cleared(self) -> bool {
        is_zeroed32(self.comm_d)
    }

    pub open spec fn valid_in(self, h: Heap) -> bool {
        self.error_msg.valid_in(h)
    }

    pub open spec fn owned_count(self) -> nat {
        self.error_msg.owned_count()
    }

    pub open spec fn owns_ptr(self, q: usize) -> bool {
        !self.error_msg.is_null() && q == self.error_msg.ptr
    }

    /// Record a failure: set the status and allocate the boundary-owned
    /// message.  The payload stays untouched, so a record that was
    /// cleared stays cleared.
    pub fn set_error(&mut self, h: &mut Heap, status: FCPResponseStatus, msg: &Vec<u8>)
        requires
            old(self).error_msg.is_null(),
            status != FCPResponseStatus::FCPNoError,
        ensures
            final(self).status_code == status,
            !final(self).error_msg.is_null(),
            final(self).error_msg.valid_in(*final(h)),
            final(self).error_msg.bytes_in(*final(h)) == msg@.push(0u8),
            !old(h).live(final(self).error_msg.ptr),
            final(self).comm_d == old(self).comm_d,
            old(self).payload_cleared() ==> final(self).payload_cleared(),
            forall|q: usize|
                q != final(self).error_msg.ptr ==> final(h).live(q) == old(h).live(q),
            forall|q: usize|
                q != final(self).error_msg.ptr && old(h).live(q) ==> final(h).mem(q) == old(
                    h,
                ).mem(q),
            final(h).live_count() == old(h).live_count() + 1,
    {
        self.status_code = status;
        self.error_msg = Buf::wrap_c_string(h, msg);
    }

    /// Release everything the record owns, exactly once.
    pub fn destroy(self, h: &mut Heap)
        requires
            self.valid_in(*old(h)),
        ensures
            forall|q: usize| self.owns_ptr(q) ==> !final(h).live(q),
            forall|q: usize| !self.owns_ptr(q) ==> final(h).live(q) == old(h).live(q),
            forall|q: usize|
                !self.owns_ptr(q) && old(h).live(q) ==> final(h).mem(q) == old(h).mem(q),
            old(h).live_count() == final(h).live_count() + self.owned_count(),
            self.owned_count() == 0 ==> final(h)@ == old(h)@,
    {
        Buf::release(h, self.error_msg);
    }
}

impl Default for cess_GenerateDataCommitmentResponse {
    /// No error, cleared payload, nothing owned.
    fn default() -> (r: Self)
        ensures
            r.status_code == FCPResponseStatus::FCPNoError,
            r.error_msg.is_null(),
            r.error_msg.len == 0,
            is_zeroed32(r.comm_d),
            r.payload_cleared(),
            r.owned_count() == 0,
    {
        cess_GenerateDataCommitmentResponse {
            status_code: FCPResponseStatus::FCPNoError,
            error_msg: Buf::null(),
            comm_d: [0u8; 32],
        }
    }
}

/// Piece commitment and the aligned unpadded byte count: the
/// number of unpadded bytes in the original piece plus any (unpadded)
/// alignment bytes added to create a whole merkle tree.
pub struct cess_GeneratePieceCommitmentResponse {
    pub status_code: FCPResponseStatus,
    pub error_msg: Buf,
    pub comm_p: [u8; 32],
    pub num_bytes_aligned: u64,
}

impl cess_GeneratePieceCommitmentResponse {
    /// Every payload field holds its zero/null default.
    pub open spec fn payload_cleared(self) -> bool {
        &&& is_zeroed32(self.comm_p)
        &&& self.num_bytes_aligned == 0
    }

    pub open spec fn valid_in(self, h: Heap) -> bool {
        self.error_msg.valid_in(h)
    }

    pub open spec fn owned_count(self) -> nat {
        self.error_msg.owned_count()
    }

    pub open spec fn owns_ptr(self, q: usize) -> bool {
        !self.error_msg.is_null() && q == self.error_msg.ptr
    }

    /// Record a failure: set the status and allocate the boundary-owned
    /// message.  The payload stays untouched, so a record that was
    /// cleared stays cleared.
    pub fn set_error(&mut self, h: &mut Heap, status: FCPResponseStatus, msg: &Vec<u8>)
        requires
            old(self).error_msg.is_null(),
            status != FCPResponseStatus::FCPNoError,
        ensures
            final(self).status_code == status,
            !final(self).error_msg.is_null(),
            final(self).error_msg.valid_in(*final(h)),
            final(self).error_msg.bytes_in(*final(h)) == msg@.push(0u8),
            !old(h).live(final(self).error_msg.ptr),
            final(self).comm_p == old(self).comm_p,
            final(self).num_bytes_aligned == old(self).num_bytes_aligned,
            old(self).payload_cleared() ==> final(self).payload_cleared(),
            forall|q: usize|
                q != final(self).error_msg.ptr ==> final(h).live(q) == old(h).live(q),
            forall|q: usize|
                q != final(self).error_msg.ptr && old(h).live(q) ==> final(h).mem(q) == old(
                    h,
                ).mem(q),
            final(h).live_count() == old(h).live_count() + 1,
    {
        self.status_code = status;
        self.error_msg = Buf::wrap_c_string(h, msg);
    }

    /// Release everything the record owns, exactly once.
    pub fn destroy(self, h: &mut Heap)
        requires
            self.valid_in(*old(h)),
        ensures
            forall|q: usize| self.owns_ptr(q) ==> !final(h).live(q),
            forall|q: usize| !self.owns_ptr(q) ==> final(h).live(q) == old(h).live(q),
            forall|q: usize|
                !self.owns_ptr(q) && old(h).live(q) ==> final(h).mem(q) == old(h).mem(q),
            old(h).live_count() == final(h).live_count() + self.owned_count(),
            self.owned_count() == 0 ==> final(h)@ == old(h)@,
    {
        Buf::release(h, self.error_msg);
    }
}

impl Default for cess_GeneratePieceCommitmentResponse {
    /// No error, cleared payload, nothing owned.
    fn default() -> (r: Self)
        ensures
            r.status_code == FCPResponseStatus::FCPNoError,
            r.error_msg.is_null(),
            r.error_msg.len == 0,
            is_zeroed32(r.comm_p),
            r.num_bytes_aligned == 0,
            r.payload_cleared(),
            r.owned_count() == 0,
    {
        cess_GeneratePieceCommitmentResponse {
            status_code: FCPResponseStatus::FCPNoError,
            error_msg: Buf::null(),
            comm_p: [0u8; 32],
            num_bytes_aligned: 0,
        }
    }
}

/// Result of writing a piece with leading alignment: its
/// commitment, the unpadded bytes of alignment written before it, and
/// the total unpadded bytes written.
pub struct cess_WriteWithAlignmentResponse {
    pub comm_p: [u8; 32],
    pub error_msg: Buf,
    pub left_alignment_unpadded: u64,
    pub status_code: FCPResponseStatus,
    pub total_write_unpadded: u64,
}

impl cess_WriteWithAlignmentResponse {
    /// Every payload field holds its zero/null default.
    pub open spec fn payload_cleared(self) -> bool {
        &&& is_zeroed32(self.comm_p)
        &&& self.left_alignment_unpadded == 0
        &&& self.total_write_unpadded == 0
    }

    pub open spec fn valid_in(self, h: Heap) -> bool {
        self.error_msg.valid_in(h)
    }

    pub open spec fn owned_count(self) -> nat {
        self.error_msg.owned_count()
    }

    pub open spec fn owns_ptr(self, q: usize) -> bool {
        !self.error_msg.is_null() && q == self.error_msg.ptr
    }

    /// Record a failure: set the status and allocate the boundary-owned
    /// message.  The payload stays untouched, so a record that was
    /// cleared stays cleared.
    pub fn set_error(&mut self, h: &mut Heap, status: FCPResponseStatus, msg: &Vec<u8>)
        requires
            old(self).error_msg.is_null(),
            status != FCPResponseStatus::FCPNoError,
        ensures
            final(self).status_code == status,
            !final(self).error_msg.is_null(),
            final(self).error_msg.valid_in(*final(h)),
            final(self).error_msg.bytes_in(*final(h)) == msg@.push(0u8),
            !old(h).live(final(self).error_msg.ptr),
            final(self).comm_p == old(self).comm_p,
            final(self).left_alignment_unpadded == old(self).left_alignment_unpadded,
            final(self).total_write_unpadded == old(self).total_write_unpadded,
            old(self).payload_cleared() ==> final(self).payload_cleared(),
            forall|q: usize|
                q != final(self).error_msg.ptr ==> final(h).live(q) == old(h).live(q),
            forall|q: usize|
                q != final(self).error_msg.ptr && old(h).live(q) ==> final(h).mem(q) == old(
                    h,
                ).mem(q),
            final(h).live_count() == old(h).live_count() + 1,
    {
        self.status_code = status;
        self.error_msg = Buf::wrap_c_string(h, msg);
    }

    /// Release everything the record owns, exactly once.
    pub fn destroy(self, h: &mut Heap)
        requires
            self.valid_in(*old(h)),
        ensures
            forall|q: usize| self.owns_ptr(q) ==> !final(h).live(q),
            forall|q: usize| !self.owns_ptr(q) ==> final(h).live(q) == old(h).live(q),
            forall|q: usize|
                !self.owns_ptr(q) && old(h).live(q) ==> final(h).mem(q) == old(h).mem(q),
            old(h).live_count() == final(h).live_count() + self.owned_count(),
            self.owned_count() == 0 ==> final(h)@ == old(h)@,
    {
        Buf::release(h, self.error_msg);
    }
}

impl Default for cess_WriteWithAlignmentResponse {
    /// No error, cleared payload, nothing owned.
    fn default() -> (r: Self)
        ensures
            r.status_code == FCPResponseStatus::FCPNoError,
            r.error_msg.is_null(),
            r.error_msg.len == 0,
            is_zeroed32(r.comm_p),
            r.left_alignment_unpadded == 0,
            r.total_write_unpadded == 0,
            r.payload_cleared(),
            r.owned_count() == 0,
    {
        cess_WriteWithAlignmentResponse {
            comm_p: [0u8; 32],
            error_msg: Buf::null(),
            left_alignment_unpadded: 0,
            status_code: FCPResponseStatus::FCPNoError,
            total_write_unpadded: 0,
        }
    }
}

/// Result of writing a piece with no leading alignment.
pub struct cess_WriteWithoutAlignmentResponse {
    pub comm_p: [u8; 32],
    pub error_msg: Buf,
    pub status_code: FCPResponseStatus,
    pub total_write_unpadded: u64,
}

impl cess_WriteWithoutAlignmentResponse {
    /// Every payload field holds its zero/null default.
    pub open spec fn payload_cleared(self) -> bool {
        &&& is_zeroed32(self.comm_p)
        &&& self.total_write_unpadded == 0
    }

    pub open spec fn valid_in(self, h: Heap) -> bool {
        self.error_msg.valid_in(h)
    }

    pub open spec fn owned_count(self) -> nat {
        self.error_msg.owned_count()
    }

    pub open spec fn owns_ptr(self, q: usize) -> bool {
        !self.error_msg.is_null() && q == self.error_msg.ptr
    }

    /// Record a failure: set the status and allocate the boundary-owned
    /// message.  The payload stays untouched, so a record that was
    /// cleared stays cleared.
    pub fn set_error(&mut self, h: &mut Heap, status: FCPResponseStatus, msg: &Vec<u8>)
        requires
            old(self).error_msg.is_null(),
            status != FCPResponseStatus::FCPNoError,
        ensures
            final(self).status_code == status,
            !final(self).error_msg.is_null(),
            final(self).error_msg.valid_in(*final(h)),
            final(self).error_msg.bytes_in(*final(h)) == msg@.push(0u8),
            !old(h).live(final(self).error_msg.ptr),
            final(self).comm_p == old(self).comm_p,
            final(self).total_write_unpadded == old(self).total_write_unpadded,
            old(self).payload_cleared() ==> final(self).payload_cleared(),
            forall|q: usize|
                q != final(self).error_msg.ptr ==> final(h).live(q) == old(h).live(q),
            forall|q: usize|
                q != final(self).error_msg.ptr && old(h).live(q) ==> final(h).mem(q) == old(
                    h,
                ).mem(q),
            final(h).live_count() == old(h).live_count() + 1,
    {
        self.status_code = status;
        self.error_msg = Buf::wrap_c_string(h, msg);
    }

    /// Release everything the record owns, exactly once.
    pub fn destroy(self, h: &mut Heap)
        requires
            self.valid_in(*old(h)),
        ensures
            forall|q: usize| self.owns_ptr(q) ==> !final(h).live(q),
            forall|q: usize| !self.owns_ptr(q) ==> final(h).live(q) == old(h).live(q),
            forall|q: usize|
                !self.owns_ptr(q) && old(h).live(q) ==> final(h).mem(q) == old(h).mem(q),
            old(h).live_count() == final(h).live_count() + self.owned_count(),
            self.owned_count() == 0 ==> final(h)@ == old(h)@,
    {
        Buf::release(h, self.error_msg);
    }
}

impl Default for cess_WriteWithoutAlignmentResponse {
    /// No error, cleared payload, nothing owned.
    fn default() -> (r: Self)
        ensures
            r.status_code == FCPResponseStatus::FCPNoError,
            r.error_msg.is_null(),
            r.error_msg.len == 0,
            is_zeroed32(r.comm_p),
            r.total_write_unpadded == 0,
            r.payload_cleared(),
            r.owned_count() == 0,
    {
        cess_WriteWithoutAlignmentResponse {
            comm_p: [0u8; 32],
            error_msg: Buf::null(),
            status_code: FCPResponseStatus::FCPNoError,
            total_write_unpadded: 0,
        }
    }
}

/// Number of partitions a fallback Proof-of-Spacetime needs.
pub struct cess_GetNumPartitionForFallbackPoStResponse {
    pub error_msg: Buf,
    pub status_code: FCPResponseStatus,
    pub num_partition: usize,
}

impl cess_GetNumPartitionForFallbackPoStResponse {
    /// Every payload field holds its zero/null default.
    pub open spec fn payload_cleared(self) -> bool {
        self.num_partition == 0
    }

    pub open spec fn valid_in(self, h: Heap) -> bool {
        self.error_msg.valid_in(h)
    }

    pub open spec fn owned_count(self) -> nat {
        self.error_msg.owned_count()
    }

    pub open spec fn owns_ptr(self, q: usize) -> bool {
        !self.error_msg.is_null() && q == self.error_msg.ptr
    }

    /// Record a failure: set the status and allocate the boundary-owned
    /// message.  The payload stays untouched, so a record that was
    /// cleared stays cleared.
    pub fn set_error(&mut self, h: &mut Heap, status: FCPResponseStatus, msg: &Vec<u8>)
        requires
            old(self).error_msg.is_null(),
            status != FCPResponseStatus::FCPNoError,
        ensures
            final(self).status_code == status,
            !final(self).error_msg.is_null(),
            final(self).error_msg.valid_in(*final(h)),
            final(self).error_msg.bytes_in(*final(h)) == msg@.push(0u8),
            !old(h).live(final(self).error_msg.ptr),
            final(self).num_partition == old(self).num_partition,
            old(self).payload_cleared() ==> final(self).payload_cleared(),
            forall|q: usize|
                q != final(self).error_msg.ptr ==> final(h).live(q) == old(h).live(q),
            forall|q: usize|
                q != final(self).error_msg.ptr && old(h).live(q) ==> final(h).mem(q) == old(
                    h,
                ).mem(q),
            final(h).live_count() == old(h).live_count() + 1,
    {
        self.status_code = status;
        self.error_msg = Buf::wrap_c_string(h, msg);
    }

    /// Release everything the record owns, exactly once.
    pub fn destroy(self, h: &mut Heap)
        requires
            self.valid_in(*old(h)),
        ensures
            forall|q: usize| self.owns_ptr(q) ==> !final(h).live(q),
            forall|q: usize| !self.owns_ptr(q) ==> final(h).live(q) == old(h).live(q),
            forall|q: usize|
                !self.owns_ptr(q) && old(h).live(q) ==> final(h).mem(q) == old(h).mem(q),
            old(h).live_count() == final(h).live_count() + self.owned_count(),
            self.owned_count() == 0 ==> final(h)@ == old(h)@,
    {
        Buf::release(h, self.error_msg);
    }
}

impl Default for cess_GetNumPartitionForFallbackPoStResponse {
    /// No error, cleared payload, nothing owned.
    fn default() -> (r: Self)
        ensures
            r.status_code == FCPResponseStatus::FCPNoError,
            r.error_msg.is_null(),
            r.error_msg.len == 0,
            r.num_partition == 0,
            r.payload_cleared(),
            r.owned_count() == 0,
    {
        cess_GetNumPartitionForFallbackPoStResponse {
            error_msg: Buf::null(),
            status_code: FCPResponseStatus::FCPNoError,
            num_partition: 0,
        }
    }
}

/// Output of the second seal-precommit phase: the registry
/// variant and the two sector commitments.
pub struct cess_SealPreCommitPhase2Response {
    pub error_msg: Buf,
    pub status_code: FCPResponseStatus,
    pub registered_proof: cess_RegisteredSealProof,
    pub comm_d: [u8; 32],
    pub comm_r: [u8; 32],
}

impl cess_SealPreCommitPhase2Response {
    /// Every payload field holds its zero/null default.
    pub open spec fn payload_cleared(self) -> bool {
        &&& self.registered_proof == cess_RegisteredSealProof::StackedDrg2KiBV1
        &&& is_zeroed32(self.comm_d)
        &&& is_zeroed32(self.comm_r)
    }

    pub open spec fn valid_in(self, h: Heap) -> bool {
        self.error_msg.valid_in(h)
    }

    pub open spec fn owned_count(self) -> nat {
        self.error_msg.owned_count()
    }

    pub open spec fn owns_ptr(self, q: usize) -> bool {
        !self.error_msg.is_null() && q == self.error_msg.ptr
    }

    /// Record a failure: set the status and allocate the boundary-owned
    /// message.  The payload stays untouched, so a record that was
    /// cleared stays cleared.
    pub fn set_error(&mut self, h: &mut Heap, status: FCPResponseStatus, msg: &Vec<u8>)
        requires
            old(self).error_msg.is_null(),
            status != FCPResponseStatus::FCPNoError,
        ensures
            final(self).status_code == status,
            !final(self).error_msg.is_null(),
            final(self).error_msg.valid_in(*final(h)),
            final(self).error_msg.bytes_in(*final(h)) == msg@.push(0u8),
            !old(h).live(final(self).error_msg.ptr),
            final(self).registered_proof == old(self).registered_proof,
            final(self).comm_d == old(self).comm_d,
            final(self).comm_r == old(self).comm_r,
            old(self).payload_cleared() ==> final(self).payload_cleared(),
            forall|q: usize|
                q != final(self).error_msg.ptr ==> final(h).live(q) == old(h).live(q),
            forall|q: usize|
                q != final(self).error_msg.ptr && old(h).live(q) ==> final(h).mem(q) == old(
                    h,
                ).mem(q),
            final(h).live_count() == old(h).live_count() + 1,
    {
        self.status_code = status;
        self.error_msg = Buf::wrap_c_string(h, msg);
    }

    /// Release everything the record owns, exactly once.
    pub fn destroy(self, h: &mut Heap)
        requires
            self.valid_in(*old(h)),
        ensures
            forall|q: usize| self.owns_ptr(q) ==> !final(h).live(q),
            forall|q: usize| !self.owns_ptr(q) ==> final(h).live(q) == old(h).live(q),
            forall|q: usize|
                !self.owns_ptr(q) && old(h).live(q) ==> final(h).mem(q) == old(h).mem(q),
            old(h).live_count() == final(h).live_count() + self.owned_count(),
            self.owned_count() == 0 ==> final(h)@ == old(h)@,
    {
        Buf::release(h, self.error_msg);
    }
}

impl Default for cess_SealPreCommitPhase2Response {
    /// No error, cleared payload, nothing owned.
    fn default() -> (r: Self)
        ensures
            r.status_code == FCPResponseStatus::FCPNoError,
            r.error_msg.is_null(),
            r.error_msg.len == 0,
            r.registered_proof == cess_RegisteredSealProof::StackedDrg2KiBV1,
            is_zeroed32(r.comm_d),
            is_zeroed32(r.comm_r),
            r.payload_cleared(),
            r.owned_count() == 0,
    {
        cess_SealPreCommitPhase2Response {
            error_msg: Buf::null(),
            status_code: FCPResponseStatus::FCPNoError,
            registered_proof: cess_RegisteredSealProof::StackedDrg2KiBV1,
            comm_d: [0u8; 32],
            comm_r: [0u8; 32],
        }
    }
}

/// Sector indices challenged by a Winning Proof-of-Spacetime.
pub struct cess_GenerateWinningPoStSectorChallenge {
    pub error_msg: Buf,
    pub status_code: FCPResponseStatus,
    pub ids: Vec<u64>,
}

impl cess_GenerateWinningPoStSectorChallenge {
    /// Every payload field holds its zero/null default.
    pub open spec fn payload_cleared(self) -> bool {
        self.ids@.len() == 0
    }

    pub open spec fn valid_in(self, h: Heap) -> bool {
        self.error_msg.valid_in(h)
    }

    pub open spec fn owned_count(self) -> nat {
        self.error_msg.owned_count()
    }

    pub open spec fn owns_ptr(self, q: usize) -> bool {
        !self.error_msg.is_null() && q == self.error_msg.ptr
    }

    /// Record a failure: set the status and allocate the boundary-owned
    /// message.  The payload stays untouched, so a record that was
    /// cleared stays cleared.
    pub fn set_error(&mut self, h: &mut Heap, status: FCPResponseStatus, msg: &Vec<u8>)
        requires
            old(self).error_msg.is_null(),
            status != FCPResponseStatus::FCPNoError,
        ensures
            final(self).status_code == status,
            !final(self).error_msg.is_null(),
            final(self).error_msg.valid_in(*final(h)),
            final(self).error_msg.bytes_in(*final(h)) == msg@.push(0u8),
            !old(h).live(final(self).error_msg.ptr),
            final(self).ids@ == old(self).ids@,
            old(self).payload_cleared() ==> final(self).payload_cleared(),
            forall|q: usize|
                q != final(self).error_msg.ptr ==> final(h).live(q) == old(h).live(q),
            forall|q: usize|
                q != final(self).error_msg.ptr && old(h).live(q) ==> final(h).mem(q) == old(
                    h,
                ).mem(q),
            final(h).live_count() == old(h).live_count() + 1,
    {
        self.status_code = status;
        self.error_msg = Buf::wrap_c_string(h, msg);
    }

    /// Release everything the record owns, exactly once.
    pub fn destroy(self, h: &mut Heap)
        requires
            self.valid_in(*old(h)),
        ensures
            forall|q: usize| self.owns_ptr(q) ==> !final(h).live(q),
            forall|q: usize| !self.owns_ptr(q) ==> final(h).live(q) == old(h).live(q),
            forall|q: usize|
                !self.owns_ptr(q) && old(h).live(q) ==> final(h).mem(q) == old(h).mem(q),
            old(h).live_count() == final(h).live_count() + self.owned_count(),
            self.owned_count() == 0 ==> final(h)@ == old(h)@,
    {
        Buf::release(h, self.error_msg);
    }
}

impl Default for cess_GenerateWinningPoStSectorChallenge {
    /// No error, cleared payload, nothing owned.
    fn default() -> (r: Self)
        ensures
            r.status_code == FCPResponseStatus::FCPNoError,
            r.error_msg.is_null(),
            r.error_msg.len == 0,
            r.ids@.len() == 0,
            r.payload_cleared(),
            r.owned_count() == 0,
    {
        cess_GenerateWinningPoStSectorChallenge {
            error_msg: Buf::null(),
            status_code: FCPResponseStatus::FCPNoError,
            ids: Vec::new(),
        }
    }
}

/// Per-sector challenge values for a fallback
/// Proof-of-Spacetime: the challenged sector ids and the challenge
/// values, `challenges_stride` values per sector.
pub struct cess_GenerateFallbackSectorChallengesResponse {
    pub error_msg: Buf,
    pub status_code: FCPResponseStatus,
    pub ids: Vec<u64>,
    pub challenges: Vec<u64>,
    pub challenges_stride: usize,
}

impl cess_GenerateFallbackSectorChallengesResponse {
    /// Every payload field holds its zero/null default.
    pub open spec fn payload_cleared(self) -> bool {
        &&& self.ids@.len() == 0
        &&& self.challenges@.len() == 0
        &&& self.challenges_stride == 0
    }

    pub open spec fn valid_in(self, h: Heap) -> bool {
        self.error_msg.valid_in(h)
    }

    pub open spec fn owned_count(self) -> nat {
        self.error_msg.owned_count()
    }

    pub open spec fn owns_ptr(self, q: usize) -> bool {
        !self.error_msg.is_null() && q == self.error_msg.ptr
    }

    /// Record a failure: set the status and allocate the boundary-owned
    /// message.  The payload stays untouched, so a record that was
    /// cleared stays cleared.
    pub fn set_error(&mut self, h: &mut Heap, status: FCPResponseStatus, msg: &Vec<u8>)
        requires
            old(self).error_msg.is_null(),
            status != FCPResponseStatus::FCPNoError,
        ensures
            final(self).status_code == status,
            !final(self).error_msg.is_null(),
            final(self).error_msg.valid_in(*final(h)),
            final(self).error_msg.bytes_in(*final(h)) == msg@.push(0u8),
            !old(h).live(final(self).error_msg.ptr),
            final(self).ids@ == old(self).ids@,
            final(self).challenges@ == old(self).challenges@,
            final(self).challenges_stride == old(self).challenges_stride,
            old(self).payload_cleared() ==> final(self).payload_cleared(),
            forall|q: usize|
                q != final(self).error_msg.ptr ==> final(h).live(q) == old(h).live(q),
            forall|q: usize|
                q != final(self).error_msg.ptr && old(h).live(q) ==> final(h).mem(q) == old(
                    h,
                ).mem(q),
            final(h).live_count() == old(h).live_count() + 1,
    {
        self.status_code = status;
        self.error_msg = Buf::wrap_c_string(h, msg);
    }

    /// Release everything the record owns, exactly once.
    pub fn destroy(self, h: &mut Heap)
        requires
            self.valid_in(*old(h)),
        ensures
            forall|q: usize| self.owns_ptr(q) ==> !final(h).live(q),
            forall|q: usize| !self.owns_ptr(q) ==> final(h).live(q) == old(h).live(q),
            forall|q: usize|
                !self.owns_ptr(q) && old(h).live(q) ==> final(h).mem(q) == old(h).mem(q),
            old(h).live_count() == final(h).live_count() + self.owned_count(),
            self.owned_count() == 0 ==> final(h)@ == old(h)@,
    {
        Buf::release(h, self.error_msg);
    }
}

impl Default for cess_GenerateFallbackSectorChallengesResponse {
    /// No error, cleared payload, nothing owned.
    fn default() -> (r: Self)
        ensures
            r.status_code == FCPResponseStatus::FCPNoError,
            r.error_msg.is_null(),
            r.error_msg.len == 0,
            r.ids@.len() == 0,
            r.challenges@.len() == 0,
            r.challenges_stride == 0,
            r.payload_cleared(),
            r.owned_count() == 0,
    {
        cess_GenerateFallbackSectorChallengesResponse {
            error_msg: Buf::null(),
            status_code: FCPResponseStatus::FCPNoError,
            ids: Vec::new(),
            challenges: Vec::new(),
            challenges_stride: 0,
        }
    }
}

/// A serialized aggregated seal proof.
pub struct cess_AggregateProof {
    pub status_code: FCPResponseStatus,
    pub error_msg: Buf,
    pub proof: Buf,
}

impl cess_AggregateProof {
    /// Every payload field holds its zero/null default.
    pub open spec fn payload_cleared(self) -> bool {
        self.proof.is_null() && self.proof.len == 0
    }

    pub open spec fn valid_in(self, h: Heap) -> bool {
        &&& self.error_msg.valid_in(h)
        &&& self.proof.valid_in(h)
        &&& !self.error_msg.is_null() && !self.proof.is_null() ==> self.error_msg.ptr != self.proof.ptr
    }

    pub open spec fn owned_count(self) -> nat {
        self.error_msg.owned_count() + self.proof.owned_count()
    }

    pub open spec fn owns_ptr(self, q: usize) -> bool {
        ||| !self.error_msg.is_null() && q == self.error_msg.ptr
        ||| !self.proof.is_null() && q == self.proof.ptr
    }

    /// Record a failure: set the status and allocate the boundary-owned
    /// message.  The payload stays untouched, so a record that was
    /// cleared stays cleared.
    pub fn set_error(&mut self, h: &mut Heap, status: FCPResponseStatus, msg: &Vec<u8>)
        requires
            old(self).error_msg.is_null(),
            status != FCPResponseStatus::FCPNoError,
        ensures
            final(self).status_code == status,
            !final(self).error_msg.is_null(),
            final(self).error_msg.valid_in(*final(h)),
            final(self).error_msg.bytes_in(*final(h)) == msg@.push(0u8),
            !old(h).live(final(self).error_msg.ptr),
            final(self).proof == old(self).proof,
            old(self).payload_cleared() ==> final(self).payload_cleared(),
            forall|q: usize|
                q != final(self).error_msg.ptr ==> final(h).live(q) == old(h).live(q),
            forall|q: usize|
                q != final(self).error_msg.ptr && old(h).live(q) ==> final(h).mem(q) == old(
                    h,
                ).mem(q),
            final(h).live_count() == old(h).live_count() + 1,
    {
        self.status_code = status;
        self.error_msg = Buf::wrap_c_string(h, msg);
    }

    /// Release everything the record owns, exactly once.
    pub fn destroy(self, h: &mut Heap)
        requires
            self.valid_in(*old(h)),
        ensures
            forall|q: usize| self.owns_ptr(q) ==> !final(h).live(q),
            forall|q: usize| !self.owns_ptr(q) ==> final(h).live(q) == old(h).live(q),
            forall|q: usize|
                !self.owns_ptr(q) && old(h).live(q) ==> final(h).mem(q) == old(h).mem(q),
            old(h).live_count() == final(h).live_count() + self.owned_count(),
            self.owned_count() == 0 ==> final(h)@ == old(h)@,
    {
        Buf::release(h, self.error_msg);
        Buf::release(h, self.proof);
    }
}

impl Default for cess_AggregateProof {
    /// No error, cleared payload, nothing owned.
    fn default() -> (r: Self)
        ensures
            r.status_code == FCPResponseStatus::FCPNoError,
            r.error_msg.is_null(),
            r.error_msg.len == 0,
            r.proof.is_null(),
            r.proof.len == 0,
            r.payload_cleared(),
            r.owned_count() == 0,
    {
        cess_AggregateProof {
            status_code: FCPResponseStatus::FCPNoError,
            error_msg: Buf::null(),
            proof: Buf::null(),
        }
    }
}

/// Opaque serialized output of the first seal-precommit phase.
pub struct cess_SealPreCommitPhase1Response {
    pub error_msg: Buf,
    pub status_code: FCPResponseStatus,
    pub seal_pre_commit_phase1_output: Buf,
}

impl cess_SealPreCommitPhase1Response {
    /// Every payload field holds its zero/null default.
    pub open spec fn payload_cleared(self) -> bool {
        self.seal_pre_commit_phase1_output.is_null() && self.seal_pre_commit_phase1_output.len == 0
    }

    pub open spec fn valid_in(self, h: Heap) -> bool {
        &&& self.error_msg.valid_in(h)
        &&& self.seal_pre_commit_phase1_output.valid_in(h)
        &&& !self.error_msg.is_null() && !self.seal_pre_commit_phase1_output.is_null() ==> self.error_msg.ptr != self.seal_pre_commit_phase1_output.ptr
    }

    pub open spec fn owned_count(self) -> nat {
        self.error_msg.owned_count() + self.seal_pre_commit_phase1_output.owned_count()
    }

    pub open spec fn owns_ptr(self, q: usize) -> bool {
        ||| !self.error_msg.is_null() && q == self.error_msg.ptr
        ||| !self.seal_pre_commit_phase1_output.is_null() && q == self.seal_pre_commit_phase1_output.ptr
    }

    /// Record a failure: set the status and allocate the boundary-owned
    /// message.  The payload stays untouched, so a record that was
    /// cleared stays cleared.
    pub fn set_error(&mut self, h: &mut Heap, status: FCPResponseStatus, msg: &Vec<u8>)
        requires
            old(self).error_msg.is_null(),
            status != FCPResponseStatus::FCPNoError,
        ensures
            final(self).status_code == status,
            !final(self).error_msg.is_null(),
            final(self).error_msg.valid_in(*final(h)),
            final(self).error_msg.bytes_in(*final(h)) == msg@.push(0u8),
            !old(h).live(final(self).error_msg.ptr),
            final(self).seal_pre_commit_phase1_output == old(self).seal_pre_commit_phase1_output,
            old(self).payload_cleared() ==> final(self).payload_cleared(),
            forall|q: usize|
                q != final(self).error_msg.ptr ==> final(h).live(q) == old(h).live(q),
            forall|q: usize|
                q != final(self).error_msg.ptr && old(h).live(q) ==> final(h).mem(q) == old(
                    h,
                ).mem(q),
            final(h).live_count() == old(h).live_count() + 1,
    {
        self.status_code = status;
        self.error_msg = Buf::wrap_c_string(h, msg);
    }

    /// Release everything the record owns, exactly once.
    pub fn destroy(self, h: &mut Heap)
        requires
            self.valid_in(*old(h)),
        ensures
            forall|q: usize| self.owns_ptr(q) ==> !final(h).live(q),
            forall|q: usize| !self.owns_ptr(q) ==> final(h).live(q) == old(h).live(q),
            forall|q: usize|
                !self.owns_ptr(q) && old(h).live(q) ==> final(h).mem(q) == old(h).mem(q),
            old(h).live_count() == final(h).live_count() + self.owned_count(),
            self.owned_count() == 0 ==> final(h)@ == old(h)@,
    {
        Buf::release(h, self.error_msg);
        Buf::release(h, self.seal_pre_commit_phase1_output);
    }
}

impl Default for cess_SealPreCommitPhase1Response {
    /// No error, cleared payload, nothing owned.
    fn default() -> (r: Self)
        ensures
            r.status_code == FCPResponseStatus::FCPNoError,
            r.error_msg.is_null(),
            r.error_msg.len == 0,
            r.seal_pre_commit_phase1_output.is_null(),
            r.seal_pre_commit_phase1_output.len == 0,
            r.payload_cleared(),
            r.owned_count() == 0,
    {
        cess_SealPreCommitPhase1Response {
            error_msg: Buf::null(),
            status_code: FCPResponseStatus::FCPNoError,
            seal_pre_commit_phase1_output: Buf::null(),
        }
    }
}

/// Opaque serialized output of the first seal-commit phase.
pub struct cess_SealCommitPhase1Response {
    pub status_code: FCPResponseStatus,
    pub error_msg: Buf,
    pub seal_commit_phase1_output: Buf,
}

impl cess_SealCommitPhase1Response {
    /// Every payload field holds its zero/null default.
    pub open spec fn payload_cleared(self) -> bool {
        self.seal_commit_phase1_output.is_null() && self.seal_commit_phase1_output.len == 0
    }

    pub open spec fn valid_in(self, h: Heap) -> bool {
        &&& self.error_msg.valid_in(h)
        &&& self.seal_commit_phase1_output.valid_in(h)
        &&& !self.error_msg.is_null() && !self.seal_commit_phase1_output.is_null() ==> self.error_msg.ptr != self.seal_commit_phase1_output.ptr
    }

    pub open spec fn owned_count(self) -> nat {
        self.error_msg.owned_count() + self.seal_commit_phase1_output.owned_count()
    }

    pub open spec fn owns_ptr(self, q: usize) -> bool {
        ||| !self.error_msg.is_null() && q == self.error_msg.ptr
        ||| !self.seal_commit_phase1_output.is_null() && q == self.seal_commit_phase1_output.ptr
    }

    /// Record a failure: set the status and allocate the boundary-owned
    /// message.  The payload stays untouched, so a record that was
    /// cleared stays cleared.
    pub fn set_error(&mut self, h: &mut Heap, status: FCPResponseStatus, msg: &Vec<u8>)
        requires
            old(self).error_msg.is_null(),
            status != FCPResponseStatus::FCPNoError,
        ensures
            final(self).status_code == status,
            !final(self).error_msg.is_null(),
            final(self).error_msg.valid_in(*final(h)),
            final(self).error_msg.bytes_in(*final(h)) == msg@.push(0u8),
            !old(h).live(final(self).error_msg.ptr),
            final(self).seal_commit_phase1_output == old(self).seal_commit_phase1_output,
            old(self).payload_cleared() ==> final(self).payload_cleared(),
            forall|q: usize|
                q != final(self).error_msg.ptr ==> final(h).live(q) == old(h).live(q),
            forall|q: usize|
                q != final(self).error_msg.ptr && old(h).live(q) ==> final(h).mem(q) == old(
                    h,
                ).mem(q),
            final(h).live_count() == old(h).live_count() + 1,
    {
        self.status_code = status;
        self.error_msg = Buf::wrap_c_string(h, msg);
    }

    /// Release everything the record owns, exactly once.
    pub fn destroy(self, h: &mut Heap)
        requires
            self.valid_in(*old(h)),
        ensures
            forall|q: usize| self.owns_ptr(q) ==> !final(h).live(q),
            forall|q: usize| !self.owns_ptr(q) ==> final(h).live(q) == old(h).live(q),
            forall|q: usize|
                !self.owns_ptr(q) && old(h).live(q) ==> final(h).mem(q) == old(h).mem(q),
            old(h).live_count() == final(h).live_count() + self.owned_count(),
            self.owned_count() == 0 ==> final(h)@ == old(h)@,
    {
        Buf::release(h, self.error_msg);
        Buf::release(h, self.seal_commit_phase1_output);
    }
}

impl Default for cess_SealCommitPhase1Response {
    /// No error, cleared payload, nothing owned.
    fn default() -> (r: Self)
        ensures
            r.status_code == FCPResponseStatus::FCPNoError,
            r.error_msg.is_null(),
            r.error_msg.len == 0,
            r.seal_commit_phase1_output.is_null(),
            r.seal_commit_phase1_output.len == 0,
            r.payload_cleared(),
            r.owned_count() == 0,
    {
        cess_SealCommitPhase1Response {
            status_code: FCPResponseStatus::FCPNoError,
            error_msg: Buf::null(),
            seal_commit_phase1_output: Buf::null(),
        }
    }
}

/// A boundary-owned string result.
pub struct cess_StringResponse {
    pub status_code: FCPResponseStatus,
    pub error_msg: Buf,
    pub string_val: Buf,
}

impl cess_StringResponse {
    /// Every payload field holds its zero/null default.
    pub open spec fn payload_cleared(self) -> bool {
        self.string_val.is_null() && self.string_val.len == 0
    }

    pub open spec fn valid_in(self, h: Heap) -> bool {
        &&& self.error_msg.valid_in(h)
        &&& self.string_val.valid_in(h)
        &&& !self.error_msg.is_null() && !self.string_val.is_null() ==> self.error_msg.ptr != self.string_val.ptr
    }

    pub open spec fn owned_count(self) -> nat {
        self.error_msg.owned_count() + self.string_val.owned_count()
    }

    pub open spec fn owns_ptr(self, q: usize) -> bool {
        ||| !self.error_msg.is_null() && q == self.error_msg.ptr
        ||| !self.string_val.is_null() && q == self.string_val.ptr
    }

    /// Record a failure: set the status and allocate the boundary-owned
    /// message.  The payload stays untouched, so a record that was
    /// cleared stays cleared.
    pub fn set_error(&mut self, h: &mut Heap, status: FCPResponseStatus, msg: &Vec<u8>)
        requires
            old(self).error_msg.is_null(),
            status != FCPResponseStatus::FCPNoError,
        ensures
            final(self).status_code == status,
            !final(self).error_msg.is_null(),
            final(self).error_msg.valid_in(*final(h)),
            final(self).error_msg.bytes_in(*final(h)) == msg@.push(0u8),
            !old(h).live(final(self).error_msg.ptr),
            final(self).string_val == old(self).string_val,
            old(self).payload_cleared() ==> final(self).payload_cleared(),
            forall|q: usize|
                q != final(self).error_msg.ptr ==> final(h).live(q) == old(h).live(q),
            forall|q: usize|
                q != final(self).error_msg.ptr && old(h).live(q) ==> final(h).mem(q) == old(
                    h,
                ).mem(q),
            final(h).live_count() == old(h).live_count() + 1,
    {
        self.status_code = status;
        self.error_msg = Buf::wrap_c_string(h, msg);
    }

    /// Release everything the record owns, exactly once.
    pub fn destroy(self, h: &mut Heap)
        requires
            self.valid_in(*old(h)),
        ensures
            forall|q: usize| self.owns_ptr(q) ==> !final(h).live(q),
            forall|q: usize| !self.owns_ptr(q) ==> final(h).live(q) == old(h).live(q),
            forall|q: usize|
                !self.owns_ptr(q) && old(h).live(q) ==> final(h).mem(q) == old(h).mem(q),
            old(h).live_count() == final(h).live_count() + self.owned_count(),
            self.owned_count() == 0 ==> final(h)@ == old(h)@,
    {
        Buf::release(h, self.error_msg);
        Buf::release(h, self.string_val);
    }
}

impl Default for cess_StringResponse {
    /// No error, cleared payload, nothing owned.
    fn default() -> (r: Self)
        ensures
            r.status_code == FCPResponseStatus::FCPNoError,
            r.error_msg.is_null(),
            r.error_msg.len == 0,
            r.string_val.is_null(),
            r.string_val.len == 0,
            r.payload_cleared(),
            r.owned_count() == 0,
    {
        cess_StringResponse {
            status_code: FCPResponseStatus::FCPNoError,
            error_msg: Buf::null(),
            string_val: Buf::null(),
        }
    }
}


/// The uniform failure-construction rule, shown on the aggregated seal
/// proof record: building an error envelope on a fresh record yields a
/// status other than `FCPNoError`, a non-null boundary-owned message,
/// and a payload still holding its null/zero defaults.
pub fn failed_aggregate_proof(h: &mut Heap, status: FCPResponseStatus, msg: &Vec<u8>) -> (r:
    cess_AggregateProof)
    requires
        status != FCPResponseStatus::FCPNoError,
    ensures
        r.status_code == status,
        r.status_code != FCPResponseStatus::FCPNoError,
        !r.error_msg.is_null(),
        r.error_msg.bytes_in(*final(h)) == msg@.push(0u8),
        r.payload_cleared(),
        r.valid_in(*final(h)),
        r.owned_count() == 1,
        final(h).live_count() == old(h).live_count() + 1,
{
    let mut r = cess_AggregateProof::default();
    r.set_error(h, status, msg);
    r
}
} // verus!
