//! The buffer envelope: a handle + length pair standing for a byte
//! sequence whose allocation is owned by one side of the boundary at a
//! time.
//!
//! Invariants: the handle is null exactly when the length is zero, and a
//! non-null handle addresses a live allocation of exactly that length.
//! `wrap` transfers ownership of a byte vector into the table,
//! `duplicate` deep-copies into a fresh, independently owned envelope,
//! and `release` is the single authorized deallocation.

use crate::heap::Heap;
use vstd::prelude::*;

verus! {

/// Copy a vector of plain values element by element.
pub fn copy_vec<T: Copy>(src: &Vec<T>) -> (r: Vec<T>)
    ensures
        r@ == src@,
{
    let mut r: Vec<T> = Vec::new();
    let mut i: usize = 0;
    while i < src.len()
        invariant
            i <= src@.len(),
            r@ == src@.take(i as int),
        decreases src@.len() - i,
    {
        r.push(src[i]);
        i = i + 1;
        proof {
            assert(r@ =~= src@.take(i as int));
        }
    }
    proof {
        assert(src@.take(src@.len() as int) =~= src@);
    }
    r
}

/// A pointer + length pair over a byte sequence in the allocation table.
/// The handle `0` stands for the null pointer.
#[derive(Clone, Copy, Debug, PartialEq, Eq, Structural)]
pub struct Buf {
    pub ptr: usize,
    pub len: usize,
}

impl Buf {
    /// The envelope holds no allocation.
    pub open spec fn is_null(self) -> bool {
        self.ptr == 0
    }

    /// The handle is null exactly when the length is zero.
    pub open spec fn wf(self) -> bool {
        self.is_null() <==> self.len == 0
    }

    /// A well-formed envelope whose allocation (if any) is live in `h`
    /// with exactly `len` bytes.
    pub open spec fn valid_in(self, h: Heap) -> bool {
        &&& self.wf()
        &&& !self.is_null() ==> h.live(self.ptr) && h.mem(self.ptr).len() == self.len
    }

    /// The byte content of the envelope; empty for the null envelope.
    pub open spec fn bytes_in(self, h: Heap) -> Seq<u8> {
        if self.is_null() {
            Seq::empty()
        } else {
            h.mem(self.ptr)
        }
    }

    /// How many allocations this envelope owns: one, or none when null.
    pub open spec fn owned_count(self) -> nat {
        if self.is_null() {
            0
        } else {
            1
        }
    }

    /// The null envelope: no allocation, zero length.
    pub fn null() -> (b: Buf)
        ensures
            b.ptr == 0,
            b.len == 0,
    {
        Buf { ptr: 0, len: 0 }
    }

    /// Transfer ownership of `data` into the table and hand back an
    /// envelope over it.  A zero-length vector becomes the null envelope
    /// and allocates nothing.
    pub fn wrap(h: &mut Heap, data: Vec<u8>) -> (b: Buf)
        ensures
            b.wf(),
            b.valid_in(*final(h)),
            b.bytes_in(*final(h)) == data@,
            b.len == data@.len(),
            b.is_null() <==> data@.len() == 0,
            !b.is_null() ==> !old(h).live(b.ptr),
            forall|q: usize| q != b.ptr ==> final(h).live(q) == old(h).live(q),
            forall|q: usize|
                q != b.ptr && old(h).live(q) ==> final(h).mem(q) == old(h).mem(q),
            final(h).live_count() == old(h).live_count() + b.owned_count(),
            data@.len() == 0 ==> final(h)@ == old(h)@,
    {
        if data.len() == 0 {
            Buf { ptr: 0, len: 0 }
        } else {
            let len = data.len();
            let p = h.allocate(data);
            Buf { ptr: p, len }
        }
    }

    /// Deep-copy: allocate a fresh buffer of identical length and copy
    /// the bytes.  The source stays valid and unchanged; the result is
    /// independently owned.  Duplicating the null envelope allocates
    /// nothing and leaves the table untouched.
    pub fn duplicate(h: &mut Heap, b: &Buf) -> (d: Buf)
        requires
            b.valid_in(*old(h)),
        ensures
            d.wf(),
            d.valid_in(*final(h)),
            d.bytes_in(*final(h)) == b.bytes_in(*old(h)),
            d.len == b.len,
            d.is_null() == b.is_null(),
            !d.is_null() ==> !old(h).live(d.ptr) && d.ptr != b.ptr,
            b.valid_in(*final(h)),
            b.bytes_in(*final(h)) == b.bytes_in(*old(h)),
            forall|q: usize| q != d.ptr ==> final(h).live(q) == old(h).live(q),
            forall|q: usize|
                q != d.ptr && old(h).live(q) ==> final(h).mem(q) == old(h).mem(q),
            final(h).live_count() == old(h).live_count() + d.owned_count(),
            b.is_null() ==> final(h)@ == old(h)@,
    {
        if b.ptr == 0 {
            Buf { ptr: 0, len: 0 }
        } else {
            let src = h.read(b.ptr);
            let copy = copy_vec(src);
            let p = h.allocate(copy);
            Buf { ptr: p, len: b.len }
        }
    }

    /// The single authorized deallocation of the envelope's backing
    /// storage.  Consumes the envelope; only its own allocation dies.
    /// Releasing the null envelope deallocates nothing.
    pub fn release(h: &mut Heap, b: Buf)
        requires
            b.valid_in(*old(h)),
        ensures
            !b.is_null() ==> !final(h).live(b.ptr),
            forall|q: usize| q != b.ptr ==> final(h).live(q) == old(h).live(q),
            forall|q: usize|
                q != b.ptr && old(h).live(q) ==> final(h).mem(q) == old(h).mem(q),
            old(h).live_count() == final(h).live_count() + b.owned_count(),
            b.is_null() ==> final(h)@ == old(h)@,
    {
        if b.ptr != 0 {
            h.free(b.ptr);
        }
    }

    /// Allocate a boundary-owned, NUL-terminated copy of `msg`, as the
    /// error strings handed across the boundary are.  The result is
    /// never null: it holds at least the terminator.
    pub fn wrap_c_string(h: &mut Heap, msg: &Vec<u8>) -> (b: Buf)
        ensures
            !b.is_null(),
            b.wf(),
            b.valid_in(*final(h)),
            b.bytes_in(*final(h)) == msg@.push(0u8),
            b.len == msg@.len() + 1,
            !old(h).live(b.ptr),
            forall|q: usize| q != b.ptr ==> final(h).live(q) == old(h).live(q),
            forall|q: usize|
                q != b.ptr && old(h).live(q) ==> final(h).mem(q) == old(h).mem(q),
            final(h).live_count() == old(h).live_count() + 1,
    {
        let mut data = copy_vec(msg);
        data.push(0u8);
        let len = data.len();
        let p = h.allocate(data);
        Buf { ptr: p, len }
    }
}

/// A well-formed envelope of length zero is the null envelope: it holds
/// no allocation at all.
pub proof fn lemma_zero_length_is_null(b: Buf)
    requires
        b.wf(),
        b.len == 0,
    ensures
        b.is_null(),
        b.owned_count() == 0,
{
}

/// Duplicate/release independence, one way: duplicating an envelope and
/// then releasing the source leaves the duplicate live with the byte
/// content the source had at duplication time.
pub fn duplicate_survives_source_release(h: &mut Heap, e: Buf) -> (d: Buf)
    requires
        e.valid_in(*old(h)),
    ensures
        d.valid_in(*final(h)),
        d.bytes_in(*final(h)) == e.bytes_in(*old(h)),
        d.len == e.len,
        !e.is_null() ==> !final(h).live(e.ptr),
        final(h).live_count() == old(h).live_count(),
    {
    let d = Buf::duplicate(h, &e);
    Buf::release(h, e);
    d
}

/// Duplicate/release independence, the other way: releasing the
/// duplicate leaves the source live and its byte content untouched.
pub fn source_survives_duplicate_release(h: &mut Heap, e: &Buf)
    requires
        e.valid_in(*old(h)),
    ensures
        e.valid_in(*final(h)),
        e.bytes_in(*final(h)) == e.bytes_in(*old(h)),
        final(h).live_count() == old(h).live_count(),
    {
    let d = Buf::duplicate(h, e);
    Buf::release(h, d);
}


} // verus!
