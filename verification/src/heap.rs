//! An explicit table of the allocations handed across the boundary.
//!
//! The caller on the far side of the boundary does not share a memory
//! manager with this library, so every byte buffer that crosses it is
//! identified by a plain handle (a nonzero number standing for the raw
//! pointer) and must be released exactly once.  The table records which
//! handles are live and what bytes they hold; the contracts of `allocate`
//! and `free` express the exactly-once discipline.

use vstd::pervasive::VecAdditionalExecFns;
use vstd::prelude::*;

verus! {

/// Number of live allocations in a sequence of slots.
pub open spec fn count_live(s: Seq<Option<Seq<u8>>>) -> nat
    decreases s.len(),
{
    if s.len() == 0 {
        0
    } else {
        count_live(s.drop_last()) + (if s.last() is Some {
            1nat
        } else {
            0nat
        })
    }
}

proof fn lemma_count_live_push(s: Seq<Option<Seq<u8>>>, x: Option<Seq<u8>>)
    ensures
        count_live(s.push(x)) == count_live(s) + (if x is Some {
            1nat
        } else {
            0nat
        }),
{
    assert(s.push(x).drop_last() =~= s);
    assert(s.push(x).last() == x);
}

proof fn lemma_count_live_update_to_none(s: Seq<Option<Seq<u8>>>, i: int)
    requires
        0 <= i < s.len(),
        s[i] is Some,
    ensures
        count_live(s.update(i, None)) + 1 == count_live(s),
    decreases s.len(),
{
    let t = s.update(i, None);
    if i == s.len() - 1 {
        assert(t.drop_last() =~= s.drop_last());
        assert(t.last() is None);
    } else {
        assert(t.drop_last() =~= s.drop_last().update(i, None));
        lemma_count_live_update_to_none(s.drop_last(), i);
        assert(t.last() == s.last());
    }
}

/// The allocation table: slot `i` backs the handle `i + 1`, so that the
/// handle `0` can stand for the null pointer.  A freed slot stays `None`
/// forever; handles are never reused within one table.
pub struct Heap {
    slots: Vec<Option<Vec<u8>>>,
}

impl View for Heap {
    type V = Seq<Option<Seq<u8>>>;

    closed spec fn view(&self) -> Seq<Option<Seq<u8>>> {
        Seq::new(
            self.slots@.len(),
            |i: int|
                match self.slots@[i] {
                    Some(v) => Some(v@),
                    None => None,
                },
        )
    }
}

impl Heap {
    /// The handle `p` addresses a live allocation.
    pub open spec fn live(self, p: usize) -> bool {
        1 <= p <= self@.len() && self@[p as int - 1] is Some
    }

    /// The bytes held by the live allocation `p`.
    pub open spec fn mem(self, p: usize) -> Seq<u8>
        recommends
            self.live(p),
    {
        self@[p as int - 1]->Some_0
    }

    /// How many allocations are currently live.
    pub open spec fn live_count(self) -> nat {
        count_live(self@)
    }

    /// A fresh table with no allocations.
    pub fn new() -> (h: Heap)
        ensures
            h@.len() == 0,
            h.live_count() == 0,
            forall|p: usize| !h.live(p),
    {
        Heap { slots: Vec::new() }
    }

    /// Take ownership of `data` as a new allocation and hand back its
    /// (nonzero, fresh) handle.  No other allocation is affected.
    pub fn allocate(&mut self, data: Vec<u8>) -> (p: usize)
        ensures
            final(self)@ == old(self)@.push(Some(data@)),
            p != 0,
            !old(self).live(p),
            final(self).live(p),
            final(self).mem(p) == data@,
            forall|q: usize| q != p ==> final(self).live(q) == old(self).live(q),
            forall|q: usize|
                q != p && old(self).live(q) ==> final(self).mem(q) == old(self).mem(q),
            final(self).live_count() == old(self).live_count() + 1,
    {
        self.slots.push(Some(data));
        let p = self.slots.len();
        proof {
            assert(self@ =~= old(self)@.push(Some(data@)));
            lemma_count_live_push(old(self)@, Some(data@));
        }
        p
    }

    /// Release the live allocation `p`.  Exactly this allocation dies;
    /// every other allocation keeps its liveness and its bytes.
    pub fn free(&mut self, p: usize)
        requires
            old(self).live(p),
        ensures
            final(self)@ == old(self)@.update(p as int - 1, None),
            !final(self).live(p),
            forall|q: usize| q != p ==> final(self).live(q) == old(self).live(q),
            forall|q: usize|
                q != p && old(self).live(q) ==> final(self).mem(q) == old(self).mem(q),
            final(self).live_count() + 1 == old(self).live_count(),
    {
        self.slots.set(p - 1, None);
        proof {
            assert(self@ =~= old(self)@.update(p as int - 1, None));
            lemma_count_live_update_to_none(old(self)@, p as int - 1);
        }
    }

    /// Borrow the bytes of the live allocation `p`.
    pub fn read(&self, p: usize) -> (r: &Vec<u8>)
        requires
            self.live(p),
        ensures
            r@ == self.mem(p),
    {
        self.slots[p - 1].as_ref().unwrap()
    }

    /// Whether `p` addresses a live allocation.
    pub fn is_live(&self, p: usize) -> (b: bool)
        ensures
            b == self.live(p),
    {
        if p == 0 {
            false
        } else if p - 1 < self.slots.len() {
            self.slots[p - 1].is_some()
        } else {
            false
        }
    }

    /// Count the live allocations, so that a caller can check that a
    /// lifecycle ended with nothing leaked.
    pub fn live_allocations(&self) -> (n: usize)
        ensures
            n == self.live_count(),
    {
        let mut n: usize = 0;
        let mut i: usize = 0;
        while i < self.slots.len()
            invariant
                i <= self.slots@.len(),
                n <= i,
                n == count_live(self@.take(i as int)),
            decreases self.slots@.len() - i,
        {
            proof {
                assert(self@.take(i as int + 1).drop_last() =~= self@.take(i as int));
                assert(self@.take(i as int + 1).last() == self@[i as int]);
            }
            if self.slots[i].is_some() {
                n = n + 1;
            }
            i = i + 1;
        }
        proof {
            assert(self@.take(self.slots@.len() as int) =~= self@);
        }
        n
    }
}

} // verus!
