//! The identifier of a thread: a number from 1 to 128, derived once from a
//! digest of the thread's identity and kept for as long as the thread lives.
//!
//! Two threads may share a number: it adds entropy, it does not name the
//! thread.

use vstd::prelude::*;

verus! {

/// The thread identifier that a digest gives: its low 7 bits, plus one.
pub open spec fn thread_id_of(digest: u64) -> u8 {
    ((digest & 0x7F) + 1) as u8
}

/// Derives a thread identifier from a 64-bit digest of the thread's
/// identity.
pub fn derive_thread_id(digest: u64) -> (id: u8)
    ensures
        id == thread_id_of(digest),
        1 <= id <= 128,
        id == digest % 128 + 1,
{
    assert(digest & 0x7F == digest % 128) by (bit_vector);
    ((digest & 0x7F) as u8) + 1
}

/// What a thread remembers of its identifier: nothing yet, or the number it
/// was given. One slot belongs to one thread.
pub struct ThreadSlot {
    id: u8,
}

impl ThreadSlot {
    /// A slot is empty, or holds a number from 1 to 128.
    #[verifier::type_invariant]
    spec fn in_range(&self) -> bool {
        self.id <= 128
    }

    /// The number held, or zero while none has been given.
    pub closed spec fn held(&self) -> u8 {
        self.id
    }

    /// The number that a call of `thread_id` with this digest returns, which
    /// is also the number that the slot holds afterwards: the one already
    /// held, or else the one derived from the digest.
    pub open spec fn resolve(&self, digest: u64) -> u8 {
        if self.held() != 0 {
            self.held()
        } else {
            thread_id_of(digest)
        }
    }

    /// An empty slot, for a thread that has not asked for its identifier
    /// yet.
    pub fn new() -> (slot: Self)
        ensures
            slot.held() == 0,
    {
        ThreadSlot { id: 0 }
    }

    /// Whether the thread has its identifier already, so that no digest is
    /// needed to answer `thread_id`.
    pub fn is_assigned(&self) -> (assigned: bool)
        ensures
            assigned == (self.held() != 0),
    {
        self.id != 0
    }

    /// The identifier of the thread that owns the slot. The first call
    /// derives it from the digest and stores it; every later call returns
    /// the stored number and ignores its digest.
    pub fn thread_id(&mut self, digest: u64) -> (id: u8)
        ensures
            id == old(self).resolve(digest),
            final(self).held() == id,
            1 <= id <= 128,
    {
        proof {
            use_type_invariant(&*self);
        }
        let tid = self.id;
        if tid == 0 {
            let new_id = derive_thread_id(digest);
            self.id = new_id;
            new_id
        } else {
            tid
        }
    }
}

/// A thread keeps the identifier of its first call: if `after` is the slot
/// as a call of `thread_id` with the digest `first` left it, a call with any
/// digest `later` returns what the first call returned.
pub proof fn lemma_thread_id_stable(slot: ThreadSlot, first: u64, later: u64, after: ThreadSlot)
    requires
        after.held() == slot.resolve(first),
    ensures
        after.resolve(later) == slot.resolve(first),
{
    lemma_thread_id_range(first);
}

/// The identifier that a digest gives lies between 1 and 128.
pub proof fn lemma_thread_id_range(digest: u64)
    by (bit_vector)
    ensures
        1 <= thread_id_of(digest) <= 128,
        thread_id_of(digest) == (digest % 128 + 1) as u8,
{
}

} // verus!
