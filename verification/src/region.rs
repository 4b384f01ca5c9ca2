//! The protected region: one conceptual memory mapping laid out as
//! [guard page][canary][data][guard page], together with the protection
//! state machine that tracks outstanding borrows.
//!
//! The operating-system mapping itself has no observable content besides the
//! canary and the data, so the region is modeled by exactly those, plus the
//! protection state, the outstanding-borrow counters and the memory-lock
//! flag. The permanently no-access guard pages have nothing to model beyond
//! the fact that nothing outside the canary and the data exists here at all.
//! Two invariants are carried by the type itself and hold of every region at
//! every moment: the memory stays locked and the canary stays intact (see
//! `containment_facts`). The third invariant, that the protection
//! state reflects the outstanding borrows, is `prot_consistent` and is
//! threaded through every operation's contract.

use vstd::prelude::*;

use crate::traits::Bytes;

verus! {

/// The protection mode of a region's data pages: the minimum access an
/// outstanding borrow requires.
#[derive(Clone, Copy, PartialEq, Eq, Structural)]
pub enum Prot {
    NoAccess,
    ReadOnly,
    ReadWrite,
}

/// One protected allocation holding `n` elements of `T`.
pub struct Region<T: Bytes> {
    data: Vec<T>,
    canary_cell: u64,
    canary_record: u64,
    prot: Prot,
    shared: usize,
    exclusive: bool,
    locked: bool,
}

impl<T: Bytes> View for Region<T> {
    type V = Seq<T>;

    closed spec fn view(&self) -> Seq<T> {
        self.data@
    }
}

impl<T: Bytes> Region<T> {
    /// The current protection mode of the data pages.
    pub closed spec fn prot_state(self) -> Prot {
        self.prot
    }

    /// How many shared (read-only) borrows are outstanding.
    pub closed spec fn shared_count(self) -> nat {
        self.shared as nat
    }

    /// Whether the exclusive (read-write) borrow is outstanding.
    pub closed spec fn exclusive_held(self) -> bool {
        self.exclusive
    }

    /// Whether the data and canary pages are locked into resident memory.
    pub closed spec fn mem_locked(self) -> bool {
        self.locked
    }

    /// Whether the canary cell still holds the value recorded at allocation.
    pub closed spec fn canary_ok(self) -> bool {
        self.canary_cell == self.canary_record
    }

    /// No borrow of any kind is outstanding.
    pub open spec fn at_rest(self) -> bool {
        self.shared_count() == 0 && !self.exclusive_held()
    }

    /// The data pages admit reads.
    pub open spec fn readable(self) -> bool {
        self.prot_state() != Prot::NoAccess
    }

    /// The protection state reflects the outstanding borrows: no access
    /// while no borrow is out, read-only while shared borrows are out,
    /// read-write while the exclusive borrow is out, and the two borrow
    /// kinds are mutually exclusive.
    pub open spec fn prot_consistent(self) -> bool {
        &&& (self.exclusive_held() ==> self.shared_count() == 0 && self.prot_state()
            == Prot::ReadWrite)
        &&& (!self.exclusive_held() && self.shared_count() > 0 ==> self.prot_state()
            == Prot::ReadOnly)
        &&& (self.at_rest() ==> self.prot_state() == Prot::NoAccess)
    }

    /// The containment guarantees that hold of every region for its whole
    /// lifetime: memory locked, canary intact, and a data area whose byte
    /// length fits the address space.
    #[verifier::type_invariant]
    spec fn containment(self) -> bool {
        &&& self.mem_locked()
        &&& self.canary_ok()
        &&& self@.len() * T::spec_byte_size() <= usize::MAX
    }

    /// Every region is memory-locked, keeps its canary intact, and covers
    /// at most the address space, from allocation to destruction. The body
    /// does no work: the call only surfaces the type invariant.
    pub fn containment_facts(&self)
        ensures
            self.mem_locked(),
            self.canary_ok(),
            self@.len() * T::spec_byte_size() <= usize::MAX,
    {
        proof {
            use_type_invariant(self);
        }
    }

    /// Reserves a region of `len` elements: the data area starts erased,
    /// a freshly drawn random canary is written in front of it and recorded,
    /// the pages are locked, and the protection state starts at no-access
    /// with no outstanding borrows.
    pub fn allocate(len: usize) -> (r: Self)
        requires
            len * T::spec_byte_size() <= usize::MAX,
        ensures
            r@ == Seq::new(len as nat, |i: int| T::erased_spec()),
            r.at_rest(),
            r.prot_state() == Prot::NoAccess,
            r.prot_consistent(),
    {
        let canary = crate::rng::random_u64();
        let mut data: Vec<T> = Vec::new();
        let mut i: usize = 0;
        while i < len
            invariant
                i <= len,
                data@.len() == i,
                forall|j: int| 0 <= j < i ==> data@[j] == T::erased_spec(),
            decreases len - i,
        {
            data.push(T::erased());
            i = i + 1;
        }
        proof {
            assert(data@ =~= Seq::new(len as nat, |i: int| T::erased_spec()));
        }
        Region {
            data,
            canary_cell: canary,
            canary_record: canary,
            prot: Prot::NoAccess,
            shared: 0,
            exclusive: false,
            locked: true,
        }
    }

    /// The number of elements the region holds.
    pub fn len(&self) -> (r: usize)
        ensures
            r == self@.len(),
    {
        self.data.len()
    }

    /// Registers one more shared borrow; entering from zero outstanding
    /// borrows turns the data pages read-only. Calling this while the
    /// exclusive borrow is out is a contract violation, excluded here.
    pub fn unlock_shared(&mut self)
        requires
            old(self).prot_consistent(),
            !old(self).exclusive_held(),
            old(self).shared_count() < usize::MAX,
        ensures
            final(self).shared_count() == old(self).shared_count() + 1,
            !final(self).exclusive_held(),
            final(self).prot_state() == Prot::ReadOnly,
            final(self).prot_consistent(),
            final(self)@ == old(self)@,
    {
        proof {
            use_type_invariant(&*self);
        }
        self.shared = self.shared + 1;
        self.prot = Prot::ReadOnly;
    }

    /// Releases one shared borrow; releasing the last one returns the data
    /// pages to no-access.
    pub fn lock_shared(&mut self)
        requires
            old(self).prot_consistent(),
            !old(self).exclusive_held(),
            old(self).shared_count() >= 1,
        ensures
            final(self).shared_count() == old(self).shared_count() - 1,
            !final(self).exclusive_held(),
            final(self).prot_state() == (if old(self).shared_count() == 1 {
                Prot::NoAccess
            } else {
                Prot::ReadOnly
            }),
            final(self).prot_consistent(),
            final(self)@ == old(self)@,
    {
        proof {
            use_type_invariant(&*self);
        }
        self.shared = self.shared - 1;
        if self.shared == 0 {
            self.prot = Prot::NoAccess;
        }
    }

    /// Takes the exclusive borrow, turning the data pages read-write.
    /// Calling this while any borrow is out is a contract violation,
    /// excluded here.
    pub fn unlock_exclusive(&mut self)
        requires
            old(self).prot_consistent(),
            old(self).at_rest(),
        ensures
            final(self).exclusive_held(),
            final(self).shared_count() == 0,
            final(self).prot_state() == Prot::ReadWrite,
            final(self).prot_consistent(),
            final(self)@ == old(self)@,
    {
        proof {
            use_type_invariant(&*self);
        }
        self.exclusive = true;
        self.prot = Prot::ReadWrite;
    }

    /// Releases the exclusive borrow, returning the data pages to
    /// no-access.
    pub fn lock_exclusive(&mut self)
        requires
            old(self).prot_consistent(),
            old(self).exclusive_held(),
        ensures
            final(self).at_rest(),
            final(self).prot_state() == Prot::NoAccess,
            final(self).prot_consistent(),
            final(self)@ == old(self)@,
    {
        proof {
            use_type_invariant(&*self);
        }
        self.exclusive = false;
        self.prot = Prot::NoAccess;
    }

    /// Reads one element through an unlocked view.
    pub fn read(&self, i: usize) -> (r: T)
        requires
            self.readable(),
            i < self@.len(),
        ensures
            r == self@[i as int],
    {
        self.data[i]
    }

    /// Writes one element through the read-write view held by the
    /// exclusive borrower.
    pub fn write(&mut self, i: usize, v: T)
        requires
            old(self).prot_state() == Prot::ReadWrite,
            i < old(self)@.len(),
        ensures
            final(self)@ == old(self)@.update(i as int, v),
            final(self).prot_state() == old(self).prot_state(),
            final(self).shared_count() == old(self).shared_count(),
            final(self).exclusive_held() == old(self).exclusive_held(),
    {
        proof {
            use_type_invariant(&*self);
        }
        self.data[i] = v;
    }

    /// The data area, read through an outstanding immutable borrow of the
    /// region itself. The host language's aliasing discipline is what makes
    /// this borrow safe: the region cannot be written or destroyed while
    /// the returned view is alive.
    pub fn contents(&self) -> (r: &Vec<T>)
        ensures
            r@ == self@,
    {
        &self.data
    }

    /// Overwrites the whole data area from the given slice, whose length
    /// must match, through the read-write view held by the exclusive
    /// borrower.
    pub fn fill_from(&mut self, src: &[T])
        requires
            old(self).prot_state() == Prot::ReadWrite,
            src@.len() == old(self)@.len(),
        ensures
            final(self)@ == src@,
            final(self).prot_state() == old(self).prot_state(),
            final(self).shared_count() == old(self).shared_count(),
            final(self).exclusive_held() == old(self).exclusive_held(),
    {
        let ghost orig: Region<T> = *self;
        let n = self.data.len();
        let mut i: usize = 0;
        while i < n
            invariant
                i <= n,
                n == self@.len(),
                self@.len() == src@.len(),
                self.prot_state() == orig.prot_state(),
                self.shared_count() == orig.shared_count(),
                self.exclusive_held() == orig.exclusive_held(),
                self.prot_state() == Prot::ReadWrite,
                forall|j: int| 0 <= j < i ==> self@[j] == src@[j],
            decreases n - i,
        {
            let v = *vstd::slice::slice_index_get(src, i);
            self.write(i, v);
            i = i + 1;
        }
        proof {
            assert(self@ =~= src@);
        }
    }

    /// Overwrites every element with the erased value, through the
    /// read-write view held by the exclusive borrower.
    pub fn erase(&mut self)
        requires
            old(self).prot_state() == Prot::ReadWrite,
        ensures
            final(self)@ == Seq::new(old(self)@.len(), |i: int| T::erased_spec()),
            final(self).prot_state() == old(self).prot_state(),
            final(self).shared_count() == old(self).shared_count(),
            final(self).exclusive_held() == old(self).exclusive_held(),
    {
        let ghost orig: Region<T> = *self;
        let n = self.data.len();
        let mut i: usize = 0;
        while i < n
            invariant
                i <= n,
                n == self@.len(),
                self@.len() == orig@.len(),
                self.prot_state() == orig.prot_state(),
                self.shared_count() == orig.shared_count(),
                self.exclusive_held() == orig.exclusive_held(),
                self.prot_state() == Prot::ReadWrite,
                forall|j: int| 0 <= j < i ==> self@[j] == T::erased_spec(),
            decreases n - i,
        {
            self.write(i, T::erased());
            i = i + 1;
        }
        proof {
            assert(self@ =~= Seq::new(orig@.len(), |i: int| T::erased_spec()));
        }
    }

    /// Compares the canary cell against the value recorded at allocation,
    /// through an unlocked view. Under the containment invariant the two
    /// can never differ; a difference would mean an out-of-bounds write
    /// landed between the guard page and the data.
    pub fn verify_canary(&self) -> (r: bool)
        requires
            self.readable(),
        ensures
            r == self.canary_ok(),
            r,
    {
        proof {
            use_type_invariant(self);
        }
        self.canary_cell == self.canary_record
    }

    /// Tears the region down once every guard has been released: verifies
    /// the canary under a read-only view, then erases the data area under a
    /// read-write view. Dropping the erased region afterwards stands for
    /// unlocking and releasing the mapping. A canary mismatch would end the
    /// teardown before any cleanup, since the memory would no longer be
    /// trusted; the containment invariant proves that case cannot occur
    /// here.
    pub fn destroy(self)
        requires
            self.prot_consistent(),
            self.at_rest(),
    {
        let mut this = self;
        this.unlock_shared();
        let intact = this.verify_canary();
        this.lock_shared();
        if intact {
            this.unlock_exclusive();
            this.erase();
            this.lock_exclusive();
        }
    }
}

/// The protection states are exactly characterized by the outstanding
/// borrows: no-access means at rest, read-only means at least one shared
/// borrow, read-write means the exclusive borrow, and the two borrow kinds
/// exclude each other.
pub proof fn lemma_prot_reflects_borrows<T: Bytes>(r: Region<T>)
    requires
        r.prot_consistent(),
    ensures
        !(r.exclusive_held() && r.shared_count() > 0),
        (r.prot_state() == Prot::NoAccess) <==> r.at_rest(),
        (r.prot_state() == Prot::ReadOnly) <==> (!r.exclusive_held() && r.shared_count() > 0),
        (r.prot_state() == Prot::ReadWrite) <==> r.exclusive_held(),
{
}

} // verus!
