//! The secret container and its scoped borrow guards.
//!
//! A `SecretVec` owns exactly one protected region and presents it as a
//! length-typed sequence. Construction paths fill the region through a
//! complete exclusive unlock/write/lock cycle, so the data pages admit
//! writes only for the exact span of the initialization. Borrow guards hand
//! out read-only or read-write views; the host language's aliasing
//! discipline enforces that shared and exclusive guards never coexist, and
//! every access a guard performs drives the region through the matching
//! unlock/lock transitions. Comparison runs in constant time over freshly
//! read views, and rendering never includes element content.

use vstd::prelude::*;

use crate::region::Prot;
use crate::region::Region;
use crate::traits::Bytes;
use crate::traits::ConstantEq;
use crate::traits::Randomizable;
use crate::traits::Zeroable;
use crate::traits::constant_time_eq;

verus! {

/// A length-typed sequence of `T` held in one protected region.
pub struct SecretVec<T: Bytes> {
    region: Region<T>,
}

/// A shared (read-only) borrow guard over a container's region. Several may
/// coexist; each observes the same content.
pub struct Ref<'a, T: Bytes> {
    /// The borrowed region, exposed so that contracts can relate a guard to
    /// its container. The region's own invariants protect its interior.
    pub region: &'a Region<T>,
}

/// The exclusive (read-write) borrow guard over a container's region. At
/// most one exists at a time, enforced by the exclusive borrow of the
/// container it was created from. Each write it performs opens the region
/// for exactly the span of that write.
pub struct RefMut<'a, T: Bytes> {
    /// The borrowed region, exposed so that contracts can relate a guard to
    /// its container. The region's own invariants protect its interior.
    pub region: &'a mut Region<T>,
}

impl<T: Bytes> View for SecretVec<T> {
    type V = Seq<T>;

    closed spec fn view(&self) -> Seq<T> {
        self.region@
    }
}

impl<T: Bytes> View for Ref<'_, T> {
    type V = Seq<T>;

    open spec fn view(&self) -> Seq<T> {
        self.region@
    }
}

impl<T: Bytes> View for RefMut<'_, T> {
    type V = Seq<T>;

    open spec fn view(&self) -> Seq<T> {
        self.region@
    }
}

/// The fixed marker that stands in for element content whenever a container
/// or guard is rendered.
pub open spec fn redaction_marker() -> Seq<char> {
    "[REDACTED]"@
}

impl<T: Bytes> SecretVec<T> {
    /// The owned protected region, as a specification-level value.
    pub closed spec fn region_state(self) -> Region<T> {
        self.region
    }

    /// A container at rest: no runtime-registered borrow is outstanding and
    /// the region's protection state says so.
    pub open spec fn wf(self) -> bool {
        &&& self.region_state().prot_consistent()
        &&& self.region_state().at_rest()
    }

    /// Allocates a region holding exactly `contents` by driving a full
    /// exclusive unlock/write/lock cycle over a fresh region.
    fn install(contents: &Vec<T>) -> (r: Self)
        requires
            contents@.len() * T::spec_byte_size() <= usize::MAX,
        ensures
            r.wf(),
            r@ == contents@,
    {
        let len = contents.len();
        let mut region = Region::<T>::allocate(len);
        region.unlock_exclusive();
        let mut i: usize = 0;
        while i < len
            invariant
                i <= len,
                len == contents@.len(),
                region@.len() == len,
                region.prot_state() == Prot::ReadWrite,
                region.shared_count() == 0,
                region.exclusive_held(),
                forall|j: int| 0 <= j < i ==> region@[j] == contents@[j],
            decreases len - i,
        {
            region.write(i, contents[i]);
            i = i + 1;
        }
        region.lock_exclusive();
        proof {
            assert(region@ =~= contents@);
        }
        SecretVec { region }
    }

    /// Builds a container of `len` elements whose contents are produced by
    /// the caller-supplied initializer. The initializer receives the erased
    /// initial contents and is the only code that determines what the
    /// region holds; it must accept any such buffer and keep the length.
    pub fn new<F: FnOnce(Vec<T>) -> Vec<T>>(len: usize, f: F) -> (r: Self)
        requires
            len * T::spec_byte_size() <= usize::MAX,
            forall|buf: Vec<T>|
                buf@ == Seq::new(len as nat, |i: int| T::erased_spec()) ==> call_requires(
                    f,
                    (buf,),
                ),
            forall|buf: Vec<T>, out: Vec<T>|
                buf@.len() == len && #[trigger] call_ensures(f, (buf,), out) ==> out@.len() == len,
        ensures
            r.wf(),
            r@.len() == len,
            exists|buf: Vec<T>, out: Vec<T>|
                {
                    &&& buf@ == Seq::new(len as nat, |i: int| T::erased_spec())
                    &&& #[trigger] call_ensures(f, (buf,), out)
                    &&& r@ == out@
                },
    {
        let mut buf: Vec<T> = Vec::new();
        let mut i: usize = 0;
        while i < len
            invariant
                i <= len,
                buf@.len() == i,
                forall|j: int| 0 <= j < i ==> buf@[j] == T::erased_spec(),
            decreases len - i,
        {
            buf.push(T::erased());
            i = i + 1;
        }
        proof {
            assert(buf@ =~= Seq::new(len as nat, |i: int| T::erased_spec()));
        }
        let out = f(buf);
        Self::install(&out)
    }

    /// The number of elements the container holds.
    pub fn len(&self) -> (r: usize)
        ensures
            r == self@.len(),
    {
        self.region.len()
    }

    /// Whether the container holds no elements.
    pub fn is_empty(&self) -> (r: bool)
        ensures
            r == (self@.len() == 0),
    {
        self.len() == 0
    }

    /// The total byte size of the protected data area.
    pub fn size(&self) -> (r: usize)
        ensures
            r == self@.len() * T::spec_byte_size(),
    {
        self.region.containment_facts();
        self.region.len() * T::byte_size()
    }

    /// Acquires a shared (read-only) view. Several may be acquired at once;
    /// the exclusivity against read-write views is enforced by the host
    /// aliasing discipline.
    pub fn borrow(&self) -> (r: Ref<'_, T>)
        ensures
            *r.region == self.region_state(),
            r@ == self@,
    {
        Ref::new(&self.region)
    }

    /// Acquires the exclusive (read-write) view. Requires exclusive access
    /// to the container itself, so no shared view can be outstanding.
    pub fn borrow_mut(&mut self) -> (r: RefMut<'_, T>)
        ensures
            *r.region == old(self).region_state(),
            r@ == old(self)@,
            final(self).region_state() == *final(r.region),
    {
        RefMut::new(&mut self.region)
    }

    /// Renders the container for diagnostics: always the fixed redaction
    /// marker, never element content, in any protection state.
    pub fn redacted(&self) -> (r: String)
        ensures
            r@ == redaction_marker(),
    {
        "[REDACTED]".to_string()
    }

    /// Tears the container down: the region verifies its canary and erases
    /// its data area before the memory is released.
    pub fn destroy(self)
        requires
            self.wf(),
    {
        let SecretVec { region } = self;
        region.destroy();
    }
}

impl<T: Randomizable> SecretVec<T> {
    /// Builds a container of `len` elements drawn from the process-wide
    /// cryptographic random source. Nothing is promised of the values.
    pub fn random(len: usize) -> (r: Self)
        requires
            len * T::spec_byte_size() <= usize::MAX,
        ensures
            r.wf(),
            r@.len() == len,
    {
        let values = T::random_vec(len);
        Self::install(&values)
    }
}

impl<T: Zeroable> SecretVec<T> {
    /// Builds a container of `len` zero elements, written through a full
    /// exclusive unlock/erase/lock cycle.
    pub fn zero(len: usize) -> (r: Self)
        requires
            len * T::spec_byte_size() <= usize::MAX,
        ensures
            r.wf(),
            r@ == Seq::new(len as nat, |i: int| T::erased_spec()),
    {
        let mut region = Region::<T>::allocate(len);
        region.unlock_exclusive();
        region.erase();
        region.lock_exclusive();
        SecretVec { region }
    }

    /// Moves existing data into a fresh container, then overwrites the
    /// source with zeroes as a best-effort reduction of plaintext copies.
    /// Copies made before this call are unaffected.
    pub fn from_existing(data: &mut Vec<T>) -> (r: Self)
        requires
            old(data)@.len() * T::spec_byte_size() <= usize::MAX,
        ensures
            r.wf(),
            r@ == old(data)@,
            final(data)@ == Seq::new(old(data)@.len(), |i: int| T::erased_spec()),
    {
        let r = Self::install(&*data);
        let n = data.len();
        let mut i: usize = 0;
        while i < n
            invariant
                i <= n,
                data@.len() == n,
                forall|j: int| 0 <= j < i ==> data@[j] == T::erased_spec(),
            decreases n - i,
        {
            data[i] = T::erased();
            i = i + 1;
        }
        proof {
            assert(data@ =~= Seq::new(data@.len(), |i: int| T::erased_spec()));
        }
        r
    }
}

impl<T: Bytes> Clone for SecretVec<T> {
    /// Clones by allocating a fresh region and copying the protected
    /// content into it; the copy observes the same sequence of elements.
    fn clone(&self) -> (r: Self)
        ensures
            r.wf(),
            r@ == self@,
    {
        self.region.containment_facts();
        Self::install(self.region.contents())
    }
}

impl<T: Bytes + ConstantEq> PartialEq for SecretVec<T> {
    /// Constant-time equality over freshly acquired shared views of both
    /// sides, unrelated to any guard the caller may hold elsewhere.
    fn eq(&self, rhs: &Self) -> (r: bool) {
        constant_time_eq(self.borrow().elements(), rhs.borrow().elements())
    }
}

impl<T: Bytes + ConstantEq> vstd::std_specs::cmp::PartialEqSpecImpl for SecretVec<T> {
    open spec fn obeys_eq_spec() -> bool {
        true
    }

    open spec fn eq_spec(&self, rhs: &Self) -> bool {
        self@ == rhs@
    }
}

impl<'a, T: Bytes> Ref<'a, T> {
    /// Registers a shared view of the region.
    fn new(region: &'a Region<T>) -> (r: Self)
        ensures
            r.region == region,
    {
        Ref { region }
    }

    /// The borrowed elements, readable for the guard's lifetime.
    pub fn elements(&self) -> (r: &Vec<T>)
        ensures
            r@ == self@,
    {
        self.region.contents()
    }

    /// The number of elements the guard exposes.
    pub fn len(&self) -> (r: usize)
        ensures
            r == self@.len(),
    {
        self.region.len()
    }

    /// Renders the guard for diagnostics: always the fixed redaction
    /// marker, never element content.
    pub fn redacted(&self) -> (r: String)
        ensures
            r@ == redaction_marker(),
    {
        "[REDACTED]".to_string()
    }
}

impl<'a, T: Bytes + ConstantEq> Ref<'a, T> {
    /// Constant-time comparison against an exclusive guard's view; both
    /// sides are already accessible, so no extra unlock cycle is run.
    pub fn constant_eq_mut(&self, rhs: &RefMut<'_, T>) -> (r: bool)
        ensures
            r == (self@ == rhs@),
    {
        constant_time_eq(self.region.contents(), rhs.region.contents())
    }
}

impl<T: Bytes> Clone for Ref<'_, T> {
    /// Duplicating a shared guard re-registers the shared view; no element
    /// content is copied.
    fn clone(&self) -> (r: Self)
        ensures
            r == *self,
    {
        Ref { region: self.region }
    }
}

impl<T: Bytes + ConstantEq> PartialEq for Ref<'_, T> {
    /// Constant-time equality over the two dereferenced views.
    fn eq(&self, rhs: &Self) -> (r: bool) {
        constant_time_eq(self.region.contents(), rhs.region.contents())
    }
}

impl<T: Bytes + ConstantEq> vstd::std_specs::cmp::PartialEqSpecImpl for Ref<'_, T> {
    open spec fn obeys_eq_spec() -> bool {
        true
    }

    open spec fn eq_spec(&self, rhs: &Self) -> bool {
        self@ == rhs@
    }
}

impl<'a, T: Bytes> RefMut<'a, T> {
    /// Registers the exclusive view of the region.
    fn new(region: &'a mut Region<T>) -> (r: Self)
        ensures
            *r.region == *old(region),
            *final(region) == *final(r.region),
    {
        RefMut { region }
    }

    /// The borrowed elements, readable for the guard's lifetime.
    pub fn elements(&self) -> (r: &Vec<T>)
        ensures
            r@ == self@,
    {
        self.region.contents()
    }

    /// The number of elements the guard exposes.
    pub fn len(&self) -> (r: usize)
        ensures
            r == self@.len(),
    {
        self.region.len()
    }

    /// Writes one element, opening the region for exactly the span of the
    /// write: unlock to read-write, write, lock back to no-access.
    pub fn set(&mut self, i: usize, v: T)
        requires
            old(self).region.prot_consistent(),
            old(self).region.at_rest(),
            i < old(self)@.len(),
        ensures
            final(self)@ == old(self)@.update(i as int, v),
            final(self).region.prot_consistent(),
            final(self).region.at_rest(),
            *final(old(self).region) == *final(final(self).region),
    {
        self.region.unlock_exclusive();
        self.region.write(i, v);
        self.region.lock_exclusive();
    }

    /// Overwrites all elements from the given slice, whose length must
    /// match, through one exclusive unlock/write/lock cycle.
    pub fn clone_from_slice(&mut self, src: &[T])
        requires
            old(self).region.prot_consistent(),
            old(self).region.at_rest(),
            src@.len() == old(self)@.len(),
        ensures
            final(self)@ == src@,
            final(self).region.prot_consistent(),
            final(self).region.at_rest(),
            *final(old(self).region) == *final(final(self).region),
    {
        self.region.unlock_exclusive();
        self.region.fill_from(src);
        self.region.lock_exclusive();
    }

    /// Renders the guard for diagnostics: always the fixed redaction
    /// marker, never element content.
    pub fn redacted(&self) -> (r: String)
        ensures
            r@ == redaction_marker(),
    {
        "[REDACTED]".to_string()
    }
}

impl<'a, T: Bytes + ConstantEq> RefMut<'a, T> {
    /// Constant-time comparison against a shared guard's view; both sides
    /// are already accessible, so no extra unlock cycle is run.
    pub fn constant_eq_shared(&self, rhs: &Ref<'_, T>) -> (r: bool)
        ensures
            r == (self@ == rhs@),
    {
        constant_time_eq(self.region.contents(), rhs.region.contents())
    }
}

impl<T: Bytes + ConstantEq> PartialEq for RefMut<'_, T> {
    /// Constant-time equality over the two dereferenced views.
    fn eq(&self, rhs: &Self) -> (r: bool) {
        constant_time_eq(self.region.contents(), rhs.region.contents())
    }
}

impl<T: Bytes + ConstantEq> vstd::std_specs::cmp::PartialEqSpecImpl for RefMut<'_, T> {
    open spec fn obeys_eq_spec() -> bool {
        true
    }

    open spec fn eq_spec(&self, rhs: &Self) -> bool {
        self@ == rhs@
    }
}

/// A guard acquired from a container observes exactly the container's
/// content: a zero-filled container is seen as all zero elements, and an
/// initializer's or exclusive writer's writes are seen through any view
/// acquired afterwards.
pub proof fn lemma_guard_views_container<'a, T: Bytes>(c: SecretVec<T>, g: Ref<'a, T>)
    requires
        *g.region == c.region_state(),
    ensures
        g@ == c@,
{
}

/// Two shared guards over the same region observe identical content; with
/// the constant-time comparison's contract, they therefore compare equal.
pub proof fn lemma_shared_guards_agree<'a, T: Bytes>(a: Ref<'a, T>, b: Ref<'a, T>)
    requires
        a.region == b.region,
    ensures
        a@ == b@,
{
}

} // verus!
