//! The generic homogeneous collection: an owned/borrowed pair over a
//! foreign sequence object, parameterized by the element kind.
//!
//! A collection is itself just an owned handle (or borrowed view) on a
//! foreign object of the sequence kind [`NSArray`], so duplication,
//! destruction and borrowing have exactly the semantics of the handle
//! pair. Elements are reached through the foreign sequence's own dispatch,
//! never by reading memory directly.

use vstd::prelude::*;
use core::marker::PhantomData;

use crate::handle::BorrowedView;
use crate::handle::ForeignKind;
use crate::handle::OwnedHandle;
use crate::runtime::released;
use crate::runtime::replaced;
use crate::runtime::retained;
use crate::runtime::ObjModel;
use crate::runtime::Runtime;

verus! {

/// The foreign sequence kind holding elements of kind `K`: an ordered,
/// fixed-at-construction sequence object of the runtime.
pub struct NSArray<K> {
    _phantom: PhantomData<K>,
}

impl<K: ForeignKind> ForeignKind for NSArray<K> {

}

/// An owned collection of foreign objects of kind `K`: the exclusive
/// holder of one unit of the underlying sequence object's reference count.
pub struct Array<K: ForeignKind> {
    handle: OwnedHandle<NSArray<K>>,
}

/// A borrowed, non-owning view of a collection of foreign objects of kind
/// `K`.
pub struct ArrayRef<K: ForeignKind> {
    view: BorrowedView<NSArray<K>>,
}

/// The identifiers of the objects a slice of borrowed views refers to, in
/// order.
pub open spec fn view_ids<K: ForeignKind>(s: Seq<BorrowedView<K>>) -> Seq<nat> {
    Seq::new(s.len(), |j: int| s[j].id())
}

/// The identifiers of the objects a slice of owned handles refers to, in
/// order.
pub open spec fn handle_ids<K: ForeignKind>(s: Seq<OwnedHandle<K>>) -> Seq<nat> {
    Seq::new(s.len(), |j: int| s[j].id())
}

impl<K: ForeignKind> Array<K> {
    /// The identifier of the underlying foreign sequence object.
    pub closed spec fn id(self) -> nat {
        self.handle.id()
    }

    /// Ask the runtime to allocate a new sequence object populated with the
    /// given elements, in order. The runtime retains each element internally
    /// as it needs — this layer does not retain them itself — and hands back
    /// a sequence pointer already carrying one unit of reference count.
    ///
    /// An empty slice yields a valid, zero-element collection, not an error;
    /// allocation is assumed infallible at this boundary.
    pub fn from_slice(rt: &mut Runtime, s: &[BorrowedView<K>]) -> (a: Array<K>)
        ensures
            a.id() == old(rt)@.len(),
            final(rt)@ == old(rt)@.push(
                ObjModel { count: 1, elems: view_ids(s@), desc: Seq::empty() },
            ),
    {
        let mut ids: Vec<usize> = Vec::new();
        let n = s.len();
        let mut i: usize = 0;
        while i < n
            invariant
                n == s@.len(),
                i <= n,
                ids@.len() == i,
                forall|j: int| 0 <= j < i ==> ids@[j] as nat == s@[j].id(),
            decreases n - i,
        {
            let v: &BorrowedView<K> = &s[i];
            ids.push(v.as_ptr());
            i = i + 1;
        }
        proof {
            assert(ids@.map_values(|e: usize| e as nat) =~= view_ids(s@));
        }
        let id = rt.alloc_sequence(ids);
        Array { handle: OwnedHandle::from_ptr(id) }
    }

    /// Same contract as [`Array::from_slice`], but accepting owned elements;
    /// their ownership is not consumed, the slice is only read.
    pub fn from_owned_slice(rt: &mut Runtime, s: &[OwnedHandle<K>]) -> (a: Array<K>)
        ensures
            a.id() == old(rt)@.len(),
            final(rt)@ == old(rt)@.push(
                ObjModel { count: 1, elems: handle_ids(s@), desc: Seq::empty() },
            ),
    {
        let mut ids: Vec<usize> = Vec::new();
        let n = s.len();
        let mut i: usize = 0;
        while i < n
            invariant
                n == s@.len(),
                i <= n,
                ids@.len() == i,
                forall|j: int| 0 <= j < i ==> ids@[j] as nat == s@[j].id(),
            decreases n - i,
        {
            let h: &OwnedHandle<K> = &s[i];
            ids.push(h.as_ptr());
            i = i + 1;
        }
        proof {
            assert(ids@.map_values(|e: usize| e as nat) =~= handle_ids(s@));
        }
        let id = rt.alloc_sequence(ids);
        Array { handle: OwnedHandle::from_ptr(id) }
    }

    /// Take over a sequence pointer that already carries one unit of
    /// reference count; no retain is performed.
    pub fn from_ptr(ptr: usize) -> (a: Self)
        ensures
            a.id() == ptr,
    {
        Array { handle: OwnedHandle::from_ptr(ptr) }
    }

    /// Read the underlying sequence pointer without affecting the count.
    pub fn as_ptr(&self) -> (p: usize)
        ensures
            p == self.id(),
    {
        self.handle.as_ptr()
    }

    /// Duplicate the collection handle: retain the sequence object once and
    /// hand back a second owned collection referring to the same foreign
    /// sequence — shared identity, not a copy of the contents.
    pub fn duplicate(&self, rt: &mut Runtime) -> (a: Self)
        requires
            old(rt).live(self.id()),
            old(rt)@[self.id() as int].count < u64::MAX,
        ensures
            a.id() == self.id(),
            final(rt)@ == retained(old(rt)@, self.id() as int),
    {
        Array { handle: self.handle.duplicate(rt) }
    }

    /// Destroy the collection handle: release the sequence object's count
    /// exactly once, consuming the handle.
    pub fn destroy(self, rt: &mut Runtime)
        requires
            old(rt).live(self.id()),
        ensures
            final(rt)@ == released(old(rt)@, self.id() as int),
    {
        self.handle.destroy(rt);
    }

    /// Produce a borrowed view of the collection without affecting the
    /// count.
    pub fn borrow(&self) -> (r: ArrayRef<K>)
        ensures
            r.id() == self.id(),
    {
        ArrayRef { view: self.handle.borrow() }
    }
}

impl<K: ForeignKind> ArrayRef<K> {
    /// The identifier of the underlying foreign sequence object.
    pub closed spec fn id(self) -> nat {
        self.view.id()
    }

    /// Read the underlying sequence pointer without affecting the count.
    pub fn as_ptr(&self) -> (p: usize)
        ensures
            p == self.id(),
    {
        self.view.as_ptr()
    }

    /// Turn the view into an independent owned collection on the same
    /// foreign sequence by retaining it once.
    pub fn to_owned(&self, rt: &mut Runtime) -> (a: Array<K>)
        requires
            old(rt).live(self.id()),
            old(rt)@[self.id() as int].count < u64::MAX,
        ensures
            a.id() == self.id(),
            final(rt)@ == retained(old(rt)@, self.id() as int),
    {
        Array { handle: self.view.to_owned(rt) }
    }

    /// The element count, read back through the foreign sequence's own
    /// accessor.
    pub fn len(&self, rt: &Runtime) -> (n: usize)
        requires
            rt.live(self.id()),
        ensures
            n == rt@[self.id() as int].elems.len(),
    {
        rt.seq_len(self.view.as_ptr())
    }

    /// The element at position `i`, read back through the foreign
    /// sequence's own accessor as a non-owning view.
    pub fn get(&self, rt: &Runtime, i: usize) -> (v: BorrowedView<K>)
        requires
            rt.live(self.id()),
            i < rt@[self.id() as int].elems.len(),
        ensures
            v.id() == rt@[self.id() as int].elems[i as int],
    {
        BorrowedView::from_ptr(rt.seq_get(self.view.as_ptr(), i))
    }
}

/// A collection built from a slice holds exactly the input elements: its
/// element count equals the slice's length, and the element at each
/// position is the very object the input view at that position referred
/// to.
pub proof fn lemma_from_slice_read_back<K: ForeignKind>(
    pre: Seq<ObjModel>,
    s: Seq<BorrowedView<K>>,
    i: int,
)
    requires
        0 <= i < s.len(),
    ensures
        ({
            let m = pre.push(ObjModel { count: 1, elems: view_ids(s), desc: Seq::empty() });
            &&& m[pre.len() as int].elems.len() == s.len()
            &&& m[pre.len() as int].elems[i] == s[i].id()
        }),
{
}

/// Shared identity of duplicates: when two collection handles refer to the
/// same foreign sequence — as a handle and its duplicate do — a replacement
/// performed through one is observed through the other.
pub proof fn lemma_shared_identity<K: ForeignKind>(
    m: Seq<ObjModel>,
    a: Array<K>,
    b: Array<K>,
    i: int,
    e: nat,
)
    requires
        b.id() == a.id(),
        0 <= a.id() < m.len(),
        0 <= i < m[a.id() as int].elems.len(),
    ensures
        replaced(m, a.id() as int, i, e)[b.id() as int].elems[i] == e,
        replaced(m, a.id() as int, i, e)[b.id() as int].elems.len()
            == m[a.id() as int].elems.len(),
{
}

} // verus!
