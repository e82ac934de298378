//! The owned/borrowed handle pair over a foreign object kind, and the
//! capability-chain relation between kinds.
//!
//! For each foreign object kind there is an owned handle — the exclusive
//! holder of one unit of the object's reference count — and a borrowed
//! view, a non-owning reference that never touches the count. An owned
//! handle is move-only: duplication is an explicit, visible operation that
//! retains the object, and destruction consumes the handle, so each handle
//! releases its one unit exactly once.

use vstd::prelude::*;
use core::marker::PhantomData;

use crate::runtime::released;
use crate::runtime::retained;
use crate::runtime::ObjModel;
use crate::runtime::Runtime;

verus! {

/// A foreign object kind: a kind of opaque, externally reference-counted
/// object that operations can be dispatched to. The kind itself carries no
/// data; it only distinguishes handles at the type level.
pub trait ForeignKind {

}

/// A declared capability-chain relation: a borrowed view of `Self` may
/// stand wherever a borrowed view of `General` is expected, because the
/// foreign runtime's own class hierarchy makes every object of kind `Self`
/// an object of kind `General`.
///
/// The relation must be declared once per pair and is deliberately not
/// transitive unless chained declarations say so, to keep each relation
/// auditable against the real foreign hierarchy. That a declared relation
/// faithfully mirrors that hierarchy is the declarer's obligation, not one
/// this layer can check.
pub trait SubkindOf<General: ForeignKind>: ForeignKind {

}

/// An owned handle on a foreign object of kind `K`: the holder of exactly
/// one unit of the object's reference count.
///
/// Owned handles are move-only. Over its lifetime a handle causes exactly
/// one increment (at creation, unless created by taking over an already
/// counted pointer) and exactly one decrement (at destruction, which
/// consumes it).
pub struct OwnedHandle<K: ForeignKind> {
    ptr: usize,
    kind: PhantomData<K>,
}

/// A borrowed view of a foreign object of kind `K`: a reference with no
/// ownership, valid only as long as some owned handle (or an externally
/// asserted lifetime) keeps the object's count alive. Producing or dropping
/// a borrowed view never changes the reference count.
pub struct BorrowedView<K: ForeignKind> {
    ptr: usize,
    kind: PhantomData<K>,
}

impl<K: ForeignKind> OwnedHandle<K> {
    /// The identifier of the foreign object this handle refers to.
    pub closed spec fn id(self) -> nat {
        self.ptr as nat
    }

    /// Take over a pointer that already carries one unit of reference
    /// count — a freshly allocated object, or a dispatch result documented
    /// as "already owned". That the pointer really carries that unit is the
    /// caller's obligation; no retain is performed.
    pub fn from_ptr(ptr: usize) -> (h: Self)
        ensures
            h.id() == ptr,
    {
        OwnedHandle { ptr, kind: PhantomData }
    }

    /// Read the underlying pointer without affecting the count.
    pub fn as_ptr(&self) -> (p: usize)
        ensures
            p == self.id(),
    {
        self.ptr
    }

    /// Duplicate the handle: retain the object once and hand back a second,
    /// independent owned handle referring to the same foreign object
    /// (shared identity, not copied content).
    pub fn duplicate(&self, rt: &mut Runtime) -> (h: Self)
        requires
            old(rt).live(self.id()),
            old(rt)@[self.id() as int].count < u64::MAX,
        ensures
            h.id() == self.id(),
            final(rt)@ == retained(old(rt)@, self.id() as int),
    {
        rt.retain(self.ptr);
        OwnedHandle { ptr: self.ptr, kind: PhantomData }
    }

    /// Destroy the handle: release the object's count exactly once. The
    /// handle is consumed, so no second release can follow.
    pub fn destroy(self, rt: &mut Runtime)
        requires
            old(rt).live(self.id()),
        ensures
            final(rt)@ == released(old(rt)@, self.id() as int),
    {
        rt.release(self.ptr);
    }

    /// Produce a borrowed view of the same object: a pure pointer read,
    /// always infallible and free of side effects, exposing the identical
    /// underlying pointer.
    pub fn borrow(&self) -> (v: BorrowedView<K>)
        ensures
            v.id() == self.id(),
    {
        BorrowedView { ptr: self.ptr, kind: PhantomData }
    }
}

impl<K: ForeignKind> BorrowedView<K> {
    /// The identifier of the foreign object this view refers to.
    pub closed spec fn id(self) -> nat {
        self.ptr as nat
    }

    /// View a pointer handed back by the runtime with no transferred
    /// ownership; the caller asserts the object outlives the view.
    pub fn from_ptr(ptr: usize) -> (v: Self)
        ensures
            v.id() == ptr,
    {
        BorrowedView { ptr, kind: PhantomData }
    }

    /// Read the underlying pointer without affecting the count.
    pub fn as_ptr(&self) -> (p: usize)
        ensures
            p == self.id(),
    {
        self.ptr
    }

    /// Produce a fresh borrowed view of the same object.
    pub fn reborrow(&self) -> (v: Self)
        ensures
            v.id() == self.id(),
    {
        BorrowedView { ptr: self.ptr, kind: PhantomData }
    }

    /// Use this view where a view of the more general kind `J` is expected,
    /// through a declared capability-chain relation: no new object, no
    /// count change, and the identical underlying pointer.
    pub fn upcast<J: ForeignKind>(&self) -> (v: BorrowedView<J>) where K: SubkindOf<J>
        ensures
            v.id() == self.id(),
    {
        BorrowedView { ptr: self.ptr, kind: PhantomData }
    }

    /// Turn the view into an independent owned handle on the same object by
    /// retaining it once.
    pub fn to_owned(&self, rt: &mut Runtime) -> (h: OwnedHandle<K>)
        requires
            old(rt).live(self.id()),
            old(rt)@[self.id() as int].count < u64::MAX,
        ensures
            h.id() == self.id(),
            final(rt)@ == retained(old(rt)@, self.id() as int),
    {
        rt.retain(self.ptr);
        OwnedHandle { ptr: self.ptr, kind: PhantomData }
    }
}

/// The model after an owned handle on the object at `id` has been
/// duplicated `n` times and then destroyed `d` times (`d` counting the
/// original handle as well once it, too, is destroyed): `n` retains
/// followed by `d` releases.
pub open spec fn after_balanced_script(m: Seq<ObjModel>, id: int, n: nat, d: nat) -> Seq<ObjModel>
    decreases n + d,
{
    if d > 0 {
        released(after_balanced_script(m, id, n, (d - 1) as nat), id)
    } else if n > 0 {
        retained(after_balanced_script(m, id, (n - 1) as nat, 0), id)
    } else {
        m
    }
}

proof fn lemma_balanced_script_count(m: Seq<ObjModel>, id: int, n: nat, d: nat)
    requires
        0 <= id < m.len(),
        m[id].count == 1,
        d <= n + 1,
    ensures
        after_balanced_script(m, id, n, d).len() == m.len(),
        after_balanced_script(m, id, n, d)[id].count == 1 + n - d,
    decreases n + d,
{
    if d > 0 {
        lemma_balanced_script_count(m, id, n, (d - 1) as nat);
    } else if n > 0 {
        lemma_balanced_script_count(m, id, (n - 1) as nat, 0);
    }
}

/// Exactly-once finalization: starting from an object whose count is one —
/// a single owned handle — a sequence of `n` duplications followed by
/// `n + 1` destructions (the `n` duplicates and the original) brings the
/// reference count to exactly zero at the last destruction and not before.
pub proof fn lemma_exactly_once_finalization(m: Seq<ObjModel>, id: int, n: nat)
    requires
        0 <= id < m.len(),
        m[id].count == 1,
    ensures
        forall|d: nat|
            d <= n ==> (#[trigger] after_balanced_script(m, id, n, d))[id].count > 0,
        after_balanced_script(m, id, n, n + 1)[id].count == 0,
{
    assert forall|d: nat| d <= n implies (#[trigger] after_balanced_script(
        m,
        id,
        n,
        d,
    ))[id].count > 0 by {
        lemma_balanced_script_count(m, id, n, d);
    }
    lemma_balanced_script_count(m, id, n, n + 1);
}

} // verus!
