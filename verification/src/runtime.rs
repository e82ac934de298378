//! A reference-count-tracking model of the foreign runtime substrate.
//!
//! The foreign runtime hands out opaque objects, identified here by the
//! index it allocated them under, and manages their lifetime through a
//! per-object reference count: `retain` increments the count, `release`
//! decrements it, and an object whose count reaches zero is finalized.
//! Some objects are sequences (they hold an ordered list of other objects),
//! and some are error objects (they carry a human-readable description);
//! the model gives every object both facets and leaves them empty where
//! they do not apply.
//!
//! A finalized object keeps its slot, so identifiers stay stable; using it
//! again is a caller contract violation, excluded by the preconditions of
//! every operation that touches a live object.

use vstd::prelude::*;

verus! {

/// The model of one foreign object: its current reference count, the
/// identifiers of the elements it holds when it is a sequence object, and
/// its description when it is an error object.
#[verifier::ext_equal]
pub ghost struct ObjModel {
    pub count: nat,
    pub elems: Seq<nat>,
    pub desc: Seq<char>,
}

struct Obj {
    count: u64,
    elems: Vec<usize>,
    desc: String,
}

impl View for Obj {
    type V = ObjModel;

    closed spec fn view(&self) -> ObjModel {
        ObjModel {
            count: self.count as nat,
            elems: self.elems@.map_values(|e: usize| e as nat),
            desc: self.desc@,
        }
    }
}

/// The foreign runtime substrate: every object it has handed out so far,
/// in allocation order, each with its current reference count.
pub struct Runtime {
    objects: Vec<Obj>,
}

impl View for Runtime {
    type V = Seq<ObjModel>;

    closed spec fn view(&self) -> Seq<ObjModel> {
        self.objects@.map_values(|o: Obj| o@)
    }
}

/// The model after the runtime has incremented the reference count of the
/// object at `id`.
pub open spec fn retained(m: Seq<ObjModel>, id: int) -> Seq<ObjModel> {
    m.update(
        id,
        ObjModel { count: m[id].count + 1, elems: m[id].elems, desc: m[id].desc },
    )
}

/// The model after the runtime has decremented the reference count of the
/// object at `id`; a count of zero means the object was finalized.
pub open spec fn released(m: Seq<ObjModel>, id: int) -> Seq<ObjModel> {
    m.update(
        id,
        ObjModel { count: (m[id].count - 1) as nat, elems: m[id].elems, desc: m[id].desc },
    )
}

/// The model after the sequence object at `id` has replaced the element at
/// position `i` with the object `e`.
pub open spec fn replaced(m: Seq<ObjModel>, id: int, i: int, e: nat) -> Seq<ObjModel> {
    m.update(
        id,
        ObjModel { count: m[id].count, elems: m[id].elems.update(i, e), desc: m[id].desc },
    )
}

impl Runtime {
    /// `id` denotes an object the runtime has handed out.
    pub open spec fn is_obj(self, id: nat) -> bool {
        id < self@.len()
    }

    /// The object at `id` is live: handed out and not yet finalized.
    pub open spec fn live(self, id: nat) -> bool {
        &&& self.is_obj(id)
        &&& self@[id as int].count > 0
    }

    /// A fresh runtime that has handed out no objects yet.
    pub fn new() -> (rt: Runtime)
        ensures
            rt@ == Seq::<ObjModel>::empty(),
    {
        let rt = Runtime { objects: Vec::new() };
        proof {
            assert(rt@ =~= Seq::<ObjModel>::empty());
        }
        rt
    }

    /// Models the runtime handing out a freshly allocated plain object that
    /// already carries one unit of reference count.
    pub fn alloc_object(&mut self) -> (id: usize)
        ensures
            id == old(self)@.len(),
            final(self)@ == old(self)@.push(
                ObjModel { count: 1, elems: Seq::empty(), desc: Seq::empty() },
            ),
    {
        let id = self.objects.len();
        self.objects.push(Obj { count: 1, elems: Vec::new(), desc: String::new() });
        proof {
            assert(self@ =~~= old(self)@.push(
                ObjModel { count: 1, elems: Seq::empty(), desc: Seq::empty() },
            ));
        }
        id
    }

    /// Models the runtime handing out a freshly allocated error object that
    /// carries one unit of reference count and the given description.
    pub fn alloc_error(&mut self, desc: String) -> (id: usize)
        ensures
            id == old(self)@.len(),
            final(self)@ == old(self)@.push(
                ObjModel { count: 1, elems: Seq::empty(), desc: desc@ },
            ),
    {
        let ghost d = desc@;
        let id = self.objects.len();
        self.objects.push(Obj { count: 1, elems: Vec::new(), desc });
        proof {
            assert(self@ =~~= old(self)@.push(
                ObjModel { count: 1, elems: Seq::empty(), desc: d },
            ));
        }
        id
    }

    /// Models the runtime handing out a freshly allocated sequence object
    /// that holds the given elements, in order, and already carries one unit
    /// of reference count. The sequence's own retention of its elements is
    /// the substrate's internal affair and is not visible at this boundary.
    pub fn alloc_sequence(&mut self, elems: Vec<usize>) -> (id: usize)
        ensures
            id == old(self)@.len(),
            final(self)@ == old(self)@.push(
                ObjModel {
                    count: 1,
                    elems: elems@.map_values(|e: usize| e as nat),
                    desc: Seq::empty(),
                },
            ),
    {
        let ghost ids = elems@.map_values(|e: usize| e as nat);
        let id = self.objects.len();
        self.objects.push(Obj { count: 1, elems, desc: String::new() });
        proof {
            assert(self@ =~= old(self)@.push(
                ObjModel { count: 1, elems: ids, desc: Seq::empty() },
            ));
        }
        id
    }

    /// Increment the reference count of the object at `id`.
    ///
    /// The object must be live: asking the runtime to retain a finalized
    /// object is a caller contract violation, not a recoverable error.
    pub fn retain(&mut self, id: usize)
        requires
            old(self).live(id as nat),
            old(self)@[id as int].count < u64::MAX,
        ensures
            final(self)@ == retained(old(self)@, id as int),
    {
        let o = &mut self.objects[id];
        o.count = o.count + 1;
        proof {
            assert(self@ =~= retained(old(self)@, id as int));
        }
    }

    /// Decrement the reference count of the object at `id`, finalizing it
    /// when the count reaches zero.
    ///
    /// The object must be live: a release past finalization is a caller
    /// contract violation, not a recoverable error.
    pub fn release(&mut self, id: usize)
        requires
            old(self).live(id as nat),
        ensures
            final(self)@ == released(old(self)@, id as int),
    {
        let o = &mut self.objects[id];
        o.count = o.count - 1;
        proof {
            assert(self@ =~= released(old(self)@, id as int));
        }
    }

    /// Read the current reference count of the object at `id`.
    pub fn ref_count(&self, id: usize) -> (c: u64)
        requires
            self.is_obj(id as nat),
        ensures
            c == self@[id as int].count,
    {
        self.objects[id].count
    }

    /// Dispatch the element-count read to the sequence object at `id`.
    pub fn seq_len(&self, id: usize) -> (n: usize)
        requires
            self.live(id as nat),
        ensures
            n == self@[id as int].elems.len(),
    {
        self.objects[id].elems.len()
    }

    /// Dispatch the element read at position `i` to the sequence object at
    /// `id`; the result is handed back without any transfer of ownership.
    pub fn seq_get(&self, id: usize, i: usize) -> (e: usize)
        requires
            self.live(id as nat),
            i < self@[id as int].elems.len(),
        ensures
            e as nat == self@[id as int].elems[i as int],
    {
        self.objects[id].elems[i]
    }

    /// Dispatch a replacement of the element at position `i` to the sequence
    /// object at `id`; mutation of a sequence's contents is the foreign
    /// object's own affair and leaves every reference count unchanged.
    pub fn seq_replace(&mut self, id: usize, i: usize, e: usize)
        requires
            old(self).live(id as nat),
            i < old(self)@[id as int].elems.len(),
        ensures
            final(self)@ == replaced(old(self)@, id as int, i as int, e as nat),
    {
        let o = &mut self.objects[id];
        o.elems[i] = e;
        proof {
            assert(self@ =~~= replaced(old(self)@, id as int, i as int, e as nat));
        }
    }

    /// Dispatch the description read to the error object at `id`; extraction
    /// is treated as infallible and leaves the reference count unchanged.
    pub fn description(&self, id: usize) -> (d: String)
        requires
            self.live(id as nat),
        ensures
            d@ == self@[id as int].desc,
    {
        self.objects[id].desc.clone()
    }
}

} // verus!
