//! The runtime-error-to-result bridge.
//!
//! A fallible foreign operation follows an out-parameter convention: it is
//! handed a mutable, initially-null error slot, and it either leaves the
//! slot null (success) or populates it with an error object it allocated
//! (failure). The bridge owns the error object's entire lifecycle — create
//! (by the runtime) → describe → release exactly once → discard — so that
//! callers never see or release the error object themselves.

use vstd::prelude::*;

use crate::runtime::released;
use crate::runtime::Runtime;

verus! {

/// The out-of-band error slot a fallible foreign operation writes to. It
/// starts pending (null) and is populated at most once; resolving it
/// consumes it, so the error object it may hold is released exactly once
/// on every branch.
pub struct ErrorSlot {
    err: Option<usize>,
}

impl ErrorSlot {
    /// The identifier of the error object the slot holds, if the foreign
    /// operation populated it.
    pub closed spec fn err_id(self) -> Option<nat> {
        match self.err {
            Option::Some(e) => Option::Some(e as nat),
            Option::None => Option::None,
        }
    }

    /// A fresh, pending slot: null, as the convention demands before the
    /// foreign operation runs.
    pub fn new() -> (s: Self)
        ensures
            s.err_id() is None,
    {
        ErrorSlot { err: None }
    }

    /// The foreign operation populates the slot with the error object it
    /// allocated; the object's one unit of reference count passes to the
    /// slot.
    pub fn record(&mut self, id: usize)
        requires
            old(self).err_id() is None,
        ensures
            final(self).err_id() == Option::Some(id as nat),
    {
        self.err = Some(id);
    }

    /// Resolve the operation's outcome once the foreign call has returned.
    ///
    /// If the slot is still null, the operation's own return value is handed
    /// back as success and the runtime is untouched. If the slot was
    /// populated, the error object's description is extracted, the error
    /// object is released exactly once — the slot is consumed, so no second
    /// release can follow — and a failure carrying exactly the extracted
    /// text is handed back.
    pub fn resolve<V>(self, rt: &mut Runtime, value: V) -> (r: Result<V, String>)
        requires
            self.err_id() matches Some(e) ==> old(rt).live(e),
        ensures
            self.err_id() is None ==> {
                &&& final(rt)@ == old(rt)@
                &&& r matches Ok(v) && v == value
            },
            self.err_id() matches Some(e) ==> {
                &&& final(rt)@ == released(old(rt)@, e as int)
                &&& r matches Err(m) && m@ == old(rt)@[e as int].desc
            },
    {
        match self.err {
            None => Ok(value),
            Some(e) => {
                let message = rt.description(e);
                rt.release(e);
                Err(message)
            },
        }
    }
}

} // verus!
