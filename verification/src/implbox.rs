//! An owning, tag-checked handle for a value chosen by someone other than its
//! holder.
//!
//! A generic owner may need to store "some implementation of a capability,
//! picked by a factory it does not control" in a field. The factory boxes the
//! value together with a numeric tag that identifies the concrete choice; the
//! matching accessor pair recovers the value only when it presents the same
//! tag. A mismatched tag is a wiring defect, never a recoverable condition:
//! the accessors demand the matching tag up front, and the checked entry
//! points report a mismatch without ever handing out the payload.

use vstd::prelude::*;

verus! {

/// An owning box holding a payload together with the tag of whoever created
/// it. The payload is reachable only through accessors that present the same
/// tag.
pub struct ImplBox<T> {
    id: u64,
    payload: T,
}

impl<T> ImplBox<T> {
    /// The tag the box was created with.
    pub closed spec fn tag(&self) -> u64 {
        self.id
    }

    /// The boxed payload.
    pub closed spec fn value(&self) -> T {
        self.payload
    }

    /// Boxes `payload` under `id`. Only accessors presenting `id` get the
    /// payload back.
    pub fn new(id: u64, payload: T) -> (r: Self)
        ensures
            r.tag() == id,
            r.value() == payload,
    {
        Self { id, payload }
    }

    /// True exactly when `id` is the tag the box was created with.
    pub fn matches(&self, id: u64) -> (r: bool)
        ensures
            r == (id == self.tag()),
    {
        self.id == id
    }

    /// Runs `f` on the payload. Presenting the wrong tag is a contract
    /// violation, ruled out up front rather than detected at run time.
    pub fn with<Ret, F: FnOnce(&T) -> Ret>(&self, id: u64, f: F) -> (r: Ret)
        requires
            id == self.tag(),
            call_requires(f, (&self.value(),)),
        ensures
            call_ensures(f, (&self.value(),), r),
    {
        f(&self.payload)
    }

    /// Borrows the payload; the tag must match.
    pub fn borrow(&self, id: u64) -> (r: &T)
        requires
            id == self.tag(),
        ensures
            *r == self.value(),
    {
        &self.payload
    }

    /// Borrows the payload for writing; the tag must match and survives the
    /// write unchanged.
    pub fn borrow_mut(&mut self, id: u64) -> (r: &mut T)
        requires
            id == old(self).tag(),
        ensures
            *r == old(self).value(),
            final(self).tag() == old(self).tag(),
            final(self).value() == *final(r),
    {
        &mut self.payload
    }

    /// Runs `f` on the payload only if `id` is the matching tag. On a
    /// mismatch `f` is never invoked and no payload is handed out: the
    /// mismatch is reported, never silently misread.
    pub fn try_with<Ret, F: FnOnce(&T) -> Ret>(&self, id: u64, f: F) -> (r: Option<Ret>)
        requires
            id == self.tag() ==> call_requires(f, (&self.value(),)),
        ensures
            id == self.tag() ==> (r matches Some(out) && call_ensures(f, (&self.value(),), out)),
            id != self.tag() ==> r is None,
    {
        if self.id == id {
            Some(f(&self.payload))
        } else {
            None
        }
    }

    /// Borrows the payload only if the tag matches, reporting a mismatch
    /// instead of handing out a misinterpreted payload.
    pub fn try_borrow(&self, id: u64) -> (r: Option<&T>)
        ensures
            id == self.tag() ==> (r matches Some(p) && *p == self.value()),
            id != self.tag() ==> r is None,
    {
        if self.id == id {
            Some(&self.payload)
        } else {
            None
        }
    }
}

} // verus!
