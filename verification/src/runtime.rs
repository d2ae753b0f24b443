//! The backend-agnostic capability interfaces: a readers-writer lock whose
//! acquisition may have to wait, and a factory that builds such a lock for
//! any payload type and hands it over boxed, so a generic owner can store it
//! without naming the backend's concrete lock type.

use crate::implbox::ImplBox;
use std::marker::PhantomData;
use vstd::prelude::*;

verus! {

/// A readers-writer lock over a value of type `T`.
///
/// The model tracks how many shared holders there are and whether an
/// exclusive holder exists; at most one exclusive holder is ever granted, and
/// never beside a shared holder. An acquisition that cannot be granted
/// reports that instead of blocking: a backend built on a cooperative
/// scheduler suspends the caller until the same request would be granted.
pub trait AsyncRwLock<T>: Sized {
    /// The protected value.
    spec fn value(&self) -> T;

    /// How many shared holders there are.
    spec fn readers(&self) -> nat;

    /// Whether an exclusive holder exists.
    spec fn writer(&self) -> bool;

    /// A fresh, unheld lock protecting `item`.
    fn new(item: T) -> (r: Self)
        ensures
            r.value() == item,
            r.readers() == 0,
            !r.writer(),
    ;

    /// Requests shared access. Granted exactly when no exclusive holder
    /// exists (and the holder count can still grow); the protected value is
    /// never changed by asking.
    fn acquire_read(&mut self) -> (granted: bool)
        ensures
            granted == (!old(self).writer() && old(self).readers() < usize::MAX),
            final(self).value() == old(self).value(),
            final(self).writer() == old(self).writer(),
            final(self).readers() == if granted {
                old(self).readers() + 1
            } else {
                old(self).readers()
            },
    ;

    /// Gives back shared access.
    fn release_read(&mut self)
        requires
            old(self).readers() > 0,
        ensures
            final(self).value() == old(self).value(),
            final(self).writer() == old(self).writer(),
            final(self).readers() == old(self).readers() - 1,
    ;

    /// Requests exclusive access. Granted exactly when nobody holds the lock
    /// in either mode; the protected value is never changed by asking.
    fn acquire_write(&mut self) -> (granted: bool)
        ensures
            granted == (!old(self).writer() && old(self).readers() == 0),
            final(self).value() == old(self).value(),
            final(self).readers() == old(self).readers(),
            final(self).writer() == (old(self).writer() || granted),
    ;

    /// Gives back exclusive access. The value left behind is exactly the
    /// value the holder last stored.
    fn release_write(&mut self)
        requires
            old(self).writer(),
        ensures
            final(self).value() == old(self).value(),
            final(self).readers() == old(self).readers(),
            !final(self).writer(),
    ;

    /// Reads the protected value; the caller must hold the lock in either
    /// mode.
    fn read(&self) -> (r: &T)
        requires
            self.readers() > 0 || self.writer(),
        ensures
            *r == self.value(),
    ;

    /// Stores a new protected value; the caller must hold the lock
    /// exclusively.
    fn write(&mut self, item: T)
        requires
            old(self).writer(),
        ensures
            final(self).value() == item,
            final(self).readers() == old(self).readers(),
            final(self).writer() == old(self).writer(),
    ;
}

/// A marker type pairing a boxed lock with the payload type it protects.
/// A handle that erases its lock type keeps `LockBox<T>` as the compile-time
/// record that "a lock of `T`" is inside.
pub struct LockBox<T>(PhantomData<T>);

/// A factory that builds a lock for any payload and boxes it under the
/// factory's own tag, so an owner that cannot name the concrete lock type can
/// still store it and get it back.
pub trait Locker<T> {
    /// The concrete lock type this factory builds.
    type Lock: AsyncRwLock<T>;

    /// The tag this factory boxes its locks under.
    spec fn lock_tag() -> u64;

    /// The tag, available to executable callers.
    fn tag() -> (r: u64)
        ensures
            r == Self::lock_tag(),
    ;

    /// Builds a fresh, unheld lock protecting `item`.
    fn new_lock(item: T) -> (r: Self::Lock)
        ensures
            r.value() == item,
            r.readers() == 0,
            !r.writer(),
    ;

    /// Builds a lock for `item` and boxes it under this factory's tag.
    fn box_lock(item: T) -> (r: ImplBox<Self::Lock>)
        ensures
            r.tag() == Self::lock_tag(),
            r.value().value() == item,
            r.value().readers() == 0,
            !r.value().writer(),
    ;

    /// The accessor matching [`Locker::box_lock`]: recovers the lock from a
    /// box carrying this factory's tag.
    fn unbox_lock(b: &ImplBox<Self::Lock>) -> (r: &Self::Lock)
        requires
            b.tag() == Self::lock_tag(),
        ensures
            *r == b.value(),
    ;
}

/// An execution backend: anything that can supply locks for the payload
/// type.
pub trait Runtime<T>: Locker<T> {

}

} // verus!
