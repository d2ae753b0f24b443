//! The concrete backend: a readers-writer lock for a single-task setting,
//! with the grant bookkeeping done eagerly. Where a multi-task engine would
//! suspend a caller until a grant is possible, this backend reports the
//! refusal immediately; the grant conditions are the same.

use crate::implbox::ImplBox;
use crate::runtime::{AsyncRwLock, Locker, Runtime};
use vstd::prelude::*;

verus! {

/// The tag under which [`LocalRuntime`] boxes its locks.
pub const LOCAL_LOCK_TAG: u64 = 0x10c4;

/// A readers-writer lock holding its value inline, with explicit holder
/// bookkeeping.
pub struct LocalLock<T> {
    item: T,
    reader_count: usize,
    write_held: bool,
}

impl<T> LocalLock<T> {
    /// The protected value.
    pub closed spec fn stored(&self) -> T {
        self.item
    }

    /// How many shared holders there are.
    pub closed spec fn shared_holders(&self) -> nat {
        self.reader_count as nat
    }

    /// Whether an exclusive holder exists.
    pub closed spec fn exclusive_held(&self) -> bool {
        self.write_held
    }
}

impl<T> AsyncRwLock<T> for LocalLock<T> {
    open spec fn value(&self) -> T {
        self.stored()
    }

    open spec fn readers(&self) -> nat {
        self.shared_holders()
    }

    open spec fn writer(&self) -> bool {
        self.exclusive_held()
    }

    fn new(item: T) -> (r: Self) {
        LocalLock { item, reader_count: 0, write_held: false }
    }

    fn acquire_read(&mut self) -> (granted: bool) {
        if !self.write_held && self.reader_count < usize::MAX {
            self.reader_count = self.reader_count + 1;
            true
        } else {
            false
        }
    }

    fn release_read(&mut self) {
        self.reader_count = self.reader_count - 1;
    }

    fn acquire_write(&mut self) -> (granted: bool) {
        if !self.write_held && self.reader_count == 0 {
            self.write_held = true;
            true
        } else {
            false
        }
    }

    fn release_write(&mut self) {
        self.write_held = false;
    }

    fn read(&self) -> (r: &T) {
        &self.item
    }

    fn write(&mut self, item: T) {
        self.item = item;
    }
}

/// The backend choice for callers that run everything on the current task.
pub struct LocalRuntime;

impl<T> Locker<T> for LocalRuntime {
    type Lock = LocalLock<T>;

    closed spec fn lock_tag() -> u64 {
        LOCAL_LOCK_TAG as u64
    }

    fn tag() -> (r: u64) {
        LOCAL_LOCK_TAG
    }

    fn new_lock(item: T) -> (r: Self::Lock) {
        LocalLock::new(item)
    }

    fn box_lock(item: T) -> (r: ImplBox<Self::Lock>) {
        ImplBox::new(LOCAL_LOCK_TAG, LocalLock::new(item))
    }

    fn unbox_lock(b: &ImplBox<Self::Lock>) -> (r: &Self::Lock) {
        b.borrow(LOCAL_LOCK_TAG)
    }
}

impl<T> Runtime<T> for LocalRuntime {

}

} // verus!
