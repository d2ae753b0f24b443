use lockbox::implbox::ImplBox;
use lockbox::runtime::{AsyncRwLock, Locker};
use lockbox::rwlock::{LocalLock, LocalRuntime};

#[test]
fn test_lock() {
    // The write-lock handshake: while the first writer holds the lock, the
    // second request is not granted; once the first releases, the second
    // sees exactly the state the first left behind.
    let mut m: LocalLock<i32> = LocalLock::new(5);
    assert!(m.acquire_write());
    // A competing writer cannot get in mid-write.
    assert!(!m.acquire_write());
    assert_eq!(*m.read(), 5);
    m.write(10);
    m.release_write();
    assert!(m.acquire_write());
    assert_eq!(*m.read(), 10);
    m.write(11);
    m.release_write();
    assert!(m.acquire_read());
    assert_eq!(*m.read(), 11);
    m.release_read();
}

#[test]
fn readers_share_writers_exclude() {
    let mut m: LocalLock<u8> = LocalLock::new(3);
    assert!(m.acquire_read());
    assert!(m.acquire_read());
    // A writer is refused while readers hold the lock.
    assert!(!m.acquire_write());
    m.release_read();
    m.release_read();
    assert!(m.acquire_write());
    // A reader is refused while the writer holds the lock, so it cannot
    // observe a value mid-mutation.
    assert!(!m.acquire_read());
    m.write(4);
    m.release_write();
    assert!(m.acquire_read());
    assert_eq!(*m.read(), 4);
    m.release_read();
}

#[test]
fn test_locker() {
    // Boxing a lock through the factory and getting it back through the
    // matching accessor reaches the same lock.
    let mut b: ImplBox<LocalLock<i32>> = <LocalRuntime as Locker<i32>>::box_lock(3);
    let tag = <LocalRuntime as Locker<i32>>::tag();
    assert!(b.matches(tag));
    let lk = b.borrow_mut(tag);
    assert!(lk.acquire_write());
    assert_eq!(*lk.read(), 3);
    lk.write(4);
    lk.release_write();
    assert!(lk.acquire_read());
    assert_eq!(*lk.read(), 4);
    lk.release_read();
    // The shared accessor reaches the same, updated lock.
    let m = <LocalRuntime as Locker<i32>>::unbox_lock(&b);
    assert_eq!(*m.read(), 4);
}

// Exercises a lock through the abstraction alone, so it works against any
// backend.
fn generic_thing<M: AsyncRwLock<i32>>(m: &mut M) {
    assert!(m.acquire_read());
    assert_eq!(*m.read(), 3);
    m.release_read();
    assert!(m.acquire_write());
    m.write(4);
    m.release_write();
    assert!(m.acquire_read());
    assert_eq!(*m.read(), 4);
    m.release_read();
}

#[test]
fn generic_lock_access() {
    let mut m: LocalLock<i32> = LocalLock::new(3);
    generic_thing(&mut m);
    assert!(m.acquire_read());
    assert_eq!(*m.read(), 4);
    m.release_read();
}
