// The sequencer's mutation step run under a genuine multi-task engine: two
// tasks race for the write lock with an explicit handshake; the second
// acquisition completes only after the first release, and each task sees
// exactly the state the other left.

use lockbox::controller::{apply_request, ReqData};
use std::sync::Arc;
use std::time::Duration;

#[test]
fn concurrent_writers_preserve_every_update() {
    let rt = tokio::runtime::Builder::new_current_thread()
        .enable_time()
        .build()
        .unwrap();
    rt.block_on(async {
        let m1 = Arc::new(tokio::sync::RwLock::new(ReqData::default()));
        let (tx, rx) = tokio::sync::oneshot::channel::<()>();
        let m2 = m1.clone();
        let h1 = tokio::spawn(async move {
            // Grab the lock first, then signal the other task.
            let mut lock = m2.write().await;
            tx.send(()).unwrap();
            // Suspend while holding the guard; the other side cannot get in.
            tokio::time::sleep(Duration::from_millis(10)).await;
            assert_eq!(lock.seq, 0);
            *lock = apply_request(&lock, "one?val=5");
            assert_eq!(lock.seq, 1);
        });
        let m2 = m1.clone();
        let h2 = tokio::spawn(async move {
            // Wait for the signal, then ask for the lock; the request is
            // granted only once the first task releases.
            rx.await.unwrap();
            let mut lock = m2.write().await;
            assert_eq!(lock.seq, 1);
            assert_eq!(lock.last_path, "one?val=5&seq=1");
            *lock = apply_request(&lock, "two?val=potato");
        });
        h1.await.unwrap();
        h2.await.unwrap();
        let lock = m1.read().await;
        assert_eq!(lock.seq, 2);
        assert_eq!(lock.last_path, "two?val=potato&seq=2");
    });
}
