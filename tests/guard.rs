use neotron_qemu_bios::{LockError, NeoMutex};

#[test]
fn new_mutex_is_unlocked() {
    let m = NeoMutex::new(5u32);
    assert!(!m.locked());
}

#[test]
fn lock_hands_out_contents() {
    let mut m = NeoMutex::new(7u32);
    let g = m.lock();
    assert_eq!(*g.get(), 7);
    assert!(m.locked());
    m.unlock(g);
    assert!(!m.locked());
}

#[test]
fn reentrant_lock_faults_every_time() {
    let mut m = NeoMutex::new(1u8);
    let g = m.lock();
    for _ in 0..3 {
        match m.try_lock() {
            Err(e) => assert_eq!(e, LockError::Reentrant),
            Ok(_) => panic!("second guard handed out"),
        }
        assert!(m.locked());
    }
    m.unlock(g);
}

#[test]
fn acquire_release_acquire_succeeds() {
    let mut m = NeoMutex::new(10u32);
    let mut g = m.lock();
    *g.get_mut() = 11;
    m.unlock(g);
    let g2 = m.try_lock().expect("released guard can be taken again");
    assert_eq!(*g2.get(), 11);
    m.unlock(g2);
    assert!(!m.locked());
}
