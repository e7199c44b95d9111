use spinlock::lock::Mutex;

#[test]
fn new_starts_unlocked() {
    let m = Mutex::new(42u64);
    assert!(!m.is_locked());
}

#[test]
fn with_lock_returns_closure_result() {
    let mut m = Mutex::new(7u64);
    let r = m.with_lock(|v| {
        *v += 1;
        *v
    });
    assert_eq!(r, 8);
    assert!(!m.is_locked());
}

#[test]
fn with_lock_unit_result() {
    let mut m = Mutex::new(0u64);
    let r: () = m.with_lock(|v| {
        *v = 3;
    });
    assert_eq!(r, ());
    assert_eq!(m.with_lock(|v| *v), 3);
}

#[test]
fn with_lock_arbitrary_result_type() {
    let mut m = Mutex::new(7u64);
    let r = m.with_lock(|v| format!("{}", *v));
    assert_eq!(r, "7");
}

#[test]
fn counter_reaches_exact_total() {
    // Ten callers of a hundred guarded increments each: the counter must
    // come out at exactly ten times a hundred, with no update lost.
    let mut m = Mutex::new(0u64);
    for _caller in 0..10u32 {
        for _step in 0..100u32 {
            m.with_lock(|v| {
                *v += 1;
            });
        }
    }
    assert_eq!(m.with_lock(|v| *v), 1000);
}

#[test]
fn second_acquire_is_refused_while_held() {
    let mut m = Mutex::new(5u64);
    assert!(m.try_acquire());
    assert!(m.is_locked());
    // Any further attempt — a reentrant caller's included — is refused
    // until the holder releases.
    assert!(!m.try_acquire());
    assert!(!m.try_acquire());
    m.release();
    assert!(!m.is_locked());
    assert!(m.try_acquire());
    m.release();
}

#[test]
fn independent_instances_do_not_block_each_other() {
    let mut a = Mutex::new(1u64);
    let mut b = Mutex::new(2u64);
    assert!(a.try_acquire());
    assert!(b.try_acquire());
    assert!(a.is_locked());
    assert!(b.is_locked());
    b.release();
    a.release();
    assert_eq!(a.with_lock(|v| *v), 1);
    assert_eq!(b.with_lock(|v| *v), 2);
}

#[test]
fn payload_survives_a_lock_cycle() {
    let mut m = Mutex::new(99u64);
    assert!(m.try_acquire());
    m.release();
    assert_eq!(m.with_lock(|v| *v), 99);
}
