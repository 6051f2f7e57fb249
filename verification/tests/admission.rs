use valence_core::limiter::AdmissionLimiter;

#[test]
fn admission_capacity_ceiling() {
    let mut l = AdmissionLimiter::new(2);
    let p1 = l.try_acquire().expect("first slot must be free");
    let _p2 = l.try_acquire().expect("second slot must be free");
    assert!(l.try_acquire().is_none(), "no permit beyond capacity");
    assert_eq!(l.issued(), 2);

    l.release(p1);
    assert_eq!(l.issued(), 1);
    assert!(l.try_acquire().is_some(), "exactly one slot freed by the release");
    assert!(l.try_acquire().is_none());
}

#[test]
fn admission_close_rejects_all() {
    let mut l = AdmissionLimiter::new(3);
    let p = l.try_acquire().expect("open limiter under capacity admits");
    l.close();
    assert!(l.is_closed());
    assert!(l.try_acquire().is_none(), "closed limiter admits nobody");
    // Closing does not revoke issued permits; release still works.
    l.release(p);
    assert_eq!(l.issued(), 0);
    assert!(l.try_acquire().is_none(), "the limiter stays closed");
}

#[test]
fn admission_zero_capacity_always_full() {
    let mut l = AdmissionLimiter::new(0);
    assert!(l.try_acquire().is_none());
    assert_eq!(l.capacity(), 0);
}

#[test]
fn admission_getters() {
    let mut l = AdmissionLimiter::new(5);
    assert_eq!(l.capacity(), 5);
    assert_eq!(l.issued(), 0);
    assert!(!l.is_closed());
    let _p = l.try_acquire().unwrap();
    assert_eq!(l.issued(), 1);
    assert_eq!(l.capacity(), 5);
}
