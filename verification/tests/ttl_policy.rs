use redis_async_pool::ttl::{compute_expiry, expiry_fits_check, Ttl, TtlError};

#[test]
fn no_policy_yields_no_expiry() {
    assert_eq!(compute_expiry(&None, 0).unwrap(), None);
    assert_eq!(compute_expiry(&None, 12_345).unwrap(), None);
    assert_eq!(compute_expiry(&None, u64::MAX).unwrap(), None);
}

#[test]
fn simple_policy_adds_duration() {
    assert_eq!(compute_expiry(&Some(Ttl::Simple(5)), 100).unwrap(), Some(105));
    assert_eq!(compute_expiry(&Some(Ttl::Simple(1)), 0).unwrap(), Some(1));
}

#[test]
fn simple_policy_is_deterministic() {
    let first = compute_expiry(&Some(Ttl::Simple(77)), 1_000).unwrap();
    for _ in 0..50 {
        assert_eq!(compute_expiry(&Some(Ttl::Simple(77)), 1_000).unwrap(), first);
    }
}

#[test]
fn simple_policy_zero_duration_expires_at_creation() {
    assert_eq!(compute_expiry(&Some(Ttl::Simple(0)), 42).unwrap(), Some(42));
}

#[test]
fn once_policy_expires_at_creation() {
    assert_eq!(compute_expiry(&Some(Ttl::Once), 0).unwrap(), Some(0));
    assert_eq!(compute_expiry(&Some(Ttl::Once), 99).unwrap(), Some(99));
}

#[test]
fn fuzzy_policy_stays_in_half_open_range() {
    // Across repeated draws the expiry lies in [now + min, now + min + fuzz).
    // Would fail if the draw were ever handed back as the bound itself.
    for _ in 0..200 {
        let e = compute_expiry(&Some(Ttl::Fuzzy { min: 10, fuzz: 3 }), 100)
            .unwrap()
            .unwrap();
        assert!((110..113).contains(&e));
    }
}

#[test]
fn fuzzy_policy_with_empty_range_is_rejected() {
    let r = compute_expiry(&Some(Ttl::Fuzzy { min: 10, fuzz: 0 }), 100);
    assert!(matches!(r, Err(TtlError::InvalidConfig)));
}

#[test]
fn expiry_fits_check_detects_overflow() {
    assert!(expiry_fits_check(&None, u64::MAX));
    assert!(expiry_fits_check(&Some(Ttl::Once), u64::MAX));
    assert!(expiry_fits_check(&Some(Ttl::Simple(5)), u64::MAX - 5));
    assert!(!expiry_fits_check(&Some(Ttl::Simple(6)), u64::MAX - 5));
    assert!(expiry_fits_check(&Some(Ttl::Fuzzy { min: 3, fuzz: 2 }), u64::MAX - 5));
    assert!(!expiry_fits_check(&Some(Ttl::Fuzzy { min: 4, fuzz: 2 }), u64::MAX - 5));
    assert!(!expiry_fits_check(&Some(Ttl::Fuzzy { min: u64::MAX, fuzz: u64::MAX }), 1));
}
