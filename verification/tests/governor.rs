use gifdex_ingest::governor::{ack_frame, should_ack, Permits, DISPATCH_PERMITS};
use gifdex_ingest::handlers::{Outcome, RejectReason};

#[test]
fn permit_pool_starts_full_and_bounds_inflight() {
    let mut p = Permits::new();
    assert_eq!(p.available(), DISPATCH_PERMITS);
    let mut taken: u64 = 0;
    while p.try_acquire() {
        taken += 1;
    }
    assert_eq!(taken, DISPATCH_PERMITS);
    assert_eq!(p.available(), 0);
    assert!(!p.try_acquire());
    p.release();
    assert_eq!(p.available(), 1);
    assert!(p.try_acquire());
    assert_eq!(p.available(), 0);
}

#[test]
fn acknowledgment_decision() {
    assert!(should_ack(&Outcome::Applied));
    assert!(should_ack(&Outcome::Rejected(RejectReason::HashMismatch)));
    assert!(should_ack(&Outcome::Unsupported));
    assert!(!should_ack(&Outcome::Fault));
}

#[test]
fn ack_frame_exact_bytes() {
    assert_eq!(String::from_utf8(ack_frame(0)).unwrap(), "{\"type\":\"ack\",\"id\":0}");
    assert_eq!(String::from_utf8(ack_frame(7)).unwrap(), "{\"type\":\"ack\",\"id\":7}");
    assert_eq!(
        String::from_utf8(ack_frame(1234567890)).unwrap(),
        "{\"type\":\"ack\",\"id\":1234567890}"
    );
    assert_eq!(
        String::from_utf8(ack_frame(usize::MAX)).unwrap(),
        format!("{{\"type\":\"ack\",\"id\":{}}}", usize::MAX)
    );
}
