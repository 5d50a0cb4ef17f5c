use blobstore::admission::Admission;
use blobstore::handlers::upload_finish;
use blobstore::id::Identifier;
use blobstore::lifecycle::{Lifecycle, Phase};
use blobstore::store::PutOutcome;

#[test]
fn admission_caps_the_requests_in_flight() {
    let mut adm = Admission::new(2);
    assert!(adm.arrive(1));
    assert!(adm.arrive(2));
    assert_eq!(adm.in_flight, 2);
    assert!(!adm.arrive(3));
    assert!(!adm.arrive(4));
    assert_eq!(adm.in_flight, 2, "the limit is never exceeded");
    assert_eq!(adm.waiting.len(), 2);
}

#[test]
fn a_waiting_request_is_admitted_when_a_slot_frees() {
    let mut adm = Admission::new(1);
    assert!(adm.arrive(10));
    assert!(!adm.arrive(11), "the second request waits, it is not rejected");
    let next = adm.release();
    assert_eq!(next, Some(11), "the waiter takes the freed permit");
    assert_eq!(adm.in_flight, 1);
    let last = adm.release();
    assert_eq!(last, None);
    assert_eq!(adm.in_flight, 0);
}

#[test]
fn waiters_are_served_in_arrival_order() {
    let mut adm = Admission::new(1);
    assert!(adm.arrive(1));
    assert!(!adm.arrive(2));
    assert!(!adm.arrive(3));
    assert!(!adm.arrive(4));
    assert_eq!(adm.release(), Some(2));
    assert_eq!(adm.release(), Some(3));
    assert_eq!(adm.release(), Some(4));
    assert_eq!(adm.release(), None);
}

#[test]
fn a_signal_drains_and_the_inflight_upload_still_answers() {
    let mut lc = Lifecycle::new();
    assert!(lc.try_start(), "a running listener accepts");
    lc.signal();
    assert_eq!(lc.phase, Phase::Draining);
    assert!(!lc.try_start(), "no new connection once draining");
    assert_eq!(lc.in_flight, 1, "the in-flight request is kept");
    let id = Identifier::generate();
    let reply = upload_finish(&id, &PutOutcome::Stored, b"*".to_vec());
    assert_eq!(reply.status, 200, "the in-flight upload answers normally");
    lc.finish();
    assert_eq!(lc.phase, Phase::Stopped, "the process exits only after the drain");
    assert_eq!(lc.in_flight, 0);
}

#[test]
fn a_second_signal_changes_nothing() {
    let mut lc = Lifecycle::new();
    lc.signal();
    lc.signal();
    assert_eq!(lc.phase, Phase::Draining);
}

#[test]
fn stopping_waits_for_every_request() {
    let mut lc = Lifecycle::new();
    assert!(lc.try_start());
    assert!(lc.try_start());
    lc.signal();
    lc.finish();
    assert_eq!(lc.phase, Phase::Draining, "one request is still in flight");
    lc.finish();
    assert_eq!(lc.phase, Phase::Stopped);
}
