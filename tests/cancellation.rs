use order_cancel::cancellation::CancellationTokens;
use order_cancel::single_flight::{FlightRole, SingleFlight};

#[test]
fn linked_token_follows_parent() {
    let mut t = CancellationTokens::new();
    let root = t.create_token();
    let child = t.create_linked_token(root);
    let grandchild = t.create_linked_token(child);
    assert!(!t.is_cancellation_requested(grandchild));
    t.cancel(root);
    assert!(t.is_cancellation_requested(root));
    assert!(t.is_cancellation_requested(child));
    assert!(t.is_cancellation_requested(grandchild));
}

#[test]
fn child_cancel_leaves_parent() {
    let mut t = CancellationTokens::new();
    let root = t.create_token();
    let child = t.create_linked_token(root);
    let sibling = t.create_linked_token(root);
    t.cancel(child);
    t.cancel(child);
    assert!(t.is_cancellation_requested(child));
    assert!(!t.is_cancellation_requested(root));
    assert!(!t.is_cancellation_requested(sibling));
}

#[test]
fn duplicate_callers_one_leader() {
    let mut flight: SingleFlight<u32> = SingleFlight::new();
    let id = "order-1".to_string();
    assert_eq!(flight.enter(&id, 7), FlightRole::Leader);
    assert_eq!(flight.enter(&id, 8), FlightRole::Follower);
    assert_eq!(flight.channel(&id), Some(&7));
    assert_eq!(flight.enter(&"order-2".to_string(), 9), FlightRole::Leader);
    assert_eq!(flight.leave(&id), Some(7));
    assert_eq!(flight.channel(&id), None);
    assert_eq!(flight.leave(&id), None);
    assert_eq!(flight.enter(&id, 10), FlightRole::Leader);
    assert_eq!(flight.channel(&"order-2".to_string()), Some(&9));
}
