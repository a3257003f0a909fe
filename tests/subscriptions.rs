use zero2prod::subscriptions::{subscribe_outcome, FormData, StoreError, SubscriptionRecord};

fn alice() -> FormData {
    FormData { name: "Alice".to_string(), email: "alice@example.com".to_string() }
}

#[test]
fn record_keeps_name_and_email() {
    let r = SubscriptionRecord::new(&alice());
    assert_eq!(r.name, "Alice");
    assert_eq!(r.email, "alice@example.com");
    assert_eq!((r.id >> 76) & 0xf, 4);
    assert_eq!((r.id >> 62) & 3, 2);
    assert!(r.subscribed_at > 0);
}

#[test]
fn records_get_fresh_identifiers() {
    let a = SubscriptionRecord::new(&alice());
    let b = SubscriptionRecord::new(&FormData {
        name: "Bob".to_string(),
        email: "bob@example.com".to_string(),
    });
    assert_ne!(a.id, b.id);
    assert!(b.subscribed_at >= a.subscribed_at);
}

#[test]
fn stored_submission_gets_success() {
    let r = subscribe_outcome(Ok(()));
    assert_eq!(r.status, 200);
    assert!(r.body.is_empty());
}

#[test]
fn failed_store_gets_server_error() {
    let r = subscribe_outcome(Err(StoreError));
    assert_eq!(r.status, 500);
    assert!(r.body.is_empty());
}
