use toss_stream::errors::StreamError;
use toss_stream::registry::SubscriptionRegistry;

#[test]
fn ids_start_at_zero_and_increase() {
    let mut reg = SubscriptionRegistry::new();
    assert_eq!(reg.allocate("AAPL".to_string()), Ok(0));
    assert_eq!(reg.allocate("TSLA".to_string()), Ok(1));
    assert_eq!(reg.allocate("MSFT".to_string()), Ok(2));
}

#[test]
fn realloc_yields_strictly_greater_id() {
    let mut reg = SubscriptionRegistry::new();
    let first = reg.allocate("AAPL".to_string()).unwrap();
    assert_eq!(reg.release(&"AAPL".to_string()), Ok(first));
    let second = reg.allocate("AAPL".to_string()).unwrap();
    assert!(second > first);
    // the counter is monotonic across many cycles
    for _ in 0..10 {
        let prev = reg.release(&"AAPL".to_string()).unwrap();
        let next = reg.allocate("AAPL".to_string()).unwrap();
        assert!(next > prev);
    }
}

#[test]
fn duplicate_allocation_fails() {
    let mut reg = SubscriptionRegistry::new();
    assert_eq!(reg.allocate("AAPL".to_string()), Ok(0));
    assert_eq!(
        reg.allocate("AAPL".to_string()),
        Err(StreamError::DuplicateSubscription)
    );
    // the failure changed nothing: another feed still gets the next ID
    assert_eq!(reg.allocate("TSLA".to_string()), Ok(1));
}

#[test]
fn release_of_unknown_feed_fails() {
    let mut reg = SubscriptionRegistry::new();
    assert_eq!(
        reg.release(&"AAPL".to_string()),
        Err(StreamError::UnknownSubscription)
    );
    reg.allocate("AAPL".to_string()).unwrap();
    reg.release(&"AAPL".to_string()).unwrap();
    assert_eq!(
        reg.release(&"AAPL".to_string()),
        Err(StreamError::UnknownSubscription)
    );
}

#[test]
fn release_returns_the_assigned_id() {
    let mut reg = SubscriptionRegistry::new();
    reg.allocate("AAPL".to_string()).unwrap();
    reg.allocate("TSLA".to_string()).unwrap();
    reg.allocate("MSFT".to_string()).unwrap();
    assert_eq!(reg.release(&"TSLA".to_string()), Ok(1));
    assert_eq!(reg.release(&"AAPL".to_string()), Ok(0));
    assert_eq!(reg.release(&"MSFT".to_string()), Ok(2));
}

#[test]
fn error_descriptions_are_not_empty() {
    let errors = [
        StreamError::TransportError,
        StreamError::ProtocolDecodeError,
        StreamError::DuplicateSubscription,
        StreamError::UnknownSubscription,
        StreamError::NotReady,
        StreamError::ConnectionClosed,
    ];
    for e in errors {
        assert!(!e.describe().is_empty());
    }
}
