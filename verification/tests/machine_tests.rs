use toss_stream::errors::StreamError;
use toss_stream::machine::ConnState;
use toss_stream::machine::Disposition;
use toss_stream::machine::TossWebSock;
use toss_stream::parse::header_value;
use toss_stream::parse::split_frame;

fn ready_machine() -> TossWebSock {
    let mut m = TossWebSock::new("c1".to_string(), "d1".to_string(), "t1".to_string());
    m.start();
    m.transport_opened();
    let _connect = m.pop_outbound().expect("CONNECT was enqueued");
    let d = m.on_inbound("CONNECTED\nversion:1.2\nheart-beat:5000,5000\n\n\x00");
    assert!(matches!(d, Disposition::ReadySignaled));
    m
}

#[test]
fn start_enqueues_connect_with_credentials() {
    let mut m = TossWebSock::new("c1".to_string(), "d1".to_string(), "t1".to_string());
    assert_eq!(m.current_state(), ConnState::Idle);
    m.start();
    assert_eq!(m.current_state(), ConnState::Connecting);
    m.transport_opened();
    assert_eq!(m.current_state(), ConnState::AwaitingHandshake);

    let frame = m.pop_outbound().expect("CONNECT was enqueued");
    assert!(m.pop_outbound().is_none());
    let (header, _body) = split_frame(&frame).expect("well framed");
    assert_eq!(header_value(&header, "device-id").as_deref(), Some("d1"));
    assert_eq!(header_value(&header, "connection-id").as_deref(), Some("c1"));
    assert_eq!(header_value(&header, "authorization").as_deref(), Some("t1"));
    assert_eq!(header_value(&header, "accept-version").as_deref(), Some("1.2,1.1,1.0"));
    assert_eq!(header_value(&header, "heart-beat").as_deref(), Some("5000,5000"));

    // the handshake completes as soon as a Connected frame arrives
    let d = m.on_inbound("CONNECTED\nversion:1.2\n\n\x00");
    assert!(matches!(d, Disposition::ReadySignaled));
    assert_eq!(m.current_state(), ConnState::Ready);
}

#[test]
fn heartbeat_is_answered_with_one_reply() {
    let mut m = ready_machine();
    let d = m.on_inbound("\n");
    assert!(matches!(d, Disposition::HeartbeatAnswered));
    // exactly one one-byte reply is enqueued
    assert_eq!(m.outbound_len(), 1);
    assert_eq!(m.pop_outbound().as_deref(), Some("\n"));
    assert!(m.pop_outbound().is_none());
    // the one byte is never classified, whatever it is
    let d = m.on_inbound("X");
    assert!(matches!(d, Disposition::HeartbeatAnswered));
    assert_eq!(m.pop_outbound().as_deref(), Some("\n"));
}

#[test]
fn readiness_fires_exactly_once() {
    let mut m = TossWebSock::new("c1".to_string(), "d1".to_string(), "t1".to_string());
    m.start();
    m.transport_opened();
    let d = m.on_inbound("CONNECTED\nversion:1.2\n\n\x00");
    assert!(matches!(d, Disposition::ReadySignaled));
    // a second Connected frame neither panics nor re-fires
    let d = m.on_inbound("CONNECTED\nversion:1.2\n\n\x00");
    assert!(matches!(d, Disposition::ConnectedIgnored));
    assert_eq!(m.current_state(), ConnState::Ready);
    let d = m.on_inbound("CONNECTED\nversion:1.2\n\n\x00");
    assert!(matches!(d, Disposition::ConnectedIgnored));
}

#[test]
fn malformed_frame_is_reported_and_processing_continues() {
    let mut m = ready_machine();
    // no blank-line separator: a protocol violation, surfaced as an error
    let d = m.on_inbound("MESSAGE\ndestination:/topic/x\n");
    assert!(matches!(d, Disposition::MalformedFrame));
    // the next, well-formed frame is still processed
    let d = m.on_inbound("MESSAGE\ndestination:/topic/x\n\n{\"code\":\"AAPL\"}\x00");
    match d {
        Disposition::TradeBody(body) => assert_eq!(body, "{\"code\":\"AAPL\"}"),
        other => panic!("expected a trade body, got {:?}", other),
    }
}

#[test]
fn receipt_and_unknown_frames_are_informational() {
    let mut m = ready_machine();
    let d = m.on_inbound("RECEIPT\nreceipt-id:0-sub_receipt\n\n\x00");
    assert!(matches!(d, Disposition::ReceiptSeen));
    let d = m.on_inbound("ERROR\nmessage:bad\n\n\x00");
    assert!(matches!(d, Disposition::UnknownSeen));
    assert_eq!(m.current_state(), ConnState::Ready);
    assert!(m.pop_outbound().is_none());
}

#[test]
fn subscribe_before_ready_fails_fast() {
    let mut m = TossWebSock::new("c1".to_string(), "d1".to_string(), "t1".to_string());
    assert_eq!(m.register_stock("AAPL".to_string()), Err(StreamError::NotReady));
    m.start();
    assert_eq!(m.register_stock("AAPL".to_string()), Err(StreamError::NotReady));
    m.transport_opened();
    assert_eq!(m.register_stock("AAPL".to_string()), Err(StreamError::NotReady));
    assert_eq!(m.unregister_stock("AAPL".to_string()), Err(StreamError::NotReady));
    // nothing but the CONNECT frame was enqueued
    let _connect = m.pop_outbound().expect("CONNECT was enqueued");
    assert!(m.pop_outbound().is_none());
}

#[test]
fn operations_after_close_fail_with_connection_closed() {
    let mut m = ready_machine();
    m.transport_failed();
    assert_eq!(m.current_state(), ConnState::Closed);
    assert_eq!(
        m.register_stock("AAPL".to_string()),
        Err(StreamError::ConnectionClosed)
    );
    assert_eq!(
        m.unregister_stock("AAPL".to_string()),
        Err(StreamError::ConnectionClosed)
    );
}

#[test]
fn subscribe_enqueues_frames_in_fifo_order() {
    let mut m = ready_machine();
    assert_eq!(m.register_stock("AAPL".to_string()), Ok(()));
    assert_eq!(m.register_stock("TSLA".to_string()), Ok(()));
    assert_eq!(m.unregister_stock("AAPL".to_string()), Ok(()));

    let first = m.pop_outbound().expect("SUBSCRIBE AAPL");
    assert!(first.starts_with("SUBSCRIBE\nid:0\n"));
    assert!(first.contains("destination:/topic/v1/us/stock/trade/AAPL\n"));
    let second = m.pop_outbound().expect("SUBSCRIBE TSLA");
    assert!(second.starts_with("SUBSCRIBE\nid:1\n"));
    let third = m.pop_outbound().expect("UNSUBSCRIBE AAPL");
    assert_eq!(third, "UNSUBSCRIBE\nreceipt:0-sub_receipt\nid:0\n\n\x00\n");
    assert!(m.pop_outbound().is_none());
}

#[test]
fn subscribe_duplicate_and_unknown_are_reported() {
    let mut m = ready_machine();
    assert_eq!(m.register_stock("AAPL".to_string()), Ok(()));
    assert_eq!(
        m.register_stock("AAPL".to_string()),
        Err(StreamError::DuplicateSubscription)
    );
    assert_eq!(
        m.unregister_stock("TSLA".to_string()),
        Err(StreamError::UnknownSubscription)
    );
    // the connection survives caller misuse
    assert_eq!(m.current_state(), ConnState::Ready);
    assert_eq!(m.unregister_stock("AAPL".to_string()), Ok(()));
    assert_eq!(m.register_stock("AAPL".to_string()), Ok(()));
    // the reused feed got a fresh, greater wire ID
    let _subscribe_aapl = m.pop_outbound().unwrap();
    let _unsubscribe_aapl = m.pop_outbound().unwrap();
    let resubscribe = m.pop_outbound().unwrap();
    assert!(resubscribe.starts_with("SUBSCRIBE\nid:1\n"));
}
