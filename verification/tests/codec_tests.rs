use toss_stream::codec::TossStompResponseType;
use toss_stream::codec::build_connect;
use toss_stream::codec::build_subscribe;
use toss_stream::codec::build_unsubscribe;
use toss_stream::parse::header_value;
use toss_stream::parse::remove_nuls;
use toss_stream::parse::split_frame;

#[test]
fn classify_connected() {
    let k = TossStompResponseType::from_header("CONNECTED\nversion:1.2\n");
    assert_eq!(k, TossStompResponseType::Connected);
}

#[test]
fn classify_message() {
    let k = TossStompResponseType::from_header("MESSAGE\ndestination:/topic/x\n");
    assert_eq!(k, TossStompResponseType::Message);
}

#[test]
fn classify_receipt() {
    let k = TossStompResponseType::from_header("RECEIPT\nreceipt-id:0-sub_receipt\n");
    assert_eq!(k, TossStompResponseType::Receipt);
}

#[test]
fn classify_unknown() {
    assert_eq!(
        TossStompResponseType::from_header("ERROR\nmessage:bad"),
        TossStompResponseType::Unknown
    );
    assert_eq!(TossStompResponseType::from_header(""), TossStompResponseType::Unknown);
    assert_eq!(
        TossStompResponseType::from_header("connected"),
        TossStompResponseType::Unknown
    );
}

#[test]
fn connect_frame_exact() {
    let f = build_connect("d1", "c1", "t1");
    assert_eq!(
        f,
        "CONNECT\ndevice-id:d1\nconnection-id:c1\nauthorization:t1\naccept-version:1.2,1.1,1.0\nheart-beat:5000,5000\n\n\x00\n"
    );
}

#[test]
fn subscribe_frame_exact() {
    let f = build_subscribe(3, "AAPL");
    assert_eq!(
        f,
        "SUBSCRIBE\nid:3\nreceipt:3-sub_receipt\ndestination:/topic/v1/us/stock/trade/AAPL\n\n\x00"
    );
}

#[test]
fn unsubscribe_frame_exact() {
    let f = build_unsubscribe(7);
    assert_eq!(f, "UNSUBSCRIBE\nreceipt:7-sub_receipt\nid:7\n\n\x00\n");
}

#[test]
fn multi_digit_wire_ids() {
    let f = build_subscribe(1234567890, "TSLA");
    assert!(f.contains("id:1234567890\n"));
    assert!(f.contains("receipt:1234567890-sub_receipt\n"));
    let f = build_unsubscribe(100);
    assert!(f.contains("id:100\n"));
}

#[test]
fn subscribe_roundtrip_recovers_headers() {
    let frame = build_subscribe(3, "AAPL");
    let (header, _body) = split_frame(&frame).expect("frame has a blank line");
    assert_eq!(header_value(&header, "id").as_deref(), Some("3"));
    assert_eq!(header_value(&header, "receipt").as_deref(), Some("3-sub_receipt"));
    assert_eq!(
        header_value(&header, "destination").as_deref(),
        Some("/topic/v1/us/stock/trade/AAPL")
    );
}

#[test]
fn split_frame_separates_header_and_body() {
    let r = split_frame("MESSAGE\ndestination:/topic/x\n\n{\"a\":1}\x00");
    let (header, body) = r.expect("well formed");
    assert_eq!(header, "MESSAGE\ndestination:/topic/x");
    assert_eq!(body, "{\"a\":1}\x00");
}

#[test]
fn split_frame_missing_separator() {
    assert!(split_frame("MESSAGE\ndestination:/topic/x\n").is_none());
    assert!(split_frame("").is_none());
    assert!(split_frame("\n").is_none());
}

#[test]
fn split_frame_separator_first() {
    let (header, body) = split_frame("\n\nrest").expect("well formed");
    assert_eq!(header, "");
    assert_eq!(body, "rest");
}

#[test]
fn remove_nuls_strips_terminator() {
    assert_eq!(remove_nuls("{\"a\":1}\x00"), "{\"a\":1}");
    assert_eq!(remove_nuls("{\"a\":1}\x00\n"), "{\"a\":1}\n");
    assert_eq!(remove_nuls("\x00\x00"), "");
    assert_eq!(remove_nuls("plain"), "plain");
}

#[test]
fn header_value_misses() {
    let frame = build_subscribe(3, "AAPL");
    let (header, _) = split_frame(&frame).unwrap();
    assert_eq!(header_value(&header, "ack"), None);
    // the command line itself is not a header
    assert_eq!(header_value("SUBSCRIBE:x\nid:1", "SUBSCRIBE"), None);
    // a frame without any line has no headers
    assert_eq!(header_value("SUBSCRIBE", "id"), None);
}
