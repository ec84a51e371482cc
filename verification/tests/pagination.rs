use cbpro::decode::{JsonStream, StreamError};
use cbpro::page::{RawPage, TransportError};
use cbpro::paginate::StreamHandle;

fn page_with_cursor(cursor: &str, body: &[u8]) -> RawPage {
    RawPage {
        status: 200,
        headers: vec![
            ("content-type".to_string(), "application/json".to_string()),
            ("cb-after".to_string(), cursor.to_string()),
        ],
        body: body.to_vec(),
    }
}

fn last_page(body: &[u8]) -> RawPage {
    RawPage {
        status: 200,
        headers: vec![("content-type".to_string(), "application/json".to_string())],
        body: body.to_vec(),
    }
}

fn pairs(op: &cbpro::paginate::PendingOperation) -> Vec<(String, String)> {
    op.query.clone()
}

#[test]
fn extract_cursor_present() {
    let p = page_with_cursor("abc123", b"[]");
    assert_eq!(p.extract_cursor(), Some("abc123".to_string()));
}

#[test]
fn extract_cursor_absent() {
    let p = last_page(b"[]");
    assert_eq!(p.extract_cursor(), None);
}

#[test]
fn extract_cursor_first_match_wins() {
    let p = RawPage {
        status: 200,
        headers: vec![
            ("cb-after".to_string(), "first".to_string()),
            ("cb-after".to_string(), "second".to_string()),
        ],
        body: vec![],
    };
    assert_eq!(p.extract_cursor(), Some("first".to_string()));
}

#[test]
fn initial_request_carries_limit() {
    let s = StreamHandle::new("https://example.test".to_string(), "/x".to_string(), 100);
    let op = s.pull_pending().expect("a fresh stream has a pending request");
    assert_eq!(
        pairs(op),
        vec![("limit".to_string(), "100".to_string())]
    );
}

// For N full pages followed by one final page lacking a cursor, the
// stream yields exactly N + 1 successful items, then end-of-sequence,
// with no further request pending.
#[test]
fn full_run_yields_n_plus_one_items() {
    let mut s = StreamHandle::new("https://example.test".to_string(), "/x".to_string(), 2);
    let outcomes = vec![
        Ok(page_with_cursor("c1", b"[1,2]")),
        Ok(page_with_cursor("c2", b"[3,4]")),
        Ok(last_page(b"[5]")),
    ];
    let mut items = 0;
    for o in outcomes {
        assert!(s.pull_pending().is_some());
        let item = s.on_resolved(o);
        assert!(item.is_ok());
        items += 1;
    }
    assert_eq!(items, 3);
    assert!(s.is_exhausted());
    assert!(s.pull_pending().is_none());
}

// The `after` parameter of request k + 1 equals the cursor of the
// response to request k.
#[test]
fn continuation_request_echoes_cursor() {
    let mut s = StreamHandle::new("https://example.test".to_string(), "/x".to_string(), 50);
    s.on_resolved(Ok(page_with_cursor("page-two-token", b"[]")))
        .unwrap();
    let op = s.pull_pending().expect("cursor present, stream stays active");
    assert_eq!(
        pairs(op),
        vec![
            ("limit".to_string(), "50".to_string()),
            ("after".to_string(), "page-two-token".to_string()),
        ]
    );
    s.on_resolved(Ok(page_with_cursor("page-three-token", b"[]")))
        .unwrap();
    let op = s.pull_pending().unwrap();
    assert_eq!(
        pairs(op),
        vec![
            ("limit".to_string(), "50".to_string()),
            ("after".to_string(), "page-three-token".to_string()),
        ]
    );
}

// If the first response carries no cursor, the stream yields exactly
// one item then end-of-sequence.
#[test]
fn first_page_without_cursor_ends_stream() {
    let mut s = StreamHandle::new("https://example.test".to_string(), "/x".to_string(), 10);
    let item = s.on_resolved(Ok(last_page(b"[42]")));
    assert!(item.is_ok());
    assert!(s.is_exhausted());
    assert!(s.pull_pending().is_none());
}

// A transport error is yielded as exactly one error item and the
// stream is exhausted: every later pull reports end-of-sequence and
// no request is ever pending again.
#[test]
fn transport_error_is_terminal() {
    let mut s = StreamHandle::new("https://example.test".to_string(), "/x".to_string(), 10);
    s.on_resolved(Ok(page_with_cursor("c1", b"[]"))).unwrap();
    let item = s.on_resolved(Err(TransportError {
        message: "connection reset".to_string(),
    }));
    assert_eq!(
        item,
        Err(TransportError {
            message: "connection reset".to_string(),
        })
    );
    assert!(s.is_exhausted());
    assert!(s.pull_pending().is_none());
    assert!(s.pull_pending().is_none());
}

// While the stream is active there is exactly one pending operation;
// once exhausted there is none.
#[test]
fn one_pending_operation_while_active() {
    let mut s = StreamHandle::new("https://example.test".to_string(), "/x".to_string(), 5);
    assert!(!s.is_exhausted());
    assert!(s.pull_pending().is_some());
    s.on_resolved(Ok(page_with_cursor("c", b"[]"))).unwrap();
    assert!(!s.is_exhausted());
    assert!(s.pull_pending().is_some());
    s.on_resolved(Ok(last_page(b"[]"))).unwrap();
    assert!(s.is_exhausted());
    assert!(s.pull_pending().is_none());
}

// Dropping a handle mid-flight: requests exist only inside the handle,
// so after the drop none is outstanding and no item is ever yielded
// again. Observable here: the resolved outcomes we fed are exactly the
// items we got before the drop.
#[test]
fn drop_mid_flight_yields_nothing_further() {
    let mut s = StreamHandle::new("https://example.test".to_string(), "/x".to_string(), 5);
    let mut items = 0;
    s.on_resolved(Ok(page_with_cursor("c", b"[]"))).unwrap();
    items += 1;
    assert!(s.pull_pending().is_some());
    drop(s);
    assert_eq!(items, 1);
}

#[test]
fn json_stream_decodes_bodies() {
    let mut s = JsonStream::new(StreamHandle::new(
        "https://example.test".to_string(),
        "/x".to_string(),
        3,
    ));
    let item = s.on_resolved(Ok(last_page(b"[1,2,3]")));
    let v = item.expect("well-formed body decodes");
    let arr = v.as_array().expect("body was a JSON array");
    assert_eq!(arr.len(), 3);
    assert_eq!(arr[0].as_i64(), Some(1));
    assert_eq!(arr[2].as_i64(), Some(3));
    assert!(s.is_exhausted());
}

// A decode error on page k yields an error item at position k but
// pagination continues to page k + 1 when a cursor was present.
#[test]
fn decode_error_does_not_stop_pagination() {
    let mut s = JsonStream::new(StreamHandle::new(
        "https://example.test".to_string(),
        "/x".to_string(),
        3,
    ));
    let item = s.on_resolved(Ok(page_with_cursor("next", b"not json")));
    assert!(matches!(item, Err(StreamError::Decode)));
    assert!(!s.is_exhausted());
    let op = s.pull_pending().expect("pagination continues past a decode error");
    assert_eq!(
        pairs(op),
        vec![
            ("limit".to_string(), "3".to_string()),
            ("after".to_string(), "next".to_string()),
        ]
    );
    let item = s.on_resolved(Ok(last_page(b"[true]")));
    assert!(item.is_ok());
    assert!(s.is_exhausted());
}

#[test]
fn json_stream_forwards_transport_errors() {
    let mut s = JsonStream::new(StreamHandle::new(
        "https://example.test".to_string(),
        "/x".to_string(),
        3,
    ));
    let item = s.on_resolved(Err(TransportError {
        message: "dns failure".to_string(),
    }));
    match item {
        Err(StreamError::Transport(e)) => assert_eq!(e.message, "dns failure"),
        other => panic!("expected a transport error item, got {:?}", other),
    }
    assert!(s.is_exhausted());
}

#[test]
fn empty_body_is_a_decode_error() {
    let mut s = JsonStream::new(StreamHandle::new(
        "https://example.test".to_string(),
        "/x".to_string(),
        1,
    ));
    let item = s.on_resolved(Ok(last_page(b"")));
    assert!(matches!(item, Err(StreamError::Decode)));
    assert!(s.is_exhausted());
}
