use ztunnel::relay::{BytesTransferred, RelayEnd};

#[test]
fn counters_accumulate_chunks() {
    let mut c = BytesTransferred::new();
    assert_eq!(c.sent, 0);
    assert_eq!(c.received, 0);
    c.record_sent(600);
    c.record_sent(400);
    c.record_received(500);
    let end = c.into_end(false);
    assert_eq!(end, RelayEnd { failed: false, sent: 1000, received: 500 });
}

#[test]
fn counters_saturate_at_the_width() {
    let mut c = BytesTransferred::new();
    c.record_sent(u64::MAX - 1);
    c.record_sent(5);
    assert_eq!(c.sent, u64::MAX);
    c.record_sent(1);
    assert_eq!(c.sent, u64::MAX);
    assert_eq!(c.received, 0);
    c.record_received(u64::MAX);
    c.record_received(u64::MAX);
    assert_eq!(c.received, u64::MAX);
    let end = c.into_end(true);
    assert!(end.failed);
    assert_eq!(end.sent, u64::MAX);
}
