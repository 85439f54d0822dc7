use std::collections::BTreeMap;
use zicade::observe::{LogEvent, LogFields, LogRing};

fn event(i: u32) -> LogEvent {
    let mut fields = BTreeMap::new();
    fields.insert("index".to_owned(), i.to_string());
    LogEvent::new(1_000 + i as u64, "INFO".to_owned(), "observe".to_owned(), "evt".to_owned(), fields)
}

#[test]
fn ring_is_bounded_and_keeps_newest() {
    let cap = 8usize;
    let mut ring = LogRing::new(cap);
    for i in 0..(cap as u32 * 3) {
        ring.push(event(i));
    }
    let events = ring.recent();
    assert_eq!(events.len(), cap);
    assert_eq!(events[0].fields.get("index"), Some(&"16".to_owned()));
    assert_eq!(events[cap - 1].fields.get("index"), Some(&"23".to_owned()));
    assert_eq!(events[0].seq, 17);
    assert_eq!(events[cap - 1].seq, 24);
}

#[test]
fn push_assigns_monotonic_seq() {
    let mut ring = LogRing::new(8);
    let first = ring.push(event(0));
    let second = ring.push(event(1));
    assert_eq!(first.seq, 1);
    assert_eq!(second.seq, 2);
    let buffered = ring.recent();
    assert_eq!(buffered[0], first);
    assert_eq!(buffered[1], second);
    assert_eq!(buffered[1].timestamp, 1_001);
    assert_eq!(buffered[1].level, "INFO");
}

#[test]
fn zero_capacity_keeps_one_event() {
    let mut ring = LogRing::new(0);
    assert_eq!(ring.capacity(), 1);
    ring.push(event(0));
    ring.push(event(1));
    let events = ring.recent();
    assert_eq!(events.len(), 1);
    assert_eq!(events[0].seq, 2);
}

#[test]
fn new_event_is_unstored() {
    let e = event(3);
    assert_eq!(e.seq, 0);
    assert_eq!(e.clone(), e);
}

#[test]
fn fields_lift_the_message() {
    let mut f = LogFields::new();
    f.record("message", "hello".to_owned());
    f.record("key", "value".to_owned());
    assert_eq!(f.message, "hello");
    assert_eq!(f.fields.get("key"), Some(&"value".to_owned()));
    assert!(f.fields.get("message").is_none());
}

#[test]
fn ring_holds_the_newest_cap_events_after_any_number_of_pushes() {
    for n in 0u32..20 {
        let mut ring = LogRing::new(5);
        for i in 0..n {
            ring.push(event(i));
        }
        let kept: Vec<String> = ring
            .recent()
            .iter()
            .map(|e| e.fields.get("index").cloned().unwrap_or_default())
            .collect();
        let first = n.saturating_sub(5);
        let expected: Vec<String> = (first..n).map(|i| i.to_string()).collect();
        assert_eq!(kept, expected);
    }
}
