use tp_bridge::buffers::{History, LogBuffer, HISTORY_CAPACITY, LOG_CAPACITY};

fn texts_of(v: &Vec<String>) -> Vec<&str> {
    v.iter().map(|s| s.as_str()).collect()
}

#[test]
fn history_starts_empty() {
    let h = History::new();
    assert_eq!(h.len(), 0);
    assert!(h.get(0).is_none());
    assert!(h.entries().is_empty());
}

#[test]
fn history_is_newest_first() {
    let mut h = History::new();
    h.push("first".to_string());
    h.push("second".to_string());
    h.push("third".to_string());
    assert_eq!(texts_of(h.entries()), vec!["third", "second", "first"]);
    assert_eq!(h.get(0).map(|s| s.as_str()), Some("third"));
    assert_eq!(h.get(2).map(|s| s.as_str()), Some("first"));
    assert!(h.get(3).is_none());
}

#[test]
fn history_holds_exactly_fifty_at_capacity() {
    let mut h = History::new();
    for i in 0..50 {
        h.push(format!("m{}", i));
    }
    assert_eq!(h.len(), 50);
    assert_eq!(h.get(0).map(|s| s.as_str()), Some("m49"));
    assert_eq!(h.get(49).map(|s| s.as_str()), Some("m0"));
}

#[test]
fn history_drops_the_oldest_on_the_fifty_first() {
    let mut h = History::new();
    for i in 0..51 {
        h.push(format!("m{}", i));
    }
    assert_eq!(HISTORY_CAPACITY, 50);
    assert_eq!(h.len(), 50);
    assert!(!h.entries().iter().any(|s| s == "m0"));
    let expected: Vec<String> = (1..51).rev().map(|i| format!("m{}", i)).collect();
    assert_eq!(h.entries(), &expected);
}

#[test]
fn history_never_exceeds_fifty_under_sustained_traffic() {
    let mut h = History::new();
    for i in 0..500 {
        h.push(format!("m{}", i));
        assert!(h.len() <= 50);
    }
    let expected: Vec<String> = (450..500).rev().map(|i| format!("m{}", i)).collect();
    assert_eq!(h.entries(), &expected);
}

#[test]
fn history_keeps_equal_messages_apart() {
    let mut h = History::new();
    h.push("same".to_string());
    h.push("same".to_string());
    assert_eq!(texts_of(h.entries()), vec!["same", "same"]);
}

#[test]
fn log_starts_empty() {
    let l = LogBuffer::new();
    assert_eq!(l.len(), 0);
    assert!(l.get(0).is_none());
    assert!(l.lines().is_empty());
}

#[test]
fn log_is_in_emission_order() {
    let mut l = LogBuffer::new();
    l.push("a".to_string());
    l.push("b".to_string());
    l.push("c".to_string());
    assert_eq!(texts_of(l.lines()), vec!["a", "b", "c"]);
    assert_eq!(l.get(0).map(|s| s.as_str()), Some("a"));
    assert_eq!(l.get(2).map(|s| s.as_str()), Some("c"));
    assert!(l.get(3).is_none());
}

#[test]
fn log_drops_the_oldest_on_the_thousand_and_first() {
    let mut l = LogBuffer::new();
    for i in 0..1000 {
        l.push(format!("l{}", i));
    }
    assert_eq!(l.len(), 1000);
    assert_eq!(l.get(0).map(|s| s.as_str()), Some("l0"));
    l.push("l1000".to_string());
    assert_eq!(LOG_CAPACITY, 1000);
    assert_eq!(l.len(), 1000);
    assert_eq!(l.get(0).map(|s| s.as_str()), Some("l1"));
    assert_eq!(l.get(999).map(|s| s.as_str()), Some("l1000"));
}

#[test]
fn log_never_exceeds_a_thousand_under_sustained_logging() {
    let mut l = LogBuffer::new();
    for i in 0..3500 {
        l.push(format!("l{}", i));
        assert!(l.len() <= 1000);
    }
    let expected: Vec<String> = (2500..3500).map(|i| format!("l{}", i)).collect();
    assert_eq!(l.lines(), &expected);
}
