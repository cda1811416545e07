use tp_bridge::bridge::{event_channel, Polled};

#[test]
fn new_channel_is_empty() {
    let (_tx, rx) = event_channel();
    assert!(matches!(rx.try_recv(), Polled::Empty));
}

#[test]
fn channel_delivers_in_submission_order() {
    let (tx, rx) = event_channel();
    for i in 0..5 {
        assert!(tx.send(format!("m{}", i)).is_ok());
    }
    for i in 0..5 {
        match rx.try_recv() {
            Polled::Message(m) => assert_eq!(m, format!("m{}", i)),
            _ => panic!("a message was expected"),
        }
    }
    assert!(matches!(rx.try_recv(), Polled::Empty));
}

#[test]
fn channel_takes_many_messages_without_a_consumer_draining() {
    let (tx, rx) = event_channel();
    for i in 0..10_000 {
        assert!(tx.send(i.to_string()).is_ok());
    }
    match rx.try_recv() {
        Polled::Message(m) => assert_eq!(m, "0"),
        _ => panic!("a message was expected"),
    }
}

#[test]
fn send_gives_the_text_back_when_the_consumer_is_gone() {
    let (tx, rx) = event_channel();
    drop(rx);
    assert_eq!(tx.send("hello".to_string()), Err("hello".to_string()));
}

#[test]
fn channel_closes_when_every_producer_is_gone() {
    let (tx, rx) = event_channel();
    let second = tx.duplicate();
    tx.send("a".to_string()).unwrap();
    drop(tx);
    second.send("b".to_string()).unwrap();
    drop(second);
    assert!(matches!(rx.try_recv(), Polled::Message(m) if m == "a"));
    assert!(matches!(rx.try_recv(), Polled::Message(m) if m == "b"));
    assert!(matches!(rx.try_recv(), Polled::Closed));
}

#[test]
fn interleaved_producers_are_each_delivered_in_order() {
    let (tx, rx) = event_channel();
    let producers = [tx.duplicate(), tx.duplicate(), tx.duplicate()];
    drop(tx);
    for i in 0..100 {
        for (p, producer) in producers.iter().enumerate() {
            producer.send(format!("{}:{}", p, i)).unwrap();
        }
    }
    drop(producers);
    let mut next = [0usize; 3];
    loop {
        match rx.try_recv() {
            Polled::Message(m) => {
                let (p, i) = m.split_once(':').unwrap();
                let p: usize = p.parse().unwrap();
                let i: usize = i.parse().unwrap();
                assert_eq!(next[p], i);
                next[p] += 1;
            }
            Polled::Empty => panic!("every producer is gone"),
            Polled::Closed => break,
        }
    }
    assert_eq!(next, [100, 100, 100]);
}
