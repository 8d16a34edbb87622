use matrix_web_bot::bus::{receivers_reached, MessageBus, BUS_CAPACITY};
use tokio::sync::broadcast::error::TryRecvError;

#[test]
fn subscriber_before_a_publish_receives_it_and_one_after_does_not() {
    let (mut bus, mut first) = MessageBus::new();
    let mut before = bus.subscribe();
    assert_eq!(bus.publish("@a:x: hello".to_string()), 2);
    let mut after = bus.subscribe();

    assert_eq!(first.try_recv(), Ok("@a:x: hello".to_string()));
    assert_eq!(before.try_recv(), Ok("@a:x: hello".to_string()));
    assert_eq!(after.try_recv(), Err(TryRecvError::Empty));

    assert_eq!(bus.publish("@a:x: again".to_string()), 3);
    assert_eq!(after.try_recv(), Ok("@a:x: again".to_string()));
    assert_eq!(before.try_recv(), Ok("@a:x: again".to_string()));
    assert_eq!(before.try_recv(), Err(TryRecvError::Empty));
}

#[test]
fn publish_without_a_subscriber_is_no_error() {
    let (mut bus, first) = MessageBus::new();
    drop(first);
    assert_eq!(bus.publish("lost".to_string()), 0);
    let mut late = bus.subscribe();
    assert_eq!(late.try_recv(), Err(TryRecvError::Empty));
    assert_eq!(bus.publish("seen".to_string()), 1);
    assert_eq!(late.try_recv(), Ok("seen".to_string()));
}

#[test]
fn slow_subscriber_sees_a_lag_and_the_publisher_goes_on() {
    assert_eq!(BUS_CAPACITY, 100);
    let (mut bus, mut slow) = MessageBus::new();
    for i in 0..150 {
        assert_eq!(bus.publish(format!("line {}", i)), 1);
    }
    match slow.try_recv() {
        Err(TryRecvError::Lagged(missed)) => assert!(missed >= 22),
        other => panic!("expected a lag, got {:?}", other),
    }
    // After the lag the oldest line still held comes next, and the last
    // line published is the last one received.
    let mut last = String::new();
    while let Ok(line) = slow.try_recv() {
        last = line;
    }
    assert_eq!(last, "line 149");
}

#[test]
fn failed_send_reaches_nobody() {
    assert_eq!(receivers_reached(None), 0);
    assert_eq!(receivers_reached(Some(1)), 1);
    assert_eq!(receivers_reached(Some(7)), 7);
}
