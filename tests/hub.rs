use artifact_generator::{Hub, Publication, Received};

fn content(s: &str) -> Publication {
    Publication::Content(s.to_string())
}

#[test]
fn subscriber_receives_in_order() {
    let mut hub = Hub::new(4);
    let mut sub = hub.subscribe();
    assert_eq!(hub.receive(&mut sub), Received::Empty);
    assert_eq!(hub.publish(content("a")), Ok(()));
    assert_eq!(hub.publish(content("b")), Ok(()));
    assert_eq!(hub.receive(&mut sub), Received::Item(content("a")));
    assert_eq!(hub.receive(&mut sub), Received::Item(content("b")));
    assert_eq!(hub.receive(&mut sub), Received::Empty);
    assert_eq!(hub.published_count(), 2);
}

#[test]
fn subscribe_does_not_replay_history() {
    let mut hub = Hub::new(4);
    hub.publish(content("old")).unwrap();
    let mut sub = hub.subscribe();
    assert_eq!(hub.receive(&mut sub), Received::Empty);
    hub.publish(content("new")).unwrap();
    assert_eq!(hub.receive(&mut sub), Received::Item(content("new")));
}

#[test]
fn slow_subscriber_reports_lag_then_reads_latest() {
    let mut hub = Hub::new(16);
    let mut fast = hub.subscribe();
    let mut slow = hub.subscribe();
    for i in 0..20 {
        assert_eq!(hub.publish(content(&format!("item{}", i))), Ok(()));
        assert_eq!(hub.receive(&mut fast), Received::Item(content(&format!("item{}", i))));
    }
    assert_eq!(hub.receive(&mut slow), Received::Lagged(4));
    for i in 4..20 {
        assert_eq!(hub.receive(&mut slow), Received::Item(content(&format!("item{}", i))));
    }
    assert_eq!(hub.receive(&mut slow), Received::Empty);
}

#[test]
fn lag_is_published_minus_capacity() {
    let mut hub = Hub::new(3);
    let mut sub = hub.subscribe();
    for i in 0..10 {
        hub.publish(content(&format!("{}", i))).unwrap();
    }
    assert_eq!(hub.receive(&mut sub), Received::Lagged(7));
    assert_eq!(hub.receive(&mut sub), Received::Item(content("7")));
}

#[test]
fn full_buffer_without_overflow_has_no_lag() {
    let mut hub = Hub::new(2);
    let mut sub = hub.subscribe();
    hub.publish(content("x")).unwrap();
    hub.publish(Publication::Done).unwrap();
    assert_eq!(hub.receive(&mut sub), Received::Item(content("x")));
    assert_eq!(hub.receive(&mut sub), Received::Item(Publication::Done));
}

#[test]
fn closed_hub_refuses_publish_and_reports_closed() {
    let mut hub = Hub::new(2);
    let mut sub = hub.subscribe();
    hub.publish(content("x")).unwrap();
    hub.close();
    assert!(hub.is_closed());
    assert_eq!(hub.receive(&mut sub), Received::Closed);
    assert_eq!(hub.publish(content("y")), Err(content("y")));
    let mut late = hub.subscribe();
    assert_eq!(hub.receive(&mut late), Received::Closed);
    assert_eq!(hub.capacity(), 2);
}
