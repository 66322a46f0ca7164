use artifact_generator::{Coordinator, Hub, Metrics, Publication, Received, RenderMsg};

#[test]
fn content_and_lag_forward_one_trigger_each() {
    let mut c = Coordinator::new();
    let mut m = Metrics::new();
    let r = Received::Item(Publication::Content("x".to_string()));
    assert_eq!(c.on_receive(&r, &mut m), Some(RenderMsg::Trigger));
    assert_eq!(c.on_receive(&Received::Lagged(5), &mut m), Some(RenderMsg::Trigger));
    assert_eq!(m.broadcast_lag_count, 1);
    assert_eq!(m.broadcast_missed, 5);
    assert_eq!(c.on_receive(&Received::Empty, &mut m), None);
    assert!(!c.is_finished());
}

#[test]
fn done_forwards_shutdown_once() {
    let mut c = Coordinator::new();
    let mut m = Metrics::new();
    assert_eq!(c.on_receive(&Received::Item(Publication::Done), &mut m), Some(RenderMsg::Shutdown));
    assert!(c.is_finished());
    assert_eq!(c.on_receive(&Received::Closed, &mut m), None);
    assert_eq!(c.on_receive(&Received::Lagged(2), &mut m), None);
    assert_eq!(m.broadcast_lag_count, 0);
    assert_eq!(c.on_cancel(), None);
}

#[test]
fn cancellation_forwards_shutdown() {
    let mut c = Coordinator::new();
    assert_eq!(c.on_cancel(), Some(RenderMsg::Shutdown));
    assert_eq!(c.on_cancel(), None);
}

#[test]
fn closing_hub_leads_to_shutdown() {
    let mut hub = Hub::new(4);
    let mut sub = hub.subscribe();
    let mut c = Coordinator::new();
    let mut m = Metrics::new();
    hub.close();
    let r = hub.receive(&mut sub);
    assert_eq!(c.on_receive(&r, &mut m), Some(RenderMsg::Shutdown));
}
