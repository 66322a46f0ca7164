use artifact_generator::{ChangeDetector, Metrics, Publication};

#[test]
fn first_readable_identity_publishes() {
    let mut det = ChangeDetector::new();
    let mut m = Metrics::new();
    assert!(det.wants_content(Some(10)));
    let p = det.observe(Some(10), Some("A".to_string()), &mut m);
    assert_eq!(p, Some(Publication::Content("A".to_string())));
    assert_eq!(m.watcher_changes_detected, 1);
    assert_eq!(det.last_published(), Some(10));
}

#[test]
fn unchanged_identity_never_publishes() {
    let mut det = ChangeDetector::new();
    let mut m = Metrics::new();
    det.observe(Some(10), Some("A".to_string()), &mut m);
    assert!(!det.wants_content(Some(10)));
    assert_eq!(det.observe(Some(10), Some("A2".to_string()), &mut m), None);
    assert_eq!(m.watcher_changes_detected, 1);
}

#[test]
fn identity_collision_renders_only_latest_content() {
    // "A" and then "B" were written within one interval under the same
    // modification identity: the tick sees that identity and reads "B".
    let mut det = ChangeDetector::new();
    let mut m = Metrics::new();
    det.observe(Some(1), Some("start".to_string()), &mut m);
    let p = det.observe(Some(2), Some("B".to_string()), &mut m);
    assert_eq!(p, Some(Publication::Content("B".to_string())));
    assert_eq!(det.observe(Some(2), Some("B".to_string()), &mut m), None);
    assert_eq!(m.watcher_changes_detected, 2);
}

#[test]
fn unreadable_identity_is_skipped() {
    let mut det = ChangeDetector::new();
    let mut m = Metrics::new();
    assert!(!det.wants_content(None));
    assert_eq!(det.observe(None, Some("x".to_string()), &mut m), None);
    assert_eq!(det.last_published(), None);
    assert_eq!(m, Metrics::new());
}

#[test]
fn failed_content_read_is_retried_next_tick() {
    let mut det = ChangeDetector::new();
    let mut m = Metrics::new();
    det.observe(Some(1), Some("a".to_string()), &mut m);
    assert_eq!(det.observe(Some(2), None, &mut m), None);
    assert!(det.wants_content(Some(2)));
    let p = det.observe(Some(2), Some("b".to_string()), &mut m);
    assert_eq!(p, Some(Publication::Content("b".to_string())));
    assert_eq!(m.watcher_changes_detected, 2);
}

#[test]
fn one_publication_per_identity_change() {
    let mut det = ChangeDetector::new();
    let mut m = Metrics::new();
    let ids = [Some(1u128), Some(1), None, Some(2), Some(2), Some(3), None, Some(3), Some(1)];
    let mut published = 0;
    for id in ids.iter() {
        let c = if det.wants_content(*id) { Some(format!("{:?}", id)) } else { None };
        if det.observe(*id, c, &mut m).is_some() {
            published += 1;
        }
    }
    assert_eq!(published, 4);
}
