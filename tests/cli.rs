use artifact_generator::{content_response, parse_args, parse_port, sse_event, ArgsError, Metrics, Publication};

fn args(v: &[&str]) -> Vec<String> {
    v.iter().map(|s| s.to_string()).collect()
}

#[test]
fn missing_path_is_refused() {
    assert_eq!(parse_args(&args(&["prog"])), Err(ArgsError::MissingPath));
    assert_eq!(parse_args(&args(&[])), Err(ArgsError::MissingPath));
}

#[test]
fn defaults_apply() {
    let o = parse_args(&args(&["prog", "page.html"])).unwrap();
    assert_eq!(o.file_path, "page.html");
    assert_eq!(o.port, 3000);
    assert_eq!(o.pdf_path, "page.pdf");
    let o = parse_args(&args(&["prog", "notes.txt"])).unwrap();
    assert_eq!(o.pdf_path, "notes.txt.pdf");
}

#[test]
fn flags_override() {
    let o = parse_args(&args(&["prog", "a.html", "--port", "8080", "--pdf", "out.pdf"])).unwrap();
    assert_eq!(o.port, 8080);
    assert_eq!(o.pdf_path, "out.pdf");
}

#[test]
fn unreadable_port_gives_default_and_dangling_flag_is_ignored() {
    let o = parse_args(&args(&["prog", "a.html", "--port", "99999"])).unwrap();
    assert_eq!(o.port, 3000);
    let o = parse_args(&args(&["prog", "a.html", "--port"])).unwrap();
    assert_eq!(o.port, 3000);
    let o = parse_args(&args(&["prog", "a.html", "x", "--port", "81"])).unwrap();
    assert_eq!(o.port, 81);
}

#[test]
fn port_numbers_parse_as_std_does() {
    for s in ["0", "80", "+80", "65535", "65536", "", "+", "-1", "8a", " 80", "00080"] {
        assert_eq!(parse_port(s), s.parse::<u16>().ok(), "{}", s);
    }
}

#[test]
fn content_event_is_json_string() {
    let e = sse_event(&Publication::Content("<p class=\"x\">a\\b\n\u{1}</p>".to_string()));
    assert_eq!(e.event, None);
    assert_eq!(e.data, "\"<p class=\\\"x\\\">a\\\\b\\n\\u0001</p>\"");
}

#[test]
fn done_event_is_named() {
    let e = sse_event(&Publication::Done);
    assert_eq!(e.event, Some("done".to_string()));
    assert_eq!(e.data, "done");
}

#[test]
fn content_response_falls_back() {
    assert_eq!(content_response(Some("body".to_string())), "body");
    assert_eq!(content_response(None), "(file not found)");
}

#[test]
fn metrics_snapshot_and_mean() {
    let mut m = Metrics::new();
    assert_eq!(m.render_duration_us.mean(), None);
    assert_eq!(m.watcher_poll_us.min, u64::MAX);
    m.record_poll(10);
    m.record_poll(21);
    m.record_change();
    m.record_lag(3);
    m.record_render(7, u64::MAX);
    m.record_render(1, 5);
    let s = m.get();
    assert_eq!(s, m);
    assert_eq!(s.watcher_poll_us.mean(), Some(15));
    assert_eq!(s.watcher_poll_us.min, 10);
    assert_eq!(s.watcher_poll_us.max, 21);
    assert_eq!(s.watcher_changes_detected, 1);
    assert_eq!(s.broadcast_lag_count, 1);
    assert_eq!(s.broadcast_missed, 3);
    assert_eq!(s.render_pdf_size.sum, 4);
    assert_eq!(s.render_count, 2);
}

#[test]
fn counters_wrap_past_the_largest_value() {
    let mut m = Metrics::new();
    m.record_poll(u64::MAX);
    m.record_poll(1);
    assert_eq!(m.watcher_poll_us.sum, 0);
    assert_eq!(m.watcher_poll_us.count, 2);
    m.render_count = u64::MAX;
    m.watcher_changes_detected = u64::MAX;
    m.record_render_failure(2);
    m.record_change();
    assert_eq!(m.render_count, 0);
    assert_eq!(m.watcher_changes_detected, 0);
}
