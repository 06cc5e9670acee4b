use launcher_core::progress::ProgressReporter;

#[test]
fn starts_hidden_and_indeterminate() {
    let r = ProgressReporter::new();
    assert!(!r.active);
    assert_eq!(r.current, 0);
    assert!(r.total.is_none());
    assert!(r.caption.is_none());
    assert!(r.percent().is_none());
}

#[test]
fn update_overwrites_both_counters_at_once() {
    let mut r = ProgressReporter::new();
    r.update(10, 200);
    assert_eq!((r.current, r.total), (10, Some(200)));
    r.update(150, 200);
    assert_eq!((r.current, r.total), (150, Some(200)));
    assert!(r.active);
}

#[test]
fn caption_is_independent_of_the_counters() {
    let mut r = ProgressReporter::new();
    r.update(10, 200);
    r.set_caption(Some("downloading".to_string()));
    assert_eq!((r.current, r.total), (10, Some(200)));
    assert_eq!(r.caption.as_deref(), Some("downloading"));
    r.set_caption(None);
    assert!(r.caption.is_none());
}

#[test]
fn pulse_marks_activity_without_a_total() {
    let mut r = ProgressReporter::new();
    r.update(10, 200);
    r.pulse();
    assert!(r.active);
    assert!(r.total.is_none());
    assert!(r.percent().is_none());
}

#[test]
fn reset_returns_to_the_hidden_state() {
    let mut r = ProgressReporter::new();
    r.update(10, 200);
    r.set_caption(Some("downloading".to_string()));
    r.reset();
    assert!(!r.active);
    assert_eq!(r.current, 0);
    assert!(r.total.is_none());
    assert!(r.caption.is_none());
}

#[test]
fn percent_is_exact() {
    let mut r = ProgressReporter::new();
    r.update(50, 200);
    assert_eq!(r.percent(), Some(25));
    r.update(1, 3);
    assert_eq!(r.percent(), Some(33));
    r.update(200, 200);
    assert_eq!(r.percent(), Some(100));
}

#[test]
fn percent_handles_the_edges() {
    let mut r = ProgressReporter::new();
    // An empty artifact counts as done.
    r.update(0, 0);
    assert_eq!(r.percent(), Some(100));
    // A resumed file larger than the estimate is capped, not overflowed.
    r.update(300, 200);
    assert_eq!(r.percent(), Some(100));
    r.update(u64::MAX, 2);
    assert_eq!(r.percent(), Some(100));
}
