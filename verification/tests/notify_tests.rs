use rust_switcher::errors::{ErrorLog, UiError};
use rust_switcher::notify::{NotifyKind, NotifyQueue, hash_key};

#[test]
fn push_enqueues_with_key_and_time() {
    let mut q = NotifyQueue::new();
    assert!(q.push(NotifyKind::Info, "Title", "Text", 100));
    assert!(q.has_more());

    let items = q.drain_for_worker();
    assert_eq!(items.len(), 1);
    assert_eq!(items[0].kind, NotifyKind::Info);
    assert_eq!(items[0].title, "Title");
    assert_eq!(items[0].text, "Text");
    assert_eq!(items[0].created_ms, 100);
    assert_eq!(items[0].dedupe_key, hash_key(NotifyKind::Info, "Title", "Text"));
    assert!(!q.has_more());
}

#[test]
fn fast_duplicate_suppressed_within_window() {
    let mut q = NotifyQueue::new();
    assert!(q.push(NotifyKind::Error, "Oops", "failed", 1000));
    // Identical content 1500 ms later: suppressed.
    assert!(!q.push(NotifyKind::Error, "Oops", "failed", 2500));
    // Identical content 2001 ms after the first: accepted again.
    assert!(q.push(NotifyKind::Error, "Oops", "failed", 3001));
    // Different text straight away: accepted.
    assert!(q.push(NotifyKind::Error, "Oops", "failed again", 3002));

    let items = q.drain_for_worker();
    assert_eq!(items.len(), 3);
}

#[test]
fn duplicate_filter_distinguishes_kind_title_text() {
    let k1 = hash_key(NotifyKind::Info, "a", "b");
    let k2 = hash_key(NotifyKind::Error, "a", "b");
    let k3 = hash_key(NotifyKind::Info, "x", "b");
    let k4 = hash_key(NotifyKind::Info, "a", "y");
    assert_ne!(k1, k2);
    assert_ne!(k1, k3);
    assert_ne!(k1, k4);

    // The same content always hashes alike.
    assert_eq!(k1, hash_key(NotifyKind::Info, "a", "b"));
}

#[test]
fn queue_drops_oldest_beyond_capacity() {
    let mut q = NotifyQueue::new();
    for i in 0..257u64 {
        let title = format!("t{}", i);
        assert!(q.push(NotifyKind::Info, &title, "x", i * 3000));
    }

    // Capacity is 256: the very first entry was dropped.
    let mut drained: Vec<String> = Vec::new();
    loop {
        let batch = q.drain_for_worker();
        if batch.is_empty() {
            break;
        }
        for n in batch {
            drained.push(n.title);
        }
    }
    assert_eq!(drained.len(), 256);
    assert_eq!(drained[0], "t1");
    assert_eq!(drained[255], "t256");
}

#[test]
fn drain_takes_at_most_one_wake_of_items() {
    let mut q = NotifyQueue::new();
    for i in 0..40u64 {
        let title = format!("n{}", i);
        assert!(q.push(NotifyKind::Roar, &title, "x", i * 3000));
    }

    let first = q.drain_for_worker();
    assert_eq!(first.len(), 32);
    assert_eq!(first[0].title, "n0");
    assert_eq!(first[31].title, "n31");
    assert!(q.has_more());

    let second = q.drain_for_worker();
    assert_eq!(second.len(), 8);
    assert_eq!(second[0].title, "n32");
    assert!(!q.has_more());
}

#[test]
fn single_wake_outstanding() {
    let mut q = NotifyQueue::new();
    assert!(q.push(NotifyKind::Info, "a", "b", 0));

    // First claim gets the wake token, a second claim does not.
    assert!(q.take_post_token());
    assert!(!q.take_post_token());

    // A failed delivery returns the token.
    q.post_failed();
    assert!(q.take_post_token());
}

#[test]
fn repost_rearms_only_when_work_remains() {
    let mut q = NotifyQueue::new();
    assert!(!q.repost_if_needed());

    assert!(q.push(NotifyKind::Info, "a", "b", 0));
    assert!(q.take_post_token());

    // Items remain: the wake is re-armed even though one was outstanding.
    assert!(q.repost_if_needed());

    let _ = q.drain_for_worker();
    assert!(!q.repost_if_needed());
}

#[test]
fn error_log_drains_in_order() {
    let mut log = ErrorLog::new();
    assert!(log.drain_one().is_none());

    log.push(UiError {
        title: "UI".to_string(),
        user_text: "first".to_string(),
        debug_text: "d1".to_string(),
    });
    log.push(UiError {
        title: "UI".to_string(),
        user_text: "second".to_string(),
        debug_text: "d2".to_string(),
    });

    let e = log.drain_one().unwrap();
    assert_eq!(e.user_text, "first");
    let e = log.drain_one().unwrap();
    assert_eq!(e.user_text, "second");
    assert!(log.drain_one().is_none());
}
