use post_scheduler::{
    drain_due, Action, Attempt, Event, Outcome, Post, PostStore, Replies, Stage, Status,
    POLL_INTERVAL_MS,
};

const NOW: i64 = 1_700_000_000_000;

fn post(title: &str, content: &str, scheduled_time: i64, status: Status) -> Post {
    Post {
        title: title.to_string(),
        content: content.to_string(),
        scheduled_time,
        status,
    }
}

fn accepting() -> Replies {
    Replies { author: "mock-profile-id".to_string(), unresolved: vec![], refused: vec![] }
}

#[test]
fn due_post_is_published_when_network_accepts() {
    let mut store = PostStore::new();
    let id = store.insert(post("T", "C", NOW - 1_000, Status::Pending)).unwrap();
    let submitted = drain_due(&mut store, NOW, &accepting());
    assert_eq!(submitted, vec![id]);
    assert_eq!(store.status_of(id), Some(Status::Published));
    assert_eq!(store.status_of(id).unwrap().name(), "published");
}

#[test]
fn due_post_stays_pending_when_network_refuses() {
    let mut store = PostStore::new();
    let id = store.insert(post("T", "C", NOW - 1_000, Status::Pending)).unwrap();
    let replies = Replies { author: "mock-profile-id".to_string(), unresolved: vec![], refused: vec![id] };
    let submitted = drain_due(&mut store, NOW, &replies);
    assert_eq!(submitted, vec![id]);
    assert_eq!(store.status_of(id), Some(Status::Pending));
    assert_eq!(store.status_of(id).unwrap().name(), "pending");
}

#[test]
fn due_post_stays_pending_when_author_is_unknown() {
    let mut store = PostStore::new();
    let id = store.insert(post("T", "C", NOW - 1_000, Status::Pending)).unwrap();
    let replies = Replies { author: "mock-profile-id".to_string(), unresolved: vec![id], refused: vec![] };
    let submitted = drain_due(&mut store, NOW, &replies);
    assert!(submitted.is_empty());
    assert_eq!(store.status_of(id), Some(Status::Pending));
}

#[test]
fn author_lookup_failing_for_one_post_spares_the_others() {
    let mut store = PostStore::new();
    let a = store.insert(post("A", "a", NOW - 10, Status::Pending)).unwrap();
    let b = store.insert(post("B", "b", NOW - 20, Status::Pending)).unwrap();
    let c = store.insert(post("C", "c", NOW - 30, Status::Pending)).unwrap();
    let replies = Replies { author: "p".to_string(), unresolved: vec![b], refused: vec![] };
    assert_eq!(drain_due(&mut store, NOW, &replies), vec![a, c]);
    assert_eq!(store.status_of(a), Some(Status::Published));
    assert_eq!(store.status_of(b), Some(Status::Pending));
    assert_eq!(store.status_of(c), Some(Status::Published));
}

#[test]
fn future_post_waits_for_its_time() {
    let mut store = PostStore::new();
    let id = store.insert(post("T", "C", NOW + 2_000, Status::Pending)).unwrap();
    assert!(drain_due(&mut store, NOW, &accepting()).is_empty());
    assert!(drain_due(&mut store, NOW + 1_999, &accepting()).is_empty());
    assert_eq!(store.status_of(id), Some(Status::Pending));
    assert_eq!(drain_due(&mut store, NOW + 2_000, &accepting()), vec![id]);
    assert_eq!(store.status_of(id), Some(Status::Published));
}

#[test]
fn attempt_sleeps_until_scheduled_time_before_publishing() {
    let mut attempt = Attempt::new(NOW + 2_000, NOW);
    assert!(matches!(attempt.step(Event::Picked), Action::Sleep(2_000)));
    assert_eq!(attempt.stage, Stage::Sleeping);
    assert!(matches!(attempt.step(Event::AuthorFound("a".to_string())), Action::Ignore));
    assert!(matches!(attempt.step(Event::Woke), Action::ResolveAuthor));
    match attempt.step(Event::AuthorFound("a".to_string())) {
        Action::Publish(author) => assert_eq!(author, "a"),
        _ => panic!("expected a publish request"),
    }
}

#[test]
fn attempt_on_due_post_resolves_author_at_once() {
    let mut attempt = Attempt::new(NOW, NOW);
    assert!(matches!(attempt.step(Event::Picked), Action::ResolveAuthor));
    assert_eq!(attempt.stage, Stage::Resolving);
}

#[test]
fn attempt_full_success_path() {
    let mut attempt = Attempt::new(NOW - 5, NOW);
    assert!(matches!(attempt.step(Event::Picked), Action::ResolveAuthor));
    assert!(matches!(attempt.step(Event::AuthorFound("p".to_string())), Action::Publish(_)));
    assert!(matches!(attempt.step(Event::Accepted), Action::MarkPublished));
    assert!(matches!(attempt.step(Event::Recorded(1)), Action::Done(Outcome::Published)));
    assert_eq!(attempt.stage, Stage::Finished(Outcome::Published));
    assert!(matches!(attempt.step(Event::Picked), Action::Ignore));
}

#[test]
fn attempt_failures_leave_post_pending() {
    let mut a = Attempt::new(NOW, NOW);
    a.step(Event::Picked);
    assert!(matches!(a.step(Event::AuthorMissing), Action::Done(Outcome::LeftPending)));
    let mut b = Attempt::new(NOW, NOW);
    b.step(Event::Picked);
    b.step(Event::AuthorFound("p".to_string()));
    assert!(matches!(b.step(Event::Rejected), Action::Done(Outcome::LeftPending)));
    assert_eq!(b.stage, Stage::Finished(Outcome::LeftPending));
}

#[test]
fn attempt_store_failure_after_publish_halts() {
    let mut a = Attempt::new(NOW, NOW);
    a.step(Event::Picked);
    a.step(Event::AuthorFound("p".to_string()));
    a.step(Event::Accepted);
    assert!(matches!(a.step(Event::RecordFailed), Action::Halt));
    assert_eq!(a.stage, Stage::Halted);
}

#[test]
fn recording_a_deleted_post_is_benign() {
    let mut a = Attempt::new(NOW, NOW);
    a.step(Event::Picked);
    a.step(Event::AuthorFound("p".to_string()));
    a.step(Event::Accepted);
    assert!(matches!(a.step(Event::Recorded(0)), Action::Done(Outcome::Vanished)));
    assert_eq!(a.stage, Stage::Finished(Outcome::Vanished));

    let mut store = PostStore::new();
    let id = store.insert(post("T", "C", NOW, Status::Pending)).unwrap();
    assert_eq!(store.remove(id), 1);
    assert_eq!(store.set_status(id, Status::Published), 0);
    assert_eq!(store.len(), 0);
    assert_eq!(store.set_status(id + 100, Status::Published), 0);
}

#[test]
fn second_pass_does_not_republish() {
    let mut store = PostStore::new();
    let a = store.insert(post("A", "a", NOW - 10, Status::Pending)).unwrap();
    let b = store.insert(post("B", "b", NOW - 20, Status::Pending)).unwrap();
    let replies = Replies { author: "p".to_string(), unresolved: vec![], refused: vec![b] };
    assert_eq!(drain_due(&mut store, NOW, &replies), vec![a, b]);
    assert_eq!(store.status_of(a), Some(Status::Published));
    assert_eq!(store.status_of(b), Some(Status::Pending));
    // the failed one is tried again, the published one is not
    assert_eq!(drain_due(&mut store, NOW, &replies), vec![b]);
    assert_eq!(drain_due(&mut store, NOW + POLL_INTERVAL_MS as i64, &accepting()), vec![b]);
    assert!(drain_due(&mut store, NOW + 2 * POLL_INTERVAL_MS as i64, &accepting()).is_empty());
    assert_eq!(store.status_of(b), Some(Status::Published));
}

#[test]
fn drain_keeps_fields_and_order() {
    let mut store = PostStore::new();
    let a = store.insert(post("A", "a", NOW - 10, Status::Pending)).unwrap();
    let f = store.insert(post("F", "f", NOW + 10, Status::Pending)).unwrap();
    let p = store.insert(post("P", "p", NOW - 30, Status::Published)).unwrap();
    let b = store.insert(post("B", "b", NOW, Status::Pending)).unwrap();
    assert_eq!(drain_due(&mut store, NOW, &accepting()), vec![a, b]);
    assert_eq!(store.status_of(f), Some(Status::Pending));
    assert_eq!(store.status_of(p), Some(Status::Published));
    let got = store.get(a).unwrap();
    assert_eq!(got.title, "A");
    assert_eq!(got.content, "a");
    assert_eq!(got.scheduled_time, NOW - 10);
}

#[test]
fn poll_interval_is_twenty_seconds() {
    assert_eq!(POLL_INTERVAL_MS, 20_000);
}

#[test]
fn test_retrieve_scheduled_posts() {
    let mut store = PostStore::new();
    let id = store.insert(post("Test Post", "Test Content", NOW, Status::Pending)).unwrap();
    assert_eq!(store.len(), 1);
    let found = store.find_due(NOW);
    assert_eq!(found.len(), 1);
    let doc = &found[0];
    assert_eq!(doc.id, id);
    assert_eq!(doc.post.title, "Test Post");
    assert_eq!(doc.post.content, "Test Content");
    assert_eq!(doc.post.status.name(), "pending");
    assert!(store.find_due(NOW - 1).is_empty());
}

#[test]
fn test_publication_error_handling() {
    let mut store = PostStore::new();
    let id = store
        .insert(post("Error Test Post", "Error Test Content", NOW, Status::Pending))
        .unwrap();
    let replies = Replies { author: "mock_profile_id".to_string(), unresolved: vec![], refused: vec![id] };
    let submitted = drain_due(&mut store, NOW, &replies);
    assert_eq!(submitted, vec![id]);
    assert_eq!(store.status_of(id).unwrap().name(), "pending");
}

#[test]
fn store_replace_and_remove() {
    let mut store = PostStore::new();
    let id = store.insert(post("T", "C", NOW, Status::Pending)).unwrap();
    assert_eq!(store.replace(id, post("T2", "C2", NOW + 5, Status::Pending)), 1);
    assert_eq!(store.get(id).unwrap().title, "T2");
    assert_eq!(store.replace(id + 1, post("X", "X", 0, Status::Pending)), 0);
    assert_eq!(store.remove(id + 1), 0);
    assert_eq!(store.remove(id), 1);
    assert!(store.get(id).is_none());
    assert_eq!(store.status_of(id), None);
}

#[test]
fn stored_document_defaults() {
    let p = Post::from_stored(None, None, Some(0), Status::Pending).unwrap();
    assert_eq!(p.title, "Untitled");
    assert_eq!(p.content, "No content provided");
    assert_eq!(p.scheduled_time, 0);
    let q = Post::from_stored(Some("t".to_string()), Some("c".to_string()), Some(7), Status::Published)
        .unwrap();
    assert_eq!(q.title, "t");
    assert_eq!(q.content, "c");
    assert_eq!(q.scheduled_time, 7);
    assert_eq!(q.status, Status::Published);
}

#[test]
fn stored_document_without_time_is_skipped() {
    assert!(Post::from_stored(Some("t".to_string()), None, None, Status::Pending).is_none());
}

#[test]
fn update_never_touches_a_published_post() {
    let mut store = PostStore::new();
    let id = store.insert(post("T", "C", NOW - 1_000, Status::Pending)).unwrap();
    drain_due(&mut store, NOW, &accepting());
    assert_eq!(store.status_of(id), Some(Status::Published));
    assert_eq!(store.replace(id, post("T2", "C2", NOW + 60_000, Status::Pending)), 0);
    let kept = store.get(id).unwrap();
    assert_eq!(kept.status, Status::Published);
    assert_eq!(kept.scheduled_time, NOW - 1_000);
    assert_eq!(kept.title, "T");
    assert!(drain_due(&mut store, NOW + 120_000, &accepting()).is_empty());
}

#[test]
fn status_names() {
    assert_eq!(Status::parse("pending"), Some(Status::Pending));
    assert_eq!(Status::parse("published"), Some(Status::Published));
    assert_eq!(Status::parse("Pending"), None);
    assert_eq!(Status::parse(""), None);
    assert_eq!(post_scheduler::default_status(), "pending");
}
