use microblog::errors::AppError;
use microblog::parser::RawField;
use microblog::pipeline::{commit_submission, parse_submission};
use microblog::post::Blogpost;
use microblog::store::Store;

fn post_with(id: &str, text: &str, date: &str) -> Blogpost {
    Blogpost {
        id: id.to_string(),
        text: text.to_string(),
        date: date.to_string(),
        image: None,
        username: "someone".to_string(),
        avatar: None,
    }
}

fn text_field(name: &str, value: &str) -> RawField {
    RawField { name: Some(name.to_string()), data: value.as_bytes().to_vec() }
}

#[test]
fn feed_lists_newest_first() {
    let mut store = Store::new();
    let t1 = "2023-05-01T10:00:00+00:00";
    let t2 = "2024-02-20T08:30:00+00:00";
    let t3 = "2025-12-31T23:59:59+00:00";
    store.insert(post_with("a", "oldest", t1)).unwrap();
    store.insert(post_with("b", "middle", t2)).unwrap();
    store.insert(post_with("c", "newest", t3)).unwrap();
    let feed = store.list_posts();
    assert_eq!(feed.len(), 3);
    assert_eq!(feed[0].text, "newest");
    assert_eq!(feed[1].text, "middle");
    assert_eq!(feed[2].text, "oldest");
}

#[test]
fn feed_order_independent_of_insert_order() {
    let mut store = Store::new();
    store.insert(post_with("a", "newest", "2025-01-01T00:00:00+00:00")).unwrap();
    store.insert(post_with("b", "oldest", "2023-01-01T00:00:00+00:00")).unwrap();
    store.insert(post_with("c", "middle", "2024-01-01T00:00:00+00:00")).unwrap();
    let feed = store.list_posts();
    assert_eq!(feed[0].text, "newest");
    assert_eq!(feed[1].text, "middle");
    assert_eq!(feed[2].text, "oldest");
}

#[test]
fn equal_dates_keep_both_records() {
    let mut store = Store::new();
    let t = "2024-06-06T06:06:06+00:00";
    store.insert(post_with("a", "one", t)).unwrap();
    store.insert(post_with("b", "two", t)).unwrap();
    let feed = store.list_posts();
    assert_eq!(feed.len(), 2);
    let texts: Vec<&str> = feed.iter().map(|p| p.text.as_str()).collect();
    assert!(texts.contains(&"one"));
    assert!(texts.contains(&"two"));
}

#[test]
fn duplicate_id_rejected_and_store_unchanged() {
    let mut store = Store::new();
    let p = post_with("same-id", "first", "2024-01-01T00:00:00+00:00");
    store.insert(p.clone()).unwrap();
    let err = store.insert(p).unwrap_err();
    assert!(matches!(err, AppError::StorageWriteError(_)));
    assert_eq!(err.status_code(), 500);
    assert_eq!(store.len(), 1);
    assert_eq!(store.list_posts()[0].text, "first");
}

#[test]
fn fetch_failure_commits_no_record() {
    let mut store = Store::new();
    store.insert(post_with("existing", "kept", "2024-01-01T00:00:00+00:00")).unwrap();

    let fields = vec![text_field("avatar_url", "http://unreachable.invalid/a.png")];
    let (post, acts) = parse_submission(fields).unwrap();
    assert_eq!(acts.len(), 1);
    // The fetch against the unreachable host fails; the pipeline is handed
    // the failure and must not commit.
    let failure = AppError::MediaFetchError("connection refused".to_string());
    assert_eq!(failure.status_code(), 400);
    let r = commit_submission(&mut store, post, Err(failure));
    let err = r.unwrap_err();
    assert!(matches!(err, AppError::MediaFetchError(_)));
    assert_eq!(err.status_code(), 400);
    let feed = store.list_posts();
    assert_eq!(feed.len(), 1);
    assert_eq!(feed[0].text, "kept");
}

#[test]
fn write_failure_commits_no_record() {
    let mut store = Store::new();
    let (post, _) = parse_submission(vec![text_field("text", "x")]).unwrap();
    let failure = AppError::MediaWriteError("disk full".to_string());
    assert_eq!(failure.status_code(), 500);
    let r = commit_submission(&mut store, post, Err(failure));
    assert!(r.is_err());
    assert_eq!(store.len(), 0);
}

#[test]
fn many_distinct_submissions_all_committed() {
    let mut store = Store::new();
    let mut ids: Vec<String> = Vec::new();
    for i in 0..50 {
        let fields = vec![
            text_field("text", &format!("post number {}", i)),
            text_field("username", &format!("user{}", i)),
        ];
        let (post, acts) = parse_submission(fields).unwrap();
        assert!(acts.is_empty());
        ids.push(post.id.clone());
        commit_submission(&mut store, post, Ok(())).unwrap();
    }
    let feed = store.list_posts();
    assert_eq!(feed.len(), 50);
    let mut seen: Vec<String> = feed.iter().map(|p| p.id.clone()).collect();
    seen.sort();
    seen.dedup();
    assert_eq!(seen.len(), 50);
    ids.sort();
    assert_eq!(seen, ids);
}

#[test]
fn error_status_classes() {
    assert_eq!(AppError::MalformedSubmission("m".to_string()).status_code(), 400);
    assert_eq!(AppError::MediaFetchError("f".to_string()).status_code(), 400);
    assert_eq!(AppError::MediaWriteError("w".to_string()).status_code(), 500);
    assert_eq!(AppError::StorageInitError("i".to_string()).status_code(), 500);
    assert_eq!(AppError::StorageWriteError("s".to_string()).status_code(), 500);
    assert_eq!(AppError::StorageReadError("r".to_string()).status_code(), 500);
    assert_eq!(AppError::MalformedSubmission("why".to_string()).detail(), "why");
}

#[test]
fn empty_store_lists_nothing() {
    let store = Store::new();
    assert_eq!(store.len(), 0);
    assert!(store.list_posts().is_empty());
}

#[test]
fn contains_id_tracks_commits() {
    let mut store = Store::new();
    assert!(!store.contains_id(&"a".to_string()));
    store.insert(post_with("a", "t", "2024-01-01T00:00:00+00:00")).unwrap();
    assert!(store.contains_id(&"a".to_string()));
    assert!(!store.contains_id(&"b".to_string()));
}
