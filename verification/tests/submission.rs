use microblog::errors::AppError;
use microblog::parser::{BlobAction, RawField};
use microblog::pipeline::{commit_submission, parse_submission};
use microblog::store::Store;

fn text_field(name: &str, value: &str) -> RawField {
    RawField { name: Some(name.to_string()), data: value.as_bytes().to_vec() }
}

fn bytes_field(name: &str, data: &[u8]) -> RawField {
    RawField { name: Some(name.to_string()), data: data.to_vec() }
}

#[test]
fn round_trip_text_only() {
    let fields = vec![text_field("text", "hello world"), text_field("username", "alice")];
    let (post, acts) = parse_submission(fields).unwrap();
    assert_eq!(post.text, "hello world");
    assert_eq!(post.username, "alice");
    assert!(post.image.is_none());
    assert!(post.avatar.is_none());
    assert!(acts.is_empty());
    assert_eq!(post.id.chars().count(), 36);

    let mut store = Store::new();
    let id = post.id.clone();
    assert!(commit_submission(&mut store, post, Ok(())).is_ok());
    let feed = store.list_posts();
    assert_eq!(feed.len(), 1);
    assert_eq!(feed[0].id, id);
    assert_eq!(feed[0].text, "hello world");
    assert_eq!(feed[0].username, "alice");
    assert!(feed[0].image.is_none());
    assert!(feed[0].avatar.is_none());
}

#[test]
fn fresh_ids_are_distinct() {
    let (p1, _) = parse_submission(vec![text_field("text", "a")]).unwrap();
    let (p2, _) = parse_submission(vec![text_field("text", "b")]).unwrap();
    assert_eq!(p1.id.chars().count(), 36);
    assert_eq!(p2.id.chars().count(), 36);
    assert_ne!(p1.id, p2.id);
}

#[test]
fn absent_fields_leave_defaults() {
    let (post, acts) = parse_submission(vec![]).unwrap();
    assert_eq!(post.text, "");
    assert_eq!(post.username, "");
    assert!(post.image.is_none());
    assert!(post.avatar.is_none());
    assert!(acts.is_empty());
}

#[test]
fn empty_image_field_ignored() {
    let fields = vec![text_field("text", "x"), bytes_field("image", &[])];
    let (post, acts) = parse_submission(fields).unwrap();
    assert!(post.image.is_none());
    assert!(acts.is_empty());
}

#[test]
fn empty_avatar_url_ignored() {
    let fields = vec![text_field("text", "x"), text_field("avatar_url", "")];
    let (post, acts) = parse_submission(fields).unwrap();
    assert!(post.avatar.is_none());
    assert!(acts.is_empty());
}

#[test]
fn image_bytes_materialized() {
    let payload = [7u8, 8, 9, 10];
    let fields = vec![bytes_field("image", &payload)];
    let (post, acts) = parse_submission(fields).unwrap();
    assert_eq!(acts.len(), 1);
    match &acts[0] {
        BlobAction::WriteBlob { name, data } => {
            assert_eq!(data.as_slice(), &payload);
            assert_eq!(post.image.as_deref(), Some(name.as_str()));
            assert!(name.starts_with("images/"));
            assert!(name.ends_with(".png"));
            assert_eq!(name.chars().count(), 47);
        }
        BlobAction::FetchBlob { .. } => panic!("expected a blob write"),
    }
}

#[test]
fn avatar_url_fetch_requested() {
    let fields = vec![text_field("avatar_url", "http://example.invalid/a.png")];
    let (post, acts) = parse_submission(fields).unwrap();
    assert_eq!(acts.len(), 1);
    match &acts[0] {
        BlobAction::FetchBlob { name, url } => {
            assert_eq!(url, "http://example.invalid/a.png");
            assert_eq!(post.avatar.as_deref(), Some(name.as_str()));
            assert!(name.starts_with("images/"));
            assert!(name.ends_with(".png"));
        }
        BlobAction::WriteBlob { .. } => panic!("expected a fetch"),
    }
}

#[test]
fn full_submission_orders_actions_by_arrival() {
    let fields = vec![
        text_field("text", "body"),
        text_field("username", "bob"),
        bytes_field("image", &[1, 2, 3]),
        text_field("avatar_url", "http://example.invalid/b.png"),
    ];
    let (post, acts) = parse_submission(fields).unwrap();
    assert_eq!(acts.len(), 2);
    assert!(matches!(acts[0], BlobAction::WriteBlob { .. }));
    assert!(matches!(acts[1], BlobAction::FetchBlob { .. }));
    assert!(post.image.is_some());
    assert!(post.avatar.is_some());
    assert_ne!(post.image, post.avatar);
}

#[test]
fn last_text_field_wins() {
    let fields = vec![text_field("text", "first"), text_field("text", "second")];
    let (post, _) = parse_submission(fields).unwrap();
    assert_eq!(post.text, "second");
}

#[test]
fn unknown_fields_ignored() {
    let fields = vec![bytes_field("attachment", &[1, 2]), text_field("text", "kept")];
    let (post, acts) = parse_submission(fields).unwrap();
    assert_eq!(post.text, "kept");
    assert!(acts.is_empty());
}

#[test]
fn multibyte_text_decoded() {
    let value = "h\u{e9}llo \u{2603}";
    let fields = vec![text_field("text", value)];
    let (post, _) = parse_submission(fields).unwrap();
    assert_eq!(post.text, value);
}

#[test]
fn unnamed_field_rejected() {
    let fields = vec![RawField { name: None, data: vec![1, 2, 3] }];
    let err = parse_submission(fields).unwrap_err();
    assert!(matches!(err, AppError::MalformedSubmission(_)));
    assert_eq!(err.status_code(), 400);
}

#[test]
fn invalid_utf8_text_rejected() {
    let fields = vec![bytes_field("text", &[0xff, 0xfe, 0xfd])];
    let err = parse_submission(fields).unwrap_err();
    assert!(matches!(err, AppError::MalformedSubmission(_)));
}

#[test]
fn invalid_utf8_username_rejected() {
    let fields = vec![bytes_field("username", &[0xc0, 0x80])];
    let err = parse_submission(fields).unwrap_err();
    assert!(matches!(err, AppError::MalformedSubmission(_)));
}

#[test]
fn invalid_utf8_avatar_url_rejected() {
    let fields = vec![bytes_field("avatar_url", &[0xf8, 0x01])];
    let err = parse_submission(fields).unwrap_err();
    assert!(matches!(err, AppError::MalformedSubmission(_)));
}

#[test]
fn first_malformed_field_fails_whole_submission() {
    let fields = vec![
        text_field("text", "ok"),
        RawField { name: None, data: vec![] },
        bytes_field("image", &[9, 9]),
    ];
    assert!(parse_submission(fields).is_err());
}
