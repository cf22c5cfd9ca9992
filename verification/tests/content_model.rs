use user_notify::NotifyBuilder;
use user_notify::UserMetadata;

#[test]
fn builder_starts_empty() {
    let b = NotifyBuilder::new();
    assert!(b.body.is_none());
    assert!(b.title.is_none());
    assert!(b.subtitle.is_none());
    assert!(b.thread_id.is_none());
    assert!(b.category_id.is_none());
    assert!(b.user_metadata.is_none());
    assert!(b.sound.is_none());
}

#[test]
fn builder_sets_each_field() {
    let mut m = UserMetadata::new();
    m.insert("k", "v");
    let b = NotifyBuilder::new()
        .title("Hi")
        .body("Test")
        .subtitle("sub")
        .sound("default")
        .set_thread_id("thread-1")
        .set_category_id("cat.a")
        .set_user_metadata(m);
    assert_eq!(b.title.as_deref(), Some("Hi"));
    assert_eq!(b.body.as_deref(), Some("Test"));
    assert_eq!(b.subtitle.as_deref(), Some("sub"));
    assert_eq!(b.sound.as_deref(), Some("default"));
    assert_eq!(b.thread_id.as_deref(), Some("thread-1"));
    assert_eq!(b.category_id.as_deref(), Some("cat.a"));
    assert_eq!(
        b.user_metadata.unwrap().entries,
        vec![("k".to_string(), "v".to_string())],
    );
}

#[test]
fn builder_later_setting_replaces_earlier() {
    let b = NotifyBuilder::new().title("first").title("second");
    assert_eq!(b.title.as_deref(), Some("second"));
}

#[test]
fn metadata_insert_and_duplicate() {
    let mut m = UserMetadata::new();
    m.insert("a", "1");
    m.insert("b", "2");
    let copy = m.duplicate();
    assert_eq!(copy.entries, m.entries);
    assert_eq!(
        m.entries,
        vec![
            ("a".to_string(), "1".to_string()),
            ("b".to_string(), "2".to_string()),
        ],
    );
}
