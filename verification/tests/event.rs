use bombastic_indexer::event::{Notification, StorageEvent, PUT_EVENT};

#[test]
fn storage_event_keeps_name_and_key() {
    let event = StorageEvent::new("s3:ObjectCreated:Put".to_string(), "bombastic/data/sbom/doc1".to_string());
    assert_eq!(event.event_name(), "s3:ObjectCreated:Put");
    assert_eq!(event.key(), "bombastic/data/sbom/doc1");
}

#[test]
fn only_the_put_event_is_a_put() {
    assert_eq!(PUT_EVENT, "s3:ObjectCreated:Put");
    assert!(StorageEvent::new("s3:ObjectCreated:Put".to_string(), "k".to_string()).is_put());
    assert!(!StorageEvent::new("s3:ObjectRemoved:Delete".to_string(), "k".to_string()).is_put());
    assert!(!StorageEvent::new("s3:ObjectCreated:Post".to_string(), "k".to_string()).is_put());
    assert!(!StorageEvent::new("s3:ObjectCreated:Put ".to_string(), "k".to_string()).is_put());
    assert!(!StorageEvent::new("s3:objectcreated:put".to_string(), "k".to_string()).is_put());
    assert!(!StorageEvent::new(String::new(), "k".to_string()).is_put());
}

#[test]
fn notifications_compare_by_content() {
    let a = Notification::Event(StorageEvent::new("a".to_string(), "k".to_string()));
    let b = Notification::Event(StorageEvent::new("a".to_string(), "k".to_string()));
    assert_eq!(a, b);
    assert_ne!(a, Notification::Empty);
    assert_ne!(Notification::Empty, Notification::Malformed);
}
