use ucms_core::Document;
use ucms_core::Storage;

#[test]
fn storage() {
    let mut storage: Vec<Document<&str>> = Vec::new();
    storage.add(Document::new(1, "Hello, world!", 0));
    storage.add(Document::new(2, "Hello, Rust!", 1));

    assert_eq!(storage.get(1).unwrap().content, "Hello, world!");
    assert_eq!(storage.get(2).unwrap().content, "Hello, Rust!");

    assert_eq!(storage.update(1, "Hello, Rust!", 2), true);
    assert_eq!(storage.get(1).unwrap().content, "Hello, Rust!");

    assert_eq!(storage.delete(1), true);
    assert_eq!(storage.delete(1), false);
}

#[test]
fn get_twice_returns_equal_results() {
    let mut storage: Vec<Document<&str>> = Vec::new();
    storage.add(Document::new(1, "a", 0));
    storage.add(Document::new(2, "b", 1));

    let first = storage.get(2);
    let second = storage.get(2);
    assert_eq!(first, second);
    assert_eq!(first.unwrap().content, "b");

    let miss_first = storage.get(9);
    let miss_second = storage.get(9);
    assert_eq!(miss_first, miss_second);
    assert!(miss_first.is_none());
}

#[test]
fn delete_is_single_use() {
    let mut storage: Vec<Document<&str>> = Vec::new();
    storage.add(Document::new(5, "only", 3));

    assert_eq!(storage.delete(5), true);
    assert_eq!(storage.delete(5), false);
    assert_eq!(storage.delete(5), false);
    assert!(storage.get(5).is_none());
}

#[test]
fn update_missing_id_is_noop() {
    let mut storage: Vec<Document<&str>> = Vec::new();
    storage.add(Document::new(1, "kept", 0));

    assert_eq!(storage.update(2, "changed", 9), false);
    assert_eq!(storage.len(), 1);
    let doc = storage.get(1).unwrap();
    assert_eq!(doc.content, "kept");
    assert_eq!(doc.version, 0);
    assert_eq!(doc.modified_at, None);

    let mut empty: Vec<Document<&str>> = Vec::new();
    assert_eq!(empty.update(1, "x", 0), false);
    assert_eq!(empty.len(), 0);
}

#[test]
fn duplicate_ids_first_match_wins() {
    let mut storage: Vec<Document<&str>> = Vec::new();
    storage.add(Document::new(1, "first", 0));
    storage.add(Document::new(1, "second", 1));

    assert_eq!(storage.get(1).unwrap().content, "first");

    assert_eq!(storage.update(1, "patched", 2), true);
    assert_eq!(storage.get(1).unwrap().content, "patched");
    assert_eq!(storage[1].content, "second");

    assert_eq!(storage.delete(1), true);
    assert_eq!(storage.get(1).unwrap().content, "second");
    assert_eq!(storage.delete(1), true);
    assert_eq!(storage.delete(1), false);
}

#[test]
fn empty_storage_misses() {
    let mut storage: Vec<Document<&str>> = Vec::new();
    assert!(storage.get(0).is_none());
    assert_eq!(storage.delete(0), false);
    assert_eq!(storage.update(0, "x", 0), false);
}
