use kubevirt_actions_runner::annotations::Annotations;

#[test]
fn new_annotations_are_empty() {
    let annotations = Annotations::new();
    assert_eq!(annotations.get("a"), None);
    assert!(annotations.into_entries().is_empty());
}

#[test]
fn insert_adds_a_key() {
    let mut annotations = Annotations::new();
    annotations.insert("a".to_string(), "1".to_string());
    annotations.insert("b".to_string(), "2".to_string());
    assert_eq!(annotations.get("a"), Some("1".to_string()));
    assert_eq!(annotations.get("b"), Some("2".to_string()));
    assert_eq!(annotations.get("c"), None);
}

#[test]
fn insert_overwrites_a_key() {
    let mut annotations = Annotations::new();
    annotations.insert("a".to_string(), "1".to_string());
    annotations.insert("b".to_string(), "2".to_string());
    annotations.insert("a".to_string(), "3".to_string());
    assert_eq!(annotations.get("a"), Some("3".to_string()));
    assert_eq!(annotations.get("b"), Some("2".to_string()));
    let entries = annotations.into_entries();
    assert_eq!(entries.len(), 2);
    assert_eq!(entries[0].key, "a");
    assert_eq!(entries[0].value, "3");
    assert_eq!(entries[1].key, "b");
    assert_eq!(entries[1].value, "2");
}

#[test]
fn clone_keeps_the_entries() {
    let mut annotations = Annotations::new();
    annotations.insert("a".to_string(), "1".to_string());
    let copy = annotations.clone();
    annotations.insert("a".to_string(), "2".to_string());
    assert_eq!(copy.get("a"), Some("1".to_string()));
    assert_eq!(annotations.get("a"), Some("2".to_string()));
}
