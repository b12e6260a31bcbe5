use qtunnel::store::ScriptStore;

fn sample_store() -> ScriptStore {
    let mut store = ScriptStore::new(None);
    store.insert_new(
        "id-1".to_string(),
        "2026-01-01T00:00:00+00:00".to_string(),
        "one".to_string(),
        "first".to_string(),
        "print(1)".to_string(),
    );
    store.insert_new(
        "id-2".to_string(),
        "2026-01-02T00:00:00+00:00".to_string(),
        "two".to_string(),
        String::new(),
        "print(2)".to_string(),
    );
    store
}

#[test]
fn created_script_is_returned_by_get_with_its_fields() {
    let mut store = ScriptStore::new(None);
    let created = store.create("backup".to_string(), "nightly".to_string(), "print('x')".to_string());
    assert_eq!(created.id.len(), 36);
    assert!(!created.created_at.is_empty());
    assert_eq!(created.created_at, created.updated_at);
    assert!(created.enabled);
    let found = store.get(&created.id).unwrap();
    assert_eq!(found.id, created.id);
    assert_eq!(found.name, "backup");
    assert_eq!(found.description, "nightly");
    assert_eq!(found.code, "print('x')");
    assert_eq!(found.created_at, created.created_at);
    assert_eq!(store.count(), 1);
}

#[test]
fn two_creates_get_distinct_ids() {
    let mut store = ScriptStore::new(None);
    let a = store.create("a".to_string(), String::new(), String::new());
    let b = store.create("b".to_string(), String::new(), String::new());
    assert_ne!(a.id, b.id);
    let names: Vec<String> = store.list().into_iter().map(|s| s.name).collect();
    assert_eq!(names, vec!["a".to_string(), "b".to_string()]);
}

#[test]
fn update_keeps_id_and_created_at_and_moves_updated_at_forward() {
    let mut store = sample_store();
    let updated = store
        .update_at(
            "id-1",
            "uno".to_string(),
            "changed".to_string(),
            "print(11)".to_string(),
            "2026-02-01T00:00:00+00:00".to_string(),
        )
        .unwrap();
    assert_eq!(updated.id, "id-1");
    assert_eq!(updated.created_at, "2026-01-01T00:00:00+00:00");
    assert_eq!(updated.updated_at, "2026-02-01T00:00:00+00:00");
    assert!(updated.updated_at >= "2026-01-01T00:00:00+00:00".to_string());
    let found = store.get("id-1").unwrap();
    assert_eq!(found.name, "uno");
    assert_eq!(found.description, "changed");
    assert_eq!(found.code, "print(11)");
    assert_eq!(store.get("id-2").unwrap().name, "two");
}

#[test]
fn update_with_clock_keeps_identity() {
    let mut store = sample_store();
    let updated = store.update("id-2", "deux".to_string(), "d".to_string(), "c".to_string()).unwrap();
    assert_eq!(updated.id, "id-2");
    assert_eq!(updated.created_at, "2026-01-02T00:00:00+00:00");
    assert!(updated.updated_at >= updated.created_at);
}

#[test]
fn update_of_unknown_id_changes_nothing() {
    let mut store = sample_store();
    assert!(store.update("nope", "x".to_string(), "y".to_string(), "z".to_string()).is_none());
    let names: Vec<String> = store.list().into_iter().map(|s| s.name).collect();
    assert_eq!(names, vec!["one".to_string(), "two".to_string()]);
}

#[test]
fn delete_of_unknown_id_returns_false_and_keeps_collection() {
    let mut store = sample_store();
    let before: Vec<(String, String)> = store.list().into_iter().map(|s| (s.id, s.updated_at)).collect();
    assert!(!store.delete("missing"));
    assert!(!store.delete("missing"));
    let after: Vec<(String, String)> = store.list().into_iter().map(|s| (s.id, s.updated_at)).collect();
    assert_eq!(before, after);
}

#[test]
fn delete_removes_only_the_named_script() {
    let mut store = sample_store();
    assert!(store.delete("id-1"));
    assert!(store.get("id-1").is_none());
    assert_eq!(store.count(), 1);
    assert_eq!(store.get("id-2").unwrap().code, "print(2)");
    assert!(!store.delete("id-1"));
}

#[test]
fn loaded_scripts_are_kept_in_order_and_missing_file_means_empty() {
    let first = sample_store().list();
    let reloaded = ScriptStore::new(Some(first.clone()));
    let names: Vec<String> = reloaded.list().into_iter().map(|s| s.name).collect();
    assert_eq!(names, vec!["one".to_string(), "two".to_string()]);
    assert_eq!(ScriptStore::new(None).count(), 0);
}

#[test]
fn get_on_empty_store_is_none() {
    let store = ScriptStore::new(Some(Vec::new()));
    assert!(store.get("").is_none());
    assert!(store.list().is_empty());
}
