use clipboard_history::history::HistoryStore;
use clipboard_history::history::add_to_clipboard_history;
use clipboard_history::save_history;

#[test]
fn push_beyond_capacity_keeps_five_most_recent() {
    let mut store = HistoryStore::new();
    for t in ["a", "b", "c", "d", "e", "f"] {
        store.push(t.to_string());
    }
    assert_eq!(store.snapshot(), vec!["b", "c", "d", "e", "f"]);
}

#[test]
fn length_never_exceeds_capacity() {
    let mut store = HistoryStore::new();
    for i in 0..20 {
        store.push(format!("entry {}", i));
        assert!(store.len() <= 5);
    }
    assert_eq!(
        store.snapshot(),
        vec!["entry 15", "entry 16", "entry 17", "entry 18", "entry 19"]
    );
}

#[test]
fn add_to_clipboard_history_evicts_oldest() {
    let mut history: Vec<String> = Vec::new();
    for t in ["a", "b", "c", "d", "e", "f"] {
        add_to_clipboard_history(t.to_string(), &mut history);
    }
    assert_eq!(history, vec!["b", "c", "d", "e", "f"]);
}

#[test]
fn equal_content_may_appear_multiple_times() {
    let mut store = HistoryStore::new();
    store.push("same".to_string());
    store.push("same".to_string());
    assert_eq!(store.snapshot(), vec!["same", "same"]);
}

#[test]
fn clear_then_snapshot_is_empty_and_persists_empty_list() {
    let mut store = HistoryStore::new();
    store.push("a".to_string());
    store.push("b".to_string());
    store.clear();
    let snap = store.snapshot();
    assert!(snap.is_empty());
    assert_eq!(save_history(&snap), "[]");
}

#[test]
fn from_entries_keeps_most_recent_when_over_capacity() {
    let entries: Vec<String> = (0..7).map(|i| format!("e{}", i)).collect();
    let store = HistoryStore::from_entries(entries);
    assert_eq!(store.snapshot(), vec!["e2", "e3", "e4", "e5", "e6"]);
}

#[test]
fn get_returns_entry_in_range_and_none_out_of_range() {
    let mut store = HistoryStore::new();
    store.push("x".to_string());
    store.push("y".to_string());
    assert_eq!(store.get(0).map(|s| s.as_str()), Some("x"));
    assert_eq!(store.get(1).map(|s| s.as_str()), Some("y"));
    assert!(store.get(2).is_none());
    assert_eq!(store.len(), 2);
}
