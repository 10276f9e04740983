use clipboard_history::load_history;
use clipboard_history::save_history;

#[test]
fn save_then_load_round_trips() {
    let history = vec!["x".to_string(), "y".to_string()];
    let text = save_history(&history);
    let store = load_history(Some(&text));
    assert_eq!(store.snapshot(), vec!["x", "y"]);
}

#[test]
fn saved_text_is_a_json_array_of_strings() {
    let history = vec!["x".to_string(), "y".to_string()];
    assert_eq!(save_history(&history), "[\"x\",\"y\"]");
    assert_eq!(save_history(&Vec::new()), "[]");
}

#[test]
fn load_from_missing_file_is_empty() {
    let store = load_history(None);
    assert!(store.snapshot().is_empty());
}

#[test]
fn load_from_corrupted_text_is_empty() {
    let garbage = "this is not json".to_string();
    assert!(load_history(Some(&garbage)).snapshot().is_empty());
    let wrong_type = "[1,2,3]".to_string();
    assert!(load_history(Some(&wrong_type)).snapshot().is_empty());
    let truncated = "[\"x\",".to_string();
    assert!(load_history(Some(&truncated)).snapshot().is_empty());
}

#[test]
fn load_trims_an_oversized_file_to_capacity() {
    let entries: Vec<String> = (0..8).map(|i| format!("n{}", i)).collect();
    let text = save_history(&entries);
    let store = load_history(Some(&text));
    assert_eq!(store.snapshot(), vec!["n3", "n4", "n5", "n6", "n7"]);
}

#[test]
fn load_decodes_plain_json_text() {
    let text = "[\"alpha\",\"beta\"]".to_string();
    let store = load_history(Some(&text));
    assert_eq!(store.snapshot(), vec!["alpha", "beta"]);
}
