use clipboard_history::dispatch::ControlAction;
use clipboard_history::dispatch::classify_action;
use clipboard_history::dispatch::dispatch;
use clipboard_history::history::HistoryStore;
use clipboard_history::ids::format_index;
use clipboard_history::ids::parse_index;
use clipboard_history::listening::ListeningState;

#[test]
fn reserved_identifiers_classify_to_their_actions() {
    assert_eq!(
        classify_action(&"change_listen_state".to_string()),
        ControlAction::ToggleListen
    );
    assert_eq!(classify_action(&"clear".to_string()), ControlAction::Clear);
    assert_eq!(classify_action(&"quit".to_string()), ControlAction::Quit);
}

#[test]
fn numeric_identifiers_classify_to_select() {
    assert_eq!(classify_action(&"3".to_string()), ControlAction::Select(3));
    assert_eq!(classify_action(&"0".to_string()), ControlAction::Select(0));
    assert_eq!(classify_action(&"007".to_string()), ControlAction::Select(7));
}

#[test]
fn unrecognized_identifiers_are_ignored() {
    assert_eq!(classify_action(&"empty".to_string()), ControlAction::Ignore);
    assert_eq!(classify_action(&"".to_string()), ControlAction::Ignore);
    assert_eq!(classify_action(&"abc".to_string()), ControlAction::Ignore);
    assert_eq!(classify_action(&"1a".to_string()), ControlAction::Ignore);
    let too_big = "99999999999999999999999999999999".to_string();
    assert_eq!(classify_action(&too_big), ControlAction::Ignore);
}

#[test]
fn format_and_parse_index_are_inverses() {
    assert_eq!(format_index(0), "0");
    assert_eq!(format_index(7), "7");
    assert_eq!(format_index(12345), "12345");
    assert_eq!(parse_index("12345"), Some(12345));
    assert_eq!(parse_index("0"), Some(0));
    for n in [0usize, 1, 9, 10, 42, 100, 65535] {
        assert_eq!(parse_index(&format_index(n)), Some(n));
    }
    assert_eq!(parse_index(""), None);
    assert_eq!(parse_index("x1"), None);
}

#[test]
fn toggle_flips_listening_and_asks_for_rebuild() {
    let mut store = HistoryStore::new();
    store.push("a".to_string());
    let mut state = ListeningState::new();
    assert!(state.is_listening());
    let out = dispatch(ControlAction::ToggleListen, &mut store, &mut state);
    assert!(!state.is_listening());
    assert!(out.rebuild_menu);
    assert!(out.persist.is_none());
    assert!(out.clipboard_write.is_none());
    assert!(!out.quit);
    assert_eq!(store.snapshot(), vec!["a"]);
    let out2 = dispatch(ControlAction::ToggleListen, &mut store, &mut state);
    assert!(state.is_listening());
    assert!(state.was_just_started());
    assert!(out2.rebuild_menu);
}

#[test]
fn clear_empties_history_and_persists_empty_list() {
    let mut store = HistoryStore::new();
    store.push("a".to_string());
    store.push("b".to_string());
    let mut state = ListeningState::new();
    let out = dispatch(ControlAction::Clear, &mut store, &mut state);
    assert!(store.snapshot().is_empty());
    assert_eq!(out.persist.as_deref(), Some("[]"));
    assert!(out.rebuild_menu);
    assert!(out.clipboard_write.is_none());
    assert!(!out.quit);
    assert!(state.is_listening());
}

#[test]
fn quit_only_requests_termination() {
    let mut store = HistoryStore::new();
    store.push("a".to_string());
    let mut state = ListeningState::new();
    let out = dispatch(ControlAction::Quit, &mut store, &mut state);
    assert!(out.quit);
    assert!(!out.rebuild_menu);
    assert!(out.persist.is_none());
    assert!(out.clipboard_write.is_none());
    assert_eq!(store.snapshot(), vec!["a"]);
}

#[test]
fn select_writes_entry_to_clipboard_without_mutating_history() {
    let mut store = HistoryStore::new();
    store.push("first".to_string());
    store.push("second".to_string());
    store.push("third".to_string());
    let mut state = ListeningState::new();
    let out = dispatch(ControlAction::Select(1), &mut store, &mut state);
    assert_eq!(out.clipboard_write.as_deref(), Some("second"));
    assert!(!out.rebuild_menu);
    assert!(out.persist.is_none());
    assert!(!out.quit);
    assert_eq!(store.snapshot(), vec!["first", "second", "third"]);
}

#[test]
fn select_out_of_range_does_nothing() {
    let mut store = HistoryStore::new();
    store.push("only".to_string());
    let mut state = ListeningState::new();
    let out = dispatch(ControlAction::Select(5), &mut store, &mut state);
    assert!(out.clipboard_write.is_none());
    assert_eq!(store.snapshot(), vec!["only"]);
}

#[test]
fn ignored_action_changes_nothing() {
    let mut store = HistoryStore::new();
    store.push("a".to_string());
    let mut state = ListeningState::new();
    let out = dispatch(ControlAction::Ignore, &mut store, &mut state);
    assert!(!out.rebuild_menu && out.persist.is_none());
    assert!(out.clipboard_write.is_none() && !out.quit);
    assert_eq!(store.snapshot(), vec!["a"]);
    assert!(state.is_listening());
}
