//! Handling of control-surface actions against the shared state.
//!
//! The menu host reports a selected item by its identifier text. That text
//! is classified into an action, and the action is applied to the history
//! store and the listening toggle. The result says what the caller must do
//! next: write a persisted file text, write the clipboard, rebuild the menu
//! synchronously, or quit.

use vstd::prelude::*;
use crate::history::HistoryStore;
use crate::history::clone_string;
use crate::ids::index_value;
use crate::ids::is_index_text;
use crate::ids::parse_index;
use crate::persist::json_of;
use crate::persist::save_history;
use crate::listening::ListeningState;

verus! {

/// A control action the menu host can request.
#[derive(PartialEq, Eq, Structural, Clone, Copy, Debug)]
pub enum ControlAction {
    /// Flip the listening toggle.
    ToggleListen,
    /// Empty the history.
    Clear,
    /// Terminate the process.
    Quit,
    /// Re-apply the history entry at this position to the clipboard.
    Select(usize),
    /// Anything unrecognized: do nothing.
    Ignore,
}

/// The identifier text of the toggle item.
pub open spec fn toggle_id_text() -> Seq<char> {
    "change_listen_state"@
}

/// The identifier text of the clear item.
pub open spec fn clear_id_text() -> Seq<char> {
    "clear"@
}

/// The identifier text of the quit item.
pub open spec fn quit_id_text() -> Seq<char> {
    "quit"@
}

/// The action an identifier text denotes: one of the three reserved
/// identifiers, a decimal history position, or nothing.
pub open spec fn classify_spec(s: Seq<char>) -> ControlAction {
    if s == toggle_id_text() {
        ControlAction::ToggleListen
    } else if s == clear_id_text() {
        ControlAction::Clear
    } else if s == quit_id_text() {
        ControlAction::Quit
    } else if is_index_text(s) && index_value(s) <= usize::MAX {
        ControlAction::Select(index_value(s) as usize)
    } else {
        ControlAction::Ignore
    }
}

/// Classifies the identifier text the menu host reported.
pub fn classify_action(id: &String) -> (a: ControlAction)
    ensures
        a == classify_spec(id@),
{
    if *id == String::from_str("change_listen_state") {
        ControlAction::ToggleListen
    } else if *id == String::from_str("clear") {
        ControlAction::Clear
    } else if *id == String::from_str("quit") {
        ControlAction::Quit
    } else {
        match parse_index(id.as_str()) {
            Some(n) => ControlAction::Select(n),
            None => ControlAction::Ignore,
        }
    }
}

/// What the caller must do after an action was applied.
pub struct DispatchOutcome {
    /// Recompute and install the menu now, from the new state.
    pub rebuild_menu: bool,
    /// Overwrite the persisted file with this text.
    pub persist: Option<String>,
    /// Write this text to the system clipboard.
    pub clipboard_write: Option<String>,
    /// Terminate the process.
    pub quit: bool,
}

/// Applies a control action to the shared state.
///
/// Toggling flips the listening state and asks for a synchronous menu
/// rebuild. Clearing empties the history, hands back the empty persisted
/// text and asks for a synchronous rebuild. Selecting a valid position
/// hands back that entry's text for the clipboard and changes nothing;
/// an invalid position, like an unrecognized action, does nothing.
pub fn dispatch(action: ControlAction, store: &mut HistoryStore, state: &mut ListeningState) -> (out:
    DispatchOutcome)
    requires
        old(store).wf(),
    ensures
        final(store).wf(),
        action == ControlAction::ToggleListen ==> final(store)@ == old(store)@
            && final(state).listening() == !old(state).listening()
            && (final(state).listening() ==> final(state).just_started())
            && (!final(state).listening() ==> final(state).just_started() == old(state).just_started())
            && out.rebuild_menu && out.persist is None && out.clipboard_write is None && !out.quit,
        action == ControlAction::Clear ==> final(store)@ == Seq::<Seq<char>>::empty()
            && *final(state) == *old(state) && out.rebuild_menu
            && (out.persist matches Some(t) && t@ == json_of(Seq::<Seq<char>>::empty()))
            && out.clipboard_write is None && !out.quit,
        action == ControlAction::Quit ==> final(store)@ == old(store)@
            && *final(state) == *old(state) && !out.rebuild_menu && out.persist is None
            && out.clipboard_write is None && out.quit,
        action matches ControlAction::Select(n) ==> final(store)@ == old(store)@
            && *final(state) == *old(state) && !out.rebuild_menu && out.persist is None && !out.quit
            && (n < old(store)@.len() ==> (out.clipboard_write matches Some(t) && t@ == old(store)@[n as int]))
            && (n >= old(store)@.len() ==> out.clipboard_write is None),
        action == ControlAction::Ignore ==> final(store)@ == old(store)@
            && *final(state) == *old(state) && !out.rebuild_menu && out.persist is None
            && out.clipboard_write is None && !out.quit,
{
    match action {
        ControlAction::ToggleListen => {
            state.toggle();
            DispatchOutcome {
                rebuild_menu: true,
                persist: None,
                clipboard_write: None,
                quit: false,
            }
        },
        ControlAction::Clear => {
            store.clear();
            let snap = store.snapshot();
            let file_text = save_history(&snap);
            proof {
                assert(crate::history::seqs_of(snap@) =~= Seq::<Seq<char>>::empty());
            }
            DispatchOutcome {
                rebuild_menu: true,
                persist: Some(file_text),
                clipboard_write: None,
                quit: false,
            }
        },
        ControlAction::Quit => {
            DispatchOutcome {
                rebuild_menu: false,
                persist: None,
                clipboard_write: None,
                quit: true,
            }
        },
        ControlAction::Select(n) => {
            let text = match store.get(n) {
                Some(entry) => Some(clone_string(entry)),
                None => None,
            };
            DispatchOutcome {
                rebuild_menu: false,
                persist: None,
                clipboard_write: text,
                quit: false,
            }
        },
        ControlAction::Ignore => {
            DispatchOutcome {
                rebuild_menu: false,
                persist: None,
                clipboard_write: None,
                quit: false,
            }
        },
    }
}

} // verus!
