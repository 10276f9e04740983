//! Projection of the history and the listening flag into a menu
//! description.
//!
//! The projection is a pure function: one entry item per history entry with
//! the entry's text as its label (truncated with an ellipsis marker when it
//! runs long), or a single disabled placeholder when the history is empty;
//! then a toggle item whose label depends on the listening flag, a clear
//! item and a quit item.

use vstd::prelude::*;

verus! {

/// Labels longer than this many characters are truncated.
pub const LABEL_LIMIT: usize = 15;

/// The identifier a menu item reports when selected.
#[derive(PartialEq, Eq, Structural, Clone, Copy, Debug)]
pub enum MenuId {
    /// Re-apply the history entry at this position to the clipboard.
    Entry(usize),
    /// The inert placeholder shown while the history is empty.
    EmptyPlaceholder,
    /// Flip the listening toggle.
    ToggleListen,
    /// Empty the history.
    Clear,
    /// Terminate the process.
    Quit,
}

/// One selectable (or disabled) menu item.
pub struct MenuItem {
    /// The text the menu host displays.
    pub label: String,
    /// What selecting the item means.
    pub id: MenuId,
    /// Whether the item can be selected at all.
    pub enabled: bool,
}

/// The ellipsis marker appended to a truncated label.
pub open spec fn ellipsis() -> Seq<char> {
    seq!['.', '.', '.']
}

/// The label shown for a history entry: the entry's text, truncated to
/// [`LABEL_LIMIT`] characters with an ellipsis marker when longer.
pub open spec fn label_of(t: Seq<char>) -> Seq<char> {
    if t.len() > LABEL_LIMIT {
        t.take(LABEL_LIMIT as int) + ellipsis()
    } else {
        t
    }
}

/// The placeholder label shown while the history is empty.
pub open spec fn placeholder_label() -> Seq<char> {
    "Copy something..."@
}

/// The toggle item's label while listening is on.
pub open spec fn pause_label() -> Seq<char> {
    "Pause listening"@
}

/// The toggle item's label while listening is off.
pub open spec fn listen_label() -> Seq<char> {
    "Listen"@
}

/// The clear item's label.
pub open spec fn clear_label() -> Seq<char> {
    "Clear"@
}

/// The quit item's label.
pub open spec fn quit_label() -> Seq<char> {
    "Quit"@
}

/// The label shown for one history entry.
pub fn entry_label(text: &String) -> (r: String)
    ensures
        r@ == label_of(text@),
{
    let n = text.as_str().unicode_len();
    if n > LABEL_LIMIT {
        let head = text.as_str().substring_char(0, LABEL_LIMIT);
        let r = String::from_str(head).concat("...");
        proof {
            reveal_strlit("...");
            assert("..."@ =~= ellipsis());
            assert(r@ =~= label_of(text@));
        }
        r
    } else {
        text.clone()
    }
}

/// Builds the menu for the given history entries and listening flag: the
/// entry items (or the placeholder), then the toggle, clear and quit items.
pub fn create_tray_menu(clipboard_history: &Vec<String>, is_listen: bool) -> (m: Vec<MenuItem>)
    ensures
        clipboard_history@.len() == 0 ==> m@.len() == 4,
        clipboard_history@.len() > 0 ==> m@.len() == clipboard_history@.len() + 3,
        clipboard_history@.len() == 0 ==> m@[0].id == MenuId::EmptyPlaceholder && !m@[0].enabled
            && m@[0].label@ == placeholder_label(),
        forall|i: int|
            0 <= i < clipboard_history@.len() ==> (#[trigger] m@[i].id) == MenuId::Entry(i as usize)
                && m@[i].enabled && m@[i].label@ == label_of(clipboard_history@[i]@),
        m@[m@.len() - 3].id == MenuId::ToggleListen && m@[m@.len() - 3].enabled,
        m@[m@.len() - 3].label@ == if is_listen {
            pause_label()
        } else {
            listen_label()
        },
        m@[m@.len() - 2].id == MenuId::Clear && m@[m@.len() - 2].enabled && m@[m@.len()
            - 2].label@ == clear_label(),
        m@[m@.len() - 1].id == MenuId::Quit && m@[m@.len() - 1].enabled && m@[m@.len()
            - 1].label@ == quit_label(),
{
    let mut m: Vec<MenuItem> = Vec::new();
    if clipboard_history.len() == 0 {
        m.push(
            MenuItem {
                label: String::from_str("Copy something..."),
                id: MenuId::EmptyPlaceholder,
                enabled: false,
            },
        );
    } else {
        let mut i: usize = 0;
        while i < clipboard_history.len()
            invariant
                i <= clipboard_history@.len(),
                m@.len() == i,
                forall|j: int|
                    0 <= j < i ==> (#[trigger] m@[j].id) == MenuId::Entry(j as usize)
                        && m@[j].enabled && m@[j].label@ == label_of(clipboard_history@[j]@),
            decreases clipboard_history@.len() - i,
        {
            let label = entry_label(&clipboard_history[i]);
            m.push(MenuItem { label, id: MenuId::Entry(i), enabled: true });
            i = i + 1;
        }
    }
    let toggle_label = if is_listen {
        String::from_str("Pause listening")
    } else {
        String::from_str("Listen")
    };
    m.push(MenuItem { label: toggle_label, id: MenuId::ToggleListen, enabled: true });
    m.push(MenuItem { label: String::from_str("Clear"), id: MenuId::Clear, enabled: true });
    m.push(MenuItem { label: String::from_str("Quit"), id: MenuId::Quit, enabled: true });
    m
}

} // verus!
