//! The capture decisions taken around the settle delay.
//!
//! On a detected chord, the listening flag is read once: if off, nothing is
//! scheduled. If on, a deferred capture runs after the settle delay on its
//! own execution context. At expiry the flag is read a second time — closing
//! the race where listening is turned off during the delay — and only if it
//! is still on is the clipboard text pushed onto the history. The caller
//! performs the waiting and the clipboard read; the decisions and the
//! history mutation stand here.

use vstd::prelude::*;
use crate::history::HistoryStore;
use crate::history::push_spec;
use crate::persist::json_of;
use crate::persist::save_history;

verus! {

/// How long a deferred capture waits before sampling the clipboard, in
/// milliseconds.
pub const SETTLE_DELAY_MILLIS: u64 = 500;

/// The decision taken at chord-detection time: a capture task is scheduled
/// exactly when listening is on.
pub fn chord_schedules_capture(listening: bool) -> (schedule: bool)
    ensures
        schedule == listening,
{
    listening
}

/// The deferred capture at settle-delay expiry. `listening_now` is the
/// second, fresh read of the listening flag; `text` is the clipboard text
/// (empty when the clipboard was unavailable).
///
/// If listening was turned off during the delay, this is a no-op. Otherwise
/// the text is pushed onto the history and the new persisted file text is
/// handed back for the caller to write, after which the caller must send
/// one change notification.
pub fn deferred_capture(listening_now: bool, text: String, store: &mut HistoryStore) -> (file_text:
    Option<String>)
    requires
        old(store).wf(),
    ensures
        final(store).wf(),
        listening_now ==> final(store)@ == push_spec(old(store)@, text@) && (
        file_text matches Some(t) && t@ == json_of(final(store)@)),
        !listening_now ==> final(store)@ == old(store)@ && file_text is None,
{
    if listening_now {
        store.push(text);
        let snap = store.snapshot();
        Some(save_history(&snap))
    } else {
        None
    }
}

} // verus!
