//! Persistence of the history as a JSON array of strings.
//!
//! The store's entries are encoded to one JSON text per mutation; at startup
//! the text read back from stable storage is decoded again. A missing or
//! malformed text yields an empty history rather than an error. Reading and
//! writing the file itself is the caller's concern: this module only maps
//! between entry lists and file text.

use vstd::prelude::*;
use crate::history::HistoryStore;
use crate::history::seqs_of;

verus! {

/// The JSON text that encodes a history, as a function of its entries alone.
pub uninterp spec fn json_of(h: Seq<Seq<char>>) -> Seq<char>;

/// The entry list a text decodes to, if it decodes at all, as a function of
/// the text alone.
pub uninterp spec fn parsed_of(text: Seq<char>) -> Option<Seq<Seq<char>>>;

/// Relies on serde_json::to_string::<Vec<String>>: the JSON text is a
/// function of the strings alone; encoding a list of strings never fails;
/// and serde_json::from_str::<Vec<String>> decodes the text back to exactly
/// the list it encodes.
#[verifier::external_body]
fn encode_entries(entries: &Vec<String>) -> (r: String)
    ensures
        r@ == json_of(seqs_of(entries@)),
        parsed_of(r@) == Some(seqs_of(entries@)),
{
    serde_json::to_string(entries).unwrap()
}

/// Relies on serde_json::from_str::<Vec<String>>: what a text decodes to is
/// a function of the text alone, and undecodable text is reported as an
/// error.
#[verifier::external_body]
fn decode_entries(text: &str) -> (r: Option<Vec<String>>)
    ensures
        r matches Some(v) ==> parsed_of(text@) == Some(seqs_of(v@)),
        r is None ==> parsed_of(text@) is None,
{
    serde_json::from_str::<Vec<String>>(text).ok()
}

/// The file text that persists the given entries: their JSON encoding.
/// Law: the text decodes back to exactly the entries it was saved from, so
/// a save followed by a load reconstructs the history.
pub fn save_history(history: &Vec<String>) -> (file_text: String)
    ensures
        file_text@ == json_of(seqs_of(history@)),
        parsed_of(file_text@) == Some(seqs_of(history@)),
{
    encode_entries(history)
}

/// Rebuilds the history from the persisted file text, if any. Text that
/// decodes to an entry list yields exactly that list (trimmed at the front
/// to capacity if it is over it); a missing or undecodable text yields an
/// empty history.
pub fn load_history(file_text: Option<&String>) -> (s: HistoryStore)
    ensures
        s.wf(),
        file_text matches Some(t) ==> (parsed_of(t@) matches Some(h) ==> s@ == trim_to_capacity(
            h,
        )),
        file_text matches Some(t) ==> (parsed_of(t@) is None ==> s@ == Seq::<Seq<char>>::empty()),
        file_text is None ==> s@ == Seq::<Seq<char>>::empty(),
{
    match file_text {
        None => HistoryStore::new(),
        Some(text) => {
            match decode_entries(text.as_str()) {
                None => HistoryStore::new(),
                Some(entries) => {
                    proof {
                        assert(seqs_of(entries@).len() == entries@.len());
                    }
                    HistoryStore::from_entries(entries)
                },
            }
        },
    }
}

/// The entries a freshly built history keeps: all of them when they fit,
/// otherwise only the most recent ones.
pub open spec fn trim_to_capacity(h: Seq<Seq<char>>) -> Seq<Seq<char>> {
    if h.len() <= crate::history::HISTORY_CAPACITY {
        h
    } else {
        h.skip(h.len() - crate::history::HISTORY_CAPACITY)
    }
}

} // verus!
