//! Bounded, ordered history of captured clipboard text.
//!
//! The history keeps at most [`HISTORY_CAPACITY`] entries, oldest first.
//! Pushing onto a full history evicts the oldest entry before appending.

use vstd::prelude::*;

verus! {

/// Maximum number of entries the history retains.
pub const HISTORY_CAPACITY: usize = 5;

/// The view of a list of strings as a sequence of character sequences.
pub open spec fn seqs_of(v: Seq<String>) -> Seq<Seq<char>> {
    v.map_values(|s: String| s@)
}

/// What one push does to a history: append the new entry, evicting the
/// oldest entry first when the history is already at (or beyond) capacity.
pub open spec fn push_spec(h: Seq<Seq<char>>, t: Seq<char>) -> Seq<Seq<char>> {
    if h.len() < HISTORY_CAPACITY {
        h.push(t)
    } else {
        h.skip(1).push(t)
    }
}

/// The result of pushing every element of `ts`, in order, onto `h`.
pub open spec fn push_all(h: Seq<Seq<char>>, ts: Seq<Seq<char>>) -> Seq<Seq<char>>
    decreases ts.len(),
{
    if ts.len() == 0 {
        h
    } else {
        push_all(push_spec(h, ts[0]), ts.skip(1))
    }
}

/// Appends `text` to the history, evicting the oldest entry first when the
/// history already holds at least [`HISTORY_CAPACITY`] entries.
pub fn add_to_clipboard_history(text: String, clipboard_history: &mut Vec<String>)
    ensures
        seqs_of(final(clipboard_history)@) == push_spec(seqs_of(old(clipboard_history)@), text@),
{
    if clipboard_history.len() >= HISTORY_CAPACITY {
        clipboard_history.remove(0);
    }
    clipboard_history.push(text);
    proof {
        let old_v = seqs_of(old(clipboard_history)@);
        let new_v = seqs_of(clipboard_history@);
        assert(new_v =~= push_spec(old_v, text@));
    }
}

/// Owner of the bounded history sequence.
pub struct HistoryStore {
    entries: Vec<String>,
}

impl View for HistoryStore {
    type V = Seq<Seq<char>>;

    closed spec fn view(&self) -> Seq<Seq<char>> {
        seqs_of(self.entries@)
    }
}

impl HistoryStore {
    /// The capacity bound: the history never holds more entries than fit.
    pub open spec fn wf(&self) -> bool {
        self@.len() <= HISTORY_CAPACITY
    }

    /// An empty history.
    pub fn new() -> (s: Self)
        ensures
            s@ == Seq::<Seq<char>>::empty(),
            s.wf(),
    {
        let s = HistoryStore { entries: Vec::new() };
        proof {
            assert(s@ =~= Seq::<Seq<char>>::empty());
        }
        s
    }

    /// Builds a history from loaded entries, keeping only the most recent
    /// ones (the tail) when there are more than fit.
    pub fn from_entries(entries: Vec<String>) -> (s: Self)
        ensures
            s.wf(),
            entries@.len() <= HISTORY_CAPACITY ==> s@ == seqs_of(entries@),
            entries@.len() > HISTORY_CAPACITY ==> s@ == seqs_of(entries@).skip(
                entries@.len() - HISTORY_CAPACITY,
            ),
    {
        let total: usize = entries.len();
        if total > HISTORY_CAPACITY {
            let start: usize = total - HISTORY_CAPACITY;
            let mut kept: Vec<String> = Vec::new();
            let mut i: usize = start;
            while i < total
                invariant
                    start == total - HISTORY_CAPACITY,
                    start <= i <= total,
                    total == entries@.len(),
                    total > HISTORY_CAPACITY,
                    kept@.len() == i - start,
                    forall|j: int| 0 <= j < kept@.len() ==> #[trigger] kept@[j]@ == entries@[start
                        + j]@,
                decreases total - i,
            {
                let e = clone_string(&entries[i]);
                kept.push(e);
                i = i + 1;
            }
            let s = HistoryStore { entries: kept };
            proof {
                assert(s@ =~= seqs_of(entries@).skip(entries@.len() - HISTORY_CAPACITY));
            }
            s
        } else {
            HistoryStore { entries }
        }
    }

    /// Number of entries currently held.
    pub fn len(&self) -> (n: usize)
        ensures
            n == self@.len(),
    {
        self.entries.len()
    }

    /// The entry at position `i`, if `i` is a valid position.
    pub fn get(&self, i: usize) -> (r: Option<&String>)
        ensures
            i < self@.len() ==> (r matches Some(s) && s@ == self@[i as int]),
            i >= self@.len() ==> r is None,
    {
        if i < self.entries.len() {
            Some(&self.entries[i])
        } else {
            None
        }
    }

    /// Appends `text`, evicting the oldest entry when at capacity.
    pub fn push(&mut self, text: String)
        requires
            old(self).wf(),
        ensures
            final(self).wf(),
            final(self)@ == push_spec(old(self)@, text@),
    {
        add_to_clipboard_history(text, &mut self.entries);
    }

    /// Empties the history.
    pub fn clear(&mut self)
        ensures
            final(self).wf(),
            final(self)@ == Seq::<Seq<char>>::empty(),
    {
        self.entries.clear();
        proof {
            assert(self@ =~= Seq::<Seq<char>>::empty());
        }
    }

    /// An independent copy of the current entries, oldest first, safe to
    /// read while the store itself is mutated elsewhere.
    pub fn snapshot(&self) -> (v: Vec<String>)
        ensures
            seqs_of(v@) == self@,
    {
        let mut v: Vec<String> = Vec::new();
        let mut i: usize = 0;
        while i < self.entries.len()
            invariant
                i <= self.entries@.len(),
                v@.len() == i,
                forall|j: int| 0 <= j < v@.len() ==> #[trigger] v@[j]@ == self.entries@[j]@,
            decreases self.entries@.len() - i,
        {
            let e = clone_string(&self.entries[i]);
            v.push(e);
            i = i + 1;
        }
        proof {
            assert(seqs_of(v@) =~= self@);
        }
        v
    }
}

/// Law: pushing any sequence of entries onto a history within capacity
/// leaves the history within capacity.
pub proof fn lemma_push_all_bounded(h: Seq<Seq<char>>, ts: Seq<Seq<char>>)
    requires
        h.len() <= HISTORY_CAPACITY,
    ensures
        push_all(h, ts).len() <= HISTORY_CAPACITY,
    decreases ts.len(),
{
    if ts.len() > 0 {
        lemma_push_all_bounded(push_spec(h, ts[0]), ts.skip(1));
    }
}

/// Law: pushing a sequence of entries onto a history within capacity keeps
/// exactly the most recent entries, oldest first: the concatenation of the
/// starting history and the pushed entries, trimmed at the front to capacity.
pub proof fn lemma_push_all_keeps_most_recent(h: Seq<Seq<char>>, ts: Seq<Seq<char>>)
    requires
        h.len() <= HISTORY_CAPACITY,
    ensures
        push_all(h, ts) == if h.len() + ts.len() <= HISTORY_CAPACITY {
            h + ts
        } else {
            (h + ts).skip(h.len() + ts.len() - HISTORY_CAPACITY)
        },
    decreases ts.len(),
{
    if ts.len() == 0 {
        assert(h + ts =~= h);
    } else {
        let h2 = push_spec(h, ts[0]);
        let ts1 = ts.skip(1);
        lemma_push_all_keeps_most_recent(h2, ts1);
        if h.len() < HISTORY_CAPACITY {
            assert(h2 + ts1 =~= h + ts);
        } else {
            assert(h2 + ts1 =~= (h + ts).skip(1));
            if h2.len() + ts1.len() > HISTORY_CAPACITY {
                let k = h.len() + ts.len() - HISTORY_CAPACITY;
                assert((h + ts).skip(1).skip(k - 1) =~= (h + ts).skip(k as int));
                assert((h2 + ts1).skip(h2.len() + ts1.len() - HISTORY_CAPACITY) == (h
                    + ts).skip(1).skip(k - 1));
            }
        }
    }
}

/// Law: starting from an empty history, after pushing fewer entries than the
/// capacity the history holds them all; after pushing at least as many, it
/// holds exactly the most recently pushed ones, oldest first, and never more
/// than the capacity.
pub proof fn lemma_history_survivors(ts: Seq<Seq<char>>)
    ensures
        push_all(Seq::<Seq<char>>::empty(), ts).len() <= HISTORY_CAPACITY,
        ts.len() < HISTORY_CAPACITY ==> push_all(Seq::<Seq<char>>::empty(), ts) == ts,
        ts.len() >= HISTORY_CAPACITY ==> push_all(Seq::<Seq<char>>::empty(), ts) == ts.skip(
            ts.len() - HISTORY_CAPACITY,
        ),
{
    let e = Seq::<Seq<char>>::empty();
    lemma_push_all_bounded(e, ts);
    lemma_push_all_keeps_most_recent(e, ts);
    assert(e + ts =~= ts);
    if ts.len() >= HISTORY_CAPACITY {
        assert(ts.skip(0) =~= ts);
        assert((e + ts).skip(e.len() + ts.len() - HISTORY_CAPACITY) =~= ts.skip(
            ts.len() - HISTORY_CAPACITY,
        ));
    }
}

/// A copy of a string with the same characters.
pub(crate) fn clone_string(s: &String) -> (r: String)
    ensures
        r@ == s@,
{
    s.clone()
}

} // verus!
