//! Detection of the copy chord from a raw stream of key press and release
//! events.
//!
//! The detector tracks the set of currently held keys. After every press it
//! reports whether the target chord — left control together with the letter
//! C — is fully held. Repeated presses while both keys stay held report the
//! chord again each time; absorbing that repetition is the capture
//! coordinator's concern, not the detector's.

use vstd::prelude::*;

verus! {

/// A key as the detector tells keys apart: the two chord keys by name, and
/// any other key by a numeric identifier the caller chooses.
#[derive(PartialEq, Eq, Structural, Clone, Copy, Debug, Hash)]
pub enum KeyId {
    ControlLeft,
    KeyC,
    Other(u32),
}

/// Tracks the set of currently held keys.
pub struct KeyChordDetector {
    pressed: Vec<KeyId>,
}

impl KeyChordDetector {
    /// Whether key `k` is currently held.
    pub closed spec fn holds(&self, k: KeyId) -> bool {
        self.pressed@.contains(k)
    }

    /// The held keys carry no duplicates, so one removal releases a key.
    pub closed spec fn wf(&self) -> bool {
        forall|i: int, j: int|
            0 <= i < j < self.pressed@.len() ==> self.pressed@[i] != self.pressed@[j]
    }

    /// Whether the target chord is fully held.
    pub open spec fn chord_held(&self) -> bool {
        self.holds(KeyId::ControlLeft) && self.holds(KeyId::KeyC)
    }

    /// A detector with no key held.
    pub fn new() -> (d: Self)
        ensures
            d.wf(),
            forall|k: KeyId| !d.holds(k),
    {
        KeyChordDetector { pressed: Vec::new() }
    }

    /// Whether key `k` is currently held.
    fn contains(&self, k: KeyId) -> (b: bool)
        ensures
            b == self.holds(k),
    {
        let mut i: usize = 0;
        while i < self.pressed.len()
            invariant
                i <= self.pressed@.len(),
                forall|j: int| 0 <= j < i ==> self.pressed@[j] != k,
            decreases self.pressed@.len() - i,
        {
            if self.pressed[i] == k {
                return true;
            }
            i = i + 1;
        }
        false
    }

    /// Records a press of key `k` and reports whether the target chord is
    /// now fully held.
    pub fn on_press(&mut self, k: KeyId) -> (chord: bool)
        requires
            old(self).wf(),
        ensures
            final(self).wf(),
            forall|x: KeyId| final(self).holds(x) == (old(self).holds(x) || x == k),
            chord == final(self).chord_held(),
    {
        if !self.contains(k) {
            self.pressed.push(k);
            proof {
                let prev = old(self).pressed@;
                let now = self.pressed@;
                assert forall|x: KeyId| now.contains(x) == (prev.contains(x) || x == k) by {
                    if now.contains(x) && x != k {
                        let a = choose|a: int| 0 <= a < now.len() && now[a] == x;
                        assert(prev[a] == x);
                    }
                    if prev.contains(x) {
                        let a = choose|a: int| 0 <= a < prev.len() && prev[a] == x;
                        assert(now[a] == x);
                    }
                    assert(now[now.len() - 1] == k);
                }
                assert forall|a: int, b: int| 0 <= a < b < now.len() implies now[a] != now[b] by {
                    if b == now.len() - 1 {
                        assert(now[a] == prev[a]);
                        if prev[a] == k {
                            assert(prev.contains(k));
                        }
                    } else {
                        assert(now[a] == prev[a] && now[b] == prev[b]);
                    }
                }
            }
        }
        let chord = self.contains(KeyId::ControlLeft) && self.contains(KeyId::KeyC);
        chord
    }

    /// Records a release of key `k`.
    pub fn on_release(&mut self, k: KeyId)
        requires
            old(self).wf(),
        ensures
            final(self).wf(),
            forall|x: KeyId| final(self).holds(x) == (old(self).holds(x) && x != k),
    {
        let mut i: usize = 0;
        while i < self.pressed.len()
            invariant
                i <= self.pressed@.len(),
                forall|j: int| 0 <= j < i ==> self.pressed@[j] != k,
                self.wf(),
                self.pressed@ == old(self).pressed@,
            decreases self.pressed@.len() - i,
        {
            if self.pressed[i] == k {
                self.pressed.remove(i);
                proof {
                    let prev = old(self).pressed@;
                    let now = self.pressed@;
                    assert forall|x: KeyId| now.contains(x) == (prev.contains(x) && x != k) by {
                        if now.contains(x) {
                            let a = choose|a: int| 0 <= a < now.len() && now[a] == x;
                            if a < i {
                                assert(prev[a] == x);
                            } else {
                                assert(prev[a + 1] == x);
                            }
                            assert(prev.contains(x));
                            assert(x != k);
                        }
                        if prev.contains(x) && x != k {
                            let a = choose|a: int| 0 <= a < prev.len() && prev[a] == x;
                            if a < i {
                                assert(now[a] == x);
                            } else {
                                assert(a != i);
                                assert(now[a - 1] == x);
                            }
                            assert(now.contains(x));
                        }
                    }
                    assert forall|a: int, b: int|
                        0 <= a < b < now.len() implies now[a] != now[b] by {
                        if b < i {
                            assert(prev[a] == now[a] && prev[b] == now[b]);
                        } else if a < i {
                            assert(prev[a] == now[a] && prev[b + 1] == now[b]);
                        } else {
                            assert(prev[a + 1] == now[a] && prev[b + 1] == now[b]);
                        }
                    }
                }
                return ;
            }
            i = i + 1;
        }
        proof {
            assert forall|x: KeyId| self.holds(x) == (old(self).holds(x) && x != k) by {
                if self.holds(x) {
                    let a = choose|a: int|
                        0 <= a < self.pressed@.len() && self.pressed@[a] == x;
                    assert(self.pressed@[a] != k);
                }
            }
        }
    }
}

} // verus!
