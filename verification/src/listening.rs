//! The shared listening toggle that gates clipboard capture.

use vstd::prelude::*;

verus! {

/// The on/off toggle read at chord time and again at settle time, plus the
/// indicator that listening was just re-enabled. The indicator is set when a
/// toggle turns listening back on and is consulted nowhere else; it is kept
/// as inert state.
pub struct ListeningState {
    listening: bool,
    just_started: bool,
}

impl ListeningState {
    /// Whether capture is currently enabled.
    pub closed spec fn listening(&self) -> bool {
        self.listening
    }

    /// Whether listening was re-enabled since startup.
    pub closed spec fn just_started(&self) -> bool {
        self.just_started
    }

    /// The startup state: listening, with the indicator unset.
    pub fn new() -> (s: Self)
        ensures
            s.listening(),
            !s.just_started(),
    {
        ListeningState { listening: true, just_started: false }
    }

    /// Reads the toggle.
    pub fn is_listening(&self) -> (b: bool)
        ensures
            b == self.listening(),
    {
        self.listening
    }

    /// Reads the just-started indicator.
    pub fn was_just_started(&self) -> (b: bool)
        ensures
            b == self.just_started(),
    {
        self.just_started
    }

    /// Flips the toggle and returns the new value; re-enabling listening
    /// also sets the just-started indicator.
    pub fn toggle(&mut self) -> (now: bool)
        ensures
            now == final(self).listening(),
            final(self).listening() == !old(self).listening(),
            final(self).listening() ==> final(self).just_started(),
            !final(self).listening() ==> final(self).just_started() == old(self).just_started(),
    {
        self.listening = !self.listening;
        if self.listening {
            self.just_started = true;
        }
        self.listening
    }
}

} // verus!
