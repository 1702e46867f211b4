//! The user's "hide completed" preference.
use vstd::prelude::*;

verus! {

/// The persisted preference of the user.
#[derive(Clone, Copy, Debug, PartialEq, Eq, Structural)]
pub struct UserState {
    /// Whether lists leave out the done items.
    pub hide_done: bool,
}

/// The preference with its flag flipped.
pub open spec fn flipped(s: UserState) -> UserState {
    UserState { hide_done: !s.hide_done }
}

impl UserState {
    /// The preference from what storage held: `stored` is `None` where no
    /// readable value was there, and the flag is then off.
    pub fn new(stored: Option<bool>) -> (r: UserState)
        ensures
            r.hide_done == (stored == Some(true)),
    {
        match stored {
            Some(b) => UserState { hide_done: b },
            None => UserState { hide_done: false },
        }
    }

    /// Flips the flag.
    pub fn toggle(&mut self)
        ensures
            *final(self) == flipped(*old(self)),
    {
        self.hide_done = !self.hide_done;
    }
}

/// Flipping the preference twice gives back the value it had.
pub proof fn lemma_toggle_preference_twice(s: UserState)
    ensures
        flipped(flipped(s)) == s,
{
}

} // verus!
