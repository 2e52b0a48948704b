//! Tokens by which requests and their answers find each other.

use vstd::prelude::*;

verus! {

/// Identifies a text field of a window.
#[derive(Clone, Copy, Debug, PartialEq, Eq, Structural)]
pub struct TextFieldToken {
    pub id: u64,
}

/// Identifies a timer.
#[derive(Clone, Copy, Debug, PartialEq, Eq, Structural)]
pub struct TimerToken {
    pub id: u64,
}

/// Identifies a file dialog.
#[derive(Clone, Copy, Debug, PartialEq, Eq, Structural)]
pub struct FileDialogToken {
    pub id: u64,
}

/// Identifies an idle task.
#[derive(Clone, Copy, Debug, PartialEq, Eq, Structural)]
pub struct IdleToken {
    pub id: u64,
}

/// Hands out numbers, each once. The first is one.
#[derive(Clone, Copy, Debug, PartialEq, Eq, Structural)]
pub struct Counter {
    /// How many numbers have been handed out; also the last of them.
    pub issued: u64,
}

impl Counter {
    /// The number that is handed out next.
    pub open spec fn following(self) -> u64 {
        (self.issued + 1) as u64
    }

    /// The counter once that number was handed out.
    pub open spec fn advanced(self) -> Counter {
        Counter { issued: self.following() }
    }

    /// A counter that has handed out nothing.
    pub fn new() -> (r: Counter)
        ensures
            r.issued == 0,
    {
        Counter { issued: 0 }
    }

    /// The next number.
    pub fn next(&mut self) -> (r: u64)
        requires
            old(self).issued < u64::MAX,
        ensures
            r == old(self).issued + 1,
            *final(self) == old(self).advanced(),
    {
        self.issued = self.issued + 1;
        self.issued
    }
}

}
