//! Monitoring states and their order of severity.

use vstd::prelude::*;

verus! {

/// The verdict of a check, from harmless to worst.
#[derive(Clone, Copy, Debug, PartialEq, Eq, Structural)]
pub enum State {
    Okay,
    Warning,
    Critical,
    Unknown,
}

impl State {
    /// Position of the state in the order `Okay < Warning < Critical < Unknown`.
    pub open spec fn severity(self) -> int {
        match self {
            State::Okay => 0,
            State::Warning => 1,
            State::Critical => 2,
            State::Unknown => 3,
        }
    }

    /// The more severe of two states.
    pub open spec fn spec_worse_of(self, other: State) -> State {
        if self.severity() >= other.severity() {
            self
        } else {
            other
        }
    }

    /// The position of the state in the order of severity, as a number.
    pub fn rank(self) -> (r: u8)
        ensures
            r as int == self.severity(),
    {
        match self {
            State::Okay => 0,
            State::Warning => 1,
            State::Critical => 2,
            State::Unknown => 3,
        }
    }

    /// The name of the state in a monitoring line.
    pub open spec fn name(self) -> Seq<char> {
        match self {
            State::Okay => "OK"@,
            State::Warning => "WARNING"@,
            State::Critical => "CRITICAL"@,
            State::Unknown => "UNKNOWN"@,
        }
    }

    /// The name of the state in a monitoring line.
    pub fn as_str(self) -> (name: &'static str)
        ensures
            name@ == self.name(),
    {
        match self {
            State::Okay => "OK",
            State::Warning => "WARNING",
            State::Critical => "CRITICAL",
            State::Unknown => "UNKNOWN",
        }
    }

    /// Returns the more severe of `self` and `other`.
    pub fn worse_of(self, other: State) -> (w: State)
        ensures
            w == self.spec_worse_of(other),
    {
        if self.rank() >= other.rank() {
            self
        } else {
            other
        }
    }
}

} // verus!
