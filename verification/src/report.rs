//! What a process does with an outcome as its final value.
//!
//! Nothing here writes or exits. `B::report` decides; the program's entry
//! point carries the decision out.

use vstd::prelude::*;
use crate::outcome::B;

verus! {

/// How a process ends, given the outcome it arrived at.
#[derive(Debug, PartialEq, Eq)]
pub enum Report<T> {
    /// Exit with the status that stands for success. Nothing is written.
    Success,
    /// Write a rendering of the payload to the diagnostic stream, then exit
    /// with the status that stands for failure.
    Failure(T),
}

impl<S, T> B<S, T> {
    /// Decides how a process ends with this outcome: the primary case is a
    /// success whatever its payload, and the alternate case is a failure
    /// whose payload is handed over to be written.
    pub fn report(self) -> (r: Report<T>)
        ensures
            self is X ==> r == Report::<T>::Success,
            self matches B::Y(t) ==> r == Report::Failure(t),
    {
        match self {
            B::X(_) => Report::Success,
            B::Y(t) => Report::Failure(t),
        }
    }
}

} // verus!
