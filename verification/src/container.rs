//! Taking a payload out of a value that holds one of two.
//!
//! Each of the four operations is for a caller that knows which case it has
//! in hand, and its precondition says so: asked for the payload of the other
//! case, there is nothing it could return. Verified callers cannot get there.
//! A caller that Verus has not checked and that asks all the same is stopped
//! by a panic.

use vstd::prelude::*;
use core::fmt::Debug;
use crate::outcome::B;
use crate::reshape::ReShape;

verus! {

/// A value that holds either a primary payload of type `T` or an alternate
/// payload of type `E`, and gives up the one it holds.
pub trait Container: Sized {
    /// The type of the primary payload.
    type T;

    /// The type of the alternate payload.
    type E;

    /// What the container holds, as an outcome.
    spec fn held(self) -> B<Self::T, Self::E>;

    /// The primary payload.
    fn unwrap(self) -> (v: Self::T)
        requires
            self.held() is X,
        ensures
            self.held() == B::<Self::T, Self::E>::X(v),
    ;

    /// The primary payload. `msg` says what the caller relied on.
    fn expect(self, msg: &str) -> (v: Self::T)
        requires
            self.held() is X,
        ensures
            self.held() == B::<Self::T, Self::E>::X(v),
    ;

    /// The alternate payload: `unwrap` for a caller whose interest is the
    /// other case.
    fn unwrap_inv(self) -> (e: Self::E)
        requires
            self.held() is Y,
        ensures
            self.held() == B::<Self::T, Self::E>::Y(e),
    ;

    /// The alternate payload. `msg` says what the caller relied on.
    fn expect_inv(self, msg: &str) -> (e: Self::E)
        requires
            self.held() is Y,
        ensures
            self.held() == B::<Self::T, Self::E>::Y(e),
    ;
}

impl<T, E: Debug> Container for B<T, E> {
    type T = T;

    type E = E;

    open spec fn held(self) -> B<T, E> {
        self
    }

    fn unwrap(self) -> (v: T) {
        let a: Result<T, E> = self.reshape(());
        a.unwrap()
    }

    fn expect(self, msg: &str) -> (v: T) {
        let a: Result<T, E> = self.reshape(());
        a.expect(msg)
    }

    fn unwrap_inv(self) -> (e: E) {
        match self {
            B::X(_) => vstd::pervasive::unreached(),
            B::Y(s) => s,
        }
    }

    fn expect_inv(self, msg: &str) -> (e: E) {
        match self {
            // Not reached under the precondition. A caller that Verus has
            // not checked and that breaks it is stopped with `msg`.
            B::X(_) => None.expect(msg),
            B::Y(s) => s,
        }
    }
}

} // verus!
