//! The outcome type, its two predicates and the map over its primary payload.

use vstd::prelude::*;

verus! {

/// A value that is exactly one of two cases: the primary case `X`, which
/// carries the payload of the path that went on as hoped, or the alternate
/// case `Y`, which carries whatever came instead. The alternate case need
/// not be a failure.
#[derive(Debug, PartialEq, Eq)]
pub enum B<S, T> {
    /// The primary case.
    X(S),
    /// The alternate case.
    Y(T),
}

impl<S, T> B<S, T> {
    /// `is_x` as ghost code reads it.
    pub open spec fn spec_is_x(&self) -> bool {
        self is X
    }

    /// `is_y` as ghost code reads it.
    pub open spec fn spec_is_y(&self) -> bool {
        self is Y
    }

    /// The outcomes that `map` may return for `self` and `f`: in the primary
    /// case a primary case whose payload `f` may return for the payload of
    /// `self`, in the alternate case `self` with its payload as it was.
    pub open spec fn maps_to<X, F: FnOnce(S) -> X>(self, f: F, out: B<X, T>) -> bool {
        match self {
            B::X(s) => out is X && call_ensures(f, (s,), out->X_0),
            B::Y(t) => out == B::<X, T>::Y(t),
        }
    }

    /// Whether this is the primary case.
    #[verifier::when_used_as_spec(spec_is_x)]
    pub fn is_x(&self) -> (r: bool)
        ensures
            r == self.spec_is_x(),
    {
        matches!(self, B::X(_))
    }

    /// Whether this is the alternate case.
    #[verifier::when_used_as_spec(spec_is_y)]
    pub fn is_y(&self) -> (r: bool)
        ensures
            r == self.spec_is_y(),
    {
        !self.is_x()
    }

    /// Applies `f` to the primary payload. An alternate case passes through
    /// with its payload untouched; nothing is asked of `f` for it, so `f`
    /// cannot be called on that path.
    pub fn map<X>(self, f: impl FnOnce(S) -> X) -> (out: B<X, T>)
        requires
            self matches B::X(s) ==> call_requires(f, (s,)),
        ensures
            self.maps_to(f, out),
    {
        match self {
            B::X(s) => B::X(f(s)),
            B::Y(t) => B::Y(t),
        }
    }
}

/// Of the two predicates exactly one holds: `is_x` on every primary case,
/// `is_y` on every alternate case.
pub proof fn lemma_predicates_complementary<S, T>(v: S, e: T)
    ensures
        B::<S, T>::X(v).is_x() && !B::<S, T>::X(v).is_y(),
        B::<S, T>::Y(e).is_y() && !B::<S, T>::Y(e).is_x(),
        forall|b: B<S, T>| b.is_x() != b.is_y(),
{
}

/// Mapping by a function that returns its argument gives back the outcome
/// that it was applied to.
pub proof fn lemma_map_identity<S, T, F: FnOnce(S) -> S>(b: B<S, T>, f: F, out: B<S, T>)
    requires
        forall|s: S, r: S| call_ensures(f, (s,), r) ==> r == s,
        b.maps_to(f, out),
    ensures
        out == b,
{
}

/// Mapping an alternate case keeps its payload, whatever the function.
pub proof fn lemma_map_keeps_alternate<S, T, X, F: FnOnce(S) -> X>(e: T, f: F, out: B<X, T>)
    requires
        B::<S, T>::Y(e).maps_to(f, out),
    ensures
        out == B::<X, T>::Y(e),
{
}

} // verus!
