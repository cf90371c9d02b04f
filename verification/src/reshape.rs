//! Conversion between the outcome type and the two usual shapes of a value
//! that may be missing something: `Result`, which says why, and `Option`,
//! which does not.

use vstd::prelude::*;
use vstd::std_specs::convert::FromSpec;
use crate::outcome::B;

verus! {

/// A value that can be given the shape `O`. The context `C` supplies what the
/// new shape holds and the old one lacks; where nothing is lacking it is `()`.
pub trait ReShape<O, C>: Sized {
    /// The values of the new shape that `reshape` may return for `self` and
    /// `ctx`.
    spec fn reshapes_to(self, ctx: C, out: O) -> bool;

    /// Gives `self` the shape `O`.
    fn reshape(self, ctx: C) -> (out: O)
        ensures
            self.reshapes_to(ctx, out),
    ;
}

/// `Ok` becomes the primary case and `Err` the alternate case, each with its
/// payload as it was.
impl<T, E> ReShape<B<T, E>, ()> for Result<T, E> {
    open spec fn reshapes_to(self, ctx: (), out: B<T, E>) -> bool {
        out == match self {
            Ok(t) => B::<T, E>::X(t),
            Err(e) => B::<T, E>::Y(e),
        }
    }

    fn reshape(self, _ctx: ()) -> (out: B<T, E>) {
        match self {
            Ok(t) => B::X(t),
            Err(e) => B::Y(e),
        }
    }
}

/// `Some` becomes the primary case with its payload as it was. `None` holds
/// nothing to say what came instead, so the alternate payload is made from
/// the context alone, by `E::from`.
impl<T, E: From<C>, C> ReShape<B<T, E>, C> for Option<T> {
    open spec fn reshapes_to(self, ctx: C, out: B<T, E>) -> bool {
        match self {
            Some(t) => out == B::<T, E>::X(t),
            None => out is Y && call_ensures(E::from, (ctx,), out->Y_0),
        }
    }

    fn reshape(self, ctx: C) -> (out: B<T, E>) {
        match self {
            Some(t) => B::X(t),
            None => B::Y(E::from(ctx)),
        }
    }
}

/// The primary case becomes `Ok` and the alternate case `Err`, each with its
/// payload as it was.
impl<T, E> ReShape<Result<T, E>, ()> for B<T, E> {
    open spec fn reshapes_to(self, ctx: (), out: Result<T, E>) -> bool {
        out == match self {
            B::X(t) => Ok::<T, E>(t),
            B::Y(e) => Err::<T, E>(e),
        }
    }

    fn reshape(self, _ctx: ()) -> (out: Result<T, E>) {
        match self {
            B::X(t) => Ok(t),
            B::Y(e) => Err(e),
        }
    }
}

/// The primary case becomes `Some` with its payload as it was. The alternate
/// case becomes `None`, and its payload is dropped.
impl<T, E> ReShape<Option<T>, ()> for B<T, E> {
    open spec fn reshapes_to(self, ctx: (), out: Option<T>) -> bool {
        out == match self {
            B::X(t) => Some(t),
            B::Y(_) => None::<T>,
        }
    }

    fn reshape(self, _ctx: ()) -> (out: Option<T>) {
        match self {
            B::X(t) => Some(t),
            B::Y(_) => None,
        }
    }
}

/// A `Result` that is made an outcome and then a `Result` again is the
/// `Result` it was.
pub proof fn lemma_result_round_trip<T, E>(r: Result<T, E>, b: B<T, E>, back: Result<T, E>)
    requires
        r.reshapes_to((), b),
        b.reshapes_to((), back),
    ensures
        back == r,
{
}

/// An outcome that is made a `Result` and then an outcome again is the
/// outcome it was.
pub proof fn lemma_outcome_round_trip<T, E>(b: B<T, E>, r: Result<T, E>, back: B<T, E>)
    requires
        b.reshapes_to((), r),
        r.reshapes_to((), back),
    ensures
        back == b,
{
}

/// As an `Option`, every primary case is `Some` of its payload and every
/// alternate case is `None`: two outcomes that differ only in their alternate
/// payloads cannot be told apart afterwards.
pub proof fn lemma_option_forgets_alternate<T, E>(v: T, e1: E, e2: E)
    ensures
        forall|out: Option<T>| B::<T, E>::X(v).reshapes_to((), out) <==> out == Some(v),
        forall|out: Option<T>| B::<T, E>::Y(e1).reshapes_to((), out) <==> out == None::<T>,
        forall|out: Option<T>|
            B::<T, E>::Y(e1).reshapes_to((), out) <==> B::<T, E>::Y(e2).reshapes_to((), out),
{
}

/// Where `E::from` obeys its spec function, `None` becomes the alternate case
/// of the context converted by it.
pub proof fn lemma_none_takes_context<T, E: From<C>, C>(ctx: C, out: B<T, E>)
    requires
        E::obeys_from_spec(),
        None::<T>.reshapes_to(ctx, out),
    ensures
        out == B::<T, E>::Y(E::from_spec(ctx)),
{
}

/// An `Option` that is made an outcome and then an `Option` again is the
/// `Option` it was, whatever the context made of `None` in between.
pub proof fn lemma_option_round_trip<T, E: From<C>, C>(
    o: Option<T>,
    ctx: C,
    b: B<T, E>,
    back: Option<T>,
)
    requires
        o.reshapes_to(ctx, b),
        b.reshapes_to((), back),
    ensures
        back == o,
{
}

} // verus!
