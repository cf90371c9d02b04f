//! The three operations from which a chain of steps with early exit is
//! built: `branch` takes an outcome apart into "go on" or "stop",
//! `from_output` wraps the value of a step that went through, and
//! `from_residual` hands what stopped an inner chain to the chain around it,
//! converting the alternate payload to the type that the outer chain carries.
//!
//! A chain calls `branch` on the outcome of each step. On
//! `ControlFlow::Continue` it goes on with the payload; on
//! `ControlFlow::Break` it returns `from_residual` of the residual at once,
//! so that the first alternate case decides the result and no later step
//! runs.

use vstd::prelude::*;
use vstd::std_specs::convert::FromSpec;
use core::convert::Infallible;
use core::ops::ControlFlow;
use crate::outcome::B;

verus! {

impl<S, T> B<S, T> {
    /// `branch` as ghost code reads it.
    pub open spec fn spec_branch(self) -> ControlFlow<B<Infallible, T>, S> {
        match self {
            B::X(s) => ControlFlow::Continue(s),
            B::Y(t) => ControlFlow::Break(B::Y(t)),
        }
    }

    /// The outcomes that `from_residual` may return for `residual`: an
    /// alternate case whose payload `T::from` may return for the payload of
    /// the residual.
    pub open spec fn resumes<T2>(residual: B<Infallible, T2>, out: Self) -> bool where T: From<T2> {
        &&& residual matches B::Y(t)
        &&& out matches B::Y(u)
        &&& call_ensures(T::from, (t,), u)
    }

    /// The outcomes that `from_result_residual` may return for `residual`:
    /// an alternate case whose payload `T::from` may return for the error.
    pub open spec fn resumes_result<E>(residual: Result<Infallible, E>, out: Self) -> bool where
        T: From<E>,
    {
        &&& residual matches Err(e)
        &&& out matches B::Y(u)
        &&& call_ensures(T::from, (e,), u)
    }

    /// Wraps the value of a step that went through as the primary case.
    pub fn from_output(output: S) -> (out: Self)
        ensures
            out == B::<S, T>::X(output),
    {
        B::X(output)
    }

    /// Takes the outcome apart: the primary case goes on with its payload,
    /// the alternate case stops with a residual that carries its payload.
    #[verifier::when_used_as_spec(spec_branch)]
    pub fn branch(self) -> (flow: ControlFlow<B<Infallible, T>, S>)
        ensures
            flow == self.spec_branch(),
    {
        match self {
            B::X(s) => ControlFlow::Continue(s),
            B::Y(t) => ControlFlow::Break(B::Y(t)),
        }
    }

    /// Resumes in this chain from what stopped an inner one: the alternate
    /// case, with the payload of the residual converted by `T::from`.
    ///
    /// A residual is an alternate case by construction: its primary slot has
    /// a type without values, and `branch` only ever fills the alternate one.
    pub fn from_residual<T2>(residual: B<Infallible, T2>) -> (out: Self) where T: From<T2>
        requires
            residual is Y,
        ensures
            Self::resumes(residual, out),
            T::obeys_from_spec() ==> out == B::<S, T>::Y(T::from_spec(residual->Y_0)),
    {
        match residual {
            B::X(_) => vstd::pervasive::unreached(),
            B::Y(t) => B::Y(t.into()),
        }
    }

    /// Resumes in this chain from the residual of a `Result`, so that an
    /// error raised elsewhere stops the chain as an alternate case of its
    /// own does: the alternate case, with the error converted by `T::from`.
    ///
    /// Such a residual is an `Err` by construction: the payload of its `Ok`
    /// has a type without values.
    pub fn from_result_residual<E>(residual: Result<Infallible, E>) -> (out: Self) where T: From<E>
        requires
            residual is Err,
        ensures
            Self::resumes_result(residual, out),
            T::obeys_from_spec() ==> out == B::<S, T>::Y(T::from_spec(residual->Err_0)),
    {
        match residual {
            Ok(_) => vstd::pervasive::unreached(),
            Err(e) => B::Y(T::from(e)),
        }
    }
}

/// The first alternate case decides a chain. A step that ends in the
/// alternate case makes `branch` stop, not go on, so no later step runs; and
/// resuming from its residual gives the chain around it the alternate case
/// with the payload converted by `T::from`.
pub proof fn lemma_short_circuit<S, T2, S2, T: From<T2>>(step: B<S, T2>, out: B<S2, T>)
    requires
        step is Y,
        step.branch() matches ControlFlow::Break(residual) ==> B::<S2, T>::resumes(residual, out),
    ensures
        step.branch() is Break,
        out is Y,
        call_ensures(T::from, (step->Y_0,), out->Y_0),
        T::obeys_from_spec() ==> out == B::<S2, T>::Y(T::from_spec(step->Y_0)),
{
}

/// An error that came as the residual of a `Result` resumes exactly as the
/// same payload would as the residual of an outcome.
pub proof fn lemma_result_residual_like_own<S, E, T: From<E>>(e: E, out: B<S, T>)
    ensures
        B::<S, T>::resumes_result(Err::<Infallible, E>(e), out) <==> B::<S, T>::resumes(
            B::<Infallible, E>::Y(e),
            out,
        ),
{
}

/// A step that ends in the primary case lets the chain go on with its
/// payload.
pub proof fn lemma_goes_on<S, T>(v: S)
    ensures
        B::<S, T>::X(v).branch() == ControlFlow::<B<Infallible, T>, S>::Continue(v),
{
}

} // verus!
