//! An explicit short-circuit protocol for [`Meby`].
//!
//! `Yes(v)` means "continue with `v`"; `Oops(e)` and `Nope` mean "break,
//! propagating a residual". The residual type is `Meby<Infallible, E>`,
//! which can never hold a success payload, and it lifts back into any
//! `Meby` with a compatible error type. Absence propagated from an
//! `Option` and failure propagated from a `Result` lift in the same way.

use vstd::prelude::*;
use vstd::std_specs::convert::FromSpec;

use core::convert::Infallible;
use core::ops::ControlFlow;

use crate::Meby;

verus! {

impl<Res, E> Meby<Res, E> {
    /// Wraps a continuation payload back up as a success.
    pub fn from_output(output: Res) -> (r: Self)
        ensures
            r == Meby::<Res, E>::Yes(output),
    {
        Meby::Yes(output)
    }

    /// Splits a value into "continue with the payload" (for `Yes`) or
    /// "break with a residual" (for `Oops` and `Nope`); the residual keeps
    /// the error payload, if any.
    pub fn branch(self) -> (cf: ControlFlow<Meby<Infallible, E>, Res>)
        ensures
            self matches Meby::Yes(res) ==> cf == ControlFlow::<Meby<Infallible, E>, Res>::Continue(res),
            self matches Meby::Oops(err) ==> cf == ControlFlow::<Meby<Infallible, E>, Res>::Break(
                Meby::<Infallible, E>::Oops(err),
            ),
            self is Nope ==> cf == ControlFlow::<Meby<Infallible, E>, Res>::Break(
                Meby::<Infallible, E>::Nope,
            ),
    {
        match self {
            Meby::Yes(res) => ControlFlow::Continue(res),
            Meby::Oops(err) => ControlFlow::Break(Meby::Oops(err)),
            Meby::Nope => ControlFlow::Break(Meby::Nope),
        }
    }

    /// Lifts a residual broken out of another `Meby` into this shape:
    /// `Nope` stays `Nope`, and an error payload is carried through `From`.
    /// A residual never holds a success payload, and none is accepted.
    pub fn from_residual<E1>(residual: Meby<Infallible, E1>) -> (r: Self) where E: From<E1>
        requires
            !(residual is Yes),
        ensures
            residual is Oops ==> r is Oops,
            residual matches Meby::Oops(err) ==> (<E as FromSpec<E1>>::obeys_from_spec() ==> r
                == Meby::<Res, E>::Oops(<E as FromSpec<E1>>::from_spec(err))),
            residual is Nope ==> r == Meby::<Res, E>::Nope,
    {
        match residual {
            Meby::Yes(_) => unreached(),
            Meby::Oops(err) => Meby::Oops(E::from(err)),
            Meby::Nope => Meby::Nope,
        }
    }

    /// Lifts the residual of an absent optional value: the result is
    /// `Nope`.
    pub fn from_option_residual(_residual: Option<Infallible>) -> (r: Self)
        ensures
            r == Meby::<Res, E>::Nope,
    {
        Meby::Nope
    }

    /// Lifts the residual of a failed value-or-error: the error payload is
    /// carried through `From` into an `Oops`. Such a residual never holds a
    /// success payload, and none is accepted.
    pub fn from_result_residual<E1>(residual: Result<Infallible, E1>) -> (r: Self) where E: From<
        E1,
    >
        requires
            residual is Err,
        ensures
            r is Oops,
            residual matches Err(err) ==> (<E as FromSpec<E1>>::obeys_from_spec() ==> r
                == Meby::<Res, E>::Oops(<E as FromSpec<E1>>::from_spec(err))),
    {
        match residual {
            Ok(_) => unreached(),
            Err(err) => Meby::Oops(E::from(err)),
        }
    }
}

} // verus!
