//! A three-way outcome type.
//!
//! [`Meby`] unifies "optional value" and "fallible value" semantics in a
//! single sum type with three states: a success payload is present
//! ([`Meby::Yes`]), an error payload is present ([`Meby::Oops`]), or nothing
//! is there to report ([`Meby::Nope`]). It converts losslessly to and from
//! `Option<T>`, `Result<T, E>`, and their two nestings.

use vstd::prelude::*;
use vstd::std_specs::convert::FromSpec;

pub mod convert;
pub mod try_impl;

verus! {

/// A value that is either a success (`Yes`), an error (`Oops`), or absent
/// (`Nope`). Effectively an easier-to-handle `Option<Result>` or
/// `Result<Option>`; the conversions in [`convert`] go back and forth.
#[derive(Clone, Debug, PartialEq)]
pub enum Meby<Res, E> {
    Yes(Res),
    Oops(E),
    Nope,
}

impl<Res, E> Meby<Res, E> {
    /// True exactly when the active variant is `Yes`.
    pub fn is_yes(&self) -> (r: bool)
        ensures
            r == (self is Yes),
    {
        match self {
            Meby::Yes(_) => true,
            _ => false,
        }
    }

    /// True exactly when the active variant is `Oops`.
    pub fn is_oops(&self) -> (r: bool)
        ensures
            r == (self is Oops),
    {
        match self {
            Meby::Oops(_) => true,
            _ => false,
        }
    }

    /// True exactly when the active variant is `Nope`.
    pub fn is_nope(&self) -> (r: bool)
        ensures
            r == (self is Nope),
    {
        match self {
            Meby::Nope => true,
            _ => false,
        }
    }

    /// Returns the success payload. Calling this on `Oops` or `Nope` is a
    /// contract violation, so those variants are ruled out up front.
    pub fn unwrap(self) -> (r: Res)
        requires
            self is Yes,
        ensures
            self == Meby::<Res, E>::Yes(r),
    {
        match self {
            Meby::Yes(res) => res,
            Meby::Oops(_) => unreached(),
            Meby::Nope => unreached(),
        }
    }

    /// Returns the error payload. Calling this on `Yes` or `Nope` is a
    /// contract violation, so those variants are ruled out up front.
    pub fn unwrap_oops(self) -> (r: E)
        requires
            self is Oops,
        ensures
            self == Meby::<Res, E>::Oops(r),
    {
        match self {
            Meby::Yes(_) => unreached(),
            Meby::Oops(err) => err,
            Meby::Nope => unreached(),
        }
    }

    /// Returns the success payload if the variant is `Yes`; otherwise
    /// returns `default`, silently discarding any error payload.
    pub fn unwrap_or(self, default: Res) -> (r: Res)
        ensures
            self matches Meby::Yes(res) ==> r == res,
            !(self is Yes) ==> r == default,
    {
        match self {
            Meby::Yes(res) => res,
            Meby::Oops(_) => default,
            Meby::Nope => default,
        }
    }

    /// Replaces the value in place with `Yes(default)` unless it already is
    /// a `Yes`, whose payload is then kept untouched.
    pub fn yes_or(&mut self, default: Res)
        ensures
            *old(self) is Yes ==> *final(self) == *old(self),
            !(*old(self) is Yes) ==> *final(self) == Meby::<Res, E>::Yes(default),
    {
        if !self.is_yes() {
            *self = Meby::Yes(default);
        }
    }

    /// Replaces the contents of `self` with `other`, returning the previous
    /// contents of `self` by value.
    pub fn swap(&mut self, other: Self) -> (prev: Self)
        ensures
            *final(self) == other,
            prev == *old(self),
    {
        let mut next = other;
        core::mem::swap(self, &mut next);
        next
    }

    /// Converts each payload through `From`, keeping the active variant:
    /// a `Yes` payload through `Res -> NewRes`, an `Oops` payload through
    /// `E -> NewErr`, and `Nope` maps to `Nope` unchanged.
    pub fn into_inner<NewRes: From<Res>, NewErr: From<E>>(self) -> (r: Meby<NewRes, NewErr>)
        ensures
            r is Yes <==> self is Yes,
            r is Oops <==> self is Oops,
            r is Nope <==> self is Nope,
            <NewRes as FromSpec<Res>>::obeys_from_spec() ==> (self matches Meby::Yes(res)
                ==> r == Meby::<NewRes, NewErr>::Yes(<NewRes as FromSpec<Res>>::from_spec(res))),
            <NewErr as FromSpec<E>>::obeys_from_spec() ==> (self matches Meby::Oops(err)
                ==> r == Meby::<NewRes, NewErr>::Oops(<NewErr as FromSpec<E>>::from_spec(err))),
    {
        match self {
            Meby::Yes(res) => Meby::Yes(NewRes::from(res)),
            Meby::Oops(err) => Meby::Oops(NewErr::from(err)),
            Meby::Nope => Meby::Nope,
        }
    }
}

/// The three variants are mutually exclusive and collectively exhaustive:
/// every value is in exactly one of the `Yes`, `Oops` and `Nope` states.
pub proof fn lemma_variants_exclusive_exhaustive<Res, E>(m: Meby<Res, E>)
    ensures
        (m is Yes && !(m is Oops) && !(m is Nope)) || (!(m is Yes) && m is Oops && !(m is Nope))
            || (!(m is Yes) && !(m is Oops) && m is Nope),
{
}

} // verus!
