//! Lossless conversions between [`Meby`] and the two two-state shapes it
//! generalizes: `Option<T>` and `Result<T, E>`, together with their two
//! nestings `Option<Result<T, E>>` and `Result<Option<T>, E>`.

use vstd::prelude::*;

use crate::Meby;

verus! {

impl<Res, E> Meby<Res, E> {
    /// What a plain optional value maps to: absence becomes `Nope`,
    /// presence becomes `Yes`.
    pub open spec fn spec_of_option(value: Option<Res>) -> Self {
        match value {
            None => Meby::Nope,
            Some(val) => Meby::Yes(val),
        }
    }

    /// What a plain value-or-error maps to: success becomes `Yes`,
    /// failure becomes `Oops`.
    pub open spec fn spec_of_result(value: Result<Res, E>) -> Self {
        match value {
            Ok(val) => Meby::Yes(val),
            Err(err) => Meby::Oops(err),
        }
    }

    /// What an optional value-or-error flattens to.
    pub open spec fn spec_of_option_result(value: Option<Result<Res, E>>) -> Self {
        match value {
            None => Meby::Nope,
            Some(Ok(val)) => Meby::Yes(val),
            Some(Err(err)) => Meby::Oops(err),
        }
    }

    /// What a value-or-error of an optional flattens to.
    pub open spec fn spec_of_result_option(value: Result<Option<Res>, E>) -> Self {
        match value {
            Ok(Some(val)) => Meby::Yes(val),
            Ok(None) => Meby::Nope,
            Err(err) => Meby::Oops(err),
        }
    }

    /// The value-or-error-of-optional shape of a three-way value.
    pub open spec fn spec_to_result_option(self) -> Result<Option<Res>, E> {
        match self {
            Meby::Yes(val) => Ok(Some(val)),
            Meby::Oops(err) => Err(err),
            Meby::Nope => Ok(None),
        }
    }

    /// The optional-of-value-or-error shape of a three-way value.
    pub open spec fn spec_to_option_result(self) -> Option<Result<Res, E>> {
        match self {
            Meby::Yes(val) => Some(Ok(val)),
            Meby::Oops(err) => Some(Err(err)),
            Meby::Nope => None,
        }
    }
}

impl<Res, E> From<Option<Res>> for Meby<Res, E> {
    fn from(value: Option<Res>) -> (r: Self) {
        match value {
            None => Meby::Nope,
            Some(val) => Meby::Yes(val),
        }
    }
}

impl<Res, E> vstd::std_specs::convert::FromSpecImpl<Option<Res>> for Meby<Res, E> {
    open spec fn obeys_from_spec() -> bool {
        true
    }

    open spec fn from_spec(value: Option<Res>) -> Self {
        Meby::spec_of_option(value)
    }
}

impl<Res, E> From<Result<Res, E>> for Meby<Res, E> {
    fn from(value: Result<Res, E>) -> (r: Self) {
        match value {
            Ok(val) => Meby::Yes(val),
            Err(err) => Meby::Oops(err),
        }
    }
}

impl<Res, E> vstd::std_specs::convert::FromSpecImpl<Result<Res, E>> for Meby<Res, E> {
    open spec fn obeys_from_spec() -> bool {
        true
    }

    open spec fn from_spec(value: Result<Res, E>) -> Self {
        Meby::spec_of_result(value)
    }
}

impl<Res, E> From<Option<Result<Res, E>>> for Meby<Res, E> {
    fn from(value: Option<Result<Res, E>>) -> (r: Self) {
        match value {
            None => Meby::Nope,
            Some(Ok(val)) => Meby::Yes(val),
            Some(Err(err)) => Meby::Oops(err),
        }
    }
}

impl<Res, E> vstd::std_specs::convert::FromSpecImpl<Option<Result<Res, E>>> for Meby<Res, E> {
    open spec fn obeys_from_spec() -> bool {
        true
    }

    open spec fn from_spec(value: Option<Result<Res, E>>) -> Self {
        Meby::spec_of_option_result(value)
    }
}

impl<Res, E> From<Result<Option<Res>, E>> for Meby<Res, E> {
    fn from(value: Result<Option<Res>, E>) -> (r: Self) {
        match value {
            Ok(Some(val)) => Meby::Yes(val),
            Ok(None) => Meby::Nope,
            Err(err) => Meby::Oops(err),
        }
    }
}

impl<Res, E> vstd::std_specs::convert::FromSpecImpl<Result<Option<Res>, E>> for Meby<Res, E> {
    open spec fn obeys_from_spec() -> bool {
        true
    }

    open spec fn from_spec(value: Result<Option<Res>, E>) -> Self {
        Meby::spec_of_result_option(value)
    }
}

impl<Res, E> From<Meby<Res, E>> for Result<Option<Res>, E> {
    fn from(value: Meby<Res, E>) -> (r: Self) {
        match value {
            Meby::Yes(val) => Ok(Some(val)),
            Meby::Oops(err) => Err(err),
            Meby::Nope => Ok(None),
        }
    }
}

impl<Res, E> vstd::std_specs::convert::FromSpecImpl<Meby<Res, E>> for Result<Option<Res>, E> {
    open spec fn obeys_from_spec() -> bool {
        true
    }

    open spec fn from_spec(value: Meby<Res, E>) -> Self {
        value.spec_to_result_option()
    }
}

impl<Res, E> From<Meby<Res, E>> for Option<Result<Res, E>> {
    fn from(value: Meby<Res, E>) -> (r: Self) {
        match value {
            Meby::Yes(val) => Some(Ok(val)),
            Meby::Oops(err) => Some(Err(err)),
            Meby::Nope => None,
        }
    }
}

impl<Res, E> vstd::std_specs::convert::FromSpecImpl<Meby<Res, E>> for Option<Result<Res, E>> {
    open spec fn obeys_from_spec() -> bool {
        true
    }

    open spec fn from_spec(value: Meby<Res, E>) -> Self {
        value.spec_to_option_result()
    }
}

/// Round trip through the value-or-error-of-optional shape: converting a
/// three-way value out and back reproduces the original variant and payload
/// exactly, for every variant and any payload types.
pub proof fn lemma_round_trip_result_option<Res, E>(m: Meby<Res, E>)
    ensures
        Meby::spec_of_result_option(m.spec_to_result_option()) == m,
{
}

/// Round trip through the optional-of-value-or-error shape: converting a
/// three-way value out and back reproduces the original variant and payload
/// exactly, for every variant and any payload types.
pub proof fn lemma_round_trip_option_result<Res, E>(m: Meby<Res, E>)
    ensures
        Meby::spec_of_option_result(m.spec_to_option_result()) == m,
{
}

/// The opposite round trips lose nothing either: each two-state shape,
/// flattened into a three-way value and converted back, is reproduced
/// exactly.
pub proof fn lemma_round_trip_from_result_option<Res, E>(value: Result<Option<Res>, E>)
    ensures
        Meby::spec_of_result_option(value).spec_to_result_option() == value,
{
}

/// See [`lemma_round_trip_from_result_option`]; the same, for the
/// optional-of-value-or-error shape.
pub proof fn lemma_round_trip_from_option_result<Res, E>(value: Option<Result<Res, E>>)
    ensures
        Meby::spec_of_option_result(value).spec_to_option_result() == value,
{
}

} // verus!
