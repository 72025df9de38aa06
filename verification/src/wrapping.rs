//! The integer protocols for `Wrapping<T>`: a literal of `T`, wrapped.

use vstd::prelude::*;
use core::num::Wrapping;
use crate::{FromLiteralSigned, FromLiteralUnsigned, LiteralError};

verus! {

/// `core::num::Wrapping`, a plain tuple struct around one public value.
#[verifier::external_type_specification]
#[verifier::reject_recursive_types(T)]
pub struct ExWrapping<T>(Wrapping<T>);

impl<T: FromLiteralUnsigned> FromLiteralUnsigned for Wrapping<T> {
    open spec fn rejection(lit: u128) -> Option<LiteralError> {
        T::rejection(lit)
    }

    open spec fn materializes(lit: u128, value: Wrapping<T>) -> bool {
        T::materializes(lit, value.0)
    }

    fn valid_literal(lit: u128) -> (r: Result<u128, LiteralError>) {
        T::valid_literal(lit)
    }

    fn into_self(lit: u128) -> (value: Wrapping<T>) {
        Wrapping(T::into_self(lit))
    }
}

impl<T: FromLiteralSigned> FromLiteralSigned for Wrapping<T> {
    open spec fn rejection(lit: i128) -> Option<LiteralError> {
        T::rejection(lit)
    }

    open spec fn materializes(lit: i128, value: Wrapping<T>) -> bool {
        T::materializes(lit, value.0)
    }

    fn valid_literal(lit: i128) -> (r: Result<i128, LiteralError>) {
        T::valid_literal(lit)
    }

    fn into_self(lit: i128) -> (value: Wrapping<T>) {
        Wrapping(T::into_self(lit))
    }
}

} // verus!
