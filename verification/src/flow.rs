//! Early-return guards over the protocol.
//!
//! The host language's textual macro expansion is deliberately avoided:
//! each guard is an ordinary function returning a `Result`, and the
//! enclosing fallible function early-returns through its single failure
//! channel with the `?` operator.

use crate::protocol::ErrorCompat;
use crate::protocol::FromString;
use crate::protocol::IntoError;
use crate::protocol::NoneError;
use vstd::prelude::*;

verus! {

/// Ensure a condition is true; if it is not, the selector is combined
/// with the sentinel "no source" cause and the enclosing function should
/// return the error (`ensure(..)?`). When the predicate holds, control
/// falls through with no effect.
pub fn ensure<C, E>(predicate: bool, context: C) -> (r: Result<(), E>) where
    C: IntoError<E, Source = NoneError>,
    E: ErrorCompat,

    ensures
        predicate <==> r is Ok,
        !predicate ==> context.spec_combined(NoneError, r->Err_0),
{
    if predicate {
        Ok(())
    } else {
        Err(context.into_error(NoneError))
    }
}

/// Build and return a stringly-typed fallback error from an already
/// formatted message (`return whatever(..)`). The produced error stores
/// exactly the message and no cause.
///
/// To wrap a prior failure in a fallback error instead, pass the failing
/// result through `ResultExt::whatever_context`, which stores the
/// converted cause alongside the message.
pub fn whatever<T, E>(message: String) -> (r: Result<T, E>) where E: FromString
    ensures
        r is Err,
        r->Err_0.spec_message() == message@,
        r->Err_0.spec_fallback_source() is None,
{
    Err(E::without_source(message))
}

} // verus!
