//! The context-attachment protocol.
//!
//! A *context selector* is a short-lived value holding exactly the extra
//! fields one domain-error variant needs beyond its cause. [`IntoError`]
//! is the contract by which a selector and a cause are combined into the
//! final domain error; [`FromString`] is the stringly-typed fallback
//! contract; [`ErrorCompat`] uniformly exposes an optionally captured
//! backtrace; [`NoneError`] is the sentinel cause used when an absent
//! value, rather than a prior error, is being converted.

use crate::trace::Backtrace;
use vstd::prelude::*;

verus! {

/// A sentinel cause used when converting an absent `Option` value into an
/// error: there is nothing to chain from, as opposed to a cause that was
/// deliberately dropped.
#[derive(PartialEq, Eq, Structural)]
pub struct NoneError;

/// Uniform access to an optionally captured [`Backtrace`], independent of
/// whether the error value natively carries one.
pub trait ErrorCompat {
    /// Whether this error carries a captured backtrace.
    spec fn spec_has_backtrace(&self) -> bool;

    /// The backtrace captured when this error was constructed, if any.
    fn backtrace(&self) -> (r: Option<&Backtrace>)
        ensures
            r is Some <==> self.spec_has_backtrace(),
    ;
}

/// The accessor is provided through one level of borrowing, so generic
/// code chaining across wrapped layers can always ask for the trace.
impl<'a, E: ErrorCompat> ErrorCompat for &'a E {
    open spec fn spec_has_backtrace(&self) -> bool {
        (**self).spec_has_backtrace()
    }

    fn backtrace(&self) -> (r: Option<&Backtrace>) {
        (**self).backtrace()
    }
}

/// The accessor is also provided through an owned heap-boxed error.
impl<E: ErrorCompat> ErrorCompat for Box<E> {
    open spec fn spec_has_backtrace(&self) -> bool {
        (**self).spec_has_backtrace()
    }

    fn backtrace(&self) -> (r: Option<&Backtrace>) {
        (**self).backtrace()
    }
}

/// Combines a context selector with an underlying cause to produce the
/// concrete domain error.
///
/// The associated `Source` type pins exactly which cause a selector
/// accepts, so that attaching the wrong kind of cause to a variant is
/// ruled out before anything runs. Combination is total: given a selector
/// and a cause of its `Source` type, it always yields an error.
pub trait IntoError<E>: Sized where E: ErrorCompat {
    /// The underlying cause this selector accepts.
    type Source;

    /// Which domain errors are a valid combination of this selector with
    /// the given cause. Each selector pins its own fields and the stored
    /// cause; an opaque backtrace capture, if the variant holds one, is
    /// the only latitude left.
    spec fn spec_combined(self, source: Self::Source, e: E) -> bool;

    /// Combine the selector with the cause to produce the error.
    fn into_error(self, source: Self::Source) -> (e: E)
        ensures
            self.spec_combined(source, e),
    ;
}

/// Builds a domain error from an unstructured text message, with or
/// without an underlying cause: the deliberate trade-off of the fallback
/// path, less type safety for speed of adoption.
pub trait FromString: Sized {
    /// The underlying cause this error stores on the fallback path,
    /// commonly an optional boxed error.
    type Source;

    /// The stored message of this error.
    spec fn spec_message(&self) -> Seq<char>;

    /// The stored cause of this error, if one was attached.
    spec fn spec_fallback_source(&self) -> Option<Self::Source>;

    /// Create a brand new error from the given message alone.
    fn without_source(message: String) -> (e: Self)
        ensures
            e.spec_message() == message@,
            e.spec_fallback_source() is None,
    ;

    /// Wrap an existing cause with the given message.
    fn with_source(source: Self::Source, message: String) -> (e: Self)
        ensures
            e.spec_message() == message@,
            e.spec_fallback_source() matches Some(s) && s == source,
    ;
}

} // verus!
