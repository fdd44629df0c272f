//! The uniform representation of an underlying cause.
//!
//! A domain error may physically hold its cause in several shapes: owned,
//! boxed, or borrowed. [`AsErrorSource`] lets the rest of the crate
//! retrieve one uniform causal reference without the call site choosing
//! which shape is in play.

use vstd::prelude::*;

verus! {

/// A self-contained, display-able, optionally chainable failure value.
///
/// This is the crate's concrete form of the host "error" capability: an
/// owned message plus an optional boxed deeper cause. Once constructed it
/// borrows nothing from the site that produced it.
#[derive(Debug)]
pub struct ErrorData {
    /// The rendered description of this failure.
    pub message: String,
    /// The deeper failure this one wraps, if any.
    pub source: Option<Box<ErrorData>>,
}

impl ErrorData {
    /// A failure with a message and no deeper cause.
    pub fn new(message: String) -> (d: ErrorData)
        ensures
            d.message == message,
            d.source is None,
    {
        ErrorData { message, source: None }
    }

    /// A failure with a message that wraps a deeper cause.
    pub fn with_cause(message: String, cause: ErrorData) -> (d: ErrorData)
        ensures
            d.message == message,
            d.source matches Some(c) && *c == cause,
    {
        ErrorData { message, source: Some(Box::new(cause)) }
    }
}

/// Relies on `Box::from` of std: converting a value into a box moves it
/// to the heap unchanged, so a boxed cause is the original cause by
/// content.
pub assume_specification<T>[ <Box<T> as core::convert::From<T>>::from ](t: T) -> (r: Box<T>)
    ensures
        *r == t,
;

/// Converts the receiver into a uniform reference to the causal error,
/// suitable for populating a `source`-style backward link.
///
/// Implemented for every physical representation a cause may take, so
/// that "an owned error" and "a boxed error" are interchangeable at the
/// point of chaining.
pub trait AsErrorSource {
    /// The causal error value seen through the uniform view.
    spec fn spec_as_error_source(&self) -> ErrorData;

    /// Retrieve the uniform causal reference.
    fn as_error_source(&self) -> (r: &ErrorData)
        ensures
            *r == self.spec_as_error_source(),
    ;
}

impl AsErrorSource for ErrorData {
    open spec fn spec_as_error_source(&self) -> ErrorData {
        *self
    }

    fn as_error_source(&self) -> (r: &ErrorData) {
        self
    }
}

impl AsErrorSource for Box<ErrorData> {
    open spec fn spec_as_error_source(&self) -> ErrorData {
        **self
    }

    fn as_error_source(&self) -> (r: &ErrorData) {
        &**self
    }
}

} // verus!
