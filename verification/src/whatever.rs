//! A basic stringly-typed error for quick adoption.
//!
//! [`Whatever`] stores a free-text message, an optional boxed cause, and
//! a backtrace captured at construction. It is the premade target of the
//! fallback path: [`crate::whatever`] and the `whatever_context`
//! adaptations build it through [`FromString`].

use crate::protocol::ErrorCompat;
use crate::protocol::FromString;
use crate::source::ErrorData;
use crate::trace::Backtrace;
use vstd::prelude::*;

verus! {

/// A self-contained fallback error: an owned message, an optional boxed
/// cause, and a backtrace captured at construction.
pub struct Whatever {
    source: Option<Box<ErrorData>>,
    message: String,
    backtrace: Backtrace,
}

impl Whatever {
    /// The stored message; the display rendering of this error.
    pub fn message(&self) -> (m: &String)
        ensures
            m@ == self.spec_message(),
    {
        &self.message
    }

    /// The stored cause, kept reachable for chaining; absent when the
    /// error was built from a message alone.
    pub fn source(&self) -> (r: Option<&ErrorData>)
        ensures
            r is Some <==> self.spec_fallback_source() is Some,
            r matches Some(d) ==> self.spec_fallback_source() matches Some(b) && *d == *b,
    {
        match &self.source {
            Some(b) => Some(&**b),
            None => None,
        }
    }
}

impl FromString for Whatever {
    type Source = Box<ErrorData>;

    closed spec fn spec_message(&self) -> Seq<char> {
        self.message@
    }

    closed spec fn spec_fallback_source(&self) -> Option<Box<ErrorData>> {
        self.source
    }

    fn without_source(message: String) -> (e: Self) {
        Whatever { source: None, message, backtrace: Backtrace::capture() }
    }

    fn with_source(source: Box<ErrorData>, message: String) -> (e: Self) {
        Whatever { source: Some(source), message, backtrace: Backtrace::capture() }
    }
}

impl ErrorCompat for Whatever {
    /// A `Whatever` always captures; the process-wide decision gates only
    /// optionally-present backtrace fields.
    open spec fn spec_has_backtrace(&self) -> bool {
        true
    }

    fn backtrace(&self) -> (r: Option<&Backtrace>) {
        Some(&self.backtrace)
    }
}

} // verus!
