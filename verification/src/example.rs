//! A worked domain error with hand-written context selectors.
//!
//! A build-time generator is expected to emit, for each variant of a
//! domain error, a selector type carrying exactly the non-cause fields
//! and an [`IntoError`] implementation binding that selector's `Source`
//! to the variant's declared cause type — or to the sentinel
//! [`NoneError`] when the variant declares none. This module writes that
//! boilerplate out by hand for one small domain, both as the reference
//! shape of the generator's output and as the concrete ground for the
//! protocol's round-trip law.

use crate::protocol::ErrorCompat;
use crate::protocol::IntoError;
use crate::protocol::NoneError;
use crate::source::AsErrorSource;
use crate::source::ErrorData;
use crate::trace::Backtrace;
use vstd::prelude::*;

verus! {

/// A small domain error: one variant wrapping an underlying cause, one
/// variant standing alone.
pub enum ExampleError {
    /// A file could not be opened.
    OpenFailed {
        /// The path that failed to open.
        path: String,
        /// The underlying failure reported by the opening layer.
        source: ErrorData,
    },
    /// A user id failed validation; nothing deeper to chain from.
    UserIdInvalid {
        /// The offending id.
        user_id: i32,
    },
}

/// Context selector of [`ExampleError::OpenFailed`]: exactly the
/// non-cause fields of the variant.
pub struct OpenFailed {
    /// The path that failed to open.
    pub path: String,
}

/// Context selector of [`ExampleError::UserIdInvalid`].
pub struct UserIdInvalid {
    /// The offending id.
    pub user_id: i32,
}

impl IntoError<ExampleError> for OpenFailed {
    type Source = ErrorData;

    open spec fn spec_combined(self, source: ErrorData, e: ExampleError) -> bool {
        e == (ExampleError::OpenFailed { path: self.path, source })
    }

    fn into_error(self, source: ErrorData) -> (e: ExampleError) {
        ExampleError::OpenFailed { path: self.path, source }
    }
}

impl IntoError<ExampleError> for UserIdInvalid {
    type Source = NoneError;

    open spec fn spec_combined(self, source: NoneError, e: ExampleError) -> bool {
        e == (ExampleError::UserIdInvalid { user_id: self.user_id })
    }

    fn into_error(self, _source: NoneError) -> (e: ExampleError) {
        ExampleError::UserIdInvalid { user_id: self.user_id }
    }
}

impl ErrorCompat for ExampleError {
    /// No variant of this domain declares a backtrace field.
    open spec fn spec_has_backtrace(&self) -> bool {
        false
    }

    fn backtrace(&self) -> (r: Option<&Backtrace>) {
        None
    }
}

impl ExampleError {
    /// The stored cause of this error, if its variant declares one.
    pub open spec fn spec_source(&self) -> Option<ErrorData> {
        match *self {
            ExampleError::OpenFailed { path: _, source } => Some(source),
            ExampleError::UserIdInvalid { .. } => None,
        }
    }

    /// The chained-cause accessor: the uniform causal reference to the
    /// failure this error wraps.
    pub fn source(&self) -> (r: Option<&ErrorData>)
        ensures
            r is Some <==> self.spec_source() is Some,
            r matches Some(d) ==> self.spec_source() == Some(*d),
    {
        match self {
            ExampleError::OpenFailed { path: _, source } => Some(source.as_error_source()),
            ExampleError::UserIdInvalid { .. } => None,
        }
    }
}

/// Law: round-trip. Combining a selector with a cause and then reading
/// the cause back through the chained-cause accessor yields exactly the
/// original cause.
pub proof fn lemma_context_round_trip(c: OpenFailed, s: ErrorData, e: ExampleError)
    requires
        c.spec_combined(s, e),
    ensures
        e.spec_source() == Some(s),
{
}

} // verus!
