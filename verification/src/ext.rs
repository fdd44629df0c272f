//! Call-site adaptation of failure channels.
//!
//! [`ResultExt`] and [`OptionExt`] attach context to an error-carrying
//! result or an absent-value option, eagerly or lazily. A success value
//! always passes through unchanged and unexamined; only on the failure
//! path is the selector (or, for the lazy variants, the selector-building
//! closure's product) combined with the cause.

use crate::protocol::ErrorCompat;
use crate::protocol::FromString;
use crate::protocol::IntoError;
use crate::protocol::NoneError;
use vstd::prelude::*;

verus! {

/// Additions to `Result`.
pub trait ResultExt<T, E>: Sized {
    /// The receiver seen as the result it adapts.
    spec fn spec_as_result(self) -> Result<T, E>;

    /// Extend a `Result`'s error with additional context-sensitive
    /// information, combining the already constructed selector with the
    /// error as its cause.
    fn context<C, E2>(self, context: C) -> (r: Result<T, E2>) where
        C: IntoError<E2, Source = E>,
        E2: ErrorCompat,

        ensures
            r is Ok <==> self.spec_as_result() is Ok,
            self.spec_as_result() is Ok ==> r->Ok_0 == self.spec_as_result()->Ok_0,
            self.spec_as_result() is Err ==> context.spec_combined(
                self.spec_as_result()->Err_0,
                r->Err_0,
            ),
    ;

    /// Extend a `Result`'s error with lazily-generated context: the
    /// selector-building closure runs only once the failure is known, so
    /// no context data is constructed on the success path.
    fn with_context<F, C, E2>(self, context: F) -> (r: Result<T, E2>) where
        F: FnOnce() -> C,
        C: IntoError<E2, Source = E>,
        E2: ErrorCompat,

        requires
            self.spec_as_result() is Err ==> call_requires(context, ()),
        ensures
            r is Ok <==> self.spec_as_result() is Ok,
            self.spec_as_result() is Ok ==> r->Ok_0 == self.spec_as_result()->Ok_0,
            self.spec_as_result() is Err ==> exists|c: C|
                {
                    &&& #[trigger] call_ensures(context, (), c)
                    &&& c.spec_combined(self.spec_as_result()->Err_0, r->Err_0)
                },
    ;

    /// Replace a `Result`'s error with a fallback error built from the
    /// given message, the original error becoming the stored cause.
    fn whatever_context<E2>(self, context: String) -> (r: Result<T, E2>) where
        E2: FromString,
        E2::Source: From<E>,

        ensures
            r is Ok <==> self.spec_as_result() is Ok,
            self.spec_as_result() is Ok ==> r->Ok_0 == self.spec_as_result()->Ok_0,
            self.spec_as_result() is Err ==> r is Err && r->Err_0.spec_message() == context@
                && exists|s: E2::Source|
                {
                    &&& #[trigger] call_ensures(
                        <E2::Source as From<E>>::from,
                        (self.spec_as_result()->Err_0,),
                        s,
                    )
                    &&& r->Err_0.spec_fallback_source() == Some(s)
                },
    ;

    /// Replace a `Result`'s error with a fallback error whose message is
    /// computed from the failure value, only on the failure path.
    fn with_whatever_context<F, E2>(self, context: F) -> (r: Result<T, E2>) where
        F: FnOnce(&E) -> String,
        E2: FromString,
        E2::Source: From<E>,

        requires
            self.spec_as_result() matches Err(e) ==> call_requires(context, (&e,)),
        ensures
            r is Ok <==> self.spec_as_result() is Ok,
            self.spec_as_result() is Ok ==> r->Ok_0 == self.spec_as_result()->Ok_0,
            self.spec_as_result() is Err ==> r is Err && exists|m: String|
                {
                    &&& #[trigger] call_ensures(context, (&self.spec_as_result()->Err_0,), m)
                    &&& r->Err_0.spec_message() == m@
                },
            self.spec_as_result() is Err ==> exists|s: E2::Source|
                {
                    &&& #[trigger] call_ensures(
                        <E2::Source as From<E>>::from,
                        (self.spec_as_result()->Err_0,),
                        s,
                    )
                    &&& r->Err_0.spec_fallback_source() == Some(s)
                },
    ;
}

impl<T, E> ResultExt<T, E> for Result<T, E> {
    open spec fn spec_as_result(self) -> Result<T, E> {
        self
    }

    fn context<C, E2>(self, context: C) -> (r: Result<T, E2>) where
        C: IntoError<E2, Source = E>,
        E2: ErrorCompat,
    {
        match self {
            Ok(v) => Ok(v),
            Err(e) => Err(context.into_error(e)),
        }
    }

    fn with_context<F, C, E2>(self, context: F) -> (r: Result<T, E2>) where
        F: FnOnce() -> C,
        C: IntoError<E2, Source = E>,
        E2: ErrorCompat,
    {
        match self {
            Ok(v) => Ok(v),
            Err(e) => {
                let c = context();
                Err(c.into_error(e))
            },
        }
    }

    fn whatever_context<E2>(self, context: String) -> (r: Result<T, E2>) where
        E2: FromString,
        E2::Source: From<E>,
    {
        match self {
            Ok(v) => Ok(v),
            Err(e) => Err(E2::with_source(<E2::Source as From<E>>::from(e), context)),
        }
    }

    fn with_whatever_context<F, E2>(self, context: F) -> (r: Result<T, E2>) where
        F: FnOnce(&E) -> String,
        E2: FromString,
        E2::Source: From<E>,
    {
        match self {
            Ok(v) => Ok(v),
            Err(e) => {
                let m = context(&e);
                Err(E2::with_source(<E2::Source as From<E>>::from(e), m))
            },
        }
    }
}

/// Additions to `Option`.
pub trait OptionExt<T>: Sized {
    /// The receiver seen as the option it adapts.
    spec fn spec_as_option(self) -> Option<T>;

    /// Convert an `Option` into a `Result`, combining the already
    /// constructed selector with the sentinel "no source" cause when the
    /// value is absent.
    fn context<C, E>(self, context: C) -> (r: Result<T, E>) where
        C: IntoError<E, Source = NoneError>,
        E: ErrorCompat,

        ensures
            r is Ok <==> self.spec_as_option() is Some,
            self.spec_as_option() is Some ==> r->Ok_0 == self.spec_as_option()->0,
            self.spec_as_option() is None ==> context.spec_combined(NoneError, r->Err_0),
    ;

    /// Convert an `Option` into a `Result` with lazily-generated context:
    /// the selector-building closure runs only when the value is absent.
    fn with_context<F, C, E>(self, context: F) -> (r: Result<T, E>) where
        F: FnOnce() -> C,
        C: IntoError<E, Source = NoneError>,
        E: ErrorCompat,

        requires
            self.spec_as_option() is None ==> call_requires(context, ()),
        ensures
            r is Ok <==> self.spec_as_option() is Some,
            self.spec_as_option() is Some ==> r->Ok_0 == self.spec_as_option()->0,
            self.spec_as_option() is None ==> exists|c: C|
                {
                    &&& #[trigger] call_ensures(context, (), c)
                    &&& c.spec_combined(NoneError, r->Err_0)
                },
    ;

    /// Convert an absent value into a fallback error built from the given
    /// message; the stored cause is marked absent.
    fn whatever_context<E>(self, context: String) -> (r: Result<T, E>) where
        E: FromString,

        ensures
            r is Ok <==> self.spec_as_option() is Some,
            self.spec_as_option() is Some ==> r->Ok_0 == self.spec_as_option()->0,
            self.spec_as_option() is None ==> r is Err && r->Err_0.spec_message() == context@
                && r->Err_0.spec_fallback_source() is None,
    ;

    /// Convert an absent value into a fallback error whose message is
    /// computed only when the value really is absent.
    fn with_whatever_context<F, E>(self, context: F) -> (r: Result<T, E>) where
        F: FnOnce() -> String,
        E: FromString,

        requires
            self.spec_as_option() is None ==> call_requires(context, ()),
        ensures
            r is Ok <==> self.spec_as_option() is Some,
            self.spec_as_option() is Some ==> r->Ok_0 == self.spec_as_option()->0,
            self.spec_as_option() is None ==> r is Err
                && r->Err_0.spec_fallback_source() is None
                && exists|m: String|
                {
                    &&& #[trigger] call_ensures(context, (), m)
                    &&& r->Err_0.spec_message() == m@
                },
    ;
}

impl<T> OptionExt<T> for Option<T> {
    open spec fn spec_as_option(self) -> Option<T> {
        self
    }

    fn context<C, E>(self, context: C) -> (r: Result<T, E>) where
        C: IntoError<E, Source = NoneError>,
        E: ErrorCompat,
    {
        match self {
            Some(v) => Ok(v),
            None => Err(context.into_error(NoneError)),
        }
    }

    fn with_context<F, C, E>(self, context: F) -> (r: Result<T, E>) where
        F: FnOnce() -> C,
        C: IntoError<E, Source = NoneError>,
        E: ErrorCompat,
    {
        match self {
            Some(v) => Ok(v),
            None => {
                let c = context();
                Err(c.into_error(NoneError))
            },
        }
    }

    fn whatever_context<E>(self, context: String) -> (r: Result<T, E>) where E: FromString {
        match self {
            Some(v) => Ok(v),
            None => Err(E::without_source(context)),
        }
    }

    fn with_whatever_context<F, E>(self, context: F) -> (r: Result<T, E>) where
        F: FnOnce() -> String,
        E: FromString,
    {
        match self {
            Some(v) => Ok(v),
            None => {
                let m = context();
                Err(E::without_source(m))
            },
        }
    }
}

} // verus!
