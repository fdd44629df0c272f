//! The context-attachment protocol exercised on concrete values.

use snafu::ensure;
use snafu::whatever;
use snafu::ErrorCompat;
use snafu::ErrorData;
use snafu::ExampleError;
use snafu::FromString;
use snafu::OpenFailed;
use snafu::OptionExt;
use snafu::ResultExt;
use snafu::UserIdInvalid;
use snafu::Whatever;
use std::cell::Cell;

fn io_failure() -> ErrorData {
    ErrorData::new("No such file or directory (os error 2)".to_string())
}

#[test]
fn context_on_failure_builds_the_variant() {
    let failing: Result<u8, ErrorData> = Err(io_failure());
    let r: Result<u8, ExampleError> = failing.context(OpenFailed { path: "/tmp/x".to_string() });
    match r {
        Err(ExampleError::OpenFailed { path, source }) => {
            assert_eq!(path, "/tmp/x");
            assert_eq!(source.message, "No such file or directory (os error 2)");
        }
        _ => panic!("expected the OpenFailed variant"),
    }
}

#[test]
fn context_on_success_passes_through_unchanged() {
    let ok: Result<u8, ErrorData> = Ok(42);
    let r: Result<u8, ExampleError> = ok.context(OpenFailed { path: "/tmp/x".to_string() });
    assert_eq!(r.ok(), Some(42));
}

#[test]
fn with_context_on_success_never_builds_context() {
    let calls = Cell::new(0u32);
    let ok: Result<u8, ErrorData> = Ok(7);
    let r: Result<u8, ExampleError> = ok.with_context(|| {
        calls.set(calls.get() + 1);
        OpenFailed { path: "/tmp/x".to_string() }
    });
    assert_eq!(r.ok(), Some(7));
    assert_eq!(calls.get(), 0);
}

#[test]
fn with_context_on_failure_builds_context_exactly_once() {
    let calls = Cell::new(0u32);
    let failing: Result<u8, ErrorData> = Err(io_failure());
    let r: Result<u8, ExampleError> = failing.with_context(|| {
        calls.set(calls.get() + 1);
        OpenFailed { path: "/tmp/x".to_string() }
    });
    assert_eq!(calls.get(), 1);
    match r {
        Err(ExampleError::OpenFailed { path, .. }) => assert_eq!(path, "/tmp/x"),
        _ => panic!("expected the OpenFailed variant"),
    }
}

#[test]
fn option_context_on_some_passes_through() {
    let calls = Cell::new(0u32);
    let present: Option<u8> = Some(5);
    let r: Result<u8, ExampleError> = present.with_context(|| {
        calls.set(calls.get() + 1);
        UserIdInvalid { user_id: 9 }
    });
    assert_eq!(r.ok(), Some(5));
    assert_eq!(calls.get(), 0);
}

#[test]
fn option_context_on_none_combines_with_no_source() {
    let missing: Option<u8> = None;
    let r: Result<u8, ExampleError> = missing.context(UserIdInvalid { user_id: 9 });
    match r {
        Err(ExampleError::UserIdInvalid { user_id }) => assert_eq!(user_id, 9),
        _ => panic!("expected the UserIdInvalid variant"),
    }
}

#[test]
fn ensure_true_falls_through() {
    let r: Result<(), ExampleError> = ensure(1 + 1 == 2, UserIdInvalid { user_id: 3 });
    assert!(r.is_ok());
}

#[test]
fn ensure_false_yields_the_selector_combination() {
    let r: Result<(), ExampleError> = ensure(false, UserIdInvalid { user_id: 3 });
    match r {
        Err(ExampleError::UserIdInvalid { user_id }) => assert_eq!(user_id, 3),
        _ => panic!("expected the UserIdInvalid variant"),
    }
}

#[test]
fn round_trip_reads_the_cause_back() {
    let cause = io_failure();
    let failing: Result<u8, ErrorData> = Err(cause);
    let r: Result<u8, ExampleError> = failing.context(OpenFailed { path: "/tmp/x".to_string() });
    let e = r.err().expect("expected an error");
    let read_back = e.source().expect("expected a chained cause");
    assert_eq!(read_back.message, "No such file or directory (os error 2)");
    assert!(read_back.source.is_none());
}

#[test]
fn whatever_formats_the_message_without_cause() {
    let x = 42;
    let r: Result<u8, Whatever> = whatever(format!("msg {}", x));
    let e = r.err().expect("whatever always yields an error");
    assert_eq!(e.message().as_str(), "msg 42");
    assert!(e.source().is_none());
}

#[test]
fn whatever_context_wraps_the_cause() {
    let failing: Result<u8, ErrorData> = Err(io_failure());
    let r: Result<u8, Whatever> = failing.whatever_context("msg".to_string());
    let e = r.err().expect("expected an error");
    assert_eq!(e.message().as_str(), "msg");
    let cause = e.source().expect("expected the wrapped cause");
    assert_eq!(cause.message, "No such file or directory (os error 2)");
}

#[test]
fn whatever_context_passes_success_through() {
    let ok: Result<u8, ErrorData> = Ok(9);
    let r: Result<u8, Whatever> = ok.whatever_context("msg".to_string());
    assert_eq!(r.ok(), Some(9));
}

#[test]
fn with_whatever_context_reads_the_failure() {
    let failing: Result<u8, ErrorData> = Err(io_failure());
    let r: Result<u8, Whatever> = failing.with_whatever_context(|e| format!("while: {}", e.message));
    let e = r.err().expect("expected an error");
    assert_eq!(
        e.message().as_str(),
        "while: No such file or directory (os error 2)"
    );
    assert!(e.source().is_some());
}

#[test]
fn option_whatever_context_marks_the_cause_absent() {
    let missing: Option<u8> = None;
    let r: Result<u8, Whatever> = missing.whatever_context("nothing there".to_string());
    let e = r.err().expect("expected an error");
    assert_eq!(e.message().as_str(), "nothing there");
    assert!(e.source().is_none());
}

#[test]
fn option_with_whatever_context_is_lazy() {
    let calls = Cell::new(0u32);
    let present: Option<u8> = Some(1);
    let r: Result<u8, Whatever> = present.with_whatever_context(|| {
        calls.set(calls.get() + 1);
        "never".to_string()
    });
    assert_eq!(r.ok(), Some(1));
    assert_eq!(calls.get(), 0);
}

#[test]
fn from_string_without_source_stores_exactly_the_message() {
    let w = Whatever::without_source("plain".to_string());
    assert_eq!(w.message().as_str(), "plain");
    assert!(w.source().is_none());
}

#[test]
fn from_string_with_source_stores_the_cause() {
    let w = Whatever::with_source(Box::new(io_failure()), "wrapped".to_string());
    assert_eq!(w.message().as_str(), "wrapped");
    let cause = w.source().expect("expected the cause");
    assert_eq!(cause.message, "No such file or directory (os error 2)");
}

#[test]
fn whatever_always_carries_a_backtrace() {
    let r: Result<u8, Whatever> = whatever("traced".to_string());
    let e = r.err().expect("expected an error");
    assert!(ErrorCompat::backtrace(&e).is_some());
}

#[test]
fn example_error_has_no_backtrace() {
    let e = ExampleError::UserIdInvalid { user_id: 1 };
    assert!(ErrorCompat::backtrace(&e).is_none());
    assert!(ErrorCompat::backtrace(&&e).is_none());
    assert!(ErrorCompat::backtrace(&Box::new(e)).is_none());
}
