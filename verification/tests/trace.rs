//! The backtrace subsystem and the cause representation on concrete values.

use snafu::backtrace_enabled_from;
use snafu::AsErrorSource;
use snafu::Backtrace;
use snafu::BacktraceSetting;
use snafu::ErrorData;
use snafu::GenerateBacktrace;

#[test]
fn enablement_needs_the_exact_marker() {
    assert!(backtrace_enabled_from(Some("1".to_string()), None));
    assert!(!backtrace_enabled_from(Some("0".to_string()), None));
    assert!(!backtrace_enabled_from(Some("true".to_string()), None));
    assert!(!backtrace_enabled_from(None, None));
}

#[test]
fn fallback_is_consulted_only_when_primary_is_absent() {
    assert!(backtrace_enabled_from(None, Some("1".to_string())));
    assert!(!backtrace_enabled_from(
        Some("0".to_string()),
        Some("1".to_string())
    ));
    assert!(backtrace_enabled_from(
        Some("1".to_string()),
        Some("0".to_string())
    ));
}

#[test]
fn the_first_decision_wins_for_the_process() {
    let mut setting = BacktraceSetting::new();
    assert!(!setting.is_enabled());
    setting.initialize(Some("1".to_string()), None);
    assert!(setting.is_enabled());
    setting.initialize(Some("0".to_string()), None);
    assert!(setting.is_enabled());
}

#[test]
fn a_late_enablement_has_no_effect() {
    let mut setting = BacktraceSetting::new();
    setting.initialize(None, None);
    assert!(!setting.is_enabled());
    setting.initialize(Some("1".to_string()), None);
    assert!(!setting.is_enabled());
}

#[test]
fn optional_generation_follows_the_decision() {
    let present: Option<Backtrace> = GenerateBacktrace::generate(true);
    assert!(present.as_backtrace().is_some());
    let absent: Option<Backtrace> = GenerateBacktrace::generate(false);
    assert!(absent.as_backtrace().is_none());
}

#[test]
fn unconditional_generation_is_always_present() {
    let trace: Backtrace = GenerateBacktrace::generate(false);
    assert!(trace.as_backtrace().is_some());
}

#[test]
fn error_data_chains_by_content() {
    let root = ErrorData::new("root".to_string());
    let wrapped = ErrorData::with_cause("outer".to_string(), root);
    assert_eq!(wrapped.message, "outer");
    let inner = wrapped.source.as_ref().expect("expected the chained cause");
    assert_eq!(inner.message, "root");
    assert!(inner.source.is_none());
}

#[test]
fn every_cause_shape_yields_the_same_uniform_reference() {
    let owned = ErrorData::new("cause".to_string());
    assert_eq!(owned.as_error_source().message, "cause");
    let boxed = Box::new(ErrorData::new("cause".to_string()));
    assert_eq!(boxed.as_error_source().message, "cause");
}
