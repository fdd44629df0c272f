//! Attach caller-supplied context to low-level failures, turning them into
//! typed domain errors while keeping the original cause reachable.
//!
//! The crate is organised around a small protocol:
//!
//! * [`IntoError`] combines a per-variant *context selector* with an
//!   underlying cause to build a domain error.
//! * [`FromString`] is the stringly-typed fallback path used by
//!   [`Whatever`]-style errors.
//! * [`ResultExt`] and [`OptionExt`] adapt failure channels at the call
//!   site, eagerly or lazily.
//! * [`ErrorCompat`] uniformly exposes an optionally captured [`Backtrace`].
//! * [`ensure`] and [`whatever`] are the early-return guards.
//!
//! Every operation is a pure, synchronous transformation of already
//! available values; the sole process-wide concern, the one-time backtrace
//! enablement decision, is modelled by [`BacktraceSetting`] and driven by
//! the embedding program.

mod example;
mod ext;
mod flow;
mod protocol;
mod source;
mod trace;
mod whatever;

pub use example::lemma_context_round_trip;
pub use example::ExampleError;
pub use example::OpenFailed;
pub use example::UserIdInvalid;
pub use ext::OptionExt;
pub use ext::ResultExt;
pub use flow::ensure;
pub use flow::whatever;
pub use protocol::ErrorCompat;
pub use protocol::FromString;
pub use protocol::IntoError;
pub use protocol::NoneError;
pub use source::AsErrorSource;
pub use source::ErrorData;
pub use trace::backtrace_enabled_from;
pub use trace::lemma_first_decision_wins;
pub use trace::Backtrace;
pub use trace::BacktraceSetting;
pub use trace::GenerateBacktrace;
pub use whatever::Whatever;
