//! The optional backtrace subsystem.
//!
//! A [`Backtrace`] is an opaque capture of the call stack, taken at most
//! once per error instance, at construction, and never mutated afterward.
//! Whether capture really happens is a process-wide decision taken exactly
//! once, from an ordered pair of environment texts; [`BacktraceSetting`]
//! models that one-time decision, and the embedding program holds one such
//! value behind its own single-initialization guard.

use backtrace::Backtrace as RawBacktrace;
use vstd::prelude::*;
use vstd::string::StringExecFns;

verus! {

#[verifier::external_type_specification]
#[verifier::external_body]
pub struct ExRawBacktrace(RawBacktrace);

/// An opaque, self-contained capture of the call stack at
/// error-construction time.
pub struct Backtrace {
    inner: RawBacktrace,
}

/// Relies on `backtrace::Backtrace::new`: captures the call stack at the
/// call site into a self-contained owned value and never fails. What the
/// capture holds depends on the stack of the moment, so nothing is stated
/// of the result.
#[verifier::external_body]
fn capture_stack() -> (r: RawBacktrace) {
    RawBacktrace::new()
}

impl Backtrace {
    /// Capture the call stack here. Capture never fails; at worst the
    /// platform yields an empty trace.
    pub fn capture() -> (r: Backtrace) {
        Backtrace { inner: capture_stack() }
    }

    /// The underlying capture, for the embedding program to render.
    pub fn raw(&self) -> &RawBacktrace {
        &self.inner
    }
}

/// Construct a backtrace value, allowing it to be optional.
///
/// `enabled` is the process-wide decision of [`BacktraceSetting`]; a
/// representation that is always present may ignore it.
pub trait GenerateBacktrace: Sized {
    /// Whether this value holds a captured trace.
    spec fn spec_present(&self) -> bool;

    /// Whether a value generated under the given decision holds a trace.
    spec fn spec_presence(enabled: bool) -> bool;

    /// Generate a new instance under the process-wide decision.
    fn generate(enabled: bool) -> (r: Self)
        ensures
            r.spec_present() == Self::spec_presence(enabled),
    ;

    /// Expose the possibly-absent capture without further allocation.
    fn as_backtrace(&self) -> (r: Option<&Backtrace>)
        ensures
            r is Some <==> self.spec_present(),
    ;
}

impl GenerateBacktrace for Backtrace {
    open spec fn spec_present(&self) -> bool {
        true
    }

    open spec fn spec_presence(_enabled: bool) -> bool {
        true
    }

    fn generate(_enabled: bool) -> (r: Self) {
        Backtrace::capture()
    }

    fn as_backtrace(&self) -> (r: Option<&Backtrace>) {
        Some(self)
    }
}

/// Create a backtrace only when the process-wide decision turned capture
/// on; otherwise a zero-cost absent value.
impl GenerateBacktrace for Option<Backtrace> {
    open spec fn spec_present(&self) -> bool {
        self is Some
    }

    open spec fn spec_presence(enabled: bool) -> bool {
        enabled
    }

    fn generate(enabled: bool) -> (r: Self) {
        if enabled {
            Some(Backtrace::capture())
        } else {
            None
        }
    }

    fn as_backtrace(&self) -> (r: Option<&Backtrace>) {
        self.as_ref()
    }
}

/// The text consulted for the decision: the primary environment value if
/// it is set at all, otherwise the fallback one.
pub open spec fn spec_consulted(
    primary: Option<Seq<char>>,
    fallback: Option<Seq<char>>,
) -> Option<Seq<char>> {
    if primary is Some {
        primary
    } else {
        fallback
    }
}

/// The enablement policy: capture is on exactly when the consulted text
/// equals the single enabled marker, `"1"`.
pub open spec fn spec_enabled(primary: Option<Seq<char>>, fallback: Option<Seq<char>>) -> bool {
    spec_consulted(primary, fallback) == Some("1"@)
}

/// Decide enablement from the two environment texts, primary first.
pub fn backtrace_enabled_from(primary: Option<String>, fallback: Option<String>) -> (b: bool)
    ensures
        b == spec_enabled(primary.deep_view(), fallback.deep_view()),
{
    let consulted = if primary.is_some() {
        primary
    } else {
        fallback
    };
    match consulted {
        Some(v) => {
            let marker = String::from_str("1");
            v == marker
        },
        None => false,
    }
}

/// The process-wide enablement decision, written at most once.
///
/// The embedding program keeps one value of this type behind an atomic
/// single-initialization guard, feeds it the two environment texts on
/// first use, and only reads it afterward; every later initialization is
/// a no-op, so all threads observe one consistent decision.
pub struct BacktraceSetting {
    /// `None` until the first initialization; then the decision, for good.
    pub decided: Option<bool>,
}

impl BacktraceSetting {
    /// A setting on which no decision has been taken yet.
    pub fn new() -> (s: BacktraceSetting)
        ensures
            s.decided is None,
    {
        BacktraceSetting { decided: None }
    }

    /// The transition `initialize` performs: the first decision wins and
    /// every later one is ignored.
    pub open spec fn spec_initialized(self, enabled: bool) -> BacktraceSetting {
        if self.decided is Some {
            self
        } else {
            BacktraceSetting { decided: Some(enabled) }
        }
    }

    /// Take the decision from the two environment texts if it is still
    /// open; leave an already decided setting untouched.
    pub fn initialize(&mut self, primary: Option<String>, fallback: Option<String>)
        ensures
            *final(self) == old(self).spec_initialized(
                spec_enabled(primary.deep_view(), fallback.deep_view()),
            ),
    {
        if self.decided.is_none() {
            let b = backtrace_enabled_from(primary, fallback);
            self.decided = Some(b);
        }
    }

    /// Whether capture is enabled; `false` while the decision is open.
    pub fn is_enabled(&self) -> (b: bool)
        ensures
            b == (self.decided == Some(true)),
    {
        match self.decided {
            Some(b) => b,
            None => false,
        }
    }
}

/// Law: the enablement decision is taken at most once per process. A
/// later initialization, whatever texts it consults, leaves an already
/// decided setting exactly as it was; in particular a decision taken
/// before the first capture request governs every request thereafter.
pub proof fn lemma_first_decision_wins(s: BacktraceSetting, first: bool, later: bool)
    ensures
        s.spec_initialized(first).spec_initialized(later) == s.spec_initialized(first),
        s.decided is Some ==> s.spec_initialized(later) == s,
{
}

} // verus!
