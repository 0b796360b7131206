//! The severity filter of the logging capability: the shell configures the
//! host's logging sink with a minimum severity of informational, so records
//! at informational severity and above reach the sink and records below it
//! are dropped.

use vstd::prelude::*;

verus! {

/// Severity of a log record, from least to most severe.
#[derive(Clone, Copy, Debug, PartialEq, Eq, Structural)]
pub enum Severity {
    Trace,
    Debug,
    Info,
    Warn,
    Error,
}

/// Numeric rank of a severity: a record outranks another exactly when it is
/// more severe.
pub open spec fn severity_rank(s: Severity) -> nat {
    match s {
        Severity::Trace => 0,
        Severity::Debug => 1,
        Severity::Info => 2,
        Severity::Warn => 3,
        Severity::Error => 4,
    }
}

/// Whether a record of severity `s` passes a filter whose minimum severity
/// is `min`: it passes exactly when it is at least as severe as the minimum.
pub open spec fn passes_filter(s: Severity, min: Severity) -> bool {
    severity_rank(s) >= severity_rank(min)
}

/// The minimum severity the bootstrapper configures the logging plugin with.
pub open spec fn configured_minimum() -> Severity {
    Severity::Info
}

/// Rank of a severity, as executable code.
pub fn rank(s: Severity) -> (r: u8)
    ensures
        r == severity_rank(s),
{
    match s {
        Severity::Trace => 0,
        Severity::Debug => 1,
        Severity::Info => 2,
        Severity::Warn => 3,
        Severity::Error => 4,
    }
}

/// Whether a record of severity `s` passes a filter with minimum `min`.
pub fn allowed_at(s: Severity, min: Severity) -> (ok: bool)
    ensures
        ok == passes_filter(s, min),
{
    rank(s) >= rank(min)
}

/// Whether a record of severity `s` reaches the sink under the configuration
/// the bootstrapper installs: informational severity and above reach it,
/// anything below is suppressed.
pub fn reaches_sink(s: Severity) -> (ok: bool)
    ensures
        ok == passes_filter(s, configured_minimum()),
{
    allowed_at(s, Severity::Info)
}

/// Under the installed configuration, a record reaches the sink exactly when
/// its severity is informational, warning or error; trace and debug records
/// are suppressed.
pub proof fn lemma_informational_filter(s: Severity)
    ensures
        passes_filter(s, configured_minimum()) <==> (s is Info || s is Warn || s is Error),
{
}

} // verus!
