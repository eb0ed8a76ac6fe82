//! Shutting the providers down, and what is reported of it.
//!
//! Each provider is shut down whatever became of the others. A provider that had
//! been shut down before is no failure. What is reported is the list of the
//! providers that failed, in the order trace, logs, metrics.

use vstd::prelude::*;
use std::time::Duration;
use opentelemetry_sdk::error::OTelSdkError;
use crate::error::Signal;

verus! {

/// The SDK's error for a provider that could not be flushed or released.
#[verifier::external_type_specification]
#[verifier::external_body]
pub struct ExOTelSdkError(OTelSdkError);

/// What became of the shutdown of one provider.
#[derive(Debug, PartialEq, Eq)]
pub enum FlushOutcome {
    /// Everything was flushed and the provider released.
    Flushed,
    /// The provider had been shut down before.
    AlreadyShutdown,
    /// The flush did not finish within this time.
    Timeout(Duration),
    /// The flush failed; the text is the SDK's account of it.
    InternalFailure(String),
}

/// Why a provider could not be flushed or released.
#[derive(Debug, PartialEq, Eq)]
pub enum FlushError {
    /// The flush did not finish within this time.
    Timeout(Duration),
    /// The flush failed; the text is the SDK's account of it.
    InternalFailure(String),
}

/// One provider that could not be flushed or released.
#[derive(Debug, PartialEq, Eq)]
pub struct ProviderFailure {
    pub signal: Signal,
    pub error: FlushError,
}

/// The result of a provider's `shutdown()` as a value of the library, variant
/// for variant. Nothing is computed: the fields are moved over.
#[verifier::external_body]
pub(crate) fn flush_outcome(result: Result<(), OTelSdkError>) -> FlushOutcome
    opens_invariants none
    no_unwind
{
    match result {
        Ok(()) => FlushOutcome::Flushed,
        Err(OTelSdkError::AlreadyShutdown) => FlushOutcome::AlreadyShutdown,
        Err(OTelSdkError::Timeout(limit)) => FlushOutcome::Timeout(limit),
        Err(OTelSdkError::InternalFailure(text)) => FlushOutcome::InternalFailure(text),
    }
}

impl FlushOutcome {
    /// Whether this outcome is a failure: neither a clean flush nor a shutdown
    /// that had happened before.
    pub open spec fn is_failure(self) -> bool {
        self is Timeout || self is InternalFailure
    }

    /// The error that this outcome reports, if it reports one.
    pub open spec fn error(self) -> Option<FlushError> {
        match self {
            FlushOutcome::Flushed => None,
            FlushOutcome::AlreadyShutdown => None,
            FlushOutcome::Timeout(limit) => Some(FlushError::Timeout(limit)),
            FlushOutcome::InternalFailure(text) => Some(FlushError::InternalFailure(text)),
        }
    }
}

/// The error to report for one provider's shutdown: none for a clean flush, none
/// for a provider that had been shut down before, else the error itself.
pub fn shutdown_helper(outcome: FlushOutcome) -> (error: Option<FlushError>)
    ensures
        error == outcome.error(),
{
    match outcome {
        FlushOutcome::Flushed => None,
        FlushOutcome::AlreadyShutdown => None,
        FlushOutcome::Timeout(limit) => Some(FlushError::Timeout(limit)),
        FlushOutcome::InternalFailure(text) => Some(FlushError::InternalFailure(text)),
    }
}

/// What one provider contributes to the report: its failure, or nothing.
pub open spec fn failure_of(signal: Signal, outcome: FlushOutcome) -> Seq<ProviderFailure> {
    match outcome.error() {
        Some(error) => seq![ProviderFailure { signal, error }],
        None => Seq::empty(),
    }
}

/// The report for the three outcomes: the failures among them, in the order
/// trace, logs, metrics.
pub open spec fn aggregate(tracer: FlushOutcome, logger: FlushOutcome, meter: FlushOutcome) -> Seq<
    ProviderFailure,
> {
    failure_of(Signal::Trace, tracer) + failure_of(Signal::Logs, logger) + failure_of(
        Signal::Metrics,
        meter,
    )
}

/// Appends what one provider contributes to the report.
fn push_failure(failures: &mut Vec<ProviderFailure>, signal: Signal, outcome: FlushOutcome)
    ensures
        final(failures)@ == old(failures)@ + failure_of(signal, outcome),
{
    match shutdown_helper(outcome) {
        Some(error) => {
            failures.push(ProviderFailure { signal, error });
        },
        None => {},
    }
}

/// The report for the three outcomes: every failure among them and nothing
/// else, in the order trace, logs, metrics.
pub fn collect_failures(tracer: FlushOutcome, logger: FlushOutcome, meter: FlushOutcome) -> (failures:
    Vec<ProviderFailure>)
    ensures
        failures@ == aggregate(tracer, logger, meter),
{
    let mut failures: Vec<ProviderFailure> = Vec::new();
    push_failure(&mut failures, Signal::Trace, tracer);
    push_failure(&mut failures, Signal::Logs, logger);
    push_failure(&mut failures, Signal::Metrics, meter);
    failures
}

/// How many of the three outcomes are failures.
pub open spec fn failure_count(tracer: FlushOutcome, logger: FlushOutcome, meter: FlushOutcome) -> nat {
    (if tracer.is_failure() {
        1nat
    } else {
        0nat
    }) + (if logger.is_failure() {
        1nat
    } else {
        0nat
    }) + (if meter.is_failure() {
        1nat
    } else {
        0nat
    })
}

/// The report holds one entry for each provider that failed, and none for one
/// that did not: a failure of one provider hides no other, and none is counted
/// twice.
pub proof fn lemma_report_counts_failures(
    tracer: FlushOutcome,
    logger: FlushOutcome,
    meter: FlushOutcome,
)
    ensures
        aggregate(tracer, logger, meter).len() == failure_count(tracer, logger, meter),
        tracer.is_failure() ==> aggregate(tracer, logger, meter).contains(
            ProviderFailure { signal: Signal::Trace, error: tracer.error()->Some_0 },
        ),
        logger.is_failure() ==> aggregate(tracer, logger, meter).contains(
            ProviderFailure { signal: Signal::Logs, error: logger.error()->Some_0 },
        ),
        meter.is_failure() ==> aggregate(tracer, logger, meter).contains(
            ProviderFailure { signal: Signal::Metrics, error: meter.error()->Some_0 },
        ),
{
    let report = aggregate(tracer, logger, meter);
    let t = failure_of(Signal::Trace, tracer);
    let l = failure_of(Signal::Logs, logger);
    let m = failure_of(Signal::Metrics, meter);
    if tracer.is_failure() {
        assert(report[0] == t[0]);
    }
    if logger.is_failure() {
        assert(report[t.len() as int] == l[0]);
    }
    if meter.is_failure() {
        assert(report[(t.len() + l.len()) as int] == m[0]);
    }
}

/// Partial shutdown: where exactly one provider fails, the report is that one
/// failure, under the signal of the provider that failed.
pub proof fn lemma_single_failure(tracer: FlushOutcome, logger: FlushOutcome, meter: FlushOutcome)
    requires
        failure_count(tracer, logger, meter) == 1,
    ensures
        aggregate(tracer, logger, meter).len() == 1,
        tracer.is_failure() ==> aggregate(tracer, logger, meter)[0] == (ProviderFailure {
            signal: Signal::Trace,
            error: tracer.error()->Some_0,
        }),
        logger.is_failure() ==> aggregate(tracer, logger, meter)[0] == (ProviderFailure {
            signal: Signal::Logs,
            error: logger.error()->Some_0,
        }),
        meter.is_failure() ==> aggregate(tracer, logger, meter)[0] == (ProviderFailure {
            signal: Signal::Metrics,
            error: meter.error()->Some_0,
        }),
{
}

/// A shutdown in which no provider fails reports nothing. In particular a
/// shutdown that finds every provider shut down already reports nothing.
pub proof fn lemma_nothing_to_report(tracer: FlushOutcome, logger: FlushOutcome, meter: FlushOutcome)
    requires
        !tracer.is_failure(),
        !logger.is_failure(),
        !meter.is_failure(),
    ensures
        aggregate(tracer, logger, meter) == Seq::<ProviderFailure>::empty(),
{
}

} // verus!
