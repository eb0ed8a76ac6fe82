//! Composing the sinks into one dispatch fabric and installing it.
//!
//! A process has one fabric. Installing a second one fails, and says so.
//! Every sink receives every event and decides by its own filter alone.

use vstd::prelude::*;
use opentelemetry::trace::TracerProvider;
use opentelemetry_appender_tracing::layer::OpenTelemetryTracingBridge;
use opentelemetry_sdk::logs::SdkLoggerProvider;
use opentelemetry_sdk::metrics::SdkMeterProvider;
use opentelemetry_sdk::propagation::TraceContextPropagator;
use opentelemetry_sdk::trace::SdkTracerProvider;
use tracing_opentelemetry::{MetricsLayer, OpenTelemetryLayer};
use tracing_subscriber::filter::EnvFilter;
use tracing_subscriber::layer::{Layer, SubscriberExt};
use tracing_subscriber::util::SubscriberInitExt;
use crate::error::InitFailure;
use crate::filter::{
    build_filter, default_level, filter_directives, is_empty_environment, single_level,
    source_directives, FilterPlan, FilterSource, FilterSourceView,
};

verus! {

/// The name under which the trace sink asks its provider for a tracer.
pub const TRACER_NAME: &'static str = "otlp-tracing";

/// How the console renders an event: always in the compact form, with or
/// without the source file and the line of the call.
#[derive(Debug, Clone, Copy, PartialEq, Eq, Structural)]
pub struct ConsoleFormat {
    pub with_file: bool,
    pub with_line_number: bool,
}

/// The format of the console: compact, with file and line.
pub fn console_format() -> (format: ConsoleFormat)
    ensures
        format == (ConsoleFormat { with_file: true, with_line_number: true }),
{
    ConsoleFormat { with_file: true, with_line_number: true }
}

/// The filters of the four sinks, built and ready to be attached.
pub struct SinkFilters {
    pub console: EnvFilter,
    pub trace: EnvFilter,
    pub metrics: EnvFilter,
    pub log: EnvFilter,
}

/// Builds the console layer and the three bridges, each under its filter, puts
/// them on one registry and calls `try_init` on it. The error, if any, is handed
/// back as the subscriber crate words it. Whether it succeeds depends on what
/// this process has installed before.
#[verifier::external_body]
fn install_remote(
    format: ConsoleFormat,
    filters: SinkFilters,
    tracer_name: &'static str,
    tracer_provider: &SdkTracerProvider,
    meter_provider: &SdkMeterProvider,
    logger_provider: &SdkLoggerProvider,
) -> Result<(), String> {
    let stdout_layer = tracing_subscriber::fmt::layer().compact().with_file(
        format.with_file,
    ).with_line_number(format.with_line_number).with_filter(filters.console);
    let tracer_layer = OpenTelemetryLayer::new(tracer_provider.tracer(tracer_name)).with_filter(
        filters.trace,
    );
    let metrics_layer = MetricsLayer::new(meter_provider.clone()).with_filter(filters.metrics);
    let logs_layer = OpenTelemetryTracingBridge::new(logger_provider).with_filter(filters.log);
    tracing_subscriber::registry().with(stdout_layer).with(tracer_layer).with(metrics_layer).with(
        logs_layer,
    ).try_init().map_err(|e| e.to_string())
}

/// Builds the console layer under its filter, puts it on a registry and calls
/// `try_init` on it. The error, if any, is handed back as the subscriber crate
/// words it. Whether it succeeds depends on what this process has installed
/// before.
#[verifier::external_body]
fn install_console(format: ConsoleFormat, console: EnvFilter) -> Result<(), String> {
    let stdout_layer = tracing_subscriber::fmt::layer().compact().with_file(
        format.with_file,
    ).with_line_number(format.with_line_number).with_filter(console);
    tracing_subscriber::registry().with(stdout_layer).try_init().map_err(|e| e.to_string())
}

/// `opentelemetry::global::set_text_map_propagator` with the trace-context
/// propagator: from here on this process hands trace context across process
/// boundaries in that format.
#[verifier::external_body]
fn install_propagator() {
    opentelemetry::global::set_text_map_propagator(TraceContextPropagator::new());
}

/// Whether `filter` is the filter that is built for `source`.
pub open spec fn built_from(filter: EnvFilter, source: FilterSourceView) -> bool {
    &&& filter_directives(filter) == source_directives(source)
    &&& is_empty_environment(source) ==> filter_directives(filter) == single_level(default_level())
}

/// The four filters that a plan asks for, each built from its own source.
pub fn build_filters(plan: &FilterPlan) -> (filters: SinkFilters)
    ensures
        built_from(filters.console, plan@.console),
        built_from(filters.trace, plan@.trace),
        built_from(filters.metrics, plan@.metrics),
        built_from(filters.log, plan@.log),
{
    SinkFilters {
        console: build_filter(&plan.console),
        trace: build_filter(&plan.trace),
        metrics: build_filter(&plan.metrics),
        log: build_filter(&plan.log),
    }
}

/// What an attempt to install the fabric amounts to: success, or the failure
/// that says a fabric was installed already.
pub fn installed_or_failure(installed: Result<(), String>) -> (r: Result<(), InitFailure>)
    ensures
        installed is Ok <==> r is Ok,
        installed matches Err(text) ==> r == Err::<(), _>(
            InitFailure::RegistryAlreadyInitialized(text),
        ),
{
    match installed {
        Ok(()) => Ok(()),
        Err(text) => Err(InitFailure::RegistryAlreadyInitialized(text)),
    }
}

/// Installs the fabric of the remote mode: the console and the three bridges,
/// each filtered as `plan` says. On success the trace-context propagator is
/// installed too. It fails where the subscriber crate refuses the fabric, as it
/// does where this process has one already.
pub fn compose_remote(
    plan: &FilterPlan,
    tracer_provider: &SdkTracerProvider,
    meter_provider: &SdkMeterProvider,
    logger_provider: &SdkLoggerProvider,
) -> (r: Result<(), InitFailure>)
    ensures
        r matches Err(e) ==> e is RegistryAlreadyInitialized,
{
    let filters = build_filters(plan);
    let installed = install_remote(
        console_format(),
        filters,
        TRACER_NAME,
        tracer_provider,
        meter_provider,
        logger_provider,
    );
    let r = installed_or_failure(installed);
    if r.is_ok() {
        install_propagator();
    }
    r
}

/// Installs the fabric of the console-only mode: the console alone, filtered as
/// `console` says. On success the trace-context propagator is installed too. It
/// fails where the subscriber crate refuses the fabric, as it does where this
/// process has one already.
pub fn compose_console(console: &FilterSource) -> (r: Result<(), InitFailure>)
    ensures
        r matches Err(e) ==> e is RegistryAlreadyInitialized,
{
    let console = build_filter(console);
    let r = installed_or_failure(install_console(console_format(), console));
    if r.is_ok() {
        install_propagator();
    }
    r
}

} // verus!
