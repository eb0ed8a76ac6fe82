//! The provider of the trace signal.

use vstd::prelude::*;
use opentelemetry::trace::TraceError;
use opentelemetry_otlp::{SpanExporter, WithExportConfig};
use opentelemetry_sdk::error::OTelSdkError;
use opentelemetry_sdk::resource::Resource;
use opentelemetry_sdk::trace::SdkTracerProvider;
use tokio::runtime::Handle;
use crate::error::{ExportSetupError, Signal};
use crate::runtime::current_runtime;

verus! {

/// The exporter that ships spans to the collector.
#[verifier::external_type_specification]
#[verifier::external_body]
pub struct ExSpanExporter(SpanExporter);

/// The owner of the span exporter and of the thread that flushes its batches.
#[verifier::external_type_specification]
#[verifier::external_body]
pub struct ExSdkTracerProvider(SdkTracerProvider);

/// `SpanExporter::builder().with_tonic().with_endpoint(..).build()`, made inside
/// `runtime`, on which the transport spawns its worker. Whether it succeeds
/// depends on the endpoint and on what the environment overrides of it.
#[verifier::external_body]
fn build_span_exporter(runtime: &Handle, endpoint: &str) -> Result<SpanExporter, TraceError> {
    let _entered = runtime.enter();
    SpanExporter::builder().with_tonic().with_endpoint(endpoint).build()
}

/// `SdkTracerProvider::builder().with_resource(..).with_batch_exporter(..).build()`.
#[verifier::external_body]
fn build_tracer_provider(resource: Resource, exporter: SpanExporter) -> SdkTracerProvider {
    SdkTracerProvider::builder().with_resource(resource).with_batch_exporter(exporter).build()
}

/// The trace provider for an exporter that was or was not built: a batching
/// provider over the exporter and the resource, or the exporter's error as the
/// failure of the trace signal.
pub fn tracer_from_exporter(exporter: Result<SpanExporter, TraceError>, resource: Resource) -> (r:
    Result<SdkTracerProvider, ExportSetupError>)
    ensures
        exporter is Ok <==> r is Ok,
        exporter matches Err(e) ==> r == Err::<SdkTracerProvider, _>(ExportSetupError::Trace(e)),
{
    match exporter {
        Ok(exporter) => Ok(build_tracer_provider(resource, exporter)),
        Err(e) => Err(ExportSetupError::Trace(e)),
    }
}

/// The trace provider for `endpoint`: spans are batched and shipped to it in the
/// background, under `resource`. It fails, as a failure of the trace signal,
/// where no runtime is running or where the exporter cannot be built.
pub fn otel_tracer(endpoint: &str, resource: Resource) -> (r: Result<
    SdkTracerProvider,
    ExportSetupError,
>)
    ensures
        r matches Err(e) ==> e == ExportSetupError::NoRuntime(Signal::Trace) || e is Trace,
{
    tracer_in_runtime(current_runtime(), endpoint, resource)
}

/// `SdkTracerProvider::shutdown()`: flushes what the trace provider still holds
/// and releases its exporter. What goes wrong comes back as an error. A provider
/// that was shut down before answers with the error that says so, and does
/// nothing.
#[verifier::external_body]
pub(crate) fn shutdown_tracer_provider(provider: &SdkTracerProvider) -> Result<(), OTelSdkError>
    opens_invariants none
    no_unwind
{
    provider.shutdown()
}

/// The trace provider for `endpoint`, given the runtime that was found on the
/// calling thread, if one was. Spans are batched and shipped to it in the
/// background, under `resource`.
/// Without a runtime nothing is built, and the failure says that the trace
/// signal had none. With one, the exporter is built inside it, and the only
/// failure left is that of the exporter.
pub fn tracer_in_runtime(runtime: Option<Handle>, endpoint: &str, resource: Resource) -> (r: Result<
    SdkTracerProvider,
    ExportSetupError,
>)
    ensures
        runtime is None ==> r == Err::<SdkTracerProvider, _>(ExportSetupError::NoRuntime(Signal::Trace)),
        runtime is Some ==> (r matches Err(e) ==> e is Trace),
{
    match runtime {
        Some(runtime) => tracer_from_exporter(build_span_exporter(&runtime, endpoint), resource),
        None => Err(ExportSetupError::NoRuntime(Signal::Trace)),
    }
}

} // verus!
