//! The provider of the log signal.

use vstd::prelude::*;
use opentelemetry_otlp::{LogExporter, WithExportConfig};
use opentelemetry_sdk::logs::{LogError, SdkLoggerProvider};
use opentelemetry_sdk::error::OTelSdkError;
use opentelemetry_sdk::resource::Resource;
use tokio::runtime::Handle;
use crate::error::{ExportSetupError, Signal};
use crate::runtime::current_runtime;

verus! {

/// The exporter that ships log records to the collector.
#[verifier::external_type_specification]
#[verifier::external_body]
pub struct ExLogExporter(LogExporter);

/// The owner of the log exporter and of the thread that flushes its batches.
#[verifier::external_type_specification]
#[verifier::external_body]
pub struct ExSdkLoggerProvider(SdkLoggerProvider);

/// `LogExporter::builder().with_tonic().with_endpoint(..).build()`, made inside
/// `runtime`, on which the transport spawns its worker. Whether it succeeds
/// depends on the endpoint and on what the environment overrides of it.
#[verifier::external_body]
fn build_log_exporter(runtime: &Handle, endpoint: &str) -> Result<LogExporter, LogError> {
    let _entered = runtime.enter();
    LogExporter::builder().with_tonic().with_endpoint(endpoint).build()
}

/// `SdkLoggerProvider::builder().with_resource(..).with_batch_exporter(..).build()`.
#[verifier::external_body]
fn build_logger_provider(resource: Resource, exporter: LogExporter) -> SdkLoggerProvider {
    SdkLoggerProvider::builder().with_resource(resource).with_batch_exporter(exporter).build()
}

/// The log provider for an exporter that was or was not built: a batching
/// provider over the exporter and the resource, or the exporter's error as the
/// failure of the log signal.
pub fn logger_from_exporter(exporter: Result<LogExporter, LogError>, resource: Resource) -> (r:
    Result<SdkLoggerProvider, ExportSetupError>)
    ensures
        exporter is Ok <==> r is Ok,
        exporter matches Err(e) ==> r == Err::<SdkLoggerProvider, _>(ExportSetupError::Logs(e)),
{
    match exporter {
        Ok(exporter) => Ok(build_logger_provider(resource, exporter)),
        Err(e) => Err(ExportSetupError::Logs(e)),
    }
}

/// The log provider for `endpoint`: records are batched and shipped to it in the
/// background, under `resource`. It fails, as a failure of the log signal, where
/// no runtime is running or where the exporter cannot be built.
pub fn otel_logs(endpoint: &str, resource: Resource) -> (r: Result<
    SdkLoggerProvider,
    ExportSetupError,
>)
    ensures
        r matches Err(e) ==> e == ExportSetupError::NoRuntime(Signal::Logs) || e is Logs,
{
    logger_in_runtime(current_runtime(), endpoint, resource)
}

/// `SdkLoggerProvider::shutdown()`: flushes what the log provider still holds
/// and releases its exporter. What goes wrong comes back as an error. A provider
/// that was shut down before answers with the error that says so, and does
/// nothing.
#[verifier::external_body]
pub(crate) fn shutdown_logger_provider(provider: &SdkLoggerProvider) -> Result<(), OTelSdkError>
    opens_invariants none
    no_unwind
{
    provider.shutdown()
}

/// The log provider for `endpoint`, given the runtime that was found on the
/// calling thread, if one was. Records are batched and shipped to it in the
/// background, under `resource`.
/// Without a runtime nothing is built, and the failure says that the log
/// signal had none. With one, the exporter is built inside it, and the only
/// failure left is that of the exporter.
pub fn logger_in_runtime(runtime: Option<Handle>, endpoint: &str, resource: Resource) -> (r: Result<
    SdkLoggerProvider,
    ExportSetupError,
>)
    ensures
        runtime is None ==> r == Err::<SdkLoggerProvider, _>(ExportSetupError::NoRuntime(Signal::Logs)),
        runtime is Some ==> (r matches Err(e) ==> e is Logs),
{
    match runtime {
        Some(runtime) => logger_from_exporter(build_log_exporter(&runtime, endpoint), resource),
        None => Err(ExportSetupError::NoRuntime(Signal::Logs)),
    }
}

} // verus!
