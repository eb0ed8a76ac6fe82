//! The provider of the metrics signal.

use vstd::prelude::*;
use opentelemetry_otlp::{MetricExporter, WithExportConfig};
use opentelemetry_sdk::metrics::{MetricError, SdkMeterProvider};
use opentelemetry_sdk::error::OTelSdkError;
use opentelemetry_sdk::resource::Resource;
use tokio::runtime::Handle;
use crate::error::{ExportSetupError, Signal};
use crate::runtime::current_runtime;

verus! {

/// The exporter that ships metrics to the collector.
#[verifier::external_type_specification]
#[verifier::external_body]
pub struct ExMetricExporter(MetricExporter);

/// The owner of the metric exporter and of the thread that exports periodically.
#[verifier::external_type_specification]
#[verifier::external_body]
pub struct ExSdkMeterProvider(SdkMeterProvider);

/// `MetricExporter::builder().with_tonic().with_endpoint(..).build()`, made inside
/// `runtime`, on which the transport spawns its worker. Whether it succeeds
/// depends on the endpoint and on what the environment overrides of it.
#[verifier::external_body]
fn build_metric_exporter(runtime: &Handle, endpoint: &str) -> Result<MetricExporter, MetricError> {
    let _entered = runtime.enter();
    MetricExporter::builder().with_tonic().with_endpoint(endpoint).build()
}

/// `SdkMeterProvider::builder().with_resource(..).with_periodic_exporter(..).build()`.
#[verifier::external_body]
fn build_meter_provider(resource: Resource, exporter: MetricExporter) -> SdkMeterProvider {
    SdkMeterProvider::builder().with_resource(resource).with_periodic_exporter(exporter).build()
}

/// The metrics provider for an exporter that was or was not built: a provider
/// that exports periodically, over the exporter and the resource, or the
/// exporter's error as the failure of the metrics signal.
pub fn meter_from_exporter(exporter: Result<MetricExporter, MetricError>, resource: Resource) -> (r:
    Result<SdkMeterProvider, ExportSetupError>)
    ensures
        exporter is Ok <==> r is Ok,
        exporter matches Err(e) ==> r == Err::<SdkMeterProvider, _>(ExportSetupError::Metrics(e)),
{
    match exporter {
        Ok(exporter) => Ok(build_meter_provider(resource, exporter)),
        Err(e) => Err(ExportSetupError::Metrics(e)),
    }
}

/// The metrics provider for `endpoint`: metrics are collected and shipped to it
/// at intervals in the background, under `resource`. It fails, as a failure of
/// the metrics signal, where no runtime is running or where the exporter cannot
/// be built.
pub fn otel_metrics(endpoint: &str, resource: Resource) -> (r: Result<
    SdkMeterProvider,
    ExportSetupError,
>)
    ensures
        r matches Err(e) ==> e == ExportSetupError::NoRuntime(Signal::Metrics) || e is Metrics,
{
    meter_in_runtime(current_runtime(), endpoint, resource)
}

/// `SdkMeterProvider::shutdown()`: flushes what the metrics provider still holds
/// and releases its exporter. What goes wrong comes back as an error. A provider
/// that was shut down before answers with the error that says so, and does
/// nothing.
#[verifier::external_body]
pub(crate) fn shutdown_meter_provider(provider: &SdkMeterProvider) -> Result<(), OTelSdkError>
    opens_invariants none
    no_unwind
{
    provider.shutdown()
}

/// The metrics provider for `endpoint`, given the runtime that was found on the
/// calling thread, if one was. Metrics are collected and shipped to it at
/// intervals in the background, under `resource`.
/// Without a runtime nothing is built, and the failure says that the metrics
/// signal had none. With one, the exporter is built inside it, and the only
/// failure left is that of the exporter.
pub fn meter_in_runtime(runtime: Option<Handle>, endpoint: &str, resource: Resource) -> (r: Result<
    SdkMeterProvider,
    ExportSetupError,
>)
    ensures
        runtime is None ==> r == Err::<SdkMeterProvider, _>(ExportSetupError::NoRuntime(Signal::Metrics)),
        runtime is Some ==> (r matches Err(e) ==> e is Metrics),
{
    match runtime {
        Some(runtime) => meter_from_exporter(build_metric_exporter(&runtime, endpoint), resource),
        None => Err(ExportSetupError::NoRuntime(Signal::Metrics)),
    }
}

} // verus!
