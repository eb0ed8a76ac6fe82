use opentelemetry::trace::TraceError;
use opentelemetry_otlp::{LogExporter, MetricExporter, SpanExporter, WithExportConfig};
use opentelemetry_sdk::logs::LogError;
use opentelemetry_sdk::metrics::MetricError;
use otlp_logger::logs::{logger_from_exporter, logger_in_runtime, otel_logs};
use otlp_logger::metrics::{meter_from_exporter, meter_in_runtime, otel_metrics};
use otlp_logger::resource::otel_resource;
use otlp_logger::trace::{otel_tracer, tracer_from_exporter, tracer_in_runtime};
use otlp_logger::{ExportSetupError, ProcessInfo, OtlpConfig, Signal};

fn process() -> ProcessInfo {
    ProcessInfo {
        os_type: "linux".to_string(),
        command_args: vec!["app".to_string()],
        pid: 7,
        executable: None,
        log_directives: String::new(),
    }
}

fn runtime() -> tokio::runtime::Runtime {
    tokio::runtime::Builder::new_multi_thread().worker_threads(1).enable_all().build().unwrap()
}

#[test]
fn factories_need_a_runtime() {
    let resource = otel_resource(&OtlpConfig::default(), &process());
    assert!(matches!(
        otel_tracer("http://localhost:4317", resource.clone()),
        Err(ExportSetupError::NoRuntime(Signal::Trace))
    ));
    assert!(matches!(
        otel_metrics("http://localhost:4317", resource.clone()),
        Err(ExportSetupError::NoRuntime(Signal::Metrics))
    ));
    assert!(matches!(
        otel_logs("http://localhost:4317", resource),
        Err(ExportSetupError::NoRuntime(Signal::Logs))
    ));
}

#[test]
fn factories_build_providers_inside_a_runtime() {
    let rt = runtime();
    let _entered = rt.enter();
    let resource = otel_resource(&OtlpConfig::default(), &process());
    let tracer = otel_tracer("http://localhost:4317", resource.clone()).unwrap();
    let meter = otel_metrics("http://localhost:4317", resource.clone()).unwrap();
    let logger = otel_logs("http://localhost:4317", resource).unwrap();
    assert!(tracer.shutdown().is_ok());
    assert!(meter.shutdown().is_ok());
    assert!(logger.shutdown().is_ok());
}

#[test]
fn a_malformed_endpoint_fails_the_signal() {
    let rt = runtime();
    let _entered = rt.enter();
    let resource = otel_resource(&OtlpConfig::default(), &process());
    let tracer = otel_tracer("not an endpoint", resource.clone());
    assert!(matches!(tracer, Err(ExportSetupError::Trace(_))));
    assert_eq!(tracer.unwrap_err().signal(), Signal::Trace);
    let meter = otel_metrics("not an endpoint", resource.clone());
    assert!(matches!(meter, Err(ExportSetupError::Metrics(_))));
    assert_eq!(meter.unwrap_err().signal(), Signal::Metrics);
    let logger = otel_logs("not an endpoint", resource);
    assert!(matches!(logger, Err(ExportSetupError::Logs(_))));
    assert_eq!(logger.unwrap_err().signal(), Signal::Logs);
}

#[test]
fn an_exporter_error_becomes_the_failure_of_its_signal() {
    let resource = otel_resource(&OtlpConfig::default(), &process());
    let tracer = tracer_from_exporter(Err(TraceError::from("no transport")), resource.clone());
    match tracer {
        Err(ExportSetupError::Trace(e)) => assert_eq!(e.to_string(), "no transport"),
        _ => panic!("the trace signal should have failed"),
    }
    let meter = meter_from_exporter(
        Err(MetricError::Config("no transport".to_string())),
        resource.clone(),
    );
    match meter {
        Err(ExportSetupError::Metrics(e)) => assert_eq!(e.to_string(), "Config error no transport"),
        _ => panic!("the metrics signal should have failed"),
    }
    let logger =
        logger_from_exporter(Err(LogError::AlreadyShutdown("exporter".to_string())), resource);
    match logger {
        Err(ExportSetupError::Logs(e)) => assert_eq!(e.to_string(), "exporter already shutdown"),
        _ => panic!("the log signal should have failed"),
    }
}

#[test]
fn an_exporter_that_was_built_gives_a_provider() {
    let rt = runtime();
    let _entered = rt.enter();
    let resource = otel_resource(&OtlpConfig::default(), &process());
    let spans = SpanExporter::builder().with_tonic().with_endpoint("http://localhost:4317").build();
    assert!(tracer_from_exporter(spans, resource.clone()).is_ok());
    let metrics =
        MetricExporter::builder().with_tonic().with_endpoint("http://localhost:4317").build();
    assert!(meter_from_exporter(metrics, resource.clone()).is_ok());
    let logs = LogExporter::builder().with_tonic().with_endpoint("http://localhost:4317").build();
    assert!(logger_from_exporter(logs, resource).is_ok());
}

#[test]
fn without_a_runtime_nothing_is_built() {
    let rt = runtime();
    let _entered = rt.enter();
    let resource = otel_resource(&OtlpConfig::default(), &process());
    assert!(matches!(
        tracer_in_runtime(None, "http://localhost:4317", resource.clone()),
        Err(ExportSetupError::NoRuntime(Signal::Trace))
    ));
    assert!(matches!(
        meter_in_runtime(None, "http://localhost:4317", resource.clone()),
        Err(ExportSetupError::NoRuntime(Signal::Metrics))
    ));
    assert!(matches!(
        logger_in_runtime(None, "http://localhost:4317", resource),
        Err(ExportSetupError::NoRuntime(Signal::Logs))
    ));
}

#[test]
fn a_runtime_that_is_handed_in_is_the_one_that_is_used() {
    let rt = runtime();
    let resource = otel_resource(&OtlpConfig::default(), &process());
    let tracer =
        tracer_in_runtime(Some(rt.handle().clone()), "http://localhost:4317", resource.clone())
            .unwrap();
    let meter =
        meter_in_runtime(Some(rt.handle().clone()), "http://localhost:4317", resource.clone())
            .unwrap();
    let logger =
        logger_in_runtime(Some(rt.handle().clone()), "http://localhost:4317", resource.clone())
            .unwrap();
    assert!(tracer.shutdown().is_ok());
    assert!(meter.shutdown().is_ok());
    assert!(logger.shutdown().is_ok());
    assert!(matches!(
        tracer_in_runtime(Some(rt.handle().clone()), "not an endpoint", resource.clone()),
        Err(ExportSetupError::Trace(_))
    ));
    assert!(matches!(
        meter_in_runtime(Some(rt.handle().clone()), "not an endpoint", resource.clone()),
        Err(ExportSetupError::Metrics(_))
    ));
    assert!(matches!(
        logger_in_runtime(Some(rt.handle().clone()), "not an endpoint", resource),
        Err(ExportSetupError::Logs(_))
    ));
}
