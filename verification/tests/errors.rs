use otlp_logger::error::{ENDPOINT_LOGGER_FAILED, ERROR_PREFIX, STDOUT_LOGGER_FAILED};
use otlp_logger::{ExportSetupError, InitFailure, Signal, TryInitError};

#[test]
fn error_renders_prefix_and_step() {
    let error = TryInitError::new(ENDPOINT_LOGGER_FAILED, InitFailure::EndpointNotSet);
    assert_eq!(
        error.to_string(),
        "Error initializing OtlpLogger: Failed to initialize OTLP Endpoint Logger"
    );
    let error = TryInitError::new(
        STDOUT_LOGGER_FAILED,
        InitFailure::RegistryAlreadyInitialized("already set".to_string()),
    );
    assert_eq!(
        error.to_string(),
        "Error initializing OtlpLogger: Failed to initialize Stdout Only Logger"
    );
}

#[test]
fn error_with_an_empty_step_renders_the_prefix() {
    let error = TryInitError::new("", InitFailure::EndpointNotSet);
    assert_eq!(error.to_string(), "Error initializing OtlpLogger: ");
    assert_eq!(ERROR_PREFIX, "Error initializing OtlpLogger: ");
}

#[test]
fn error_keeps_step_and_cause() {
    let error = TryInitError::new(
        "step",
        InitFailure::ExportSetup(ExportSetupError::NoRuntime(Signal::Metrics)),
    );
    assert_eq!(error.msg, "step");
    assert!(matches!(
        error.source,
        InitFailure::ExportSetup(ExportSetupError::NoRuntime(Signal::Metrics))
    ));
}

#[test]
fn a_missing_runtime_names_its_signal() {
    assert_eq!(ExportSetupError::NoRuntime(Signal::Trace).signal(), Signal::Trace);
    assert_eq!(ExportSetupError::NoRuntime(Signal::Metrics).signal(), Signal::Metrics);
    assert_eq!(ExportSetupError::NoRuntime(Signal::Logs).signal(), Signal::Logs);
}
