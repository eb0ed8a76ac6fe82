use otlp_logger::error::ENDPOINT_LOGGER_FAILED;
use otlp_logger::{
    init_with_config, EndpointLogger, ExportSetupError, InitFailure, OtlpConfig, ProcessInfo,
    Signal,
};

fn process() -> ProcessInfo {
    ProcessInfo {
        os_type: "linux".to_string(),
        command_args: Vec::new(),
        pid: 1,
        executable: None,
        log_directives: String::new(),
    }
}

fn remote() -> OtlpConfig {
    OtlpConfig::builder().otlp_endpoint("http://localhost:4317".to_string()).build().unwrap()
}

#[test]
fn the_remote_mode_fails_without_a_runtime() {
    let error = init_with_config(remote(), &process()).unwrap_err();
    assert_eq!(error.msg, ENDPOINT_LOGGER_FAILED);
    assert!(matches!(
        error.source,
        InitFailure::ExportSetup(ExportSetupError::NoRuntime(Signal::Logs))
    ));
    assert!(!tracing::dispatcher::has_been_set());
}

#[test]
fn the_endpoint_logger_fails_without_an_endpoint() {
    let result = EndpointLogger::init(OtlpConfig::default(), &process());
    assert!(matches!(result, Err(InitFailure::EndpointNotSet)));
    assert!(!tracing::dispatcher::has_been_set());
}

#[test]
fn the_endpoint_logger_fails_without_a_runtime() {
    let result = EndpointLogger::init(remote(), &process());
    assert!(matches!(
        result,
        Err(InitFailure::ExportSetup(ExportSetupError::NoRuntime(Signal::Logs)))
    ));
}

#[test]
fn a_malformed_endpoint_ends_the_initialization() {
    let rt =
        tokio::runtime::Builder::new_multi_thread().worker_threads(1).enable_all().build().unwrap();
    let _entered = rt.enter();
    let config = OtlpConfig::builder().otlp_endpoint("not an endpoint".to_string()).build().unwrap();
    let error = init_with_config(config, &process()).unwrap_err();
    assert_eq!(error.msg, ENDPOINT_LOGGER_FAILED);
    match error.source {
        InitFailure::ExportSetup(e) => assert_eq!(e.signal(), Signal::Logs),
        _ => panic!("the exporter of the log signal should have failed"),
    }
    assert!(!tracing::dispatcher::has_been_set());
}
