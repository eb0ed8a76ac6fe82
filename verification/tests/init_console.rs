use otlp_logger::error::{ENDPOINT_LOGGER_FAILED, STDOUT_LOGGER_FAILED};
use otlp_logger::{
    init_with_config, FilterSource, InitFailure, LevelFilter, OtlpConfig, OtlpLogger, ProcessInfo,
};

fn process() -> ProcessInfo {
    ProcessInfo {
        os_type: "linux".to_string(),
        command_args: vec!["app".to_string()],
        pid: 7,
        executable: Some("/usr/bin/app".to_string()),
        log_directives: String::new(),
    }
}

#[test]
fn no_endpoint_selects_the_console_and_a_second_fabric_is_refused() {
    assert!(!tracing::dispatcher::has_been_set());
    let config = OtlpConfig::builder()
        .service_name("svc-a".to_string())
        .stdout_level(LevelFilter::WARN)
        .build()
        .unwrap();
    let mut logger = init_with_config(config, &process()).expect("the console can be set up");
    match &logger {
        OtlpLogger::StdoutOnly(console) => {
            assert_eq!(*console.console(), FilterSource::Level(LevelFilter::WARN))
        }
        OtlpLogger::WithEndpoint(_) => panic!("no endpoint was configured"),
    }
    assert!(tracing::dispatcher::has_been_set());
    let fields: Vec<String> =
        opentelemetry::global::get_text_map_propagator(|p| p.fields().map(String::from).collect());
    assert!(fields.contains(&"traceparent".to_string()));

    assert_eq!(logger.shutdown(), Vec::new());
    assert_eq!(logger.shutdown(), Vec::new());
    assert!(matches!(logger, OtlpLogger::StdoutOnly(_)));

    let again = init_with_config(OtlpConfig::default(), &process()).unwrap_err();
    assert_eq!(again.msg, STDOUT_LOGGER_FAILED);
    assert!(matches!(again.source, InitFailure::RegistryAlreadyInitialized(_)));
    assert_eq!(
        again.to_string(),
        "Error initializing OtlpLogger: Failed to initialize Stdout Only Logger"
    );

    let rt =
        tokio::runtime::Builder::new_multi_thread().worker_threads(1).enable_all().build().unwrap();
    let _entered = rt.enter();
    let remote = OtlpConfig::builder()
        .otlp_endpoint("http://localhost:4317".to_string())
        .build()
        .unwrap();
    let again = init_with_config(remote, &process()).unwrap_err();
    assert_eq!(again.msg, ENDPOINT_LOGGER_FAILED);
    assert!(matches!(again.source, InitFailure::RegistryAlreadyInitialized(_)));
}
