use opentelemetry::{Array, Key, StringValue, Value};
use otlp_logger::resource::{
    collect_attributes, detect_os, detect_process, explicit_attributes, otel_resource,
    DEPLOYMENT_ENVIRONMENT_NAME, OS_TYPE, PROCESS_COMMAND_ARGS, PROCESS_EXECUTABLE_NAME,
    PROCESS_PID, SERVICE_INSTANCE_ID, SERVICE_NAME, SERVICE_NAMESPACE, SERVICE_VERSION,
    TELEMETRY_SDK_LANGUAGE, TELEMETRY_SDK_NAME, TELEMETRY_SDK_VERSION,
};
use otlp_logger::{Attribute, AttributeValue, ProcessInfo, OtlpConfig};

fn process() -> ProcessInfo {
    ProcessInfo {
        os_type: "linux".to_string(),
        command_args: vec!["app".to_string(), "--verbose".to_string()],
        pid: 4242,
        executable: Some("/usr/bin/app".to_string()),
        log_directives: String::new(),
    }
}

fn text(key: &str, value: &str) -> Attribute {
    Attribute { key: key.to_string(), value: AttributeValue::Text(value.to_string()) }
}

#[test]
fn keys_are_those_of_the_semantic_conventions() {
    assert_eq!(SERVICE_NAME, opentelemetry_semantic_conventions::resource::SERVICE_NAME);
    assert_eq!(SERVICE_NAMESPACE, opentelemetry_semantic_conventions::resource::SERVICE_NAMESPACE);
    assert_eq!(SERVICE_VERSION, opentelemetry_semantic_conventions::resource::SERVICE_VERSION);
    assert_eq!(
        SERVICE_INSTANCE_ID,
        opentelemetry_semantic_conventions::resource::SERVICE_INSTANCE_ID
    );
    assert_eq!(
        DEPLOYMENT_ENVIRONMENT_NAME,
        opentelemetry_semantic_conventions::resource::DEPLOYMENT_ENVIRONMENT_NAME
    );
    assert_eq!(OS_TYPE, opentelemetry_semantic_conventions::resource::OS_TYPE);
    assert_eq!(
        PROCESS_COMMAND_ARGS,
        opentelemetry_semantic_conventions::resource::PROCESS_COMMAND_ARGS
    );
    assert_eq!(PROCESS_PID, opentelemetry_semantic_conventions::resource::PROCESS_PID);
    assert_eq!(
        PROCESS_EXECUTABLE_NAME,
        opentelemetry_semantic_conventions::resource::PROCESS_EXECUTABLE_NAME
    );
}

#[test]
fn os_detector_gives_the_os_type() {
    assert_eq!(detect_os("linux"), vec![text("os.type", "linux")]);
    assert_eq!(detect_os(""), vec![text("os.type", "")]);
}

#[test]
fn process_detector_gives_args_pid_and_executable() {
    let attributes = detect_process(&process());
    assert_eq!(
        attributes,
        vec![
            Attribute {
                key: "process.command_args".to_string(),
                value: AttributeValue::TextList(vec!["app".to_string(), "--verbose".to_string()]),
            },
            Attribute { key: "process.pid".to_string(), value: AttributeValue::Integer(4242) },
            text("process.executable.name", "/usr/bin/app"),
        ]
    );
}

#[test]
fn process_detector_reports_an_unknown_executable_as_empty() {
    let mut unknown = process();
    unknown.executable = None;
    let attributes = detect_process(&unknown);
    assert_eq!(attributes.len(), 3);
    assert_eq!(attributes[2], text("process.executable.name", ""));
}

#[test]
fn process_detector_takes_the_largest_pid_and_no_arguments() {
    let bare = ProcessInfo {
        os_type: "linux".to_string(),
        command_args: Vec::new(),
        pid: u32::MAX,
        executable: None,
        log_directives: String::new(),
    };
    let attributes = detect_process(&bare);
    assert_eq!(attributes[0].value, AttributeValue::TextList(Vec::new()));
    assert_eq!(attributes[1].value, AttributeValue::Integer(4294967295));
}

#[test]
fn explicit_attributes_of_an_empty_configuration_are_none() {
    assert_eq!(explicit_attributes(&OtlpConfig::default()), Vec::new());
}

#[test]
fn explicit_attributes_follow_the_fields_that_are_set() {
    let config = OtlpConfig::builder()
        .deployment_environment("prod".to_string())
        .service_name("svc-a".to_string())
        .service_version("1.0".to_string())
        .build()
        .unwrap();
    assert_eq!(
        explicit_attributes(&config),
        vec![
            text("service.name", "svc-a"),
            text("service.version", "1.0"),
            text("deployment.environment.name", "prod"),
        ]
    );
}

#[test]
fn explicit_attributes_of_a_full_configuration() {
    let config = OtlpConfig::builder()
        .service_name("n".to_string())
        .service_namespace("ns".to_string())
        .service_version("v".to_string())
        .service_instant_id("i".to_string())
        .deployment_environment("e".to_string())
        .otlp_endpoint("http://localhost:4317".to_string())
        .build()
        .unwrap();
    assert_eq!(
        explicit_attributes(&config),
        vec![
            text("service.name", "n"),
            text("service.namespace", "ns"),
            text("service.version", "v"),
            text("service.instance.id", "i"),
            text("deployment.environment.name", "e"),
        ]
    );
}

#[test]
fn collected_attributes_are_os_then_process_then_explicit() {
    let config = OtlpConfig::builder().service_name("svc-a".to_string()).build().unwrap();
    let attributes = collect_attributes(&config, &process());
    let keys: Vec<&str> = attributes.iter().map(|a| a.key.as_str()).collect();
    assert_eq!(
        keys,
        vec![
            "os.type",
            "process.command_args",
            "process.pid",
            "process.executable.name",
            "service.name",
        ]
    );
}

#[test]
fn resource_holds_the_detected_attributes() {
    let resource = otel_resource(&OtlpConfig::default(), &process());
    assert_eq!(resource.get(&Key::new("os.type")), Some(Value::from("linux")));
    assert_eq!(resource.get(&Key::new("process.pid")), Some(Value::I64(4242)));
    assert_eq!(
        resource.get(&Key::new("process.executable.name")),
        Some(Value::from("/usr/bin/app"))
    );
    assert_eq!(
        resource.get(&Key::new("process.command_args")),
        Some(Value::Array(Array::String(vec![
            StringValue::from("app"),
            StringValue::from("--verbose"),
        ])))
    );
}

#[test]
fn resource_holds_the_explicit_attributes() {
    let config = OtlpConfig::builder()
        .service_name("svc-a".to_string())
        .service_namespace("team".to_string())
        .service_version("2.1.0".to_string())
        .service_instant_id("node-7".to_string())
        .deployment_environment("staging".to_string())
        .build()
        .unwrap();
    let resource = otel_resource(&config, &process());
    assert_eq!(resource.get(&Key::new("service.name")), Some(Value::from("svc-a")));
    assert_eq!(resource.get(&Key::new("service.namespace")), Some(Value::from("team")));
    assert_eq!(resource.get(&Key::new("service.version")), Some(Value::from("2.1.0")));
    assert_eq!(resource.get(&Key::new("service.instance.id")), Some(Value::from("node-7")));
    assert_eq!(
        resource.get(&Key::new("deployment.environment.name")),
        Some(Value::from("staging"))
    );
}

#[test]
fn explicit_service_name_wins_over_the_detected_default() {
    let detected = otel_resource(&OtlpConfig::default(), &process());
    assert!(detected.get(&Key::new("service.name")).is_some());
    let config = OtlpConfig::builder().service_name("svc-a".to_string()).build().unwrap();
    let explicit = otel_resource(&config, &process());
    assert_eq!(explicit.get(&Key::new("service.name")), Some(Value::from("svc-a")));
}

#[test]
fn resource_keeps_what_the_sdk_detects() {
    let resource = otel_resource(&OtlpConfig::default(), &process());
    assert_eq!(resource.get(&Key::new(TELEMETRY_SDK_LANGUAGE)), Some(Value::from("rust")));
    assert!(resource.get(&Key::new(TELEMETRY_SDK_NAME)).is_some());
    assert!(resource.get(&Key::new(TELEMETRY_SDK_VERSION)).is_some());
    assert!(resource.get(&Key::new(SERVICE_NAME)).is_some());
    assert_eq!(
        TELEMETRY_SDK_NAME,
        opentelemetry_semantic_conventions::resource::TELEMETRY_SDK_NAME
    );
    assert_eq!(
        TELEMETRY_SDK_LANGUAGE,
        opentelemetry_semantic_conventions::resource::TELEMETRY_SDK_LANGUAGE
    );
    assert_eq!(
        TELEMETRY_SDK_VERSION,
        opentelemetry_semantic_conventions::resource::TELEMETRY_SDK_VERSION
    );
    assert!(resource.get(&Key::new("service.namespace")).is_none());
}

#[test]
fn unset_fields_leave_their_attributes_out() {
    let config = OtlpConfig::builder().service_version("1".to_string()).build().unwrap();
    let resource = otel_resource(&config, &process());
    assert_eq!(resource.get(&Key::new("service.version")), Some(Value::from("1")));
    assert_eq!(resource.get(&Key::new("service.instance.id")), None);
    assert_eq!(resource.get(&Key::new("deployment.environment.name")), None);
}
