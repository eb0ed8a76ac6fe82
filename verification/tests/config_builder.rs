use otlp_logger::{LevelFilter, OtlpConfig, OtlpConfigBuilder};

#[test]
fn test_config_builder_all() {
    let config = OtlpConfig::builder()
        .service_name("test-service".to_string())
        .service_namespace("test-namespace".to_string())
        .service_version("test-version".to_string())
        .service_instant_id("test-instant-id".to_string())
        .deployment_environment("test-environment".to_string())
        .otlp_endpoint(Some("http://localhost:4317".to_string()))
        .trace_level(LevelFilter::DEBUG)
        .stdout_level(LevelFilter::WARN)
        .build()
        .unwrap();

    assert_eq!(*config.service_name(), Some("test-service".to_string()));
    assert_eq!(*config.service_namespace(), Some("test-namespace".to_string()));
    assert_eq!(*config.service_version(), Some("test-version".to_string()));
    assert_eq!(*config.service_instant_id(), Some("test-instant-id".to_string()));
    assert_eq!(*config.deployment_environment(), Some("test-environment".to_string()));
    assert_eq!(*config.otlp_endpoint(), Some("http://localhost:4317".to_string()));
    assert_eq!(config.trace_level(), Some(LevelFilter::DEBUG));
    assert_eq!(config.stdout_level(), Some(LevelFilter::WARN));
}

#[test]
fn test_config_builder_some() {
    let config = OtlpConfig::builder()
        .otlp_endpoint("http://localhost:4317".to_string())
        .trace_level(LevelFilter::INFO)
        .stdout_level(LevelFilter::ERROR)
        .build()
        .expect("failed to configure otlp-logger");

    assert_eq!(*config.service_name(), None);
    assert_eq!(*config.service_namespace(), None);
    assert_eq!(*config.service_version(), None);
    assert_eq!(*config.service_instant_id(), None);
    assert_eq!(*config.deployment_environment(), None);
    assert_eq!(*config.otlp_endpoint(), Some("http://localhost:4317".to_string()));
    assert_eq!(config.trace_level(), Some(LevelFilter::INFO));
    assert_eq!(config.stdout_level(), Some(LevelFilter::ERROR));
}

#[test]
fn test_config_builder_none() {
    let config = OtlpConfig::builder().build().unwrap();

    assert_eq!(*config.service_name(), None);
    assert_eq!(*config.service_namespace(), None);
    assert_eq!(*config.service_version(), None);
    assert_eq!(*config.service_instant_id(), None);
    assert_eq!(*config.deployment_environment(), None);
    assert_eq!(*config.otlp_endpoint(), None);
    assert_eq!(config.trace_level(), None);
    assert_eq!(config.stdout_level(), None);
}

#[test]
fn builder_default_is_unset_in_every_field() {
    let config = OtlpConfigBuilder::default().build().unwrap();
    assert_eq!(*config.service_name(), None);
    assert_eq!(*config.otlp_endpoint(), None);
    assert_eq!(config.trace_level(), None);
    assert_eq!(config.metrics_level(), None);
    assert_eq!(config.log_level(), None);
    assert_eq!(config.stdout_level(), None);
}

#[test]
fn builder_accepts_fields_in_any_order() {
    let first = OtlpConfig::builder()
        .log_level(LevelFilter::ERROR)
        .service_name("svc".to_string())
        .metrics_level(LevelFilter::TRACE)
        .build()
        .unwrap();
    let second = OtlpConfig::builder()
        .metrics_level(LevelFilter::TRACE)
        .service_name("svc".to_string())
        .log_level(LevelFilter::ERROR)
        .build()
        .unwrap();
    assert_eq!(first.service_name(), second.service_name());
    assert_eq!(first.log_level(), Some(LevelFilter::ERROR));
    assert_eq!(second.log_level(), Some(LevelFilter::ERROR));
    assert_eq!(first.metrics_level(), Some(LevelFilter::TRACE));
    assert_eq!(second.metrics_level(), Some(LevelFilter::TRACE));
    assert_eq!(first.trace_level(), None);
}

#[test]
fn builder_setter_replaces_an_earlier_value() {
    let config = OtlpConfig::builder()
        .service_name("first".to_string())
        .service_name("second".to_string())
        .stdout_level(LevelFilter::OFF)
        .stdout_level(None)
        .build()
        .unwrap();
    assert_eq!(*config.service_name(), Some("second".to_string()));
    assert_eq!(config.stdout_level(), None);
}

#[test]
fn builder_can_be_reused_after_build() {
    let mut builder = OtlpConfigBuilder::default();
    builder.service_version("1.2.3".to_string());
    let first = builder.build().unwrap();
    builder.service_version("1.2.4".to_string());
    let second = builder.build().unwrap();
    assert_eq!(*first.service_version(), Some("1.2.3".to_string()));
    assert_eq!(*second.service_version(), Some("1.2.4".to_string()));
}

#[test]
fn config_default_is_unset_in_every_field() {
    let config = OtlpConfig::default();
    assert_eq!(*config.service_name(), None);
    assert_eq!(*config.service_namespace(), None);
    assert_eq!(*config.service_version(), None);
    assert_eq!(*config.service_instant_id(), None);
    assert_eq!(*config.deployment_environment(), None);
    assert_eq!(*config.otlp_endpoint(), None);
    assert_eq!(config.trace_level(), None);
    assert_eq!(config.metrics_level(), None);
    assert_eq!(config.log_level(), None);
    assert_eq!(config.stdout_level(), None);
}
