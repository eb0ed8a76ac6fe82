use otlp_logger::logger::OtlpLogger as Logger;
use otlp_logger::{init, EnvDefaults, FilterSource, OtlpLogger, ProcessInfo};

#[test]
fn an_environment_without_endpoint_selects_the_console() {
    let process = ProcessInfo {
        os_type: "linux".to_string(),
        command_args: Vec::new(),
        pid: 1,
        executable: None,
        log_directives: "warn,app=debug".to_string(),
    };
    let mut env = EnvDefaults::empty();
    env.service_name = Some("svc-a".to_string());
    let mut logger = init(env, &process).expect("the console can be set up");
    match &logger {
        OtlpLogger::StdoutOnly(console) => {
            assert_eq!(*console.console(), FilterSource::Directives("warn,app=debug".to_string()))
        }
        OtlpLogger::WithEndpoint(_) => panic!("the environment held no endpoint"),
    }
    assert_eq!(logger.shutdown(), Vec::new());
    assert!(Logger::try_init(EnvDefaults::empty(), &process).is_err());
}
