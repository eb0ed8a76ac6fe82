use otlp_logger::{FilterSource, InitFailure, LevelFilter, StdoutOnlyLogger};

#[test]
fn the_console_logger_installs_one_fabric() {
    assert!(!tracing::dispatcher::has_been_set());
    let logger = StdoutOnlyLogger::init(FilterSource::Directives("info".to_string()))
        .expect("the console can be set up");
    assert_eq!(*logger.console(), FilterSource::Directives("info".to_string()));
    assert!(tracing::dispatcher::has_been_set());
    assert!(matches!(
        StdoutOnlyLogger::init(FilterSource::Level(LevelFilter::WARN)),
        Err(InitFailure::RegistryAlreadyInitialized(_))
    ));
}
