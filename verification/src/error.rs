//! What can go wrong while the pipelines are set up.

use vstd::prelude::*;
use vstd::string::StringExecFns;
use opentelemetry::trace::TraceError;
use opentelemetry_sdk::logs::LogError;
use opentelemetry_sdk::metrics::MetricError;

verus! {

/// One of the three kinds of telemetry.
#[derive(Debug, Clone, Copy, PartialEq, Eq, Structural, Hash)]
pub enum Signal {
    Trace,
    Metrics,
    Logs,
}

/// The exporter crate's reason for not building a span exporter.
#[verifier::external_type_specification]
#[verifier::external_body]
pub struct ExTraceError(TraceError);

/// The exporter crate's reason for not building a metric exporter.
#[verifier::external_type_specification]
#[verifier::external_body]
pub struct ExMetricError(MetricError);

/// The exporter crate's reason for not building a log exporter.
#[verifier::external_type_specification]
#[verifier::external_body]
pub struct ExLogError(LogError);

/// Why the provider of one signal could not be built.
#[derive(Debug)]
pub enum ExportSetupError {
    /// No asynchronous runtime is running on the calling thread, and the
    /// exporter of this signal needs one for its transport.
    NoRuntime(Signal),
    /// The span exporter could not be built.
    Trace(TraceError),
    /// The metric exporter could not be built.
    Metrics(MetricError),
    /// The log exporter could not be built.
    Logs(LogError),
}

impl ExportSetupError {
    /// The signal whose provider could not be built.
    pub open spec fn spec_signal(&self) -> Signal {
        match *self {
            ExportSetupError::NoRuntime(signal) => signal,
            ExportSetupError::Trace(_) => Signal::Trace,
            ExportSetupError::Metrics(_) => Signal::Metrics,
            ExportSetupError::Logs(_) => Signal::Logs,
        }
    }

    /// The signal whose provider could not be built.
    #[verifier::when_used_as_spec(spec_signal)]
    pub fn signal(&self) -> (signal: Signal)
        ensures
            signal == self.spec_signal(),
    {
        match self {
            ExportSetupError::NoRuntime(signal) => *signal,
            ExportSetupError::Trace(_) => Signal::Trace,
            ExportSetupError::Metrics(_) => Signal::Metrics,
            ExportSetupError::Logs(_) => Signal::Logs,
        }
    }
}

/// Why an initialization failed.
#[derive(Debug)]
pub enum InitFailure {
    /// The remote mode was asked for without an endpoint.
    EndpointNotSet,
    /// The provider of one signal could not be built. No pipeline was installed.
    ExportSetup(ExportSetupError),
    /// A dispatch fabric is installed in this process already. The text is the
    /// subscriber crate's own account of it.
    RegistryAlreadyInitialized(String),
}

/// What is said of a failure to set up the remote mode.
pub const ENDPOINT_LOGGER_FAILED: &'static str = "Failed to initialize OTLP Endpoint Logger";

/// What is said of a failure to set up the console-only mode.
pub const STDOUT_LOGGER_FAILED: &'static str = "Failed to initialize Stdout Only Logger";

/// What every rendered initialization error starts with.
pub const ERROR_PREFIX: &'static str = "Error initializing OtlpLogger: ";

/// An initialization that failed: which step, and why.
#[derive(Debug)]
pub struct TryInitError {
    pub msg: String,
    pub source: InitFailure,
}

impl TryInitError {
    /// The error for the step described by `msg`, which failed because of `source`.
    pub fn new(msg: &str, source: InitFailure) -> (error: TryInitError)
        ensures
            error.msg@ == msg@,
            error.source == source,
    {
        TryInitError { msg: msg.to_string(), source }
    }

    /// The error as one line: the fixed prefix, then the step that failed.
    pub fn to_string(&self) -> (text: String)
        ensures
            text@ == ERROR_PREFIX@ + self.msg@,
    {
        ERROR_PREFIX.to_string().concat(self.msg.as_str())
    }
}

} // verus!
