//! Telemetry bootstrap: one set-up call wires tracing, metrics and logs to an
//! OTLP collector (or to the console alone), one shutdown call releases them.
//!
//! A configuration with an endpoint selects the remote mode: a resource that
//! describes the process, one batching provider per signal, a filter per sink,
//! and one dispatch fabric over the console and the three providers. Without an
//! endpoint the fabric is the console alone. The logger that comes back owns the
//! providers; shutting it down flushes and releases each of them and reports
//! those that failed.
//!
//! The library reads no environment variable and no argument list itself: what
//! it needs of the process it takes as plain values (`EnvDefaults`,
//! `ProcessInfo`). It starts no runtime either: the remote mode needs one
//! running on the calling thread, and says so where there is none.

pub mod compose;
pub mod config;
pub mod error;
pub mod filter;
pub mod level;
pub mod logger;
pub mod logs;
pub mod metrics;
pub mod resource;
pub mod runtime;
pub mod shutdown;
pub mod trace;

pub use config::{ConfigurationError, EnvDefaults, OtlpConfig, OtlpConfigBuilder};
pub use error::{ExportSetupError, InitFailure, Signal, TryInitError};
pub use filter::{FilterPlan, FilterSource};
pub use level::LevelFilter;
pub use logger::{
    init, init_with_config, EndpointLogger, Lifecycle, OtlpLogger, StdoutOnlyLogger,
};
pub use resource::{Attribute, AttributeValue, ProcessInfo};
pub use shutdown::{FlushError, FlushOutcome, ProviderFailure};
