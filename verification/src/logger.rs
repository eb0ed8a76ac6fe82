//! The logger: what an initialization hands back, and what is shut down at the end.

use vstd::prelude::*;
use opentelemetry_sdk::logs::SdkLoggerProvider;
use opentelemetry_sdk::metrics::SdkMeterProvider;
use opentelemetry_sdk::resource::Resource;
use opentelemetry_sdk::trace::SdkTracerProvider;
use crate::compose::{compose_console, compose_remote};
use crate::config::{ConfigView, EnvDefaults, OtlpConfig};
use crate::error::{InitFailure, TryInitError, ENDPOINT_LOGGER_FAILED, STDOUT_LOGGER_FAILED};
use crate::filter::{FilterPlan, FilterSource};
use crate::logs::{otel_logs, shutdown_logger_provider};
use crate::metrics::{otel_metrics, shutdown_meter_provider};
use crate::resource::{
    detected_fields_hold, explicit_fields_hold, holds_all, otel_resource, resolved_attributes,
    resource_entries, sdk_attributes_present, ProcessInfo, ProcessView,
};
use crate::shutdown::{aggregate, collect_failures, flush_outcome, FlushOutcome, ProviderFailure};
use crate::trace::{otel_tracer, shutdown_tracer_provider};

verus! {

/// Where a logger stands between its set-up and its end.
#[derive(Debug, Clone, Copy, PartialEq, Eq, Structural)]
pub enum Lifecycle {
    /// The providers are live.
    Active,
    /// A shutdown has begun and has not come to its end. A logger is seen in this
    /// state only where a shutdown was cut short.
    ShuttingDown,
    /// The providers have been flushed and released. This state is final.
    ShutDown,
}

/// The logger of the remote mode. It owns the three providers, and keeps what
/// they were set up with: the resource they share and the plan of the filters.
#[derive(Debug)]
pub struct EndpointLogger {
    tracer_provider: SdkTracerProvider,
    logger_provider: SdkLoggerProvider,
    meter_provider: SdkMeterProvider,
    resource: Resource,
    filters: FilterPlan,
    state: Lifecycle,
}

/// The outcomes of shutting down the three providers.
struct FlushOutcomes {
    tracer: FlushOutcome,
    logger: FlushOutcome,
    meter: FlushOutcome,
}

impl EndpointLogger {
    /// Where this logger stands.
    pub closed spec fn spec_state(&self) -> Lifecycle {
        self.state
    }

    /// Where this logger stands.
    #[verifier::when_used_as_spec(spec_state)]
    pub fn state(&self) -> (state: Lifecycle)
        ensures
            state == self.spec_state(),
    {
        self.state
    }

    /// The resource that the three providers share.
    pub closed spec fn shared_resource(&self) -> Resource {
        self.resource
    }

    /// The resource that the three providers share.
    pub fn resource(&self) -> (resource: &Resource)
        ensures
            *resource == self.shared_resource(),
    {
        &self.resource
    }

    /// Where the filter of each sink comes from.
    pub closed spec fn filter_plan(&self) -> FilterPlan {
        self.filters
    }

    /// Where the filter of each sink comes from.
    pub fn filters(&self) -> (filters: &FilterPlan)
        ensures
            *filters == self.filter_plan(),
    {
        &self.filters
    }

    /// Whether this logger has been shut down.
    pub open spec fn spec_is_shut_down(&self) -> bool {
        self.state() == Lifecycle::ShutDown
    }

    /// Whether this logger has been shut down.
    #[verifier::when_used_as_spec(spec_is_shut_down)]
    pub fn is_shut_down(&self) -> (r: bool)
        ensures
            r == self.spec_is_shut_down(),
    {
        self.state == Lifecycle::ShutDown
    }

    /// Whether this logger is an active one that was set up as `config` and
    /// `process` ask: its filters are those that the configuration plans, and its
    /// resource holds every attribute that the library resolves from the two,
    /// the caller's own service identity above all.
    pub open spec fn set_up_from(&self, config: ConfigView, process: ProcessView) -> bool {
        &&& self.state() == Lifecycle::Active
        &&& self.filter_plan()@ == FilterPlan::of(config, process.log_directives)
        &&& holds_all(self.shared_resource(), resolved_attributes(config, process))
        &&& explicit_fields_hold(resource_entries(self.shared_resource()), config)
        &&& detected_fields_hold(resource_entries(self.shared_resource()), process)
        &&& sdk_attributes_present(resource_entries(self.shared_resource()))
    }

    /// Sets up the remote mode: the resource, the three providers on the
    /// configured endpoint, the four filters, and the fabric that joins them.
    ///
    /// Without an endpoint it fails at once. A provider that cannot be built, or
    /// a fabric that is installed already, ends the whole initialization: there
    /// is no partial pipeline.
    pub fn init(config: OtlpConfig, process: &ProcessInfo) -> (r: Result<EndpointLogger, InitFailure>)
        ensures
            config@.otlp_endpoint is None <==> r matches Err(InitFailure::EndpointNotSet),
            r matches Ok(logger) ==> logger.set_up_from(config@, process@),
            r matches Err(e) ==> e is EndpointNotSet || e is ExportSetup
                || e is RegistryAlreadyInitialized,
    {
        let endpoint = match config.otlp_endpoint() {
            Some(endpoint) => endpoint.as_str(),
            None => {
                return Err(InitFailure::EndpointNotSet);
            },
        };
        let resource = otel_resource(&config, process);
        let logger_provider = match otel_logs(endpoint, resource.clone()) {
            Ok(provider) => provider,
            Err(e) => {
                return Err(InitFailure::ExportSetup(e));
            },
        };
        let tracer_provider = match otel_tracer(endpoint, resource.clone()) {
            Ok(provider) => provider,
            Err(e) => {
                return Err(InitFailure::ExportSetup(e));
            },
        };
        let meter_provider = match otel_metrics(endpoint, resource.clone()) {
            Ok(provider) => provider,
            Err(e) => {
                return Err(InitFailure::ExportSetup(e));
            },
        };
        let plan = FilterPlan::from_config(&config, process.log_directives.as_str());
        match compose_remote(&plan, &tracer_provider, &meter_provider, &logger_provider) {
            Ok(()) => Ok(
                EndpointLogger {
                    tracer_provider,
                    logger_provider,
                    meter_provider,
                    resource,
                    filters: plan,
                    state: Lifecycle::Active,
                },
            ),
            Err(e) => Err(e),
        }
    }

    /// Shuts down each of the three providers, whatever became of the one before,
    /// and takes this logger through to its final state.
    fn release(&mut self) -> (outcomes: FlushOutcomes)
        ensures
            final(self).state() == Lifecycle::ShutDown,
            final(self).shared_resource() == old(self).shared_resource(),
            final(self).filter_plan() == old(self).filter_plan(),
        opens_invariants none
        no_unwind
    {
        self.state = Lifecycle::ShuttingDown;
        let tracer = flush_outcome(shutdown_tracer_provider(&self.tracer_provider));
        let logger = flush_outcome(shutdown_logger_provider(&self.logger_provider));
        let meter = flush_outcome(shutdown_meter_provider(&self.meter_provider));
        self.state = Lifecycle::ShutDown;
        FlushOutcomes { tracer, logger, meter }
    }

    /// Flushes and releases the three providers, and reports those that failed.
    ///
    /// On an active logger each provider gets its turn whatever became of the
    /// others, and the report is the aggregate of the three outcomes: a failure
    /// is in it, a provider that had been shut down elsewhere is not. On a logger
    /// that is shut down already this does nothing and reports nothing. Either
    /// way the logger is shut down afterwards.
    pub fn shutdown(&mut self) -> (failures: Vec<ProviderFailure>)
        ensures
            final(self).state() == Lifecycle::ShutDown,
            final(self).shared_resource() == old(self).shared_resource(),
            final(self).filter_plan() == old(self).filter_plan(),
            old(self).state() == Lifecycle::ShutDown ==> *final(self) == *old(self),
            old(self).state() != Lifecycle::Active ==> failures@ == Seq::<ProviderFailure>::empty(),
            exists|tracer: FlushOutcome, logger: FlushOutcome, meter: FlushOutcome|
                failures@ == #[trigger] aggregate(tracer, logger, meter),
    {
        match self.state {
            Lifecycle::Active => {
                let outcomes = self.release();
                collect_failures(outcomes.tracer, outcomes.logger, outcomes.meter)
            },
            Lifecycle::ShuttingDown | Lifecycle::ShutDown => {
                self.state = Lifecycle::ShutDown;
                proof {
                    crate::shutdown::lemma_nothing_to_report(
                        FlushOutcome::Flushed,
                        FlushOutcome::Flushed,
                        FlushOutcome::Flushed,
                    );
                }
                Vec::new()
            },
        }
    }
}

/// The logger of the console-only mode. It owns nothing that needs a release,
/// and keeps where the filter of its console comes from.
#[derive(Debug)]
pub struct StdoutOnlyLogger {
    console: FilterSource,
}

impl StdoutOnlyLogger {
    /// Where the filter of the console comes from.
    pub closed spec fn console_source(&self) -> FilterSource {
        self.console
    }

    /// Where the filter of the console comes from.
    pub fn console(&self) -> (console: &FilterSource)
        ensures
            *console == self.console_source(),
    {
        &self.console
    }

    /// Sets up the console-only mode: the console, filtered as `console` says,
    /// as the whole fabric. It fails where the fabric cannot be installed, as
    /// where this process has one already.
    pub fn init(console: FilterSource) -> (r: Result<StdoutOnlyLogger, InitFailure>)
        ensures
            r matches Ok(logger) ==> logger.console_source() == console,
            r matches Err(e) ==> e is RegistryAlreadyInitialized,
    {
        match compose_console(&console) {
            Ok(()) => Ok(StdoutOnlyLogger { console }),
            Err(e) => Err(e),
        }
    }
}

/// What an initialization hands back: the logger of the mode that the
/// configuration selected.
#[derive(Debug)]
pub enum OtlpLogger {
    WithEndpoint(EndpointLogger),
    StdoutOnly(StdoutOnlyLogger),
}

impl OtlpLogger {
    /// The resource and the plan of the filters that a logger of the remote mode
    /// was set up with.
    pub open spec fn set_up(&self) -> Option<(Resource, FilterPlan)> {
        match *self {
            OtlpLogger::WithEndpoint(logger) => Some(
                (logger.shared_resource(), logger.filter_plan()),
            ),
            OtlpLogger::StdoutOnly(_) => None,
        }
    }

    /// Where the filter of the console comes from, in either mode.
    pub open spec fn console_source(&self) -> FilterSource {
        match *self {
            OtlpLogger::WithEndpoint(logger) => logger.filter_plan().console,
            OtlpLogger::StdoutOnly(logger) => logger.console_source(),
        }
    }

    /// Whether this logger is what `config` and `process` ask for: of the remote
    /// mode exactly where the configuration holds an endpoint, and then an
    /// active logger set up from the two; and in either mode with the console
    /// filtered by its own level, else by that of the log sink, else by the
    /// directives of the environment.
    pub open spec fn set_up_from(&self, config: ConfigView, process: ProcessView) -> bool {
        &&& *self is WithEndpoint <==> config.is_remote()
        &&& *self matches OtlpLogger::WithEndpoint(logger) ==> logger.set_up_from(config, process)
        &&& self.console_source()@ == FilterPlan::of(config, process.log_directives).console
    }

    /// Whether nothing is left to release: always so in the console-only mode,
    /// and in the remote mode once the logger has been shut down.
    pub open spec fn released(&self) -> bool {
        match *self {
            OtlpLogger::WithEndpoint(logger) => logger.is_shut_down(),
            OtlpLogger::StdoutOnly(_) => true,
        }
    }

    /// Sets up the mode that `config` selects: the remote mode where it holds an
    /// endpoint, the console-only mode where it holds none. What the
    /// configuration leaves unset of the service's identity stays unset; a sink
    /// that it gives no level is filtered by the directives that `process` holds.
    pub fn init_with_config(config: OtlpConfig, process: &ProcessInfo) -> (r: Result<
        OtlpLogger,
        TryInitError,
    >)
        ensures
            r matches Ok(logger) ==> logger.set_up_from(config@, process@),
            r matches Err(e) ==> init_error_fits(config@, e),
    {
        if config.otlp_endpoint().is_some() {
            match EndpointLogger::init(config, process) {
                Ok(logger) => Ok(OtlpLogger::WithEndpoint(logger)),
                Err(source) => Err(TryInitError::new(ENDPOINT_LOGGER_FAILED, source)),
            }
        } else {
            let plan = FilterPlan::from_config(&config, process.log_directives.as_str());
            match StdoutOnlyLogger::init(plan.console) {
                Ok(logger) => Ok(OtlpLogger::StdoutOnly(logger)),
                Err(source) => Err(TryInitError::new(STDOUT_LOGGER_FAILED, source)),
            }
        }
    }

    /// Sets up the mode that the environment selects: `env` holds what the caller
    /// found there, and stands in for a configuration in which nothing else is set.
    pub fn try_init(env: EnvDefaults, process: &ProcessInfo) -> (r: Result<OtlpLogger, TryInitError>)
        ensures
            r matches Ok(logger) ==> logger.set_up_from(ConfigView::unset().or_env(env@), process@),
            r matches Err(e) ==> init_error_fits(ConfigView::unset().or_env(env@), e),
    {
        let config = OtlpConfig::default().with_env_defaults(env);
        OtlpLogger::init_with_config(config, process)
    }

    /// Flushes and releases what this logger owns, and reports the providers that
    /// failed. In the console-only mode, and on a logger that is shut down
    /// already, it does nothing and reports nothing: a second call is a no-op.
    /// The mode, and what the logger was set up with, stay as they were.
    pub fn shutdown(&mut self) -> (failures: Vec<ProviderFailure>)
        ensures
            final(self).released(),
            old(self).released() ==> failures@ == Seq::<ProviderFailure>::empty() && *final(self)
                == *old(self),
            final(self).set_up() == old(self).set_up(),
            exists|tracer: FlushOutcome, logger: FlushOutcome, meter: FlushOutcome|
                failures@ == #[trigger] aggregate(tracer, logger, meter),
    {
        match self {
            OtlpLogger::WithEndpoint(logger) => logger.shutdown(),
            OtlpLogger::StdoutOnly(_) => {
                proof {
                    crate::shutdown::lemma_nothing_to_report(
                        FlushOutcome::Flushed,
                        FlushOutcome::Flushed,
                        FlushOutcome::Flushed,
                    );
                }
                Vec::new()
            },
        }
    }
}

/// What the error of a failed initialization says, given the configuration: the
/// step named is that of the mode the configuration selected, and the cause is
/// one that this mode can have.
pub open spec fn init_error_fits(config: ConfigView, error: TryInitError) -> bool {
    if config.is_remote() {
        &&& error.msg@ == ENDPOINT_LOGGER_FAILED@
        &&& error.source is ExportSetup || error.source is RegistryAlreadyInitialized
    } else {
        &&& error.msg@ == STDOUT_LOGGER_FAILED@
        &&& error.source is RegistryAlreadyInitialized
    }
}

impl Drop for OtlpLogger {
    /// An active logger that goes out of scope is shut down here. Nobody is there
    /// to take the report, so none is made.
    fn drop(&mut self)
        opens_invariants none
        no_unwind
    {
        match self {
            OtlpLogger::WithEndpoint(logger) => {
                if logger.state == Lifecycle::Active {
                    let _ = logger.release();
                }
            },
            OtlpLogger::StdoutOnly(_) => {},
        }
    }
}

/// Sets up the mode that the environment selects. See `OtlpLogger::try_init`.
pub fn init(env: EnvDefaults, process: &ProcessInfo) -> (r: Result<OtlpLogger, TryInitError>)
    ensures
        r matches Ok(logger) ==> logger.set_up_from(ConfigView::unset().or_env(env@), process@),
        r matches Err(e) ==> init_error_fits(ConfigView::unset().or_env(env@), e),
{
    OtlpLogger::try_init(env, process)
}

/// Sets up the mode that `config` selects. See `OtlpLogger::init_with_config`.
pub fn init_with_config(config: OtlpConfig, process: &ProcessInfo) -> (r: Result<OtlpLogger, TryInitError>)
    ensures
        r matches Ok(logger) ==> logger.set_up_from(config@, process@),
        r matches Err(e) ==> init_error_fits(config@, e),
{
    OtlpLogger::init_with_config(config, process)
}

} // verus!
