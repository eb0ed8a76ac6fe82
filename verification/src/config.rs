//! The configuration record, its builder, and the defaults taken from the environment.
//!
//! A configuration is ten optional fields. Nothing is checked when one is built:
//! the only rule, applied later, is that an endpoint selects the remote mode and
//! its absence the console-only mode.

use vstd::prelude::*;
use crate::level::LevelFilter;

verus! {

/// `Option::from` on a bare value wraps it in `Some`.
pub assume_specification<T>[ <Option<T> as From<T>>::from ](value: T) -> (r: Option<T>)
    ensures
        r == Some(value),
;

/// The characters of an optional string.
pub open spec fn text_of(value: Option<String>) -> Option<Seq<char>> {
    match value {
        Some(s) => Some(s@),
        None => None,
    }
}

/// `first` if it is set, else `second`.
pub open spec fn first_set<T>(first: Option<T>, second: Option<T>) -> Option<T> {
    if first is Some {
        first
    } else {
        second
    }
}

/// The mathematical content of a configuration (and of a builder on its way to one).
pub struct ConfigView {
    pub service_name: Option<Seq<char>>,
    pub service_namespace: Option<Seq<char>>,
    pub service_version: Option<Seq<char>>,
    pub service_instant_id: Option<Seq<char>>,
    pub deployment_environment: Option<Seq<char>>,
    pub otlp_endpoint: Option<Seq<char>>,
    pub trace_level: Option<LevelFilter>,
    pub metrics_level: Option<LevelFilter>,
    pub log_level: Option<LevelFilter>,
    pub stdout_level: Option<LevelFilter>,
}

impl ConfigView {
    /// The configuration in which nothing is set.
    pub open spec fn unset() -> ConfigView {
        ConfigView {
            service_name: None,
            service_namespace: None,
            service_version: None,
            service_instant_id: None,
            deployment_environment: None,
            otlp_endpoint: None,
            trace_level: None,
            metrics_level: None,
            log_level: None,
            stdout_level: None,
        }
    }

    /// This configuration, with each unset text field taken from `env`.
    /// A level has no default of this kind: a sink without a level is filtered by
    /// the directives that the environment holds.
    pub open spec fn or_env(self, env: EnvView) -> ConfigView {
        ConfigView {
            service_name: first_set(self.service_name, env.service_name),
            service_namespace: first_set(self.service_namespace, env.service_namespace),
            service_version: first_set(self.service_version, env.service_version),
            service_instant_id: first_set(self.service_instant_id, env.service_instant_id),
            deployment_environment: first_set(
                self.deployment_environment,
                env.deployment_environment,
            ),
            otlp_endpoint: first_set(self.otlp_endpoint, env.otlp_endpoint),
            ..self
        }
    }

    /// Whether this configuration selects the remote mode.
    pub open spec fn is_remote(self) -> bool {
        self.otlp_endpoint is Some
    }
}

/// The mathematical content of the values found in the environment.
pub struct EnvView {
    pub service_name: Option<Seq<char>>,
    pub service_namespace: Option<Seq<char>>,
    pub service_version: Option<Seq<char>>,
    pub service_instant_id: Option<Seq<char>>,
    pub deployment_environment: Option<Seq<char>>,
    pub otlp_endpoint: Option<Seq<char>>,
}

/// The environment variable that names the service.
pub const ENV_SERVICE_NAME: &'static str = "OTEL_SERVICE_NAME";

/// The environment variable that names the service's namespace.
pub const ENV_SERVICE_NAMESPACE: &'static str = "OTEL_SERVICE_NAMESPACE";

/// The environment variable that holds the service's version.
pub const ENV_SERVICE_VERSION: &'static str = "OTEL_SERVICE_VERSION";

/// The environment variable that holds the id of this instance of the service.
pub const ENV_SERVICE_INSTANCE_ID: &'static str = "OTEL_SERVICE_INSTANCE_ID";

/// The environment variable that names the deployment environment.
pub const ENV_DEPLOYMENT_ENVIRONMENT: &'static str = "OTEL_DEPLOYMENT_ENVIRONMENT";

/// The environment variable that holds the collector's endpoint.
pub const ENV_OTLP_ENDPOINT: &'static str = "OTEL_EXPORTER_OTLP_ENDPOINT";

/// What the environment offers for the fields of a configuration, as the caller
/// read it: one entry for each of the `ENV_` variables, `None` where it is not set.
#[derive(Debug, Clone, PartialEq, Eq)]
pub struct EnvDefaults {
    pub service_name: Option<String>,
    pub service_namespace: Option<String>,
    pub service_version: Option<String>,
    pub service_instant_id: Option<String>,
    pub deployment_environment: Option<String>,
    pub otlp_endpoint: Option<String>,
}

impl View for EnvDefaults {
    type V = EnvView;

    open spec fn view(&self) -> EnvView {
        EnvView {
            service_name: text_of(self.service_name),
            service_namespace: text_of(self.service_namespace),
            service_version: text_of(self.service_version),
            service_instant_id: text_of(self.service_instant_id),
            deployment_environment: text_of(self.deployment_environment),
            otlp_endpoint: text_of(self.otlp_endpoint),
        }
    }
}

impl EnvDefaults {
    /// An environment in which none of the variables is set.
    pub fn empty() -> (env: Self)
        ensures
            env@ == (EnvView {
                service_name: None,
                service_namespace: None,
                service_version: None,
                service_instant_id: None,
                deployment_environment: None,
                otlp_endpoint: None,
            }),
    {
        EnvDefaults {
            service_name: None,
            service_namespace: None,
            service_version: None,
            service_instant_id: None,
            deployment_environment: None,
            otlp_endpoint: None,
        }
    }
}

/// `first` if it is set, else `second`.
fn pick_text(first: Option<String>, second: Option<String>) -> (r: Option<String>)
    ensures
        text_of(r) == first_set(text_of(first), text_of(second)),
{
    match first {
        Some(s) => Some(s),
        None => second,
    }
}

/// What the caller asks for. Every field is optional, and unset by default.
#[derive(Debug)]
pub struct OtlpConfig {
    service_name: Option<String>,
    service_namespace: Option<String>,
    service_version: Option<String>,
    service_instant_id: Option<String>,
    deployment_environment: Option<String>,
    otlp_endpoint: Option<String>,
    trace_level: Option<LevelFilter>,
    metrics_level: Option<LevelFilter>,
    log_level: Option<LevelFilter>,
    stdout_level: Option<LevelFilter>,
}

impl View for OtlpConfig {
    type V = ConfigView;

    closed spec fn view(&self) -> ConfigView {
        ConfigView {
            service_name: text_of(self.service_name),
            service_namespace: text_of(self.service_namespace),
            service_version: text_of(self.service_version),
            service_instant_id: text_of(self.service_instant_id),
            deployment_environment: text_of(self.deployment_environment),
            otlp_endpoint: text_of(self.otlp_endpoint),
            trace_level: self.trace_level,
            metrics_level: self.metrics_level,
            log_level: self.log_level,
            stdout_level: self.stdout_level,
        }
    }
}

impl Default for OtlpConfig {
    fn default() -> (config: Self)
        ensures
            config@ == ConfigView::unset(),
    {
        OtlpConfig {
            service_name: None,
            service_namespace: None,
            service_version: None,
            service_instant_id: None,
            deployment_environment: None,
            otlp_endpoint: None,
            trace_level: None,
            metrics_level: None,
            log_level: None,
            stdout_level: None,
        }
    }
}

impl OtlpConfig {
    /// A builder in which nothing is set yet.
    pub fn builder() -> (b: OtlpConfigBuilder)
        ensures
            b@ == ConfigView::unset(),
    {
        OtlpConfigBuilder::default()
    }

    /// This configuration, with each text field that the caller left unset taken
    /// from the environment. A field that the caller set is never replaced.
    pub fn with_env_defaults(self, env: EnvDefaults) -> (config: OtlpConfig)
        ensures
            config@ == self@.or_env(env@),
    {
        OtlpConfig {
            service_name: pick_text(self.service_name, env.service_name),
            service_namespace: pick_text(self.service_namespace, env.service_namespace),
            service_version: pick_text(self.service_version, env.service_version),
            service_instant_id: pick_text(self.service_instant_id, env.service_instant_id),
            deployment_environment: pick_text(
                self.deployment_environment,
                env.deployment_environment,
            ),
            otlp_endpoint: pick_text(self.otlp_endpoint, env.otlp_endpoint),
            trace_level: self.trace_level,
            metrics_level: self.metrics_level,
            log_level: self.log_level,
            stdout_level: self.stdout_level,
        }
    }

    pub fn service_name(&self) -> (r: &Option<String>)
        ensures
            text_of(*r) == self@.service_name,
    {
        &self.service_name
    }

    pub fn service_namespace(&self) -> (r: &Option<String>)
        ensures
            text_of(*r) == self@.service_namespace,
    {
        &self.service_namespace
    }

    pub fn service_version(&self) -> (r: &Option<String>)
        ensures
            text_of(*r) == self@.service_version,
    {
        &self.service_version
    }

    pub fn service_instant_id(&self) -> (r: &Option<String>)
        ensures
            text_of(*r) == self@.service_instant_id,
    {
        &self.service_instant_id
    }

    pub fn deployment_environment(&self) -> (r: &Option<String>)
        ensures
            text_of(*r) == self@.deployment_environment,
    {
        &self.deployment_environment
    }

    pub fn otlp_endpoint(&self) -> (r: &Option<String>)
        ensures
            text_of(*r) == self@.otlp_endpoint,
    {
        &self.otlp_endpoint
    }

    pub fn trace_level(&self) -> (r: Option<LevelFilter>)
        ensures
            r == self@.trace_level,
    {
        self.trace_level
    }

    pub fn metrics_level(&self) -> (r: Option<LevelFilter>)
        ensures
            r == self@.metrics_level,
    {
        self.metrics_level
    }

    pub fn log_level(&self) -> (r: Option<LevelFilter>)
        ensures
            r == self@.log_level,
    {
        self.log_level
    }

    pub fn stdout_level(&self) -> (r: Option<LevelFilter>)
        ensures
            r == self@.stdout_level,
    {
        self.stdout_level
    }
}

/// Why a configuration could not be built. No field is required and none is
/// checked at construction, so `OtlpConfigBuilder::build` never returns one.
#[derive(Debug)]
pub struct ConfigurationError {
    pub message: String,
}

/// Collects the fields of a configuration, in any order and any subset.
#[derive(Debug, Clone)]
pub struct OtlpConfigBuilder {
    service_name: Option<String>,
    service_namespace: Option<String>,
    service_version: Option<String>,
    service_instant_id: Option<String>,
    deployment_environment: Option<String>,
    otlp_endpoint: Option<String>,
    trace_level: Option<LevelFilter>,
    metrics_level: Option<LevelFilter>,
    log_level: Option<LevelFilter>,
    stdout_level: Option<LevelFilter>,
}

impl View for OtlpConfigBuilder {
    type V = ConfigView;

    closed spec fn view(&self) -> ConfigView {
        ConfigView {
            service_name: text_of(self.service_name),
            service_namespace: text_of(self.service_namespace),
            service_version: text_of(self.service_version),
            service_instant_id: text_of(self.service_instant_id),
            deployment_environment: text_of(self.deployment_environment),
            otlp_endpoint: text_of(self.otlp_endpoint),
            trace_level: self.trace_level,
            metrics_level: self.metrics_level,
            log_level: self.log_level,
            stdout_level: self.stdout_level,
        }
    }
}

impl Default for OtlpConfigBuilder {
    fn default() -> (b: Self)
        ensures
            b@ == ConfigView::unset(),
    {
        OtlpConfigBuilder {
            service_name: None,
            service_namespace: None,
            service_version: None,
            service_instant_id: None,
            deployment_environment: None,
            otlp_endpoint: None,
            trace_level: None,
            metrics_level: None,
            log_level: None,
            stdout_level: None,
        }
    }
}

impl OtlpConfigBuilder {
    /// Sets the service name to what `value` converts into, and leaves the rest.
    pub fn service_name<V: Into<Option<String>>>(&mut self, value: V) -> (ret: &mut Self)
        ensures
            exists|x: Option<String>| #[trigger]
                call_ensures(<V as Into<Option<String>>>::into, (value,), x) && ret@ == (
                ConfigView { service_name: text_of(x), ..old(self)@ }),
            *final(self) == *final(ret),
    {
        self.service_name = value.into();
        self
    }

    /// Sets the service namespace to what `value` converts into, and leaves the rest.
    pub fn service_namespace<V: Into<Option<String>>>(&mut self, value: V) -> (ret: &mut Self)
        ensures
            exists|x: Option<String>| #[trigger]
                call_ensures(<V as Into<Option<String>>>::into, (value,), x) && ret@ == (
                ConfigView { service_namespace: text_of(x), ..old(self)@ }),
            *final(self) == *final(ret),
    {
        self.service_namespace = value.into();
        self
    }

    /// Sets the service version to what `value` converts into, and leaves the rest.
    pub fn service_version<V: Into<Option<String>>>(&mut self, value: V) -> (ret: &mut Self)
        ensures
            exists|x: Option<String>| #[trigger]
                call_ensures(<V as Into<Option<String>>>::into, (value,), x) && ret@ == (
                ConfigView { service_version: text_of(x), ..old(self)@ }),
            *final(self) == *final(ret),
    {
        self.service_version = value.into();
        self
    }

    /// Sets the service instance id to what `value` converts into, and leaves the rest.
    pub fn service_instant_id<V: Into<Option<String>>>(&mut self, value: V) -> (ret: &mut Self)
        ensures
            exists|x: Option<String>| #[trigger]
                call_ensures(<V as Into<Option<String>>>::into, (value,), x) && ret@ == (
                ConfigView { service_instant_id: text_of(x), ..old(self)@ }),
            *final(self) == *final(ret),
    {
        self.service_instant_id = value.into();
        self
    }

    /// Sets the deployment environment to what `value` converts into, and leaves the rest.
    pub fn deployment_environment<V: Into<Option<String>>>(&mut self, value: V) -> (ret:
        &mut Self)
        ensures
            exists|x: Option<String>| #[trigger]
                call_ensures(<V as Into<Option<String>>>::into, (value,), x) && ret@ == (
                ConfigView { deployment_environment: text_of(x), ..old(self)@ }),
            *final(self) == *final(ret),
    {
        self.deployment_environment = value.into();
        self
    }

    /// Sets the collector's endpoint to what `value` converts into, and leaves the rest.
    pub fn otlp_endpoint<V: Into<Option<String>>>(&mut self, value: V) -> (ret: &mut Self)
        ensures
            exists|x: Option<String>| #[trigger]
                call_ensures(<V as Into<Option<String>>>::into, (value,), x) && ret@ == (
                ConfigView { otlp_endpoint: text_of(x), ..old(self)@ }),
            *final(self) == *final(ret),
    {
        self.otlp_endpoint = value.into();
        self
    }

    /// Sets the level of the trace sink to what `value` converts into, and leaves the rest.
    pub fn trace_level<V: Into<Option<LevelFilter>>>(&mut self, value: V) -> (ret: &mut Self)
        ensures
            exists|x: Option<LevelFilter>| #[trigger]
                call_ensures(<V as Into<Option<LevelFilter>>>::into, (value,), x) && ret@ == (
                ConfigView { trace_level: x, ..old(self)@ }),
            *final(self) == *final(ret),
    {
        self.trace_level = value.into();
        self
    }

    /// Sets the level of the metrics sink to what `value` converts into, and leaves the rest.
    pub fn metrics_level<V: Into<Option<LevelFilter>>>(&mut self, value: V) -> (ret: &mut Self)
        ensures
            exists|x: Option<LevelFilter>| #[trigger]
                call_ensures(<V as Into<Option<LevelFilter>>>::into, (value,), x) && ret@ == (
                ConfigView { metrics_level: x, ..old(self)@ }),
            *final(self) == *final(ret),
    {
        self.metrics_level = value.into();
        self
    }

    /// Sets the level of the log sink to what `value` converts into, and leaves the rest.
    pub fn log_level<V: Into<Option<LevelFilter>>>(&mut self, value: V) -> (ret: &mut Self)
        ensures
            exists|x: Option<LevelFilter>| #[trigger]
                call_ensures(<V as Into<Option<LevelFilter>>>::into, (value,), x) && ret@ == (
                ConfigView { log_level: x, ..old(self)@ }),
            *final(self) == *final(ret),
    {
        self.log_level = value.into();
        self
    }

    /// Sets the level of the console sink to what `value` converts into, and leaves the rest.
    pub fn stdout_level<V: Into<Option<LevelFilter>>>(&mut self, value: V) -> (ret: &mut Self)
        ensures
            exists|x: Option<LevelFilter>| #[trigger]
                call_ensures(<V as Into<Option<LevelFilter>>>::into, (value,), x) && ret@ == (
                ConfigView { stdout_level: x, ..old(self)@ }),
            *final(self) == *final(ret),
    {
        self.stdout_level = value.into();
        self
    }

    /// The configuration that holds what has been set so far. It always succeeds.
    pub fn build(&self) -> (r: Result<OtlpConfig, ConfigurationError>)
        ensures
            r is Ok,
            r->Ok_0@ == self@,
    {
        Ok(
            OtlpConfig {
                service_name: self.service_name.clone(),
                service_namespace: self.service_namespace.clone(),
                service_version: self.service_version.clone(),
                service_instant_id: self.service_instant_id.clone(),
                deployment_environment: self.deployment_environment.clone(),
                otlp_endpoint: self.otlp_endpoint.clone(),
                trace_level: self.trace_level,
                metrics_level: self.metrics_level,
                log_level: self.log_level,
                stdout_level: self.stdout_level,
            },
        )
    }
}

} // verus!
