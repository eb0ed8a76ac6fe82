//! The filter of each sink.
//!
//! A sink with a level of its own is filtered by exactly that level. A sink
//! without one is filtered by the directives that the environment holds. The
//! console sink borrows the level of the log sink where it has none of its own.
//! Nothing else couples one sink's filter to another's.

use vstd::prelude::*;
use tracing_subscriber::filter::EnvFilter;
use crate::config::{first_set, ConfigView, OtlpConfig};
use crate::level::LevelFilter;

verus! {

/// Where the filter of one sink comes from.
#[derive(Debug, Clone, PartialEq, Eq)]
pub enum FilterSource {
    /// Exactly this level, whatever the environment holds.
    Level(LevelFilter),
    /// The directives that the environment holds, as the text found there.
    Directives(String),
}

/// The mathematical content of a `FilterSource`.
pub enum FilterSourceView {
    Level(LevelFilter),
    Directives(Seq<char>),
}

impl View for FilterSource {
    type V = FilterSourceView;

    open spec fn view(&self) -> FilterSourceView {
        match *self {
            FilterSource::Level(level) => FilterSourceView::Level(level),
            FilterSource::Directives(text) => FilterSourceView::Directives(text@),
        }
    }
}

impl FilterSource {
    /// The source for a sink whose own level is `explicit`, where the environment
    /// holds the directives `env_default`.
    pub open spec fn of(explicit: Option<LevelFilter>, env_default: Seq<char>) -> FilterSourceView {
        match explicit {
            Some(level) => FilterSourceView::Level(level),
            None => FilterSourceView::Directives(env_default),
        }
    }

    /// The source for a sink whose own level is `explicit`: that level where it is
    /// set, and the directives of the environment where it is not.
    pub fn resolve(explicit: Option<LevelFilter>, env_default: &str) -> (source: FilterSource)
        ensures
            source@ == FilterSource::of(explicit, env_default@),
    {
        match explicit {
            Some(level) => FilterSource::Level(level),
            None => FilterSource::Directives(env_default.to_string()),
        }
    }
}

/// The level that governs the console: its own, else that of the log sink.
pub open spec fn console_level(config: ConfigView) -> Option<LevelFilter> {
    first_set(config.stdout_level, config.log_level)
}

/// The filter sources of the four sinks.
#[derive(Debug, Clone, PartialEq, Eq)]
pub struct FilterPlan {
    pub console: FilterSource,
    pub trace: FilterSource,
    pub metrics: FilterSource,
    pub log: FilterSource,
}

/// The mathematical content of a `FilterPlan`.
pub struct FilterPlanView {
    pub console: FilterSourceView,
    pub trace: FilterSourceView,
    pub metrics: FilterSourceView,
    pub log: FilterSourceView,
}

impl View for FilterPlan {
    type V = FilterPlanView;

    open spec fn view(&self) -> FilterPlanView {
        FilterPlanView {
            console: self.console@,
            trace: self.trace@,
            metrics: self.metrics@,
            log: self.log@,
        }
    }
}

impl FilterPlan {
    /// The plan that a configuration asks for, where the environment holds the
    /// directives `env_default`.
    pub open spec fn of(config: ConfigView, env_default: Seq<char>) -> FilterPlanView {
        FilterPlanView {
            console: FilterSource::of(console_level(config), env_default),
            trace: FilterSource::of(config.trace_level, env_default),
            metrics: FilterSource::of(config.metrics_level, env_default),
            log: FilterSource::of(config.log_level, env_default),
        }
    }

    /// The plan that a configuration asks for: each signal by its own level, the
    /// console by its own level or else by that of the log sink, and whatever has
    /// no level by the directives of the environment.
    pub fn from_config(config: &OtlpConfig, env_default: &str) -> (plan: FilterPlan)
        ensures
            plan@ == FilterPlan::of(config@, env_default@),
    {
        let console = match config.stdout_level() {
            Some(level) => Some(level),
            None => config.log_level(),
        };
        FilterPlan {
            console: FilterSource::resolve(console, env_default),
            trace: FilterSource::resolve(config.trace_level(), env_default),
            metrics: FilterSource::resolve(config.metrics_level(), env_default),
            log: FilterSource::resolve(config.log_level(), env_default),
        }
    }
}

/// The subscriber crate's filter: a set of directives, each a level with or
/// without a target.
#[verifier::external_type_specification]
#[verifier::external_body]
pub struct ExEnvFilter(EnvFilter);

/// One directive of a filter: events of `target` (of any target, where it is
/// `None`) pass up to `level`.
pub struct Directive {
    pub target: Option<Seq<char>>,
    pub level: LevelFilter,
}

/// The directives that a filter holds.
pub uninterp spec fn filter_directives(filter: EnvFilter) -> Seq<Directive>;

/// The directives that the subscriber crate reads out of a directive text such
/// as the environment holds: those of its comma-separated parts that it can
/// parse, or the bare error level where there is none.
pub uninterp spec fn parsed_directives(text: Seq<char>) -> Seq<Directive>;

/// The directives of a filter that is one level and nothing else.
pub open spec fn single_level(level: LevelFilter) -> Seq<Directive> {
    seq![Directive { target: None, level }]
}

/// The level that stands where the environment holds no directive.
pub open spec fn default_level() -> LevelFilter {
    LevelFilter::ERROR
}

/// Whether a source is the directives of an environment that holds none.
pub open spec fn is_empty_environment(source: FilterSourceView) -> bool {
    source matches FilterSourceView::Directives(text) && text.len() == 0
}

/// The directives of the filter that is built for a source.
pub open spec fn source_directives(source: FilterSourceView) -> Seq<Directive> {
    match source {
        FilterSourceView::Level(level) => single_level(level),
        FilterSourceView::Directives(text) => parsed_directives(text),
    }
}

/// `EnvFilter::default().add_directive(..)` with a bare level: the default filter
/// holds no directive, so the result holds that one.
#[verifier::external_body]
fn level_env_filter(level: LevelFilter) -> (filter: EnvFilter)
    ensures
        filter_directives(filter) == single_level(level),
{
    let level = match level {
        LevelFilter::OFF => tracing_subscriber::filter::LevelFilter::OFF,
        LevelFilter::ERROR => tracing_subscriber::filter::LevelFilter::ERROR,
        LevelFilter::WARN => tracing_subscriber::filter::LevelFilter::WARN,
        LevelFilter::INFO => tracing_subscriber::filter::LevelFilter::INFO,
        LevelFilter::DEBUG => tracing_subscriber::filter::LevelFilter::DEBUG,
        LevelFilter::TRACE => tracing_subscriber::filter::LevelFilter::TRACE,
    };
    EnvFilter::default().add_directive(level.into())
}

/// `EnvFilter::builder().with_default_directive(..).parse_lossy(..)` with the
/// error level as the default directive: the filter that the subscriber crate
/// reads out of a directive text. It is `EnvFilter::from_default_env()` with the
/// text handed in, where that function reads it from `RUST_LOG`. Parts that
/// cannot be parsed are left out (the crate says so on standard error), and a
/// text without any directive, the empty one above all, gives the bare error
/// level.
#[verifier::external_body]
fn directives_env_filter(text: &str) -> (filter: EnvFilter)
    ensures
        filter_directives(filter) == parsed_directives(text@),
        text@.len() == 0 ==> filter_directives(filter) == single_level(default_level()),
{
    EnvFilter::builder().with_default_directive(
        tracing_subscriber::filter::LevelFilter::ERROR.into(),
    ).parse_lossy(text)
}

/// The filter for one source. From a level it is that level alone. From the
/// directives of the environment it is what the subscriber crate reads out of
/// them, and the error level alone where they are empty.
pub fn build_filter(source: &FilterSource) -> (filter: EnvFilter)
    ensures
        filter_directives(filter) == source_directives(source@),
        is_empty_environment(source@) ==> filter_directives(filter) == single_level(
            default_level(),
        ),
{
    match source {
        FilterSource::Level(level) => level_env_filter(*level),
        FilterSource::Directives(text) => directives_env_filter(text.as_str()),
    }
}

/// The filter for a sink whose own level is `level`, where the environment holds
/// the directives `env_default`: the level alone where there is one, else what
/// the subscriber crate reads out of the directives, and the error level alone
/// where they are empty.
pub fn define_filter_level(level: Option<LevelFilter>, env_default: &str) -> (filter: EnvFilter)
    ensures
        filter_directives(filter) == source_directives(FilterSource::of(level, env_default@)),
        is_empty_environment(FilterSource::of(level, env_default@)) ==> filter_directives(filter)
            == single_level(default_level()),
{
    build_filter(&FilterSource::resolve(level, env_default))
}

/// Console fallback: without a level of its own the console is filtered by the
/// level of the log sink, and by the directives of the environment where that
/// is unset too. With a level of its own, that level stands.
pub proof fn lemma_console_fallback(config: ConfigView, env_default: Seq<char>)
    ensures
        config.stdout_level is Some ==> FilterPlan::of(config, env_default).console
            == FilterSourceView::Level(config.stdout_level->Some_0),
        config.stdout_level is None && config.log_level is Some ==> FilterPlan::of(
            config,
            env_default,
        ).console == FilterSourceView::Level(config.log_level->Some_0),
        config.stdout_level is None && config.log_level is None ==> FilterPlan::of(
            config,
            env_default,
        ).console == FilterSourceView::Directives(env_default),
        config.stdout_level is None ==> FilterPlan::of(config, env_default).console
            == FilterPlan::of(config, env_default).log,
{
}

/// The three signals are filtered each by its own level alone: changing the
/// level of another sink, or of the console, changes the source of none of them.
pub proof fn lemma_signals_independent(first: ConfigView, second: ConfigView, env_default: Seq<char>)
    ensures
        first.trace_level == second.trace_level ==> FilterPlan::of(first, env_default).trace
            == FilterPlan::of(second, env_default).trace,
        first.metrics_level == second.metrics_level ==> FilterPlan::of(first, env_default).metrics
            == FilterPlan::of(second, env_default).metrics,
        first.log_level == second.log_level ==> FilterPlan::of(first, env_default).log
            == FilterPlan::of(second, env_default).log,
{
}

/// A level of its own shuts the environment out: a sink with a level is
/// filtered by that level whatever directives the environment holds.
pub proof fn lemma_level_ignores_environment(
    level: LevelFilter,
    first: Seq<char>,
    second: Seq<char>,
)
    ensures
        FilterSource::of(Some(level), first) == FilterSource::of(Some(level), second),
        source_directives(FilterSource::of(Some(level), first)) == single_level(level),
{
}

} // verus!
