//! The resource: the attributes that say which process and which service the
//! telemetry comes from.
//!
//! The attributes are collected as an ordered list, detected ones first and the
//! caller's own last, and merged so that a later entry replaces an earlier one
//! with the same key. The SDK adds what its own detectors find underneath.

use vstd::prelude::*;
use opentelemetry::{Array, KeyValue, StringValue, Value};
use opentelemetry_sdk::resource::Resource;
use crate::config::{ConfigView, EnvView, OtlpConfig};

verus! {

/// The key of the attribute that names the service.
pub const SERVICE_NAME: &'static str = "service.name";

/// The key of the attribute that names the service's namespace.
pub const SERVICE_NAMESPACE: &'static str = "service.namespace";

/// The key of the attribute that holds the service's version.
pub const SERVICE_VERSION: &'static str = "service.version";

/// The key of the attribute that holds the id of this instance of the service.
pub const SERVICE_INSTANCE_ID: &'static str = "service.instance.id";

/// The key of the attribute that names the deployment environment.
pub const DEPLOYMENT_ENVIRONMENT_NAME: &'static str = "deployment.environment.name";

/// The key of the attribute that names the operating system.
pub const OS_TYPE: &'static str = "os.type";

/// The key of the attribute that holds the command line, one entry per argument.
pub const PROCESS_COMMAND_ARGS: &'static str = "process.command_args";

/// The key of the attribute that holds the process id.
pub const PROCESS_PID: &'static str = "process.pid";

/// The key of the attribute that holds the path of the executable.
pub const PROCESS_EXECUTABLE_NAME: &'static str = "process.executable.name";

/// The key of the attribute that names the telemetry SDK.
pub const TELEMETRY_SDK_NAME: &'static str = "telemetry.sdk.name";

/// The key of the attribute that names the language of the telemetry SDK.
pub const TELEMETRY_SDK_LANGUAGE: &'static str = "telemetry.sdk.language";

/// The key of the attribute that holds the version of the telemetry SDK.
pub const TELEMETRY_SDK_VERSION: &'static str = "telemetry.sdk.version";

/// The value of an attribute.
#[derive(Debug, Clone, PartialEq, Eq)]
pub enum AttributeValue {
    Text(String),
    Integer(i64),
    TextList(Vec<String>),
}

/// The mathematical content of an attribute's value.
pub enum AttributeValueView {
    Text(Seq<char>),
    Integer(int),
    TextList(Seq<Seq<char>>),
}

/// The characters of each string of a list.
pub open spec fn texts_of(items: Seq<String>) -> Seq<Seq<char>> {
    Seq::new(items.len(), |i: int| items[i]@)
}

impl View for AttributeValue {
    type V = AttributeValueView;

    open spec fn view(&self) -> AttributeValueView {
        match *self {
            AttributeValue::Text(s) => AttributeValueView::Text(s@),
            AttributeValue::Integer(i) => AttributeValueView::Integer(i as int),
            AttributeValue::TextList(items) => AttributeValueView::TextList(texts_of(items@)),
        }
    }
}

/// One attribute: a key and its value.
#[derive(Debug, Clone, PartialEq, Eq)]
pub struct Attribute {
    pub key: String,
    pub value: AttributeValue,
}

/// The mathematical content of an attribute.
pub struct Entry {
    pub key: Seq<char>,
    pub value: AttributeValueView,
}

impl View for Attribute {
    type V = Entry;

    open spec fn view(&self) -> Entry {
        Entry { key: self.key@, value: self.value@ }
    }
}

/// The content of each attribute of a list, in order.
pub open spec fn entries_of(attributes: Seq<Attribute>) -> Seq<Entry> {
    Seq::new(attributes.len(), |i: int| attributes[i]@)
}

/// What the caller found out about the running process and its surroundings.
/// `executable` is `None` where the path of the executable could not be
/// determined. `log_directives` is the text of the severity directives that the
/// environment holds, empty where it holds none.
#[derive(Debug, Clone, PartialEq, Eq)]
pub struct ProcessInfo {
    pub os_type: String,
    pub command_args: Vec<String>,
    pub pid: u32,
    pub executable: Option<String>,
    pub log_directives: String,
}

/// The mathematical content of a `ProcessInfo`.
pub struct ProcessView {
    pub os_type: Seq<char>,
    pub command_args: Seq<Seq<char>>,
    pub pid: int,
    pub executable: Option<Seq<char>>,
    pub log_directives: Seq<char>,
}

impl View for ProcessInfo {
    type V = ProcessView;

    open spec fn view(&self) -> ProcessView {
        ProcessView {
            os_type: self.os_type@,
            command_args: texts_of(self.command_args@),
            pid: self.pid as int,
            executable: crate::config::text_of(self.executable),
            log_directives: self.log_directives@,
        }
    }
}

/// `base` with each entry of `entries` put in, in order: a later entry replaces
/// an earlier one with the same key.
pub open spec fn merged_onto(base: Map<Seq<char>, AttributeValueView>, entries: Seq<Entry>) -> Map<
    Seq<char>,
    AttributeValueView,
>
    decreases entries.len(),
{
    if entries.len() == 0 {
        base
    } else {
        merged_onto(base, entries.drop_last()).insert(entries.last().key, entries.last().value)
    }
}

/// The attribute set that a list of entries amounts to.
pub open spec fn merged(entries: Seq<Entry>) -> Map<Seq<char>, AttributeValueView> {
    merged_onto(Map::empty(), entries)
}

/// What the operating-system detector contributes.
pub open spec fn os_entries(os_type: Seq<char>) -> Seq<Entry> {
    seq![Entry { key: OS_TYPE@, value: AttributeValueView::Text(os_type) }]
}

/// The path reported for the executable: empty where it could not be determined.
pub open spec fn executable_text(executable: Option<Seq<char>>) -> Seq<char> {
    match executable {
        Some(path) => path,
        None => Seq::empty(),
    }
}

/// What the process detector contributes.
pub open spec fn process_entries(process: ProcessView) -> Seq<Entry> {
    seq![
        Entry {
            key: PROCESS_COMMAND_ARGS@,
            value: AttributeValueView::TextList(process.command_args),
        },
        Entry { key: PROCESS_PID@, value: AttributeValueView::Integer(process.pid) },
        Entry {
            key: PROCESS_EXECUTABLE_NAME@,
            value: AttributeValueView::Text(executable_text(process.executable)),
        },
    ]
}

/// The entry for one optional text field: none where the field is unset.
pub open spec fn optional_entry(key: Seq<char>, value: Option<Seq<char>>) -> Seq<Entry> {
    match value {
        Some(text) => seq![Entry { key, value: AttributeValueView::Text(text) }],
        None => Seq::empty(),
    }
}

/// What the caller's configuration contributes: one entry for each service
/// identity field that is set.
pub open spec fn explicit_entries(config: ConfigView) -> Seq<Entry> {
    optional_entry(SERVICE_NAME@, config.service_name) + optional_entry(
        SERVICE_NAMESPACE@,
        config.service_namespace,
    ) + optional_entry(SERVICE_VERSION@, config.service_version) + optional_entry(
        SERVICE_INSTANCE_ID@,
        config.service_instant_id,
    ) + optional_entry(DEPLOYMENT_ENVIRONMENT_NAME@, config.deployment_environment)
}

/// Everything the library itself puts into the resource, lowest precedence first:
/// operating system, process, then the caller's own fields.
pub open spec fn attribute_entries(config: ConfigView, process: ProcessView) -> Seq<Entry> {
    os_entries(process.os_type) + process_entries(process) + explicit_entries(config)
}

/// The attribute set that the library's own entries amount to.
pub open spec fn resolved_attributes(config: ConfigView, process: ProcessView) -> Map<
    Seq<char>,
    AttributeValueView,
> {
    merged(attribute_entries(config, process))
}

/// Merging a list that is two lists in a row is merging the first, then the second.
pub proof fn lemma_merged_onto_concat(
    base: Map<Seq<char>, AttributeValueView>,
    first: Seq<Entry>,
    second: Seq<Entry>,
)
    ensures
        merged_onto(base, first + second) == merged_onto(merged_onto(base, first), second),
    decreases second.len(),
{
    if second.len() > 0 {
        assert((first + second).drop_last() =~= first + second.drop_last());
        lemma_merged_onto_concat(base, first, second.drop_last());
    }
}

/// `base` with `key` set to the text `value`, where there is one.
pub open spec fn with_text(
    base: Map<Seq<char>, AttributeValueView>,
    key: Seq<char>,
    value: Option<Seq<char>>,
) -> Map<Seq<char>, AttributeValueView> {
    match value {
        Some(text) => base.insert(key, AttributeValueView::Text(text)),
        None => base,
    }
}

/// What the detectors alone amount to: the operating system and the process.
pub open spec fn detected_attributes(process: ProcessView) -> Map<Seq<char>, AttributeValueView> {
    Map::<Seq<char>, AttributeValueView>::empty().insert(
        OS_TYPE@,
        AttributeValueView::Text(process.os_type),
    ).insert(PROCESS_COMMAND_ARGS@, AttributeValueView::TextList(process.command_args)).insert(
        PROCESS_PID@,
        AttributeValueView::Integer(process.pid),
    ).insert(
        PROCESS_EXECUTABLE_NAME@,
        AttributeValueView::Text(executable_text(process.executable)),
    )
}

/// Merging the entry of one optional field sets its key where the field is set.
proof fn lemma_merged_onto_optional(
    base: Map<Seq<char>, AttributeValueView>,
    key: Seq<char>,
    value: Option<Seq<char>>,
)
    ensures
        merged_onto(base, optional_entry(key, value)) == with_text(base, key, value),
{
    let entries = optional_entry(key, value);
    if value is Some {
        assert(merged_onto(base, entries.drop_last()) == base);
    }
}

/// The library's attribute set, written out: the detected attributes, then each
/// service identity field that is set, put in over them.
pub proof fn lemma_resolved_attributes_unfold(config: ConfigView, process: ProcessView)
    ensures
        resolved_attributes(config, process) == with_text(
            with_text(
                with_text(
                    with_text(
                        with_text(detected_attributes(process), SERVICE_NAME@, config.service_name),
                        SERVICE_NAMESPACE@,
                        config.service_namespace,
                    ),
                    SERVICE_VERSION@,
                    config.service_version,
                ),
                SERVICE_INSTANCE_ID@,
                config.service_instant_id,
            ),
            DEPLOYMENT_ENVIRONMENT_NAME@,
            config.deployment_environment,
        ),
{
    let empty = Map::<Seq<char>, AttributeValueView>::empty();
    let os = os_entries(process.os_type);
    let from_process = process_entries(process);
    let name = optional_entry(SERVICE_NAME@, config.service_name);
    let namespace = optional_entry(SERVICE_NAMESPACE@, config.service_namespace);
    let version = optional_entry(SERVICE_VERSION@, config.service_version);
    let instance = optional_entry(SERVICE_INSTANCE_ID@, config.service_instant_id);
    let deployment = optional_entry(DEPLOYMENT_ENVIRONMENT_NAME@, config.deployment_environment);
    let m_os = merged_onto(empty, os);
    assert(m_os == empty.insert(OS_TYPE@, AttributeValueView::Text(process.os_type))) by {
        assert(merged_onto(empty, os.drop_last()) == empty);
    }
    let m_detected = merged_onto(m_os, from_process);
    assert(m_detected == detected_attributes(process)) by {
        let args_pid = from_process.drop_last();
        let args = args_pid.drop_last();
        assert(merged_onto(m_os, args.drop_last()) == m_os);
        assert(merged_onto(m_os, args_pid) == merged_onto(m_os, args).insert(
            args_pid.last().key,
            args_pid.last().value,
        ));
    }
    lemma_merged_onto_concat(empty, os, from_process);
    lemma_merged_onto_concat(
        empty,
        os + from_process,
        name + namespace + version + instance + deployment,
    );
    lemma_merged_onto_concat(m_detected, name + namespace + version + instance, deployment);
    lemma_merged_onto_concat(m_detected, name + namespace + version, instance);
    lemma_merged_onto_concat(m_detected, name + namespace, version);
    lemma_merged_onto_concat(m_detected, name, namespace);
    let with_name = merged_onto(m_detected, name);
    lemma_merged_onto_optional(m_detected, SERVICE_NAME@, config.service_name);
    let with_namespace = merged_onto(with_name, namespace);
    lemma_merged_onto_optional(with_name, SERVICE_NAMESPACE@, config.service_namespace);
    let with_version = merged_onto(with_namespace, version);
    lemma_merged_onto_optional(with_namespace, SERVICE_VERSION@, config.service_version);
    let with_instance = merged_onto(with_version, instance);
    lemma_merged_onto_optional(with_version, SERVICE_INSTANCE_ID@, config.service_instant_id);
    lemma_merged_onto_optional(
        with_instance,
        DEPLOYMENT_ENVIRONMENT_NAME@,
        config.deployment_environment,
    );
}

/// The nine keys that the library writes are nine different strings.
pub proof fn lemma_keys_differ()
    ensures
        SERVICE_NAME@.len() == 12,
        SERVICE_NAMESPACE@.len() == 17,
        SERVICE_VERSION@.len() == 15,
        SERVICE_INSTANCE_ID@.len() == 19,
        DEPLOYMENT_ENVIRONMENT_NAME@.len() == 27,
        OS_TYPE@.len() == 7,
        PROCESS_COMMAND_ARGS@.len() == 20,
        PROCESS_PID@.len() == 11,
        PROCESS_EXECUTABLE_NAME@.len() == 23,
{
    reveal_strlit("service.name");
    reveal_strlit("service.namespace");
    reveal_strlit("service.version");
    reveal_strlit("service.instance.id");
    reveal_strlit("deployment.environment.name");
    reveal_strlit("os.type");
    reveal_strlit("process.command_args");
    reveal_strlit("process.pid");
    reveal_strlit("process.executable.name");
}

/// What the resolved attribute at `key` is when the field that feeds it is `value`.
pub open spec fn service_field_holds(
    attributes: Map<Seq<char>, AttributeValueView>,
    key: Seq<char>,
    value: Option<Seq<char>>,
) -> bool {
    match value {
        Some(text) => attributes.contains_key(key) && attributes[key] == AttributeValueView::Text(
            text,
        ),
        None => !attributes.contains_key(key),
    }
}

/// The library's attribute set holds exactly this: the four detected attributes,
/// always, with the detected values; and for each service identity field its
/// attribute, with the field's value, if and only if the field is set.
pub proof fn lemma_resolved_attributes(config: ConfigView, process: ProcessView)
    ensures
        ({
            let attributes = resolved_attributes(config, process);
            &&& attributes.contains_key(OS_TYPE@)
            &&& attributes[OS_TYPE@] == AttributeValueView::Text(process.os_type)
            &&& attributes.contains_key(PROCESS_COMMAND_ARGS@)
            &&& attributes[PROCESS_COMMAND_ARGS@] == AttributeValueView::TextList(
                process.command_args,
            )
            &&& attributes.contains_key(PROCESS_PID@)
            &&& attributes[PROCESS_PID@] == AttributeValueView::Integer(process.pid)
            &&& attributes.contains_key(PROCESS_EXECUTABLE_NAME@)
            &&& attributes[PROCESS_EXECUTABLE_NAME@] == AttributeValueView::Text(
                executable_text(process.executable),
            )
            &&& service_field_holds(attributes, SERVICE_NAME@, config.service_name)
            &&& service_field_holds(attributes, SERVICE_NAMESPACE@, config.service_namespace)
            &&& service_field_holds(attributes, SERVICE_VERSION@, config.service_version)
            &&& service_field_holds(attributes, SERVICE_INSTANCE_ID@, config.service_instant_id)
            &&& service_field_holds(
                attributes,
                DEPLOYMENT_ENVIRONMENT_NAME@,
                config.deployment_environment,
            )
            &&& forall|key: Seq<char>| #[trigger]
                attributes.contains_key(key) ==> key == OS_TYPE@ || key == PROCESS_COMMAND_ARGS@
                    || key == PROCESS_PID@ || key == PROCESS_EXECUTABLE_NAME@ || key
                    == SERVICE_NAME@ || key == SERVICE_NAMESPACE@ || key == SERVICE_VERSION@ || key
                    == SERVICE_INSTANCE_ID@ || key == DEPLOYMENT_ENVIRONMENT_NAME@
        }),
{
    lemma_resolved_attributes_unfold(config, process);
    lemma_keys_differ();
}

/// A copy of a list of strings.
fn copy_texts(items: &Vec<String>) -> (copy: Vec<String>)
    ensures
        texts_of(copy@) == texts_of(items@),
{
    let mut copy: Vec<String> = Vec::new();
    let mut i: usize = 0;
    while i < items.len()
        invariant
            i <= items.len(),
            copy.len() == i,
            forall|j: int| 0 <= j < i ==> copy[j]@ == items[j]@,
        decreases items.len() - i,
    {
        copy.push(items[i].clone());
        i += 1;
    }
    copy
}

/// The attribute that the operating-system detector contributes.
pub fn detect_os(os_type: &str) -> (attributes: Vec<Attribute>)
    ensures
        entries_of(attributes@) == os_entries(os_type@),
{
    let mut attributes: Vec<Attribute> = Vec::new();
    attributes.push(
        Attribute { key: OS_TYPE.to_string(), value: AttributeValue::Text(os_type.to_string()) },
    );
    attributes
}

/// The attributes that the process detector contributes: the command line, the
/// process id, and the path of the executable. Where the path could not be
/// determined it is reported as the empty string.
pub fn detect_process(process: &ProcessInfo) -> (attributes: Vec<Attribute>)
    ensures
        entries_of(attributes@) == process_entries(process@),
{
    let executable = match &process.executable {
        Some(path) => path.clone(),
        None => String::new(),
    };
    let mut attributes: Vec<Attribute> = Vec::new();
    attributes.push(
        Attribute {
            key: PROCESS_COMMAND_ARGS.to_string(),
            value: AttributeValue::TextList(copy_texts(&process.command_args)),
        },
    );
    attributes.push(
        Attribute { key: PROCESS_PID.to_string(), value: AttributeValue::Integer(process.pid as i64) },
    );
    attributes.push(
        Attribute {
            key: PROCESS_EXECUTABLE_NAME.to_string(),
            value: AttributeValue::Text(executable),
        },
    );
    attributes
}

/// Appends the entry for one optional text field.
fn push_optional(attributes: &mut Vec<Attribute>, key: &str, value: &Option<String>)
    ensures
        entries_of(final(attributes)@) == entries_of(old(attributes)@) + optional_entry(
            key@,
            crate::config::text_of(*value),
        ),
{
    match value {
        Some(text) => {
            attributes.push(
                Attribute { key: key.to_string(), value: AttributeValue::Text(text.clone()) },
            );
        },
        None => {},
    }
}

/// The attributes that the caller's configuration contributes.
pub fn explicit_attributes(config: &OtlpConfig) -> (attributes: Vec<Attribute>)
    ensures
        entries_of(attributes@) == explicit_entries(config@),
{
    let mut attributes: Vec<Attribute> = Vec::new();
    push_optional(&mut attributes, SERVICE_NAME, config.service_name());
    push_optional(&mut attributes, SERVICE_NAMESPACE, config.service_namespace());
    push_optional(&mut attributes, SERVICE_VERSION, config.service_version());
    push_optional(&mut attributes, SERVICE_INSTANCE_ID, config.service_instant_id());
    push_optional(&mut attributes, DEPLOYMENT_ENVIRONMENT_NAME, config.deployment_environment());
    attributes
}

/// Appends `tail` to `attributes`.
fn append_attributes(attributes: &mut Vec<Attribute>, tail: Vec<Attribute>)
    ensures
        entries_of(final(attributes)@) == entries_of(old(attributes)@) + entries_of(tail@),
{
    let mut tail = tail;
    attributes.append(&mut tail);
}

/// Everything the library itself puts into the resource, in merge order.
pub fn collect_attributes(config: &OtlpConfig, process: &ProcessInfo) -> (attributes: Vec<Attribute>)
    ensures
        entries_of(attributes@) == attribute_entries(config@, process@),
{
    let mut attributes = detect_os(process.os_type.as_str());
    append_attributes(&mut attributes, detect_process(process));
    append_attributes(&mut attributes, explicit_attributes(config));
    attributes
}

/// The SDK's resource: an immutable set of attributes, shared by the three providers.
#[verifier::external_type_specification]
#[verifier::external_body]
pub struct ExResource(Resource);

/// The attributes that a resource holds: its keys, each with its value. The
/// value of a key is described where it is text, an integer or a list of texts.
pub uninterp spec fn resource_entries(resource: Resource) -> Map<Seq<char>, AttributeValueView>;

/// Whether `attributes` has the keys that the SDK itself always supplies: the
/// name of the service, and the name, language and version of the SDK.
pub open spec fn sdk_attributes_present(attributes: Map<Seq<char>, AttributeValueView>) -> bool {
    &&& attributes.contains_key(SERVICE_NAME@)
    &&& attributes.contains_key(TELEMETRY_SDK_NAME@)
    &&& attributes.contains_key(TELEMETRY_SDK_LANGUAGE@)
    &&& attributes.contains_key(TELEMETRY_SDK_VERSION@)
}

/// Whether `resource` holds every attribute of `expected`, with the same value.
pub open spec fn holds_all(resource: Resource, expected: Map<Seq<char>, AttributeValueView>) -> bool {
    forall|key: Seq<char>| #[trigger]
        expected.contains_key(key) ==> resource_entries(resource).contains_key(key)
            && resource_entries(resource)[key] == expected[key]
}

/// `Resource::builder().with_attributes(..).build()`: the builder starts from what
/// the SDK's own detectors find (a service name, the SDK's name, language and
/// version, and what the environment declares), then puts the given attributes
/// on top, a later one replacing an earlier one with the same key. So every key
/// of the given list is in the result, with the value of its last entry, and so
/// are the four keys that the SDK's detectors always supply. What the SDK's keys
/// hold, and what other keys there are, depends on the environment.
#[verifier::external_body]
fn build_resource(attributes: &Vec<Attribute>) -> (resource: Resource)
    ensures
        holds_all(resource, merged(entries_of(attributes@))),
        sdk_attributes_present(resource_entries(resource)),
{
    let pairs = attributes.iter().map(|a| {
        let value = match &a.value {
            AttributeValue::Text(s) => Value::String(StringValue::from(s.clone())),
            AttributeValue::Integer(i) => Value::I64(*i),
            AttributeValue::TextList(v) => Value::Array(
                Array::String(v.iter().cloned().map(StringValue::from).collect()),
            ),
        };
        KeyValue::new(a.key.clone(), value)
    });
    Resource::builder().with_attributes(pairs).build()
}

/// A clone of a resource holds what the resource holds.
pub assume_specification[ <Resource as Clone>::clone ](resource: &Resource) -> (copy: Resource)
    ensures
        resource_entries(copy) == resource_entries(*resource),
;

/// Whether `attributes` holds, for each service identity field that `config`
/// sets, the attribute of that field with the field's value.
pub open spec fn explicit_fields_hold(
    attributes: Map<Seq<char>, AttributeValueView>,
    config: ConfigView,
) -> bool {
    &&& holds_text(attributes, SERVICE_NAME@, config.service_name)
    &&& holds_text(attributes, SERVICE_NAMESPACE@, config.service_namespace)
    &&& holds_text(attributes, SERVICE_VERSION@, config.service_version)
    &&& holds_text(attributes, SERVICE_INSTANCE_ID@, config.service_instant_id)
    &&& holds_text(attributes, DEPLOYMENT_ENVIRONMENT_NAME@, config.deployment_environment)
}

/// Whether `attributes` holds `key` with the text `value`, where there is one.
pub open spec fn holds_text(
    attributes: Map<Seq<char>, AttributeValueView>,
    key: Seq<char>,
    value: Option<Seq<char>>,
) -> bool {
    value matches Some(text) ==> attributes.contains_key(key) && attributes[key]
        == AttributeValueView::Text(text)
}

/// Whether `attributes` holds the four detected attributes with the values of `process`.
pub open spec fn detected_fields_hold(
    attributes: Map<Seq<char>, AttributeValueView>,
    process: ProcessView,
) -> bool {
    &&& attributes.contains_key(OS_TYPE@)
    &&& attributes[OS_TYPE@] == AttributeValueView::Text(process.os_type)
    &&& attributes.contains_key(PROCESS_COMMAND_ARGS@)
    &&& attributes[PROCESS_COMMAND_ARGS@] == AttributeValueView::TextList(process.command_args)
    &&& attributes.contains_key(PROCESS_PID@)
    &&& attributes[PROCESS_PID@] == AttributeValueView::Integer(process.pid)
    &&& attributes.contains_key(PROCESS_EXECUTABLE_NAME@)
    &&& attributes[PROCESS_EXECUTABLE_NAME@] == AttributeValueView::Text(
        executable_text(process.executable),
    )
}

/// Explicit precedence: a field that the caller set stands in the resolved
/// attributes with the caller's value, whatever the environment offers for it;
/// a field that the caller left unset takes the environment's value, and has no
/// attribute where the environment has none either.
pub proof fn lemma_explicit_wins(config: ConfigView, env: EnvView, process: ProcessView)
    ensures
        explicit_fields_hold(resolved_attributes(config.or_env(env), process), config),
        explicit_fields_hold(resolved_attributes(config.or_env(env), process), config.or_env(env)),
        service_field_holds(
            resolved_attributes(config.or_env(env), process),
            SERVICE_NAME@,
            crate::config::first_set(config.service_name, env.service_name),
        ),
        service_field_holds(
            resolved_attributes(config.or_env(env), process),
            SERVICE_NAMESPACE@,
            crate::config::first_set(config.service_namespace, env.service_namespace),
        ),
        service_field_holds(
            resolved_attributes(config.or_env(env), process),
            SERVICE_VERSION@,
            crate::config::first_set(config.service_version, env.service_version),
        ),
        service_field_holds(
            resolved_attributes(config.or_env(env), process),
            SERVICE_INSTANCE_ID@,
            crate::config::first_set(config.service_instant_id, env.service_instant_id),
        ),
        service_field_holds(
            resolved_attributes(config.or_env(env), process),
            DEPLOYMENT_ENVIRONMENT_NAME@,
            crate::config::first_set(config.deployment_environment, env.deployment_environment),
        ),
{
    lemma_resolved_attributes(config.or_env(env), process);
}

/// The resource of this process: what the SDK detects, then the operating system,
/// the process, and last the caller's own service identity. Whatever the SDK
/// found, in the environment or elsewhere, every attribute the library itself
/// contributes is in the result: the four detected ones, and each service
/// identity field that the caller set, with the caller's value. The SDK's own
/// four keys are there as well, so that a service name is never missing.
pub fn otel_resource(config: &OtlpConfig, process: &ProcessInfo) -> (resource: Resource)
    ensures
        holds_all(resource, resolved_attributes(config@, process@)),
        explicit_fields_hold(resource_entries(resource), config@),
        detected_fields_hold(resource_entries(resource), process@),
        sdk_attributes_present(resource_entries(resource)),
{
    let attributes = collect_attributes(config, process);
    let resource = build_resource(&attributes);
    proof {
        lemma_resolved_attributes(config@, process@);
    }
    resource
}

} // verus!
