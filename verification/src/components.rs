//! Component schemas: the typed inputs, outputs and configuration records
//! of the individual workflow components (start, stop, log, variables).
//!
//! Timestamps and generated identifiers are plain strings, produced by the
//! clock and identifier helpers at the bottom of this module.

use crate::json::JsonValue;
use vstd::prelude::*;

verus! {

/// The level of a log entry.
#[derive(Debug, Clone, Copy, PartialEq, Eq, Structural)]
pub enum LogLevel {
    Debug,
    Info,
    Warn,
    Error,
}

impl Default for LogLevel {
    fn default() -> (r: Self)
        ensures
            r is Info,
    {
        LogLevel::Info
    }
}

/// The lowercase name of a log level.
pub open spec fn spec_log_level_str(l: LogLevel) -> Seq<char> {
    match l {
        LogLevel::Debug => "debug"@,
        LogLevel::Info => "info"@,
        LogLevel::Warn => "warn"@,
        LogLevel::Error => "error"@,
    }
}

/// The uppercase name of a log level, as log markers carry it.
pub open spec fn spec_log_level_upper(l: LogLevel) -> Seq<char> {
    match l {
        LogLevel::Debug => "DEBUG"@,
        LogLevel::Info => "INFO"@,
        LogLevel::Warn => "WARN"@,
        LogLevel::Error => "ERROR"@,
    }
}

impl LogLevel {
    /// The lowercase name of this level.
    pub fn as_str(&self) -> (r: &'static str)
        ensures
            r@ == spec_log_level_str(*self),
    {
        match self {
            LogLevel::Debug => "debug",
            LogLevel::Info => "info",
            LogLevel::Warn => "warn",
            LogLevel::Error => "error",
        }
    }

    /// The quoted TypeScript literal for this level.
    pub fn to_typescript(&self) -> (r: &'static str)
        ensures
            (*self is Debug ==> r@ == "'debug'"@) && (*self is Info ==> r@ == "'info'"@) && (*self
                is Warn ==> r@ == "'warn'"@) && (*self is Error ==> r@ == "'error'"@),
    {
        match self {
            LogLevel::Debug => "'debug'",
            LogLevel::Info => "'info'",
            LogLevel::Warn => "'warn'",
            LogLevel::Error => "'error'",
        }
    }

    /// The uppercase name of this level.
    pub fn upper_str(&self) -> (r: &'static str)
        ensures
            r@ == spec_log_level_upper(*self),
    {
        match self {
            LogLevel::Debug => "DEBUG",
            LogLevel::Info => "INFO",
            LogLevel::Warn => "WARN",
            LogLevel::Error => "ERROR",
        }
    }
}

/// Input of the log activity.
#[derive(Debug, Clone)]
pub struct LogInput {
    pub message: String,
    pub level: LogLevel,
    pub metadata: Option<Vec<(String, JsonValue)>>,
}

impl LogInput {
    /// A log input with the default level and no metadata.
    pub fn new(message: String) -> (r: Self)
        ensures
            r.message@ == message@,
            r.level is Info,
            r.metadata is None,
    {
        LogInput { message, level: LogLevel::Info, metadata: None }
    }

    /// A log input with the given level.
    pub fn with_level(message: String, level: LogLevel) -> (r: Self)
        ensures
            r.message@ == message@,
            r.level == level,
            r.metadata is None,
    {
        LogInput { message, level, metadata: None }
    }

    /// An info-level log input.
    pub fn info(message: String) -> (r: Self)
        ensures
            r.message@ == message@,
            r.level is Info,
            r.metadata is None,
    {
        LogInput::new(message)
    }

    /// A debug-level log input.
    pub fn debug(message: String) -> (r: Self)
        ensures
            r.message@ == message@,
            r.level is Debug,
            r.metadata is None,
    {
        LogInput::with_level(message, LogLevel::Debug)
    }

    /// A warn-level log input.
    pub fn warn(message: String) -> (r: Self)
        ensures
            r.message@ == message@,
            r.level is Warn,
            r.metadata is None,
    {
        LogInput::with_level(message, LogLevel::Warn)
    }

    /// An error-level log input.
    pub fn error(message: String) -> (r: Self)
        ensures
            r.message@ == message@,
            r.level is Error,
            r.metadata is None,
    {
        LogInput::with_level(message, LogLevel::Error)
    }

    /// This input with one more metadata entry appended.
    pub fn with_metadata(self, key: String, value: JsonValue) -> (r: Self)
        ensures
            r.message@ == self.message@,
            r.level == self.level,
            r.metadata is Some,
            match (self.metadata, r.metadata) {
                (Option::Some(m0), Option::Some(m1)) => m1@.len() == m0@.len() + 1,
                (Option::None, Option::Some(m1)) => m1@.len() == 1,
                _ => false,
            },
    {
        let mut entries = match self.metadata {
            Option::Some(m) => m,
            Option::None => Vec::new(),
        };
        entries.push((key, value));
        LogInput { message: self.message, level: self.level, metadata: Option::Some(entries) }
    }
}

/// Output of the log activity.
#[derive(Debug, Clone)]
pub struct LogOutput {
    pub logged: bool,
    pub timestamp: String,
    pub log_id: Option<String>,
}

impl LogOutput {
    /// A successful log record, stamped with the current time and a fresh
    /// identifier.
    pub fn success() -> (r: Self)
        ensures
            r.logged == true,
            r.log_id is Some,
    {
        LogOutput { logged: true, timestamp: now_rfc3339(), log_id: Option::Some(new_uuid()) }
    }

    /// A failed log record.
    pub fn failure() -> (r: Self)
        ensures
            r.logged == false,
            r.log_id is None,
    {
        LogOutput { logged: false, timestamp: now_rfc3339(), log_id: Option::None }
    }
}

/// Configuration of the log component.
#[derive(Debug, Clone)]
pub struct LogConfig {
    pub message: String,
    pub level: LogLevel,
    pub metadata: Option<Vec<(String, JsonValue)>>,
    pub include_workflow_context: bool,
}

impl Default for LogConfig {
    fn default() -> (r: Self)
        ensures
            r.message@ == Seq::<char>::empty(),
            r.level is Info,
            r.metadata is None,
            r.include_workflow_context == true,
    {
        LogConfig {
            message: String::new(),
            level: LogLevel::Info,
            metadata: None,
            include_workflow_context: true,
        }
    }
}

/// A structured log entry.
#[derive(Debug, Clone)]
pub struct LogEntry {
    pub timestamp: String,
    pub level: String,
    pub message: String,
    pub project: Option<LogContext>,
    pub service: Option<LogContext>,
    pub workflow: Option<WorkflowLogContext>,
    pub component: Option<ComponentLogContext>,
    pub metadata: Option<Vec<(String, JsonValue)>>,
}

/// A generic id-and-name context for a log entry.
#[derive(Debug, Clone)]
pub struct LogContext {
    pub id: String,
    pub name: String,
}

/// The workflow context of a log entry.
#[derive(Debug, Clone)]
pub struct WorkflowLogContext {
    pub id: String,
    pub name: String,
    pub run_id: String,
}

/// The component context of a log entry.
#[derive(Debug, Clone)]
pub struct ComponentLogContext {
    pub id: String,
    pub name: String,
    pub component_type: String,
}

/// Input of the start component: the workflow caller provides everything.
#[derive(Debug, Clone)]
pub struct StartInput {
}

/// Output of the start component.
#[derive(Debug, Clone)]
pub struct StartOutput {
    pub started_at: String,
}

impl StartOutput {
    /// A start record stamped with the current time.
    pub fn now() -> Self {
        StartOutput { started_at: now_rfc3339() }
    }
}

/// Configuration of the start component.
#[derive(Debug, Clone)]
pub struct StartConfig {
    pub trigger_type: Option<String>,
    pub schedule: Option<String>,
    pub webhook_config: Option<WebhookConfig>,
}

impl Default for StartConfig {
    fn default() -> (r: Self)
        ensures
            r.trigger_type is None,
            r.schedule is None,
            r.webhook_config is None,
    {
        StartConfig { trigger_type: None, schedule: None, webhook_config: None }
    }
}

/// Configuration of a webhook trigger.
#[derive(Debug, Clone)]
pub struct WebhookConfig {
    pub method: String,
    pub content_type: Option<String>,
}

/// Input of the stop component.
#[derive(Debug, Clone)]
pub struct StopInput {
    pub result: Option<JsonValue>,
}

/// Output of the stop component.
#[derive(Debug, Clone)]
pub struct StopOutput {
    pub success: bool,
    pub result: JsonValue,
    pub completed_at: String,
}

impl StopOutput {
    /// A successful completion record.
    pub fn success(result: JsonValue) -> (r: Self)
        ensures
            r.success == true,
            r.result == result,
    {
        StopOutput { success: true, result, completed_at: now_rfc3339() }
    }

    /// A failed completion record carrying the error message.
    pub fn failure(error: String) -> (r: Self)
        ensures
            r.success == false,
            r.result is Obj,
    {
        let mut fields: Vec<(String, JsonValue)> = Vec::new();
        fields.push((String::from_str("error"), JsonValue::Str(error)));
        StopOutput { success: false, result: JsonValue::Obj(fields), completed_at: now_rfc3339() }
    }
}

/// Configuration of the stop component.
#[derive(Debug, Clone)]
pub struct StopConfig {
    pub result_mapping: Option<String>,
    pub include_metadata: bool,
}

impl Default for StopConfig {
    fn default() -> (r: Self)
        ensures
            r.result_mapping is None,
            r.include_metadata == false,
    {
        StopConfig { result_mapping: None, include_metadata: false }
    }
}

/// Where a runtime variable lives.
#[derive(Debug, Clone, Copy, PartialEq, Eq, Structural)]
pub enum VariableScope {
    Service,
    Project,
    Workflow,
}

impl Default for VariableScope {
    fn default() -> (r: Self)
        ensures
            r is Service,
    {
        VariableScope::Service
    }
}

/// The lowercase name of a variable scope.
pub open spec fn spec_scope_str(s: VariableScope) -> Seq<char> {
    match s {
        VariableScope::Service => "service"@,
        VariableScope::Project => "project"@,
        VariableScope::Workflow => "workflow"@,
    }
}

impl VariableScope {
    /// The lowercase name of this scope.
    pub fn as_str(&self) -> (r: &'static str)
        ensures
            r@ == spec_scope_str(*self),
    {
        match self {
            VariableScope::Service => "service",
            VariableScope::Project => "project",
            VariableScope::Workflow => "workflow",
        }
    }
}

/// How a runtime variable is persisted.
#[derive(Debug, Clone, Copy, PartialEq, Eq, Structural)]
pub enum PersistenceStrategy {
    InMemory,
    WorkflowState,
    ExternalStore,
}

impl Default for PersistenceStrategy {
    fn default() -> (r: Self)
        ensures
            r is InMemory,
    {
        PersistenceStrategy::InMemory
    }
}

/// The runtime type of a variable.
#[derive(Debug, Clone, Copy, PartialEq, Eq, Structural)]
pub enum RuntimeVariableType {
    String,
    Number,
    Boolean,
    Object,
    Array,
    Any,
}

impl Default for RuntimeVariableType {
    fn default() -> (r: Self)
        ensures
            r is Any,
    {
        RuntimeVariableType::Any
    }
}

/// The TypeScript type for a runtime variable type.
pub open spec fn spec_runtime_type_ts(t: RuntimeVariableType) -> Seq<char> {
    match t {
        RuntimeVariableType::String => "string"@,
        RuntimeVariableType::Number => "number"@,
        RuntimeVariableType::Boolean => "boolean"@,
        RuntimeVariableType::Object => "Record<string, unknown>"@,
        RuntimeVariableType::Array => "unknown[]"@,
        RuntimeVariableType::Any => "unknown"@,
    }
}

impl RuntimeVariableType {
    /// The TypeScript type for this runtime type.
    pub fn to_typescript(&self) -> (r: &'static str)
        ensures
            r@ == spec_runtime_type_ts(*self),
    {
        match self {
            RuntimeVariableType::String => "string",
            RuntimeVariableType::Number => "number",
            RuntimeVariableType::Boolean => "boolean",
            RuntimeVariableType::Object => "Record<string, unknown>",
            RuntimeVariableType::Array => "unknown[]",
            RuntimeVariableType::Any => "unknown",
        }
    }
}

/// Input of the service-variable component.
#[derive(Debug, Clone)]
pub struct ServiceVariableInput {
    pub name: String,
    pub initial_value: Option<JsonValue>,
    pub metadata: Option<Vec<(String, JsonValue)>>,
}

/// Output of the service-variable component.
#[derive(Debug, Clone)]
pub struct ServiceVariableOutput {
    pub value: JsonValue,
    pub created: bool,
    pub last_updated: String,
}

/// Configuration of the service-variable component.
#[derive(Debug, Clone)]
pub struct ServiceVariableConfig {
    pub name: String,
    pub variable_type: RuntimeVariableType,
    pub default_value: Option<JsonValue>,
    pub description: Option<String>,
    pub required: bool,
    pub persistence: PersistenceStrategy,
    pub ttl: Option<String>,
}

/// Input of the project-variable component.
#[derive(Debug, Clone)]
pub struct ProjectVariableInput {
    pub name: String,
    pub requesting_service_id: Option<String>,
    pub initial_value: Option<JsonValue>,
    pub metadata: Option<Vec<(String, JsonValue)>>,
}

/// Output of the project-variable component.
#[derive(Debug, Clone)]
pub struct ProjectVariableOutput {
    pub value: JsonValue,
    pub created: bool,
    pub last_updated: String,
    pub last_updated_by: Option<String>,
}

/// Configuration of the project-variable component.
#[derive(Debug, Clone)]
pub struct ProjectVariableConfig {
    pub name: String,
    pub variable_type: RuntimeVariableType,
    pub default_value: Option<JsonValue>,
    pub description: Option<String>,
    pub required: bool,
    pub allowed_services: Vec<String>,
    pub read_only: bool,
}

/// Input of the get-variable activity.
#[derive(Debug, Clone)]
pub struct GetVariableInput {
    pub name: String,
    pub scope: VariableScope,
    pub service_id: Option<String>,
}

/// Output of the get-variable activity.
#[derive(Debug, Clone)]
pub struct GetVariableOutput {
    pub value: Option<JsonValue>,
    pub exists: bool,
    pub metadata: Option<VariableMetadata>,
}

/// Metadata about a stored variable.
#[derive(Debug, Clone)]
pub struct VariableMetadata {
    pub variable_type: RuntimeVariableType,
    pub created_at: String,
    pub updated_at: String,
    pub scope: VariableScope,
    pub owner_service_id: Option<String>,
}

/// Configuration of the get-variable activity.
#[derive(Debug, Clone)]
pub struct GetVariableConfig {
    pub name: String,
    pub scope: VariableScope,
    pub default_value: Option<JsonValue>,
    pub throw_if_missing: bool,
}

/// Input of the set-variable activity.
#[derive(Debug, Clone)]
pub struct SetVariableInput {
    pub name: String,
    pub value: JsonValue,
    pub scope: VariableScope,
    pub service_id: Option<String>,
}

/// Output of the set-variable activity.
#[derive(Debug, Clone)]
pub struct SetVariableOutput {
    pub success: bool,
    pub previous_value: Option<JsonValue>,
    pub created: bool,
    pub updated_at: String,
}

/// Configuration of the set-variable activity.
#[derive(Debug, Clone)]
pub struct SetVariableConfig {
    pub name: String,
    pub scope: VariableScope,
    pub value_expression: Option<String>,
    pub static_value: Option<JsonValue>,
    pub create_if_missing: bool,
    pub merge: bool,
}

/// Relies on chrono's Utc::now and to_rfc3339: the current moment in time,
/// rendered as an RFC 3339 timestamp.  Nothing is promised of the value.
#[verifier::external_body]
pub fn now_rfc3339() -> String {
    chrono::Utc::now().to_rfc3339()
}

/// Relies on uuid's Uuid::new_v4: a freshly generated random identifier,
/// rendered in its hyphenated form.  Nothing is promised of the value.
#[verifier::external_body]
pub fn new_uuid() -> String {
    uuid::Uuid::new_v4().to_string()
}

} // verus!
