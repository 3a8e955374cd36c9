//! The graph model of a workflow.
//!
//! A workflow is a set of typed nodes joined by directed edges, together with
//! declared variables and settings.  The model is immutable during a compile:
//! the validator and the generator borrow it and produce new structures.

use crate::json::JsonValue;
use vstd::prelude::*;

verus! {

/// The closed set of node types.  Every validation and lowering rule
/// dispatches exhaustively over this enumeration.
#[derive(Debug, Clone, Copy, PartialEq, Eq, Hash, Structural)]
pub enum NodeType {
    Trigger,
    Activity,
    Agent,
    Conditional,
    Loop,
    ChildWorkflow,
    Signal,
    Phase,
    Retry,
    StateVariable,
    ApiEndpoint,
    Condition,
    End,
    DataIn,
    DataOut,
    KongLogging,
    KongCache,
    KongCors,
    GraphqlGateway,
    McpServer,
}

impl NodeType {
    /// Whether this node type is the trigger (start) type.
    pub fn is_trigger(&self) -> (r: bool)
        ensures
            r == (*self is Trigger),
    {
        matches!(self, NodeType::Trigger)
    }

    /// Whether this node type is the end type.
    pub fn is_end(&self) -> (r: bool)
        ensures
            r == (*self is End),
    {
        matches!(self, NodeType::End)
    }

    /// Whether this node type is lowered as an activity call.
    pub fn is_activity(&self) -> (r: bool)
        ensures
            r == (*self is Activity || *self is Agent),
    {
        matches!(self, NodeType::Activity | NodeType::Agent)
    }

    /// Whether this node type is a Kong gateway component.
    pub fn is_kong_component(&self) -> (r: bool)
        ensures
            r == (*self is KongLogging || *self is KongCache || *self is KongCors),
    {
        matches!(self, NodeType::KongLogging | NodeType::KongCache | NodeType::KongCors)
    }
}

/// A retry strategy for activities.
#[derive(Debug, Clone, Copy, PartialEq, Eq, Structural)]
pub enum RetryStrategy {
    KeepTrying,
    FailAfterX,
    ExponentialBackoff,
    NoRetries,
}

impl Default for RetryStrategy {
    fn default() -> (r: Self)
        ensures
            r is NoRetries,
    {
        RetryStrategy::NoRetries
    }
}

/// A retry policy.  Each field is optional and defaulted at the point of
/// use; the backoff coefficient is kept as its literal text.
#[derive(Debug, PartialEq, Eq)]
pub struct RetryPolicy {
    pub strategy: RetryStrategy,
    pub max_attempts: Option<u32>,
    pub initial_interval: Option<String>,
    pub max_interval: Option<String>,
    pub backoff_coefficient: Option<String>,
}

impl Clone for RetryPolicy {
    /// A copy holding exactly the same policy.
    fn clone(&self) -> (r: Self)
        ensures
            r == *self,
    {
        RetryPolicy {
            strategy: self.strategy,
            max_attempts: self.max_attempts,
            initial_interval: match &self.initial_interval {
                Option::Some(s) => Option::Some(s.clone()),
                Option::None => Option::None,
            },
            max_interval: match &self.max_interval {
                Option::Some(s) => Option::Some(s.clone()),
                Option::None => Option::None,
            },
            backoff_coefficient: match &self.backoff_coefficient {
                Option::Some(s) => Option::Some(s.clone()),
                Option::None => Option::None,
            },
        }
    }
}

impl Default for RetryPolicy {
    fn default() -> (r: Self)
        ensures
            r.strategy is NoRetries,
            r.max_attempts is None,
            r.initial_interval is None,
            r.max_interval is None,
            r.backoff_coefficient is None,
    {
        RetryPolicy {
            strategy: RetryStrategy::NoRetries,
            max_attempts: None,
            initial_interval: None,
            max_interval: None,
            backoff_coefficient: None,
        }
    }
}

/// The loosely-typed configuration bag of a node.  Which fields matter
/// depends on the node's type; extraction into per-component configuration
/// records happens in the code generator.
#[derive(Debug, Clone)]
pub struct NodeData {
    pub label: String,
    pub component_id: Option<String>,
    pub component_name: Option<String>,
    pub activity_name: Option<String>,
    pub signal_name: Option<String>,
    pub config: Option<Vec<(String, JsonValue)>>,
    pub input: Option<Vec<(String, JsonValue)>>,
    pub timeout: Option<String>,
    pub retry_policy: Option<RetryPolicy>,
    pub condition: Option<String>,
    pub workflow_id: Option<String>,
    pub variable_name: Option<String>,
    pub variable_type: Option<String>,
    pub default_value: Option<JsonValue>,
    pub trigger_type: Option<String>,
    pub schedule: Option<String>,
    pub result_mapping: Option<String>,
    pub include_metadata: Option<bool>,
    pub log_message: Option<String>,
    pub log_level: Option<String>,
    pub include_workflow_context: Option<bool>,
    pub variable_scope: Option<String>,
    pub persistence: Option<String>,
    pub ttl: Option<String>,
    pub allowed_services: Option<Vec<String>>,
    pub read_only: Option<bool>,
    pub throw_if_missing: Option<bool>,
    pub create_if_missing: Option<bool>,
    pub merge: Option<bool>,
    pub value_expression: Option<String>,
    pub static_value: Option<JsonValue>,
    pub description: Option<String>,
}

impl Default for NodeData {
    fn default() -> (r: Self)
        ensures
            r.label@ == Seq::<char>::empty(),
            r.component_id is None,
            r.component_name is None,
            r.activity_name is None,
            r.signal_name is None,
            r.config is None,
            r.input is None,
            r.timeout is None,
            r.retry_policy is None,
            r.condition is None,
            r.workflow_id is None,
            r.variable_name is None,
            r.variable_type is None,
            r.default_value is None,
            r.trigger_type is None,
            r.schedule is None,
            r.result_mapping is None,
            r.include_metadata is None,
            r.log_message is None,
            r.log_level is None,
            r.include_workflow_context is None,
            r.variable_scope is None,
            r.persistence is None,
            r.ttl is None,
            r.allowed_services is None,
            r.read_only is None,
            r.throw_if_missing is None,
            r.create_if_missing is None,
            r.merge is None,
            r.value_expression is None,
            r.static_value is None,
            r.description is None,
    {
        NodeData {
            label: String::new(),
            component_id: None,
            component_name: None,
            activity_name: None,
            signal_name: None,
            config: None,
            input: None,
            timeout: None,
            retry_policy: None,
            condition: None,
            workflow_id: None,
            variable_name: None,
            variable_type: None,
            default_value: None,
            trigger_type: None,
            schedule: None,
            result_mapping: None,
            include_metadata: None,
            log_message: None,
            log_level: None,
            include_workflow_context: None,
            variable_scope: None,
            persistence: None,
            ttl: None,
            allowed_services: None,
            read_only: None,
            throw_if_missing: None,
            create_if_missing: None,
            merge: None,
            value_expression: None,
            static_value: None,
            description: None,
        }
    }
}

/// A node of the workflow graph.
#[derive(Debug, Clone)]
pub struct WorkflowNode {
    pub id: String,
    pub node_type: NodeType,
    pub data: NodeData,
}

/// The activity identifier that a node resolves to: its explicit activity
/// name, else its component name.
pub open spec fn spec_activity_name(n: WorkflowNode) -> Option<Seq<char>> {
    match n.data.activity_name {
        Option::Some(a) => Option::Some(a@),
        Option::None => match n.data.component_name {
            Option::Some(c) => Option::Some(c@),
            Option::None => Option::None,
        },
    }
}

impl WorkflowNode {
    /// The effective activity name of this node: the explicit activity name,
    /// else the component name.
    pub fn activity_name(&self) -> (r: Option<&String>)
        ensures
            match r {
                Option::Some(s) => spec_activity_name(*self) == Option::Some(s@),
                Option::None => spec_activity_name(*self) is None,
            },
    {
        match &self.data.activity_name {
            Option::Some(a) => Option::Some(a),
            Option::None => match &self.data.component_name {
                Option::Some(c) => Option::Some(c),
                Option::None => Option::None,
            },
        }
    }

    /// Whether this node is the workflow trigger.
    pub fn is_trigger(&self) -> (r: bool)
        ensures
            r == (self.node_type is Trigger),
    {
        self.node_type.is_trigger()
    }

    /// Whether this node is an end node.
    pub fn is_end(&self) -> (r: bool)
        ensures
            r == (self.node_type is End),
    {
        self.node_type.is_end()
    }
}

/// An edge of the workflow graph, from `source` to `target`.
#[derive(Debug, Clone)]
pub struct WorkflowEdge {
    pub id: String,
    pub source: String,
    pub target: String,
    pub source_handle: Option<String>,
    pub target_handle: Option<String>,
    pub label: Option<String>,
    pub edge_type: Option<String>,
}

impl WorkflowEdge {
    /// A new edge with the minimal required fields.
    pub fn new(id: String, source: String, target: String) -> (r: Self)
        ensures
            r.id@ == id@,
            r.source@ == source@,
            r.target@ == target@,
            r.source_handle is None,
            r.target_handle is None,
            r.label is None,
            r.edge_type is None,
    {
        WorkflowEdge {
            id,
            source,
            target,
            source_handle: None,
            target_handle: None,
            label: None,
            edge_type: None,
        }
    }

    /// This edge with its label set.
    pub fn with_label(self, label: String) -> (r: Self)
        ensures
            r.id@ == self.id@,
            r.source@ == self.source@,
            r.target@ == self.target@,
            r.label == Option::Some(label),
            r.source_handle == self.source_handle,
            r.target_handle == self.target_handle,
            r.edge_type == self.edge_type,
    {
        WorkflowEdge { label: Option::Some(label), ..self }
    }
}

/// A declared variable type.
#[derive(Debug, Clone, Copy, PartialEq, Eq, Structural)]
pub enum VariableType {
    String,
    Number,
    Boolean,
    Object,
    Array,
    Any,
}

impl Default for VariableType {
    fn default() -> (r: Self)
        ensures
            r is Any,
    {
        VariableType::Any
    }
}

impl VariableType {
    /// The TypeScript type that a declared variable of this type becomes.
    pub fn to_typescript(&self) -> (r: &'static str)
        ensures
            r@ == spec_variable_type_ts(*self),
    {
        match self {
            VariableType::String => "string",
            VariableType::Number => "number",
            VariableType::Boolean => "boolean",
            VariableType::Object => "Record<string, unknown>",
            VariableType::Array => "unknown[]",
            VariableType::Any => "unknown",
        }
    }
}

/// The TypeScript type name for a declared variable type.
pub open spec fn spec_variable_type_ts(t: VariableType) -> Seq<char> {
    match t {
        VariableType::String => "string"@,
        VariableType::Number => "number"@,
        VariableType::Boolean => "boolean"@,
        VariableType::Object => "Record<string, unknown>"@,
        VariableType::Array => "unknown[]"@,
        VariableType::Any => "unknown"@,
    }
}

/// A declared workflow variable.
#[derive(Debug, Clone)]
pub struct WorkflowVariable {
    pub name: String,
    pub var_type: VariableType,
    pub initial_value: Option<JsonValue>,
    pub description: Option<String>,
    pub required: bool,
}

/// Whether `v` is the default document for a variable of type `t` with no
/// declared initial value: the empty string, zero, false, the empty object
/// or array, or null.
pub open spec fn spec_is_type_default(t: VariableType, v: JsonValue) -> bool {
    match t {
        VariableType::String => v is Str && v->Str_0@ == Seq::<char>::empty(),
        VariableType::Number => v is Num && v->Num_0@ == "0"@,
        VariableType::Boolean => v == JsonValue::Bool(false),
        VariableType::Object => v is Obj && v->Obj_0@.len() == 0,
        VariableType::Array => v is Arr && v->Arr_0@.len() == 0,
        VariableType::Any => v is Null,
    }
}

impl WorkflowVariable {
    /// A new variable with the given name and type, no initial value.
    pub fn new(name: String, var_type: VariableType) -> (r: Self)
        ensures
            r.name@ == name@,
            r.var_type == var_type,
            r.initial_value is None,
            r.description is None,
            r.required == false,
    {
        WorkflowVariable { name, var_type, initial_value: None, description: None, required: false }
    }

    /// The declared initial value of this variable, else the default
    /// document for its type.
    pub fn default_value(&self) -> (r: JsonValue)
        ensures
            match self.initial_value {
                Option::Some(v) => crate::json::json_eqv(r, v),
                Option::None => spec_is_type_default(self.var_type, r),
            },
    {
        match &self.initial_value {
            Option::Some(v) => v.clone(),
            Option::None => match self.var_type {
                VariableType::String => JsonValue::Str(String::new()),
                VariableType::Number => JsonValue::Num(String::from_str("0")),
                VariableType::Boolean => JsonValue::Bool(false),
                VariableType::Object => JsonValue::Obj(Vec::new()),
                VariableType::Array => JsonValue::Arr(Vec::new()),
                VariableType::Any => JsonValue::Null,
            },
        }
    }

    /// The TypeScript type of this variable.
    pub fn to_typescript_type(&self) -> (r: &'static str)
        ensures
            r@ == spec_variable_type_ts(self.var_type),
    {
        self.var_type.to_typescript()
    }
}

/// Configuration for a long-running workflow.
#[derive(Debug, Clone, PartialEq, Eq)]
pub struct LongRunningConfig {
    pub auto_continue_as_new: bool,
    pub max_history_events: u32,
    pub max_duration_ms: u64,
    pub preserve_state: bool,
}

/// The default cap on history events for a long-running workflow.
pub fn default_max_history_events() -> (r: u32)
    ensures
        r == 10000,
{
    10000
}

/// The default cap on workflow duration for a long-running workflow: one day.
pub fn default_max_duration_ms() -> (r: u64)
    ensures
        r == 86400000,
{
    86400000
}

/// Whether a long-running workflow preserves state across continuation by
/// default.
pub fn default_preserve_state() -> (r: bool)
    ensures
        r == true,
{
    true
}

/// The default for boolean settings that are on unless switched off.
pub fn default_true() -> (r: bool)
    ensures
        r == true,
{
    true
}

impl Default for LongRunningConfig {
    fn default() -> (r: Self)
        ensures
            r.auto_continue_as_new == false,
            r.max_history_events == 10000,
            r.max_duration_ms == 86400000,
            r.preserve_state == true,
    {
        LongRunningConfig {
            auto_continue_as_new: false,
            max_history_events: 10000,
            max_duration_ms: 86400000,
            preserve_state: true,
        }
    }
}

/// Whether a workflow is a one-shot task or a long-lived service.
#[derive(Debug, Clone, Copy, PartialEq, Eq, Structural)]
pub enum WorkflowType {
    Task,
    Service,
}

impl Default for WorkflowType {
    fn default() -> (r: Self)
        ensures
            r is Task,
    {
        WorkflowType::Task
    }
}

/// Workflow-level settings: defaults that apply where a node gives none.
#[derive(Debug, Clone)]
pub struct WorkflowSettings {
    pub timeout: Option<String>,
    pub retry_policy: Option<RetryPolicy>,
    pub task_queue: Option<String>,
    pub description: Option<String>,
    pub version: Option<String>,
    pub long_running: Option<LongRunningConfig>,
    pub workflow_type: Option<WorkflowType>,
}

impl Default for WorkflowSettings {
    fn default() -> (r: Self)
        ensures
            r.timeout is None,
            r.retry_policy is None,
            r.task_queue is None,
            r.description is None,
            r.version is None,
            r.long_running is None,
            r.workflow_type is None,
    {
        WorkflowSettings {
            timeout: None,
            retry_policy: None,
            task_queue: None,
            description: None,
            version: None,
            long_running: None,
            workflow_type: None,
        }
    }
}

/// The workflow timeout that applies where a node sets none.
pub open spec fn spec_default_timeout(s: WorkflowSettings) -> Seq<char> {
    match s.timeout {
        Option::Some(t) => t@,
        Option::None => "1m"@,
    }
}

/// The task queue that the worker listens on.
pub open spec fn spec_task_queue(s: WorkflowSettings) -> Seq<char> {
    match s.task_queue {
        Option::Some(q) => q@,
        Option::None => "default"@,
    }
}

impl WorkflowSettings {
    /// Whether these settings declare a long-running workflow.
    pub fn is_long_running(&self) -> (r: bool)
        ensures
            r == match self.long_running {
                Option::Some(lr) => lr.auto_continue_as_new,
                Option::None => false,
            },
    {
        match &self.long_running {
            Option::Some(lr) => lr.auto_continue_as_new,
            Option::None => false,
        }
    }

    /// The default activity timeout, `1m` where none is set.
    pub fn default_timeout(&self) -> (r: String)
        ensures
            r@ == spec_default_timeout(*self),
    {
        match &self.timeout {
            Option::Some(t) => t.clone(),
            Option::None => {
                let r = String::from_str("1m");
                r
            },
        }
    }

    /// The task queue name, `default` where none is set.
    pub fn task_queue(&self) -> (r: String)
        ensures
            r@ == spec_task_queue(*self),
    {
        match &self.task_queue {
            Option::Some(q) => q.clone(),
            Option::None => {
                let r = String::from_str("default");
                r
            },
        }
    }
}

/// Settings of the compiler itself.
#[derive(Debug, Clone)]
pub struct CompilerSettings {
    pub strict_mode: bool,
    pub include_comments: bool,
    pub source_maps: bool,
    pub typescript_target: String,
}

/// Whether generated TypeScript is checked in strict mode by default.
pub fn default_strict_mode() -> (r: bool)
    ensures
        r == true,
{
    true
}

/// Whether generated code carries comments by default.
pub fn default_include_comments() -> (r: bool)
    ensures
        r == true,
{
    true
}

/// The TypeScript language level that generated code targets by default.
pub fn default_typescript_target() -> (r: String)
    ensures
        r@ == "ES2022"@,
{
    String::from_str("ES2022")
}

impl Default for CompilerSettings {
    fn default() -> (r: Self)
        ensures
            r.strict_mode == true,
            r.include_comments == true,
            r.source_maps == false,
            r.typescript_target@ == "ES2022"@,
    {
        CompilerSettings {
            strict_mode: true,
            include_comments: true,
            source_maps: false,
            typescript_target: default_typescript_target(),
        }
    }
}

/// A complete workflow definition: the input of one compile call.
#[derive(Debug, Clone)]
pub struct WorkflowDefinition {
    pub id: String,
    pub name: String,
    pub nodes: Vec<WorkflowNode>,
    pub edges: Vec<WorkflowEdge>,
    pub variables: Vec<WorkflowVariable>,
    pub settings: WorkflowSettings,
}

/// Whether the graph holds a node with this id.
pub open spec fn spec_has_node(w: WorkflowDefinition, id: Seq<char>) -> bool {
    exists|i: int| 0 <= i < w.nodes@.len() && (#[trigger] w.nodes@[i]).id@ == id
}

/// Whether the graph holds an edge from `source` to `target`.
pub open spec fn spec_has_edge(w: WorkflowDefinition, source: Seq<char>, target: Seq<char>) -> bool {
    exists|i: int|
        0 <= i < w.edges@.len() && (#[trigger] w.edges@[i]).source@ == source
            && w.edges@[i].target@ == target
}

/// The number of trigger nodes in the graph.
pub open spec fn spec_trigger_count(w: WorkflowDefinition) -> nat {
    w.nodes@.filter(|n: WorkflowNode| n.node_type is Trigger).len()
}

/// The number of end nodes in the graph.
pub open spec fn spec_end_count(w: WorkflowDefinition) -> nat {
    w.nodes@.filter(|n: WorkflowNode| n.node_type is End).len()
}

/// Whether a node with this id touches any edge, as source or target.
pub open spec fn spec_has_incident_edge(w: WorkflowDefinition, id: Seq<char>) -> bool {
    exists|i: int|
        0 <= i < w.edges@.len() && ((#[trigger] w.edges@[i]).source@ == id || w.edges@[i].target@
            == id)
}

impl WorkflowDefinition {
    /// A new, empty workflow with the given id and name.
    pub fn new(id: String, name: String) -> (r: Self)
        ensures
            r.id@ == id@,
            r.name@ == name@,
            r.nodes@.len() == 0,
            r.edges@.len() == 0,
            r.variables@.len() == 0,
            r.settings.timeout is None,
            r.settings.retry_policy is None,
            r.settings.task_queue is None,
            r.settings.long_running is None,
    {
        WorkflowDefinition {
            id,
            name,
            nodes: Vec::new(),
            edges: Vec::new(),
            variables: Vec::new(),
            settings: WorkflowSettings::default(),
        }
    }

    /// Appends a node.
    pub fn add_node(&mut self, node: WorkflowNode)
        ensures
            final(self).nodes@ == old(self).nodes@.push(node),
            final(self).edges == old(self).edges,
            final(self).variables == old(self).variables,
            final(self).id == old(self).id,
            final(self).name == old(self).name,
            final(self).settings == old(self).settings,
    {
        self.nodes.push(node);
    }

    /// Appends an edge.
    pub fn add_edge(&mut self, edge: WorkflowEdge)
        ensures
            final(self).edges@ == old(self).edges@.push(edge),
            final(self).nodes == old(self).nodes,
            final(self).variables == old(self).variables,
            final(self).id == old(self).id,
            final(self).name == old(self).name,
            final(self).settings == old(self).settings,
    {
        self.edges.push(edge);
    }

    /// The first node with the given id, if any.
    pub fn find_node(&self, id: &str) -> (r: Option<&WorkflowNode>)
        ensures
            match r {
                Option::Some(n) => n.id@ == id@ && spec_has_node(*self, id@),
                Option::None => !spec_has_node(*self, id@),
            },
    {
        let mut i: usize = 0;
        while i < self.nodes.len()
            invariant
                i <= self.nodes@.len(),
                forall|j: int| 0 <= j < i ==> (#[trigger] self.nodes@[j]).id@ != id@,
            decreases self.nodes@.len() - i,
        {
            if crate::text::str_eq(self.nodes[i].id.as_str(), id) {
                return Option::Some(&self.nodes[i]);
            }
            i = i + 1;
        }
        Option::None
    }

    /// The first node with the given id, if any (an alias kept for callers
    /// of the older name).
    pub fn get_node(&self, id: &str) -> (r: Option<&WorkflowNode>)
        ensures
            match r {
                Option::Some(n) => n.id@ == id@ && spec_has_node(*self, id@),
                Option::None => !spec_has_node(*self, id@),
            },
    {
        self.find_node(id)
    }

    /// All edges leaving the given node, in declaration order.
    pub fn edges_from(&self, node_id: &str) -> (r: Vec<&WorkflowEdge>)
        ensures
            forall|j: int| 0 <= j < r@.len() ==> (#[trigger] r@[j]).source@ == node_id@,
    {
        let mut out: Vec<&WorkflowEdge> = Vec::new();
        let mut i: usize = 0;
        while i < self.edges.len()
            invariant
                i <= self.edges@.len(),
                forall|j: int| 0 <= j < out@.len() ==> (#[trigger] out@[j]).source@ == node_id@,
            decreases self.edges@.len() - i,
        {
            if crate::text::str_eq(self.edges[i].source.as_str(), node_id) {
                out.push(&self.edges[i]);
            }
            i = i + 1;
        }
        out
    }

    /// All edges entering the given node, in declaration order.
    pub fn edges_to(&self, node_id: &str) -> (r: Vec<&WorkflowEdge>)
        ensures
            forall|j: int| 0 <= j < r@.len() ==> (#[trigger] r@[j]).target@ == node_id@,
    {
        let mut out: Vec<&WorkflowEdge> = Vec::new();
        let mut i: usize = 0;
        while i < self.edges.len()
            invariant
                i <= self.edges@.len(),
                forall|j: int| 0 <= j < out@.len() ==> (#[trigger] out@[j]).target@ == node_id@,
            decreases self.edges@.len() - i,
        {
            if crate::text::str_eq(self.edges[i].target.as_str(), node_id) {
                out.push(&self.edges[i]);
            }
            i = i + 1;
        }
        out
    }

    /// All edges leaving the given node (an alias kept for callers of the
    /// older name).
    pub fn get_outgoing_edges(&self, node_id: &str) -> (r: Vec<&WorkflowEdge>)
        ensures
            forall|j: int| 0 <= j < r@.len() ==> (#[trigger] r@[j]).source@ == node_id@,
    {
        self.edges_from(node_id)
    }

    /// All edges entering the given node (an alias kept for callers of the
    /// older name).
    pub fn get_incoming_edges(&self, node_id: &str) -> (r: Vec<&WorkflowEdge>)
        ensures
            forall|j: int| 0 <= j < r@.len() ==> (#[trigger] r@[j]).target@ == node_id@,
    {
        self.edges_to(node_id)
    }

    /// The trigger node, if the graph has one.
    pub fn find_trigger(&self) -> (r: Option<&WorkflowNode>)
        ensures
            match r {
                Option::Some(n) => n.node_type is Trigger && spec_trigger_count(*self) > 0,
                Option::None => spec_trigger_count(*self) == 0,
            },
    {
        let mut i: usize = 0;
        while i < self.nodes.len()
            invariant
                i <= self.nodes@.len(),
                self.nodes@.take(i as int).filter(|n: WorkflowNode| n.node_type is Trigger).len()
                    == 0,
            decreases self.nodes@.len() - i,
        {
            if self.nodes[i].is_trigger() {
                proof {
                    lemma_filter_take_grow(self.nodes@, i as int);
                }
                return Option::Some(&self.nodes[i]);
            }
            proof {
                lemma_filter_take_step(self.nodes@, i as int);
            }
            i = i + 1;
        }
        proof {
            assert(self.nodes@.take(self.nodes@.len() as int) =~= self.nodes@);
        }
        Option::None
    }

    /// All end nodes, in declaration order.
    pub fn find_end_nodes(&self) -> (r: Vec<&WorkflowNode>)
        ensures
            forall|j: int| 0 <= j < r@.len() ==> (#[trigger] r@[j]).node_type is End,
    {
        let mut out: Vec<&WorkflowNode> = Vec::new();
        let mut i: usize = 0;
        while i < self.nodes.len()
            invariant
                i <= self.nodes@.len(),
                forall|j: int| 0 <= j < out@.len() ==> (#[trigger] out@[j]).node_type is End,
            decreases self.nodes@.len() - i,
        {
            if self.nodes[i].is_end() {
                out.push(&self.nodes[i]);
            }
            i = i + 1;
        }
        out
    }

    /// A safe PascalCase identifier for the generated workflow function,
    /// derived from the display name.
    pub fn function_name(&self) -> (r: String)
        ensures
            r@ == crate::text::spec_pascal_from(self.name@, 0, true),
    {
        crate::text::to_pascal_case(self.name.as_str())
    }

    /// Whether the workflow declares any variables.
    pub fn has_variables(&self) -> (r: bool)
        ensures
            r == (self.variables@.len() > 0),
    {
        self.variables.len() > 0
    }

    /// Whether the workflow has no nodes at all.
    pub fn is_empty(&self) -> (r: bool)
        ensures
            r == (self.nodes@.len() == 0),
    {
        self.nodes.len() == 0
    }

    /// The number of nodes.
    pub fn node_count(&self) -> (r: usize)
        ensures
            r == self.nodes@.len(),
    {
        self.nodes.len()
    }

    /// The number of edges.
    pub fn edge_count(&self) -> (r: usize)
        ensures
            r == self.edges@.len(),
    {
        self.edges.len()
    }
}

proof fn lemma_filter_take_grow(s: Seq<WorkflowNode>, i: int)
    requires
        0 <= i < s.len(),
        s[i].node_type is Trigger,
    ensures
        s.filter(|n: WorkflowNode| n.node_type is Trigger).len() > 0,
{
    let f = |n: WorkflowNode| n.node_type is Trigger;
    s.lemma_filter_contains(f, i);
    let out = s.filter(f);
    assert(out.contains(s[i]));
    let j = choose|j: int| 0 <= j < out.len() && out[j] == s[i];
    assert(out.len() > 0);
}

proof fn lemma_filter_take_step(s: Seq<WorkflowNode>, i: int)
    requires
        0 <= i < s.len(),
        !(s[i].node_type is Trigger),
        s.take(i).filter(|n: WorkflowNode| n.node_type is Trigger).len() == 0,
    ensures
        s.take(i + 1).filter(|n: WorkflowNode| n.node_type is Trigger).len() == 0,
{
    reveal(Seq::filter);
    let f = |n: WorkflowNode| n.node_type is Trigger;
    assert(s.take(i + 1).drop_last() =~= s.take(i));
    assert(s.take(i + 1).last() == s[i]);
    assert(s.take(i + 1).filter(f) =~= s.take(i).filter(f));
}

} // verus!
