//! The validation taxonomy: errors, warnings and the accumulated result.
//!
//! Errors block code generation; warnings never do.  Both form closed
//! enumerations: every validation pass maps each finding to exactly one kind.

use vstd::prelude::*;

verus! {

/// A structural or semantic defect that blocks code generation.
#[derive(Debug, Clone)]
pub enum ValidationError {
    /// The graph has no trigger node.
    NoStartNode,
    /// The graph has more than one trigger node; the payload lists them all.
    MultipleStartNodes(Vec<String>),
    /// The graph has no end node.
    NoEndNode,
    /// A node touches no edge in a graph of more than one node.
    OrphanNode(String),
    /// The edges contain a directed cycle; the payload lists its nodes.
    CycleDetected(Vec<String>),
    /// An edge's source names no existing node.
    InvalidEdgeSource(String),
    /// An edge's target names no existing node.
    InvalidEdgeTarget(String),
    /// A node references a variable that is neither declared nor a node id.
    UnknownVariable { node_id: String, var_name: String },
    /// An activity node resolves to no activity identifier.
    MissingActivityName { node_id: String },
    /// A node's configuration is unusable for its type.
    InvalidConfig { node_id: String, message: String },
    /// A node lacks a field its type requires.
    MissingRequiredField { node_id: String, field: String },
    /// The graph has no nodes at all.
    EmptyWorkflow,
    /// Two nodes share an id.
    DuplicateNodeId(String),
    /// Two edges share an id.
    DuplicateEdgeId(String),
    /// The trigger node has incoming edges.
    TriggerHasIncomingEdges { node_id: String },
    /// A node cannot be reached from the trigger over forward edges.
    UnreachableNode { node_id: String },
}

/// A non-fatal quality signal.
#[derive(Debug, Clone)]
pub enum ValidationWarning {
    /// An activity has no retry policy; the runtime default applies.
    NoRetryPolicy { node_id: String },
    /// An activity has no timeout; the workflow default applies.
    NoTimeout { node_id: String },
    /// A declared variable is never referenced.
    UnusedVariable { var_name: String },
    /// A non-end node has no outgoing edges.
    DeadEnd { node_id: String },
    /// A configuration value may reference something that does not exist.
    ConfigSuggestion { node_id: String, message: String },
    /// A recommended but optional field is missing.
    MissingOptionalField { node_id: String, field: String },
}

/// The `["a", "b"]` list form in which an error message names several nodes.
pub open spec fn spec_id_list(ids: Seq<String>) -> Seq<char>
    decreases ids,
{
    if ids.len() == 0 {
        "[]"@
    } else {
        seq!['['] + spec_id_list_body(ids) + seq![']']
    }
}

/// The inside of the id list: `"a", "b"` without the brackets.
pub open spec fn spec_id_list_body(ids: Seq<String>) -> Seq<char>
    decreases ids,
{
    if ids.len() == 0 {
        Seq::empty()
    } else if ids.len() == 1 {
        seq!['"'] + ids[0]@ + seq!['"']
    } else {
        spec_id_list_body(ids.drop_last()) + ", "@ + seq!['"'] + ids.last()@ + seq!['"']
    }
}

/// Renders a list of node ids as `["a", "b"]`.
pub fn format_id_list(ids: &Vec<String>) -> (r: String)
    ensures
        r@ == spec_id_list(ids@),
{
    let mut out = String::new();
    crate::text::push_char(&mut out, '[');
    let ghost mid = out@;
    let mut i: usize = 0;
    while i < ids.len()
        invariant
            i <= ids@.len(),
            mid == seq!['['],
            out@ == mid + spec_id_list_body(ids@.take(i as int)),
        decreases ids@.len() - i,
    {
        if i > 0 {
            out.append(", ");
        }
        crate::text::push_char(&mut out, '"');
        out.append(ids[i].as_str());
        crate::text::push_char(&mut out, '"');
        proof {
            let pre = ids@.take(i as int);
            let now = ids@.take(i + 1);
            assert(now.drop_last() =~= pre);
            assert(now.last() == ids@[i as int]);
            if i == 0 {
                assert(now[0] == ids@[0]);
            }
            assert(out@ =~= mid + spec_id_list_body(now));
        }
        i = i + 1;
    }
    crate::text::push_char(&mut out, ']');
    proof {
        assert(ids@.take(ids@.len() as int) =~= ids@);
        if ids@.len() == 0 {
            reveal_strlit("[]");
            assert(out@ =~= spec_id_list(ids@));
        } else {
            assert(out@ =~= spec_id_list(ids@));
        }
    }
    out
}

/// The human-readable message for each error kind.
pub open spec fn spec_error_message(e: ValidationError) -> Seq<char> {
    match e {
        ValidationError::NoStartNode =>
            "No start node found. Workflow must have exactly one trigger node."@,
        ValidationError::MultipleStartNodes(ids) => "Multiple start nodes found: "@
            + spec_id_list(ids@) + ". Workflow must have exactly one trigger."@,
        ValidationError::NoEndNode =>
            "No end node found. Workflow must have at least one end node."@,
        ValidationError::OrphanNode(id) => "Orphan node '"@ + id@ + "' has no connections."@,
        ValidationError::CycleDetected(ids) => "Cycle detected involving nodes: "@
            + spec_id_list(ids@),
        ValidationError::InvalidEdgeSource(id) => "Invalid edge: source node '"@ + id@
            + "' not found."@,
        ValidationError::InvalidEdgeTarget(id) => "Invalid edge: target node '"@ + id@
            + "' not found."@,
        ValidationError::UnknownVariable { node_id, var_name } => "Node '"@ + node_id@
            + "' references unknown variable '"@ + var_name@ + "'."@,
        ValidationError::MissingActivityName { node_id } => "Activity node '"@ + node_id@
            + "' is missing required component_name or activity_name."@,
        ValidationError::InvalidConfig { node_id, message } => "Node '"@ + node_id@
            + "' has invalid configuration: "@ + message@,
        ValidationError::MissingRequiredField { node_id, field } => "Node '"@ + node_id@
            + "' is missing required field: "@ + field@,
        ValidationError::EmptyWorkflow => "Empty workflow: no nodes defined."@,
        ValidationError::DuplicateNodeId(id) => "Duplicate node ID: '"@ + id@ + "'"@,
        ValidationError::DuplicateEdgeId(id) => "Duplicate edge ID: '"@ + id@ + "'"@,
        ValidationError::TriggerHasIncomingEdges { node_id } => "Start node '"@ + node_id@
            + "' has incoming edges, which is not allowed."@,
        ValidationError::UnreachableNode { node_id } => "Node '"@ + node_id@
            + "' is unreachable from the start node."@,
    }
}

impl ValidationError {
    /// The human-readable message for this error.
    pub fn message(&self) -> (r: String)
        ensures
            r@ == spec_error_message(*self),
    {
        let mut out = String::new();
        match self {
            ValidationError::NoStartNode => {
                out.append("No start node found. Workflow must have exactly one trigger node.");
            },
            ValidationError::MultipleStartNodes(ids) => {
                out.append("Multiple start nodes found: ");
                let list = format_id_list(ids);
                out.append(list.as_str());
                out.append(". Workflow must have exactly one trigger.");
            },
            ValidationError::NoEndNode => {
                out.append("No end node found. Workflow must have at least one end node.");
            },
            ValidationError::OrphanNode(id) => {
                out.append("Orphan node '");
                out.append(id.as_str());
                out.append("' has no connections.");
            },
            ValidationError::CycleDetected(ids) => {
                out.append("Cycle detected involving nodes: ");
                let list = format_id_list(ids);
                out.append(list.as_str());
            },
            ValidationError::InvalidEdgeSource(id) => {
                out.append("Invalid edge: source node '");
                out.append(id.as_str());
                out.append("' not found.");
            },
            ValidationError::InvalidEdgeTarget(id) => {
                out.append("Invalid edge: target node '");
                out.append(id.as_str());
                out.append("' not found.");
            },
            ValidationError::UnknownVariable { node_id, var_name } => {
                out.append("Node '");
                out.append(node_id.as_str());
                out.append("' references unknown variable '");
                out.append(var_name.as_str());
                out.append("'.");
            },
            ValidationError::MissingActivityName { node_id } => {
                out.append("Activity node '");
                out.append(node_id.as_str());
                out.append("' is missing required component_name or activity_name.");
            },
            ValidationError::InvalidConfig { node_id, message } => {
                out.append("Node '");
                out.append(node_id.as_str());
                out.append("' has invalid configuration: ");
                out.append(message.as_str());
            },
            ValidationError::MissingRequiredField { node_id, field } => {
                out.append("Node '");
                out.append(node_id.as_str());
                out.append("' is missing required field: ");
                out.append(field.as_str());
            },
            ValidationError::EmptyWorkflow => {
                out.append("Empty workflow: no nodes defined.");
            },
            ValidationError::DuplicateNodeId(id) => {
                out.append("Duplicate node ID: '");
                out.append(id.as_str());
                out.append("'");
            },
            ValidationError::DuplicateEdgeId(id) => {
                out.append("Duplicate edge ID: '");
                out.append(id.as_str());
                out.append("'");
            },
            ValidationError::TriggerHasIncomingEdges { node_id } => {
                out.append("Start node '");
                out.append(node_id.as_str());
                out.append("' has incoming edges, which is not allowed.");
            },
            ValidationError::UnreachableNode { node_id } => {
                out.append("Node '");
                out.append(node_id.as_str());
                out.append("' is unreachable from the start node.");
            },
        }
        out
    }
}

/// The human-readable message for each warning kind.
pub open spec fn spec_warning_message(w: ValidationWarning) -> Seq<char> {
    match w {
        ValidationWarning::NoRetryPolicy { node_id } => "Activity '"@ + node_id@
            + "' has no retry policy configured."@,
        ValidationWarning::NoTimeout { node_id } => "Activity '"@ + node_id@
            + "' has no timeout configured."@,
        ValidationWarning::UnusedVariable { var_name } => "Variable '"@ + var_name@
            + "' is declared but never used."@,
        ValidationWarning::DeadEnd { node_id } => "Node '"@ + node_id@
            + "' has no outgoing edges but is not an end node."@,
        ValidationWarning::ConfigSuggestion { node_id, message } => "Node '"@ + node_id@ + "': "@
            + message@,
        ValidationWarning::MissingOptionalField { node_id, field } => "Node '"@ + node_id@
            + "' is missing optional field: "@ + field@,
    }
}

impl ValidationWarning {
    /// The human-readable message for this warning.
    pub fn message(&self) -> (r: String)
        ensures
            r@ == spec_warning_message(*self),
    {
        let mut out = String::new();
        match self {
            ValidationWarning::NoRetryPolicy { node_id } => {
                out.append("Activity '");
                out.append(node_id.as_str());
                out.append("' has no retry policy configured.");
            },
            ValidationWarning::NoTimeout { node_id } => {
                out.append("Activity '");
                out.append(node_id.as_str());
                out.append("' has no timeout configured.");
            },
            ValidationWarning::UnusedVariable { var_name } => {
                out.append("Variable '");
                out.append(var_name.as_str());
                out.append("' is declared but never used.");
            },
            ValidationWarning::DeadEnd { node_id } => {
                out.append("Node '");
                out.append(node_id.as_str());
                out.append("' has no outgoing edges but is not an end node.");
            },
            ValidationWarning::ConfigSuggestion { node_id, message } => {
                out.append("Node '");
                out.append(node_id.as_str());
                out.append("': ");
                out.append(message.as_str());
            },
            ValidationWarning::MissingOptionalField { node_id, field } => {
                out.append("Node '");
                out.append(node_id.as_str());
                out.append("' is missing optional field: ");
                out.append(field.as_str());
            },
        }
        out
    }
}

/// The accumulated outcome of validation.  `valid` is true exactly when
/// `errors` is empty; warnings never affect it.
#[derive(Debug)]
pub struct ValidationResult {
    pub valid: bool,
    pub errors: Vec<ValidationError>,
    pub warnings: Vec<ValidationWarning>,
}

/// The invariant of a validation result: the `valid` flag agrees with the
/// error list.
pub open spec fn spec_result_wf(r: ValidationResult) -> bool {
    r.valid <==> r.errors@.len() == 0
}

impl ValidationResult {
    /// An empty result: valid, with no findings yet.
    pub fn new() -> (r: Self)
        ensures
            spec_result_wf(r),
            r.valid,
            r.errors@.len() == 0,
            r.warnings@.len() == 0,
    {
        ValidationResult { valid: true, errors: Vec::new(), warnings: Vec::new() }
    }

    /// An empty, valid result (an alias kept for callers of the older name).
    pub fn success() -> (r: Self)
        ensures
            spec_result_wf(r),
            r.valid,
            r.errors@.len() == 0,
            r.warnings@.len() == 0,
    {
        ValidationResult::new()
    }

    /// A result holding exactly one error.
    pub fn failure(error: ValidationError) -> (r: Self)
        ensures
            spec_result_wf(r),
            !r.valid,
            r.errors@ == seq![error],
            r.warnings@.len() == 0,
    {
        let mut errors: Vec<ValidationError> = Vec::new();
        errors.push(error);
        proof {
            assert(errors@ =~= seq![error]);
        }
        ValidationResult { valid: false, errors, warnings: Vec::new() }
    }

    /// A result holding exactly one error (an alias kept for callers of the
    /// older name).
    pub fn with_error(error: ValidationError) -> (r: Self)
        ensures
            spec_result_wf(r),
            !r.valid,
            r.errors@ == seq![error],
            r.warnings@.len() == 0,
    {
        ValidationResult::failure(error)
    }

    /// Whether validation passed: no errors were recorded.
    pub fn is_valid(&self) -> (r: bool)
        requires
            spec_result_wf(*self),
        ensures
            r == (self.errors@.len() == 0),
            r == self.valid,
    {
        self.valid
    }

    /// Records an error; the result becomes invalid.
    pub fn add_error(&mut self, error: ValidationError)
        ensures
            final(self).errors@ == old(self).errors@.push(error),
            final(self).warnings == old(self).warnings,
            !final(self).valid,
            spec_result_wf(*old(self)) ==> spec_result_wf(*final(self)),
    {
        self.errors.push(error);
        self.valid = false;
    }

    /// Records a warning; validity is unchanged.
    pub fn add_warning(&mut self, warning: ValidationWarning)
        ensures
            final(self).warnings@ == old(self).warnings@.push(warning),
            final(self).errors == old(self).errors,
            final(self).valid == old(self).valid,
            spec_result_wf(*old(self)) ==> spec_result_wf(*final(self)),
    {
        self.warnings.push(warning);
    }

    /// Folds another result into this one, keeping every finding of both.
    pub fn merge(&mut self, other: ValidationResult)
        ensures
            final(self).errors@ == old(self).errors@ + other.errors@,
            final(self).warnings@ == old(self).warnings@ + other.warnings@,
            final(self).valid == (old(self).valid && other.valid),
            spec_result_wf(*old(self)) && spec_result_wf(other) ==> spec_result_wf(*final(self)),
    {
        let mut other = other;
        self.errors.append(&mut other.errors);
        self.warnings.append(&mut other.warnings);
        self.valid = self.valid && other.valid;
    }

    /// The number of errors recorded.
    pub fn error_count(&self) -> (r: usize)
        ensures
            r == self.errors@.len(),
    {
        self.errors.len()
    }

    /// The number of warnings recorded.
    pub fn warning_count(&self) -> (r: usize)
        ensures
            r == self.warnings@.len(),
    {
        self.warnings.len()
    }
}

} // verus!
