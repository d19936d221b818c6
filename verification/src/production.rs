//! Production workflows: their payloads, the update that advances a workflow,
//! and the queries that filter instances and issues.

use vstd::prelude::*;
use vstd::string::*;
use crate::text::{
    decimal, i64_to_string, id_filter, pairs_of, push_id, push_text, query_string,
    query_string_of, text_filter, KeyValue,
};

verus! {

/// A workflow that products of one type go through.
#[derive(Debug)]
pub struct ProductionWorkflow {
    pub id: i32,
    pub name: String,
    pub description: Option<String>,
    pub product_type_id: Option<i32>,
    pub is_default: bool,
    pub is_active: bool,
    pub created_by: Option<i32>,
    pub created_at: String,
    pub updated_at: String,
}

/// A workflow about to be created.
#[derive(Debug)]
pub struct NewProductionWorkflow {
    pub name: String,
    pub description: Option<String>,
    pub product_type_id: Option<i32>,
    pub is_default: Option<bool>,
    pub is_active: Option<bool>,
}

/// One step of a workflow. `auto_transition_conditions` holds its JSON
/// document as text.
#[derive(Debug)]
pub struct WorkflowStep {
    pub id: i32,
    pub workflow_id: i32,
    pub step_name: String,
    pub step_order: i32,
    pub description: Option<String>,
    pub is_mandatory: bool,
    pub requires_approval: bool,
    pub approval_role: Option<String>,
    pub estimated_duration_hours: Option<i32>,
    pub sla_hours: Option<i32>,
    pub auto_transition_conditions: Option<String>,
    pub created_at: String,
}

/// A workflow step about to be created.
#[derive(Debug)]
pub struct NewWorkflowStep {
    pub workflow_id: i32,
    pub step_name: String,
    pub step_order: i32,
    pub description: Option<String>,
    pub is_mandatory: Option<bool>,
    pub requires_approval: Option<bool>,
    pub approval_role: Option<String>,
    pub estimated_duration_hours: Option<i32>,
    pub sla_hours: Option<i32>,
    pub auto_transition_conditions: Option<String>,
}

/// One product's passage through a workflow.
#[derive(Debug)]
pub struct ProductWorkflowInstance {
    pub id: i32,
    pub product_id: i32,
    pub workflow_id: i32,
    pub current_step_id: Option<i32>,
    pub status: String,
    pub priority: String,
    pub assigned_team_id: Option<i32>,
    pub assigned_user_id: Option<i32>,
    pub started_at: String,
    pub completed_at: Option<String>,
    pub estimated_completion: Option<String>,
    pub actual_completion: Option<String>,
    pub notes: Option<String>,
    pub created_at: String,
    pub updated_at: String,
}

/// A workflow instance about to be created.
#[derive(Debug)]
pub struct NewProductWorkflowInstance {
    pub product_id: i32,
    pub workflow_id: i32,
    pub priority: Option<String>,
    pub assigned_team_id: Option<i32>,
    pub assigned_user_id: Option<i32>,
    pub estimated_completion: Option<String>,
    pub notes: Option<String>,
}

/// The fields of a workflow instance to change; `None` leaves a field as it is.
#[derive(Debug)]
pub struct UpdateProductWorkflowInstance {
    pub current_step_id: Option<i32>,
    pub status: Option<String>,
    pub priority: Option<String>,
    pub assigned_team_id: Option<i32>,
    pub assigned_user_id: Option<i32>,
    pub estimated_completion: Option<String>,
    pub actual_completion: Option<String>,
    pub notes: Option<String>,
}

/// How many products are in a status.
#[derive(Debug)]
pub struct StatusCount {
    pub status: String,
    pub count: i64,
}

/// How many products have a priority.
#[derive(Debug)]
pub struct PriorityCount {
    pub priority: String,
    pub count: i64,
}

/// A problem reported against a product in production.
#[derive(Debug)]
pub struct ProductionIssue {
    pub id: i32,
    pub product_id: i32,
    pub workflow_instance_id: Option<i32>,
    pub issue_type: String,
    pub severity: String,
    pub title: String,
    pub description: String,
    pub status: String,
    pub reported_by: Option<i32>,
    pub assigned_to: Option<i32>,
    pub resolved_by: Option<i32>,
    pub reported_at: String,
    pub due_date: Option<String>,
    pub resolved_at: Option<String>,
    pub resolution_notes: Option<String>,
    pub impact_assessment: Option<String>,
    pub created_at: String,
    pub updated_at: String,
}

/// An issue about to be reported.
#[derive(Debug)]
pub struct NewProductionIssue {
    pub product_id: i32,
    pub workflow_instance_id: Option<i32>,
    pub issue_type: String,
    pub severity: Option<String>,
    pub title: String,
    pub description: String,
    pub assigned_to: Option<i32>,
    pub due_date: Option<String>,
    pub impact_assessment: Option<String>,
}

/// The fields of an issue to change; `None` leaves a field as it is.
#[derive(Debug)]
pub struct UpdateProductionIssue {
    pub status: Option<String>,
    pub assigned_to: Option<i32>,
    pub due_date: Option<String>,
    pub resolution_notes: Option<String>,
    pub impact_assessment: Option<String>,
}

impl UpdateProductWorkflowInstance {
    /// True of the update that changes nothing.
    pub open spec fn is_empty(&self) -> bool {
        &&& self.current_step_id is None
        &&& self.status is None
        &&& self.priority is None
        &&& self.assigned_team_id is None
        &&& self.assigned_user_id is None
        &&& self.estimated_completion is None
        &&& self.actual_completion is None
        &&& self.notes is None
    }

    /// The update that advances a workflow: the status becomes `in_progress`,
    /// the notes are replaced when there are any, nothing else changes.
    pub fn advance(notes: Option<String>) -> (update: UpdateProductWorkflowInstance)
        ensures
            update.status matches Some(s) && s@ == "in_progress"@,
            update.notes == notes,
            update.current_step_id is None,
            update.priority is None,
            update.assigned_team_id is None,
            update.assigned_user_id is None,
            update.estimated_completion is None,
            update.actual_completion is None,
    {
        let mut update = UpdateProductWorkflowInstance::default();
        update.status = Some(String::from_str("in_progress"));
        update.notes = notes;
        update
    }
}

impl Default for UpdateProductWorkflowInstance {
    fn default() -> (update: UpdateProductWorkflowInstance)
        ensures
            update.is_empty(),
    {
        UpdateProductWorkflowInstance {
            current_step_id: None,
            status: None,
            priority: None,
            assigned_team_id: None,
            assigned_user_id: None,
            estimated_completion: None,
            actual_completion: None,
            notes: None,
        }
    }
}

/// The filters on workflow instances, in the order they are sent.
pub open spec fn instance_filters(
    product_id: Option<i32>,
    status: Option<String>,
    priority: Option<String>,
) -> Seq<(Seq<char>, Seq<char>)> {
    id_filter("product_id"@, product_id) + text_filter("status"@, status) + text_filter(
        "priority"@,
        priority,
    )
}

/// The filters on production issues, in the order they are sent.
pub open spec fn issue_filters(
    status: Option<String>,
    severity: Option<String>,
    assigned_to: Option<i32>,
    product_id: Option<i32>,
) -> Seq<(Seq<char>, Seq<char>)> {
    text_filter("status"@, status) + text_filter("severity"@, severity) + id_filter(
        "assigned_to"@,
        assigned_to,
    ) + id_filter("product_id"@, product_id)
}

/// The pairs that filter workflow instances: every filter that is given, in
/// the order product, status, priority.
pub fn instance_query_params(
    product_id: Option<i32>,
    status: Option<String>,
    priority: Option<String>,
) -> (params: Vec<KeyValue>)
    ensures
        pairs_of(params@) == instance_filters(product_id, status, priority),
{
    let mut params: Vec<KeyValue> = Vec::new();
    assert(pairs_of(params@) =~= Seq::<(Seq<char>, Seq<char>)>::empty());
    push_id(&mut params, "product_id", product_id);
    push_text(&mut params, "status", status);
    push_text(&mut params, "priority", priority);
    assert(pairs_of(params@) =~= instance_filters(product_id, status, priority));
    params
}

/// The pairs that filter production issues: every filter that is given, in
/// the order status, severity, assignee, product.
pub fn issue_query_params(
    status: Option<String>,
    severity: Option<String>,
    assigned_to: Option<i32>,
    product_id: Option<i32>,
) -> (params: Vec<KeyValue>)
    ensures
        pairs_of(params@) == issue_filters(status, severity, assigned_to, product_id),
{
    let mut params: Vec<KeyValue> = Vec::new();
    assert(pairs_of(params@) =~= Seq::<(Seq<char>, Seq<char>)>::empty());
    push_text(&mut params, "status", status);
    push_text(&mut params, "severity", severity);
    push_id(&mut params, "assigned_to", assigned_to);
    push_id(&mut params, "product_id", product_id);
    assert(pairs_of(params@) =~= issue_filters(status, severity, assigned_to, product_id));
    params
}

/// The endpoint that lists workflow instances under the given filters.
pub fn instances_path(product_id: Option<i32>, status: Option<String>, priority: Option<String>) -> (path:
    String)
    ensures
        path@ == "/production/instances"@ + query_string_of(
            instance_filters(product_id, status, priority),
        ),
{
    let params = instance_query_params(product_id, status, priority);
    let query = query_string(&params);
    String::from_str("/production/instances").concat(query.as_str())
}

/// The endpoint that lists production issues under the given filters.
pub fn issues_path(
    status: Option<String>,
    severity: Option<String>,
    assigned_to: Option<i32>,
    product_id: Option<i32>,
) -> (path: String)
    ensures
        path@ == "/production/issues"@ + query_string_of(
            issue_filters(status, severity, assigned_to, product_id),
        ),
{
    let params = issue_query_params(status, severity, assigned_to, product_id);
    let query = query_string(&params);
    String::from_str("/production/issues").concat(query.as_str())
}

/// The endpoint of the production dashboard, for one team or for all.
pub fn dashboard_path(team_id: Option<i32>) -> (path: String)
    ensures
        path@ == match team_id {
            Some(id) => "/production/dashboard"@ + "?team_id="@ + decimal(id as int),
            None => "/production/dashboard"@,
        },
{
    match team_id {
        Some(id) => String::from_str("/production/dashboard").concat("?team_id=").concat(
            i64_to_string(id as i64).as_str(),
        ),
        None => String::from_str("/production/dashboard"),
    }
}

} // verus!
