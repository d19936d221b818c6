use elevation_manager::production::{
    dashboard_path, instance_query_params, instances_path, issues_path,
    UpdateProductWorkflowInstance,
};

#[test]
fn default_update_changes_nothing() {
    let u = UpdateProductWorkflowInstance::default();
    assert_eq!(u.current_step_id, None);
    assert_eq!(u.status, None);
    assert_eq!(u.priority, None);
    assert_eq!(u.assigned_team_id, None);
    assert_eq!(u.assigned_user_id, None);
    assert_eq!(u.estimated_completion, None);
    assert_eq!(u.actual_completion, None);
    assert_eq!(u.notes, None);
}

#[test]
fn advancing_sets_status_and_notes() {
    let u = UpdateProductWorkflowInstance::advance(Some("go".to_string()));
    assert_eq!(u.status, Some("in_progress".to_string()));
    assert_eq!(u.notes, Some("go".to_string()));
    assert_eq!(u.current_step_id, None);
    assert_eq!(u.priority, None);
    let bare = UpdateProductWorkflowInstance::advance(None);
    assert_eq!(bare.status, Some("in_progress".to_string()));
    assert_eq!(bare.notes, None);
}

#[test]
fn instance_paths() {
    assert_eq!(instances_path(None, None, None), "/production/instances");
    assert_eq!(instances_path(Some(7), None, None), "/production/instances?product_id=7");
    assert_eq!(
        instances_path(Some(7), Some("active".to_string()), Some("high".to_string())),
        "/production/instances?product_id=7&status=active&priority=high"
    );
    assert_eq!(
        instances_path(None, None, Some("low".to_string())),
        "/production/instances?priority=low"
    );
}

#[test]
fn issue_paths() {
    assert_eq!(issues_path(None, None, None, None), "/production/issues");
    assert_eq!(
        issues_path(Some("open".to_string()), Some("major".to_string()), Some(3), Some(-8)),
        "/production/issues?status=open&severity=major&assigned_to=3&product_id=-8"
    );
    assert_eq!(issues_path(None, None, Some(3), None), "/production/issues?assigned_to=3");
}

#[test]
fn dashboard_paths() {
    assert_eq!(dashboard_path(None), "/production/dashboard");
    assert_eq!(dashboard_path(Some(12)), "/production/dashboard?team_id=12");
}

#[test]
fn instance_params_in_order() {
    let params = instance_query_params(Some(1), Some("s".to_string()), None);
    assert_eq!(params.len(), 2);
    assert_eq!(params[0].key, "product_id");
    assert_eq!(params[0].value, "1");
    assert_eq!(params[1].key, "status");
    assert_eq!(params[1].value, "s");
}
