use elevation_manager::gateway::GatewayError;
use elevation_manager::notifications::{
    apply_count_response, apply_list_response, manual_refresh_notifications, count_path, dismiss_all_path, dismiss_path, list_path,
    plan_system_notification, CountResponse, NotificationCountResponse, NotificationItem,
    NotificationResponse, NotificationWithTargets, PermissionState, SystemNotificationStep,
};
use elevation_manager::polling::{PollAction, PollingEngine};

fn count(unread: i64) -> CountResponse {
    CountResponse {
        success: true,
        status_code: 200,
        message: "ok".to_string(),
        timestamp: "2024-01-01T00:00:00Z".to_string(),
        data: NotificationCountResponse { total: unread + 10, unread },
    }
}

fn item(id: i32) -> NotificationWithTargets {
    NotificationWithTargets {
        notification: NotificationItem {
            id,
            title: format!("n{}", id),
            body: None,
            type_field: "info".to_string(),
            action_type: None,
            action_data: None,
            global: false,
            dismissible: true,
            created_at: "2024-01-01T00:00:00Z".to_string(),
            expires_at: None,
        },
        targets: Vec::new(),
        dismissed: false,
    }
}

fn list(n: i32) -> NotificationResponse {
    NotificationResponse {
        success: true,
        status_code: 200,
        message: "ok".to_string(),
        timestamp: "2024-01-01T00:00:00Z".to_string(),
        data: (0..n).map(item).collect(),
    }
}

#[test]
fn endpoints() {
    assert_eq!(count_path(), "/notifications/count");
    assert_eq!(list_path(), "/notifications?include_dismissed=false");
    assert_eq!(dismiss_all_path(), "/notifications/dismiss-all");
    assert_eq!(dismiss_path(42), "/notifications/42/dismiss");
}

#[test]
fn count_response_feeds_the_engine() {
    let mut engine = PollingEngine::new();
    assert_eq!(count(3).unread(), 3);
    let first = apply_count_response(&mut engine, Ok(count(3)));
    assert_eq!(first.publish_unread, Some(3));
    assert_eq!(first.surface_limit, 0);
    assert_eq!(first.next, PollAction::Sleep { seconds: 30 });
    let second = apply_count_response(&mut engine, Ok(count(8)));
    assert_eq!(second.publish_unread, Some(8));
    assert_eq!(second.surface_limit, 5);
    assert_eq!(second.next, PollAction::FetchList);
    assert_eq!(engine.last_unread(), 3);
    let failed = apply_count_response(
        &mut engine,
        Err(GatewayError::DecodeError { message: "bad".to_string() }),
    );
    assert_eq!(failed.publish_unread, None);
    assert_eq!(engine.error_count(), 1);
    assert_eq!(engine.last_unread(), 3);
}

#[test]
fn list_response_feeds_the_engine() {
    for (len, surfaced) in [(10, 5u64), (3, 3), (5, 5), (0, 0)] {
        let mut engine = PollingEngine::new();
        apply_count_response(&mut engine, Ok(count(3)));
        apply_count_response(&mut engine, Ok(count(8)));
        let fetched = list(len);
        let outcome = apply_list_response(&mut engine, Ok(&fetched));
        assert_eq!(outcome.surfaced, surfaced);
        assert!(outcome.refreshed);
        assert_eq!(outcome.next, PollAction::Sleep { seconds: 30 });
        assert_eq!(engine.last_unread(), 8);
        assert_eq!(engine.success_count(), 2);
    }
}

#[test]
fn failed_list_fetch_is_counted_and_keeps_the_cursor() {
    let mut engine = PollingEngine::new();
    apply_count_response(&mut engine, Ok(count(3)));
    apply_count_response(&mut engine, Ok(count(8)));
    let outcome = apply_list_response(
        &mut engine,
        Err(GatewayError::RemoteError { status: 500, body: "boom".to_string() }),
    );
    assert_eq!(outcome.surfaced, 0);
    assert!(!outcome.refreshed);
    assert_eq!(outcome.next, PollAction::Sleep { seconds: 30 });
    assert_eq!(engine.error_count(), 1);
    assert_eq!(engine.success_count(), 0);
    assert_eq!(engine.last_unread(), 3);
    // the growth is seen again in the next cycle
    let again = apply_count_response(&mut engine, Ok(count(8)));
    assert_eq!(again.surface_limit, 5);
    assert_eq!(again.next, PollAction::FetchList);
}

#[test]
fn system_notification_follows_permission() {
    assert_eq!(plan_system_notification(Ok(PermissionState::Granted)), Ok(SystemNotificationStep::Show));
    assert_eq!(
        plan_system_notification(Ok(PermissionState::Prompt)),
        Ok(SystemNotificationStep::RequestPermission)
    );
    assert_eq!(plan_system_notification(Ok(PermissionState::Denied)), Ok(SystemNotificationStep::Skip));
    assert_eq!(
        plan_system_notification(Ok(PermissionState::PromptWithRationale)),
        Err("Shouldn't have gotten here (Android-only case)".to_string())
    );
    assert_eq!(
        plan_system_notification(Err("no window".to_string())),
        Err("Failed to retrieve permission state: no window".to_string())
    );
}

#[test]
fn manual_refresh_raises_both_bodies() {
    let both =
        manual_refresh_notifications(Ok("{\"unread\":1}".to_string()), Ok("[]".to_string()))
            .unwrap();
    assert_eq!(both.notification_count, "{\"unread\":1}");
    assert_eq!(both.notifications, "[]");
}

#[test]
fn manual_refresh_returns_its_failure() {
    let no_token = manual_refresh_notifications(
        Err(GatewayError::Unauthenticated),
        Err(GatewayError::Unauthenticated),
    );
    assert!(matches!(no_token, Err(GatewayError::Unauthenticated)));
    let count_failed = manual_refresh_notifications(
        Err(GatewayError::TransportError { message: "down".to_string() }),
        Ok("[]".to_string()),
    );
    assert!(matches!(
        count_failed,
        Err(GatewayError::TransportError { message }) if message == "down"
    ));
    let list_failed = manual_refresh_notifications(
        Ok("{}".to_string()),
        Err(GatewayError::RemoteError { status: 500, body: "x".to_string() }),
    );
    assert!(matches!(
        list_failed,
        Err(GatewayError::RemoteError { status: 500, body }) if body == "x"
    ));
    let both_failed = manual_refresh_notifications(
        Err(GatewayError::RemoteError { status: 401, body: "count".to_string() }),
        Err(GatewayError::RemoteError { status: 500, body: "list".to_string() }),
    );
    assert!(matches!(both_failed, Err(GatewayError::RemoteError { status: 401, .. })));
}
