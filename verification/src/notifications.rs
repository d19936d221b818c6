//! Notifications: the payloads that the backend sends, the endpoints they come
//! from, and the rules for announcing them.

use vstd::prelude::*;
use vstd::string::*;
use crate::gateway::GatewayError;
use crate::polling::{
    count_result_view, list_result_view, CountOutcome, ListOutcome, PollingEngine,
};
use crate::text::{decimal, path_with_id};

verus! {

/// Totals of a user's notifications.
#[derive(Debug, Clone, Copy, PartialEq, Eq, Structural)]
pub struct NotificationCountResponse {
    pub total: i64,
    pub unread: i64,
}

/// Who a notification is addressed to.
#[derive(Debug, Clone)]
pub struct NotificationTarget {
    pub id: i32,
    pub notification_id: i32,
    pub scope: String,
    pub target_id: i32,
}

/// One notification. `action_data` holds its JSON document as text.
#[derive(Debug, Clone)]
pub struct NotificationItem {
    pub id: i32,
    pub title: String,
    pub body: Option<String>,
    pub type_field: String,
    pub action_type: Option<String>,
    pub action_data: Option<String>,
    pub global: bool,
    pub dismissible: bool,
    pub created_at: String,
    pub expires_at: Option<String>,
}

/// A notification with its targets and whether the user dismissed it.
#[derive(Debug, Clone)]
pub struct NotificationWithTargets {
    pub notification: NotificationItem,
    pub targets: Vec<NotificationTarget>,
    pub dismissed: bool,
}

/// Envelope of the notification list, newest first.
#[derive(Debug)]
pub struct NotificationResponse {
    pub success: bool,
    pub status_code: u16,
    pub message: String,
    pub timestamp: String,
    pub data: Vec<NotificationWithTargets>,
}

/// Envelope of the notification totals.
#[derive(Debug)]
pub struct CountResponse {
    pub success: bool,
    pub status_code: u16,
    pub message: String,
    pub timestamp: String,
    pub data: NotificationCountResponse,
}

/// Endpoint of the notification totals.
pub open spec fn count_endpoint() -> Seq<char> {
    "/notifications/count"@
}

/// Endpoint of the list of notifications that are not dismissed.
pub open spec fn list_endpoint() -> Seq<char> {
    "/notifications?include_dismissed=false"@
}

/// Endpoint that dismisses every notification.
pub open spec fn dismiss_all_endpoint() -> Seq<char> {
    "/notifications/dismiss-all"@
}

/// The endpoint of the notification totals.
pub fn count_path() -> (path: &'static str)
    ensures
        path@ == count_endpoint(),
{
    "/notifications/count"
}

/// The endpoint of the notification list.
pub fn list_path() -> (path: &'static str)
    ensures
        path@ == list_endpoint(),
{
    "/notifications?include_dismissed=false"
}

/// The endpoint that dismisses every notification.
pub fn dismiss_all_path() -> (path: &'static str)
    ensures
        path@ == dismiss_all_endpoint(),
{
    "/notifications/dismiss-all"
}

/// The endpoint that dismisses one notification.
pub fn dismiss_path(notification_id: i32) -> (path: String)
    ensures
        path@ == "/notifications/"@ + decimal(notification_id as int) + "/dismiss"@,
{
    path_with_id("/notifications/", notification_id as i64, "/dismiss")
}

/// The unread count that a count poll yielded.
pub open spec fn unread_of(result: Result<CountResponse, GatewayError>) -> Result<
    i64,
    GatewayError,
> {
    match result {
        Ok(response) => Ok(response.data.unread),
        Err(e) => Err(e),
    }
}

impl CountResponse {
    /// The unread count in the envelope.
    pub fn unread(&self) -> (unread: i64)
        ensures
            unread == self.data.unread,
    {
        self.data.unread
    }
}

/// The length of the list that a list fetch yielded.
pub open spec fn listed_len(result: Result<&NotificationResponse, GatewayError>) -> Result<
    u64,
    GatewayError,
> {
    match result {
        Ok(response) => Ok(response.data@.len() as u64),
        Err(e) => Err(e),
    }
}

/// Hands a decoded count poll to the engine: the unread count of a reply, or
/// the failure as it is.
pub fn apply_count_response(
    engine: &mut PollingEngine,
    result: Result<CountResponse, GatewayError>,
) -> (outcome: CountOutcome)
    ensures
        (final(engine)@, outcome) == old(engine)@.on_count(count_result_view(unread_of(result))),
        final(engine)@.wf(),
{
    match result {
        Ok(response) => engine.on_count_result(Ok(response.data.unread)),
        Err(e) => engine.on_count_result(Err(e)),
    }
}

/// What a refresh on demand raises for the user interface: the raw body of
/// the count and the raw body of the list.
#[derive(Debug)]
pub struct RefreshEvents {
    /// Payload of the count event.
    pub notification_count: String,
    /// Payload of the list event.
    pub notifications: String,
}

/// What a refresh on demand amounts to, given what its two fetches yielded:
/// both bodies when both succeeded, else the failure of the count fetch or,
/// when that one succeeded, the failure of the list fetch.
pub open spec fn refreshed(
    count: Result<String, GatewayError>,
    list: Result<String, GatewayError>,
) -> Result<RefreshEvents, GatewayError> {
    match count {
        Err(e) => Err(e),
        Ok(count_body) => match list {
            Err(e) => Err(e),
            Ok(list_body) => Ok(
                RefreshEvents { notification_count: count_body, notifications: list_body },
            ),
        },
    }
}

/// Closes a refresh on demand. With both fetches successful it yields both
/// bodies for the two events. A failed fetch fails the refresh with that very
/// failure, the count's first; nothing is raised then and nothing is retried.
pub fn manual_refresh_notifications(
    count: Result<String, GatewayError>,
    list: Result<String, GatewayError>,
) -> (result: Result<RefreshEvents, GatewayError>)
    ensures
        result == refreshed(count, list),
{
    match count {
        Err(e) => Err(e),
        Ok(count_body) => match list {
            Err(e) => Err(e),
            Ok(list_body) => Ok(
                RefreshEvents { notification_count: count_body, notifications: list_body },
            ),
        },
    }
}

/// Hands a decoded list fetch to the engine: the length of the list, or the
/// failure as it is. Of a list that arrived, the outcome's `surfaced` counts
/// entries from its front and never exceeds its length.
pub fn apply_list_response(
    engine: &mut PollingEngine,
    result: Result<&NotificationResponse, GatewayError>,
) -> (outcome: ListOutcome)
    ensures
        (final(engine)@, outcome) == old(engine)@.on_list(list_result_view(listed_len(result))),
        final(engine)@.wf(),
        result matches Ok(response) ==> outcome.surfaced <= response.data@.len(),
{
    match result {
        Ok(response) => engine.on_list_result(Ok(response.data.len() as u64)),
        Err(e) => engine.on_list_result(Err(e)),
    }
}

/// Whether the system lets the application show notifications.
#[derive(Debug, Clone, Copy, PartialEq, Eq, Structural)]
pub enum PermissionState {
    Granted,
    Denied,
    Prompt,
    /// A state that only other platforms report.
    PromptWithRationale,
}

/// What to do about a system notification.
#[derive(Debug, Clone, Copy, PartialEq, Eq, Structural)]
pub enum SystemNotificationStep {
    /// Show it.
    Show,
    /// Ask the user for permission; nothing is shown this time.
    RequestPermission,
    /// The user refused: do nothing.
    Skip,
}

/// The step for a permission state, or the message of the failure.
pub open spec fn system_notification_plan(permission: Result<PermissionState, Seq<char>>) -> Result<
    SystemNotificationStep,
    Seq<char>,
> {
    match permission {
        Ok(PermissionState::Granted) => Ok(SystemNotificationStep::Show),
        Ok(PermissionState::Prompt) => Ok(SystemNotificationStep::RequestPermission),
        Ok(PermissionState::Denied) => Ok(SystemNotificationStep::Skip),
        Ok(PermissionState::PromptWithRationale) => Err(
            "Shouldn't have gotten here (Android-only case)"@,
        ),
        Err(reason) => Err("Failed to retrieve permission state: "@ + reason),
    }
}

/// Decides what to do about a system notification from the permission state,
/// or from the reason why the state could not be read.
pub fn plan_system_notification(permission: Result<PermissionState, String>) -> (plan: Result<
    SystemNotificationStep,
    String,
>)
    ensures
        match plan {
            Ok(step) => system_notification_plan(
                match permission {
                    Ok(p) => Ok(p),
                    Err(r) => Err(r@),
                },
            ) == Ok::<SystemNotificationStep, Seq<char>>(step),
            Err(message) => system_notification_plan(
                match permission {
                    Ok(p) => Ok(p),
                    Err(r) => Err(r@),
                },
            ) == Err::<SystemNotificationStep, Seq<char>>(message@),
        },
{
    match permission {
        Ok(PermissionState::Granted) => Ok(SystemNotificationStep::Show),
        Ok(PermissionState::Prompt) => Ok(SystemNotificationStep::RequestPermission),
        Ok(PermissionState::Denied) => Ok(SystemNotificationStep::Skip),
        Ok(PermissionState::PromptWithRationale) => Err(
            String::from_str("Shouldn't have gotten here (Android-only case)"),
        ),
        Err(reason) => Err(
            String::from_str("Failed to retrieve permission state: ").concat(reason.as_str()),
        ),
    }
}

} // verus!
