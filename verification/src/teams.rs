//! Teams and users: the rules for pending join requests and for what the
//! backend leaves unsaid.

use vstd::prelude::*;
use vstd::string::*;
use crate::gateway::{GatewayError, GatewayErrorView};
use crate::text::{occurs_in, same_text, str_contains};

verus! {

/// A pending request, as far as the client reads it. `document` holds the
/// whole request as JSON text.
#[derive(Debug)]
pub struct TeamRequest {
    pub document: String,
    pub request_type: Option<String>,
    pub target_id: Option<i64>,
    pub requested_by: Option<i64>,
    /// Name of the requesting user, once it has been looked up.
    pub username: Option<String>,
}

impl TeamRequest {
    /// The request's target, or -1 when it names none.
    pub open spec fn target(&self) -> i64 {
        match self.target_id {
            Some(id) => id,
            None => -1i64,
        }
    }

    /// True for a request to join the given team.
    pub open spec fn is_join_for(&self, team_id: i32) -> bool {
        &&& self.request_type matches Some(kind)
        &&& kind@ == "TeamJoin"@
        &&& self.target() == team_id
    }

    /// Tells whether this is a request to join the given team.
    pub fn joins(&self, team_id: i32) -> (yes: bool)
        ensures
            yes == self.is_join_for(team_id),
    {
        let is_join = match &self.request_type {
            Some(kind) => same_text(kind.as_str(), "TeamJoin"),
            None => false,
        };
        let target = match self.target_id {
            Some(id) => id,
            None => -1,
        };
        is_join && target == team_id as i64
    }

    /// Adds the looked-up user name, when the lookup found one.
    pub fn with_username(self, found: Option<String>) -> (request: TeamRequest)
        ensures
            request.document == self.document,
            request.request_type == self.request_type,
            request.target_id == self.target_id,
            request.requested_by == self.requested_by,
            request.username == match found {
                Some(name) => Some(name),
                None => self.username,
            },
    {
        match found {
            Some(name) => TeamRequest { username: Some(name), ..self },
            None => self,
        }
    }
}

/// The requests to join a team among all pending requests, in their order.
pub open spec fn join_requests_of(requests: Seq<TeamRequest>, team_id: i32) -> Seq<TeamRequest> {
    requests.filter(|r: TeamRequest| r.is_join_for(team_id))
}

/// Keeps the requests to join the given team, in their order.
pub fn team_join_requests(requests: Vec<TeamRequest>, team_id: i32) -> (kept: Vec<TeamRequest>)
    ensures
        kept@ == join_requests_of(requests@, team_id),
{
    let ghost pred = |r: TeamRequest| r.is_join_for(team_id);
    let mut kept: Vec<TeamRequest> = Vec::new();
    proof {
        reveal(Seq::filter);
    }
    for request in it: requests
        invariant
            pred == (|r: TeamRequest| r.is_join_for(team_id)),
            it.seq() == requests@,
            kept@ == it.seq().take(it.index() as int).filter(pred),
    {
        let ghost seen = it.seq().take(it.index() as int);
        let ghost next = it.seq().take(it.index() as int + 1);
        proof {
            reveal(Seq::filter);
            assert(next.drop_last() =~= seen);
            assert(next.last() == request);
        }
        if request.joins(team_id) {
            kept.push(request);
        }
    }
    proof {
        assert(requests@.take(requests@.len() as int) =~= requests@);
    }
    kept
}

/// True when a failed lookup of a team's requests should be retried through
/// the list of all pending requests: the failure's message mentions `404`,
/// the sign that the backend lacks the dedicated endpoint.
pub open spec fn falls_back(error: GatewayErrorView) -> bool {
    occurs_in("404"@, error.user_message())
}

/// Decides whether to retry a failed lookup of a team's requests through the
/// list of all pending requests.
pub fn should_fall_back(error: &GatewayError) -> (yes: bool)
    ensures
        yes == falls_back(error@),
{
    let message = error.user_message();
    str_contains(message.as_str(), "404")
}

/// The role a user has when the backend names none.
pub open spec fn unknown_role() -> Seq<char> {
    "unknown"@
}

/// The role in an answer, or `unknown` when the answer names none.
pub fn role_or_unknown(role: Option<String>) -> (text: String)
    ensures
        text@ == match role {
            Some(r) => r@,
            None => unknown_role(),
        },
{
    match role {
        Some(r) => r,
        None => String::from_str("unknown"),
    }
}

/// The kind of an assignment, or `assigned` when the caller names none.
pub fn assignment_type_or_default(assignment_type: Option<String>) -> (text: String)
    ensures
        text@ == match assignment_type {
            Some(kind) => kind@,
            None => "assigned"@,
        },
{
    match assignment_type {
        Some(kind) => kind,
        None => String::from_str("assigned"),
    }
}

/// The role that an answer about a user's role yields. `None` stands for an
/// answer that is no JSON; otherwise the argument holds the role it names,
/// if it names one.
pub open spec fn role_answer(parsed: Option<Option<String>>) -> Result<Seq<char>, Seq<char>> {
    match parsed {
        None => Err("Failed to parse role from response"@),
        Some(Some(role)) => Ok(role@),
        Some(None) => Ok(unknown_role()),
    }
}

/// Reads a user's role from the backend's answer: an answer that is no JSON
/// is an error, an answer without a role yields `unknown`.
pub fn role_from_answer(parsed: Option<Option<String>>) -> (result: Result<String, String>)
    ensures
        match result {
            Ok(role) => role_answer(parsed) == Ok::<Seq<char>, Seq<char>>(role@),
            Err(message) => role_answer(parsed) == Err::<Seq<char>, Seq<char>>(message@),
        },
{
    match parsed {
        None => Err(String::from_str("Failed to parse role from response")),
        Some(role) => Ok(role_or_unknown(role)),
    }
}

/// What the client answers after a team was created.
#[derive(Debug)]
pub struct CreatedTeam {
    pub success: bool,
    pub id: i64,
    pub name: String,
}

/// Judges the backend's answer to the creation of a team. The answer must
/// carry the new team's identifier as an integer; the client then reports
/// success with that identifier and the name it sent. Any other answer is an
/// error.
pub fn created_team(id: Option<i64>, name: String) -> (result: Result<CreatedTeam, String>)
    ensures
        match id {
            Some(team_id) => result matches Ok(team) && team.success && team.id == team_id
                && team.name == name,
            None => result matches Err(message) && message@ == "Unexpected response format"@,
        },
{
    match id {
        Some(team_id) => Ok(CreatedTeam { success: true, id: team_id, name }),
        None => Err(String::from_str("Unexpected response format")),
    }
}

/// The client's answer to a lookup of a team's requests that went through
/// the list of all pending requests.
#[derive(Debug)]
pub struct FilteredRequests {
    pub success: bool,
    pub status_code: u16,
    pub message: String,
    pub data: Vec<TeamRequest>,
}

/// Picks a team's join requests out of the list of all pending requests.
/// `None` stands for an answer whose `data` is no list: there is nothing to
/// pick from, and the answer is passed on as it came.
pub fn pending_join_requests(data: Option<Vec<TeamRequest>>, team_id: i32) -> (picked: Option<
    Vec<TeamRequest>,
>)
    ensures
        match data {
            Some(requests) => picked matches Some(kept) && kept@ == join_requests_of(
                requests@,
                team_id,
            ),
            None => picked is None,
        },
{
    match data {
        Some(requests) => Some(team_join_requests(requests, team_id)),
        None => None,
    }
}

/// Wraps the picked requests, with their user names looked up, in the
/// client's answer: success, status 200, the message `Filtered team requests`.
pub fn filtered_requests(requests: Vec<TeamRequest>) -> (answer: FilteredRequests)
    ensures
        answer.success,
        answer.status_code == 200,
        answer.message@ == "Filtered team requests"@,
        answer.data == requests,
{
    FilteredRequests {
        success: true,
        status_code: 200,
        message: String::from_str("Filtered team requests"),
        data: requests,
    }
}

} // verus!
