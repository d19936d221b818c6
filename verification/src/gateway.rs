//! HTTP request gateway: how a call is shaped before it is sent and how the
//! reply is classified once it has come back. Sending is the caller's business.

use vstd::prelude::*;
use vstd::string::*;
use crate::auth::AuthState;
use crate::config::AppConfig;
use crate::text::text_view;

verus! {

/// The request methods the backend API uses.
#[derive(Debug, Clone, Copy, PartialEq, Eq, Structural)]
pub enum HttpMethod {
    Get,
    Post,
    Put,
    Patch,
    Delete,
}

/// Every way a gateway call can fail.
#[derive(Debug, Clone)]
pub enum GatewayError {
    /// No token is stored; nothing was sent.
    Unauthenticated,
    /// The network failed (DNS, refused connection, timeout, a reply cut
    /// short). The message says at which step and why.
    TransportError { message: String },
    /// The backend answered with a status outside 200..=299.
    RemoteError { status: u16, body: String },
    /// The body of a successful reply could not be decoded.
    DecodeError { message: String },
}

/// Mathematical counterpart of [`GatewayError`].
pub enum GatewayErrorView {
    Unauthenticated,
    TransportError { message: Seq<char> },
    RemoteError { status: u16, body: Seq<char> },
    DecodeError { message: Seq<char> },
}

impl View for GatewayError {
    type V = GatewayErrorView;

    open spec fn view(&self) -> GatewayErrorView {
        match self {
            GatewayError::Unauthenticated => GatewayErrorView::Unauthenticated,
            GatewayError::TransportError { message } => GatewayErrorView::TransportError {
                message: message@,
            },
            GatewayError::RemoteError { status, body } => GatewayErrorView::RemoteError {
                status: *status,
                body: body@,
            },
            GatewayError::DecodeError { message } => GatewayErrorView::DecodeError {
                message: message@,
            },
        }
    }
}

impl GatewayErrorView {
    /// True for failures worth retrying unchanged: the network, not the request, was at fault.
    pub open spec fn is_transient(self) -> bool {
        self is TransportError
    }

    /// The text shown to the user when an operation failed this way, worded
    /// for the operation: a refusal by the backend reads as the operation's
    /// own failure followed by the backend's answer, a missing token asks the
    /// user to log in, anything else reads as `user_message`.
    pub open spec fn described(self, failure: Seq<char>) -> Seq<char> {
        match self {
            GatewayErrorView::RemoteError { status, body } => failure + ": "@ + body,
            GatewayErrorView::Unauthenticated => "No valid authentication token found. Please log in."@,
            _ => self.user_message(),
        }
    }

    /// The text shown to the user for this failure.
    pub open spec fn user_message(self) -> Seq<char> {
        match self {
            GatewayErrorView::Unauthenticated => "No valid authentication token found. Please log in"@,
            GatewayErrorView::TransportError { message } => message,
            GatewayErrorView::RemoteError { status, body } => body,
            GatewayErrorView::DecodeError { message } => "Failed to parse response: "@ + message,
        }
    }
}

impl GatewayError {
    /// True exactly for the missing-token failure.
    pub fn is_unauthenticated(&self) -> (yes: bool)
        ensures
            yes == (self@ is Unauthenticated),
    {
        match self {
            GatewayError::Unauthenticated => true,
            _ => false,
        }
    }

    /// True exactly for network-level failures.
    pub fn is_transient(&self) -> (yes: bool)
        ensures
            yes == self@.is_transient(),
    {
        match self {
            GatewayError::TransportError { .. } => true,
            _ => false,
        }
    }

    /// The text shown to the user when the named operation failed this way.
    pub fn described(&self, failure: &str) -> (text: String)
        ensures
            text@ == self@.described(failure@),
    {
        match self {
            GatewayError::RemoteError { status: _, body } => String::from_str(failure).concat(
                ": ",
            ).concat(body.as_str()),
            GatewayError::Unauthenticated => String::from_str(
                "No valid authentication token found. Please log in.",
            ),
            _ => self.user_message(),
        }
    }

    /// The text shown to the user for this failure.
    pub fn user_message(&self) -> (text: String)
        ensures
            text@ == self@.user_message(),
    {
        match self {
            GatewayError::Unauthenticated => String::from_str(
                "No valid authentication token found. Please log in",
            ),
            GatewayError::TransportError { message } => message.clone(),
            GatewayError::RemoteError { status: _, body } => body.clone(),
            GatewayError::DecodeError { message } => String::from_str(
                "Failed to parse response: ",
            ).concat(message.as_str()),
        }
    }
}

/// True for the statuses that count as success: 200 to 299.
pub open spec fn is_success_status(status: u16) -> bool {
    200 <= status < 300
}

/// What a reply with this status and body amounts to.
pub open spec fn classified(status: u16, body: Seq<char>) -> Result<Seq<char>, GatewayErrorView> {
    if is_success_status(status) {
        Ok(body)
    } else {
        Err(GatewayErrorView::RemoteError { status, body })
    }
}

/// What the sender observed of one request.
#[derive(Debug)]
pub enum Exchange {
    /// A reply arrived, with this status and body.
    Reply { status: u16, body: String },
    /// The request could not be sent, or no reply came.
    SendFailed { reason: String },
    /// A reply came but its body could not be read.
    ReadFailed { reason: String },
}

/// Mathematical counterpart of [`Exchange`].
pub enum ExchangeView {
    Reply { status: u16, body: Seq<char> },
    SendFailed { reason: Seq<char> },
    ReadFailed { reason: Seq<char> },
}

impl View for Exchange {
    type V = ExchangeView;

    open spec fn view(&self) -> ExchangeView {
        match self {
            Exchange::Reply { status, body } => ExchangeView::Reply { status: *status, body: body@ },
            Exchange::SendFailed { reason } => ExchangeView::SendFailed { reason: reason@ },
            Exchange::ReadFailed { reason } => ExchangeView::ReadFailed { reason: reason@ },
        }
    }
}

/// What a finished exchange amounts to: a reply is classified by its status,
/// a network failure becomes a transport error whose message names the step
/// that failed and carries the reason.
pub open spec fn completed(exchange: ExchangeView) -> Result<Seq<char>, GatewayErrorView> {
    match exchange {
        ExchangeView::Reply { status, body } => classified(status, body),
        ExchangeView::SendFailed { reason } => Err(
            GatewayErrorView::TransportError { message: "Request failed: "@ + reason },
        ),
        ExchangeView::ReadFailed { reason } => Err(
            GatewayErrorView::TransportError { message: "Failed to read response: "@ + reason },
        ),
    }
}

/// View of a gateway result.
pub open spec fn result_view(result: Result<String, GatewayError>) -> Result<
    Seq<char>,
    GatewayErrorView,
> {
    match result {
        Ok(body) => Ok(body@),
        Err(e) => Err(e@),
    }
}

/// A request ready to be sent.
#[derive(Debug, Clone)]
pub struct PreparedRequest {
    pub method: HttpMethod,
    /// Absolute URL: the configured base followed by the endpoint.
    pub url: String,
    /// Value of the `Authorization` header, when the call is authenticated.
    pub authorization: Option<String>,
    /// Whether `Content-Type: application/json` is sent.
    pub json_content_type: bool,
    /// The JSON body, already serialised.
    pub body: Option<String>,
    /// How long the sender may wait for the reply.
    pub timeout_seconds: u64,
}

/// Mathematical counterpart of [`PreparedRequest`].
pub struct PreparedRequestView {
    pub method: HttpMethod,
    pub url: Seq<char>,
    pub authorization: Option<Seq<char>>,
    pub json_content_type: bool,
    pub body: Option<Seq<char>>,
    pub timeout_seconds: u64,
}

impl View for PreparedRequest {
    type V = PreparedRequestView;

    open spec fn view(&self) -> PreparedRequestView {
        PreparedRequestView {
            method: self.method,
            url: self.url@,
            authorization: text_view(self.authorization),
            json_content_type: self.json_content_type,
            body: text_view(self.body),
            timeout_seconds: self.timeout_seconds,
        }
    }
}

/// The request that a call amounts to, or the failure that stops it before
/// anything is sent: an authenticated call without a stored token.
pub open spec fn planned(
    base_url: Seq<char>,
    timeout_seconds: u64,
    token: Option<Seq<char>>,
    method: HttpMethod,
    endpoint: Seq<char>,
    body: Option<Seq<char>>,
    auth_required: bool,
) -> Result<PreparedRequestView, GatewayErrorView> {
    if auth_required && token is None {
        Err(GatewayErrorView::Unauthenticated)
    } else {
        Ok(
            PreparedRequestView {
                method,
                url: base_url + endpoint,
                authorization: if auth_required {
                    Some("Bearer "@ + token->0)
                } else {
                    None
                },
                json_content_type: true,
                body,
                timeout_seconds,
            },
        )
    }
}

/// The request that uploads a multipart form: always authenticated, no JSON
/// content type, the form itself attached by the sender.
pub open spec fn planned_multipart(
    base_url: Seq<char>,
    timeout_seconds: u64,
    token: Option<Seq<char>>,
    endpoint: Seq<char>,
) -> Result<PreparedRequestView, GatewayErrorView> {
    match token {
        None => Err(GatewayErrorView::Unauthenticated),
        Some(t) => Ok(
            PreparedRequestView {
                method: HttpMethod::Post,
                url: base_url + endpoint,
                authorization: Some("Bearer "@ + t),
                json_content_type: false,
                body: None,
                timeout_seconds,
            },
        ),
    }
}

/// View of a planning result.
pub open spec fn plan_view(result: Result<PreparedRequest, GatewayError>) -> Result<
    PreparedRequestView,
    GatewayErrorView,
> {
    match result {
        Ok(request) => Ok(request@),
        Err(e) => Err(e@),
    }
}

/// The gateway: shapes requests from the configuration and the credential
/// store, and classifies what comes back.
#[derive(Debug, Clone)]
pub struct ApiClient {
    pub config: AppConfig,
}

impl ApiClient {
    /// A gateway over the given configuration.
    pub fn new(config: AppConfig) -> (client: ApiClient)
        ensures
            client.config == config,
    {
        ApiClient { config }
    }

    /// The absolute URL of an endpoint: the base URL followed by the relative path.
    pub fn url_for(&self, endpoint: &str) -> (url: String)
        ensures
            url@ == self.config.api_base_url@ + endpoint@,
    {
        self.config.api_base_url.clone().concat(endpoint)
    }

    /// The request that this gateway plans for a call under the given credential.
    pub open spec fn plan(
        &self,
        auth: &AuthState,
        method: HttpMethod,
        endpoint: Seq<char>,
        body: Option<Seq<char>>,
        auth_required: bool,
    ) -> Result<PreparedRequestView, GatewayErrorView> {
        planned(
            self.config.api_base_url@,
            self.config.api_timeout_seconds,
            auth@,
            method,
            endpoint,
            body,
            auth_required,
        )
    }

    /// Shapes a call. With `auth_required` and no stored token the call fails
    /// with `Unauthenticated` and nothing is to be sent; otherwise the request
    /// carries the absolute URL, the JSON content type, the body, the configured
    /// timeout and, when authenticated, the bearer header.
    pub fn call(
        &self,
        auth: &AuthState,
        method: HttpMethod,
        endpoint: &str,
        body: Option<String>,
        auth_required: bool,
    ) -> (result: Result<PreparedRequest, GatewayError>)
        ensures
            plan_view(result) == self.plan(auth, method, endpoint@, text_view(body), auth_required),
    {
        let authorization = if auth_required {
            match auth.header() {
                Ok(header) => Some(header),
                Err(_) => {
                    return Err(GatewayError::Unauthenticated);
                },
            }
        } else {
            None
        };
        Ok(
            PreparedRequest {
                method,
                url: self.url_for(endpoint),
                authorization,
                json_content_type: true,
                body,
                timeout_seconds: self.config.api_timeout_seconds,
            },
        )
    }

    /// Shapes an authenticated call.
    pub fn request(
        &self,
        auth: &AuthState,
        method: HttpMethod,
        endpoint: &str,
        body: Option<String>,
    ) -> (result: Result<PreparedRequest, GatewayError>)
        ensures
            plan_view(result) == self.plan(auth, method, endpoint@, text_view(body), true),
    {
        self.call(auth, method, endpoint, body, true)
    }

    /// Shapes a call that carries no credential. It cannot fail.
    pub fn request_no_auth(&self, method: HttpMethod, endpoint: &str, body: Option<String>) -> (request:
        PreparedRequest)
        ensures
            Ok::<PreparedRequestView, GatewayErrorView>(request@) == planned(
                self.config.api_base_url@,
                self.config.api_timeout_seconds,
                None,
                method,
                endpoint@,
                text_view(body),
                false,
            ),
    {
        PreparedRequest {
            method,
            url: self.url_for(endpoint),
            authorization: None,
            json_content_type: true,
            body,
            timeout_seconds: self.config.api_timeout_seconds,
        }
    }

    /// Authenticated `GET`.
    pub fn get(&self, auth: &AuthState, endpoint: &str) -> (result: Result<
        PreparedRequest,
        GatewayError,
    >)
        ensures
            plan_view(result) == self.plan(auth, HttpMethod::Get, endpoint@, None, true),
    {
        self.request(auth, HttpMethod::Get, endpoint, None)
    }

    /// Authenticated `POST` with a JSON body.
    pub fn post(&self, auth: &AuthState, endpoint: &str, body: String) -> (result: Result<
        PreparedRequest,
        GatewayError,
    >)
        ensures
            plan_view(result) == self.plan(auth, HttpMethod::Post, endpoint@, Some(body@), true),
    {
        self.request(auth, HttpMethod::Post, endpoint, Some(body))
    }

    /// Authenticated `PUT` with a JSON body.
    pub fn put(&self, auth: &AuthState, endpoint: &str, body: String) -> (result: Result<
        PreparedRequest,
        GatewayError,
    >)
        ensures
            plan_view(result) == self.plan(auth, HttpMethod::Put, endpoint@, Some(body@), true),
    {
        self.request(auth, HttpMethod::Put, endpoint, Some(body))
    }

    /// Authenticated `PATCH` with a JSON body.
    pub fn patch(&self, auth: &AuthState, endpoint: &str, body: String) -> (result: Result<
        PreparedRequest,
        GatewayError,
    >)
        ensures
            plan_view(result) == self.plan(auth, HttpMethod::Patch, endpoint@, Some(body@), true),
    {
        self.request(auth, HttpMethod::Patch, endpoint, Some(body))
    }

    /// Authenticated `DELETE`.
    pub fn delete(&self, auth: &AuthState, endpoint: &str) -> (result: Result<
        PreparedRequest,
        GatewayError,
    >)
        ensures
            plan_view(result) == self.plan(auth, HttpMethod::Delete, endpoint@, None, true),
    {
        self.request(auth, HttpMethod::Delete, endpoint, None)
    }

    /// `GET` without a credential.
    pub fn get_no_auth(&self, endpoint: &str) -> (request: PreparedRequest)
        ensures
            request@.method == HttpMethod::Get,
            request@.url == self.config.api_base_url@ + endpoint@,
            request@.authorization is None,
            request@.json_content_type,
            request@.body is None,
            request@.timeout_seconds == self.config.api_timeout_seconds,
    {
        self.request_no_auth(HttpMethod::Get, endpoint, None)
    }

    /// `POST` with a JSON body and without a credential.
    pub fn post_no_auth(&self, endpoint: &str, body: String) -> (request: PreparedRequest)
        ensures
            request@.method == HttpMethod::Post,
            request@.url == self.config.api_base_url@ + endpoint@,
            request@.authorization is None,
            request@.json_content_type,
            request@.body == Some(body@),
            request@.timeout_seconds == self.config.api_timeout_seconds,
    {
        self.request_no_auth(HttpMethod::Post, endpoint, Some(body))
    }

    /// `PUT` with a JSON body and without a credential.
    pub fn put_no_auth(&self, endpoint: &str, body: String) -> (request: PreparedRequest)
        ensures
            request@.method == HttpMethod::Put,
            request@.url == self.config.api_base_url@ + endpoint@,
            request@.authorization is None,
            request@.json_content_type,
            request@.body == Some(body@),
            request@.timeout_seconds == self.config.api_timeout_seconds,
    {
        self.request_no_auth(HttpMethod::Put, endpoint, Some(body))
    }

    /// `DELETE` without a credential.
    pub fn delete_no_auth(&self, endpoint: &str) -> (request: PreparedRequest)
        ensures
            request@.method == HttpMethod::Delete,
            request@.url == self.config.api_base_url@ + endpoint@,
            request@.authorization is None,
            request@.json_content_type,
            request@.body is None,
            request@.timeout_seconds == self.config.api_timeout_seconds,
    {
        self.request_no_auth(HttpMethod::Delete, endpoint, None)
    }

    /// Shapes a multipart upload: an authenticated `POST` whose form the sender attaches.
    pub fn post_multipart(&self, auth: &AuthState, endpoint: &str) -> (result: Result<
        PreparedRequest,
        GatewayError,
    >)
        ensures
            plan_view(result) == planned_multipart(
                self.config.api_base_url@,
                self.config.api_timeout_seconds,
                auth@,
                endpoint@,
            ),
    {
        match auth.header() {
            Ok(header) => Ok(
                PreparedRequest {
                    method: HttpMethod::Post,
                    url: self.url_for(endpoint),
                    authorization: Some(header),
                    json_content_type: false,
                    body: None,
                    timeout_seconds: self.config.api_timeout_seconds,
                },
            ),
            Err(_) => Err(GatewayError::Unauthenticated),
        }
    }

    /// Stores the token of a fresh login in the credential store.
    pub fn set_token(&self, auth: &mut AuthState, token: String)
        ensures
            final(auth).token == Some(token),
    {
        auth.set(Some(token));
    }

    /// Classifies a reply: a status from 200 to 299 yields the raw body,
    /// any other status a `RemoteError` with that status and body.
    pub fn handle_response(&self, status: u16, body: String) -> (result: Result<
        String,
        GatewayError,
    >)
        ensures
            result_view(result) == classified(status, body@),
    {
        if 200 <= status && status < 300 {
            Ok(body)
        } else {
            Err(GatewayError::RemoteError { status, body })
        }
    }

    /// Closes a call with what the sender observed of it.
    pub fn complete(&self, exchange: Exchange) -> (result: Result<String, GatewayError>)
        ensures
            result_view(result) == completed(exchange@),
    {
        match exchange {
            Exchange::Reply { status, body } => self.handle_response(status, body),
            Exchange::SendFailed { reason } => Err(
                GatewayError::TransportError {
                    message: String::from_str("Request failed: ").concat(reason.as_str()),
                },
            ),
            Exchange::ReadFailed { reason } => Err(
                GatewayError::TransportError {
                    message: String::from_str("Failed to read response: ").concat(
                        reason.as_str(),
                    ),
                },
            ),
        }
    }
}

} // verus!
