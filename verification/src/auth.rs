//! Credential store: the bearer token shared by every authenticated call.

use vstd::prelude::*;
use vstd::string::*;
use crate::text::text_view;

verus! {

/// Why an authenticated operation could not get its header.
#[derive(Debug, Clone, Copy, PartialEq, Eq, Structural)]
pub enum AuthError {
    /// No token is stored: the user is logged out.
    Unauthenticated,
}

/// Text that precedes the token in an `Authorization` header value.
pub open spec fn bearer_prefix() -> Seq<char> {
    "Bearer "@
}

/// The header value for a stored token, or the failure when none is stored.
pub open spec fn header_of(token: Option<Seq<char>>) -> Result<Seq<char>, AuthError> {
    match token {
        Some(t) => Ok(bearer_prefix() + t),
        None => Err(AuthError::Unauthenticated),
    }
}

/// The current credential. `None` means logged out.
#[derive(Debug, Default, Clone)]
pub struct AuthState {
    pub token: Option<String>,
}

impl View for AuthState {
    type V = Option<Seq<char>>;

    open spec fn view(&self) -> Option<Seq<char>> {
        text_view(self.token)
    }
}

impl AuthState {
    /// A store with no token.
    pub fn new() -> (state: AuthState)
        ensures
            state@ is None,
    {
        AuthState { token: None }
    }

    /// Replaces the stored token; `None` logs out.
    pub fn set(&mut self, token: Option<String>)
        ensures
            final(self).token == token,
            final(self)@ == text_view(token),
    {
        self.token = token;
    }

    /// Forgets the stored token: the user is logged out.
    pub fn clear(&mut self)
        ensures
            final(self)@ is None,
    {
        self.token = None;
    }

    /// True when a token is stored.
    pub fn is_authenticated(&self) -> (present: bool)
        ensures
            present == (self@ is Some),
    {
        self.token.is_some()
    }

    /// `"Bearer <token>"` for the stored token; `Unauthenticated` without one.
    pub fn header(&self) -> (result: Result<String, AuthError>)
        ensures
            match result {
                Ok(h) => header_of(self@) == Ok::<Seq<char>, AuthError>(h@),
                Err(e) => header_of(self@) == Err::<Seq<char>, AuthError>(e),
            },
    {
        match &self.token {
            Some(t) => {
                let h = String::from_str("Bearer ").concat(t.as_str());
                Ok(h)
            },
            None => Err(AuthError::Unauthenticated),
        }
    }
}

/// Message for a missing token, as commands report it.
pub open spec fn not_logged_in_message() -> Seq<char> {
    "No valid authentication token found. Please log in."@
}

/// Message for a missing token, as background work reports it.
pub open spec fn not_logged_in_message_internal() -> Seq<char> {
    "No valid authentication token found. Please log in"@
}

/// The `Authorization` header for a command, or the message that asks the
/// user to log in.
pub fn get_auth_header(state: &AuthState) -> (result: Result<String, String>)
    ensures
        match result {
            Ok(h) => state@ matches Some(t) && h@ == bearer_prefix() + t,
            Err(m) => state@ is None && m@ == not_logged_in_message(),
        },
{
    match state.header() {
        Ok(h) => Ok(h),
        Err(_) => Err(String::from_str("No valid authentication token found. Please log in.")),
    }
}

/// The `Authorization` header for background work, or the message that says
/// no token is stored.
pub fn get_auth_header_internal(auth_state: &AuthState) -> (result: Result<String, String>)
    ensures
        match result {
            Ok(h) => auth_state@ matches Some(t) && h@ == bearer_prefix() + t,
            Err(m) => auth_state@ is None && m@ == not_logged_in_message_internal(),
        },
{
    match auth_state.header() {
        Ok(h) => Ok(h),
        Err(_) => Err(String::from_str("No valid authentication token found. Please log in")),
    }
}

/// What the backend answers to a successful login.
#[derive(Debug)]
pub struct AuthResponse {
    pub token: String,
    pub role: String,
}

/// Completes a login. A decoded answer stores its token and yields the token
/// and the role; a failure leaves the store as it was and is handed on.
pub fn login<E>(state: &mut AuthState, reply: Result<AuthResponse, E>) -> (result: Result<
    (String, String),
    E,
>)
    ensures
        match reply {
            Ok(answer) => {
                &&& final(state)@ == Some(answer.token@)
                &&& result matches Ok(pair)
                &&& pair.0@ == answer.token@
                &&& pair.1 == answer.role
            },
            Err(e) => *final(state) == *old(state) && result == Err::<(String, String), E>(e),
        },
{
    match reply {
        Ok(answer) => {
            let token = answer.token.clone();
            state.set(Some(answer.token));
            Ok((token, answer.role))
        },
        Err(e) => Err(e),
    }
}

/// What the backend answers to a registration, as far as the client reads it.
#[derive(Debug)]
pub struct RegistrationReply {
    /// The `success` flag, when the answer holds one.
    pub success: Option<bool>,
    /// The `message` text, when the answer holds one.
    pub message: Option<String>,
}

/// Message of a refused registration that gives no reason.
pub open spec fn registration_failed_message() -> Seq<char> {
    "Registration failed. Try again."@
}

/// Judges a registration. It went through exactly when the answer's
/// `success` flag is there and true; the client then logs in. Otherwise the
/// answer's message is the error, or a stock message when it has none.
pub fn register(reply: RegistrationReply) -> (result: Result<(), String>)
    ensures
        result is Ok <==> reply.success == Some(true),
        result matches Err(m) ==> m@ == match reply.message {
            Some(text) => text@,
            None => registration_failed_message(),
        },
{
    let accepted = match reply.success {
        Some(flag) => flag,
        None => false,
    };
    if accepted {
        Ok(())
    } else {
        match reply.message {
            Some(text) => Err(text),
            None => Err(String::from_str("Registration failed. Try again.")),
        }
    }
}

/// One operation on the credential store, as it appears in a history.
pub enum CredentialOp {
    /// `set` with this token.
    Store(Option<Seq<char>>),
    /// `header`, which reads and changes nothing.
    Header,
}

/// The stored credential after a history of operations.
pub open spec fn credential_after(initial: Option<Seq<char>>, ops: Seq<CredentialOp>) -> Option<
    Seq<char>,
>
    decreases ops.len(),
{
    if ops.len() == 0 {
        initial
    } else {
        match ops.last() {
            CredentialOp::Store(token) => token,
            CredentialOp::Header => credential_after(initial, ops.drop_last()),
        }
    }
}

/// The token of the most recent `set` in a history, or the initial credential
/// when the history holds no `set`.
pub open spec fn most_recent_set(initial: Option<Seq<char>>, ops: Seq<CredentialOp>) -> Option<
    Seq<char>,
>
    decreases ops.len(),
{
    if ops.len() == 0 {
        initial
    } else if ops.last() is Store {
        ops.last()->Store_0
    } else {
        most_recent_set(initial, ops.drop_last())
    }
}

/// In any history of `set` and `header` calls, a `header` call fails with
/// `Unauthenticated` exactly when the most recent `set` before it stored no
/// token, and otherwise returns `"Bearer "` followed by the token of that `set`.
pub proof fn lemma_header_follows_last_set(
    initial: Option<Seq<char>>,
    ops: Seq<CredentialOp>,
    at: int,
)
    requires
        0 <= at < ops.len(),
        ops[at] is Header,
    ensures
        credential_after(initial, ops.take(at)) == most_recent_set(initial, ops.take(at)),
        header_of(credential_after(initial, ops.take(at))) == Err::<Seq<char>, AuthError>(
            AuthError::Unauthenticated,
        ) <==> most_recent_set(initial, ops.take(at)) is None,
        most_recent_set(initial, ops.take(at)) matches Some(token) ==> header_of(
            credential_after(initial, ops.take(at)),
        ) == Ok::<Seq<char>, AuthError>(bearer_prefix() + token),
{
    lemma_credential_is_last_set(initial, ops.take(at));
}

/// The stored credential is always the token of the most recent `set`.
pub proof fn lemma_credential_is_last_set(initial: Option<Seq<char>>, ops: Seq<CredentialOp>)
    ensures
        credential_after(initial, ops) == most_recent_set(initial, ops),
    decreases ops.len(),
{
    if ops.len() > 0 {
        lemma_credential_is_last_set(initial, ops.drop_last());
    }
}

} // verus!
