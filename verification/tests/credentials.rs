use elevation_manager::auth::{
    get_auth_header, get_auth_header_internal, login, register, AuthError, AuthResponse, AuthState,
    RegistrationReply,
};

#[test]
fn fresh_store_is_logged_out() {
    let state = AuthState::new();
    assert!(!state.is_authenticated());
    assert_eq!(state.header(), Err(AuthError::Unauthenticated));
}

#[test]
fn header_is_bearer_and_token() {
    let mut state = AuthState::new();
    state.set(Some("abc.def".to_string()));
    assert!(state.is_authenticated());
    assert_eq!(state.header(), Ok("Bearer abc.def".to_string()));
}

#[test]
fn header_follows_the_most_recent_set() {
    let mut state = AuthState::new();
    assert!(state.header().is_err());
    state.set(Some("one".to_string()));
    assert_eq!(state.header(), Ok("Bearer one".to_string()));
    assert_eq!(state.header(), Ok("Bearer one".to_string()));
    state.set(Some("two".to_string()));
    assert_eq!(state.header(), Ok("Bearer two".to_string()));
    state.set(None);
    assert_eq!(state.header(), Err(AuthError::Unauthenticated));
    assert_eq!(state.header(), Err(AuthError::Unauthenticated));
    state.set(Some("three".to_string()));
    assert_eq!(state.header(), Ok("Bearer three".to_string()));
    state.clear();
    assert_eq!(state.header(), Err(AuthError::Unauthenticated));
}

#[test]
fn empty_token_still_counts_as_logged_in() {
    let mut state = AuthState::new();
    state.set(Some(String::new()));
    assert_eq!(state.header(), Ok("Bearer ".to_string()));
}

#[test]
fn header_messages_for_commands_and_background() {
    let mut state = AuthState::new();
    assert_eq!(
        get_auth_header(&state),
        Err("No valid authentication token found. Please log in.".to_string())
    );
    assert_eq!(
        get_auth_header_internal(&state),
        Err("No valid authentication token found. Please log in".to_string())
    );
    state.set(Some("tok".to_string()));
    assert_eq!(get_auth_header(&state), Ok("Bearer tok".to_string()));
    assert_eq!(get_auth_header_internal(&state), Ok("Bearer tok".to_string()));
}

#[test]
fn login_stores_the_token_and_returns_token_and_role() {
    let mut state = AuthState::new();
    let reply: Result<AuthResponse, String> =
        Ok(AuthResponse { token: "jwt".to_string(), role: "admin".to_string() });
    assert_eq!(login(&mut state, reply), Ok(("jwt".to_string(), "admin".to_string())));
    assert_eq!(state.header(), Ok("Bearer jwt".to_string()));
}

#[test]
fn failed_login_keeps_the_store() {
    let mut state = AuthState::new();
    state.set(Some("old".to_string()));
    let reply: Result<AuthResponse, String> = Err("bad credentials".to_string());
    assert_eq!(login(&mut state, reply), Err("bad credentials".to_string()));
    assert_eq!(state.header(), Ok("Bearer old".to_string()));
}

#[test]
fn registration_outcomes() {
    assert_eq!(register(RegistrationReply { success: Some(true), message: None }), Ok(()));
    assert_eq!(
        register(RegistrationReply { success: Some(true), message: Some("ignored".to_string()) }),
        Ok(())
    );
    assert_eq!(
        register(RegistrationReply { success: Some(false), message: Some("taken".to_string()) }),
        Err("taken".to_string())
    );
    assert_eq!(
        register(RegistrationReply { success: None, message: None }),
        Err("Registration failed. Try again.".to_string())
    );
    assert_eq!(
        register(RegistrationReply { success: Some(false), message: None }),
        Err("Registration failed. Try again.".to_string())
    );
}
