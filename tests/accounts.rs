use scanlytics::auth::{
    ApiResponse, AuthError, LoginResponse, LogoutError, SignupError, SignupRequest, SignupServerRequest,
    TokenError, TokenResponse,
};

fn signup(full_name: &str, email: &str, password: &str, confirm: &str) -> SignupRequest {
    SignupRequest {
        full_name: full_name.to_string(),
        user_email: email.to_string(),
        password: password.to_string(),
        confirm_password: confirm.to_string(),
    }
}

#[test]
fn test_keyring_store_error() {
    let error = TokenError::KeyringStore("test error".to_string());
    assert!(matches!(error, TokenError::KeyringStore(_)));
}

#[test]
fn test_password_mismatch() {
    let req = signup("Test User", "test@example.com", "StrongP@ssword123!", "DifferentPassword123!");
    assert!(matches!(req.validate(), Err(SignupError::PasswordMismatch)));
}

#[test]
fn test_empty_fields() {
    let req = signup("", "test@example.com", "StrongP@ssword123!", "StrongP@ssword123!");
    assert!(matches!(req.validate(), Err(SignupError::ValidationError(ref m)) if m == "Full name cannot be empty"));
    let req = signup("Test User", "", "StrongP@ssword123!", "StrongP@ssword123!");
    assert!(matches!(req.validate(), Err(SignupError::ValidationError(ref m)) if m == "Email cannot be empty"));
}

#[test]
fn blank_fields_count_as_empty() {
    let req = signup("Test User", "  \t ", "StrongP@ssword123!", "StrongP@ssword123!");
    assert!(matches!(req.validate(), Err(SignupError::ValidationError(ref m)) if m == "Email cannot be empty"));
    let req = signup("   ", "test@example.com", "StrongP@ssword123!", "StrongP@ssword123!");
    assert!(matches!(req.validate(), Err(SignupError::ValidationError(ref m)) if m == "Full name cannot be empty"));
}

#[test]
fn valid_signup_passes() {
    let req = signup("Test User", "test@example.com", "StrongP@ssword123!", "StrongP@ssword123!");
    assert!(req.validate().is_ok());
}

#[test]
fn signup_server_request_has_user_role() {
    let req = signup("Test User", "test@example.com", "pw", "pw");
    let server: SignupServerRequest = req.into();
    assert_eq!(server.user_name, "Test User");
    assert_eq!(server.user_email, "test@example.com");
    assert_eq!(server.user_password, "pw");
    assert_eq!(server.user_role, "user");
}

#[test]
fn token_type_must_be_bearer() {
    let ok = TokenResponse { access_token: "new_valid_token_123".to_string(), token_type: "Bearer".to_string() };
    assert!(ok.validate().is_ok());
    let bad = TokenResponse { access_token: "t".to_string(), token_type: "basic".to_string() };
    assert!(matches!(bad.validate(), Err(TokenError::InvalidTokenType)));
}

#[test]
fn api_response_success() {
    let r = ApiResponse::success(LoginResponse { access_token: "test_token".to_string(), token_type: "Bearer".to_string() });
    assert!(r.success);
    assert!(r.message.is_none());
    assert_eq!(r.data.unwrap().access_token, "test_token");
}

#[test]
fn error_messages() {
    assert_eq!(SignupError::PasswordMismatch.message(), "Passwords do not match");
    assert_eq!(SignupError::WeakPassword("short".to_string()).message(), "Password too weak: short");
    assert_eq!(TokenError::InvalidTokenType.message(), "Invalid token type: expected 'bearer'");
    assert_eq!(TokenError::KeyringStore("x".to_string()).message(), "Keyring store error: x");
    assert_eq!(LogoutError::KeyringDelete("gone".to_string()).message(), "Keyring delete error: gone");
    assert_eq!(AuthError::Network("down".to_string()).message(), "down");
}
