//! Account data exchanged with the authentication server and the front end,
//! and the checks made on it before it is sent.
use vstd::prelude::*;

use crate::text::{lowercased, prefixed, to_lowercase, trim, trimmed};

verus! {

#[derive(Debug, Clone)]
pub struct LoginRequest {
    pub user_email: String,
    pub user_password: String,
}

#[derive(Debug, Clone)]
pub struct LoginResponse {
    pub access_token: String,
    pub token_type: String,
}

#[derive(Debug, Clone)]
pub struct ResetPasswordRequest {
    pub user_email: String,
}

/// Envelope of a reply to the front end.
#[derive(Debug, Clone)]
pub struct ApiResponse<T> {
    pub success: bool,
    pub message: Option<String>,
    pub data: Option<T>,
}

impl<T> ApiResponse<T> {
    /// A successful reply carrying `data` and no message.
    pub fn success(data: T) -> (r: Self)
        ensures
            r.success,
            r.message is None,
            r.data == Some(data),
    {
        ApiResponse { success: true, message: None, data: Some(data) }
    }
}

/// Failure of a login.
#[derive(Debug)]
pub enum AuthError {
    Authentication(String),
    Network(String),
    Parse(String),
    Keyring(String),
}

impl AuthError {
    /// The text shown for the error: its detail.
    pub fn message(&self) -> (r: String)
        ensures
            r@ == match self {
                AuthError::Authentication(d) => d@,
                AuthError::Network(d) => d@,
                AuthError::Parse(d) => d@,
                AuthError::Keyring(d) => d@,
            },
    {
        match self {
            AuthError::Authentication(d) => d.clone(),
            AuthError::Network(d) => d.clone(),
            AuthError::Parse(d) => d.clone(),
            AuthError::Keyring(d) => d.clone(),
        }
    }
}

/// Failure of a logout.
#[derive(Debug)]
pub enum LogoutError {
    KeyringAccess(String),
    KeyringDelete(String),
}

impl LogoutError {
    /// The text shown for the error.
    pub fn message(&self) -> (r: String)
        ensures
            r@ == match self {
                LogoutError::KeyringAccess(d) => "Keyring access error: "@ + d@,
                LogoutError::KeyringDelete(d) => "Keyring delete error: "@ + d@,
            },
    {
        match self {
            LogoutError::KeyringAccess(d) => prefixed("Keyring access error: ", d),
            LogoutError::KeyringDelete(d) => prefixed("Keyring delete error: ", d),
        }
    }
}

/// Failure of a sign-up.
#[derive(Debug)]
pub enum SignupError {
    ParseError(String),
    ValidationError(String),
    PasswordMismatch,
    WeakPassword(String),
    NetworkError(String),
    DatabaseError(String),
    ServerError(String),
}

impl SignupError {
    /// The text shown for the error.
    pub fn message(&self) -> (r: String)
        ensures
            r@ == match self {
                SignupError::ParseError(d) => "Parse error: "@ + d@,
                SignupError::ValidationError(d) => "Validation error: "@ + d@,
                SignupError::PasswordMismatch => "Passwords do not match"@,
                SignupError::WeakPassword(d) => "Password too weak: "@ + d@,
                SignupError::NetworkError(d) => "Network error: "@ + d@,
                SignupError::DatabaseError(d) => "Database error: "@ + d@,
                SignupError::ServerError(d) => "Server error: "@ + d@,
            },
    {
        match self {
            SignupError::ParseError(d) => prefixed("Parse error: ", d),
            SignupError::ValidationError(d) => prefixed("Validation error: ", d),
            SignupError::PasswordMismatch => String::from_str("Passwords do not match"),
            SignupError::WeakPassword(d) => prefixed("Password too weak: ", d),
            SignupError::NetworkError(d) => prefixed("Network error: ", d),
            SignupError::DatabaseError(d) => prefixed("Database error: ", d),
            SignupError::ServerError(d) => prefixed("Server error: ", d),
        }
    }
}

/// What the sign-up form submits.
#[derive(Debug, Clone)]
pub struct SignupRequest {
    pub full_name: String,
    pub user_email: String,
    pub password: String,
    pub confirm_password: String,
}

impl SignupRequest {
    /// Checks the form: the two passwords agree, and neither the name nor the
    /// e-mail address is blank. The first failing check is reported.
    pub fn validate(&self) -> (r: Result<(), SignupError>)
        ensures
            self.password@ != self.confirm_password@ ==> r matches Err(SignupError::PasswordMismatch),
            self.password@ == self.confirm_password@ && trimmed(self.full_name@).len() == 0
                ==> (r matches Err(SignupError::ValidationError(d)) && d@ == "Full name cannot be empty"@),
            self.password@ == self.confirm_password@ && trimmed(self.full_name@).len() > 0
                && trimmed(self.user_email@).len() == 0
                ==> (r matches Err(SignupError::ValidationError(d)) && d@ == "Email cannot be empty"@),
            r is Ok <==> {
                &&& self.password@ == self.confirm_password@
                &&& trimmed(self.full_name@).len() > 0
                &&& trimmed(self.user_email@).len() > 0
            },
    {
        if self.password != self.confirm_password {
            return Err(SignupError::PasswordMismatch);
        }
        if trim(self.full_name.as_str()).as_str().is_empty() {
            return Err(SignupError::ValidationError(String::from_str("Full name cannot be empty")));
        }
        if trim(self.user_email.as_str()).as_str().is_empty() {
            return Err(SignupError::ValidationError(String::from_str("Email cannot be empty")));
        }
        Ok(())
    }
}

/// Role given to every account created from the sign-up form.
pub const DEFAULT_ROLE: &'static str = "user";

/// What the authentication server expects for a sign-up.
#[derive(Debug, Clone)]
pub struct SignupServerRequest {
    pub user_name: String,
    pub user_email: String,
    pub user_password: String,
    pub user_role: String,
}

impl SignupServerRequest {
    /// The server request for a sign-up form, with the default role.
    pub fn from_signup(req: SignupRequest) -> (r: Self)
        ensures
            r.user_name == req.full_name,
            r.user_email == req.user_email,
            r.user_password == req.password,
            r.user_role@ == DEFAULT_ROLE@,
    {
        SignupServerRequest {
            user_name: req.full_name,
            user_email: req.user_email,
            user_password: req.password,
            user_role: String::from_str(DEFAULT_ROLE),
        }
    }
}

impl From<SignupRequest> for SignupServerRequest {
    fn from(req: SignupRequest) -> Self {
        SignupServerRequest::from_signup(req)
    }
}

impl vstd::std_specs::convert::FromSpecImpl<SignupRequest> for SignupServerRequest {
    open spec fn obeys_from_spec() -> bool {
        false
    }

    open spec fn from_spec(v: SignupRequest) -> Self {
        arbitrary()
    }
}

#[derive(Debug, Clone)]
pub struct SignupResponse {
    pub message: String,
}

/// The authentication server's reply to a sign-up.
#[derive(Debug, Clone)]
pub struct ServerResponse {
    pub message: Option<String>,
    pub access_token: Option<String>,
    pub token_type: Option<String>,
}

/// Failure of a token check.
#[derive(Debug)]
pub enum TokenError {
    KeyringAccess(String),
    KeyringStore(String),
    ServerError(String),
    ValidationError(String),
    ParseError(String),
    InvalidTokenType,
}

impl TokenError {
    /// The text shown for the error.
    pub fn message(&self) -> (r: String)
        ensures
            r@ == match self {
                TokenError::KeyringAccess(d) => "Keyring access error: "@ + d@,
                TokenError::KeyringStore(d) => "Keyring store error: "@ + d@,
                TokenError::ServerError(d) => "Server error: "@ + d@,
                TokenError::ValidationError(d) => "Validation error: "@ + d@,
                TokenError::ParseError(d) => "Parse error: "@ + d@,
                TokenError::InvalidTokenType => "Invalid token type: expected 'bearer'"@,
            },
    {
        match self {
            TokenError::KeyringAccess(d) => prefixed("Keyring access error: ", d),
            TokenError::KeyringStore(d) => prefixed("Keyring store error: ", d),
            TokenError::ServerError(d) => prefixed("Server error: ", d),
            TokenError::ValidationError(d) => prefixed("Validation error: ", d),
            TokenError::ParseError(d) => prefixed("Parse error: ", d),
            TokenError::InvalidTokenType => String::from_str("Invalid token type: expected 'bearer'"),
        }
    }
}

#[derive(Debug, Clone)]
pub struct UserEmail {
    pub user_email: String,
}

/// Token type that the server must issue.
pub const BEARER: &'static str = "bearer";

/// A token issued by the authentication server.
#[derive(Debug, Clone)]
pub struct TokenResponse {
    pub access_token: String,
    pub token_type: String,
}

impl TokenResponse {
    /// Accepts the token only if its type is `bearer`, in any letter case.
    pub fn validate(&self) -> (r: Result<(), TokenError>)
        ensures
            r is Ok <==> lowercased(self.token_type@) == BEARER@,
            r is Err ==> r matches Err(TokenError::InvalidTokenType),
    {
        let lower = to_lowercase(self.token_type.as_str());
        if lower != String::from_str(BEARER) {
            return Err(TokenError::InvalidTokenType);
        }
        Ok(())
    }
}

/// A user name as sent by the front end.
#[derive(Debug, Clone)]
pub struct Username {
    pub username: String,
}

/// A user name as sent by the front end with a classification request.
#[derive(Debug, Clone)]
pub struct UserName {
    pub name: String,
}

} // verus!
