use crate::authentication::{
    stored_view, validate_credentials, validate_outcome, AuthError, AuthErrorView, Credentials,
};
use crate::utils::{see_other, SeeOther};
use uuid::Uuid;
use vstd::prelude::*;
use vstd::string::*;

verus! {

/// Why a login failed; holds the authentication error behind it.
#[derive(Debug)]
pub enum LoginError {
    /// The credentials were refused.
    AuthError(AuthError),
    /// Checking them failed.
    UnexpectedError(AuthError),
}

/// The login form.
pub struct FormData {
    pub username: String,
    pub password: String,
}

/// The login error that an authentication error becomes: refused credentials
/// stay a refusal, anything else is unexpected.
pub open spec fn login_error_of(e: AuthErrorView) -> (bool, AuthErrorView) {
    match e {
        AuthErrorView::InvalidCredentials(_) => (true, e),
        AuthErrorView::UnexpectedError(_) => (false, e),
    }
}

/// The path to which a failed login is sent back.
pub open spec fn login_failure_location() -> Seq<char> {
    "/login"@
}

/// The path to which a successful login is sent.
pub open spec fn login_success_location() -> Seq<char> {
    "/"@
}

impl LoginError {
    /// Whether the credentials were refused, and the authentication error behind it.
    pub open spec fn kind(self) -> (bool, AuthErrorView) {
        match self {
            LoginError::AuthError(e) => (true, e@),
            LoginError::UnexpectedError(e) => (false, e@),
        }
    }

    /// Every login error is answered with 303 See Other.
    pub fn status_code(&self) -> (code: u16)
        ensures
            code == 303,
    {
        303
    }

    /// The answer to a failed login: back to the login page.
    pub fn error_response(&self) -> (r: SeeOther)
        ensures
            r.location@ == login_failure_location(),
            r.location@ == "/login"@,
    {
        see_other("/login")
    }

    /// The error's message: `Authentication failed`, or the unexpected error's own.
    pub fn message(&self) -> (text: String)
        ensures
            text@ == match self {
                LoginError::AuthError(_) => "Authentication failed"@,
                LoginError::UnexpectedError(e) => crate::authentication::auth_error_message(e@),
            },
    {
        match self {
            LoginError::AuthError(_) => String::from_str("Authentication failed"),
            LoginError::UnexpectedError(e) => e.message(),
        }
    }
}

/// Logs a user in with the submitted form, against what is stored for the
/// username (its id and password hash, or nothing where it is unknown). On
/// success the user is sent to `/` and the user's id is given.
pub fn login(form: FormData, stored: Option<(Uuid, String)>) -> (r: Result<(Uuid, SeeOther), LoginError>)
    ensures
        match validate_outcome(stored_view(stored), form.password@) {
            Ok(user_id) => r matches Ok((id, redirect)) && id == user_id && redirect.location@ == login_success_location(),
            Err(e) => r matches Err(err) && err.kind() == login_error_of(e),
        },
        r matches Ok((_, redirect)) ==> redirect.location@ == "/"@,
        r matches Err(LoginError::AuthError(e)) ==> e@ is InvalidCredentials,
        r matches Err(LoginError::UnexpectedError(e)) ==> e@ is UnexpectedError,
{
    let credentials = Credentials { username: form.username, password: form.password };
    match validate_credentials(credentials, stored) {
        Ok(user_id) => Ok((user_id, see_other("/"))),
        Err(e) => match e {
            AuthError::InvalidCredentials(_) => Err(LoginError::AuthError(e)),
            AuthError::UnexpectedError(_) => Err(LoginError::UnexpectedError(e)),
        },
    }
}

} // verus!
