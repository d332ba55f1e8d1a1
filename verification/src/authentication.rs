use argon2::{Argon2, PasswordHash, PasswordVerifier};
use uuid::Uuid;
use vstd::prelude::*;
use vstd::string::*;

verus! {

/// Why a login attempt was refused.
#[derive(Debug)]
pub enum AuthError {
    /// The username is unknown or the password does not match.
    InvalidCredentials(String),
    /// Something other than the credentials went wrong.
    UnexpectedError(String),
}

/// A username and the password offered for it.
pub struct Credentials {
    pub username: String,
    pub password: String,
}

/// `password_hash::PasswordHash::new` accepts the text as a PHC string.
pub uninterp spec fn phc_string_parses(phc: Seq<char>) -> bool;

/// `Argon2::default().verify_password` accepts the password bytes against the
/// PHC string, once that string has been parsed.
pub uninterp spec fn argon2_accepts(password: Seq<u8>, phc: Seq<char>) -> bool;

/// What checking a password against a stored PHC string came to.
#[derive(Debug, Clone, Copy, PartialEq, Eq, Structural)]
pub enum HashCheck {
    /// The stored text is not a PHC string.
    Malformed,
    /// The password does not match the hash.
    Mismatch,
    /// The password matches the hash.
    Match,
}

/// Parses `phc` with `password_hash::PasswordHash::new` and, when that
/// succeeds, checks `password` against it with
/// `PasswordVerifier::verify_password` of `Argon2::default()`. The two calls
/// share one item because the parsed hash borrows `phc` and cannot be named
/// over plain values between them; each has a name of its own. Both are
/// deterministic: the first parses the text, the second recomputes the hash
/// from the salt and parameters that the text holds. The contract claims
/// nothing of how either is computed. Left unsaid: the check allocates the
/// memory and runs the passes that the hash's own parameters ask for, so a
/// stored hash with extreme parameters can exhaust memory or time; nothing
/// here rules that out.
#[verifier::external_body]
fn argon2_check(password: &[u8], phc: &str) -> (r: HashCheck)
    ensures
        (r == HashCheck::Malformed) <==> !phc_string_parses(phc@),
        (r == HashCheck::Match) <==> (phc_string_parses(phc@) && argon2_accepts(password@, phc@)),
{
    match PasswordHash::new(phc) {
        Err(_) => HashCheck::Malformed,
        Ok(hash) => match Argon2::default().verify_password(password, &hash) {
            Ok(()) => HashCheck::Match,
            Err(_) => HashCheck::Mismatch,
        },
    }
}

/// The hash checked when the username is unknown, so that an unknown user
/// costs as much time as a known one.
pub open spec fn fallback_password_hash() -> Seq<char> {
    "$argon2id$v=19$m=15000,t=2,p=1$gZiV/M1gPc22ElAH/Jh1Hw$CWOrkoo7oJBQ/iyh7uJ0LO2aLEfrHwTWllSAxT0zRno"@
}

/// An `AuthError` as plain values: which kind, and the message it carries.
pub enum AuthErrorView {
    InvalidCredentials(Seq<char>),
    UnexpectedError(Seq<char>),
}

impl View for AuthError {
    type V = AuthErrorView;

    open spec fn view(&self) -> AuthErrorView {
        match self {
            AuthError::InvalidCredentials(m) => AuthErrorView::InvalidCredentials(m@),
            AuthError::UnexpectedError(m) => AuthErrorView::UnexpectedError(m@),
        }
    }
}

/// A result whose error is an `AuthError`, with the error taken by its view.
pub open spec fn auth_result_view<T>(r: Result<T, AuthError>) -> Result<T, AuthErrorView> {
    match r {
        Ok(v) => Ok(v),
        Err(e) => Err(e@),
    }
}

/// The message of each authentication error.
pub open spec fn auth_error_message(e: AuthErrorView) -> Seq<char> {
    match e {
        AuthErrorView::InvalidCredentials(_) => "Invalid credential"@,
        AuthErrorView::UnexpectedError(m) => m,
    }
}

impl AuthError {
    /// The error's message: `Invalid credential`, or the unexpected error's own.
    pub fn message(&self) -> (text: String)
        ensures
            text@ == auth_error_message(self@),
    {
        match self {
            AuthError::InvalidCredentials(_) => String::from_str("Invalid credential"),
            AuthError::UnexpectedError(m) => m.clone(),
        }
    }
}

/// What checking `password` against the PHC string `expected` answers: a
/// malformed hash is an unexpected error, a mismatch is invalid credentials.
pub open spec fn verify_outcome(expected: Seq<char>, password: Seq<u8>) -> Result<(), AuthErrorView> {
    if !phc_string_parses(expected) {
        Err(AuthErrorView::UnexpectedError("Failed to parse hash in PHC string format"@))
    } else if !argon2_accepts(password, expected) {
        Err(AuthErrorView::InvalidCredentials("Invalid password"@))
    } else {
        Ok(())
    }
}

/// The hash that a login attempt is checked against: the stored one, or the
/// fallback when the username is unknown.
pub open spec fn expected_hash(stored: Option<(Uuid, Seq<char>)>) -> Seq<char> {
    match stored {
        Some((_, hash)) => hash,
        None => fallback_password_hash(),
    }
}

/// What validating a password against the stored credentials of a username
/// answers. The password is always checked, against the fallback hash where
/// the username is unknown; an unknown username is then refused in any case.
pub open spec fn validate_outcome(stored: Option<(Uuid, Seq<char>)>, password: Seq<char>) -> Result<Uuid, AuthErrorView> {
    match verify_outcome(expected_hash(stored), vstd::utf8::encode_utf8(password)) {
        Err(e) => Err(e),
        Ok(()) => match stored {
            Some((user_id, _)) => Ok(user_id),
            None => Err(AuthErrorView::InvalidCredentials("Unknown username"@)),
        },
    }
}

/// The stored credentials of a username, with the hash taken by its view.
pub open spec fn stored_view(stored: Option<(Uuid, String)>) -> Option<(Uuid, Seq<char>)> {
    match stored {
        Some((user_id, hash)) => Some((user_id, hash@)),
        None => None,
    }
}

/// What a check of a password against a PHC string comes to, as spec.
pub open spec fn hash_check_outcome(check: HashCheck) -> Result<(), AuthErrorView> {
    match check {
        HashCheck::Malformed => Err(AuthErrorView::UnexpectedError("Failed to parse hash in PHC string format"@)),
        HashCheck::Mismatch => Err(AuthErrorView::InvalidCredentials("Invalid password"@)),
        HashCheck::Match => Ok(()),
    }
}

/// The answer to a password check: a hash that does not parse is an
/// unexpected error, a mismatch is invalid credentials.
pub fn hash_check_result(check: HashCheck) -> (r: Result<(), AuthError>)
    ensures
        auth_result_view(r) == hash_check_outcome(check),
{
    match check {
        HashCheck::Malformed => Err(
            AuthError::UnexpectedError(String::from_str("Failed to parse hash in PHC string format")),
        ),
        HashCheck::Mismatch => Err(AuthError::InvalidCredentials(String::from_str("Invalid password"))),
        HashCheck::Match => Ok(()),
    }
}

/// Checks a password candidate against an expected PHC hash.
pub fn verify_password_hash(expected_password_hash: String, password_candidate: String) -> (r: Result<(), AuthError>)
    ensures
        auth_result_view(r) == verify_outcome(
            expected_password_hash@,
            vstd::utf8::encode_utf8(password_candidate@),
        ),
{
    hash_check_result(argon2_check(password_candidate.as_str().as_bytes(), expected_password_hash.as_str()))
}

/// What a login attempt comes to once the password has been checked: a
/// failed check stands, and a passed one still needs a known user.
pub open spec fn credentials_outcome(user_id: Option<Uuid>, checked: Result<(), AuthErrorView>) -> Result<Uuid, AuthErrorView> {
    match checked {
        Err(e) => Err(e),
        Ok(()) => match user_id {
            Some(id) => Ok(id),
            None => Err(AuthErrorView::InvalidCredentials("Unknown username"@)),
        },
    }
}

/// The answer to a login attempt, given the user's id where the username is
/// known and the outcome of the password check.
pub fn credentials_result(user_id: Option<Uuid>, checked: Result<(), AuthError>) -> (r: Result<Uuid, AuthError>)
    ensures
        auth_result_view(r) == credentials_outcome(user_id, auth_result_view(checked)),
{
    checked?;
    match user_id {
        Some(user_id) => Ok(user_id),
        None => Err(AuthError::InvalidCredentials(String::from_str("Unknown username"))),
    }
}

/// Validates credentials against what is stored for the username: the user's
/// id and password hash, or nothing where the username is unknown. The
/// password is checked in either case, against a fallback hash where the
/// username is unknown.
pub fn validate_credentials(credentials: Credentials, stored: Option<(Uuid, String)>) -> (r: Result<Uuid, AuthError>)
    ensures
        auth_result_view(r) == validate_outcome(stored_view(stored), credentials.password@),
{
    let (user_id, expected_password_hash) = match stored {
        Some((stored_user_id, stored_password_hash)) => (Some(stored_user_id), stored_password_hash),
        None => (None, String::from_str("$argon2id$v=19$m=15000,t=2,p=1$gZiV/M1gPc22ElAH/Jh1Hw$CWOrkoo7oJBQ/iyh7uJ0LO2aLEfrHwTWllSAxT0zRno")),
    };
    let checked = verify_password_hash(expected_password_hash, credentials.password);
    credentials_result(user_id, checked)
}

/// Credentials are accepted only for a known username whose stored hash
/// parses and accepts the password; the answer is then that user's id.
pub proof fn lemma_only_matching_known_user_authenticates(
    stored: Option<(Uuid, Seq<char>)>,
    password: Seq<char>,
    user_id: Uuid,
)
    requires
        validate_outcome(stored, password) == Ok::<Uuid, AuthErrorView>(user_id),
    ensures
        stored matches Some((id, hash)) && id == user_id && phc_string_parses(hash) && argon2_accepts(
            vstd::utf8::encode_utf8(password),
            hash,
        ),
{
}

/// An unknown username is always refused, whatever the password; a password
/// that happens to match the fallback hash does not help.
pub proof fn lemma_unknown_user_refused(password: Seq<char>)
    ensures
        validate_outcome(None, password) is Err,
        phc_string_parses(fallback_password_hash()) ==> validate_outcome(None, password) is Err
            && validate_outcome(None, password)->Err_0 is InvalidCredentials,
{
}

/// A stored hash that does not parse is an unexpected error, never a verdict
/// on the credentials.
pub proof fn lemma_malformed_hash_is_unexpected(user_id: Uuid, hash: Seq<char>, password: Seq<char>)
    requires
        !phc_string_parses(hash),
    ensures
        validate_outcome(Some((user_id, hash)), password) == Err::<Uuid, AuthErrorView>(
            AuthErrorView::UnexpectedError("Failed to parse hash in PHC string format"@),
        ),
{
}

} // verus!
