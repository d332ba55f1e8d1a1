use argon2::password_hash::SaltString;
use argon2::{Algorithm, Argon2, Params, PasswordHasher, Version};
use uuid::Uuid;
use zero2prod::authentication::{
    credentials_result, hash_check_result, validate_credentials, verify_password_hash, AuthError,
    Credentials, HashCheck,
};
use zero2prod::routes::login::{login, FormData, LoginError};

fn hash(password: &str) -> String {
    let salt = SaltString::from_b64("gZiV/M1gPc22ElAH/Jh1Hw").unwrap();
    Argon2::new(Algorithm::Argon2id, Version::V0x13, Params::new(15000, 2, 1, None).unwrap())
        .hash_password(password.as_bytes(), &salt)
        .unwrap()
        .to_string()
}

fn credentials(username: &str, password: &str) -> Credentials {
    Credentials { username: username.to_string(), password: password.to_string() }
}

#[test]
fn matching_password_is_accepted() {
    assert!(verify_password_hash(hash("everythinghastostartsomewhere"), "everythinghastostartsomewhere".to_string()).is_ok());
}

#[test]
fn wrong_password_is_invalid_credentials() {
    match verify_password_hash(hash("right"), "wrong".to_string()) {
        Err(AuthError::InvalidCredentials(m)) => assert_eq!(m, "Invalid password"),
        other => panic!("unexpected {:?}", other),
    }
}

#[test]
fn malformed_hash_is_unexpected() {
    match verify_password_hash("not a phc string".to_string(), "pw".to_string()) {
        Err(AuthError::UnexpectedError(m)) => assert_eq!(m, "Failed to parse hash in PHC string format"),
        other => panic!("unexpected {:?}", other),
    }
}

#[test]
fn known_user_with_right_password_gets_their_id() {
    let id = Uuid::new_v4();
    let result = validate_credentials(credentials("ursula", "pw"), Some((id, hash("pw"))));
    assert_eq!(result.unwrap(), id);
}

#[test]
fn known_user_with_wrong_password_is_refused() {
    let id = Uuid::new_v4();
    let result = validate_credentials(credentials("ursula", "nope"), Some((id, hash("pw"))));
    assert!(matches!(result, Err(AuthError::InvalidCredentials(_))));
}

#[test]
fn unknown_user_is_refused() {
    let result = validate_credentials(credentials("nobody", "pw"), None);
    assert!(matches!(result, Err(AuthError::InvalidCredentials(_))));
}

#[test]
fn corrupt_stored_hash_is_unexpected() {
    let result = validate_credentials(credentials("ursula", "pw"), Some((Uuid::new_v4(), "broken-hash".to_string())));
    assert!(matches!(result, Err(AuthError::UnexpectedError(_))));
}

#[test]
fn auth_error_messages() {
    assert_eq!(AuthError::InvalidCredentials("Invalid password".to_string()).message(), "Invalid credential");
    assert_eq!(AuthError::UnexpectedError("boom".to_string()).message(), "boom");
}

#[test]
fn successful_login_redirects_home() {
    let id = Uuid::new_v4();
    let form = FormData { username: "ursula".to_string(), password: "pw".to_string() };
    let (user_id, redirect) = login(form, Some((id, hash("pw")))).unwrap();
    assert_eq!(user_id, id);
    assert_eq!(redirect.location, "/");
    assert_eq!(redirect.status_code(), 303);
}

#[test]
fn refused_login_redirects_to_login() {
    let form = FormData { username: "ursula".to_string(), password: "wrong".to_string() };
    let err = login(form, Some((Uuid::new_v4(), hash("pw")))).unwrap_err();
    assert!(matches!(err, LoginError::AuthError(AuthError::InvalidCredentials(_))));
    assert_eq!(err.status_code(), 303);
    assert_eq!(err.error_response().location, "/login");
    assert_eq!(err.message(), "Authentication failed");
}

#[test]
fn broken_login_is_unexpected() {
    let form = FormData { username: "ursula".to_string(), password: "pw".to_string() };
    let err = login(form, Some((Uuid::new_v4(), "garbage".to_string()))).unwrap_err();
    assert!(matches!(err, LoginError::UnexpectedError(AuthError::UnexpectedError(_))));
    assert_eq!(err.message(), "Failed to parse hash in PHC string format");
    assert_eq!(err.error_response().location, "/login");
}

#[test]
fn phc_string_without_salt_or_hash_is_a_mismatch() {
    // `$broken` parses as a PHC string that names an algorithm and nothing
    // else, so it is a mismatch rather than a parse failure.
    let result = validate_credentials(credentials("ursula", "pw"), Some((Uuid::new_v4(), "$broken".to_string())));
    assert!(matches!(result, Err(AuthError::InvalidCredentials(_))));
}

#[test]
fn hash_check_results() {
    assert!(hash_check_result(HashCheck::Match).is_ok());
    assert!(matches!(hash_check_result(HashCheck::Mismatch), Err(AuthError::InvalidCredentials(m)) if m == "Invalid password"));
    assert!(matches!(hash_check_result(HashCheck::Malformed), Err(AuthError::UnexpectedError(m)) if m == "Failed to parse hash in PHC string format"));
}

#[test]
fn credentials_results() {
    let id = Uuid::new_v4();
    assert_eq!(credentials_result(Some(id), Ok(())).unwrap(), id);
    assert!(matches!(credentials_result(None, Ok(())), Err(AuthError::InvalidCredentials(m)) if m == "Unknown username"));
    assert!(matches!(
        credentials_result(Some(id), Err(AuthError::UnexpectedError("x".to_string()))),
        Err(AuthError::UnexpectedError(m)) if m == "x"
    ));
    assert!(matches!(
        credentials_result(None, Err(AuthError::InvalidCredentials("Invalid password".to_string()))),
        Err(AuthError::InvalidCredentials(m)) if m == "Invalid password"
    ));
}
