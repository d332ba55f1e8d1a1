use zero2prod::utils::{error_response_for, error_response_with_reason};
use zero2prod::routes::{ConfirmFailure, ConfirmationError, SubscribeError, SubscribeFailure};

#[test]
fn subscribe_errors_hide_their_details() {
    let r = SubscribeError::ValidationError("bad email".to_string()).error_response();
    assert_eq!(r.status, 400);
    assert_eq!(r.body, "Bad Request");
    let r = SubscribeError::UnexpectedError(SubscribeFailure::Commit).error_response();
    assert_eq!(r.status, 500);
    assert_eq!(r.body, "Internal Server Error");
}

#[test]
fn confirmation_errors_hide_their_details() {
    let r = ConfirmationError::ValidationError("bad token".to_string()).error_response();
    assert_eq!((r.status, r.body.as_str()), (400, "Bad Request"));
    let r = ConfirmationError::UnknownToken.error_response();
    assert_eq!((r.status, r.body.as_str()), (401, "Unauthorized"));
    let r = ConfirmationError::UnexpectedError(ConfirmFailure::LookUpSubscriber).error_response();
    assert_eq!((r.status, r.body.as_str()), (500, "Internal Server Error"));
}

#[test]
fn error_response_body_is_the_reason_given() {
    let r = error_response_with_reason(418, Some("I'm a teapot"));
    assert_eq!((r.status, r.body.as_str()), (418, "I'm a teapot"));
    let r = error_response_with_reason(599, None);
    assert_eq!((r.status, r.body.as_str()), (599, ""));
    let r = error_response_for(1000);
    assert_eq!((r.status, r.body.as_str()), (1000, ""));
    let r = error_response_for(404);
    assert_eq!(r.body, "Not Found");
}
