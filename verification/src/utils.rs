use vstd::prelude::*;
use vstd::string::*;

verus! {

/// A `303 See Other` redirect to `location`.
#[derive(Debug)]
pub struct SeeOther {
    pub location: String,
}

/// The status code of every `SeeOther` redirect.
pub open spec fn see_other_status() -> u16 {
    303
}

/// A redirect to `location`.
pub fn see_other(location: &str) -> (r: SeeOther)
    ensures
        r.location@ == location@,
{
    SeeOther { location: String::from_str(location) }
}

impl SeeOther {
    /// 303.
    pub fn status_code(&self) -> (code: u16)
        ensures
            code == see_other_status(),
    {
        303
    }
}

/// The reason phrase that `actix_web::http::StatusCode` gives the status with
/// this code, if there is such a status and it has one.
pub uninterp spec fn canonical_reason_of(code: u16) -> Option<Seq<char>>;

/// `actix_web::http::StatusCode::from_u16` followed by `canonical_reason`:
/// the reason phrase of a status, or `None` where the code is no status
/// (outside 100..=999) or the status has no phrase. Of the phrases the
/// contract states only the three that the library's errors use, as the
/// `http` crate's table gives them; the others are left to the name.
#[verifier::external_body]
fn canonical_reason(code: u16) -> (reason: Option<&'static str>)
    ensures
        match reason {
            Some(text) => canonical_reason_of(code) == Some(text@),
            None => canonical_reason_of(code) is None,
        },
        code == 400 ==> reason is Some && reason->0@ == "Bad Request"@,
        code == 401 ==> reason is Some && reason->0@ == "Unauthorized"@,
        code == 500 ==> reason is Some && reason->0@ == "Internal Server Error"@,
{
    match actix_web::http::StatusCode::from_u16(code) {
        Ok(status) => status.canonical_reason(),
        Err(_) => None,
    }
}

/// An error answer whose body is only the status's reason phrase, so that
/// internal details stay out of the response.
#[derive(Debug)]
pub struct ErrorResponse {
    pub status: u16,
    pub body: String,
}

/// The body of an error answer with this status: its reason phrase, or
/// nothing where it has none.
pub open spec fn error_body_of(status: u16) -> Seq<char> {
    match canonical_reason_of(status) {
        Some(text) => text,
        None => Seq::empty(),
    }
}

/// The error answer with this status, given the status's reason phrase.
pub fn error_response_with_reason(status: u16, reason: Option<&str>) -> (r: ErrorResponse)
    ensures
        r.status == status,
        r.body@ == match reason {
            Some(text) => text@,
            None => Seq::<char>::empty(),
        },
{
    let body = match reason {
        Some(text) => String::from_str(text),
        None => String::new(),
    };
    ErrorResponse { status, body }
}

/// The body of an error answer with one of the statuses that the library's
/// errors use.
pub open spec fn error_body_text(status: u16) -> Seq<char> {
    if status == 400 {
        "Bad Request"@
    } else if status == 401 {
        "Unauthorized"@
    } else {
        "Internal Server Error"@
    }
}

/// The error answer with this status.
pub fn error_response_for(status: u16) -> (r: ErrorResponse)
    ensures
        r.status == status,
        r.body@ == error_body_of(status),
        status == 400 || status == 401 || status == 500 ==> r.body@ == error_body_text(status),
{
    error_response_with_reason(status, canonical_reason(status))
}

} // verus!
