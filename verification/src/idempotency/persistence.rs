use vstd::prelude::*;

verus! {

/// One header of a saved HTTP response: its name and its raw value.
#[derive(Debug)]
pub struct HeaderPairRecord {
    pub name: String,
    pub value: Vec<u8>,
}

/// An HTTP response as the idempotency store keeps it: the status code in a
/// signed 16-bit column, the headers in their order, and the body.
#[derive(Debug)]
pub struct SavedResponse {
    pub response_status_code: i16,
    pub response_headers: Vec<HeaderPairRecord>,
    pub response_body: Vec<u8>,
}

/// A saved response as plain values.
pub struct StoredResponse {
    pub status_code: i16,
    pub headers: Seq<HeaderPairRecord>,
    pub body: Seq<u8>,
}

impl View for SavedResponse {
    type V = StoredResponse;

    open spec fn view(&self) -> StoredResponse {
        StoredResponse {
            status_code: self.response_status_code,
            headers: self.response_headers@,
            body: self.response_body@,
        }
    }
}

/// Why a stored status code cannot be turned back into an HTTP status.
#[derive(Debug, Clone, Copy, PartialEq, Eq, Structural)]
pub enum StatusCodeError {
    /// The stored value is negative, so it is no `u16`.
    Negative,
    /// The value lies outside 100..=999, the range of HTTP status codes.
    OutOfRange,
}

/// The record that saving a response with this status, headers and body
/// writes: the status is stored as a signed 16-bit value.
pub open spec fn saved_record(status: u16, headers: Seq<HeaderPairRecord>, body: Seq<u8>) -> StoredResponse {
    StoredResponse { status_code: status as i16, headers, body }
}

/// The HTTP status that a stored status code stands for.
pub open spec fn status_from_stored(code: i16) -> Result<u16, StatusCodeError> {
    if code < 0 {
        Err(StatusCodeError::Negative)
    } else if code < 100 || code > 999 {
        Err(StatusCodeError::OutOfRange)
    } else {
        Ok(code as u16)
    }
}

/// The response that a stored record is turned back into.
pub open spec fn saved_reply(record: StoredResponse) -> Result<(u16, Seq<HeaderPairRecord>, Seq<u8>), StatusCodeError> {
    match status_from_stored(record.status_code) {
        Ok(status) => Ok((status, record.headers, record.body)),
        Err(e) => Err(e),
    }
}

impl SavedResponse {
    /// The record to store for a response with this status, headers and body.
    pub fn from_parts(status: u16, headers: Vec<HeaderPairRecord>, body: Vec<u8>) -> (saved: Self)
        ensures
            saved@ == saved_record(status, headers@, body@),
            status <= 32767 ==> saved.response_status_code == status,
            saved.response_headers@ == headers@,
            saved.response_body@ == body@,
    {
        SavedResponse {
            response_status_code: #[verifier::truncate] (status as i16),
            response_headers: headers,
            response_body: body,
        }
    }

    /// The status, headers and body of the stored response, in the order in
    /// which they were saved; fails where the stored status is no HTTP status.
    pub fn into_parts(self) -> (r: Result<(u16, Vec<HeaderPairRecord>, Vec<u8>), StatusCodeError>)
        ensures
            match r {
                Ok((status, headers, body)) => saved_reply(self@) == Ok::<(u16, Seq<HeaderPairRecord>, Seq<u8>), StatusCodeError>((status, headers@, body@)),
                Err(e) => saved_reply(self@) == Err::<(u16, Seq<HeaderPairRecord>, Seq<u8>), StatusCodeError>(e),
            },
            self.response_status_code < 0 ==> r == Err::<(u16, Vec<HeaderPairRecord>, Vec<u8>), StatusCodeError>(StatusCodeError::Negative),
            0 <= self.response_status_code < 100 || self.response_status_code > 999 ==> r == Err::<(u16, Vec<HeaderPairRecord>, Vec<u8>), StatusCodeError>(StatusCodeError::OutOfRange),
            100 <= self.response_status_code <= 999 ==> (r matches Ok((status, headers, body)) && status == self.response_status_code
                && headers@ == self.response_headers@ && body@ == self.response_body@),
    {
        let code = self.response_status_code;
        if code < 0 {
            Err(StatusCodeError::Negative)
        } else if code < 100 || code > 999 {
            Err(StatusCodeError::OutOfRange)
        } else {
            Ok((code as u16, self.response_headers, self.response_body))
        }
    }
}

/// Every HTTP status code fits the stored column unchanged.
pub proof fn lemma_stored_status_in_range(status: u16)
    requires
        100 <= status <= 999,
    ensures
        status_from_stored(status as i16) == Ok::<u16, StatusCodeError>(status),
{
}

/// A response saved under an idempotency key is given back exactly: the same
/// status, the same headers in the same order, and the same body.
pub proof fn lemma_saved_response_round_trip(status: u16, headers: Seq<HeaderPairRecord>, body: Seq<u8>)
    requires
        100 <= status <= 999,
    ensures
        saved_reply(saved_record(status, headers, body)) == Ok::<(u16, Seq<HeaderPairRecord>, Seq<u8>), StatusCodeError>((status, headers, body)),
{
}

} // verus!
