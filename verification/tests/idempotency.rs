use zero2prod::idempotency::{HeaderPairRecord, SavedResponse, StatusCodeError};

fn headers() -> Vec<HeaderPairRecord> {
    vec![
        HeaderPairRecord { name: "location".to_string(), value: b"/admin/newsletter".to_vec() },
        HeaderPairRecord { name: "set-cookie".to_string(), value: b"a=b".to_vec() },
    ]
}

#[test]
fn saved_response_is_given_back_unchanged() {
    let saved = SavedResponse::from_parts(303, headers(), b"body".to_vec());
    assert_eq!(saved.response_status_code, 303);
    let (status, hs, body) = saved.into_parts().unwrap();
    assert_eq!(status, 303);
    assert_eq!(hs.len(), 2);
    assert_eq!(hs[0].name, "location");
    assert_eq!(hs[0].value, b"/admin/newsletter");
    assert_eq!(hs[1].name, "set-cookie");
    assert_eq!(body, b"body");
}

#[test]
fn status_code_range_edges_round_trip() {
    for status in [100u16, 200, 999] {
        let saved = SavedResponse::from_parts(status, vec![], vec![]);
        assert_eq!(saved.into_parts().unwrap().0, status);
    }
}

#[test]
fn negative_stored_status_is_refused() {
    let saved = SavedResponse { response_status_code: -1, response_headers: vec![], response_body: vec![] };
    assert!(matches!(saved.into_parts(), Err(StatusCodeError::Negative)));
}

#[test]
fn out_of_range_stored_status_is_refused() {
    for code in [0i16, 99, 1000, i16::MAX] {
        let saved = SavedResponse { response_status_code: code, response_headers: vec![], response_body: vec![] };
        assert!(matches!(saved.into_parts(), Err(StatusCodeError::OutOfRange)));
    }
}

#[test]
fn large_status_wraps_into_the_column() {
    let saved = SavedResponse::from_parts(40000, vec![], vec![]);
    assert_eq!(saved.response_status_code, 40000u16 as i16);
}
