use auth0_management::{on_decoded, on_response, ApiError, ResponseStep};

#[test]
fn not_found_is_status_error() {
    let step = on_response(404, "{\"error\":\"Not Found\"}".to_string());
    match step {
        ResponseStep::Fail(ApiError::Status { code, body }) => {
            assert_eq!(code, 404);
            assert_eq!(body, "{\"error\":\"Not Found\"}");
        }
        other => panic!("unexpected {:?}", other),
    }
}

#[test]
fn other_failure_statuses_are_status_errors() {
    for code in [100u16, 199, 300, 401, 500, 503] {
        assert!(matches!(
            on_response(code, String::new()),
            ResponseStep::Fail(ApiError::Status { code: c, .. }) if c == code
        ));
    }
}

#[test]
fn success_statuses_hand_body_on() {
    for code in [200u16, 201, 204, 299] {
        match on_response(code, "[]".to_string()) {
            ResponseStep::Decode(body) => assert_eq!(body, "[]"),
            other => panic!("unexpected {:?}", other),
        }
    }
}

#[test]
fn bad_body_on_success_is_decode_error() {
    let body = match on_response(200, "{\"unexpected\":1}".to_string()) {
        ResponseStep::Decode(body) => body,
        other => panic!("unexpected {:?}", other),
    };
    let decoded = serde_json::from_str::<Vec<u32>>(&body).map_err(|e| e.to_string());
    assert!(matches!(on_decoded(decoded), Err(ApiError::Decode(_))));
}

#[test]
fn good_body_on_success_is_value() {
    let decoded: Result<Vec<u32>, String> = Ok(vec![1, 2]);
    assert_eq!(on_decoded(decoded).unwrap(), vec![1, 2]);
}
