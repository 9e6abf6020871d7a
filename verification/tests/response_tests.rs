use restaff_claim::errors::ApiError;
use restaff_claim::responses::claim_id_from_body;
use restaff_claim::responses::claim_report;
use restaff_claim::responses::claim_success;
use restaff_claim::responses::interpret_claim_id;
use restaff_claim::responses::interpret_login_fields;
use restaff_claim::responses::login_token_from_body;

#[test]
fn login_success_yields_token() {
    let r = login_token_from_body(r#"{"code":0,"data":{"token":"T"}}"#);
    assert_eq!(r, Ok("T".to_string()));
}

#[test]
fn login_negative_code_is_rejected() {
    let r = login_token_from_body(r#"{"code": -1}"#);
    assert_eq!(r, Err(ApiError::Business("Login failed".to_string())));
}

#[test]
fn login_missing_code_is_protocol_error() {
    let r = login_token_from_body(r#"{"data":{"token":"T"}}"#);
    assert_eq!(
        r,
        Err(ApiError::Protocol(
            "Bad response (contains no `id`)".to_string()
        ))
    );
}

#[test]
fn login_non_integer_code_is_protocol_error() {
    let r = login_token_from_body(r#"{"code":"zero"}"#);
    assert_eq!(
        r,
        Err(ApiError::Protocol(
            "Bad response (contains no `id`)".to_string()
        ))
    );
}

#[test]
fn login_missing_token_is_protocol_error() {
    let r = login_token_from_body(r#"{"code":0}"#);
    assert_eq!(
        r,
        Err(ApiError::Protocol(
            "Response doesn't contain token".to_string()
        ))
    );
    let r = login_token_from_body(r#"{"code":0,"data":{}}"#);
    assert_eq!(
        r,
        Err(ApiError::Protocol(
            "Response doesn't contain token".to_string()
        ))
    );
}

#[test]
fn login_non_json_body_is_protocol_error() {
    match login_token_from_body("not json at all") {
        Err(ApiError::Protocol(_)) => {}
        other => panic!("expected a protocol error, got {:?}", other),
    }
}

#[test]
fn login_fields_interpretation() {
    assert_eq!(
        interpret_login_fields(None, Some("T".to_string())),
        Err(ApiError::Protocol(
            "Bad response (contains no `id`)".to_string()
        ))
    );
    assert_eq!(
        interpret_login_fields(Some(-7), Some("T".to_string())),
        Err(ApiError::Business("Login failed".to_string()))
    );
    assert_eq!(
        interpret_login_fields(Some(1), None),
        Err(ApiError::Protocol(
            "Response doesn't contain token".to_string()
        ))
    );
    assert_eq!(
        interpret_login_fields(Some(0), Some("T".to_string())),
        Ok("T".to_string())
    );
}

#[test]
fn claim_positive_id_is_success() {
    let r = claim_id_from_body(r#"{"id": 5}"#);
    assert_eq!(r, Ok(5));
    assert!(claim_success(5));
    assert_eq!(claim_report(5), "Points claimed successfully.");
}

#[test]
fn claim_zero_id_is_success() {
    let r = claim_id_from_body(r#"{"id": 0}"#);
    assert_eq!(r, Ok(0));
    assert!(claim_success(0));
    assert_eq!(claim_report(0), "Points claimed successfully.");
}

#[test]
fn claim_negative_id_is_soft_failure_showing_id() {
    let r = claim_id_from_body(r#"{"id": -1}"#);
    assert_eq!(r, Ok(-1));
    assert!(!claim_success(-1));
    assert_eq!(claim_report(-1), "Points claimed failed. Returned id: -1");
}

#[test]
fn claim_non_integer_id_is_hard_error() {
    let r = claim_id_from_body(r#"{"id": "x"}"#);
    assert_eq!(
        r,
        Err(ApiError::Protocol("Invalid id value from response".to_string()))
    );
}

#[test]
fn claim_missing_id_is_hard_error() {
    let r = claim_id_from_body(r#"{}"#);
    assert_eq!(
        r,
        Err(ApiError::Protocol("Invalid id value from response".to_string()))
    );
    assert_eq!(
        interpret_claim_id(None),
        Err(ApiError::Protocol("Invalid id value from response".to_string()))
    );
    assert_eq!(interpret_claim_id(Some(2)), Ok(2));
}

#[test]
fn claim_non_json_body_is_protocol_error() {
    match claim_id_from_body("<html>") {
        Err(ApiError::Protocol(_)) => {}
        other => panic!("expected a protocol error, got {:?}", other),
    }
}

#[test]
fn claim_report_handles_extreme_ids() {
    assert_eq!(
        claim_report(i64::MIN),
        "Points claimed failed. Returned id: -9223372036854775808"
    );
    assert_eq!(claim_report(i64::MAX), "Points claimed successfully.");
}

#[test]
fn error_messages_are_exposed() {
    let e = ApiError::Business("Login failed".to_string());
    assert_eq!(e.message(), "Login failed");
    let e = ApiError::Network("connection refused".to_string());
    assert_eq!(e.message(), "connection refused");
}

#[test]
fn login_then_claim_round_trip() {
    // The verified halves of the end-to-end flow: a successful login body
    // produces the token, and a successful claim body reports success.
    let body = restaff_claim::requests::build_login_body("bob", "pw");
    assert!(body.contains(r#""UserName":"bob""#));
    assert!(body.contains(r#""Password":"pw""#));
    let token = login_token_from_body(r#"{"code":0,"data":{"token":"T"}}"#).unwrap();
    assert_eq!(token, "T");
    let id = claim_id_from_body(r#"{"id":0}"#).unwrap();
    assert_eq!(claim_report(id), "Points claimed successfully.");
}
