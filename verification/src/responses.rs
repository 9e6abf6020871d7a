//! Interpretation of the two JSON responses: which fields are read, and what
//! each combination of field values means.

use vstd::prelude::*;
use vstd::string::StringExecFns;

use crate::errors::ApiError;
use crate::text::decimal_of_signed;
use crate::text::i64_to_decimal;

verus! {

/// Whether serde_json::from_str accepts this string as JSON.
pub uninterp spec fn json_accepts(s: Seq<char>) -> bool;

/// The `code` field of a login response body, when the body is JSON and the
/// field is an integer.
pub uninterp spec fn login_code_of(s: Seq<char>) -> Option<i64>;

/// The `data.token` field of a login response body, when the body is JSON
/// and the field is a string.
pub uninterp spec fn login_token_of(s: Seq<char>) -> Option<Seq<char>>;

/// Relies on serde_json::from_str::<Value>, Value::get, Value::as_i64 and
/// Value::as_str: whether a body parses, and its `code` and `data.token`
/// fields, depend on the body alone; the parse error is turned into its
/// message.
#[verifier::external_body]
fn extract_login_fields(body: &str) -> (r: Result<(Option<i64>, Option<String>), String>)
    ensures
        r is Ok <==> json_accepts(body@),
        r matches Ok(f) ==> {
            &&& f.0 == login_code_of(body@)
            &&& (f.1 matches Some(t) ==> login_token_of(body@) == Some(t@))
            &&& (f.1 is None ==> login_token_of(body@) is None)
        },
{
    match serde_json::from_str::<serde_json::Value>(body) {
        Ok(v) => {
            let code = v.get("code").and_then(|c| c.as_i64());
            let token = v
                .get("data")
                .and_then(|d| d.get("token"))
                .and_then(|t| t.as_str())
                .map(|t| t.to_string());
            Ok((code, token))
        },
        Err(e) => Err(format!("{}", e)),
    }
}

/// The `id` field of a claim response body, when the body is JSON and the
/// field is an integer.
pub uninterp spec fn claim_id_of(s: Seq<char>) -> Option<i64>;

/// Relies on serde_json::from_str::<Value>, Value::get and Value::as_i64:
/// whether a body parses, and its `id` field, depend on the body alone; the
/// parse error is turned into its message.
#[verifier::external_body]
fn extract_claim_id(body: &str) -> (r: Result<Option<i64>, String>)
    ensures
        r is Ok <==> json_accepts(body@),
        r matches Ok(id) ==> id == claim_id_of(body@),
{
    match serde_json::from_str::<serde_json::Value>(body) {
        Ok(v) => Ok(v.get("id").and_then(|i| i.as_i64())),
        Err(e) => Err(format!("{}", e)),
    }
}

/// What a login response means, given its `code` field and its `data.token`
/// field (each `None` when missing or of the wrong type): a missing code is a
/// protocol error, a negative code is a rejected login, a missing token on an
/// accepted login is a protocol error, and otherwise the token is the result.
pub fn interpret_login_fields(code: Option<i64>, token: Option<String>) -> (r: Result<
    String,
    ApiError,
>)
    ensures
        code is None ==> (r matches Err(e) && e matches ApiError::Protocol(m) && m@
            == "Bad response (contains no `id`)"@),
        code matches Some(c) && c < 0 ==> (r matches Err(e) && e matches ApiError::Business(m)
            && m@ == "Login failed"@),
        code matches Some(c) && c >= 0 && token is None ==> (r matches Err(e) && e
            matches ApiError::Protocol(m) && m@ == "Response doesn't contain token"@),
        code matches Some(c) && c >= 0 ==> (token matches Some(t) ==> (r matches Ok(x) && x == t)),
{
    match code {
        None => Err(
            ApiError::Protocol(String::from_str("Bad response (contains no `id`)")),
        ),
        Some(c) => {
            if c < 0 {
                Err(ApiError::Business(String::from_str("Login failed")))
            } else {
                match token {
                    None => Err(
                        ApiError::Protocol(String::from_str("Response doesn't contain token")),
                    ),
                    Some(t) => Ok(t),
                }
            }
        },
    }
}

/// Read a login response body: parse it as JSON, extract `code` and
/// `data.token`, and interpret them. A body that is not JSON is a protocol
/// error; every failure is a protocol error or a rejected login; a body with
/// a non-negative `code` and a string `data.token` yields that token.
pub fn login_token_from_body(body: &str) -> (r: Result<String, ApiError>)
    ensures
        r is Ok ==> json_accepts(body@),
        !json_accepts(body@) ==> (r matches Err(e) && e matches ApiError::Protocol(_)),
        r matches Err(e) ==> (e matches ApiError::Protocol(_) || e matches ApiError::Business(_)),
        json_accepts(body@) && login_code_of(body@) is None ==> (r matches Err(e) && e
            matches ApiError::Protocol(m) && m@ == "Bad response (contains no `id`)"@),
        json_accepts(body@) ==> (login_code_of(body@) matches Some(c) ==> {
            &&& c < 0 ==> (r matches Err(e) && e matches ApiError::Business(m) && m@
                == "Login failed"@)
            &&& c >= 0 && login_token_of(body@) is None ==> (r matches Err(e) && e
                matches ApiError::Protocol(m) && m@ == "Response doesn't contain token"@)
            &&& c >= 0 ==> (login_token_of(body@) matches Some(t) ==> (r matches Ok(x) && x@
                == t))
        }),
{
    match extract_login_fields(body) {
        Err(msg) => Err(ApiError::Protocol(msg)),
        Ok(fields) => interpret_login_fields(fields.0, fields.1),
    }
}

/// What a claim response means, given its `id` field (`None` when missing or
/// not an integer): a missing id is a protocol error, any integer id is
/// returned for outcome classification.
pub fn interpret_claim_id(id: Option<i64>) -> (r: Result<i64, ApiError>)
    ensures
        id is None ==> (r matches Err(e) && e matches ApiError::Protocol(m) && m@
            == "Invalid id value from response"@),
        id matches Some(i) ==> (r matches Ok(x) && x == i),
{
    match id {
        None => Err(ApiError::Protocol(String::from_str("Invalid id value from response"))),
        Some(i) => Ok(i),
    }
}

/// Read a claim response body: parse it as JSON, extract `id`, and interpret
/// it. A body that is not JSON, or without an integer `id`, is a protocol
/// error; a body with an integer `id` yields exactly that id.
pub fn claim_id_from_body(body: &str) -> (r: Result<i64, ApiError>)
    ensures
        r is Ok ==> json_accepts(body@),
        !json_accepts(body@) ==> (r matches Err(e) && e matches ApiError::Protocol(_)),
        r matches Err(e) ==> e matches ApiError::Protocol(_),
        json_accepts(body@) ==> (claim_id_of(body@) matches Some(i) ==> (r matches Ok(x) && x
            == i)),
        json_accepts(body@) && claim_id_of(body@) is None ==> (r matches Err(e) && e
            matches ApiError::Protocol(m) && m@ == "Invalid id value from response"@),
{
    match extract_claim_id(body) {
        Err(msg) => Err(ApiError::Protocol(msg)),
        Ok(id) => interpret_claim_id(id),
    }
}

/// Whether a returned claim id signals a granted claim.
pub fn claim_success(id: i64) -> (r: bool)
    ensures
        r == (id >= 0),
{
    id >= 0
}

/// The status line reported for a returned claim id: success for a
/// non-negative id, else a failure line showing the id.
pub fn claim_report(id: i64) -> (r: String)
    ensures
        id >= 0 ==> r@ == "Points claimed successfully."@,
        id < 0 ==> r@ == "Points claimed failed. Returned id: "@ + decimal_of_signed(id as int),
{
    if id >= 0 {
        String::from_str("Points claimed successfully.")
    } else {
        let mut s = String::from_str("Points claimed failed. Returned id: ");
        s.append(i64_to_decimal(id).as_str());
        s
    }
}

} // verus!
