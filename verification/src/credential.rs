//! Exchanging the long-lived user token for a short-lived upload token: the
//! verified validation of the token service's response.
//!
//! The service answers `{"code": 1, "data": {"token": "<ak>:<sig>:<policy>"}}`
//! on success. The HTTP exchange itself happens outside the library; this
//! module judges its outcome.

use vstd::prelude::*;

use crate::errors::{spec_status_ok, status_ok, ImgError};

verus! {

/// The `code` field of a JSON body, when the body parses and the field is an
/// integer.
pub uninterp spec fn json_code_of(body: Seq<char>) -> Option<i64>;

/// The string under `data.token` of a JSON body, when the body parses and
/// every step of the descent is there.
pub uninterp spec fn json_data_token_of(body: Seq<char>) -> Option<Seq<char>>;

/// The success sentinel the token service puts in `code`.
pub open spec fn spec_success_code() -> int {
    1
}

/// Relies on serde_json::from_str and Value::get / as_i64 / as_str: the
/// `code` field and the string under `data.token` of a JSON body, functions
/// of the text alone; each absent when the body is not JSON or its descent
/// misses.
#[verifier::external_body]
fn extract_credential_fields(body: &str) -> (r: (Option<i64>, Option<String>))
    ensures
        r.0 == json_code_of(body@),
        (match r.1 {
            Some(t) => json_data_token_of(body@) == Some(t@),
            None => json_data_token_of(body@) is None,
        }),
{
    let v: Option<serde_json::Value> = serde_json::from_str(body).ok();
    let code = v.as_ref().and_then(|x| x.get("code")).and_then(|c| c.as_i64());
    let token = v
        .as_ref()
        .and_then(|x| x.get("data"))
        .and_then(|d| d.get("token"))
        .and_then(|t| t.as_str())
        .map(|s| s.to_owned());
    (code, token)
}

/// Judges the plain values extracted from the response body: the exact rule
/// for when a token is owed. `code` is the body's `code` field (absent when
/// the body was not JSON or held none), `token` the string under
/// `data.token`.
pub fn credential_decision(code: Option<i64>, token: Option<String>, body: String) -> (r: Result<
    String,
    ImgError,
>)
    ensures
        (match code {
            Some(c) => c == spec_success_code(),
            None => false,
        }) ==> (match token {
            Some(t) => r matches Ok(tk) && tk@ == t@,
            None => r matches Err(e) && (e matches ImgError::AuthProtocol { body: b } && b@
                == body@),
        }),
        (match code {
            Some(c) => c != spec_success_code(),
            None => true,
        }) ==> (r matches Err(e) && (e matches ImgError::AuthProtocol { body: b } && b@
            == body@)),
{
    match code {
        Some(c) if c == 1 => match token {
            Some(t) => Ok(t),
            None => Err(ImgError::AuthProtocol { body }),
        },
        _ => Err(ImgError::AuthProtocol { body }),
    }
}

/// Resolves the token exchange from the token service's status and body. A
/// non-success status is a service error carrying both. On a success status
/// the result is pinned by the body text alone: the token under `data.token`
/// exactly when the body's `code` is the success sentinel and the token is
/// there, and otherwise a protocol error carrying the raw body.
pub fn credential_from_response(status: u16, body: String) -> (r: Result<String, ImgError>)
    ensures
        !spec_status_ok(status) ==> (r matches Err(e) && (e matches ImgError::AuthService {
            status: st,
            body: b,
        } && st == status && b@ == body@)),
        spec_status_ok(status) ==> (match json_code_of(body@) {
            Some(c) => {
                if c == spec_success_code() {
                    match json_data_token_of(body@) {
                        Some(t) => r matches Ok(tk) && tk@ == t,
                        None => r matches Err(e) && (e matches ImgError::AuthProtocol { body: b }
                            && b@ == body@),
                    }
                } else {
                    r matches Err(e) && (e matches ImgError::AuthProtocol { body: b } && b@
                        == body@)
                }
            },
            None => r matches Err(e) && (e matches ImgError::AuthProtocol { body: b } && b@
                == body@),
        }),
{
    if !status_ok(status) {
        return Err(ImgError::AuthService { status, body });
    }
    let (code, token) = extract_credential_fields(body.as_str());
    credential_decision(code, token, body)
}

} // verus!
