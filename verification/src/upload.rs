//! The upload plan: one multipart POST against the resolved endpoint, and —
//! only when that attempt failed because the host could not be resolved — one
//! further attempt against the fixed default endpoint with the identical
//! token, key, bytes and MIME type. Nothing else is ever retried.

use vstd::prelude::*;

use crate::errors::{spec_message, spec_status_ok, status_ok, ImgError};
use crate::host::{spec_default_host, default_upload_host, HttpOutcome};
use crate::strutil::{spec_contains, str_contains};

verus! {

/// One multipart upload attempt: the endpoint URL, the plain-text fields
/// `token` and `key`, and the file part's bytes and MIME type.
pub struct UploadRequest {
    pub url: String,
    pub token: String,
    pub key: String,
    pub mime: String,
    pub bytes: Vec<u8>,
}

/// What the orchestrator must do next after an attempt.
pub enum UploadDecision {
    /// The attempt succeeded: hand the response text back.
    Done { response: String },
    /// Issue exactly one more attempt, against the default endpoint.
    Retry { request: UploadRequest },
    /// Give up with this error, unmodified.
    Fail { error: ImgError },
}

/// The error text that marks a host-resolution failure and triggers the one
/// fallback attempt.
pub open spec fn spec_fallback_marker() -> Seq<char> {
    "no such domain"@
}

/// An error triggers the fallback exactly when it is an upload error whose
/// rendered message contains the host-resolution marker.
pub open spec fn spec_should_fallback(e: ImgError) -> bool {
    e matches ImgError::Upload { .. } && spec_contains(spec_message(e), spec_fallback_marker())
}

/// Returns whether a failed attempt's error is the host-resolution class
/// that the single fallback is reserved for.
pub fn should_fallback(e: &ImgError) -> (r: bool)
    ensures
        r == spec_should_fallback(*e),
{
    match e {
        ImgError::Upload { .. } => str_contains(e.message().as_str(), "no such domain"),
        _ => false,
    }
}

/// The upload URL built from a bare host.
pub open spec fn spec_upload_url(host: Seq<char>) -> Seq<char> {
    "https://"@ + host
}

/// Builds the upload URL for a bare host.
pub fn upload_url_for(host: &str) -> (r: String)
    ensures
        r@ == spec_upload_url(host@),
{
    let mut s = "https://".to_owned();
    s.append(host);
    s
}

/// Assembles the first attempt's request against the resolved host.
pub fn first_request(host: &str, token: String, key: String, mime: String, bytes: Vec<u8>) -> (r:
    UploadRequest)
    ensures
        r.url@ == spec_upload_url(host@),
        r.token@ == token@,
        r.key@ == key@,
        r.mime@ == mime@,
        r.bytes@ == bytes@,
{
    UploadRequest { url: upload_url_for(host), token, key, mime, bytes }
}

/// Judges one attempt's HTTP outcome: a success status yields the response
/// body verbatim; a non-success status or a transport failure is an upload
/// error carrying status (when any), body and the attempted URL.
pub fn upload_outcome(url: &str, out: HttpOutcome) -> (r: Result<String, ImgError>)
    ensures
        (match out {
            HttpOutcome::Response { status, body } => {
                if spec_status_ok(status) {
                    r matches Ok(t) && t@ == body@
                } else {
                    r matches Err(e) && (e matches ImgError::Upload { status: st, body: b, url: u }
                        && st == Some(status) && b@ == body@ && u@ == url@)
                }
            },
            HttpOutcome::Transport { detail } => r matches Err(e) && (
            e matches ImgError::Upload { status: st, body: b, url: u } && st is None && b@
                == detail@ && u@ == url@),
        }),
{
    match out {
        HttpOutcome::Response { status, body } => {
            if status_ok(status) {
                Ok(body)
            } else {
                Err(ImgError::Upload { status: Some(status), body, url: url.to_owned() })
            }
        },
        HttpOutcome::Transport { detail } => {
            Err(ImgError::Upload { status: None, body: detail, url: url.to_owned() })
        },
    }
}

/// Decides what follows the first attempt. A success is final; a failure of
/// the host-resolution class directs exactly one further attempt, against the
/// default endpoint, with the identical token, key, bytes and MIME type; any
/// other failure propagates unmodified.
pub fn decide_after_first(req: &UploadRequest, outcome: Result<String, ImgError>) -> (d:
    UploadDecision)
    ensures
        (match outcome {
            Ok(t) => d matches UploadDecision::Done { response } && response@ == t@,
            Err(e) => {
                if spec_should_fallback(e) {
                    d matches UploadDecision::Retry { request } && request.url@
                        == spec_upload_url(spec_default_host()) && request.token@ == req.token@
                        && request.key@ == req.key@ && request.mime@ == req.mime@
                        && request.bytes@ == req.bytes@
                } else {
                    d matches UploadDecision::Fail { error } && error == e
                }
            },
        }),
{
    match outcome {
        Ok(response) => UploadDecision::Done { response },
        Err(error) => {
            if should_fallback(&error) {
                let bytes = req.bytes.clone();
                proof {
                    assert(bytes@ =~= req.bytes@);
                }
                UploadDecision::Retry {
                    request: UploadRequest {
                        url: upload_url_for(default_upload_host()),
                        token: req.token.clone(),
                        key: req.key.clone(),
                        mime: req.mime.clone(),
                        bytes,
                    },
                }
            } else {
                UploadDecision::Fail { error }
            }
        },
    }
}

/// Decides what follows the fallback attempt: a success is final and any
/// failure propagates unmodified — a second retry is never issued.
pub fn decide_after_fallback(outcome: Result<String, ImgError>) -> (d: UploadDecision)
    ensures
        (match outcome {
            Ok(t) => d matches UploadDecision::Done { response } && response@ == t@,
            Err(e) => d matches UploadDecision::Fail { error } && error == e,
        }),
        !(d matches UploadDecision::Retry { .. }),
{
    match outcome {
        Ok(response) => UploadDecision::Done { response },
        Err(error) => UploadDecision::Fail { error },
    }
}

} // verus!
