//! The run's error taxonomy and its rendered messages.

use vstd::prelude::*;

use crate::strutil::{spec_decimal, u64_decimal};

verus! {

/// Everything that can end a run early. Endpoint discovery never raises one
/// of these: its failures degrade to the default host instead.
#[derive(Debug)]
pub enum ImgError {
    /// A local file could not be read (or a temporary file written back).
    Io { detail: String },
    /// Downloading the input URL failed with a non-success status.
    Fetch { status: u16, body: String },
    /// The external encoder could not be launched.
    TranscodeUnavailable { detail: String },
    /// The external encoder exited with a failure.
    TranscodeFailed { diagnostic: String },
    /// The token service answered with a non-success status.
    AuthService { status: u16, body: String },
    /// The token service body was not the expected JSON shape.
    AuthProtocol { body: String },
    /// The upload was rejected (`status` set) or its request never completed
    /// (`status` absent).
    Upload { status: Option<u16>, body: String, url: String },
}

/// The rendered diagnostic text of an error.
pub open spec fn spec_message(e: ImgError) -> Seq<char> {
    match e {
        ImgError::Io { detail } => "failed to read input: "@ + detail@,
        ImgError::Fetch { status, body } => "download failed: "@ + spec_decimal(status as nat)
            + " "@ + body@,
        ImgError::TranscodeUnavailable { detail } =>
            "failed to run cwebp (install libwebp/cwebp or set enable_webp=false): "@ + detail@,
        ImgError::TranscodeFailed { diagnostic } => "cwebp failed: "@ + diagnostic@,
        ImgError::AuthService { status, body } => "qiniu-token http error: "@ + spec_decimal(
            status as nat,
        ) + " "@ + body@,
        ImgError::AuthProtocol { body } => "qiniu-token api error: "@ + body@,
        ImgError::Upload { status, body, url } => match status {
            Some(st) => "qiniu upload failed: "@ + spec_decimal(st as nat) + " "@ + body@
                + " (uploadUrl="@ + url@ + ")"@,
            None => "qiniu upload request: "@ + body@ + " (uploadUrl="@ + url@ + ")"@,
        },
    }
}

/// An HTTP status in the success range.
pub open spec fn spec_status_ok(status: u16) -> bool {
    200 <= status < 300
}

/// Returns whether an HTTP status is in the success range.
pub fn status_ok(status: u16) -> (r: bool)
    ensures
        r == spec_status_ok(status),
{
    200 <= status && status < 300
}

impl ImgError {
    /// Renders the error as the diagnostic line shown to the user.
    pub fn message(&self) -> (r: String)
        ensures
            r@ == spec_message(*self),
    {
        match self {
            ImgError::Io { detail } => {
                let mut s = "failed to read input: ".to_owned();
                s.append(detail.as_str());
                s
            },
            ImgError::Fetch { status, body } => {
                let mut s = "download failed: ".to_owned();
                s.append(u64_decimal(*status as u64).as_str());
                s.append(" ");
                s.append(body.as_str());
                s
            },
            ImgError::TranscodeUnavailable { detail } => {
                let mut s =
                    "failed to run cwebp (install libwebp/cwebp or set enable_webp=false): ".to_owned();
                s.append(detail.as_str());
                s
            },
            ImgError::TranscodeFailed { diagnostic } => {
                let mut s = "cwebp failed: ".to_owned();
                s.append(diagnostic.as_str());
                s
            },
            ImgError::AuthService { status, body } => {
                let mut s = "qiniu-token http error: ".to_owned();
                s.append(u64_decimal(*status as u64).as_str());
                s.append(" ");
                s.append(body.as_str());
                s
            },
            ImgError::AuthProtocol { body } => {
                let mut s = "qiniu-token api error: ".to_owned();
                s.append(body.as_str());
                s
            },
            ImgError::Upload { status, body, url } => {
                let mut s = match status {
                    Some(st) => {
                        let mut t = "qiniu upload failed: ".to_owned();
                        t.append(u64_decimal(*st as u64).as_str());
                        t.append(" ");
                        t
                    },
                    None => "qiniu upload request: ".to_owned(),
                };
                s.append(body.as_str());
                s.append(" (uploadUrl=");
                s.append(url.as_str());
                s.append(")");
                s
            },
        }
    }
}

} // verus!
