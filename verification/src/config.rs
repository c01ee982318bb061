//! The run's configuration: applying the documented defaults to what the
//! orchestrator read from the configuration file.

use vstd::prelude::*;

use crate::strutil::{spec_trim, trim_spaces};

verus! {

/// The configuration as read, before defaults.
pub struct Config {
    pub user_token: String,
    pub enable_webp: bool,
    pub webp_quality: Option<u8>,
    pub bucket: Option<String>,
    pub qiniu_token_url: Option<String>,
}

/// The settings a run actually uses, every default applied.
pub struct RunSettings {
    pub user_token: String,
    pub enable_webp: bool,
    pub webp_quality: u8,
    pub bucket: String,
    pub qiniu_token_url: String,
}

/// Applies the defaults: quality 95, the fixed bucket, the fixed token
/// service URL. Yields nothing exactly when the trimmed user token is empty —
/// the one configuration the run refuses.
pub fn resolve_settings(c: Config) -> (r: Option<RunSettings>)
    ensures
        (spec_trim(c.user_token@).len() == 0) <==> r is None,
        (match r {
            Some(s) => s.user_token@ == spec_trim(c.user_token@) && s.enable_webp == c.enable_webp
                && s.webp_quality == (match c.webp_quality {
                Some(q) => q,
                None => 95u8,
            }) && s.bucket@ == (match c.bucket {
                Some(b) => b@,
                None => "chat68"@,
            }) && s.qiniu_token_url@ == (match c.qiniu_token_url {
                Some(u) => u@,
                None => "https://chat-go.jwzhd.com/v1/misc/qiniu-token"@,
            }),
            None => true,
        }),
{
    let user_token = trim_spaces(c.user_token.as_str()).to_owned();
    if user_token.as_str().unicode_len() == 0 {
        return None;
    }
    let webp_quality = match c.webp_quality {
        Some(q) => q,
        None => 95,
    };
    let bucket = match c.bucket {
        Some(b) => b,
        None => "chat68".to_owned(),
    };
    let qiniu_token_url = match c.qiniu_token_url {
        Some(u) => u,
        None => "https://chat-go.jwzhd.com/v1/misc/qiniu-token".to_owned(),
    };
    Some(RunSettings {
        user_token,
        enable_webp: c.enable_webp,
        webp_quality,
        bucket,
        qiniu_token_url,
    })
}

} // verus!
