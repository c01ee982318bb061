//! Content-addressed image upload library: storage-key derivation, upload
//! credential and endpoint resolution, and the single-fallback upload plan.

pub mod config;
pub mod credential;
pub mod errors;
pub mod host;
pub mod input;
pub mod keys;
pub mod strutil;
pub mod transcode;
pub mod upload;

use vstd::prelude::*;

use crate::strutil::{spec_has_prefix, str_has_prefix};

verus! {

/// Returns whether the input designates a URL rather than a local path.
pub fn is_url(s: &str) -> (r: bool)
    ensures
        r == (spec_has_prefix(s@, "http://"@) || spec_has_prefix(s@, "https://"@)),
{
    str_has_prefix(s, "http://") || str_has_prefix(s, "https://")
}

} // verus!
