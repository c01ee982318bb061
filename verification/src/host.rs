//! Endpoint resolution: normalizing whatever the region-discovery API returns
//! into a bare upload host. Discovery never fails outward — every failure
//! degrades to the fixed default host, so a best-effort optimization can
//! never block the upload itself.

use vstd::prelude::*;

use crate::errors::{spec_status_ok, status_ok};
use crate::strutil::{
    before_char, lemma_prefix_before_free, prefix_before, spec_has_prefix, spec_trim,
    str_has_prefix, trim_spaces,
};

verus! {

/// The host of an absolute URL, as the url crate parses it.
pub uninterp spec fn url_host_of(s: Seq<char>) -> Option<Seq<char>>;

/// The string at `hosts[0].up.domains[0]` of a JSON body, if the descent
/// reaches one.
pub uninterp spec fn discovered_domain_of(body: Seq<char>) -> Option<Seq<char>>;

/// A bare hostname: no `'/'`, so neither a path nor a `://` scheme separator,
/// and `"https://" + host` is a well-formed upload URL.
pub open spec fn is_bare_host(h: Seq<char>) -> bool {
    forall|i: int| 0 <= i < h.len() ==> h[i] != '/'
}

/// The percent-encoding of a string: every byte except ASCII alphanumerics
/// and `-`, `_`, `.`, `~` is escaped.
pub uninterp spec fn url_encoded_of(s: Seq<char>) -> Seq<char>;

/// The fixed host used whenever discovery yields nothing usable.
pub open spec fn spec_default_host() -> Seq<char> {
    "upload-z2.qiniup.com"@
}

/// Returns the fixed default upload host.
pub fn default_upload_host() -> (r: &'static str)
    ensures
        r@ == spec_default_host(),
        is_bare_host(r@),
{
    proof {
        reveal_strlit("upload-z2.qiniup.com");
    }
    "upload-z2.qiniup.com"
}

/// Relies on url::Url::parse and Url::host_str: the host component of an
/// absolute URL, a function of the text alone. host_str slices exactly the
/// host range of the parsed URL, which never includes a `'/'`.
#[verifier::external_body]
fn parse_url_host(s: &str) -> (r: Option<String>)
    ensures
        (match r {
            Some(h) => url_host_of(s@) == Some(h@) && is_bare_host(h@),
            None => url_host_of(s@) is None,
        }),
{
    match url::Url::parse(s) {
        Ok(u) => u.host_str().map(|h| h.to_owned()),
        Err(_) => None,
    }
}

/// Relies on serde_json::from_str and Value::get / as_str: the string under
/// `hosts[0].up.domains[0]` of a JSON body, a function of the text alone;
/// absent when the body is not JSON or any step of the descent misses.
#[verifier::external_body]
fn extract_discovered_domain(body: &str) -> (r: Option<String>)
    ensures
        (match r {
            Some(d) => discovered_domain_of(body@) == Some(d@),
            None => discovered_domain_of(body@) is None,
        }),
{
    let v: Option<serde_json::Value> = serde_json::from_str(body).ok();
    v.as_ref()
        .and_then(|x| x.get("hosts"))
        .and_then(|h| h.get(0))
        .and_then(|h0| h0.get("up"))
        .and_then(|u| u.get("domains"))
        .and_then(|d| d.get(0))
        .and_then(|d0| d0.as_str())
        .map(|s| s.to_owned())
}

/// Relies on urlencoding::encode: percent-encodes every byte except ASCII
/// alphanumerics and `-`, `_`, `.`, `~`, a function of the text alone.
#[verifier::external_body]
fn url_encode(s: &str) -> (r: String)
    ensures
        r@ == url_encoded_of(s@),
{
    urlencoding::encode(s).into_owned()
}

/// What a discovered domain value normalizes to: the default host for blank
/// input; the parsed host of a scheme-prefixed value (default when it cannot
/// be parsed); otherwise everything before the first slash.
pub open spec fn spec_normalize_host(s: Seq<char>) -> Seq<char> {
    let t = spec_trim(s);
    if t.len() == 0 {
        spec_default_host()
    } else if spec_has_prefix(t, "http://"@) || spec_has_prefix(t, "https://"@) {
        match url_host_of(t) {
            Some(h) => h,
            None => spec_default_host(),
        }
    } else {
        prefix_before(t, '/')
    }
}

/// Normalizes a discovered domain value — a bare hostname, a full URL, or
/// junk — into the bare host the upload URL is built from.
pub fn normalize_host(s: &str) -> (r: String)
    ensures
        r@ == spec_normalize_host(s@),
        is_bare_host(r@),
{
    let t = trim_spaces(s);
    if t.unicode_len() == 0 {
        return default_upload_host().to_owned();
    }
    if str_has_prefix(t, "http://") || str_has_prefix(t, "https://") {
        match parse_url_host(t) {
            Some(h) => h,
            None => default_upload_host().to_owned(),
        }
    } else {
        proof {
            lemma_prefix_before_free(t@, '/');
        }
        before_char(t, '/').to_owned()
    }
}

/// The access key embedded in an upload token: the part before the first
/// colon.
pub fn access_key(token: &str) -> (r: &str)
    ensures
        r@ == prefix_before(token@, ':'),
{
    before_char(token, ':')
}

/// Builds the region-discovery query URL for an access key and bucket, both
/// percent-encoded.
pub fn build_query_url(ak: &str, bucket: &str) -> (r: String)
    ensures
        r@ == "https://api.qiniu.com/v4/query?ak="@ + url_encoded_of(ak@) + "&bucket="@
            + url_encoded_of(bucket@),
{
    let mut s = "https://api.qiniu.com/v4/query?ak=".to_owned();
    s.append(url_encode(ak).as_str());
    s.append("&bucket=");
    s.append(url_encode(bucket).as_str());
    s
}

/// What came back from one HTTP exchange: either the transport failed, or a
/// response arrived with a status and body.
pub enum HttpOutcome {
    Transport { detail: String },
    Response { status: u16, body: String },
}

/// Maps the domain string extracted from a discovery response to the upload
/// host: absent means the default host, present means its normalization.
pub fn host_from_domain(domain: Option<&str>) -> (r: String)
    ensures
        (match domain {
            Some(d) => r@ == spec_normalize_host(d@),
            None => r@ == spec_default_host(),
        }),
        is_bare_host(r@),
{
    match domain {
        Some(d) => normalize_host(d),
        None => default_upload_host().to_owned(),
    }
}

/// Resolves the upload host from the discovery call's outcome by descending
/// `hosts[0].up.domains[0]`. Never fails: a transport error, a non-success
/// status, an unparseable body, or a missing field all yield the default
/// host; a discovered domain is normalized.
pub fn host_from_discovery(out: &HttpOutcome) -> (r: String)
    ensures
        (match *out {
            HttpOutcome::Transport { .. } => r@ == spec_default_host(),
            HttpOutcome::Response { status, body } => {
                if !spec_status_ok(status) {
                    r@ == spec_default_host()
                } else {
                    match discovered_domain_of(body@) {
                        Some(d) => r@ == spec_normalize_host(d),
                        None => r@ == spec_default_host(),
                    }
                }
            },
        }),
        is_bare_host(r@),
{
    let body: &String = match out {
        HttpOutcome::Transport { .. } => {
            return default_upload_host().to_owned();
        },
        HttpOutcome::Response { status, body } => {
            if !status_ok(*status) {
                return default_upload_host().to_owned();
            }
            body
        },
    };
    let domain = extract_discovered_domain(body.as_str());
    match domain {
        Some(d) => host_from_domain(Some(d.as_str())),
        None => host_from_domain(None),
    }
}

} // verus!
