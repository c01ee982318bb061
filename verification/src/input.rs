//! Input acquisition: turning what came back from a file read or a URL
//! download into the run's payload — bytes, a suggested name, and a declared
//! content type. The read and the download themselves happen outside the
//! library.

use vstd::prelude::*;

use crate::errors::{spec_status_ok, status_ok, ImgError};
use crate::strutil::{
    before_char, last_nonempty_seg, last_segment, prefix_before, spec_trim, str_eq, tail_run,
    trim_spaces,
};

verus! {

/// The bytes to upload, with a best-effort name and declared content type.
pub struct InputPayload {
    pub bytes: Vec<u8>,
    pub name: String,
    pub content_type: Option<String>,
}

/// The path component of an absolute URL, as the url crate parses it.
pub uninterp spec fn url_path_of(s: Seq<char>) -> Option<Seq<char>>;

/// The text decoded from bytes, with invalid sequences replaced.
pub uninterp spec fn utf8_lossy_of(b: Seq<u8>) -> Seq<char>;

/// The first MIME type registered for a path's extension, if any.
pub uninterp spec fn guessed_mime_of(path: Seq<char>) -> Option<Seq<char>>;

/// Relies on url::Url::parse and Url::path: the path component of an
/// absolute URL, a function of the text alone.
#[verifier::external_body]
fn parse_url_path(s: &str) -> (r: Option<String>)
    ensures
        (match r {
            Some(p) => url_path_of(s@) == Some(p@),
            None => url_path_of(s@) is None,
        }),
{
    match url::Url::parse(s) {
        Ok(u) => Some(u.path().to_owned()),
        Err(_) => None,
    }
}

/// Relies on String::from_utf8_lossy: the decoded text, a function of the
/// bytes alone.
#[verifier::external_body]
fn bytes_to_text(b: &[u8]) -> (r: String)
    ensures
        r@ == utf8_lossy_of(b@),
{
    String::from_utf8_lossy(b).into_owned()
}

/// Relies on mime_guess::from_path and MimeGuess::first_raw: the first MIME
/// type registered for the path's extension in a static table, a function of
/// the path text alone.
#[verifier::external_body]
fn guess_mime(path: &str) -> (r: Option<String>)
    ensures
        (match r {
            Some(m) => guessed_mime_of(path@) == Some(m@),
            None => guessed_mime_of(path@) is None,
        }),
{
    mime_guess::from_path(path).first_raw().map(|s| s.to_owned())
}

/// Strips a header value of its parameters: what stands before the first
/// `';'`, trimmed of whitespace.
pub fn strip_params(h: &str) -> (r: String)
    ensures
        r@ == spec_trim(prefix_before(h@, ';')),
{
    trim_spaces(before_char(h, ';')).to_owned()
}

/// The suggested file name read off a URL path: its last nonempty segment,
/// or the fixed placeholder when the path has none.
pub open spec fn spec_name_from_path(p: Seq<char>) -> Seq<char> {
    match last_nonempty_seg(p, '/') {
        Some(seg) => seg,
        None => "image"@,
    }
}

/// Derives the suggested file name from a URL, defaulting to the fixed
/// placeholder when the URL cannot be parsed or its path has no nonempty
/// segment.
pub fn name_from_url(url: &str) -> (r: String)
    ensures
        (match url_path_of(url@) {
            Some(p) => r@ == spec_name_from_path(p),
            None => r@ == "image"@,
        }),
{
    match parse_url_path(url) {
        Some(p) => match last_segment(p.as_str(), '/') {
            Some(seg) => seg.to_owned(),
            None => "image".to_owned(),
        },
        None => "image".to_owned(),
    }
}

/// The last `'/'`-separated segment of `p` that names something: empty runs
/// and bare `"."` segments (which a path walk normalizes away) are skipped.
pub open spec fn last_name_seg(p: Seq<char>) -> Option<Seq<char>>
    decreases p.len(),
{
    if p.len() == 0 {
        None
    } else if p.last() == '/' {
        last_name_seg(p.drop_last())
    } else if tail_run(p, '/') == "."@ {
        last_name_seg(p.drop_last())
    } else {
        Some(tail_run(p, '/'))
    }
}

/// The base name of a local path: its last naming segment, or the fixed
/// placeholder when there is none or it only navigates upward.
pub open spec fn spec_base_name(p: Seq<char>) -> Seq<char> {
    match last_name_seg(p) {
        Some(seg) => if seg == ".."@ {
            "file"@
        } else {
            seg
        },
        None => "file"@,
    }
}

/// Finds the last naming segment of a path, skipping separators and bare
/// `"."` segments from the end.
fn find_name_seg<'a>(s: &'a str) -> (r: Option<&'a str>)
    ensures
        (match r {
            Some(x) => last_name_seg(s@) == Some(x@),
            None => last_name_seg(s@) is None,
        }),
    decreases s@.len(),
{
    let n = s.unicode_len();
    if n == 0 {
        return None;
    }
    if s.get_char(n - 1) == '/' {
        let pre = s.substring_char(0, n - 1);
        proof {
            assert(pre@ =~= s@.drop_last());
        }
        return find_name_seg(pre);
    }
    match last_segment(s, '/') {
        Some(seg) => {
            proof {
                assert(last_nonempty_seg(s@, '/') == Some(tail_run(s@, '/')));
            }
            if str_eq(seg, ".") {
                let pre = s.substring_char(0, n - 1);
                proof {
                    assert(pre@ =~= s@.drop_last());
                }
                find_name_seg(pre)
            } else {
                Some(seg)
            }
        },
        None => {
            proof {
                assert(last_nonempty_seg(s@, '/') == Some(tail_run(s@, '/')));
                assert(false);
            }
            None
        },
    }
}

/// Derives the suggested file name from a local path.
pub fn base_name(path: &str) -> (r: String)
    ensures
        r@ == spec_base_name(path@),
{
    match find_name_seg(path) {
        Some(seg) => {
            if str_eq(seg, "..") {
                "file".to_owned()
            } else {
                seg.to_owned()
            }
        },
        None => "file".to_owned(),
    }
}

/// Builds the payload from a URL download's status, content-type header and
/// body. A non-success status is a fetch error embedding the status and the
/// body's text; otherwise the body is the payload, named after the URL path,
/// with the header's type stripped of parameters.
pub fn fetched_payload(
    url: &str,
    status: u16,
    content_type_header: Option<&str>,
    bytes: Vec<u8>,
) -> (r: Result<InputPayload, ImgError>)
    ensures
        !spec_status_ok(status) ==> (r matches Err(e) && (e matches ImgError::Fetch {
            status: st,
            body: b,
        } && st == status && b@ == utf8_lossy_of(bytes@))),
        spec_status_ok(status) ==> (r matches Ok(p) && p.bytes@ == bytes@ && p.name@ == (
        match url_path_of(url@) {
            Some(pa) => spec_name_from_path(pa),
            None => "image"@,
        }) && (match content_type_header {
            Some(h) => p.content_type matches Some(ct) && ct@ == spec_trim(
                prefix_before(h@, ';'),
            ),
            None => p.content_type is None,
        })),
{
    if !status_ok(status) {
        let body = bytes_to_text(bytes.as_slice());
        return Err(ImgError::Fetch { status, body });
    }
    let name = name_from_url(url);
    let content_type = match content_type_header {
        Some(h) => Some(strip_params(h)),
        None => None,
    };
    Ok(InputPayload { bytes, name, content_type })
}

/// Builds the payload from a local file's path and bytes: named after the
/// path's base name, with the content type guessed from the path's extension.
pub fn local_payload(path: &str, bytes: Vec<u8>) -> (p: InputPayload)
    ensures
        p.bytes@ == bytes@,
        p.name@ == spec_base_name(path@),
        (match guessed_mime_of(path@) {
            Some(m) => p.content_type matches Some(ct) && ct@ == m,
            None => p.content_type is None,
        }),
{
    let name = base_name(path);
    let content_type = guess_mime(path);
    InputPayload { bytes, name, content_type }
}

} // verus!
