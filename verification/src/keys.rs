//! Content addressing: the storage key is a pure function of the final upload
//! bytes and the chosen extension, never of the original file name.

use vstd::prelude::*;

use crate::strutil::{lemma_tail_run_index, spec_name_ext};

verus! {

/// The lowercase hexadecimal MD5 digest of a byte sequence.
pub uninterp spec fn md5_hex_of(bytes: Seq<u8>) -> Seq<char>;

/// The first file extension registered for a MIME type, if any.
pub uninterp spec fn mime_extension_of(mime: Seq<char>) -> Option<Seq<char>>;

/// Relies on md5::compute (a 16-byte digest, a function of the input bytes
/// alone) and on Digest's lowercase-hex formatting: 32 hex digits.
#[verifier::external_body]
pub(crate) fn md5_hex(bytes: &[u8]) -> (r: String)
    ensures
        r@ == md5_hex_of(bytes@),
        r@.len() == 32,
{
    format!("{:x}", md5::compute(bytes))
}

/// Relies on mime_guess::get_mime_extensions_str: the first extension listed
/// for a MIME type in a static table, a function of the type string alone.
#[verifier::external_body]
fn mime_first_extension(mime: &str) -> (r: Option<String>)
    ensures
        (match r {
            Some(e) => mime_extension_of(mime@) == Some(e@),
            None => mime_extension_of(mime@) is None,
        }),
{
    mime_guess::get_mime_extensions_str(mime).and_then(|arr| arr.first().copied()).map(
        |s| s.to_owned(),
    )
}

/// The storage key under which `bytes` are stored: hex digest, a dot, and the
/// extension.
pub open spec fn spec_storage_key(bytes: Seq<u8>, ext: Seq<char>) -> Seq<char> {
    md5_hex_of(bytes) + seq!['.'] + ext
}

/// Derives the content-addressed storage key for the final upload bytes.
pub fn storage_key(bytes: &[u8], ext: &str) -> (r: String)
    ensures
        r@ == spec_storage_key(bytes@, ext@),
{
    proof {
        reveal_strlit(".");
    }
    let mut s = md5_hex(bytes);
    s.append(".");
    s.append(ext);
    proof {
        assert("."@ =~= seq!['.']);
    }
    s
}

/// The storage key is a function of the content bytes and the extension
/// alone: byte-identical inputs always map to the identical key, regardless
/// of where the bytes came from or what the source was called.
pub proof fn lemma_key_deterministic(b1: Seq<u8>, b2: Seq<u8>, ext: Seq<char>)
    requires
        b1 == b2,
    ensures
        spec_storage_key(b1, ext) == spec_storage_key(b2, ext),
{
}

/// The extension embedded in a file name: what follows the last dot, when a
/// dot stands at some position past the first character.
pub fn name_extension<'a>(n: &'a str) -> (r: Option<&'a str>)
    ensures
        (match r {
            Some(e) => spec_name_ext(n@) == Some(e@),
            None => spec_name_ext(n@) is None,
        }),
{
    let len = n.unicode_len();
    if len == 0 {
        return None;
    }
    let mut j = len;
    while j > 1 && n.get_char(j - 1) != '.'
        invariant
            1 <= j <= len,
            len == n@.len(),
            forall|t: int| j <= t < len ==> n@[t] != '.',
        decreases j,
    {
        j -= 1;
    }
    if j > 1 {
        proof {
            assert(n@[j - 1] == '.');
            lemma_tail_run_index(n@, '.', j as int);
        }
        Some(n.substring_char(j, len))
    } else {
        proof {
            assert(forall|i: int| 1 <= i < n@.len() ==> n@[i] != '.');
        }
        None
    }
}

/// Picks the MIME type and key extension for the final upload bytes: the
/// transcoded format's fixed pair when transcoding ran; otherwise the
/// declared content type (generic binary when absent) with the name's own
/// extension, a table lookup on the type, or the generic binary extension.
pub fn pick_mime_and_ext(transcoded: bool, name: &str, content_type: Option<&str>) -> (r: (
    String,
    String,
))
    ensures
        transcoded ==> r.0@ == "image/webp"@ && r.1@ == "webp"@,
        !transcoded ==> r.0@ == (match content_type {
            Some(c) => c@,
            None => "application/octet-stream"@,
        }),
        !transcoded ==> r.1@ == (match spec_name_ext(name@) {
            Some(e) => e,
            None => match mime_extension_of(r.0@) {
                Some(e) => e,
                None => "bin"@,
            },
        }),
{
    if transcoded {
        return ("image/webp".to_owned(), "webp".to_owned());
    }
    let mime = match content_type {
        Some(c) => c.to_owned(),
        None => "application/octet-stream".to_owned(),
    };
    let ext = match name_extension(name) {
        Some(e) => e.to_owned(),
        None => match mime_first_extension(mime.as_str()) {
            Some(e) => e,
            None => "bin".to_owned(),
        },
    };
    (mime, ext)
}

} // verus!
