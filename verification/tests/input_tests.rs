use img_util::errors::ImgError;
use img_util::input::{base_name, fetched_payload, local_payload, name_from_url, strip_params};
use img_util::is_url;

#[test]
fn url_detection() {
    assert!(is_url("http://example.com/a.jpg"));
    assert!(is_url("https://example.com"));
    assert!(!is_url("/home/me/a.jpg"));
    assert!(!is_url("ftp://example.com"));
    assert!(!is_url("httpx://example.com"));
    assert!(!is_url(""));
}

#[test]
fn header_parameters_are_stripped() {
    assert_eq!(strip_params("image/jpeg; charset=utf-8"), "image/jpeg");
    assert_eq!(strip_params("text/html"), "text/html");
    assert_eq!(strip_params("  image/png ; q=1"), "image/png");
}

#[test]
fn name_from_url_takes_last_segment() {
    assert_eq!(name_from_url("https://e.com/a/photo.png"), "photo.png");
    assert_eq!(name_from_url("https://e.com/a/photo.png?x=1"), "photo.png");
    assert_eq!(name_from_url("https://e.com/a/b/"), "b");
    assert_eq!(name_from_url("https://e.com/"), "image");
    assert_eq!(name_from_url("https://e.com"), "image");
    assert_eq!(name_from_url("https://"), "image");
}

#[test]
fn base_name_of_paths() {
    assert_eq!(base_name("/tmp/photo.jpg"), "photo.jpg");
    assert_eq!(base_name("photo.jpg"), "photo.jpg");
    assert_eq!(base_name("a/b/"), "b");
    assert_eq!(base_name("/"), "file");
    assert_eq!(base_name(".."), "file");
    assert_eq!(base_name("."), "file");
    // A trailing `"."` segment is normalized away, as a path walk does.
    assert_eq!(base_name("a/b/."), "b");
    assert_eq!(base_name("a/./."), "a");
    assert_eq!(base_name("a/.hidden"), ".hidden");
    assert_eq!(base_name("a/.."), "file");
}

#[test]
fn failed_download_embeds_status_and_text() {
    let r = fetched_payload("https://e.com/a.png", 404, Some("text/plain"), b"not found".to_vec());
    match r {
        Err(ImgError::Fetch { status, body }) => {
            assert_eq!(status, 404);
            assert_eq!(body, "not found");
        },
        _ => panic!("a non-success status must fail the fetch"),
    }
}

#[test]
fn failed_download_decodes_invalid_bytes_lossily() {
    let r = fetched_payload("https://e.com/a.png", 500, None, vec![0xff, b'h', b'i']);
    match r {
        Err(ImgError::Fetch { status, body }) => {
            assert_eq!(status, 500);
            assert_eq!(body, "\u{FFFD}hi");
        },
        _ => panic!("a non-success status must fail the fetch"),
    }
}

#[test]
fn successful_download_builds_payload() {
    let r = fetched_payload(
        "https://e.com/pics/photo.jpg",
        200,
        Some("image/jpeg; charset=binary"),
        vec![1, 2],
    );
    match r {
        Ok(p) => {
            assert_eq!(p.bytes, vec![1, 2]);
            assert_eq!(p.name, "photo.jpg");
            assert_eq!(p.content_type.as_deref(), Some("image/jpeg"));
        },
        _ => panic!("a success status must yield the payload"),
    }
}

#[test]
fn download_without_content_type() {
    let r = fetched_payload("https://e.com/x", 204, None, vec![]);
    match r {
        Ok(p) => {
            assert_eq!(p.name, "x");
            assert!(p.content_type.is_none());
        },
        _ => panic!("a success status must yield the payload"),
    }
}

#[test]
fn local_file_guesses_type_from_extension() {
    let p = local_payload("/pics/photo.jpg", b"hello".to_vec());
    assert_eq!(p.name, "photo.jpg");
    assert_eq!(p.content_type.as_deref(), Some("image/jpeg"));
    assert_eq!(p.bytes, b"hello".to_vec());
}

#[test]
fn local_file_without_known_extension() {
    let p = local_payload("/pics/readme", vec![0]);
    assert_eq!(p.name, "readme");
    assert!(p.content_type.is_none());
}
