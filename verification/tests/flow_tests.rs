//! End-to-end decision flows, exercised on plain values exactly as the
//! orchestrator drives them.

use img_util::config::{resolve_settings, Config};
use img_util::input::local_payload;
use img_util::keys::{pick_mime_and_ext, storage_key};
use img_util::strutil::{str_contains, trim_spaces, u64_decimal};
use img_util::transcode::{effective_quality, encoder_args};

#[test]
fn local_jpeg_without_transcoding() {
    // A local `photo.jpg` with transcoding disabled: the guessed type is
    // image/jpeg, the key is the digest of the bytes with the name's own
    // extension, and the upload MIME is the guessed type.
    let p = local_payload("photo.jpg", b"hello".to_vec());
    assert_eq!(p.content_type.as_deref(), Some("image/jpeg"));
    let (mime, ext) = pick_mime_and_ext(false, &p.name, p.content_type.as_deref());
    assert_eq!(mime, "image/jpeg");
    assert_eq!(ext, "jpg");
    let key = storage_key(&p.bytes, &ext);
    assert_eq!(key, "5d41402abc4b2a76b9719d911017c592.jpg");
}

#[test]
fn transcoded_upload_uses_fixed_format_pair() {
    // Transcoding enabled with quality 0: the encoder gets quality 95, and
    // key extension and MIME are the transcoded format's fixed pair.
    assert_eq!(effective_quality(0), 95);
    let args = encoder_args(0, "in", "out");
    assert_eq!(args[1], "95");
    let (mime, ext) = pick_mime_and_ext(true, "image", None);
    assert_eq!(mime, "image/webp");
    assert_eq!(ext, "webp");
    let key = storage_key(b"webp bytes", &ext);
    assert!(key.ends_with(".webp"));
}

#[test]
fn settings_defaults() {
    let c = Config {
        user_token: "  tok  ".to_string(),
        enable_webp: true,
        webp_quality: None,
        bucket: None,
        qiniu_token_url: None,
    };
    let s = resolve_settings(c).expect("a nonempty token must resolve");
    assert_eq!(s.user_token, "tok");
    assert!(s.enable_webp);
    assert_eq!(s.webp_quality, 95);
    assert_eq!(s.bucket, "chat68");
    assert_eq!(s.qiniu_token_url, "https://chat-go.jwzhd.com/v1/misc/qiniu-token");
}

#[test]
fn settings_keep_explicit_values() {
    let c = Config {
        user_token: "tok".to_string(),
        enable_webp: false,
        webp_quality: Some(40),
        bucket: Some("other".to_string()),
        qiniu_token_url: Some("https://svc.example.com/token".to_string()),
    };
    let s = resolve_settings(c).expect("a nonempty token must resolve");
    assert_eq!(s.webp_quality, 40);
    assert_eq!(s.bucket, "other");
    assert_eq!(s.qiniu_token_url, "https://svc.example.com/token");
}

#[test]
fn settings_refuse_blank_token() {
    let c = Config {
        user_token: "   ".to_string(),
        enable_webp: false,
        webp_quality: None,
        bucket: None,
        qiniu_token_url: None,
    };
    assert!(resolve_settings(c).is_none());
}

#[test]
fn string_helpers() {
    assert_eq!(trim_spaces("  a b \r\n"), "a b");
    assert_eq!(trim_spaces(""), "");
    assert!(str_contains("qiniu upload failed: no such domain", "no such domain"));
    assert!(!str_contains("all fine", "no such domain"));
    assert!(str_contains("abc", ""));
    assert_eq!(u64_decimal(0), "0");
    assert_eq!(u64_decimal(7), "7");
    assert_eq!(u64_decimal(404), "404");
    assert_eq!(u64_decimal(65535), "65535");
    assert_eq!(u64_decimal(18446744073709551615), "18446744073709551615");
}
