use img_util::host::{
    access_key, build_query_url, default_upload_host, host_from_discovery, normalize_host,
    HttpOutcome,
};

const DEFAULT: &str = "upload-z2.qiniup.com";

#[test]
fn default_host_is_fixed() {
    assert_eq!(default_upload_host(), DEFAULT);
}

#[test]
fn normalize_empty_yields_default() {
    assert_eq!(normalize_host(""), DEFAULT);
    assert_eq!(normalize_host("   "), DEFAULT);
    assert_eq!(normalize_host("\t\r\n"), DEFAULT);
}

#[test]
fn normalize_malformed_yields_default() {
    // A scheme prefix without a parseable host.
    assert_eq!(normalize_host("https://"), DEFAULT);
    assert_eq!(normalize_host("http://"), DEFAULT);
}

#[test]
fn normalize_extracts_host_from_url() {
    assert_eq!(
        normalize_host("https://upload-z1.example.com/path"),
        "upload-z1.example.com"
    );
    assert_eq!(normalize_host("http://upload-z1.example.com"), "upload-z1.example.com");
}

#[test]
fn normalize_takes_prefix_before_slash() {
    assert_eq!(normalize_host("upload-z1.example.com/extra"), "upload-z1.example.com");
    assert_eq!(normalize_host("upload-z1.example.com"), "upload-z1.example.com");
    assert_eq!(normalize_host("  upload-z1.example.com/a/b  "), "upload-z1.example.com");
}

#[test]
fn access_key_is_prefix_before_colon() {
    assert_eq!(access_key("ak:signature:policy"), "ak");
    assert_eq!(access_key("nodelimiter"), "nodelimiter");
    assert_eq!(access_key(":starts"), "");
}

#[test]
fn query_url_encodes_parameters() {
    assert_eq!(
        build_query_url("ak", "chat68"),
        "https://api.qiniu.com/v4/query?ak=ak&bucket=chat68"
    );
    assert_eq!(
        build_query_url("a k", "b/c"),
        "https://api.qiniu.com/v4/query?ak=a%20k&bucket=b%2Fc"
    );
}

#[test]
fn discovery_transport_failure_degrades_to_default() {
    let out = HttpOutcome::Transport { detail: "connect refused".to_string() };
    assert_eq!(host_from_discovery(&out), DEFAULT);
}

#[test]
fn discovery_bad_status_degrades_to_default() {
    let out = HttpOutcome::Response { status: 500, body: "oops".to_string() };
    assert_eq!(host_from_discovery(&out), DEFAULT);
}

#[test]
fn discovery_unparseable_body_degrades_to_default() {
    let out = HttpOutcome::Response { status: 200, body: "not json".to_string() };
    assert_eq!(host_from_discovery(&out), DEFAULT);
}

#[test]
fn discovery_missing_fields_degrade_to_default() {
    let out = HttpOutcome::Response { status: 200, body: "{\"hosts\": []}".to_string() };
    assert_eq!(host_from_discovery(&out), DEFAULT);
    let out2 = HttpOutcome::Response {
        status: 200,
        body: "{\"hosts\": [{\"up\": {\"domains\": []}}]}".to_string(),
    };
    assert_eq!(host_from_discovery(&out2), DEFAULT);
}

#[test]
fn discovery_returns_first_domain_normalized() {
    let body = "{\"hosts\": [{\"up\": {\"domains\": [\"upload-z1.example.com\", \"other.example.com\"]}}]}";
    let out = HttpOutcome::Response { status: 200, body: body.to_string() };
    assert_eq!(host_from_discovery(&out), "upload-z1.example.com");
}

#[test]
fn discovery_normalizes_url_shaped_domain() {
    let body = "{\"hosts\": [{\"up\": {\"domains\": [\"https://upload-z1.example.com/up\"]}}]}";
    let out = HttpOutcome::Response { status: 200, body: body.to_string() };
    assert_eq!(host_from_discovery(&out), "upload-z1.example.com");
}
