use img_util::credential::credential_from_response;
use img_util::errors::ImgError;

#[test]
fn wrong_code_is_protocol_error_and_never_a_token() {
    let body = "{\"code\": 0, \"data\": {\"token\": \"ak:sig:pol\"}}".to_string();
    let r = credential_from_response(200, body.clone());
    match r {
        Err(ImgError::AuthProtocol { body: b }) => assert_eq!(b, body),
        _ => panic!("a code other than 1 must be a protocol error"),
    }
}

#[test]
fn success_yields_the_token() {
    let body = "{\"code\": 1, \"data\": {\"token\": \"ak:sig:pol\"}}".to_string();
    let r = credential_from_response(200, body);
    match r {
        Ok(t) => assert_eq!(t, "ak:sig:pol"),
        _ => panic!("code 1 with a token must succeed"),
    }
}

#[test]
fn missing_token_is_protocol_error() {
    let body = "{\"code\": 1, \"data\": {}}".to_string();
    assert!(matches!(
        credential_from_response(200, body),
        Err(ImgError::AuthProtocol { .. })
    ));
}

#[test]
fn non_string_token_is_protocol_error() {
    let body = "{\"code\": 1, \"data\": {\"token\": 7}}".to_string();
    assert!(matches!(
        credential_from_response(200, body),
        Err(ImgError::AuthProtocol { .. })
    ));
}

#[test]
fn unparseable_body_is_protocol_error() {
    let body = "not json at all".to_string();
    assert!(matches!(
        credential_from_response(200, body),
        Err(ImgError::AuthProtocol { .. })
    ));
}

#[test]
fn bad_status_is_service_error() {
    let body = "denied".to_string();
    match credential_from_response(401, body) {
        Err(ImgError::AuthService { status, body: b }) => {
            assert_eq!(status, 401);
            assert_eq!(b, "denied");
        },
        _ => panic!("a non-success status must be a service error"),
    }
}

#[test]
fn service_error_message_embeds_status_and_body() {
    let e = match credential_from_response(503, "down".to_string()) {
        Err(e) => e,
        _ => panic!("expected an error"),
    };
    assert_eq!(e.message(), "qiniu-token http error: 503 down");
}
