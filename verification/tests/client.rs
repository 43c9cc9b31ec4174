use alist_client::client::{RequestRateLimit, RequestStep};
use alist_client::models::{ApiResponse, LoginReq};
use alist_client::{ApiStatusCode, Authentication, Client, ClientError, InternalErrorKind};

fn json_error() -> serde_json::Error {
    serde_json::from_str::<serde_json::Value>("{not json").unwrap_err()
}

#[test]
fn client_trims_base_url_and_builds_api_paths() {
    let client = Client::new("https://alist.example/base/").unwrap();
    assert_eq!(client.base_url(), "https://alist.example/base/");
    assert_eq!(
        client.api_url("/fs/list").unwrap().as_str(),
        "https://alist.example/base/api/fs/list"
    );
}

#[test]
fn authentication_builders_configure_client_token_state() {
    let client = Client::new("https://alist.example")
        .unwrap()
        .with_authentication(Authentication::Token("token-1".to_string()));
    assert_eq!(client.token().as_deref(), Some("token-1"));
    assert_eq!(
        client.authentication(),
        Some(Authentication::Token("token-1".to_string()))
    );

    let client = Client::new("https://alist.example")
        .unwrap()
        .with_authentication(Authentication::username_password("admin", "password", None));
    assert_eq!(client.token(), None);
    assert_eq!(
        client.authentication(),
        Some(Authentication::UsernamePassword {
            username: "admin".to_string(),
            password: "password".to_string(),
            otp_code: None,
        })
    );
}

#[test]
fn api_request_rate_limit_configuration_is_optional() {
    let mut client = Client::new("https://alist.example").unwrap();
    assert_eq!(client.api_request_interval(), None);

    // Intervals are nanoseconds: 250 ms.
    client.set_api_request_interval(Some(250_000_000));
    assert_eq!(client.api_request_interval(), Some(250_000_000));

    client.set_api_request_interval(Some(0));
    assert_eq!(client.api_request_interval(), None);

    let client = Client::new("https://alist.example")
        .unwrap()
        .with_api_request_interval(Some(1_000_000_000));
    assert_eq!(client.api_request_interval(), Some(1_000_000_000));
}

#[test]
fn base_url_trailing_slashes_are_normalized() {
    for input in ["https://alist.example", "https://alist.example/", "https://alist.example///"] {
        let client = Client::new(input).unwrap();
        assert_eq!(client.base_url(), "https://alist.example/");
    }
    let client = Client::new("https://alist.example/base").unwrap();
    assert_eq!(client.base_url(), "https://alist.example/base/");
    assert_eq!(
        client.api_url("fs/list").unwrap(),
        "https://alist.example/base/api/fs/list"
    );
    assert_eq!(
        client.api_url("///fs/list").unwrap(),
        "https://alist.example/base/api/fs/list"
    );
}

#[test]
fn base_url_is_the_parsed_serialization() {
    let client = Client::new("HTTPS://Alist.Example:443/Base").unwrap();
    assert_eq!(client.base_url(), "https://alist.example/Base/");
    let client = Client::new("http://example.test/a b/").unwrap();
    assert_eq!(client.base_url(), "http://example.test/a%20b/");
}

#[test]
fn invalid_base_url_is_a_url_error() {
    assert!(matches!(Client::new("not a url"), Err(ClientError::Url(_))));
    assert!(matches!(Client::new(""), Err(ClientError::Url(_))));
    assert!(matches!(Client::with_token("::", "t"), Err(ClientError::Url(_))));
}

#[test]
fn with_token_sets_token_and_authentication() {
    let client = Client::with_token("http://127.0.0.1:5244", "abc").unwrap();
    assert_eq!(client.token().as_deref(), Some("abc"));
    assert_eq!(client.authentication(), Some(Authentication::token("abc")));
    assert_eq!(client.base_url(), "http://127.0.0.1:5244/");
}

#[test]
fn clearing_authentication_keeps_the_token() {
    let mut client = Client::with_token("https://alist.example", "keep").unwrap();
    client.clear_authentication();
    assert_eq!(client.authentication(), None);
    assert_eq!(client.token().as_deref(), Some("keep"));

    client.set_authentication(Authentication::username_password("u", "p", Some("123456")));
    assert_eq!(client.token().as_deref(), Some("keep"));
    client.replace_token(None);
    assert_eq!(client.token(), None);
    assert_eq!(client.auth_header(), None);
    client.replace_token(Some("fresh".to_string()));
    assert_eq!(
        client.auth_header(),
        Some(("Authorization".to_string(), "fresh".to_string()))
    );
}

#[test]
fn refresh_logs_in_with_stored_credentials() {
    let mut client = Client::new("https://alist.example")
        .unwrap()
        .with_authentication(Authentication::username_password("admin", "secret", Some("42")));
    assert_eq!(
        client.prepare_refresh(),
        Some(LoginReq {
            username: "admin".to_string(),
            password: "secret".to_string(),
            otp_code: Some("42".to_string()),
        })
    );
    assert_eq!(client.token(), None);
}

#[test]
fn refresh_reapplies_a_stored_token() {
    let mut client = Client::with_token("https://alist.example", "t").unwrap();
    client.replace_token(None);
    assert_eq!(client.prepare_refresh(), None);
    assert_eq!(client.token().as_deref(), Some("t"));

    let mut client = Client::new("https://alist.example").unwrap();
    assert_eq!(client.prepare_refresh(), None);
    assert_eq!(client.token(), None);
    assert_eq!(client.authentication(), None);
}

#[test]
fn decode_rejects_non_success_http_status() {
    let r = Client::decode_response_value(502, "bad gateway".to_string(), Err(json_error()));
    match r {
        Err(ClientError::HttpStatus { status, body }) => {
            assert_eq!(status, 502);
            assert_eq!(body, "bad gateway");
        }
        other => panic!("unexpected {other:?}"),
    }
    let ok_envelope = ApiResponse {
        code: 200,
        message: "success".to_string(),
        data: serde_json::Value::Null,
    };
    let r = Client::decode_response_value(199, String::new(), Ok(ok_envelope));
    assert!(matches!(r, Err(ClientError::HttpStatus { status: 199, .. })));
}

#[test]
fn decode_reports_json_errors() {
    let r = Client::decode_response_value(200, "{not json".to_string(), Err(json_error()));
    assert!(matches!(r, Err(ClientError::Json(_))));
}

#[test]
fn decode_yields_data_of_success_envelope() {
    let data: serde_json::Value = serde_json::from_str(r#"{"token":"abc"}"#).unwrap();
    let envelope = ApiResponse {
        code: 200,
        message: "success".to_string(),
        data: data.clone(),
    };
    let r = Client::decode_response_value(299, String::new(), Ok(envelope));
    assert_eq!(r.unwrap(), data);
}

#[test]
fn decode_classifies_api_errors() {
    let envelope = ApiResponse {
        code: 403,
        message: "Permission denied".to_string(),
        data: serde_json::Value::Null,
    };
    match Client::decode_response_value(200, String::new(), Ok(envelope)) {
        Err(ClientError::Api {
            code,
            message,
            kind,
            data,
        }) => {
            assert_eq!(code, ApiStatusCode::Forbidden);
            assert_eq!(message, "Permission denied");
            assert_eq!(kind, Some(InternalErrorKind::PermissionDenied));
            assert!(data.is_null());
        }
        other => panic!("unexpected {other:?}"),
    }
    let envelope = ApiResponse {
        code: 777,
        message: "token expired".to_string(),
        data: serde_json::Value::Bool(true),
    };
    match Client::decode_response_value(200, String::new(), Ok(envelope)) {
        Err(ClientError::Api { code, kind, data, .. }) => {
            assert_eq!(code, ApiStatusCode::Unknown(777));
            assert_eq!(kind, None);
            assert_eq!(data, serde_json::Value::Bool(true));
        }
        other => panic!("unexpected {other:?}"),
    }
}

fn api_error(code: i32) -> ClientError {
    ClientError::Api {
        code: ApiStatusCode::from_code(code),
        message: String::new(),
        kind: None,
        data: serde_json::Value::Null,
    }
}

#[test]
fn configured_authentication_refreshes_on_rejection() {
    let password = Client::new("https://alist.example")
        .unwrap()
        .with_authentication(Authentication::username_password("a", "b", None));
    let token = Client::with_token("https://alist.example", "t").unwrap();
    let mut bare = Client::with_token("https://alist.example", "t").unwrap();
    bare.clear_authentication();
    for code in [401, 403] {
        assert!(password.should_refresh_auth(&api_error(code)));
        assert!(token.should_refresh_auth(&api_error(code)));
        assert!(!bare.should_refresh_auth(&api_error(code)));
        let http = ClientError::HttpStatus {
            status: code as u16,
            body: String::new(),
        };
        assert!(password.should_refresh_auth(&http));
        assert!(token.should_refresh_auth(&http));
        assert!(!bare.should_refresh_auth(&http));
    }
    assert!(!password.should_refresh_auth(&api_error(500)));
    assert!(!password.should_refresh_auth(&api_error(402)));
    assert!(!password.should_refresh_auth(&ClientError::HttpStatus {
        status: 500,
        body: String::new()
    }));
    assert!(!password.should_refresh_auth(&ClientError::Json(json_error())));
}

#[test]
fn request_step_refreshes_once() {
    let client = Client::new("https://alist.example")
        .unwrap()
        .with_authentication(Authentication::username_password("a", "b", None));
    assert!(matches!(
        client.request_step(false, Err(api_error(401))),
        RequestStep::RefreshThenRetry
    ));
    assert!(matches!(
        client.request_step(true, Err(api_error(401))),
        RequestStep::Finish(Err(ClientError::Api { .. }))
    ));
    assert!(matches!(
        client.request_step(false, Err(api_error(404))),
        RequestStep::Finish(Err(ClientError::Api { .. }))
    ));
    match client.request_step(false, Ok(serde_json::Value::from(7))) {
        RequestStep::Finish(Ok(v)) => assert_eq!(v, serde_json::Value::from(7)),
        other => panic!("unexpected {other:?}"),
    }
}

#[test]
fn ping_answers_from_status_and_body() {
    assert!(Client::ping_outcome(200, "pong".to_string()).unwrap());
    assert!(Client::ping_outcome(200, " \n\tpong\r\n".to_string()).unwrap());
    assert!(Client::ping_outcome(204, "\u{3000}pong\u{a0}".to_string()).unwrap());
    assert!(!Client::ping_outcome(200, "ping".to_string()).unwrap());
    assert!(!Client::ping_outcome(200, "po ng".to_string()).unwrap());
    assert!(!Client::ping_outcome(200, String::new()).unwrap());
    match Client::ping_outcome(503, "pong".to_string()) {
        Err(ClientError::HttpStatus { status, body }) => {
            assert_eq!(status, 503);
            assert_eq!(body, "pong");
        }
        other => panic!("unexpected {other:?}"),
    }
}

#[test]
fn rate_limit_spaces_consecutive_requests() {
    let mut limit = RequestRateLimit::new(50);
    // First request goes at once.
    assert_eq!(limit.wait(1_000), None);
    assert_eq!(limit.next_request_at, 1_050);
    // A request 10 ns later waits until one interval after the first.
    assert_eq!(limit.wait(1_010), Some(1_050));
    assert_eq!(limit.next_request_at, 1_100);
    // A request long after goes at once again.
    assert_eq!(limit.wait(5_000), None);
    assert_eq!(limit.next_request_at, 5_050);
    // Exactly at the scheduled time it goes at once.
    assert_eq!(limit.wait(5_050), None);
    assert_eq!(limit.next_request_at, 5_100);
}
