use firewall_client::error::{ApiError, HttpError, NetworkError, ValidationError};
use firewall_client::gateway::{
    classify_transport, credential_preview, encode_credential, http_failure, is_success,
    parse_method, prepare, step, Action, ApiRequest, Event, Header, Method, Phase,
    TransportFailure,
};
use firewall_client::payload::Payload;

fn request(request_type: &str, key: Option<&str>, secret: Option<&str>) -> ApiRequest {
    ApiRequest {
        request_type: request_type.to_string(),
        url: "https://fw.example:8443/api/x".to_string(),
        payload: Some(Payload::search(2, 50)),
        headers: vec![Header { name: "x-trace".to_string(), value: "1".to_string() }],
        timeout_seconds: Some(5),
        api_key: key.map(|k| k.to_string()),
        api_secret: secret.map(|s| s.to_string()),
    }
}

fn failure(timed_out: bool, connect_failed: bool, description: &str) -> TransportFailure {
    TransportFailure { timed_out, connect_failed, description: description.to_string() }
}

#[test]
fn the_four_methods_are_accepted() {
    assert_eq!(parse_method("GET"), Ok(Method::Get));
    assert_eq!(parse_method("POST"), Ok(Method::Post));
    assert_eq!(parse_method("PATCH"), Ok(Method::Patch));
    assert_eq!(parse_method("PUT"), Ok(Method::Put));
}

#[test]
fn other_methods_are_refused() {
    let refused = Err(ApiError::Validation(ValidationError::InvalidMethod));
    assert_eq!(parse_method("DELETE"), refused);
    assert_eq!(parse_method("get"), refused);
    assert_eq!(parse_method(""), refused);
    assert_eq!(parse_method("GET "), refused);
    assert_eq!(parse_method("HEAD"), refused);
}

#[test]
fn invalid_method_is_refused_before_anything_is_prepared() {
    let outcome = prepare(request("DELETE", Some("user"), Some("pass")));
    assert_eq!(outcome, Err(ApiError::Validation(ValidationError::InvalidMethod)));
}

#[test]
fn prepared_request_carries_basic_authorization() {
    let wire = prepare(request("POST", Some("user"), Some("pass"))).unwrap();
    assert_eq!(wire.method, Method::Post);
    assert_eq!(wire.authorization, Some("Basic dXNlcjpwYXNz".to_string()));
    assert_eq!(wire.authorization_preview, Some("Basic dXNlcj...YXNz".to_string()));
}

#[test]
fn prepared_request_passes_the_rest_through() {
    let wire = prepare(request("GET", None, None)).unwrap();
    assert_eq!(wire.method, Method::Get);
    assert_eq!(wire.url, "https://fw.example:8443/api/x");
    assert_eq!(wire.payload, Some(Payload::search(2, 50)));
    assert_eq!(wire.headers, vec![Header { name: "x-trace".to_string(), value: "1".to_string() }]);
    assert_eq!(wire.timeout_seconds, Some(5));
    assert!(wire.accept_invalid_certs);
}

#[test]
fn certificate_validation_is_always_off() {
    for method in ["GET", "POST", "PATCH", "PUT"] {
        assert!(prepare(request(method, None, None)).unwrap().accept_invalid_certs);
        assert!(prepare(request(method, Some("k"), Some("s"))).unwrap().accept_invalid_certs);
    }
}

#[test]
fn authorization_needs_both_key_and_secret() {
    for (key, secret) in [(None, None), (Some("user"), None), (None, Some("pass"))] {
        let wire = prepare(request("GET", key, secret)).unwrap();
        assert_eq!(wire.authorization, None);
        assert_eq!(wire.authorization_preview, None);
    }
}

#[test]
fn preview_never_shows_a_long_credential_in_full() {
    let wire = prepare(request("GET", Some("a-long-api-key"), Some("a-long-api-secret"))).unwrap();
    let header = wire.authorization.unwrap();
    let preview = wire.authorization_preview.unwrap();
    let encoded = header.strip_prefix("Basic ").unwrap();
    assert_eq!(preview, format!("Basic {}...{}", &encoded[..6], &encoded[encoded.len() - 4..]));
    assert!(!preview.contains(encoded));
}

#[test]
fn credentials_are_base64_of_key_colon_secret() {
    assert_eq!(encode_credential("user", "pass"), "dXNlcjpwYXNz");
    assert_eq!(encode_credential("", ""), "Og==");
    assert_eq!(encode_credential("a", ""), "YTo=");
    assert_eq!(encode_credential("a", "b"), "YTpi");
    assert_eq!(encode_credential("Aladdin", "open sesame"), "QWxhZGRpbjpvcGVuIHNlc2FtZQ==");
    assert_eq!(encode_credential("é", "ü"), "w6k6w7w=");
    assert_eq!(encode_credential("a:b", "c"), "YTpiOmM=");
}

#[test]
fn preview_of_encoded_credential() {
    assert_eq!(credential_preview("dXNlcjpwYXNz"), "dXNlcj...YXNz");
    assert_eq!(credential_preview("abcdefghij"), "abcdef...ghij");
    assert_eq!(credential_preview("abcdef"), "abcdef...cdef");
    assert_eq!(credential_preview("abcde"), "abcde...bcde");
    assert_eq!(credential_preview("abcd"), "abcd...abcd");
    assert_eq!(credential_preview("abc"), "abc...abc");
    assert_eq!(credential_preview(""), "...");
}

#[test]
fn success_is_the_200_range() {
    assert!(!is_success(199));
    assert!(is_success(200));
    assert!(is_success(204));
    assert!(is_success(299));
    assert!(!is_success(300));
    assert!(!is_success(404));
    assert!(!is_success(0));
    assert!(!is_success(u16::MAX));
}

#[test]
fn statuses_are_classified() {
    assert_eq!(http_failure(401, Some("x".to_string())), ApiError::Http(HttpError::Unauthorized));
    assert_eq!(http_failure(403, None), ApiError::Http(HttpError::Forbidden));
    assert_eq!(http_failure(404, Some(String::new())), ApiError::Http(HttpError::NotFound));
    assert_eq!(
        http_failure(500, Some("boom".to_string())),
        ApiError::Http(HttpError::Other { status: 500, body: "boom".to_string() })
    );
    assert_eq!(
        http_failure(302, None),
        ApiError::Http(HttpError::Other { status: 302, body: String::new() })
    );
    assert_eq!(
        http_failure(400, Some("bad".to_string())),
        ApiError::Http(HttpError::Other { status: 400, body: "bad".to_string() })
    );
}

#[test]
fn transport_failures_are_probed_in_order() {
    assert_eq!(
        classify_transport(&failure(true, true, "dns error certificate")),
        ApiError::Network(NetworkError::Timeout)
    );
    assert_eq!(
        classify_transport(&failure(false, true, "dns error certificate")),
        ApiError::Network(NetworkError::ConnectionRefused)
    );
    assert_eq!(
        classify_transport(&failure(false, false, "error: dns error: certificate")),
        ApiError::Network(NetworkError::DnsFailure)
    );
    assert_eq!(
        classify_transport(&failure(false, false, "invalid peer certificate")),
        ApiError::Network(NetworkError::TlsFailure)
    );
    assert_eq!(
        classify_transport(&failure(false, false, "SSL routines failed")),
        ApiError::Network(NetworkError::TlsFailure)
    );
    assert_eq!(
        classify_transport(&failure(false, false, "received fatal alert (TLS)")),
        ApiError::Network(NetworkError::TlsFailure)
    );
    assert_eq!(
        classify_transport(&failure(false, false, "body decode ssl tls DNS ERROR")),
        ApiError::Network(NetworkError::Other {
            detail: "body decode ssl tls DNS ERROR".to_string()
        })
    );
    assert_eq!(
        classify_transport(&failure(false, false, "")),
        ApiError::Network(NetworkError::Other { detail: String::new() })
    );
}

#[test]
fn a_passed_deadline_is_a_timeout() {
    assert_eq!(
        classify_transport(&failure(true, false, "operation timed out")),
        ApiError::Network(NetworkError::Timeout)
    );
}

#[test]
fn a_delivered_call_runs_request_send_deliver() {
    let (phase, action) = step(Phase::Ready, Event::Request(request("GET", None, None))).unwrap();
    assert_eq!(phase, Phase::Sent);
    assert_eq!(action, Action::Send(prepare(request("GET", None, None)).unwrap()));
    let (phase, action) = step(phase, Event::Response { status: 200 }).unwrap();
    assert_eq!((phase, action), (Phase::Done, Action::Deliver));
    assert_eq!(step(phase, Event::Response { status: 200 }), None);
}

#[test]
fn a_refused_response_has_its_body_read_first() {
    let (phase, _) = step(Phase::Ready, Event::Request(request("POST", None, None))).unwrap();
    let (phase, action) = step(phase, Event::Response { status: 503 }).unwrap();
    assert_eq!((phase, action), (Phase::Refused { status: 503 }, Action::ReadBody));
    let (phase, action) = step(phase, Event::Body { text: Some("busy".to_string()) }).unwrap();
    assert_eq!(phase, Phase::Done);
    assert_eq!(
        action,
        Action::Fail(ApiError::Http(HttpError::Other { status: 503, body: "busy".to_string() }))
    );
}

#[test]
fn an_unreadable_body_counts_as_empty() {
    let (phase, action) = step(Phase::Refused { status: 500 }, Event::Body { text: None }).unwrap();
    assert_eq!(phase, Phase::Done);
    assert_eq!(
        action,
        Action::Fail(ApiError::Http(HttpError::Other { status: 500, body: String::new() }))
    );
    let (_, action) = step(Phase::Refused { status: 401 }, Event::Body { text: None }).unwrap();
    assert_eq!(action, Action::Fail(ApiError::Http(HttpError::Unauthorized)));
}

#[test]
fn an_invalid_method_fails_without_a_send() {
    let (phase, action) =
        step(Phase::Ready, Event::Request(request("DELETE", Some("k"), Some("s")))).unwrap();
    assert_eq!(phase, Phase::Done);
    assert_eq!(action, Action::Fail(ApiError::Validation(ValidationError::InvalidMethod)));
    assert_eq!(step(phase, Event::Response { status: 200 }), None);
}

#[test]
fn a_transport_failure_ends_the_call() {
    let (phase, action) =
        step(Phase::Sent, Event::Failure(failure(true, false, "operation timed out"))).unwrap();
    assert_eq!(phase, Phase::Done);
    assert_eq!(action, Action::Fail(ApiError::Network(NetworkError::Timeout)));
}

#[test]
fn events_out_of_turn_lead_nowhere() {
    assert_eq!(step(Phase::Ready, Event::Response { status: 200 }), None);
    assert_eq!(step(Phase::Ready, Event::Body { text: None }), None);
    assert_eq!(step(Phase::Ready, Event::Failure(failure(true, true, ""))), None);
    assert_eq!(step(Phase::Sent, Event::Request(request("GET", None, None))), None);
    assert_eq!(step(Phase::Sent, Event::Body { text: None }), None);
    assert_eq!(step(Phase::Refused { status: 500 }, Event::Response { status: 200 }), None);
    assert_eq!(step(Phase::Refused { status: 500 }, Event::Request(request("GET", None, None))), None);
    assert_eq!(step(Phase::Done, Event::Request(request("GET", None, None))), None);
    assert_eq!(step(Phase::Done, Event::Failure(failure(false, false, "x"))), None);
}

#[test]
fn nothing_is_sent_twice() {
    let events = |kind: u64| -> Event {
        match kind {
            0 => Event::Request(request("GET", None, None)),
            1 => Event::Request(request("NOPE", None, None)),
            2 => Event::Response { status: 200 },
            3 => Event::Response { status: 500 },
            4 => Event::Body { text: None },
            _ => Event::Failure(failure(false, true, "refused")),
        }
    };
    let mut state: u64 = 0x1234_5678_9ABC_DEF1;
    for _ in 0..500 {
        let mut phase = Phase::Ready;
        let mut sends = 0;
        for _ in 0..8 {
            state ^= state << 13;
            state ^= state >> 7;
            state ^= state << 17;
            if let Some((next, action)) = step(phase, events(state % 6)) {
                phase = next;
                if matches!(action, Action::Send(_)) {
                    sends += 1;
                }
            }
        }
        assert!(sends <= 1);
    }
}
