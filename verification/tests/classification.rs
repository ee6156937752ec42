use eduflow::classify::{
    body_excerpt, classify_http_error, classify_with_message, client_failure, conclude,
    extract_message, read_failure, transport_failure, BODY_EXCERPT_CHARS,
};
use eduflow::error::ApiError;

fn api(message: &str, status: u16) -> ApiError {
    ApiError::ApiError { message: message.to_string(), status }
}

fn auth(message: &str, status: u16) -> ApiError {
    ApiError::AuthError { message: message.to_string(), status }
}

fn server(message: &str, status: u16) -> ApiError {
    ApiError::ServerError { message: message.to_string(), status }
}

fn extracted(body: &str) -> Option<String> {
    extract_message(&serde_json::from_str(body).unwrap())
}

const RATE_LIMITED: &str = "too many requests, retry later";

#[test]
fn unauthorized_with_nested_message() {
    assert_eq!(
        classify_http_error(401, r#"{"error":{"message":"invalid key"}}"#),
        auth("invalid key", 401)
    );
}

#[test]
fn forbidden_is_an_auth_error() {
    assert_eq!(classify_http_error(403, r#"{"message":"no access"}"#), auth("no access", 403));
    assert_eq!(classify_http_error(403, ""), auth("HTTP 403", 403));
}

#[test]
fn rate_limit_with_empty_object() {
    assert_eq!(classify_http_error(429, "{}"), api(RATE_LIMITED, 429));
}

#[test]
fn rate_limit_ignores_the_body_message() {
    assert_eq!(
        classify_http_error(429, r#"{"error":{"message":"slow down"}}"#),
        api(RATE_LIMITED, 429)
    );
    assert_eq!(classify_http_error(429, r#"{"message":"slow down"}"#), api(RATE_LIMITED, 429));
    assert_eq!(classify_http_error(429, "not json"), api(RATE_LIMITED, 429));
}

#[test]
fn unavailable_with_unparseable_body() {
    assert_eq!(classify_http_error(503, "not json"), server("HTTP 503", 503));
}

#[test]
fn top_level_message_is_used() {
    assert_eq!(classify_http_error(400, r#"{"message":"bad request"}"#), api("bad request", 400));
}

#[test]
fn nested_message_wins_over_top_level() {
    assert_eq!(
        classify_http_error(400, r#"{"message":"outer","error":{"message":"inner"}}"#),
        api("inner", 400)
    );
}

#[test]
fn top_level_message_is_used_where_nested_is_no_string() {
    assert_eq!(
        classify_http_error(400, r#"{"error":{"message":5},"message":"outer"}"#),
        api("outer", 400)
    );
    assert_eq!(
        classify_http_error(400, r#"{"error":{"code":7},"message":"outer"}"#),
        api("outer", 400)
    );
    assert_eq!(
        classify_http_error(400, r#"{"error":"flat","message":"outer"}"#),
        api("outer", 400)
    );
}

#[test]
fn fallback_where_no_field_is_a_string() {
    for body in [
        "{}",
        r#"{"error":{}}"#,
        r#"{"error":{"message":null}}"#,
        r#"{"error":{"message":{"text":"deep"}}}"#,
        r#"{"error":"flat"}"#,
        r#"{"message":42}"#,
        r#"{"message":["a"]}"#,
        r#"{"msg":"other key"}"#,
        r#"{"Message":"wrong case"}"#,
    ] {
        assert_eq!(classify_http_error(404, body), api("HTTP 404", 404), "{}", body);
    }
}

#[test]
fn fallback_where_the_body_is_no_object() {
    for body in ["[]", r#"[{"message":"in array"}]"#, r#""message""#, "null", "12", "true"] {
        assert_eq!(classify_http_error(500, body), server("HTTP 500", 500), "{}", body);
    }
}

#[test]
fn fallback_where_the_body_is_no_json() {
    for body in ["", " ", "<html>Bad Gateway</html>", "{", r#"{"message":"cut"#, "{'message':'x'}"] {
        assert_eq!(classify_http_error(502, body), server("HTTP 502", 502), "{:?}", body);
    }
}

#[test]
fn empty_message_string_is_still_a_message() {
    assert_eq!(classify_http_error(400, r#"{"message":""}"#), api("", 400));
    assert_eq!(classify_http_error(401, r#"{"error":{"message":""},"message":"x"}"#), auth("", 401));
}

#[test]
fn message_text_is_unescaped() {
    assert_eq!(
        classify_http_error(500, r#"{"error":{"message":"line\nbreak \"q\" 中"}}"#),
        server("line\nbreak \"q\" \u{4E2D}", 500)
    );
}

#[test]
fn status_ranges_map_to_variants() {
    assert_eq!(classify_http_error(400, ""), api("HTTP 400", 400));
    assert_eq!(classify_http_error(402, ""), api("HTTP 402", 402));
    assert_eq!(classify_http_error(404, ""), api("HTTP 404", 404));
    assert_eq!(classify_http_error(428, ""), api("HTTP 428", 428));
    assert_eq!(classify_http_error(430, ""), api("HTTP 430", 430));
    assert_eq!(classify_http_error(499, ""), api("HTTP 499", 499));
    assert_eq!(classify_http_error(500, ""), server("HTTP 500", 500));
    assert_eq!(classify_http_error(599, ""), server("HTTP 599", 599));
}

#[test]
fn statuses_outside_the_error_ranges_are_api_errors() {
    for status in [0u16, 1, 99, 100, 101, 199, 200, 204, 299, 300, 302, 399, 600, 999, 65535] {
        assert_eq!(
            classify_http_error(status, r#"{"message":"odd"}"#),
            api("odd", status),
            "{}",
            status
        );
    }
    assert_eq!(classify_http_error(65535, ""), api("HTTP 65535", 65535));
    assert_eq!(classify_http_error(0, ""), api("HTTP 0", 0));
}

#[test]
fn every_status_is_classified() {
    let mut status: u16 = 100;
    while status <= 599 {
        let e = classify_http_error(status, "");
        let expected = if status == 401 || status == 403 {
            auth(&format!("HTTP {}", status), status)
        } else if status == 429 {
            api(RATE_LIMITED, status)
        } else if status >= 500 {
            server(&format!("HTTP {}", status), status)
        } else {
            api(&format!("HTTP {}", status), status)
        };
        assert_eq!(e, expected);
        status += 1;
    }
}

#[test]
fn every_u16_status_is_classified_without_fault() {
    let mut status: u16 = 0;
    loop {
        let e = classify_http_error(status, r#"{"error":{"message":"m"}}"#);
        let ok = match &e {
            ApiError::AuthError { status: s, .. } => *s == status && (status == 401 || status == 403),
            ApiError::ServerError { status: s, .. } => *s == status && (500..=599).contains(&status),
            ApiError::ApiError { status: s, .. } => {
                *s == status && status != 401 && status != 403 && !(500..=599).contains(&status)
            }
            _ => false,
        };
        assert!(ok, "{} gave {:?}", status, e);
        if status == u16::MAX {
            break;
        }
        status += 1;
    }
}

#[test]
fn classifying_twice_gives_the_same_error() {
    let bodies = ["", "{}", "not json", r#"{"message":"m"}"#, r#"{"error":{"message":"n"}}"#];
    for status in [100u16, 200, 400, 401, 403, 404, 429, 500, 503, 599] {
        for body in bodies {
            assert_eq!(classify_http_error(status, body), classify_http_error(status, body));
        }
    }
}

#[test]
fn extract_message_prefers_the_nested_field() {
    assert_eq!(extracted(r#"{"error":{"message":"inner"},"message":"outer"}"#), Some("inner".to_string()));
    assert_eq!(extracted(r#"{"message":"outer"}"#), Some("outer".to_string()));
    assert_eq!(extracted(r#"{"error":{"message":1},"message":"outer"}"#), Some("outer".to_string()));
    assert_eq!(extracted(r#"{"error":{"message":"inner"},"message":1}"#), Some("inner".to_string()));
}

#[test]
fn extract_message_finds_nothing() {
    for body in ["{}", "[]", "null", r#""message""#, r#"{"error":{"message":1},"message":2}"#, r#"{"error":[]}"#] {
        assert_eq!(extracted(body), None, "{}", body);
    }
}

#[test]
fn classify_with_message_uses_what_was_extracted() {
    assert_eq!(classify_with_message(401, Some("invalid key".to_string())), auth("invalid key", 401));
    assert_eq!(classify_with_message(404, Some("gone".to_string())), api("gone", 404));
    assert_eq!(classify_with_message(500, Some("oops".to_string())), server("oops", 500));
    assert_eq!(classify_with_message(429, Some("slow".to_string())), api(RATE_LIMITED, 429));
}

#[test]
fn classify_with_message_falls_back_to_the_status() {
    assert_eq!(classify_with_message(403, None), auth("HTTP 403", 403));
    assert_eq!(classify_with_message(418, None), api("HTTP 418", 418));
    assert_eq!(classify_with_message(503, None), server("HTTP 503", 503));
    assert_eq!(classify_with_message(429, None), api(RATE_LIMITED, 429));
    assert_eq!(classify_with_message(7, None), api("HTTP 7", 7));
}

#[test]
fn client_failure_is_a_network_error() {
    assert_eq!(
        client_failure("builder error"),
        ApiError::NetworkError { message: "failed to create HTTP client: builder error".to_string() }
    );
    assert_eq!(
        client_failure(""),
        ApiError::NetworkError { message: "failed to create HTTP client: ".to_string() }
    );
}

#[test]
fn transport_timeout_is_timeout() {
    assert_eq!(transport_failure(true, false, "operation timed out"), ApiError::Timeout);
}

#[test]
fn transport_timeout_wins_over_connect() {
    assert_eq!(transport_failure(true, true, "connect timed out"), ApiError::Timeout);
}

#[test]
fn transport_connect_failure_has_the_fixed_message() {
    assert_eq!(
        transport_failure(false, true, "tcp connect error: refused"),
        ApiError::NetworkError { message: "cannot connect to API server".to_string() }
    );
}

#[test]
fn other_transport_failure_embeds_the_detail() {
    assert_eq!(
        transport_failure(false, false, "connection reset"),
        ApiError::NetworkError { message: "network request failed: connection reset".to_string() }
    );
}

#[test]
fn read_failure_is_a_parse_error() {
    assert_eq!(
        read_failure("error decoding response body"),
        ApiError::ParseError {
            message: "failed to read response: error decoding response body".to_string()
        }
    );
}

#[test]
fn success_returns_the_body_unchanged() {
    let body = r#"{"choices":[{"message":{"role":"assistant","content":"hi"}}]}"#;
    assert_eq!(conclude(200, body.to_string()), Ok(body.to_string()));
}

#[test]
fn success_does_not_look_into_the_body() {
    for body in ["", "not json", " {\"a\": 1} \n", r#"{"error":{"message":"ignored"}}"#, "\u{4E2D}"] {
        for status in [200u16, 201, 204, 250, 299] {
            assert_eq!(conclude(status, body.to_string()), Ok(body.to_string()));
        }
    }
}

#[test]
fn statuses_next_to_success_are_errors() {
    assert_eq!(conclude(199, String::new()), Err(api("HTTP 199", 199)));
    assert_eq!(conclude(300, String::new()), Err(api("HTTP 300", 300)));
    assert_eq!(conclude(304, r#"{"message":"not modified"}"#.to_string()), Err(api("not modified", 304)));
}

#[test]
fn failure_statuses_are_classified() {
    assert_eq!(
        conclude(401, r#"{"error":{"message":"invalid key"}}"#.to_string()),
        Err(auth("invalid key", 401))
    );
    assert_eq!(conclude(429, "{}".to_string()), Err(api(RATE_LIMITED, 429)));
    assert_eq!(conclude(503, "not json".to_string()), Err(server("HTTP 503", 503)));
}

#[test]
fn body_excerpt_keeps_at_most_five_hundred_characters() {
    assert_eq!(BODY_EXCERPT_CHARS, 500);
    assert_eq!(body_excerpt(""), "");
    assert_eq!(body_excerpt("short"), "short");
    let exact = "a".repeat(500);
    assert_eq!(body_excerpt(&exact), exact);
    let long = "a".repeat(499) + "bc";
    assert_eq!(body_excerpt(&long), "a".repeat(499) + "b");
    let wide = "\u{4E2D}".repeat(700);
    assert_eq!(body_excerpt(&wide), "\u{4E2D}".repeat(500));
}
