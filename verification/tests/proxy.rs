use cors_proxy::engine::forward_headers;
use cors_proxy::engine::handle_request;
use cors_proxy::engine::is_preflight;
use cors_proxy::engine::Outcome;
use cors_proxy::error::ProxyError;
use cors_proxy::policy::CorsPolicy;
use cors_proxy::target::UpstreamTarget;

fn empty_policy() -> CorsPolicy {
    CorsPolicy {
        allow_origin: String::new(),
        allow_methods: String::new(),
        allow_headers: String::new(),
        allow_credentials: String::new(),
        expose_headers: String::new(),
        max_age: String::new(),
    }
}

fn full_policy() -> CorsPolicy {
    CorsPolicy {
        allow_origin: "https://app.example".to_string(),
        allow_methods: "GET, POST".to_string(),
        allow_headers: "Content-Type".to_string(),
        allow_credentials: "true".to_string(),
        expose_headers: "X-Request-Id".to_string(),
        max_age: "86400".to_string(),
    }
}

fn example_target() -> UpstreamTarget {
    UpstreamTarget::new("http://example.internal:9000/api".to_string()).unwrap()
}

#[test]
fn preflight_short_circuit() {
    let target = example_target();
    let outcome = handle_request(&empty_policy(), &target, "OPTIONS", Some("/v1/items?x=1"));
    match outcome {
        Outcome::Preflight { status, headers } => {
            assert_eq!(status, 204);
            assert!(headers.is_empty());
        }
        _ => panic!("preflight was not answered locally"),
    }
}

#[test]
fn preflight_headers_full_policy() {
    let target = example_target();
    let outcome = handle_request(&full_policy(), &target, "OPTIONS", Some("/"));
    match outcome {
        Outcome::Preflight { status, headers } => {
            assert_eq!(status, 204);
            let expected = vec![
                ("Access-Control-Allow-Origin", "https://app.example"),
                ("Access-Control-Allow-Methods", "GET, POST"),
                ("Access-Control-Allow-Headers", "Content-Type"),
                ("Access-Control-Allow-Credentials", "true"),
                ("Access-Control-Max-Age", "86400"),
            ];
            let got: Vec<(&str, &str)> =
                headers.iter().map(|h| (h.0.as_str(), h.1.as_str())).collect();
            assert_eq!(got, expected);
        }
        _ => panic!("preflight was not answered locally"),
    }
}

#[test]
fn preflight_omits_empty_fields() {
    let mut policy = empty_policy();
    policy.max_age = "600".to_string();
    let headers = policy.preflight_headers();
    let got: Vec<(&str, &str)> = headers.iter().map(|h| (h.0.as_str(), h.1.as_str())).collect();
    assert_eq!(got, vec![("Access-Control-Max-Age", "600")]);
}

#[test]
fn preflight_never_exposes_headers() {
    let headers = full_policy().preflight_headers();
    assert!(headers.iter().all(|h| h.0 != "Access-Control-Expose-Headers"));
}

#[test]
fn response_headers_full_policy() {
    let headers = full_policy().response_headers();
    let got: Vec<(&str, &str)> = headers.iter().map(|h| (h.0.as_str(), h.1.as_str())).collect();
    assert_eq!(
        got,
        vec![
            ("Access-Control-Allow-Origin", "https://app.example"),
            ("Access-Control-Allow-Credentials", "true"),
            ("Access-Control-Expose-Headers", "X-Request-Id"),
        ]
    );
}

#[test]
fn response_headers_omit_preflight_only_fields() {
    let headers = full_policy().response_headers();
    assert!(headers.iter().all(|h| {
        h.0 != "Access-Control-Allow-Methods"
            && h.0 != "Access-Control-Allow-Headers"
            && h.0 != "Access-Control-Max-Age"
    }));
    let headers = empty_policy().response_headers();
    assert!(headers.is_empty());
}

#[test]
fn uri_rewrite_is_plain_concatenation() {
    let target = example_target();
    let outcome = handle_request(&empty_policy(), &target, "GET", Some("/v1/items?x=1"));
    match outcome {
        Outcome::Forward(plan) => {
            assert_eq!(plan.uri, "http://example.internal:9000/api/v1/items?x=1");
            assert_eq!(plan.host, "example.internal:9000");
            assert!(!plan.use_tls);
        }
        _ => panic!("request was not forwarded"),
    }
}

#[test]
fn uri_rewrite_keeps_double_slash() {
    let target = UpstreamTarget::new("http://h/api/".to_string()).unwrap();
    match handle_request(&empty_policy(), &target, "GET", Some("/x")) {
        Outcome::Forward(plan) => assert_eq!(plan.uri, "http://h/api//x"),
        _ => panic!("request was not forwarded"),
    }
}

#[test]
fn transport_follows_scheme() {
    let https = UpstreamTarget::new("https://h:8443/pre".to_string()).unwrap();
    assert!(https.tls);
    assert_eq!(https.host, "h:8443");
    match handle_request(&empty_policy(), &https, "PUT", Some("/a")) {
        Outcome::Forward(plan) => assert!(plan.use_tls),
        _ => panic!("request was not forwarded"),
    }
    let http = UpstreamTarget::new("http://h".to_string()).unwrap();
    assert!(!http.tls);
    match handle_request(&empty_policy(), &http, "PUT", Some("/a")) {
        Outcome::Forward(plan) => assert!(!plan.use_tls),
        _ => panic!("request was not forwarded"),
    }
}

#[test]
fn forwarded_response_headers_follow_policy() {
    let target = example_target();
    match handle_request(&full_policy(), &target, "POST", Some("/v1/items")) {
        Outcome::Forward(plan) => {
            let got: Vec<(&str, &str)> =
                plan.response_headers.iter().map(|h| (h.0.as_str(), h.1.as_str())).collect();
            assert_eq!(
                got,
                vec![
                    ("Access-Control-Allow-Origin", "https://app.example"),
                    ("Access-Control-Allow-Credentials", "true"),
                    ("Access-Control-Expose-Headers", "X-Request-Id"),
                ]
            );
        }
        _ => panic!("request was not forwarded"),
    }
}

#[test]
fn pass_through_headers_replace_host_only() {
    let inbound = vec![
        ("Accept".to_string(), "*/*".to_string()),
        ("Host".to_string(), "edge.example".to_string()),
        ("X-Trace".to_string(), "abc".to_string()),
    ];
    let out = forward_headers(&inbound, &"example.internal:9000".to_string());
    let got: Vec<(&str, &str)> = out.iter().map(|h| (h.0.as_str(), h.1.as_str())).collect();
    assert_eq!(
        got,
        vec![
            ("Accept", "*/*"),
            ("X-Trace", "abc"),
            ("Host", "example.internal:9000"),
        ]
    );
}

#[test]
fn pass_through_headers_match_host_case_insensitively() {
    let inbound = vec![
        ("host".to_string(), "a".to_string()),
        ("HOST".to_string(), "b".to_string()),
        ("hose".to_string(), "keep".to_string()),
    ];
    let out = forward_headers(&inbound, &"up".to_string());
    let got: Vec<(&str, &str)> = out.iter().map(|h| (h.0.as_str(), h.1.as_str())).collect();
    assert_eq!(got, vec![("hose", "keep"), ("Host", "up")]);
}

#[test]
fn missing_path_and_query_is_rejected() {
    let target = example_target();
    match handle_request(&empty_policy(), &target, "GET", None) {
        Outcome::Reject(e) => assert_eq!(e, ProxyError::MalformedTarget),
        _ => panic!("malformed request was not rejected"),
    }
}

#[test]
fn unparsable_target_is_rejected() {
    let target = example_target();
    match handle_request(&empty_policy(), &target, "GET", Some("/a b")) {
        Outcome::Reject(e) => assert_eq!(e, ProxyError::MalformedTarget),
        _ => panic!("unparsable target was not rejected"),
    }
}

#[test]
fn invalid_upstream_is_rejected() {
    for base in ["ftp://h/x", "example.internal", "http://", "https://", "http://bad host/x", ""] {
        match UpstreamTarget::new(base.to_string()) {
            Err(e) => assert_eq!(e, ProxyError::InvalidUpstream),
            Ok(_) => panic!("invalid upstream base was accepted"),
        }
    }
}

#[test]
fn preflight_method_is_case_sensitive() {
    assert!(is_preflight("OPTIONS"));
    assert!(!is_preflight("options"));
    assert!(!is_preflight("GET"));
    assert!(!is_preflight(""));
}
