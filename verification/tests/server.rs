use showrunner_backend::config::Config;
use showrunner_backend::server::{
    cors_methods, cors_origin, is_json_content_type, rejects_request, security_headers, CorsOrigin,
};

fn cfg(origin: Option<&str>) -> Config {
    let mut vars = vec![("TMDB_API_KEY".to_string(), "k".to_string())];
    if let Some(o) = origin {
        vars.push(("CORS_ALLOWED_ORIGIN".to_string(), o.to_string()));
    }
    Config::from_vars(&vars).unwrap()
}

#[test]
fn cors_permissive_when_origin_is_wildcard() {
    assert!(matches!(cors_origin(&cfg(Some("*"))), CorsOrigin::Any));
}

#[test]
fn cors_specific_origin_constructs() {
    match cors_origin(&cfg(Some("https://example.com"))) {
        CorsOrigin::Exact(o) => assert_eq!(o, "https://example.com"),
        CorsOrigin::Any => panic!("expected an exact origin"),
    }
}

#[test]
fn cors_default_origin_constructs() {
    match cors_origin(&cfg(None)) {
        CorsOrigin::Exact(o) => assert_eq!(o, "http://localhost:3001"),
        CorsOrigin::Any => panic!("expected an exact origin"),
    }
    assert_eq!(cors_methods(), vec!["GET", "POST", "PUT", "PATCH", "DELETE"]);
}

#[test]
fn json_content_types_are_recognised() {
    assert!(is_json_content_type(Some("application/json")));
    assert!(is_json_content_type(Some("application/json; charset=utf-8")));
    assert!(is_json_content_type(Some("Application/JSON")));
    assert!(is_json_content_type(Some("application/problem+json")));
    assert!(is_json_content_type(Some("  application/json  ;x=y")));
    assert!(!is_json_content_type(Some("text/plain")));
    assert!(!is_json_content_type(Some("application/x-www-form-urlencoded")));
    assert!(!is_json_content_type(Some("application/jsonx")));
    assert!(!is_json_content_type(Some("json")));
    assert!(!is_json_content_type(Some("application/json+xml")));
    assert!(!is_json_content_type(None));
}

#[test]
fn state_changing_requests_need_json() {
    assert!(rejects_request("POST", Some("text/plain")));
    assert!(rejects_request("PATCH", None));
    assert!(!rejects_request("PUT", Some("application/json")));
    assert!(!rejects_request("GET", None));
    assert!(!rejects_request("DELETE", Some("text/plain")));
}

#[test]
fn security_headers_are_listed() {
    let h = security_headers();
    assert!(h[0].1.contains("frame-ancestors 'none'"));
    assert_eq!(h[1], ("x-content-type-options", "nosniff"));
    assert_eq!(h[2], ("x-frame-options", "DENY"));
    assert_eq!(h[3], ("referrer-policy", "no-referrer"));
}
