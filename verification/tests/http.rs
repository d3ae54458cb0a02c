use openidconnect::http::{auth_bearer, find_header, HttpResponse};
use openidconnect::types::AccessToken;

fn response_with(headers: &[(&str, &str)]) -> HttpResponse {
    HttpResponse {
        status_code: 200,
        headers: headers.iter().map(|(n, v)| (n.to_string(), v.to_string())).collect(),
        body: Vec::new(),
    }
}

#[test]
fn content_type_is_accepted_as_it_stands() {
    let response = response_with(&[("Content-Type", "application/json")]);
    assert_eq!(response.check_content_type("application/json"), Ok(()));
}

#[test]
fn content_type_parameters_are_passed_over() {
    let response = response_with(&[("Content-Type", "application/json; charset=utf-8")]);
    assert_eq!(response.check_content_type("application/json"), Ok(()));
    let response = response_with(&[("Content-Type", "  application/json \t;charset=utf-8")]);
    assert_eq!(response.check_content_type("application/json"), Ok(()));
}

#[test]
fn content_type_is_compared_without_regard_to_case() {
    let response = response_with(&[("content-type", "Application/JSON")]);
    assert_eq!(response.check_content_type("application/json"), Ok(()));
    let response = response_with(&[("CONTENT-TYPE", "application/json")]);
    assert_eq!(response.check_content_type("APPLICATION/json"), Ok(()));
}

#[test]
fn another_content_type_is_refused_with_what_was_found() {
    let response = response_with(&[("Content-Type", "text/html; charset=utf-8")]);
    assert_eq!(
        response.check_content_type("application/json"),
        Err("unexpected response Content-Type: `text/html; charset=utf-8`, should be `application/json`"
            .to_string())
    );
    let response = response_with(&[("Content-Type", "application/jsonx")]);
    assert!(response.check_content_type("application/json").is_err());
    let response = response_with(&[("Content-Type", "application/jso")]);
    assert!(response.check_content_type("application/json").is_err());
}

#[test]
fn a_missing_content_type_is_refused() {
    let response = response_with(&[("Content-Length", "0")]);
    assert_eq!(
        response.check_content_type("application/json"),
        Err("missing response Content-Type, should be `application/json`".to_string())
    );
}

#[test]
fn the_first_content_type_header_counts() {
    let response = response_with(&[
        ("Content-Type", "text/plain"),
        ("Content-Type", "application/json"),
    ]);
    assert!(response.check_content_type("application/json").is_err());
    assert_eq!(find_header(&response.headers, "content-type"), Some("text/plain"));
    assert_eq!(find_header(&response.headers, "accept"), None);
}

#[test]
fn bearer_header_presents_the_token() {
    let header = auth_bearer(&AccessToken::new("abc.def".to_string()));
    assert_eq!(header, ("Authorization".to_string(), "Bearer abc.def".to_string()));
}
