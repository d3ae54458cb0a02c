use base64::Engine;
use openidconnect::client::Client;
use openidconnect::discovery::ProviderMetadata;
use openidconnect::http::{HttpRequest, HttpResponse, HttpTransport, TransportError};
use openidconnect::json::parse;
use openidconnect::oauth::{
    AuthType, AuthorizationCode, BasicErrorResponseType, CsrfToken, RequestTokenError,
};
use openidconnect::registration::Registration10ClientRegistrationResponse;
use openidconnect::types::{EndpointUrl, Nonce, ResponseTypes};
use std::cell::RefCell;

fn provider(with_token_endpoint: bool) -> ProviderMetadata {
    let token = if with_token_endpoint {
        "\"token_endpoint\": \"https://op.example.com/token\","
    } else {
        ""
    };
    let doc = format!(
        "{{\"issuer\": \"https://op.example.com\", {} \
          \"authorization_endpoint\": \"https://op.example.com/authorize\", \
          \"response_types_supported\": [\"code\"], \
          \"subject_types_supported\": [\"public\"], \
          \"id_token_signing_alg_values_supported\": [\"RS256\"]}}",
        token
    );
    ProviderMetadata::from_json(&parse(doc.as_bytes()).unwrap()).unwrap()
}

fn registration(method: &str) -> Registration10ClientRegistrationResponse {
    let doc = format!(
        "{{\"client_id\": \"s6BhdRkqt3\", \"client_secret\": \"7Fjfp0ZBr1KtDRbnfVdmIw\", \
          \"redirect_uris\": [\"https://rp.example.com/cb\", \"https://rp.example.com/cb2\"]{}}}",
        method
    );
    Registration10ClientRegistrationResponse::from_json(&parse(doc.as_bytes()).unwrap()).unwrap()
}

struct Canned {
    answer: RefCell<Option<Result<HttpResponse, TransportError>>>,
    seen: RefCell<Vec<HttpRequest>>,
}

impl HttpTransport for Canned {
    fn send(&self, request: &HttpRequest) -> Result<HttpResponse, TransportError> {
        self.seen.borrow_mut().push(request.clone());
        self.answer.borrow_mut().take().expect("one request only")
    }
}

fn tokens() -> HttpResponse {
    let b64 = |bytes: &[u8]| base64::engine::general_purpose::URL_SAFE_NO_PAD.encode(bytes);
    let id_token = format!(
        "{}.{}.",
        b64(b"{\"alg\":\"none\"}"),
        b64(b"{\"iss\":\"i\",\"sub\":\"s\",\"aud\":\"a\",\"exp\":2,\"iat\":1,\"email\":\"s@example.com\"}")
    );
    HttpResponse {
        status_code: 200,
        headers: vec![("Content-Type".to_string(), "application/json".to_string())],
        body: format!(
            "{{\"access_token\":\"at\",\"token_type\":\"Bearer\",\"id_token\":\"{}\"}}",
            id_token
        )
        .into_bytes(),
    }
}

#[test]
fn a_registered_client_sends_the_end_user_to_the_provider() {
    let client = Client::from_dynamic_registration(&provider(true), &registration(""))
        .add_scope("profile".to_string())
        .add_scope("email".to_string());
    assert_eq!(client.client_id().as_str(), "s6BhdRkqt3");
    let address = client.authorize_url(
        &ResponseTypes::new(vec!["code".to_string()]).unwrap(),
        &CsrfToken::new("state".to_string()),
        &Nonce::new("nonce".to_string()),
    );
    assert_eq!(
        address,
        "https://op.example.com/authorize?response_type=code&client_id=s6BhdRkqt3\
         &redirect_uri=https%3A%2F%2Frp.example.com%2Fcb&scope=openid+profile+email\
         &state=state&nonce=nonce"
    );
    let moved = client.set_redirect_uri(EndpointUrl::new("https://rp.example.com/cb2".to_string()).unwrap());
    let address = moved.authorize_url(
        &ResponseTypes::new(vec!["code".to_string()]).unwrap(),
        &CsrfToken::new("s".to_string()),
        &Nonce::new("n".to_string()),
    );
    assert!(address.contains("redirect_uri=https%3A%2F%2Frp.example.com%2Fcb2&"));
}

#[test]
fn a_registered_client_presents_itself_as_it_registered() {
    for (method, in_header) in [
        ("", true),
        (", \"token_endpoint_auth_method\": \"client_secret_basic\"", true),
        (", \"token_endpoint_auth_method\": \"client_secret_post\"", false),
    ] {
        let client = Client::from_dynamic_registration(&provider(true), &registration(method));
        let transport =
            Canned { answer: RefCell::new(Some(Ok(tokens()))), seen: RefCell::new(Vec::new()) };
        let response = client
            .exchange_code::<BasicErrorResponseType, Canned>(
                &transport,
                &AuthorizationCode::new("code".to_string()),
            )
            .unwrap();
        assert_eq!(response.access_token().secret(), "at");
        assert_eq!(response.id_token().unverified_claims().email(), Some("s@example.com"));
        assert_eq!(
            response.id_token().unverified_claims().standard_claims().email(),
            Some("s@example.com")
        );
        let seen = transport.seen.borrow();
        assert_eq!(seen.len(), 1);
        assert_eq!(seen[0].url.as_str(), "https://op.example.com/token");
        let has_header = seen[0].headers.iter().any(|(name, _)| name == "Authorization");
        assert_eq!(has_header, in_header);
        let body = String::from_utf8(seen[0].post_body.clone()).unwrap();
        assert_eq!(body.contains("client_secret="), !in_header);
    }
}

#[test]
fn the_end_user_is_sent_away_with_a_fresh_state_and_nonce() {
    let client = Client::from_dynamic_registration(&provider(true), &registration(""));
    let code = ResponseTypes::new(vec!["code".to_string()]).unwrap();
    let (address, state, nonce) = client.authorize(&code).unwrap();
    let (_, again, another) = client.authorize(&code).unwrap();
    assert_eq!(state.secret().len(), 22);
    assert_eq!(nonce.secret().len(), 22);
    assert_ne!(state.secret(), nonce.secret());
    assert_ne!(state.secret(), again.secret());
    assert_ne!(nonce.secret(), another.secret());
    assert!(state
        .secret()
        .chars()
        .all(|c| c.is_ascii_alphanumeric() || c == '-' || c == '_'));
    assert!(address.ends_with(&format!("&state={}&nonce={}", state.secret(), nonce.secret())));
    assert_eq!(address, client.authorize_url(&code, &state, &nonce));
    assert_ne!(CsrfToken::new_random().unwrap(), CsrfToken::new_random().unwrap());
}

#[test]
fn the_way_of_presenting_can_be_set() {
    let client = Client::from_dynamic_registration(&provider(true), &registration(""))
        .set_auth_type(AuthType::RequestBody);
    let transport =
        Canned { answer: RefCell::new(Some(Ok(tokens()))), seen: RefCell::new(Vec::new()) };
    client
        .exchange_code::<BasicErrorResponseType, Canned>(
            &transport,
            &AuthorizationCode::new("code".to_string()),
        )
        .unwrap();
    assert!(!transport.seen.borrow()[0].headers.iter().any(|(name, _)| name == "Authorization"));
}

#[test]
fn without_a_token_endpoint_nothing_is_sent() {
    let client = Client::from_dynamic_registration(&provider(false), &registration(""));
    let transport =
        Canned { answer: RefCell::new(Some(Ok(tokens()))), seen: RefCell::new(Vec::new()) };
    assert!(matches!(
        client.exchange_code::<BasicErrorResponseType, Canned>(
            &transport,
            &AuthorizationCode::new("code".to_string())
        ),
        Err(RequestTokenError::Other(_))
    ));
    assert!(transport.seen.borrow().is_empty());
}
