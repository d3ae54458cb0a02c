use base64::Engine;
use openidconnect::http::{
    HttpRequest, HttpRequestMethod, HttpResponse, HttpTransport, TransportError,
};
use openidconnect::oauth::{
    add_query, authorization_code, authorization_response, authorize_url, exchange_code,
    random_text, token_request, token_text, tokens_from_response, AuthType, AuthorizationCode,
    AuthorizationError, BasicErrorResponseType, CsrfToken, ErrorResponseType, RequestTokenError,
};
use openidconnect::types::{ClientId, ClientSecret, EndpointUrl, Nonce, ResponseTypes};
use std::cell::RefCell;

fn url(text: &str) -> EndpointUrl {
    EndpointUrl::new(text.to_string()).unwrap()
}

fn code_flow() -> ResponseTypes {
    ResponseTypes::new(vec!["code".to_string()]).unwrap()
}

#[test]
fn the_authorization_url_carries_the_request() {
    let address = authorize_url(
        &url("https://op.example.com/authorize"),
        &ClientId::new("s6BhdRkqt3".to_string()),
        &url("https://rp.example.com/cb?x=1"),
        &code_flow(),
        &vec![],
        &CsrfToken::new("af0ifjsldkj".to_string()),
        &Nonce::new("n-0S6_WzA2Mj".to_string()),
        None,
        None,
    );
    assert_eq!(
        address,
        "https://op.example.com/authorize?response_type=code&client_id=s6BhdRkqt3\
         &redirect_uri=https%3A%2F%2Frp.example.com%2Fcb%3Fx%3D1&scope=openid\
         &state=af0ifjsldkj&nonce=n-0S6_WzA2Mj"
    );
}

#[test]
fn the_authorization_url_joins_what_comes_in_sets() {
    let address = authorize_url(
        &url("https://op.example.com/authorize?tenant=a#top"),
        &ClientId::new("client id".to_string()),
        &url("https://rp.example.com/cb"),
        &ResponseTypes::new(vec!["code".to_string(), "id_token".to_string()]).unwrap(),
        &vec!["profile".to_string(), "email".to_string()],
        &CsrfToken::new("s&t".to_string()),
        &Nonce::new("n".to_string()),
        Some("popup"),
        Some("login consent"),
    );
    assert_eq!(
        address,
        "https://op.example.com/authorize?tenant=a&response_type=code+id_token\
         &client_id=client+id&redirect_uri=https%3A%2F%2Frp.example.com%2Fcb\
         &scope=openid+profile+email&state=s%26t&nonce=n&display=popup\
         &prompt=login+consent#top"
    );
}

#[test]
fn a_query_is_added_behind_the_right_mark() {
    assert_eq!(add_query("https://a.example", "x=1"), "https://a.example?x=1");
    assert_eq!(add_query("https://a.example/?y", "x=1"), "https://a.example/?y&x=1");
    assert_eq!(add_query("https://a.example/#f?g", "x=1"), "https://a.example/?x=1#f?g");
    assert_eq!(add_query("", ""), "?");
}

#[test]
fn rp_response_type_code() {
    let state = CsrfToken::new("af0ifjsldkj".to_string());
    let code = authorization_response(
        "https://rp.example.com/cb?code=SplxlOBeZQQYbYS6WxSbIA&state=af0ifjsldkj\
         &iss=https%3A%2F%2Fop.example.com",
        &state,
    )
    .expect("no authorization_code");
    assert!(code.secret() != "");
    assert_eq!(code.secret(), "SplxlOBeZQQYbYS6WxSbIA");
}

#[test]
fn an_answer_without_a_code_is_refused() {
    let state = CsrfToken::new("s t".to_string());
    assert_eq!(
        authorization_response("https://rp.example.com/cb?state=s+t", &state),
        Err(AuthorizationError::MissingCode)
    );
    assert_eq!(
        authorization_response("https://rp.example.com/cb?state=s%20t&code=", &state),
        Err(AuthorizationError::MissingCode)
    );
    assert_eq!(
        authorization_response("https://rp.example.com/cb?code=abc&state=other", &state),
        Err(AuthorizationError::StateMismatch)
    );
    assert_eq!(
        authorization_response("https://rp.example.com/cb?code=abc", &state),
        Err(AuthorizationError::StateMismatch)
    );
    assert_eq!(
        authorization_response(
            "https://rp.example.com/cb?error=access_denied&state=s+t&code=abc",
            &state
        ),
        Err(AuthorizationError::Provider("access_denied".to_string()))
    );
    assert!(matches!(
        authorization_response("/cb?code=abc&state=s+t", &state),
        Err(AuthorizationError::Url(_))
    ));
    let pairs = vec![
        ("state".to_string(), "s t".to_string()),
        ("code".to_string(), "first".to_string()),
        ("code".to_string(), "second".to_string()),
    ];
    assert_eq!(authorization_code(&pairs, &state).unwrap().secret(), "first");
}

fn basic_header(request: &HttpRequest) -> Option<String> {
    request.headers.iter().find(|(name, _)| name == "Authorization").map(|(_, v)| v.clone())
}

#[test]
fn rp_token_endpoint_client_secret_basic() {
    let request = token_request(
        &url("https://op.example.com/token"),
        &AuthorizationCode::new("SplxlOBeZQQYbYS6WxSbIA".to_string()),
        &url("https://rp.example.com/cb"),
        &ClientId::new("s6BhdRkqt3".to_string()),
        Some(&ClientSecret::new("7Fjfp0ZBr1KtDRbnfVdmIw".to_string())),
        AuthType::BasicAuth,
    );
    assert_eq!(request.method, HttpRequestMethod::Post);
    assert_eq!(request.url.as_str(), "https://op.example.com/token");
    assert_eq!(
        basic_header(&request).unwrap(),
        "Basic czZCaGRSa3F0Mzo3RmpmcDBaQnIxS3REUmJuZlZkbUl3"
    );
    assert_eq!(
        request.headers[1],
        ("Content-Type".to_string(), "application/x-www-form-urlencoded".to_string())
    );
    assert_eq!(
        String::from_utf8(request.post_body).unwrap(),
        "grant_type=authorization_code&code=SplxlOBeZQQYbYS6WxSbIA\
         &redirect_uri=https%3A%2F%2Frp.example.com%2Fcb"
    );
}

#[test]
fn basic_credentials_are_form_encoded_before_base64() {
    let request = token_request(
        &url("https://op.example.com/token"),
        &AuthorizationCode::new("c".to_string()),
        &url("https://rp.example.com/cb"),
        &ClientId::new("my client".to_string()),
        Some(&ClientSecret::new("p:w+d".to_string())),
        AuthType::BasicAuth,
    );
    let expected = base64::engine::general_purpose::STANDARD.encode("my+client:p%3Aw%2Bd");
    assert_eq!(basic_header(&request).unwrap(), format!("Basic {}", expected));
}

#[test]
fn rp_token_endpoint_client_secret_post() {
    let request = token_request(
        &url("https://op.example.com/token"),
        &AuthorizationCode::new("SplxlOBeZQQYbYS6WxSbIA".to_string()),
        &url("https://rp.example.com/cb"),
        &ClientId::new("s6BhdRkqt3".to_string()),
        Some(&ClientSecret::new("7Fjfp0ZBr1KtDRbnfVdmIw".to_string())),
        AuthType::RequestBody,
    );
    assert!(basic_header(&request).is_none());
    assert_eq!(
        String::from_utf8(request.post_body).unwrap(),
        "grant_type=authorization_code&code=SplxlOBeZQQYbYS6WxSbIA\
         &redirect_uri=https%3A%2F%2Frp.example.com%2Fcb&client_id=s6BhdRkqt3\
         &client_secret=7Fjfp0ZBr1KtDRbnfVdmIw"
    );
}

#[test]
fn a_client_without_a_secret_names_itself_in_the_body() {
    for auth_type in [AuthType::BasicAuth, AuthType::RequestBody] {
        let request = token_request(
            &url("https://op.example.com/token"),
            &AuthorizationCode::new("c".to_string()),
            &url("https://rp.example.com/cb"),
            &ClientId::new("public".to_string()),
            None,
            auth_type,
        );
        assert!(basic_header(&request).is_none());
        assert_eq!(
            String::from_utf8(request.post_body).unwrap(),
            "grant_type=authorization_code&code=c&redirect_uri=https%3A%2F%2Frp.example.com%2Fcb\
             &client_id=public"
        );
    }
}

fn id_token(payload: &str) -> String {
    let b64 = |bytes: &[u8]| base64::engine::general_purpose::URL_SAFE_NO_PAD.encode(bytes);
    format!("{}.{}.{}", b64(b"{\"alg\":\"RS256\"}"), b64(payload.as_bytes()), b64(b"sig"))
}

fn json_response(status: u32, body: &str) -> HttpResponse {
    HttpResponse {
        status_code: status,
        headers: vec![("Content-Type".to_string(), "application/json".to_string())],
        body: body.as_bytes().to_vec(),
    }
}

fn token_body(id_token: &str) -> String {
    format!(
        "{{\"access_token\":\"SlAV32hkKG\",\"token_type\":\"Bearer\",\"expires_in\":3600,\
         \"refresh_token\":\"8xLOxBtZp8\",\"id_token\":\"{}\"}}",
        id_token
    )
}

#[test]
fn tokens_are_read_from_the_answer() {
    let token = id_token("{\"iss\":\"i\",\"sub\":\"s\",\"aud\":\"a\",\"exp\":2,\"iat\":1}");
    let tokens =
        tokens_from_response::<BasicErrorResponseType>(&json_response(200, &token_body(&token))).unwrap();
    assert_eq!(tokens.access_token().secret(), "SlAV32hkKG");
    assert_eq!(tokens.token_type(), "Bearer");
    assert_eq!(tokens.expires_in(), Some(3600));
    assert_eq!(tokens.refresh_token(), Some("8xLOxBtZp8"));
    assert_eq!(tokens.scope(), None);
    assert_eq!(tokens.id_token().unverified_claims().sub(), "s");
    assert_eq!(tokens.id_token().signature(), &b"sig".to_vec());
}

#[test]
fn rp_id_token_iat() {
    let without_iat = id_token("{\"iss\":\"i\",\"sub\":\"s\",\"aud\":\"a\",\"exp\":2}");
    match tokens_from_response::<BasicErrorResponseType>(&json_response(200, &token_body(&without_iat))) {
        Err(RequestTokenError::Parse(_)) => {}
        other => panic!("Unexpected result verifying ID token claims: {:?}", other),
    }
}

#[test]
fn rp_id_token_sub() {
    let without_sub = id_token("{\"iss\":\"i\",\"aud\":\"a\",\"exp\":2,\"iat\":1}");
    match tokens_from_response::<BasicErrorResponseType>(&json_response(200, &token_body(&without_sub))) {
        Err(RequestTokenError::Parse(_)) => {}
        other => panic!("Unexpected result verifying ID token claims: {:?}", other),
    }
}

#[test]
fn an_answer_without_a_readable_id_token_cannot_be_read() {
    let without_iat = id_token("{\"iss\":\"i\",\"sub\":\"s\",\"aud\":\"a\",\"exp\":2}");
    let without_sub = id_token("{\"iss\":\"i\",\"aud\":\"a\",\"exp\":2,\"iat\":1}");
    let no_token = "{\"access_token\":\"SlAV32hkKG\",\"token_type\":\"Bearer\"}".to_string();
    for body in [token_body(&without_iat), token_body(&without_sub), token_body("x.y"), no_token] {
        match tokens_from_response::<BasicErrorResponseType>(&json_response(200, &body)) {
            Err(RequestTokenError::Parse(_)) => {}
            other => panic!("Unexpected result verifying ID token claims: {:?}", other),
        }
    }
    assert!(matches!(
        tokens_from_response::<BasicErrorResponseType>(&json_response(200, "not json")),
        Err(RequestTokenError::Parse(_))
    ));
}

#[test]
fn a_refusal_of_the_token_endpoint_is_a_server_response() {
    match tokens_from_response::<BasicErrorResponseType>(&json_response(
        400,
        "{\"error\":\"invalid_grant\",\"error_uri\":\"https://op.example.com/errors\"}",
    )) {
        Err(RequestTokenError::ServerResponse(error)) => {
            assert_eq!(error.error, BasicErrorResponseType::InvalidGrant);
            assert_eq!(error.error_uri.unwrap(), "https://op.example.com/errors");
        }
        other => panic!("unexpected result: {:?}", other),
    }
    assert!(matches!(
        tokens_from_response::<BasicErrorResponseType>(&json_response(400, "{\"error\":\"nope\"}")),
        Err(RequestTokenError::Parse(_))
    ));
    assert!(matches!(
        tokens_from_response::<BasicErrorResponseType>(&json_response(500, "{}")),
        Err(RequestTokenError::Response(500, _))
    ));
    let mut html = json_response(200, "{}");
    html.headers = vec![("Content-Type".to_string(), "text/html".to_string())];
    assert!(matches!(
        tokens_from_response::<BasicErrorResponseType>(&html),
        Err(RequestTokenError::Response(200, _))
    ));
}

#[test]
fn token_error_codes_are_read_and_written() {
    for (code, error) in [
        ("invalid_request", BasicErrorResponseType::InvalidRequest),
        ("invalid_client", BasicErrorResponseType::InvalidClient),
        ("invalid_grant", BasicErrorResponseType::InvalidGrant),
        ("unauthorized_client", BasicErrorResponseType::UnauthorizedClient),
        ("unsupported_grant_type", BasicErrorResponseType::UnsupportedGrantType),
        ("invalid_scope", BasicErrorResponseType::InvalidScope),
    ] {
        assert_eq!(BasicErrorResponseType::from_code(code), Some(error));
        assert_eq!(error.to_code(), code);
    }
    assert_eq!(BasicErrorResponseType::from_code("invalid"), None);
}

struct Canned {
    answer: RefCell<Option<Result<HttpResponse, TransportError>>>,
    seen: RefCell<Vec<String>>,
}

impl HttpTransport for Canned {
    fn send(&self, request: &HttpRequest) -> Result<HttpResponse, TransportError> {
        self.seen.borrow_mut().push(String::from_utf8(request.post_body.clone()).unwrap());
        self.answer.borrow_mut().take().expect("one request only")
    }
}

#[test]
fn the_code_is_exchanged_with_one_request() {
    let token = id_token("{\"iss\":\"i\",\"sub\":\"s\",\"aud\":\"a\",\"exp\":2,\"iat\":1}");
    let transport = Canned {
        answer: RefCell::new(Some(Ok(json_response(200, &token_body(&token))))),
        seen: RefCell::new(Vec::new()),
    };
    let tokens = exchange_code::<BasicErrorResponseType, Canned>(
        &transport,
        &url("https://op.example.com/token"),
        &AuthorizationCode::new("the code".to_string()),
        &url("https://rp.example.com/cb"),
        &ClientId::new("c".to_string()),
        None,
        AuthType::RequestBody,
    )
    .unwrap();
    assert_eq!(tokens.access_token().secret(), "SlAV32hkKG");
    assert_eq!(transport.seen.borrow().len(), 1);
    assert!(transport.seen.borrow()[0].contains("code=the+code"));
    let failing = Canned {
        answer: RefCell::new(Some(Err(TransportError { message: "down".to_string() }))),
        seen: RefCell::new(Vec::new()),
    };
    assert!(matches!(
        exchange_code::<BasicErrorResponseType, Canned>(
            &failing,
            &url("https://op.example.com/token"),
            &AuthorizationCode::new("c".to_string()),
            &url("https://rp.example.com/cb"),
            &ClientId::new("c".to_string()),
            None,
            AuthType::BasicAuth,
        ),
        Err(RequestTokenError::Request(_))
    ));
}

#[test]
fn a_token_is_written_in_the_url_safe_alphabet_without_padding() {
    assert_eq!(token_text(&[0u8; 16]), "AAAAAAAAAAAAAAAAAAAAAA");
    assert_eq!(token_text(&[0xfb, 0xff]), "-_8");
    assert_eq!(token_text(b"any carnal pleas"), "YW55IGNhcm5hbCBwbGVhcw");
    assert_eq!(token_text(&[]), "");
}

#[test]
fn a_random_text_is_that_of_sixteen_bytes() {
    let text = random_text().unwrap();
    let bytes = base64::engine::general_purpose::URL_SAFE_NO_PAD.decode(&text).unwrap();
    assert_eq!(bytes.len(), 16);
    assert_eq!(token_text(&bytes), text);
}
