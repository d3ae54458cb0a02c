use openidconnect::profile::{
    CoreApplicationType, CoreAuthDisplay, CoreClaimType, CoreClientAuthMethod, CoreGrantType,
    CoreJsonWebKeyType, CoreJsonWebKeyUse, CoreResponseType, CoreSubjectIdentifierType,
};

#[test]
fn response_types_are_known_by_their_names() {
    assert_eq!(CoreResponseType::from_name("code"), Some(CoreResponseType::Code));
    assert_eq!(CoreResponseType::from_name("id_token"), Some(CoreResponseType::IdToken));
    assert_eq!(CoreResponseType::from_name("token"), Some(CoreResponseType::Token));
    assert_eq!(CoreResponseType::from_name("code id_token"), None);
    assert_eq!(CoreResponseType::IdToken.as_str(), "id_token");
}

#[test]
fn client_authentication_methods_are_known_by_their_names() {
    for (name, method) in [
        ("client_secret_basic", CoreClientAuthMethod::ClientSecretBasic),
        ("client_secret_jwt", CoreClientAuthMethod::ClientSecretJwt),
        ("client_secret_post", CoreClientAuthMethod::ClientSecretPost),
        ("private_key_jwt", CoreClientAuthMethod::PrivateKeyJwt),
        ("none", CoreClientAuthMethod::NoAuthentication),
    ] {
        assert_eq!(CoreClientAuthMethod::from_name(name), Some(method));
        assert_eq!(method.as_str(), name);
    }
    assert_eq!(CoreClientAuthMethod::from_name("basic"), None);
}

#[test]
fn the_other_values_are_known_by_their_names() {
    assert_eq!(
        CoreSubjectIdentifierType::from_name("pairwise"),
        Some(CoreSubjectIdentifierType::Pairwise)
    );
    assert_eq!(CoreSubjectIdentifierType::Public.as_str(), "public");
    assert_eq!(CoreGrantType::from_name("authorization_code"), Some(CoreGrantType::AuthorizationCode));
    assert_eq!(CoreGrantType::Implicit.as_str(), "implicit");
    assert_eq!(CoreGrantType::RefreshToken.as_str(), "refresh_token");
    assert_eq!(CoreApplicationType::from_name("web"), Some(CoreApplicationType::Web));
    assert_eq!(CoreApplicationType::Native.as_str(), "native");
    assert_eq!(CoreAuthDisplay::from_name("popup"), Some(CoreAuthDisplay::Popup));
    assert_eq!(CoreAuthDisplay::Page.as_str(), "page");
    assert_eq!(CoreAuthDisplay::Touch.as_str(), "touch");
    assert_eq!(CoreAuthDisplay::Wap.as_str(), "wap");
    assert_eq!(CoreClaimType::from_name("normal"), Some(CoreClaimType::Normal));
    assert_eq!(CoreClaimType::Aggregated.as_str(), "aggregated");
    assert_eq!(CoreClaimType::Distributed.as_str(), "distributed");
    assert_eq!(CoreJsonWebKeyType::from_name("EC"), Some(CoreJsonWebKeyType::EllipticCurve));
    assert_eq!(CoreJsonWebKeyType::Rsa.as_str(), "RSA");
    assert_eq!(CoreJsonWebKeyType::Symmetric.as_str(), "oct");
    assert_eq!(CoreJsonWebKeyType::from_name("rsa"), None);
    assert_eq!(CoreJsonWebKeyUse::from_name("sig"), Some(CoreJsonWebKeyUse::Signature));
    assert_eq!(CoreJsonWebKeyUse::Encryption.as_str(), "enc");
}
