use openidconnect::language::{language_tag_key, split_language_tag_key, LocalizedClaim};
use openidconnect::text::{eq_ignore_ascii_case, find_char, join_spaced, split_text};
use openidconnect::types::{
    EndpointUrl, IssuerUrl, IssuerUrlError, LanguageTag, ResponseTypes, Timestamp, LAST_INSTANT,
};

#[test]
fn issuer_url_accepts_https_without_query_and_fragment() {
    let issuer = IssuerUrl::new("https://op.example.com/tenant".to_string()).unwrap();
    assert_eq!(issuer.as_str(), "https://op.example.com/tenant");
}

#[test]
fn issuer_url_says_what_is_wrong() {
    assert!(matches!(
        IssuerUrl::new("not a url".to_string()),
        Err(IssuerUrlError::Parse(_))
    ));
    assert_eq!(
        IssuerUrl::new("http://op.example.com".to_string()),
        Err(IssuerUrlError::NotHttps)
    );
    assert_eq!(
        IssuerUrl::new("https://op.example.com/?a=b".to_string()),
        Err(IssuerUrlError::HasQuery)
    );
    assert_eq!(
        IssuerUrl::new("https://op.example.com/#top".to_string()),
        Err(IssuerUrlError::HasFragment)
    );
}

#[test]
fn issuer_urls_are_compared_character_by_character() {
    let a = IssuerUrl::new("https://op.example.com".to_string()).unwrap();
    let b = IssuerUrl::new("https://op.example.com/".to_string()).unwrap();
    let c = IssuerUrl::new("https://op.example.com".to_string()).unwrap();
    assert!(!a.same_as(&b));
    assert!(a.same_as(&c));
}

#[test]
fn discovery_url_is_the_issuer_and_the_well_known_suffix() {
    let issuer = IssuerUrl::new("https://op.example.com/tenant".to_string()).unwrap();
    let url = issuer.discovery_url().unwrap();
    assert_eq!(url.as_str(), "https://op.example.com/tenant/.well-known/openid-configuration");
}

#[test]
fn endpoint_url_keeps_the_text_it_was_given() {
    let url = EndpointUrl::new("https://Example.COM".to_string()).unwrap();
    assert_eq!(url.as_str(), "https://Example.COM");
    assert!(EndpointUrl::new("/relative".to_string()).is_err());
    assert!(EndpointUrl::new("".to_string()).is_err());
}

#[test]
fn response_types_are_split_at_spaces() {
    let set = ResponseTypes::parse("code id_token").unwrap();
    assert_eq!(set.parts(), &vec!["code".to_string(), "id_token".to_string()]);
    assert_eq!(set.to_text(), "code id_token");
    let one = ResponseTypes::parse("code").unwrap();
    assert_eq!(one.to_text(), "code");
}

#[test]
fn response_types_refuse_empty_members() {
    assert!(ResponseTypes::parse("").is_none());
    assert!(ResponseTypes::parse("code  token").is_none());
    assert!(ResponseTypes::parse(" code").is_none());
    assert!(ResponseTypes::new(vec![]).is_none());
    assert!(ResponseTypes::new(vec!["a b".to_string()]).is_none());
    assert!(ResponseTypes::new(vec!["code".to_string(), "token".to_string()]).is_some());
}

#[test]
fn split_and_join_undo_each_other() {
    assert_eq!(split_text("a.b.c", '.'), vec!["a", "b", "c"]);
    assert_eq!(split_text("", '.'), vec![""]);
    assert_eq!(split_text(".", '.'), vec!["", ""]);
    assert_eq!(split_text("a..", '.'), vec!["a", "", ""]);
    let parts = vec!["x".to_string(), "yz".to_string(), "".to_string()];
    assert_eq!(join_spaced(&parts), "x yz ");
    assert_eq!(split_text(&join_spaced(&parts), ' '), parts);
    assert_eq!(join_spaced(&Vec::new()), "");
}

#[test]
fn characters_are_found_and_compared() {
    assert_eq!(find_char("héllo#x", '#'), 5);
    assert_eq!(find_char("hello", '#'), 5);
    assert!(eq_ignore_ascii_case("Content-Type", "content-type"));
    assert!(!eq_ignore_ascii_case("Content-Type", "content_type"));
    assert!(!eq_ignore_ascii_case("É", "é"));
}

#[test]
fn language_tag_keys_are_split_at_the_first_hash() {
    let (name, tag) = split_language_tag_key("client_name#fr-CA");
    assert_eq!(name, "client_name");
    assert_eq!(tag.unwrap().as_str(), "fr-CA");
    let (name, tag) = split_language_tag_key("client_name");
    assert_eq!(name, "client_name");
    assert!(tag.is_none());
    let (name, tag) = split_language_tag_key("client_name#");
    assert_eq!(name, "client_name");
    assert!(tag.is_none());
    let (name, tag) = split_language_tag_key("a#b#c");
    assert_eq!(name, "a");
    assert_eq!(tag.unwrap().as_str(), "b#c");
}

#[test]
fn language_tag_keys_are_written_with_a_hash() {
    assert_eq!(language_tag_key("client_name", None), "client_name");
    assert_eq!(language_tag_key("client_name", Some("fr")), "client_name#fr");
}

#[test]
fn a_localized_claim_holds_one_value_per_language() {
    let mut claim = LocalizedClaim::new(None, "Acme".to_string());
    assert!(claim.insert(LanguageTag::new("fr".to_string()), "Acmé".to_string()));
    assert!(!claim.insert(LanguageTag::new("fr".to_string()), "Autre".to_string()));
    assert!(!claim.insert(None, "Other".to_string()));
    assert_eq!(claim.len(), 2);
    assert_eq!(claim.get(None), Some("Acme"));
    assert_eq!(claim.get(Some("fr")), Some("Acmé"));
    assert_eq!(claim.get(Some("de")), None);
    assert_eq!(claim.tag_at(1), Some("fr"));
    assert_eq!(claim.value_at(0), "Acme");
    assert!(LanguageTag::new(String::new()).is_none());
}

#[test]
fn instants_end_with_the_year_262142() {
    assert_eq!(LAST_INSTANT, 8210266876799);
    assert_eq!(Timestamp::from_unix_seconds(0).unwrap().unix_seconds(), 0);
    assert_eq!(
        Timestamp::from_unix_seconds(1431648000).unwrap().unix_seconds(),
        1431648000
    );
    assert!(Timestamp::from_unix_seconds(LAST_INSTANT).is_ok());
    assert!(Timestamp::from_unix_seconds(LAST_INSTANT + 1).is_err());
    assert!(Timestamp::from_unix_seconds(u64::MAX).is_err());
    assert!(Timestamp::from_unix_seconds(1 << 63).is_err());
}
