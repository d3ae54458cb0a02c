//! A client as it stands after discovery and registration: what it needs to
//! send the end user to the provider and to exchange the code that comes
//! back.

use crate::discovery::{ProviderMetadata, ProviderMetadataView};
use crate::http::HttpTransport;
use crate::oauth::{
    answers_exchange, authorization_pairs, authorize_url, exchange_code, form_encoded,
    is_token_text, no_tokens, random_nonce, with_query, AuthType, AuthorizationCode, CsrfToken,
    ErrorResponseType, RequestTokenError, TokenFault, TokenResponse,
};
use crate::profile::CoreClientAuthMethod;
use crate::registration::{
    ClientRegistrationResponse, Registration10ClientRegistrationResponse, RegistrationView,
};
use crate::text::str_eq;
use crate::types::{copy_texts, ClientId, ClientSecret, EndpointUrl, Nonce, ResponseTypes};
use vstd::prelude::*;
use vstd::string::StringExecFns;

verus! {

/// A client of a provider.
#[derive(Debug)]
pub struct Client {
    client_id: ClientId,
    client_secret: Option<ClientSecret>,
    authorization_endpoint: EndpointUrl,
    token_endpoint: Option<EndpointUrl>,
    redirect_uri: EndpointUrl,
    scopes: Vec<String>,
    auth_type: AuthType,
}

/// What a `Client` holds.
pub struct ClientView {
    pub client_id: Seq<char>,
    pub client_secret: Option<Seq<char>>,
    pub authorization_endpoint: Seq<char>,
    pub token_endpoint: Option<Seq<char>>,
    pub redirect_uri: Seq<char>,
    pub scopes: Seq<Seq<char>>,
    pub auth_type: AuthType,
}

impl View for Client {
    type V = ClientView;

    closed spec fn view(&self) -> ClientView {
        ClientView {
            client_id: self.client_id@,
            client_secret: self.client_secret.deep_view(),
            authorization_endpoint: self.authorization_endpoint@,
            token_endpoint: self.token_endpoint.deep_view(),
            redirect_uri: self.redirect_uri@,
            scopes: self.scopes.deep_view(),
            auth_type: self.auth_type,
        }
    }
}

/// How a client presents itself at the token endpoint, going by the method
/// that it registered: in the body of the request for `client_secret_post`,
/// and in a header for any other method and where it registered none.
pub open spec fn auth_type_for(method: Option<Seq<char>>) -> AuthType {
    if method == Some(CoreClientAuthMethod::ClientSecretPost.name()) {
        AuthType::RequestBody
    } else {
        AuthType::BasicAuth
    }
}

/// The client that a registration makes at a provider: it asks for no
/// scopes beyond `openid`, and the end user is sent back to the first
/// redirect URI that was registered.
pub open spec fn registered_client(
    provider: ProviderMetadataView,
    registration: RegistrationView,
) -> ClientView {
    ClientView {
        client_id: registration.client_id,
        client_secret: registration.client_secret,
        authorization_endpoint: provider.authorization_endpoint,
        token_endpoint: provider.token_endpoint,
        redirect_uri: registration.client_metadata.redirect_uris[0],
        scopes: Seq::empty(),
        auth_type: auth_type_for(registration.client_metadata.token_endpoint_auth_method),
    }
}

/// The secret in an optional secret.
fn copy_secret(value: Option<&ClientSecret>) -> (copy: Option<ClientSecret>)
    ensures
        copy.deep_view() == value.deep_view(),
{
    match value {
        Some(secret) => Some(ClientSecret::new(String::from_str(secret.secret()))),
        None => None,
    }
}

impl Client {
    /// The client that a registration made at a provider.
    pub fn from_dynamic_registration(
        provider: &ProviderMetadata,
        registration: &Registration10ClientRegistrationResponse,
    ) -> (client: Client)
        ensures
            client@ == registered_client(provider@, registration@),
    {
        let metadata = registration.client_metadata();
        let redirect_uris = metadata.redirect_uris();
        let in_body = match metadata.token_endpoint_auth_method() {
            Some(method) => str_eq(
                method.as_str(),
                CoreClientAuthMethod::ClientSecretPost.as_str(),
            ),
            None => false,
        };
        let scopes: Vec<String> = Vec::new();
        assert(scopes.deep_view() =~= Seq::<Seq<char>>::empty());
        Client {
            client_id: ClientId::new(String::from_str(registration.client_id().as_str())),
            client_secret: copy_secret(registration.client_secret()),
            authorization_endpoint: provider.authorization_endpoint().clone(),
            token_endpoint: match provider.token_endpoint() {
                Some(url) => Some(url.clone()),
                None => None,
            },
            redirect_uri: redirect_uris[0].clone(),
            scopes,
            auth_type: if in_body {
                AuthType::RequestBody
            } else {
                AuthType::BasicAuth
            },
        }
    }

    /// The same client with another address for the end user to come back
    /// to.
    pub fn set_redirect_uri(self, redirect_uri: EndpointUrl) -> (client: Client)
        ensures
            client@ == (ClientView { redirect_uri: redirect_uri@, ..self@ }),
    {
        let mut client = self;
        client.redirect_uri = redirect_uri;
        client
    }

    /// The same client with another way of presenting itself at the token
    /// endpoint.
    pub fn set_auth_type(self, auth_type: AuthType) -> (client: Client)
        ensures
            client@ == (ClientView { auth_type, ..self@ }),
    {
        let mut client = self;
        client.auth_type = auth_type;
        client
    }

    /// The same client, asking for one more scope.
    pub fn add_scope(self, scope: String) -> (client: Client)
        ensures
            client@ == (ClientView { scopes: self@.scopes.push(scope@), ..self@ }),
    {
        let mut client = self;
        let ghost before = client.scopes.deep_view();
        let mut scopes = copy_texts(&client.scopes);
        scopes.push(scope);
        assert(scopes.deep_view() =~= before.push(scope@));
        client.scopes = scopes;
        client
    }

    /// The identifier of the client.
    pub fn client_id(&self) -> (value: &ClientId)
        ensures
            value@ == self@.client_id,
    {
        &self.client_id
    }

    /// The address that the end user is sent to for authentication, asking
    /// for these response types.
    pub fn authorize_url(
        &self,
        response_types: &ResponseTypes,
        state: &CsrfToken,
        nonce: &Nonce,
    ) -> (url: String)
        ensures
            url@ == with_query(
                self@.authorization_endpoint,
                form_encoded(
                    authorization_pairs(
                        self@.client_id,
                        self@.redirect_uri,
                        response_types@,
                        self@.scopes,
                        state@,
                        nonce@,
                        None,
                        None,
                    ),
                ),
            ),
    {
        authorize_url(
            &self.authorization_endpoint,
            &self.client_id,
            &self.redirect_uri,
            response_types,
            &self.scopes,
            state,
            nonce,
            None,
            None,
        )
    }

    /// The address that the end user is sent to for authentication, with
    /// the state and the nonce that were made for it: both are to be kept,
    /// the state for the answer of the provider and the nonce for the ID
    /// token. There is none where the system has no randomness to give.
    pub fn authorize(&self, response_types: &ResponseTypes) -> (r: Option<
        (String, CsrfToken, Nonce),
    >)
        ensures
            r matches Some(sent) ==> sent.0@ == with_query(
                self@.authorization_endpoint,
                form_encoded(
                    authorization_pairs(
                        self@.client_id,
                        self@.redirect_uri,
                        response_types@,
                        self@.scopes,
                        sent.1@,
                        sent.2@,
                        None,
                        None,
                    ),
                ),
            ),
            r matches Some(sent) ==> is_token_text(sent.1@) && is_token_text(sent.2@),
    {
        let state = match CsrfToken::new_random() {
            Some(state) => state,
            None => {
                return None;
            },
        };
        let nonce = match random_nonce() {
            Some(nonce) => nonce,
            None => {
                return None;
            },
        };
        let url = self.authorize_url(response_types, &state, &nonce);
        Some((url, state, nonce))
    }

    /// Exchanges an authorization code for tokens: one request through
    /// `transport`, and none where the provider names no token endpoint.
    pub fn exchange_code<ET: ErrorResponseType, T: HttpTransport>(
        &self,
        transport: &T,
        code: &AuthorizationCode,
    ) -> (r: Result<TokenResponse, RequestTokenError<ET>>)
        ensures
            self@.token_endpoint is None ==> no_tokens(r, TokenFault::Other),
            self@.token_endpoint is Some ==> no_tokens(r, TokenFault::Request) || answers_exchange(
                r,
            ),
    {
        match &self.token_endpoint {
            None => Err(
                RequestTokenError::Other(String::from_str("the provider has no token endpoint")),
            ),
            Some(endpoint) => exchange_code::<ET, T>(
                transport,
                endpoint,
                code,
                &self.redirect_uri,
                &self.client_id,
                self.client_secret.as_ref(),
                self.auth_type,
            ),
        }
    }
}

} // verus!
