use vstd::prelude::*;

verus! {

/// The names of the supported authentication schemes.
pub struct AuthenticationScheme;

impl AuthenticationScheme {
    pub const BASIC: &'static str = "Basic";
    pub const BEARER: &'static str = "Bearer";
    pub const CERTIFICATE: &'static str = "Certificate";
    pub const DIGEST: &'static str = "Digest";
    pub const OAUTH2: &'static str = "OAuth2";
    pub const OIDC: &'static str = "OpenIDConnect";
}

/// The ways an OAuth2 client can authenticate.
pub struct OAuth2ClientAuthenticationMethod;

impl OAuth2ClientAuthenticationMethod {
    pub const BASIC: &'static str = "client_secret_basic";
    pub const POST: &'static str = "client_secret_post";
    pub const JWT: &'static str = "client_secret_jwt";
    pub const PRIVATE_KEY: &'static str = "private_key_jwt";
    pub const NONE: &'static str = "none";
}

/// The encodings of an OAuth2 token request.
pub struct OAuth2RequestEncoding;

impl OAuth2RequestEncoding {
    pub const FORM_URL: &'static str = "application/x-www-form-urlencoded";
    pub const JSON: &'static str = "application/json";
}

/// The request encoding used when none is given.
pub fn default_oauth2_request_encoding() -> (r: String)
    ensures
        r@ == OAuth2RequestEncoding::FORM_URL@,
{
    OAuth2RequestEncoding::FORM_URL.to_string()
}

/// The token endpoint path used when none is given.
pub fn default_token_endpoint() -> (r: String)
    ensures
        r@ == "/oauth2/token"@,
{
    "/oauth2/token".to_string()
}

/// The revocation endpoint path used when none is given.
pub fn default_revocation_endpoint() -> (r: String)
    ensures
        r@ == "/oauth2/revoke"@,
{
    "/oauth2/revoke".to_string()
}

/// The introspection endpoint path used when none is given.
pub fn default_introspection_endpoint() -> (r: String)
    ensures
        r@ == "/oauth2/introspect"@,
{
    "/oauth2/introspect".to_string()
}

/// An authentication policy: a reference to a reusable policy by name (`use_`), or one inline
/// scheme. Exactly one of the slots is meant to be filled.
#[derive(Debug, PartialEq)]
pub struct AuthenticationPolicyDefinition {
    pub use_: Option<String>,
    pub basic: Option<BasicAuthenticationSchemeDefinition>,
    pub bearer: Option<BearerAuthenticationSchemeDefinition>,
    pub certificate: Option<CertificateAuthenticationSchemeDefinition>,
    pub digest: Option<DigestAuthenticationSchemeDefinition>,
    pub oauth2: Option<OAuth2AuthenticationSchemeDefinition>,
    pub oidc: Option<OpenIDConnectSchemeDefinition>,
}

impl AuthenticationPolicyDefinition {
    /// A policy with every slot empty.
    pub open spec fn empty() -> Self {
        AuthenticationPolicyDefinition {
            use_: None,
            basic: None,
            bearer: None,
            certificate: None,
            digest: None,
            oauth2: None,
            oidc: None,
        }
    }

    /// A policy with every slot empty.
    pub fn new() -> (r: Self)
        ensures
            r == Self::empty(),
    {
        AuthenticationPolicyDefinition {
            use_: None,
            basic: None,
            bearer: None,
            certificate: None,
            digest: None,
            oauth2: None,
            oidc: None,
        }
    }
}

/// Implemented by every authentication scheme.
pub trait AuthenticationSchemeDefinition {
    /// The scheme's name.
    fn scheme(&self) -> &str;
}

/// 'Basic' authentication, with inline credentials or those of a named secret.
#[derive(Debug, PartialEq)]
pub struct BasicAuthenticationSchemeDefinition {
    pub use_: Option<String>,
    pub username: Option<String>,
    pub password: Option<String>,
}

impl AuthenticationSchemeDefinition for BasicAuthenticationSchemeDefinition {
    fn scheme(&self) -> &str {
        AuthenticationScheme::BASIC
    }
}

/// 'Bearer' authentication.
#[derive(Debug, PartialEq)]
pub struct BearerAuthenticationSchemeDefinition {
    pub use_: Option<String>,
    pub token: Option<String>,
}

impl AuthenticationSchemeDefinition for BearerAuthenticationSchemeDefinition {
    fn scheme(&self) -> &str {
        AuthenticationScheme::BEARER
    }
}

/// 'Certificate' authentication.
#[derive(Debug, PartialEq)]
pub struct CertificateAuthenticationSchemeDefinition {
    pub use_: Option<String>,
}

impl AuthenticationSchemeDefinition for CertificateAuthenticationSchemeDefinition {
    fn scheme(&self) -> &str {
        AuthenticationScheme::CERTIFICATE
    }
}

/// 'Digest' authentication.
#[derive(Debug, PartialEq)]
pub struct DigestAuthenticationSchemeDefinition {
    pub use_: Option<String>,
    pub username: Option<String>,
    pub password: Option<String>,
}

impl AuthenticationSchemeDefinition for DigestAuthenticationSchemeDefinition {
    fn scheme(&self) -> &str {
        AuthenticationScheme::DIGEST
    }
}

/// The client of an OAuth2 exchange.
#[derive(Debug, PartialEq)]
pub struct OAuth2AuthenticationClientDefinition {
    pub id: Option<String>,
    pub secret: Option<String>,
    pub assertion: Option<String>,
    pub authentication: Option<String>,
}

/// How an OAuth2 token request is encoded.
#[derive(Debug, PartialEq)]
pub struct OAuth2AuthenticationRequestDefinition {
    pub encoding: String,
}

/// A token handed to an OAuth2 exchange.
#[derive(Debug, PartialEq)]
pub struct OAuth2TokenDefinition {
    pub token: String,
    pub type_: String,
}

/// The paths of an OAuth2 authority's endpoints.
#[derive(Debug, PartialEq)]
pub struct OAuth2AuthenticationEndpointsDefinition {
    pub token: String,
    pub revocation: String,
    pub introspection: String,
}

/// 'OAuth2' authentication.
#[derive(Debug, PartialEq)]
pub struct OAuth2AuthenticationSchemeDefinition {
    pub use_: Option<String>,
    pub endpoints: Option<OAuth2AuthenticationEndpointsDefinition>,
    pub authority: Option<String>,
    pub grant: Option<String>,
    pub client: Option<OAuth2AuthenticationClientDefinition>,
    pub request: Option<OAuth2AuthenticationRequestDefinition>,
    pub issuers: Option<Vec<String>>,
    pub scopes: Option<Vec<String>>,
    pub audiences: Option<Vec<String>>,
    pub username: Option<String>,
    pub password: Option<String>,
    pub subject: Option<OAuth2TokenDefinition>,
    pub actor: Option<OAuth2TokenDefinition>,
}

impl AuthenticationSchemeDefinition for OAuth2AuthenticationSchemeDefinition {
    fn scheme(&self) -> &str {
        AuthenticationScheme::OAUTH2
    }
}

/// 'OpenIDConnect' authentication: the shape of OAuth2 without endpoint overrides.
#[derive(Debug, PartialEq)]
pub struct OpenIDConnectSchemeDefinition {
    pub use_: Option<String>,
    pub authority: Option<String>,
    pub grant: Option<String>,
    pub client: Option<OAuth2AuthenticationClientDefinition>,
    pub request: Option<OAuth2AuthenticationRequestDefinition>,
    pub issuers: Option<Vec<String>>,
    pub scopes: Option<Vec<String>>,
    pub audiences: Option<Vec<String>>,
    pub username: Option<String>,
    pub password: Option<String>,
    pub subject: Option<OAuth2TokenDefinition>,
    pub actor: Option<OAuth2TokenDefinition>,
}

impl AuthenticationSchemeDefinition for OpenIDConnectSchemeDefinition {
    fn scheme(&self) -> &str {
        AuthenticationScheme::OIDC
    }
}

} // verus!
