use vstd::prelude::*;
use crate::auth::{
    AuthenticationPolicyDefinition, BasicAuthenticationSchemeDefinition,
    BearerAuthenticationSchemeDefinition, CertificateAuthenticationSchemeDefinition,
    DigestAuthenticationSchemeDefinition, OAuth2AuthenticationClientDefinition,
    OAuth2AuthenticationEndpointsDefinition, OAuth2AuthenticationRequestDefinition,
    OAuth2AuthenticationSchemeDefinition, OAuth2RequestEncoding, OAuth2TokenDefinition, OpenIDConnectSchemeDefinition,
    default_oauth2_request_encoding,
};

verus! {

/// `o` holds a string equal to `s`.
pub open spec fn holds_str(o: Option<String>, s: &str) -> bool {
    o is Some && o->0@ == s@
}

/// Builds an authentication policy: a reference to a reusable policy, or exactly one inline
/// scheme. Selecting a scheme replaces the one selected before.
pub struct AuthenticationPolicyDefinitionBuilder {
    pub reference: Option<String>,
    pub builder: Option<AuthenticationSchemeBuilder>,
}

/// The builder of the selected authentication scheme.
pub enum AuthenticationSchemeBuilder {
    Basic(BasicAuthenticationSchemeDefinitionBuilder),
    Bearer(BearerAuthenticationSchemeDefinitionBuilder),
    Certificate(CertificateAuthenticationSchemeDefinitionBuilder),
    Digest(DigestAuthenticationSchemeDefinitionBuilder),
    OAUTH2(OAuth2AuthenticationSchemeDefinitionBuilder),
    OIDC(OpenIDConnectSchemeDefinitionBuilder),
}

/// The policy that a scheme builder yields: the scheme in its slot, every other slot empty.
pub open spec fn scheme_policy(b: AuthenticationSchemeBuilder) -> AuthenticationPolicyDefinition {
    match b {
        AuthenticationSchemeBuilder::Basic(s) => AuthenticationPolicyDefinition {
            basic: Some(s.scheme),
            ..AuthenticationPolicyDefinition::empty()
        },
        AuthenticationSchemeBuilder::Bearer(s) => AuthenticationPolicyDefinition {
            bearer: Some(s.scheme),
            ..AuthenticationPolicyDefinition::empty()
        },
        AuthenticationSchemeBuilder::Certificate(s) => AuthenticationPolicyDefinition {
            certificate: Some(s.scheme),
            ..AuthenticationPolicyDefinition::empty()
        },
        AuthenticationSchemeBuilder::Digest(s) => AuthenticationPolicyDefinition {
            digest: Some(s.scheme),
            ..AuthenticationPolicyDefinition::empty()
        },
        AuthenticationSchemeBuilder::OAUTH2(s) => AuthenticationPolicyDefinition {
            oauth2: Some(s.scheme),
            ..AuthenticationPolicyDefinition::empty()
        },
        AuthenticationSchemeBuilder::OIDC(s) => AuthenticationPolicyDefinition {
            oidc: Some(s.scheme),
            ..AuthenticationPolicyDefinition::empty()
        },
    }
}

impl AuthenticationPolicyDefinitionBuilder {
    /// Nothing was configured yet.
    pub open spec fn is_fresh(&self) -> bool {
        self.reference is None && self.builder is None
    }

    /// What `build` yields.
    pub open spec fn value(&self) -> AuthenticationPolicyDefinition {
        self.result()
    }

    /// Whether a reference or a scheme was given.
    pub open spec fn is_configured(&self) -> bool {
        self.reference is Some || self.builder is Some
    }

    /// The policy that `build` yields: the reference if one was given, else the selected
    /// scheme.
    pub open spec fn result(&self) -> AuthenticationPolicyDefinition {
        if self.reference is Some {
            AuthenticationPolicyDefinition { use_: self.reference, ..AuthenticationPolicyDefinition::empty() }
        } else {
            scheme_policy(self.builder->0)
        }
    }

    pub fn new() -> (r: Self)
        ensures
            r.reference is None,
            r.builder is None,
    {
        AuthenticationPolicyDefinitionBuilder { reference: None, builder: None }
    }

    /// Makes the policy a reference to the reusable policy of the given name.
    pub fn use_(&mut self, reference: &str)
        ensures
            holds_str(final(self).reference, reference),
            final(self).builder == old(self).builder,
    {
        self.reference = Some(reference.to_string());
    }

    /// Selects 'Basic' authentication.
    pub fn basic(&mut self) -> (r: &mut BasicAuthenticationSchemeDefinitionBuilder)
        ensures
            *r == BasicAuthenticationSchemeDefinitionBuilder::fresh(),
            final(self).builder == Some(AuthenticationSchemeBuilder::Basic(*final(r))),
            final(self).reference == old(self).reference,
    {
        self.builder = Some(AuthenticationSchemeBuilder::Basic(BasicAuthenticationSchemeDefinitionBuilder::new()));
        match &mut self.builder {
            Some(AuthenticationSchemeBuilder::Basic(b)) => b,
            _ => vstd::pervasive::unreached(),
        }
    }

    /// Selects 'Bearer' authentication.
    pub fn bearer(&mut self) -> (r: &mut BearerAuthenticationSchemeDefinitionBuilder)
        ensures
            *r == BearerAuthenticationSchemeDefinitionBuilder::fresh(),
            final(self).builder == Some(AuthenticationSchemeBuilder::Bearer(*final(r))),
            final(self).reference == old(self).reference,
    {
        self.builder = Some(AuthenticationSchemeBuilder::Bearer(BearerAuthenticationSchemeDefinitionBuilder::new()));
        match &mut self.builder {
            Some(AuthenticationSchemeBuilder::Bearer(b)) => b,
            _ => vstd::pervasive::unreached(),
        }
    }

    /// Selects 'Certificate' authentication.
    pub fn certificate(&mut self) -> (r: &mut CertificateAuthenticationSchemeDefinitionBuilder)
        ensures
            *r == CertificateAuthenticationSchemeDefinitionBuilder::fresh(),
            final(self).builder == Some(AuthenticationSchemeBuilder::Certificate(*final(r))),
            final(self).reference == old(self).reference,
    {
        self.builder = Some(
            AuthenticationSchemeBuilder::Certificate(CertificateAuthenticationSchemeDefinitionBuilder::new()),
        );
        match &mut self.builder {
            Some(AuthenticationSchemeBuilder::Certificate(b)) => b,
            _ => vstd::pervasive::unreached(),
        }
    }

    /// Selects 'Digest' authentication.
    pub fn digest(&mut self) -> (r: &mut DigestAuthenticationSchemeDefinitionBuilder)
        ensures
            *r == DigestAuthenticationSchemeDefinitionBuilder::fresh(),
            final(self).builder == Some(AuthenticationSchemeBuilder::Digest(*final(r))),
            final(self).reference == old(self).reference,
    {
        self.builder = Some(AuthenticationSchemeBuilder::Digest(DigestAuthenticationSchemeDefinitionBuilder::new()));
        match &mut self.builder {
            Some(AuthenticationSchemeBuilder::Digest(b)) => b,
            _ => vstd::pervasive::unreached(),
        }
    }

    /// Selects 'OAuth2' authentication.
    pub fn oauth2(&mut self) -> (r: &mut OAuth2AuthenticationSchemeDefinitionBuilder)
        ensures
            *r == OAuth2AuthenticationSchemeDefinitionBuilder::fresh(),
            final(self).builder == Some(AuthenticationSchemeBuilder::OAUTH2(*final(r))),
            final(self).reference == old(self).reference,
    {
        self.builder = Some(AuthenticationSchemeBuilder::OAUTH2(OAuth2AuthenticationSchemeDefinitionBuilder::new()));
        match &mut self.builder {
            Some(AuthenticationSchemeBuilder::OAUTH2(b)) => b,
            _ => vstd::pervasive::unreached(),
        }
    }

    /// Selects 'OpenIDConnect' authentication.
    pub fn oidc(&mut self) -> (r: &mut OpenIDConnectSchemeDefinitionBuilder)
        ensures
            *r == OpenIDConnectSchemeDefinitionBuilder::fresh(),
            final(self).builder == Some(AuthenticationSchemeBuilder::OIDC(*final(r))),
            final(self).reference == old(self).reference,
    {
        self.builder = Some(AuthenticationSchemeBuilder::OIDC(OpenIDConnectSchemeDefinitionBuilder::new()));
        match &mut self.builder {
            Some(AuthenticationSchemeBuilder::OIDC(b)) => b,
            _ => vstd::pervasive::unreached(),
        }
    }

    /// The configured policy. A reference or a scheme must have been given.
    pub fn build(self) -> (r: AuthenticationPolicyDefinition)
        requires
            self.is_configured(),
        ensures
            r == self.result(),
    {
        if self.reference.is_some() {
            let mut authentication = AuthenticationPolicyDefinition::new();
            authentication.use_ = self.reference;
            authentication
        } else {
            match self.builder {
                Some(builder) => match builder {
                    AuthenticationSchemeBuilder::Basic(b) => b.build(),
                    AuthenticationSchemeBuilder::Bearer(b) => b.build(),
                    AuthenticationSchemeBuilder::Certificate(b) => b.build(),
                    AuthenticationSchemeBuilder::Digest(b) => b.build(),
                    AuthenticationSchemeBuilder::OAUTH2(b) => b.build(),
                    AuthenticationSchemeBuilder::OIDC(b) => b.build(),
                },
                None => vstd::pervasive::unreached(),
            }
        }
    }

    /// The configured policy, or `None` when neither a reference nor a scheme was given.
    pub fn try_build(self) -> (r: Option<AuthenticationPolicyDefinition>)
        ensures
            self.is_configured() ==> r == Some(self.result()),
            !self.is_configured() ==> r is None,
    {
        if self.reference.is_some() || self.builder.is_some() {
            Some(self.build())
        } else {
            None
        }
    }
}

/// Builds a 'Basic' scheme.
pub struct BasicAuthenticationSchemeDefinitionBuilder {
    pub scheme: BasicAuthenticationSchemeDefinition,
}

impl BasicAuthenticationSchemeDefinitionBuilder {
    pub open spec fn fresh() -> Self {
        BasicAuthenticationSchemeDefinitionBuilder {
            scheme: BasicAuthenticationSchemeDefinition { use_: None, username: None, password: None },
        }
    }

    pub fn new() -> (r: Self)
        ensures
            r == Self::fresh(),
    {
        BasicAuthenticationSchemeDefinitionBuilder {
            scheme: BasicAuthenticationSchemeDefinition { use_: None, username: None, password: None },
        }
    }

    /// Loads the credentials from the named secret.
    pub fn use_secret(&mut self, secret: &str)
        ensures
            holds_str(final(self).scheme.use_, secret),
            final(self).scheme.username == old(self).scheme.username,
            final(self).scheme.password == old(self).scheme.password,
    {
        self.scheme.use_ = Some(secret.to_string());
    }

    pub fn with_username(&mut self, username: &str) -> (r: &mut Self)
        ensures
            holds_str(r.scheme.username, username),
            r.scheme.use_ == old(self).scheme.use_,
            r.scheme.password == old(self).scheme.password,
            *final(self) == *final(r),
    {
        self.scheme.username = Some(username.to_string());
        self
    }

    pub fn with_password(&mut self, password: &str) -> (r: &mut Self)
        ensures
            holds_str(r.scheme.password, password),
            r.scheme.use_ == old(self).scheme.use_,
            r.scheme.username == old(self).scheme.username,
            *final(self) == *final(r),
    {
        self.scheme.password = Some(password.to_string());
        self
    }

    pub fn build(self) -> (r: AuthenticationPolicyDefinition)
        ensures
            r == scheme_policy(AuthenticationSchemeBuilder::Basic(self)),
    {
        let mut authentication = AuthenticationPolicyDefinition::new();
        authentication.basic = Some(self.scheme);
        authentication
    }
}

/// Builds a 'Bearer' scheme.
pub struct BearerAuthenticationSchemeDefinitionBuilder {
    pub scheme: BearerAuthenticationSchemeDefinition,
}

impl BearerAuthenticationSchemeDefinitionBuilder {
    pub open spec fn fresh() -> Self {
        BearerAuthenticationSchemeDefinitionBuilder {
            scheme: BearerAuthenticationSchemeDefinition { use_: None, token: None },
        }
    }

    pub fn new() -> (r: Self)
        ensures
            r == Self::fresh(),
    {
        BearerAuthenticationSchemeDefinitionBuilder {
            scheme: BearerAuthenticationSchemeDefinition { use_: None, token: None },
        }
    }

    /// Loads the token from the named secret.
    pub fn use_secret(&mut self, secret: &str)
        ensures
            holds_str(final(self).scheme.use_, secret),
            final(self).scheme.token == old(self).scheme.token,
    {
        self.scheme.use_ = Some(secret.to_string());
    }

    pub fn with_token(&mut self, token: &str) -> (r: &mut Self)
        ensures
            holds_str(r.scheme.token, token),
            r.scheme.use_ == old(self).scheme.use_,
            *final(self) == *final(r),
    {
        self.scheme.token = Some(token.to_string());
        self
    }

    pub fn build(self) -> (r: AuthenticationPolicyDefinition)
        ensures
            r == scheme_policy(AuthenticationSchemeBuilder::Bearer(self)),
    {
        let mut authentication = AuthenticationPolicyDefinition::new();
        authentication.bearer = Some(self.scheme);
        authentication
    }
}

/// Builds a 'Certificate' scheme.
pub struct CertificateAuthenticationSchemeDefinitionBuilder {
    pub scheme: CertificateAuthenticationSchemeDefinition,
}

impl CertificateAuthenticationSchemeDefinitionBuilder {
    pub open spec fn fresh() -> Self {
        CertificateAuthenticationSchemeDefinitionBuilder {
            scheme: CertificateAuthenticationSchemeDefinition { use_: None },
        }
    }

    pub fn new() -> (r: Self)
        ensures
            r == Self::fresh(),
    {
        CertificateAuthenticationSchemeDefinitionBuilder {
            scheme: CertificateAuthenticationSchemeDefinition { use_: None },
        }
    }

    /// Loads the certificate from the named secret.
    pub fn use_secret(&mut self, secret: &str)
        ensures
            holds_str(final(self).scheme.use_, secret),
    {
        self.scheme.use_ = Some(secret.to_string());
    }

    pub fn build(self) -> (r: AuthenticationPolicyDefinition)
        ensures
            r == scheme_policy(AuthenticationSchemeBuilder::Certificate(self)),
    {
        let mut authentication = AuthenticationPolicyDefinition::new();
        authentication.certificate = Some(self.scheme);
        authentication
    }
}

/// Builds a 'Digest' scheme.
pub struct DigestAuthenticationSchemeDefinitionBuilder {
    pub scheme: DigestAuthenticationSchemeDefinition,
}

impl DigestAuthenticationSchemeDefinitionBuilder {
    pub open spec fn fresh() -> Self {
        DigestAuthenticationSchemeDefinitionBuilder {
            scheme: DigestAuthenticationSchemeDefinition { use_: None, username: None, password: None },
        }
    }

    pub fn new() -> (r: Self)
        ensures
            r == Self::fresh(),
    {
        DigestAuthenticationSchemeDefinitionBuilder {
            scheme: DigestAuthenticationSchemeDefinition { use_: None, username: None, password: None },
        }
    }

    /// Loads the credentials from the named secret.
    pub fn use_secret(&mut self, secret: &str)
        ensures
            holds_str(final(self).scheme.use_, secret),
            final(self).scheme.username == old(self).scheme.username,
            final(self).scheme.password == old(self).scheme.password,
    {
        self.scheme.use_ = Some(secret.to_string());
    }

    pub fn with_username(&mut self, username: &str) -> (r: &mut Self)
        ensures
            holds_str(r.scheme.username, username),
            r.scheme.use_ == old(self).scheme.use_,
            r.scheme.password == old(self).scheme.password,
            *final(self) == *final(r),
    {
        self.scheme.username = Some(username.to_string());
        self
    }

    pub fn with_password(&mut self, password: &str) -> (r: &mut Self)
        ensures
            holds_str(r.scheme.password, password),
            r.scheme.use_ == old(self).scheme.use_,
            r.scheme.username == old(self).scheme.username,
            *final(self) == *final(r),
    {
        self.scheme.password = Some(password.to_string());
        self
    }

    pub fn build(self) -> (r: AuthenticationPolicyDefinition)
        ensures
            r == scheme_policy(AuthenticationSchemeBuilder::Digest(self)),
    {
        let mut authentication = AuthenticationPolicyDefinition::new();
        authentication.digest = Some(self.scheme);
        authentication
    }
}

/// Builds an 'OAuth2' scheme.
pub struct OAuth2AuthenticationSchemeDefinitionBuilder {
    pub scheme: OAuth2AuthenticationSchemeDefinition,
}

impl OAuth2AuthenticationSchemeDefinitionBuilder {
    pub open spec fn fresh() -> Self {
        OAuth2AuthenticationSchemeDefinitionBuilder { scheme: OAuth2AuthenticationSchemeDefinition { use_: None, endpoints: None, authority: None, grant: None, client: None, request: None, issuers: None, scopes: None, audiences: None, username: None, password: None, subject: None, actor: None } }
    }

    pub fn new() -> (r: Self)
        ensures
            r == Self::fresh(),
    {
        OAuth2AuthenticationSchemeDefinitionBuilder { scheme: OAuth2AuthenticationSchemeDefinition { use_: None, endpoints: None, authority: None, grant: None, client: None, request: None, issuers: None, scopes: None, audiences: None, username: None, password: None, subject: None, actor: None } }
    }

    /// Loads the configuration from the named secret.
    pub fn use_secret(&mut self, secret: &str)
        ensures
            holds_str(final(self).scheme.use_, secret),
            final(self).scheme == (OAuth2AuthenticationSchemeDefinition { use_: final(self).scheme.use_, ..old(self).scheme }),
    {
        self.scheme.use_ = Some(secret.to_string());
    }

    pub fn with_endpoints(&mut self, endpoints: OAuth2AuthenticationEndpointsDefinition) -> (r: &mut Self)
        ensures
            r.scheme.endpoints == Some(endpoints),
            r.scheme == (OAuth2AuthenticationSchemeDefinition { endpoints: r.scheme.endpoints, ..old(self).scheme }),
            *final(self) == *final(r),
    {
        self.scheme.endpoints = Some(endpoints);
        self
    }

    pub fn with_authority(&mut self, uri: &str) -> (r: &mut Self)
        ensures
            holds_str(r.scheme.authority, uri),
            r.scheme == (OAuth2AuthenticationSchemeDefinition { authority: r.scheme.authority, ..old(self).scheme }),
            *final(self) == *final(r),
    {
        self.scheme.authority = Some(uri.to_string());
        self
    }

    pub fn with_grant_type(&mut self, grant: &str) -> (r: &mut Self)
        ensures
            holds_str(r.scheme.grant, grant),
            r.scheme == (OAuth2AuthenticationSchemeDefinition { grant: r.scheme.grant, ..old(self).scheme }),
            *final(self) == *final(r),
    {
        self.scheme.grant = Some(grant.to_string());
        self
    }

    /// Sets the client, as configured by `setup` on a fresh client builder.
    pub fn with_client<F>(&mut self, setup: F) -> (r: &mut Self)
        where
            F: FnOnce(&mut OAuth2AuthenticationClientDefinitionBuilder),
        requires
            forall|b: &mut OAuth2AuthenticationClientDefinitionBuilder| setup.requires((b,)),
        ensures
            r.scheme.client is Some,
            exists|b: &mut OAuth2AuthenticationClientDefinitionBuilder| #[trigger] setup.ensures((b,), ()) && b.is_fresh()
                && r.scheme.client == Some(final(b).value()),
            r.scheme == (OAuth2AuthenticationSchemeDefinition { client: r.scheme.client, ..old(self).scheme }),
            *final(self) == *final(r),
    {
        let mut builder = OAuth2AuthenticationClientDefinitionBuilder::new();
        setup(&mut builder);
        self.scheme.client = Some(builder.build());
        self
    }

    /// Sets the request, as configured by `setup` on a fresh request builder.
    pub fn with_request<F>(&mut self, setup: F) -> (r: &mut Self)
        where
            F: FnOnce(&mut OAuth2AuthenticationRequestDefinitionBuilder),
        requires
            forall|b: &mut OAuth2AuthenticationRequestDefinitionBuilder| setup.requires((b,)),
        ensures
            r.scheme.request is Some,
            exists|b: &mut OAuth2AuthenticationRequestDefinitionBuilder| #[trigger] setup.ensures((b,), ()) && b.is_fresh()
                && r.scheme.request == Some(final(b).value()),
            r.scheme == (OAuth2AuthenticationSchemeDefinition { request: r.scheme.request, ..old(self).scheme }),
            *final(self) == *final(r),
    {
        let mut builder = OAuth2AuthenticationRequestDefinitionBuilder::new();
        setup(&mut builder);
        self.scheme.request = Some(builder.build());
        self
    }

    pub fn with_issuers(&mut self, issuers: Vec<String>) -> (r: &mut Self)
        ensures
            r.scheme.issuers == Some(issuers),
            r.scheme == (OAuth2AuthenticationSchemeDefinition { issuers: r.scheme.issuers, ..old(self).scheme }),
            *final(self) == *final(r),
    {
        self.scheme.issuers = Some(issuers);
        self
    }

    pub fn with_scopes(&mut self, scopes: Vec<String>) -> (r: &mut Self)
        ensures
            r.scheme.scopes == Some(scopes),
            r.scheme == (OAuth2AuthenticationSchemeDefinition { scopes: r.scheme.scopes, ..old(self).scheme }),
            *final(self) == *final(r),
    {
        self.scheme.scopes = Some(scopes);
        self
    }

    pub fn with_audiences(&mut self, audiences: Vec<String>) -> (r: &mut Self)
        ensures
            r.scheme.audiences == Some(audiences),
            r.scheme == (OAuth2AuthenticationSchemeDefinition { audiences: r.scheme.audiences, ..old(self).scheme }),
            *final(self) == *final(r),
    {
        self.scheme.audiences = Some(audiences);
        self
    }

    pub fn with_username(&mut self, username: &str) -> (r: &mut Self)
        ensures
            holds_str(r.scheme.username, username),
            r.scheme == (OAuth2AuthenticationSchemeDefinition { username: r.scheme.username, ..old(self).scheme }),
            *final(self) == *final(r),
    {
        self.scheme.username = Some(username.to_string());
        self
    }

    pub fn with_password(&mut self, password: &str) -> (r: &mut Self)
        ensures
            holds_str(r.scheme.password, password),
            r.scheme == (OAuth2AuthenticationSchemeDefinition { password: r.scheme.password, ..old(self).scheme }),
            *final(self) == *final(r),
    {
        self.scheme.password = Some(password.to_string());
        self
    }

    pub fn with_subject(&mut self, subject: OAuth2TokenDefinition) -> (r: &mut Self)
        ensures
            r.scheme.subject == Some(subject),
            r.scheme == (OAuth2AuthenticationSchemeDefinition { subject: r.scheme.subject, ..old(self).scheme }),
            *final(self) == *final(r),
    {
        self.scheme.subject = Some(subject);
        self
    }

    pub fn with_actor(&mut self, actor: OAuth2TokenDefinition) -> (r: &mut Self)
        ensures
            r.scheme.actor == Some(actor),
            r.scheme == (OAuth2AuthenticationSchemeDefinition { actor: r.scheme.actor, ..old(self).scheme }),
            *final(self) == *final(r),
    {
        self.scheme.actor = Some(actor);
        self
    }

    pub fn build(self) -> (r: AuthenticationPolicyDefinition)
        ensures
            r == scheme_policy(AuthenticationSchemeBuilder::OAUTH2(self)),
    {
        let mut authentication = AuthenticationPolicyDefinition::new();
        authentication.oauth2 = Some(self.scheme);
        authentication
    }
}

/// Builds an 'OpenIDConnect' scheme.
pub struct OpenIDConnectSchemeDefinitionBuilder {
    pub scheme: OpenIDConnectSchemeDefinition,
}

impl OpenIDConnectSchemeDefinitionBuilder {
    pub open spec fn fresh() -> Self {
        OpenIDConnectSchemeDefinitionBuilder { scheme: OpenIDConnectSchemeDefinition { use_: None, authority: None, grant: None, client: None, request: None, issuers: None, scopes: None, audiences: None, username: None, password: None, subject: None, actor: None } }
    }

    pub fn new() -> (r: Self)
        ensures
            r == Self::fresh(),
    {
        OpenIDConnectSchemeDefinitionBuilder { scheme: OpenIDConnectSchemeDefinition { use_: None, authority: None, grant: None, client: None, request: None, issuers: None, scopes: None, audiences: None, username: None, password: None, subject: None, actor: None } }
    }

    /// Loads the configuration from the named secret.
    pub fn use_secret(&mut self, secret: &str)
        ensures
            holds_str(final(self).scheme.use_, secret),
            final(self).scheme == (OpenIDConnectSchemeDefinition { use_: final(self).scheme.use_, ..old(self).scheme }),
    {
        self.scheme.use_ = Some(secret.to_string());
    }

    pub fn with_authority(&mut self, uri: &str) -> (r: &mut Self)
        ensures
            holds_str(r.scheme.authority, uri),
            r.scheme == (OpenIDConnectSchemeDefinition { authority: r.scheme.authority, ..old(self).scheme }),
            *final(self) == *final(r),
    {
        self.scheme.authority = Some(uri.to_string());
        self
    }

    pub fn with_grant_type(&mut self, grant: &str) -> (r: &mut Self)
        ensures
            holds_str(r.scheme.grant, grant),
            r.scheme == (OpenIDConnectSchemeDefinition { grant: r.scheme.grant, ..old(self).scheme }),
            *final(self) == *final(r),
    {
        self.scheme.grant = Some(grant.to_string());
        self
    }

    /// Sets the client, as configured by `setup` on a fresh client builder.
    pub fn with_client<F>(&mut self, setup: F) -> (r: &mut Self)
        where
            F: FnOnce(&mut OAuth2AuthenticationClientDefinitionBuilder),
        requires
            forall|b: &mut OAuth2AuthenticationClientDefinitionBuilder| setup.requires((b,)),
        ensures
            r.scheme.client is Some,
            exists|b: &mut OAuth2AuthenticationClientDefinitionBuilder| #[trigger] setup.ensures((b,), ()) && b.is_fresh()
                && r.scheme.client == Some(final(b).value()),
            r.scheme == (OpenIDConnectSchemeDefinition { client: r.scheme.client, ..old(self).scheme }),
            *final(self) == *final(r),
    {
        let mut builder = OAuth2AuthenticationClientDefinitionBuilder::new();
        setup(&mut builder);
        self.scheme.client = Some(builder.build());
        self
    }

    /// Sets the request, as configured by `setup` on a fresh request builder.
    pub fn with_request<F>(&mut self, setup: F) -> (r: &mut Self)
        where
            F: FnOnce(&mut OAuth2AuthenticationRequestDefinitionBuilder),
        requires
            forall|b: &mut OAuth2AuthenticationRequestDefinitionBuilder| setup.requires((b,)),
        ensures
            r.scheme.request is Some,
            exists|b: &mut OAuth2AuthenticationRequestDefinitionBuilder| #[trigger] setup.ensures((b,), ()) && b.is_fresh()
                && r.scheme.request == Some(final(b).value()),
            r.scheme == (OpenIDConnectSchemeDefinition { request: r.scheme.request, ..old(self).scheme }),
            *final(self) == *final(r),
    {
        let mut builder = OAuth2AuthenticationRequestDefinitionBuilder::new();
        setup(&mut builder);
        self.scheme.request = Some(builder.build());
        self
    }

    pub fn with_issuers(&mut self, issuers: Vec<String>) -> (r: &mut Self)
        ensures
            r.scheme.issuers == Some(issuers),
            r.scheme == (OpenIDConnectSchemeDefinition { issuers: r.scheme.issuers, ..old(self).scheme }),
            *final(self) == *final(r),
    {
        self.scheme.issuers = Some(issuers);
        self
    }

    pub fn with_scopes(&mut self, scopes: Vec<String>) -> (r: &mut Self)
        ensures
            r.scheme.scopes == Some(scopes),
            r.scheme == (OpenIDConnectSchemeDefinition { scopes: r.scheme.scopes, ..old(self).scheme }),
            *final(self) == *final(r),
    {
        self.scheme.scopes = Some(scopes);
        self
    }

    pub fn with_audiences(&mut self, audiences: Vec<String>) -> (r: &mut Self)
        ensures
            r.scheme.audiences == Some(audiences),
            r.scheme == (OpenIDConnectSchemeDefinition { audiences: r.scheme.audiences, ..old(self).scheme }),
            *final(self) == *final(r),
    {
        self.scheme.audiences = Some(audiences);
        self
    }

    pub fn with_username(&mut self, username: &str) -> (r: &mut Self)
        ensures
            holds_str(r.scheme.username, username),
            r.scheme == (OpenIDConnectSchemeDefinition { username: r.scheme.username, ..old(self).scheme }),
            *final(self) == *final(r),
    {
        self.scheme.username = Some(username.to_string());
        self
    }

    pub fn with_password(&mut self, password: &str) -> (r: &mut Self)
        ensures
            holds_str(r.scheme.password, password),
            r.scheme == (OpenIDConnectSchemeDefinition { password: r.scheme.password, ..old(self).scheme }),
            *final(self) == *final(r),
    {
        self.scheme.password = Some(password.to_string());
        self
    }

    pub fn with_subject(&mut self, subject: OAuth2TokenDefinition) -> (r: &mut Self)
        ensures
            r.scheme.subject == Some(subject),
            r.scheme == (OpenIDConnectSchemeDefinition { subject: r.scheme.subject, ..old(self).scheme }),
            *final(self) == *final(r),
    {
        self.scheme.subject = Some(subject);
        self
    }

    pub fn with_actor(&mut self, actor: OAuth2TokenDefinition) -> (r: &mut Self)
        ensures
            r.scheme.actor == Some(actor),
            r.scheme == (OpenIDConnectSchemeDefinition { actor: r.scheme.actor, ..old(self).scheme }),
            *final(self) == *final(r),
    {
        self.scheme.actor = Some(actor);
        self
    }

    pub fn build(self) -> (r: AuthenticationPolicyDefinition)
        ensures
            r == scheme_policy(AuthenticationSchemeBuilder::OIDC(self)),
    {
        let mut authentication = AuthenticationPolicyDefinition::new();
        authentication.oidc = Some(self.scheme);
        authentication
    }
}

/// Builds the client of an OAuth2 exchange.
pub struct OAuth2AuthenticationClientDefinitionBuilder {
    pub client: OAuth2AuthenticationClientDefinition,
}

impl OAuth2AuthenticationClientDefinitionBuilder {
    pub fn new() -> (r: Self)
        ensures
            r.client == (OAuth2AuthenticationClientDefinition {
                id: None,
                secret: None,
                assertion: None,
                authentication: None,
            }),
    {
        OAuth2AuthenticationClientDefinitionBuilder {
            client: OAuth2AuthenticationClientDefinition { id: None, secret: None, assertion: None, authentication: None },
        }
    }

    pub fn with_id(&mut self, id: &str) -> (r: &mut Self)
        ensures
            holds_str(r.client.id, id),
            r.client == (OAuth2AuthenticationClientDefinition { id: r.client.id, ..old(self).client }),
            *final(self) == *final(r),
    {
        self.client.id = Some(id.to_string());
        self
    }

    pub fn with_secret(&mut self, secret: &str) -> (r: &mut Self)
        ensures
            holds_str(r.client.secret, secret),
            r.client == (OAuth2AuthenticationClientDefinition { secret: r.client.secret, ..old(self).client }),
            *final(self) == *final(r),
    {
        self.client.secret = Some(secret.to_string());
        self
    }

    pub fn with_assertion(&mut self, assertion: &str) -> (r: &mut Self)
        ensures
            holds_str(r.client.assertion, assertion),
            r.client == (OAuth2AuthenticationClientDefinition { assertion: r.client.assertion, ..old(self).client }),
            *final(self) == *final(r),
    {
        self.client.assertion = Some(assertion.to_string());
        self
    }

    pub fn with_authentication_method(&mut self, method: &str) -> (r: &mut Self)
        ensures
            holds_str(r.client.authentication, method),
            r.client == (OAuth2AuthenticationClientDefinition { authentication: r.client.authentication, ..old(self).client }),
            *final(self) == *final(r),
    {
        self.client.authentication = Some(method.to_string());
        self
    }

    /// Nothing was configured yet.
    pub open spec fn is_fresh(&self) -> bool {
        self.client == (OAuth2AuthenticationClientDefinition { id: None, secret: None, assertion: None, authentication: None })
    }

    /// What `build` yields.
    pub open spec fn value(&self) -> OAuth2AuthenticationClientDefinition {
        self.client
    }

    pub fn build(self) -> (r: OAuth2AuthenticationClientDefinition)
        ensures
            r == self.client,
    {
        self.client
    }
}

/// Builds the request of an OAuth2 exchange.
pub struct OAuth2AuthenticationRequestDefinitionBuilder {
    pub request: OAuth2AuthenticationRequestDefinition,
}

impl OAuth2AuthenticationRequestDefinitionBuilder {
    /// A request in the default encoding.
    pub fn new() -> (r: Self)
        ensures
            r.request.encoding@ == OAuth2RequestEncoding::FORM_URL@,
    {
        OAuth2AuthenticationRequestDefinitionBuilder {
            request: OAuth2AuthenticationRequestDefinition { encoding: default_oauth2_request_encoding() },
        }
    }

    pub fn with_encoding(&mut self, encoding: &str) -> (r: &mut Self)
        ensures
            r.request.encoding@ == encoding@,
            *final(self) == *final(r),
    {
        self.request.encoding = encoding.to_string();
        self
    }

    /// Nothing was configured yet.
    pub open spec fn is_fresh(&self) -> bool {
        self.request.encoding@ == OAuth2RequestEncoding::FORM_URL@
    }

    /// What `build` yields.
    pub open spec fn value(&self) -> OAuth2AuthenticationRequestDefinition {
        self.request
    }

    pub fn build(self) -> (r: OAuth2AuthenticationRequestDefinition)
        ensures
            r == self.request,
    {
        self.request
    }
}

} // verus!
