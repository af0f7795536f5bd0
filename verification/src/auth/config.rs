//! Configuration of the ingress and of token validation.

use vstd::prelude::*;

use crate::text::{opt_text, texts};

verus! {

/// What the ingress is told about authentication.
#[derive(Debug)]
pub struct ApiIngressConfig {
    /// Let every request through.
    pub auth_disabled: bool,
    /// Where the keys that tokens are signed with are published.
    pub jwks_uri: Option<String>,
    /// The issuer that tokens must come from, if only one is accepted.
    pub issuer: Option<String>,
    /// The audience that tokens must be for, if only one is accepted.
    pub audience: Option<String>,
    /// Routes that are neither secured nor public need authentication.
    pub require_auth_by_default: bool,
}

/// Which plugin reads the claims of a token.
#[derive(Debug)]
pub struct AuthModeConfig {
    pub provider: String,
}

/// How a plugin reads the claims of a token.
#[derive(Debug)]
pub enum PluginConfig {
    /// The names of the claims that hold the tenants and the roles.
    Oidc { tenant_claim: String, roles_claim: String },
}

/// Where keys come from, and how often they are fetched.
#[derive(Debug)]
pub struct JwksConfig {
    pub uri: String,
    pub refresh_interval_seconds: u64,
    pub max_backoff_seconds: u64,
}

/// Configuration of token validation.
#[derive(Debug)]
pub struct AuthConfig {
    pub mode: AuthModeConfig,
    /// How far clocks may be apart.
    pub leeway_seconds: u64,
    /// The accepted issuers; any where there are none.
    pub issuers: Vec<String>,
    /// The accepted audiences; any where there are none.
    pub audiences: Vec<String>,
    pub jwks: Option<JwksConfig>,
    /// The plugins by name.
    pub plugins: Vec<(String, PluginConfig)>,
}

/// What an [`AuthConfig`] says.
#[verifier::ext_equal]
pub struct AuthConfigView {
    pub provider: Seq<char>,
    pub leeway_seconds: nat,
    pub issuers: Seq<Seq<char>>,
    pub audiences: Seq<Seq<char>>,
    pub jwks: Option<JwksConfigView>,
    pub plugins: Seq<(Seq<char>, PluginConfigView)>,
}

/// What a [`JwksConfig`] says.
#[verifier::ext_equal]
pub struct JwksConfigView {
    pub uri: Seq<char>,
    pub refresh_interval_seconds: nat,
    pub max_backoff_seconds: nat,
}

/// What a [`PluginConfig`] says.
#[verifier::ext_equal]
pub enum PluginConfigView {
    Oidc { tenant_claim: Seq<char>, roles_claim: Seq<char> },
}

impl View for PluginConfig {
    type V = PluginConfigView;

    open spec fn view(&self) -> PluginConfigView {
        match self {
            PluginConfig::Oidc { tenant_claim, roles_claim } => PluginConfigView::Oidc {
                tenant_claim: tenant_claim@,
                roles_claim: roles_claim@,
            },
        }
    }
}

impl View for JwksConfig {
    type V = JwksConfigView;

    open spec fn view(&self) -> JwksConfigView {
        JwksConfigView {
            uri: self.uri@,
            refresh_interval_seconds: self.refresh_interval_seconds as nat,
            max_backoff_seconds: self.max_backoff_seconds as nat,
        }
    }
}

impl View for AuthConfig {
    type V = AuthConfigView;

    open spec fn view(&self) -> AuthConfigView {
        AuthConfigView {
            provider: self.mode.provider@,
            leeway_seconds: self.leeway_seconds as nat,
            issuers: texts(self.issuers@),
            audiences: texts(self.audiences@),
            jwks: match self.jwks {
                Some(jwks) => Some(jwks@),
                None => None,
            },
            plugins: self.plugins@.map_values(
                |plugin: (String, PluginConfig)| (plugin.0@, plugin.1@),
            ),
        }
    }
}

/// The list of what an optional text holds: one text or none.
pub open spec fn as_list(text: Option<Seq<char>>) -> Seq<Seq<char>> {
    match text {
        Some(text) => seq![text],
        None => Seq::empty(),
    }
}

/// How tokens are validated: by one OpenID Connect plugin that finds the tenants and the
/// roles under these names, against the issuer and audience that the ingress was told, and
/// with the keys that are published at an address.
pub open spec fn oidc_config(
    jwks_uri: Seq<char>,
    issuer: Option<Seq<char>>,
    audience: Option<Seq<char>>,
) -> AuthConfigView {
    AuthConfigView {
        provider: "default-oidc"@,
        leeway_seconds: 60,
        issuers: as_list(issuer),
        audiences: as_list(audience),
        jwks: Some(
            JwksConfigView {
                uri: jwks_uri,
                refresh_interval_seconds: 300,
                max_backoff_seconds: 3600,
            },
        ),
        plugins: seq![
            (
                "default-oidc"@,
                PluginConfigView::Oidc { tenant_claim: "tenants"@, roles_claim: "roles"@ },
            ),
        ],
    }
}

fn list_of(text: &Option<String>) -> (list: Vec<String>)
    ensures
        texts(list@) == as_list(opt_text(*text)),
{
    let mut list: Vec<String> = Vec::new();
    if let Some(text) = text {
        list.push(text.clone());
    }
    assert(texts(list@) =~= as_list(opt_text(*text)));
    list
}

impl ApiIngressConfig {
    /// How tokens are validated where authentication is enabled. Without an address for the
    /// keys there is no way.
    pub fn auth_config(&self) -> (config: Option<AuthConfig>)
        ensures
            match config {
                Some(config) => self.jwks_uri is Some && config@ == oidc_config(
                    self.jwks_uri->0@,
                    opt_text(self.issuer),
                    opt_text(self.audience),
                ),
                None => self.jwks_uri is None,
            },
    {
        let jwks_uri = match &self.jwks_uri {
            Some(uri) => uri.clone(),
            None => return None,
        };
        let mut plugins: Vec<(String, PluginConfig)> = Vec::new();
        plugins.push(
            (
                "default-oidc".to_owned(),
                PluginConfig::Oidc {
                    tenant_claim: "tenants".to_owned(),
                    roles_claim: "roles".to_owned(),
                },
            ),
        );
        let config = AuthConfig {
            mode: AuthModeConfig { provider: "default-oidc".to_owned() },
            leeway_seconds: 60,
            issuers: list_of(&self.issuer),
            audiences: list_of(&self.audience),
            jwks: Some(
                JwksConfig {
                    uri: jwks_uri,
                    refresh_interval_seconds: 300,
                    max_backoff_seconds: 3600,
                },
            ),
            plugins,
        };
        assert(config@ =~= oidc_config(
            self.jwks_uri->0@,
            opt_text(self.issuer),
            opt_text(self.audience),
        ));
        Some(config)
    }
}

/// The issuer and the audience that the ingress was told are the only ones that are accepted.
/// Where it was told none, none is named, and any is accepted.
pub proof fn law_told_issuer_and_audience_are_accepted(
    ingress: &ApiIngressConfig,
    config: AuthConfig,
)
    requires
        call_ensures(ApiIngressConfig::auth_config, (ingress,), Some(config)),
    ensures
        ingress.issuer matches Some(issuer) ==> config.issuers@.len() == 1 && config.issuers@[0]@
            == issuer@,
        ingress.issuer is None ==> config.issuers@.len() == 0,
        ingress.audience matches Some(audience) ==> config.audiences@.len() == 1
            && config.audiences@[0]@ == audience@,
        ingress.audience is None ==> config.audiences@.len() == 0,
{
    assert(texts(config.issuers@).len() == config.issuers@.len());
    assert(texts(config.audiences@).len() == config.audiences@.len());
    if ingress.issuer is Some {
        assert(texts(config.issuers@)[0] == config.issuers@[0]@);
    }
    if ingress.audience is Some {
        assert(texts(config.audiences@)[0] == config.audiences@[0]@);
    }
}

/// Tokens can be validated if and only if the ingress was told where the keys are, and then
/// the keys come from there, every five minutes, with an hour at most between attempts.
pub proof fn law_keys_come_from_the_told_address(
    ingress: &ApiIngressConfig,
    outcome: Option<AuthConfig>,
)
    requires
        call_ensures(ApiIngressConfig::auth_config, (ingress,), outcome),
    ensures
        outcome is Some <==> ingress.jwks_uri is Some,
        outcome matches Some(config) ==> {
            &&& config.jwks is Some
            &&& config.jwks->0.uri@ == ingress.jwks_uri->0@
            &&& config.jwks->0.refresh_interval_seconds == 300
            &&& config.jwks->0.max_backoff_seconds == 3600
        },
{
}

/// The one plugin that is configured is the one that is used. It finds the tenants under
/// `tenants` and the roles under `roles`, and clocks may be a minute apart.
pub proof fn law_configured_plugin_is_used(ingress: &ApiIngressConfig, config: AuthConfig)
    requires
        call_ensures(ApiIngressConfig::auth_config, (ingress,), Some(config)),
    ensures
        config.leeway_seconds == 60,
        config.plugins@.len() == 1,
        config.plugins@[0].0@ == config.mode.provider@,
        config.mode.provider@ == "default-oidc"@,
        ({
            let PluginConfig::Oidc { tenant_claim, roles_claim } = config.plugins@[0].1;
            tenant_claim@ == "tenants"@ && roles_claim@ == "roles"@
        }),
{
    let plugins = config@.plugins;
    assert(plugins.len() == config.plugins@.len());
    assert(plugins[0] == (config.plugins@[0].0@, config.plugins@[0].1@));
}

} // verus!
