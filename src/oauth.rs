//! The OAuth2 authorization-code flow's configuration and request bodies,
//! the credential that it yields, and the current credential that the poll
//! loop reads and the refresh task replaces.

use vstd::prelude::*;

use crate::text::{decimal, decimal_string};

verus! {

/// The fixed local port of the redirect listener.
pub const DEFAULT_PORT: u16 = 42069;

/// The token endpoint of `tenant`.
pub open spec fn token_url(tenant: Seq<char>) -> Seq<char> {
    "https://login.microsoftonline.com/"@ + tenant + "/oauth2/v2.0/token"@
}

/// The local callback that the authorization server redirects to.
pub open spec fn redirect_uri(port: u16) -> Seq<char> {
    "http://localhost:"@ + decimal(port as nat) + "/redirect"@
}

/// `redirect_uri(port)` percent-encoded for use inside a query string.
pub open spec fn encoded_redirect_uri(port: u16) -> Seq<char> {
    "http%3A%2F%2Flocalhost%3A"@ + decimal(port as nat) + "%2Fredirect"@
}

/// The query of the authorize request.
pub open spec fn authorize_query(client_id: Seq<char>, port: u16, scope: Seq<char>) -> Seq<char> {
    "response_type=code&client_id="@ + client_id + "&redirect_uri="@ + encoded_redirect_uri(port)
        + "&scope="@ + scope + "&sso_reload=true"@
}

/// The authorize URL that the user opens in a browser.
pub open spec fn authorize_url(
    tenant: Seq<char>,
    client_id: Seq<char>,
    port: u16,
    scope: Seq<char>,
) -> Seq<char> {
    "https://login.microsoftonline.com/"@ + tenant + "/oauth2/v2.0/authorize?"@ + authorize_query(
        client_id,
        port,
        scope,
    )
}

/// Failures of the authorization flow that the library decides.
#[derive(Clone, Copy, Debug, PartialEq, Eq, Structural)]
pub enum OAuthError {
    /// No authorization code was received: the user did not complete the
    /// authorization before the listener shut down.
    NoAccessCode,
}

/// A token response that cannot serve as a credential.
#[derive(Clone, Copy, Debug, PartialEq, Eq, Structural)]
pub enum CredentialError {
    /// The access token is empty.
    MissingAccessToken,
    /// The refresh token is empty.
    MissingRefreshToken,
}

/// A refresh schedule that cannot work.
#[derive(Clone, Copy, Debug, PartialEq, Eq, Structural)]
pub enum RefreshScheduleError {
    /// The padding is not shorter than the credential's lifetime, so the wait
    /// before each refresh would be zero or negative.
    PaddingTooLarge,
}

/// Settings of the authorization flow, and the authorization code once the
/// redirect has delivered it.
#[derive(Clone, Debug)]
pub struct Config {
    pub client_id: String,
    pub tenant_id: String,
    pub port: u16,
    pub scope: String,
    pub access_code: Option<String>,
}

/// Form fields of the authorization-code exchange.
#[derive(Clone)]
pub struct TokenRequestBody {
    pub client_id: String,
    pub redirect_uri: String,
    pub code: String,
    pub grant_type: String,
}

/// Form fields of the refresh-token exchange.
#[derive(Clone)]
pub struct RefreshTokenRequestBody {
    pub client_id: String,
    pub grant_type: String,
    pub scope: String,
    pub refresh_token: String,
}

fn decimal_port(port: u16) -> (r: String)
    ensures
        r@ == decimal(port as nat),
{
    decimal_string(port as u64)
}

impl Config {
    /// A configuration on the default port, with no authorization code yet.
    pub fn new(client_id: &str, tenant_id: &str, scope: &str) -> (r: Config)
        ensures
            r.client_id@ == client_id@,
            r.tenant_id@ == tenant_id@,
            r.scope@ == scope@,
            r.port == DEFAULT_PORT,
            r.access_code is None,
    {
        Config {
            client_id: String::from_str(client_id),
            tenant_id: String::from_str(tenant_id),
            port: DEFAULT_PORT,
            scope: String::from_str(scope),
            access_code: None,
        }
    }

    /// The authorize URL that the user opens in a browser.
    pub fn get_authorize_url(&self) -> (r: String)
        ensures
            r@ == authorize_url(self.tenant_id@, self.client_id@, self.port, self.scope@),
    {
        let mut r = String::from_str("https://login.microsoftonline.com/");
        r.append(self.tenant_id.as_str());
        r.append("/oauth2/v2.0/authorize?");
        r.append(self.get_authorize_query().as_str());
        r
    }

    /// The query of the authorize request.
    pub fn get_authorize_query(&self) -> (r: String)
        ensures
            r@ == authorize_query(self.client_id@, self.port, self.scope@),
    {
        let mut r = String::from_str("response_type=code&client_id=");
        r.append(self.client_id.as_str());
        r.append("&redirect_uri=");
        r.append("http%3A%2F%2Flocalhost%3A");
        r.append(decimal_port(self.port).as_str());
        r.append("%2Fredirect");
        r.append("&scope=");
        r.append(self.scope.as_str());
        r.append("&sso_reload=true");
        proof {
            assert(r@ =~= authorize_query(self.client_id@, self.port, self.scope@));
        }
        r
    }

    /// The token endpoint of the tenant.
    pub fn get_token_url(&self) -> (r: String)
        ensures
            r@ == token_url(self.tenant_id@),
    {
        let mut r = String::from_str("https://login.microsoftonline.com/");
        r.append(self.tenant_id.as_str());
        r.append("/oauth2/v2.0/token");
        r
    }

    pub fn get_client_id(&self) -> (r: String)
        ensures
            r@ == self.client_id@,
    {
        self.client_id.clone()
    }

    pub fn get_scope(&self) -> (r: String)
        ensures
            r@ == self.scope@,
    {
        self.scope.clone()
    }

    /// The local callback that the authorization server redirects to.
    pub fn get_redirect_uri(&self) -> (r: String)
        ensures
            r@ == redirect_uri(self.port),
    {
        let mut r = String::from_str("http://localhost:");
        r.append(decimal_port(self.port).as_str());
        r.append("/redirect");
        r
    }

    /// Stores the authorization code delivered by the redirect.
    pub fn set_access_code(&mut self, ac: &str)
        ensures
            final(self).client_id == old(self).client_id,
            final(self).tenant_id == old(self).tenant_id,
            final(self).port == old(self).port,
            final(self).scope == old(self).scope,
            final(self).access_code is Some,
            final(self).access_code->0@ == ac@,
    {
        self.access_code = Some(String::from_str(ac));
    }

    pub fn get_port(&self) -> (r: u16)
        ensures
            r == self.port,
    {
        self.port
    }

    /// The body of the authorization-code exchange; it needs the code.
    pub fn to_token_request_body(&self) -> (r: Result<TokenRequestBody, OAuthError>)
        ensures
            self.access_code is None ==> r == Err::<TokenRequestBody, _>(OAuthError::NoAccessCode),
            self.access_code is Some ==> ({
                &&& r is Ok
                &&& r->Ok_0.client_id@ == self.client_id@
                &&& r->Ok_0.redirect_uri@ == redirect_uri(self.port)
                &&& r->Ok_0.code@ == self.access_code->0@
                &&& r->Ok_0.grant_type@ == "authorization_code"@
            }),
    {
        match &self.access_code {
            Some(code) => Ok(
                TokenRequestBody {
                    client_id: self.client_id.clone(),
                    redirect_uri: self.get_redirect_uri(),
                    code: code.clone(),
                    grant_type: String::from_str("authorization_code"),
                },
            ),
            None => Err(OAuthError::NoAccessCode),
        }
    }

    /// The body of the refresh-token exchange for `refresh_token`.
    pub fn to_token_refresh_body(&self, refresh_token: &str) -> (r: RefreshTokenRequestBody)
        ensures
            r.client_id@ == self.client_id@,
            r.grant_type@ == "refresh_token"@,
            r.scope@ == self.scope@,
            r.refresh_token@ == refresh_token@,
    {
        RefreshTokenRequestBody {
            client_id: self.get_client_id(),
            grant_type: String::from_str("refresh_token"),
            scope: self.get_scope(),
            refresh_token: String::from_str(refresh_token),
        }
    }
}

fn field(name: &str, value: &String) -> (r: (String, String))
    ensures
        r.0@ == name@,
        r.1@ == value@,
{
    (String::from_str(name), value.clone())
}

impl TokenRequestBody {
    /// The form fields, in the order they are sent.
    pub fn form_fields(&self) -> (r: Vec<(String, String)>)
        ensures
            r@.len() == 4,
            r@[0].0@ == "client_id"@ && r@[0].1@ == self.client_id@,
            r@[1].0@ == "redirect_uri"@ && r@[1].1@ == self.redirect_uri@,
            r@[2].0@ == "code"@ && r@[2].1@ == self.code@,
            r@[3].0@ == "grant_type"@ && r@[3].1@ == self.grant_type@,
    {
        let mut r = Vec::new();
        r.push(field("client_id", &self.client_id));
        r.push(field("redirect_uri", &self.redirect_uri));
        r.push(field("code", &self.code));
        r.push(field("grant_type", &self.grant_type));
        r
    }
}

impl RefreshTokenRequestBody {
    /// The form fields, in the order they are sent.
    pub fn form_fields(&self) -> (r: Vec<(String, String)>)
        ensures
            r@.len() == 4,
            r@[0].0@ == "client_id"@ && r@[0].1@ == self.client_id@,
            r@[1].0@ == "grant_type"@ && r@[1].1@ == self.grant_type@,
            r@[2].0@ == "scope"@ && r@[2].1@ == self.scope@,
            r@[3].0@ == "refresh_token"@ && r@[3].1@ == self.refresh_token@,
    {
        let mut r = Vec::new();
        r.push(field("client_id", &self.client_id));
        r.push(field("grant_type", &self.grant_type));
        r.push(field("scope", &self.scope));
        r.push(field("refresh_token", &self.refresh_token));
        r
    }
}

/// An access credential: the access token authorizes API calls, the refresh
/// token its renewal. Both are present in every credential.
pub struct AccessToken {
    token_type: String,
    scope: String,
    expires_in: u64,
    ext_expires_in: u64,
    access_token: String,
    refresh_token: String,
}

impl AccessToken {
    #[verifier::type_invariant]
    spec fn tokens_present(self) -> bool {
        self.access_token@.len() > 0 && self.refresh_token@.len() > 0
    }

    pub closed spec fn spec_token_type(&self) -> Seq<char> {
        self.token_type@
    }

    pub closed spec fn spec_scope(&self) -> Seq<char> {
        self.scope@
    }

    pub closed spec fn spec_expires_in(&self) -> u64 {
        self.expires_in
    }

    pub closed spec fn spec_ext_expires_in(&self) -> u64 {
        self.ext_expires_in
    }

    pub closed spec fn spec_access_token(&self) -> Seq<char> {
        self.access_token@
    }

    pub closed spec fn spec_refresh_token(&self) -> Seq<char> {
        self.refresh_token@
    }

    /// A credential from the fields of a token response; it is refused
    /// without an access token or without a refresh token.
    pub fn new(
        token_type: String,
        scope: String,
        expires_in: u64,
        ext_expires_in: u64,
        access_token: String,
        refresh_token: String,
    ) -> (r: Result<AccessToken, CredentialError>)
        ensures
            access_token@.len() == 0 ==> r == Err::<AccessToken, _>(
                CredentialError::MissingAccessToken,
            ),
            access_token@.len() > 0 && refresh_token@.len() == 0 ==> r == Err::<AccessToken, _>(
                CredentialError::MissingRefreshToken,
            ),
            access_token@.len() > 0 && refresh_token@.len() > 0 ==> ({
                &&& r is Ok
                &&& r->Ok_0.spec_token_type() == token_type@
                &&& r->Ok_0.spec_scope() == scope@
                &&& r->Ok_0.spec_expires_in() == expires_in
                &&& r->Ok_0.spec_ext_expires_in() == ext_expires_in
                &&& r->Ok_0.spec_access_token() == access_token@
                &&& r->Ok_0.spec_refresh_token() == refresh_token@
            }),
    {
        if access_token.as_str().is_empty() {
            return Err(CredentialError::MissingAccessToken);
        }
        if refresh_token.as_str().is_empty() {
            return Err(CredentialError::MissingRefreshToken);
        }
        Ok(AccessToken { token_type, scope, expires_in, ext_expires_in, access_token, refresh_token })
    }
}

impl AccessToken {
    pub fn token_type(&self) -> (r: String)
        ensures
            r@ == self.spec_token_type(),
    {
        self.token_type.clone()
    }

    pub fn scope(&self) -> (r: String)
        ensures
            r@ == self.spec_scope(),
    {
        self.scope.clone()
    }

    /// Lifetime of the credential, in seconds from its issue.
    pub fn expires_in(&self) -> (r: u64)
        ensures
            r == self.spec_expires_in(),
    {
        self.expires_in
    }

    pub fn ext_expires_in(&self) -> (r: u64)
        ensures
            r == self.spec_ext_expires_in(),
    {
        self.ext_expires_in
    }

    pub fn access_token(&self) -> (r: String)
        ensures
            r@ == self.spec_access_token(),
            r@.len() > 0,
    {
        proof {
            use_type_invariant(self);
        }
        self.access_token.clone()
    }

    pub fn refresh_token(&self) -> (r: String)
        ensures
            r@ == self.spec_refresh_token(),
            r@.len() > 0,
    {
        proof {
            use_type_invariant(self);
        }
        self.refresh_token.clone()
    }
}

/// The wait before refreshing a credential that lives `expires_in` seconds,
/// `padding` seconds ahead of its expiry. A padding that is not shorter than
/// the lifetime leaves no positive wait and is refused.
pub fn refresh_wait_secs(expires_in: u64, padding: u64) -> (r: Result<u64, RefreshScheduleError>)
    ensures
        padding < expires_in ==> r == Ok::<u64, RefreshScheduleError>((expires_in - padding) as u64),
        padding >= expires_in ==> r == Err::<u64, _>(RefreshScheduleError::PaddingTooLarge),
{
    if padding < expires_in {
        Ok(expires_in - padding)
    } else {
        Err(RefreshScheduleError::PaddingTooLarge)
    }
}

/// The current credential: the poll loop reads its tokens, the refresh task
/// replaces it whole. A program that runs both at once keeps it behind a
/// lock, so that every reader sees one whole record.
pub struct SharedAccessToken {
    record: AccessToken,
}

impl SharedAccessToken {
    /// The credential now held.
    pub closed spec fn spec_record(&self) -> AccessToken {
        self.record
    }

    /// Holds `token` as the current credential.
    pub fn new(token: AccessToken) -> (r: SharedAccessToken)
        ensures
            r.spec_record() == token,
    {
        SharedAccessToken { record: token }
    }

    /// Replaces the whole credential with the refreshed one.
    pub fn apply_refresh(&mut self, payload: AccessToken)
        ensures
            final(self).spec_record() == payload,
    {
        self.record = payload;
    }

    /// Lifetime of the current credential, in seconds from its issue.
    pub fn get_expires_in(&self) -> (r: u64)
        ensures
            r == self.spec_record().spec_expires_in(),
    {
        self.record.expires_in()
    }

    /// The current refresh token.
    pub fn get_refresh_token(&self) -> (r: String)
        ensures
            r@ == self.spec_record().spec_refresh_token(),
            r@.len() > 0,
    {
        self.record.refresh_token()
    }

    /// The current access token.
    pub fn get_access_token(&self) -> (r: String)
        ensures
            r@ == self.spec_record().spec_access_token(),
            r@.len() > 0,
    {
        self.record.access_token()
    }
}

/// The page's reload delay, in milliseconds, for a listener that shuts down
/// after `shutdown_after_secs` seconds: 300 ms past the shutdown, saturating
/// at `u64::MAX`.
pub open spec fn reload_delay(shutdown_after_secs: u64) -> u64 {
    if shutdown_after_secs * 1000 + 300 <= u64::MAX {
        (shutdown_after_secs * 1000 + 300) as u64
    } else {
        u64::MAX
    }
}

/// The confirmation page shown once the redirect delivered `code`; it
/// reloads itself after `reload_after_ms` milliseconds.
pub open spec fn redirect_page_text(code: Seq<char>, reload_after_ms: u64) -> Seq<char> {
    "<!DOCTYPE html><html lang='en'><head><meta charset='UTF-8' /><title>OAuth</title></head><body><h1>Access Code</h1><p>Access code received!</p><code>"@
        + code + "</code></body></html><script>setTimeout(() => window.location.reload(), "@
        + decimal(reload_after_ms as nat) + ");</script>"@
}

/// The page's reload delay for a listener that shuts down after
/// `shutdown_after_secs` seconds.
pub fn page_reload_millis(shutdown_after_secs: u64) -> (r: u64)
    ensures
        r == reload_delay(shutdown_after_secs),
{
    if shutdown_after_secs <= (u64::MAX - 300) / 1000 {
        assert(shutdown_after_secs * 1000 + 300 <= u64::MAX) by (nonlinear_arith)
            requires
                shutdown_after_secs <= (u64::MAX - 300) / 1000,
        ;
        shutdown_after_secs * 1000 + 300
    } else {
        assert(shutdown_after_secs * 1000 + 300 > u64::MAX) by (nonlinear_arith)
            requires
                shutdown_after_secs > (u64::MAX - 300) / 1000,
        ;
        u64::MAX
    }
}

/// The confirmation page shown once the redirect delivered `code`.
pub fn redirect_page(code: &str, reload_after_ms: u64) -> (r: String)
    ensures
        r@ == redirect_page_text(code@, reload_after_ms),
{
    let mut r = String::from_str(
        "<!DOCTYPE html><html lang='en'><head><meta charset='UTF-8' /><title>OAuth</title></head><body><h1>Access Code</h1><p>Access code received!</p><code>",
    );
    r.append(code);
    r.append("</code></body></html><script>setTimeout(() => window.location.reload(), ");
    r.append(decimal_string(reload_after_ms).as_str());
    r.append(");</script>");
    r
}

} // verus!
