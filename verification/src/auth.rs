//! Sign-in of administrators through an OpenID Connect provider: the
//! configuration, the address to which a sign-in is sent, and the steps that
//! follow the provider's answer.

use crate::identifiers::random_uuid;
use vstd::prelude::*;
use vstd::string::StringExecFns;
use vstd::utf8::encode_utf8;

verus! {

/// The claims of an identity token.
#[derive(Debug)]
pub struct Claims {
    pub sub: String,
    pub name: Option<String>,
    pub email: Option<String>,
    pub iss: String,
    pub aud: String,
    pub exp: usize,
    pub iat: usize,
}

/// What the application knows of its provider.
#[derive(Clone, Debug)]
pub struct OidcConfig {
    pub client_id: String,
    pub client_secret: String,
    pub discovery_url: String,
    pub redirect_url: String,
    /// The provider's endpoints, once they have been fetched.
    pub discovery_config: Option<OidcDiscoveryConfig>,
}

/// The endpoints that a provider publishes.
#[derive(Clone, Debug)]
pub struct OidcDiscoveryConfig {
    pub issuer: String,
    pub authorization_endpoint: String,
    pub token_endpoint: String,
    pub userinfo_endpoint: String,
    pub end_session_endpoint: Option<String>,
    pub jwks_uri: String,
}

/// The provider's answer to the exchange of an authorization code.
#[derive(Debug)]
pub struct TokenResponse {
    pub access_token: String,
    pub token_type: String,
    pub expires_in: Option<u64>,
    pub id_token: Option<String>,
}

/// What the provider tells of the user who signed in.
#[derive(Debug)]
pub struct UserInfo {
    pub sub: String,
    pub email: Option<String>,
    pub name: Option<String>,
    pub preferred_username: Option<String>,
}

/// The parameters with which the provider sends the user back.
#[derive(Debug)]
pub struct AuthCallback {
    pub code: String,
    pub state: String,
}

/// Why a sign-in cannot be started.
#[derive(Clone, Copy, Debug, PartialEq, Eq, Structural)]
pub enum AuthError {
    /// The provider's endpoints have not been fetched.
    NotInitialized,
}

/// The cookie that marks a signed-in administrator.
#[derive(Debug)]
pub struct SessionCookie {
    pub name: String,
    pub value: String,
    pub path: String,
    pub http_only: bool,
    pub secure: bool,
}

/// What has happened since the provider sent the user back.
#[derive(Debug)]
pub enum CallbackEvent {
    /// The user came back with an authorization code.
    Received(AuthCallback),
    /// The exchange of the code ended, with a token or without.
    TokenExchanged(Option<TokenResponse>),
    /// The request for the user's data ended, with the data or without.
    UserInfoFetched(Option<UserInfo>),
    /// The administrator was found or created, or neither: the identifier
    /// of the administrator, or nothing.
    AdminResolved(Option<String>),
}

/// What is to be done next for a user whom the provider sent back.
#[derive(Debug)]
pub enum CallbackAction {
    ExchangeCode { code: String },
    FetchUserInfo { access_token: String },
    GetOrCreateAdmin { oidc_subject: String, name: String, email: String },
    /// Answer the user: send the browser to `location`, with a session
    /// cookie where the sign-in succeeded.
    Redirect { location: String, session: Option<SessionCookie> },
}

/// Whether `urlencoding` leaves the byte as it is: ASCII letters, digits,
/// `-`, `.`, `_` and `~`.
pub open spec fn is_unreserved(byte: u8) -> bool {
    ||| 0x30 <= byte <= 0x39
    ||| 0x41 <= byte <= 0x5a
    ||| 0x61 <= byte <= 0x7a
    ||| byte == 0x2d
    ||| byte == 0x2e
    ||| byte == 0x5f
    ||| byte == 0x7e
}

/// The upper-case hexadecimal digit of a value below 16.
pub open spec fn hex_digit(nibble: u8) -> char {
    if nibble < 10 {
        (0x30 + nibble) as char
    } else {
        (0x41 + nibble - 10) as char
    }
}

/// One byte as it stands in a percent-encoded text.
pub open spec fn percent_encoded_byte(byte: u8) -> Seq<char> {
    if is_unreserved(byte) {
        seq![byte as char]
    } else {
        seq!['%', hex_digit(byte / 16), hex_digit(byte % 16)]
    }
}

/// The percent-encoding of a sequence of bytes.
pub open spec fn percent_encoded(bytes: Seq<u8>) -> Seq<char>
    decreases bytes.len(),
{
    if bytes.len() == 0 {
        Seq::empty()
    } else {
        percent_encoded(bytes.drop_last()) + percent_encoded_byte(bytes.last())
    }
}

/// The percent-encoding of a text's UTF-8 bytes.
pub open spec fn url_encoded(text: Seq<char>) -> Seq<char> {
    percent_encoded(encode_utf8(text))
}

/// The address at the provider to which a sign-in is sent.
pub open spec fn authorization_url(
    authorization_endpoint: Seq<char>,
    client_id: Seq<char>,
    redirect_url: Seq<char>,
    state: Seq<char>,
) -> Seq<char> {
    authorization_endpoint + "?client_id="@ + url_encoded(client_id) + "&redirect_uri="@
        + url_encoded(redirect_url) + "&response_type=code&scope=openid email profile&state="@
        + url_encoded(state)
}

/// The value that a setting takes: the one found, or the default.
pub open spec fn setting(found: Option<String>, default: Seq<char>) -> Seq<char> {
    match found {
        Some(value) => value@,
        None => default,
    }
}

/// The name under which an administrator is kept: the user's name, else the
/// preferred user name, else a fixed one.
pub open spec fn admin_name(user_info: UserInfo) -> Seq<char> {
    match user_info.name {
        Some(name) => name@,
        None => match user_info.preferred_username {
            Some(username) => username@,
            None => "Admin User"@,
        },
    }
}

/// Whether `action` is what follows `event`.
pub open spec fn follows(event: CallbackEvent, action: CallbackAction) -> bool {
    match event {
        CallbackEvent::Received(params) => action matches CallbackAction::ExchangeCode { code }
            && code == params.code,
        CallbackEvent::TokenExchanged(Some(token)) => action matches CallbackAction::FetchUserInfo {
            access_token,
        } && access_token == token.access_token,
        CallbackEvent::TokenExchanged(None) => redirects_with_error(
            action,
            "/?error=token_exchange_failed"@,
        ),
        CallbackEvent::UserInfoFetched(Some(user_info)) => action
            matches CallbackAction::GetOrCreateAdmin { oidc_subject, name, email }
            && oidc_subject == user_info.sub && name@ == admin_name(user_info) && email@
            == setting(user_info.email, ""@),
        CallbackEvent::UserInfoFetched(None) => redirects_with_error(
            action,
            "/?error=userinfo_failed"@,
        ),
        CallbackEvent::AdminResolved(Some(admin_uuid)) => action matches CallbackAction::Redirect {
            location,
            session: Some(cookie),
        } && location@ == "/admin"@ && cookie.name@ == "admin_session"@ && cookie.value
            == admin_uuid && cookie.path@ == "/"@ && cookie.http_only && !cookie.secure,
        CallbackEvent::AdminResolved(None) => redirects_with_error(
            action,
            "/?error=admin_creation_failed"@,
        ),
    }
}

/// Whether `action` sends the browser to `location` without a session.
pub open spec fn redirects_with_error(action: CallbackAction, location: Seq<char>) -> bool {
    action matches CallbackAction::Redirect { location: target, session: None } && target@
        == location
}

/// `urlencoding::encode`, with its result as an owned text. It walks the
/// UTF-8 bytes of the text: a byte that is an ASCII letter, a digit, `-`,
/// `.`, `_` or `~` stays; every other byte becomes `%` and its two
/// upper-case hexadecimal digits.
#[verifier::external_body]
fn url_encode(text: &str) -> (encoded: String)
    ensures
        encoded@ == url_encoded(text@),
{
    urlencoding::encode(text).into_owned()
}

fn or_default(found: Option<String>, default: &str) -> (value: String)
    ensures
        value@ == setting(found, default@),
{
    match found {
        Some(value) => value,
        None => String::from_str(default),
    }
}

impl AuthError {
    /// The error in words.
    pub fn message(&self) -> (text: &'static str)
        ensures
            text@ == "OIDC not initialized - call initialize() first"@,
    {
        "OIDC not initialized - call initialize() first"
    }
}

impl OidcConfig {
    /// Builds the configuration from what the environment holds under
    /// `OIDC_CLIENT_ID`, `OIDC_CLIENT_SECRET`, `OIDC_DISCOVERY_URL` and
    /// `OIDC_REDIRECT_URL`. A missing value is empty, but for the redirect
    /// address, which then points to the local callback. The provider's
    /// endpoints are not known yet.
    pub fn from_env(
        client_id: Option<String>,
        client_secret: Option<String>,
        discovery_url: Option<String>,
        redirect_url: Option<String>,
    ) -> (config: OidcConfig)
        ensures
            config.client_id@ == setting(client_id, ""@),
            config.client_secret@ == setting(client_secret, ""@),
            config.discovery_url@ == setting(discovery_url, ""@),
            config.redirect_url@ == setting(
                redirect_url,
                "http://localhost:7007/auth/callback"@,
            ),
            config.discovery_config is None,
    {
        OidcConfig {
            client_id: or_default(client_id, ""),
            client_secret: or_default(client_secret, ""),
            discovery_url: or_default(discovery_url, ""),
            redirect_url: or_default(redirect_url, "http://localhost:7007/auth/callback"),
            discovery_config: None,
        }
    }

    /// The provider's endpoints, or the error where they have not been
    /// fetched.
    pub fn discovery(&self) -> (result: Result<&OidcDiscoveryConfig, AuthError>)
        ensures
            match result {
                Ok(config) => self.discovery_config == Some(*config),
                Err(error) => self.discovery_config is None && error == AuthError::NotInitialized,
            },
    {
        match &self.discovery_config {
            Some(config) => Ok(config),
            None => Err(AuthError::NotInitialized),
        }
    }

    /// The address to which the browser is sent for a sign-in: the
    /// provider's authorization endpoint with the client, the redirect
    /// address and `state` as percent-encoded parameters.
    pub fn get_authorization_url(&self, state: &str) -> (result: Result<String, AuthError>)
        ensures
            match result {
                Ok(url) => self.discovery_config matches Some(config) && url@
                    == authorization_url(
                    config.authorization_endpoint@,
                    self.client_id@,
                    self.redirect_url@,
                    state@,
                ),
                Err(error) => self.discovery_config is None && error == AuthError::NotInitialized,
            },
    {
        match self.discovery() {
            Ok(config) => {
                let mut url = config.authorization_endpoint.clone();
                url.append("?client_id=");
                url.append(url_encode(self.client_id.as_str()).as_str());
                url.append("&redirect_uri=");
                url.append(url_encode(self.redirect_url.as_str()).as_str());
                url.append("&response_type=code&scope=openid email profile&state=");
                url.append(url_encode(state).as_str());
                Ok(url)
            },
            Err(error) => Err(error),
        }
    }

    /// Where a sign-in that carries `state` is sent: to the provider, or
    /// back to the start page with an error where the provider's endpoints
    /// are not known.
    pub fn login_redirect(&self, state: &str) -> (location: String)
        ensures
            location@ == match self.discovery_config {
                Some(config) => authorization_url(
                    config.authorization_endpoint@,
                    self.client_id@,
                    self.redirect_url@,
                    state@,
                ),
                None => "/?error=oidc_config_error"@,
            },
    {
        match self.get_authorization_url(state) {
            Ok(auth_url) => auth_url,
            Err(_) => String::from_str("/?error=oidc_config_error"),
        }
    }
}

/// Starts a sign-in under a fresh random state and says where the browser is
/// sent: to the provider's authorization endpoint, or back to the start page
/// with an error where the provider's endpoints are not known.
pub fn login_handler(oidc_config: &OidcConfig) -> (location: String)
    ensures
        oidc_config.discovery_config is None ==> location@ == "/?error=oidc_config_error"@,
        oidc_config.discovery_config matches Some(config) ==> exists|state: Seq<char>|
            location@ == authorization_url(
                config.authorization_endpoint@,
                oidc_config.client_id@,
                oidc_config.redirect_url@,
                state,
            ),
{
    let state = random_uuid();
    oidc_config.login_redirect(state.as_str())
}

fn error_redirect(location: &str) -> (action: CallbackAction)
    ensures
        redirects_with_error(action, location@),
{
    CallbackAction::Redirect { location: String::from_str(location), session: None }
}

/// Says what follows an event in the handling of a user whom the provider
/// sent back. The code is exchanged for a token, the token for the user's
/// data, the data for an administrator, who is created at the first sign-in;
/// then the browser is sent to the administration pages with a session
/// cookie. A step that fails sends the browser back to the start page with
/// the error of that step.
pub fn callback_handler(event: CallbackEvent) -> (action: CallbackAction)
    ensures
        follows(event, action),
{
    match event {
        CallbackEvent::Received(params) => CallbackAction::ExchangeCode { code: params.code },
        CallbackEvent::TokenExchanged(Some(token)) => CallbackAction::FetchUserInfo {
            access_token: token.access_token,
        },
        CallbackEvent::TokenExchanged(None) => error_redirect("/?error=token_exchange_failed"),
        CallbackEvent::UserInfoFetched(Some(user_info)) => {
            let name = match user_info.name {
                Some(name) => name,
                None => or_default(user_info.preferred_username, "Admin User"),
            };
            let email = or_default(user_info.email, "");
            CallbackAction::GetOrCreateAdmin { oidc_subject: user_info.sub, name, email }
        },
        CallbackEvent::UserInfoFetched(None) => error_redirect("/?error=userinfo_failed"),
        CallbackEvent::AdminResolved(Some(admin_uuid)) => {
            let cookie = SessionCookie {
                name: String::from_str("admin_session"),
                value: admin_uuid,
                path: String::from_str("/"),
                http_only: true,
                secure: false,
            };
            CallbackAction::Redirect { location: String::from_str("/admin"), session: Some(cookie) }
        },
        CallbackEvent::AdminResolved(None) => error_redirect("/?error=admin_creation_failed"),
    }
}

} // verus!
