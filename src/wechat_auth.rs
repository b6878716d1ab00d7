//! The OAuth2 side: authorization links, request addresses for the token and profile
//! endpoints, the error probe on their answers, and CSRF state tokens.
use crate::text::{
    contains_text, lemma_occurs_between, lemma_occurs_widened, occurs_in, push_signed_decimal,
    same_text, signed_decimal,
};
use vstd::prelude::*;
use vstd::string::*;
use vstd::utf8::encode_utf8;

verus! {

/// The credentials of the application at the provider.
#[derive(Clone)]
pub struct WeChatConfig {
    pub app_id: String,
    pub app_secret: String,
    pub redirect_uri: String,
}

/// The grant returned by the token endpoint.
pub struct WeChatAuthResponse {
    pub access_token: String,
    pub expires_in: i64,
    pub refresh_token: String,
    pub openid: String,
    pub scope: String,
}

/// A user's profile, as returned by the profile endpoint.
pub struct WeChatUserInfo {
    pub openid: String,
    pub nickname: String,
    pub sex: i32,
    pub province: String,
    pub city: String,
    pub country: String,
    pub headimgurl: String,
    pub privilege: Vec<String>,
    pub unionid: Option<String>,
}

/// An application-level failure reported by the provider inside a successful response.
pub struct WeChatError {
    pub errcode: i32,
    pub errmsg: String,
}

/// Builds the provider's addresses for one application.
pub struct WeChatAuth {
    config: WeChatConfig,
}

/// Start of the authorization link, up to the application id.
pub const AUTH_URL_BASE: &'static str = "https://open.weixin.qq.com/connect/oauth2/authorize?appid=";

/// Between the application id and the encoded redirect address.
pub const AUTH_URL_REDIRECT: &'static str = "&redirect_uri=";

/// Between the redirect address and the state: the response type and the profile scope.
pub const AUTH_URL_SCOPE: &'static str = "&response_type=code&scope=snsapi_userinfo&state=";

/// The fragment that closes an authorization link.
pub const AUTH_URL_FRAGMENT: &'static str = "#wechat_redirect";

/// The scope that asks for the user's profile.
pub const PROFILE_SCOPE: &'static str = "snsapi_userinfo";

/// Start of a token request, up to the application id.
pub const TOKEN_URL_BASE: &'static str = "https://api.weixin.qq.com/sns/oauth2/access_token?appid=";

/// Between the application id and the secret.
pub const TOKEN_URL_SECRET: &'static str = "&secret=";

/// Between the secret and the code.
pub const TOKEN_URL_CODE: &'static str = "&code=";

/// End of a token request: the grant type.
pub const TOKEN_URL_GRANT: &'static str = "&grant_type=authorization_code";

/// Start of a profile request, up to the access token.
pub const USER_INFO_URL_BASE: &'static str = "https://api.weixin.qq.com/sns/userinfo?access_token=";

/// Between the access token and the user id.
pub const USER_INFO_URL_OPENID: &'static str = "&openid=";

/// End of a profile request: the language.
pub const USER_INFO_URL_LANG: &'static str = "&lang=zh_CN";

/// Start of a refresh request, up to the application id.
pub const REFRESH_URL_BASE: &'static str = "https://api.weixin.qq.com/sns/oauth2/refresh_token?appid=";

/// Between the application id and the refresh token.
pub const REFRESH_URL_TOKEN: &'static str = "&grant_type=refresh_token&refresh_token=";

/// The field that marks an error answer of the provider.
pub const ERROR_MARKER: &'static str = "errcode";

/// Start of the description of a provider error.
pub const PROVIDER_ERROR_PREFIX: &'static str = "WeChat API Error: ";

/// Between the code and the message of a provider error.
pub const PROVIDER_ERROR_SEPARATOR: &'static str = " - ";

/// Bytes that percent-encoding leaves as they are: ASCII letters, digits and `-_.~`.
pub open spec fn is_unreserved(b: u8) -> bool {
    (48 <= b <= 57) || (65 <= b <= 90) || (97 <= b <= 122) || b == 45 || b == 95 || b == 46
        || b == 126
}

/// Upper-case hexadecimal digit of a value below 16.
pub open spec fn upper_hex_digit(d: int) -> char {
    if d < 10 {
        crate::text::digit_char(d)
    } else if d == 10 {
        'A'
    } else if d == 11 {
        'B'
    } else if d == 12 {
        'C'
    } else if d == 13 {
        'D'
    } else if d == 14 {
        'E'
    } else {
        'F'
    }
}

/// Percent-encoding of bytes: an unreserved byte stands as its character, any other as `%`
/// and two upper-case hexadecimal digits.
pub open spec fn percent_encoded(b: Seq<u8>) -> Seq<char>
    decreases b.len(),
{
    if b.len() == 0 {
        Seq::empty()
    } else {
        let x = b.last();
        percent_encoded(b.drop_last()) + if is_unreserved(x) {
            seq![x as char]
        } else {
            seq!['%', upper_hex_digit(x as int / 16), upper_hex_digit(x as int % 16)]
        }
    }
}

/// Relies on urlencoding::encode: every byte of the text's UTF-8 form is percent-encoded
/// (`%` and two upper-case hexadecimal digits) but ASCII letters, digits and `-`, `_`, `.`,
/// `~`, which stand as they are.
#[verifier::external_body]
fn url_encode(s: &str) -> (r: String)
    ensures
        r@ == percent_encoded(encode_utf8(s@)),
{
    urlencoding::encode(s).into_owned()
}

/// Whether a character is one of a hyphenated UUID's: a lower-case hexadecimal digit.
pub open spec fn is_lower_hex(c: char) -> bool {
    ('0' <= c && c <= '9') || ('a' <= c && c <= 'f')
}

/// The shape of a hyphenated lower-case UUID: 36 characters, hyphens at offsets 8, 13, 18
/// and 23, and hexadecimal digits elsewhere.
pub open spec fn is_hyphenated_uuid(s: Seq<char>) -> bool {
    &&& s.len() == 36
    &&& forall|i: int|
        0 <= i < 36 ==> if i == 8 || i == 13 || i == 18 || i == 23 {
            s[i] == '-'
        } else {
            is_lower_hex(#[trigger] s[i])
        }
}

/// Relies on uuid's `Uuid::new_v4` and the `Display` form of `Uuid`, which is the hyphenated
/// lower-case one. The value is random: only its shape is promised.
#[verifier::external_body]
fn random_uuid_text() -> (r: String)
    ensures
        is_hyphenated_uuid(r@),
{
    uuid::Uuid::new_v4().to_string()
}

/// The authorization link for an application and a state.
pub open spec fn auth_url(app_id: Seq<char>, redirect_uri: Seq<char>, state: Seq<char>) -> Seq<
    char,
> {
    AUTH_URL_BASE@ + app_id + AUTH_URL_REDIRECT@ + percent_encoded(encode_utf8(redirect_uri))
        + AUTH_URL_SCOPE@ + state + AUTH_URL_FRAGMENT@
}

/// The description of a provider error: its code and its message.
pub open spec fn provider_error_text(code: i32, message: Seq<char>) -> Seq<char> {
    PROVIDER_ERROR_PREFIX@ + signed_decimal(code as int) + PROVIDER_ERROR_SEPARATOR@ + message
}

/// Why a call to the provider failed.
pub enum AuthError {
    /// The provider answered with an error code and message.
    Provider { code: i32, message: String },
    /// The request did not complete.
    Transport(String),
    /// The answer could not be decoded.
    Decode(String),
}

impl AuthError {
    /// The error for a provider's error answer.
    pub fn from_provider(err: WeChatError) -> (r: AuthError)
        ensures
            r == (AuthError::Provider { code: err.errcode, message: err.errmsg }),
    {
        AuthError::Provider { code: err.errcode, message: err.errmsg }
    }

    /// A readable description of the error.
    pub fn describe(&self) -> (r: String)
        ensures
            r@ == match self {
                AuthError::Provider { code, message } => provider_error_text(*code, message@),
                AuthError::Transport(m) => m@,
                AuthError::Decode(m) => m@,
            },
    {
        match self {
            AuthError::Provider { code, message } => {
                let mut out = String::from_str(PROVIDER_ERROR_PREFIX);
                push_signed_decimal(&mut out, *code as i64);
                out.append(PROVIDER_ERROR_SEPARATOR);
                out.append(message.as_str());
                out
            },
            AuthError::Transport(m) => m.clone(),
            AuthError::Decode(m) => m.clone(),
        }
    }
}

/// Whether a provider's answer is an error answer: one that mentions the error-code field.
/// The provider answers errors with a successful status, so the body is probed before it is
/// decoded as either shape.
pub fn has_error_marker(body: &str) -> (r: bool)
    ensures
        r == occurs_in(ERROR_MARKER@, body@),
{
    contains_text(body, ERROR_MARKER)
}

impl WeChatAuth {
    /// The application's credentials.
    pub closed spec fn credentials(&self) -> WeChatConfig {
        self.config
    }

    /// A client for the application with these credentials.
    pub fn new(config: WeChatConfig) -> (r: Self)
        ensures
            r.credentials() == config,
    {
        WeChatAuth { config }
    }

    /// The link that sends a user to the provider to authorize this application, carrying
    /// `state` back to the callback.
    pub fn get_auth_url(&self, state: &str) -> (r: String)
        ensures
            r@ == auth_url(
                self.credentials().app_id@,
                self.credentials().redirect_uri@,
                state@,
            ),
    {
        let encoded = url_encode(self.config.redirect_uri.as_str());
        let mut out = String::from_str(AUTH_URL_BASE);
        out.append(self.config.app_id.as_str());
        out.append(AUTH_URL_REDIRECT);
        out.append(encoded.as_str());
        out.append(AUTH_URL_SCOPE);
        out.append(state);
        out.append(AUTH_URL_FRAGMENT);
        out
    }

    /// The request that exchanges an authorization code for an access token.
    pub fn access_token_url(&self, code: &str) -> (r: String)
        ensures
            r@ == TOKEN_URL_BASE@ + self.credentials().app_id@ + TOKEN_URL_SECRET@
                + self.credentials().app_secret@ + TOKEN_URL_CODE@ + code@ + TOKEN_URL_GRANT@,
    {
        let mut out = String::from_str(TOKEN_URL_BASE);
        out.append(self.config.app_id.as_str());
        out.append(TOKEN_URL_SECRET);
        out.append(self.config.app_secret.as_str());
        out.append(TOKEN_URL_CODE);
        out.append(code);
        out.append(TOKEN_URL_GRANT);
        out
    }

    /// The request for the profile of user `openid`.
    pub fn user_info_url(access_token: &str, openid: &str) -> (r: String)
        ensures
            r@ == USER_INFO_URL_BASE@ + access_token@ + USER_INFO_URL_OPENID@ + openid@
                + USER_INFO_URL_LANG@,
    {
        let mut out = String::from_str(USER_INFO_URL_BASE);
        out.append(access_token);
        out.append(USER_INFO_URL_OPENID);
        out.append(openid);
        out.append(USER_INFO_URL_LANG);
        out
    }

    /// The request that renews a grant from its refresh token.
    pub fn refresh_token_url(&self, refresh_token: &str) -> (r: String)
        ensures
            r@ == REFRESH_URL_BASE@ + self.credentials().app_id@ + REFRESH_URL_TOKEN@
                + refresh_token@,
    {
        let mut out = String::from_str(REFRESH_URL_BASE);
        out.append(self.config.app_id.as_str());
        out.append(REFRESH_URL_TOKEN);
        out.append(refresh_token);
        out
    }

    /// A fresh random state token for one login attempt: a hyphenated UUID, so URL-safe.
    pub fn generate_state() -> (r: String)
        ensures
            is_hyphenated_uuid(r@),
    {
        random_uuid_text()
    }

    /// Whether the state received on the callback is the one that was issued.
    pub fn validate_state(expected: &str, received: &str) -> (r: bool)
        ensures
            r == (expected@ == received@),
    {
        same_text(expected, received)
    }
}

/// An authorization link holds the application id, the state as given, the profile scope,
/// and the redirect address percent-encoded.
pub proof fn lemma_auth_url_parts(app_id: Seq<char>, redirect_uri: Seq<char>, state: Seq<char>)
    ensures
        occurs_in(app_id, auth_url(app_id, redirect_uri, state)),
        occurs_in(state, auth_url(app_id, redirect_uri, state)),
        occurs_in(PROFILE_SCOPE@, auth_url(app_id, redirect_uri, state)),
        occurs_in(percent_encoded(encode_utf8(redirect_uri)), auth_url(app_id, redirect_uri, state)),
{
    let enc = percent_encoded(encode_utf8(redirect_uri));
    let url = auth_url(app_id, redirect_uri, state);
    lemma_occurs_between(app_id, AUTH_URL_BASE@, AUTH_URL_REDIRECT@ + enc + AUTH_URL_SCOPE@ + state + AUTH_URL_FRAGMENT@);
    assert(url == AUTH_URL_BASE@ + app_id + (AUTH_URL_REDIRECT@ + enc + AUTH_URL_SCOPE@ + state + AUTH_URL_FRAGMENT@));
    lemma_occurs_between(state, AUTH_URL_BASE@ + app_id + AUTH_URL_REDIRECT@ + enc + AUTH_URL_SCOPE@, AUTH_URL_FRAGMENT@);
    lemma_occurs_between(enc, AUTH_URL_BASE@ + app_id + AUTH_URL_REDIRECT@, AUTH_URL_SCOPE@ + state + AUTH_URL_FRAGMENT@);
    assert(url == (AUTH_URL_BASE@ + app_id + AUTH_URL_REDIRECT@) + enc + (AUTH_URL_SCOPE@ + state + AUTH_URL_FRAGMENT@));
    reveal_strlit("&response_type=code&scope=snsapi_userinfo&state=");
    reveal_strlit("snsapi_userinfo");
    assert(AUTH_URL_SCOPE@.subrange(26, 26 + PROFILE_SCOPE@.len() as int) == PROFILE_SCOPE@);
    lemma_occurs_widened(PROFILE_SCOPE@, AUTH_URL_SCOPE@, AUTH_URL_BASE@ + app_id + AUTH_URL_REDIRECT@ + enc, state + AUTH_URL_FRAGMENT@);
    assert(url == (AUTH_URL_BASE@ + app_id + AUTH_URL_REDIRECT@ + enc) + AUTH_URL_SCOPE@ + (state + AUTH_URL_FRAGMENT@));
}

/// Start of the message shown when the provider reports that authorization failed.
pub const DENIED_PREFIX: &'static str = "微信授权失败: ";

/// Message shown when the callback has no authorization code.
pub const MISSING_CODE_MESSAGE: &'static str = "缺少授权码";

/// Message shown when the callback has no state.
pub const MISSING_STATE_MESSAGE: &'static str = "缺少状态参数";

/// Message shown when the state was never issued or was already used.
pub const UNKNOWN_STATE_MESSAGE: &'static str = "无效的状态参数";

/// Why a login callback is refused before any call to the provider.
pub enum CallbackError {
    /// The provider reports that the user did not authorize the application.
    Denied(String),
    /// No authorization code came back.
    MissingCode,
    /// No state came back.
    MissingState,
    /// The state is not one that is waiting for its callback.
    UnknownState,
}

impl CallbackError {
    /// The message shown to the user.
    pub fn message(&self) -> (r: String)
        ensures
            r@ == match self {
                CallbackError::Denied(e) => DENIED_PREFIX@ + e@,
                CallbackError::MissingCode => MISSING_CODE_MESSAGE@,
                CallbackError::MissingState => MISSING_STATE_MESSAGE@,
                CallbackError::UnknownState => UNKNOWN_STATE_MESSAGE@,
            },
    {
        match self {
            CallbackError::Denied(e) => {
                let mut out = String::from_str(DENIED_PREFIX);
                out.append(e.as_str());
                out
            },
            CallbackError::MissingCode => String::from_str(MISSING_CODE_MESSAGE),
            CallbackError::MissingState => String::from_str(MISSING_STATE_MESSAGE),
            CallbackError::UnknownState => String::from_str(UNKNOWN_STATE_MESSAGE),
        }
    }
}

/// Reads the parameters of a login callback: a reported error comes first, then the code
/// and the state must both be present. Gives the code and the state.
pub fn callback_params(error: Option<String>, code: Option<String>, state: Option<String>) -> (r:
    Result<(String, String), CallbackError>)
    ensures
        match error {
            Some(e) => r == Err::<(String, String), CallbackError>(CallbackError::Denied(e)),
            None => match code {
                None => r == Err::<(String, String), CallbackError>(CallbackError::MissingCode),
                Some(c) => match state {
                    None => r == Err::<(String, String), CallbackError>(
                        CallbackError::MissingState,
                    ),
                    Some(s) => r == Ok::<(String, String), CallbackError>((c, s)),
                },
            },
        },
{
    if let Some(e) = error {
        return Err(CallbackError::Denied(e));
    }
    let c = match code {
        Some(c) => c,
        None => return Err(CallbackError::MissingCode),
    };
    match state {
        Some(s) => Ok((c, s)),
        None => Err(CallbackError::MissingState),
    }
}

} // verus!
