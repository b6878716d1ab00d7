//! Application settings: their defaults, the reading of the port and the mode flag, and the
//! checks made before the server starts.
use crate::text::{decimal_digits, is_prefix_of, parse_u16, parsed_u16, push_decimal, same_text, starts_with_text};
use vstd::prelude::*;
use vstd::string::*;

verus! {

/// The settings of the server.
#[derive(Debug, Clone)]
pub struct AppConfig {
    pub wechat_app_id: String,
    pub wechat_app_secret: String,
    pub wechat_redirect_uri: String,
    pub wechat_token: String,
    pub server_host: String,
    pub server_port: u16,
    pub dev_mode: bool,
}

/// Redirect address used when none is set.
pub const DEFAULT_REDIRECT_URI: &'static str = "http://localhost:3000/callback";

/// Webhook token used when none is set.
pub const DEFAULT_TOKEN: &'static str = "your_wechat_token";

/// Bind host used when none is set.
pub const DEFAULT_HOST: &'static str = "0.0.0.0";

/// Port used when none is set.
pub const DEFAULT_PORT: u16 = 3000;

/// The mode flag's text that turns development mode on.
pub const DEV_MODE_ON: &'static str = "true";

/// Error when the application id is not set.
pub const MISSING_APP_ID: &'static str = "WECHAT_APP_ID environment variable is required";

/// Error when the application secret is not set.
pub const MISSING_APP_SECRET: &'static str = "WECHAT_APP_SECRET environment variable is required";

/// Error when the port is not a valid port number.
pub const INVALID_PORT: &'static str = "Invalid SERVER_PORT value";

/// Error when the application id is empty.
pub const EMPTY_APP_ID: &'static str = "WeChat App ID cannot be empty";

/// Error when the application secret is empty.
pub const EMPTY_APP_SECRET: &'static str = "WeChat App Secret cannot be empty";

/// Error when the redirect address is not an HTTP(S) address.
pub const BAD_REDIRECT_URI: &'static str = "WeChat Redirect URI must be a valid HTTP(S) URL";

/// The scheme that a redirect address must start with.
pub const HTTP_SCHEME: &'static str = "http";

/// The first problem found in a configuration, if any.
pub open spec fn config_problem(c: AppConfig) -> Option<Seq<char>> {
    if c.wechat_app_id@.len() == 0 {
        Some(EMPTY_APP_ID@)
    } else if c.wechat_app_secret@.len() == 0 {
        Some(EMPTY_APP_SECRET@)
    } else if !is_prefix_of(HTTP_SCHEME@, c.wechat_redirect_uri@) {
        Some(BAD_REDIRECT_URI@)
    } else {
        None
    }
}

/// A setting's text, or the default where it is not set.
pub open spec fn or_default(v: Option<String>, default: Seq<char>) -> Seq<char> {
    match v {
        Some(s) => s@,
        None => default,
    }
}

fn text_or(v: Option<String>, default: &str) -> (r: String)
    ensures
        r@ == or_default(v, default@),
{
    match v {
        Some(s) => s,
        None => String::from_str(default),
    }
}

impl AppConfig {
    /// Builds the settings from the values that are set, with the defaults for the others.
    /// The application id and secret are required; the port, where set, must be a valid
    /// port number; the mode flag turns development mode on when it reads `true`.
    pub fn from_settings(
        app_id: Option<String>,
        app_secret: Option<String>,
        redirect_uri: Option<String>,
        token: Option<String>,
        host: Option<String>,
        port: Option<String>,
        dev_mode: Option<String>,
    ) -> (r: Result<AppConfig, String>)
        ensures
            match r {
                Ok(c) => {
                    &&& app_id == Some(c.wechat_app_id)
                    &&& app_secret == Some(c.wechat_app_secret)
                    &&& c.wechat_redirect_uri@ == or_default(redirect_uri, DEFAULT_REDIRECT_URI@)
                    &&& c.wechat_token@ == or_default(token, DEFAULT_TOKEN@)
                    &&& c.server_host@ == or_default(host, DEFAULT_HOST@)
                    &&& match port {
                        Some(p) => parsed_u16(p@) == Some(c.server_port),
                        None => c.server_port == DEFAULT_PORT,
                    }
                    &&& c.dev_mode == (dev_mode is Some && dev_mode->0@ == DEV_MODE_ON@)
                },
                Err(e) => if app_id is None {
                    e@ == MISSING_APP_ID@
                } else if app_secret is None {
                    e@ == MISSING_APP_SECRET@
                } else {
                    port is Some && parsed_u16(port->0@) is None && e@ == INVALID_PORT@
                },
            },
    {
        let wechat_app_id = match app_id {
            Some(v) => v,
            None => return Err(String::from_str(MISSING_APP_ID)),
        };
        let wechat_app_secret = match app_secret {
            Some(v) => v,
            None => return Err(String::from_str(MISSING_APP_SECRET)),
        };
        let server_port = match &port {
            Some(p) => match parse_u16(p.as_str()) {
                Some(n) => n,
                None => return Err(String::from_str(INVALID_PORT)),
            },
            None => DEFAULT_PORT,
        };
        let dev = match &dev_mode {
            Some(d) => same_text(d.as_str(), DEV_MODE_ON),
            None => false,
        };
        Ok(AppConfig {
            wechat_app_id,
            wechat_app_secret,
            wechat_redirect_uri: text_or(redirect_uri, DEFAULT_REDIRECT_URI),
            wechat_token: text_or(token, DEFAULT_TOKEN),
            server_host: text_or(host, DEFAULT_HOST),
            server_port,
            dev_mode: dev,
        })
    }

    /// The address to bind: `host:port`.
    pub fn server_address(&self) -> (r: String)
        ensures
            r@ == self.server_host@ + ":"@ + decimal_digits(self.server_port as nat),
    {
        let mut out = self.server_host.clone();
        out.append(":");
        push_decimal(&mut out, self.server_port as u64);
        out
    }

    /// Checks that the credentials are set and that the redirect address is an HTTP(S) one.
    pub fn validate(&self) -> (r: Result<(), String>)
        ensures
            match r {
                Ok(_) => config_problem(*self) is None,
                Err(e) => config_problem(*self) == Some(e@),
            },
    {
        if self.wechat_app_id.as_str().is_empty() {
            return Err(String::from_str(EMPTY_APP_ID));
        }
        if self.wechat_app_secret.as_str().is_empty() {
            return Err(String::from_str(EMPTY_APP_SECRET));
        }
        if !starts_with_text(self.wechat_redirect_uri.as_str(), HTTP_SCHEME) {
            return Err(String::from_str(BAD_REDIRECT_URI));
        }
        Ok(())
    }
}

} // verus!
