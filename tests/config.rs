use wechat_login::AppConfig;

fn some(s: &str) -> Option<String> {
    Some(s.to_string())
}

fn sample() -> AppConfig {
    AppConfig::from_settings(some("id"), some("secret"), None, None, None, None, None).unwrap()
}

#[test]
fn defaults_fill_unset_values() {
    let c = sample();
    assert_eq!(c.wechat_app_id, "id");
    assert_eq!(c.wechat_app_secret, "secret");
    assert_eq!(c.wechat_redirect_uri, "http://localhost:3000/callback");
    assert_eq!(c.wechat_token, "your_wechat_token");
    assert_eq!(c.server_host, "0.0.0.0");
    assert_eq!(c.server_port, 3000);
    assert!(!c.dev_mode);
    assert_eq!(c.server_address(), "0.0.0.0:3000");
}

#[test]
fn required_values_are_reported_in_order() {
    let r = AppConfig::from_settings(None, None, None, None, None, None, None);
    assert_eq!(r.unwrap_err(), "WECHAT_APP_ID environment variable is required");
    let r = AppConfig::from_settings(some("id"), None, None, None, None, some("x"), None);
    assert_eq!(r.unwrap_err(), "WECHAT_APP_SECRET environment variable is required");
}

#[test]
fn port_parsing() {
    let port = |p: &str| AppConfig::from_settings(some("i"), some("s"), None, None, None, some(p), None);
    assert_eq!(port("8080").unwrap().server_port, 8080);
    assert_eq!(port("+80").unwrap().server_port, 80);
    assert_eq!(port("0").unwrap().server_port, 0);
    assert_eq!(port("65535").unwrap().server_port, 65535);
    assert_eq!(port("007").unwrap().server_port, 7);
    for bad in ["65536", "", "+", "-1", "80a", " 80", "99999999999999999999"] {
        assert_eq!(port(bad).unwrap_err(), "Invalid SERVER_PORT value");
    }
}

#[test]
fn dev_mode_flag() {
    let dev = |d: &str| AppConfig::from_settings(some("i"), some("s"), None, None, None, None, some(d)).unwrap().dev_mode;
    assert!(dev("true"));
    assert!(!dev("false"));
    assert!(!dev("TRUE"));
    assert!(!dev("yes"));
}

#[test]
fn explicit_values_are_kept() {
    let c = AppConfig::from_settings(
        some("id"),
        some("secret"),
        some("https://example.com/cb"),
        some("tok"),
        some("127.0.0.1"),
        some("8443"),
        some("true"),
    )
    .unwrap();
    assert_eq!(c.wechat_redirect_uri, "https://example.com/cb");
    assert_eq!(c.wechat_token, "tok");
    assert_eq!(c.server_address(), "127.0.0.1:8443");
    assert!(c.dev_mode);
}

#[test]
fn validation_reports_the_first_problem() {
    let mut c = sample();
    assert_eq!(c.validate(), Ok(()));
    c.wechat_redirect_uri = "ftp://x".to_string();
    assert_eq!(c.validate(), Err("WeChat Redirect URI must be a valid HTTP(S) URL".to_string()));
    c.wechat_app_secret = String::new();
    assert_eq!(c.validate(), Err("WeChat App Secret cannot be empty".to_string()));
    c.wechat_app_id = String::new();
    assert_eq!(c.validate(), Err("WeChat App ID cannot be empty".to_string()));
    let mut d = sample();
    d.wechat_redirect_uri = "https://secure".to_string();
    assert_eq!(d.validate(), Ok(()));
    d.wechat_redirect_uri = "htt".to_string();
    assert!(d.validate().is_err());
}
