use wechat_login::wechat_server::{
    compute_signature, render_reply, render_text_response, text_reply_for, Reply, WebhookError,
    DEFAULT_TEXT_REPLY, GREETING_REPLY, HELP_REPLY, LOGIN_REPLY,
};
use wechat_login::{WeChatMessage, WeChatMessageQuery, WeChatServerConfig, WeChatVerifyQuery};

fn server() -> WeChatServerConfig {
    WeChatServerConfig::new("t".to_string(), "app".to_string(), "secret".to_string())
}

fn message(msg_type: &str, content: Option<&str>, event: Option<&str>, key: Option<&str>) -> WeChatMessage {
    WeChatMessage {
        to_user_name: "gh_account".to_string(),
        from_user_name: "user_openid".to_string(),
        create_time: 1_700_000_000,
        msg_type: msg_type.to_string(),
        content: content.map(|s| s.to_string()),
        msg_id: Some(1),
        event: event.map(|s| s.to_string()),
        event_key: key.map(|s| s.to_string()),
    }
}

fn envelope(to: &str, from: &str, content: &str) -> (String, String) {
    (
        format!("<xml>\n<ToUserName><![CDATA[{}]]></ToUserName>\n<FromUserName><![CDATA[{}]]></FromUserName>\n<CreateTime>", to, from),
        format!("</CreateTime>\n<MsgType><![CDATA[text]]></MsgType>\n<Content><![CDATA[{}]]></Content>\n</xml>", content),
    )
}

fn assert_reply(xml: &str, to: &str, from: &str, content: &str) {
    let (head, tail) = envelope(to, from, content);
    assert!(xml.starts_with(&head), "{}", xml);
    assert!(xml.ends_with(&tail), "{}", xml);
    let time = &xml[head.len()..xml.len() - tail.len()];
    assert!(!time.is_empty() && time.chars().all(|c| c.is_ascii_digit()));
}

#[test]
fn signature_matches_sha1_of_sorted_join() {
    assert_eq!(compute_signature("t", "123", "n"), "6cc5db791312f1e5459c19f5a03583e5af6f10fa");
    assert_eq!(
        compute_signature("abc", "timestampX", "nonceY"),
        "c2675ff7f89c43d98bffccaf239ca155a6967fa8"
    );
}

#[test]
fn signature_ignores_argument_order() {
    let expected = "c2675ff7f89c43d98bffccaf239ca155a6967fa8";
    assert_eq!(compute_signature("timestampX", "abc", "nonceY"), expected);
    assert_eq!(compute_signature("nonceY", "timestampX", "abc"), expected);
    assert_eq!(compute_signature("abc", "nonceY", "timestampX"), expected);
    assert_eq!(compute_signature("timestampX", "nonceY", "abc"), expected);
    assert_eq!(compute_signature("nonceY", "abc", "timestampX"), expected);
}

#[test]
fn verify_accepts_only_the_exact_triple() {
    let s = server();
    let sig = "6cc5db791312f1e5459c19f5a03583e5af6f10fa";
    assert!(s.verify_signature(sig, "123", "n"));
    assert!(!s.verify_signature("6cc5db791312f1e5459c19f5a03583e5af6f10fb", "123", "n"));
    assert!(!s.verify_signature(sig, "124", "n"));
    assert!(!s.verify_signature(sig, "123", "m"));
    assert!(!s.verify_signature(&sig.to_uppercase(), "123", "n"));
    assert!(!s.verify_signature("", "123", "n"));
}

#[test]
fn handshake_echoes_on_valid_signature() {
    let query = WeChatVerifyQuery {
        signature: "6cc5db791312f1e5459c19f5a03583e5af6f10fa".to_string(),
        timestamp: "123".to_string(),
        nonce: "n".to_string(),
        echostr: "hello".to_string(),
    };
    assert_eq!(server().handle_verify(query), Ok("hello".to_string()));
}

#[test]
fn handshake_fails_when_timestamp_changes() {
    let query = WeChatVerifyQuery {
        signature: "6cc5db791312f1e5459c19f5a03583e5af6f10fa".to_string(),
        timestamp: "124".to_string(),
        nonce: "n".to_string(),
        echostr: "hello".to_string(),
    };
    assert_eq!(server().handle_verify(query), Err("签名验证失败".to_string()));
}

#[test]
fn greeting_text_is_answered_to_the_sender() {
    let xml = server().handle_message(message("text", Some("你好"), None, None));
    assert_reply(&xml, "user_openid", "gh_account", "你好！欢迎使用我们的服务！");
    match server().dispatch(&message("text", Some("你好"), None, None)) {
        Reply::Text { to_user, from_user, content } => {
            assert_eq!(to_user, "user_openid");
            assert_eq!(from_user, "gh_account");
            assert_eq!(content, GREETING_REPLY);
        }
        Reply::Acknowledge => panic!("expected a text reply"),
    }
}

#[test]
fn text_lookup_ignores_case_and_surrounding_space() {
    let s = server();
    let lookups = [
        ("hello", GREETING_REPLY),
        ("  HeLLo \n", GREETING_REPLY),
        ("HI", GREETING_REPLY),
        ("帮助", HELP_REPLY),
        (" Help", HELP_REPLY),
        ("登录", LOGIN_REPLY),
        ("hello there", DEFAULT_TEXT_REPLY),
    ];
    for (content, expected) in lookups {
        let xml = s.handle_text_message(&message("text", Some(content), None, None));
        assert_reply(&xml, "user_openid", "gh_account", expected);
    }
}

#[test]
fn unknown_or_missing_text_gets_the_default_reply() {
    let s = server();
    let xml = s.handle_message(message("text", Some("what is this"), None, None));
    assert_reply(&xml, "user_openid", "gh_account", "感谢您的消息！如需帮助，请回复\"帮助\"。");
    let xml = s.handle_message(message("text", None, None, None));
    assert_reply(&xml, "user_openid", "gh_account", DEFAULT_TEXT_REPLY);
    assert_eq!(text_reply_for("nothing"), DEFAULT_TEXT_REPLY);
    assert_eq!(text_reply_for("help"), HELP_REPLY);
}

#[test]
fn unsubscribe_gets_bare_success() {
    let s = server();
    let out = s.handle_message(message("event", None, Some("unsubscribe"), None));
    assert_eq!(out, "success");
    assert!(!out.contains("<xml>"));
    assert_eq!(s.handle_unsubscribe_event(&message("event", None, Some("unsubscribe"), None)), "success");
    match s.dispatch(&message("event", None, Some("unsubscribe"), None)) {
        Reply::Acknowledge => {}
        Reply::Text { .. } => panic!("expected an acknowledgement"),
    }
}

#[test]
fn events_and_menu_clicks() {
    let s = server();
    let xml = s.handle_event_message(&message("event", None, Some("subscribe"), None));
    assert_reply(&xml, "user_openid", "gh_account", "欢迎关注我们！\n\n您可以：\n- 回复\"登录\"获取登录链接\n- 回复\"帮助\"查看更多功能");
    let xml = s.handle_subscribe_event(&message("event", None, Some("subscribe"), None));
    assert!(xml.contains("欢迎关注我们！"));
    let xml = s.handle_message(message("event", None, Some("CLICK"), Some("LOGIN")));
    assert_reply(&xml, "user_openid", "gh_account", "请访问：http://your-domain.com 进行登录");
    let xml = s.handle_message(message("event", None, Some("CLICK"), Some("HELP")));
    assert_reply(&xml, "user_openid", "gh_account", "如需帮助，请联系客服");
    let xml = s.handle_message(message("event", None, Some("CLICK"), Some("OTHER")));
    assert_reply(&xml, "user_openid", "gh_account", "感谢您的操作！");
    let xml = s.handle_message(message("event", None, Some("CLICK"), None));
    assert_reply(&xml, "user_openid", "gh_account", "感谢您的操作！");
    let xml = s.handle_message(message("event", None, Some("VIEW"), None));
    assert_reply(&xml, "user_openid", "gh_account", "感谢您的关注！");
    let xml = s.handle_message(message("event", None, None, None));
    assert_reply(&xml, "user_openid", "gh_account", "感谢您的关注！");
}

#[test]
fn other_message_types() {
    let s = server();
    let xml = s.handle_message(message("image", None, None, None));
    assert_reply(&xml, "user_openid", "gh_account", "收到您的图片，感谢分享！");
    let xml = s.handle_message(message("voice", None, None, None));
    assert_reply(&xml, "user_openid", "gh_account", "收到您的语音消息！");
    let xml = s.handle_message(message("video", None, None, None));
    assert_reply(&xml, "user_openid", "gh_account", "感谢您的消息！");
}

#[test]
fn rendering_is_exact() {
    assert_eq!(
        render_text_response("to", "from", 1_700_000_000, "hi"),
        "<xml>\n<ToUserName><![CDATA[to]]></ToUserName>\n<FromUserName><![CDATA[from]]></FromUserName>\n<CreateTime>1700000000</CreateTime>\n<MsgType><![CDATA[text]]></MsgType>\n<Content><![CDATA[hi]]></Content>\n</xml>"
    );
    assert!(render_text_response("a", "b", -5, "c").contains("<CreateTime>-5</CreateTime>"));
    assert!(render_text_response("a", "b", 0, "c").contains("<CreateTime>0</CreateTime>"));
    assert!(render_text_response("a", "b", i64::MIN, "c").contains("<CreateTime>-9223372036854775808</CreateTime>"));
    assert_eq!(render_reply(&Reply::Acknowledge, 42), "success");
    let r = Reply::Text { to_user: "u".to_string(), from_user: "g".to_string(), content: "x".to_string() };
    assert!(render_reply(&r, 42).contains("<CreateTime>42</CreateTime>"));
}

#[test]
fn create_text_response_uses_current_time() {
    let xml = server().create_text_response("u", "g", "body");
    assert_reply(&xml, "u", "g", "body");
}

fn push_query(signature: &str) -> WeChatMessageQuery {
    WeChatMessageQuery {
        signature: signature.to_string(),
        timestamp: "123".to_string(),
        nonce: "n".to_string(),
        openid: None,
        encrypt_type: None,
        msg_signature: None,
    }
}

#[test]
fn push_with_bad_signature_is_forbidden() {
    let r = server().handle_push(&push_query("bad"), Some(message("text", Some("hi"), None, None)));
    match r {
        Err(e) => {
            assert!(matches!(e, WebhookError::VerificationFailed));
            assert_eq!(e.status_code(), 403);
        }
        Ok(_) => panic!("expected a refusal"),
    }
}

#[test]
fn push_with_malformed_body_is_a_decode_failure() {
    let r = server().handle_push(&push_query("6cc5db791312f1e5459c19f5a03583e5af6f10fa"), None);
    match r {
        Err(e) => {
            assert!(matches!(e, WebhookError::DecodeFailed));
            assert_eq!(e.status_code(), 400);
        }
        Ok(_) => panic!("expected a decode failure"),
    }
}

#[test]
fn push_with_valid_signature_is_answered() {
    let r = server().handle_push(
        &push_query("6cc5db791312f1e5459c19f5a03583e5af6f10fa"),
        Some(message("text", Some("你好"), None, None)),
    );
    match r {
        Ok(xml) => assert_reply(&xml, "user_openid", "gh_account", GREETING_REPLY),
        Err(_) => panic!("expected a reply"),
    }
}
