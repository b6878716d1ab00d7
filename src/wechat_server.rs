//! The webhook side: signature checks on inbound requests and replies to pushed messages.
use crate::text::{
    digit_char, push_signed_decimal, same_text, signed_decimal, lemma_text_le_antisymmetric, lemma_text_le_total, lemma_text_le_transitive,
    text_le, text_le_exec,
};
use vstd::prelude::*;
use vstd::string::*;

verus! {

/// Query parameters of the server-verification handshake (GET).
pub struct WeChatVerifyQuery {
    pub signature: String,
    pub timestamp: String,
    pub nonce: String,
    pub echostr: String,
}

/// Query parameters of a pushed message (POST).
pub struct WeChatMessageQuery {
    pub signature: String,
    pub timestamp: String,
    pub nonce: String,
    pub openid: Option<String>,
    pub encrypt_type: Option<String>,
    pub msg_signature: Option<String>,
}

/// A message or event pushed by the platform, as decoded from its XML body.
pub struct WeChatMessage {
    pub to_user_name: String,
    pub from_user_name: String,
    pub create_time: u64,
    pub msg_type: String,
    pub content: Option<String>,
    pub msg_id: Option<u64>,
    pub event: Option<String>,
    pub event_key: Option<String>,
}

/// Webhook settings: the shared token that signs requests, and the account's credentials.
pub struct WeChatServerConfig {
    pub token: String,
    pub app_id: String,
    pub app_secret: String,
    pub encoding_aes_key: Option<String>,
}

/// SHA-1 digest of the UTF-8 encoding of a text.
pub uninterp spec fn sha1_of_text(s: Seq<char>) -> Seq<u8>;

/// Relies on sha1's `Digest::digest` for `Sha1`: the 20-byte SHA-1 digest of the text's
/// UTF-8 bytes.
#[verifier::external_body]
fn sha1_digest(text: &str) -> (r: Vec<u8>)
    ensures
        r@ == sha1_of_text(text@),
        r@.len() == 20,
{
    <sha1::Sha1 as sha1::Digest>::digest(text).to_vec()
}

/// Lowercase hexadecimal digit of a value below 16.
pub open spec fn hex_digit(d: int) -> char {
    if d < 10 {
        digit_char(d)
    } else if d == 10 {
        'a'
    } else if d == 11 {
        'b'
    } else if d == 12 {
        'c'
    } else if d == 13 {
        'd'
    } else if d == 14 {
        'e'
    } else {
        'f'
    }
}

/// Lowercase hexadecimal text of bytes: two digits per byte, high nibble first.
pub open spec fn hex_of(b: Seq<u8>) -> Seq<char>
    decreases b.len(),
{
    if b.len() == 0 {
        Seq::empty()
    } else {
        hex_of(b.drop_last()) + seq![hex_digit(b.last() as int / 16), hex_digit(b.last() as int % 16)]
    }
}

/// Relies on hex::encode: two lowercase hexadecimal digits per byte, high nibble first.
#[verifier::external_body]
fn hex_encode(b: &[u8]) -> (r: String)
    ensures
        r@ == hex_of(b@),
{
    hex::encode(b)
}

/// The three texts concatenated in lexicographic order.
pub open spec fn ordered_concat(a: Seq<char>, b: Seq<char>, c: Seq<char>) -> Seq<char> {
    if text_le(a, b) {
        if text_le(b, c) {
            a + b + c
        } else if text_le(a, c) {
            a + c + b
        } else {
            c + a + b
        }
    } else {
        if text_le(a, c) {
            b + a + c
        } else if text_le(b, c) {
            b + c + a
        } else {
            c + b + a
        }
    }
}

/// The signature of a request: the hex SHA-1 digest of the shared token, the timestamp and
/// the nonce, sorted and joined.
pub open spec fn signature_of(token: Seq<char>, timestamp: Seq<char>, nonce: Seq<char>) -> Seq<char> {
    hex_of(sha1_of_text(ordered_concat(token, timestamp, nonce)))
}

proof fn lemma_order_facts(a: Seq<char>, b: Seq<char>, c: Seq<char>)
    ensures
        text_le(a, b) || text_le(b, a),
        text_le(a, c) || text_le(c, a),
        text_le(b, c) || text_le(c, b),
        text_le(a, b) && text_le(b, a) ==> a == b,
        text_le(a, c) && text_le(c, a) ==> a == c,
        text_le(b, c) && text_le(c, b) ==> b == c,
        text_le(a, b) && text_le(b, c) ==> text_le(a, c),
        text_le(a, c) && text_le(c, b) ==> text_le(a, b),
        text_le(b, a) && text_le(a, c) ==> text_le(b, c),
        text_le(b, c) && text_le(c, a) ==> text_le(b, a),
        text_le(c, a) && text_le(a, b) ==> text_le(c, b),
        text_le(c, b) && text_le(b, a) ==> text_le(c, a),
{
    lemma_text_le_total(a, b);
    lemma_text_le_total(a, c);
    lemma_text_le_total(b, c);
    if text_le(a, b) && text_le(b, a) {
        lemma_text_le_antisymmetric(a, b);
    }
    if text_le(a, c) && text_le(c, a) {
        lemma_text_le_antisymmetric(a, c);
    }
    if text_le(b, c) && text_le(c, b) {
        lemma_text_le_antisymmetric(b, c);
    }
    if text_le(a, b) && text_le(b, c) {
        lemma_text_le_transitive(a, b, c);
    }
    if text_le(a, c) && text_le(c, b) {
        lemma_text_le_transitive(a, c, b);
    }
    if text_le(b, a) && text_le(a, c) {
        lemma_text_le_transitive(b, a, c);
    }
    if text_le(b, c) && text_le(c, a) {
        lemma_text_le_transitive(b, c, a);
    }
    if text_le(c, a) && text_le(a, b) {
        lemma_text_le_transitive(c, a, b);
    }
    if text_le(c, b) && text_le(b, a) {
        lemma_text_le_transitive(c, b, a);
    }
}

/// The signature does not depend on the order in which the token, the timestamp and the
/// nonce are given: the texts are sorted before they are hashed.
pub proof fn lemma_signature_order_invariant(a: Seq<char>, b: Seq<char>, c: Seq<char>)
    ensures
        signature_of(a, b, c) == signature_of(a, c, b),
        signature_of(a, b, c) == signature_of(b, a, c),
        signature_of(a, b, c) == signature_of(b, c, a),
        signature_of(a, b, c) == signature_of(c, a, b),
        signature_of(a, b, c) == signature_of(c, b, a),
{
    lemma_order_facts(a, b, c);
    assert(ordered_concat(a, b, c) == ordered_concat(a, c, b));
    assert(ordered_concat(a, b, c) == ordered_concat(b, a, c));
    assert(ordered_concat(a, b, c) == ordered_concat(b, c, a));
    assert(ordered_concat(a, b, c) == ordered_concat(c, a, b));
    assert(ordered_concat(a, b, c) == ordered_concat(c, b, a));
}

fn join3(a: &str, b: &str, c: &str) -> (r: String)
    ensures
        r@ == a@ + b@ + c@,
{
    let mut s = String::from_str(a);
    s.append(b);
    s.append(c);
    s
}

/// Computes the signature that the platform attaches to a request signed with `token`.
pub fn compute_signature(token: &str, timestamp: &str, nonce: &str) -> (r: String)
    ensures
        r@ == signature_of(token@, timestamp@, nonce@),
{
    let (a, b, c) = (token, timestamp, nonce);
    let joined = if text_le_exec(a, b) {
        if text_le_exec(b, c) {
            join3(a, b, c)
        } else if text_le_exec(a, c) {
            join3(a, c, b)
        } else {
            join3(c, a, b)
        }
    } else {
        if text_le_exec(a, c) {
            join3(b, a, c)
        } else if text_le_exec(b, c) {
            join3(b, c, a)
        } else {
            join3(c, b, a)
        }
    };
    let digest = sha1_digest(joined.as_str());
    hex_encode(digest.as_slice())
}

/// Reply to a greeting.
pub const GREETING_REPLY: &'static str = "你好！欢迎使用我们的服务！";

/// Reply to a request for help: the list of commands.
pub const HELP_REPLY: &'static str = "可用命令：\n- 你好：问候\n- 帮助：显示此帮助\n- 登录：获取登录链接";

/// Reply to a request for the login link.
pub const LOGIN_REPLY: &'static str = "请访问我们的网站进行登录：http://your-domain.com";

/// Reply to any other text.
pub const DEFAULT_TEXT_REPLY: &'static str = "感谢您的消息！如需帮助，请回复\"帮助\"。";

/// Welcome sent to a new follower.
pub const SUBSCRIBE_REPLY: &'static str =
    "欢迎关注我们！\n\n您可以：\n- 回复\"登录\"获取登录链接\n- 回复\"帮助\"查看更多功能";

/// Reply to the login menu entry.
pub const CLICK_LOGIN_REPLY: &'static str = "请访问：http://your-domain.com 进行登录";

/// Reply to the help menu entry.
pub const CLICK_HELP_REPLY: &'static str = "如需帮助，请联系客服";

/// Reply to any other menu entry.
pub const CLICK_DEFAULT_REPLY: &'static str = "感谢您的操作！";

/// Reply to any other event.
pub const EVENT_DEFAULT_REPLY: &'static str = "感谢您的关注！";

/// Reply to an image.
pub const IMAGE_REPLY: &'static str = "收到您的图片，感谢分享！";

/// Reply to a voice message.
pub const VOICE_REPLY: &'static str = "收到您的语音消息！";

/// Reply to a message of any other type.
pub const OTHER_REPLY: &'static str = "感谢您的消息！";

/// Error text of a handshake whose signature does not match.
pub const SIGNATURE_MISMATCH: &'static str = "签名验证失败";

/// Plain acknowledgement for an event that gets no reply.
pub const ACKNOWLEDGEMENT: &'static str = "success";

/// Opening of a text reply's envelope, up to the recipient.
pub const XML_TO_OPEN: &'static str = "<xml>\n<ToUserName><![CDATA[";

/// Between the recipient and the sender.
pub const XML_FROM_OPEN: &'static str = "]]></ToUserName>\n<FromUserName><![CDATA[";

/// Between the sender and the creation time.
pub const XML_TIME_OPEN: &'static str = "]]></FromUserName>\n<CreateTime>";

/// Between the creation time and the content.
pub const XML_CONTENT_OPEN: &'static str = "</CreateTime>\n<MsgType><![CDATA[text]]></MsgType>\n<Content><![CDATA[";

/// Close of the envelope, after the content.
pub const XML_CLOSE: &'static str = "]]></Content>\n</xml>";

/// Text without leading and trailing white space.
pub uninterp spec fn trimmed_of(s: Seq<char>) -> Seq<char>;

/// Relies on `str::trim`: the text without leading and trailing white space.
#[verifier::external_body]
fn trim_text(s: &str) -> (r: &str)
    ensures
        r@ == trimmed_of(s@),
{
    s.trim()
}

/// Text in lower case.
pub uninterp spec fn lower_of(s: Seq<char>) -> Seq<char>;

/// Relies on `str::to_lowercase`: the text in lower case; the result depends on the
/// characters alone.
#[verifier::external_body]
fn lowercase_text(s: &str) -> (r: String)
    ensures
        r@ == lower_of(s@),
{
    s.to_lowercase()
}

/// Relies on chrono's `Utc::now` and `DateTime::timestamp`: the current Unix time in
/// seconds. Nothing is promised of the value.
#[verifier::external_body]
fn unix_now() -> (r: i64) {
    chrono::Utc::now().timestamp()
}

/// The reply to a text, looked up by its normalised content.
pub open spec fn text_reply(key: Seq<char>) -> Seq<char> {
    if key == "你好"@ || key == "hello"@ || key == "hi"@ {
        GREETING_REPLY@
    } else if key == "帮助"@ || key == "help"@ {
        HELP_REPLY@
    } else if key == "登录"@ {
        LOGIN_REPLY@
    } else {
        DEFAULT_TEXT_REPLY@
    }
}

/// The key under which a text is looked up: its content trimmed and in lower case.
pub open spec fn text_key(msg: WeChatMessage) -> Seq<char> {
    lower_of(
        trimmed_of(
            match msg.content {
                Some(c) => c@,
                None => Seq::empty(),
            },
        ),
    )
}

/// The reply to a menu click, looked up by the entry's key.
pub open spec fn click_reply(key: Option<String>) -> Seq<char> {
    match key {
        Some(k) => if k@ == "LOGIN"@ {
            CLICK_LOGIN_REPLY@
        } else if k@ == "HELP"@ {
            CLICK_HELP_REPLY@
        } else {
            CLICK_DEFAULT_REPLY@
        },
        None => CLICK_DEFAULT_REPLY@,
    }
}

/// The text that answers an event, or `None` where the event gets only an acknowledgement.
pub open spec fn event_reply(msg: WeChatMessage) -> Option<Seq<char>> {
    match msg.event {
        Some(e) => if e@ == "subscribe"@ {
            Some(SUBSCRIBE_REPLY@)
        } else if e@ == "unsubscribe"@ {
            None
        } else if e@ == "CLICK"@ {
            Some(click_reply(msg.event_key))
        } else {
            Some(EVENT_DEFAULT_REPLY@)
        },
        None => Some(EVENT_DEFAULT_REPLY@),
    }
}

/// The text that answers a message, or `None` where it gets only an acknowledgement.
pub open spec fn message_reply(msg: WeChatMessage) -> Option<Seq<char>> {
    if msg.msg_type@ == "text"@ {
        Some(text_reply(text_key(msg)))
    } else if msg.msg_type@ == "event"@ {
        event_reply(msg)
    } else if msg.msg_type@ == "image"@ {
        Some(IMAGE_REPLY@)
    } else if msg.msg_type@ == "voice"@ {
        Some(VOICE_REPLY@)
    } else {
        Some(OTHER_REPLY@)
    }
}

/// An outbound reply: a plain acknowledgement, or a text sent back to the user.
pub enum Reply {
    Acknowledge,
    Text { to_user: String, from_user: String, content: String },
}

/// The value of a [`Reply`].
pub enum ReplyView {
    Acknowledge,
    Text { to_user: Seq<char>, from_user: Seq<char>, content: Seq<char> },
}

impl View for Reply {
    type V = ReplyView;

    open spec fn view(&self) -> ReplyView {
        match self {
            Reply::Acknowledge => ReplyView::Acknowledge,
            Reply::Text { to_user, from_user, content } => ReplyView::Text {
                to_user: to_user@,
                from_user: from_user@,
                content: content@,
            },
        }
    }
}

/// The reply to `msg` that carries `body`: addressed back to the sender, from the account
/// that received it.
pub open spec fn reply_to(msg: WeChatMessage, body: Option<Seq<char>>) -> ReplyView {
    match body {
        Some(b) => ReplyView::Text {
            to_user: msg.from_user_name@,
            from_user: msg.to_user_name@,
            content: b,
        },
        None => ReplyView::Acknowledge,
    }
}

/// The reply that a message gets.
pub open spec fn dispatched(msg: WeChatMessage) -> ReplyView {
    reply_to(msg, message_reply(msg))
}

/// The XML envelope of a text reply.
pub open spec fn text_xml(
    to_user: Seq<char>,
    from_user: Seq<char>,
    create_time: i64,
    content: Seq<char>,
) -> Seq<char> {
    XML_TO_OPEN@ + to_user + XML_FROM_OPEN@ + from_user + XML_TIME_OPEN@ + signed_decimal(
        create_time as int,
    ) + XML_CONTENT_OPEN@ + content + XML_CLOSE@
}

/// The wire form of a reply: its XML envelope, or the bare acknowledgement.
pub open spec fn reply_xml(r: ReplyView, create_time: i64) -> Seq<char> {
    match r {
        ReplyView::Acknowledge => ACKNOWLEDGEMENT@,
        ReplyView::Text { to_user, from_user, content } => text_xml(
            to_user,
            from_user,
            create_time,
            content,
        ),
    }
}

/// Looks up the reply to a text by its normalised content.
pub fn text_reply_for(key: &str) -> (r: &'static str)
    ensures
        r@ == text_reply(key@),
{
    if same_text(key, "你好") || same_text(key, "hello") || same_text(key, "hi") {
        GREETING_REPLY
    } else if same_text(key, "帮助") || same_text(key, "help") {
        HELP_REPLY
    } else if same_text(key, "登录") {
        LOGIN_REPLY
    } else {
        DEFAULT_TEXT_REPLY
    }
}

/// Looks up the reply to a menu click by the entry's key.
pub fn click_reply_for(key: &Option<String>) -> (r: &'static str)
    ensures
        r@ == click_reply(*key),
{
    match key {
        Some(k) => if same_text(k.as_str(), "LOGIN") {
            CLICK_LOGIN_REPLY
        } else if same_text(k.as_str(), "HELP") {
            CLICK_HELP_REPLY
        } else {
            CLICK_DEFAULT_REPLY
        },
        None => CLICK_DEFAULT_REPLY,
    }
}

/// The key under which the text of `msg` is looked up.
pub fn normalized_content(msg: &WeChatMessage) -> (r: String)
    ensures
        r@ == text_key(*msg),
{
    proof {
        reveal_strlit("");
    }
    let content: &str = match &msg.content {
        Some(c) => c.as_str(),
        None => "",
    };
    assert(content@ == match msg.content {
        Some(c) => c@,
        None => Seq::<char>::empty(),
    });
    lowercase_text(trim_text(content))
}

/// Renders the XML envelope of a text reply.
pub fn render_text_response(to_user: &str, from_user: &str, create_time: i64, content: &str) -> (r:
    String)
    ensures
        r@ == text_xml(to_user@, from_user@, create_time, content@),
{
    let mut out = String::from_str(XML_TO_OPEN);
    out.append(to_user);
    out.append(XML_FROM_OPEN);
    out.append(from_user);
    out.append(XML_TIME_OPEN);
    push_signed_decimal(&mut out, create_time);
    out.append(XML_CONTENT_OPEN);
    out.append(content);
    out.append(XML_CLOSE);
    out
}

/// Renders a reply in its wire form.
pub fn render_reply(reply: &Reply, create_time: i64) -> (r: String)
    ensures
        r@ == reply_xml(reply@, create_time),
{
    match reply {
        Reply::Acknowledge => String::from_str(ACKNOWLEDGEMENT),
        Reply::Text { to_user, from_user, content } => render_text_response(
            to_user.as_str(),
            from_user.as_str(),
            create_time,
            content.as_str(),
        ),
    }
}

fn text_reply_to(msg: &WeChatMessage, body: &str) -> (r: Reply)
    ensures
        r@ == reply_to(*msg, Some(body@)),
{
    Reply::Text {
        to_user: msg.from_user_name.clone(),
        from_user: msg.to_user_name.clone(),
        content: String::from_str(body),
    }
}

/// Why a pushed message was turned away.
pub enum WebhookError {
    /// The request's signature does not match.
    VerificationFailed,
    /// The body is not a well-formed message.
    DecodeFailed,
}

impl WebhookError {
    /// The HTTP status that answers the request.
    pub fn status_code(&self) -> (r: u16)
        ensures
            r == match self {
                WebhookError::VerificationFailed => 403u16,
                WebhookError::DecodeFailed => 400u16,
            },
    {
        match self {
            WebhookError::VerificationFailed => 403,
            WebhookError::DecodeFailed => 400,
        }
    }
}

impl WeChatServerConfig {
    /// Settings with the given token and credentials, and no message-encryption key.
    pub fn new(token: String, app_id: String, app_secret: String) -> (r: Self)
        ensures
            r.token == token,
            r.app_id == app_id,
            r.app_secret == app_secret,
            r.encoding_aes_key is None,
    {
        WeChatServerConfig { token, app_id, app_secret, encoding_aes_key: None }
    }

    /// Whether `signature` is the signature of `timestamp` and `nonce` under this token.
    pub fn verify_signature(&self, signature: &str, timestamp: &str, nonce: &str) -> (r: bool)
        ensures
            r == (signature@ == signature_of(self.token@, timestamp@, nonce@)),
    {
        let calculated = compute_signature(self.token.as_str(), timestamp, nonce);
        crate::text::same_text(calculated.as_str(), signature)
    }
}


impl WeChatServerConfig {
    /// Answers the server-verification handshake: the echo string where the signature
    /// matches.
    pub fn handle_verify(&self, query: WeChatVerifyQuery) -> (r: Result<String, String>)
        ensures
            match r {
                Ok(echo) => query.signature@ == signature_of(
                    self.token@,
                    query.timestamp@,
                    query.nonce@,
                ) && echo == query.echostr,
                Err(e) => query.signature@ != signature_of(
                    self.token@,
                    query.timestamp@,
                    query.nonce@,
                ) && e@ == SIGNATURE_MISMATCH@,
            },
    {
        if self.verify_signature(query.signature.as_str(), query.timestamp.as_str(), query.nonce.as_str()) {
            Ok(query.echostr)
        } else {
            Err(String::from_str(SIGNATURE_MISMATCH))
        }
    }
}

fn text_message_reply(msg: &WeChatMessage) -> (r: Reply)
    ensures
        r@ == reply_to(*msg, Some(text_reply(text_key(*msg)))),
{
    let key = normalized_content(msg);
    text_reply_to(msg, text_reply_for(key.as_str()))
}

fn event_message_reply(msg: &WeChatMessage) -> (r: Reply)
    ensures
        r@ == reply_to(*msg, event_reply(*msg)),
{
    match &msg.event {
        Some(e) => if same_text(e.as_str(), "subscribe") {
            text_reply_to(msg, SUBSCRIBE_REPLY)
        } else if same_text(e.as_str(), "unsubscribe") {
            Reply::Acknowledge
        } else if same_text(e.as_str(), "CLICK") {
            text_reply_to(msg, click_reply_for(&msg.event_key))
        } else {
            text_reply_to(msg, EVENT_DEFAULT_REPLY)
        },
        None => text_reply_to(msg, EVENT_DEFAULT_REPLY),
    }
}

fn render_now(reply: &Reply) -> (r: String)
    ensures
        exists|t: i64| r@ == reply_xml(reply@, t),
{
    let t = unix_now();
    let r = render_reply(reply, t);
    assert(r@ == reply_xml(reply@, t));
    r
}

impl WeChatServerConfig {
    /// Decides the reply to a message by its type, and for texts, events and menu clicks by
    /// their content.
    pub fn dispatch(&self, msg: &WeChatMessage) -> (r: Reply)
        ensures
            r@ == dispatched(*msg),
    {
        let t = msg.msg_type.as_str();
        if same_text(t, "text") {
            text_message_reply(msg)
        } else if same_text(t, "event") {
            event_message_reply(msg)
        } else if same_text(t, "image") {
            text_reply_to(msg, IMAGE_REPLY)
        } else if same_text(t, "voice") {
            text_reply_to(msg, VOICE_REPLY)
        } else {
            text_reply_to(msg, OTHER_REPLY)
        }
    }

    /// Renders a text reply stamped with the current time.
    pub fn create_text_response(&self, to_user: &str, from_user: &str, content: &str) -> (r:
        String)
        ensures
            exists|t: i64| r@ == text_xml(to_user@, from_user@, t, content@),
    {
        let t = unix_now();
        let r = render_text_response(to_user, from_user, t, content);
        assert(r@ == text_xml(to_user@, from_user@, t, content@));
        r
    }

    /// Answers a text message.
    pub fn handle_text_message(&self, msg: &WeChatMessage) -> (r: String)
        ensures
            exists|t: i64| r@ == reply_xml(reply_to(*msg, Some(text_reply(text_key(*msg)))), t),
    {
        render_now(&text_message_reply(msg))
    }

    /// Answers a new follower with the welcome text.
    pub fn handle_subscribe_event(&self, msg: &WeChatMessage) -> (r: String)
        ensures
            exists|t: i64| r@ == reply_xml(reply_to(*msg, Some(SUBSCRIBE_REPLY@)), t),
    {
        render_now(&text_reply_to(msg, SUBSCRIBE_REPLY))
    }

    /// Acknowledges an unfollow: the platform passes no reply on.
    pub fn handle_unsubscribe_event(&self, _msg: &WeChatMessage) -> (r: String)
        ensures
            r@ == ACKNOWLEDGEMENT@,
    {
        String::from_str(ACKNOWLEDGEMENT)
    }

    /// Answers an event.
    pub fn handle_event_message(&self, msg: &WeChatMessage) -> (r: String)
        ensures
            exists|t: i64| r@ == reply_xml(reply_to(*msg, event_reply(*msg)), t),
    {
        render_now(&event_message_reply(msg))
    }

    /// Answers a pushed message in its wire form.
    pub fn handle_message(&self, msg: WeChatMessage) -> (r: String)
        ensures
            exists|t: i64| r@ == reply_xml(dispatched(msg), t),
    {
        let reply = self.dispatch(&msg);
        render_now(&reply)
    }

    /// Answers a pushed message: the signature is checked first, then the body, which the
    /// caller has decoded (`None` where it was malformed), is dispatched.
    pub fn handle_push(&self, query: &WeChatMessageQuery, parsed: Option<WeChatMessage>) -> (r:
        Result<String, WebhookError>)
        ensures
            match r {
                Ok(s) => query.signature@ == signature_of(
                    self.token@,
                    query.timestamp@,
                    query.nonce@,
                ) && parsed is Some && exists|t: i64| s@ == reply_xml(dispatched(parsed->0), t),
                Err(e) => if query.signature@ == signature_of(
                    self.token@,
                    query.timestamp@,
                    query.nonce@,
                ) {
                    parsed is None && e is DecodeFailed
                } else {
                    e is VerificationFailed
                },
            },
    {
        if !self.verify_signature(query.signature.as_str(), query.timestamp.as_str(), query.nonce.as_str()) {
            return Err(WebhookError::VerificationFailed);
        }
        match parsed {
            Some(msg) => Ok(self.handle_message(msg)),
            None => Err(WebhookError::DecodeFailed),
        }
    }
}

/// Every reply goes back to the sender of the message it answers, from the account that
/// received it; only an acknowledgement carries no addresses.
pub proof fn lemma_reply_swaps_parties(msg: WeChatMessage)
    ensures
        match dispatched(msg) {
            ReplyView::Text { to_user, from_user, content } => to_user == msg.from_user_name@
                && from_user == msg.to_user_name@,
            ReplyView::Acknowledge => true,
        },
{
}

/// A text whose normalised content is a greeting is answered with the greeting, addressed
/// back to its sender.
pub proof fn lemma_greeting_reply(msg: WeChatMessage)
    requires
        msg.msg_type@ == "text"@,
        text_key(msg) == "你好"@ || text_key(msg) == "hello"@ || text_key(msg) == "hi"@,
    ensures
        dispatched(msg) == (ReplyView::Text {
            to_user: msg.from_user_name@,
            from_user: msg.to_user_name@,
            content: GREETING_REPLY@,
        }),
{
}

/// An unfollow event is answered with the bare acknowledgement, whatever the time, and with
/// no XML envelope.
pub proof fn lemma_unsubscribe_acknowledged(msg: WeChatMessage, t: i64)
    requires
        msg.msg_type@ == "event"@,
        msg.event is Some,
        msg.event->0@ == "unsubscribe"@,
    ensures
        dispatched(msg) == ReplyView::Acknowledge,
        reply_xml(dispatched(msg), t) == ACKNOWLEDGEMENT@,
        ACKNOWLEDGEMENT@ != text_xml(msg.from_user_name@, msg.to_user_name@, t, SUBSCRIBE_REPLY@),
{
    reveal_strlit("event");
    reveal_strlit("text");
    reveal_strlit("subscribe");
    reveal_strlit("unsubscribe");
    reveal_strlit("success");
    reveal_strlit("<xml>\n<ToUserName><![CDATA[");
    assert("event"@.len() != "text"@.len());
    assert("unsubscribe"@.len() != "subscribe"@.len());
    assert(ACKNOWLEDGEMENT@[0] != text_xml(msg.from_user_name@, msg.to_user_name@, t, SUBSCRIBE_REPLY@)[0]);
}

/// A text whose normalised content matches no keyword gets the default reply, never an
/// error.
pub proof fn lemma_unknown_text_default(msg: WeChatMessage)
    requires
        msg.msg_type@ == "text"@,
        text_key(msg) != "你好"@,
        text_key(msg) != "hello"@,
        text_key(msg) != "hi"@,
        text_key(msg) != "帮助"@,
        text_key(msg) != "help"@,
        text_key(msg) != "登录"@,
    ensures
        dispatched(msg) == (ReplyView::Text {
            to_user: msg.from_user_name@,
            from_user: msg.to_user_name@,
            content: DEFAULT_TEXT_REPLY@,
        }),
{
}

} // verus!
