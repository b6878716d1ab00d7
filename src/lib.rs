//! OAuth2 login and webhook handling for the WeChat platform.
pub mod config;
pub mod text;
pub mod wechat_auth;
pub mod wechat_server;

pub use config::AppConfig;
pub use wechat_auth::{WeChatAuth, WeChatAuthResponse, WeChatConfig, WeChatUserInfo};
pub use wechat_server::{WeChatMessage, WeChatMessageQuery, WeChatServerConfig, WeChatVerifyQuery};
