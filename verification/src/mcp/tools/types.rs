//! Tool request and response types, as plain data. The process boundary
//! serializes copies of these; the library only computes with them.

use vstd::prelude::*;

use crate::telegram::types::Channel;

verus! {

/// Response of the status tool. The token balance is in millitokens, one
/// thousandth of a token.
#[derive(Debug, Clone)]
pub struct StatusResponse {
    pub telegram_connected: bool,
    pub rate_limiter_millitokens: u64,
    pub server_version: String,
}

/// Request of the channel-listing tool.
#[derive(Debug, Clone)]
pub struct GetChannelsRequest {
    pub limit: Option<u32>,
    pub offset: Option<u32>,
}

/// Response of the channel-listing tool.
#[derive(Debug, Clone)]
pub struct ChannelsResponse {
    pub channels: Vec<Channel>,
    pub total: usize,
    pub has_more: bool,
}

/// Request of the channel-detail tool.
#[derive(Debug, Clone)]
pub struct GetChannelInfoRequest {
    pub channel_identifier: String,
}

/// Request of the link-generation tool.
#[derive(Debug, Clone)]
pub struct GenerateLinkRequest {
    pub channel_id: String,
    pub message_id: i64,
    pub include_tg_protocol: Option<bool>,
}

/// Response of the link-generation tool.
#[derive(Debug, Clone)]
pub struct MessageLinkResponse {
    pub channel_id: String,
    pub message_id: i64,
    pub https_link: String,
    pub tg_protocol_link: Option<String>,
}

/// Request of the open-in-app tool.
#[derive(Debug, Clone)]
pub struct OpenMessageRequest {
    pub channel_id: String,
    pub message_id: i64,
    pub use_tg_protocol: Option<bool>,
}

/// Response of the open-in-app tool.
#[derive(Debug, Clone)]
pub struct OpenMessageResponse {
    pub success: bool,
    pub message: String,
    pub link_used: String,
    pub app_opened: bool,
}

/// Request of the search tool.
#[derive(Debug, Clone)]
pub struct SearchRequest {
    pub query: String,
    pub channel_id: Option<String>,
    pub hours_back: Option<u32>,
    pub limit: Option<u32>,
}

} // verus!
