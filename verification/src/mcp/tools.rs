//! Tool request and response shapes.

pub mod types;

pub use types::{
    ChannelsResponse, GenerateLinkRequest, GetChannelInfoRequest, GetChannelsRequest,
    MessageLinkResponse, OpenMessageRequest, OpenMessageResponse, SearchRequest, StatusResponse,
};
