pub mod types;

pub use types::{
    Channel, ChannelId, ChannelName, MediaType, Message, MessageId, QueryMetadata, SearchParams,
    SearchResult, UserId, Username,
};
