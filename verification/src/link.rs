//! Deep links for a message in a channel, in the two formats Telegram
//! understands. Both are pure string renderings of the two identifiers and
//! are byte-for-byte determined by them.

use vstd::prelude::*;
use vstd::string::StringExecFns;

use crate::telegram::types::{ChannelId, MessageId};
use crate::text::dec_int;

verus! {

/// The web link for a message: `https://t.me/c/<channel>/<message>?single`.
pub open spec fn https_link_spec(channel: int, message: int) -> Seq<char> {
    "https://t.me/c/"@ + dec_int(channel) + "/"@ + dec_int(message) + "?single"@
}

/// The protocol link for a message:
/// `tg://resolve?channel=<channel>&post=<message>&single`.
pub open spec fn tg_link_spec(channel: int, message: int) -> Seq<char> {
    "tg://resolve?channel="@ + dec_int(channel) + "&post="@ + dec_int(message) + "&single"@
}

/// Generated deep links for a message in a channel.
#[derive(Debug, Clone)]
pub struct MessageLink {
    pub channel_id: ChannelId,
    pub message_id: MessageId,
    pub https_link: String,
    pub tg_protocol_link: String,
}

impl MessageLink {
    /// Renders both links for a message in a channel.
    pub fn new(channel_id: ChannelId, message_id: MessageId) -> (r: Self)
        ensures
            r.channel_id == channel_id,
            r.message_id == message_id,
            r.https_link@ == https_link_spec(channel_id.spec_get(), message_id.spec_get()),
            r.tg_protocol_link@ == tg_link_spec(channel_id.spec_get(), message_id.spec_get()),
    {
        let channel_digits = channel_id.to_string();
        let message_digits = message_id.to_string();

        let mut https_link = String::from_str("https://t.me/c/");
        https_link.append(channel_digits.as_str());
        https_link.append("/");
        https_link.append(message_digits.as_str());
        https_link.append("?single");

        let mut tg_protocol_link = String::from_str("tg://resolve?channel=");
        tg_protocol_link.append(channel_digits.as_str());
        tg_protocol_link.append("&post=");
        tg_protocol_link.append(message_digits.as_str());
        tg_protocol_link.append("&single");

        MessageLink { channel_id, message_id, https_link, tg_protocol_link }
    }
}

} // verus!
