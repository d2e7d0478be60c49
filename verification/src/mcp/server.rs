//! The tool dispatcher: validation, normalization and admission control for
//! each tool operation, independent of the transport.
//!
//! Every operation is a function from a plain request to a response or a
//! typed error. The only billable operation is the search: it validates and
//! clamps its parameters first, then spends one rate-limiter token, and only
//! then may the caller hand the parameters to the data provider. The
//! provider call itself happens outside the library; what comes back is
//! passed back in as plain data.

use vstd::prelude::*;
use vstd::string::StringExecFns;

use crate::error::Error;
use crate::link::{https_link_spec, tg_link_spec, MessageLink};
use crate::mcp::tools::types::{
    ChannelsResponse, GenerateLinkRequest, GetChannelsRequest, MessageLinkResponse,
    OpenMessageRequest, SearchRequest, StatusResponse,
};
use crate::rate_limiter::RateLimiter;
use crate::telegram::types::{Channel, ChannelId, MessageId, SearchParams};
use crate::text::{dec_int, str_i64_val, str_is_i64, trim_spec, trim_str, parse_i64};

verus! {

/// The error text for a channel identifier that does not name a positive
/// 64-bit integer: either it is not a number at all, or it is out of range.
pub open spec fn channel_id_invalid_msg(s: Seq<char>) -> Seq<char> {
    if !str_is_i64(s) {
        "Invalid channel_id: '"@ + s + "' is not a valid number"@
    } else {
        "Invalid channel_id: "@ + "invalid input: "@ + "Channel ID must be positive, got "@
            + dec_int(str_i64_val(s))
    }
}

/// The error text for a message identifier that is not positive.
pub open spec fn message_id_invalid_msg(id: int) -> Seq<char> {
    "Invalid message_id: "@ + "invalid input: "@ + "Message ID must be positive, got "@ + dec_int(
        id,
    )
}

/// Whether a link request carries a channel string naming a positive
/// integer and a positive message identifier.
pub open spec fn link_request_valid(channel_id: Seq<char>, message_id: int) -> bool {
    &&& str_is_i64(channel_id)
    &&& str_i64_val(channel_id) > 0
    &&& message_id > 0
}

/// The error text of an invalid link request: the channel is reported
/// before the message identifier.
pub open spec fn link_invalid_msg(channel_id: Seq<char>, message_id: int) -> Seq<char> {
    if !(str_is_i64(channel_id) && str_i64_val(channel_id) > 0) {
        channel_id_invalid_msg(channel_id)
    } else {
        message_id_invalid_msg(message_id)
    }
}

/// Parses a channel identifier string into a validated [`ChannelId`].
///
/// Succeeds exactly when the string names a positive 64-bit integer; the
/// error text says which of the two checks failed.
pub fn parse_channel_id(s: &str) -> (r: Result<ChannelId, Error>)
    ensures
        r is Ok <==> str_is_i64(s@) && str_i64_val(s@) > 0,
        r matches Ok(c) ==> c.spec_get() == str_i64_val(s@),
        r matches Err(e) ==> (e matches Error::InvalidInput(m) && m@ == channel_id_invalid_msg(
            s@,
        )),
{
    match parse_i64(s) {
        None => {
            let mut m = String::from_str("Invalid channel_id: '");
            m.append(s);
            m.append("' is not a valid number");
            proof {
                assert(m@ =~= channel_id_invalid_msg(s@));
            }
            Err(Error::InvalidInput(m))
        },
        Some(v) => {
            match ChannelId::new(v) {
                Ok(c) => Ok(c),
                Err(e) => {
                    let mut m = String::from_str("Invalid channel_id: ");
                    let detail = e.message();
                    m.append(detail.as_str());
                    proof {
                        assert(m@ =~= channel_id_invalid_msg(s@));
                    }
                    Err(Error::InvalidInput(m))
                },
            }
        },
    }
}

/// Validates a message identifier, reporting a non-positive one with the
/// link-request error text.
fn validate_message_id(id: i64) -> (r: Result<MessageId, Error>)
    ensures
        r is Ok <==> id > 0,
        r matches Ok(m) ==> m.spec_get() == id,
        r matches Err(e) ==> (e matches Error::InvalidInput(m) && m@ == message_id_invalid_msg(
            id as int,
        )),
{
    match MessageId::new(id) {
        Ok(m) => Ok(m),
        Err(e) => {
            let mut m = String::from_str("Invalid message_id: ");
            let detail = e.message();
            m.append(detail.as_str());
            proof {
                assert(m@ =~= message_id_invalid_msg(id as int));
            }
            Err(Error::InvalidInput(m))
        },
    }
}

/// The status tool: reports the connection flag it is handed, the limiter's
/// fresh balance in millitokens, and the server version.
pub fn check_mcp_status(connected: bool, limiter: &RateLimiter, version: &str) -> (r:
    StatusResponse)
    ensures
        r.telegram_connected == connected,
        r.server_version@ == version@,
        r.rate_limiter_millitokens <= 1000 * limiter.max_tokens_spec(),
{
    StatusResponse {
        telegram_connected: connected,
        rate_limiter_millitokens: limiter.available_tokens(),
        server_version: version.to_owned(),
    }
}

/// The pagination of a channel-listing request: the requested limit and
/// offset, defaulting to twenty and zero.
pub fn channels_query(request: &GetChannelsRequest) -> (r: (u32, u32))
    ensures
        r.0 == (match request.limit {
            Option::Some(l) => l as int,
            Option::None => 20,
        }),
        r.1 == (match request.offset {
            Option::Some(o) => o as int,
            Option::None => 0,
        }),
{
    let limit: u32 = match request.limit {
        Some(l) => l,
        None => 20,
    };
    let offset: u32 = match request.offset {
        Some(o) => o,
        None => 0,
    };
    (limit, offset)
}

/// Wraps the channels the provider returned: the count, and whether a full
/// page suggests more channels remain.
pub fn channels_response(channels: Vec<Channel>, limit: u32) -> (r: ChannelsResponse)
    ensures
        r.channels@ == channels@,
        r.total == channels@.len(),
        r.has_more == (channels@.len() >= limit as int),
{
    let total = channels.len();
    let has_more = total >= limit as usize;
    ChannelsResponse { channels, total, has_more }
}

/// The channel-detail tool's validation: the identifier must be non-empty.
pub fn validate_channel_identifier(identifier: &str) -> (r: Result<(), Error>)
    ensures
        r is Ok <==> identifier@.len() > 0,
        r matches Err(e) ==> (e matches Error::InvalidInput(m) && m@
            == "Channel identifier cannot be empty"@),
{
    if identifier.is_empty() {
        Err(Error::InvalidInput(String::from_str("Channel identifier cannot be empty")))
    } else {
        Ok(())
    }
}

/// The link-generation tool: validates both identifiers and renders both
/// link formats, echoing the request; the protocol link is included unless
/// the request said not to.
pub fn generate_message_link(request: &GenerateLinkRequest) -> (r: Result<
    MessageLinkResponse,
    Error,
>)
    ensures
        r is Ok <==> link_request_valid(request.channel_id@, request.message_id as int),
        r matches Ok(resp) ==> {
            &&& resp.channel_id@ == request.channel_id@
            &&& resp.message_id == request.message_id
            &&& resp.https_link@ == https_link_spec(
                str_i64_val(request.channel_id@),
                request.message_id as int,
            )
            &&& (resp.tg_protocol_link is Some <==> request.include_tg_protocol != Some(false))
            &&& (resp.tg_protocol_link matches Some(l) ==> l@ == tg_link_spec(
                str_i64_val(request.channel_id@),
                request.message_id as int,
            ))
        },
        r matches Err(e) ==> (e matches Error::InvalidInput(m) && m@ == link_invalid_msg(
            request.channel_id@,
            request.message_id as int,
        )),
{
    let channel_id = match parse_channel_id(request.channel_id.as_str()) {
        Ok(c) => c,
        Err(e) => {
            return Err(e);
        },
    };
    let message_id = match validate_message_id(request.message_id) {
        Ok(m) => m,
        Err(e) => {
            return Err(e);
        },
    };
    let link = MessageLink::new(channel_id, message_id);
    let include_tg: bool = match request.include_tg_protocol {
        Some(b) => b,
        None => true,
    };
    Ok(
        MessageLinkResponse {
            channel_id: request.channel_id.clone(),
            message_id: request.message_id,
            https_link: link.https_link,
            tg_protocol_link: if include_tg {
                Some(link.tg_protocol_link)
            } else {
                None
            },
        },
    )
}

/// The open-in-app tool's pure part: validates both identifiers and picks
/// the link to hand to the host platform, the protocol link unless the
/// request said otherwise. Launching the application happens outside the
/// library.
pub fn open_message_link(request: &OpenMessageRequest) -> (r: Result<String, Error>)
    ensures
        r is Ok <==> link_request_valid(request.channel_id@, request.message_id as int),
        r matches Ok(l) ==> l@ == (if request.use_tg_protocol == Some(false) {
            https_link_spec(str_i64_val(request.channel_id@), request.message_id as int)
        } else {
            tg_link_spec(str_i64_val(request.channel_id@), request.message_id as int)
        }),
        r matches Err(e) ==> (e matches Error::InvalidInput(m) && m@ == link_invalid_msg(
            request.channel_id@,
            request.message_id as int,
        )),
{
    let channel_id = match parse_channel_id(request.channel_id.as_str()) {
        Ok(c) => c,
        Err(e) => {
            return Err(e);
        },
    };
    let message_id = match validate_message_id(request.message_id) {
        Ok(m) => m,
        Err(e) => {
            return Err(e);
        },
    };
    let link = MessageLink::new(channel_id, message_id);
    let use_tg: bool = match request.use_tg_protocol {
        Some(b) => b,
        None => true,
    };
    if use_tg {
        Ok(link.tg_protocol_link)
    } else {
        Ok(link.https_link)
    }
}

/// The search window a request asks for, defaulted and clamped to its
/// ceiling.
pub open spec fn effective_hours_back(request: &SearchRequest) -> int {
    match request.hours_back {
        Option::Some(h) => if h > SearchParams::MAX_HOURS_BACK {
            SearchParams::MAX_HOURS_BACK as int
        } else {
            h as int
        },
        Option::None => SearchParams::DEFAULT_HOURS_BACK as int,
    }
}

/// The result limit a request asks for, defaulted and clamped to its
/// ceiling.
pub open spec fn effective_limit(request: &SearchRequest) -> int {
    match request.limit {
        Option::Some(l) => if l > SearchParams::MAX_LIMIT {
            SearchParams::MAX_LIMIT as int
        } else {
            l as int
        },
        Option::None => SearchParams::DEFAULT_LIMIT as int,
    }
}

/// Whether the optional channel filter of a search names a positive
/// integer.
pub open spec fn search_channel_ok(request: &SearchRequest) -> bool {
    match request.channel_id {
        Option::Some(s) => str_is_i64(s@) && str_i64_val(s@) > 0,
        Option::None => true,
    }
}

/// Whether a search request passes validation: a query with content, a
/// well-formed channel filter, and a positive effective limit.
pub open spec fn search_request_valid(request: &SearchRequest) -> bool {
    &&& trim_spec(request.query@).len() > 0
    &&& search_channel_ok(request)
    &&& effective_limit(request) > 0
}

/// The error text of an invalid search request: the empty query is reported
/// first, then the channel filter, then the zero limit.
pub open spec fn search_invalid_msg(request: &SearchRequest) -> Seq<char> {
    if trim_spec(request.query@).len() == 0 {
        "Search query cannot be empty"@
    } else {
        match request.channel_id {
            Option::Some(s) => if !(str_is_i64(s@) && str_i64_val(s@) > 0) {
                channel_id_invalid_msg(s@)
            } else {
                "Search limit must be greater than 0"@
            },
            Option::None => "Search limit must be greater than 0"@,
        }
    }
}

/// Validates and normalizes a search request into provider parameters.
///
/// Succeeds exactly on valid requests; the parameters carry the query as
/// sent, the parsed channel filter, and the window and limit defaulted and
/// clamped to their ceilings. No rate-limiter credit is touched here.
pub fn prepare_search(request: &SearchRequest) -> (r: Result<SearchParams, Error>)
    ensures
        r is Ok <==> search_request_valid(request),
        r matches Ok(p) ==> {
            &&& p.query@ == request.query@
            &&& (p.channel_id is Some <==> request.channel_id is Some)
            &&& (request.channel_id matches Some(s) ==> (p.channel_id matches Some(c)
                && c.spec_get() == str_i64_val(s@)))
            &&& p.hours_back == effective_hours_back(request)
            &&& p.limit == effective_limit(request)
        },
        r matches Err(e) ==> (e matches Error::InvalidInput(m) && m@ == search_invalid_msg(
            request,
        )),
{
    let trimmed = trim_str(request.query.as_str());
    if trimmed.as_str().is_empty() {
        return Err(Error::InvalidInput(String::from_str("Search query cannot be empty")));
    }
    let channel_id: Option<ChannelId> = match &request.channel_id {
        Some(s) => {
            match parse_channel_id(s.as_str()) {
                Ok(c) => Some(c),
                Err(e) => {
                    return Err(e);
                },
            }
        },
        None => None,
    };
    let hours_back: u32 = match request.hours_back {
        Some(h) => if h > SearchParams::MAX_HOURS_BACK {
            SearchParams::MAX_HOURS_BACK
        } else {
            h
        },
        None => SearchParams::DEFAULT_HOURS_BACK,
    };
    let limit: u32 = match request.limit {
        Some(l) => if l > SearchParams::MAX_LIMIT {
            SearchParams::MAX_LIMIT
        } else {
            l
        },
        None => SearchParams::DEFAULT_LIMIT,
    };
    if limit == 0 {
        return Err(Error::InvalidInput(String::from_str("Search limit must be greater than 0")));
    }
    Ok(SearchParams { query: request.query.clone(), channel_id, hours_back, limit })
}

/// The billable front of the search tool: validate and normalize, then
/// spend one rate-limiter token.
///
/// An invalid request is rejected before the limiter is consulted, so it
/// never consumes credit. On a valid request the outcome follows the
/// limiter: the normalized parameters when a token was granted, the
/// rate-limit denial with its retry hint when not. Only after an `Ok` may
/// the caller invoke the data provider; if that call then fails, the token
/// already spent is deliberately not refunded — the resource was attempted,
/// not wasted.
pub fn begin_search(limiter: &RateLimiter, request: &SearchRequest) -> (r: Result<
    SearchParams,
    Error,
>)
    ensures
        r is Ok ==> search_request_valid(request),
        !search_request_valid(request) ==> (r matches Err(e) && e matches Error::InvalidInput(m)
            && m@ == search_invalid_msg(request)),
        search_request_valid(request) ==> (r matches Err(e) ==> e matches Error::RateLimit {
            ..
        }),
        r matches Ok(p) ==> {
            &&& p.query@ == request.query@
            &&& (p.channel_id is Some <==> request.channel_id is Some)
            &&& (request.channel_id matches Some(s) ==> (p.channel_id matches Some(c)
                && c.spec_get() == str_i64_val(s@)))
            &&& p.hours_back == effective_hours_back(request)
            &&& p.limit == effective_limit(request)
        },
{
    let params = match prepare_search(request) {
        Ok(p) => p,
        Err(e) => {
            return Err(e);
        },
    };
    match limiter.acquire(1) {
        Ok(()) => Ok(params),
        Err(e) => Err(e),
    }
}

} // verus!
