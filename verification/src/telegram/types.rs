//! Validated value objects and domain entities for the Telegram side.
//!
//! Identifiers wrap a positive 64-bit integer; names and usernames wrap
//! strings whose invariants are checked at construction. Timestamps are
//! whole seconds since the Unix epoch, so the entities stay plain data.

use vstd::prelude::*;

use crate::error::Error;
use crate::text::{dec_int, dec_digits, trim_spec, trim_str, u64_to_string};
use vstd::string::StringExecFns;

verus! {

/// A channel identifier: a positive 64-bit integer.
#[derive(Debug, Clone, Copy, PartialEq, Eq, Hash, Structural)]
pub struct ChannelId(i64);

impl ChannelId {
    /// The wrapped identifier.
    pub closed spec fn spec_get(self) -> int {
        self.0 as int
    }

    /// Wraps an identifier; fails exactly when it is not positive.
    pub fn new(id: i64) -> (r: Result<Self, Error>)
        ensures
            r is Ok <==> id > 0,
            r matches Ok(c) ==> c.spec_get() == id,
            r matches Err(e) ==> (e matches Error::InvalidInput(m) && m@
                == "Channel ID must be positive, got "@ + dec_int(id as int)),
    {
        if id <= 0 {
            let mut m = String::from_str("Channel ID must be positive, got ");
            let digits = crate::text::i64_to_string(id);
            m.append(digits.as_str());
            return Err(Error::InvalidInput(m));
        }
        Ok(ChannelId(id))
    }

    /// The wrapped identifier.
    pub fn get(&self) -> (r: i64)
        ensures
            r == self.spec_get(),
    {
        self.0
    }

    /// The identifier in decimal.
    pub fn to_string(&self) -> (r: String)
        ensures
            r@ == dec_int(self.spec_get()),
    {
        crate::text::i64_to_string(self.0)
    }
}

/// A message identifier: a positive 64-bit integer.
#[derive(Debug, Clone, Copy, PartialEq, Eq, Hash, Structural)]
pub struct MessageId(i64);

impl MessageId {
    /// The wrapped identifier.
    pub closed spec fn spec_get(self) -> int {
        self.0 as int
    }

    /// Wraps an identifier; fails exactly when it is not positive.
    pub fn new(id: i64) -> (r: Result<Self, Error>)
        ensures
            r is Ok <==> id > 0,
            r matches Ok(c) ==> c.spec_get() == id,
            r matches Err(e) ==> (e matches Error::InvalidInput(m) && m@
                == "Message ID must be positive, got "@ + dec_int(id as int)),
    {
        if id <= 0 {
            let mut m = String::from_str("Message ID must be positive, got ");
            let digits = crate::text::i64_to_string(id);
            m.append(digits.as_str());
            return Err(Error::InvalidInput(m));
        }
        Ok(MessageId(id))
    }

    /// The wrapped identifier.
    pub fn get(&self) -> (r: i64)
        ensures
            r == self.spec_get(),
    {
        self.0
    }

    /// The identifier in decimal.
    pub fn to_string(&self) -> (r: String)
        ensures
            r@ == dec_int(self.spec_get()),
    {
        crate::text::i64_to_string(self.0)
    }
}

/// A user identifier: a positive 64-bit integer.
#[derive(Debug, Clone, Copy, PartialEq, Eq, Hash, Structural)]
pub struct UserId(i64);

impl UserId {
    /// The wrapped identifier.
    pub closed spec fn spec_get(self) -> int {
        self.0 as int
    }

    /// Wraps an identifier; fails exactly when it is not positive.
    pub fn new(id: i64) -> (r: Result<Self, Error>)
        ensures
            r is Ok <==> id > 0,
            r matches Ok(c) ==> c.spec_get() == id,
            r matches Err(e) ==> (e matches Error::InvalidInput(m) && m@
                == "User ID must be positive, got "@ + dec_int(id as int)),
    {
        if id <= 0 {
            let mut m = String::from_str("User ID must be positive, got ");
            let digits = crate::text::i64_to_string(id);
            m.append(digits.as_str());
            return Err(Error::InvalidInput(m));
        }
        Ok(UserId(id))
    }

    /// The wrapped identifier.
    pub fn get(&self) -> (r: i64)
        ensures
            r == self.spec_get(),
    {
        self.0
    }

    /// The identifier in decimal.
    pub fn to_string(&self) -> (r: String)
        ensures
            r@ == dec_int(self.spec_get()),
    {
        crate::text::i64_to_string(self.0)
    }
}

/// Whether a character may appear in a username: ASCII letters, digits and
/// the underscore.
pub open spec fn is_username_char(c: char) -> bool {
    ('a' <= c && c <= 'z') || ('A' <= c && c <= 'Z') || ('0' <= c && c <= '9') || c == '_'
}

/// Whether a string is a well-formed username: five to thirty-two
/// characters, all from the username alphabet.
pub open spec fn valid_username(s: Seq<char>) -> bool {
    &&& 5 <= s.len() <= 32
    &&& forall|i: int| 0 <= i < s.len() ==> is_username_char(#[trigger] s[i])
}

/// A Telegram username: 5 to 32 characters, letters, digits or underscores.
#[derive(Debug, Clone, PartialEq, Eq, Hash)]
pub struct Username(String);

impl Username {
    /// The wrapped text.
    pub closed spec fn spec_str(self) -> Seq<char> {
        self.0@
    }

    /// Wraps a username; fails exactly on malformed input. A bad length is
    /// reported before a bad character.
    pub fn new(username: &str) -> (r: Result<Self, Error>)
        ensures
            r is Ok <==> valid_username(username@),
            r matches Ok(u) ==> u.spec_str() == username@,
            r matches Err(e) ==> (e matches Error::InvalidInput(m) && m@ == (
            if !(5 <= username@.len() <= 32) {
                "Username must be 5-32 characters, got "@ + dec_digits(username@.len() as int)
            } else {
                "Username must contain only alphanumeric characters and underscores"@
            })),
    {
        let n = username.unicode_len();
        if n < 5 || n > 32 {
            let mut m = String::from_str("Username must be 5-32 characters, got ");
            let digits = u64_to_string(n as u64);
            m.append(digits.as_str());
            return Err(Error::InvalidInput(m));
        }
        let mut i: usize = 0;
        while i < n
            invariant
                i <= n,
                n == username@.len(),
                5 <= n <= 32,
                forall|k: int| 0 <= k < i ==> is_username_char(#[trigger] username@[k]),
            decreases n - i,
        {
            let c = username.get_char(i);
            let ok = ('a' <= c && c <= 'z') || ('A' <= c && c <= 'Z') || ('0' <= c && c <= '9')
                || c == '_';
            if !ok {
                return Err(
                    Error::InvalidInput(
                        String::from_str(
                            "Username must contain only alphanumeric characters and underscores",
                        ),
                    ),
                );
            }
            i = i + 1;
        }
        Ok(Username(username.to_owned()))
    }

    /// The wrapped text.
    pub fn as_str(&self) -> (r: &str)
        ensures
            r@ == self.spec_str(),
    {
        self.0.as_str()
    }
}

/// A non-empty channel display name, stored with surrounding whitespace
/// removed.
#[derive(Debug, Clone, PartialEq, Eq)]
pub struct ChannelName(String);

impl ChannelName {
    /// The wrapped, trimmed text.
    pub closed spec fn spec_str(self) -> Seq<char> {
        self.0@
    }

    /// Trims and wraps a name; fails exactly when nothing but whitespace
    /// remains.
    pub fn new(name: &str) -> (r: Result<Self, Error>)
        ensures
            r is Ok <==> trim_spec(name@).len() > 0,
            r matches Ok(c) ==> c.spec_str() == trim_spec(name@),
            r matches Err(e) ==> (e matches Error::InvalidInput(m) && m@
                == "Channel name cannot be empty"@),
    {
        let trimmed = trim_str(name);
        if trimmed.as_str().unicode_len() == 0 {
            return Err(Error::InvalidInput(String::from_str("Channel name cannot be empty")));
        }
        Ok(ChannelName(trimmed))
    }

    /// The wrapped text.
    pub fn as_str(&self) -> (r: &str)
        ensures
            r@ == self.spec_str(),
    {
        self.0.as_str()
    }
}

/// The kind of media a message carries; `NoMedia` marks a text-only message.
#[derive(Debug, Clone, Copy, PartialEq, Eq, Structural)]
pub enum MediaType {
    NoMedia,
    Photo,
    Video,
    Document,
    Audio,
    Voice,
    VideoNote,
    Animation,
    Sticker,
    Contact,
    Location,
    Venue,
    Poll,
    Dice,
}

impl Default for MediaType {
    /// A message carries no media unless something says otherwise.
    fn default() -> (r: Self)
        ensures
            r == MediaType::NoMedia,
    {
        MediaType::NoMedia
    }
}

/// A message fetched from a channel. The timestamp is whole seconds since
/// the Unix epoch.
#[derive(Debug, Clone)]
pub struct Message {
    pub id: MessageId,
    pub channel_id: ChannelId,
    pub channel_name: ChannelName,
    pub channel_username: Username,
    pub text: String,
    pub timestamp: i64,
    pub sender_id: Option<UserId>,
    pub sender_name: Option<String>,
    pub has_media: bool,
    pub media_type: MediaType,
}

impl Message {
    /// Whether the message is newer than `hours` hours before `now_secs`.
    pub fn is_recent(&self, hours: u32, now_secs: i64) -> (r: bool)
        ensures
            r == (self.timestamp > now_secs - (hours as int) * 3600),
    {
        (self.timestamp as i128) > (now_secs as i128) - (hours as i128) * 3600
    }

    /// Whether the message is text-only, carrying no media.
    pub fn is_text_only(&self) -> (r: bool)
        ensures
            r == (self.media_type == MediaType::NoMedia),
    {
        self.media_type == MediaType::NoMedia
    }
}

/// A channel as the provider reports it. The optional last-message date is
/// whole seconds since the Unix epoch.
#[derive(Debug, Clone)]
pub struct Channel {
    pub id: ChannelId,
    pub name: ChannelName,
    pub username: Username,
    pub description: Option<String>,
    pub member_count: u64,
    pub is_verified: bool,
    pub is_public: bool,
    pub is_subscribed: bool,
    pub last_message_date: Option<i64>,
}

/// Validated, normalized search parameters handed to the provider.
#[derive(Debug, Clone)]
pub struct SearchParams {
    pub query: String,
    pub channel_id: Option<ChannelId>,
    pub hours_back: u32,
    pub limit: u32,
}

impl SearchParams {
    /// Search window used when the request names none.
    pub const DEFAULT_HOURS_BACK: u32 = 48;

    /// Ceiling on the search window; larger requests are clamped.
    pub const MAX_HOURS_BACK: u32 = 72;

    /// Result count used when the request names none.
    pub const DEFAULT_LIMIT: u32 = 20;

    /// Ceiling on the result count; larger requests are clamped.
    pub const MAX_LIMIT: u32 = 100;

    /// Parameters for a query with the default window and limit and no
    /// channel filter.
    pub fn new(query: &str) -> (r: Self)
        ensures
            r.query@ == query@,
            r.channel_id is None,
            r.hours_back == 48,
            r.limit == 20,
    {
        SearchParams {
            query: query.to_owned(),
            channel_id: None,
            hours_back: Self::DEFAULT_HOURS_BACK,
            limit: Self::DEFAULT_LIMIT,
        }
    }
}

impl Default for SearchParams {
    /// The parameters of an empty query.
    fn default() -> (r: Self)
        ensures
            r.query@ == Seq::<char>::empty(),
            r.channel_id is None,
            r.hours_back == 48,
            r.limit == 20,
    {
        let r = SearchParams::new("");
        proof {
            reveal_strlit("");
            assert(r.query@ =~= Seq::<char>::empty());
        }
        r
    }
}

/// What a search returned: the matches and how the query ran.
#[derive(Debug, Clone)]
pub struct SearchResult {
    pub messages: Vec<Message>,
    pub total_found: u64,
    pub search_time_ms: u64,
    pub query_metadata: QueryMetadata,
}

/// Echoed query metadata: the query text, the effective window, and how
/// many channels were searched.
#[derive(Debug, Clone)]
pub struct QueryMetadata {
    pub query: String,
    pub hours_back: u32,
    pub channels_searched: u32,
}

} // verus!
