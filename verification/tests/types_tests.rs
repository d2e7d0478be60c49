use telegram_mcp::telegram::types::{
    ChannelId, ChannelName, MediaType, Message, MessageId, SearchParams, UserId, Username,
};

const NOW_SECS: i64 = 1_700_000_000;

fn sample_message(timestamp: i64, has_media: bool, media_type: MediaType, text: &str) -> Message {
    Message {
        id: MessageId::new(1).unwrap(),
        channel_id: ChannelId::new(100).unwrap(),
        channel_name: ChannelName::new("Test").unwrap(),
        channel_username: Username::new("testchan").unwrap(),
        text: text.to_string(),
        timestamp,
        sender_id: None,
        sender_name: None,
        has_media,
        media_type,
    }
}

#[test]
fn channel_id_rejects_negative() {
    let result = ChannelId::new(-1);
    assert!(result.is_err());
    assert!(result.unwrap_err().message().contains("positive"));
}

#[test]
fn channel_id_rejects_zero() {
    let result = ChannelId::new(0);
    assert!(result.is_err());
}

#[test]
fn channel_id_accepts_positive() {
    let result = ChannelId::new(123);
    assert!(result.is_ok());
    assert_eq!(result.unwrap().get(), 123);
}

#[test]
fn channel_id_display() {
    let id = ChannelId::new(123456).unwrap();
    assert_eq!(id.to_string(), "123456");
}

#[test]
fn message_id_rejects_negative() {
    assert!(MessageId::new(-1).is_err());
}

#[test]
fn message_id_rejects_zero() {
    assert!(MessageId::new(0).is_err());
}

#[test]
fn message_id_accepts_positive() {
    let result = MessageId::new(456);
    assert!(result.is_ok());
    assert_eq!(result.unwrap().get(), 456);
}

#[test]
fn message_id_display() {
    let id = MessageId::new(789).unwrap();
    assert_eq!(id.to_string(), "789");
}

#[test]
fn user_id_rejects_negative() {
    assert!(UserId::new(-1).is_err());
}

#[test]
fn user_id_rejects_zero() {
    assert!(UserId::new(0).is_err());
}

#[test]
fn user_id_accepts_positive() {
    let result = UserId::new(999);
    assert!(result.is_ok());
    assert_eq!(result.unwrap().get(), 999);
}

#[test]
fn user_id_display() {
    let id = UserId::new(111).unwrap();
    assert_eq!(id.to_string(), "111");
}

#[test]
fn id_error_names_offending_value() {
    let result = ChannelId::new(-5);
    assert_eq!(
        result.unwrap_err().message(),
        "invalid input: Channel ID must be positive, got -5"
    );
}

#[test]
fn username_rejects_too_short() {
    let result = Username::new("abc");
    assert!(result.is_err());
    assert!(result.unwrap_err().message().contains("5-32"));
}

#[test]
fn username_rejects_too_long() {
    let result = Username::new(&"a".repeat(33));
    assert!(result.is_err());
}

#[test]
fn username_rejects_special_chars() {
    let result = Username::new("user@name");
    assert!(result.is_err());
    assert!(result.unwrap_err().message().contains("alphanumeric"));
}

#[test]
fn username_accepts_underscore() {
    let result = Username::new("valid_user");
    assert!(result.is_ok());
}

#[test]
fn username_accepts_numbers() {
    let result = Username::new("user123");
    assert!(result.is_ok());
}

#[test]
fn username_accepts_valid() {
    let result = Username::new("valid_user123");
    assert!(result.is_ok());
    assert_eq!(result.unwrap().as_str(), "valid_user123");
}

#[test]
fn username_display() {
    let username = Username::new("telegram_user").unwrap();
    assert_eq!(username.as_str(), "telegram_user");
}

#[test]
fn username_rejects_non_ascii_letters() {
    assert!(Username::new("héllo_user").is_err());
}

#[test]
fn username_boundary_lengths_accepted() {
    assert!(Username::new("abcde").is_ok());
    assert!(Username::new(&"a".repeat(32)).is_ok());
}

#[test]
fn channel_name_rejects_empty() {
    let result = ChannelName::new("");
    assert!(result.is_err());
    assert!(result.unwrap_err().message().contains("empty"));
}

#[test]
fn channel_name_rejects_whitespace_only() {
    let result = ChannelName::new("   ");
    assert!(result.is_err());
}

#[test]
fn channel_name_trims_whitespace() {
    let result = ChannelName::new("  Tech News  ");
    assert!(result.is_ok());
    assert_eq!(result.unwrap().as_str(), "Tech News");
}

#[test]
fn channel_name_accepts_valid() {
    let result = ChannelName::new("AI Updates");
    assert!(result.is_ok());
    assert_eq!(result.unwrap().as_str(), "AI Updates");
}

#[test]
fn channel_name_display() {
    let name = ChannelName::new("News Channel").unwrap();
    assert_eq!(name.as_str(), "News Channel");
}

#[test]
fn media_type_default_is_none() {
    assert_eq!(MediaType::default(), MediaType::NoMedia);
}

#[test]
fn message_is_recent_within_window() {
    let msg = sample_message(NOW_SECS - 24 * 3600, false, MediaType::NoMedia, "test");

    assert!(msg.is_recent(48, NOW_SECS));
    assert!(!msg.is_recent(12, NOW_SECS));
}

#[test]
fn message_is_text_only() {
    let msg = sample_message(NOW_SECS, false, MediaType::NoMedia, "test");

    assert!(msg.is_text_only());
}

#[test]
fn message_with_photo_not_text_only() {
    let msg = sample_message(NOW_SECS, true, MediaType::Photo, "");

    assert!(!msg.is_text_only());
}

#[test]
fn search_params_default() {
    let params = SearchParams::default();
    assert_eq!(params.query, "");
    assert_eq!(params.hours_back, SearchParams::DEFAULT_HOURS_BACK);
    assert_eq!(params.limit, SearchParams::DEFAULT_LIMIT);
    assert!(params.channel_id.is_none());
}

#[test]
fn search_params_new() {
    let params = SearchParams::new("AI news");
    assert_eq!(params.query, "AI news");
    assert_eq!(params.hours_back, 48);
    assert_eq!(params.limit, 20);
}

#[test]
fn search_params_constants() {
    assert_eq!(SearchParams::DEFAULT_HOURS_BACK, 48);
    assert_eq!(SearchParams::MAX_HOURS_BACK, 72);
    assert_eq!(SearchParams::DEFAULT_LIMIT, 20);
    assert_eq!(SearchParams::MAX_LIMIT, 100);
}
