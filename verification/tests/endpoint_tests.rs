//! Tests of the endpoint request builders, URI rendering and response
//! parsing.

use twitch_api::moderation::{
    CheckAutoModStatusBody, CheckAutoModStatusRequest, DeleteChatMessagesRequest,
    DeleteChatMessagesResponse, HelixRequestDeleteError,
};
use twitch_api::schedule::{
    CreateChannelStreamScheduleSegmentBody, CreateChannelStreamScheduleSegmentRequest,
};
use twitch_api::search::SearchChannelsRequest;

#[test]
fn check_automod_status_test_request() {
    let req = CheckAutoModStatusRequest::broadcaster_id("198704263".to_string());

    let body = vec![
        CheckAutoModStatusBody::new("123".to_string(), "hello world".to_string()),
        CheckAutoModStatusBody::new("393".to_string(), "automoded word".to_string()),
    ];
    assert_eq!(body[0].msg_id, "123");
    assert_eq!(body[0].msg_text, "hello world");
    assert_eq!(body[0].user_id, None);
    assert_eq!(body[1].msg_id, "393");
    assert_eq!(body[1].msg_text, "automoded word");

    assert_eq!(
        req.get_uri(),
        "https://api.twitch.tv/helix/moderation/enforcements/status?broadcaster_id=198704263"
    );
}

#[test]
fn test_request_all() {
    let req = DeleteChatMessagesRequest::new("11111".to_string(), "44444".to_string());

    let uri = req.get_uri();
    assert_eq!(
        uri,
        "https://api.twitch.tv/helix/moderation/chat?broadcaster_id=11111&moderator_id=44444"
    );

    let parsed = DeleteChatMessagesRequest::parse_inner_response(Some(req), &uri, "", 204).unwrap();
    assert_eq!(parsed.data, DeleteChatMessagesResponse::Success);
    assert_eq!(parsed.pagination, None);
    assert_eq!(parsed.total, None);
}

#[test]
fn test_request_specific() {
    let req = DeleteChatMessagesRequest::new("11111".to_string(), "44444".to_string())
        .message_id("abc-123-def".to_string());

    let uri = req.get_uri();
    assert_eq!(
        uri,
        "https://api.twitch.tv/helix/moderation/chat?broadcaster_id=11111&moderator_id=44444&message_id=abc-123-def"
    );

    let parsed = DeleteChatMessagesRequest::parse_inner_response(Some(req), &uri, "", 204).unwrap();
    assert_eq!(parsed.data, DeleteChatMessagesResponse::Success);
}

#[test]
fn delete_chat_messages_rejects_unexpected_status() {
    let req = DeleteChatMessagesRequest::new("11111".to_string(), "44444".to_string());
    let uri = req.get_uri();
    let err = DeleteChatMessagesRequest::parse_inner_response(Some(req), &uri, "oops", 500)
        .unwrap_err();
    let HelixRequestDeleteError::InvalidResponse { reason, response, status, uri: err_uri } = err;
    assert_eq!(reason, "unexpected status");
    assert_eq!(response, "oops");
    assert_eq!(status, 500);
    assert_eq!(err_uri, uri);
}

#[test]
fn create_channel_stream_schedule_segment_test_request() {
    let req = CreateChannelStreamScheduleSegmentRequest::broadcaster_id("141981764".to_string());

    let body = CreateChannelStreamScheduleSegmentBody {
        duration: Some("60".to_string()),
        category_id: Some("509670".to_string()),
        title: Some("TwitchDev Monthly Update // July 1, 2021".to_string()),
        ..CreateChannelStreamScheduleSegmentBody::new(
            "2021-07-01T18:00:00Z".to_string(),
            "America/New_York".to_string(),
            false,
        )
    };
    assert_eq!(body.start_time, "2021-07-01T18:00:00Z");
    assert_eq!(body.timezone, "America/New_York");
    assert!(!body.is_recurring);

    assert_eq!(
        req.get_uri(),
        "https://api.twitch.tv/helix/schedule/segment?broadcaster_id=141981764"
    );
}

#[test]
fn search_channels_test_request() {
    let req = SearchChannelsRequest::query("fort".to_string());

    assert_eq!(
        req.get_uri(),
        "https://api.twitch.tv/helix/search/channels?query=fort"
    );
}

#[test]
fn search_channels_builders_and_pagination() {
    let req = SearchChannelsRequest::query("fort".to_string())
        .live_only(true)
        .first(100);
    assert_eq!(
        req.get_uri(),
        "https://api.twitch.tv/helix/search/channels?query=fort&first=100&live_only=true"
    );

    let mut req = SearchChannelsRequest::query("fort".to_string());
    req.set_pagination(Some("eyJiIjpudWxs".to_string()));
    assert_eq!(
        req.get_uri(),
        "https://api.twitch.tv/helix/search/channels?query=fort&after=eyJiIjpudWxs"
    );
    req.set_pagination(None);
    assert_eq!(
        req.get_uri(),
        "https://api.twitch.tv/helix/search/channels?query=fort"
    );
}
