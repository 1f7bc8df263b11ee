use beeper_desktop_api::client::{
    classify_request_error, handle_response, needs_json_body, status_text,
};
use beeper_desktop_api::models::chat::parse_decimal_u64;
use beeper_desktop_api::{
    Account, ApiRequest, Attachment, BeeperClient, BeeperError, Chat, CreateChatInput,
    CreateChatOutput, Direction, DownloadAssetInput, DownloadAssetOutput, FocusAppInput,
    FocusAppOutput, FromJson, HttpMethod, IdMap, JsonNumber, JsonValue, ListChatsOutput,
    ListMessagesOutput, Message, Participants, Reaction, SearchChatsOutput, SearchMessagesOutput,
    SendMessageInput, SendMessageOutput, ToJson, User,
};

fn s(x: &str) -> JsonValue {
    JsonValue::Str(x.to_string())
}

fn n(x: u64) -> JsonValue {
    JsonValue::Number(JsonNumber::UInt(x))
}

fn obj(members: Vec<(&str, JsonValue)>) -> JsonValue {
    JsonValue::Object(members.into_iter().map(|(k, v)| (k.to_string(), v)).collect())
}

fn keys(v: &JsonValue) -> Vec<String> {
    match v {
        JsonValue::Object(m) => m.iter().map(|(k, _)| k.clone()).collect(),
        _ => panic!("not an object"),
    }
}

fn user(id: &str, username: Option<&str>, full_name: Option<&str>, is_self: Option<bool>) -> User {
    User {
        id: id.to_string(),
        username: username.map(|x| x.to_string()),
        phone_number: None,
        email: None,
        full_name: full_name.map(|x| x.to_string()),
        img_url: None,
        cannot_message: None,
        is_self,
    }
}

fn chat(chat_type: &str, title: &str, items: Vec<User>) -> Chat {
    let total = items.len() as u32;
    Chat {
        id: "chat-1".to_string(),
        local_chat_id: None,
        account_id: "account-1".to_string(),
        network: "WhatsApp".to_string(),
        title: title.to_string(),
        chat_type: chat_type.to_string(),
        participants: Participants { items, has_more: false, total },
        last_activity: None,
        unread_count: 0,
        last_read_message_sort_key: None,
        is_archived: false,
        is_muted: false,
        is_pinned: false,
        preview: None,
    }
}

fn chat_json(sort_key: Option<JsonValue>) -> JsonValue {
    let mut members = vec![
        ("id", s("chat-1")),
        ("accountID", s("account-1")),
        ("network", s("WhatsApp")),
        ("title", s("Alice")),
        ("type", s("single")),
        (
            "participants",
            obj(vec![("items", JsonValue::Array(vec![])), ("hasMore", JsonValue::Bool(false)), ("total", n(0))]),
        ),
        ("unreadCount", n(3)),
        ("isArchived", JsonValue::Bool(false)),
        ("isMuted", JsonValue::Bool(true)),
        ("isPinned", JsonValue::Bool(false)),
    ];
    if let Some(k) = sort_key {
        members.push(("lastReadMessageSortKey", k));
    }
    obj(members)
}

// display names

#[test]
fn display_name_single_uses_full_name_of_other_participant() {
    let c = chat(
        "single",
        "Title",
        vec![
            user("me", Some("@me"), Some("Me"), Some(true)),
            user("u2", Some("@bob"), Some("Bob"), Some(false)),
        ],
    );
    assert_eq!(c.display_name(), "Bob");
}

#[test]
fn display_name_single_falls_back_to_username() {
    let c = chat("single", "Title", vec![user("u2", Some("@bob"), None, None)]);
    assert_eq!(c.display_name(), "@bob");
}

#[test]
fn display_name_single_falls_back_to_title() {
    let c = chat("single", "Title", vec![user("u2", None, None, Some(false)), user("u3", Some("@c"), Some("C"), None)]);
    assert_eq!(c.display_name(), "Title");
}

#[test]
fn display_name_single_with_only_self_is_title() {
    let c = chat("single", "Title", vec![user("me", Some("@me"), Some("Me"), Some(true))]);
    assert_eq!(c.display_name(), "Title");
}

#[test]
fn display_name_group_is_title() {
    let c = chat("group", "Team Chat", vec![user("u2", Some("@bob"), Some("Bob"), Some(false))]);
    assert_eq!(c.display_name(), "Team Chat");
}

#[test]
fn display_name_unknown_type_is_title() {
    let c = chat("channel", "News", vec![user("u2", Some("@bob"), Some("Bob"), None)]);
    assert_eq!(c.display_name(), "News");
}

// round trips

#[test]
fn round_trip_create_chat_input() {
    let input = CreateChatInput {
        account_id: "account-1".to_string(),
        participant_ids: vec!["user-1".to_string(), "user-2".to_string()],
        title: None,
    };
    let j = input.to_json();
    assert_eq!(keys(&j), vec!["accountID", "participantIDs"]);
    let back = CreateChatInput::from_json(&j).unwrap();
    assert_eq!(back.account_id, "account-1");
    assert_eq!(back.participant_ids, vec!["user-1".to_string(), "user-2".to_string()]);
    assert_eq!(back.title, None);

    let titled = CreateChatInput { title: Some("Group".to_string()), ..input };
    let back = CreateChatInput::from_json(&titled.to_json()).unwrap();
    assert_eq!(back.title, Some("Group".to_string()));
}

#[test]
fn round_trip_send_message_input() {
    let input = SendMessageInput { text: "Hello".to_string(), reply_to_id: Some("msg-9".to_string()) };
    let back = SendMessageInput::from_json(&input.to_json()).unwrap();
    assert_eq!(back.text, "Hello");
    assert_eq!(back.reply_to_id, Some("msg-9".to_string()));

    let plain = SendMessageInput { text: "Hi".to_string(), reply_to_id: None };
    let j = plain.to_json();
    assert_eq!(keys(&j), vec!["text"]);
    assert_eq!(SendMessageInput::from_json(&j).unwrap().reply_to_id, None);
}

#[test]
fn round_trip_focus_app_input() {
    let input = FocusAppInput { chat_id: None, message_id: Some("m".to_string()), draft: Some("d".to_string()) };
    let j = input.to_json();
    assert_eq!(keys(&j), vec!["messageID", "draft"]);
    let back = FocusAppInput::from_json(&j).unwrap();
    assert_eq!(back.chat_id, None);
    assert_eq!(back.message_id, Some("m".to_string()));
    assert_eq!(back.draft, Some("d".to_string()));
}

#[test]
fn round_trip_outputs() {
    let o = CreateChatOutput { chat_id: "c1".to_string() };
    assert_eq!(CreateChatOutput::from_json(&o.to_json()).unwrap().chat_id, "c1");
    let o = SendMessageOutput { chat_id: "c1".to_string(), pending_message_id: "p1".to_string() };
    let back = SendMessageOutput::from_json(&o.to_json()).unwrap();
    assert_eq!(back.chat_id, "c1");
    assert_eq!(back.pending_message_id, "p1");
    let o = FocusAppOutput { success: true };
    assert!(FocusAppOutput::from_json(&o.to_json()).unwrap().success);
    let o = DownloadAssetOutput { local_url: "file:///x".to_string() };
    assert_eq!(DownloadAssetOutput::from_json(&o.to_json()).unwrap().local_url, "file:///x");
    let i = DownloadAssetInput { url: "mxc://a/b".to_string() };
    assert_eq!(DownloadAssetInput::from_json(&i.to_json()).unwrap().url, "mxc://a/b");
}

#[test]
fn null_optional_decodes_as_absent() {
    let j = obj(vec![("text", s("Hi")), ("replyToID", JsonValue::Null)]);
    assert_eq!(SendMessageInput::from_json(&j).unwrap().reply_to_id, None);
}

#[test]
fn missing_required_field_fails() {
    let j = obj(vec![("replyToID", s("m"))]);
    assert!(SendMessageInput::from_json(&j).is_err());
    assert!(FocusAppInput::from_json(&s("not an object")).is_err());
}

// read marker decoding

#[test]
fn sort_key_from_number() {
    let c = Chat::from_json(&chat_json(Some(n(453400065536)))).unwrap();
    assert_eq!(c.last_read_message_sort_key, Some(453400065536));
    assert_eq!(c.unread_count, 3);
    assert!(c.is_muted);
}

#[test]
fn sort_key_from_string() {
    let c = Chat::from_json(&chat_json(Some(s("453400065536")))).unwrap();
    assert_eq!(c.last_read_message_sort_key, Some(453400065536));
}

#[test]
fn sort_key_null_is_none() {
    let c = Chat::from_json(&chat_json(Some(JsonValue::Null))).unwrap();
    assert_eq!(c.last_read_message_sort_key, None);
}

#[test]
fn sort_key_missing_is_none() {
    let c = Chat::from_json(&chat_json(None)).unwrap();
    assert_eq!(c.last_read_message_sort_key, None);
}

#[test]
fn sort_key_non_numeric_string_fails() {
    assert!(Chat::from_json(&chat_json(Some(s("not-a-number")))).is_err());
    assert!(Chat::from_json(&chat_json(Some(s("")))).is_err());
    assert!(Chat::from_json(&chat_json(Some(JsonValue::Bool(true)))).is_err());
}

#[test]
fn decimal_parsing_limits() {
    assert_eq!(parse_decimal_u64("0"), Some(0));
    assert_eq!(parse_decimal_u64("18446744073709551615"), Some(u64::MAX));
    assert_eq!(parse_decimal_u64("18446744073709551616"), None);
    assert_eq!(parse_decimal_u64("12a"), None);
    assert_eq!(parse_decimal_u64("+12"), None);
}

#[test]
fn unread_count_out_of_range_fails() {
    let mut j = chat_json(None);
    if let JsonValue::Object(m) = &mut j {
        for (k, v) in m.iter_mut() {
            if k == "unreadCount" {
                *v = n(1u64 << 40);
            }
        }
    }
    assert!(Chat::from_json(&j).is_err());
}

// query strings

fn client() -> BeeperClient {
    BeeperClient::new("tok", "http://localhost:23373")
}

#[test]
fn list_chats_without_paging_has_no_query() {
    let r = client().list_chats(None, None);
    assert_eq!(r.url, "http://localhost:23373/v1/chats");
    assert!(!r.url.contains('?'));
    assert_eq!(r.method, HttpMethod::Get);
    assert_eq!(r.authorization, "Bearer tok");
    assert!(r.body.is_none());
}

#[test]
fn list_chats_with_cursor() {
    assert!(client().list_chats(Some("abc"), None).url.ends_with("/v1/chats?cursor=abc"));
}

#[test]
fn list_chats_with_cursor_and_direction() {
    let r = client().list_chats(Some("abc"), Some("after"));
    assert!(r.url.ends_with("?cursor=abc&direction=after"));
}

#[test]
fn list_chats_with_direction_only() {
    assert!(client().list_chats(None, Some("after")).url.ends_with("/v1/chats?direction=after"));
}

#[test]
fn cursor_and_chat_id_are_percent_encoded() {
    assert_eq!(
        client().list_chats(Some("a b/c"), None).url,
        "http://localhost:23373/v1/chats?cursor=a%20b%2Fc"
    );
    assert_eq!(client().get_chat("!room:beeper.com").url, "http://localhost:23373/v1/chats/%21room%3Abeeper.com");
    assert_eq!(
        client().list_messages("a/b", Some("x"), Some("before")).url,
        "http://localhost:23373/v1/chats/a%2Fb/messages?cursor=x&direction=before"
    );
}

#[test]
fn search_queries_put_query_first() {
    assert_eq!(client().search_messages("hello world", None, None).url, "http://localhost:23373/v1/messages/search?q=hello%20world");
    assert_eq!(
        client().search_chats("alice", Some("c1"), Some("after")).url,
        "http://localhost:23373/v1/chats/search?q=alice&cursor=c1&direction=after"
    );
    assert_eq!(client().search_chats("alice", None, Some("before")).url, "http://localhost:23373/v1/chats/search?q=alice&direction=before");
}

#[test]
fn mutating_requests_carry_bodies() {
    let r = client().archive_chat("c1", true);
    assert_eq!(r.method, HttpMethod::Post);
    assert_eq!(r.url, "http://localhost:23373/v1/chats/c1/archive");
    match r.body {
        Some(JsonValue::Object(m)) => {
            assert_eq!(m.len(), 1);
            assert_eq!(m[0].0, "archived");
            assert!(matches!(m[0].1, JsonValue::Bool(true)));
        }
        _ => panic!("expected a body"),
    }
    let r = client().clear_chat_reminder("c1");
    assert_eq!(r.method, HttpMethod::Delete);
    assert_eq!(r.url, "http://localhost:23373/v1/chats/c1/reminders");
    assert!(matches!(r.body, Some(JsonValue::Object(ref m)) if m.is_empty()));
    let r = client().set_chat_reminder("c1", "2025-01-01T00:00:00Z");
    assert_eq!(keys(r.body.as_ref().unwrap()), vec!["timestamp"]);
    let r = client().download_asset("mxc://a/b");
    assert_eq!(r.url, "http://localhost:23373/v1/assets/download");
    assert_eq!(keys(r.body.as_ref().unwrap()), vec!["url"]);
    let r = client().get_accounts();
    assert_eq!(r.url, "http://localhost:23373/v1/accounts");
}

#[test]
fn requests_use_current_token_and_base_url() {
    let mut c = client();
    c.set_token("new");
    c.set_base_url("http://example.com:8080");
    let r: ApiRequest = c.send_message("c1", SendMessageInput { text: "x".to_string(), reply_to_id: None });
    assert_eq!(r.authorization, "Bearer new");
    assert_eq!(r.url, "http://example.com:8080/v1/chats/c1/messages");
}

// focus bodies

#[test]
fn focus_app_without_input_sends_empty_object() {
    let r = client().focus_app(None);
    assert_eq!(r.url, "http://localhost:23373/v1/focus");
    assert!(matches!(r.body, Some(JsonValue::Object(ref m)) if m.is_empty()));
}

#[test]
fn focus_app_sends_only_populated_fields() {
    let r = client().focus_app(Some(FocusAppInput { chat_id: Some("c1".to_string()), message_id: None, draft: None }));
    let body = r.body.unwrap();
    assert_eq!(keys(&body), vec!["chatID"]);
}

// status classification

#[test]
fn unauthorized_ignores_malformed_body() {
    let r = handle_response::<ListChatsOutput>(401, "<html>", None);
    assert!(matches!(r, Err(BeeperError::InvalidConfig(ref m)) if m == "unauthorized"));
}

#[test]
fn not_found_is_invalid_config() {
    let r = handle_response::<Chat>(404, "{\"code\":\"x\"}", Some(obj(vec![("code", s("x"))])));
    assert!(matches!(r, Err(BeeperError::InvalidConfig(ref m)) if m == "resource not found"));
}

#[test]
fn rate_limited_is_invalid_config() {
    let r = handle_response::<Chat>(429, "", None);
    assert!(matches!(r, Err(BeeperError::InvalidConfig(ref m)) if m == "rate limit exceeded"));
}

#[test]
fn unknown_status_reports_raw_text() {
    let r = handle_response::<Chat>(418, "teapot", None);
    match r {
        Err(BeeperError::ApiError { code, message }) => {
            assert_eq!(code, "418");
            assert_eq!(message, "teapot");
        }
        _ => panic!("expected an API error"),
    }
    match handle_response::<Chat>(500, "boom", Some(obj(vec![]))) {
        Err(BeeperError::ApiError { code, message }) => {
            assert_eq!(code, "500");
            assert_eq!(message, "boom");
        }
        _ => panic!("expected an API error"),
    }
}

#[test]
fn bad_request_decodes_error_body() {
    let body = obj(vec![("code", s("INVALID")), ("message", s("bad cursor"))]);
    match handle_response::<Chat>(400, "", Some(body)) {
        Err(BeeperError::ApiError { code, message }) => {
            assert_eq!(code, "INVALID");
            assert_eq!(message, "bad cursor");
        }
        _ => panic!("expected an API error"),
    }
    let r = handle_response::<Chat>(403, "oops", None);
    assert!(matches!(r, Err(BeeperError::SerializationError(_))));
}

#[test]
fn success_decodes_output() {
    let body = obj(vec![("chatID", s("c9")), ("pendingMessageID", s("p9"))]);
    let out = handle_response::<SendMessageOutput>(200, "", Some(body)).unwrap();
    assert_eq!(out.pending_message_id, "p9");
    let body = obj(vec![
        ("items", JsonValue::Array(vec![chat_json(Some(s("7")))])),
        ("hasMore", JsonValue::Bool(true)),
        ("oldestCursor", s("old")),
    ]);
    let out = handle_response::<ListChatsOutput>(201, "", Some(body)).unwrap();
    assert_eq!(out.items.len(), 1);
    assert_eq!(out.items[0].last_read_message_sort_key, Some(7));
    assert_eq!(out.oldest_cursor, Some("old".to_string()));
    assert_eq!(out.newest_cursor, None);
}

#[test]
fn success_with_wrong_shape_is_serialization_error() {
    let r = handle_response::<SendMessageOutput>(200, "", Some(obj(vec![("chatID", n(1))])));
    assert!(matches!(r, Err(BeeperError::SerializationError(_))));
    let r = handle_response::<SendMessageOutput>(200, "not json", None);
    assert!(matches!(r, Err(BeeperError::SerializationError(_))));
}

#[test]
fn search_chats_keeps_chat_map() {
    let body = obj(vec![
        ("items", JsonValue::Array(vec![])),
        ("chats", obj(vec![("chat-1", chat_json(None))])),
        ("hasMore", JsonValue::Bool(false)),
    ]);
    let out = handle_response::<SearchChatsOutput>(200, "", Some(body)).unwrap();
    let chats = out.chats.unwrap();
    assert_eq!(chats.get("chat-1").unwrap().title, "Alice");
    assert!(chats.get("chat-2").is_none());
}

#[test]
fn status_codes_in_decimal() {
    assert_eq!(status_text(5), "5");
    assert_eq!(status_text(418), "418");
    assert_eq!(status_text(65535), "65535");
}

// transport failures

#[test]
fn connect_failure_is_not_reachable() {
    let err = reqwest::Client::new().get("http://[::1").build().unwrap_err();
    match classify_request_error(true, "http://localhost:23373", err) {
        BeeperError::ApiNotReachable { url } => assert_eq!(url, "http://localhost:23373"),
        _ => panic!("expected ApiNotReachable"),
    }
    let err = reqwest::Client::new().get("http://[::1").build().unwrap_err();
    assert!(matches!(classify_request_error(false, "http://localhost:23373", err), BeeperError::RequestError(_)));
}

#[test]
fn refused_connection_is_not_reachable() {
    let err = reqwest::blocking::Client::new().get("http://127.0.0.1:9/v1/accounts").send().unwrap_err();
    match beeper_desktop_api::client::map_request_error(err, "http://127.0.0.1:9") {
        BeeperError::ApiNotReachable { url } => assert_eq!(url, "http://127.0.0.1:9"),
        other => panic!("expected ApiNotReachable, got {:?}", other),
    }
}

fn message(id: &str) -> Message {
    Message {
        id: id.to_string(),
        chat_id: "chat-1".to_string(),
        account_id: None,
        sender_id: "user-1".to_string(),
        sender_name: Some("Alice".to_string()),
        text: Some("Hello!".to_string()),
        timestamp: "2025-08-31T23:30:12.520Z".to_string(),
        sort_key: "821744079".to_string(),
        is_edited: None,
        attachments: Some(vec![Attachment {
            typ: "image".to_string(),
            src_url: None,
            mime_type: Some("image/jpeg".to_string()),
            file_name: None,
            file_size: Some(1024),
            is_gif: Some(false),
            is_sticker: None,
            is_voice_note: None,
            duration: Some(JsonNumber::Float("2.5".to_string())),
            poster_img: None,
        }]),
        is_unread: None,
        reactions: Some(vec![Reaction {
            id: "r1".to_string(),
            reaction_key: "👍".to_string(),
            img_url: None,
            participant_id: "user-2".to_string(),
            emoji: Some(true),
        }]),
        reply_to_id: None,
        is_sender: Some(false),
    }
}

#[test]
fn round_trip_chat_with_preview() {
    let mut c = chat("single", "Alice", vec![user("u2", Some("@bob"), Some("Bob"), Some(false))]);
    c.last_read_message_sort_key = Some(453400065536);
    c.preview = Some(Box::new(message("m1")));
    let j = c.to_json();
    let back = Chat::from_json(&j).unwrap();
    assert_eq!(back.last_read_message_sort_key, Some(453400065536));
    assert_eq!(back.participants.items[0].full_name, Some("Bob".to_string()));
    let p = back.preview.unwrap();
    assert_eq!(p.sort_key, "821744079");
    assert_eq!(p.account_id, None);
    let a = &p.attachments.as_ref().unwrap()[0];
    assert_eq!(a.file_size, Some(1024));
    assert!(matches!(a.duration, Some(JsonNumber::Float(ref t)) if t == "2.5"));
    assert_eq!(p.reactions.as_ref().unwrap()[0].reaction_key, "👍");
    assert!(!keys(&j).contains(&"localChatID".to_string()));
}

#[test]
fn round_trip_listings() {
    let out = ListMessagesOutput { items: vec![message("m1"), message("m2")], has_more: true };
    let back = ListMessagesOutput::from_json(&out.to_json()).unwrap();
    assert_eq!(back.items.len(), 2);
    assert_eq!(back.items[1].id, "m2");
    assert!(back.has_more);
    let out = SearchMessagesOutput {
        items: vec![message("m1")],
        chats: Some(IdMap { entries: vec![("chat-1".to_string(), chat("group", "Team", vec![]))] }),
        has_more: false,
        oldest_cursor: None,
        newest_cursor: Some("n".to_string()),
    };
    let back = SearchMessagesOutput::from_json(&out.to_json()).unwrap();
    assert_eq!(back.chats.unwrap().get("chat-1").unwrap().title, "Team");
    assert_eq!(back.oldest_cursor, None);
    assert_eq!(back.newest_cursor, Some("n".to_string()));
}

#[test]
fn accounts_decode_from_array() {
    let body = JsonValue::Array(vec![obj(vec![
        ("accountID", s("whatsapp")),
        ("network", s("WhatsApp")),
        ("user", obj(vec![("id", s("u1")), ("isSelf", JsonValue::Bool(true))])),
    ])]);
    let accounts = handle_response::<Vec<Account>>(200, "", Some(body)).unwrap();
    assert_eq!(accounts.len(), 1);
    assert_eq!(accounts[0].network, "WhatsApp");
    assert_eq!(accounts[0].user.is_self, Some(true));
    let back = Account::from_json(&accounts[0].to_json()).unwrap();
    assert_eq!(back.user.id, "u1");
}

#[test]
fn only_some_statuses_read_the_body() {
    for status in [200u16, 201, 400, 403] {
        assert!(needs_json_body(status));
    }
    for status in [204u16, 401, 404, 418, 429, 500, 503] {
        assert!(!needs_json_body(status));
    }
}

#[test]
fn direction_wire_names() {
    assert_eq!(Direction::Before.as_str(), "before");
    assert_eq!(Direction::After.as_str(), "after");
    let r = client().list_chats(None, Some(Direction::Before.as_str()));
    assert!(r.url.ends_with("?direction=before"));
}

#[test]
fn service_unavailable_is_api_error_with_decimal_code() {
    match handle_response::<Vec<Account>>(503, "down for maintenance", None) {
        Err(BeeperError::ApiError { code, message }) => {
            assert_eq!(code, "503");
            assert_eq!(message, "down for maintenance");
        }
        _ => panic!("expected an API error"),
    }
}

#[test]
fn non_ascii_ids_are_encoded_byte_by_byte() {
    assert_eq!(client().get_chat("é~x").url, "http://localhost:23373/v1/chats/%C3%A9~x");
    assert_eq!(client().search_chats("a+b", None, None).url, "http://localhost:23373/v1/chats/search?q=a%2Bb");
}
