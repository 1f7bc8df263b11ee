//! Requests of the chat operations.
use vstd::prelude::*;
use crate::codec::{push_member, ToJson};
use crate::json::{members_view, JsonV, JsonValue};
use crate::models::chat::CreateChatInput;
use super::{
    append_page_query, chat_path, chat_url, empty_object, join, page_query, ApiRequest,
    BeeperClient, HttpMethod,
};

verus! {

/// An object with the single member `key: value`.
fn single_member<T: ToJson>(key: &str, value: &T) -> (r: JsonValue)
    ensures
        r@ == JsonV::Object(seq![(key@, T::encode(value.deep_view()))]),
{
    let mut m: Vec<(String, JsonValue)> = Vec::new();
    push_member(&mut m, key, value);
    assert(members_view(Seq::<(String, JsonValue)>::empty()) =~= Seq::empty());
    assert(members_view(m@) =~= seq![(key@, T::encode(value.deep_view()))]);
    JsonValue::Object(m)
}

impl BeeperClient {
    /// Lists all chats, sorted by last activity, across all accounts:
    /// `GET /v1/chats[?cursor=&direction=]`.  With neither cursor nor
    /// direction the URL has no query at all.
    pub fn list_chats(&self, cursor: Option<&str>, direction: Option<&str>) -> (r: ApiRequest)
        ensures
            r.method == HttpMethod::Get,
            r.url@ == self@.base_url + "/v1/chats"@ + page_query(
                cursor.deep_view(),
                direction.deep_view(),
            ),
            r.authorization@ == "Bearer "@ + self@.token,
            r.body is None,
    {
        let mut url = join(self.get_base_url(), "/v1/chats");
        append_page_query(&mut url, cursor, direction);
        self.request(HttpMethod::Get, url, None)
    }

    /// Retrieves a chat with its participants and latest message:
    /// `GET /v1/chats/{chatID}`.
    pub fn get_chat(&self, chat_id: &str) -> (r: ApiRequest)
        ensures
            r.method == HttpMethod::Get,
            r.url@ == chat_url(self@.base_url, chat_id@, ""@),
            r.authorization@ == "Bearer "@ + self@.token,
            r.body is None,
    {
        let url = chat_path(self.get_base_url(), chat_id, "");
        self.request(HttpMethod::Get, url, None)
    }

    /// Creates a single or group chat on an account:
    /// `POST /v1/chats` with the input as body.
    pub fn create_chat(&self, input: CreateChatInput) -> (r: ApiRequest)
        ensures
            r.method == HttpMethod::Post,
            r.url@ == self@.base_url + "/v1/chats"@,
            r.authorization@ == "Bearer "@ + self@.token,
            r.body matches Some(b) && b@ == CreateChatInput::encode(input.deep_view()),
    {
        let url = join(self.get_base_url(), "/v1/chats");
        self.request(HttpMethod::Post, url, Some(input.to_json()))
    }

    /// Archives or unarchives a chat:
    /// `POST /v1/chats/{chatID}/archive` with `{"archived": archived}`.
    pub fn archive_chat(&self, chat_id: &str, archived: bool) -> (r: ApiRequest)
        ensures
            r.method == HttpMethod::Post,
            r.url@ == chat_url(self@.base_url, chat_id@, "/archive"@),
            r.authorization@ == "Bearer "@ + self@.token,
            r.body matches Some(b) && b@ == JsonV::Object(
                seq![("archived"@, JsonV::Bool(archived))],
            ),
    {
        let url = chat_path(self.get_base_url(), chat_id, "/archive");
        self.request(HttpMethod::Post, url, Some(single_member("archived", &archived)))
    }

    /// Sets a reminder for a chat:
    /// `POST /v1/chats/{chatID}/reminders` with `{"timestamp": timestamp}`.
    pub fn set_chat_reminder(&self, chat_id: &str, timestamp: &str) -> (r: ApiRequest)
        ensures
            r.method == HttpMethod::Post,
            r.url@ == chat_url(self@.base_url, chat_id@, "/reminders"@),
            r.authorization@ == "Bearer "@ + self@.token,
            r.body matches Some(b) && b@ == JsonV::Object(
                seq![("timestamp"@, JsonV::Str(timestamp@))],
            ),
    {
        let url = chat_path(self.get_base_url(), chat_id, "/reminders");
        let ts = String::from_str(timestamp);
        self.request(HttpMethod::Post, url, Some(single_member("timestamp", &ts)))
    }

    /// Clears the reminder of a chat:
    /// `DELETE /v1/chats/{chatID}/reminders` with the empty object as body.
    pub fn clear_chat_reminder(&self, chat_id: &str) -> (r: ApiRequest)
        ensures
            r.method == HttpMethod::Delete,
            r.url@ == chat_url(self@.base_url, chat_id@, "/reminders"@),
            r.authorization@ == "Bearer "@ + self@.token,
            r.body matches Some(b) && b@ == JsonV::Object(Seq::empty()),
    {
        let url = chat_path(self.get_base_url(), chat_id, "/reminders");
        self.request(HttpMethod::Delete, url, Some(empty_object()))
    }
}

} // verus!
