//! Requests of the message operations.
use vstd::prelude::*;
use crate::codec::ToJson;
use crate::models::message::SendMessageInput;
use super::{
    append_page_query, chat_path, chat_url, page_query, ApiRequest, BeeperClient, HttpMethod,
};

verus! {

impl BeeperClient {
    /// Lists the messages of a chat, one page at a time:
    /// `GET /v1/chats/{chatID}/messages[?cursor=&direction=]`.
    pub fn list_messages(&self, chat_id: &str, cursor: Option<&str>, direction: Option<&str>) -> (r:
        ApiRequest)
        ensures
            r.method == HttpMethod::Get,
            r.url@ == chat_url(self@.base_url, chat_id@, "/messages"@) + page_query(
                cursor.deep_view(),
                direction.deep_view(),
            ),
            r.authorization@ == "Bearer "@ + self@.token,
            r.body is None,
    {
        let mut url = chat_path(self.get_base_url(), chat_id, "/messages");
        append_page_query(&mut url, cursor, direction);
        self.request(HttpMethod::Get, url, None)
    }

    /// Sends a text message to a chat, possibly as a reply:
    /// `POST /v1/chats/{chatID}/messages` with the input as body.
    pub fn send_message(&self, chat_id: &str, input: SendMessageInput) -> (r: ApiRequest)
        ensures
            r.method == HttpMethod::Post,
            r.url@ == chat_url(self@.base_url, chat_id@, "/messages"@),
            r.authorization@ == "Bearer "@ + self@.token,
            r.body matches Some(b) && b@ == SendMessageInput::encode(input.deep_view()),
    {
        let url = chat_path(self.get_base_url(), chat_id, "/messages");
        self.request(HttpMethod::Post, url, Some(input.to_json()))
    }
}

} // verus!
