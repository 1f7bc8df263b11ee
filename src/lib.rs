//! A typed client for the local desktop messaging API.
//!
//! The library builds each API request (URL, query, `Authorization` header,
//! JSON body) from the client's token and base URL, decodes response bodies
//! into a typed model with tolerant rules, and classifies failures into a
//! small error taxonomy.  Sending requests is left to the caller.
pub mod client;
pub mod codec;
pub mod error;
pub mod json;
pub mod models;

pub use client::{ApiRequest, BeeperClient, HttpMethod};
pub use codec::{FromJson, IdMap, ToJson};
pub use error::{BeeperError, Result};
pub use json::{JsonNumber, JsonValue};
pub use models::{
    Account, AccountID, Attachment, Chat, ChatID, CreateChatInput, CreateChatOutput, Cursor,
    Direction, DownloadAssetInput, DownloadAssetOutput, FocusAppInput, FocusAppOutput,
    GetAccountsOutput, ListChatsOutput, ListMessagesOutput, Message, Participants, Reaction,
    SearchChatsOutput, SearchMessagesOutput, SendMessageInput, SendMessageOutput, User,
};
