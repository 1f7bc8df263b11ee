//! The typed model of the API's requests and responses.
pub mod app;
pub mod chat;
pub mod common;
pub mod message;
pub mod user;

pub use app::{DownloadAssetInput, DownloadAssetOutput, FocusAppInput, FocusAppOutput};
pub use chat::{
    Chat, CreateChatInput, CreateChatOutput, ListChatsOutput, Participants, SearchChatsOutput,
};
pub use common::{AccountID, ChatID, Cursor, Direction};
pub use message::{
    Attachment, ListMessagesOutput, Message, Reaction, SearchMessagesOutput, SendMessageInput,
    SendMessageOutput,
};
pub use user::{Account, GetAccountsOutput, User};
