//! Message, attachment, and reaction models.
use vstd::prelude::*;
use crate::codec::{
    expect_object, lemma_id_map_round_trip, lemma_lookup_optional_member, lemma_vec_round_trip,
    optional, optional_member, optional_spec, push_member, push_optional, required,
    required_spec, FromJson, IdMap, ToJson,
};
use crate::json::{
    lemma_lookup_append, lemma_lookup_single, members_view, JsonNumber, JsonNumberV, JsonV,
    JsonValue,
};
use crate::models::chat::{lemma_chat_round_trip, Chat, ChatV};

verus! {

/// File attachment or media.
#[derive(Debug, Clone)]
pub struct Attachment {
    /// Attachment type, a free-text label
    pub typ: String,
    /// Public URL or local file path
    pub src_url: Option<String>,
    /// MIME type
    pub mime_type: Option<String>,
    /// File name as uploaded
    pub file_name: Option<String>,
    /// File size in bytes
    pub file_size: Option<u64>,
    /// True if GIF
    pub is_gif: Option<bool>,
    /// True if sticker
    pub is_sticker: Option<bool>,
    /// True if voice note
    pub is_voice_note: Option<bool>,
    /// Duration in seconds, kept as the number that was sent
    pub duration: Option<JsonNumber>,
    /// Preview image URL for videos
    pub poster_img: Option<String>,
}

pub struct AttachmentV {
    pub typ: Seq<char>,
    pub src_url: Option<Seq<char>>,
    pub mime_type: Option<Seq<char>>,
    pub file_name: Option<Seq<char>>,
    pub file_size: Option<u64>,
    pub is_gif: Option<bool>,
    pub is_sticker: Option<bool>,
    pub is_voice_note: Option<bool>,
    pub duration: Option<JsonNumberV>,
    pub poster_img: Option<Seq<char>>,
}

impl DeepView for Attachment {
    type V = AttachmentV;

    open spec fn deep_view(&self) -> AttachmentV {
        AttachmentV {
            typ: self.typ@,
            src_url: self.src_url.deep_view(),
            mime_type: self.mime_type.deep_view(),
            file_name: self.file_name.deep_view(),
            file_size: self.file_size.deep_view(),
            is_gif: self.is_gif.deep_view(),
            is_sticker: self.is_sticker.deep_view(),
            is_voice_note: self.is_voice_note.deep_view(),
            duration: self.duration.deep_view(),
            poster_img: self.poster_img.deep_view(),
        }
    }
}

impl FromJson for Attachment {
    open spec fn decode(j: JsonV) -> Option<AttachmentV> {
        let typ = required_spec::<String>(j, "type"@);
        let src_url = optional_spec::<String>(j, "srcURL"@);
        let mime_type = optional_spec::<String>(j, "mimeType"@);
        let file_name = optional_spec::<String>(j, "fileName"@);
        let file_size = optional_spec::<u64>(j, "fileSize"@);
        let is_gif = optional_spec::<bool>(j, "isGif"@);
        let is_sticker = optional_spec::<bool>(j, "isSticker"@);
        let is_voice_note = optional_spec::<bool>(j, "isVoiceNote"@);
        let duration = optional_spec::<JsonNumber>(j, "duration"@);
        let poster_img = optional_spec::<String>(j, "posterImg"@);
        if j is Object && typ is Some && src_url is Some && mime_type is Some && file_name is Some
            && file_size is Some && is_gif is Some && is_sticker is Some && is_voice_note is Some
            && duration is Some && poster_img is Some {
            Some(
                AttachmentV {
                    typ: typ->Some_0,
                    src_url: src_url->Some_0,
                    mime_type: mime_type->Some_0,
                    file_name: file_name->Some_0,
                    file_size: file_size->Some_0,
                    is_gif: is_gif->Some_0,
                    is_sticker: is_sticker->Some_0,
                    is_voice_note: is_voice_note->Some_0,
                    duration: duration->Some_0,
                    poster_img: poster_img->Some_0,
                },
            )
        } else {
            None
        }
    }

    fn from_json(j: &JsonValue) -> (r: Result<Attachment, String>) {
        expect_object(j)?;
        let typ = required::<String>(j, "type")?;
        let src_url = optional::<String>(j, "srcURL")?;
        let mime_type = optional::<String>(j, "mimeType")?;
        let file_name = optional::<String>(j, "fileName")?;
        let file_size = optional::<u64>(j, "fileSize")?;
        let is_gif = optional::<bool>(j, "isGif")?;
        let is_sticker = optional::<bool>(j, "isSticker")?;
        let is_voice_note = optional::<bool>(j, "isVoiceNote")?;
        let duration = optional::<JsonNumber>(j, "duration")?;
        let poster_img = optional::<String>(j, "posterImg")?;
        Ok(
            Attachment {
                typ,
                src_url,
                mime_type,
                file_name,
                file_size,
                is_gif,
                is_sticker,
                is_voice_note,
                duration,
                poster_img,
            },
        )
    }
}

impl ToJson for Attachment {
    open spec fn encode(v: AttachmentV) -> JsonV {
        JsonV::Object(
            seq![("type"@, String::encode(v.typ))]
                + optional_member::<String>("srcURL"@, v.src_url)
                + optional_member::<String>("mimeType"@, v.mime_type)
                + optional_member::<String>("fileName"@, v.file_name)
                + optional_member::<u64>("fileSize"@, v.file_size)
                + optional_member::<bool>("isGif"@, v.is_gif)
                + optional_member::<bool>("isSticker"@, v.is_sticker)
                + optional_member::<bool>("isVoiceNote"@, v.is_voice_note)
                + optional_member::<JsonNumber>("duration"@, v.duration)
                + optional_member::<String>("posterImg"@, v.poster_img),
        )
    }

    fn to_json(&self) -> (r: JsonValue) {
        let mut m: Vec<(String, JsonValue)> = Vec::new();
        push_member(&mut m, "type", &self.typ);
        assert(members_view(Seq::<(String, JsonValue)>::empty()) =~= Seq::empty());
        assert(members_view(m@) =~= seq![("type"@, String::encode(self.typ.deep_view()))]);
        push_optional(&mut m, "srcURL", &self.src_url);
        push_optional(&mut m, "mimeType", &self.mime_type);
        push_optional(&mut m, "fileName", &self.file_name);
        push_optional(&mut m, "fileSize", &self.file_size);
        push_optional(&mut m, "isGif", &self.is_gif);
        push_optional(&mut m, "isSticker", &self.is_sticker);
        push_optional(&mut m, "isVoiceNote", &self.is_voice_note);
        push_optional(&mut m, "duration", &self.duration);
        push_optional(&mut m, "posterImg", &self.poster_img);
        JsonValue::Object(m)
    }
}

/// Encoding an attachment and decoding the result gives it back; absent
/// fields stay absent.
pub proof fn lemma_attachment_round_trip(v: AttachmentV)
    ensures
        Attachment::decode(Attachment::encode(v)) == Some(v),
{
    broadcast use lemma_lookup_append, lemma_lookup_single, lemma_lookup_optional_member;

    reveal_strlit("type");
    reveal_strlit("srcURL");
    reveal_strlit("mimeType");
    reveal_strlit("fileName");
    reveal_strlit("fileSize");
    reveal_strlit("isGif");
    reveal_strlit("isSticker");
    reveal_strlit("isVoiceNote");
    reveal_strlit("duration");
    reveal_strlit("posterImg");
    assert("type"@.len() == 4
        && "srcURL"@.len() == 6
        && "mimeType"@.len() == 8
        && "fileName"@.len() == 8
        && "fileSize"@.len() == 8
        && "isGif"@.len() == 5
        && "isSticker"@.len() == 9
        && "isVoiceNote"@.len() == 11
        && "duration"@.len() == 8
        && "posterImg"@.len() == 9);
    assert("mimeType"@[0] != "fileName"@[0]
        && "mimeType"@[0] != "fileSize"@[0]
        && "mimeType"@[0] != "duration"@[0]
        && "fileName"@[4] != "fileSize"@[4]
        && "fileName"@[0] != "duration"@[0]
        && "fileSize"@[0] != "duration"@[0]
        && "isSticker"@[0] != "posterImg"@[0]);
    let j = Attachment::encode(v);
    assert(required_spec::<String>(j, "type"@) == Some(v.typ));
    assert(optional_spec::<String>(j, "srcURL"@) == Some(v.src_url));
    assert(optional_spec::<String>(j, "mimeType"@) == Some(v.mime_type));
    assert(optional_spec::<String>(j, "fileName"@) == Some(v.file_name));
    assert(optional_spec::<u64>(j, "fileSize"@) == Some(v.file_size));
    assert(optional_spec::<bool>(j, "isGif"@) == Some(v.is_gif));
    assert(optional_spec::<bool>(j, "isSticker"@) == Some(v.is_sticker));
    assert(optional_spec::<bool>(j, "isVoiceNote"@) == Some(v.is_voice_note));
    assert(optional_spec::<JsonNumber>(j, "duration"@) == Some(v.duration));
    assert(optional_spec::<String>(j, "posterImg"@) == Some(v.poster_img));
}

/// Emoji reaction to a message.
#[derive(Debug, Clone)]
pub struct Reaction {
    /// Reaction ID
    pub id: String,
    /// The reaction key (emoji or shortcode)
    pub reaction_key: String,
    /// URL to reaction image
    pub img_url: Option<String>,
    /// User ID of participant who reacted
    pub participant_id: String,
    /// True if the reactionKey is an emoji
    pub emoji: Option<bool>,
}

pub struct ReactionV {
    pub id: Seq<char>,
    pub reaction_key: Seq<char>,
    pub img_url: Option<Seq<char>>,
    pub participant_id: Seq<char>,
    pub emoji: Option<bool>,
}

impl DeepView for Reaction {
    type V = ReactionV;

    open spec fn deep_view(&self) -> ReactionV {
        ReactionV {
            id: self.id@,
            reaction_key: self.reaction_key@,
            img_url: self.img_url.deep_view(),
            participant_id: self.participant_id@,
            emoji: self.emoji.deep_view(),
        }
    }
}

impl FromJson for Reaction {
    open spec fn decode(j: JsonV) -> Option<ReactionV> {
        let id = required_spec::<String>(j, "id"@);
        let reaction_key = required_spec::<String>(j, "reactionKey"@);
        let img_url = optional_spec::<String>(j, "imgURL"@);
        let participant_id = required_spec::<String>(j, "participantID"@);
        let emoji = optional_spec::<bool>(j, "emoji"@);
        if j is Object && id is Some && reaction_key is Some && img_url is Some
            && participant_id is Some && emoji is Some {
            Some(
                ReactionV {
                    id: id->Some_0,
                    reaction_key: reaction_key->Some_0,
                    img_url: img_url->Some_0,
                    participant_id: participant_id->Some_0,
                    emoji: emoji->Some_0,
                },
            )
        } else {
            None
        }
    }

    fn from_json(j: &JsonValue) -> (r: Result<Reaction, String>) {
        expect_object(j)?;
        let id = required::<String>(j, "id")?;
        let reaction_key = required::<String>(j, "reactionKey")?;
        let img_url = optional::<String>(j, "imgURL")?;
        let participant_id = required::<String>(j, "participantID")?;
        let emoji = optional::<bool>(j, "emoji")?;
        Ok(Reaction { id, reaction_key, img_url, participant_id, emoji })
    }
}

impl ToJson for Reaction {
    open spec fn encode(v: ReactionV) -> JsonV {
        JsonV::Object(
            seq![("id"@, String::encode(v.id))]
                + seq![("reactionKey"@, String::encode(v.reaction_key))]
                + optional_member::<String>("imgURL"@, v.img_url)
                + seq![("participantID"@, String::encode(v.participant_id))]
                + optional_member::<bool>("emoji"@, v.emoji),
        )
    }

    fn to_json(&self) -> (r: JsonValue) {
        let mut m: Vec<(String, JsonValue)> = Vec::new();
        push_member(&mut m, "id", &self.id);
        assert(members_view(Seq::<(String, JsonValue)>::empty()) =~= Seq::empty());
        assert(members_view(m@) =~= seq![("id"@, String::encode(self.id.deep_view()))]);
        push_member(&mut m, "reactionKey", &self.reaction_key);
        push_optional(&mut m, "imgURL", &self.img_url);
        push_member(&mut m, "participantID", &self.participant_id);
        push_optional(&mut m, "emoji", &self.emoji);
        JsonValue::Object(m)
    }
}

/// Encoding a reaction and decoding the result gives it back.
pub proof fn lemma_reaction_round_trip(v: ReactionV)
    ensures
        Reaction::decode(Reaction::encode(v)) == Some(v),
{
    broadcast use lemma_lookup_append, lemma_lookup_single, lemma_lookup_optional_member;

    reveal_strlit("id");
    reveal_strlit("reactionKey");
    reveal_strlit("imgURL");
    reveal_strlit("participantID");
    reveal_strlit("emoji");
    assert("id"@.len() == 2
        && "reactionKey"@.len() == 11
        && "imgURL"@.len() == 6
        && "participantID"@.len() == 13
        && "emoji"@.len() == 5);
}

/// A message in a chat.
#[derive(Debug, Clone)]
pub struct Message {
    /// Message ID
    pub id: String,
    /// Chat ID this message belongs to
    pub chat_id: String,
    /// Account ID the message belongs to
    pub account_id: Option<String>,
    /// Sender user ID
    pub sender_id: String,
    /// Sender display name
    pub sender_name: Option<String>,
    /// Message text content
    pub text: Option<String>,
    /// Timestamp in ISO 8601 format
    pub timestamp: String,
    /// Opaque token for stable ordering; never read as a number
    pub sort_key: String,
    /// Is this message edited?
    pub is_edited: Option<bool>,
    /// Attachments
    pub attachments: Option<Vec<Attachment>>,
    /// True if the message is unread
    pub is_unread: Option<bool>,
    /// Reactions to this message
    pub reactions: Option<Vec<Reaction>>,
    /// Message ID this message replies to
    pub reply_to_id: Option<String>,
    /// Is this message from the current user (for previews)
    pub is_sender: Option<bool>,
}

pub struct MessageV {
    pub id: Seq<char>,
    pub chat_id: Seq<char>,
    pub account_id: Option<Seq<char>>,
    pub sender_id: Seq<char>,
    pub sender_name: Option<Seq<char>>,
    pub text: Option<Seq<char>>,
    pub timestamp: Seq<char>,
    pub sort_key: Seq<char>,
    pub is_edited: Option<bool>,
    pub attachments: Option<Seq<AttachmentV>>,
    pub is_unread: Option<bool>,
    pub reactions: Option<Seq<ReactionV>>,
    pub reply_to_id: Option<Seq<char>>,
    pub is_sender: Option<bool>,
}

impl DeepView for Message {
    type V = MessageV;

    open spec fn deep_view(&self) -> MessageV {
        MessageV {
            id: self.id@,
            chat_id: self.chat_id@,
            account_id: self.account_id.deep_view(),
            sender_id: self.sender_id@,
            sender_name: self.sender_name.deep_view(),
            text: self.text.deep_view(),
            timestamp: self.timestamp@,
            sort_key: self.sort_key@,
            is_edited: self.is_edited.deep_view(),
            attachments: self.attachments.deep_view(),
            is_unread: self.is_unread.deep_view(),
            reactions: self.reactions.deep_view(),
            reply_to_id: self.reply_to_id.deep_view(),
            is_sender: self.is_sender.deep_view(),
        }
    }
}

impl FromJson for Message {
    open spec fn decode(j: JsonV) -> Option<MessageV> {
        let id = required_spec::<String>(j, "id"@);
        let chat_id = required_spec::<String>(j, "chatID"@);
        let account_id = optional_spec::<String>(j, "accountID"@);
        let sender_id = required_spec::<String>(j, "senderID"@);
        let sender_name = optional_spec::<String>(j, "senderName"@);
        let text = optional_spec::<String>(j, "text"@);
        let timestamp = required_spec::<String>(j, "timestamp"@);
        let sort_key = required_spec::<String>(j, "sortKey"@);
        let is_edited = optional_spec::<bool>(j, "isEdited"@);
        let attachments = optional_spec::<Vec<Attachment>>(j, "attachments"@);
        let is_unread = optional_spec::<bool>(j, "isUnread"@);
        let reactions = optional_spec::<Vec<Reaction>>(j, "reactions"@);
        let reply_to_id = optional_spec::<String>(j, "replyToID"@);
        let is_sender = optional_spec::<bool>(j, "isSender"@);
        if j is Object && id is Some && chat_id is Some && account_id is Some && sender_id is Some
            && sender_name is Some && text is Some && timestamp is Some && sort_key is Some
            && is_edited is Some && attachments is Some && is_unread is Some && reactions is Some
            && reply_to_id is Some && is_sender is Some {
            Some(
                MessageV {
                    id: id->Some_0,
                    chat_id: chat_id->Some_0,
                    account_id: account_id->Some_0,
                    sender_id: sender_id->Some_0,
                    sender_name: sender_name->Some_0,
                    text: text->Some_0,
                    timestamp: timestamp->Some_0,
                    sort_key: sort_key->Some_0,
                    is_edited: is_edited->Some_0,
                    attachments: attachments->Some_0,
                    is_unread: is_unread->Some_0,
                    reactions: reactions->Some_0,
                    reply_to_id: reply_to_id->Some_0,
                    is_sender: is_sender->Some_0,
                },
            )
        } else {
            None
        }
    }

    fn from_json(j: &JsonValue) -> (r: Result<Message, String>) {
        expect_object(j)?;
        let id = required::<String>(j, "id")?;
        let chat_id = required::<String>(j, "chatID")?;
        let account_id = optional::<String>(j, "accountID")?;
        let sender_id = required::<String>(j, "senderID")?;
        let sender_name = optional::<String>(j, "senderName")?;
        let text = optional::<String>(j, "text")?;
        let timestamp = required::<String>(j, "timestamp")?;
        let sort_key = required::<String>(j, "sortKey")?;
        let is_edited = optional::<bool>(j, "isEdited")?;
        let attachments = optional::<Vec<Attachment>>(j, "attachments")?;
        let is_unread = optional::<bool>(j, "isUnread")?;
        let reactions = optional::<Vec<Reaction>>(j, "reactions")?;
        let reply_to_id = optional::<String>(j, "replyToID")?;
        let is_sender = optional::<bool>(j, "isSender")?;
        Ok(
            Message {
                id,
                chat_id,
                account_id,
                sender_id,
                sender_name,
                text,
                timestamp,
                sort_key,
                is_edited,
                attachments,
                is_unread,
                reactions,
                reply_to_id,
                is_sender,
            },
        )
    }
}

impl ToJson for Message {
    open spec fn encode(v: MessageV) -> JsonV {
        JsonV::Object(
            seq![("id"@, String::encode(v.id))]
                + seq![("chatID"@, String::encode(v.chat_id))]
                + optional_member::<String>("accountID"@, v.account_id)
                + seq![("senderID"@, String::encode(v.sender_id))]
                + optional_member::<String>("senderName"@, v.sender_name)
                + optional_member::<String>("text"@, v.text)
                + seq![("timestamp"@, String::encode(v.timestamp))]
                + seq![("sortKey"@, String::encode(v.sort_key))]
                + optional_member::<bool>("isEdited"@, v.is_edited)
                + optional_member::<Vec<Attachment>>("attachments"@, v.attachments)
                + optional_member::<bool>("isUnread"@, v.is_unread)
                + optional_member::<Vec<Reaction>>("reactions"@, v.reactions)
                + optional_member::<String>("replyToID"@, v.reply_to_id)
                + optional_member::<bool>("isSender"@, v.is_sender),
        )
    }

    fn to_json(&self) -> (r: JsonValue) {
        let mut m: Vec<(String, JsonValue)> = Vec::new();
        push_member(&mut m, "id", &self.id);
        assert(members_view(Seq::<(String, JsonValue)>::empty()) =~= Seq::empty());
        assert(members_view(m@) =~= seq![("id"@, String::encode(self.id.deep_view()))]);
        push_member(&mut m, "chatID", &self.chat_id);
        push_optional(&mut m, "accountID", &self.account_id);
        push_member(&mut m, "senderID", &self.sender_id);
        push_optional(&mut m, "senderName", &self.sender_name);
        push_optional(&mut m, "text", &self.text);
        push_member(&mut m, "timestamp", &self.timestamp);
        push_member(&mut m, "sortKey", &self.sort_key);
        push_optional(&mut m, "isEdited", &self.is_edited);
        push_optional(&mut m, "attachments", &self.attachments);
        push_optional(&mut m, "isUnread", &self.is_unread);
        push_optional(&mut m, "reactions", &self.reactions);
        push_optional(&mut m, "replyToID", &self.reply_to_id);
        push_optional(&mut m, "isSender", &self.is_sender);
        JsonValue::Object(m)
    }
}

/// Encoding a message and decoding the result gives it back; absent fields
/// stay absent.
#[verifier::rlimit(60)]
pub proof fn lemma_message_round_trip(v: MessageV)
    ensures
        Message::decode(Message::encode(v)) == Some(v),
{
    broadcast use lemma_lookup_append, lemma_lookup_single, lemma_lookup_optional_member;

    reveal_strlit("id");
    reveal_strlit("chatID");
    reveal_strlit("accountID");
    reveal_strlit("senderID");
    reveal_strlit("senderName");
    reveal_strlit("text");
    reveal_strlit("timestamp");
    reveal_strlit("sortKey");
    reveal_strlit("isEdited");
    reveal_strlit("attachments");
    reveal_strlit("isUnread");
    reveal_strlit("reactions");
    reveal_strlit("replyToID");
    reveal_strlit("isSender");
    assert("id"@.len() == 2
        && "chatID"@.len() == 6
        && "accountID"@.len() == 9
        && "senderID"@.len() == 8
        && "senderName"@.len() == 10
        && "text"@.len() == 4
        && "timestamp"@.len() == 9
        && "sortKey"@.len() == 7
        && "isEdited"@.len() == 8
        && "attachments"@.len() == 11
        && "isUnread"@.len() == 8
        && "reactions"@.len() == 9
        && "replyToID"@.len() == 9
        && "isSender"@.len() == 8);
    assert("accountID"@[0] != "timestamp"@[0]
        && "accountID"@[0] != "reactions"@[0]
        && "accountID"@[0] != "replyToID"@[0]
        && "senderID"@[0] != "isEdited"@[0]
        && "senderID"@[0] != "isUnread"@[0]
        && "senderID"@[0] != "isSender"@[0]
        && "timestamp"@[0] != "reactions"@[0]
        && "timestamp"@[0] != "replyToID"@[0]
        && "isEdited"@[2] != "isUnread"@[2]
        && "isEdited"@[2] != "isSender"@[2]
        && "isUnread"@[2] != "isSender"@[2]
        && "reactions"@[2] != "replyToID"@[2]);
    assert forall|x: AttachmentV| #[trigger] Attachment::decode(Attachment::encode(x)) == Some(x) by {
        lemma_attachment_round_trip(x);
    }
    assert forall|x: ReactionV| #[trigger] Reaction::decode(Reaction::encode(x)) == Some(x) by {
        lemma_reaction_round_trip(x);
    }
    if let Some(a) = v.attachments {
        lemma_vec_round_trip::<Attachment>(a);
    }
    if let Some(r) = v.reactions {
        lemma_vec_round_trip::<Reaction>(r);
    }
    let j = Message::encode(v);
    assert(required_spec::<String>(j, "id"@) == Some(v.id));
    assert(required_spec::<String>(j, "chatID"@) == Some(v.chat_id));
    assert(optional_spec::<String>(j, "accountID"@) == Some(v.account_id));
    assert(required_spec::<String>(j, "senderID"@) == Some(v.sender_id));
    assert(optional_spec::<String>(j, "senderName"@) == Some(v.sender_name));
    assert(optional_spec::<String>(j, "text"@) == Some(v.text));
    assert(required_spec::<String>(j, "timestamp"@) == Some(v.timestamp));
    assert(required_spec::<String>(j, "sortKey"@) == Some(v.sort_key));
    assert(optional_spec::<bool>(j, "isEdited"@) == Some(v.is_edited));
    assert(optional_spec::<Vec<Attachment>>(j, "attachments"@) == Some(v.attachments));
    assert(optional_spec::<bool>(j, "isUnread"@) == Some(v.is_unread));
    assert(optional_spec::<Vec<Reaction>>(j, "reactions"@) == Some(v.reactions));
    assert(optional_spec::<String>(j, "replyToID"@) == Some(v.reply_to_id));
    assert(optional_spec::<bool>(j, "isSender"@) == Some(v.is_sender));
}

/// Input for sending a message.
#[derive(Debug, Clone)]
pub struct SendMessageInput {
    /// Message text
    pub text: String,
    /// ID of message to reply to (optional)
    pub reply_to_id: Option<String>,
}

pub struct SendMessageInputV {
    pub text: Seq<char>,
    pub reply_to_id: Option<Seq<char>>,
}

impl DeepView for SendMessageInput {
    type V = SendMessageInputV;

    open spec fn deep_view(&self) -> SendMessageInputV {
        SendMessageInputV { text: self.text@, reply_to_id: self.reply_to_id.deep_view() }
    }
}

impl ToJson for SendMessageInput {
    open spec fn encode(v: SendMessageInputV) -> JsonV {
        JsonV::Object(
            seq![("text"@, String::encode(v.text))]
                + optional_member::<String>("replyToID"@, v.reply_to_id),
        )
    }

    fn to_json(&self) -> (r: JsonValue) {
        let mut m: Vec<(String, JsonValue)> = Vec::new();
        push_member(&mut m, "text", &self.text);
        assert(members_view(Seq::<(String, JsonValue)>::empty()) =~= Seq::empty());
        assert(members_view(m@) =~= seq![("text"@, String::encode(self.text.deep_view()))]);
        push_optional(&mut m, "replyToID", &self.reply_to_id);
        JsonValue::Object(m)
    }
}

impl FromJson for SendMessageInput {
    open spec fn decode(j: JsonV) -> Option<SendMessageInputV> {
        let text = required_spec::<String>(j, "text"@);
        let reply_to_id = optional_spec::<String>(j, "replyToID"@);
        if j is Object && text is Some && reply_to_id is Some {
            Some(SendMessageInputV { text: text->Some_0, reply_to_id: reply_to_id->Some_0 })
        } else {
            None
        }
    }

    fn from_json(j: &JsonValue) -> (r: Result<SendMessageInput, String>) {
        expect_object(j)?;
        let text = required::<String>(j, "text")?;
        let reply_to_id = optional::<String>(j, "replyToID")?;
        Ok(SendMessageInput { text, reply_to_id })
    }
}

/// Encoding a send-message input and decoding the result gives the input
/// back; an absent reply target stays absent.
pub proof fn lemma_send_message_input_round_trip(v: SendMessageInputV)
    ensures
        SendMessageInput::decode(SendMessageInput::encode(v)) == Some(v),
{
    broadcast use lemma_lookup_append, lemma_lookup_single, lemma_lookup_optional_member;

    reveal_strlit("text");
    reveal_strlit("replyToID");
    assert("text"@.len() == 4
        && "replyToID"@.len() == 9);
    let j = SendMessageInput::encode(v);
    assert(required_spec::<String>(j, "text"@) == Some(v.text));
    assert(optional_spec::<String>(j, "replyToID"@) == Some(v.reply_to_id));
}

/// Output from sending a message.
#[derive(Debug, Clone)]
pub struct SendMessageOutput {
    /// Chat ID where message was sent
    pub chat_id: String,
    /// Pending message ID
    pub pending_message_id: String,
}

pub struct SendMessageOutputV {
    pub chat_id: Seq<char>,
    pub pending_message_id: Seq<char>,
}

impl DeepView for SendMessageOutput {
    type V = SendMessageOutputV;

    open spec fn deep_view(&self) -> SendMessageOutputV {
        SendMessageOutputV { chat_id: self.chat_id@, pending_message_id: self.pending_message_id@ }
    }
}

impl ToJson for SendMessageOutput {
    open spec fn encode(v: SendMessageOutputV) -> JsonV {
        JsonV::Object(
            seq![("chatID"@, String::encode(v.chat_id))]
                + seq![("pendingMessageID"@, String::encode(v.pending_message_id))],
        )
    }

    fn to_json(&self) -> (r: JsonValue) {
        let mut m: Vec<(String, JsonValue)> = Vec::new();
        push_member(&mut m, "chatID", &self.chat_id);
        assert(members_view(Seq::<(String, JsonValue)>::empty()) =~= Seq::empty());
        assert(members_view(m@) =~= seq![("chatID"@, String::encode(self.chat_id.deep_view()))]);
        push_member(&mut m, "pendingMessageID", &self.pending_message_id);
        JsonValue::Object(m)
    }
}

impl FromJson for SendMessageOutput {
    open spec fn decode(j: JsonV) -> Option<SendMessageOutputV> {
        let chat_id = required_spec::<String>(j, "chatID"@);
        let pending_message_id = required_spec::<String>(j, "pendingMessageID"@);
        if j is Object && chat_id is Some && pending_message_id is Some {
            Some(
                SendMessageOutputV {
                    chat_id: chat_id->Some_0,
                    pending_message_id: pending_message_id->Some_0,
                },
            )
        } else {
            None
        }
    }

    fn from_json(j: &JsonValue) -> (r: Result<SendMessageOutput, String>) {
        expect_object(j)?;
        let chat_id = required::<String>(j, "chatID")?;
        let pending_message_id = required::<String>(j, "pendingMessageID")?;
        Ok(SendMessageOutput { chat_id, pending_message_id })
    }
}

/// Encoding a send-message output and decoding the result gives it back.
pub proof fn lemma_send_message_output_round_trip(v: SendMessageOutputV)
    ensures
        SendMessageOutput::decode(SendMessageOutput::encode(v)) == Some(v),
{
    broadcast use lemma_lookup_append, lemma_lookup_single, lemma_lookup_optional_member;

    reveal_strlit("chatID");
    reveal_strlit("pendingMessageID");
    assert("chatID"@.len() == 6
        && "pendingMessageID"@.len() == 16);
    let j = SendMessageOutput::encode(v);
    assert(required_spec::<String>(j, "chatID"@) == Some(v.chat_id));
    assert(required_spec::<String>(j, "pendingMessageID"@) == Some(v.pending_message_id));
}

/// Output from listing the messages of a chat.  This listing carries no
/// cursors: it pages differently from the global listings and searches.
#[derive(Debug, Clone)]
pub struct ListMessagesOutput {
    /// Messages in the chat
    pub items: Vec<Message>,
    /// Whether there are more results
    pub has_more: bool,
}

pub struct ListMessagesOutputV {
    pub items: Seq<MessageV>,
    pub has_more: bool,
}

impl DeepView for ListMessagesOutput {
    type V = ListMessagesOutputV;

    open spec fn deep_view(&self) -> ListMessagesOutputV {
        ListMessagesOutputV { items: self.items.deep_view(), has_more: self.has_more }
    }
}

impl FromJson for ListMessagesOutput {
    open spec fn decode(j: JsonV) -> Option<ListMessagesOutputV> {
        let items = required_spec::<Vec<Message>>(j, "items"@);
        let has_more = required_spec::<bool>(j, "hasMore"@);
        if j is Object && items is Some && has_more is Some {
            Some(ListMessagesOutputV { items: items->Some_0, has_more: has_more->Some_0 })
        } else {
            None
        }
    }

    fn from_json(j: &JsonValue) -> (r: Result<ListMessagesOutput, String>) {
        expect_object(j)?;
        let items = required::<Vec<Message>>(j, "items")?;
        let has_more = required::<bool>(j, "hasMore")?;
        Ok(ListMessagesOutput { items, has_more })
    }
}

impl ToJson for ListMessagesOutput {
    open spec fn encode(v: ListMessagesOutputV) -> JsonV {
        JsonV::Object(
            seq![("items"@, Vec::<Message>::encode(v.items))]
                + seq![("hasMore"@, bool::encode(v.has_more))],
        )
    }

    fn to_json(&self) -> (r: JsonValue) {
        let mut m: Vec<(String, JsonValue)> = Vec::new();
        push_member(&mut m, "items", &self.items);
        assert(members_view(Seq::<(String, JsonValue)>::empty()) =~= Seq::empty());
        assert(members_view(m@) =~= seq![("items"@, Vec::<Message>::encode(self.items.deep_view()))]);
        push_member(&mut m, "hasMore", &self.has_more);
        JsonValue::Object(m)
    }
}

/// Encoding a message listing and decoding the result gives it back.
pub proof fn lemma_list_messages_output_round_trip(v: ListMessagesOutputV)
    ensures
        ListMessagesOutput::decode(ListMessagesOutput::encode(v)) == Some(v),
{
    broadcast use lemma_lookup_append, lemma_lookup_single, lemma_lookup_optional_member;

    reveal_strlit("items");
    reveal_strlit("hasMore");
    assert("items"@.len() == 5
        && "hasMore"@.len() == 7);
    assert forall|x: MessageV| #[trigger] Message::decode(Message::encode(x)) == Some(x) by {
        lemma_message_round_trip(x);
    }
    lemma_vec_round_trip::<Message>(v.items);
    let j = ListMessagesOutput::encode(v);
    assert(required_spec::<Vec<Message>>(j, "items"@) == Some(v.items));
    assert(required_spec::<bool>(j, "hasMore"@) == Some(v.has_more));
}

/// Output from searching messages.
#[derive(Debug, Clone)]
pub struct SearchMessagesOutput {
    /// Matching messages
    pub items: Vec<Message>,
    /// Chat ID -> chat details, for the chats referenced in items
    pub chats: Option<IdMap<Chat>>,
    /// Whether there are more results
    pub has_more: bool,
    /// Cursor for older messages
    pub oldest_cursor: Option<String>,
    /// Cursor for newer messages
    pub newest_cursor: Option<String>,
}

pub struct SearchMessagesOutputV {
    pub items: Seq<MessageV>,
    pub chats: Option<Seq<(Seq<char>, ChatV)>>,
    pub has_more: bool,
    pub oldest_cursor: Option<Seq<char>>,
    pub newest_cursor: Option<Seq<char>>,
}

impl DeepView for SearchMessagesOutput {
    type V = SearchMessagesOutputV;

    open spec fn deep_view(&self) -> SearchMessagesOutputV {
        SearchMessagesOutputV {
            items: self.items.deep_view(),
            chats: self.chats.deep_view(),
            has_more: self.has_more,
            oldest_cursor: self.oldest_cursor.deep_view(),
            newest_cursor: self.newest_cursor.deep_view(),
        }
    }
}

impl FromJson for SearchMessagesOutput {
    open spec fn decode(j: JsonV) -> Option<SearchMessagesOutputV> {
        let items = required_spec::<Vec<Message>>(j, "items"@);
        let chats = optional_spec::<IdMap<Chat>>(j, "chats"@);
        let has_more = required_spec::<bool>(j, "hasMore"@);
        let oldest_cursor = optional_spec::<String>(j, "oldestCursor"@);
        let newest_cursor = optional_spec::<String>(j, "newestCursor"@);
        if j is Object && items is Some && chats is Some && has_more is Some && oldest_cursor is Some
            && newest_cursor is Some {
            Some(
                SearchMessagesOutputV {
                    items: items->Some_0,
                    chats: chats->Some_0,
                    has_more: has_more->Some_0,
                    oldest_cursor: oldest_cursor->Some_0,
                    newest_cursor: newest_cursor->Some_0,
                },
            )
        } else {
            None
        }
    }

    fn from_json(j: &JsonValue) -> (r: Result<SearchMessagesOutput, String>) {
        expect_object(j)?;
        let items = required::<Vec<Message>>(j, "items")?;
        let chats = optional::<IdMap<Chat>>(j, "chats")?;
        let has_more = required::<bool>(j, "hasMore")?;
        let oldest_cursor = optional::<String>(j, "oldestCursor")?;
        let newest_cursor = optional::<String>(j, "newestCursor")?;
        Ok(SearchMessagesOutput { items, chats, has_more, oldest_cursor, newest_cursor })
    }
}

impl ToJson for SearchMessagesOutput {
    open spec fn encode(v: SearchMessagesOutputV) -> JsonV {
        JsonV::Object(
            seq![("items"@, Vec::<Message>::encode(v.items))]
                + optional_member::<IdMap<Chat>>("chats"@, v.chats)
                + seq![("hasMore"@, bool::encode(v.has_more))]
                + optional_member::<String>("oldestCursor"@, v.oldest_cursor)
                + optional_member::<String>("newestCursor"@, v.newest_cursor),
        )
    }

    fn to_json(&self) -> (r: JsonValue) {
        let mut m: Vec<(String, JsonValue)> = Vec::new();
        push_member(&mut m, "items", &self.items);
        assert(members_view(Seq::<(String, JsonValue)>::empty()) =~= Seq::empty());
        assert(members_view(m@) =~= seq![("items"@, Vec::<Message>::encode(self.items.deep_view()))]);
        push_optional(&mut m, "chats", &self.chats);
        push_member(&mut m, "hasMore", &self.has_more);
        push_optional(&mut m, "oldestCursor", &self.oldest_cursor);
        push_optional(&mut m, "newestCursor", &self.newest_cursor);
        JsonValue::Object(m)
    }
}

/// Encoding a message search result and decoding it gives it back; absent
/// fields stay absent.
pub proof fn lemma_search_messages_output_round_trip(v: SearchMessagesOutputV)
    ensures
        SearchMessagesOutput::decode(SearchMessagesOutput::encode(v)) == Some(v),
{
    broadcast use lemma_lookup_append, lemma_lookup_single, lemma_lookup_optional_member;

    reveal_strlit("items");
    reveal_strlit("chats");
    reveal_strlit("hasMore");
    reveal_strlit("oldestCursor");
    reveal_strlit("newestCursor");
    assert("items"@.len() == 5
        && "chats"@.len() == 5
        && "hasMore"@.len() == 7
        && "oldestCursor"@.len() == 12
        && "newestCursor"@.len() == 12);
    assert("items"@[0] != "chats"@[0]
        && "oldestCursor"@[0] != "newestCursor"@[0]);
    assert forall|x: MessageV| #[trigger] Message::decode(Message::encode(x)) == Some(x) by {
        lemma_message_round_trip(x);
    }
    assert forall|x: ChatV| #[trigger] Chat::decode(Chat::encode(x)) == Some(x) by {
        lemma_chat_round_trip(x);
    }
    lemma_vec_round_trip::<Message>(v.items);
    if let Some(c) = v.chats {
        lemma_id_map_round_trip::<Chat>(c);
    }
    let j = SearchMessagesOutput::encode(v);
    assert(required_spec::<Vec<Message>>(j, "items"@) == Some(v.items));
    assert(optional_spec::<IdMap<Chat>>(j, "chats"@) == Some(v.chats));
    assert(required_spec::<bool>(j, "hasMore"@) == Some(v.has_more));
    assert(optional_spec::<String>(j, "oldestCursor"@) == Some(v.oldest_cursor));
    assert(optional_spec::<String>(j, "newestCursor"@) == Some(v.newest_cursor));
}

} // verus!
