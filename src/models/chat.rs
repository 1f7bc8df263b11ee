//! Chat models, the tolerant decoding of a chat's read marker, and the
//! display name of a chat.
use vstd::prelude::*;
use vstd::string::StrSliceExecFns;
use crate::codec::{
    expect_object, lemma_id_map_round_trip, lemma_lookup_optional_member, lemma_vec_round_trip,
    optional, optional_member, optional_spec, push_member, push_optional, required,
    required_spec, FromJson, IdMap, ToJson,
};
use crate::json::{
    field, get_field, lemma_lookup_append, lemma_lookup_single, members_view, JsonNumber,
    JsonNumberV, JsonV, JsonValue,
};
use crate::models::message::{lemma_message_round_trip, Message, MessageV};
use crate::models::user::{lemma_user_round_trip, User, UserV};

verus! {

/// Chat participants, possibly only the first page of them.
#[derive(Debug, Clone)]
pub struct Participants {
    /// List of participants
    pub items: Vec<User>,
    /// Whether there are more participants not included
    pub has_more: bool,
    /// Total number of participants in the chat
    pub total: u32,
}

pub struct ParticipantsV {
    pub items: Seq<UserV>,
    pub has_more: bool,
    pub total: u32,
}

impl DeepView for Participants {
    type V = ParticipantsV;

    open spec fn deep_view(&self) -> ParticipantsV {
        ParticipantsV {
            items: self.items.deep_view(),
            has_more: self.has_more,
            total: self.total,
        }
    }
}

impl FromJson for Participants {
    open spec fn decode(j: JsonV) -> Option<ParticipantsV> {
        let items = required_spec::<Vec<User>>(j, "items"@);
        let has_more = required_spec::<bool>(j, "hasMore"@);
        let total = required_spec::<u32>(j, "total"@);
        if j is Object && items is Some && has_more is Some && total is Some {
            Some(
                ParticipantsV {
                    items: items->Some_0,
                    has_more: has_more->Some_0,
                    total: total->Some_0,
                },
            )
        } else {
            None
        }
    }

    fn from_json(j: &JsonValue) -> (r: Result<Participants, String>) {
        expect_object(j)?;
        let items = required::<Vec<User>>(j, "items")?;
        let has_more = required::<bool>(j, "hasMore")?;
        let total = required::<u32>(j, "total")?;
        Ok(Participants { items, has_more, total })
    }
}

impl ToJson for Participants {
    open spec fn encode(v: ParticipantsV) -> JsonV {
        JsonV::Object(
            seq![("items"@, Vec::<User>::encode(v.items))]
                + seq![("hasMore"@, bool::encode(v.has_more))]
                + seq![("total"@, u32::encode(v.total))],
        )
    }

    fn to_json(&self) -> (r: JsonValue) {
        let mut m: Vec<(String, JsonValue)> = Vec::new();
        push_member(&mut m, "items", &self.items);
        assert(members_view(Seq::<(String, JsonValue)>::empty()) =~= Seq::empty());
        assert(members_view(m@) =~= seq![("items"@, Vec::<User>::encode(self.items.deep_view()))]);
        push_member(&mut m, "hasMore", &self.has_more);
        push_member(&mut m, "total", &self.total);
        JsonValue::Object(m)
    }
}

/// Encoding a participant list and decoding the result gives it back.
pub proof fn lemma_participants_round_trip(v: ParticipantsV)
    ensures
        Participants::decode(Participants::encode(v)) == Some(v),
{
    broadcast use lemma_lookup_append, lemma_lookup_single, lemma_lookup_optional_member;

    reveal_strlit("items");
    reveal_strlit("hasMore");
    reveal_strlit("total");
    assert("items"@.len() == 5
        && "hasMore"@.len() == 7
        && "total"@.len() == 5);
    assert("items"@[0] != "total"@[0]);
    assert forall|x: UserV| #[trigger] User::decode(User::encode(x)) == Some(x) by {
        lemma_user_round_trip(x);
    }
    lemma_vec_round_trip::<User>(v.items);
}

/// A chat or conversation.
#[derive(Debug, Clone)]
pub struct Chat {
    /// Unique chat ID
    pub id: String,
    /// Local chat ID specific to this Beeper Desktop installation
    pub local_chat_id: Option<String>,
    /// Account ID this chat belongs to
    pub account_id: String,
    /// Display-only human-readable network name (e.g., 'WhatsApp', 'Messenger')
    pub network: String,
    /// Display title of the chat
    pub title: String,
    /// Chat type: 'single' for direct messages, 'group' for group chats; other
    /// values pass through unchanged
    pub chat_type: String,
    /// Chat participants information
    pub participants: Participants,
    /// Timestamp of last activity
    pub last_activity: Option<String>,
    /// Number of unread messages
    pub unread_count: u32,
    /// Sort key of the last read message; sent as a number or as a string of digits
    pub last_read_message_sort_key: Option<u64>,
    /// True if chat is archived
    pub is_archived: bool,
    /// True if chat notifications are muted
    pub is_muted: bool,
    /// True if chat is pinned
    pub is_pinned: bool,
    /// Last message preview for this chat, if available
    pub preview: Option<Box<Message>>,
}

pub struct ChatV {
    pub id: Seq<char>,
    pub local_chat_id: Option<Seq<char>>,
    pub account_id: Seq<char>,
    pub network: Seq<char>,
    pub title: Seq<char>,
    pub chat_type: Seq<char>,
    pub participants: ParticipantsV,
    pub last_activity: Option<Seq<char>>,
    pub unread_count: u32,
    pub last_read_message_sort_key: Option<u64>,
    pub is_archived: bool,
    pub is_muted: bool,
    pub is_pinned: bool,
    pub preview: Option<MessageV>,
}

impl DeepView for Chat {
    type V = ChatV;

    open spec fn deep_view(&self) -> ChatV {
        ChatV {
            id: self.id@,
            local_chat_id: self.local_chat_id.deep_view(),
            account_id: self.account_id@,
            network: self.network@,
            title: self.title@,
            chat_type: self.chat_type@,
            participants: self.participants.deep_view(),
            last_activity: self.last_activity.deep_view(),
            unread_count: self.unread_count,
            last_read_message_sort_key: self.last_read_message_sort_key,
            is_archived: self.is_archived,
            is_muted: self.is_muted,
            is_pinned: self.is_pinned,
            preview: self.preview.deep_view(),
        }
    }
}

pub open spec fn is_digit(c: char) -> bool {
    '0' <= c <= '9'
}

/// The number that a string of decimal digits denotes.
pub open spec fn digits_value(s: Seq<char>) -> int
    decreases s.len(),
{
    if s.len() == 0 {
        0
    } else {
        digits_value(s.drop_last()) * 10 + (s.last() as int - '0' as int)
    }
}

/// The `u64` that `s` spells in decimal: one or more digits and nothing else,
/// with a value that fits.
pub open spec fn decimal_u64(s: Seq<char>) -> Option<u64> {
    if s.len() > 0 && (forall|i: int| 0 <= i < s.len() ==> is_digit(#[trigger] s[i]))
        && digits_value(s) <= u64::MAX {
        Some(digits_value(s) as u64)
    } else {
        None
    }
}

proof fn lemma_digits_prefix(s: Seq<char>, k: int)
    requires
        forall|i: int| 0 <= i < s.len() ==> is_digit(#[trigger] s[i]),
        0 <= k <= s.len(),
    ensures
        0 <= digits_value(s.subrange(0, k)) <= digits_value(s),
    decreases s.len(),
{
    if k == s.len() {
        assert(s.subrange(0, k) =~= s);
        if s.len() > 0 {
            lemma_digits_prefix(s.drop_last(), k - 1);
        }
    } else {
        lemma_digits_prefix(s.drop_last(), k);
        assert(s.drop_last().subrange(0, k) =~= s.subrange(0, k));
        assert(s.drop_last().subrange(0, s.len() - 1) =~= s.drop_last());
    }
}

/// Reads a string of decimal digits as a `u64`.
pub fn parse_decimal_u64(s: &str) -> (r: Option<u64>)
    ensures
        r == decimal_u64(s@),
{
    let n = s.unicode_len();
    if n == 0 {
        return None;
    }
    let mut acc: u64 = 0;
    let mut i: usize = 0;
    while i < n
        invariant
            n == s@.len(),
            0 <= i <= n,
            forall|k: int| 0 <= k < i ==> is_digit(#[trigger] s@[k]),
            acc == digits_value(s@.subrange(0, i as int)),
        decreases n - i,
    {
        let c = s.get_char(i);
        if !('0' <= c && c <= '9') {
            return None;
        }
        let d = (c as u32 - '0' as u32) as u64;
        assert(s@.subrange(0, i + 1).drop_last() =~= s@.subrange(0, i as int));
        match acc.checked_mul(10) {
            Some(m) => match m.checked_add(d) {
                Some(v) => {
                    acc = v;
                },
                None => {
                    proof {
                        if forall|k: int| 0 <= k < s@.len() ==> is_digit(#[trigger] s@[k]) {
                            lemma_digits_prefix(s@, i + 1);
                        }
                    }
                    return None;
                },
            },
            None => {
                proof {
                    if forall|k: int| 0 <= k < s@.len() ==> is_digit(#[trigger] s@[k]) {
                        lemma_digits_prefix(s@, i + 1);
                    }
                }
                return None;
            },
        }
        i = i + 1;
    }
    assert(s@.subrange(0, n as int) =~= s@);
    Some(acc)
}

/// What `lastReadMessageSortKey` decodes to: a number or a string of digits
/// gives its value; absent and `null` give no value; anything else fails.
pub open spec fn sort_key_spec(j: JsonV) -> Option<Option<u64>> {
    match field(j, "lastReadMessageSortKey"@) {
        None => Some(None),
        Some(JsonV::Null) => Some(None),
        Some(JsonV::Number(JsonNumberV::UInt(n))) => Some(Some(n)),
        Some(JsonV::Str(s)) => match decimal_u64(s) {
            Some(n) => Some(Some(n)),
            None => None,
        },
        _ => None,
    }
}

/// Reads `lastReadMessageSortKey` from a chat object, accepting a number or a
/// numeric string.
pub fn decode_sort_key(j: &JsonValue) -> (r: Result<Option<u64>, String>)
    ensures
        match r {
            Ok(v) => sort_key_spec(j@) == Some(v),
            Err(_) => sort_key_spec(j@) is None,
        },
{
    match get_field(j, "lastReadMessageSortKey") {
        None => Ok(None),
        Some(JsonValue::Null) => Ok(None),
        Some(JsonValue::Number(JsonNumber::UInt(n))) => Ok(Some(*n)),
        Some(JsonValue::Str(s)) => match parse_decimal_u64(s.as_str()) {
            Some(n) => Ok(Some(n)),
            None => Err(String::from_str("lastReadMessageSortKey is not a number")),
        },
        Some(_) => Err(String::from_str("lastReadMessageSortKey is not a number")),
    }
}

impl FromJson for Chat {
    open spec fn decode(j: JsonV) -> Option<ChatV> {
        let id = required_spec::<String>(j, "id"@);
        let local_chat_id = optional_spec::<String>(j, "localChatID"@);
        let account_id = required_spec::<String>(j, "accountID"@);
        let network = required_spec::<String>(j, "network"@);
        let title = required_spec::<String>(j, "title"@);
        let chat_type = required_spec::<String>(j, "type"@);
        let participants = required_spec::<Participants>(j, "participants"@);
        let last_activity = optional_spec::<String>(j, "lastActivity"@);
        let unread_count = required_spec::<u32>(j, "unreadCount"@);
        let sort_key = sort_key_spec(j);
        let is_archived = required_spec::<bool>(j, "isArchived"@);
        let is_muted = required_spec::<bool>(j, "isMuted"@);
        let is_pinned = required_spec::<bool>(j, "isPinned"@);
        let preview = optional_spec::<Box<Message>>(j, "preview"@);
        if j is Object && id is Some && local_chat_id is Some && account_id is Some && network is Some
            && title is Some && chat_type is Some && participants is Some && last_activity is Some
            && unread_count is Some && sort_key is Some && is_archived is Some && is_muted is Some
            && is_pinned is Some && preview is Some {
            Some(
                ChatV {
                    id: id->Some_0,
                    local_chat_id: local_chat_id->Some_0,
                    account_id: account_id->Some_0,
                    network: network->Some_0,
                    title: title->Some_0,
                    chat_type: chat_type->Some_0,
                    participants: participants->Some_0,
                    last_activity: last_activity->Some_0,
                    unread_count: unread_count->Some_0,
                    last_read_message_sort_key: sort_key->Some_0,
                    is_archived: is_archived->Some_0,
                    is_muted: is_muted->Some_0,
                    is_pinned: is_pinned->Some_0,
                    preview: preview->Some_0,
                },
            )
        } else {
            None
        }
    }

    fn from_json(j: &JsonValue) -> (r: Result<Chat, String>) {
        expect_object(j)?;
        let id = required::<String>(j, "id")?;
        let local_chat_id = optional::<String>(j, "localChatID")?;
        let account_id = required::<String>(j, "accountID")?;
        let network = required::<String>(j, "network")?;
        let title = required::<String>(j, "title")?;
        let chat_type = required::<String>(j, "type")?;
        let participants = required::<Participants>(j, "participants")?;
        let last_activity = optional::<String>(j, "lastActivity")?;
        let unread_count = required::<u32>(j, "unreadCount")?;
        let last_read_message_sort_key = decode_sort_key(j)?;
        let is_archived = required::<bool>(j, "isArchived")?;
        let is_muted = required::<bool>(j, "isMuted")?;
        let is_pinned = required::<bool>(j, "isPinned")?;
        let preview = optional::<Box<Message>>(j, "preview")?;
        Ok(
            Chat {
                id,
                local_chat_id,
                account_id,
                network,
                title,
                chat_type,
                participants,
                last_activity,
                unread_count,
                last_read_message_sort_key,
                is_archived,
                is_muted,
                is_pinned,
                preview,
            },
        )
    }
}

impl ToJson for Chat {
    open spec fn encode(v: ChatV) -> JsonV {
        JsonV::Object(
            seq![("id"@, String::encode(v.id))]
                + optional_member::<String>("localChatID"@, v.local_chat_id)
                + seq![("accountID"@, String::encode(v.account_id))]
                + seq![("network"@, String::encode(v.network))]
                + seq![("title"@, String::encode(v.title))]
                + seq![("type"@, String::encode(v.chat_type))]
                + seq![("participants"@, Participants::encode(v.participants))]
                + optional_member::<String>("lastActivity"@, v.last_activity)
                + seq![("unreadCount"@, u32::encode(v.unread_count))]
                + optional_member::<u64>("lastReadMessageSortKey"@, v.last_read_message_sort_key)
                + seq![("isArchived"@, bool::encode(v.is_archived))]
                + seq![("isMuted"@, bool::encode(v.is_muted))]
                + seq![("isPinned"@, bool::encode(v.is_pinned))]
                + optional_member::<Box<Message>>("preview"@, v.preview),
        )
    }

    fn to_json(&self) -> (r: JsonValue) {
        let mut m: Vec<(String, JsonValue)> = Vec::new();
        push_member(&mut m, "id", &self.id);
        assert(members_view(Seq::<(String, JsonValue)>::empty()) =~= Seq::empty());
        assert(members_view(m@) =~= seq![("id"@, String::encode(self.id.deep_view()))]);
        push_optional(&mut m, "localChatID", &self.local_chat_id);
        push_member(&mut m, "accountID", &self.account_id);
        push_member(&mut m, "network", &self.network);
        push_member(&mut m, "title", &self.title);
        push_member(&mut m, "type", &self.chat_type);
        push_member(&mut m, "participants", &self.participants);
        push_optional(&mut m, "lastActivity", &self.last_activity);
        push_member(&mut m, "unreadCount", &self.unread_count);
        push_optional(&mut m, "lastReadMessageSortKey", &self.last_read_message_sort_key);
        push_member(&mut m, "isArchived", &self.is_archived);
        push_member(&mut m, "isMuted", &self.is_muted);
        push_member(&mut m, "isPinned", &self.is_pinned);
        push_optional(&mut m, "preview", &self.preview);
        JsonValue::Object(m)
    }
}

/// Encoding a chat and decoding the result gives it back; absent fields stay
/// absent, and the read marker comes back as the number it was.
#[verifier::rlimit(80)]
pub proof fn lemma_chat_round_trip(v: ChatV)
    ensures
        Chat::decode(Chat::encode(v)) == Some(v),
{
    broadcast use lemma_lookup_append, lemma_lookup_single, lemma_lookup_optional_member;

    reveal_strlit("id");
    reveal_strlit("localChatID");
    reveal_strlit("accountID");
    reveal_strlit("network");
    reveal_strlit("title");
    reveal_strlit("type");
    reveal_strlit("participants");
    reveal_strlit("lastActivity");
    reveal_strlit("unreadCount");
    reveal_strlit("lastReadMessageSortKey");
    reveal_strlit("isArchived");
    reveal_strlit("isMuted");
    reveal_strlit("isPinned");
    reveal_strlit("preview");
    assert("id"@.len() == 2
        && "localChatID"@.len() == 11
        && "accountID"@.len() == 9
        && "network"@.len() == 7
        && "title"@.len() == 5
        && "type"@.len() == 4
        && "participants"@.len() == 12
        && "lastActivity"@.len() == 12
        && "unreadCount"@.len() == 11
        && "lastReadMessageSortKey"@.len() == 22
        && "isArchived"@.len() == 10
        && "isMuted"@.len() == 7
        && "isPinned"@.len() == 8
        && "preview"@.len() == 7);
    assert("localChatID"@[0] != "unreadCount"@[0]
        && "network"@[0] != "isMuted"@[0]
        && "network"@[0] != "preview"@[0]
        && "participants"@[0] != "lastActivity"@[0]
        && "isMuted"@[0] != "preview"@[0]);
    lemma_participants_round_trip(v.participants);
    if let Some(p) = v.preview {
        lemma_message_round_trip(p);
    }
    let j = Chat::encode(v);
    assert(sort_key_spec(j) == Some(v.last_read_message_sort_key));
    assert(required_spec::<String>(j, "id"@) == Some(v.id));
    assert(optional_spec::<String>(j, "localChatID"@) == Some(v.local_chat_id));
    assert(required_spec::<String>(j, "accountID"@) == Some(v.account_id));
    assert(required_spec::<String>(j, "network"@) == Some(v.network));
    assert(required_spec::<String>(j, "title"@) == Some(v.title));
    assert(required_spec::<String>(j, "type"@) == Some(v.chat_type));
    assert(required_spec::<Participants>(j, "participants"@) == Some(v.participants));
    assert(optional_spec::<String>(j, "lastActivity"@) == Some(v.last_activity));
    assert(required_spec::<u32>(j, "unreadCount"@) == Some(v.unread_count));
    assert(required_spec::<bool>(j, "isArchived"@) == Some(v.is_archived));
    assert(required_spec::<bool>(j, "isMuted"@) == Some(v.is_muted));
    assert(required_spec::<bool>(j, "isPinned"@) == Some(v.is_pinned));
    assert(optional_spec::<Box<Message>>(j, "preview"@) == Some(v.preview));
}

/// The first participant that is not marked as the current user.
pub open spec fn first_other(users: Seq<UserV>) -> Option<UserV>
    decreases users.len(),
{
    if users.len() == 0 {
        None
    } else if users[0].is_self != Some(true) {
        Some(users[0])
    } else {
        first_other(users.drop_first())
    }
}

/// The name to show for a chat: for a direct chat ("single"), the full name,
/// else the username, of the first participant that is not the current user;
/// in every other case the chat's title.
pub open spec fn display_name_spec(c: ChatV) -> Seq<char> {
    if c.chat_type == "single"@ {
        match first_other(c.participants.items) {
            Some(u) => match u.full_name {
                Some(n) => n,
                None => match u.username {
                    Some(n) => n,
                    None => c.title,
                },
            },
            None => c.title,
        }
    } else {
        c.title
    }
}

impl Chat {
    /// Get a display name for the chat.
    ///
    /// For direct messages ('single'), returns the other participant's full
    /// name or username.  For group chats, returns the chat title.
    pub fn display_name(&self) -> (r: String)
        ensures
            r@ == display_name_spec(self.deep_view()),
    {
        let single = String::from_str("single");
        if self.chat_type == single {
            let items = &self.participants.items;
            let ghost us = items.deep_view();
            assert(us.subrange(0, us.len() as int) =~= us);
            let mut i: usize = 0;
            while i < items.len()
                invariant
                    0 <= i <= items.len(),
                    us == items.deep_view(),
                    us.len() == items@.len(),
                    items == &self.participants.items,
                    self.chat_type@ == "single"@,
                    first_other(us) == first_other(us.subrange(i as int, us.len() as int)),
                decreases items.len() - i,
            {
                let ghost rest = us.subrange(i as int, us.len() as int);
                assert(rest.drop_first() =~= us.subrange(i + 1, us.len() as int));
                assert(rest[0] == us[i as int]);
                let u = &items[i];
                assert(us[i as int] == u.deep_view());
                let is_self = match u.is_self {
                    Some(b) => b,
                    None => false,
                };
                if !is_self {
                    if let Some(full_name) = &u.full_name {
                        return full_name.clone();
                    }
                    if let Some(username) = &u.username {
                        return username.clone();
                    }
                    return self.title.clone();
                }
                i = i + 1;
            }
            assert(us.subrange(i as int, us.len() as int).len() == 0);
        }
        self.title.clone()
    }
}

/// Input for creating a chat.
#[derive(Debug, Clone)]
pub struct CreateChatInput {
    /// Account ID to create chat on
    pub account_id: String,
    /// Participant IDs for the chat
    pub participant_ids: Vec<String>,
    /// Optional chat title for group chats
    pub title: Option<String>,
}

pub struct CreateChatInputV {
    pub account_id: Seq<char>,
    pub participant_ids: Seq<Seq<char>>,
    pub title: Option<Seq<char>>,
}

impl DeepView for CreateChatInput {
    type V = CreateChatInputV;

    open spec fn deep_view(&self) -> CreateChatInputV {
        CreateChatInputV {
            account_id: self.account_id@,
            participant_ids: self.participant_ids.deep_view(),
            title: self.title.deep_view(),
        }
    }
}

impl ToJson for CreateChatInput {
    open spec fn encode(v: CreateChatInputV) -> JsonV {
        JsonV::Object(
            seq![("accountID"@, String::encode(v.account_id))]
                + seq![("participantIDs"@, Vec::<String>::encode(v.participant_ids))]
                + optional_member::<String>("title"@, v.title),
        )
    }

    fn to_json(&self) -> (r: JsonValue) {
        let mut m: Vec<(String, JsonValue)> = Vec::new();
        push_member(&mut m, "accountID", &self.account_id);
        assert(members_view(Seq::<(String, JsonValue)>::empty()) =~= Seq::empty());
        assert(members_view(m@) =~= seq![("accountID"@, String::encode(self.account_id.deep_view()))]);
        push_member(&mut m, "participantIDs", &self.participant_ids);
        push_optional(&mut m, "title", &self.title);
        JsonValue::Object(m)
    }
}

impl FromJson for CreateChatInput {
    open spec fn decode(j: JsonV) -> Option<CreateChatInputV> {
        let account_id = required_spec::<String>(j, "accountID"@);
        let participant_ids = required_spec::<Vec<String>>(j, "participantIDs"@);
        let title = optional_spec::<String>(j, "title"@);
        if j is Object && account_id is Some && participant_ids is Some && title is Some {
            Some(
                CreateChatInputV {
                    account_id: account_id->Some_0,
                    participant_ids: participant_ids->Some_0,
                    title: title->Some_0,
                },
            )
        } else {
            None
        }
    }

    fn from_json(j: &JsonValue) -> (r: Result<CreateChatInput, String>) {
        expect_object(j)?;
        let account_id = required::<String>(j, "accountID")?;
        let participant_ids = required::<Vec<String>>(j, "participantIDs")?;
        let title = optional::<String>(j, "title")?;
        Ok(CreateChatInput { account_id, participant_ids, title })
    }
}

/// Encoding a chat-creation input and decoding the result gives the input
/// back; an absent title stays absent.
pub proof fn lemma_create_chat_input_round_trip(v: CreateChatInputV)
    ensures
        CreateChatInput::decode(CreateChatInput::encode(v)) == Some(v),
{
    broadcast use lemma_lookup_append, lemma_lookup_single, lemma_lookup_optional_member;

    reveal_strlit("accountID");
    reveal_strlit("participantIDs");
    reveal_strlit("title");
    assert("accountID"@.len() == 9
        && "participantIDs"@.len() == 14
        && "title"@.len() == 5);
    assert forall|x: Seq<char>| #[trigger] String::decode(String::encode(x)) == Some(x) by {}
    lemma_vec_round_trip::<String>(v.participant_ids);
    let j = CreateChatInput::encode(v);
    assert(required_spec::<String>(j, "accountID"@) == Some(v.account_id));
    assert(required_spec::<Vec<String>>(j, "participantIDs"@) == Some(v.participant_ids));
    assert(optional_spec::<String>(j, "title"@) == Some(v.title));
}

/// Output from creating a chat.
#[derive(Debug, Clone)]
pub struct CreateChatOutput {
    /// Newly created chat ID
    pub chat_id: String,
}

pub struct CreateChatOutputV {
    pub chat_id: Seq<char>,
}

impl DeepView for CreateChatOutput {
    type V = CreateChatOutputV;

    open spec fn deep_view(&self) -> CreateChatOutputV {
        CreateChatOutputV { chat_id: self.chat_id@ }
    }
}

impl ToJson for CreateChatOutput {
    open spec fn encode(v: CreateChatOutputV) -> JsonV {
        JsonV::Object(
            seq![("chatID"@, String::encode(v.chat_id))],
        )
    }

    fn to_json(&self) -> (r: JsonValue) {
        let mut m: Vec<(String, JsonValue)> = Vec::new();
        push_member(&mut m, "chatID", &self.chat_id);
        assert(members_view(Seq::<(String, JsonValue)>::empty()) =~= Seq::empty());
        assert(members_view(m@) =~= seq![("chatID"@, String::encode(self.chat_id.deep_view()))]);
        JsonValue::Object(m)
    }
}

impl FromJson for CreateChatOutput {
    open spec fn decode(j: JsonV) -> Option<CreateChatOutputV> {
        let chat_id = required_spec::<String>(j, "chatID"@);
        if j is Object && chat_id is Some {
            Some(CreateChatOutputV { chat_id: chat_id->Some_0 })
        } else {
            None
        }
    }

    fn from_json(j: &JsonValue) -> (r: Result<CreateChatOutput, String>) {
        expect_object(j)?;
        let chat_id = required::<String>(j, "chatID")?;
        Ok(CreateChatOutput { chat_id })
    }
}

/// Encoding a chat-creation output and decoding the result gives it back.
pub proof fn lemma_create_chat_output_round_trip(v: CreateChatOutputV)
    ensures
        CreateChatOutput::decode(CreateChatOutput::encode(v)) == Some(v),
{
    broadcast use lemma_lookup_append, lemma_lookup_single, lemma_lookup_optional_member;

    reveal_strlit("chatID");
    assert("chatID"@.len() == 6);
    let j = CreateChatOutput::encode(v);
    assert(required_spec::<String>(j, "chatID"@) == Some(v.chat_id));
}

/// Output from listing chats.
#[derive(Debug, Clone)]
pub struct ListChatsOutput {
    /// List of chats
    pub items: Vec<Chat>,
    /// Whether there are more chats
    pub has_more: bool,
    /// Cursor for fetching older results
    pub oldest_cursor: Option<String>,
    /// Cursor for fetching newer results
    pub newest_cursor: Option<String>,
}

pub struct ListChatsOutputV {
    pub items: Seq<ChatV>,
    pub has_more: bool,
    pub oldest_cursor: Option<Seq<char>>,
    pub newest_cursor: Option<Seq<char>>,
}

impl DeepView for ListChatsOutput {
    type V = ListChatsOutputV;

    open spec fn deep_view(&self) -> ListChatsOutputV {
        ListChatsOutputV {
            items: self.items.deep_view(),
            has_more: self.has_more,
            oldest_cursor: self.oldest_cursor.deep_view(),
            newest_cursor: self.newest_cursor.deep_view(),
        }
    }
}

impl FromJson for ListChatsOutput {
    open spec fn decode(j: JsonV) -> Option<ListChatsOutputV> {
        let items = required_spec::<Vec<Chat>>(j, "items"@);
        let has_more = required_spec::<bool>(j, "hasMore"@);
        let oldest_cursor = optional_spec::<String>(j, "oldestCursor"@);
        let newest_cursor = optional_spec::<String>(j, "newestCursor"@);
        if j is Object && items is Some && has_more is Some && oldest_cursor is Some
            && newest_cursor is Some {
            Some(
                ListChatsOutputV {
                    items: items->Some_0,
                    has_more: has_more->Some_0,
                    oldest_cursor: oldest_cursor->Some_0,
                    newest_cursor: newest_cursor->Some_0,
                },
            )
        } else {
            None
        }
    }

    fn from_json(j: &JsonValue) -> (r: Result<ListChatsOutput, String>) {
        expect_object(j)?;
        let items = required::<Vec<Chat>>(j, "items")?;
        let has_more = required::<bool>(j, "hasMore")?;
        let oldest_cursor = optional::<String>(j, "oldestCursor")?;
        let newest_cursor = optional::<String>(j, "newestCursor")?;
        Ok(ListChatsOutput { items, has_more, oldest_cursor, newest_cursor })
    }
}

impl ToJson for ListChatsOutput {
    open spec fn encode(v: ListChatsOutputV) -> JsonV {
        JsonV::Object(
            seq![("items"@, Vec::<Chat>::encode(v.items))]
                + seq![("hasMore"@, bool::encode(v.has_more))]
                + optional_member::<String>("oldestCursor"@, v.oldest_cursor)
                + optional_member::<String>("newestCursor"@, v.newest_cursor),
        )
    }

    fn to_json(&self) -> (r: JsonValue) {
        let mut m: Vec<(String, JsonValue)> = Vec::new();
        push_member(&mut m, "items", &self.items);
        assert(members_view(Seq::<(String, JsonValue)>::empty()) =~= Seq::empty());
        assert(members_view(m@) =~= seq![("items"@, Vec::<Chat>::encode(self.items.deep_view()))]);
        push_member(&mut m, "hasMore", &self.has_more);
        push_optional(&mut m, "oldestCursor", &self.oldest_cursor);
        push_optional(&mut m, "newestCursor", &self.newest_cursor);
        JsonValue::Object(m)
    }
}

/// Encoding a chat listing and decoding the result gives it back; absent
/// cursors stay absent.
pub proof fn lemma_list_chats_output_round_trip(v: ListChatsOutputV)
    ensures
        ListChatsOutput::decode(ListChatsOutput::encode(v)) == Some(v),
{
    broadcast use lemma_lookup_append, lemma_lookup_single, lemma_lookup_optional_member;

    reveal_strlit("items");
    reveal_strlit("hasMore");
    reveal_strlit("oldestCursor");
    reveal_strlit("newestCursor");
    assert("items"@.len() == 5
        && "hasMore"@.len() == 7
        && "oldestCursor"@.len() == 12
        && "newestCursor"@.len() == 12);
    assert("oldestCursor"@[0] != "newestCursor"@[0]);
    assert forall|x: ChatV| #[trigger] Chat::decode(Chat::encode(x)) == Some(x) by {
        lemma_chat_round_trip(x);
    }
    lemma_vec_round_trip::<Chat>(v.items);
    let j = ListChatsOutput::encode(v);
    assert(required_spec::<Vec<Chat>>(j, "items"@) == Some(v.items));
    assert(required_spec::<bool>(j, "hasMore"@) == Some(v.has_more));
    assert(optional_spec::<String>(j, "oldestCursor"@) == Some(v.oldest_cursor));
    assert(optional_spec::<String>(j, "newestCursor"@) == Some(v.newest_cursor));
}

/// Output from searching chats.
#[derive(Debug, Clone)]
pub struct SearchChatsOutput {
    /// Matching chats
    pub items: Vec<Chat>,
    /// Chat ID -> chat details
    pub chats: Option<IdMap<Chat>>,
    /// Whether there are more results
    pub has_more: bool,
    /// Cursor for older results
    pub oldest_cursor: Option<String>,
    /// Cursor for newer results
    pub newest_cursor: Option<String>,
}

pub struct SearchChatsOutputV {
    pub items: Seq<ChatV>,
    pub chats: Option<Seq<(Seq<char>, ChatV)>>,
    pub has_more: bool,
    pub oldest_cursor: Option<Seq<char>>,
    pub newest_cursor: Option<Seq<char>>,
}

impl DeepView for SearchChatsOutput {
    type V = SearchChatsOutputV;

    open spec fn deep_view(&self) -> SearchChatsOutputV {
        SearchChatsOutputV {
            items: self.items.deep_view(),
            chats: self.chats.deep_view(),
            has_more: self.has_more,
            oldest_cursor: self.oldest_cursor.deep_view(),
            newest_cursor: self.newest_cursor.deep_view(),
        }
    }
}

impl FromJson for SearchChatsOutput {
    open spec fn decode(j: JsonV) -> Option<SearchChatsOutputV> {
        let items = required_spec::<Vec<Chat>>(j, "items"@);
        let chats = optional_spec::<IdMap<Chat>>(j, "chats"@);
        let has_more = required_spec::<bool>(j, "hasMore"@);
        let oldest_cursor = optional_spec::<String>(j, "oldestCursor"@);
        let newest_cursor = optional_spec::<String>(j, "newestCursor"@);
        if j is Object && items is Some && chats is Some && has_more is Some && oldest_cursor is Some
            && newest_cursor is Some {
            Some(
                SearchChatsOutputV {
                    items: items->Some_0,
                    chats: chats->Some_0,
                    has_more: has_more->Some_0,
                    oldest_cursor: oldest_cursor->Some_0,
                    newest_cursor: newest_cursor->Some_0,
                },
            )
        } else {
            None
        }
    }

    fn from_json(j: &JsonValue) -> (r: Result<SearchChatsOutput, String>) {
        expect_object(j)?;
        let items = required::<Vec<Chat>>(j, "items")?;
        let chats = optional::<IdMap<Chat>>(j, "chats")?;
        let has_more = required::<bool>(j, "hasMore")?;
        let oldest_cursor = optional::<String>(j, "oldestCursor")?;
        let newest_cursor = optional::<String>(j, "newestCursor")?;
        Ok(SearchChatsOutput { items, chats, has_more, oldest_cursor, newest_cursor })
    }
}

impl ToJson for SearchChatsOutput {
    open spec fn encode(v: SearchChatsOutputV) -> JsonV {
        JsonV::Object(
            seq![("items"@, Vec::<Chat>::encode(v.items))]
                + optional_member::<IdMap<Chat>>("chats"@, v.chats)
                + seq![("hasMore"@, bool::encode(v.has_more))]
                + optional_member::<String>("oldestCursor"@, v.oldest_cursor)
                + optional_member::<String>("newestCursor"@, v.newest_cursor),
        )
    }

    fn to_json(&self) -> (r: JsonValue) {
        let mut m: Vec<(String, JsonValue)> = Vec::new();
        push_member(&mut m, "items", &self.items);
        assert(members_view(Seq::<(String, JsonValue)>::empty()) =~= Seq::empty());
        assert(members_view(m@) =~= seq![("items"@, Vec::<Chat>::encode(self.items.deep_view()))]);
        push_optional(&mut m, "chats", &self.chats);
        push_member(&mut m, "hasMore", &self.has_more);
        push_optional(&mut m, "oldestCursor", &self.oldest_cursor);
        push_optional(&mut m, "newestCursor", &self.newest_cursor);
        JsonValue::Object(m)
    }
}

/// Encoding a chat search result and decoding it gives it back; absent
/// fields stay absent.
pub proof fn lemma_search_chats_output_round_trip(v: SearchChatsOutputV)
    ensures
        SearchChatsOutput::decode(SearchChatsOutput::encode(v)) == Some(v),
{
    broadcast use lemma_lookup_append, lemma_lookup_single, lemma_lookup_optional_member;

    reveal_strlit("items");
    reveal_strlit("chats");
    reveal_strlit("hasMore");
    reveal_strlit("oldestCursor");
    reveal_strlit("newestCursor");
    assert("items"@.len() == 5
        && "chats"@.len() == 5
        && "hasMore"@.len() == 7
        && "oldestCursor"@.len() == 12
        && "newestCursor"@.len() == 12);
    assert("items"@[0] != "chats"@[0]
        && "oldestCursor"@[0] != "newestCursor"@[0]);
    assert forall|x: ChatV| #[trigger] Chat::decode(Chat::encode(x)) == Some(x) by {
        lemma_chat_round_trip(x);
    }
    lemma_vec_round_trip::<Chat>(v.items);
    if let Some(c) = v.chats {
        lemma_id_map_round_trip::<Chat>(c);
    }
    let j = SearchChatsOutput::encode(v);
    assert(required_spec::<Vec<Chat>>(j, "items"@) == Some(v.items));
    assert(optional_spec::<IdMap<Chat>>(j, "chats"@) == Some(v.chats));
    assert(required_spec::<bool>(j, "hasMore"@) == Some(v.has_more));
    assert(optional_spec::<String>(j, "oldestCursor"@) == Some(v.oldest_cursor));
    assert(optional_spec::<String>(j, "newestCursor"@) == Some(v.newest_cursor));
}

} // verus!
