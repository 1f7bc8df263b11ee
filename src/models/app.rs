//! App control and asset models.
use vstd::prelude::*;
use crate::codec::{
    expect_object, lemma_lookup_optional_member, optional, optional_member, optional_spec,
    push_member, push_optional, required, required_spec, FromJson, ToJson,
};
use crate::json::{lemma_lookup_append, lemma_lookup_single, members_view, JsonV, JsonValue};

verus! {

/// Input for focusing the app; every field is optional.
#[derive(Debug, Clone)]
pub struct FocusAppInput {
    /// Chat ID to navigate to
    pub chat_id: Option<String>,
    /// Message ID to navigate to
    pub message_id: Option<String>,
    /// Draft text to pre-fill
    pub draft: Option<String>,
}

pub struct FocusAppInputV {
    pub chat_id: Option<Seq<char>>,
    pub message_id: Option<Seq<char>>,
    pub draft: Option<Seq<char>>,
}

impl DeepView for FocusAppInput {
    type V = FocusAppInputV;

    open spec fn deep_view(&self) -> FocusAppInputV {
        FocusAppInputV {
            chat_id: self.chat_id.deep_view(),
            message_id: self.message_id.deep_view(),
            draft: self.draft.deep_view(),
        }
    }
}

impl ToJson for FocusAppInput {
    open spec fn encode(v: FocusAppInputV) -> JsonV {
        JsonV::Object(
            optional_member::<String>("chatID"@, v.chat_id)
                + optional_member::<String>("messageID"@, v.message_id)
                + optional_member::<String>("draft"@, v.draft),
        )
    }

    fn to_json(&self) -> (r: JsonValue) {
        let mut m: Vec<(String, JsonValue)> = Vec::new();
        push_optional(&mut m, "chatID", &self.chat_id);
        assert(members_view(Seq::<(String, JsonValue)>::empty()) =~= Seq::empty());
        assert(members_view(m@) =~= optional_member::<String>("chatID"@, self.chat_id.deep_view()));
        push_optional(&mut m, "messageID", &self.message_id);
        push_optional(&mut m, "draft", &self.draft);
        JsonValue::Object(m)
    }
}

impl FromJson for FocusAppInput {
    open spec fn decode(j: JsonV) -> Option<FocusAppInputV> {
        let chat_id = optional_spec::<String>(j, "chatID"@);
        let message_id = optional_spec::<String>(j, "messageID"@);
        let draft = optional_spec::<String>(j, "draft"@);
        if j is Object && chat_id is Some && message_id is Some && draft is Some {
            Some(
                FocusAppInputV {
                    chat_id: chat_id->Some_0,
                    message_id: message_id->Some_0,
                    draft: draft->Some_0,
                },
            )
        } else {
            None
        }
    }

    fn from_json(j: &JsonValue) -> (r: Result<FocusAppInput, String>) {
        expect_object(j)?;
        let chat_id = optional::<String>(j, "chatID")?;
        let message_id = optional::<String>(j, "messageID")?;
        let draft = optional::<String>(j, "draft")?;
        Ok(FocusAppInput { chat_id, message_id, draft })
    }
}

/// Encoding a focus input and decoding the result gives the input back:
/// populated fields keep their values and absent ones stay absent.
pub proof fn lemma_focus_app_input_round_trip(v: FocusAppInputV)
    ensures
        FocusAppInput::decode(FocusAppInput::encode(v)) == Some(v),
{
    broadcast use lemma_lookup_append, lemma_lookup_single, lemma_lookup_optional_member;

    reveal_strlit("chatID");
    reveal_strlit("messageID");
    reveal_strlit("draft");
    assert("chatID"@.len() == 6
        && "messageID"@.len() == 9
        && "draft"@.len() == 5);
    let j = FocusAppInput::encode(v);
    assert(optional_spec::<String>(j, "chatID"@) == Some(v.chat_id));
    assert(optional_spec::<String>(j, "messageID"@) == Some(v.message_id));
    assert(optional_spec::<String>(j, "draft"@) == Some(v.draft));
}

/// Output from focusing the app.
#[derive(Debug, Clone)]
pub struct FocusAppOutput {
    /// Was the action successful?
    pub success: bool,
}

pub struct FocusAppOutputV {
    pub success: bool,
}

impl DeepView for FocusAppOutput {
    type V = FocusAppOutputV;

    open spec fn deep_view(&self) -> FocusAppOutputV {
        FocusAppOutputV { success: self.success }
    }
}

impl ToJson for FocusAppOutput {
    open spec fn encode(v: FocusAppOutputV) -> JsonV {
        JsonV::Object(
            seq![("success"@, bool::encode(v.success))],
        )
    }

    fn to_json(&self) -> (r: JsonValue) {
        let mut m: Vec<(String, JsonValue)> = Vec::new();
        push_member(&mut m, "success", &self.success);
        assert(members_view(Seq::<(String, JsonValue)>::empty()) =~= Seq::empty());
        assert(members_view(m@) =~= seq![("success"@, bool::encode(self.success.deep_view()))]);
        JsonValue::Object(m)
    }
}

impl FromJson for FocusAppOutput {
    open spec fn decode(j: JsonV) -> Option<FocusAppOutputV> {
        let success = required_spec::<bool>(j, "success"@);
        if j is Object && success is Some {
            Some(FocusAppOutputV { success: success->Some_0 })
        } else {
            None
        }
    }

    fn from_json(j: &JsonValue) -> (r: Result<FocusAppOutput, String>) {
        expect_object(j)?;
        let success = required::<bool>(j, "success")?;
        Ok(FocusAppOutput { success })
    }
}

/// Encoding a focus output and decoding the result gives it back.
pub proof fn lemma_focus_app_output_round_trip(v: FocusAppOutputV)
    ensures
        FocusAppOutput::decode(FocusAppOutput::encode(v)) == Some(v),
{
    broadcast use lemma_lookup_append, lemma_lookup_single, lemma_lookup_optional_member;

    reveal_strlit("success");
    assert("success"@.len() == 7);
    let j = FocusAppOutput::encode(v);
    assert(required_spec::<bool>(j, "success"@) == Some(v.success));
}

/// Input for downloading an asset.
#[derive(Debug, Clone)]
pub struct DownloadAssetInput {
    /// URL to download
    pub url: String,
}

pub struct DownloadAssetInputV {
    pub url: Seq<char>,
}

impl DeepView for DownloadAssetInput {
    type V = DownloadAssetInputV;

    open spec fn deep_view(&self) -> DownloadAssetInputV {
        DownloadAssetInputV { url: self.url@ }
    }
}

impl ToJson for DownloadAssetInput {
    open spec fn encode(v: DownloadAssetInputV) -> JsonV {
        JsonV::Object(
            seq![("url"@, String::encode(v.url))],
        )
    }

    fn to_json(&self) -> (r: JsonValue) {
        let mut m: Vec<(String, JsonValue)> = Vec::new();
        push_member(&mut m, "url", &self.url);
        assert(members_view(Seq::<(String, JsonValue)>::empty()) =~= Seq::empty());
        assert(members_view(m@) =~= seq![("url"@, String::encode(self.url.deep_view()))]);
        JsonValue::Object(m)
    }
}

impl FromJson for DownloadAssetInput {
    open spec fn decode(j: JsonV) -> Option<DownloadAssetInputV> {
        let url = required_spec::<String>(j, "url"@);
        if j is Object && url is Some {
            Some(DownloadAssetInputV { url: url->Some_0 })
        } else {
            None
        }
    }

    fn from_json(j: &JsonValue) -> (r: Result<DownloadAssetInput, String>) {
        expect_object(j)?;
        let url = required::<String>(j, "url")?;
        Ok(DownloadAssetInput { url })
    }
}

/// Encoding a download input and decoding the result gives it back.
pub proof fn lemma_download_asset_input_round_trip(v: DownloadAssetInputV)
    ensures
        DownloadAssetInput::decode(DownloadAssetInput::encode(v)) == Some(v),
{
    broadcast use lemma_lookup_append, lemma_lookup_single, lemma_lookup_optional_member;

    reveal_strlit("url");
    assert("url"@.len() == 3);
    let j = DownloadAssetInput::encode(v);
    assert(required_spec::<String>(j, "url"@) == Some(v.url));
}

/// Output from downloading an asset.
#[derive(Debug, Clone)]
pub struct DownloadAssetOutput {
    /// Local file URL
    pub local_url: String,
}

pub struct DownloadAssetOutputV {
    pub local_url: Seq<char>,
}

impl DeepView for DownloadAssetOutput {
    type V = DownloadAssetOutputV;

    open spec fn deep_view(&self) -> DownloadAssetOutputV {
        DownloadAssetOutputV { local_url: self.local_url@ }
    }
}

impl ToJson for DownloadAssetOutput {
    open spec fn encode(v: DownloadAssetOutputV) -> JsonV {
        JsonV::Object(
            seq![("localURL"@, String::encode(v.local_url))],
        )
    }

    fn to_json(&self) -> (r: JsonValue) {
        let mut m: Vec<(String, JsonValue)> = Vec::new();
        push_member(&mut m, "localURL", &self.local_url);
        assert(members_view(Seq::<(String, JsonValue)>::empty()) =~= Seq::empty());
        assert(members_view(m@) =~= seq![("localURL"@, String::encode(self.local_url.deep_view()))]);
        JsonValue::Object(m)
    }
}

impl FromJson for DownloadAssetOutput {
    open spec fn decode(j: JsonV) -> Option<DownloadAssetOutputV> {
        let local_url = required_spec::<String>(j, "localURL"@);
        if j is Object && local_url is Some {
            Some(DownloadAssetOutputV { local_url: local_url->Some_0 })
        } else {
            None
        }
    }

    fn from_json(j: &JsonValue) -> (r: Result<DownloadAssetOutput, String>) {
        expect_object(j)?;
        let local_url = required::<String>(j, "localURL")?;
        Ok(DownloadAssetOutput { local_url })
    }
}

/// Encoding a download output and decoding the result gives it back.
pub proof fn lemma_download_asset_output_round_trip(v: DownloadAssetOutputV)
    ensures
        DownloadAssetOutput::decode(DownloadAssetOutput::encode(v)) == Some(v),
{
    broadcast use lemma_lookup_append, lemma_lookup_single, lemma_lookup_optional_member;

    reveal_strlit("localURL");
    assert("localURL"@.len() == 8);
    let j = DownloadAssetOutput::encode(v);
    assert(required_spec::<String>(j, "localURL"@) == Some(v.local_url));
}

} // verus!
