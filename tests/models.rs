use beeper_desktop_api::{
    BeeperClient, Direction, DownloadAssetInput, DownloadAssetOutput, FocusAppInput,
    FocusAppOutput, JsonValue, ToJson,
};

#[test]
fn test_focus_app_input_minimal() {
    let input = FocusAppInput {
        chat_id: None,
        message_id: None,
        draft: None,
    };
    assert!(input.chat_id.is_none());
    assert!(input.message_id.is_none());
    assert!(input.draft.is_none());
}

#[test]
fn test_focus_app_input_with_chat() {
    let input = FocusAppInput {
        chat_id: Some("chat-1".to_string()),
        message_id: None,
        draft: None,
    };
    assert_eq!(input.chat_id, Some("chat-1".to_string()));
    assert!(input.message_id.is_none());
}

#[test]
fn test_focus_app_input_with_message() {
    let input = FocusAppInput {
        chat_id: Some("chat-1".to_string()),
        message_id: Some("msg-123".to_string()),
        draft: None,
    };
    assert_eq!(input.chat_id, Some("chat-1".to_string()));
    assert_eq!(input.message_id, Some("msg-123".to_string()));
}

#[test]
fn app_test_focus_app_input_with_draft() {
    let input = FocusAppInput {
        chat_id: Some("chat-1".to_string()),
        message_id: None,
        draft: Some("Hello, world!".to_string()),
    };
    assert_eq!(input.draft, Some("Hello, world!".to_string()));
}

#[test]
fn test_focus_app_output_success() {
    let output = FocusAppOutput { success: true };
    assert!(output.success);
}

#[test]
fn test_focus_app_output_failure() {
    let output = FocusAppOutput { success: false };
    assert!(!output.success);
}

#[test]
fn app_test_download_asset_input() {
    let input = DownloadAssetInput {
        url: "https://example.com/file.png".to_string(),
    };
    assert_eq!(input.url, "https://example.com/file.png");
}

#[test]
fn test_download_asset_output() {
    let output = DownloadAssetOutput {
        local_url: "file:///home/user/.beeper/cache/file.png".to_string(),
    };
    assert!(output.local_url.contains("file://"));
}

/// Renders a document as JSON text, for checks on the wire form.
fn render(v: &JsonValue) -> String {
    match v {
        JsonValue::Null => "null".to_string(),
        JsonValue::Bool(b) => b.to_string(),
        JsonValue::Number(beeper_desktop_api::JsonNumber::UInt(n)) => n.to_string(),
        JsonValue::Number(beeper_desktop_api::JsonNumber::NegInt(n)) => n.to_string(),
        JsonValue::Number(beeper_desktop_api::JsonNumber::Float(s)) => s.clone(),
        JsonValue::Str(s) => serde_json::to_string(s).unwrap(),
        JsonValue::Array(items) => {
            let parts: Vec<String> = items.iter().map(render).collect();
            format!("[{}]", parts.join(","))
        }
        JsonValue::Object(members) => {
            let parts: Vec<String> = members
                .iter()
                .map(|(k, v)| format!("{}:{}", serde_json::to_string(k).unwrap(), render(v)))
                .collect();
            format!("{{{}}}", parts.join(","))
        }
    }
}

#[test]
fn test_focus_app_input_serialization() {
    let input = FocusAppInput {
        chat_id: Some("chat-1".to_string()),
        message_id: Some("msg-1".to_string()),
        draft: Some("Test draft".to_string()),
    };
    let json = render(&input.to_json());
    assert!(json.contains("\"chatID\""));
    assert!(json.contains("\"messageID\""));
}

#[test]
fn test_download_asset_input_serialization() {
    let input = DownloadAssetInput {
        url: "https://example.com/asset.jpg".to_string(),
    };
    let json = render(&input.to_json());
    assert!(json.contains("https://example.com/asset.jpg"));
}

#[test]
fn test_direction_serialization() {
    let before = Direction::Before;
    let after = Direction::After;
    match (before, after) {
        (Direction::Before, Direction::After) => assert!(true),
        _ => panic!("Direction enum values don't match expected"),
    }
}

#[test]
fn mod_test_client_creation() {
    let client = BeeperClient::new("test-token", "http://localhost:23373");
    assert_eq!(client.base_url(), "http://localhost:23373");
}

#[test]
fn mod_test_client_with_default_url() {
    let client = BeeperClient::with_token("test-token");
    assert_eq!(client.base_url(), beeper_desktop_api::client::DEFAULT_BASE_URL);
}

#[test]
fn test_client_set_token() {
    let mut client = BeeperClient::new("old-token", "http://localhost:23373");
    client.set_token("new-token");
    assert_eq!(client.base_url(), "http://localhost:23373");
}

#[test]
fn test_client_set_base_url() {
    let mut client = BeeperClient::new("test-token", "http://localhost:23373");
    client.set_base_url("http://example.com:8080");
    assert_eq!(client.base_url(), "http://example.com:8080");
}

#[test]
fn test_client_clone() {
    let client1 = BeeperClient::new("test-token", "http://localhost:23373");
    let client2 = client1.clone();
    assert_eq!(client1.base_url(), client2.base_url());
}

#[test]
fn test_get_auth_header() {
    let client = BeeperClient::new("my-secret-token", "http://localhost:23373");
    let auth_header = client.get_auth_header();
    assert_eq!(auth_header, "Bearer my-secret-token");
}
