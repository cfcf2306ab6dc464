use acp_engine::events::{
    content_block_to_text, session_update_event, AcpUiEvent, ContentBlock, SessionUpdate,
    ToolCallStatus,
};

fn chat_content(r: &Option<AcpUiEvent>) -> &str {
    match r {
        Some(AcpUiEvent::ChatMessage { content, .. }) => content.as_str(),
        _ => panic!("expected a chat message"),
    }
}

fn status_content(r: &Option<AcpUiEvent>) -> &str {
    match r {
        Some(AcpUiEvent::StatusUpdate { content, .. }) => content.as_str(),
        _ => panic!("expected a status update"),
    }
}

#[test]
fn text_chunks_become_chat_messages() {
    let update = SessionUpdate::AgentMessageChunk {
        content: ContentBlock::Text { text: "hi there".to_string() },
    };
    let r = session_update_event("sess-1", &update);
    assert_eq!(chat_content(&r), "hi there");
    match &r {
        Some(AcpUiEvent::ChatMessage { session_id, .. }) => assert_eq!(session_id, "sess-1"),
        _ => unreachable!(),
    }
}

#[test]
fn resource_links_become_chat_messages_with_the_uri() {
    let update = SessionUpdate::AgentMessageChunk {
        content: ContentBlock::ResourceLink { uri: "file:///proj/a.rs".to_string() },
    };
    let r = session_update_event("sess-1", &update);
    assert_eq!(chat_content(&r), "file:///proj/a.rs");
}

#[test]
fn other_content_yields_no_event() {
    assert!(content_block_to_text(&ContentBlock::Other).is_none());
    let update = SessionUpdate::AgentMessageChunk { content: ContentBlock::Other };
    assert!(session_update_event("sess-1", &update).is_none());
}

#[test]
fn tool_calls_become_status_updates() {
    let update = SessionUpdate::ToolCall {
        title: "Read file".to_string(),
        status: ToolCallStatus::Pending,
    };
    let r = session_update_event("sess-1", &update);
    assert_eq!(status_content(&r), "Read file (Pending)");
}

#[test]
fn tool_call_updates_show_the_new_status() {
    let update = SessionUpdate::ToolCallUpdate { status: Some(ToolCallStatus::InProgress) };
    let r = session_update_event("sess-1", &update);
    assert_eq!(status_content(&r), "Tool update: Some(InProgress)");

    let update = SessionUpdate::ToolCallUpdate { status: None };
    let r = session_update_event("sess-1", &update);
    assert_eq!(status_content(&r), "Tool update: None");
}

#[test]
fn plans_report_their_entry_count() {
    let update = SessionUpdate::Plan { entries: 3 };
    let r = session_update_event("sess-1", &update);
    assert_eq!(status_content(&r), "Plan received: 3 steps");
}

#[test]
fn unrecognized_notifications_are_silently_ignored() {
    assert!(session_update_event("sess-1", &SessionUpdate::Other).is_none());
}
