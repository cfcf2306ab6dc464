//! Typed events for the UI boundary.
//!
//! One-directional notifications arriving from the agent are turned into
//! typed events: a chat message for plain text or resource-link content,
//! and status updates summarizing tool calls and plan submissions.  An
//! unrecognized notification yields no event at all — it is ignored on
//! purpose, never treated as an error.

use vstd::prelude::*;
use crate::text::decimal_rep;
use crate::text::decimal_string;

verus! {

/// A piece of content in a message from the agent.
pub enum ContentBlock {
    Text { text: String },
    ResourceLink { uri: String },
    Other,
}

/// Execution status of a tool call the agent reports.
#[derive(Clone, Copy, Debug, PartialEq, Eq, Structural)]
pub enum ToolCallStatus {
    Pending,
    InProgress,
    Completed,
    Failed,
}

/// A session notification from the agent, reduced to what the UI cares
/// about.
pub enum SessionUpdate {
    AgentMessageChunk { content: ContentBlock },
    ToolCall { title: String, status: ToolCallStatus },
    ToolCallUpdate { status: Option<ToolCallStatus> },
    Plan { entries: u64 },
    Other,
}

/// An event pushed to the UI boundary, each carrying the session id and a
/// text payload.
pub enum AcpUiEvent {
    ChatMessage { session_id: String, content: String },
    StatusUpdate { session_id: String, content: String },
    Error { session_id: String, content: String },
}

/// The text of a content block, where it has one.
pub open spec fn spec_content_text(c: ContentBlock) -> Option<Seq<char>> {
    match c {
        ContentBlock::Text { text } => Some(text@),
        ContentBlock::ResourceLink { uri } => Some(uri@),
        ContentBlock::Other => None,
    }
}

/// Extracts the text of a content block: plain text as given, a resource
/// link by its URI, anything else nothing.
pub fn content_block_to_text(content: &ContentBlock) -> (r: Option<String>)
    ensures
        match r {
            Some(s) => spec_content_text(*content) == Some(s@),
            None => spec_content_text(*content) is None,
        },
{
    match content {
        ContentBlock::Text { text } => Some(text.clone()),
        ContentBlock::ResourceLink { uri } => Some(uri.clone()),
        ContentBlock::Other => None,
    }
}

/// The display name of a tool-call status.
pub open spec fn spec_status_label(s: ToolCallStatus) -> Seq<char> {
    match s {
        ToolCallStatus::Pending => "Pending"@,
        ToolCallStatus::InProgress => "InProgress"@,
        ToolCallStatus::Completed => "Completed"@,
        ToolCallStatus::Failed => "Failed"@,
    }
}

fn status_label(s: ToolCallStatus) -> (r: &'static str)
    ensures
        r@ == spec_status_label(s),
{
    match s {
        ToolCallStatus::Pending => "Pending",
        ToolCallStatus::InProgress => "InProgress",
        ToolCallStatus::Completed => "Completed",
        ToolCallStatus::Failed => "Failed",
    }
}

/// The display name of an optional tool-call status.
pub open spec fn spec_opt_status_label(s: Option<ToolCallStatus>) -> Seq<char> {
    match s {
        Some(st) => "Some("@ + spec_status_label(st) + ")"@,
        None => "None"@,
    }
}

/// `r` is a chat-message event with this session id and text.
pub open spec fn is_chat_event(r: Option<AcpUiEvent>, sid: Seq<char>, text: Seq<char>) -> bool {
    match r {
        Some(AcpUiEvent::ChatMessage { session_id, content }) => session_id@ == sid && content@
            == text,
        _ => false,
    }
}

/// `r` is a status-update event with this session id and text.
pub open spec fn is_status_event(r: Option<AcpUiEvent>, sid: Seq<char>, text: Seq<char>) -> bool {
    match r {
        Some(AcpUiEvent::StatusUpdate { session_id, content }) => session_id@ == sid && content@
            == text,
        _ => false,
    }
}

/// Turns a session notification into the event the UI sees, if any: a chat
/// message for text or resource-link chunks; a status update naming a tool
/// call and its status, a tool-call status change, or a plan's entry
/// count; nothing for anything unrecognized.
pub fn session_update_event(session_id: &str, update: &SessionUpdate) -> (r: Option<AcpUiEvent>)
    ensures
        match update {
            SessionUpdate::AgentMessageChunk { content } => match spec_content_text(*content) {
                Some(text) => is_chat_event(r, session_id@, text),
                None => r is None,
            },
            SessionUpdate::ToolCall { title, status } => is_status_event(
                r,
                session_id@,
                title@ + " ("@ + spec_status_label(*status) + ")"@,
            ),
            SessionUpdate::ToolCallUpdate { status } => is_status_event(
                r,
                session_id@,
                "Tool update: "@ + spec_opt_status_label(*status),
            ),
            SessionUpdate::Plan { entries } => is_status_event(
                r,
                session_id@,
                "Plan received: "@ + decimal_rep(*entries as nat) + " steps"@,
            ),
            SessionUpdate::Other => r is None,
        },
{
    match update {
        SessionUpdate::AgentMessageChunk { content } => match content_block_to_text(content) {
            Some(text) => Some(
                AcpUiEvent::ChatMessage { session_id: session_id.to_owned(), content: text },
            ),
            None => None,
        },
        SessionUpdate::ToolCall { title, status } => {
            let mut c = title.clone();
            c.append(" (");
            c.append(status_label(*status));
            c.append(")");
            Some(AcpUiEvent::StatusUpdate { session_id: session_id.to_owned(), content: c })
        },
        SessionUpdate::ToolCallUpdate { status } => {
            let mut c = "Tool update: ".to_owned();
            match status {
                Some(st) => {
                    c.append("Some(");
                    c.append(status_label(*st));
                    c.append(")");
                    proof {
                        assert(c@ =~= "Tool update: "@ + spec_opt_status_label(Some(*st)));
                    }
                },
                None => {
                    c.append("None");
                },
            }
            Some(AcpUiEvent::StatusUpdate { session_id: session_id.to_owned(), content: c })
        },
        SessionUpdate::Plan { entries } => {
            let mut c = "Plan received: ".to_owned();
            let digits = decimal_string(*entries);
            c.append(digits.as_str());
            c.append(" steps");
            proof {
                assert(c@ =~= "Plan received: "@ + decimal_rep(*entries as nat) + " steps"@);
            }
            Some(AcpUiEvent::StatusUpdate { session_id: session_id.to_owned(), content: c })
        },
        SessionUpdate::Other => None,
    }
}

} // verus!
