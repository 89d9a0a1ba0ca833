//! Session event types for the Copilot SDK.
//!
//! Events are received from the Copilot CLI during a session. They include
//! assistant messages, tool executions, session lifecycle events, and more.
//! This module holds the payload types that carry only text, flags and
//! lists, and the rule that maps an event's type string to its kind.
use crate::types::AttachmentType;
use vstd::prelude::*;

verus! {

// =============================================================================
// Nested Types (used within event data)
// =============================================================================

/// Handoff source type.
#[derive(Debug, Clone, Copy, PartialEq, Eq, Structural)]
pub enum HandoffSourceType {
    Remote,
    Local,
}

/// System message role.
#[derive(Debug, Clone, Copy, PartialEq, Eq, Structural)]
pub enum SystemMessageRole {
    System,
    Developer,
}

/// Repository info for handoff events.
#[derive(Debug, Clone)]
pub struct RepositoryInfo {
    pub owner: String,
    pub name: String,
    pub branch: Option<String>,
}

/// Attachment in user message.
#[derive(Debug, Clone)]
pub struct UserMessageAttachmentItem {
    pub attachment_type: AttachmentType,
    pub path: String,
    pub display_name: String,
}

/// Tool execution result content.
#[derive(Debug, Clone)]
pub struct ToolResultContent {
    pub content: String,
}

/// Tool execution error.
#[derive(Debug, Clone)]
pub struct ToolExecutionError {
    pub message: String,
    pub code: Option<String>,
}

/// Hook error.
#[derive(Debug, Clone)]
pub struct HookError {
    pub message: String,
    pub stack: Option<String>,
}

// =============================================================================
// Event Data Types
// =============================================================================

/// Data for session.error event.
#[derive(Debug, Clone)]
pub struct SessionErrorData {
    pub error_type: String,
    pub message: String,
    pub stack: Option<String>,
}

/// Data for session.idle event.
#[derive(Debug, Clone, Default)]
pub struct SessionIdleData {}

/// Data for session.info event.
#[derive(Debug, Clone)]
pub struct SessionInfoData {
    pub info_type: String,
    pub message: String,
}

/// Data for session.model_change event.
#[derive(Debug, Clone)]
pub struct SessionModelChangeData {
    pub previous_model: Option<String>,
    pub new_model: String,
}

/// Data for session.handoff event.
#[derive(Debug, Clone)]
pub struct SessionHandoffData {
    pub handoff_time: String,
    pub source_type: HandoffSourceType,
    pub repository: Option<RepositoryInfo>,
    pub context: Option<String>,
    pub summary: Option<String>,
    pub remote_session_id: Option<String>,
}

/// Data for user.message event.
#[derive(Debug, Clone)]
pub struct UserMessageData {
    pub content: String,
    pub transformed_content: Option<String>,
    pub attachments: Option<Vec<UserMessageAttachmentItem>>,
    pub source: Option<String>,
}

/// Data for pending_messages.modified event.
#[derive(Debug, Clone, Default)]
pub struct PendingMessagesModifiedData {}

/// Data for assistant.turn_start event.
#[derive(Debug, Clone)]
pub struct AssistantTurnStartData {
    pub turn_id: String,
}

/// Data for assistant.intent event.
#[derive(Debug, Clone)]
pub struct AssistantIntentData {
    pub intent: String,
}

/// Data for assistant.reasoning event.
#[derive(Debug, Clone)]
pub struct AssistantReasoningData {
    pub reasoning_id: String,
    pub content: String,
    pub chunk_content: Option<String>,
}

/// Data for assistant.reasoning_delta event.
#[derive(Debug, Clone)]
pub struct AssistantReasoningDeltaData {
    pub reasoning_id: String,
    pub delta_content: String,
}

/// Data for assistant.turn_end event.
#[derive(Debug, Clone)]
pub struct AssistantTurnEndData {
    pub turn_id: String,
}

/// Data for abort event.
#[derive(Debug, Clone)]
pub struct AbortData {
    pub reason: String,
}

/// Data for tool.execution_partial_result event.
#[derive(Debug, Clone)]
pub struct ToolExecutionPartialResultData {
    pub tool_call_id: String,
    pub partial_output: String,
}

/// Data for custom_agent.started event.
#[derive(Debug, Clone)]
pub struct CustomAgentStartedData {
    pub tool_call_id: String,
    pub agent_name: String,
    pub agent_display_name: String,
    pub agent_description: String,
}

/// Data for custom_agent.completed event.
#[derive(Debug, Clone)]
pub struct CustomAgentCompletedData {
    pub tool_call_id: String,
    pub agent_name: String,
}

/// Data for custom_agent.failed event.
#[derive(Debug, Clone)]
pub struct CustomAgentFailedData {
    pub tool_call_id: String,
    pub agent_name: String,
    pub error: String,
}

/// Data for custom_agent.selected event.
#[derive(Debug, Clone)]
pub struct CustomAgentSelectedData {
    pub agent_name: String,
    pub agent_display_name: String,
    pub tools: Vec<String>,
}

// =============================================================================
// Event kinds
// =============================================================================

/// The kind of a session event, decided by its type string.
#[derive(Debug, Clone, Copy, PartialEq, Eq, Structural)]
pub enum EventKind {
    /// `session.start`
    SessionStart,
    /// `session.resume`
    SessionResume,
    /// `session.error`
    SessionError,
    /// `session.idle`
    SessionIdle,
    /// `session.info`
    SessionInfo,
    /// `session.model_change`
    SessionModelChange,
    /// `session.handoff`
    SessionHandoff,
    /// `session.truncation`
    SessionTruncation,
    /// `user.message`
    UserMessage,
    /// `pending_messages.modified`
    PendingMessagesModified,
    /// `assistant.turn_start`
    AssistantTurnStart,
    /// `assistant.intent`
    AssistantIntent,
    /// `assistant.reasoning`
    AssistantReasoning,
    /// `assistant.reasoning_delta`
    AssistantReasoningDelta,
    /// `assistant.message`
    AssistantMessage,
    /// `assistant.message_delta`
    AssistantMessageDelta,
    /// `assistant.turn_end`
    AssistantTurnEnd,
    /// `assistant.usage`
    AssistantUsage,
    /// `abort`
    Abort,
    /// `tool.user_requested`
    ToolUserRequested,
    /// `tool.execution_start`
    ToolExecutionStart,
    /// `tool.execution_partial_result`
    ToolExecutionPartialResult,
    /// `tool.execution_complete`
    ToolExecutionComplete,
    /// `custom_agent.started`
    CustomAgentStarted,
    /// `custom_agent.completed`
    CustomAgentCompleted,
    /// `custom_agent.failed`
    CustomAgentFailed,
    /// `custom_agent.selected`
    CustomAgentSelected,
    /// `hook.start`
    HookStart,
    /// `hook.end`
    HookEnd,
    /// `system.message`
    SystemMessage,
    /// `external_tool.requested`
    ExternalToolRequested,
    /// `permission.requested`
    PermissionRequested,
    /// `command.execute`
    CommandExecute,
    /// Any other type string: the payload is kept as it came.
    Unknown,
}

/// The kind of the event whose type string is `t`.
pub open spec fn event_kind_of(t: Seq<char>) -> EventKind {
    if t == "session.start"@ {
        EventKind::SessionStart
    } else if t == "session.resume"@ {
        EventKind::SessionResume
    } else if t == "session.error"@ {
        EventKind::SessionError
    } else if t == "session.idle"@ {
        EventKind::SessionIdle
    } else if t == "session.info"@ {
        EventKind::SessionInfo
    } else if t == "session.model_change"@ {
        EventKind::SessionModelChange
    } else if t == "session.handoff"@ {
        EventKind::SessionHandoff
    } else if t == "session.truncation"@ {
        EventKind::SessionTruncation
    } else if t == "user.message"@ {
        EventKind::UserMessage
    } else if t == "pending_messages.modified"@ {
        EventKind::PendingMessagesModified
    } else if t == "assistant.turn_start"@ {
        EventKind::AssistantTurnStart
    } else if t == "assistant.intent"@ {
        EventKind::AssistantIntent
    } else if t == "assistant.reasoning"@ {
        EventKind::AssistantReasoning
    } else if t == "assistant.reasoning_delta"@ {
        EventKind::AssistantReasoningDelta
    } else if t == "assistant.message"@ {
        EventKind::AssistantMessage
    } else if t == "assistant.message_delta"@ {
        EventKind::AssistantMessageDelta
    } else if t == "assistant.turn_end"@ {
        EventKind::AssistantTurnEnd
    } else if t == "assistant.usage"@ {
        EventKind::AssistantUsage
    } else if t == "abort"@ {
        EventKind::Abort
    } else if t == "tool.user_requested"@ {
        EventKind::ToolUserRequested
    } else if t == "tool.execution_start"@ {
        EventKind::ToolExecutionStart
    } else if t == "tool.execution_partial_result"@ {
        EventKind::ToolExecutionPartialResult
    } else if t == "tool.execution_complete"@ {
        EventKind::ToolExecutionComplete
    } else if t == "custom_agent.started"@ {
        EventKind::CustomAgentStarted
    } else if t == "custom_agent.completed"@ {
        EventKind::CustomAgentCompleted
    } else if t == "custom_agent.failed"@ {
        EventKind::CustomAgentFailed
    } else if t == "custom_agent.selected"@ {
        EventKind::CustomAgentSelected
    } else if t == "hook.start"@ {
        EventKind::HookStart
    } else if t == "hook.end"@ {
        EventKind::HookEnd
    } else if t == "system.message"@ {
        EventKind::SystemMessage
    } else if t == "external_tool.requested"@ {
        EventKind::ExternalToolRequested
    } else if t == "permission.requested"@ {
        EventKind::PermissionRequested
    } else if t == "command.execute"@ {
        EventKind::CommandExecute
    } else {
        EventKind::Unknown
    }
}

impl EventKind {
    /// The type string of a known kind.
    pub open spec fn wire_name(self) -> Seq<char> {
        match self {
            EventKind::SessionStart => "session.start"@,
            EventKind::SessionResume => "session.resume"@,
            EventKind::SessionError => "session.error"@,
            EventKind::SessionIdle => "session.idle"@,
            EventKind::SessionInfo => "session.info"@,
            EventKind::SessionModelChange => "session.model_change"@,
            EventKind::SessionHandoff => "session.handoff"@,
            EventKind::SessionTruncation => "session.truncation"@,
            EventKind::UserMessage => "user.message"@,
            EventKind::PendingMessagesModified => "pending_messages.modified"@,
            EventKind::AssistantTurnStart => "assistant.turn_start"@,
            EventKind::AssistantIntent => "assistant.intent"@,
            EventKind::AssistantReasoning => "assistant.reasoning"@,
            EventKind::AssistantReasoningDelta => "assistant.reasoning_delta"@,
            EventKind::AssistantMessage => "assistant.message"@,
            EventKind::AssistantMessageDelta => "assistant.message_delta"@,
            EventKind::AssistantTurnEnd => "assistant.turn_end"@,
            EventKind::AssistantUsage => "assistant.usage"@,
            EventKind::Abort => "abort"@,
            EventKind::ToolUserRequested => "tool.user_requested"@,
            EventKind::ToolExecutionStart => "tool.execution_start"@,
            EventKind::ToolExecutionPartialResult => "tool.execution_partial_result"@,
            EventKind::ToolExecutionComplete => "tool.execution_complete"@,
            EventKind::CustomAgentStarted => "custom_agent.started"@,
            EventKind::CustomAgentCompleted => "custom_agent.completed"@,
            EventKind::CustomAgentFailed => "custom_agent.failed"@,
            EventKind::CustomAgentSelected => "custom_agent.selected"@,
            EventKind::HookStart => "hook.start"@,
            EventKind::HookEnd => "hook.end"@,
            EventKind::SystemMessage => "system.message"@,
            EventKind::ExternalToolRequested => "external_tool.requested"@,
            EventKind::PermissionRequested => "permission.requested"@,
            EventKind::CommandExecute => "command.execute"@,
            EventKind::Unknown => Seq::<char>::empty(),
        }
    }

    /// The kind of the event whose type string is `event_type`.
    pub fn from_event_type(event_type: &str) -> (k: EventKind)
        ensures
            k == event_kind_of(event_type@),
    {
        if event_type.eq("session.start") {
            EventKind::SessionStart
        } else if event_type.eq("session.resume") {
            EventKind::SessionResume
        } else if event_type.eq("session.error") {
            EventKind::SessionError
        } else if event_type.eq("session.idle") {
            EventKind::SessionIdle
        } else if event_type.eq("session.info") {
            EventKind::SessionInfo
        } else if event_type.eq("session.model_change") {
            EventKind::SessionModelChange
        } else if event_type.eq("session.handoff") {
            EventKind::SessionHandoff
        } else if event_type.eq("session.truncation") {
            EventKind::SessionTruncation
        } else if event_type.eq("user.message") {
            EventKind::UserMessage
        } else if event_type.eq("pending_messages.modified") {
            EventKind::PendingMessagesModified
        } else if event_type.eq("assistant.turn_start") {
            EventKind::AssistantTurnStart
        } else if event_type.eq("assistant.intent") {
            EventKind::AssistantIntent
        } else if event_type.eq("assistant.reasoning") {
            EventKind::AssistantReasoning
        } else if event_type.eq("assistant.reasoning_delta") {
            EventKind::AssistantReasoningDelta
        } else if event_type.eq("assistant.message") {
            EventKind::AssistantMessage
        } else if event_type.eq("assistant.message_delta") {
            EventKind::AssistantMessageDelta
        } else if event_type.eq("assistant.turn_end") {
            EventKind::AssistantTurnEnd
        } else if event_type.eq("assistant.usage") {
            EventKind::AssistantUsage
        } else if event_type.eq("abort") {
            EventKind::Abort
        } else if event_type.eq("tool.user_requested") {
            EventKind::ToolUserRequested
        } else if event_type.eq("tool.execution_start") {
            EventKind::ToolExecutionStart
        } else if event_type.eq("tool.execution_partial_result") {
            EventKind::ToolExecutionPartialResult
        } else if event_type.eq("tool.execution_complete") {
            EventKind::ToolExecutionComplete
        } else if event_type.eq("custom_agent.started") {
            EventKind::CustomAgentStarted
        } else if event_type.eq("custom_agent.completed") {
            EventKind::CustomAgentCompleted
        } else if event_type.eq("custom_agent.failed") {
            EventKind::CustomAgentFailed
        } else if event_type.eq("custom_agent.selected") {
            EventKind::CustomAgentSelected
        } else if event_type.eq("hook.start") {
            EventKind::HookStart
        } else if event_type.eq("hook.end") {
            EventKind::HookEnd
        } else if event_type.eq("system.message") {
            EventKind::SystemMessage
        } else if event_type.eq("external_tool.requested") {
            EventKind::ExternalToolRequested
        } else if event_type.eq("permission.requested") {
            EventKind::PermissionRequested
        } else if event_type.eq("command.execute") {
            EventKind::CommandExecute
        } else {
            EventKind::Unknown
        }
    }
}


/// A type string that is the name of no known kind classifies as unknown.
pub proof fn lemma_unlisted_type_is_unknown(t: Seq<char>)
    requires
        forall|k: EventKind| k != EventKind::Unknown ==> t != #[trigger] k.wire_name(),
    ensures
        event_kind_of(t) == EventKind::Unknown,
{
    assert(t != EventKind::SessionStart.wire_name());
    assert(t != EventKind::SessionResume.wire_name());
    assert(t != EventKind::SessionError.wire_name());
    assert(t != EventKind::SessionIdle.wire_name());
    assert(t != EventKind::SessionInfo.wire_name());
    assert(t != EventKind::SessionModelChange.wire_name());
    assert(t != EventKind::SessionHandoff.wire_name());
    assert(t != EventKind::SessionTruncation.wire_name());
    assert(t != EventKind::UserMessage.wire_name());
    assert(t != EventKind::PendingMessagesModified.wire_name());
    assert(t != EventKind::AssistantTurnStart.wire_name());
    assert(t != EventKind::AssistantIntent.wire_name());
    assert(t != EventKind::AssistantReasoning.wire_name());
    assert(t != EventKind::AssistantReasoningDelta.wire_name());
    assert(t != EventKind::AssistantMessage.wire_name());
    assert(t != EventKind::AssistantMessageDelta.wire_name());
    assert(t != EventKind::AssistantTurnEnd.wire_name());
    assert(t != EventKind::AssistantUsage.wire_name());
    assert(t != EventKind::Abort.wire_name());
    assert(t != EventKind::ToolUserRequested.wire_name());
    assert(t != EventKind::ToolExecutionStart.wire_name());
    assert(t != EventKind::ToolExecutionPartialResult.wire_name());
    assert(t != EventKind::ToolExecutionComplete.wire_name());
    assert(t != EventKind::CustomAgentStarted.wire_name());
    assert(t != EventKind::CustomAgentCompleted.wire_name());
    assert(t != EventKind::CustomAgentFailed.wire_name());
    assert(t != EventKind::CustomAgentSelected.wire_name());
    assert(t != EventKind::HookStart.wire_name());
    assert(t != EventKind::HookEnd.wire_name());
    assert(t != EventKind::SystemMessage.wire_name());
    assert(t != EventKind::ExternalToolRequested.wire_name());
    assert(t != EventKind::PermissionRequested.wire_name());
    assert(t != EventKind::CommandExecute.wire_name());
}

/// Every known kind is recognised by its own type string.
pub proof fn lemma_event_kind_of_wire_name(k: EventKind)
    requires
        k != EventKind::Unknown,
    ensures
        event_kind_of(k.wire_name()) == k,
{
    match k {
        EventKind::SessionStart => {
            reveal_strlit("session.start");
        },
        EventKind::SessionResume => {
            reveal_strlit("session.resume");
            reveal_strlit("session.start");
            assert("session.resume"@[8] != "session.start"@[8]);
        },
        EventKind::SessionError => {
            reveal_strlit("session.error");
            reveal_strlit("session.start");
            assert("session.error"@[8] != "session.start"@[8]);
            reveal_strlit("session.resume");
            assert("session.error"@[8] != "session.resume"@[8]);
        },
        EventKind::SessionIdle => {
            reveal_strlit("session.idle");
            reveal_strlit("session.start");
            assert("session.idle"@[8] != "session.start"@[8]);
            reveal_strlit("session.resume");
            assert("session.idle"@[8] != "session.resume"@[8]);
            reveal_strlit("session.error");
            assert("session.idle"@[8] != "session.error"@[8]);
        },
        EventKind::SessionInfo => {
            reveal_strlit("session.info");
            reveal_strlit("session.start");
            assert("session.info"@[8] != "session.start"@[8]);
            reveal_strlit("session.resume");
            assert("session.info"@[8] != "session.resume"@[8]);
            reveal_strlit("session.error");
            assert("session.info"@[8] != "session.error"@[8]);
            reveal_strlit("session.idle");
            assert("session.info"@[9] != "session.idle"@[9]);
        },
        EventKind::SessionModelChange => {
            reveal_strlit("session.model_change");
            reveal_strlit("session.start");
            assert("session.model_change"@[8] != "session.start"@[8]);
            reveal_strlit("session.resume");
            assert("session.model_change"@[8] != "session.resume"@[8]);
            reveal_strlit("session.error");
            assert("session.model_change"@[8] != "session.error"@[8]);
            reveal_strlit("session.idle");
            assert("session.model_change"@[8] != "session.idle"@[8]);
            reveal_strlit("session.info");
            assert("session.model_change"@[8] != "session.info"@[8]);
        },
        EventKind::SessionHandoff => {
            reveal_strlit("session.handoff");
            reveal_strlit("session.start");
            assert("session.handoff"@[8] != "session.start"@[8]);
            reveal_strlit("session.resume");
            assert("session.handoff"@[8] != "session.resume"@[8]);
            reveal_strlit("session.error");
            assert("session.handoff"@[8] != "session.error"@[8]);
            reveal_strlit("session.idle");
            assert("session.handoff"@[8] != "session.idle"@[8]);
            reveal_strlit("session.info");
            assert("session.handoff"@[8] != "session.info"@[8]);
            reveal_strlit("session.model_change");
            assert("session.handoff"@[8] != "session.model_change"@[8]);
        },
        EventKind::SessionTruncation => {
            reveal_strlit("session.truncation");
            reveal_strlit("session.start");
            assert("session.truncation"@[8] != "session.start"@[8]);
            reveal_strlit("session.resume");
            assert("session.truncation"@[8] != "session.resume"@[8]);
            reveal_strlit("session.error");
            assert("session.truncation"@[8] != "session.error"@[8]);
            reveal_strlit("session.idle");
            assert("session.truncation"@[8] != "session.idle"@[8]);
            reveal_strlit("session.info");
            assert("session.truncation"@[8] != "session.info"@[8]);
            reveal_strlit("session.model_change");
            assert("session.truncation"@[8] != "session.model_change"@[8]);
            reveal_strlit("session.handoff");
            assert("session.truncation"@[8] != "session.handoff"@[8]);
        },
        EventKind::UserMessage => {
            reveal_strlit("user.message");
            reveal_strlit("session.start");
            assert("user.message"@[0] != "session.start"@[0]);
            reveal_strlit("session.resume");
            assert("user.message"@[0] != "session.resume"@[0]);
            reveal_strlit("session.error");
            assert("user.message"@[0] != "session.error"@[0]);
            reveal_strlit("session.idle");
            assert("user.message"@[0] != "session.idle"@[0]);
            reveal_strlit("session.info");
            assert("user.message"@[0] != "session.info"@[0]);
            reveal_strlit("session.model_change");
            assert("user.message"@[0] != "session.model_change"@[0]);
            reveal_strlit("session.handoff");
            assert("user.message"@[0] != "session.handoff"@[0]);
            reveal_strlit("session.truncation");
            assert("user.message"@[0] != "session.truncation"@[0]);
        },
        EventKind::PendingMessagesModified => {
            reveal_strlit("pending_messages.modified");
            reveal_strlit("session.start");
            assert("pending_messages.modified"@[0] != "session.start"@[0]);
            reveal_strlit("session.resume");
            assert("pending_messages.modified"@[0] != "session.resume"@[0]);
            reveal_strlit("session.error");
            assert("pending_messages.modified"@[0] != "session.error"@[0]);
            reveal_strlit("session.idle");
            assert("pending_messages.modified"@[0] != "session.idle"@[0]);
            reveal_strlit("session.info");
            assert("pending_messages.modified"@[0] != "session.info"@[0]);
            reveal_strlit("session.model_change");
            assert("pending_messages.modified"@[0] != "session.model_change"@[0]);
            reveal_strlit("session.handoff");
            assert("pending_messages.modified"@[0] != "session.handoff"@[0]);
            reveal_strlit("session.truncation");
            assert("pending_messages.modified"@[0] != "session.truncation"@[0]);
            reveal_strlit("user.message");
            assert("pending_messages.modified"@[0] != "user.message"@[0]);
        },
        EventKind::AssistantTurnStart => {
            reveal_strlit("assistant.turn_start");
            reveal_strlit("session.start");
            assert("assistant.turn_start"@[0] != "session.start"@[0]);
            reveal_strlit("session.resume");
            assert("assistant.turn_start"@[0] != "session.resume"@[0]);
            reveal_strlit("session.error");
            assert("assistant.turn_start"@[0] != "session.error"@[0]);
            reveal_strlit("session.idle");
            assert("assistant.turn_start"@[0] != "session.idle"@[0]);
            reveal_strlit("session.info");
            assert("assistant.turn_start"@[0] != "session.info"@[0]);
            reveal_strlit("session.model_change");
            assert("assistant.turn_start"@[0] != "session.model_change"@[0]);
            reveal_strlit("session.handoff");
            assert("assistant.turn_start"@[0] != "session.handoff"@[0]);
            reveal_strlit("session.truncation");
            assert("assistant.turn_start"@[0] != "session.truncation"@[0]);
            reveal_strlit("user.message");
            assert("assistant.turn_start"@[0] != "user.message"@[0]);
            reveal_strlit("pending_messages.modified");
            assert("assistant.turn_start"@[0] != "pending_messages.modified"@[0]);
        },
        EventKind::AssistantIntent => {
            reveal_strlit("assistant.intent");
            reveal_strlit("session.start");
            assert("assistant.intent"@[0] != "session.start"@[0]);
            reveal_strlit("session.resume");
            assert("assistant.intent"@[0] != "session.resume"@[0]);
            reveal_strlit("session.error");
            assert("assistant.intent"@[0] != "session.error"@[0]);
            reveal_strlit("session.idle");
            assert("assistant.intent"@[0] != "session.idle"@[0]);
            reveal_strlit("session.info");
            assert("assistant.intent"@[0] != "session.info"@[0]);
            reveal_strlit("session.model_change");
            assert("assistant.intent"@[0] != "session.model_change"@[0]);
            reveal_strlit("session.handoff");
            assert("assistant.intent"@[0] != "session.handoff"@[0]);
            reveal_strlit("session.truncation");
            assert("assistant.intent"@[0] != "session.truncation"@[0]);
            reveal_strlit("user.message");
            assert("assistant.intent"@[0] != "user.message"@[0]);
            reveal_strlit("pending_messages.modified");
            assert("assistant.intent"@[0] != "pending_messages.modified"@[0]);
            reveal_strlit("assistant.turn_start");
            assert("assistant.intent"@[10] != "assistant.turn_start"@[10]);
        },
        EventKind::AssistantReasoning => {
            reveal_strlit("assistant.reasoning");
            reveal_strlit("session.start");
            assert("assistant.reasoning"@[0] != "session.start"@[0]);
            reveal_strlit("session.resume");
            assert("assistant.reasoning"@[0] != "session.resume"@[0]);
            reveal_strlit("session.error");
            assert("assistant.reasoning"@[0] != "session.error"@[0]);
            reveal_strlit("session.idle");
            assert("assistant.reasoning"@[0] != "session.idle"@[0]);
            reveal_strlit("session.info");
            assert("assistant.reasoning"@[0] != "session.info"@[0]);
            reveal_strlit("session.model_change");
            assert("assistant.reasoning"@[0] != "session.model_change"@[0]);
            reveal_strlit("session.handoff");
            assert("assistant.reasoning"@[0] != "session.handoff"@[0]);
            reveal_strlit("session.truncation");
            assert("assistant.reasoning"@[0] != "session.truncation"@[0]);
            reveal_strlit("user.message");
            assert("assistant.reasoning"@[0] != "user.message"@[0]);
            reveal_strlit("pending_messages.modified");
            assert("assistant.reasoning"@[0] != "pending_messages.modified"@[0]);
            reveal_strlit("assistant.turn_start");
            assert("assistant.reasoning"@[10] != "assistant.turn_start"@[10]);
            reveal_strlit("assistant.intent");
            assert("assistant.reasoning"@[10] != "assistant.intent"@[10]);
        },
        EventKind::AssistantReasoningDelta => {
            reveal_strlit("assistant.reasoning_delta");
            reveal_strlit("session.start");
            assert("assistant.reasoning_delta"@[0] != "session.start"@[0]);
            reveal_strlit("session.resume");
            assert("assistant.reasoning_delta"@[0] != "session.resume"@[0]);
            reveal_strlit("session.error");
            assert("assistant.reasoning_delta"@[0] != "session.error"@[0]);
            reveal_strlit("session.idle");
            assert("assistant.reasoning_delta"@[0] != "session.idle"@[0]);
            reveal_strlit("session.info");
            assert("assistant.reasoning_delta"@[0] != "session.info"@[0]);
            reveal_strlit("session.model_change");
            assert("assistant.reasoning_delta"@[0] != "session.model_change"@[0]);
            reveal_strlit("session.handoff");
            assert("assistant.reasoning_delta"@[0] != "session.handoff"@[0]);
            reveal_strlit("session.truncation");
            assert("assistant.reasoning_delta"@[0] != "session.truncation"@[0]);
            reveal_strlit("user.message");
            assert("assistant.reasoning_delta"@[0] != "user.message"@[0]);
            reveal_strlit("pending_messages.modified");
            assert("assistant.reasoning_delta"@[0] != "pending_messages.modified"@[0]);
            reveal_strlit("assistant.turn_start");
            assert("assistant.reasoning_delta"@[10] != "assistant.turn_start"@[10]);
            reveal_strlit("assistant.intent");
            assert("assistant.reasoning_delta"@[10] != "assistant.intent"@[10]);
            reveal_strlit("assistant.reasoning");
            assert("assistant.reasoning_delta"@.len() != "assistant.reasoning"@.len());
        },
        EventKind::AssistantMessage => {
            reveal_strlit("assistant.message");
            reveal_strlit("session.start");
            assert("assistant.message"@[0] != "session.start"@[0]);
            reveal_strlit("session.resume");
            assert("assistant.message"@[0] != "session.resume"@[0]);
            reveal_strlit("session.error");
            assert("assistant.message"@[0] != "session.error"@[0]);
            reveal_strlit("session.idle");
            assert("assistant.message"@[0] != "session.idle"@[0]);
            reveal_strlit("session.info");
            assert("assistant.message"@[0] != "session.info"@[0]);
            reveal_strlit("session.model_change");
            assert("assistant.message"@[0] != "session.model_change"@[0]);
            reveal_strlit("session.handoff");
            assert("assistant.message"@[0] != "session.handoff"@[0]);
            reveal_strlit("session.truncation");
            assert("assistant.message"@[0] != "session.truncation"@[0]);
            reveal_strlit("user.message");
            assert("assistant.message"@[0] != "user.message"@[0]);
            reveal_strlit("pending_messages.modified");
            assert("assistant.message"@[0] != "pending_messages.modified"@[0]);
            reveal_strlit("assistant.turn_start");
            assert("assistant.message"@[10] != "assistant.turn_start"@[10]);
            reveal_strlit("assistant.intent");
            assert("assistant.message"@[10] != "assistant.intent"@[10]);
            reveal_strlit("assistant.reasoning");
            assert("assistant.message"@[10] != "assistant.reasoning"@[10]);
            reveal_strlit("assistant.reasoning_delta");
            assert("assistant.message"@[10] != "assistant.reasoning_delta"@[10]);
        },
        EventKind::AssistantMessageDelta => {
            reveal_strlit("assistant.message_delta");
            reveal_strlit("session.start");
            assert("assistant.message_delta"@[0] != "session.start"@[0]);
            reveal_strlit("session.resume");
            assert("assistant.message_delta"@[0] != "session.resume"@[0]);
            reveal_strlit("session.error");
            assert("assistant.message_delta"@[0] != "session.error"@[0]);
            reveal_strlit("session.idle");
            assert("assistant.message_delta"@[0] != "session.idle"@[0]);
            reveal_strlit("session.info");
            assert("assistant.message_delta"@[0] != "session.info"@[0]);
            reveal_strlit("session.model_change");
            assert("assistant.message_delta"@[0] != "session.model_change"@[0]);
            reveal_strlit("session.handoff");
            assert("assistant.message_delta"@[0] != "session.handoff"@[0]);
            reveal_strlit("session.truncation");
            assert("assistant.message_delta"@[0] != "session.truncation"@[0]);
            reveal_strlit("user.message");
            assert("assistant.message_delta"@[0] != "user.message"@[0]);
            reveal_strlit("pending_messages.modified");
            assert("assistant.message_delta"@[0] != "pending_messages.modified"@[0]);
            reveal_strlit("assistant.turn_start");
            assert("assistant.message_delta"@[10] != "assistant.turn_start"@[10]);
            reveal_strlit("assistant.intent");
            assert("assistant.message_delta"@[10] != "assistant.intent"@[10]);
            reveal_strlit("assistant.reasoning");
            assert("assistant.message_delta"@[10] != "assistant.reasoning"@[10]);
            reveal_strlit("assistant.reasoning_delta");
            assert("assistant.message_delta"@[10] != "assistant.reasoning_delta"@[10]);
            reveal_strlit("assistant.message");
            assert("assistant.message_delta"@.len() != "assistant.message"@.len());
        },
        EventKind::AssistantTurnEnd => {
            reveal_strlit("assistant.turn_end");
            reveal_strlit("session.start");
            assert("assistant.turn_end"@[0] != "session.start"@[0]);
            reveal_strlit("session.resume");
            assert("assistant.turn_end"@[0] != "session.resume"@[0]);
            reveal_strlit("session.error");
            assert("assistant.turn_end"@[0] != "session.error"@[0]);
            reveal_strlit("session.idle");
            assert("assistant.turn_end"@[0] != "session.idle"@[0]);
            reveal_strlit("session.info");
            assert("assistant.turn_end"@[0] != "session.info"@[0]);
            reveal_strlit("session.model_change");
            assert("assistant.turn_end"@[0] != "session.model_change"@[0]);
            reveal_strlit("session.handoff");
            assert("assistant.turn_end"@[0] != "session.handoff"@[0]);
            reveal_strlit("session.truncation");
            assert("assistant.turn_end"@[0] != "session.truncation"@[0]);
            reveal_strlit("user.message");
            assert("assistant.turn_end"@[0] != "user.message"@[0]);
            reveal_strlit("pending_messages.modified");
            assert("assistant.turn_end"@[0] != "pending_messages.modified"@[0]);
            reveal_strlit("assistant.turn_start");
            assert("assistant.turn_end"@[15] != "assistant.turn_start"@[15]);
            reveal_strlit("assistant.intent");
            assert("assistant.turn_end"@[10] != "assistant.intent"@[10]);
            reveal_strlit("assistant.reasoning");
            assert("assistant.turn_end"@[10] != "assistant.reasoning"@[10]);
            reveal_strlit("assistant.reasoning_delta");
            assert("assistant.turn_end"@[10] != "assistant.reasoning_delta"@[10]);
            reveal_strlit("assistant.message");
            assert("assistant.turn_end"@[10] != "assistant.message"@[10]);
            reveal_strlit("assistant.message_delta");
            assert("assistant.turn_end"@[10] != "assistant.message_delta"@[10]);
        },
        EventKind::AssistantUsage => {
            reveal_strlit("assistant.usage");
            reveal_strlit("session.start");
            assert("assistant.usage"@[0] != "session.start"@[0]);
            reveal_strlit("session.resume");
            assert("assistant.usage"@[0] != "session.resume"@[0]);
            reveal_strlit("session.error");
            assert("assistant.usage"@[0] != "session.error"@[0]);
            reveal_strlit("session.idle");
            assert("assistant.usage"@[0] != "session.idle"@[0]);
            reveal_strlit("session.info");
            assert("assistant.usage"@[0] != "session.info"@[0]);
            reveal_strlit("session.model_change");
            assert("assistant.usage"@[0] != "session.model_change"@[0]);
            reveal_strlit("session.handoff");
            assert("assistant.usage"@[0] != "session.handoff"@[0]);
            reveal_strlit("session.truncation");
            assert("assistant.usage"@[0] != "session.truncation"@[0]);
            reveal_strlit("user.message");
            assert("assistant.usage"@[0] != "user.message"@[0]);
            reveal_strlit("pending_messages.modified");
            assert("assistant.usage"@[0] != "pending_messages.modified"@[0]);
            reveal_strlit("assistant.turn_start");
            assert("assistant.usage"@[10] != "assistant.turn_start"@[10]);
            reveal_strlit("assistant.intent");
            assert("assistant.usage"@[10] != "assistant.intent"@[10]);
            reveal_strlit("assistant.reasoning");
            assert("assistant.usage"@[10] != "assistant.reasoning"@[10]);
            reveal_strlit("assistant.reasoning_delta");
            assert("assistant.usage"@[10] != "assistant.reasoning_delta"@[10]);
            reveal_strlit("assistant.message");
            assert("assistant.usage"@[10] != "assistant.message"@[10]);
            reveal_strlit("assistant.message_delta");
            assert("assistant.usage"@[10] != "assistant.message_delta"@[10]);
            reveal_strlit("assistant.turn_end");
            assert("assistant.usage"@[10] != "assistant.turn_end"@[10]);
        },
        EventKind::Abort => {
            reveal_strlit("abort");
            reveal_strlit("session.start");
            assert("abort"@[0] != "session.start"@[0]);
            reveal_strlit("session.resume");
            assert("abort"@[0] != "session.resume"@[0]);
            reveal_strlit("session.error");
            assert("abort"@[0] != "session.error"@[0]);
            reveal_strlit("session.idle");
            assert("abort"@[0] != "session.idle"@[0]);
            reveal_strlit("session.info");
            assert("abort"@[0] != "session.info"@[0]);
            reveal_strlit("session.model_change");
            assert("abort"@[0] != "session.model_change"@[0]);
            reveal_strlit("session.handoff");
            assert("abort"@[0] != "session.handoff"@[0]);
            reveal_strlit("session.truncation");
            assert("abort"@[0] != "session.truncation"@[0]);
            reveal_strlit("user.message");
            assert("abort"@[0] != "user.message"@[0]);
            reveal_strlit("pending_messages.modified");
            assert("abort"@[0] != "pending_messages.modified"@[0]);
            reveal_strlit("assistant.turn_start");
            assert("abort"@[1] != "assistant.turn_start"@[1]);
            reveal_strlit("assistant.intent");
            assert("abort"@[1] != "assistant.intent"@[1]);
            reveal_strlit("assistant.reasoning");
            assert("abort"@[1] != "assistant.reasoning"@[1]);
            reveal_strlit("assistant.reasoning_delta");
            assert("abort"@[1] != "assistant.reasoning_delta"@[1]);
            reveal_strlit("assistant.message");
            assert("abort"@[1] != "assistant.message"@[1]);
            reveal_strlit("assistant.message_delta");
            assert("abort"@[1] != "assistant.message_delta"@[1]);
            reveal_strlit("assistant.turn_end");
            assert("abort"@[1] != "assistant.turn_end"@[1]);
            reveal_strlit("assistant.usage");
            assert("abort"@[1] != "assistant.usage"@[1]);
        },
        EventKind::ToolUserRequested => {
            reveal_strlit("tool.user_requested");
            reveal_strlit("session.start");
            assert("tool.user_requested"@[0] != "session.start"@[0]);
            reveal_strlit("session.resume");
            assert("tool.user_requested"@[0] != "session.resume"@[0]);
            reveal_strlit("session.error");
            assert("tool.user_requested"@[0] != "session.error"@[0]);
            reveal_strlit("session.idle");
            assert("tool.user_requested"@[0] != "session.idle"@[0]);
            reveal_strlit("session.info");
            assert("tool.user_requested"@[0] != "session.info"@[0]);
            reveal_strlit("session.model_change");
            assert("tool.user_requested"@[0] != "session.model_change"@[0]);
            reveal_strlit("session.handoff");
            assert("tool.user_requested"@[0] != "session.handoff"@[0]);
            reveal_strlit("session.truncation");
            assert("tool.user_requested"@[0] != "session.truncation"@[0]);
            reveal_strlit("user.message");
            assert("tool.user_requested"@[0] != "user.message"@[0]);
            reveal_strlit("pending_messages.modified");
            assert("tool.user_requested"@[0] != "pending_messages.modified"@[0]);
            reveal_strlit("assistant.turn_start");
            assert("tool.user_requested"@[0] != "assistant.turn_start"@[0]);
            reveal_strlit("assistant.intent");
            assert("tool.user_requested"@[0] != "assistant.intent"@[0]);
            reveal_strlit("assistant.reasoning");
            assert("tool.user_requested"@[0] != "assistant.reasoning"@[0]);
            reveal_strlit("assistant.reasoning_delta");
            assert("tool.user_requested"@[0] != "assistant.reasoning_delta"@[0]);
            reveal_strlit("assistant.message");
            assert("tool.user_requested"@[0] != "assistant.message"@[0]);
            reveal_strlit("assistant.message_delta");
            assert("tool.user_requested"@[0] != "assistant.message_delta"@[0]);
            reveal_strlit("assistant.turn_end");
            assert("tool.user_requested"@[0] != "assistant.turn_end"@[0]);
            reveal_strlit("assistant.usage");
            assert("tool.user_requested"@[0] != "assistant.usage"@[0]);
            reveal_strlit("abort");
            assert("tool.user_requested"@[0] != "abort"@[0]);
        },
        EventKind::ToolExecutionStart => {
            reveal_strlit("tool.execution_start");
            reveal_strlit("session.start");
            assert("tool.execution_start"@[0] != "session.start"@[0]);
            reveal_strlit("session.resume");
            assert("tool.execution_start"@[0] != "session.resume"@[0]);
            reveal_strlit("session.error");
            assert("tool.execution_start"@[0] != "session.error"@[0]);
            reveal_strlit("session.idle");
            assert("tool.execution_start"@[0] != "session.idle"@[0]);
            reveal_strlit("session.info");
            assert("tool.execution_start"@[0] != "session.info"@[0]);
            reveal_strlit("session.model_change");
            assert("tool.execution_start"@[0] != "session.model_change"@[0]);
            reveal_strlit("session.handoff");
            assert("tool.execution_start"@[0] != "session.handoff"@[0]);
            reveal_strlit("session.truncation");
            assert("tool.execution_start"@[0] != "session.truncation"@[0]);
            reveal_strlit("user.message");
            assert("tool.execution_start"@[0] != "user.message"@[0]);
            reveal_strlit("pending_messages.modified");
            assert("tool.execution_start"@[0] != "pending_messages.modified"@[0]);
            reveal_strlit("assistant.turn_start");
            assert("tool.execution_start"@[0] != "assistant.turn_start"@[0]);
            reveal_strlit("assistant.intent");
            assert("tool.execution_start"@[0] != "assistant.intent"@[0]);
            reveal_strlit("assistant.reasoning");
            assert("tool.execution_start"@[0] != "assistant.reasoning"@[0]);
            reveal_strlit("assistant.reasoning_delta");
            assert("tool.execution_start"@[0] != "assistant.reasoning_delta"@[0]);
            reveal_strlit("assistant.message");
            assert("tool.execution_start"@[0] != "assistant.message"@[0]);
            reveal_strlit("assistant.message_delta");
            assert("tool.execution_start"@[0] != "assistant.message_delta"@[0]);
            reveal_strlit("assistant.turn_end");
            assert("tool.execution_start"@[0] != "assistant.turn_end"@[0]);
            reveal_strlit("assistant.usage");
            assert("tool.execution_start"@[0] != "assistant.usage"@[0]);
            reveal_strlit("abort");
            assert("tool.execution_start"@[0] != "abort"@[0]);
            reveal_strlit("tool.user_requested");
            assert("tool.execution_start"@[5] != "tool.user_requested"@[5]);
        },
        EventKind::ToolExecutionPartialResult => {
            reveal_strlit("tool.execution_partial_result");
            reveal_strlit("session.start");
            assert("tool.execution_partial_result"@[0] != "session.start"@[0]);
            reveal_strlit("session.resume");
            assert("tool.execution_partial_result"@[0] != "session.resume"@[0]);
            reveal_strlit("session.error");
            assert("tool.execution_partial_result"@[0] != "session.error"@[0]);
            reveal_strlit("session.idle");
            assert("tool.execution_partial_result"@[0] != "session.idle"@[0]);
            reveal_strlit("session.info");
            assert("tool.execution_partial_result"@[0] != "session.info"@[0]);
            reveal_strlit("session.model_change");
            assert("tool.execution_partial_result"@[0] != "session.model_change"@[0]);
            reveal_strlit("session.handoff");
            assert("tool.execution_partial_result"@[0] != "session.handoff"@[0]);
            reveal_strlit("session.truncation");
            assert("tool.execution_partial_result"@[0] != "session.truncation"@[0]);
            reveal_strlit("user.message");
            assert("tool.execution_partial_result"@[0] != "user.message"@[0]);
            reveal_strlit("pending_messages.modified");
            assert("tool.execution_partial_result"@[0] != "pending_messages.modified"@[0]);
            reveal_strlit("assistant.turn_start");
            assert("tool.execution_partial_result"@[0] != "assistant.turn_start"@[0]);
            reveal_strlit("assistant.intent");
            assert("tool.execution_partial_result"@[0] != "assistant.intent"@[0]);
            reveal_strlit("assistant.reasoning");
            assert("tool.execution_partial_result"@[0] != "assistant.reasoning"@[0]);
            reveal_strlit("assistant.reasoning_delta");
            assert("tool.execution_partial_result"@[0] != "assistant.reasoning_delta"@[0]);
            reveal_strlit("assistant.message");
            assert("tool.execution_partial_result"@[0] != "assistant.message"@[0]);
            reveal_strlit("assistant.message_delta");
            assert("tool.execution_partial_result"@[0] != "assistant.message_delta"@[0]);
            reveal_strlit("assistant.turn_end");
            assert("tool.execution_partial_result"@[0] != "assistant.turn_end"@[0]);
            reveal_strlit("assistant.usage");
            assert("tool.execution_partial_result"@[0] != "assistant.usage"@[0]);
            reveal_strlit("abort");
            assert("tool.execution_partial_result"@[0] != "abort"@[0]);
            reveal_strlit("tool.user_requested");
            assert("tool.execution_partial_result"@[5] != "tool.user_requested"@[5]);
            reveal_strlit("tool.execution_start");
            assert("tool.execution_partial_result"@[15] != "tool.execution_start"@[15]);
        },
        EventKind::ToolExecutionComplete => {
            reveal_strlit("tool.execution_complete");
            reveal_strlit("session.start");
            assert("tool.execution_complete"@[0] != "session.start"@[0]);
            reveal_strlit("session.resume");
            assert("tool.execution_complete"@[0] != "session.resume"@[0]);
            reveal_strlit("session.error");
            assert("tool.execution_complete"@[0] != "session.error"@[0]);
            reveal_strlit("session.idle");
            assert("tool.execution_complete"@[0] != "session.idle"@[0]);
            reveal_strlit("session.info");
            assert("tool.execution_complete"@[0] != "session.info"@[0]);
            reveal_strlit("session.model_change");
            assert("tool.execution_complete"@[0] != "session.model_change"@[0]);
            reveal_strlit("session.handoff");
            assert("tool.execution_complete"@[0] != "session.handoff"@[0]);
            reveal_strlit("session.truncation");
            assert("tool.execution_complete"@[0] != "session.truncation"@[0]);
            reveal_strlit("user.message");
            assert("tool.execution_complete"@[0] != "user.message"@[0]);
            reveal_strlit("pending_messages.modified");
            assert("tool.execution_complete"@[0] != "pending_messages.modified"@[0]);
            reveal_strlit("assistant.turn_start");
            assert("tool.execution_complete"@[0] != "assistant.turn_start"@[0]);
            reveal_strlit("assistant.intent");
            assert("tool.execution_complete"@[0] != "assistant.intent"@[0]);
            reveal_strlit("assistant.reasoning");
            assert("tool.execution_complete"@[0] != "assistant.reasoning"@[0]);
            reveal_strlit("assistant.reasoning_delta");
            assert("tool.execution_complete"@[0] != "assistant.reasoning_delta"@[0]);
            reveal_strlit("assistant.message");
            assert("tool.execution_complete"@[0] != "assistant.message"@[0]);
            reveal_strlit("assistant.message_delta");
            assert("tool.execution_complete"@[0] != "assistant.message_delta"@[0]);
            reveal_strlit("assistant.turn_end");
            assert("tool.execution_complete"@[0] != "assistant.turn_end"@[0]);
            reveal_strlit("assistant.usage");
            assert("tool.execution_complete"@[0] != "assistant.usage"@[0]);
            reveal_strlit("abort");
            assert("tool.execution_complete"@[0] != "abort"@[0]);
            reveal_strlit("tool.user_requested");
            assert("tool.execution_complete"@[5] != "tool.user_requested"@[5]);
            reveal_strlit("tool.execution_start");
            assert("tool.execution_complete"@[15] != "tool.execution_start"@[15]);
            reveal_strlit("tool.execution_partial_result");
            assert("tool.execution_complete"@[15] != "tool.execution_partial_result"@[15]);
        },
        EventKind::CustomAgentStarted => {
            reveal_strlit("custom_agent.started");
            reveal_strlit("session.start");
            assert("custom_agent.started"@[0] != "session.start"@[0]);
            reveal_strlit("session.resume");
            assert("custom_agent.started"@[0] != "session.resume"@[0]);
            reveal_strlit("session.error");
            assert("custom_agent.started"@[0] != "session.error"@[0]);
            reveal_strlit("session.idle");
            assert("custom_agent.started"@[0] != "session.idle"@[0]);
            reveal_strlit("session.info");
            assert("custom_agent.started"@[0] != "session.info"@[0]);
            reveal_strlit("session.model_change");
            assert("custom_agent.started"@[0] != "session.model_change"@[0]);
            reveal_strlit("session.handoff");
            assert("custom_agent.started"@[0] != "session.handoff"@[0]);
            reveal_strlit("session.truncation");
            assert("custom_agent.started"@[0] != "session.truncation"@[0]);
            reveal_strlit("user.message");
            assert("custom_agent.started"@[0] != "user.message"@[0]);
            reveal_strlit("pending_messages.modified");
            assert("custom_agent.started"@[0] != "pending_messages.modified"@[0]);
            reveal_strlit("assistant.turn_start");
            assert("custom_agent.started"@[0] != "assistant.turn_start"@[0]);
            reveal_strlit("assistant.intent");
            assert("custom_agent.started"@[0] != "assistant.intent"@[0]);
            reveal_strlit("assistant.reasoning");
            assert("custom_agent.started"@[0] != "assistant.reasoning"@[0]);
            reveal_strlit("assistant.reasoning_delta");
            assert("custom_agent.started"@[0] != "assistant.reasoning_delta"@[0]);
            reveal_strlit("assistant.message");
            assert("custom_agent.started"@[0] != "assistant.message"@[0]);
            reveal_strlit("assistant.message_delta");
            assert("custom_agent.started"@[0] != "assistant.message_delta"@[0]);
            reveal_strlit("assistant.turn_end");
            assert("custom_agent.started"@[0] != "assistant.turn_end"@[0]);
            reveal_strlit("assistant.usage");
            assert("custom_agent.started"@[0] != "assistant.usage"@[0]);
            reveal_strlit("abort");
            assert("custom_agent.started"@[0] != "abort"@[0]);
            reveal_strlit("tool.user_requested");
            assert("custom_agent.started"@[0] != "tool.user_requested"@[0]);
            reveal_strlit("tool.execution_start");
            assert("custom_agent.started"@[0] != "tool.execution_start"@[0]);
            reveal_strlit("tool.execution_partial_result");
            assert("custom_agent.started"@[0] != "tool.execution_partial_result"@[0]);
            reveal_strlit("tool.execution_complete");
            assert("custom_agent.started"@[0] != "tool.execution_complete"@[0]);
        },
        EventKind::CustomAgentCompleted => {
            reveal_strlit("custom_agent.completed");
            reveal_strlit("session.start");
            assert("custom_agent.completed"@[0] != "session.start"@[0]);
            reveal_strlit("session.resume");
            assert("custom_agent.completed"@[0] != "session.resume"@[0]);
            reveal_strlit("session.error");
            assert("custom_agent.completed"@[0] != "session.error"@[0]);
            reveal_strlit("session.idle");
            assert("custom_agent.completed"@[0] != "session.idle"@[0]);
            reveal_strlit("session.info");
            assert("custom_agent.completed"@[0] != "session.info"@[0]);
            reveal_strlit("session.model_change");
            assert("custom_agent.completed"@[0] != "session.model_change"@[0]);
            reveal_strlit("session.handoff");
            assert("custom_agent.completed"@[0] != "session.handoff"@[0]);
            reveal_strlit("session.truncation");
            assert("custom_agent.completed"@[0] != "session.truncation"@[0]);
            reveal_strlit("user.message");
            assert("custom_agent.completed"@[0] != "user.message"@[0]);
            reveal_strlit("pending_messages.modified");
            assert("custom_agent.completed"@[0] != "pending_messages.modified"@[0]);
            reveal_strlit("assistant.turn_start");
            assert("custom_agent.completed"@[0] != "assistant.turn_start"@[0]);
            reveal_strlit("assistant.intent");
            assert("custom_agent.completed"@[0] != "assistant.intent"@[0]);
            reveal_strlit("assistant.reasoning");
            assert("custom_agent.completed"@[0] != "assistant.reasoning"@[0]);
            reveal_strlit("assistant.reasoning_delta");
            assert("custom_agent.completed"@[0] != "assistant.reasoning_delta"@[0]);
            reveal_strlit("assistant.message");
            assert("custom_agent.completed"@[0] != "assistant.message"@[0]);
            reveal_strlit("assistant.message_delta");
            assert("custom_agent.completed"@[0] != "assistant.message_delta"@[0]);
            reveal_strlit("assistant.turn_end");
            assert("custom_agent.completed"@[0] != "assistant.turn_end"@[0]);
            reveal_strlit("assistant.usage");
            assert("custom_agent.completed"@[0] != "assistant.usage"@[0]);
            reveal_strlit("abort");
            assert("custom_agent.completed"@[0] != "abort"@[0]);
            reveal_strlit("tool.user_requested");
            assert("custom_agent.completed"@[0] != "tool.user_requested"@[0]);
            reveal_strlit("tool.execution_start");
            assert("custom_agent.completed"@[0] != "tool.execution_start"@[0]);
            reveal_strlit("tool.execution_partial_result");
            assert("custom_agent.completed"@[0] != "tool.execution_partial_result"@[0]);
            reveal_strlit("tool.execution_complete");
            assert("custom_agent.completed"@[0] != "tool.execution_complete"@[0]);
            reveal_strlit("custom_agent.started");
            assert("custom_agent.completed"@[13] != "custom_agent.started"@[13]);
        },
        EventKind::CustomAgentFailed => {
            reveal_strlit("custom_agent.failed");
            reveal_strlit("session.start");
            assert("custom_agent.failed"@[0] != "session.start"@[0]);
            reveal_strlit("session.resume");
            assert("custom_agent.failed"@[0] != "session.resume"@[0]);
            reveal_strlit("session.error");
            assert("custom_agent.failed"@[0] != "session.error"@[0]);
            reveal_strlit("session.idle");
            assert("custom_agent.failed"@[0] != "session.idle"@[0]);
            reveal_strlit("session.info");
            assert("custom_agent.failed"@[0] != "session.info"@[0]);
            reveal_strlit("session.model_change");
            assert("custom_agent.failed"@[0] != "session.model_change"@[0]);
            reveal_strlit("session.handoff");
            assert("custom_agent.failed"@[0] != "session.handoff"@[0]);
            reveal_strlit("session.truncation");
            assert("custom_agent.failed"@[0] != "session.truncation"@[0]);
            reveal_strlit("user.message");
            assert("custom_agent.failed"@[0] != "user.message"@[0]);
            reveal_strlit("pending_messages.modified");
            assert("custom_agent.failed"@[0] != "pending_messages.modified"@[0]);
            reveal_strlit("assistant.turn_start");
            assert("custom_agent.failed"@[0] != "assistant.turn_start"@[0]);
            reveal_strlit("assistant.intent");
            assert("custom_agent.failed"@[0] != "assistant.intent"@[0]);
            reveal_strlit("assistant.reasoning");
            assert("custom_agent.failed"@[0] != "assistant.reasoning"@[0]);
            reveal_strlit("assistant.reasoning_delta");
            assert("custom_agent.failed"@[0] != "assistant.reasoning_delta"@[0]);
            reveal_strlit("assistant.message");
            assert("custom_agent.failed"@[0] != "assistant.message"@[0]);
            reveal_strlit("assistant.message_delta");
            assert("custom_agent.failed"@[0] != "assistant.message_delta"@[0]);
            reveal_strlit("assistant.turn_end");
            assert("custom_agent.failed"@[0] != "assistant.turn_end"@[0]);
            reveal_strlit("assistant.usage");
            assert("custom_agent.failed"@[0] != "assistant.usage"@[0]);
            reveal_strlit("abort");
            assert("custom_agent.failed"@[0] != "abort"@[0]);
            reveal_strlit("tool.user_requested");
            assert("custom_agent.failed"@[0] != "tool.user_requested"@[0]);
            reveal_strlit("tool.execution_start");
            assert("custom_agent.failed"@[0] != "tool.execution_start"@[0]);
            reveal_strlit("tool.execution_partial_result");
            assert("custom_agent.failed"@[0] != "tool.execution_partial_result"@[0]);
            reveal_strlit("tool.execution_complete");
            assert("custom_agent.failed"@[0] != "tool.execution_complete"@[0]);
            reveal_strlit("custom_agent.started");
            assert("custom_agent.failed"@[13] != "custom_agent.started"@[13]);
            reveal_strlit("custom_agent.completed");
            assert("custom_agent.failed"@[13] != "custom_agent.completed"@[13]);
        },
        EventKind::CustomAgentSelected => {
            reveal_strlit("custom_agent.selected");
            reveal_strlit("session.start");
            assert("custom_agent.selected"@[0] != "session.start"@[0]);
            reveal_strlit("session.resume");
            assert("custom_agent.selected"@[0] != "session.resume"@[0]);
            reveal_strlit("session.error");
            assert("custom_agent.selected"@[0] != "session.error"@[0]);
            reveal_strlit("session.idle");
            assert("custom_agent.selected"@[0] != "session.idle"@[0]);
            reveal_strlit("session.info");
            assert("custom_agent.selected"@[0] != "session.info"@[0]);
            reveal_strlit("session.model_change");
            assert("custom_agent.selected"@[0] != "session.model_change"@[0]);
            reveal_strlit("session.handoff");
            assert("custom_agent.selected"@[0] != "session.handoff"@[0]);
            reveal_strlit("session.truncation");
            assert("custom_agent.selected"@[0] != "session.truncation"@[0]);
            reveal_strlit("user.message");
            assert("custom_agent.selected"@[0] != "user.message"@[0]);
            reveal_strlit("pending_messages.modified");
            assert("custom_agent.selected"@[0] != "pending_messages.modified"@[0]);
            reveal_strlit("assistant.turn_start");
            assert("custom_agent.selected"@[0] != "assistant.turn_start"@[0]);
            reveal_strlit("assistant.intent");
            assert("custom_agent.selected"@[0] != "assistant.intent"@[0]);
            reveal_strlit("assistant.reasoning");
            assert("custom_agent.selected"@[0] != "assistant.reasoning"@[0]);
            reveal_strlit("assistant.reasoning_delta");
            assert("custom_agent.selected"@[0] != "assistant.reasoning_delta"@[0]);
            reveal_strlit("assistant.message");
            assert("custom_agent.selected"@[0] != "assistant.message"@[0]);
            reveal_strlit("assistant.message_delta");
            assert("custom_agent.selected"@[0] != "assistant.message_delta"@[0]);
            reveal_strlit("assistant.turn_end");
            assert("custom_agent.selected"@[0] != "assistant.turn_end"@[0]);
            reveal_strlit("assistant.usage");
            assert("custom_agent.selected"@[0] != "assistant.usage"@[0]);
            reveal_strlit("abort");
            assert("custom_agent.selected"@[0] != "abort"@[0]);
            reveal_strlit("tool.user_requested");
            assert("custom_agent.selected"@[0] != "tool.user_requested"@[0]);
            reveal_strlit("tool.execution_start");
            assert("custom_agent.selected"@[0] != "tool.execution_start"@[0]);
            reveal_strlit("tool.execution_partial_result");
            assert("custom_agent.selected"@[0] != "tool.execution_partial_result"@[0]);
            reveal_strlit("tool.execution_complete");
            assert("custom_agent.selected"@[0] != "tool.execution_complete"@[0]);
            reveal_strlit("custom_agent.started");
            assert("custom_agent.selected"@[14] != "custom_agent.started"@[14]);
            reveal_strlit("custom_agent.completed");
            assert("custom_agent.selected"@[13] != "custom_agent.completed"@[13]);
            reveal_strlit("custom_agent.failed");
            assert("custom_agent.selected"@[13] != "custom_agent.failed"@[13]);
        },
        EventKind::HookStart => {
            reveal_strlit("hook.start");
            reveal_strlit("session.start");
            assert("hook.start"@[0] != "session.start"@[0]);
            reveal_strlit("session.resume");
            assert("hook.start"@[0] != "session.resume"@[0]);
            reveal_strlit("session.error");
            assert("hook.start"@[0] != "session.error"@[0]);
            reveal_strlit("session.idle");
            assert("hook.start"@[0] != "session.idle"@[0]);
            reveal_strlit("session.info");
            assert("hook.start"@[0] != "session.info"@[0]);
            reveal_strlit("session.model_change");
            assert("hook.start"@[0] != "session.model_change"@[0]);
            reveal_strlit("session.handoff");
            assert("hook.start"@[0] != "session.handoff"@[0]);
            reveal_strlit("session.truncation");
            assert("hook.start"@[0] != "session.truncation"@[0]);
            reveal_strlit("user.message");
            assert("hook.start"@[0] != "user.message"@[0]);
            reveal_strlit("pending_messages.modified");
            assert("hook.start"@[0] != "pending_messages.modified"@[0]);
            reveal_strlit("assistant.turn_start");
            assert("hook.start"@[0] != "assistant.turn_start"@[0]);
            reveal_strlit("assistant.intent");
            assert("hook.start"@[0] != "assistant.intent"@[0]);
            reveal_strlit("assistant.reasoning");
            assert("hook.start"@[0] != "assistant.reasoning"@[0]);
            reveal_strlit("assistant.reasoning_delta");
            assert("hook.start"@[0] != "assistant.reasoning_delta"@[0]);
            reveal_strlit("assistant.message");
            assert("hook.start"@[0] != "assistant.message"@[0]);
            reveal_strlit("assistant.message_delta");
            assert("hook.start"@[0] != "assistant.message_delta"@[0]);
            reveal_strlit("assistant.turn_end");
            assert("hook.start"@[0] != "assistant.turn_end"@[0]);
            reveal_strlit("assistant.usage");
            assert("hook.start"@[0] != "assistant.usage"@[0]);
            reveal_strlit("abort");
            assert("hook.start"@[0] != "abort"@[0]);
            reveal_strlit("tool.user_requested");
            assert("hook.start"@[0] != "tool.user_requested"@[0]);
            reveal_strlit("tool.execution_start");
            assert("hook.start"@[0] != "tool.execution_start"@[0]);
            reveal_strlit("tool.execution_partial_result");
            assert("hook.start"@[0] != "tool.execution_partial_result"@[0]);
            reveal_strlit("tool.execution_complete");
            assert("hook.start"@[0] != "tool.execution_complete"@[0]);
            reveal_strlit("custom_agent.started");
            assert("hook.start"@[0] != "custom_agent.started"@[0]);
            reveal_strlit("custom_agent.completed");
            assert("hook.start"@[0] != "custom_agent.completed"@[0]);
            reveal_strlit("custom_agent.failed");
            assert("hook.start"@[0] != "custom_agent.failed"@[0]);
            reveal_strlit("custom_agent.selected");
            assert("hook.start"@[0] != "custom_agent.selected"@[0]);
        },
        EventKind::HookEnd => {
            reveal_strlit("hook.end");
            reveal_strlit("session.start");
            assert("hook.end"@[0] != "session.start"@[0]);
            reveal_strlit("session.resume");
            assert("hook.end"@[0] != "session.resume"@[0]);
            reveal_strlit("session.error");
            assert("hook.end"@[0] != "session.error"@[0]);
            reveal_strlit("session.idle");
            assert("hook.end"@[0] != "session.idle"@[0]);
            reveal_strlit("session.info");
            assert("hook.end"@[0] != "session.info"@[0]);
            reveal_strlit("session.model_change");
            assert("hook.end"@[0] != "session.model_change"@[0]);
            reveal_strlit("session.handoff");
            assert("hook.end"@[0] != "session.handoff"@[0]);
            reveal_strlit("session.truncation");
            assert("hook.end"@[0] != "session.truncation"@[0]);
            reveal_strlit("user.message");
            assert("hook.end"@[0] != "user.message"@[0]);
            reveal_strlit("pending_messages.modified");
            assert("hook.end"@[0] != "pending_messages.modified"@[0]);
            reveal_strlit("assistant.turn_start");
            assert("hook.end"@[0] != "assistant.turn_start"@[0]);
            reveal_strlit("assistant.intent");
            assert("hook.end"@[0] != "assistant.intent"@[0]);
            reveal_strlit("assistant.reasoning");
            assert("hook.end"@[0] != "assistant.reasoning"@[0]);
            reveal_strlit("assistant.reasoning_delta");
            assert("hook.end"@[0] != "assistant.reasoning_delta"@[0]);
            reveal_strlit("assistant.message");
            assert("hook.end"@[0] != "assistant.message"@[0]);
            reveal_strlit("assistant.message_delta");
            assert("hook.end"@[0] != "assistant.message_delta"@[0]);
            reveal_strlit("assistant.turn_end");
            assert("hook.end"@[0] != "assistant.turn_end"@[0]);
            reveal_strlit("assistant.usage");
            assert("hook.end"@[0] != "assistant.usage"@[0]);
            reveal_strlit("abort");
            assert("hook.end"@[0] != "abort"@[0]);
            reveal_strlit("tool.user_requested");
            assert("hook.end"@[0] != "tool.user_requested"@[0]);
            reveal_strlit("tool.execution_start");
            assert("hook.end"@[0] != "tool.execution_start"@[0]);
            reveal_strlit("tool.execution_partial_result");
            assert("hook.end"@[0] != "tool.execution_partial_result"@[0]);
            reveal_strlit("tool.execution_complete");
            assert("hook.end"@[0] != "tool.execution_complete"@[0]);
            reveal_strlit("custom_agent.started");
            assert("hook.end"@[0] != "custom_agent.started"@[0]);
            reveal_strlit("custom_agent.completed");
            assert("hook.end"@[0] != "custom_agent.completed"@[0]);
            reveal_strlit("custom_agent.failed");
            assert("hook.end"@[0] != "custom_agent.failed"@[0]);
            reveal_strlit("custom_agent.selected");
            assert("hook.end"@[0] != "custom_agent.selected"@[0]);
            reveal_strlit("hook.start");
            assert("hook.end"@[5] != "hook.start"@[5]);
        },
        EventKind::SystemMessage => {
            reveal_strlit("system.message");
            reveal_strlit("session.start");
            assert("system.message"@[1] != "session.start"@[1]);
            reveal_strlit("session.resume");
            assert("system.message"@[1] != "session.resume"@[1]);
            reveal_strlit("session.error");
            assert("system.message"@[1] != "session.error"@[1]);
            reveal_strlit("session.idle");
            assert("system.message"@[1] != "session.idle"@[1]);
            reveal_strlit("session.info");
            assert("system.message"@[1] != "session.info"@[1]);
            reveal_strlit("session.model_change");
            assert("system.message"@[1] != "session.model_change"@[1]);
            reveal_strlit("session.handoff");
            assert("system.message"@[1] != "session.handoff"@[1]);
            reveal_strlit("session.truncation");
            assert("system.message"@[1] != "session.truncation"@[1]);
            reveal_strlit("user.message");
            assert("system.message"@[0] != "user.message"@[0]);
            reveal_strlit("pending_messages.modified");
            assert("system.message"@[0] != "pending_messages.modified"@[0]);
            reveal_strlit("assistant.turn_start");
            assert("system.message"@[0] != "assistant.turn_start"@[0]);
            reveal_strlit("assistant.intent");
            assert("system.message"@[0] != "assistant.intent"@[0]);
            reveal_strlit("assistant.reasoning");
            assert("system.message"@[0] != "assistant.reasoning"@[0]);
            reveal_strlit("assistant.reasoning_delta");
            assert("system.message"@[0] != "assistant.reasoning_delta"@[0]);
            reveal_strlit("assistant.message");
            assert("system.message"@[0] != "assistant.message"@[0]);
            reveal_strlit("assistant.message_delta");
            assert("system.message"@[0] != "assistant.message_delta"@[0]);
            reveal_strlit("assistant.turn_end");
            assert("system.message"@[0] != "assistant.turn_end"@[0]);
            reveal_strlit("assistant.usage");
            assert("system.message"@[0] != "assistant.usage"@[0]);
            reveal_strlit("abort");
            assert("system.message"@[0] != "abort"@[0]);
            reveal_strlit("tool.user_requested");
            assert("system.message"@[0] != "tool.user_requested"@[0]);
            reveal_strlit("tool.execution_start");
            assert("system.message"@[0] != "tool.execution_start"@[0]);
            reveal_strlit("tool.execution_partial_result");
            assert("system.message"@[0] != "tool.execution_partial_result"@[0]);
            reveal_strlit("tool.execution_complete");
            assert("system.message"@[0] != "tool.execution_complete"@[0]);
            reveal_strlit("custom_agent.started");
            assert("system.message"@[0] != "custom_agent.started"@[0]);
            reveal_strlit("custom_agent.completed");
            assert("system.message"@[0] != "custom_agent.completed"@[0]);
            reveal_strlit("custom_agent.failed");
            assert("system.message"@[0] != "custom_agent.failed"@[0]);
            reveal_strlit("custom_agent.selected");
            assert("system.message"@[0] != "custom_agent.selected"@[0]);
            reveal_strlit("hook.start");
            assert("system.message"@[0] != "hook.start"@[0]);
            reveal_strlit("hook.end");
            assert("system.message"@[0] != "hook.end"@[0]);
        },
        EventKind::ExternalToolRequested => {
            reveal_strlit("external_tool.requested");
            reveal_strlit("session.start");
            assert("external_tool.requested"@[0] != "session.start"@[0]);
            reveal_strlit("session.resume");
            assert("external_tool.requested"@[0] != "session.resume"@[0]);
            reveal_strlit("session.error");
            assert("external_tool.requested"@[0] != "session.error"@[0]);
            reveal_strlit("session.idle");
            assert("external_tool.requested"@[0] != "session.idle"@[0]);
            reveal_strlit("session.info");
            assert("external_tool.requested"@[0] != "session.info"@[0]);
            reveal_strlit("session.model_change");
            assert("external_tool.requested"@[0] != "session.model_change"@[0]);
            reveal_strlit("session.handoff");
            assert("external_tool.requested"@[0] != "session.handoff"@[0]);
            reveal_strlit("session.truncation");
            assert("external_tool.requested"@[0] != "session.truncation"@[0]);
            reveal_strlit("user.message");
            assert("external_tool.requested"@[0] != "user.message"@[0]);
            reveal_strlit("pending_messages.modified");
            assert("external_tool.requested"@[0] != "pending_messages.modified"@[0]);
            reveal_strlit("assistant.turn_start");
            assert("external_tool.requested"@[0] != "assistant.turn_start"@[0]);
            reveal_strlit("assistant.intent");
            assert("external_tool.requested"@[0] != "assistant.intent"@[0]);
            reveal_strlit("assistant.reasoning");
            assert("external_tool.requested"@[0] != "assistant.reasoning"@[0]);
            reveal_strlit("assistant.reasoning_delta");
            assert("external_tool.requested"@[0] != "assistant.reasoning_delta"@[0]);
            reveal_strlit("assistant.message");
            assert("external_tool.requested"@[0] != "assistant.message"@[0]);
            reveal_strlit("assistant.message_delta");
            assert("external_tool.requested"@[0] != "assistant.message_delta"@[0]);
            reveal_strlit("assistant.turn_end");
            assert("external_tool.requested"@[0] != "assistant.turn_end"@[0]);
            reveal_strlit("assistant.usage");
            assert("external_tool.requested"@[0] != "assistant.usage"@[0]);
            reveal_strlit("abort");
            assert("external_tool.requested"@[0] != "abort"@[0]);
            reveal_strlit("tool.user_requested");
            assert("external_tool.requested"@[0] != "tool.user_requested"@[0]);
            reveal_strlit("tool.execution_start");
            assert("external_tool.requested"@[0] != "tool.execution_start"@[0]);
            reveal_strlit("tool.execution_partial_result");
            assert("external_tool.requested"@[0] != "tool.execution_partial_result"@[0]);
            reveal_strlit("tool.execution_complete");
            assert("external_tool.requested"@[0] != "tool.execution_complete"@[0]);
            reveal_strlit("custom_agent.started");
            assert("external_tool.requested"@[0] != "custom_agent.started"@[0]);
            reveal_strlit("custom_agent.completed");
            assert("external_tool.requested"@[0] != "custom_agent.completed"@[0]);
            reveal_strlit("custom_agent.failed");
            assert("external_tool.requested"@[0] != "custom_agent.failed"@[0]);
            reveal_strlit("custom_agent.selected");
            assert("external_tool.requested"@[0] != "custom_agent.selected"@[0]);
            reveal_strlit("hook.start");
            assert("external_tool.requested"@[0] != "hook.start"@[0]);
            reveal_strlit("hook.end");
            assert("external_tool.requested"@[0] != "hook.end"@[0]);
            reveal_strlit("system.message");
            assert("external_tool.requested"@[0] != "system.message"@[0]);
        },
        EventKind::PermissionRequested => {
            reveal_strlit("permission.requested");
            reveal_strlit("session.start");
            assert("permission.requested"@[0] != "session.start"@[0]);
            reveal_strlit("session.resume");
            assert("permission.requested"@[0] != "session.resume"@[0]);
            reveal_strlit("session.error");
            assert("permission.requested"@[0] != "session.error"@[0]);
            reveal_strlit("session.idle");
            assert("permission.requested"@[0] != "session.idle"@[0]);
            reveal_strlit("session.info");
            assert("permission.requested"@[0] != "session.info"@[0]);
            reveal_strlit("session.model_change");
            assert("permission.requested"@[0] != "session.model_change"@[0]);
            reveal_strlit("session.handoff");
            assert("permission.requested"@[0] != "session.handoff"@[0]);
            reveal_strlit("session.truncation");
            assert("permission.requested"@[0] != "session.truncation"@[0]);
            reveal_strlit("user.message");
            assert("permission.requested"@[0] != "user.message"@[0]);
            reveal_strlit("pending_messages.modified");
            assert("permission.requested"@[2] != "pending_messages.modified"@[2]);
            reveal_strlit("assistant.turn_start");
            assert("permission.requested"@[0] != "assistant.turn_start"@[0]);
            reveal_strlit("assistant.intent");
            assert("permission.requested"@[0] != "assistant.intent"@[0]);
            reveal_strlit("assistant.reasoning");
            assert("permission.requested"@[0] != "assistant.reasoning"@[0]);
            reveal_strlit("assistant.reasoning_delta");
            assert("permission.requested"@[0] != "assistant.reasoning_delta"@[0]);
            reveal_strlit("assistant.message");
            assert("permission.requested"@[0] != "assistant.message"@[0]);
            reveal_strlit("assistant.message_delta");
            assert("permission.requested"@[0] != "assistant.message_delta"@[0]);
            reveal_strlit("assistant.turn_end");
            assert("permission.requested"@[0] != "assistant.turn_end"@[0]);
            reveal_strlit("assistant.usage");
            assert("permission.requested"@[0] != "assistant.usage"@[0]);
            reveal_strlit("abort");
            assert("permission.requested"@[0] != "abort"@[0]);
            reveal_strlit("tool.user_requested");
            assert("permission.requested"@[0] != "tool.user_requested"@[0]);
            reveal_strlit("tool.execution_start");
            assert("permission.requested"@[0] != "tool.execution_start"@[0]);
            reveal_strlit("tool.execution_partial_result");
            assert("permission.requested"@[0] != "tool.execution_partial_result"@[0]);
            reveal_strlit("tool.execution_complete");
            assert("permission.requested"@[0] != "tool.execution_complete"@[0]);
            reveal_strlit("custom_agent.started");
            assert("permission.requested"@[0] != "custom_agent.started"@[0]);
            reveal_strlit("custom_agent.completed");
            assert("permission.requested"@[0] != "custom_agent.completed"@[0]);
            reveal_strlit("custom_agent.failed");
            assert("permission.requested"@[0] != "custom_agent.failed"@[0]);
            reveal_strlit("custom_agent.selected");
            assert("permission.requested"@[0] != "custom_agent.selected"@[0]);
            reveal_strlit("hook.start");
            assert("permission.requested"@[0] != "hook.start"@[0]);
            reveal_strlit("hook.end");
            assert("permission.requested"@[0] != "hook.end"@[0]);
            reveal_strlit("system.message");
            assert("permission.requested"@[0] != "system.message"@[0]);
            reveal_strlit("external_tool.requested");
            assert("permission.requested"@[0] != "external_tool.requested"@[0]);
        },
        EventKind::CommandExecute => {
            reveal_strlit("command.execute");
            reveal_strlit("session.start");
            assert("command.execute"@[0] != "session.start"@[0]);
            reveal_strlit("session.resume");
            assert("command.execute"@[0] != "session.resume"@[0]);
            reveal_strlit("session.error");
            assert("command.execute"@[0] != "session.error"@[0]);
            reveal_strlit("session.idle");
            assert("command.execute"@[0] != "session.idle"@[0]);
            reveal_strlit("session.info");
            assert("command.execute"@[0] != "session.info"@[0]);
            reveal_strlit("session.model_change");
            assert("command.execute"@[0] != "session.model_change"@[0]);
            reveal_strlit("session.handoff");
            assert("command.execute"@[0] != "session.handoff"@[0]);
            reveal_strlit("session.truncation");
            assert("command.execute"@[0] != "session.truncation"@[0]);
            reveal_strlit("user.message");
            assert("command.execute"@[0] != "user.message"@[0]);
            reveal_strlit("pending_messages.modified");
            assert("command.execute"@[0] != "pending_messages.modified"@[0]);
            reveal_strlit("assistant.turn_start");
            assert("command.execute"@[0] != "assistant.turn_start"@[0]);
            reveal_strlit("assistant.intent");
            assert("command.execute"@[0] != "assistant.intent"@[0]);
            reveal_strlit("assistant.reasoning");
            assert("command.execute"@[0] != "assistant.reasoning"@[0]);
            reveal_strlit("assistant.reasoning_delta");
            assert("command.execute"@[0] != "assistant.reasoning_delta"@[0]);
            reveal_strlit("assistant.message");
            assert("command.execute"@[0] != "assistant.message"@[0]);
            reveal_strlit("assistant.message_delta");
            assert("command.execute"@[0] != "assistant.message_delta"@[0]);
            reveal_strlit("assistant.turn_end");
            assert("command.execute"@[0] != "assistant.turn_end"@[0]);
            reveal_strlit("assistant.usage");
            assert("command.execute"@[0] != "assistant.usage"@[0]);
            reveal_strlit("abort");
            assert("command.execute"@[0] != "abort"@[0]);
            reveal_strlit("tool.user_requested");
            assert("command.execute"@[0] != "tool.user_requested"@[0]);
            reveal_strlit("tool.execution_start");
            assert("command.execute"@[0] != "tool.execution_start"@[0]);
            reveal_strlit("tool.execution_partial_result");
            assert("command.execute"@[0] != "tool.execution_partial_result"@[0]);
            reveal_strlit("tool.execution_complete");
            assert("command.execute"@[0] != "tool.execution_complete"@[0]);
            reveal_strlit("custom_agent.started");
            assert("command.execute"@[1] != "custom_agent.started"@[1]);
            reveal_strlit("custom_agent.completed");
            assert("command.execute"@[1] != "custom_agent.completed"@[1]);
            reveal_strlit("custom_agent.failed");
            assert("command.execute"@[1] != "custom_agent.failed"@[1]);
            reveal_strlit("custom_agent.selected");
            assert("command.execute"@[1] != "custom_agent.selected"@[1]);
            reveal_strlit("hook.start");
            assert("command.execute"@[0] != "hook.start"@[0]);
            reveal_strlit("hook.end");
            assert("command.execute"@[0] != "hook.end"@[0]);
            reveal_strlit("system.message");
            assert("command.execute"@[0] != "system.message"@[0]);
            reveal_strlit("external_tool.requested");
            assert("command.execute"@[0] != "external_tool.requested"@[0]);
            reveal_strlit("permission.requested");
            assert("command.execute"@[0] != "permission.requested"@[0]);
        },
        EventKind::Unknown => {},
    }
}

/// How the payload of an event of some kind is turned into typed data.
#[derive(Debug, Clone, Copy, PartialEq, Eq, Structural)]
pub enum PayloadRule {
    /// The payload is decoded into the kind's data type; a payload that does
    /// not decode yields an unknown event with a null payload.
    Decode,
    /// The payload is ignored: the kind's data type has no fields.
    Ignore,
    /// The payload is kept as it came.
    Keep,
}

impl EventKind {
    /// How the payload of an event of this kind becomes typed data.
    pub fn payload_rule(&self) -> (p: PayloadRule)
        ensures
            p == PayloadRule::Ignore <==> (*self == EventKind::SessionIdle || *self
                == EventKind::PendingMessagesModified),
            p == PayloadRule::Keep <==> *self == EventKind::Unknown,
    {
        match self {
            EventKind::SessionIdle | EventKind::PendingMessagesModified => PayloadRule::Ignore,
            EventKind::Unknown => PayloadRule::Keep,
            _ => PayloadRule::Decode,
        }
    }

    /// Check if this is an assistant message event.
    pub fn is_assistant_message(&self) -> (b: bool)
        ensures
            b == (*self == EventKind::AssistantMessage),
    {
        matches!(self, EventKind::AssistantMessage)
    }

    /// Check if this is an assistant message delta event.
    pub fn is_assistant_message_delta(&self) -> (b: bool)
        ensures
            b == (*self == EventKind::AssistantMessageDelta),
    {
        matches!(self, EventKind::AssistantMessageDelta)
    }

    /// Check if this is a session idle event.
    pub fn is_session_idle(&self) -> (b: bool)
        ensures
            b == (*self == EventKind::SessionIdle),
    {
        matches!(self, EventKind::SessionIdle)
    }

    /// Check if this is a session error event.
    pub fn is_session_error(&self) -> (b: bool)
        ensures
            b == (*self == EventKind::SessionError),
    {
        matches!(self, EventKind::SessionError)
    }

    /// Check if this is a terminal event (the session stopped working):
    /// idle or error.
    pub fn is_terminal(&self) -> (b: bool)
        ensures
            b == (*self == EventKind::SessionIdle || *self == EventKind::SessionError),
    {
        matches!(self, EventKind::SessionIdle | EventKind::SessionError)
    }

    /// Whether events of this kind carry assistant text: a message or a delta.
    pub fn carries_content(&self) -> (b: bool)
        ensures
            b == (*self == EventKind::AssistantMessage || *self
                == EventKind::AssistantMessageDelta),
    {
        matches!(self, EventKind::AssistantMessage | EventKind::AssistantMessageDelta)
    }
}

} // verus!
