//! Types of the events a session reports.
use crate::text::chars_of;
use vstd::prelude::*;

verus! {

/// Kind of a session event.
#[derive(Debug, Clone, Copy, PartialEq, Eq, Structural)]
pub enum SessionEventType {
    Abort,
    AssistantIntent,
    AssistantMessage,
    AssistantMessageDelta,
    AssistantReasoning,
    AssistantReasoningDelta,
    AssistantTurnEnd,
    AssistantTurnStart,
    AssistantUsage,
    CustomAgentCompleted,
    CustomAgentFailed,
    CustomAgentSelected,
    CustomAgentStarted,
    HookEnd,
    HookStart,
    PendingMessagesModified,
    SessionError,
    SessionHandoff,
    SessionIdle,
    SessionInfo,
    SessionModelChange,
    SessionResume,
    SessionStart,
    SessionTruncation,
    SystemMessage,
    ToolExecutionComplete,
    ToolExecutionPartialResult,
    ToolExecutionStart,
    ToolUserRequested,
    UserMessage,
}

/// The name under which an event kind travels.
pub open spec fn event_type_name(t: SessionEventType) -> Seq<char> {
    match t {
        SessionEventType::Abort => "abort"@,
        SessionEventType::AssistantIntent => "assistant.intent"@,
        SessionEventType::AssistantMessage => "assistant.message"@,
        SessionEventType::AssistantMessageDelta => "assistant.message_delta"@,
        SessionEventType::AssistantReasoning => "assistant.reasoning"@,
        SessionEventType::AssistantReasoningDelta => "assistant.reasoning_delta"@,
        SessionEventType::AssistantTurnEnd => "assistant.turn_end"@,
        SessionEventType::AssistantTurnStart => "assistant.turn_start"@,
        SessionEventType::AssistantUsage => "assistant.usage"@,
        SessionEventType::CustomAgentCompleted => "custom_agent.completed"@,
        SessionEventType::CustomAgentFailed => "custom_agent.failed"@,
        SessionEventType::CustomAgentSelected => "custom_agent.selected"@,
        SessionEventType::CustomAgentStarted => "custom_agent.started"@,
        SessionEventType::HookEnd => "hook.end"@,
        SessionEventType::HookStart => "hook.start"@,
        SessionEventType::PendingMessagesModified => "pending_messages.modified"@,
        SessionEventType::SessionError => "session.error"@,
        SessionEventType::SessionHandoff => "session.handoff"@,
        SessionEventType::SessionIdle => "session.idle"@,
        SessionEventType::SessionInfo => "session.info"@,
        SessionEventType::SessionModelChange => "session.model_change"@,
        SessionEventType::SessionResume => "session.resume"@,
        SessionEventType::SessionStart => "session.start"@,
        SessionEventType::SessionTruncation => "session.truncation"@,
        SessionEventType::SystemMessage => "system.message"@,
        SessionEventType::ToolExecutionComplete => "tool.execution_complete"@,
        SessionEventType::ToolExecutionPartialResult => "tool.execution_partial_result"@,
        SessionEventType::ToolExecutionStart => "tool.execution_start"@,
        SessionEventType::ToolUserRequested => "tool.user_requested"@,
        SessionEventType::UserMessage => "user.message"@,
    }
}

/// The event kind a name stands for.
pub open spec fn event_type_named(name: Seq<char>) -> Option<SessionEventType> {
    if name == "abort"@ {
        Some(SessionEventType::Abort)
    } else if name == "assistant.intent"@ {
        Some(SessionEventType::AssistantIntent)
    } else if name == "assistant.message"@ {
        Some(SessionEventType::AssistantMessage)
    } else if name == "assistant.message_delta"@ {
        Some(SessionEventType::AssistantMessageDelta)
    } else if name == "assistant.reasoning"@ {
        Some(SessionEventType::AssistantReasoning)
    } else if name == "assistant.reasoning_delta"@ {
        Some(SessionEventType::AssistantReasoningDelta)
    } else if name == "assistant.turn_end"@ {
        Some(SessionEventType::AssistantTurnEnd)
    } else if name == "assistant.turn_start"@ {
        Some(SessionEventType::AssistantTurnStart)
    } else if name == "assistant.usage"@ {
        Some(SessionEventType::AssistantUsage)
    } else if name == "custom_agent.completed"@ {
        Some(SessionEventType::CustomAgentCompleted)
    } else if name == "custom_agent.failed"@ {
        Some(SessionEventType::CustomAgentFailed)
    } else if name == "custom_agent.selected"@ {
        Some(SessionEventType::CustomAgentSelected)
    } else if name == "custom_agent.started"@ {
        Some(SessionEventType::CustomAgentStarted)
    } else if name == "hook.end"@ {
        Some(SessionEventType::HookEnd)
    } else if name == "hook.start"@ {
        Some(SessionEventType::HookStart)
    } else if name == "pending_messages.modified"@ {
        Some(SessionEventType::PendingMessagesModified)
    } else if name == "session.error"@ {
        Some(SessionEventType::SessionError)
    } else if name == "session.handoff"@ {
        Some(SessionEventType::SessionHandoff)
    } else if name == "session.idle"@ {
        Some(SessionEventType::SessionIdle)
    } else if name == "session.info"@ {
        Some(SessionEventType::SessionInfo)
    } else if name == "session.model_change"@ {
        Some(SessionEventType::SessionModelChange)
    } else if name == "session.resume"@ {
        Some(SessionEventType::SessionResume)
    } else if name == "session.start"@ {
        Some(SessionEventType::SessionStart)
    } else if name == "session.truncation"@ {
        Some(SessionEventType::SessionTruncation)
    } else if name == "system.message"@ {
        Some(SessionEventType::SystemMessage)
    } else if name == "tool.execution_complete"@ {
        Some(SessionEventType::ToolExecutionComplete)
    } else if name == "tool.execution_partial_result"@ {
        Some(SessionEventType::ToolExecutionPartialResult)
    } else if name == "tool.execution_start"@ {
        Some(SessionEventType::ToolExecutionStart)
    } else if name == "tool.user_requested"@ {
        Some(SessionEventType::ToolUserRequested)
    } else if name == "user.message"@ {
        Some(SessionEventType::UserMessage)
    } else {
        None
    }
}

impl SessionEventType {
    /// Whether this is the kind of a complete assistant message.
    pub fn is_assistant_message(&self) -> (r: bool)
        ensures
            r == (*self == SessionEventType::AssistantMessage),
    {
        *self == SessionEventType::AssistantMessage
    }

    /// Whether this is the kind of the event that says the session is idle.
    pub fn is_session_idle(&self) -> (r: bool)
        ensures
            r == (*self == SessionEventType::SessionIdle),
    {
        *self == SessionEventType::SessionIdle
    }

    /// Whether this is the kind of a session error event.
    pub fn is_session_error(&self) -> (r: bool)
        ensures
            r == (*self == SessionEventType::SessionError),
    {
        *self == SessionEventType::SessionError
    }

    /// The name under which this event kind travels.
    pub fn wire_name(&self) -> (r: &'static str)
        ensures
            r@ == event_type_name(*self),
    {
        match self {
            SessionEventType::Abort => "abort",
            SessionEventType::AssistantIntent => "assistant.intent",
            SessionEventType::AssistantMessage => "assistant.message",
            SessionEventType::AssistantMessageDelta => "assistant.message_delta",
            SessionEventType::AssistantReasoning => "assistant.reasoning",
            SessionEventType::AssistantReasoningDelta => "assistant.reasoning_delta",
            SessionEventType::AssistantTurnEnd => "assistant.turn_end",
            SessionEventType::AssistantTurnStart => "assistant.turn_start",
            SessionEventType::AssistantUsage => "assistant.usage",
            SessionEventType::CustomAgentCompleted => "custom_agent.completed",
            SessionEventType::CustomAgentFailed => "custom_agent.failed",
            SessionEventType::CustomAgentSelected => "custom_agent.selected",
            SessionEventType::CustomAgentStarted => "custom_agent.started",
            SessionEventType::HookEnd => "hook.end",
            SessionEventType::HookStart => "hook.start",
            SessionEventType::PendingMessagesModified => "pending_messages.modified",
            SessionEventType::SessionError => "session.error",
            SessionEventType::SessionHandoff => "session.handoff",
            SessionEventType::SessionIdle => "session.idle",
            SessionEventType::SessionInfo => "session.info",
            SessionEventType::SessionModelChange => "session.model_change",
            SessionEventType::SessionResume => "session.resume",
            SessionEventType::SessionStart => "session.start",
            SessionEventType::SessionTruncation => "session.truncation",
            SessionEventType::SystemMessage => "system.message",
            SessionEventType::ToolExecutionComplete => "tool.execution_complete",
            SessionEventType::ToolExecutionPartialResult => "tool.execution_partial_result",
            SessionEventType::ToolExecutionStart => "tool.execution_start",
            SessionEventType::ToolUserRequested => "tool.user_requested",
            SessionEventType::UserMessage => "user.message",
        }
    }

    /// The event kind that travels under `name`, if any.
    pub fn from_wire_name(name: &str) -> (r: Option<SessionEventType>)
        ensures
            r == event_type_named(name@),
    {
        let cs = chars_of(name);
        proof {
            assert(cs@.subrange(0, cs@.len() as int) =~= cs@);
        }
        if crate::text::range_equals(&cs, 0, cs.len(), &chars_of("abort")) {
            return Some(SessionEventType::Abort);
        }
        if crate::text::range_equals(&cs, 0, cs.len(), &chars_of("assistant.intent")) {
            return Some(SessionEventType::AssistantIntent);
        }
        if crate::text::range_equals(&cs, 0, cs.len(), &chars_of("assistant.message")) {
            return Some(SessionEventType::AssistantMessage);
        }
        if crate::text::range_equals(&cs, 0, cs.len(), &chars_of("assistant.message_delta")) {
            return Some(SessionEventType::AssistantMessageDelta);
        }
        if crate::text::range_equals(&cs, 0, cs.len(), &chars_of("assistant.reasoning")) {
            return Some(SessionEventType::AssistantReasoning);
        }
        if crate::text::range_equals(&cs, 0, cs.len(), &chars_of("assistant.reasoning_delta")) {
            return Some(SessionEventType::AssistantReasoningDelta);
        }
        if crate::text::range_equals(&cs, 0, cs.len(), &chars_of("assistant.turn_end")) {
            return Some(SessionEventType::AssistantTurnEnd);
        }
        if crate::text::range_equals(&cs, 0, cs.len(), &chars_of("assistant.turn_start")) {
            return Some(SessionEventType::AssistantTurnStart);
        }
        if crate::text::range_equals(&cs, 0, cs.len(), &chars_of("assistant.usage")) {
            return Some(SessionEventType::AssistantUsage);
        }
        if crate::text::range_equals(&cs, 0, cs.len(), &chars_of("custom_agent.completed")) {
            return Some(SessionEventType::CustomAgentCompleted);
        }
        if crate::text::range_equals(&cs, 0, cs.len(), &chars_of("custom_agent.failed")) {
            return Some(SessionEventType::CustomAgentFailed);
        }
        if crate::text::range_equals(&cs, 0, cs.len(), &chars_of("custom_agent.selected")) {
            return Some(SessionEventType::CustomAgentSelected);
        }
        if crate::text::range_equals(&cs, 0, cs.len(), &chars_of("custom_agent.started")) {
            return Some(SessionEventType::CustomAgentStarted);
        }
        if crate::text::range_equals(&cs, 0, cs.len(), &chars_of("hook.end")) {
            return Some(SessionEventType::HookEnd);
        }
        if crate::text::range_equals(&cs, 0, cs.len(), &chars_of("hook.start")) {
            return Some(SessionEventType::HookStart);
        }
        if crate::text::range_equals(&cs, 0, cs.len(), &chars_of("pending_messages.modified")) {
            return Some(SessionEventType::PendingMessagesModified);
        }
        if crate::text::range_equals(&cs, 0, cs.len(), &chars_of("session.error")) {
            return Some(SessionEventType::SessionError);
        }
        if crate::text::range_equals(&cs, 0, cs.len(), &chars_of("session.handoff")) {
            return Some(SessionEventType::SessionHandoff);
        }
        if crate::text::range_equals(&cs, 0, cs.len(), &chars_of("session.idle")) {
            return Some(SessionEventType::SessionIdle);
        }
        if crate::text::range_equals(&cs, 0, cs.len(), &chars_of("session.info")) {
            return Some(SessionEventType::SessionInfo);
        }
        if crate::text::range_equals(&cs, 0, cs.len(), &chars_of("session.model_change")) {
            return Some(SessionEventType::SessionModelChange);
        }
        if crate::text::range_equals(&cs, 0, cs.len(), &chars_of("session.resume")) {
            return Some(SessionEventType::SessionResume);
        }
        if crate::text::range_equals(&cs, 0, cs.len(), &chars_of("session.start")) {
            return Some(SessionEventType::SessionStart);
        }
        if crate::text::range_equals(&cs, 0, cs.len(), &chars_of("session.truncation")) {
            return Some(SessionEventType::SessionTruncation);
        }
        if crate::text::range_equals(&cs, 0, cs.len(), &chars_of("system.message")) {
            return Some(SessionEventType::SystemMessage);
        }
        if crate::text::range_equals(&cs, 0, cs.len(), &chars_of("tool.execution_complete")) {
            return Some(SessionEventType::ToolExecutionComplete);
        }
        if crate::text::range_equals(&cs, 0, cs.len(), &chars_of("tool.execution_partial_result")) {
            return Some(SessionEventType::ToolExecutionPartialResult);
        }
        if crate::text::range_equals(&cs, 0, cs.len(), &chars_of("tool.execution_start")) {
            return Some(SessionEventType::ToolExecutionStart);
        }
        if crate::text::range_equals(&cs, 0, cs.len(), &chars_of("tool.user_requested")) {
            return Some(SessionEventType::ToolUserRequested);
        }
        if crate::text::range_equals(&cs, 0, cs.len(), &chars_of("user.message")) {
            return Some(SessionEventType::UserMessage);
        }
        None
    }
}

/// Every event kind travels under a name that reads back as that kind.
#[verifier::rlimit(100)]
#[verifier::spinoff_prover]
pub proof fn event_type_name_roundtrip(t: SessionEventType)
    ensures
        event_type_named(event_type_name(t)) == Some(t),
{
    match t {
        SessionEventType::Abort => {
            reveal_strlit("abort");
            assert(event_type_named("abort"@) == Some(SessionEventType::Abort));
        },
        SessionEventType::AssistantIntent => {
            reveal_strlit("assistant.intent");
            reveal_strlit("abort");
            assert("assistant.intent"@.len() != "abort"@.len());
            assert(event_type_named("assistant.intent"@) == Some(SessionEventType::AssistantIntent));
        },
        SessionEventType::AssistantMessage => {
            reveal_strlit("assistant.message");
            reveal_strlit("abort");
            assert("assistant.message"@.len() != "abort"@.len());
            reveal_strlit("assistant.intent");
            assert("assistant.message"@.len() != "assistant.intent"@.len());
            assert(event_type_named("assistant.message"@) == Some(SessionEventType::AssistantMessage));
        },
        SessionEventType::AssistantMessageDelta => {
            reveal_strlit("assistant.message_delta");
            reveal_strlit("abort");
            assert("assistant.message_delta"@.len() != "abort"@.len());
            reveal_strlit("assistant.intent");
            assert("assistant.message_delta"@.len() != "assistant.intent"@.len());
            reveal_strlit("assistant.message");
            assert("assistant.message_delta"@.len() != "assistant.message"@.len());
            assert(event_type_named("assistant.message_delta"@) == Some(SessionEventType::AssistantMessageDelta));
        },
        SessionEventType::AssistantReasoning => {
            reveal_strlit("assistant.reasoning");
            reveal_strlit("abort");
            assert("assistant.reasoning"@.len() != "abort"@.len());
            reveal_strlit("assistant.intent");
            assert("assistant.reasoning"@.len() != "assistant.intent"@.len());
            reveal_strlit("assistant.message");
            assert("assistant.reasoning"@.len() != "assistant.message"@.len());
            reveal_strlit("assistant.message_delta");
            assert("assistant.reasoning"@.len() != "assistant.message_delta"@.len());
            assert(event_type_named("assistant.reasoning"@) == Some(SessionEventType::AssistantReasoning));
        },
        SessionEventType::AssistantReasoningDelta => {
            reveal_strlit("assistant.reasoning_delta");
            reveal_strlit("abort");
            assert("assistant.reasoning_delta"@.len() != "abort"@.len());
            reveal_strlit("assistant.intent");
            assert("assistant.reasoning_delta"@.len() != "assistant.intent"@.len());
            reveal_strlit("assistant.message");
            assert("assistant.reasoning_delta"@.len() != "assistant.message"@.len());
            reveal_strlit("assistant.message_delta");
            assert("assistant.reasoning_delta"@.len() != "assistant.message_delta"@.len());
            reveal_strlit("assistant.reasoning");
            assert("assistant.reasoning_delta"@.len() != "assistant.reasoning"@.len());
            assert(event_type_named("assistant.reasoning_delta"@) == Some(SessionEventType::AssistantReasoningDelta));
        },
        SessionEventType::AssistantTurnEnd => {
            reveal_strlit("assistant.turn_end");
            reveal_strlit("abort");
            assert("assistant.turn_end"@.len() != "abort"@.len());
            reveal_strlit("assistant.intent");
            assert("assistant.turn_end"@.len() != "assistant.intent"@.len());
            reveal_strlit("assistant.message");
            assert("assistant.turn_end"@.len() != "assistant.message"@.len());
            reveal_strlit("assistant.message_delta");
            assert("assistant.turn_end"@.len() != "assistant.message_delta"@.len());
            reveal_strlit("assistant.reasoning");
            assert("assistant.turn_end"@.len() != "assistant.reasoning"@.len());
            reveal_strlit("assistant.reasoning_delta");
            assert("assistant.turn_end"@.len() != "assistant.reasoning_delta"@.len());
            assert(event_type_named("assistant.turn_end"@) == Some(SessionEventType::AssistantTurnEnd));
        },
        SessionEventType::AssistantTurnStart => {
            reveal_strlit("assistant.turn_start");
            reveal_strlit("abort");
            assert("assistant.turn_start"@.len() != "abort"@.len());
            reveal_strlit("assistant.intent");
            assert("assistant.turn_start"@.len() != "assistant.intent"@.len());
            reveal_strlit("assistant.message");
            assert("assistant.turn_start"@.len() != "assistant.message"@.len());
            reveal_strlit("assistant.message_delta");
            assert("assistant.turn_start"@.len() != "assistant.message_delta"@.len());
            reveal_strlit("assistant.reasoning");
            assert("assistant.turn_start"@.len() != "assistant.reasoning"@.len());
            reveal_strlit("assistant.reasoning_delta");
            assert("assistant.turn_start"@.len() != "assistant.reasoning_delta"@.len());
            reveal_strlit("assistant.turn_end");
            assert("assistant.turn_start"@.len() != "assistant.turn_end"@.len());
            assert(event_type_named("assistant.turn_start"@) == Some(SessionEventType::AssistantTurnStart));
        },
        SessionEventType::AssistantUsage => {
            reveal_strlit("assistant.usage");
            reveal_strlit("abort");
            assert("assistant.usage"@.len() != "abort"@.len());
            reveal_strlit("assistant.intent");
            assert("assistant.usage"@.len() != "assistant.intent"@.len());
            reveal_strlit("assistant.message");
            assert("assistant.usage"@.len() != "assistant.message"@.len());
            reveal_strlit("assistant.message_delta");
            assert("assistant.usage"@.len() != "assistant.message_delta"@.len());
            reveal_strlit("assistant.reasoning");
            assert("assistant.usage"@.len() != "assistant.reasoning"@.len());
            reveal_strlit("assistant.reasoning_delta");
            assert("assistant.usage"@.len() != "assistant.reasoning_delta"@.len());
            reveal_strlit("assistant.turn_end");
            assert("assistant.usage"@.len() != "assistant.turn_end"@.len());
            reveal_strlit("assistant.turn_start");
            assert("assistant.usage"@.len() != "assistant.turn_start"@.len());
            assert(event_type_named("assistant.usage"@) == Some(SessionEventType::AssistantUsage));
        },
        SessionEventType::CustomAgentCompleted => {
            reveal_strlit("custom_agent.completed");
            reveal_strlit("abort");
            assert("custom_agent.completed"@.len() != "abort"@.len());
            reveal_strlit("assistant.intent");
            assert("custom_agent.completed"@.len() != "assistant.intent"@.len());
            reveal_strlit("assistant.message");
            assert("custom_agent.completed"@.len() != "assistant.message"@.len());
            reveal_strlit("assistant.message_delta");
            assert("custom_agent.completed"@.len() != "assistant.message_delta"@.len());
            reveal_strlit("assistant.reasoning");
            assert("custom_agent.completed"@.len() != "assistant.reasoning"@.len());
            reveal_strlit("assistant.reasoning_delta");
            assert("custom_agent.completed"@.len() != "assistant.reasoning_delta"@.len());
            reveal_strlit("assistant.turn_end");
            assert("custom_agent.completed"@.len() != "assistant.turn_end"@.len());
            reveal_strlit("assistant.turn_start");
            assert("custom_agent.completed"@.len() != "assistant.turn_start"@.len());
            reveal_strlit("assistant.usage");
            assert("custom_agent.completed"@.len() != "assistant.usage"@.len());
            assert(event_type_named("custom_agent.completed"@) == Some(SessionEventType::CustomAgentCompleted));
        },
        SessionEventType::CustomAgentFailed => {
            reveal_strlit("custom_agent.failed");
            reveal_strlit("abort");
            assert("custom_agent.failed"@.len() != "abort"@.len());
            reveal_strlit("assistant.intent");
            assert("custom_agent.failed"@.len() != "assistant.intent"@.len());
            reveal_strlit("assistant.message");
            assert("custom_agent.failed"@.len() != "assistant.message"@.len());
            reveal_strlit("assistant.message_delta");
            assert("custom_agent.failed"@.len() != "assistant.message_delta"@.len());
            reveal_strlit("assistant.reasoning");
            assert("custom_agent.failed"@[0] != "assistant.reasoning"@[0]);
            reveal_strlit("assistant.reasoning_delta");
            assert("custom_agent.failed"@.len() != "assistant.reasoning_delta"@.len());
            reveal_strlit("assistant.turn_end");
            assert("custom_agent.failed"@.len() != "assistant.turn_end"@.len());
            reveal_strlit("assistant.turn_start");
            assert("custom_agent.failed"@.len() != "assistant.turn_start"@.len());
            reveal_strlit("assistant.usage");
            assert("custom_agent.failed"@.len() != "assistant.usage"@.len());
            reveal_strlit("custom_agent.completed");
            assert("custom_agent.failed"@.len() != "custom_agent.completed"@.len());
            assert(event_type_named("custom_agent.failed"@) == Some(SessionEventType::CustomAgentFailed));
        },
        SessionEventType::CustomAgentSelected => {
            reveal_strlit("custom_agent.selected");
            reveal_strlit("abort");
            assert("custom_agent.selected"@.len() != "abort"@.len());
            reveal_strlit("assistant.intent");
            assert("custom_agent.selected"@.len() != "assistant.intent"@.len());
            reveal_strlit("assistant.message");
            assert("custom_agent.selected"@.len() != "assistant.message"@.len());
            reveal_strlit("assistant.message_delta");
            assert("custom_agent.selected"@.len() != "assistant.message_delta"@.len());
            reveal_strlit("assistant.reasoning");
            assert("custom_agent.selected"@.len() != "assistant.reasoning"@.len());
            reveal_strlit("assistant.reasoning_delta");
            assert("custom_agent.selected"@.len() != "assistant.reasoning_delta"@.len());
            reveal_strlit("assistant.turn_end");
            assert("custom_agent.selected"@.len() != "assistant.turn_end"@.len());
            reveal_strlit("assistant.turn_start");
            assert("custom_agent.selected"@.len() != "assistant.turn_start"@.len());
            reveal_strlit("assistant.usage");
            assert("custom_agent.selected"@.len() != "assistant.usage"@.len());
            reveal_strlit("custom_agent.completed");
            assert("custom_agent.selected"@.len() != "custom_agent.completed"@.len());
            reveal_strlit("custom_agent.failed");
            assert("custom_agent.selected"@.len() != "custom_agent.failed"@.len());
            assert(event_type_named("custom_agent.selected"@) == Some(SessionEventType::CustomAgentSelected));
        },
        SessionEventType::CustomAgentStarted => {
            reveal_strlit("custom_agent.started");
            reveal_strlit("abort");
            assert("custom_agent.started"@.len() != "abort"@.len());
            reveal_strlit("assistant.intent");
            assert("custom_agent.started"@.len() != "assistant.intent"@.len());
            reveal_strlit("assistant.message");
            assert("custom_agent.started"@.len() != "assistant.message"@.len());
            reveal_strlit("assistant.message_delta");
            assert("custom_agent.started"@.len() != "assistant.message_delta"@.len());
            reveal_strlit("assistant.reasoning");
            assert("custom_agent.started"@.len() != "assistant.reasoning"@.len());
            reveal_strlit("assistant.reasoning_delta");
            assert("custom_agent.started"@.len() != "assistant.reasoning_delta"@.len());
            reveal_strlit("assistant.turn_end");
            assert("custom_agent.started"@.len() != "assistant.turn_end"@.len());
            reveal_strlit("assistant.turn_start");
            assert("custom_agent.started"@[0] != "assistant.turn_start"@[0]);
            reveal_strlit("assistant.usage");
            assert("custom_agent.started"@.len() != "assistant.usage"@.len());
            reveal_strlit("custom_agent.completed");
            assert("custom_agent.started"@.len() != "custom_agent.completed"@.len());
            reveal_strlit("custom_agent.failed");
            assert("custom_agent.started"@.len() != "custom_agent.failed"@.len());
            reveal_strlit("custom_agent.selected");
            assert("custom_agent.started"@.len() != "custom_agent.selected"@.len());
            assert(event_type_named("custom_agent.started"@) == Some(SessionEventType::CustomAgentStarted));
        },
        SessionEventType::HookEnd => {
            reveal_strlit("hook.end");
            reveal_strlit("abort");
            assert("hook.end"@.len() != "abort"@.len());
            reveal_strlit("assistant.intent");
            assert("hook.end"@.len() != "assistant.intent"@.len());
            reveal_strlit("assistant.message");
            assert("hook.end"@.len() != "assistant.message"@.len());
            reveal_strlit("assistant.message_delta");
            assert("hook.end"@.len() != "assistant.message_delta"@.len());
            reveal_strlit("assistant.reasoning");
            assert("hook.end"@.len() != "assistant.reasoning"@.len());
            reveal_strlit("assistant.reasoning_delta");
            assert("hook.end"@.len() != "assistant.reasoning_delta"@.len());
            reveal_strlit("assistant.turn_end");
            assert("hook.end"@.len() != "assistant.turn_end"@.len());
            reveal_strlit("assistant.turn_start");
            assert("hook.end"@.len() != "assistant.turn_start"@.len());
            reveal_strlit("assistant.usage");
            assert("hook.end"@.len() != "assistant.usage"@.len());
            reveal_strlit("custom_agent.completed");
            assert("hook.end"@.len() != "custom_agent.completed"@.len());
            reveal_strlit("custom_agent.failed");
            assert("hook.end"@.len() != "custom_agent.failed"@.len());
            reveal_strlit("custom_agent.selected");
            assert("hook.end"@.len() != "custom_agent.selected"@.len());
            reveal_strlit("custom_agent.started");
            assert("hook.end"@.len() != "custom_agent.started"@.len());
            assert(event_type_named("hook.end"@) == Some(SessionEventType::HookEnd));
        },
        SessionEventType::HookStart => {
            reveal_strlit("hook.start");
            reveal_strlit("abort");
            assert("hook.start"@.len() != "abort"@.len());
            reveal_strlit("assistant.intent");
            assert("hook.start"@.len() != "assistant.intent"@.len());
            reveal_strlit("assistant.message");
            assert("hook.start"@.len() != "assistant.message"@.len());
            reveal_strlit("assistant.message_delta");
            assert("hook.start"@.len() != "assistant.message_delta"@.len());
            reveal_strlit("assistant.reasoning");
            assert("hook.start"@.len() != "assistant.reasoning"@.len());
            reveal_strlit("assistant.reasoning_delta");
            assert("hook.start"@.len() != "assistant.reasoning_delta"@.len());
            reveal_strlit("assistant.turn_end");
            assert("hook.start"@.len() != "assistant.turn_end"@.len());
            reveal_strlit("assistant.turn_start");
            assert("hook.start"@.len() != "assistant.turn_start"@.len());
            reveal_strlit("assistant.usage");
            assert("hook.start"@.len() != "assistant.usage"@.len());
            reveal_strlit("custom_agent.completed");
            assert("hook.start"@.len() != "custom_agent.completed"@.len());
            reveal_strlit("custom_agent.failed");
            assert("hook.start"@.len() != "custom_agent.failed"@.len());
            reveal_strlit("custom_agent.selected");
            assert("hook.start"@.len() != "custom_agent.selected"@.len());
            reveal_strlit("custom_agent.started");
            assert("hook.start"@.len() != "custom_agent.started"@.len());
            reveal_strlit("hook.end");
            assert("hook.start"@.len() != "hook.end"@.len());
            assert(event_type_named("hook.start"@) == Some(SessionEventType::HookStart));
        },
        SessionEventType::PendingMessagesModified => {
            reveal_strlit("pending_messages.modified");
            reveal_strlit("abort");
            assert("pending_messages.modified"@.len() != "abort"@.len());
            reveal_strlit("assistant.intent");
            assert("pending_messages.modified"@.len() != "assistant.intent"@.len());
            reveal_strlit("assistant.message");
            assert("pending_messages.modified"@.len() != "assistant.message"@.len());
            reveal_strlit("assistant.message_delta");
            assert("pending_messages.modified"@.len() != "assistant.message_delta"@.len());
            reveal_strlit("assistant.reasoning");
            assert("pending_messages.modified"@.len() != "assistant.reasoning"@.len());
            reveal_strlit("assistant.reasoning_delta");
            assert("pending_messages.modified"@[0] != "assistant.reasoning_delta"@[0]);
            reveal_strlit("assistant.turn_end");
            assert("pending_messages.modified"@.len() != "assistant.turn_end"@.len());
            reveal_strlit("assistant.turn_start");
            assert("pending_messages.modified"@.len() != "assistant.turn_start"@.len());
            reveal_strlit("assistant.usage");
            assert("pending_messages.modified"@.len() != "assistant.usage"@.len());
            reveal_strlit("custom_agent.completed");
            assert("pending_messages.modified"@.len() != "custom_agent.completed"@.len());
            reveal_strlit("custom_agent.failed");
            assert("pending_messages.modified"@.len() != "custom_agent.failed"@.len());
            reveal_strlit("custom_agent.selected");
            assert("pending_messages.modified"@.len() != "custom_agent.selected"@.len());
            reveal_strlit("custom_agent.started");
            assert("pending_messages.modified"@.len() != "custom_agent.started"@.len());
            reveal_strlit("hook.end");
            assert("pending_messages.modified"@.len() != "hook.end"@.len());
            reveal_strlit("hook.start");
            assert("pending_messages.modified"@.len() != "hook.start"@.len());
            assert(event_type_named("pending_messages.modified"@) == Some(SessionEventType::PendingMessagesModified));
        },
        SessionEventType::SessionError => {
            reveal_strlit("session.error");
            reveal_strlit("abort");
            assert("session.error"@.len() != "abort"@.len());
            reveal_strlit("assistant.intent");
            assert("session.error"@.len() != "assistant.intent"@.len());
            reveal_strlit("assistant.message");
            assert("session.error"@.len() != "assistant.message"@.len());
            reveal_strlit("assistant.message_delta");
            assert("session.error"@.len() != "assistant.message_delta"@.len());
            reveal_strlit("assistant.reasoning");
            assert("session.error"@.len() != "assistant.reasoning"@.len());
            reveal_strlit("assistant.reasoning_delta");
            assert("session.error"@.len() != "assistant.reasoning_delta"@.len());
            reveal_strlit("assistant.turn_end");
            assert("session.error"@.len() != "assistant.turn_end"@.len());
            reveal_strlit("assistant.turn_start");
            assert("session.error"@.len() != "assistant.turn_start"@.len());
            reveal_strlit("assistant.usage");
            assert("session.error"@.len() != "assistant.usage"@.len());
            reveal_strlit("custom_agent.completed");
            assert("session.error"@.len() != "custom_agent.completed"@.len());
            reveal_strlit("custom_agent.failed");
            assert("session.error"@.len() != "custom_agent.failed"@.len());
            reveal_strlit("custom_agent.selected");
            assert("session.error"@.len() != "custom_agent.selected"@.len());
            reveal_strlit("custom_agent.started");
            assert("session.error"@.len() != "custom_agent.started"@.len());
            reveal_strlit("hook.end");
            assert("session.error"@.len() != "hook.end"@.len());
            reveal_strlit("hook.start");
            assert("session.error"@.len() != "hook.start"@.len());
            reveal_strlit("pending_messages.modified");
            assert("session.error"@.len() != "pending_messages.modified"@.len());
            assert(event_type_named("session.error"@) == Some(SessionEventType::SessionError));
        },
        SessionEventType::SessionHandoff => {
            reveal_strlit("session.handoff");
            reveal_strlit("abort");
            assert("session.handoff"@.len() != "abort"@.len());
            reveal_strlit("assistant.intent");
            assert("session.handoff"@.len() != "assistant.intent"@.len());
            reveal_strlit("assistant.message");
            assert("session.handoff"@.len() != "assistant.message"@.len());
            reveal_strlit("assistant.message_delta");
            assert("session.handoff"@.len() != "assistant.message_delta"@.len());
            reveal_strlit("assistant.reasoning");
            assert("session.handoff"@.len() != "assistant.reasoning"@.len());
            reveal_strlit("assistant.reasoning_delta");
            assert("session.handoff"@.len() != "assistant.reasoning_delta"@.len());
            reveal_strlit("assistant.turn_end");
            assert("session.handoff"@.len() != "assistant.turn_end"@.len());
            reveal_strlit("assistant.turn_start");
            assert("session.handoff"@.len() != "assistant.turn_start"@.len());
            reveal_strlit("assistant.usage");
            assert("session.handoff"@[0] != "assistant.usage"@[0]);
            reveal_strlit("custom_agent.completed");
            assert("session.handoff"@.len() != "custom_agent.completed"@.len());
            reveal_strlit("custom_agent.failed");
            assert("session.handoff"@.len() != "custom_agent.failed"@.len());
            reveal_strlit("custom_agent.selected");
            assert("session.handoff"@.len() != "custom_agent.selected"@.len());
            reveal_strlit("custom_agent.started");
            assert("session.handoff"@.len() != "custom_agent.started"@.len());
            reveal_strlit("hook.end");
            assert("session.handoff"@.len() != "hook.end"@.len());
            reveal_strlit("hook.start");
            assert("session.handoff"@.len() != "hook.start"@.len());
            reveal_strlit("pending_messages.modified");
            assert("session.handoff"@.len() != "pending_messages.modified"@.len());
            reveal_strlit("session.error");
            assert("session.handoff"@.len() != "session.error"@.len());
            assert(event_type_named("session.handoff"@) == Some(SessionEventType::SessionHandoff));
        },
        SessionEventType::SessionIdle => {
            reveal_strlit("session.idle");
            reveal_strlit("abort");
            assert("session.idle"@.len() != "abort"@.len());
            reveal_strlit("assistant.intent");
            assert("session.idle"@.len() != "assistant.intent"@.len());
            reveal_strlit("assistant.message");
            assert("session.idle"@.len() != "assistant.message"@.len());
            reveal_strlit("assistant.message_delta");
            assert("session.idle"@.len() != "assistant.message_delta"@.len());
            reveal_strlit("assistant.reasoning");
            assert("session.idle"@.len() != "assistant.reasoning"@.len());
            reveal_strlit("assistant.reasoning_delta");
            assert("session.idle"@.len() != "assistant.reasoning_delta"@.len());
            reveal_strlit("assistant.turn_end");
            assert("session.idle"@.len() != "assistant.turn_end"@.len());
            reveal_strlit("assistant.turn_start");
            assert("session.idle"@.len() != "assistant.turn_start"@.len());
            reveal_strlit("assistant.usage");
            assert("session.idle"@.len() != "assistant.usage"@.len());
            reveal_strlit("custom_agent.completed");
            assert("session.idle"@.len() != "custom_agent.completed"@.len());
            reveal_strlit("custom_agent.failed");
            assert("session.idle"@.len() != "custom_agent.failed"@.len());
            reveal_strlit("custom_agent.selected");
            assert("session.idle"@.len() != "custom_agent.selected"@.len());
            reveal_strlit("custom_agent.started");
            assert("session.idle"@.len() != "custom_agent.started"@.len());
            reveal_strlit("hook.end");
            assert("session.idle"@.len() != "hook.end"@.len());
            reveal_strlit("hook.start");
            assert("session.idle"@.len() != "hook.start"@.len());
            reveal_strlit("pending_messages.modified");
            assert("session.idle"@.len() != "pending_messages.modified"@.len());
            reveal_strlit("session.error");
            assert("session.idle"@.len() != "session.error"@.len());
            reveal_strlit("session.handoff");
            assert("session.idle"@.len() != "session.handoff"@.len());
            assert(event_type_named("session.idle"@) == Some(SessionEventType::SessionIdle));
        },
        SessionEventType::SessionInfo => {
            reveal_strlit("session.info");
            reveal_strlit("abort");
            assert("session.info"@.len() != "abort"@.len());
            reveal_strlit("assistant.intent");
            assert("session.info"@.len() != "assistant.intent"@.len());
            reveal_strlit("assistant.message");
            assert("session.info"@.len() != "assistant.message"@.len());
            reveal_strlit("assistant.message_delta");
            assert("session.info"@.len() != "assistant.message_delta"@.len());
            reveal_strlit("assistant.reasoning");
            assert("session.info"@.len() != "assistant.reasoning"@.len());
            reveal_strlit("assistant.reasoning_delta");
            assert("session.info"@.len() != "assistant.reasoning_delta"@.len());
            reveal_strlit("assistant.turn_end");
            assert("session.info"@.len() != "assistant.turn_end"@.len());
            reveal_strlit("assistant.turn_start");
            assert("session.info"@.len() != "assistant.turn_start"@.len());
            reveal_strlit("assistant.usage");
            assert("session.info"@.len() != "assistant.usage"@.len());
            reveal_strlit("custom_agent.completed");
            assert("session.info"@.len() != "custom_agent.completed"@.len());
            reveal_strlit("custom_agent.failed");
            assert("session.info"@.len() != "custom_agent.failed"@.len());
            reveal_strlit("custom_agent.selected");
            assert("session.info"@.len() != "custom_agent.selected"@.len());
            reveal_strlit("custom_agent.started");
            assert("session.info"@.len() != "custom_agent.started"@.len());
            reveal_strlit("hook.end");
            assert("session.info"@.len() != "hook.end"@.len());
            reveal_strlit("hook.start");
            assert("session.info"@.len() != "hook.start"@.len());
            reveal_strlit("pending_messages.modified");
            assert("session.info"@.len() != "pending_messages.modified"@.len());
            reveal_strlit("session.error");
            assert("session.info"@.len() != "session.error"@.len());
            reveal_strlit("session.handoff");
            assert("session.info"@.len() != "session.handoff"@.len());
            reveal_strlit("session.idle");
            assert("session.info"@[9] != "session.idle"@[9]);
            assert(event_type_named("session.info"@) == Some(SessionEventType::SessionInfo));
        },
        SessionEventType::SessionModelChange => {
            reveal_strlit("session.model_change");
            reveal_strlit("abort");
            assert("session.model_change"@.len() != "abort"@.len());
            reveal_strlit("assistant.intent");
            assert("session.model_change"@.len() != "assistant.intent"@.len());
            reveal_strlit("assistant.message");
            assert("session.model_change"@.len() != "assistant.message"@.len());
            reveal_strlit("assistant.message_delta");
            assert("session.model_change"@.len() != "assistant.message_delta"@.len());
            reveal_strlit("assistant.reasoning");
            assert("session.model_change"@.len() != "assistant.reasoning"@.len());
            reveal_strlit("assistant.reasoning_delta");
            assert("session.model_change"@.len() != "assistant.reasoning_delta"@.len());
            reveal_strlit("assistant.turn_end");
            assert("session.model_change"@.len() != "assistant.turn_end"@.len());
            reveal_strlit("assistant.turn_start");
            assert("session.model_change"@[0] != "assistant.turn_start"@[0]);
            reveal_strlit("assistant.usage");
            assert("session.model_change"@.len() != "assistant.usage"@.len());
            reveal_strlit("custom_agent.completed");
            assert("session.model_change"@.len() != "custom_agent.completed"@.len());
            reveal_strlit("custom_agent.failed");
            assert("session.model_change"@.len() != "custom_agent.failed"@.len());
            reveal_strlit("custom_agent.selected");
            assert("session.model_change"@.len() != "custom_agent.selected"@.len());
            reveal_strlit("custom_agent.started");
            assert("session.model_change"@[0] != "custom_agent.started"@[0]);
            reveal_strlit("hook.end");
            assert("session.model_change"@.len() != "hook.end"@.len());
            reveal_strlit("hook.start");
            assert("session.model_change"@.len() != "hook.start"@.len());
            reveal_strlit("pending_messages.modified");
            assert("session.model_change"@.len() != "pending_messages.modified"@.len());
            reveal_strlit("session.error");
            assert("session.model_change"@.len() != "session.error"@.len());
            reveal_strlit("session.handoff");
            assert("session.model_change"@.len() != "session.handoff"@.len());
            reveal_strlit("session.idle");
            assert("session.model_change"@.len() != "session.idle"@.len());
            reveal_strlit("session.info");
            assert("session.model_change"@.len() != "session.info"@.len());
            assert(event_type_named("session.model_change"@) == Some(SessionEventType::SessionModelChange));
        },
        SessionEventType::SessionResume => {
            reveal_strlit("session.resume");
            reveal_strlit("abort");
            assert("session.resume"@.len() != "abort"@.len());
            reveal_strlit("assistant.intent");
            assert("session.resume"@.len() != "assistant.intent"@.len());
            reveal_strlit("assistant.message");
            assert("session.resume"@.len() != "assistant.message"@.len());
            reveal_strlit("assistant.message_delta");
            assert("session.resume"@.len() != "assistant.message_delta"@.len());
            reveal_strlit("assistant.reasoning");
            assert("session.resume"@.len() != "assistant.reasoning"@.len());
            reveal_strlit("assistant.reasoning_delta");
            assert("session.resume"@.len() != "assistant.reasoning_delta"@.len());
            reveal_strlit("assistant.turn_end");
            assert("session.resume"@.len() != "assistant.turn_end"@.len());
            reveal_strlit("assistant.turn_start");
            assert("session.resume"@.len() != "assistant.turn_start"@.len());
            reveal_strlit("assistant.usage");
            assert("session.resume"@.len() != "assistant.usage"@.len());
            reveal_strlit("custom_agent.completed");
            assert("session.resume"@.len() != "custom_agent.completed"@.len());
            reveal_strlit("custom_agent.failed");
            assert("session.resume"@.len() != "custom_agent.failed"@.len());
            reveal_strlit("custom_agent.selected");
            assert("session.resume"@.len() != "custom_agent.selected"@.len());
            reveal_strlit("custom_agent.started");
            assert("session.resume"@.len() != "custom_agent.started"@.len());
            reveal_strlit("hook.end");
            assert("session.resume"@.len() != "hook.end"@.len());
            reveal_strlit("hook.start");
            assert("session.resume"@.len() != "hook.start"@.len());
            reveal_strlit("pending_messages.modified");
            assert("session.resume"@.len() != "pending_messages.modified"@.len());
            reveal_strlit("session.error");
            assert("session.resume"@.len() != "session.error"@.len());
            reveal_strlit("session.handoff");
            assert("session.resume"@.len() != "session.handoff"@.len());
            reveal_strlit("session.idle");
            assert("session.resume"@.len() != "session.idle"@.len());
            reveal_strlit("session.info");
            assert("session.resume"@.len() != "session.info"@.len());
            reveal_strlit("session.model_change");
            assert("session.resume"@.len() != "session.model_change"@.len());
            assert(event_type_named("session.resume"@) == Some(SessionEventType::SessionResume));
        },
        SessionEventType::SessionStart => {
            reveal_strlit("session.start");
            reveal_strlit("abort");
            assert("session.start"@.len() != "abort"@.len());
            reveal_strlit("assistant.intent");
            assert("session.start"@.len() != "assistant.intent"@.len());
            reveal_strlit("assistant.message");
            assert("session.start"@.len() != "assistant.message"@.len());
            reveal_strlit("assistant.message_delta");
            assert("session.start"@.len() != "assistant.message_delta"@.len());
            reveal_strlit("assistant.reasoning");
            assert("session.start"@.len() != "assistant.reasoning"@.len());
            reveal_strlit("assistant.reasoning_delta");
            assert("session.start"@.len() != "assistant.reasoning_delta"@.len());
            reveal_strlit("assistant.turn_end");
            assert("session.start"@.len() != "assistant.turn_end"@.len());
            reveal_strlit("assistant.turn_start");
            assert("session.start"@.len() != "assistant.turn_start"@.len());
            reveal_strlit("assistant.usage");
            assert("session.start"@.len() != "assistant.usage"@.len());
            reveal_strlit("custom_agent.completed");
            assert("session.start"@.len() != "custom_agent.completed"@.len());
            reveal_strlit("custom_agent.failed");
            assert("session.start"@.len() != "custom_agent.failed"@.len());
            reveal_strlit("custom_agent.selected");
            assert("session.start"@.len() != "custom_agent.selected"@.len());
            reveal_strlit("custom_agent.started");
            assert("session.start"@.len() != "custom_agent.started"@.len());
            reveal_strlit("hook.end");
            assert("session.start"@.len() != "hook.end"@.len());
            reveal_strlit("hook.start");
            assert("session.start"@.len() != "hook.start"@.len());
            reveal_strlit("pending_messages.modified");
            assert("session.start"@.len() != "pending_messages.modified"@.len());
            reveal_strlit("session.error");
            assert("session.start"@[8] != "session.error"@[8]);
            reveal_strlit("session.handoff");
            assert("session.start"@.len() != "session.handoff"@.len());
            reveal_strlit("session.idle");
            assert("session.start"@.len() != "session.idle"@.len());
            reveal_strlit("session.info");
            assert("session.start"@.len() != "session.info"@.len());
            reveal_strlit("session.model_change");
            assert("session.start"@.len() != "session.model_change"@.len());
            reveal_strlit("session.resume");
            assert("session.start"@.len() != "session.resume"@.len());
            assert(event_type_named("session.start"@) == Some(SessionEventType::SessionStart));
        },
        SessionEventType::SessionTruncation => {
            reveal_strlit("session.truncation");
            reveal_strlit("abort");
            assert("session.truncation"@.len() != "abort"@.len());
            reveal_strlit("assistant.intent");
            assert("session.truncation"@.len() != "assistant.intent"@.len());
            reveal_strlit("assistant.message");
            assert("session.truncation"@.len() != "assistant.message"@.len());
            reveal_strlit("assistant.message_delta");
            assert("session.truncation"@.len() != "assistant.message_delta"@.len());
            reveal_strlit("assistant.reasoning");
            assert("session.truncation"@.len() != "assistant.reasoning"@.len());
            reveal_strlit("assistant.reasoning_delta");
            assert("session.truncation"@.len() != "assistant.reasoning_delta"@.len());
            reveal_strlit("assistant.turn_end");
            assert("session.truncation"@[0] != "assistant.turn_end"@[0]);
            reveal_strlit("assistant.turn_start");
            assert("session.truncation"@.len() != "assistant.turn_start"@.len());
            reveal_strlit("assistant.usage");
            assert("session.truncation"@.len() != "assistant.usage"@.len());
            reveal_strlit("custom_agent.completed");
            assert("session.truncation"@.len() != "custom_agent.completed"@.len());
            reveal_strlit("custom_agent.failed");
            assert("session.truncation"@.len() != "custom_agent.failed"@.len());
            reveal_strlit("custom_agent.selected");
            assert("session.truncation"@.len() != "custom_agent.selected"@.len());
            reveal_strlit("custom_agent.started");
            assert("session.truncation"@.len() != "custom_agent.started"@.len());
            reveal_strlit("hook.end");
            assert("session.truncation"@.len() != "hook.end"@.len());
            reveal_strlit("hook.start");
            assert("session.truncation"@.len() != "hook.start"@.len());
            reveal_strlit("pending_messages.modified");
            assert("session.truncation"@.len() != "pending_messages.modified"@.len());
            reveal_strlit("session.error");
            assert("session.truncation"@.len() != "session.error"@.len());
            reveal_strlit("session.handoff");
            assert("session.truncation"@.len() != "session.handoff"@.len());
            reveal_strlit("session.idle");
            assert("session.truncation"@.len() != "session.idle"@.len());
            reveal_strlit("session.info");
            assert("session.truncation"@.len() != "session.info"@.len());
            reveal_strlit("session.model_change");
            assert("session.truncation"@.len() != "session.model_change"@.len());
            reveal_strlit("session.resume");
            assert("session.truncation"@.len() != "session.resume"@.len());
            reveal_strlit("session.start");
            assert("session.truncation"@.len() != "session.start"@.len());
            assert(event_type_named("session.truncation"@) == Some(SessionEventType::SessionTruncation));
        },
        SessionEventType::SystemMessage => {
            reveal_strlit("system.message");
            reveal_strlit("abort");
            assert("system.message"@.len() != "abort"@.len());
            reveal_strlit("assistant.intent");
            assert("system.message"@.len() != "assistant.intent"@.len());
            reveal_strlit("assistant.message");
            assert("system.message"@.len() != "assistant.message"@.len());
            reveal_strlit("assistant.message_delta");
            assert("system.message"@.len() != "assistant.message_delta"@.len());
            reveal_strlit("assistant.reasoning");
            assert("system.message"@.len() != "assistant.reasoning"@.len());
            reveal_strlit("assistant.reasoning_delta");
            assert("system.message"@.len() != "assistant.reasoning_delta"@.len());
            reveal_strlit("assistant.turn_end");
            assert("system.message"@.len() != "assistant.turn_end"@.len());
            reveal_strlit("assistant.turn_start");
            assert("system.message"@.len() != "assistant.turn_start"@.len());
            reveal_strlit("assistant.usage");
            assert("system.message"@.len() != "assistant.usage"@.len());
            reveal_strlit("custom_agent.completed");
            assert("system.message"@.len() != "custom_agent.completed"@.len());
            reveal_strlit("custom_agent.failed");
            assert("system.message"@.len() != "custom_agent.failed"@.len());
            reveal_strlit("custom_agent.selected");
            assert("system.message"@.len() != "custom_agent.selected"@.len());
            reveal_strlit("custom_agent.started");
            assert("system.message"@.len() != "custom_agent.started"@.len());
            reveal_strlit("hook.end");
            assert("system.message"@.len() != "hook.end"@.len());
            reveal_strlit("hook.start");
            assert("system.message"@.len() != "hook.start"@.len());
            reveal_strlit("pending_messages.modified");
            assert("system.message"@.len() != "pending_messages.modified"@.len());
            reveal_strlit("session.error");
            assert("system.message"@.len() != "session.error"@.len());
            reveal_strlit("session.handoff");
            assert("system.message"@.len() != "session.handoff"@.len());
            reveal_strlit("session.idle");
            assert("system.message"@.len() != "session.idle"@.len());
            reveal_strlit("session.info");
            assert("system.message"@.len() != "session.info"@.len());
            reveal_strlit("session.model_change");
            assert("system.message"@.len() != "session.model_change"@.len());
            reveal_strlit("session.resume");
            assert("system.message"@[1] != "session.resume"@[1]);
            reveal_strlit("session.start");
            assert("system.message"@.len() != "session.start"@.len());
            reveal_strlit("session.truncation");
            assert("system.message"@.len() != "session.truncation"@.len());
            assert(event_type_named("system.message"@) == Some(SessionEventType::SystemMessage));
        },
        SessionEventType::ToolExecutionComplete => {
            reveal_strlit("tool.execution_complete");
            reveal_strlit("abort");
            assert("tool.execution_complete"@.len() != "abort"@.len());
            reveal_strlit("assistant.intent");
            assert("tool.execution_complete"@.len() != "assistant.intent"@.len());
            reveal_strlit("assistant.message");
            assert("tool.execution_complete"@.len() != "assistant.message"@.len());
            reveal_strlit("assistant.message_delta");
            assert("tool.execution_complete"@[0] != "assistant.message_delta"@[0]);
            reveal_strlit("assistant.reasoning");
            assert("tool.execution_complete"@.len() != "assistant.reasoning"@.len());
            reveal_strlit("assistant.reasoning_delta");
            assert("tool.execution_complete"@.len() != "assistant.reasoning_delta"@.len());
            reveal_strlit("assistant.turn_end");
            assert("tool.execution_complete"@.len() != "assistant.turn_end"@.len());
            reveal_strlit("assistant.turn_start");
            assert("tool.execution_complete"@.len() != "assistant.turn_start"@.len());
            reveal_strlit("assistant.usage");
            assert("tool.execution_complete"@.len() != "assistant.usage"@.len());
            reveal_strlit("custom_agent.completed");
            assert("tool.execution_complete"@.len() != "custom_agent.completed"@.len());
            reveal_strlit("custom_agent.failed");
            assert("tool.execution_complete"@.len() != "custom_agent.failed"@.len());
            reveal_strlit("custom_agent.selected");
            assert("tool.execution_complete"@.len() != "custom_agent.selected"@.len());
            reveal_strlit("custom_agent.started");
            assert("tool.execution_complete"@.len() != "custom_agent.started"@.len());
            reveal_strlit("hook.end");
            assert("tool.execution_complete"@.len() != "hook.end"@.len());
            reveal_strlit("hook.start");
            assert("tool.execution_complete"@.len() != "hook.start"@.len());
            reveal_strlit("pending_messages.modified");
            assert("tool.execution_complete"@.len() != "pending_messages.modified"@.len());
            reveal_strlit("session.error");
            assert("tool.execution_complete"@.len() != "session.error"@.len());
            reveal_strlit("session.handoff");
            assert("tool.execution_complete"@.len() != "session.handoff"@.len());
            reveal_strlit("session.idle");
            assert("tool.execution_complete"@.len() != "session.idle"@.len());
            reveal_strlit("session.info");
            assert("tool.execution_complete"@.len() != "session.info"@.len());
            reveal_strlit("session.model_change");
            assert("tool.execution_complete"@.len() != "session.model_change"@.len());
            reveal_strlit("session.resume");
            assert("tool.execution_complete"@.len() != "session.resume"@.len());
            reveal_strlit("session.start");
            assert("tool.execution_complete"@.len() != "session.start"@.len());
            reveal_strlit("session.truncation");
            assert("tool.execution_complete"@.len() != "session.truncation"@.len());
            reveal_strlit("system.message");
            assert("tool.execution_complete"@.len() != "system.message"@.len());
            assert(event_type_named("tool.execution_complete"@) == Some(SessionEventType::ToolExecutionComplete));
        },
        SessionEventType::ToolExecutionPartialResult => {
            reveal_strlit("tool.execution_partial_result");
            reveal_strlit("abort");
            assert("tool.execution_partial_result"@.len() != "abort"@.len());
            reveal_strlit("assistant.intent");
            assert("tool.execution_partial_result"@.len() != "assistant.intent"@.len());
            reveal_strlit("assistant.message");
            assert("tool.execution_partial_result"@.len() != "assistant.message"@.len());
            reveal_strlit("assistant.message_delta");
            assert("tool.execution_partial_result"@.len() != "assistant.message_delta"@.len());
            reveal_strlit("assistant.reasoning");
            assert("tool.execution_partial_result"@.len() != "assistant.reasoning"@.len());
            reveal_strlit("assistant.reasoning_delta");
            assert("tool.execution_partial_result"@.len() != "assistant.reasoning_delta"@.len());
            reveal_strlit("assistant.turn_end");
            assert("tool.execution_partial_result"@.len() != "assistant.turn_end"@.len());
            reveal_strlit("assistant.turn_start");
            assert("tool.execution_partial_result"@.len() != "assistant.turn_start"@.len());
            reveal_strlit("assistant.usage");
            assert("tool.execution_partial_result"@.len() != "assistant.usage"@.len());
            reveal_strlit("custom_agent.completed");
            assert("tool.execution_partial_result"@.len() != "custom_agent.completed"@.len());
            reveal_strlit("custom_agent.failed");
            assert("tool.execution_partial_result"@.len() != "custom_agent.failed"@.len());
            reveal_strlit("custom_agent.selected");
            assert("tool.execution_partial_result"@.len() != "custom_agent.selected"@.len());
            reveal_strlit("custom_agent.started");
            assert("tool.execution_partial_result"@.len() != "custom_agent.started"@.len());
            reveal_strlit("hook.end");
            assert("tool.execution_partial_result"@.len() != "hook.end"@.len());
            reveal_strlit("hook.start");
            assert("tool.execution_partial_result"@.len() != "hook.start"@.len());
            reveal_strlit("pending_messages.modified");
            assert("tool.execution_partial_result"@.len() != "pending_messages.modified"@.len());
            reveal_strlit("session.error");
            assert("tool.execution_partial_result"@.len() != "session.error"@.len());
            reveal_strlit("session.handoff");
            assert("tool.execution_partial_result"@.len() != "session.handoff"@.len());
            reveal_strlit("session.idle");
            assert("tool.execution_partial_result"@.len() != "session.idle"@.len());
            reveal_strlit("session.info");
            assert("tool.execution_partial_result"@.len() != "session.info"@.len());
            reveal_strlit("session.model_change");
            assert("tool.execution_partial_result"@.len() != "session.model_change"@.len());
            reveal_strlit("session.resume");
            assert("tool.execution_partial_result"@.len() != "session.resume"@.len());
            reveal_strlit("session.start");
            assert("tool.execution_partial_result"@.len() != "session.start"@.len());
            reveal_strlit("session.truncation");
            assert("tool.execution_partial_result"@.len() != "session.truncation"@.len());
            reveal_strlit("system.message");
            assert("tool.execution_partial_result"@.len() != "system.message"@.len());
            reveal_strlit("tool.execution_complete");
            assert("tool.execution_partial_result"@.len() != "tool.execution_complete"@.len());
            assert(event_type_named("tool.execution_partial_result"@) == Some(SessionEventType::ToolExecutionPartialResult));
        },
        SessionEventType::ToolExecutionStart => {
            reveal_strlit("tool.execution_start");
            reveal_strlit("abort");
            assert("tool.execution_start"@.len() != "abort"@.len());
            reveal_strlit("assistant.intent");
            assert("tool.execution_start"@.len() != "assistant.intent"@.len());
            reveal_strlit("assistant.message");
            assert("tool.execution_start"@.len() != "assistant.message"@.len());
            reveal_strlit("assistant.message_delta");
            assert("tool.execution_start"@.len() != "assistant.message_delta"@.len());
            reveal_strlit("assistant.reasoning");
            assert("tool.execution_start"@.len() != "assistant.reasoning"@.len());
            reveal_strlit("assistant.reasoning_delta");
            assert("tool.execution_start"@.len() != "assistant.reasoning_delta"@.len());
            reveal_strlit("assistant.turn_end");
            assert("tool.execution_start"@.len() != "assistant.turn_end"@.len());
            reveal_strlit("assistant.turn_start");
            assert("tool.execution_start"@[0] != "assistant.turn_start"@[0]);
            reveal_strlit("assistant.usage");
            assert("tool.execution_start"@.len() != "assistant.usage"@.len());
            reveal_strlit("custom_agent.completed");
            assert("tool.execution_start"@.len() != "custom_agent.completed"@.len());
            reveal_strlit("custom_agent.failed");
            assert("tool.execution_start"@.len() != "custom_agent.failed"@.len());
            reveal_strlit("custom_agent.selected");
            assert("tool.execution_start"@.len() != "custom_agent.selected"@.len());
            reveal_strlit("custom_agent.started");
            assert("tool.execution_start"@[0] != "custom_agent.started"@[0]);
            reveal_strlit("hook.end");
            assert("tool.execution_start"@.len() != "hook.end"@.len());
            reveal_strlit("hook.start");
            assert("tool.execution_start"@.len() != "hook.start"@.len());
            reveal_strlit("pending_messages.modified");
            assert("tool.execution_start"@.len() != "pending_messages.modified"@.len());
            reveal_strlit("session.error");
            assert("tool.execution_start"@.len() != "session.error"@.len());
            reveal_strlit("session.handoff");
            assert("tool.execution_start"@.len() != "session.handoff"@.len());
            reveal_strlit("session.idle");
            assert("tool.execution_start"@.len() != "session.idle"@.len());
            reveal_strlit("session.info");
            assert("tool.execution_start"@.len() != "session.info"@.len());
            reveal_strlit("session.model_change");
            assert("tool.execution_start"@[0] != "session.model_change"@[0]);
            reveal_strlit("session.resume");
            assert("tool.execution_start"@.len() != "session.resume"@.len());
            reveal_strlit("session.start");
            assert("tool.execution_start"@.len() != "session.start"@.len());
            reveal_strlit("session.truncation");
            assert("tool.execution_start"@.len() != "session.truncation"@.len());
            reveal_strlit("system.message");
            assert("tool.execution_start"@.len() != "system.message"@.len());
            reveal_strlit("tool.execution_complete");
            assert("tool.execution_start"@.len() != "tool.execution_complete"@.len());
            reveal_strlit("tool.execution_partial_result");
            assert("tool.execution_start"@.len() != "tool.execution_partial_result"@.len());
            assert(event_type_named("tool.execution_start"@) == Some(SessionEventType::ToolExecutionStart));
        },
        SessionEventType::ToolUserRequested => {
            reveal_strlit("tool.user_requested");
            reveal_strlit("abort");
            assert("tool.user_requested"@.len() != "abort"@.len());
            reveal_strlit("assistant.intent");
            assert("tool.user_requested"@.len() != "assistant.intent"@.len());
            reveal_strlit("assistant.message");
            assert("tool.user_requested"@.len() != "assistant.message"@.len());
            reveal_strlit("assistant.message_delta");
            assert("tool.user_requested"@.len() != "assistant.message_delta"@.len());
            reveal_strlit("assistant.reasoning");
            assert("tool.user_requested"@[0] != "assistant.reasoning"@[0]);
            reveal_strlit("assistant.reasoning_delta");
            assert("tool.user_requested"@.len() != "assistant.reasoning_delta"@.len());
            reveal_strlit("assistant.turn_end");
            assert("tool.user_requested"@.len() != "assistant.turn_end"@.len());
            reveal_strlit("assistant.turn_start");
            assert("tool.user_requested"@.len() != "assistant.turn_start"@.len());
            reveal_strlit("assistant.usage");
            assert("tool.user_requested"@.len() != "assistant.usage"@.len());
            reveal_strlit("custom_agent.completed");
            assert("tool.user_requested"@.len() != "custom_agent.completed"@.len());
            reveal_strlit("custom_agent.failed");
            assert("tool.user_requested"@[0] != "custom_agent.failed"@[0]);
            reveal_strlit("custom_agent.selected");
            assert("tool.user_requested"@.len() != "custom_agent.selected"@.len());
            reveal_strlit("custom_agent.started");
            assert("tool.user_requested"@.len() != "custom_agent.started"@.len());
            reveal_strlit("hook.end");
            assert("tool.user_requested"@.len() != "hook.end"@.len());
            reveal_strlit("hook.start");
            assert("tool.user_requested"@.len() != "hook.start"@.len());
            reveal_strlit("pending_messages.modified");
            assert("tool.user_requested"@.len() != "pending_messages.modified"@.len());
            reveal_strlit("session.error");
            assert("tool.user_requested"@.len() != "session.error"@.len());
            reveal_strlit("session.handoff");
            assert("tool.user_requested"@.len() != "session.handoff"@.len());
            reveal_strlit("session.idle");
            assert("tool.user_requested"@.len() != "session.idle"@.len());
            reveal_strlit("session.info");
            assert("tool.user_requested"@.len() != "session.info"@.len());
            reveal_strlit("session.model_change");
            assert("tool.user_requested"@.len() != "session.model_change"@.len());
            reveal_strlit("session.resume");
            assert("tool.user_requested"@.len() != "session.resume"@.len());
            reveal_strlit("session.start");
            assert("tool.user_requested"@.len() != "session.start"@.len());
            reveal_strlit("session.truncation");
            assert("tool.user_requested"@.len() != "session.truncation"@.len());
            reveal_strlit("system.message");
            assert("tool.user_requested"@.len() != "system.message"@.len());
            reveal_strlit("tool.execution_complete");
            assert("tool.user_requested"@.len() != "tool.execution_complete"@.len());
            reveal_strlit("tool.execution_partial_result");
            assert("tool.user_requested"@.len() != "tool.execution_partial_result"@.len());
            reveal_strlit("tool.execution_start");
            assert("tool.user_requested"@.len() != "tool.execution_start"@.len());
            assert(event_type_named("tool.user_requested"@) == Some(SessionEventType::ToolUserRequested));
        },
        SessionEventType::UserMessage => {
            reveal_strlit("user.message");
            reveal_strlit("abort");
            assert("user.message"@.len() != "abort"@.len());
            reveal_strlit("assistant.intent");
            assert("user.message"@.len() != "assistant.intent"@.len());
            reveal_strlit("assistant.message");
            assert("user.message"@.len() != "assistant.message"@.len());
            reveal_strlit("assistant.message_delta");
            assert("user.message"@.len() != "assistant.message_delta"@.len());
            reveal_strlit("assistant.reasoning");
            assert("user.message"@.len() != "assistant.reasoning"@.len());
            reveal_strlit("assistant.reasoning_delta");
            assert("user.message"@.len() != "assistant.reasoning_delta"@.len());
            reveal_strlit("assistant.turn_end");
            assert("user.message"@.len() != "assistant.turn_end"@.len());
            reveal_strlit("assistant.turn_start");
            assert("user.message"@.len() != "assistant.turn_start"@.len());
            reveal_strlit("assistant.usage");
            assert("user.message"@.len() != "assistant.usage"@.len());
            reveal_strlit("custom_agent.completed");
            assert("user.message"@.len() != "custom_agent.completed"@.len());
            reveal_strlit("custom_agent.failed");
            assert("user.message"@.len() != "custom_agent.failed"@.len());
            reveal_strlit("custom_agent.selected");
            assert("user.message"@.len() != "custom_agent.selected"@.len());
            reveal_strlit("custom_agent.started");
            assert("user.message"@.len() != "custom_agent.started"@.len());
            reveal_strlit("hook.end");
            assert("user.message"@.len() != "hook.end"@.len());
            reveal_strlit("hook.start");
            assert("user.message"@.len() != "hook.start"@.len());
            reveal_strlit("pending_messages.modified");
            assert("user.message"@.len() != "pending_messages.modified"@.len());
            reveal_strlit("session.error");
            assert("user.message"@.len() != "session.error"@.len());
            reveal_strlit("session.handoff");
            assert("user.message"@.len() != "session.handoff"@.len());
            reveal_strlit("session.idle");
            assert("user.message"@[0] != "session.idle"@[0]);
            reveal_strlit("session.info");
            assert("user.message"@[0] != "session.info"@[0]);
            reveal_strlit("session.model_change");
            assert("user.message"@.len() != "session.model_change"@.len());
            reveal_strlit("session.resume");
            assert("user.message"@.len() != "session.resume"@.len());
            reveal_strlit("session.start");
            assert("user.message"@.len() != "session.start"@.len());
            reveal_strlit("session.truncation");
            assert("user.message"@.len() != "session.truncation"@.len());
            reveal_strlit("system.message");
            assert("user.message"@.len() != "system.message"@.len());
            reveal_strlit("tool.execution_complete");
            assert("user.message"@.len() != "tool.execution_complete"@.len());
            reveal_strlit("tool.execution_partial_result");
            assert("user.message"@.len() != "tool.execution_partial_result"@.len());
            reveal_strlit("tool.execution_start");
            assert("user.message"@.len() != "tool.execution_start"@.len());
            reveal_strlit("tool.user_requested");
            assert("user.message"@.len() != "tool.user_requested"@.len());
            assert(event_type_named("user.message"@) == Some(SessionEventType::UserMessage));
        },
    }
}

/// Kind of an attachment of a user message.
#[derive(Debug, Clone, Copy, PartialEq, Eq, Structural)]
pub enum AttachmentType {
    Directory,
    File,
}

/// An attachment of a user message.
#[derive(Debug, Clone)]
pub struct Attachment {
    pub display_name: String,
    pub path: String,
    pub attachment_type: AttachmentType,
}

/// Role of a system message.
#[derive(Debug, Clone, Copy, PartialEq, Eq, Structural)]
pub enum Role {
    Developer,
    System,
}

/// Where a handed-off session comes from.
#[derive(Debug, Clone, Copy, PartialEq, Eq, Structural)]
pub enum SourceType {
    Local,
    Remote,
}

/// Repository of a handed-off session.
#[derive(Debug, Clone)]
pub struct Repository {
    pub branch: Option<String>,
    pub name: String,
    pub owner: String,
}

/// Error information of an event.
#[derive(Debug, Clone)]
pub struct ErrorInfo {
    pub code: Option<String>,
    pub message: String,
    pub stack: Option<String>,
}

/// Content of a tool execution result.
#[derive(Debug, Clone)]
pub struct Result {
    pub content: String,
}

} // verus!
