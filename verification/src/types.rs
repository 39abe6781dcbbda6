//! Core data model: modes, roles, statuses, tool identifiers and
//! conversation turns, together with their specification-level views.

use vstd::prelude::*;

verus! {

/// The permission context of a call: which tools the active catalog offers.
#[derive(Clone, Copy, Debug, PartialEq, Eq, Structural)]
pub enum Mode {
    TradingAllowed,
    TradingNotAllowed,
    SocialPost,
}

/// Who produced a conversation turn.
#[derive(Clone, Copy, Debug, PartialEq, Eq, Structural)]
pub enum Role {
    System,
    User,
    Assistant,
    Tool,
}

/// The outcome tag of one orchestration call; exactly one is produced per
/// successful call.  `Approve` and `Reject` are terminal trade decisions,
/// `ApproveFailed` and `Decline` their upstream-failure counterparts,
/// `Discuss` continues the conversation and `ReadyToShilling` marks a
/// verified pool whose analytics may now be requested.
#[derive(Clone, Copy, Debug, PartialEq, Eq, Structural)]
pub enum ConversationStatus {
    Approve,
    ApproveFailed,
    Decline,
    Reject,
    Discuss,
    ReadyToShilling,
}

/// The closed set of tool identifiers the engine can dispatch.  An
/// unrecognized name from the model never reaches this enumeration; it is
/// reported as an unknown tool instead.
#[derive(Clone, Copy, Debug, PartialEq, Eq, Structural)]
pub enum ToolName {
    ApproveShilling,
    RejectShilling,
    IdentifyPool,
    FetchPoolData,
    RetrieveCurrentPortfolio,
    RetrieveBuyExplanation,
    RetrievePnlInformation,
    GeneratePostInTwitter,
    AnalyzeCallIdentifyPool,
}

impl DeepView for ToolName {
    type V = ToolName;

    open spec fn deep_view(&self) -> ToolName {
        *self
    }
}

/// How strongly the model is asked to use a tool on the next invocation.
#[derive(Clone, Copy, Debug, PartialEq, Eq, Structural)]
pub enum ToolChoice {
    Auto,
    Required,
}

/// A single turn of a conversation.  `tool_call_id` links an assistant
/// turn that requested a tool call with the tool turn that answers it.
#[derive(Clone, Debug)]
pub struct ConversationTurn {
    pub role: Role,
    pub content: String,
    pub tool_call_id: Option<String>,
}

/// Specification-level image of a [`ConversationTurn`].
#[verifier::ext_equal]
pub struct SpecTurn {
    pub role: Role,
    pub content: Seq<char>,
    pub tool_call_id: Option<Seq<char>>,
}

impl DeepView for ConversationTurn {
    type V = SpecTurn;

    open spec fn deep_view(&self) -> SpecTurn {
        SpecTurn {
            role: self.role,
            content: self.content.deep_view(),
            tool_call_id: self.tool_call_id.deep_view(),
        }
    }
}

impl ConversationTurn {
    /// A plain turn without a tool-call link.
    pub fn new(role: Role, content: String) -> (r: ConversationTurn)
        ensures
            r.deep_view() == (SpecTurn { role, content: content.deep_view(), tool_call_id: None }),
    {
        ConversationTurn { role, content, tool_call_id: None }
    }

    /// A copy of this turn.
    pub fn duplicate(&self) -> (r: ConversationTurn)
        ensures
            r.deep_view() == self.deep_view(),
    {
        let tool_call_id = match &self.tool_call_id {
            Some(id) => Some(id.clone()),
            None => None,
        };
        ConversationTurn { role: self.role, content: self.content.clone(), tool_call_id }
    }

    /// A turn linked to a tool call by its id.
    pub fn with_call_id(role: Role, content: String, call_id: String) -> (r: ConversationTurn)
        ensures
            r.deep_view() == (SpecTurn {
                role,
                content: content.deep_view(),
                tool_call_id: Some(call_id.deep_view()),
            }),
    {
        ConversationTurn { role, content, tool_call_id: Some(call_id) }
    }
}

} // verus!
