//! The conversation orchestrator: a state machine that mediates between
//! the model backend and the tool collaborators.
//!
//! The decisions are pure functions from state and event to next state and
//! action.  The surrounding application performs the actions (invoking the
//! model, executing a tool) and hands the events back; [`answer_users_msg`]
//! runs the same loop over pre-determined event scripts and is what the
//! conversation laws and the tests exercise.  Every step is specified
//! against the interpreter [`spec_run_from`].

use vstd::prelude::*;
use crate::types::{ConversationStatus, ConversationTurn, Mode, Role, SpecTurn, ToolChoice, ToolName};
use crate::errors::{BackendFailure, CallError};
use crate::model::{ModelReply, ModelResult, RawToolCall, SpecModelReply, SpecModelResult, SpecRawToolCall};
use crate::actions::{SpecToolOutcome, SpecToolResult, ToolOutcome, ToolResult};
use crate::actions::{
    process_fetch_data_from_dex_screener, retrieve_buy_decision, retrieve_portfolio_information,
    spec_process_fetch_data, spec_process_shilling, spec_retrieve_buy_decision,
    spec_retrieve_portfolio_information, process_shilling,
};
use crate::prompts::{main_prompt, mode_guidance, spec_catalog_allows, spec_main_prompt, spec_mode_guidance, catalog_allows};
use crate::util::{get_arg, json_string_entries, lemma_pairs_to_map_lookup, pairs_to_map, parse_arguments, push_deep, spec_tool_name_of, take_first, tool_name_of};

verus! {

/// A validated tool call, ready for the application to execute.
#[derive(Clone, Debug)]
pub struct ToolCall {
    pub name: ToolName,
    pub args: Vec<(String, String)>,
    pub call_id: String,
}

/// Specification-level image of a [`ToolCall`]: the arguments as the map
/// they denote, since their order carries no meaning.
#[verifier::ext_equal]
pub struct SpecToolCall {
    pub name: ToolName,
    pub args: Map<Seq<char>, Seq<char>>,
    pub call_id: Seq<char>,
}

impl DeepView for ToolCall {
    type V = SpecToolCall;

    open spec fn deep_view(&self) -> SpecToolCall {
        SpecToolCall {
            name: self.name,
            args: pairs_to_map(self.args.deep_view()),
            call_id: self.call_id.deep_view(),
        }
    }
}

/// The tool call whose external execution is in flight.
#[derive(Clone, Debug)]
pub struct PendingTool {
    pub tool: ToolName,
    pub call_id: String,
    pub explanation: String,
}

/// Specification-level image of a [`PendingTool`].
#[verifier::ext_equal]
pub struct SpecPendingTool {
    pub tool: ToolName,
    pub call_id: Seq<char>,
    pub explanation: Seq<char>,
}

impl DeepView for PendingTool {
    type V = SpecPendingTool;

    open spec fn deep_view(&self) -> SpecPendingTool {
        SpecPendingTool {
            tool: self.tool,
            call_id: self.call_id.deep_view(),
            explanation: self.explanation.deep_view(),
        }
    }
}

/// The result of one orchestration call: a human-readable text, the status
/// tag, and — only for an approved trade — the trade artifact.
#[derive(Clone, Debug)]
pub struct DecisionOutcome {
    pub text: String,
    pub status: ConversationStatus,
    pub artifact: Option<ToolOutcome>,
}

/// Specification-level image of a [`DecisionOutcome`].
#[verifier::ext_equal]
pub struct SpecDecisionOutcome {
    pub text: Seq<char>,
    pub status: ConversationStatus,
    pub artifact: Option<SpecToolOutcome>,
}

impl DeepView for DecisionOutcome {
    type V = SpecDecisionOutcome;

    open spec fn deep_view(&self) -> SpecDecisionOutcome {
        SpecDecisionOutcome {
            text: self.text.deep_view(),
            status: self.status,
            artifact: self.artifact.deep_view(),
        }
    }
}

/// A finished call: the decision and the turns to append to the session
/// history, in the order they occurred.
#[derive(Clone, Debug)]
pub struct CallSuccess {
    pub decision: DecisionOutcome,
    pub appended: Vec<ConversationTurn>,
}

/// Specification-level image of a [`CallSuccess`].
#[verifier::ext_equal]
pub struct SpecCallSuccess {
    pub decision: SpecDecisionOutcome,
    pub appended: Seq<SpecTurn>,
}

impl DeepView for CallSuccess {
    type V = SpecCallSuccess;

    open spec fn deep_view(&self) -> SpecCallSuccess {
        SpecCallSuccess { decision: self.decision.deep_view(), appended: self.appended.deep_view() }
    }
}

/// What the orchestrator asks of the application next.
#[derive(Clone, Debug)]
pub enum Action {
    /// Invoke the model on the current message sequence.
    AskModel,
    /// Execute the validated tool call and report its result.
    CallTool(ToolCall),
    /// The call is finished; append the turns and return the decision.
    Done(CallSuccess),
    /// The call failed; the session history is left unchanged.
    Failed(CallError),
}

/// Specification-level image of an [`Action`].
#[verifier::ext_equal]
pub enum SpecAction {
    AskModel,
    CallTool(SpecToolCall),
    Done(SpecCallSuccess),
    Failed(CallError),
}

impl DeepView for Action {
    type V = SpecAction;

    open spec fn deep_view(&self) -> SpecAction {
        match self {
            Action::AskModel => SpecAction::AskModel,
            Action::CallTool(c) => SpecAction::CallTool(c.deep_view()),
            Action::Done(s) => SpecAction::Done(s.deep_view()),
            Action::Failed(e) => SpecAction::Failed(*e),
        }
    }
}

/// The in-flight state of one orchestration call.
#[derive(Clone, Debug)]
pub struct CallState {
    pub mode: Mode,
    pub max_rounds: u32,
    pub rounds: u32,
    pub identify_done: bool,
    pub fetch_done: bool,
    pub pool_exists: bool,
    pub pending: Option<PendingTool>,
    pub messages: Vec<ConversationTurn>,
    pub new_turns: Vec<ConversationTurn>,
    pub executed: Vec<ToolName>,
    pub user_wallet: String,
}

/// Specification-level image of a [`CallState`].
#[verifier::ext_equal]
pub struct SpecCallState {
    pub mode: Mode,
    pub max_rounds: nat,
    pub rounds: nat,
    pub identify_done: bool,
    pub fetch_done: bool,
    pub pool_exists: bool,
    pub pending: Option<SpecPendingTool>,
    pub messages: Seq<SpecTurn>,
    pub new_turns: Seq<SpecTurn>,
    pub executed: Seq<ToolName>,
    pub user_wallet: Seq<char>,
}

impl DeepView for CallState {
    type V = SpecCallState;

    open spec fn deep_view(&self) -> SpecCallState {
        SpecCallState {
            mode: self.mode,
            max_rounds: self.max_rounds as nat,
            rounds: self.rounds as nat,
            identify_done: self.identify_done,
            fetch_done: self.fetch_done,
            pool_exists: self.pool_exists,
            pending: self.pending.deep_view(),
            messages: self.messages.deep_view(),
            new_turns: self.new_turns.deep_view(),
            executed: self.executed.deep_view(),
            user_wallet: self.user_wallet.deep_view(),
        }
    }
}

/// The outcome of a whole call.
#[derive(Clone, Debug)]
pub enum CallOutcome {
    Success(CallSuccess),
    Failure(CallError),
}

/// Specification-level image of a [`CallOutcome`].
#[verifier::ext_equal]
pub enum SpecCallOutcome {
    Success(SpecCallSuccess),
    Failure(CallError),
}

impl DeepView for CallOutcome {
    type V = SpecCallOutcome;

    open spec fn deep_view(&self) -> SpecCallOutcome {
        match self {
            CallOutcome::Success(s) => SpecCallOutcome::Success(s.deep_view()),
            CallOutcome::Failure(e) => SpecCallOutcome::Failure(*e),
        }
    }
}

/// The outcome of a whole call, together with the tools that were
/// dispatched to external collaborators, in dispatch order.
#[derive(Clone, Debug)]
pub struct CallResult {
    pub outcome: CallOutcome,
    pub executed: Vec<ToolName>,
}

/// Specification-level image of a [`CallResult`].
#[verifier::ext_equal]
pub struct SpecCallResult {
    pub outcome: SpecCallOutcome,
    pub executed: Seq<ToolName>,
}

impl DeepView for CallResult {
    type V = SpecCallResult;

    open spec fn deep_view(&self) -> SpecCallResult {
        SpecCallResult { outcome: self.outcome.deep_view(), executed: self.executed.deep_view() }
    }
}

/// The default bound on model invocations per call.
pub const DEFAULT_MAX_ROUNDS: u32 = 4;

/// The tool choice handed to the model: when trading is allowed the model
/// must act, not just chat.
pub open spec fn spec_tool_choice_for(mode: Mode) -> ToolChoice {
    if mode is TradingAllowed {
        ToolChoice::Required
    } else {
        ToolChoice::Auto
    }
}

/// The tool choice handed to the model for `mode`.
pub fn tool_choice_for(mode: Mode) -> (r: ToolChoice)
    ensures
        r == spec_tool_choice_for(mode),
{
    match mode {
        Mode::TradingAllowed => ToolChoice::Required,
        _ => ToolChoice::Auto,
    }
}

// The fixed texts the orchestrator feeds back or returns.

pub open spec fn spec_unknown_tool_text() -> Seq<char> {
    "The requested tool is not available. Let's continue the conversation."@
}

pub fn unknown_tool_text() -> (r: &'static str)
    ensures
        r@ == spec_unknown_tool_text(),
{
    "The requested tool is not available. Let's continue the conversation."
}

pub open spec fn spec_invalid_arguments_text() -> Seq<char> {
    "Invalid tool arguments: a required parameter is missing or malformed."@
}

pub fn invalid_arguments_text() -> (r: &'static str)
    ensures
        r@ == spec_invalid_arguments_text(),
{
    "Invalid tool arguments: a required parameter is missing or malformed."
}

pub open spec fn spec_ordering_violation_text() -> Seq<char> {
    "Analytics can be fetched only after identifyPool has verified the pool in this conversation."@
}

pub fn ordering_violation_text() -> (r: &'static str)
    ensures
        r@ == spec_ordering_violation_text(),
{
    "Analytics can be fetched only after identifyPool has verified the pool in this conversation."
}

pub open spec fn spec_repeat_fetch_text() -> Seq<char> {
    "Analytics data was already fetched once in this call; it cannot be fetched again."@
}

pub fn repeat_fetch_text() -> (r: &'static str)
    ensures
        r@ == spec_repeat_fetch_text(),
{
    "Analytics data was already fetched once in this call; it cannot be fetched again."
}

pub open spec fn spec_approve_failed_text() -> Seq<char> {
    "Failed to proceed swap transaction."@
}

pub fn approve_failed_text() -> (r: &'static str)
    ensures
        r@ == spec_approve_failed_text(),
{
    "Failed to proceed swap transaction."
}

pub open spec fn spec_decline_text() -> Seq<char> {
    "The rejection could not be recorded."@
}

pub fn decline_text() -> (r: &'static str)
    ensures
        r@ == spec_decline_text(),
{
    "The rejection could not be recorded."
}

/// The failure text fed back to the model when a tool collaborator fails
/// or answers in an unexpected shape.
pub open spec fn spec_tool_failure_text(t: ToolName) -> Seq<char> {
    match t {
        ToolName::FetchPoolData => "Could not fetch token data. Provide a valid address on Raydium and try again."@,
        ToolName::IdentifyPool => "Invalid pool or token address."@,
        _ => "Tool execution failed."@,
    }
}

/// The failure text fed back to the model for tool `t`.
pub fn tool_failure_text(t: ToolName) -> (r: &'static str)
    ensures
        r@ == spec_tool_failure_text(t),
{
    match t {
        ToolName::FetchPoolData => "Could not fetch token data. Provide a valid address on Raydium and try again.",
        ToolName::IdentifyPool => "Invalid pool or token address.",
        _ => "Tool execution failed.",
    }
}

// Turn constructors at the specification level.

pub open spec fn spec_system_turn(content: Seq<char>) -> SpecTurn {
    SpecTurn { role: Role::System, content, tool_call_id: None }
}

pub open spec fn spec_user_turn(content: Seq<char>) -> SpecTurn {
    SpecTurn { role: Role::User, content, tool_call_id: None }
}

pub open spec fn spec_assistant_turn(content: Seq<char>) -> SpecTurn {
    SpecTurn { role: Role::Assistant, content, tool_call_id: None }
}

pub open spec fn spec_assistant_call_turn(name: Seq<char>, call_id: Seq<char>) -> SpecTurn {
    SpecTurn { role: Role::Assistant, content: name, tool_call_id: Some(call_id) }
}

pub open spec fn spec_tool_turn(content: Seq<char>, call_id: Seq<char>) -> SpecTurn {
    SpecTurn { role: Role::Tool, content, tool_call_id: Some(call_id) }
}

/// The parameters the model must supply for tool `t`, as the catalogs
/// declare them.
pub open spec fn spec_required_ok(t: ToolName, m: Map<Seq<char>, Seq<char>>) -> bool {
    match t {
        ToolName::ApproveShilling => m.dom().contains("explanation"@) && m.dom().contains(
            "poolAddress"@,
        ),
        ToolName::RejectShilling => m.dom().contains("explanation"@),
        ToolName::IdentifyPool => m.dom().contains("pool_or_token_address"@),
        ToolName::FetchPoolData => m.dom().contains("token_address"@),
        ToolName::RetrieveCurrentPortfolio => true,
        ToolName::RetrieveBuyExplanation => m.dom().contains("pool_address"@),
        ToolName::RetrievePnlInformation => m.dom().contains("action"@),
        ToolName::GeneratePostInTwitter => m.dom().contains("data"@),
        ToolName::AnalyzeCallIdentifyPool => true,
    }
}

/// The `explanation` argument, or the empty text where it is absent.
pub open spec fn spec_explanation_of(m: Map<Seq<char>, Seq<char>>) -> Seq<char> {
    if m.dom().contains("explanation"@) {
        m["explanation"@]
    } else {
        Seq::empty()
    }
}

/// The state a call starts in: the mode guidance, the loaded history and
/// the new user turn, with no tool dispatched yet.
pub open spec fn spec_start(
    mode: Mode,
    max_rounds: nat,
    history: Seq<SpecTurn>,
    message: Seq<char>,
    user_wallet: Seq<char>,
) -> SpecCallState {
    SpecCallState {
        mode,
        max_rounds,
        rounds: 0,
        identify_done: false,
        fetch_done: false,
        pool_exists: false,
        pending: None,
        messages: seq![
            spec_system_turn(spec_main_prompt()),
            spec_system_turn(spec_mode_guidance(mode)),
        ] + history + seq![spec_user_turn(message)],
        new_turns: seq![spec_user_turn(message)],
        executed: Seq::empty(),
        user_wallet,
    }
}

/// Appends a feedback tool turn and asks the model again.
pub open spec fn spec_feedback(s: SpecCallState, call_id: Seq<char>, text: Seq<char>) -> (
    SpecCallState,
    SpecAction,
) {
    let turn = spec_tool_turn(text, call_id);
    (
        SpecCallState {
            messages: s.messages.push(turn),
            new_turns: s.new_turns.push(turn),
            ..s
        },
        SpecAction::AskModel,
    )
}

/// The status of a call that ends in literal content: the conversation
/// continues, or — when trading is not allowed and the pool was verified —
/// the session is unlocked for a decision.
pub open spec fn spec_content_status(s: SpecCallState) -> ConversationStatus {
    if s.mode is TradingNotAllowed && s.identify_done && s.pool_exists {
        ConversationStatus::ReadyToShilling
    } else {
        ConversationStatus::Discuss
    }
}

/// One step on a model result: the backend failure aborts the call, literal
/// content ends it, and a tool request is validated against the active
/// catalog, the declared required parameters and the ordering rules before
/// anything is dispatched.
#[verifier::opaque]
pub open spec fn spec_on_model_reply(s: SpecCallState, r: SpecModelResult) -> (
    SpecCallState,
    SpecAction,
) {
    let s1 = SpecCallState { rounds: s.rounds + 1, ..s };
    match r {
        SpecModelResult::Failure(f) => (s1, SpecAction::Failed(CallError::ModelBackendFailure(f))),
        SpecModelResult::Reply(SpecModelReply::Content(text)) => {
            let turn = spec_assistant_turn(text);
            let s2 = SpecCallState {
                messages: s1.messages.push(turn),
                new_turns: s1.new_turns.push(turn),
                ..s1
            };
            (
                s2,
                SpecAction::Done(
                    SpecCallSuccess {
                        decision: SpecDecisionOutcome {
                            text,
                            status: spec_content_status(s),
                            artifact: None,
                        },
                        appended: s2.new_turns,
                    },
                ),
            )
        },
        SpecModelResult::Reply(SpecModelReply::ToolRequest(raw)) => {
            let turn = spec_assistant_call_turn(raw.name, raw.call_id);
            let s2 = SpecCallState {
                messages: s1.messages.push(turn),
                new_turns: s1.new_turns.push(turn),
                ..s1
            };
            spec_on_tool_request(s2, raw)
        },
    }
}

/// Validation and dispatch of one requested tool call, after the assistant
/// turn was recorded.
#[verifier::opaque]
pub open spec fn spec_on_tool_request(s2: SpecCallState, raw: SpecRawToolCall) -> (
    SpecCallState,
    SpecAction,
) {
    match spec_tool_name_of(raw.name) {
        None => spec_abort_discuss(s2),
        Some(t) => if !spec_catalog_allows(s2.mode, t) {
            spec_abort_discuss(s2)
        } else {
            match json_string_entries(raw.arguments) {
                None => spec_feedback(s2, raw.call_id, spec_invalid_arguments_text()),
                Some(m) => if !spec_required_ok(t, m) {
                    spec_feedback(s2, raw.call_id, spec_invalid_arguments_text())
                } else if t is FetchPoolData && !s2.identify_done {
                    spec_feedback(s2, raw.call_id, spec_ordering_violation_text())
                } else if t is FetchPoolData && s2.fetch_done {
                    spec_feedback(s2, raw.call_id, spec_repeat_fetch_text())
                } else {
                    let s3 = SpecCallState {
                        pending: Some(
                            SpecPendingTool {
                                tool: t,
                                call_id: raw.call_id,
                                explanation: spec_explanation_of(m),
                            },
                        ),
                        executed: s2.executed.push(t),
                        identify_done: s2.identify_done || t is IdentifyPool,
                        fetch_done: s2.fetch_done || t is FetchPoolData,
                        ..s2
                    };
                    (s3, SpecAction::CallTool(SpecToolCall { name: t, args: m, call_id: raw.call_id }))
                },
            }
        },
    }
}

/// An unknown or impermissible tool aborts the branch to `Discuss` with a
/// generic failure text.
pub open spec fn spec_abort_discuss(s: SpecCallState) -> (SpecCallState, SpecAction) {
    (
        s,
        SpecAction::Done(
            SpecCallSuccess {
                decision: SpecDecisionOutcome {
                    text: spec_unknown_tool_text(),
                    status: ConversationStatus::Discuss,
                    artifact: None,
                },
                appended: s.new_turns,
            },
        ),
    )
}

/// The text a non-terminal tool outcome renders to.
#[verifier::opaque]
pub open spec fn spec_render_outcome(t: ToolName, o: SpecToolOutcome) -> Seq<char> {
    match t {
        ToolName::IdentifyPool => match o {
            SpecToolOutcome::PoolIdentified { pool_address, exists } => if exists {
                "Token address: "@ + pool_address
            } else {
                "Invalid pool or token address."@
            },
            _ => spec_tool_failure_text(t),
        },
        ToolName::FetchPoolData => match o {
            SpecToolOutcome::Analytics(a) => spec_process_fetch_data(a),
            _ => spec_tool_failure_text(t),
        },
        ToolName::RetrieveCurrentPortfolio => match o {
            SpecToolOutcome::Portfolio { tokens, agent_wallet } =>
                spec_retrieve_portfolio_information(tokens, agent_wallet),
            _ => spec_tool_failure_text(t),
        },
        ToolName::RetrieveBuyExplanation => match o {
            SpecToolOutcome::BuyDecision(d) => spec_retrieve_buy_decision(d),
            _ => spec_tool_failure_text(t),
        },
        ToolName::RetrievePnlInformation => match o {
            SpecToolOutcome::PnlStatistics(stats) => stats,
            _ => spec_tool_failure_text(t),
        },
        ToolName::GeneratePostInTwitter => match o {
            SpecToolOutcome::Posted(p) => p,
            _ => spec_tool_failure_text(t),
        },
        _ => spec_tool_failure_text(t),
    }
}

/// One step on the result of the dispatched tool.  A terminal tool ends
/// the call with the matching status; any other outcome is rendered, fed
/// back, and the model is asked again.
#[verifier::opaque]
pub open spec fn spec_on_tool_result(s: SpecCallState, r: SpecToolResult) -> (
    SpecCallState,
    SpecAction,
) {
    let p = s.pending->0;
    let s1 = SpecCallState { pending: None, ..s };
    match p.tool {
        ToolName::ApproveShilling => match r {
            SpecToolResult::Success(o) => {
                let text = match o {
                    SpecToolOutcome::Trade(t) => spec_process_shilling(p.explanation, t),
                    _ => p.explanation,
                };
                (
                    s1,
                    SpecAction::Done(
                        SpecCallSuccess {
                            decision: SpecDecisionOutcome {
                                text,
                                status: ConversationStatus::Approve,
                                artifact: Some(o),
                            },
                            appended: s1.new_turns,
                        },
                    ),
                )
            },
            SpecToolResult::UpstreamFailure => (
                s1,
                SpecAction::Done(
                    SpecCallSuccess {
                        decision: SpecDecisionOutcome {
                            text: spec_approve_failed_text(),
                            status: ConversationStatus::ApproveFailed,
                            artifact: None,
                        },
                        appended: s1.new_turns,
                    },
                ),
            ),
        },
        ToolName::RejectShilling => match r {
            SpecToolResult::Success(_) => (
                s1,
                SpecAction::Done(
                    SpecCallSuccess {
                        decision: SpecDecisionOutcome {
                            text: p.explanation,
                            status: ConversationStatus::Reject,
                            artifact: None,
                        },
                        appended: s1.new_turns,
                    },
                ),
            ),
            SpecToolResult::UpstreamFailure => (
                s1,
                SpecAction::Done(
                    SpecCallSuccess {
                        decision: SpecDecisionOutcome {
                            text: spec_decline_text(),
                            status: ConversationStatus::Decline,
                            artifact: None,
                        },
                        appended: s1.new_turns,
                    },
                ),
            ),
        },
        _ => {
            let content = match r {
                SpecToolResult::Success(o) => spec_render_outcome(p.tool, o),
                SpecToolResult::UpstreamFailure => spec_tool_failure_text(p.tool),
            };
            let pool_exists = match r {
                SpecToolResult::Success(SpecToolOutcome::PoolIdentified { exists, .. }) =>
                    if p.tool is IdentifyPool { exists } else { s1.pool_exists },
                _ => s1.pool_exists,
            };
            let turn = spec_tool_turn(content, p.call_id);
            let s2 = SpecCallState {
                pool_exists,
                messages: s1.messages.push(turn),
                new_turns: s1.new_turns.push(turn),
                ..s1
            };
            (s2, SpecAction::AskModel)
        },
    }
}

/// The interpreter: runs the call state over scripted model results and
/// tool results.  A missing model reply is a transport failure; a missing
/// tool result an upstream failure.  The round bound is enforced before
/// each model invocation.
pub open spec fn spec_run_from(
    s: SpecCallState,
    models: Seq<SpecModelResult>,
    tools: Seq<SpecToolResult>,
) -> SpecCallResult
    decreases models.len(),
{
    if s.rounds >= s.max_rounds {
        SpecCallResult {
            outcome: SpecCallOutcome::Failure(CallError::LoopBoundExceeded),
            executed: s.executed,
        }
    } else if models.len() == 0 {
        SpecCallResult {
            outcome: SpecCallOutcome::Failure(
                CallError::ModelBackendFailure(BackendFailure::Transport),
            ),
            executed: s.executed,
        }
    } else {
        let (s1, act) = spec_on_model_reply(s, models[0]);
        match act {
            SpecAction::Failed(e) => SpecCallResult {
                outcome: SpecCallOutcome::Failure(e),
                executed: s1.executed,
            },
            SpecAction::Done(succ) => SpecCallResult {
                outcome: SpecCallOutcome::Success(succ),
                executed: s1.executed,
            },
            SpecAction::AskModel => spec_run_from(s1, models.drop_first(), tools),
            SpecAction::CallTool(_) => {
                let tr = if tools.len() == 0 {
                    SpecToolResult::UpstreamFailure
                } else {
                    tools[0]
                };
                let tools2 = if tools.len() == 0 {
                    tools
                } else {
                    tools.drop_first()
                };
                let (s2, act2) = spec_on_tool_result(s1, tr);
                match act2 {
                    SpecAction::Failed(e) => SpecCallResult {
                        outcome: SpecCallOutcome::Failure(e),
                        executed: s2.executed,
                    },
                    SpecAction::Done(succ) => SpecCallResult {
                        outcome: SpecCallOutcome::Success(succ),
                        executed: s2.executed,
                    },
                    SpecAction::AskModel => spec_run_from(s2, models.drop_first(), tools2),
                    // spec_on_tool_result never dispatches a tool.
                    SpecAction::CallTool(_) => SpecCallResult {
                        outcome: SpecCallOutcome::Failure(
                            CallError::ModelBackendFailure(BackendFailure::Transport),
                        ),
                        executed: s2.executed,
                    },
                }
            },
        }
    }
}

/// One whole call over scripted events.
pub open spec fn spec_answer_users_msg(
    message: Seq<char>,
    user_wallet: Seq<char>,
    history: Seq<SpecTurn>,
    is_shilling_allowed: bool,
    max_rounds: nat,
    models: Seq<SpecModelResult>,
    tools: Seq<SpecToolResult>,
) -> SpecCallResult {
    let mode = if is_shilling_allowed {
        Mode::TradingAllowed
    } else {
        Mode::TradingNotAllowed
    };
    spec_run_from(spec_start(mode, max_rounds, history, message, user_wallet), models, tools)
}

/// A copy of a turn sequence, for handing the appended turns out.
fn clone_turns(v: &Vec<ConversationTurn>) -> (r: Vec<ConversationTurn>)
    ensures
        r.deep_view() == v.deep_view(),
{
    let mut r: Vec<ConversationTurn> = Vec::new();
    let mut i: usize = 0;
    while i < v.len()
        invariant
            0 <= i <= v.len(),
            r.deep_view() == v.deep_view().take(i as int),
        decreases v.len() - i,
    {
        push_deep(&mut r, v[i].duplicate());
        proof {
            assert(v.deep_view()[i as int] == v@[i as int].deep_view());
            assert(r.deep_view() =~= v.deep_view().take(i + 1));
        }
        i = i + 1;
    }
    proof {
        assert(v.deep_view().take(v.len() as int) =~= v.deep_view());
    }
    r
}

/// A copy of the dispatched-tool trace.
fn copy_tools(v: &Vec<ToolName>) -> (r: Vec<ToolName>)
    ensures
        r.deep_view() == v.deep_view(),
{
    let mut r: Vec<ToolName> = Vec::new();
    let mut i: usize = 0;
    while i < v.len()
        invariant
            0 <= i <= v.len(),
            r.deep_view() == v.deep_view().take(i as int),
        decreases v.len() - i,
    {
        push_deep(&mut r, v[i]);
        proof {
            assert(v.deep_view()[i as int] == v@[i as int].deep_view());
            assert(r.deep_view() =~= v.deep_view().take(i + 1));
        }
        i = i + 1;
    }
    proof {
        assert(v.deep_view().take(v.len() as int) =~= v.deep_view());
    }
    r
}

/// The status of a call that ends in literal content.
fn content_status(state: &CallState) -> (r: ConversationStatus)
    ensures
        r == spec_content_status(state.deep_view()),
{
    if matches!(state.mode, Mode::TradingNotAllowed) && state.identify_done && state.pool_exists {
        ConversationStatus::ReadyToShilling
    } else {
        ConversationStatus::Discuss
    }
}

/// Whether every required parameter of `t` is present among `args`.
fn check_required(t: ToolName, args: &Vec<(String, String)>) -> (r: bool)
    ensures
        r == spec_required_ok(t, pairs_to_map(args.deep_view())),
{
    proof {
        lemma_pairs_to_map_lookup(args.deep_view(), "explanation"@);
        lemma_pairs_to_map_lookup(args.deep_view(), "poolAddress"@);
        lemma_pairs_to_map_lookup(args.deep_view(), "pool_or_token_address"@);
        lemma_pairs_to_map_lookup(args.deep_view(), "token_address"@);
        lemma_pairs_to_map_lookup(args.deep_view(), "pool_address"@);
        lemma_pairs_to_map_lookup(args.deep_view(), "action"@);
        lemma_pairs_to_map_lookup(args.deep_view(), "data"@);
    }
    match t {
        ToolName::ApproveShilling => get_arg(args, "explanation").is_some() && get_arg(
            args,
            "poolAddress",
        ).is_some(),
        ToolName::RejectShilling => get_arg(args, "explanation").is_some(),
        ToolName::IdentifyPool => get_arg(args, "pool_or_token_address").is_some(),
        ToolName::FetchPoolData => get_arg(args, "token_address").is_some(),
        ToolName::RetrieveCurrentPortfolio => true,
        ToolName::RetrieveBuyExplanation => get_arg(args, "pool_address").is_some(),
        ToolName::RetrievePnlInformation => get_arg(args, "action").is_some(),
        ToolName::GeneratePostInTwitter => get_arg(args, "data").is_some(),
        ToolName::AnalyzeCallIdentifyPool => true,
    }
}

/// Renders a non-terminal tool outcome into the text fed back to the model.
fn render_outcome(t: ToolName, o: &ToolOutcome) -> (r: String)
    ensures
        r@ == spec_render_outcome(t, o.deep_view()),
{
    proof {
        reveal(spec_render_outcome);
    }
    match t {
        ToolName::IdentifyPool => match o {
            ToolOutcome::PoolIdentified { pool_address, exists } => if *exists {
                let s: String = "Token address: ".to_owned();
                s.concat(pool_address.as_str())
            } else {
                "Invalid pool or token address.".to_owned()
            },
            _ => tool_failure_text(t).to_owned(),
        },
        ToolName::FetchPoolData => match o {
            ToolOutcome::Analytics(a) => process_fetch_data_from_dex_screener(a),
            _ => tool_failure_text(t).to_owned(),
        },
        ToolName::RetrieveCurrentPortfolio => match o {
            ToolOutcome::Portfolio { tokens, agent_wallet } => retrieve_portfolio_information(
                tokens,
                agent_wallet.as_str(),
            ),
            _ => tool_failure_text(t).to_owned(),
        },
        ToolName::RetrieveBuyExplanation => match o {
            ToolOutcome::BuyDecision(d) => retrieve_buy_decision(d),
            _ => tool_failure_text(t).to_owned(),
        },
        ToolName::RetrievePnlInformation => match o {
            ToolOutcome::PnlStatistics(stats) => stats.clone(),
            _ => tool_failure_text(t).to_owned(),
        },
        ToolName::GeneratePostInTwitter => match o {
            ToolOutcome::Posted(p) => p.clone(),
            _ => tool_failure_text(t).to_owned(),
        },
        _ => tool_failure_text(t).to_owned(),
    }
}

/// Opens a call: assembles the message sequence from the fixed guidance,
/// the loaded history and the new user turn.
pub fn start(
    mode: Mode,
    max_rounds: u32,
    history: &Vec<ConversationTurn>,
    message: &str,
    user_wallet: &str,
) -> (s: CallState)
    ensures
        s.deep_view() == spec_start(
            mode,
            max_rounds as nat,
            history.deep_view(),
            message@,
            user_wallet@,
        ),
{
    let ghost prefix: Seq<SpecTurn> = seq![
        spec_system_turn(spec_main_prompt()),
        spec_system_turn(spec_mode_guidance(mode)),
    ];
    let mut messages: Vec<ConversationTurn> = Vec::new();
    push_deep(&mut messages, ConversationTurn::new(Role::System, main_prompt().to_owned()));
    push_deep(&mut messages, ConversationTurn::new(Role::System, mode_guidance(mode).to_owned()));
    proof {
        assert(messages.deep_view() =~= prefix);
    }
    let mut i: usize = 0;
    while i < history.len()
        invariant
            0 <= i <= history.len(),
            messages.deep_view() =~= prefix + history.deep_view().take(i as int),
        decreases history.len() - i,
    {
        push_deep(&mut messages, history[i].duplicate());
        proof {
            assert(history.deep_view()[i as int] == history@[i as int].deep_view());
            assert(messages.deep_view() =~= prefix + history.deep_view().take(i + 1));
        }
        i = i + 1;
    }
    proof {
        assert(history.deep_view().take(history.len() as int) =~= history.deep_view());
    }
    push_deep(&mut messages, ConversationTurn::new(Role::User, message.to_owned()));
    let mut new_turns: Vec<ConversationTurn> = Vec::new();
    push_deep(&mut new_turns, ConversationTurn::new(Role::User, message.to_owned()));
    let s = CallState {
        mode,
        max_rounds,
        rounds: 0,
        identify_done: false,
        fetch_done: false,
        pool_exists: false,
        pending: None,
        messages,
        new_turns,
        executed: Vec::new(),
        user_wallet: user_wallet.to_owned(),
    };
    proof {
        assert(s.deep_view().messages =~= spec_start(
            mode,
            max_rounds as nat,
            history.deep_view(),
            message@,
            user_wallet@,
        ).messages);
        assert(s.deep_view().new_turns =~= spec_start(
            mode,
            max_rounds as nat,
            history.deep_view(),
            message@,
            user_wallet@,
        ).new_turns);
        assert(s.deep_view() =~~= spec_start(
            mode,
            max_rounds as nat,
            history.deep_view(),
            message@,
            user_wallet@,
        ));
    }
    s
}

/// Ends the branch with a discuss-shaped outcome and a generic failure
/// text, leaving the state as it stands.
fn abort_discuss(state: &CallState) -> (act: Action)
    ensures
        (state.deep_view(), act.deep_view()) == spec_abort_discuss(state.deep_view()),
{
    let act = Action::Done(
        CallSuccess {
            decision: DecisionOutcome {
                text: unknown_tool_text().to_owned(),
                status: ConversationStatus::Discuss,
                artifact: None,
            },
            appended: clone_turns(&state.new_turns),
        },
    );
    proof {
        assert((state.deep_view(), act.deep_view()) =~~= spec_abort_discuss(state.deep_view()));
    }
    act
}

/// Appends a feedback tool turn and asks the model again.
fn feedback(state: &mut CallState, call_id: &String, text: &'static str) -> (act: Action)
    ensures
        (final(state).deep_view(), act.deep_view()) == spec_feedback(
            old(state).deep_view(),
            call_id@,
            text@,
        ),
        final(state).pending == old(state).pending,
{
    let t1 = ConversationTurn::with_call_id(Role::Tool, text.to_owned(), call_id.clone());
    let t2 = ConversationTurn::with_call_id(Role::Tool, text.to_owned(), call_id.clone());
    push_deep(&mut state.messages, t1);
    push_deep(&mut state.new_turns, t2);
    proof {
        assert(state.deep_view().messages =~= spec_feedback(
            old(state).deep_view(),
            call_id@,
            text@,
        ).0.messages);
        assert(state.deep_view().new_turns =~= spec_feedback(
            old(state).deep_view(),
            call_id@,
            text@,
        ).0.new_turns);
        assert((state.deep_view(), Action::AskModel.deep_view()) =~~= spec_feedback(
            old(state).deep_view(),
            call_id@,
            text@,
        ));
    }
    Action::AskModel
}

/// One step on a model result: validates any requested tool call against
/// the active catalog, the declared required parameters and the ordering
/// rules before anything is dispatched.
pub fn on_model_reply(state: &mut CallState, r: ModelResult) -> (act: Action)
    requires
        old(state).rounds < old(state).max_rounds,
        old(state).pending is None,
    ensures
        (final(state).deep_view(), act.deep_view()) == spec_on_model_reply(
            old(state).deep_view(),
            r.deep_view(),
        ),
        act is AskModel ==> final(state).pending is None,
        act is CallTool ==> final(state).pending is Some,
        final(state).rounds == old(state).rounds + 1,
        final(state).max_rounds == old(state).max_rounds,
{
    proof {
        reveal(spec_on_model_reply);
        reveal(spec_on_tool_request);
    }
    let ghost s0 = old(state).deep_view();
    let ghost rv = r.deep_view();
    state.rounds = state.rounds + 1;
    match r {
        ModelResult::Failure(f) => {
            let act = Action::Failed(CallError::ModelBackendFailure(f));
            proof {
                assert((state.deep_view(), act.deep_view()) =~~= spec_on_model_reply(s0, rv));
            }
            act
        },
        ModelResult::Reply(ModelReply::Content(text)) => {
            let status = content_status(state);
            let t1 = ConversationTurn::new(Role::Assistant, text.clone());
            let t2 = ConversationTurn::new(Role::Assistant, text.clone());
            push_deep(&mut state.messages, t1);
            push_deep(&mut state.new_turns, t2);
            let act = Action::Done(
                CallSuccess {
                    decision: DecisionOutcome { text, status, artifact: None },
                    appended: clone_turns(&state.new_turns),
                },
            );
            proof {
                assert(state.deep_view().messages =~= spec_on_model_reply(s0, rv).0.messages);
                assert(state.deep_view().new_turns =~= spec_on_model_reply(s0, rv).0.new_turns);
                assert((state.deep_view(), act.deep_view()) =~~= spec_on_model_reply(s0, rv));
            }
            act
        },
        ModelResult::Reply(ModelReply::ToolRequest(raw)) => {
            let t1 = ConversationTurn::with_call_id(
                Role::Assistant,
                raw.name.clone(),
                raw.call_id.clone(),
            );
            let t2 = ConversationTurn::with_call_id(
                Role::Assistant,
                raw.name.clone(),
                raw.call_id.clone(),
            );
            push_deep(&mut state.messages, t1);
            push_deep(&mut state.new_turns, t2);
            let ghost s2 = state.deep_view();
            proof {
                assert(s2 =~~= SpecCallState {
                    messages: s0.messages.push(
                        spec_assistant_call_turn(raw.name@, raw.call_id@),
                    ),
                    new_turns: s0.new_turns.push(
                        spec_assistant_call_turn(raw.name@, raw.call_id@),
                    ),
                    rounds: s0.rounds + 1,
                    ..s0
                });
                assert(spec_on_model_reply(s0, rv) == spec_on_tool_request(s2, raw.deep_view()));
            }
            let act = match tool_name_of(raw.name.as_str()) {
                None => abort_discuss(state),
                Some(t) => {
                    if !catalog_allows(state.mode, t) {
                        abort_discuss(state)
                    } else {
                        match parse_arguments(raw.arguments.as_str()) {
                            None => feedback(state, &raw.call_id, invalid_arguments_text()),
                            Some(args) => {
                                if !check_required(t, &args) {
                                    feedback(state, &raw.call_id, invalid_arguments_text())
                                } else if matches!(t, ToolName::FetchPoolData)
                                    && !state.identify_done {
                                    feedback(state, &raw.call_id, ordering_violation_text())
                                } else if matches!(t, ToolName::FetchPoolData) && state.fetch_done {
                                    feedback(state, &raw.call_id, repeat_fetch_text())
                                } else {
                                    let explanation = match get_arg(&args, "explanation") {
                                        Some(e) => e,
                                        None => String::new(),
                                    };
                                    proof {
                                        lemma_pairs_to_map_lookup(
                                            args.deep_view(),
                                            "explanation"@,
                                        );
                                    }
                                    state.pending = Some(
                                        PendingTool {
                                            tool: t,
                                            call_id: raw.call_id.clone(),
                                            explanation,
                                        },
                                    );
                                    push_deep(&mut state.executed, t);
                                    state.identify_done = state.identify_done || matches!(
                                        t,
                                        ToolName::IdentifyPool,
                                    );
                                    state.fetch_done = state.fetch_done || matches!(
                                        t,
                                        ToolName::FetchPoolData,
                                    );
                                    let act = Action::CallTool(
                                        ToolCall { name: t, args, call_id: raw.call_id },
                                    );
                                    proof {
                                        assert(state.deep_view().executed =~= spec_on_tool_request(
                                            s2,
                                            rv->Reply_0->ToolRequest_0,
                                        ).0.executed);
                                        assert((state.deep_view(), act.deep_view())
                                            =~~= spec_on_tool_request(
                                            s2,
                                            rv->Reply_0->ToolRequest_0,
                                        ));
                                    }
                                    act
                                }
                            },
                        }
                    }
                },
            };
            act
        },
    }
}

/// One step on the result of the dispatched tool.  A terminal tool ends
/// the call with the matching status; any other outcome is rendered, fed
/// back, and the model is asked again.
pub fn on_tool_result(state: &mut CallState, r: ToolResult) -> (act: Action)
    requires
        old(state).pending is Some,
    ensures
        (final(state).deep_view(), act.deep_view()) == spec_on_tool_result(
            old(state).deep_view(),
            r.deep_view(),
        ),
        !(act is CallTool),
        act is AskModel ==> final(state).pending is None,
        final(state).rounds == old(state).rounds,
        final(state).max_rounds == old(state).max_rounds,
{
    proof {
        reveal(spec_on_tool_result);
    }
    let ghost s0 = old(state).deep_view();
    let ghost rv = r.deep_view();
    let p = match &state.pending {
        Some(q) => PendingTool {
            tool: q.tool,
            call_id: q.call_id.clone(),
            explanation: q.explanation.clone(),
        },
        None => {
            proof {
                assert(false);
            }
            PendingTool {
                tool: ToolName::AnalyzeCallIdentifyPool,
                call_id: String::new(),
                explanation: String::new(),
            }
        },
    };
    state.pending = None;
    match p.tool {
        ToolName::ApproveShilling => {
            let act = match r {
                ToolResult::Success(o) => {
                    let text = match &o {
                        ToolOutcome::Trade(t) => process_shilling(p.explanation.as_str(), t),
                        _ => p.explanation.clone(),
                    };
                    Action::Done(
                        CallSuccess {
                            decision: DecisionOutcome {
                                text,
                                status: ConversationStatus::Approve,
                                artifact: Some(o),
                            },
                            appended: clone_turns(&state.new_turns),
                        },
                    )
                },
                ToolResult::UpstreamFailure => Action::Done(
                    CallSuccess {
                        decision: DecisionOutcome {
                            text: approve_failed_text().to_owned(),
                            status: ConversationStatus::ApproveFailed,
                            artifact: None,
                        },
                        appended: clone_turns(&state.new_turns),
                    },
                ),
            };
            proof {
                assert((state.deep_view(), act.deep_view()) =~~= spec_on_tool_result(s0, rv));
            }
            act
        },
        ToolName::RejectShilling => {
            let act = match r {
                ToolResult::Success(_) => Action::Done(
                    CallSuccess {
                        decision: DecisionOutcome {
                            text: p.explanation.clone(),
                            status: ConversationStatus::Reject,
                            artifact: None,
                        },
                        appended: clone_turns(&state.new_turns),
                    },
                ),
                ToolResult::UpstreamFailure => Action::Done(
                    CallSuccess {
                        decision: DecisionOutcome {
                            text: decline_text().to_owned(),
                            status: ConversationStatus::Decline,
                            artifact: None,
                        },
                        appended: clone_turns(&state.new_turns),
                    },
                ),
            };
            proof {
                assert((state.deep_view(), act.deep_view()) =~~= spec_on_tool_result(s0, rv));
            }
            act
        },
        _ => {
            let content = match &r {
                ToolResult::Success(o) => render_outcome(p.tool, o),
                ToolResult::UpstreamFailure => tool_failure_text(p.tool).to_owned(),
            };
            match &r {
                ToolResult::Success(ToolOutcome::PoolIdentified { exists, .. }) => {
                    if matches!(p.tool, ToolName::IdentifyPool) {
                        state.pool_exists = *exists;
                    }
                },
                _ => {},
            }
            let t1 = ConversationTurn::with_call_id(Role::Tool, content.clone(), p.call_id.clone());
            let t2 = ConversationTurn::with_call_id(Role::Tool, content, p.call_id);
            push_deep(&mut state.messages, t1);
            push_deep(&mut state.new_turns, t2);
            proof {
                assert(state.deep_view().messages =~= spec_on_tool_result(s0, rv).0.messages);
                assert(state.deep_view().new_turns =~= spec_on_tool_result(s0, rv).0.new_turns);
                assert((state.deep_view(), Action::AskModel.deep_view()) =~~= spec_on_tool_result(
                    s0,
                    rv,
                ));
            }
            Action::AskModel
        },
    }
}

/// One whole orchestration call over pre-determined model and tool events.
///
/// The decision logic is the same the step functions expose; this driver
/// consumes the next scripted model result wherever the model would be
/// invoked and the next scripted tool result wherever a validated tool
/// call would be executed.  A missing model reply counts as a transport
/// failure, a missing tool result as an upstream failure.
pub fn answer_users_msg(
    message: &str,
    user_address: &str,
    history: &Vec<ConversationTurn>,
    is_shilling_allowed: bool,
    max_rounds: u32,
    model_script: Vec<ModelResult>,
    tool_script: Vec<ToolResult>,
) -> (r: CallResult)
    ensures
        r.deep_view() == spec_answer_users_msg(
            message@,
            user_address@,
            history.deep_view(),
            is_shilling_allowed,
            max_rounds as nat,
            model_script.deep_view(),
            tool_script.deep_view(),
        ),
{
    let ghost ms0 = model_script.deep_view();
    let ghost ts0 = tool_script.deep_view();
    let mut models = model_script;
    let mut tools = tool_script;
    let mode = if is_shilling_allowed {
        Mode::TradingAllowed
    } else {
        Mode::TradingNotAllowed
    };
    let mut state = start(mode, max_rounds, history, message, user_address);
    let ghost target = spec_run_from(state.deep_view(), ms0, ts0);
    proof {
        assert(target == spec_answer_users_msg(
            message@,
            user_address@,
            history.deep_view(),
            is_shilling_allowed,
            max_rounds as nat,
            ms0,
            ts0,
        ));
    }
    loop
        invariant
            state.pending is None,
            state.rounds <= state.max_rounds,
            spec_run_from(state.deep_view(), models.deep_view(), tools.deep_view()) == target,
            target == spec_answer_users_msg(
                message@,
                user_address@,
                history.deep_view(),
                is_shilling_allowed,
                max_rounds as nat,
                ms0,
                ts0,
            ),
            ms0 == model_script.deep_view(),
            ts0 == tool_script.deep_view(),
        decreases models.len(),
    {
        if state.rounds >= state.max_rounds {
            let r = CallResult {
                outcome: CallOutcome::Failure(CallError::LoopBoundExceeded),
                executed: copy_tools(&state.executed),
            };
            proof {
                assert(r.deep_view() =~~= target);
            }
            return r;
        }
        if models.len() == 0 {
            let r = CallResult {
                outcome: CallOutcome::Failure(
                    CallError::ModelBackendFailure(BackendFailure::Transport),
                ),
                executed: copy_tools(&state.executed),
            };
            proof {
                assert(r.deep_view() =~~= target);
            }
            return r;
        }
        let ghost ms_pre = models.deep_view();
        let ghost ts_pre = tools.deep_view();
        let ghost s_pre = state.deep_view();
        let ev = take_first(&mut models);
        let act = on_model_reply(&mut state, ev);
        match act {
            Action::Failed(e) => {
                let r = CallResult {
                    outcome: CallOutcome::Failure(e),
                    executed: copy_tools(&state.executed),
                };
                proof {
                    assert(r.deep_view() =~~= target);
                }
                return r;
            },
            Action::Done(succ) => {
                let r = CallResult {
                    outcome: CallOutcome::Success(succ),
                    executed: copy_tools(&state.executed),
                };
                proof {
                    assert(r.deep_view() =~~= target);
                }
                return r;
            },
            Action::AskModel => {
                proof {
                    assert(spec_run_from(state.deep_view(), models.deep_view(), tools.deep_view())
                        == target);
                }
            },
            Action::CallTool(_) => {
                let tr = if tools.len() == 0 {
                    ToolResult::UpstreamFailure
                } else {
                    take_first(&mut tools)
                };
                let act2 = on_tool_result(&mut state, tr);
                match act2 {
                    Action::Failed(e) => {
                        let r = CallResult {
                            outcome: CallOutcome::Failure(e),
                            executed: copy_tools(&state.executed),
                        };
                        proof {
                            assert(r.deep_view() =~~= target);
                        }
                        return r;
                    },
                    Action::Done(succ) => {
                        let r = CallResult {
                            outcome: CallOutcome::Success(succ),
                            executed: copy_tools(&state.executed),
                        };
                        proof {
                            assert(r.deep_view() =~~= target);
                        }
                        return r;
                    },
                    Action::AskModel => {
                        proof {
                            assert(spec_run_from(
                                state.deep_view(),
                                models.deep_view(),
                                tools.deep_view(),
                            ) == target);
                        }
                    },
                    Action::CallTool(_) => {
                        proof {
                            assert(false);
                        }
                        let r = CallResult {
                            outcome: CallOutcome::Failure(CallError::LoopBoundExceeded),
                            executed: Vec::new(),
                        };
                        return r;
                    },
                }
            },
        }
    }
}

/// How a raw tool call resolves against the catalog of `mode`.
pub open spec fn spec_parse_tool_call(raw: SpecRawToolCall, mode: Mode) -> Result<
    SpecToolCall,
    crate::errors::ToolError,
> {
    match spec_tool_name_of(raw.name) {
        None => Err(crate::errors::ToolError::UnknownTool),
        Some(t) => if !spec_catalog_allows(mode, t) {
            Err(crate::errors::ToolError::UnknownTool)
        } else {
            match json_string_entries(raw.arguments) {
                None => Err(crate::errors::ToolError::InvalidArguments),
                Some(m) => if !spec_required_ok(t, m) {
                    Err(crate::errors::ToolError::InvalidArguments)
                } else {
                    Ok(SpecToolCall { name: t, args: m, call_id: raw.call_id })
                },
            }
        },
    }
}

/// Resolves a raw tool call as the model emitted it: the wire name against
/// the catalog of `mode`, and the JSON argument payload against the
/// declared required parameters.  An unknown or impermissible name is an
/// unknown tool; an undecodable payload or a missing required parameter
/// is an invalid-arguments error.
pub fn parse_tool_call(raw: &RawToolCall, mode: Mode) -> (r: Result<
    ToolCall,
    crate::errors::ToolError,
>)
    ensures
        (match r {
            Ok(c) => spec_parse_tool_call(raw.deep_view(), mode) == Ok::<
                SpecToolCall,
                crate::errors::ToolError,
            >(c.deep_view()),
            Err(e) => spec_parse_tool_call(raw.deep_view(), mode) == Err::<
                SpecToolCall,
                crate::errors::ToolError,
            >(e),
        }),
{
    match tool_name_of(raw.name.as_str()) {
        None => Err(crate::errors::ToolError::UnknownTool),
        Some(t) => {
            if !catalog_allows(mode, t) {
                Err(crate::errors::ToolError::UnknownTool)
            } else {
                match parse_arguments(raw.arguments.as_str()) {
                    None => Err(crate::errors::ToolError::InvalidArguments),
                    Some(args) => {
                        if !check_required(t, &args) {
                            Err(crate::errors::ToolError::InvalidArguments)
                        } else {
                            Ok(ToolCall { name: t, args, call_id: raw.call_id.clone() })
                        }
                    },
                }
            }
        },
    }
}

} // verus!
