//! The conversation laws: properties of every orchestration call, proved
//! over the interpreter the driver is specified against.

use vstd::prelude::*;
use crate::types::{Mode, SpecTurn, ToolName};
use crate::errors::{BackendFailure, CallError};
use crate::model::SpecModelResult;
use crate::actions::SpecToolResult;
use crate::orchestrator::{
    spec_answer_users_msg, spec_on_model_reply, spec_on_tool_request, spec_on_tool_result,
    spec_run_from, spec_start, SpecAction, SpecCallOutcome, SpecCallResult, SpecCallState,
};
use crate::prompts::spec_catalog_allows;

verus! {

/// How often tool `t` occurs in the dispatch trace `s`.
pub open spec fn count_tool(s: Seq<ToolName>, t: ToolName) -> nat
    decreases s.len(),
{
    if s.len() == 0 {
        0
    } else {
        (if s[0] == t {
            1nat
        } else {
            0nat
        }) + count_tool(s.drop_first(), t)
    }
}

/// Whether tool `t` occurs in the dispatch trace `s`.
pub open spec fn has_tool(s: Seq<ToolName>, t: ToolName) -> bool
    decreases s.len(),
{
    if s.len() == 0 {
        false
    } else {
        s[0] == t || has_tool(s.drop_first(), t)
    }
}

/// The dispatch rules, replayed over a trace: every dispatched tool is
/// offered by the catalog of `mode`, and analytics are fetched only after
/// a pool identification and only once.  The accumulators carry whether
/// an identification and a fetch have been seen before the trace starts.
pub open spec fn trace_wf(s: Seq<ToolName>, mode: Mode, identify_done: bool, fetch_done: bool) -> bool
    decreases s.len(),
{
    if s.len() == 0 {
        true
    } else {
        &&& spec_catalog_allows(mode, s[0])
        &&& (s[0] is FetchPoolData ==> identify_done && !fetch_done)
        &&& trace_wf(
            s.drop_first(),
            mode,
            identify_done || s[0] is IdentifyPool,
            fetch_done || s[0] is FetchPoolData,
        )
    }
}

/// The well-formedness the orchestration state keeps across steps: the
/// dispatch trace respects the rules, the two flags record exactly what
/// the trace holds, and the pending tool is offered by the catalog.
pub open spec fn call_wf(s: SpecCallState) -> bool {
    &&& trace_wf(s.executed, s.mode, false, false)
    &&& s.identify_done == has_tool(s.executed, ToolName::IdentifyPool)
    &&& s.fetch_done == has_tool(s.executed, ToolName::FetchPoolData)
    &&& (s.pending matches Some(p) ==> spec_catalog_allows(s.mode, p.tool))
}

proof fn lemma_has_tool_push(s: Seq<ToolName>, t: ToolName, x: ToolName)
    ensures
        has_tool(s.push(t), x) == (has_tool(s, x) || t == x),
    decreases s.len(),
{
    reveal_with_fuel(has_tool, 3);
    if s.len() == 0 {
        assert(s.push(t)[0] == t);
        assert(s.push(t).drop_first() =~= Seq::<ToolName>::empty());
    } else {
        assert(s.push(t)[0] == s[0]);
        assert(s.push(t).drop_first() =~= s.drop_first().push(t));
        lemma_has_tool_push(s.drop_first(), t, x);
    }
}

proof fn lemma_trace_wf_push(s: Seq<ToolName>, t: ToolName, mode: Mode, i0: bool, f0: bool)
    requires
        trace_wf(s, mode, i0, f0),
        spec_catalog_allows(mode, t),
        t is FetchPoolData ==> (i0 || has_tool(s, ToolName::IdentifyPool)) && !(f0 || has_tool(
            s,
            ToolName::FetchPoolData,
        )),
    ensures
        trace_wf(s.push(t), mode, i0, f0),
    decreases s.len(),
{
    reveal_with_fuel(trace_wf, 3);
    reveal_with_fuel(has_tool, 3);
    if s.len() == 0 {
        assert(s.push(t)[0] == t);
        assert(s.push(t).drop_first() =~= Seq::<ToolName>::empty());
    } else {
        assert(s.push(t)[0] == s[0]);
        assert(s.push(t).drop_first() =~= s.drop_first().push(t));
        lemma_trace_wf_push(
            s.drop_first(),
            t,
            mode,
            i0 || s[0] is IdentifyPool,
            f0 || s[0] is FetchPoolData,
        );
    }
}

/// A well-formed trace fetches analytics at most once (not at all if a
/// fetch already happened before it).
proof fn lemma_trace_count(s: Seq<ToolName>, mode: Mode, i0: bool, f0: bool)
    requires
        trace_wf(s, mode, i0, f0),
    ensures
        count_tool(s, ToolName::FetchPoolData) <= if f0 {
            0nat
        } else {
            1nat
        },
    decreases s.len(),
{
    if s.len() == 0 {
    } else {
        lemma_trace_count(
            s.drop_first(),
            mode,
            i0 || s[0] is IdentifyPool,
            f0 || s[0] is FetchPoolData,
        );
    }
}

/// In a well-formed trace every analytics fetch is preceded by a pool
/// identification (or one had already happened before the trace).
proof fn lemma_trace_order(s: Seq<ToolName>, mode: Mode, i0: bool, f0: bool)
    requires
        trace_wf(s, mode, i0, f0),
    ensures
        forall|i: int|
            0 <= i < s.len() && (#[trigger] s[i]) is FetchPoolData ==> i0 || exists|j: int|
                0 <= j < i && (#[trigger] s[j]) is IdentifyPool,
    decreases s.len(),
{
    if s.len() == 0 {
    } else {
        let tail = s.drop_first();
        let i0p = i0 || s[0] is IdentifyPool;
        lemma_trace_order(tail, mode, i0p, f0 || s[0] is FetchPoolData);
        assert forall|i: int| 0 <= i < s.len() && (#[trigger] s[i]) is FetchPoolData implies i0
            || exists|j: int| 0 <= j < i && (#[trigger] s[j]) is IdentifyPool by {
            if i == 0 {
                assert(i0);
            } else {
                assert(tail[i - 1] == s[i]);
                if i0p {
                    if !i0 {
                        assert(s[0] is IdentifyPool);
                    }
                } else {
                    let jp = choose|jp: int|
                        0 <= jp < i - 1 && (#[trigger] tail[jp]) is IdentifyPool;
                    assert(tail[jp] == s[jp + 1]);
                    assert(s[jp + 1] is IdentifyPool);
                }
            }
        }
    }
}

/// A tool the catalog does not offer never occurs in a well-formed trace.
proof fn lemma_trace_absent(s: Seq<ToolName>, mode: Mode, t: ToolName, i0: bool, f0: bool)
    requires
        trace_wf(s, mode, i0, f0),
        !spec_catalog_allows(mode, t),
    ensures
        !has_tool(s, t),
    decreases s.len(),
{
    if s.len() == 0 {
    } else {
        lemma_trace_absent(
            s.drop_first(),
            mode,
            t,
            i0 || s[0] is IdentifyPool,
            f0 || s[0] is FetchPoolData,
        );
    }
}

proof fn lemma_model_step(s: SpecCallState, r: SpecModelResult)
    requires
        call_wf(s),
        s.pending is None,
    ensures
        call_wf(spec_on_model_reply(s, r).0),
        spec_on_model_reply(s, r).0.mode == s.mode,
        spec_on_model_reply(s, r).1 is CallTool ==> spec_on_model_reply(s, r).0.pending is Some,
        spec_on_model_reply(s, r).1 is AskModel ==> spec_on_model_reply(s, r).0.pending is None,
        spec_on_model_reply(s, r).1 matches SpecAction::Done(succ) ==> (
        succ.decision.status is Discuss || succ.decision.status is ReadyToShilling),
{
    reveal(spec_on_model_reply);
    reveal(spec_on_tool_request);
    match r {
        SpecModelResult::Failure(_) => {},
        SpecModelResult::Reply(reply) => match reply {
            crate::model::SpecModelReply::Content(_) => {},
            crate::model::SpecModelReply::ToolRequest(raw) => {
                match crate::util::spec_tool_name_of(raw.name) {
                    None => {},
                    Some(t) => {
                        if spec_catalog_allows(s.mode, t) {
                            match crate::util::json_string_entries(raw.arguments) {
                                None => {},
                                Some(m) => {
                                    if crate::orchestrator::spec_required_ok(t, m) && !(
                                    t is FetchPoolData && !s.identify_done) && !(t is FetchPoolData
                                        && s.fetch_done) {
                                        lemma_trace_wf_push(s.executed, t, s.mode, false, false);
                                        lemma_has_tool_push(s.executed, t, ToolName::IdentifyPool);
                                        lemma_has_tool_push(s.executed, t, ToolName::FetchPoolData);
                                    }
                                },
                            }
                        }
                    },
                }
            },
        },
    }
}

proof fn lemma_tool_step(s: SpecCallState, r: SpecToolResult)
    requires
        call_wf(s),
        s.pending is Some,
    ensures
        call_wf(spec_on_tool_result(s, r).0),
        spec_on_tool_result(s, r).0.mode == s.mode,
        spec_on_tool_result(s, r).0.executed == s.executed,
        !(spec_on_tool_result(s, r).1 is CallTool),
        spec_on_tool_result(s, r).1 is AskModel ==> spec_on_tool_result(s, r).0.pending is None,
{
    reveal(spec_on_tool_result);
}

proof fn lemma_tool_step_status(s: SpecCallState, r: SpecToolResult)
    requires
        call_wf(s),
        s.pending is Some,
    ensures
        spec_on_tool_result(s, r).1 matches SpecAction::Done(succ) ==> ((
        succ.decision.status is Approve || succ.decision.status is ApproveFailed)
            ==> spec_catalog_allows(s.mode, ToolName::ApproveShilling)),
        spec_on_tool_result(s, r).1 matches SpecAction::Done(succ) ==> ((
        succ.decision.status is Reject || succ.decision.status is Decline)
            ==> spec_catalog_allows(s.mode, ToolName::RejectShilling)),
{
    reveal(spec_on_tool_result);
}

/// The dispatch trace of a whole run obeys the dispatch rules.
proof fn lemma_run_from_wf(
    s: SpecCallState,
    models: Seq<SpecModelResult>,
    tools: Seq<SpecToolResult>,
)
    requires
        call_wf(s),
        s.pending is None,
    ensures
        trace_wf(spec_run_from(s, models, tools).executed, s.mode, false, false),
    decreases models.len(),
{
    if s.rounds >= s.max_rounds {
    } else if models.len() == 0 {
    } else {
        let (s1, act) = spec_on_model_reply(s, models[0]);
        lemma_model_step(s, models[0]);
        match act {
            SpecAction::Failed(_) => {},
            SpecAction::Done(_) => {},
            SpecAction::AskModel => {
                lemma_run_from_wf(s1, models.drop_first(), tools);
            },
            SpecAction::CallTool(_) => {
                let tr = if tools.len() == 0 {
                    SpecToolResult::UpstreamFailure
                } else {
                    tools[0]
                };
                let tools2 = if tools.len() == 0 {
                    tools
                } else {
                    tools.drop_first()
                };
                let (s2, act2) = spec_on_tool_result(s1, tr);
                lemma_tool_step(s1, tr);
                match act2 {
                    SpecAction::Failed(_) => {},
                    SpecAction::Done(_) => {},
                    SpecAction::AskModel => {
                        lemma_run_from_wf(s2, models.drop_first(), tools2);
                    },
                    SpecAction::CallTool(_) => {},
                }
            },
        }
    }
}

/// No run whose catalog lacks a terminal trade tool ever produces the
/// matching terminal status.
proof fn lemma_run_from_status(
    s: SpecCallState,
    models: Seq<SpecModelResult>,
    tools: Seq<SpecToolResult>,
)
    requires
        call_wf(s),
        s.pending is None,
    ensures
        spec_run_from(s, models, tools).outcome matches SpecCallOutcome::Success(succ) ==> ((
        succ.decision.status is Approve || succ.decision.status is ApproveFailed)
            ==> spec_catalog_allows(s.mode, ToolName::ApproveShilling)),
        spec_run_from(s, models, tools).outcome matches SpecCallOutcome::Success(succ) ==> ((
        succ.decision.status is Reject || succ.decision.status is Decline)
            ==> spec_catalog_allows(s.mode, ToolName::RejectShilling)),
    decreases models.len(),
{
    if s.rounds >= s.max_rounds {
    } else if models.len() == 0 {
    } else {
        let (s1, act) = spec_on_model_reply(s, models[0]);
        lemma_model_step(s, models[0]);
        match act {
            SpecAction::Failed(_) => {},
            SpecAction::Done(_) => {},
            SpecAction::AskModel => {
                lemma_run_from_status(s1, models.drop_first(), tools);
            },
            SpecAction::CallTool(_) => {
                let tr = if tools.len() == 0 {
                    SpecToolResult::UpstreamFailure
                } else {
                    tools[0]
                };
                let tools2 = if tools.len() == 0 {
                    tools
                } else {
                    tools.drop_first()
                };
                let (s2, act2) = spec_on_tool_result(s1, tr);
                lemma_tool_step(s1, tr);
                lemma_tool_step_status(s1, tr);
                match act2 {
                    SpecAction::Failed(_) => {},
                    SpecAction::Done(_) => {},
                    SpecAction::AskModel => {
                        lemma_run_from_status(s2, models.drop_first(), tools2);
                    },
                    SpecAction::CallTool(_) => {},
                }
            },
        }
    }
}

proof fn lemma_start_wf(
    mode: Mode,
    max_rounds: nat,
    history: Seq<SpecTurn>,
    message: Seq<char>,
    user_wallet: Seq<char>,
)
    ensures
        call_wf(spec_start(mode, max_rounds, history, message, user_wallet)),
        spec_start(mode, max_rounds, history, message, user_wallet).pending is None,
        spec_start(mode, max_rounds, history, message, user_wallet).mode == mode,
{
}

/// Every call produces exactly one status, and it is one of the six
/// defined values.
pub proof fn lemma_exactly_one_status(
    message: Seq<char>,
    user_wallet: Seq<char>,
    history: Seq<SpecTurn>,
    is_shilling_allowed: bool,
    max_rounds: nat,
    models: Seq<SpecModelResult>,
    tools: Seq<SpecToolResult>,
)
    ensures
        spec_answer_users_msg(
            message,
            user_wallet,
            history,
            is_shilling_allowed,
            max_rounds,
            models,
            tools,
        ).outcome matches SpecCallOutcome::Success(succ) ==> {
            let st = succ.decision.status;
            st is Approve || st is ApproveFailed || st is Decline || st is Reject || st is Discuss
                || st is ReadyToShilling
        },
{
}

/// Analytics are fetched at most once per call, whatever the model
/// requests, even a second request in the same call.
pub proof fn lemma_fetch_pool_data_at_most_once(
    message: Seq<char>,
    user_wallet: Seq<char>,
    history: Seq<SpecTurn>,
    is_shilling_allowed: bool,
    max_rounds: nat,
    models: Seq<SpecModelResult>,
    tools: Seq<SpecToolResult>,
)
    ensures
        count_tool(
            spec_answer_users_msg(
                message,
                user_wallet,
                history,
                is_shilling_allowed,
                max_rounds,
                models,
                tools,
            ).executed,
            ToolName::FetchPoolData,
        ) <= 1,
{
    let mode = if is_shilling_allowed {
        Mode::TradingAllowed
    } else {
        Mode::TradingNotAllowed
    };
    let s0 = spec_start(mode, max_rounds, history, message, user_wallet);
    lemma_start_wf(mode, max_rounds, history, message, user_wallet);
    lemma_run_from_wf(s0, models, tools);
    lemma_trace_count(spec_run_from(s0, models, tools).executed, mode, false, false);
}

/// A pool identification strictly precedes any analytics fetch in the
/// dispatch trace of the same call; a premature analytics request is
/// never dispatched.
pub proof fn lemma_identify_pool_precedes_fetch(
    message: Seq<char>,
    user_wallet: Seq<char>,
    history: Seq<SpecTurn>,
    is_shilling_allowed: bool,
    max_rounds: nat,
    models: Seq<SpecModelResult>,
    tools: Seq<SpecToolResult>,
)
    ensures
        ({
            let executed = spec_answer_users_msg(
                message,
                user_wallet,
                history,
                is_shilling_allowed,
                max_rounds,
                models,
                tools,
            ).executed;
            forall|i: int|
                0 <= i < executed.len() && (#[trigger] executed[i]) is FetchPoolData
                    ==> exists|j: int| 0 <= j < i && (#[trigger] executed[j]) is IdentifyPool
        }),
{
    let mode = if is_shilling_allowed {
        Mode::TradingAllowed
    } else {
        Mode::TradingNotAllowed
    };
    let s0 = spec_start(mode, max_rounds, history, message, user_wallet);
    lemma_start_wf(mode, max_rounds, history, message, user_wallet);
    lemma_run_from_wf(s0, models, tools);
    lemma_trace_order(spec_run_from(s0, models, tools).executed, mode, false, false);
}

/// When trading is not allowed, no call ever produces an `Approve` or
/// `Reject` decision, and no terminal trade tool is ever dispatched: the
/// active catalog does not offer them.
pub proof fn lemma_no_trade_decision_when_not_allowed(
    message: Seq<char>,
    user_wallet: Seq<char>,
    history: Seq<SpecTurn>,
    max_rounds: nat,
    models: Seq<SpecModelResult>,
    tools: Seq<SpecToolResult>,
)
    ensures
        spec_answer_users_msg(message, user_wallet, history, false, max_rounds, models, tools)
            .outcome matches SpecCallOutcome::Success(succ) ==> !(succ.decision.status is Approve)
            && !(succ.decision.status is Reject),
        !has_tool(
            spec_answer_users_msg(
                message,
                user_wallet,
                history,
                false,
                max_rounds,
                models,
                tools,
            ).executed,
            ToolName::ApproveShilling,
        ),
        !has_tool(
            spec_answer_users_msg(
                message,
                user_wallet,
                history,
                false,
                max_rounds,
                models,
                tools,
            ).executed,
            ToolName::RejectShilling,
        ),
{
    let s0 = spec_start(Mode::TradingNotAllowed, max_rounds, history, message, user_wallet);
    lemma_start_wf(Mode::TradingNotAllowed, max_rounds, history, message, user_wallet);
    lemma_run_from_wf(s0, models, tools);
    lemma_run_from_status(s0, models, tools);
    lemma_trace_absent(
        spec_run_from(s0, models, tools).executed,
        Mode::TradingNotAllowed,
        ToolName::ApproveShilling,
        false,
        false,
    );
    lemma_trace_absent(
        spec_run_from(s0, models, tools).executed,
        Mode::TradingNotAllowed,
        ToolName::RejectShilling,
        false,
        false,
    );
}

/// Idempotence: two calls on identical session state and identical
/// scripted model and tool behaviour produce identical results — the same
/// decision and the same appended turns, so the history grows by the same
/// number of turns each time.
pub proof fn lemma_orchestration_deterministic(
    message: Seq<char>,
    user_wallet: Seq<char>,
    history: Seq<SpecTurn>,
    is_shilling_allowed: bool,
    max_rounds: nat,
    models: Seq<SpecModelResult>,
    tools: Seq<SpecToolResult>,
    r1: SpecCallResult,
    r2: SpecCallResult,
)
    requires
        r1 == spec_answer_users_msg(
            message,
            user_wallet,
            history,
            is_shilling_allowed,
            max_rounds,
            models,
            tools,
        ),
        r2 == spec_answer_users_msg(
            message,
            user_wallet,
            history,
            is_shilling_allowed,
            max_rounds,
            models,
            tools,
        ),
    ensures
        r1 == r2,
{
}

/// A backend failure on the first model invocation surfaces as a
/// call-level error with an empty dispatch trace; nothing is ever
/// appended to the session history, because only a successful outcome
/// carries turns to append.
pub proof fn lemma_backend_failure_aborts_call(
    message: Seq<char>,
    user_wallet: Seq<char>,
    history: Seq<SpecTurn>,
    is_shilling_allowed: bool,
    max_rounds: nat,
    models: Seq<SpecModelResult>,
    tools: Seq<SpecToolResult>,
    f: BackendFailure,
)
    requires
        max_rounds > 0,
        models.len() > 0,
        models[0] == SpecModelResult::Failure(f),
    ensures
        spec_answer_users_msg(
            message,
            user_wallet,
            history,
            is_shilling_allowed,
            max_rounds,
            models,
            tools,
        ).outcome == SpecCallOutcome::Failure(CallError::ModelBackendFailure(f)),
        spec_answer_users_msg(
            message,
            user_wallet,
            history,
            is_shilling_allowed,
            max_rounds,
            models,
            tools,
        ).executed =~= Seq::<ToolName>::empty(),
{
    reveal(spec_on_model_reply);
}

} // verus!
