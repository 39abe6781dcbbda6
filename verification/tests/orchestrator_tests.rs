//! Scenario tests for the conversation orchestrator, driven by scripted
//! model and tool events.

use kaja_engine::actions::{PoolAnalytics, ToolOutcome, ToolResult, TradeArtifact};
use kaja_engine::errors::{BackendFailure, CallError, ToolError};
use kaja_engine::model::{ModelReply, ModelResult, RawToolCall};
use kaja_engine::orchestrator::{answer_users_msg, parse_tool_call, CallOutcome, CallResult};
use kaja_engine::types::{ConversationStatus, ConversationTurn, Mode, Role, ToolName};

fn tool_request(name: &str, arguments: &str, call_id: &str) -> ModelResult {
    ModelResult::Reply(ModelReply::ToolRequest(RawToolCall {
        name: name.to_string(),
        arguments: arguments.to_string(),
        call_id: call_id.to_string(),
    }))
}

fn content(text: &str) -> ModelResult {
    ModelResult::Reply(ModelReply::Content(text.to_string()))
}

fn analytics() -> PoolAnalytics {
    PoolAnalytics {
        liquidity_usd: 250000,
        volume_24h_usd: 91000,
        market_cap_usd: 1200000,
        pair_created_at: "2024-11-02T10:00:00Z".to_string(),
        fdv_usd: 1500000,
        buys_24h: 420,
        sells_24h: 180,
        pair_address: "PoolPairAddr111".to_string(),
        token_already_in_portfolio: false,
        traded_last_hour: false,
        sufficient_balance: true,
    }
}

fn trade() -> TradeArtifact {
    TradeArtifact {
        amount_in: "0.0001".to_string(),
        token_in: "SOL".to_string(),
        amount_out: "140000".to_string(),
        token_symbol: "MEME".to_string(),
        token_address: "TokenAddr111".to_string(),
        tx_id: "TxSig111".to_string(),
        fee: "0.000005".to_string(),
    }
}

fn run(
    allowed: bool,
    models: Vec<ModelResult>,
    tools: Vec<ToolResult>,
) -> CallResult {
    let history: Vec<ConversationTurn> = Vec::new();
    answer_users_msg("check this token", "UserWallet111", &history, allowed, 4, models, tools)
}

#[test]
fn scenario_content_only_discusses() {
    // Trading allowed, the model immediately answers with literal content.
    let r = run(true, vec![content("Let's talk markets.")], vec![]);
    match r.outcome {
        CallOutcome::Success(s) => {
            assert_eq!(s.decision.status, ConversationStatus::Discuss);
            assert_eq!(s.decision.text, "Let's talk markets.");
            assert!(s.decision.artifact.is_none());
            // history grows by exactly two turns: user + assistant
            assert_eq!(s.appended.len(), 2);
            assert_eq!(s.appended[0].role, Role::User);
            assert_eq!(s.appended[0].content, "check this token");
            assert_eq!(s.appended[1].role, Role::Assistant);
            assert_eq!(s.appended[1].content, "Let's talk markets.");
        }
        CallOutcome::Failure(_) => panic!("expected success"),
    }
    assert!(r.executed.is_empty());
}

#[test]
fn scenario_identify_fetch_approve() {
    let models = vec![
        tool_request(
            "identifyPool",
            "{\"pool_or_token_address\":\"ATo9ZGSUxFuaPmo51L9NErJLeVAxe86n9dEhADTW9Emo\"}",
            "c1",
        ),
        tool_request("fetch_pool_data", "{\"token_address\":\"TokenAddr111\"}", "c2"),
        tool_request(
            "approveShilling",
            "{\"explanation\":\"liquidity strong\",\"poolAddress\":\"PoolPairAddr111\"}",
            "c3",
        ),
    ];
    let tools = vec![
        ToolResult::Success(ToolOutcome::PoolIdentified {
            pool_address: "PoolPairAddr111".to_string(),
            exists: true,
        }),
        ToolResult::Success(ToolOutcome::Analytics(analytics())),
        ToolResult::Success(ToolOutcome::Trade(trade())),
    ];
    let r = run(true, models, tools);
    match r.outcome {
        CallOutcome::Success(s) => {
            assert_eq!(s.decision.status, ConversationStatus::Approve);
            assert!(s.decision.text.starts_with("liquidity strong"));
            match s.decision.artifact {
                Some(ToolOutcome::Trade(t)) => assert_eq!(t.tx_id, "TxSig111"),
                _ => panic!("expected the trade artifact"),
            }
        }
        CallOutcome::Failure(_) => panic!("expected success"),
    }
    assert_eq!(
        r.executed,
        vec![ToolName::IdentifyPool, ToolName::FetchPoolData, ToolName::ApproveShilling]
    );
    let fetches = r.executed.iter().filter(|t| **t == ToolName::FetchPoolData).count();
    assert_eq!(fetches, 1);
}

#[test]
fn scenario_premature_fetch_is_refused() {
    // fetch_pool_data before identifyPool: the analytics collaborator is
    // never called and the model gets an ordering-violation message.
    let models = vec![
        tool_request("fetch_pool_data", "{\"token_address\":\"TokenAddr111\"}", "c1"),
        content("Understood."),
    ];
    let tools = vec![ToolResult::Success(ToolOutcome::Analytics(analytics()))];
    let r = run(true, models, tools);
    assert!(r.executed.is_empty());
    match r.outcome {
        CallOutcome::Success(s) => {
            assert_eq!(s.decision.status, ConversationStatus::Discuss);
            let feedback = s
                .appended
                .iter()
                .find(|t| t.role == Role::Tool)
                .expect("a feedback tool turn");
            assert!(feedback.content.contains("only after identifyPool"));
        }
        CallOutcome::Failure(_) => panic!("expected success"),
    }
}

#[test]
fn scenario_second_fetch_is_refused() {
    let models = vec![
        tool_request("identifyPool", "{\"pool_or_token_address\":\"Addr\"}", "c1"),
        tool_request("fetch_pool_data", "{\"token_address\":\"T\"}", "c2"),
        tool_request("fetch_pool_data", "{\"token_address\":\"T\"}", "c3"),
        content("done"),
    ];
    let tools = vec![
        ToolResult::Success(ToolOutcome::PoolIdentified {
            pool_address: "P".to_string(),
            exists: true,
        }),
        ToolResult::Success(ToolOutcome::Analytics(analytics())),
        // a second analytics response sits ready but must never be consumed
        ToolResult::Success(ToolOutcome::Analytics(analytics())),
    ];
    let r = answer_users_msg("msg", "w", &Vec::new(), true, 8, models, tools);
    let fetches = r.executed.iter().filter(|t| **t == ToolName::FetchPoolData).count();
    assert_eq!(fetches, 1);
    match r.outcome {
        CallOutcome::Success(s) => {
            assert_eq!(s.decision.status, ConversationStatus::Discuss);
            assert!(s
                .appended
                .iter()
                .any(|t| t.role == Role::Tool && t.content.contains("already fetched")));
        }
        CallOutcome::Failure(_) => panic!("expected success"),
    }
}

#[test]
fn scenario_backend_failure_aborts() {
    let r = run(true, vec![ModelResult::Failure(BackendFailure::QuotaExhausted)], vec![]);
    match r.outcome {
        CallOutcome::Failure(CallError::ModelBackendFailure(BackendFailure::QuotaExhausted)) => {}
        _ => panic!("expected a backend failure"),
    }
    // nothing was dispatched, and a failure carries no turns to append
    assert!(r.executed.is_empty());
}

#[test]
fn scenario_identical_runs_are_identical() {
    let mk_models = || vec![
        tool_request("identifyPool", "{\"pool_or_token_address\":\"Addr\"}", "c1"),
        content("pool looks fine"),
    ];
    let mk_tools = || vec![ToolResult::Success(ToolOutcome::PoolIdentified {
        pool_address: "P".to_string(),
        exists: true,
    })];
    let r1 = run(true, mk_models(), mk_tools());
    let r2 = run(true, mk_models(), mk_tools());
    assert_eq!(r1.executed, r2.executed);
    match (r1.outcome, r2.outcome) {
        (CallOutcome::Success(a), CallOutcome::Success(b)) => {
            assert_eq!(a.decision.status, b.decision.status);
            assert_eq!(a.decision.text, b.decision.text);
            assert_eq!(a.appended.len(), b.appended.len());
            for (x, y) in a.appended.iter().zip(b.appended.iter()) {
                assert_eq!(x.role, y.role);
                assert_eq!(x.content, y.content);
            }
        }
        _ => panic!("expected two successes"),
    }
}

#[test]
fn terminal_tools_unreachable_when_not_allowed() {
    // the model tries to approve anyway; the catalog has no such tool
    let models = vec![tool_request(
        "approveShilling",
        "{\"explanation\":\"x\",\"poolAddress\":\"P\"}",
        "c1",
    )];
    let tools = vec![ToolResult::Success(ToolOutcome::Trade(trade()))];
    let r = run(false, models, tools);
    assert!(r.executed.is_empty());
    match r.outcome {
        CallOutcome::Success(s) => {
            assert_eq!(s.decision.status, ConversationStatus::Discuss);
            assert!(s.decision.text.contains("not available"));
        }
        CallOutcome::Failure(_) => panic!("expected success"),
    }
}

#[test]
fn ready_to_shilling_after_verified_pool() {
    let models = vec![
        tool_request("identifyPool", "{\"pool_or_token_address\":\"Addr\"}", "c1"),
        content("The pool exists; click the button to pay."),
    ];
    let tools = vec![ToolResult::Success(ToolOutcome::PoolIdentified {
        pool_address: "P".to_string(),
        exists: true,
    })];
    let r = run(false, models, tools);
    match r.outcome {
        CallOutcome::Success(s) => {
            assert_eq!(s.decision.status, ConversationStatus::ReadyToShilling);
        }
        CallOutcome::Failure(_) => panic!("expected success"),
    }
}

#[test]
fn unknown_tool_aborts_to_discuss() {
    let r = run(true, vec![tool_request("mintLambo", "{}", "c1")], vec![]);
    match r.outcome {
        CallOutcome::Success(s) => {
            assert_eq!(s.decision.status, ConversationStatus::Discuss);
            assert!(s.decision.text.contains("not available"));
        }
        CallOutcome::Failure(_) => panic!("expected success"),
    }
    assert!(r.executed.is_empty());
}

#[test]
fn malformed_arguments_are_fed_back() {
    let models = vec![
        tool_request("identifyPool", "this is not json", "c1"),
        content("sorry"),
    ];
    let r = run(true, models, vec![]);
    assert!(r.executed.is_empty());
    match r.outcome {
        CallOutcome::Success(s) => {
            assert!(s
                .appended
                .iter()
                .any(|t| t.role == Role::Tool && t.content.contains("Invalid tool arguments")));
        }
        CallOutcome::Failure(_) => panic!("expected success"),
    }
}

#[test]
fn missing_required_parameter_is_fed_back() {
    let models = vec![
        tool_request("approveShilling", "{\"explanation\":\"x\"}", "c1"),
        content("sorry"),
    ];
    let r = run(true, models, vec![]);
    assert!(r.executed.is_empty());
}

#[test]
fn loop_bound_is_enforced() {
    let models = vec![
        tool_request("identifyPool", "{\"pool_or_token_address\":\"Addr\"}", "c1"),
        tool_request("retrieveCurrentPortfolio", "{}", "c2"),
    ];
    let tools = vec![
        ToolResult::Success(ToolOutcome::PoolIdentified {
            pool_address: "P".to_string(),
            exists: true,
        }),
        ToolResult::Success(ToolOutcome::Portfolio {
            tokens: Vec::new(),
            agent_wallet: "AgentWallet".to_string(),
        }),
    ];
    let r = answer_users_msg("msg", "w", &Vec::new(), true, 1, models, tools);
    match r.outcome {
        CallOutcome::Failure(CallError::LoopBoundExceeded) => {}
        _ => panic!("expected the loop bound to end the call"),
    }
}

#[test]
fn upstream_tool_failure_is_reported_to_model() {
    let models = vec![
        tool_request("identifyPool", "{\"pool_or_token_address\":\"Addr\"}", "c1"),
        tool_request("fetch_pool_data", "{\"token_address\":\"T\"}", "c2"),
        content("could not analyze"),
    ];
    let tools = vec![
        ToolResult::Success(ToolOutcome::PoolIdentified {
            pool_address: "P".to_string(),
            exists: true,
        }),
        ToolResult::UpstreamFailure,
    ];
    let r = run(true, models, tools);
    match r.outcome {
        CallOutcome::Success(s) => {
            assert!(s.appended.iter().any(|t| t.role == Role::Tool
                && t.content.contains("Could not fetch token data")));
        }
        CallOutcome::Failure(_) => panic!("expected success"),
    }
}

#[test]
fn reject_ends_with_reject_status() {
    let models = vec![tool_request(
        "rejectShilling",
        "{\"explanation\":\"too risky\"}",
        "c1",
    )];
    let tools = vec![ToolResult::Success(ToolOutcome::Rejected)];
    let r = run(true, models, tools);
    match r.outcome {
        CallOutcome::Success(s) => {
            assert_eq!(s.decision.status, ConversationStatus::Reject);
            assert_eq!(s.decision.text, "too risky");
            assert!(s.decision.artifact.is_none());
        }
        CallOutcome::Failure(_) => panic!("expected success"),
    }
}

#[test]
fn approve_upstream_failure_is_approve_failed() {
    let models = vec![tool_request(
        "approveShilling",
        "{\"explanation\":\"x\",\"poolAddress\":\"P\"}",
        "c1",
    )];
    let tools = vec![ToolResult::UpstreamFailure];
    let r = run(true, models, tools);
    match r.outcome {
        CallOutcome::Success(s) => {
            assert_eq!(s.decision.status, ConversationStatus::ApproveFailed);
            assert_eq!(s.decision.text, "Failed to proceed swap transaction.");
        }
        CallOutcome::Failure(_) => panic!("expected success"),
    }
}

#[test]
fn reject_upstream_failure_is_decline() {
    let models = vec![tool_request("rejectShilling", "{\"explanation\":\"x\"}", "c1")];
    let tools = vec![ToolResult::UpstreamFailure];
    let r = run(true, models, tools);
    match r.outcome {
        CallOutcome::Success(s) => {
            assert_eq!(s.decision.status, ConversationStatus::Decline);
        }
        CallOutcome::Failure(_) => panic!("expected success"),
    }
}

#[test]
fn portfolio_tool_keeps_discussing() {
    let models = vec![
        tool_request("retrieveCurrentPortfolio", "{}", "c1"),
        content("that is what I hold"),
    ];
    let tools = vec![ToolResult::Success(ToolOutcome::Portfolio {
        tokens: Vec::new(),
        agent_wallet: "AgentWallet".to_string(),
    })];
    let r = run(false, models, tools);
    match r.outcome {
        CallOutcome::Success(s) => {
            assert_eq!(s.decision.status, ConversationStatus::Discuss);
            assert!(s.appended.iter().any(|t| t.role == Role::Tool
                && t.content.contains("My portfolio is empty")));
        }
        CallOutcome::Failure(_) => panic!("expected success"),
    }
    assert_eq!(r.executed, vec![ToolName::RetrieveCurrentPortfolio]);
}

#[test]
fn parse_tool_call_resolves_and_validates() {
    let raw = RawToolCall {
        name: "identifyPool".to_string(),
        arguments: "{\"pool_or_token_address\":\"Addr1\"}".to_string(),
        call_id: "c7".to_string(),
    };
    let call = parse_tool_call(&raw, Mode::TradingAllowed).expect("a valid call parses");
    assert_eq!(call.name, ToolName::IdentifyPool);
    assert_eq!(call.call_id, "c7");
    assert_eq!(
        kaja_engine::util::get_arg(&call.args, "pool_or_token_address"),
        Some("Addr1".to_string())
    );

    let unknown = RawToolCall {
        name: "mintLambo".to_string(),
        arguments: "{}".to_string(),
        call_id: "c8".to_string(),
    };
    assert!(matches!(parse_tool_call(&unknown, Mode::TradingAllowed), Err(ToolError::UnknownTool)));

    let not_offered = RawToolCall {
        name: "approveShilling".to_string(),
        arguments: "{\"explanation\":\"x\",\"poolAddress\":\"P\"}".to_string(),
        call_id: "c9".to_string(),
    };
    assert!(matches!(parse_tool_call(&not_offered, Mode::TradingNotAllowed), Err(ToolError::UnknownTool)));

    let missing = RawToolCall {
        name: "approveShilling".to_string(),
        arguments: "{\"explanation\":\"x\"}".to_string(),
        call_id: "c10".to_string(),
    };
    assert!(matches!(parse_tool_call(&missing, Mode::TradingAllowed), Err(ToolError::InvalidArguments)));

    let malformed = RawToolCall {
        name: "identifyPool".to_string(),
        arguments: "not json".to_string(),
        call_id: "c11".to_string(),
    };
    assert!(matches!(parse_tool_call(&malformed, Mode::TradingAllowed), Err(ToolError::InvalidArguments)));
}
