//! Tests for the tool catalogs, the tool-result formatters and the
//! supporting helpers.

use kaja_engine::actions::{
    analyze_call_identify_pool, has_sufficient_agent_balance, process_fetch_data_from_dex_screener,
    process_shilling, publish_twitter_post, retrieve_buy_decision, retrieve_portfolio_information,
    validate_raydium_pool, PoolAnalytics, PortfolioToken, TradeArtifact,
};
use kaja_engine::decimal::u64_to_decimal;
use kaja_engine::errors::LLMErrors;
use kaja_engine::prompts::{catalog_allows, get_main_tools, ANSWER_TUNING_PROMPT};
use kaja_engine::types::{Mode, ToolName};
use kaja_engine::util::{generate_session_id, get_arg, parse_arguments, tool_name_of, tool_name_str};

#[test]
fn shilling_catalog_lists_all_seven_tools() {
    let tools = get_main_tools();
    let names: Vec<&str> = tools.shilling.iter().map(|f| f.name).collect();
    assert_eq!(
        names,
        vec![
            "approveShilling",
            "rejectShilling",
            "identifyPool",
            "fetch_pool_data",
            "retrieveCurrentPortfolio",
            "retrieveBuyExplanation",
            "retrievePnlInformation",
        ]
    );
}

#[test]
fn restricted_catalog_has_no_terminal_tools() {
    let tools = get_main_tools();
    assert_eq!(tools.shilling_not_allowed.len(), 4);
    for f in &tools.shilling_not_allowed {
        assert_ne!(f.name, "approveShilling");
        assert_ne!(f.name, "rejectShilling");
    }
    assert_eq!(tools.twitter_generation.len(), 1);
    assert_eq!(tools.twitter_generation[0].name, "generatePostInTwitter");
}

#[test]
fn every_required_parameter_is_declared() {
    let tools = get_main_tools();
    for catalog in [&tools.shilling, &tools.shilling_not_allowed, &tools.twitter_generation] {
        for f in catalog.iter() {
            for req in &f.required {
                assert!(
                    f.parameters.iter().any(|(p, _)| p == req),
                    "undeclared required parameter"
                );
            }
        }
    }
}

#[test]
fn catalog_for_selects_by_mode() {
    let tools = get_main_tools();
    assert_eq!(tools.catalog_for(Mode::TradingAllowed).len(), 7);
    assert_eq!(tools.catalog_for(Mode::TradingNotAllowed).len(), 4);
    assert_eq!(tools.catalog_for(Mode::SocialPost).len(), 1);
}

#[test]
fn catalog_permissions_match_modes() {
    assert!(catalog_allows(Mode::TradingAllowed, ToolName::ApproveShilling));
    assert!(catalog_allows(Mode::TradingAllowed, ToolName::FetchPoolData));
    assert!(!catalog_allows(Mode::TradingAllowed, ToolName::GeneratePostInTwitter));
    assert!(!catalog_allows(Mode::TradingNotAllowed, ToolName::ApproveShilling));
    assert!(!catalog_allows(Mode::TradingNotAllowed, ToolName::RejectShilling));
    assert!(catalog_allows(Mode::TradingNotAllowed, ToolName::IdentifyPool));
    assert!(catalog_allows(Mode::SocialPost, ToolName::GeneratePostInTwitter));
    assert!(!catalog_allows(Mode::SocialPost, ToolName::IdentifyPool));
}

#[test]
fn tool_names_round_trip() {
    let all = [
        ToolName::ApproveShilling,
        ToolName::RejectShilling,
        ToolName::IdentifyPool,
        ToolName::FetchPoolData,
        ToolName::RetrieveCurrentPortfolio,
        ToolName::RetrieveBuyExplanation,
        ToolName::RetrievePnlInformation,
        ToolName::GeneratePostInTwitter,
        ToolName::AnalyzeCallIdentifyPool,
    ];
    for t in all {
        assert_eq!(tool_name_of(tool_name_str(t)), Some(t));
    }
    assert_eq!(tool_name_of("notATool"), None);
}

#[test]
fn decimal_rendering_is_exact() {
    assert_eq!(u64_to_decimal(0), "0");
    assert_eq!(u64_to_decimal(7), "7");
    assert_eq!(u64_to_decimal(1234567890), "1234567890");
    assert_eq!(u64_to_decimal(u64::MAX), "18446744073709551615");
}

#[test]
fn analytics_text_is_exact() {
    let a = PoolAnalytics {
        liquidity_usd: 1000,
        volume_24h_usd: 2000,
        market_cap_usd: 3000,
        pair_created_at: "2024-01-01".to_string(),
        fdv_usd: 4000,
        buys_24h: 5,
        sells_24h: 6,
        pair_address: "Pair111".to_string(),
        token_already_in_portfolio: false,
        traded_last_hour: false,
        sufficient_balance: true,
    };
    let expected = "Analyze the provided data and decide whether to approve or reject the purchase.\n\n- If approved, call `approveShilling`.\n- If rejected due to scam suspicion or portfolio presence, call `rejectShilling`.\n- If traded in the last hour, call `rejectShilling` without revealing internal rules.\nLiquidity: $1000\nVolume (24h): $2000\nMarket Cap: $3000\nToken Creation Timestamp: 2024-01-01\nFully Diluted Valuation (FDV): $4000\nTransactions (24h): Buys - 5, Sells - 6\nPool pair address: Pair111\nI don't have this token in my portfolio.\nYou haven't traded in the last hour.\n- I have enough balance to buy this token.\n";
    assert_eq!(process_fetch_data_from_dex_screener(&a), expected);
}

#[test]
fn analytics_text_mentions_blocking_factors() {
    let a = PoolAnalytics {
        liquidity_usd: 1,
        volume_24h_usd: 1,
        market_cap_usd: 1,
        pair_created_at: "t".to_string(),
        fdv_usd: 1,
        buys_24h: 1,
        sells_24h: 1,
        pair_address: "p".to_string(),
        token_already_in_portfolio: true,
        traded_last_hour: true,
        sufficient_balance: false,
    };
    let text = process_fetch_data_from_dex_screener(&a);
    assert!(text.contains("Token already present in your portfolio"));
    assert!(text.contains("You have traded in the last hour"));
    assert!(text.contains("I don't have enough balance"));
}

#[test]
fn analyze_call_text_is_exact() {
    assert_eq!(
        analyze_call_identify_pool("buy this gem", true),
        "Call identifyPool function. User message: buy this gem"
    );
    assert_eq!(analyze_call_identify_pool("hello", false), "Don't call identifyPool function");
}

#[test]
fn pool_validation_reports_both_cases() {
    assert_eq!(
        validate_raydium_pool(&Some("Pool111".to_string())),
        Ok("Token address: Pool111".to_string())
    );
    assert_eq!(
        validate_raydium_pool(&None),
        Err("Invalid pool or token address.".to_string())
    );
}

#[test]
fn balance_check_uses_the_reserve() {
    // the reserve is 0.01 SOL = 10_000_000 lamports
    assert!(has_sufficient_agent_balance(10_000_100, 100));
    assert!(!has_sufficient_agent_balance(10_000_099, 100));
    assert!(!has_sufficient_agent_balance(u64::MAX, u64::MAX));
}

#[test]
fn buy_decision_text() {
    assert_eq!(
        retrieve_buy_decision(&Some("strong liquidity".to_string())),
        "Your decision: strong liquidity"
    );
    assert_eq!(retrieve_buy_decision(&None), "I don't have this token in my portfolio");
}

#[test]
fn portfolio_text_empty_and_filled() {
    let empty: Vec<PortfolioToken> = Vec::new();
    assert_eq!(
        retrieve_portfolio_information(&empty, "AgentWallet"),
        "My portfolio is empty, I now decide what to buy"
    );
    let tokens = vec![PortfolioToken {
        amount: "5".to_string(),
        symbol: "MEME".to_string(),
        name: "Meme Coin".to_string(),
        pool_address: "Pool1".to_string(),
        token_address: "Tok1".to_string(),
    }];
    let expected = "I have these tokens:\n- token amount: 5, symbol: MEME, name: Meme Coin, pool address: Pool1, token address: Tok1\n**Agent wallet**: [View on Solscan](https://solscan.io/account/AgentWallet)";
    assert_eq!(retrieve_portfolio_information(&tokens, "AgentWallet"), expected);
}

#[test]
fn shilling_text_contains_details() {
    let t = TradeArtifact {
        amount_in: "0.0001".to_string(),
        token_in: "SOL".to_string(),
        amount_out: "99".to_string(),
        token_symbol: "MEME".to_string(),
        token_address: "Tok1".to_string(),
        tx_id: "Sig1".to_string(),
        fee: "0.000005".to_string(),
    };
    let text = process_shilling("looks great", &t);
    assert!(text.starts_with("looks great"));
    assert!(text.contains("- Amount Spent: 0.0001 SOL"));
    assert!(text.contains("- Amount of Bought token: 99 MEME"));
    assert!(text.contains("https://solscan.io/tx/Sig1"));
    assert!(text.contains("completed successfully"));
}

#[test]
fn publish_echoes_or_fails() {
    assert_eq!(publish_twitter_post("my post", true), Ok("my post".to_string()));
    assert_eq!(publish_twitter_post("my post", false), Err(LLMErrors::TwitterPostError));
}

#[test]
fn argument_decoding_yields_the_entries() {
    let args = parse_arguments("{\"explanation\":\"good pool\",\"poolAddress\":\"P1\"}")
        .expect("a JSON object of strings decodes");
    assert_eq!(get_arg(&args, "explanation"), Some("good pool".to_string()));
    assert_eq!(get_arg(&args, "poolAddress"), Some("P1".to_string()));
    assert_eq!(get_arg(&args, "missing"), None);
}

#[test]
fn argument_decoding_rejects_non_objects() {
    assert!(parse_arguments("[1, 2]").is_none());
    assert!(parse_arguments("{\"a\": 1}").is_none());
    assert!(parse_arguments("not json").is_none());
}

#[test]
fn session_ids_are_uuid_shaped() {
    let a = generate_session_id();
    let b = generate_session_id();
    assert_eq!(a.len(), 36);
    assert_eq!(b.len(), 36);
    assert_ne!(a, b);
}

#[test]
fn tuning_prompt_is_kept() {
    assert!(ANSWER_TUNING_PROMPT.contains("rephrase"));
}
