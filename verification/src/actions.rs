//! Tool outcomes and the rendering of each outcome into the text that is
//! fed back to the model or returned to the user.  The external
//! collaborators hand the engine plain values; everything that is done
//! with them afterwards is verified here.

use vstd::prelude::*;
use crate::decimal::{spec_decimal, u64_to_decimal};
use crate::errors::LLMErrors;

verus! {

/// The analytics snapshot for one pool, together with the executor-side
/// context the decision text mentions.  Dollar figures are whole dollars.
#[derive(Clone, Debug)]
pub struct PoolAnalytics {
    pub liquidity_usd: u64,
    pub volume_24h_usd: u64,
    pub market_cap_usd: u64,
    pub pair_created_at: String,
    pub fdv_usd: u64,
    pub buys_24h: u64,
    pub sells_24h: u64,
    pub pair_address: String,
    pub token_already_in_portfolio: bool,
    pub traded_last_hour: bool,
    pub sufficient_balance: bool,
}

/// Specification-level image of [`PoolAnalytics`].
#[verifier::ext_equal]
pub struct SpecPoolAnalytics {
    pub liquidity_usd: nat,
    pub volume_24h_usd: nat,
    pub market_cap_usd: nat,
    pub pair_created_at: Seq<char>,
    pub fdv_usd: nat,
    pub buys_24h: nat,
    pub sells_24h: nat,
    pub pair_address: Seq<char>,
    pub token_already_in_portfolio: bool,
    pub traded_last_hour: bool,
    pub sufficient_balance: bool,
}

impl DeepView for PoolAnalytics {
    type V = SpecPoolAnalytics;

    open spec fn deep_view(&self) -> SpecPoolAnalytics {
        SpecPoolAnalytics {
            liquidity_usd: self.liquidity_usd as nat,
            volume_24h_usd: self.volume_24h_usd as nat,
            market_cap_usd: self.market_cap_usd as nat,
            pair_created_at: self.pair_created_at.deep_view(),
            fdv_usd: self.fdv_usd as nat,
            buys_24h: self.buys_24h as nat,
            sells_24h: self.sells_24h as nat,
            pair_address: self.pair_address.deep_view(),
            token_already_in_portfolio: self.token_already_in_portfolio,
            traded_last_hour: self.traded_last_hour,
            sufficient_balance: self.sufficient_balance,
        }
    }
}

/// One token the agent holds.
#[derive(Clone, Debug)]
pub struct PortfolioToken {
    pub amount: String,
    pub symbol: String,
    pub name: String,
    pub pool_address: String,
    pub token_address: String,
}

/// Specification-level image of a [`PortfolioToken`].
#[verifier::ext_equal]
pub struct SpecPortfolioToken {
    pub amount: Seq<char>,
    pub symbol: Seq<char>,
    pub name: Seq<char>,
    pub pool_address: Seq<char>,
    pub token_address: Seq<char>,
}

impl DeepView for PortfolioToken {
    type V = SpecPortfolioToken;

    open spec fn deep_view(&self) -> SpecPortfolioToken {
        SpecPortfolioToken {
            amount: self.amount.deep_view(),
            symbol: self.symbol.deep_view(),
            name: self.name.deep_view(),
            pool_address: self.pool_address.deep_view(),
            token_address: self.token_address.deep_view(),
        }
    }
}

/// The persisted reference of an executed trade: the artifact of an
/// approved purchase.
#[derive(Clone, Debug)]
pub struct TradeArtifact {
    pub amount_in: String,
    pub token_in: String,
    pub amount_out: String,
    pub token_symbol: String,
    pub token_address: String,
    pub tx_id: String,
    pub fee: String,
}

/// Specification-level image of a [`TradeArtifact`].
#[verifier::ext_equal]
pub struct SpecTradeArtifact {
    pub amount_in: Seq<char>,
    pub token_in: Seq<char>,
    pub amount_out: Seq<char>,
    pub token_symbol: Seq<char>,
    pub token_address: Seq<char>,
    pub tx_id: Seq<char>,
    pub fee: Seq<char>,
}

impl DeepView for TradeArtifact {
    type V = SpecTradeArtifact;

    open spec fn deep_view(&self) -> SpecTradeArtifact {
        SpecTradeArtifact {
            amount_in: self.amount_in.deep_view(),
            token_in: self.token_in.deep_view(),
            amount_out: self.amount_out.deep_view(),
            token_symbol: self.token_symbol.deep_view(),
            token_address: self.token_address.deep_view(),
            tx_id: self.tx_id.deep_view(),
            fee: self.fee.deep_view(),
        }
    }
}

/// What an external tool collaborator returned, as plain values.
#[derive(Clone, Debug)]
pub enum ToolOutcome {
    /// `identifyPool`: the resolved pool address and whether it exists.
    PoolIdentified { pool_address: String, exists: bool },
    /// `fetch_pool_data`: the analytics snapshot.
    Analytics(PoolAnalytics),
    /// `retrieveCurrentPortfolio`: the agent's holdings and wallet.
    Portfolio { tokens: Vec<PortfolioToken>, agent_wallet: String },
    /// `retrieveBuyExplanation`: the recorded decision, if any.
    BuyDecision(Option<String>),
    /// `retrievePnlInformation`: a rendered statistics summary.
    PnlStatistics(String),
    /// `approveShilling`: the executed trade.
    Trade(TradeArtifact),
    /// `rejectShilling`: the rejection was recorded.
    Rejected,
    /// `generatePostInTwitter`: the published text.
    Posted(String),
}

/// Specification-level image of a [`ToolOutcome`].
#[verifier::ext_equal]
pub enum SpecToolOutcome {
    PoolIdentified { pool_address: Seq<char>, exists: bool },
    Analytics(SpecPoolAnalytics),
    Portfolio { tokens: Seq<SpecPortfolioToken>, agent_wallet: Seq<char> },
    BuyDecision(Option<Seq<char>>),
    PnlStatistics(Seq<char>),
    Trade(SpecTradeArtifact),
    Rejected,
    Posted(Seq<char>),
}

impl DeepView for ToolOutcome {
    type V = SpecToolOutcome;

    open spec fn deep_view(&self) -> SpecToolOutcome {
        match self {
            ToolOutcome::PoolIdentified { pool_address, exists } => SpecToolOutcome::PoolIdentified {
                pool_address: pool_address.deep_view(),
                exists: *exists,
            },
            ToolOutcome::Analytics(a) => SpecToolOutcome::Analytics(a.deep_view()),
            ToolOutcome::Portfolio { tokens, agent_wallet } => SpecToolOutcome::Portfolio {
                tokens: tokens.deep_view(),
                agent_wallet: agent_wallet.deep_view(),
            },
            ToolOutcome::BuyDecision(d) => SpecToolOutcome::BuyDecision(d.deep_view()),
            ToolOutcome::PnlStatistics(s) => SpecToolOutcome::PnlStatistics(s.deep_view()),
            ToolOutcome::Trade(t) => SpecToolOutcome::Trade(t.deep_view()),
            ToolOutcome::Rejected => SpecToolOutcome::Rejected,
            ToolOutcome::Posted(s) => SpecToolOutcome::Posted(s.deep_view()),
        }
    }
}

/// The result of one external tool execution.
#[derive(Clone, Debug)]
pub enum ToolResult {
    Success(ToolOutcome),
    /// The external collaborator failed; never retried by the engine.
    UpstreamFailure,
}

/// Specification-level image of a [`ToolResult`].
#[verifier::ext_equal]
pub enum SpecToolResult {
    Success(SpecToolOutcome),
    UpstreamFailure,
}

impl DeepView for ToolResult {
    type V = SpecToolResult;

    open spec fn deep_view(&self) -> SpecToolResult {
        match self {
            ToolResult::Success(o) => SpecToolResult::Success(o.deep_view()),
            ToolResult::UpstreamFailure => SpecToolResult::UpstreamFailure,
        }
    }
}

/// The instruction text that asks the model to run the pool analysis.
pub open spec fn spec_analyze_call_identify_pool(user_message: Seq<char>, is_function_call: bool) -> Seq<char> {
    if is_function_call {
        "Call identifyPool function. User message: "@ + user_message
    } else {
        "Don't call identifyPool function"@
    }
}

/// Builds the instruction that asks the model to run the pool analysis.
pub fn analyze_call_identify_pool(user_message: &str, is_function_call: bool) -> (r: String)
    ensures
        r@ == spec_analyze_call_identify_pool(user_message@, is_function_call),
{
    if is_function_call {
        let s: String = "Call identifyPool function. User message: ".to_owned();
        s.concat(user_message)
    } else {
        "Don't call identifyPool function".to_owned()
    }
}

/// The feedback for a resolved pool lookup.
pub open spec fn spec_validate_raydium_pool(lookup: Option<Seq<char>>) -> Result<Seq<char>, Seq<char>> {
    match lookup {
        Some(pool_address) => Ok("Token address: "@ + pool_address),
        None => Err("Invalid pool or token address."@),
    }
}

/// Renders the result of a pool lookup: the resolved address on success,
/// an explanatory error where the address resolves to no pool.
pub fn validate_raydium_pool(lookup: &Option<String>) -> (r: Result<String, String>)
    ensures
        r matches Ok(s) ==> lookup matches Some(p) && s@ == "Token address: "@ + p@,
        r matches Err(e) ==> lookup is None && e@ == "Invalid pool or token address."@,
        (r is Ok) == (lookup is Some),
{
    match lookup {
        Some(pool_address) => {
            let s: String = "Token address: ".to_owned();
            Ok(s.concat(pool_address.as_str()))
        },
        None => Err("Invalid pool or token address.".to_owned()),
    }
}

/// Whether the agent's balance covers the reserve plus the planned buy.
/// The reserve is 0.01 SOL, that is 10_000_000 lamports.
pub open spec fn spec_has_sufficient_agent_balance(agent_balance: nat, value_to_buy_in_lamports: nat) -> bool {
    agent_balance >= 10_000_000 + value_to_buy_in_lamports
}

/// Whether the agent's balance covers the reserve plus the planned buy.
pub fn has_sufficient_agent_balance(agent_balance: u64, value_to_buy_in_lamports: u64) -> (r: bool)
    ensures
        r == spec_has_sufficient_agent_balance(agent_balance as nat, value_to_buy_in_lamports as nat),
{
    if value_to_buy_in_lamports > u64::MAX - 10_000_000 {
        false
    } else {
        agent_balance >= 10_000_000 + value_to_buy_in_lamports
    }
}

/// The recorded buy decision, rendered for the model.
#[verifier::opaque]
pub open spec fn spec_retrieve_buy_decision(decision: Option<Seq<char>>) -> Seq<char> {
    match decision {
        Some(d) => "Your decision: "@ + d,
        None => "I don't have this token in my portfolio"@,
    }
}

/// Renders the recorded buy decision for a pool, if one exists.
pub fn retrieve_buy_decision(decision: &Option<String>) -> (r: String)
    ensures
        r@ == spec_retrieve_buy_decision(decision.deep_view()),
{
    proof {
        reveal(spec_retrieve_buy_decision);
    }
    match decision {
        Some(d) => {
            let s: String = "Your decision: ".to_owned();
            s.concat(d.as_str())
        },
        None => "I don't have this token in my portfolio".to_owned(),
    }
}

/// Echoes the published post, or reports the publication failure.
pub fn publish_twitter_post(data: &str, posted: bool) -> (r: Result<String, LLMErrors>)
    ensures
        posted ==> (r matches Ok(s) && s@ == data@),
        !posted ==> (r matches Err(e) && e == LLMErrors::TwitterPostError),
{
    if posted {
        Ok(data.to_owned())
    } else {
        Err(LLMErrors::TwitterPostError)
    }
}

/// One line of the portfolio listing.
#[verifier::opaque]
pub open spec fn spec_token_line(t: SpecPortfolioToken) -> Seq<char> {
    "- token amount: "@ + t.amount + ", symbol: "@ + t.symbol + ", name: "@ + t.name
        + ", pool address: "@ + t.pool_address + ", token address: "@ + t.token_address + "\n"@
}

/// The concatenated lines of the portfolio listing.
pub open spec fn spec_tokens_info(tokens: Seq<SpecPortfolioToken>) -> Seq<char>
    decreases tokens.len(),
{
    if tokens.len() == 0 {
        Seq::empty()
    } else {
        spec_tokens_info(tokens.drop_last()) + spec_token_line(tokens.last())
    }
}

/// The full portfolio answer.
#[verifier::opaque]
pub open spec fn spec_retrieve_portfolio_information(
    tokens: Seq<SpecPortfolioToken>,
    agent_wallet: Seq<char>,
) -> Seq<char> {
    if tokens.len() == 0 {
        "My portfolio is empty, I now decide what to buy"@
    } else {
        "I have these tokens:\n"@ + spec_tokens_info(tokens)
            + "**Agent wallet**: [View on Solscan](https://solscan.io/account/"@ + agent_wallet
            + ")"@
    }
}

fn token_line(t: &PortfolioToken) -> (r: String)
    ensures
        r@ == spec_token_line(t.deep_view()),
{
    proof {
        reveal(spec_token_line);
    }
    let s: String = "- token amount: ".to_owned();
    s.concat(t.amount.as_str()).concat(", symbol: ").concat(t.symbol.as_str()).concat(
        ", name: ",
    ).concat(t.name.as_str()).concat(", pool address: ").concat(t.pool_address.as_str()).concat(
        ", token address: ",
    ).concat(t.token_address.as_str()).concat("\n")
}

/// Renders the agent's portfolio for the model: every held token in
/// order, or the fixed empty-portfolio answer.
pub fn retrieve_portfolio_information(tokens: &Vec<PortfolioToken>, agent_wallet: &str) -> (r:
    String)
    ensures
        r@ == spec_retrieve_portfolio_information(tokens.deep_view(), agent_wallet@),
{
    proof {
        reveal(spec_retrieve_portfolio_information);
    }
    if tokens.len() == 0 {
        "My portfolio is empty, I now decide what to buy".to_owned()
    } else {
        let ghost all: Seq<SpecPortfolioToken> = tokens.deep_view();
        let mut info: String = String::new();
        let mut i: usize = 0;
        proof {
            assert(all.take(0) =~= Seq::<SpecPortfolioToken>::empty());
        }
        while i < tokens.len()
            invariant
                0 <= i <= tokens.len(),
                all == tokens.deep_view(),
                info@ == spec_tokens_info(all.take(i as int)),
            decreases tokens.len() - i,
        {
            let line = token_line(&tokens[i]);
            info.append(line.as_str());
            proof {
                assert(all.take(i + 1).drop_last() =~= all.take(i as int));
                assert(all.take(i + 1).last() == all[i as int]);
            }
            i = i + 1;
        }
        proof {
            assert(all.take(tokens.len() as int) =~= all);
        }
        let s: String = "I have these tokens:\n".to_owned();
        s.concat(info.as_str()).concat(
            "**Agent wallet**: [View on Solscan](https://solscan.io/account/",
        ).concat(agent_wallet).concat(")")
    }
}

/// The success message of an approved purchase, wrapping the model's
/// explanation and the executed trade's details.
#[verifier::opaque]
pub open spec fn spec_process_shilling(explanation: Seq<char>, t: SpecTradeArtifact) -> Seq<char> {
    explanation + "\n\nTransaction Details:\n- Amount Spent: "@ + t.amount_in + " "@ + t.token_in
        + "\n- Amount of Bought token: "@ + t.amount_out + " "@ + t.token_symbol
        + "\n- Token Address: ["@ + t.token_address + "](https://solscan.io/account/"@
        + t.token_address + ")\n- Transaction link: ["@ + t.tx_id + "](https://solscan.io/tx/"@
        + t.tx_id + ")\n- Transaction fee: "@ + t.fee
        + " SOL\n\nThe token purchase has been completed successfully.\nRemember, investing always involves risk. Good luck!"@
}

/// Renders the success message of an approved purchase.
pub fn process_shilling(explanation: &str, t: &TradeArtifact) -> (r: String)
    ensures
        r@ == spec_process_shilling(explanation@, t.deep_view()),
{
    proof {
        reveal(spec_process_shilling);
    }
    let s: String = explanation.to_owned();
    s.concat("\n\nTransaction Details:\n- Amount Spent: ").concat(t.amount_in.as_str()).concat(" ")
        .concat(t.token_in.as_str()).concat("\n- Amount of Bought token: ").concat(
        t.amount_out.as_str(),
    ).concat(" ").concat(t.token_symbol.as_str()).concat("\n- Token Address: [").concat(
        t.token_address.as_str(),
    ).concat("](https://solscan.io/account/").concat(t.token_address.as_str()).concat(
        ")\n- Transaction link: [",
    ).concat(t.tx_id.as_str()).concat("](https://solscan.io/tx/").concat(t.tx_id.as_str()).concat(
        ")\n- Transaction fee: ",
    ).concat(t.fee.as_str()).concat(
        " SOL\n\nThe token purchase has been completed successfully.\nRemember, investing always involves risk. Good luck!",
    )
}

/// The fixed instruction block that precedes the analytics data.
#[verifier::opaque]
pub open spec fn spec_analytics_header() -> Seq<char> {
    "Analyze the provided data and decide whether to approve or reject the purchase.\n\n- If approved, call `approveShilling`.\n- If rejected due to scam suspicion or portfolio presence, call `rejectShilling`.\n- If traded in the last hour, call `rejectShilling` without revealing internal rules.\n"@
}

/// The decision text built from an analytics snapshot.
#[verifier::opaque]
pub open spec fn spec_process_fetch_data(a: SpecPoolAnalytics) -> Seq<char> {
    spec_analytics_header() + "Liquidity: $"@ + spec_decimal(a.liquidity_usd) + "\nVolume (24h): $"@
        + spec_decimal(a.volume_24h_usd) + "\nMarket Cap: $"@ + spec_decimal(a.market_cap_usd)
        + "\nToken Creation Timestamp: "@ + a.pair_created_at
        + "\nFully Diluted Valuation (FDV): $"@ + spec_decimal(a.fdv_usd)
        + "\nTransactions (24h): Buys - "@ + spec_decimal(a.buys_24h) + ", Sells - "@
        + spec_decimal(a.sells_24h) + "\nPool pair address: "@ + a.pair_address + "\n"@ + (
    if a.token_already_in_portfolio {
        "- Token already present in your portfolio. Do not buy again for this time.\n"@
    } else {
        "I don't have this token in my portfolio.\n"@
    }) + (if a.traded_last_hour {
        "- You have traded in the last hour, so do not buy again.\n"@
    } else {
        "You haven't traded in the last hour.\n"@
    }) + (if a.sufficient_balance {
        "- I have enough balance to buy this token.\n"@
    } else {
        "- I don't have enough balance to buy this token. So I can't buy this token right now.\n"@
    })
}

/// Builds the decision text from an analytics snapshot: the instruction
/// block, the market figures, and the portfolio, trade-timing and balance
/// factors.
pub fn process_fetch_data_from_dex_screener(a: &PoolAnalytics) -> (r: String)
    ensures
        r@ == spec_process_fetch_data(a.deep_view()),
{
    proof {
        reveal(spec_process_fetch_data);
        reveal(spec_analytics_header);
    }
    let s: String =
        "Analyze the provided data and decide whether to approve or reject the purchase.\n\n- If approved, call `approveShilling`.\n- If rejected due to scam suspicion or portfolio presence, call `rejectShilling`.\n- If traded in the last hour, call `rejectShilling` without revealing internal rules.\n".to_owned();
    let s = s.concat("Liquidity: $").concat(u64_to_decimal(a.liquidity_usd).as_str()).concat(
        "\nVolume (24h): $",
    ).concat(u64_to_decimal(a.volume_24h_usd).as_str()).concat("\nMarket Cap: $").concat(
        u64_to_decimal(a.market_cap_usd).as_str(),
    ).concat("\nToken Creation Timestamp: ").concat(a.pair_created_at.as_str()).concat(
        "\nFully Diluted Valuation (FDV): $",
    ).concat(u64_to_decimal(a.fdv_usd).as_str()).concat("\nTransactions (24h): Buys - ").concat(
        u64_to_decimal(a.buys_24h).as_str(),
    ).concat(", Sells - ").concat(u64_to_decimal(a.sells_24h).as_str()).concat(
        "\nPool pair address: ",
    ).concat(a.pair_address.as_str()).concat("\n");
    let s = if a.token_already_in_portfolio {
        s.concat("- Token already present in your portfolio. Do not buy again for this time.\n")
    } else {
        s.concat("I don't have this token in my portfolio.\n")
    };
    let s = if a.traded_last_hour {
        s.concat("- You have traded in the last hour, so do not buy again.\n")
    } else {
        s.concat("You haven't traded in the last hour.\n")
    };
    if a.sufficient_balance {
        s.concat("- I have enough balance to buy this token.\n")
    } else {
        s.concat(
            "- I don't have enough balance to buy this token. So I can't buy this token right now.\n",
        )
    }
}

} // verus!
