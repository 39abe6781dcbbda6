//! The tool catalogs and the fixed prompt texts: process-wide immutable
//! configuration, declared per mode and validated against the rule that
//! every required parameter is a declared parameter.

use vstd::prelude::*;
use crate::types::{Mode, ToolName};

verus! {

/// Guidance given to the model when it rephrases accepted messages.
pub const ANSWER_TUNING_PROMPT: &'static str =
    "Your task to rephrase messages you accept and in friendly tone rewrite them.";

/// The declaration of one callable tool: its wire name, a description for
/// the model, the declared parameters (name and description) and the subset
/// of parameter names the model must supply.
pub struct FunctionCall {
    pub name: &'static str,
    pub description: &'static str,
    pub parameters: Vec<(&'static str, &'static str)>,
    pub required: Vec<&'static str>,
}

/// Specification-level image of a [`FunctionCall`].
#[verifier::ext_equal]
pub struct SpecFunctionCall {
    pub name: Seq<char>,
    pub description: Seq<char>,
    pub parameters: Seq<(Seq<char>, Seq<char>)>,
    pub required: Seq<Seq<char>>,
}

impl DeepView for FunctionCall {
    type V = SpecFunctionCall;

    open spec fn deep_view(&self) -> SpecFunctionCall {
        SpecFunctionCall {
            name: self.name.deep_view(),
            description: self.description.deep_view(),
            parameters: self.parameters.deep_view(),
            required: self.required.deep_view(),
        }
    }
}

/// Every name in `required` is a declared parameter name.
pub open spec fn fc_wf(fc: SpecFunctionCall) -> bool {
    forall|j: int|
        0 <= j < fc.required.len() ==> exists|k: int|
            0 <= k < fc.parameters.len() && #[trigger] fc.parameters[k].0 == #[trigger] fc.required[j]
}

/// The three catalogs, one per mode.
pub struct ToolCatalogs {
    pub shilling: Vec<FunctionCall>,
    pub shilling_not_allowed: Vec<FunctionCall>,
    pub twitter_generation: Vec<FunctionCall>,
}

/// Specification-level image of [`ToolCatalogs`].
#[verifier::ext_equal]
pub struct SpecToolCatalogs {
    pub shilling: Seq<SpecFunctionCall>,
    pub shilling_not_allowed: Seq<SpecFunctionCall>,
    pub twitter_generation: Seq<SpecFunctionCall>,
}

impl DeepView for ToolCatalogs {
    type V = SpecToolCatalogs;

    open spec fn deep_view(&self) -> SpecToolCatalogs {
        SpecToolCatalogs {
            shilling: self.shilling.deep_view(),
            shilling_not_allowed: self.shilling_not_allowed.deep_view(),
            twitter_generation: self.twitter_generation.deep_view(),
        }
    }
}

pub open spec fn spec_approve_tool() -> SpecFunctionCall {
    SpecFunctionCall {
        name: "approveShilling"@,
        description: "Approve buying meme token from Raydium explanation."@,
        parameters: seq![
            ("explanation"@, "Explanation for why you decide to buy the token."@),
            ("poolAddress"@, "Extract the poolAddress from analytic data."@),
        ],
        required: seq!["explanation"@, "poolAddress"@],
    }
}

pub open spec fn spec_reject_tool() -> SpecFunctionCall {
    SpecFunctionCall {
        name: "rejectShilling"@,
        description: "Reject buying meme token from Raydium and provide an explanation."@,
        parameters: seq![("explanation"@, "Explanation for why you reject buying the token."@)],
        required: seq!["explanation"@],
    }
}

pub open spec fn spec_identify_pool_tool() -> SpecFunctionCall {
    SpecFunctionCall {
        name: "identifyPool"@,
        description: "Fetch address of a given pool or token address on Raydium."@,
        parameters: seq![("pool_or_token_address"@, "Fetch token or pool address from Raydium URL."@)],
        required: seq!["pool_or_token_address"@],
    }
}

pub open spec fn spec_fetch_pool_data_tool() -> SpecFunctionCall {
    SpecFunctionCall {
        name: "fetch_pool_data"@,
        description: "Fetch analytics data for a given token address."@,
        parameters: seq![("token_address"@, "The address of the pool to fetch data for."@)],
        required: seq!["token_address"@],
    }
}

pub open spec fn spec_portfolio_tool() -> SpecFunctionCall {
    SpecFunctionCall {
        name: "retrieveCurrentPortfolio"@,
        description: "Retrieve information about the current agent's portfolio."@,
        parameters: Seq::empty(),
        required: Seq::empty(),
    }
}

pub open spec fn spec_buy_explanation_tool() -> SpecFunctionCall {
    SpecFunctionCall {
        name: "retrieveBuyExplanation"@,
        description: "Retrieve explanation for why a specific meme token was bought."@,
        parameters: seq![("pool_address"@, "Retrieve the pool address of the token pair."@)],
        required: seq!["pool_address"@],
    }
}

pub open spec fn spec_pnl_tool() -> SpecFunctionCall {
    SpecFunctionCall {
        name: "retrievePnlInformation"@,
        description: "Retrieve profit and loss (PnL) statistics based on the user's request."@,
        parameters: seq![("action"@, "Specify the action to retrieve PnL statistics."@)],
        required: seq!["action"@],
    }
}

pub open spec fn spec_twitter_tool() -> SpecFunctionCall {
    SpecFunctionCall {
        name: "generatePostInTwitter"@,
        description: "Generate and post text on Twitter."@,
        parameters: seq![("data"@, "Data provided to generate a post on Twitter."@)],
        required: seq!["data"@],
    }
}

/// The full catalog configuration.
pub open spec fn spec_main_tools() -> SpecToolCatalogs {
    SpecToolCatalogs {
        shilling: seq![
            spec_approve_tool(),
            spec_reject_tool(),
            spec_identify_pool_tool(),
            spec_fetch_pool_data_tool(),
            spec_portfolio_tool(),
            spec_buy_explanation_tool(),
            spec_pnl_tool(),
        ],
        shilling_not_allowed: seq![
            spec_identify_pool_tool(),
            spec_portfolio_tool(),
            spec_buy_explanation_tool(),
            spec_pnl_tool(),
        ],
        twitter_generation: seq![spec_twitter_tool()],
    }
}

/// The catalog that `mode` activates.
pub open spec fn spec_catalog_for(c: SpecToolCatalogs, mode: Mode) -> Seq<SpecFunctionCall> {
    match mode {
        Mode::TradingAllowed => c.shilling,
        Mode::TradingNotAllowed => c.shilling_not_allowed,
        Mode::SocialPost => c.twitter_generation,
    }
}

fn approve_tool() -> (r: FunctionCall)
    ensures
        r.deep_view() == spec_approve_tool(),
{
    let r = FunctionCall {
        name: "approveShilling",
        description: "Approve buying meme token from Raydium explanation.",
        parameters: vec![
            ("explanation", "Explanation for why you decide to buy the token."),
            ("poolAddress", "Extract the poolAddress from analytic data."),
        ],
        required: vec!["explanation", "poolAddress"],
    };
    proof {
        assert(r.deep_view() =~~= spec_approve_tool());
    }
    r
}

fn reject_tool() -> (r: FunctionCall)
    ensures
        r.deep_view() == spec_reject_tool(),
{
    let r = FunctionCall {
        name: "rejectShilling",
        description: "Reject buying meme token from Raydium and provide an explanation.",
        parameters: vec![("explanation", "Explanation for why you reject buying the token.")],
        required: vec!["explanation"],
    };
    proof {
        assert(r.deep_view() =~~= spec_reject_tool());
    }
    r
}

fn identify_pool_tool() -> (r: FunctionCall)
    ensures
        r.deep_view() == spec_identify_pool_tool(),
{
    let r = FunctionCall {
        name: "identifyPool",
        description: "Fetch address of a given pool or token address on Raydium.",
        parameters: vec![("pool_or_token_address", "Fetch token or pool address from Raydium URL.")],
        required: vec!["pool_or_token_address"],
    };
    proof {
        assert(r.deep_view() =~~= spec_identify_pool_tool());
    }
    r
}

fn fetch_pool_data_tool() -> (r: FunctionCall)
    ensures
        r.deep_view() == spec_fetch_pool_data_tool(),
{
    let r = FunctionCall {
        name: "fetch_pool_data",
        description: "Fetch analytics data for a given token address.",
        parameters: vec![("token_address", "The address of the pool to fetch data for.")],
        required: vec!["token_address"],
    };
    proof {
        assert(r.deep_view() =~~= spec_fetch_pool_data_tool());
    }
    r
}

fn portfolio_tool() -> (r: FunctionCall)
    ensures
        r.deep_view() == spec_portfolio_tool(),
{
    let r = FunctionCall {
        name: "retrieveCurrentPortfolio",
        description: "Retrieve information about the current agent's portfolio.",
        parameters: Vec::new(),
        required: Vec::new(),
    };
    proof {
        assert(r.deep_view() =~~= spec_portfolio_tool());
    }
    r
}

fn buy_explanation_tool() -> (r: FunctionCall)
    ensures
        r.deep_view() == spec_buy_explanation_tool(),
{
    let r = FunctionCall {
        name: "retrieveBuyExplanation",
        description: "Retrieve explanation for why a specific meme token was bought.",
        parameters: vec![("pool_address", "Retrieve the pool address of the token pair.")],
        required: vec!["pool_address"],
    };
    proof {
        assert(r.deep_view() =~~= spec_buy_explanation_tool());
    }
    r
}

fn pnl_tool() -> (r: FunctionCall)
    ensures
        r.deep_view() == spec_pnl_tool(),
{
    let r = FunctionCall {
        name: "retrievePnlInformation",
        description: "Retrieve profit and loss (PnL) statistics based on the user's request.",
        parameters: vec![("action", "Specify the action to retrieve PnL statistics.")],
        required: vec!["action"],
    };
    proof {
        assert(r.deep_view() =~~= spec_pnl_tool());
    }
    r
}

fn twitter_tool() -> (r: FunctionCall)
    ensures
        r.deep_view() == spec_twitter_tool(),
{
    let r = FunctionCall {
        name: "generatePostInTwitter",
        description: "Generate and post text on Twitter.",
        parameters: vec![("data", "Data provided to generate a post on Twitter.")],
        required: vec!["data"],
    };
    proof {
        assert(r.deep_view() =~~= spec_twitter_tool());
    }
    r
}

/// Builds the complete tool catalogs, one per mode.
pub fn get_main_tools() -> (r: ToolCatalogs)
    ensures
        r.deep_view() == spec_main_tools(),
{
    let r = ToolCatalogs {
        shilling: vec![
            approve_tool(),
            reject_tool(),
            identify_pool_tool(),
            fetch_pool_data_tool(),
            portfolio_tool(),
            buy_explanation_tool(),
            pnl_tool(),
        ],
        shilling_not_allowed: vec![
            identify_pool_tool(),
            portfolio_tool(),
            buy_explanation_tool(),
            pnl_tool(),
        ],
        twitter_generation: vec![twitter_tool()],
    };
    proof {
        assert(r.deep_view().shilling =~= spec_main_tools().shilling);
        assert(r.deep_view().shilling_not_allowed =~= spec_main_tools().shilling_not_allowed);
        assert(r.deep_view().twitter_generation =~= spec_main_tools().twitter_generation);
    }
    r
}

impl ToolCatalogs {
    /// The catalog active in `mode`.
    pub fn catalog_for(&self, mode: Mode) -> (r: &Vec<FunctionCall>)
        ensures
            r.deep_view() == spec_catalog_for(self.deep_view(), mode),
    {
        match mode {
            Mode::TradingAllowed => &self.shilling,
            Mode::TradingNotAllowed => &self.shilling_not_allowed,
            Mode::SocialPost => &self.twitter_generation,
        }
    }
}

/// Whether the catalog of `mode` offers the tool `t`.  This is the
/// permission predicate the orchestrator enforces; the lemmas below tie it
/// to the declared catalog data.
pub open spec fn spec_catalog_allows(mode: Mode, t: ToolName) -> bool {
    match mode {
        Mode::TradingAllowed => !(t is GeneratePostInTwitter) && !(t is AnalyzeCallIdentifyPool),
        Mode::TradingNotAllowed => t is IdentifyPool || t is RetrieveCurrentPortfolio
            || t is RetrieveBuyExplanation || t is RetrievePnlInformation,
        Mode::SocialPost => t is GeneratePostInTwitter,
    }
}

/// Whether the catalog of `mode` offers the tool `t`.
pub fn catalog_allows(mode: Mode, t: ToolName) -> (r: bool)
    ensures
        r == spec_catalog_allows(mode, t),
{
    match mode {
        Mode::TradingAllowed => !matches!(t, ToolName::GeneratePostInTwitter)
            && !matches!(t, ToolName::AnalyzeCallIdentifyPool),
        Mode::TradingNotAllowed => matches!(
            t,
            ToolName::IdentifyPool | ToolName::RetrieveCurrentPortfolio
                | ToolName::RetrieveBuyExplanation | ToolName::RetrievePnlInformation
        ),
        Mode::SocialPost => matches!(t, ToolName::GeneratePostInTwitter),
    }
}

/// Every declared catalog entry is well formed: its required names are
/// declared parameters.
pub proof fn lemma_catalogs_well_formed()
    ensures
        forall|i: int|
            0 <= i < spec_main_tools().shilling.len() ==> fc_wf(
                #[trigger] spec_main_tools().shilling[i],
            ),
        forall|i: int|
            0 <= i < spec_main_tools().shilling_not_allowed.len() ==> fc_wf(
                #[trigger] spec_main_tools().shilling_not_allowed[i],
            ),
        forall|i: int|
            0 <= i < spec_main_tools().twitter_generation.len() ==> fc_wf(
                #[trigger] spec_main_tools().twitter_generation[i],
            ),
{
    assert(fc_wf(spec_approve_tool())) by {
        assert(spec_approve_tool().parameters[0].0 == spec_approve_tool().required[0]);
        assert(spec_approve_tool().parameters[1].0 == spec_approve_tool().required[1]);
    }
    assert(fc_wf(spec_reject_tool())) by {
        assert(spec_reject_tool().parameters[0].0 == spec_reject_tool().required[0]);
    }
    assert(fc_wf(spec_identify_pool_tool())) by {
        assert(spec_identify_pool_tool().parameters[0].0 == spec_identify_pool_tool().required[0]);
    }
    assert(fc_wf(spec_fetch_pool_data_tool())) by {
        assert(spec_fetch_pool_data_tool().parameters[0].0 == spec_fetch_pool_data_tool().required[0]);
    }
    assert(fc_wf(spec_portfolio_tool()));
    assert(fc_wf(spec_buy_explanation_tool())) by {
        assert(spec_buy_explanation_tool().parameters[0].0 == spec_buy_explanation_tool().required[0]);
    }
    assert(fc_wf(spec_pnl_tool())) by {
        assert(spec_pnl_tool().parameters[0].0 == spec_pnl_tool().required[0]);
    }
    assert(fc_wf(spec_twitter_tool())) by {
        assert(spec_twitter_tool().parameters[0].0 == spec_twitter_tool().required[0]);
    }
}

/// When trading is not allowed the active catalog holds neither terminal
/// trade tool: the model cannot reach a trade decision at all.
pub proof fn lemma_terminal_tools_absent_when_not_allowed()
    ensures
        forall|i: int|
            0 <= i < spec_main_tools().shilling_not_allowed.len()
                ==> (#[trigger] spec_main_tools().shilling_not_allowed[i]).name
                != "approveShilling"@ && spec_main_tools().shilling_not_allowed[i].name
                != "rejectShilling"@,
        !spec_catalog_allows(Mode::TradingNotAllowed, ToolName::ApproveShilling),
        !spec_catalog_allows(Mode::TradingNotAllowed, ToolName::RejectShilling),
{
    reveal_strlit("approveShilling");
    reveal_strlit("rejectShilling");
    reveal_strlit("identifyPool");
    reveal_strlit("retrieveCurrentPortfolio");
    reveal_strlit("retrieveBuyExplanation");
    reveal_strlit("retrievePnlInformation");
    assert("approveShilling"@.len() == 15);
    assert("rejectShilling"@.len() == 14);
    assert("identifyPool"@.len() == 12);
    assert("retrieveCurrentPortfolio"@.len() == 24);
    assert("retrieveBuyExplanation"@.len() == 22);
    assert("retrievePnlInformation"@.len() == 22);
    assert forall|i: int| 0 <= i < spec_main_tools().shilling_not_allowed.len() implies (
    #[trigger] spec_main_tools().shilling_not_allowed[i]).name != "approveShilling"@
        && spec_main_tools().shilling_not_allowed[i].name != "rejectShilling"@ by {
        assert(spec_main_tools().shilling_not_allowed[0].name == "identifyPool"@);
        assert(spec_main_tools().shilling_not_allowed[1].name == "retrieveCurrentPortfolio"@);
        assert(spec_main_tools().shilling_not_allowed[2].name == "retrieveBuyExplanation"@);
        assert(spec_main_tools().shilling_not_allowed[3].name == "retrievePnlInformation"@);
        assert(i == 0 || i == 1 || i == 2 || i == 3);
    }
}

/// The permission predicate agrees with the declared catalog data: a
/// tool is allowed in a mode exactly when the mode's catalog declares a
/// tool of that wire name.
pub proof fn lemma_catalog_allows_matches_declared(mode: Mode, t: ToolName)
    ensures
        spec_catalog_allows(mode, t) <==> exists|i: int|
            0 <= i < spec_catalog_for(spec_main_tools(), mode).len() && (
            #[trigger] spec_catalog_for(spec_main_tools(), mode)[i]).name
                == crate::util::spec_tool_name_str(t),
{
    reveal_strlit("approveShilling");
    reveal_strlit("rejectShilling");
    reveal_strlit("identifyPool");
    reveal_strlit("fetch_pool_data");
    reveal_strlit("retrieveCurrentPortfolio");
    reveal_strlit("retrieveBuyExplanation");
    reveal_strlit("retrievePnlInformation");
    reveal_strlit("generatePostInTwitter");
    reveal_strlit("analyzeCallIdentifyPool");
    assert("approveShilling"@.len() == 15);
    assert("rejectShilling"@.len() == 14);
    assert("identifyPool"@.len() == 12);
    assert("fetch_pool_data"@.len() == 15);
    assert("retrieveCurrentPortfolio"@.len() == 24);
    assert("retrieveBuyExplanation"@.len() == 22);
    assert("retrievePnlInformation"@.len() == 22);
    assert("generatePostInTwitter"@.len() == 21);
    assert("analyzeCallIdentifyPool"@.len() == 23);
    assert("approveShilling"@[0] == 'a');
    assert("fetch_pool_data"@[0] == 'f');
    assert("retrieveBuyExplanation"@[8] == 'B');
    assert("retrievePnlInformation"@[8] == 'P');
    let cat = spec_catalog_for(spec_main_tools(), mode);
    let name = crate::util::spec_tool_name_str(t);
    if spec_catalog_allows(mode, t) {
        match mode {
            Mode::TradingAllowed => {
                match t {
                    ToolName::ApproveShilling => assert(cat[0].name == name),
                    ToolName::RejectShilling => assert(cat[1].name == name),
                    ToolName::IdentifyPool => assert(cat[2].name == name),
                    ToolName::FetchPoolData => assert(cat[3].name == name),
                    ToolName::RetrieveCurrentPortfolio => assert(cat[4].name == name),
                    ToolName::RetrieveBuyExplanation => assert(cat[5].name == name),
                    ToolName::RetrievePnlInformation => assert(cat[6].name == name),
                    _ => {},
                }
            },
            Mode::TradingNotAllowed => {
                match t {
                    ToolName::IdentifyPool => assert(cat[0].name == name),
                    ToolName::RetrieveCurrentPortfolio => assert(cat[1].name == name),
                    ToolName::RetrieveBuyExplanation => assert(cat[2].name == name),
                    ToolName::RetrievePnlInformation => assert(cat[3].name == name),
                    _ => {},
                }
            },
            Mode::SocialPost => {
                assert(cat[0].name == name);
            },
        }
    } else {
        assert forall|i: int| 0 <= i < cat.len() implies (#[trigger] cat[i]).name != name by {
            match mode {
                Mode::TradingAllowed => {
                    assert(cat[0].name == "approveShilling"@);
                    assert(cat[1].name == "rejectShilling"@);
                    assert(cat[2].name == "identifyPool"@);
                    assert(cat[3].name == "fetch_pool_data"@);
                    assert(cat[4].name == "retrieveCurrentPortfolio"@);
                    assert(cat[5].name == "retrieveBuyExplanation"@);
                    assert(cat[6].name == "retrievePnlInformation"@);
                },
                Mode::TradingNotAllowed => {
                    assert(cat[0].name == "identifyPool"@);
                    assert(cat[1].name == "retrieveCurrentPortfolio"@);
                    assert(cat[2].name == "retrieveBuyExplanation"@);
                    assert(cat[3].name == "retrievePnlInformation"@);
                },
                Mode::SocialPost => {
                    assert(cat[0].name == "generatePostInTwitter"@);
                },
            }
        }
    }
}

/// The fixed system guidance that opens every prompt.
#[verifier::opaque]
pub open spec fn spec_main_prompt() -> Seq<char> {
    "You are Kaja, a virtual trader who evaluates proposed meme-token purchases on the Raydium DEX on Solana. Analyze market data and strategy signals, stay skeptical yet open-minded, and never reveal your internal decision criteria. Before analyzing a token address, call identifyPool; call fetch_pool_data only once per request; decide with approveShilling or rejectShilling."@
}

/// The fixed system guidance that opens every prompt.
pub fn main_prompt() -> (r: &'static str)
    ensures
        r@ == spec_main_prompt(),
{
    proof {
        reveal(spec_main_prompt);
    }
    "You are Kaja, a virtual trader who evaluates proposed meme-token purchases on the Raydium DEX on Solana. Analyze market data and strategy signals, stay skeptical yet open-minded, and never reveal your internal decision criteria. Before analyzing a token address, call identifyPool; call fetch_pool_data only once per request; decide with approveShilling or rejectShilling."
}

/// The per-mode guidance appended after the main prompt.
#[verifier::opaque]
pub open spec fn spec_mode_guidance(mode: Mode) -> Seq<char> {
    match mode {
        Mode::TradingAllowed => "When handling a shilling request: first call identifyPool to verify the pool exists, then call fetch_pool_data exactly once to retrieve analytics, then decide by calling approveShilling or rejectShilling. Do not call any function more than necessary."@,
        Mode::TradingNotAllowed => "If the user provides a Raydium link or address, call identifyPool to verify that the pool exists, confirm cheerfully, and ask the user to complete the payment before any decision. Do not fetch analytics data and do not call any function more than necessary."@,
        Mode::SocialPost => "Generate a short social-media post about the trade and publish it by calling generatePostInTwitter."@,
    }
}

/// The per-mode guidance appended after the main prompt.
pub fn mode_guidance(mode: Mode) -> (r: &'static str)
    ensures
        r@ == spec_mode_guidance(mode),
{
    proof {
        reveal(spec_mode_guidance);
    }
    match mode {
        Mode::TradingAllowed => "When handling a shilling request: first call identifyPool to verify the pool exists, then call fetch_pool_data exactly once to retrieve analytics, then decide by calling approveShilling or rejectShilling. Do not call any function more than necessary.",
        Mode::TradingNotAllowed => "If the user provides a Raydium link or address, call identifyPool to verify that the pool exists, confirm cheerfully, and ask the user to complete the payment before any decision. Do not fetch analytics data and do not call any function more than necessary.",
        Mode::SocialPost => "Generate a short social-media post about the trade and publish it by calling generatePostInTwitter.",
    }
}

} // verus!
