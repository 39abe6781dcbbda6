//! The computational cores of the external-driver wrappers: quote-token
//! selection for a pool, the notification endpoint, prize-transfer
//! arithmetic, and the data shapes of the market and chain collaborators.
//! The network calls around them live in the surrounding application.

use vstd::prelude::*;

verus! {

/// The wrapped-SOL mint address: the base side of every pool this engine
/// trades against.
pub const WSOL_ADDRESS: &'static str = "So11111111111111111111111111111111111111112";

/// One mint of a pool pair.
#[derive(Clone, Debug)]
pub struct MintInfo {
    pub address: String,
    pub symbol: String,
}

/// Picks the quote token of a pool pair: the side that is not wrapped
/// SOL.  Where the second mint is wrapped SOL the pair is inverted and
/// the first mint is the quote token.
pub fn get_pool_quote_token_info<'a>(mint_a: &'a MintInfo, mint_b: &'a MintInfo) -> (r: &'a
    MintInfo)
    ensures
        mint_b.address@ != WSOL_ADDRESS@ ==> r == mint_b,
        mint_b.address@ == WSOL_ADDRESS@ ==> r == mint_a,
{
    if !crate::util::str_eq(mint_b.address.as_str(), WSOL_ADDRESS) {
        mint_b
    } else {
        mint_a
    }
}

/// Whether the quote token of a pool pair is the second mint.
pub fn get_pool_info(mint_b_address: &str) -> (r: bool)
    ensures
        r == (mint_b_address@ != WSOL_ADDRESS@),
{
    !crate::util::str_eq(mint_b_address, WSOL_ADDRESS)
}

/// The value a prize transfer can carry: the pool balance minus the fee
/// of a plain transfer at `gas_price`, or nothing where the balance does
/// not cover the fee.  A plain transfer costs 21000 gas.
pub fn transfer_prize_value(balance: u128, gas_price: u128) -> (r: Option<u128>)
    ensures
        gas_price * 21000 <= balance ==> r == Some((balance - gas_price * 21000) as u128),
        gas_price * 21000 > balance ==> r is None,
{
    if gas_price > u128::MAX / 21000 {
        proof {
            assert(gas_price * 21000 > u128::MAX) by (nonlinear_arith)
                requires
                    gas_price > u128::MAX / 21000,
            ;
        }
        None
    } else {
        proof {
            assert(gas_price * 21000 <= u128::MAX) by (nonlinear_arith)
                requires
                    gas_price <= u128::MAX / 21000,
            ;
        }
        let fee = gas_price * 21000;
        if fee <= balance {
            Some(balance - fee)
        } else {
            None
        }
    }
}

/// A notification channel: the endpoint URL derived from the token, and
/// the chat the messages go to.  Sending is the application's part.
#[derive(Clone, Debug)]
pub struct TelegramBot {
    pub url: String,
    pub chat: String,
}

impl TelegramBot {
    /// Builds the channel for `token` and `chat`.
    pub fn new(token: &str, chat: &str) -> (r: TelegramBot)
        ensures
            r.url@ == "https://api.telegram.org/bot"@ + token@,
            r.chat@ == chat@,
    {
        let url: String = "https://api.telegram.org/bot".to_owned().concat(token);
        TelegramBot { url, chat: chat.to_owned() }
    }

    /// The form parameters of one message send.
    pub fn message_params<'a>(&'a self, message: &'a str) -> (r: Vec<(&'static str, &'a str)>)
        ensures
            r.deep_view() =~= seq![("chat_id"@, self.chat@), ("text"@, message@)],
    {
        let r: Vec<(&'static str, &'a str)> = vec![("chat_id", self.chat.as_str()), ("text", message)];
        proof {
            assert(r.deep_view() =~= seq![("chat_id"@, self.chat@), ("text"@, message@)]);
        }
        r
    }
}

/// The answer of the market-data collaborator, as its API frames it.
#[derive(Clone, Debug)]
pub struct DexScreenerResponse {
    pub success: bool,
    pub data: Vec<DexScreenerToken>,
}

/// One token row of the market-data answer.
#[derive(Clone, Debug)]
pub struct DexScreenerToken {
    pub symbol: String,
    pub address: String,
    pub price_native: String,
}

/// Metadata of one chain transaction.
#[derive(Clone, Debug)]
pub struct Metadata {
    pub block_timestamp: String,
}

/// A raw contract reference in a transfer record.
#[derive(Clone, Debug)]
pub struct RawContract {
    pub address: String,
    pub value: i64,
    pub decimal: i32,
}

/// One token balance of a wallet.
#[derive(Clone, Debug)]
pub struct Balance {
    pub contract_address: String,
    pub value: i64,
    pub error: Option<String>,
}

/// A trading strategy: its rules as configuration text.
#[derive(Clone, Debug)]
pub struct Strategy {
    pub rules: String,
}

impl Strategy {
    /// A strategy from its rules text; reading the configuration file is
    /// the application's part.
    pub fn new(rules: String) -> (r: Strategy)
        ensures
            r.rules@ == rules@,
    {
        Strategy { rules }
    }
}

/// The relational-store handle: its connection string.  Connecting is the
/// application's part.
#[derive(Clone, Debug)]
pub struct DatabaseHelper {
    pub db_url: String,
}

impl DatabaseHelper {
    pub fn new(db_url: String) -> (r: DatabaseHelper)
        ensures
            r.db_url@ == db_url@,
    {
        DatabaseHelper { db_url }
    }
}

} // verus!
