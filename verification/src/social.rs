//! The social-post flow: a single-shot transformation from an executed
//! trade to the prompt that asks the model for a short post, and the
//! user-facing text of a closed selling trade.  The model invocation and
//! the publication are performed by the surrounding application; the
//! numbers arrive pre-rendered because their formatting is done there.

use vstd::prelude::*;

verus! {

/// The ASCII-lowercased image of a character.
pub open spec fn spec_lower_char(c: char) -> char {
    match c {
        'A' => 'a',
        'B' => 'b',
        'C' => 'c',
        'D' => 'd',
        'E' => 'e',
        'F' => 'f',
        'G' => 'g',
        'H' => 'h',
        'I' => 'i',
        'J' => 'j',
        'K' => 'k',
        'L' => 'l',
        'M' => 'm',
        'N' => 'n',
        'O' => 'o',
        'P' => 'p',
        'Q' => 'q',
        'R' => 'r',
        'S' => 's',
        'T' => 't',
        'U' => 'u',
        'V' => 'v',
        'W' => 'w',
        'X' => 'x',
        'Y' => 'y',
        'Z' => 'z',
        _ => c,
    }
}

/// The ASCII-lowercased image of a text.
pub open spec fn spec_lower(s: Seq<char>) -> Seq<char> {
    s.map_values(|c: char| spec_lower_char(c))
}

fn lower_char(c: char) -> (r: char)
    ensures
        r == spec_lower_char(c),
{
    match c {
        'A' => 'a',
        'B' => 'b',
        'C' => 'c',
        'D' => 'd',
        'E' => 'e',
        'F' => 'f',
        'G' => 'g',
        'H' => 'h',
        'I' => 'i',
        'J' => 'j',
        'K' => 'k',
        'L' => 'l',
        'M' => 'm',
        'N' => 'n',
        'O' => 'o',
        'P' => 'p',
        'Q' => 'q',
        'R' => 'r',
        'S' => 's',
        'T' => 't',
        'U' => 'u',
        'V' => 'v',
        'W' => 'w',
        'X' => 'x',
        'Y' => 'y',
        'Z' => 'z',
        _ => c,
    }
}

/// Equality of two texts up to ASCII case.
pub fn eq_ignore_ascii_case(a: &str, b: &str) -> (r: bool)
    ensures
        r == (spec_lower(a@) == spec_lower(b@)),
{
    let la = a.unicode_len();
    let lb = b.unicode_len();
    if la != lb {
        proof {
            assert(spec_lower(a@).len() == a@.len());
            assert(spec_lower(b@).len() == b@.len());
        }
        return false;
    }
    let mut i: usize = 0;
    while i < la
        invariant
            la == a@.len(),
            la == b@.len(),
            0 <= i <= la,
            forall|j: int| 0 <= j < i ==> spec_lower(a@)[j] == spec_lower(b@)[j],
        decreases la - i,
    {
        let ca = lower_char(a.get_char(i));
        let cb = lower_char(b.get_char(i));
        if ca != cb {
            proof {
                assert(spec_lower(a@)[i as int] == spec_lower_char(a@[i as int]));
                assert(spec_lower(b@)[i as int] == spec_lower_char(b@[i as int]));
            }
            return false;
        }
        proof {
            assert(spec_lower(a@)[i as int] == spec_lower_char(a@[i as int]));
            assert(spec_lower(b@)[i as int] == spec_lower_char(b@[i as int]));
        }
        i = i + 1;
    }
    proof {
        assert(spec_lower(a@) =~= spec_lower(b@));
    }
    true
}

/// The inputs of a trade post, with the numbers already rendered.
#[derive(Clone, Debug)]
pub struct TradePostData {
    pub trade_type: String,
    pub token_symbol: String,
    pub token_name: String,
    pub quote_token_quantity: String,
    pub base_token_quantity_sol: String,
    pub solscan_link: String,
    pub user_wallet: String,
    pub sell_pnl_message: String,
}

/// The prompt that asks the model for a trade post.
pub open spec fn spec_trade_post_prompt(d: TradePostData) -> Seq<char> {
    "I need to publish a post with trade type: `"@ + d.trade_type@
        + "`. For PNL, do not use scientific format.\nToken ticker: "@ + d.token_symbol@
        + ", full name: "@ + d.token_name@ + "\n- Amount of token: "@ + d.quote_token_quantity@
        + " ("@ + d.base_token_quantity_sol@ + " SOL)\n- Sol scan link: "@ + d.solscan_link@
        + "\n- User wallet address: "@ + d.user_wallet@ + "\n"@ + d.sell_pnl_message@
}

/// Builds the prompt that asks the model to publish a post about the
/// trade.  A trade type other than `buy` or `sell` (in any ASCII case)
/// is rejected.
pub fn generate_twitter_post(d: &TradePostData) -> (r: Result<String, String>)
    ensures
        (r is Ok) == (spec_lower(d.trade_type@) == "buy"@ || spec_lower(d.trade_type@)
            == "sell"@),
        r matches Ok(p) ==> p@ == spec_trade_post_prompt(*d),
        r matches Err(e) ==> e@ == "trade_type must be either 'buy' or 'sell'"@,
{
    proof {
        reveal_strlit("buy");
        reveal_strlit("sell");
        assert(spec_lower("buy"@) =~= "buy"@);
        assert(spec_lower("sell"@) =~= "sell"@);
    }
    if !(eq_ignore_ascii_case(d.trade_type.as_str(), "buy") || eq_ignore_ascii_case(
        d.trade_type.as_str(),
        "sell",
    )) {
        return Err("trade_type must be either 'buy' or 'sell'".to_owned());
    }
    let p: String = "I need to publish a post with trade type: `".to_owned().concat(
        d.trade_type.as_str(),
    ).concat("`. For PNL, do not use scientific format.\nToken ticker: ").concat(
        d.token_symbol.as_str(),
    ).concat(", full name: ").concat(d.token_name.as_str()).concat("\n- Amount of token: ").concat(
        d.quote_token_quantity.as_str(),
    ).concat(" (").concat(d.base_token_quantity_sol.as_str()).concat(
        " SOL)\n- Sol scan link: ",
    ).concat(d.solscan_link.as_str()).concat("\n- User wallet address: ").concat(
        d.user_wallet.as_str(),
    ).concat("\n").concat(d.sell_pnl_message.as_str());
    Ok(p)
}

/// The inputs of a closed selling trade, with the numbers already
/// rendered.
#[derive(Clone, Debug)]
pub struct SellingTextData {
    pub quote_token_quantity: String,
    pub token_symbol: String,
    pub base_token_quantity: String,
    pub pnl: String,
    pub percentage_pnl: String,
    pub tx_id: String,
    pub profitable: bool,
    pub shared_amount: String,
    pub transfer_signature: String,
}

/// The profit-sharing line of a closed selling trade.
pub open spec fn spec_selling_aux_message(d: SellingTextData) -> Seq<char> {
    if d.profitable {
        "I've shared with you "@ + d.shared_amount@
            + " SOL (50% of my profit)! Check the transfer at https://solscan.io/tx/"@
            + d.transfer_signature@
    } else {
        "Unfortunately, I didn't profit from this trade, so I couldn't share any funds."@
    }
}

/// The prompt that asks the model for the user-facing selling message.
pub open spec fn spec_selling_text_prompt(d: SellingTextData) -> Seq<char> {
    "I sold "@ + d.quote_token_quantity@ + " "@ + d.token_symbol@ + " for "@
        + d.base_token_quantity@ + " SOL. My PNL is "@ + d.pnl@ + " SOL ("@ + d.percentage_pnl@
        + "%).\nSwap details: https://solscan.io/tx/"@ + d.tx_id@ + ".\n"@
        + spec_selling_aux_message(d)
}

/// Builds the prompt that asks the model to narrate a closed selling
/// trade, sharing half the profit where there was one.
pub fn generate_selling_text(d: &SellingTextData) -> (r: String)
    ensures
        r@ == spec_selling_text_prompt(*d),
{
    let aux: String = if d.profitable {
        "I've shared with you ".to_owned().concat(d.shared_amount.as_str()).concat(
            " SOL (50% of my profit)! Check the transfer at https://solscan.io/tx/",
        ).concat(d.transfer_signature.as_str())
    } else {
        "Unfortunately, I didn't profit from this trade, so I couldn't share any funds.".to_owned()
    };
    "I sold ".to_owned().concat(d.quote_token_quantity.as_str()).concat(" ").concat(
        d.token_symbol.as_str(),
    ).concat(" for ").concat(d.base_token_quantity.as_str()).concat(" SOL. My PNL is ").concat(
        d.pnl.as_str(),
    ).concat(" SOL (").concat(d.percentage_pnl.as_str()).concat(
        "%).\nSwap details: https://solscan.io/tx/",
    ).concat(d.tx_id.as_str()).concat(".\n").concat(aux.as_str())
}

} // verus!
