//! String helpers, tool-name resolution, session-id generation and the
//! decoding of model-supplied tool arguments.

use vstd::prelude::*;
use crate::types::ToolName;

verus! {

/// Equality of two string slices, specified over their character sequences.
pub fn str_eq(a: &str, b: &str) -> (r: bool)
    ensures
        r == (a@ == b@),
{
    let sa: String = a.to_owned();
    let sb: String = b.to_owned();
    sa == sb
}

/// The wire name of each tool, as the model and the catalogs spell it.
pub open spec fn spec_tool_name_str(t: ToolName) -> Seq<char> {
    match t {
        ToolName::ApproveShilling => "approveShilling"@,
        ToolName::RejectShilling => "rejectShilling"@,
        ToolName::IdentifyPool => "identifyPool"@,
        ToolName::FetchPoolData => "fetch_pool_data"@,
        ToolName::RetrieveCurrentPortfolio => "retrieveCurrentPortfolio"@,
        ToolName::RetrieveBuyExplanation => "retrieveBuyExplanation"@,
        ToolName::RetrievePnlInformation => "retrievePnlInformation"@,
        ToolName::GeneratePostInTwitter => "generatePostInTwitter"@,
        ToolName::AnalyzeCallIdentifyPool => "analyzeCallIdentifyPool"@,
    }
}

pub fn tool_name_str(t: ToolName) -> (r: &'static str)
    ensures
        r@ == spec_tool_name_str(t),
{
    match t {
        ToolName::ApproveShilling => "approveShilling",
        ToolName::RejectShilling => "rejectShilling",
        ToolName::IdentifyPool => "identifyPool",
        ToolName::FetchPoolData => "fetch_pool_data",
        ToolName::RetrieveCurrentPortfolio => "retrieveCurrentPortfolio",
        ToolName::RetrieveBuyExplanation => "retrieveBuyExplanation",
        ToolName::RetrievePnlInformation => "retrievePnlInformation",
        ToolName::GeneratePostInTwitter => "generatePostInTwitter",
        ToolName::AnalyzeCallIdentifyPool => "analyzeCallIdentifyPool",
    }
}

/// Which tool a wire name denotes, if any.
pub open spec fn spec_tool_name_of(s: Seq<char>) -> Option<ToolName> {
    if s == "approveShilling"@ {
        Some(ToolName::ApproveShilling)
    } else if s == "rejectShilling"@ {
        Some(ToolName::RejectShilling)
    } else if s == "identifyPool"@ {
        Some(ToolName::IdentifyPool)
    } else if s == "fetch_pool_data"@ {
        Some(ToolName::FetchPoolData)
    } else if s == "retrieveCurrentPortfolio"@ {
        Some(ToolName::RetrieveCurrentPortfolio)
    } else if s == "retrieveBuyExplanation"@ {
        Some(ToolName::RetrieveBuyExplanation)
    } else if s == "retrievePnlInformation"@ {
        Some(ToolName::RetrievePnlInformation)
    } else if s == "generatePostInTwitter"@ {
        Some(ToolName::GeneratePostInTwitter)
    } else if s == "analyzeCallIdentifyPool"@ {
        Some(ToolName::AnalyzeCallIdentifyPool)
    } else {
        None
    }
}

pub fn tool_name_of(name: &str) -> (r: Option<ToolName>)
    ensures
        r == spec_tool_name_of(name@),
{
    if str_eq(name, "approveShilling") {
        Some(ToolName::ApproveShilling)
    } else if str_eq(name, "rejectShilling") {
        Some(ToolName::RejectShilling)
    } else if str_eq(name, "identifyPool") {
        Some(ToolName::IdentifyPool)
    } else if str_eq(name, "fetch_pool_data") {
        Some(ToolName::FetchPoolData)
    } else if str_eq(name, "retrieveCurrentPortfolio") {
        Some(ToolName::RetrieveCurrentPortfolio)
    } else if str_eq(name, "retrieveBuyExplanation") {
        Some(ToolName::RetrieveBuyExplanation)
    } else if str_eq(name, "retrievePnlInformation") {
        Some(ToolName::RetrievePnlInformation)
    } else if str_eq(name, "generatePostInTwitter") {
        Some(ToolName::GeneratePostInTwitter)
    } else if str_eq(name, "analyzeCallIdentifyPool") {
        Some(ToolName::AnalyzeCallIdentifyPool)
    } else {
        None
    }
}

/// A fresh opaque session identifier.
///
/// Relies on `uuid::Uuid::new_v4` and its `Display` implementation: a
/// version-4 UUID rendered in the hyphenated form, which is always 36
/// ASCII characters.  The value is random, so nothing more is promised.
#[verifier::external_body]
pub fn generate_session_id() -> (r: String)
    ensures
        r@.len() == 36,
{
    uuid::Uuid::new_v4().to_string()
}

/// First-match lookup in a sequence of key/value pairs.
pub open spec fn seq_lookup(s: Seq<(Seq<char>, Seq<char>)>, key: Seq<char>) -> Option<Seq<char>>
    decreases s.len(),
{
    if s.len() == 0 {
        None
    } else if s[0].0 == key {
        Some(s[0].1)
    } else {
        seq_lookup(s.drop_first(), key)
    }
}

/// The map described by a sequence of key/value pairs, earlier pairs
/// taking precedence.
pub open spec fn pairs_to_map(s: Seq<(Seq<char>, Seq<char>)>) -> Map<Seq<char>, Seq<char>> {
    Map::new(|k: Seq<char>| seq_lookup(s, k) is Some, |k: Seq<char>| seq_lookup(s, k)->Some_0)
}

/// Pushes onto a vector, tracked at the level of deep views.
pub fn push_deep<T: DeepView>(v: &mut Vec<T>, t: T)
    ensures
        final(v).deep_view() == old(v).deep_view().push(t.deep_view()),
{
    let ghost pre = v@;
    let ghost pre_deep = v.deep_view();
    let ghost tdv = t.deep_view();
    v.push(t);
    proof {
        assert forall|j: int| 0 <= j < v@.len() implies #[trigger] v.deep_view()[j] == pre_deep.push(
            tdv,
        )[j] by {
            assert(v.deep_view()[j] == v@[j].deep_view());
            if j < pre.len() {
                assert(v@[j] == pre[j]);
                assert(pre_deep[j] == pre[j].deep_view());
            }
        }
        assert(v.deep_view() =~= pre_deep.push(tdv));
    }
}

/// Removes and returns the first element, tracked at the level of deep
/// views.
pub fn take_first<T: DeepView>(v: &mut Vec<T>) -> (r: T)
    requires
        old(v).len() > 0,
    ensures
        r.deep_view() == old(v).deep_view()[0],
        final(v).deep_view() == old(v).deep_view().drop_first(),
{
    let ghost pre = v@;
    let ghost pre_deep = v.deep_view();
    let r = v.remove(0);
    proof {
        assert(pre_deep[0] == pre[0].deep_view());
        assert forall|j: int| 0 <= j < v@.len() implies #[trigger] v.deep_view()[j]
            == pre_deep.drop_first()[j] by {
            assert(v.deep_view()[j] == v@[j].deep_view());
            assert(v@[j] == pre[j + 1]);
            assert(pre_deep[j + 1] == pre[j + 1].deep_view());
        }
        assert(v.deep_view() =~= pre_deep.drop_first());
    }
    r
}

/// The induced map looks up exactly what the first-match search finds.
pub proof fn lemma_pairs_to_map_lookup(s: Seq<(Seq<char>, Seq<char>)>, k: Seq<char>)
    ensures
        pairs_to_map(s).dom().contains(k) == (seq_lookup(s, k) is Some),
        seq_lookup(s, k) matches Some(v) ==> pairs_to_map(s)[k] == v,
{
}

/// The string entries of the JSON object that `text` encodes, or `None`
/// where `text` is not a JSON object of string values.
pub uninterp spec fn json_string_entries(text: Seq<char>) -> Option<Map<Seq<char>, Seq<char>>>;

/// Decodes a tool-argument payload: a JSON object whose values are strings.
///
/// Relies on `serde_json::from_str::<HashMap<String, String>>`: decoding
/// succeeds exactly on JSON objects of string values, and the decoded
/// entries are a function of the text alone.  The iteration order of the
/// returned pairs is arbitrary, so only the induced map is specified.
#[verifier::external_body]
fn parse_string_map(text: &str) -> (r: Option<Vec<(String, String)>>)
    ensures
        (r is Some) == (json_string_entries(text@) is Some),
        r matches Some(v) ==> json_string_entries(text@) == Some(pairs_to_map(v.deep_view())),
{
    match serde_json::from_str::<std::collections::HashMap<String, String>>(text) {
        Ok(m) => {
            let mut v: Vec<(String, String)> = Vec::new();
            for (k, val) in m {
                v.push((k, val));
            }
            Some(v)
        }
        Err(_) => None,
    }
}

/// Decodes a tool-argument payload into key/value pairs whose induced map
/// is the set of string entries of the JSON object `text` encodes.
pub fn parse_arguments(text: &str) -> (r: Option<Vec<(String, String)>>)
    ensures
        (r is Some) == (json_string_entries(text@) is Some),
        r matches Some(v) ==> json_string_entries(text@) == Some(pairs_to_map(v.deep_view())),
{
    parse_string_map(text)
}

proof fn lemma_seq_lookup_skip(s: Seq<(Seq<char>, Seq<char>)>, key: Seq<char>, i: int)
    requires
        0 <= i < s.len(),
        s[i].0 != key,
    ensures
        seq_lookup(s.skip(i), key) == seq_lookup(s.skip(i + 1), key),
{
    assert(s.skip(i).len() > 0);
    assert(s.skip(i)[0] == s[i]);
    assert(s.skip(i).drop_first() =~= s.skip(i + 1));
}

/// The value bound to `key` among `args`, searching in order.
pub fn get_arg(args: &Vec<(String, String)>, key: &str) -> (r: Option<String>)
    ensures
        r.deep_view() == seq_lookup(args.deep_view(), key@),
{
    let ghost full: Seq<(Seq<char>, Seq<char>)> = args.deep_view();
    proof {
        assert(full.skip(0) =~= full);
    }
    let mut i: usize = 0;
    while i < args.len()
        invariant
            0 <= i <= args.len(),
            full == args.deep_view(),
            seq_lookup(full, key@) == seq_lookup(full.skip(i as int), key@),
        decreases args.len() - i,
    {
        assert(full.skip(i as int)[0] == full[i as int]);
        if str_eq(args[i].0.as_str(), key) {
            let result = Some(args[i].1.clone());
            assert(seq_lookup(full.skip(i as int), key@) == Some(full[i as int].1));
            return result;
        }
        proof {
            lemma_seq_lookup_skip(full, key@, i as int);
        }
        i = i + 1;
    }
    assert(full.skip(args.len() as int) =~= Seq::empty());
    None
}

} // verus!
