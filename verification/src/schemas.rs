//! The response schema handed back to callers of the chat endpoints.

use vstd::prelude::*;

verus! {

/// A rendered model response: the text, the decision tag as text, and
/// optional auxiliary key/value data.
#[derive(Debug)]
pub struct LLmResponse {
    pub text: String,
    pub decision: String,
    pub aux_data: Option<std::collections::HashMap<String, String>>,
}

impl LLmResponse {
    /// Builds a response from its parts.
    pub fn new_llm_response(
        text: &str,
        decision: &str,
        aux_data: Option<std::collections::HashMap<String, String>>,
    ) -> (r: LLmResponse)
        ensures
            r.text@ == text@,
            r.decision@ == decision@,
            r.aux_data == aux_data,
    {
        LLmResponse { text: text.to_owned(), decision: decision.to_owned(), aux_data }
    }

    /// Builds a response from its parts.
    pub fn new(
        text: &str,
        decision: &str,
        aux_data: Option<std::collections::HashMap<String, String>>,
    ) -> (r: LLmResponse)
        ensures
            r.text@ == text@,
            r.decision@ == decision@,
            r.aux_data == aux_data,
    {
        LLmResponse::new_llm_response(text, decision, aux_data)
    }
}

} // verus!
