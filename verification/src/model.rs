//! The model-invocation boundary: what one chat-completion call returns.
//!
//! The backend reply is a tagged union: exactly one of literal content or a
//! single requested tool call, never both and never neither.  A raw backend
//! response that carries neither, or more than one tool call, is mapped by
//! the surrounding application to a transport failure before it reaches the
//! engine, so silent truncation can never drop a decision the model made.

use vstd::prelude::*;
use crate::errors::BackendFailure;

verus! {

/// A tool call as the model emits it: a wire name, the argument payload as
/// JSON text, and the backend-chosen call id.
#[derive(Clone, Debug)]
pub struct RawToolCall {
    pub name: String,
    pub arguments: String,
    pub call_id: String,
}

/// Specification-level image of a [`RawToolCall`].
#[verifier::ext_equal]
pub struct SpecRawToolCall {
    pub name: Seq<char>,
    pub arguments: Seq<char>,
    pub call_id: Seq<char>,
}

impl DeepView for RawToolCall {
    type V = SpecRawToolCall;

    open spec fn deep_view(&self) -> SpecRawToolCall {
        SpecRawToolCall {
            name: self.name.deep_view(),
            arguments: self.arguments.deep_view(),
            call_id: self.call_id.deep_view(),
        }
    }
}

/// What the model answered: literal content, or one requested tool call.
#[derive(Clone, Debug)]
pub enum ModelReply {
    Content(String),
    ToolRequest(RawToolCall),
}

/// Specification-level image of a [`ModelReply`].
#[verifier::ext_equal]
pub enum SpecModelReply {
    Content(Seq<char>),
    ToolRequest(SpecRawToolCall),
}

impl DeepView for ModelReply {
    type V = SpecModelReply;

    open spec fn deep_view(&self) -> SpecModelReply {
        match self {
            ModelReply::Content(s) => SpecModelReply::Content(s.deep_view()),
            ModelReply::ToolRequest(c) => SpecModelReply::ToolRequest(c.deep_view()),
        }
    }
}

/// The result of one model invocation.
#[derive(Clone, Debug)]
pub enum ModelResult {
    Reply(ModelReply),
    Failure(BackendFailure),
}

/// Specification-level image of a [`ModelResult`].
#[verifier::ext_equal]
pub enum SpecModelResult {
    Reply(SpecModelReply),
    Failure(BackendFailure),
}

impl DeepView for ModelResult {
    type V = SpecModelResult;

    open spec fn deep_view(&self) -> SpecModelResult {
        match self {
            ModelResult::Reply(r) => SpecModelResult::Reply(r.deep_view()),
            ModelResult::Failure(f) => SpecModelResult::Failure(*f),
        }
    }
}

} // verus!
