//! Error taxonomy: chat-level errors, model/tool errors and the
//! exception-like markers used by the surrounding application.

use vstd::prelude::*;

verus! {

/// Errors of the chat API layer.
#[derive(Clone, Copy, Debug, PartialEq, Eq, Structural)]
pub enum ChatErrors {
    GoogleApiResourceExhausted,
    ChatNotFound,
    UserNotOwner,
}

impl ChatErrors {
    /// The user-facing description of the error.
    pub fn message(&self) -> (r: &'static str)
        ensures
            self is GoogleApiResourceExhausted ==> r@ == "Google API quota limits reached"@,
            self is ChatNotFound ==> r@ == "Chat not found!"@,
            self is UserNotOwner ==> r@ == "That's not your chat!"@,
    {
        match self {
            ChatErrors::GoogleApiResourceExhausted => "Google API quota limits reached",
            ChatErrors::ChatNotFound => "Chat not found!",
            ChatErrors::UserNotOwner => "That's not your chat!",
        }
    }
}

/// Errors of the model-dispatch layer.
#[derive(Clone, Copy, Debug, PartialEq, Eq, Structural)]
pub enum LLMErrors {
    CallFunctionError,
    TwitterPostError,
}

impl LLMErrors {
    /// The user-facing description of the error.
    pub fn message(&self) -> (r: &'static str)
        ensures
            self is CallFunctionError ==> r@ == "Call function error!"@,
            self is TwitterPostError ==> r@ == "Twitter post error!"@,
    {
        match self {
            LLMErrors::CallFunctionError => "Call function error!",
            LLMErrors::TwitterPostError => "Twitter post error!",
        }
    }
}

/// A proof-of-payment record could not be created.
#[derive(Clone, Copy, Debug, PartialEq, Eq, Structural)]
pub struct FailedProofCreateError;

impl FailedProofCreateError {
    pub fn message(&self) -> (r: &'static str)
        ensures
            r@ == "Failed to create proof"@,
    {
        "Failed to create proof"
    }
}

/// The caller exhausted its usage quota.
#[derive(Clone, Copy, Debug, PartialEq, Eq, Structural)]
pub struct QuotaLimitReachError;

impl QuotaLimitReachError {
    pub fn message(&self) -> (r: &'static str)
        ensures
            r@ == "Quota limit reached"@,
    {
        "Quota limit reached"
    }
}

/// The caller is not authorized for the requested operation.
#[derive(Clone, Copy, Debug, PartialEq, Eq, Structural)]
pub struct NotAuthorized;

impl NotAuthorized {
    pub fn message(&self) -> (r: &'static str)
        ensures
            r@ == "Not authorized"@,
    {
        "Not authorized"
    }
}

/// Failures of the external analytics collaborator.
#[derive(Clone, Copy, Debug, PartialEq, Eq, Structural)]
pub enum DexScreenerError {
    /// Error fetching or processing data from the DexScreener API.
    DataError,
    /// The provided base token is not a valid or supported token.
    TokenError,
}

impl DexScreenerError {
    /// The user-facing description of the error.
    pub fn message(&self) -> (r: &'static str)
        ensures
            self is DataError ==> r@ == "Error fetching or processing data from DexScreener API"@,
            self is TokenError ==> r@ == "Incorrect baseToken provided"@,
    {
        match self {
            DexScreenerError::DataError => "Error fetching or processing data from DexScreener API",
            DexScreenerError::TokenError => "Incorrect baseToken provided",
        }
    }
}

/// Why a requested tool call cannot be executed.
#[derive(Clone, Copy, Debug, PartialEq, Eq, Structural)]
pub enum ToolError {
    /// The name is not offered by the active catalog; the branch aborts.
    UnknownTool,
    /// A required parameter is missing or the payload is malformed; the
    /// model is told so and may correct itself.
    InvalidArguments,
    /// The external collaborator failed; reported as a failure text.
    UpstreamFailure,
}

/// A failure of the model backend, surfaced to the caller unchanged.
#[derive(Clone, Copy, Debug, PartialEq, Eq, Structural)]
pub enum BackendFailure {
    /// Quota or resource exhaustion reported by the backend.
    QuotaExhausted,
    /// A transport-level failure, including a missing reply.
    Transport,
}

/// The call-level errors of one orchestration call.  All other failures
/// are absorbed into the conversation as a discuss-shaped outcome.
#[derive(Clone, Copy, Debug, PartialEq, Eq, Structural)]
pub enum CallError {
    /// The model backend failed; the session history is left unchanged.
    ModelBackendFailure(BackendFailure),
    /// The call did not converge within the configured number of rounds.
    LoopBoundExceeded,
}

} // verus!
