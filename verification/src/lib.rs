//! A conversational decision-orchestration engine.
//!
//! The engine mediates between a language-model backend and a fixed set of
//! domain tools (pool lookup, market analytics, portfolio queries, trade
//! approve/reject, social-post publication).  Given a user message plus
//! session context it decides — through one or more rounds of model
//! invocation and tool execution — whether to discuss, approve, or reject a
//! proposed token purchase, while enforcing call-ordering rules that keep the
//! model from skipping mandatory verification steps or repeating expensive
//! lookups.
//!
//! All decision logic lives here and is verified; the model backend, the
//! session store and the tool collaborators are external and are driven by
//! the surrounding application through the step functions of
//! [`orchestrator`].

use vstd::prelude::*;

pub mod types;
pub mod util;
pub mod decimal;
pub mod prompts;
pub mod errors;
pub mod model;
pub mod orchestrator;
pub mod laws;
pub mod session;
pub mod schemas;
pub mod api;
pub mod config;
pub mod drivers;
pub mod social;
pub mod actions;
