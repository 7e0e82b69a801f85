//! Client-side enforcement gateway adapter for a policy-enforcement sidecar.
//!
//! Before an agent runs a tool call, the caller packages the call's context
//! into a canonical [`ToolInvocation`], submits it to the sidecar over HTTP,
//! and receives a binding [`DecisionRecord`] (or a typed [`Error`]).
//!
//! This crate holds the verified core: the data model, configuration
//! resolution, the canonical JSON payload encoding, the outgoing request
//! plans, and above all the failure-mode contract — what the client returns
//! when the sidecar is unreachable (fail-closed error or a clearly marked
//! degraded record) versus when it answers with an explicit error status
//! (always a hard error, never downgraded). The network exchange itself is
//! performed by an unverified shell that executes a [`RequestPlan`] and hands
//! the raw outcome back as a [`SidecarReply`].

pub mod client;
pub mod config;
pub mod jsonenc;
pub mod model;

pub use client::Client;
pub use client::DecideStep;
pub use client::Error;
pub use client::Method;
pub use client::RequestPlan;
pub use client::SidecarReply;
pub use config::Config;
pub use model::Actor;
pub use model::Agent;
pub use model::BudgetStatus;
pub use model::DecisionEvidence;
pub use model::DecisionRecord;
pub use model::ExecutionContext;
pub use model::ParamValue;
pub use model::Tool;
pub use model::ToolInvocation;
pub use model::ToolRequest;
