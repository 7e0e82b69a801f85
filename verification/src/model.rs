//! Canonical request and response structures: pure schema, no logic.
//!
//! Every string field is caller-supplied and transported faithfully; the
//! client rejects nothing locally — validation is the sidecar's job.

use vstd::prelude::*;

verus! {

/// Who or what is invoking the tool.
#[derive(Debug, Clone)]
pub struct Actor {
    /// Actor kind (serialized under the key `type`).
    pub type_: String,
    pub id: String,
    pub workspace_id: String,
    pub session_id: String,
}

/// Software identity of the agent making the call.
#[derive(Debug, Clone)]
pub struct Agent {
    pub name: String,
    pub version: String,
    pub framework: String,
    pub trust_tier: String,
}

/// The target capability being invoked.
#[derive(Debug, Clone)]
pub struct Tool {
    pub name: String,
    pub provider: String,
    pub capabilities: Vec<String>,
    pub risk_class: String,
}

/// A structured parameter value, mirroring the JSON value grammar the
/// sidecar accepts (floating-point numbers excepted).
#[derive(Debug)]
pub enum ParamValue {
    Null,
    Bool(bool),
    Int(i64),
    Str(String),
    List(Vec<ParamValue>),
    Object(Vec<(String, ParamValue)>),
}

/// Tool call parameters and resource references.
#[derive(Debug)]
pub struct ToolRequest {
    /// Key -> structured-value parameter mapping, in caller order.
    pub params: Vec<(String, ParamValue)>,
    /// Ordered resource reference strings.
    pub resource_refs: Vec<String>,
}

impl Default for ToolRequest {
    /// An empty request: no parameters, no resource references.
    fn default() -> (r: Self)
        ensures
            r.params@.len() == 0,
            r.resource_refs@.len() == 0,
    {
        ToolRequest { params: Vec::new(), resource_refs: Vec::new() }
    }
}

/// Execution environment metadata.
#[derive(Debug, Clone)]
pub struct ExecutionContext {
    pub repo: String,
    pub environment: String,
    pub data_classification: String,
    pub network_zone: String,
}

/// Canonical enforcement request payload, immutable once built.
#[derive(Debug)]
pub struct ToolInvocation {
    /// Opaque caller-assigned id, stable across retries of the same call.
    pub invocation_id: String,
    /// RFC 3339 timestamp text, caller-supplied.
    pub timestamp: String,
    pub actor: Actor,
    pub agent: Agent,
    pub tool: Tool,
    pub request: ToolRequest,
    pub context: ExecutionContext,
}

/// Budget snapshot for a single capability.
#[derive(Debug, Clone)]
pub struct BudgetStatus {
    pub remaining: u64,
    pub limit: u64,
}

/// Signed attestation evidence attached to a decision.
#[derive(Debug, Clone)]
pub struct DecisionEvidence {
    pub hash: String,
    pub signature: String,
    pub key_id: String,
}

impl Default for DecisionEvidence {
    /// Empty evidence: all three attestation strings empty.
    fn default() -> (r: Self)
        ensures
            r.hash@ == Seq::<char>::empty(),
            r.signature@ == Seq::<char>::empty(),
            r.key_id@ == Seq::<char>::empty(),
    {
        DecisionEvidence { hash: String::new(), signature: String::new(), key_id: String::new() }
    }
}

/// Enforcement decision, as returned by the sidecar or synthesized locally
/// in degraded fail-open mode.
#[derive(Debug, Clone)]
pub struct DecisionRecord {
    /// Echo of the request's `invocation_id`; callers should verify it as a
    /// correlation check.
    pub invocation_id: String,
    /// Open decision tag; known values are `ALLOW`, `DENY`, `FAIL` and
    /// `REQUIRE_APPROVAL`, but the sidecar may introduce new ones.
    pub decision: String,
    /// Finer-grained machine-readable reason code.
    pub decision_code: String,
    /// Ordered list of contributing reasons.
    pub reason_codes: Vec<String>,
    pub policy_version: String,
    /// Capability name -> budget snapshot.
    pub budgets: Vec<(String, BudgetStatus)>,
    pub evidence: DecisionEvidence,
    /// True iff this record was synthesized locally rather than returned by
    /// the sidecar, or the sidecar itself signals degraded operation.
    pub degraded: bool,
    pub entitlement_version: String,
    pub license_mode: String,
}

} // verus!
