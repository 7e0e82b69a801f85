//! The decision client core: request plans, reply resolution, and the
//! fail-open/fail-closed contract.
//!
//! The client performs exactly one bounded-time exchange per operation. The
//! exchange itself is I/O and is carried out by an unverified shell: the
//! verified code builds a [`RequestPlan`] saying exactly what to send, the
//! shell sends it and hands back a [`SidecarReply`] (either a transport-level
//! failure or a raw status and body), and the verified resolvers turn that
//! reply into exactly one of {decision, fail-closed error, fail-open degraded
//! decision}. The central property, stated in [`decide_resolution`] and the
//! law lemmas below: the fail-open/fail-closed split exists only around
//! unreachability, never around an explicit rejection.

use vstd::prelude::*;
use vstd::string::*;

use crate::config::Config;
use crate::jsonenc::dec_nat;
use crate::jsonenc::encode_decide_payload;
use crate::jsonenc::encode_object;
use crate::jsonenc::spec_decide_payload;
use crate::jsonenc::spec_object_json;
use crate::jsonenc::u64_dec;
use crate::model::DecisionEvidence;
use crate::model::DecisionRecord;
use crate::model::ParamValue;
use crate::model::ToolInvocation;

verus! {

/// Errors returned by the client.
#[derive(Debug, Clone)]
pub enum Error {
    /// Transport-level failure to reach the sidecar, surfaced only when
    /// fail-open is disabled; the caller must treat it as "deny by default".
    EnforcerUnavailable(String),
    /// The sidecar answered with a non-success status; always surfaced,
    /// regardless of the fail-open posture.
    SidecarError(u16, String),
    /// A success response whose body did not match the expected schema.
    Json(String),
    /// Transport-level failure on a diagnostic path (health probing).
    Http(String),
}

/// Human-readable rendering of an error, one fixed prefix per kind.
pub open spec fn spec_error_message(e: Error) -> Seq<char> {
    match e {
        Error::EnforcerUnavailable(d) => ("sidecar unreachable (fail-closed): ")@ + d@,
        Error::SidecarError(s, b) => ("sidecar returned error status ")@ + dec_nat(s as nat) + (
        ": ")@ + b@,
        Error::Json(d) => ("json error: ")@ + d@,
        Error::Http(d) => ("http error: ")@ + d@,
    }
}

impl Error {
    /// Render the error as text, since the error carries no Display of its
    /// own.
    pub fn message(&self) -> (r: String)
        ensures
            r@ == spec_error_message(*self),
    {
        match self {
            Error::EnforcerUnavailable(d) => String::from_str(
                "sidecar unreachable (fail-closed): ",
            ).concat(d.as_str()),
            Error::SidecarError(s, b) => {
                let mut out = String::from_str("sidecar returned error status ");
                let num = u64_dec(*s as u64);
                out.append(num.as_str());
                out.append(": ");
                out.append(b.as_str());
                proof {
                    assert(out@ =~= spec_error_message(*self));
                }
                out
            },
            Error::Json(d) => String::from_str("json error: ").concat(d.as_str()),
            Error::Http(d) => String::from_str("http error: ").concat(d.as_str()),
        }
    }
}

/// The raw outcome of one request/response exchange, as the transport shell
/// hands it back: either no response was received at all, or a response
/// arrived with a status code and a body text.
#[derive(Debug, Clone)]
pub enum SidecarReply {
    /// Connection refused, timeout elapsed, DNS failure — any transport-layer
    /// error before a response was received, with its detail text.
    Unreachable(String),
    /// A response was received: HTTP status code and body text.
    Response(u16, String),
}

/// What a decision exchange resolved to: a hard error, a locally synthesized
/// degraded record, or a success body still to be parsed.
#[derive(Debug, Clone)]
pub enum DecideStep {
    Failed(Error),
    Degraded(DecisionRecord),
    ParseBody(String),
}

/// HTTP method of a planned request.
#[derive(Debug, Clone, Copy, PartialEq, Eq, Structural)]
pub enum Method {
    Get,
    Post,
    Put,
}

/// One outgoing request, fully determined before any I/O happens: the
/// transport shell must send exactly this and nothing else.
#[derive(Debug, Clone)]
pub struct RequestPlan {
    pub method: Method,
    pub url: String,
    /// Header name/value pairs, in order.
    pub headers: Vec<(String, String)>,
    /// Request body text, if the method carries one.
    pub body: Option<String>,
}

/// A success status: 2xx.
pub open spec fn spec_status_success(status: u16) -> bool {
    200 <= status <= 299
}

/// Whether `status` is a success (2xx) status.
pub fn status_is_success(status: u16) -> (r: bool)
    ensures
        r == spec_status_success(status),
{
    200 <= status && status <= 299
}

/// The bearer credential header value for `token`.
pub open spec fn spec_auth_value(token: Seq<char>) -> Seq<char> {
    ("Bearer ")@ + token
}

/// The credential actually in force: a configured, non-empty token. An empty
/// token counts as no credential at all — an empty or placeholder credential
/// is never sent.
pub open spec fn spec_credential(slt: Option<String>) -> Option<Seq<char>> {
    match slt {
        Some(t) => if t@.len() == 0 {
            None
        } else {
            Some(t@)
        },
        None => None,
    }
}

/// The header list carries an `Authorization` entry with the given value.
pub open spec fn has_authorization(headers: Seq<(String, String)>, value: Seq<char>) -> bool {
    exists|i: int|
        0 <= i < headers.len() && (#[trigger] headers[i]).0@ == ("Authorization")@
            && headers[i].1@ == value
}

/// The header list carries no `Authorization` entry at all.
pub open spec fn no_authorization(headers: Seq<(String, String)>) -> bool {
    forall|i: int| 0 <= i < headers.len() ==> (#[trigger] headers[i]).0@ != ("Authorization")@
}

/// The exact header list of a JSON-carrying request: the content type, then
/// the bearer credential when one is in force.
pub open spec fn json_headers_for(slt: Option<String>, headers: Seq<(String, String)>) -> bool {
    match spec_credential(slt) {
        Some(token) => {
            &&& headers.len() == 2
            &&& headers[0].0@ == ("Content-Type")@
            &&& headers[0].1@ == ("application/json")@
            &&& headers[1].0@ == ("Authorization")@
            &&& headers[1].1@ == spec_auth_value(token)
        },
        None => {
            &&& headers.len() == 1
            &&& headers[0].0@ == ("Content-Type")@
            &&& headers[0].1@ == ("application/json")@
        },
    }
}

/// The degraded fail-open record for `id`: a compile-time-known template
/// parameterized only by the invocation id. `degraded == true` and the
/// degraded decision code are the load-bearing signals for any downstream
/// audit pipeline — this record must never be mistaken for a genuine sidecar
/// decision.
pub open spec fn is_degraded_allow(rec: DecisionRecord, id: Seq<char>) -> bool {
    &&& rec.invocation_id@ == id
    &&& rec.decision@ == ("ALLOW")@
    &&& rec.decision_code@ == ("SG_ALLOW_DEGRADED_AUDIT_ASYNC")@
    &&& rec.reason_codes@.len() == 1
    &&& rec.reason_codes@[0]@ == ("enforcer_unavailable_fail_open")@
    &&& rec.policy_version@ == ("unknown")@
    &&& rec.budgets@.len() == 0
    &&& rec.evidence.hash@ == Seq::<char>::empty()
    &&& rec.evidence.signature@ == Seq::<char>::empty()
    &&& rec.evidence.key_id@ == Seq::<char>::empty()
    &&& rec.degraded == true
    &&& rec.entitlement_version@ == ("unknown")@
    &&& rec.license_mode@ == ("offline")@
}

/// How one decision exchange must resolve, given the posture:
/// - unreachable, fail-closed: the fail-closed error, carrying the transport
///   detail — never a synthesized decision;
/// - unreachable, fail-open: the degraded ALLOW template for this id;
/// - explicit non-success status: a hard error with status and body, under
///   either posture;
/// - success status: the body goes on to parsing, unchanged.
pub open spec fn decide_resolution(
    fail_open: bool,
    id: Seq<char>,
    reply: SidecarReply,
    step: DecideStep,
) -> bool {
    match reply {
        SidecarReply::Unreachable(detail) => if fail_open {
            step matches DecideStep::Degraded(rec) && is_degraded_allow(rec, id)
        } else {
            step matches DecideStep::Failed(Error::EnforcerUnavailable(d)) && d@ == detail@
        },
        SidecarReply::Response(status, body) => if spec_status_success(status) {
            step matches DecideStep::ParseBody(b) && b@ == body@
        } else {
            step matches DecideStep::Failed(Error::SidecarError(s, b)) && s == status && b@
                == body@
        },
    }
}

/// How the health exchange must resolve: a transport failure is propagated
/// as the raw transport error; exactly HTTP 200 is healthy; any other status
/// is a sidecar error with an empty body detail.
pub open spec fn health_resolution(reply: SidecarReply, r: Result<(), Error>) -> bool {
    match reply {
        SidecarReply::Unreachable(d) => r matches Err(Error::Http(h)) && h@ == d@,
        SidecarReply::Response(s, _b) => if s == 200 {
            r is Ok
        } else {
            r matches Err(Error::SidecarError(st, b)) && st == s && b@ == Seq::<char>::empty()
        },
    }
}

/// The decision client: owns the immutable configuration, plans every
/// outgoing request, and resolves every reply. It performs no I/O itself.
#[derive(Debug, Clone)]
pub struct Client {
    pub cfg: Config,
}

impl Client {
    /// Create a new client with the given config; the config is never
    /// mutated afterwards.
    pub fn new(cfg: Config) -> (r: Client)
        ensures
            r.cfg == cfg,
    {
        Client { cfg }
    }

    /// The bearer header value when a non-empty credential is configured,
    /// nothing otherwise.
    fn auth_header(&self) -> (r: Option<String>)
        ensures
            (match spec_credential(self.cfg.slt) {
                Some(token) => r matches Some(v) && v@ == spec_auth_value(token),
                None => r is None,
            }),
    {
        match &self.cfg.slt {
            Some(t) => {
                if t.as_str().unicode_len() == 0 {
                    None
                } else {
                    Some(String::from_str("Bearer ").concat(t.as_str()))
                }
            },
            None => None,
        }
    }

    /// The headers of a JSON-carrying request: content type, then the bearer
    /// credential iff one is in force.
    fn json_headers(&self) -> (r: Vec<(String, String)>)
        ensures
            json_headers_for(self.cfg.slt, r@),
            (spec_credential(self.cfg.slt) matches Some(token) ==> has_authorization(
                r@,
                spec_auth_value(token),
            )),
            (spec_credential(self.cfg.slt) is None ==> no_authorization(r@)),
    {
        let mut headers: Vec<(String, String)> = Vec::new();
        headers.push((String::from_str("Content-Type"), String::from_str("application/json")));
        match self.auth_header() {
            Some(v) => {
                headers.push((String::from_str("Authorization"), v));
            },
            None => {},
        }
        proof {
            reveal_strlit("Content-Type");
            reveal_strlit("Authorization");
            if spec_credential(self.cfg.slt) is Some {
                assert(has_authorization(
                    headers@,
                    spec_auth_value(spec_credential(self.cfg.slt)->0),
                )) by {
                    assert((headers@[1]).0@ == ("Authorization")@);
                }
            } else {
                assert forall|i: int| 0 <= i < headers@.len() implies (#[trigger] headers@[i]).0@
                    != ("Authorization")@ by {
                    assert(headers@[i].0@ == ("Content-Type")@);
                }
            }
        }
        headers
    }

    /// Synthesize the degraded fail-open record for `invocation_id`. It
    /// echoes the id unchanged and carries the fixed degraded template:
    /// decision `ALLOW`, the degraded-audit decision code, the single
    /// unavailability reason, unknown versions, empty budgets and evidence,
    /// offline license mode, and `degraded == true`.
    pub fn degraded_allow(invocation_id: &str) -> (r: DecisionRecord)
        ensures
            is_degraded_allow(r, invocation_id@),
    {
        let mut reason_codes: Vec<String> = Vec::new();
        reason_codes.push(String::from_str("enforcer_unavailable_fail_open"));
        DecisionRecord {
            invocation_id: String::from_str(invocation_id),
            decision: String::from_str("ALLOW"),
            decision_code: String::from_str("SG_ALLOW_DEGRADED_AUDIT_ASYNC"),
            reason_codes,
            policy_version: String::from_str("unknown"),
            budgets: Vec::new(),
            evidence: DecisionEvidence::default(),
            degraded: true,
            entitlement_version: String::from_str("unknown"),
            license_mode: String::from_str("offline"),
        }
    }

    /// Plan the decision request for `inv`: one POST to `/v1/decide` under
    /// the sidecar base URL, carrying the canonical payload and the bearer
    /// credential iff one is configured.
    pub fn decide_plan(&self, inv: &ToolInvocation) -> (r: RequestPlan)
        ensures
            r.method == Method::Post,
            r.url@ == self.cfg.sidecar_url@ + ("/v1/decide")@,
            r.body matches Some(b) && b@ == spec_decide_payload(*inv),
            json_headers_for(self.cfg.slt, r.headers@),
            (spec_credential(self.cfg.slt) matches Some(token) ==> has_authorization(
                r.headers@,
                spec_auth_value(token),
            )),
            (spec_credential(self.cfg.slt) is None ==> no_authorization(r.headers@)),
    {
        RequestPlan {
            method: Method::Post,
            url: self.cfg.sidecar_url.clone().concat("/v1/decide"),
            headers: self.json_headers(),
            body: Some(encode_decide_payload(inv)),
        }
    }

    /// Resolve the raw outcome of the decision exchange. This is the
    /// fail-closed/fail-open branch point, and the split exists only around
    /// unreachability: an explicit non-success status is a hard error under
    /// either posture, and a success body is handed on to parsing unchanged.
    pub fn resolve_decide(&self, invocation_id: &str, reply: SidecarReply) -> (r: DecideStep)
        ensures
            decide_resolution(self.cfg.fail_open, invocation_id@, reply, r),
    {
        match reply {
            SidecarReply::Unreachable(detail) => {
                if self.cfg.fail_open {
                    DecideStep::Degraded(Self::degraded_allow(invocation_id))
                } else {
                    DecideStep::Failed(Error::EnforcerUnavailable(detail))
                }
            },
            SidecarReply::Response(status, body) => {
                if status_is_success(status) {
                    DecideStep::ParseBody(body)
                } else {
                    DecideStep::Failed(Error::SidecarError(status, body))
                }
            },
        }
    }

    /// Resolve the parse outcome of a success body: a parsed record is the
    /// decision, a parse failure is the distinct malformed-response error —
    /// never coerced into either fail-open or fail-closed behavior.
    pub fn resolve_decide_body(&self, parsed: Result<DecisionRecord, String>) -> (r: Result<
        DecisionRecord,
        Error,
    >)
        ensures
            (parsed matches Ok(rec) ==> (r matches Ok(out) && out == rec)),
            (parsed matches Err(m) ==> (r matches Err(Error::Json(d)) && d@ == m@)),
    {
        match parsed {
            Ok(rec) => Ok(rec),
            Err(m) => Err(Error::Json(m)),
        }
    }

    /// Plan the registry request for `tool_name`: one PUT to
    /// `/v1/registry/<tool_name>`, carrying the metadata object and the same
    /// optional bearer credential.
    pub fn register_plan(&self, tool_name: &str, metadata: &Vec<(String, ParamValue)>) -> (r:
        RequestPlan)
        ensures
            r.method == Method::Put,
            r.url@ == self.cfg.sidecar_url@ + ("/v1/registry/")@ + tool_name@,
            r.body matches Some(b) && b@ == spec_object_json(metadata@),
            json_headers_for(self.cfg.slt, r.headers@),
            (spec_credential(self.cfg.slt) matches Some(token) ==> has_authorization(
                r.headers@,
                spec_auth_value(token),
            )),
            (spec_credential(self.cfg.slt) is None ==> no_authorization(r.headers@)),
    {
        RequestPlan {
            method: Method::Put,
            url: self.cfg.sidecar_url.clone().concat("/v1/registry/").concat(tool_name),
            headers: self.json_headers(),
            body: Some(encode_object(metadata)),
        }
    }

    /// Resolve the registry exchange: best-effort, so any failure — transport
    /// error or non-success status — collapses to `false`, with no error
    /// detail surfaced. This path must never affect the decision path.
    pub fn resolve_register(&self, reply: SidecarReply) -> (r: bool)
        ensures
            r == (reply matches SidecarReply::Response(s, _b) && spec_status_success(s)),
    {
        match reply {
            SidecarReply::Unreachable(_detail) => false,
            SidecarReply::Response(status, _body) => status_is_success(status),
        }
    }

    /// Plan the health probe: one GET to `/v1/health`, no body, no headers.
    pub fn health_plan(&self) -> (r: RequestPlan)
        ensures
            r.method == Method::Get,
            r.url@ == self.cfg.sidecar_url@ + ("/v1/health")@,
            r.headers@.len() == 0,
            r.body is None,
    {
        RequestPlan {
            method: Method::Get,
            url: self.cfg.sidecar_url.clone().concat("/v1/health"),
            headers: Vec::new(),
            body: None,
        }
    }

    /// Resolve the health exchange: exactly HTTP 200 is healthy; any other
    /// status is a sidecar error (with an empty body detail); a transport
    /// failure is propagated as the raw transport error — health probing is
    /// diagnostic, never subject to the fail-open policy.
    pub fn resolve_health(&self, reply: SidecarReply) -> (r: Result<(), Error>)
        ensures
            health_resolution(reply, r),
    {
        match reply {
            SidecarReply::Unreachable(detail) => Err(Error::Http(detail)),
            SidecarReply::Response(status, _body) => {
                if status == 200 {
                    Ok(())
                } else {
                    Err(Error::SidecarError(status, String::new()))
                }
            },
        }
    }
}

/// Law (fail-closed): with fail-open disabled and the sidecar unreachable,
/// the resolution is the fail-closed unavailability error — never a degraded
/// record, never anything that could go on to become an ALLOW.
pub proof fn lemma_fail_closed_never_allows(id: Seq<char>, reply: SidecarReply, step: DecideStep)
    requires
        reply is Unreachable,
        decide_resolution(false, id, reply, step),
    ensures
        step matches DecideStep::Failed(e) && e is EnforcerUnavailable,
        !(step is Degraded),
        !(step is ParseBody),
{
}

/// Law (fail-open): with fail-open enabled and the sidecar unreachable, the
/// resolution is a locally synthesized record that is visibly degraded: it
/// carries the degraded decision code, the single unavailability reason, and
/// `degraded == true`.
pub proof fn lemma_fail_open_degrades(id: Seq<char>, reply: SidecarReply, step: DecideStep)
    requires
        reply is Unreachable,
        decide_resolution(true, id, reply, step),
    ensures
        step matches DecideStep::Degraded(rec) && is_degraded_allow(rec, id),
{
}

/// Law (explicit rejection is never downgraded): a non-success status from a
/// reachable sidecar resolves to the same hard error with that status and
/// body under either posture; the fail-open flag changes nothing here.
pub proof fn lemma_rejection_never_downgraded(
    id: Seq<char>,
    status: u16,
    body: String,
    closed: DecideStep,
    open: DecideStep,
)
    requires
        !spec_status_success(status),
        decide_resolution(false, id, SidecarReply::Response(status, body), closed),
        decide_resolution(true, id, SidecarReply::Response(status, body), open),
    ensures
        closed matches DecideStep::Failed(Error::SidecarError(s1, b1)) && s1 == status && b1@
            == body@,
        open matches DecideStep::Failed(Error::SidecarError(s2, b2)) && s2 == status && b2@
            == body@,
        !(closed is Degraded),
        !(open is Degraded),
{
}

/// Law (correlation): whatever the posture and the reply, a degraded record
/// handed back by decision resolution echoes the submitted invocation id.
pub proof fn lemma_degraded_correlates(
    fail_open: bool,
    id: Seq<char>,
    reply: SidecarReply,
    step: DecideStep,
)
    requires
        decide_resolution(fail_open, id, reply, step),
    ensures
        step matches DecideStep::Degraded(rec) ==> rec.invocation_id@ == id,
{
}

} // verus!
