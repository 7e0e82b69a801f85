//! Canonical JSON encoding of the enforcement request payload.
//!
//! The wire format is fixed by the sidecar protocol: one JSON object per
//! request, members in declaration order, no insignificant whitespace.
//! String escaping is delegated to the JSON library behind a trusted
//! wrapper; everything that frames the escaped pieces — member keys,
//! separators, arrays, nested objects — is verified against the spec
//! functions below.

use vstd::prelude::*;
use vstd::string::*;

use crate::model::Actor;
use crate::model::Agent;
use crate::model::ExecutionContext;
use crate::model::ParamValue;
use crate::model::Tool;
use crate::model::ToolInvocation;
use crate::model::ToolRequest;

verus! {

/// The JSON string literal (opening quote, escaped characters, closing
/// quote) for the given characters. The exact escaping is the JSON
/// library's; it depends on the characters alone.
pub uninterp spec fn json_text(s: Seq<char>) -> Seq<char>;

/// Relies on serde_json::to_string on a string slice: it emits the JSON
/// string literal for exactly the characters given, a deterministic function
/// of those characters. Serializing a string slice cannot fail (per its
/// documentation, serialization fails only when a Serialize impl fails or a
/// map has non-string keys), so the error arm is unreachable.
#[verifier::external_body]
pub(crate) fn json_string(s: &str) -> (r: String)
    ensures
        r@ == json_text(s@),
{
    match serde_json::to_string(s) {
        Ok(t) => t,
        Err(_) => String::new(),
    }
}

/// The decimal digit character for `d` (which must be in 0..10).
pub open spec fn dec_digit(d: int) -> char {
    if d == 0 {
        '0'
    } else if d == 1 {
        '1'
    } else if d == 2 {
        '2'
    } else if d == 3 {
        '3'
    } else if d == 4 {
        '4'
    } else if d == 5 {
        '5'
    } else if d == 6 {
        '6'
    } else if d == 7 {
        '7'
    } else if d == 8 {
        '8'
    } else {
        '9'
    }
}

/// Decimal digits of `n`, most significant first, no leading zeros
/// (a single `0` for zero).
pub open spec fn dec_nat(n: nat) -> Seq<char>
    decreases n,
{
    if n < 10 {
        seq![dec_digit(n as int)]
    } else {
        dec_nat(n / 10) + seq![dec_digit((n % 10) as int)]
    }
}

/// Canonical decimal text of a signed integer: a minus sign and the digits
/// of the magnitude for negative values, the digits alone otherwise.
pub open spec fn dec_int(v: int) -> Seq<char> {
    if v < 0 {
        seq!['-'] + dec_nat((-v) as nat)
    } else {
        dec_nat(v as nat)
    }
}

/// The one-character string for the decimal digit `d`.
fn dec_digit_str(d: u64) -> (r: &'static str)
    requires
        d < 10,
    ensures
        r@ == seq![dec_digit(d as int)],
{
    proof {
        reveal_strlit("0");
        reveal_strlit("1");
        reveal_strlit("2");
        reveal_strlit("3");
        reveal_strlit("4");
        reveal_strlit("5");
        reveal_strlit("6");
        reveal_strlit("7");
        reveal_strlit("8");
        reveal_strlit("9");
    }
    let r = if d == 0 {
        "0"
    } else if d == 1 {
        "1"
    } else if d == 2 {
        "2"
    } else if d == 3 {
        "3"
    } else if d == 4 {
        "4"
    } else if d == 5 {
        "5"
    } else if d == 6 {
        "6"
    } else if d == 7 {
        "7"
    } else if d == 8 {
        "8"
    } else {
        "9"
    };
    proof {
        assert(r@ =~= seq![dec_digit(d as int)]);
    }
    r
}

/// Render an unsigned value in decimal.
pub(crate) fn u64_dec(n: u64) -> (r: String)
    ensures
        r@ == dec_nat(n as nat),
    decreases n,
{
    if n < 10 {
        String::from_str(dec_digit_str(n))
    } else {
        let mut s = u64_dec(n / 10);
        s.append(dec_digit_str(n % 10));
        s
    }
}

/// Render a signed value in decimal: minus sign and magnitude for negative
/// values, the digits alone otherwise.
pub(crate) fn i64_dec(v: i64) -> (r: String)
    ensures
        r@ == dec_int(v as int),
{
    if v >= 0 {
        u64_dec(v as u64)
    } else {
        let magnitude: u64 = if v == i64::MIN {
            9223372036854775808u64
        } else {
            (-v) as u64
        };
        assert(magnitude as nat == (-(v as int)) as nat);
        let mut s = String::from_str("-");
        let digits = u64_dec(magnitude);
        s.append(digits.as_str());
        proof {
            reveal_strlit("-");
            assert(s@ =~= dec_int(v as int));
        }
        s
    }
}

/// JSON text of one structured parameter value.
pub open spec fn spec_value_json(v: ParamValue) -> Seq<char>
    decreases v, 0int,
{
    match v {
        ParamValue::Null => ("null")@,
        ParamValue::Bool(b) => if b {
            ("true")@
        } else {
            ("false")@
        },
        ParamValue::Int(n) => dec_int(n as int),
        ParamValue::Str(s) => json_text(s@),
        ParamValue::List(items) => ("[")@ + spec_list_json(items@, 0) + ("]")@,
        ParamValue::Object(entries) => ("{")@ + spec_entries_json(entries@, 0) + ("}")@,
    }
}

/// Comma-separated JSON texts of `items[i..]`.
pub open spec fn spec_list_json(items: Seq<ParamValue>, i: int) -> Seq<char>
    decreases items, (if i < 0 { 0int } else { items.len() - i }),
{
    if i < 0 || i >= items.len() {
        Seq::empty()
    } else if i + 1 < items.len() {
        spec_value_json(items[i]) + (",")@ + spec_list_json(items, i + 1)
    } else {
        spec_value_json(items[i])
    }
}

/// Comma-separated `"key":value` members of `entries[i..]`.
pub open spec fn spec_entries_json(entries: Seq<(String, ParamValue)>, i: int) -> Seq<char>
    decreases entries, (if i < 0 { 0int } else { entries.len() - i }),
{
    if i < 0 || i >= entries.len() {
        Seq::empty()
    } else if i + 1 < entries.len() {
        json_text(entries[i].0@) + (":")@ + spec_value_json(entries[i].1) + (",")@
            + spec_entries_json(entries, i + 1)
    } else {
        json_text(entries[i].0@) + (":")@ + spec_value_json(entries[i].1)
    }
}

/// JSON object with the given members, in order.
pub open spec fn spec_object_json(entries: Seq<(String, ParamValue)>) -> Seq<char> {
    ("{")@ + spec_entries_json(entries, 0) + ("}")@
}

/// Comma-separated JSON string literals of `items[i..]`.
pub open spec fn spec_strings_json(items: Seq<String>, i: int) -> Seq<char>
    decreases items.len() - i,
{
    if i < 0 || i >= items.len() {
        Seq::empty()
    } else if i + 1 < items.len() {
        json_text(items[i]@) + (",")@ + spec_strings_json(items, i + 1)
    } else {
        json_text(items[i]@)
    }
}

/// JSON array of string literals.
pub open spec fn spec_string_array_json(items: Seq<String>) -> Seq<char> {
    ("[")@ + spec_strings_json(items, 0) + ("]")@
}

/// Encode one structured parameter value.
pub fn encode_value(v: &ParamValue) -> (r: String)
    ensures
        r@ == spec_value_json(*v),
    decreases *v, 0int,
{
    match v {
        ParamValue::Null => String::from_str("null"),
        ParamValue::Bool(b) => if *b {
            String::from_str("true")
        } else {
            String::from_str("false")
        },
        ParamValue::Int(n) => i64_dec(*n),
        ParamValue::Str(s) => json_string(s.as_str()),
        ParamValue::List(items) => {
            let mut out = String::from_str("[");
            encode_list_items(items, 0, &mut out);
            out.append("]");
            out
        },
        ParamValue::Object(entries) => {
            let mut out = String::from_str("{");
            encode_entry_items(entries, 0, &mut out);
            out.append("}");
            out
        },
    }
}

/// Append the comma-separated JSON texts of `items[i..]` to `out`.
fn encode_list_items(items: &Vec<ParamValue>, i: usize, out: &mut String)
    ensures
        final(out)@ == old(out)@ + spec_list_json(items@, i as int),
    decreases items@, items@.len() - i,
{
    if i >= items.len() {
        assert(out@ =~= old(out)@ + spec_list_json(items@, i as int));
    } else {
        let piece = encode_value(&items[i]);
        out.append(piece.as_str());
        if i + 1 < items.len() {
            out.append(",");
            encode_list_items(items, i + 1, out);
        }
        assert(out@ =~= old(out)@ + spec_list_json(items@, i as int));
    }
}

/// Append the comma-separated `"key":value` members of `entries[i..]` to
/// `out`.
fn encode_entry_items(entries: &Vec<(String, ParamValue)>, i: usize, out: &mut String)
    ensures
        final(out)@ == old(out)@ + spec_entries_json(entries@, i as int),
    decreases entries@, entries@.len() - i,
{
    if i >= entries.len() {
        assert(out@ =~= old(out)@ + spec_entries_json(entries@, i as int));
    } else {
        let key = json_string(entries[i].0.as_str());
        out.append(key.as_str());
        out.append(":");
        let val = encode_value(&entries[i].1);
        out.append(val.as_str());
        if i + 1 < entries.len() {
            out.append(",");
            encode_entry_items(entries, i + 1, out);
        }
        assert(out@ =~= old(out)@ + spec_entries_json(entries@, i as int));
    }
}

/// Encode a key -> value mapping as a JSON object, members in order.
pub fn encode_object(entries: &Vec<(String, ParamValue)>) -> (r: String)
    ensures
        r@ == spec_object_json(entries@),
{
    let mut out = String::from_str("{");
    encode_entry_items(entries, 0, &mut out);
    out.append("}");
    assert(out@ =~= spec_object_json(entries@));
    out
}

/// Append the comma-separated JSON string literals of `items[i..]` to `out`.
fn encode_string_items(items: &Vec<String>, i: usize, out: &mut String)
    ensures
        final(out)@ == old(out)@ + spec_strings_json(items@, i as int),
    decreases items@.len() - i,
{
    if i >= items.len() {
        assert(out@ =~= old(out)@ + spec_strings_json(items@, i as int));
    } else {
        let piece = json_string(items[i].as_str());
        out.append(piece.as_str());
        if i + 1 < items.len() {
            out.append(",");
            encode_string_items(items, i + 1, out);
        }
        assert(out@ =~= old(out)@ + spec_strings_json(items@, i as int));
    }
}

/// Encode a list of strings as a JSON array of string literals.
pub fn encode_string_array(items: &Vec<String>) -> (r: String)
    ensures
        r@ == spec_string_array_json(items@),
{
    let mut out = String::from_str("[");
    encode_string_items(items, 0, &mut out);
    out.append("]");
    assert(out@ =~= spec_string_array_json(items@));
    out
}

/// JSON object for an [`Actor`].
pub open spec fn spec_actor_json(a: Actor) -> Seq<char> {
    ("{\"type\":")@ + json_text(a.type_@) + (",\"id\":")@ + json_text(a.id@) + (",\"workspace_id\":")@
        + json_text(a.workspace_id@) + (",\"session_id\":")@ + json_text(a.session_id@) + ("}")@
}

/// Encode an [`Actor`].
pub fn encode_actor(a: &Actor) -> (r: String)
    ensures
        r@ == spec_actor_json(*a),
{
    let mut out = String::from_str("{\"type\":");
    let t = json_string(a.type_.as_str());
    out.append(t.as_str());
    out.append(",\"id\":");
    let t = json_string(a.id.as_str());
    out.append(t.as_str());
    out.append(",\"workspace_id\":");
    let t = json_string(a.workspace_id.as_str());
    out.append(t.as_str());
    out.append(",\"session_id\":");
    let t = json_string(a.session_id.as_str());
    out.append(t.as_str());
    out.append("}");
    assert(out@ =~= spec_actor_json(*a));
    out
}

/// JSON object for an [`Agent`].
pub open spec fn spec_agent_json(a: Agent) -> Seq<char> {
    ("{\"name\":")@ + json_text(a.name@) + (",\"version\":")@ + json_text(a.version@)
        + (",\"framework\":")@ + json_text(a.framework@) + (",\"trust_tier\":")@
        + json_text(a.trust_tier@) + ("}")@
}

/// Encode an [`Agent`].
pub fn encode_agent(a: &Agent) -> (r: String)
    ensures
        r@ == spec_agent_json(*a),
{
    let mut out = String::from_str("{\"name\":");
    let t = json_string(a.name.as_str());
    out.append(t.as_str());
    out.append(",\"version\":");
    let t = json_string(a.version.as_str());
    out.append(t.as_str());
    out.append(",\"framework\":");
    let t = json_string(a.framework.as_str());
    out.append(t.as_str());
    out.append(",\"trust_tier\":");
    let t = json_string(a.trust_tier.as_str());
    out.append(t.as_str());
    out.append("}");
    assert(out@ =~= spec_agent_json(*a));
    out
}

/// JSON object for a [`Tool`].
pub open spec fn spec_tool_json(t: Tool) -> Seq<char> {
    ("{\"name\":")@ + json_text(t.name@) + (",\"provider\":")@ + json_text(t.provider@)
        + (",\"capabilities\":")@ + spec_string_array_json(t.capabilities@) + (",\"risk_class\":")@
        + json_text(t.risk_class@) + ("}")@
}

/// Encode a [`Tool`].
pub fn encode_tool(t: &Tool) -> (r: String)
    ensures
        r@ == spec_tool_json(*t),
{
    let mut out = String::from_str("{\"name\":");
    let p = json_string(t.name.as_str());
    out.append(p.as_str());
    out.append(",\"provider\":");
    let p = json_string(t.provider.as_str());
    out.append(p.as_str());
    out.append(",\"capabilities\":");
    let p = encode_string_array(&t.capabilities);
    out.append(p.as_str());
    out.append(",\"risk_class\":");
    let p = json_string(t.risk_class.as_str());
    out.append(p.as_str());
    out.append("}");
    assert(out@ =~= spec_tool_json(*t));
    out
}

/// JSON object for a [`ToolRequest`].
pub open spec fn spec_request_json(r: ToolRequest) -> Seq<char> {
    ("{\"params\":")@ + spec_object_json(r.params@) + (",\"resource_refs\":")@
        + spec_string_array_json(r.resource_refs@) + ("}")@
}

/// Encode a [`ToolRequest`].
pub fn encode_request(req: &ToolRequest) -> (r: String)
    ensures
        r@ == spec_request_json(*req),
{
    let mut out = String::from_str("{\"params\":");
    let p = encode_object(&req.params);
    out.append(p.as_str());
    out.append(",\"resource_refs\":");
    let p = encode_string_array(&req.resource_refs);
    out.append(p.as_str());
    out.append("}");
    assert(out@ =~= spec_request_json(*req));
    out
}

/// JSON object for an [`ExecutionContext`].
pub open spec fn spec_context_json(c: ExecutionContext) -> Seq<char> {
    ("{\"repo\":")@ + json_text(c.repo@) + (",\"environment\":")@ + json_text(c.environment@)
        + (",\"data_classification\":")@ + json_text(c.data_classification@)
        + (",\"network_zone\":")@ + json_text(c.network_zone@) + ("}")@
}

/// Encode an [`ExecutionContext`].
pub fn encode_context(c: &ExecutionContext) -> (r: String)
    ensures
        r@ == spec_context_json(*c),
{
    let mut out = String::from_str("{\"repo\":");
    let p = json_string(c.repo.as_str());
    out.append(p.as_str());
    out.append(",\"environment\":");
    let p = json_string(c.environment.as_str());
    out.append(p.as_str());
    out.append(",\"data_classification\":");
    let p = json_string(c.data_classification.as_str());
    out.append(p.as_str());
    out.append(",\"network_zone\":");
    let p = json_string(c.network_zone.as_str());
    out.append(p.as_str());
    out.append("}");
    assert(out@ =~= spec_context_json(*c));
    out
}

/// JSON object for a whole [`ToolInvocation`].
pub open spec fn spec_invocation_json(inv: ToolInvocation) -> Seq<char> {
    ("{\"invocation_id\":")@ + json_text(inv.invocation_id@) + (",\"timestamp\":")@
        + json_text(inv.timestamp@) + (",\"actor\":")@ + spec_actor_json(inv.actor)
        + (",\"agent\":")@ + spec_agent_json(inv.agent) + (",\"tool\":")@
        + spec_tool_json(inv.tool) + (",\"request\":")@ + spec_request_json(inv.request)
        + (",\"context\":")@ + spec_context_json(inv.context) + ("}")@
}

/// Encode a whole [`ToolInvocation`].
pub fn encode_invocation(inv: &ToolInvocation) -> (r: String)
    ensures
        r@ == spec_invocation_json(*inv),
{
    let mut out = String::from_str("{\"invocation_id\":");
    let p = json_string(inv.invocation_id.as_str());
    out.append(p.as_str());
    out.append(",\"timestamp\":");
    let p = json_string(inv.timestamp.as_str());
    out.append(p.as_str());
    out.append(",\"actor\":");
    let p = encode_actor(&inv.actor);
    out.append(p.as_str());
    out.append(",\"agent\":");
    let p = encode_agent(&inv.agent);
    out.append(p.as_str());
    out.append(",\"tool\":");
    let p = encode_tool(&inv.tool);
    out.append(p.as_str());
    out.append(",\"request\":");
    let p = encode_request(&inv.request);
    out.append(p.as_str());
    out.append(",\"context\":");
    let p = encode_context(&inv.context);
    out.append(p.as_str());
    out.append("}");
    assert(out@ =~= spec_invocation_json(*inv));
    out
}

/// The canonical transport payload for a decision request: the
/// `invocation_id` duplicated at top level (for cheap correlation without
/// full deserialization) beside the full invocation body.
pub open spec fn spec_decide_payload(inv: ToolInvocation) -> Seq<char> {
    ("{\"invocation_id\":")@ + json_text(inv.invocation_id@) + (",\"tool_invocation\":")@
        + spec_invocation_json(inv) + ("}")@
}

/// Encode the canonical decision request payload.
pub fn encode_decide_payload(inv: &ToolInvocation) -> (r: String)
    ensures
        r@ == spec_decide_payload(*inv),
{
    let mut out = String::from_str("{\"invocation_id\":");
    let p = json_string(inv.invocation_id.as_str());
    out.append(p.as_str());
    out.append(",\"tool_invocation\":");
    let p = encode_invocation(inv);
    out.append(p.as_str());
    out.append("}");
    assert(out@ =~= spec_decide_payload(*inv));
    out
}

} // verus!
