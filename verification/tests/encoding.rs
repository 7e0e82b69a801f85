use skillgate::Actor;
use skillgate::Agent;
use skillgate::Client;
use skillgate::Config;
use skillgate::ExecutionContext;
use skillgate::ParamValue;
use skillgate::Tool;
use skillgate::ToolInvocation;
use skillgate::ToolRequest;
use skillgate::jsonenc::encode_decide_payload;
use skillgate::jsonenc::encode_object;
use skillgate::jsonenc::encode_string_array;
use skillgate::jsonenc::encode_value;

fn sample_invocation() -> ToolInvocation {
    ToolInvocation {
        invocation_id: "inv-001".into(),
        timestamp: "2024-01-01T00:00:00Z".into(),
        actor: Actor {
            type_: "agent".into(),
            id: "agent-1".into(),
            workspace_id: "ws-1".into(),
            session_id: "sess-1".into(),
        },
        agent: Agent {
            name: "my-agent".into(),
            version: "1.0.0".into(),
            framework: "custom".into(),
            trust_tier: "standard".into(),
        },
        tool: Tool {
            name: "fs.read".into(),
            provider: "local".into(),
            capabilities: vec!["fs.read".into()],
            risk_class: "low".into(),
        },
        request: ToolRequest::default(),
        context: ExecutionContext {
            repo: "my-repo".into(),
            environment: "dev".into(),
            data_classification: "internal".into(),
            network_zone: "private".into(),
        },
    }
}

#[test]
fn payload_is_the_exact_canonical_json() {
    let expected = "{\"invocation_id\":\"inv-001\",\"tool_invocation\":{\"invocation_id\":\"inv-001\",\"timestamp\":\"2024-01-01T00:00:00Z\",\"actor\":{\"type\":\"agent\",\"id\":\"agent-1\",\"workspace_id\":\"ws-1\",\"session_id\":\"sess-1\"},\"agent\":{\"name\":\"my-agent\",\"version\":\"1.0.0\",\"framework\":\"custom\",\"trust_tier\":\"standard\"},\"tool\":{\"name\":\"fs.read\",\"provider\":\"local\",\"capabilities\":[\"fs.read\"],\"risk_class\":\"low\"},\"request\":{\"params\":{},\"resource_refs\":[]},\"context\":{\"repo\":\"my-repo\",\"environment\":\"dev\",\"data_classification\":\"internal\",\"network_zone\":\"private\"}}}";
    assert_eq!(encode_decide_payload(&sample_invocation()), expected);
}

#[test]
fn payload_parses_back_and_correlates() {
    let payload = encode_decide_payload(&sample_invocation());
    let v: serde_json::Value = serde_json::from_str(&payload).expect("payload must be valid JSON");
    // The invocation id is duplicated at top level for cheap correlation.
    assert_eq!(v["invocation_id"], "inv-001");
    assert_eq!(v["tool_invocation"]["invocation_id"], "inv-001");
    assert_eq!(v["tool_invocation"]["actor"]["type"], "agent");
    assert_eq!(v["tool_invocation"]["tool"]["capabilities"][0], "fs.read");
}

#[test]
fn strings_are_escaped_as_the_json_library_escapes_them() {
    for raw in ["plain", "a\"b\\c", "line\nbreak", "tab\there", "\u{0001}", "\u{00e9}\u{4e16}"] {
        let encoded = encode_value(&ParamValue::Str(raw.into()));
        let expected = serde_json::to_string(raw).unwrap();
        assert_eq!(encoded, expected);
        // A wrapper that handed its argument back unchanged would fail here.
        assert!(encoded.starts_with('"') && encoded.ends_with('"'));
    }
    assert_eq!(encode_value(&ParamValue::Str("a\"b".into())), "\"a\\\"b\"");
}

#[test]
fn scalars_encode_canonically() {
    assert_eq!(encode_value(&ParamValue::Null), "null");
    assert_eq!(encode_value(&ParamValue::Bool(true)), "true");
    assert_eq!(encode_value(&ParamValue::Bool(false)), "false");
    assert_eq!(encode_value(&ParamValue::Int(0)), "0");
    assert_eq!(encode_value(&ParamValue::Int(7)), "7");
    assert_eq!(encode_value(&ParamValue::Int(-42)), "-42");
    assert_eq!(encode_value(&ParamValue::Int(i64::MAX)), "9223372036854775807");
    assert_eq!(encode_value(&ParamValue::Int(i64::MIN)), "-9223372036854775808");
}

#[test]
fn nested_values_encode_in_order() {
    let value = ParamValue::Object(vec![
        ("path".to_string(), ParamValue::Str("/tmp/x".into())),
        (
            "flags".to_string(),
            ParamValue::List(vec![
                ParamValue::Int(1),
                ParamValue::Null,
                ParamValue::List(vec![]),
                ParamValue::Object(vec![]),
            ]),
        ),
    ]);
    assert_eq!(
        encode_value(&value),
        "{\"path\":\"/tmp/x\",\"flags\":[1,null,[],{}]}"
    );
}

#[test]
fn empty_collections_encode_to_empty_json() {
    assert_eq!(encode_string_array(&Vec::new()), "[]");
    assert_eq!(encode_object(&Vec::new()), "{}");
    let one = vec!["only".to_string()];
    assert_eq!(encode_string_array(&one), "[\"only\"]");
    let three = vec!["a".to_string(), "b".to_string(), "c".to_string()];
    assert_eq!(encode_string_array(&three), "[\"a\",\"b\",\"c\"]");
}

#[test]
fn params_with_values_reach_the_wire() {
    let mut inv = sample_invocation();
    inv.request.params = vec![
        ("depth".to_string(), ParamValue::Int(3)),
        ("dry_run".to_string(), ParamValue::Bool(false)),
    ];
    inv.request.resource_refs = vec!["repo://main".to_string()];
    let payload = encode_decide_payload(&inv);
    let v: serde_json::Value = serde_json::from_str(&payload).unwrap();
    assert_eq!(v["tool_invocation"]["request"]["params"]["depth"], 3);
    assert_eq!(v["tool_invocation"]["request"]["params"]["dry_run"], false);
    assert_eq!(v["tool_invocation"]["request"]["resource_refs"][0], "repo://main");
}

#[test]
fn decide_plan_body_carries_the_payload() {
    let client = Client::new(Config::resolve(None, None));
    let inv = sample_invocation();
    let plan = client.decide_plan(&inv);
    assert_eq!(plan.body.as_deref(), Some(encode_decide_payload(&inv).as_str()));
    assert_eq!(plan.url, "http://localhost:8910/v1/decide");
    assert!(plan
        .headers
        .iter()
        .any(|(k, v)| k == "Content-Type" && v == "application/json"));
}
