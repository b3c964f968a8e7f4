use cli_mcp_contract::execution::tail_text;
use cli_mcp_contract::json::{JsonValue, Member};
use cli_mcp_contract::protocol::{AnySession, PROTOCOL_VERSION};
use cli_mcp_contract::tools::{tool_descriptors, DpmAdapter, ToolName};

fn string(text: &str) -> JsonValue {
    JsonValue::Str(text.to_string())
}

fn object(members: Vec<(&str, JsonValue)>) -> JsonValue {
    JsonValue::Object(members.into_iter().map(|(key, value)| Member::new(key, value)).collect())
}

fn members(value: JsonValue) -> Vec<Member> {
    match value {
        JsonValue::Object(members) => members,
        _ => panic!("test JSON object"),
    }
}

fn request(id: i64, method: &str) -> JsonValue {
    object(vec![("jsonrpc", string("2.0")), ("id", JsonValue::Int(id)), ("method", string(method))])
}

fn path<'a>(value: &'a JsonValue, keys: &[&str]) -> Option<&'a JsonValue> {
    let mut current = value;
    for key in keys {
        current = current.get(key)?;
    }
    Some(current)
}

#[test]
fn tools_are_exact_and_guarded() {
    assert_eq!(ToolName::ALL.map(ToolName::as_str), ["dpm_diff", "dpm_verify", "dpm_apply"]);
    let descriptors = tool_descriptors();
    assert_eq!(descriptors.len(), 3);
    assert!(descriptors
        .iter()
        .all(|tool| path(tool, &["inputSchema", "additionalProperties"]) == Some(&JsonValue::Bool(false))));
}

#[test]
fn apply_requires_exact_target_confirmation() {
    let adapter = DpmAdapter::new("dpm");
    let arguments = members(object(vec![
        ("source", string("source.sql")),
        ("target", string("postgres://db/target")),
        ("shadow", string("postgres://db/admin")),
        ("confirm_target", string("postgres://db/other")),
    ]));
    let error = adapter
        .command_for(ToolName::Apply, &arguments)
        .expect_err("mismatched confirmation must fail");
    assert_eq!(error.message(), "confirm_target must exactly equal target");
}

#[test]
fn arguments_are_not_shell_interpolated() {
    let adapter = DpmAdapter::new("/opt/dpm");
    let target = "postgres://db/target;touch /tmp/should-not-exist";
    let arguments = members(object(vec![
        ("source", string("source.sql")),
        ("target", string(target)),
        ("shadow", string("postgres://db/admin")),
        ("format", string("json")),
    ]));
    let command = adapter
        .command_for(ToolName::Diff, &arguments)
        .expect("valid diff command");
    assert_eq!(command.program(), b"/opt/dpm");
    assert!(command.args().iter().any(|argument| argument == target));
    assert_ne!(command.program(), b"sh");
}

#[test]
fn protocol_rejects_preinitialization_calls() {
    let adapter = DpmAdapter::new("dpm");
    let dispatch = AnySession::default().dispatch(&request(1, "tools/list"), &adapter);
    assert_eq!(
        dispatch.response.as_ref().and_then(|value| path(value, &["error", "code"])),
        Some(&JsonValue::Int(-32002))
    );
    assert!(matches!(dispatch.session, AnySession::Uninitialized(_)));
}

#[test]
fn initialize_consumes_the_uninitialized_state() {
    let adapter = DpmAdapter::new("dpm");
    let dispatch = AnySession::default().dispatch(&request(1, "initialize"), &adapter);
    assert_eq!(
        dispatch.response.as_ref().and_then(|value| path(value, &["result", "protocolVersion"])),
        Some(&string(PROTOCOL_VERSION))
    );
    let dispatch = dispatch.session.dispatch(&request(2, "tools/list"), &adapter);
    assert_eq!(
        dispatch
            .response
            .as_ref()
            .and_then(|value| path(value, &["result", "tools"]))
            .and_then(|tools| match tools {
                JsonValue::Array(items) => Some(items.len()),
                _ => None,
            }),
        Some(3)
    );
}

#[test]
fn diagnostic_tail_is_bounded() {
    assert_eq!(tail_text("abcdef", 3), "def");
    assert_eq!(tail_text("abc", 10), "abc");
}

#[test]
fn stdio_requires_initialization_then_lists_exact_tools() {
    let adapter = DpmAdapter::new("dpm");
    let with_params = |id: i64, method: &str| {
        object(vec![
            ("jsonrpc", string("2.0")),
            ("id", JsonValue::Int(id)),
            ("method", string(method)),
            ("params", object(vec![])),
        ])
    };
    let session = AnySession::default();

    let rejected = session.dispatch(&with_params(1, "tools/list"), &adapter);
    assert_eq!(
        rejected.response.as_ref().and_then(|value| path(value, &["error", "code"])),
        Some(&JsonValue::Int(-32002))
    );

    let initialize = rejected.session.dispatch(&with_params(2, "initialize"), &adapter);
    assert_eq!(
        initialize
            .response
            .as_ref()
            .and_then(|value| path(value, &["result", "protocolVersion"]))
            .and_then(JsonValue::as_str),
        Some(PROTOCOL_VERSION)
    );
    let notified = initialize.session.dispatch(
        &object(vec![("jsonrpc", string("2.0")), ("method", string("notifications/initialized"))]),
        &adapter,
    );
    assert!(notified.response.is_none());

    let tools = notified.session.dispatch(&with_params(3, "tools/list"), &adapter);
    let names = match tools.response.as_ref().and_then(|value| path(value, &["result", "tools"])) {
        Some(JsonValue::Array(items)) => items
            .iter()
            .filter_map(|tool| tool.get("name").and_then(JsonValue::as_str))
            .collect::<Vec<_>>(),
        _ => panic!("tools/list result is not an array"),
    };
    assert_eq!(names, ["dpm_diff", "dpm_verify", "dpm_apply"]);
}
