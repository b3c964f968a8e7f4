use cli_mcp_contract::certify::{
    answers_request, check_product_sha, confirmation_was_refused, database_url, drift_reported, help_lists_destructive_flag,
    initialize_reports_protocol, listed_tool_names, mcp_notification, mcp_request, names_are_the_tools,
    real_diff_succeeded, result_text,
};
use cli_mcp_contract::execution::{
    finish_run, next_wait_step, tail_text, tool_result, CallError, ExitReport, Poll, WaitStep,
};
use cli_mcp_contract::json::{JsonValue, Member};
use cli_mcp_contract::protocol::{invalid_json_response, rpc_error, AnySession, Session};
use cli_mcp_contract::repository::{
    check_checkout, check_manifest_pin, check_no_python, command_output, contains_token, credential_shaped, is_scannable,
    require_files, scan_text, should_skip, Finding, EXPECTED_PRODUCT_SHA,
};
use cli_mcp_contract::tools::{DpmAdapter, ToolName};
use std::time::Duration;

fn string(text: &str) -> JsonValue {
    JsonValue::Str(text.to_string())
}

fn object(members: Vec<(&str, JsonValue)>) -> JsonValue {
    JsonValue::Object(members.into_iter().map(|(key, value)| Member::new(key, value)).collect())
}

fn members(value: JsonValue) -> Vec<Member> {
    match value {
        JsonValue::Object(members) => members,
        _ => panic!("not an object"),
    }
}

fn call(id: i64, params: JsonValue) -> JsonValue {
    object(vec![("jsonrpc", string("2.0")), ("id", JsonValue::Int(id)), ("method", string("tools/call")), ("params", params)])
}

fn initialized() -> AnySession {
    AnySession::Initialized(Session::new().initialize(JsonValue::Null).0)
}

fn error_of(response: &JsonValue) -> (i64, String) {
    let error = response.get("error").expect("error member");
    let code = match error.get("code") {
        Some(JsonValue::Int(code)) => *code,
        _ => panic!("no code"),
    };
    (code, error.get("message").and_then(JsonValue::as_str).expect("message").to_string())
}

#[test]
fn diff_defaults_to_sql_and_keeps_argument_order() {
    let adapter = DpmAdapter::new("dpm");
    let arguments = members(object(vec![("source", string("a.sql")), ("target", string("postgres://t"))]));
    let command = adapter.command_for(ToolName::Diff, &arguments).unwrap();
    assert_eq!(command.program(), b"dpm");
    assert_eq!(command.args(), ["diff", "--source", "a.sql", "--target", "postgres://t", "--format", "sql"]);
}

#[test]
fn diff_refuses_unknown_formats() {
    let adapter = DpmAdapter::new("dpm");
    let arguments = members(object(vec![
        ("source", string("a.sql")),
        ("target", string("t")),
        ("shadow", string("s")),
        ("format", string("yaml")),
    ]));
    let error = adapter.command_for(ToolName::Diff, &arguments).unwrap_err();
    assert_eq!(error.message(), "format must be sql or json");
}

#[test]
fn missing_and_mistyped_arguments_are_named() {
    let adapter = DpmAdapter::new("dpm");
    let missing = members(object(vec![("target", string("t"))]));
    assert_eq!(adapter.command_for(ToolName::Diff, &missing).unwrap_err().message(), "source is a required string");
    let mistyped = members(object(vec![("source", JsonValue::Int(3)), ("target", string("t"))]));
    assert_eq!(adapter.command_for(ToolName::Verify, &mistyped).unwrap_err().message(), "source must be a string");
    let bad_shadow = members(object(vec![("source", string("s")), ("target", string("t")), ("shadow", JsonValue::Bool(true))]));
    assert_eq!(adapter.command_for(ToolName::Diff, &bad_shadow).unwrap_err().message(), "shadow must be a string");
}

#[test]
fn verify_and_apply_need_a_shadow() {
    let adapter = DpmAdapter::new("dpm");
    let arguments = members(object(vec![("source", string("s")), ("target", string("t")), ("confirm_target", string("t"))]));
    assert_eq!(adapter.command_for(ToolName::Verify, &arguments).unwrap_err().message(), "shadow is a required string");
    assert_eq!(adapter.command_for(ToolName::Apply, &arguments).unwrap_err().message(), "shadow is a required string");
}

#[test]
fn verify_passes_the_shadow() {
    let adapter = DpmAdapter::new("/bin/dpm");
    let arguments = members(object(vec![("source", string("s")), ("target", string("t")), ("shadow", string("h"))]));
    let command = adapter.command_for(ToolName::Verify, &arguments).unwrap();
    assert_eq!(command.args(), ["verify", "--source", "s", "--target", "t", "--shadow", "h"]);
}

#[test]
fn apply_confirms_and_allows_destructive_only_for_true() {
    let adapter = DpmAdapter::new("dpm");
    let base = vec![
        ("source", string("s")),
        ("target", string("t")),
        ("shadow", string("h")),
        ("confirm_target", string("t")),
    ];
    let plain = adapter.command_for(ToolName::Apply, &members(object(base.clone()))).unwrap();
    assert_eq!(plain.args(), ["apply", "--source", "s", "--target", "t", "--shadow", "h", "--yes"]);
    let mut destructive = base.clone();
    destructive.push(("allow_destructive", JsonValue::Bool(true)));
    let command = adapter.command_for(ToolName::Apply, &members(object(destructive))).unwrap();
    assert_eq!(
        command.args(),
        ["apply", "--source", "s", "--target", "t", "--shadow", "h", "--yes", "--allow-destructive"]
    );
    let mut as_text = base;
    as_text.push(("allow_destructive", string("true")));
    let command = adapter.command_for(ToolName::Apply, &members(object(as_text))).unwrap();
    assert_eq!(command.args().last().map(String::as_str), Some("--yes"));
    let missing = members(object(vec![("source", string("s")), ("target", string("t")), ("shadow", string("h"))]));
    assert_eq!(
        adapter.command_for(ToolName::Apply, &missing).unwrap_err().message(),
        "confirm_target is a required string"
    );
}

#[test]
fn tool_names_round_trip() {
    for tool in ToolName::ALL {
        assert_eq!(ToolName::parse(tool.as_str()).unwrap(), tool);
    }
    assert_eq!(ToolName::parse("dpm_drop").unwrap_err().message(), "unknown tool");
    assert_eq!(ToolName::parse("").unwrap_err().message(), "unknown tool");
}

#[test]
fn adapter_timeout_defaults_to_five_minutes() {
    let adapter = DpmAdapter::new("dpm");
    assert_eq!(adapter.timeout(), Duration::from_secs(300));
    let adapter = adapter.with_timeout(Duration::from_millis(250));
    assert_eq!(adapter.timeout(), Duration::from_millis(250));
    assert_eq!(adapter.binary(), b"dpm");
}

#[test]
fn errors_carry_the_request_id() {
    let response = rpc_error(string("abc"), -32601, "method not found");
    assert_eq!(response.get("jsonrpc"), Some(&string("2.0")));
    assert_eq!(response.get("id"), Some(&string("abc")));
    assert_eq!(error_of(&response), (-32601, "method not found".to_string()));
}

#[test]
fn unknown_methods_and_notifications() {
    let adapter = DpmAdapter::new("dpm");
    let unknown = object(vec![("id", JsonValue::Int(7)), ("method", string("resources/list"))]);
    let dispatch = initialized().dispatch(&unknown, &adapter);
    assert_eq!(error_of(dispatch.response.as_ref().unwrap()), (-32601, "method not found".to_string()));
    assert_eq!(dispatch.response.as_ref().unwrap().get("id"), Some(&JsonValue::Int(7)));
    assert!(matches!(dispatch.session, AnySession::Initialized(_)));

    let notification = object(vec![("method", string("notifications/initialized"))]);
    let dispatch = initialized().dispatch(&notification, &adapter);
    assert!(dispatch.response.is_none() && dispatch.call.is_none());

    let before = AnySession::default().dispatch(&notification, &adapter);
    assert_eq!(error_of(before.response.as_ref().unwrap()).0, -32002);
    assert_eq!(before.response.as_ref().unwrap().get("id"), Some(&JsonValue::Null));
}

#[test]
fn reinitializing_is_an_unknown_method() {
    let adapter = DpmAdapter::new("dpm");
    let message = object(vec![("id", JsonValue::Int(1)), ("method", string("initialize"))]);
    let dispatch = initialized().dispatch(&message, &adapter);
    assert_eq!(error_of(dispatch.response.as_ref().unwrap()).0, -32601);
}

#[test]
fn malformed_tool_calls_are_invalid_params() {
    let adapter = DpmAdapter::new("dpm");
    let cases = vec![
        (call(1, string("x")), "tools/call params must be an object"),
        (call(2, object(vec![("name", JsonValue::Int(1))])), "tool name must be a string"),
        (
            call(3, object(vec![("name", string("dpm_diff")), ("arguments", JsonValue::Array(vec![]))])),
            "tool arguments must be an object",
        ),
        (call(4, object(vec![("name", string("dpm_nope"))])), "unknown tool"),
        (call(5, object(vec![("name", string("dpm_diff"))])), "source is a required string"),
    ];
    for (message, reason) in cases {
        let dispatch = initialized().dispatch(&message, &adapter);
        assert!(dispatch.call.is_none());
        assert_eq!(error_of(dispatch.response.as_ref().unwrap()), (-32602, reason.to_string()));
    }
}

#[test]
fn valid_tool_calls_become_commands_and_replies() {
    let adapter = DpmAdapter::new("/usr/bin/dpm");
    let params = object(vec![
        ("name", string("dpm_diff")),
        ("arguments", object(vec![("source", string("s")), ("target", string("t"))])),
    ]);
    let dispatch = initialized().dispatch(&call(9, params), &adapter);
    assert!(dispatch.response.is_none());
    let tool_call = dispatch.call.expect("a command to run");
    assert_eq!(tool_call.command().program(), b"/usr/bin/dpm");
    assert_eq!(tool_call.command().args()[0], "diff");
    let result = tool_result(b"{}", b"note", ExitReport::from_code(Some(0)));
    let reply = tool_call.finish(Ok(result));
    assert_eq!(reply.get("id"), Some(&JsonValue::Int(9)));
    let rendered = reply.get("result").unwrap();
    assert_eq!(rendered.get("isError"), Some(&JsonValue::Bool(false)));
    assert_eq!(rendered.get("exit_code"), Some(&JsonValue::Int(0)));
    assert_eq!(rendered.get("stderr"), Some(&string("note")));
    assert_eq!(
        rendered.get("content"),
        Some(&JsonValue::Array(vec![object(vec![("type", string("text")), ("text", string("{}"))])]))
    );
}

#[test]
fn failed_runs_are_reported_by_kind() {
    let adapter = DpmAdapter::new("dpm");
    let params = object(vec![
        ("name", string("dpm_diff")),
        ("arguments", object(vec![("source", string("s")), ("target", string("t"))])),
    ]);
    let timed_out = initialized().dispatch(&call(1, params.duplicate()), &adapter).call.unwrap();
    let reply = timed_out.finish(Err(CallError::Timeout(Duration::from_secs(1))));
    assert_eq!(error_of(&reply), (-32001, "dpm command timed out".to_string()));
    let failed = initialized().dispatch(&call(2, params), &adapter).call.unwrap();
    let reply = failed.finish(Err(CallError::Runtime("spawning dpm".to_string())));
    assert_eq!(error_of(&reply), (-32000, "dpm command failed to start or complete: spawning dpm".to_string()));
}

#[test]
fn invalid_json_lines_get_a_parse_error() {
    let reply = invalid_json_response("expected value");
    assert_eq!(reply.get("id"), Some(&JsonValue::Null));
    assert_eq!(error_of(&reply), (-32700, "invalid JSON: expected value".to_string()));
}

#[test]
fn tails_count_characters() {
    assert_eq!(tail_text("", 3), "");
    assert_eq!(tail_text("héllo", 4), "éllo");
    assert_eq!(tail_text("abc", 0), "");
}

#[test]
fn results_report_exit_and_decode_output() {
    let exit = ExitReport { success: true, code: Some(0) };
    let result = tool_result(b"plan", b"warn", exit);
    assert_eq!(result.text(), "plan");
    assert!(!result.is_error);
    assert_eq!(result.exit_code, 0);
    assert_eq!(result.stderr, "warn");
    assert_eq!(result.content[0].kind(), "text");

    let killed = ExitReport { success: false, code: None };
    let result = tool_result(&[0x61, 0xff, 0x62], b"", killed);
    assert_eq!(result.text(), "a\u{fffd}b");
    assert!(result.is_error);
    assert_eq!(result.exit_code, -1);

    let long = vec![b'x'; 9000];
    let result = tool_result(b"", &long, ExitReport { success: false, code: Some(3) });
    assert_eq!(result.stderr.chars().count(), 8192);
    assert_eq!(result.exit_code, 3);
}

#[test]
fn timeouts_win_over_results() {
    let exit = ExitReport { success: true, code: Some(0) };
    match finish_run(b"out", b"", exit, true, Duration::from_secs(5)) {
        Err(CallError::Timeout(t)) => assert_eq!(t, Duration::from_secs(5)),
        _ => panic!("expected a timeout"),
    }
    assert!(finish_run(b"out", b"", exit, false, Duration::from_secs(5)).is_ok());
}

#[test]
fn waiting_follows_the_deadline() {
    let exit = ExitReport { success: true, code: Some(0) };
    assert!(matches!(next_wait_step(Poll::Exited(exit), true), WaitStep::Finished(r) if r == exit));
    assert!(matches!(next_wait_step(Poll::Running, false), WaitStep::Sleep));
    assert!(matches!(next_wait_step(Poll::Running, true), WaitStep::StopAndReap));
    match next_wait_step(Poll::Failed, false) {
        WaitStep::Fail(CallError::Runtime(message)) => assert_eq!(message, "polling dpm process"),
        _ => panic!("expected a failure"),
    }
}

#[test]
fn tokens_need_twenty_alphanumerics() {
    let token = format!("ghp_{}", "A1".repeat(10));
    assert!(contains_token(&token, "ghp_"));
    assert!(!contains_token(&format!("ghp_{}", "a".repeat(19)), "ghp_"));
    assert!(contains_token(&format!("x ghp_short ghp_{}", "b".repeat(20)), "ghp_"));
    assert!(!contains_token("no prefix here", "ghp_"));
    // The scan resumes one character past a rejected occurrence.
    assert!(!contains_token(&format!("ghp_ghp_{}", "c".repeat(20)), "ghp_"));
}

#[test]
fn credentials_and_conflicts_are_found() {
    let marker = ["BEGIN", "PRIVATE KEY"].join(" ");
    assert!(credential_shaped(&format!("-----{marker}-----")));
    assert!(credential_shaped(&format!("token = gho_{}", "Z".repeat(30))));
    assert!(!credential_shaped("ghx_AAAAAAAAAAAAAAAAAAAAAAAA"));
    assert_eq!(scan_text(&format!("a\n{}\nb", "=".repeat(7))), Some(Finding::ConflictMarker));
    assert_eq!(scan_text(&"<".repeat(7)), Some(Finding::ConflictMarker));
    assert_eq!(scan_text(&"<".repeat(6)), None);
    assert_eq!(scan_text(&format!("{}{marker}", ">".repeat(7))), Some(Finding::ConflictMarker));
    assert_eq!(scan_text(&marker), Some(Finding::Credential));
    assert_eq!(scan_text("plain text"), None);
}

#[test]
fn scans_skip_tool_directories() {
    let parts = |names: &[&str]| names.iter().map(|n| n.to_string()).collect::<Vec<_>>();
    assert!(should_skip(&parts(&["target", "debug"])));
    assert!(should_skip(&parts(&["src", ".git"])));
    assert!(should_skip(&parts(&["artifacts"])));
    assert!(!should_skip(&parts(&["src", "vendored"])));
    assert!(!should_skip(&parts(&[])));
    assert!(is_scannable(true, 1_000_000));
    assert!(!is_scannable(true, 1_000_001));
    assert!(!is_scannable(false, 1));
}

#[test]
fn missing_files_are_listed() {
    let files = vec![("a".to_string(), true), ("b".to_string(), false), ("c".to_string(), false)];
    assert_eq!(require_files(&files), Err("missing required files: b, c".to_string()));
    assert_eq!(require_files(&vec![("a".to_string(), true)]), Ok(()));
    assert_eq!(require_files(&vec![]), Ok(()));
}

#[test]
fn pins_are_checked() {
    let repository = "declarative-migrations/declarative-postgres-migrate.rs";
    let path = "vendor/declarative-postgres-migrate.rs";
    assert_eq!(check_manifest_pin(EXPECTED_PRODUCT_SHA, repository, path, "git-submodule"), Ok(()));
    assert_eq!(
        check_manifest_pin("abc", repository, path, "git-submodule"),
        Err(format!("production dependency pin drifted in the manifest: expected {EXPECTED_PRODUCT_SHA}, observed abc"))
    );
    assert_eq!(
        check_manifest_pin(EXPECTED_PRODUCT_SHA, repository, path, "https"),
        Err("production dependency coordinates drifted in the manifest".to_string())
    );
    assert_eq!(check_checkout(EXPECTED_PRODUCT_SHA), Ok(()));
    assert!(check_checkout("def").unwrap_err().ends_with("observed def"));
    assert_eq!(check_no_python(""), Ok(()));
    assert_eq!(check_no_python("x.py"), Err("tracked Python files are not allowed:\nx.py".to_string()));
}

#[test]
fn database_urls_replace_the_database() {
    assert_eq!(
        database_url("postgres://postgres@localhost:5432/postgres", "db").unwrap(),
        "postgres://postgres@localhost:5432/db"
    );
    assert_eq!(
        database_url("postgres://h/admin?sslmode=disable&x=a/b", "db").unwrap(),
        "postgres://h/db?sslmode=disable&x=a/b"
    );
    assert_eq!(database_url("nodatabase", "db").unwrap_err(), "POSTGRES_ADMIN_URL must include a database path");
    assert_eq!(database_url("host?path=/x", "db").unwrap_err(), "POSTGRES_ADMIN_URL must include a database path");
}

#[test]
fn certification_reads_responses() {
    let initialize = object(vec![("id", JsonValue::Int(1)), ("result", object(vec![("protocolVersion", string("2025-03-26"))]))]);
    assert!(initialize_reports_protocol(&initialize));
    assert!(answers_request(&initialize, 1));
    assert!(!answers_request(&initialize, 2));
    assert!(!initialize_reports_protocol(&object(vec![("result", object(vec![("protocolVersion", string("2024"))]))])));

    let tools = object(vec![(
        "result",
        object(vec![(
            "tools",
            JsonValue::Array(vec![
                object(vec![("name", string("dpm_diff"))]),
                object(vec![("name", JsonValue::Int(1))]),
                object(vec![("name", string("dpm_verify"))]),
                object(vec![("name", string("dpm_apply"))]),
            ]),
        )]),
    )]);
    let names = listed_tool_names(&tools).unwrap();
    assert_eq!(names, ["dpm_diff", "dpm_verify", "dpm_apply"]);
    assert!(names_are_the_tools(&names));
    assert!(!names_are_the_tools(&names[..2].to_vec()));
    assert!(listed_tool_names(&object(vec![])).is_none());

    let diff = object(vec![(
        "result",
        object(vec![
            ("isError", JsonValue::Bool(false)),
            ("exit_code", JsonValue::Int(0)),
            ("content", JsonValue::Array(vec![object(vec![("type", string("text")), ("text", string("{}"))])])),
        ]),
    )]);
    assert!(real_diff_succeeded(&diff));
    assert_eq!(result_text(&diff), Some("{}"));

    let refused = rpc_error(JsonValue::Int(4), -32602, "confirm_target must exactly equal target");
    assert!(confirmation_was_refused(&refused));
    assert!(!confirmation_was_refused(&rpc_error(JsonValue::Int(4), -32602, "unknown tool")));

    assert!(help_lists_destructive_flag("  --allow-destructive-ops  allow it"));
    assert!(!help_lists_destructive_flag("--allow-destructive"));
    assert!(drift_reported(Some(2)));
    assert!(!drift_reported(Some(0)));
    assert!(!drift_reported(None));

    let request = mcp_request(3, "tools/list", object(vec![]));
    assert_eq!(request.get("id"), Some(&JsonValue::Int(3)));
    assert_eq!(mcp_notification("notifications/initialized").get("id"), None);
}

#[test]
fn documents_copy_deeply() {
    let document = object(vec![
        ("a", JsonValue::Array(vec![JsonValue::Int(1), JsonValue::Number("1.5".to_string())])),
        ("b", JsonValue::Null),
        ("a", JsonValue::Bool(true)),
    ]);
    assert_eq!(document.duplicate(), document);
    assert_eq!(document.get("a"), Some(&JsonValue::Array(vec![JsonValue::Int(1), JsonValue::Number("1.5".to_string())])));
    assert_eq!(document.get("c"), None);
    assert_eq!(JsonValue::Int(1).get("a"), None);
}

#[test]
fn product_commit_is_pinned() {
    assert_eq!(check_product_sha(EXPECTED_PRODUCT_SHA), Ok(()));
    assert_eq!(
        check_product_sha("abc"),
        Err(format!("product SHA drifted: expected {EXPECTED_PRODUCT_SHA}, observed abc"))
    );
}

#[test]
fn binaries_keep_their_exact_bytes() {
    let raw = [b'/', b'o', b'p', b't', b'/', 0xff, b'd'];
    let adapter = DpmAdapter::from_env(Some(&raw));
    assert_eq!(adapter.binary(), &raw);
    assert_eq!(DpmAdapter::from_env(None).binary(), b"dpm");
    let arguments = members(object(vec![("source", string("s")), ("target", string("t"))]));
    assert_eq!(adapter.command_for(ToolName::Diff, &arguments).unwrap().program(), &raw);
}

#[test]
fn exit_reports_follow_the_exit_code() {
    assert_eq!(ExitReport::from_code(Some(0)), ExitReport { success: true, code: Some(0) });
    assert_eq!(ExitReport::from_code(Some(2)), ExitReport { success: false, code: Some(2) });
    assert_eq!(ExitReport::from_code(None), ExitReport { success: false, code: None });
    for code in [Some(0), Some(1), Some(-1), None] {
        let result = tool_result(b"", b"", ExitReport::from_code(code));
        assert_eq!(result.is_error, result.exit_code != 0);
    }
}

#[test]
fn result_text_follows_the_pointer() {
    let in_array = object(vec![(
        "result",
        object(vec![("content", JsonValue::Array(vec![object(vec![("text", string("a"))])]))]),
    )]);
    assert_eq!(result_text(&in_array), Some("a"));
    let in_object = object(vec![(
        "result",
        object(vec![("content", object(vec![("0", object(vec![("text", string("b"))]))]))]),
    )]);
    assert_eq!(result_text(&in_object), Some("b"));
    let empty = object(vec![("result", object(vec![("content", JsonValue::Array(vec![]))]))]);
    assert_eq!(result_text(&empty), None);
    assert_eq!(result_text(&object(vec![("result", object(vec![("content", string("x"))]))])), None);
}

#[test]
fn command_outputs_pass_or_name_the_step() {
    assert_eq!(command_output("listing", true, "a.py", "warn"), Ok("a.py".to_string()));
    assert_eq!(command_output("listing", false, "a.py", "boom"), Err("listing failed: boom".to_string()));
}

#[test]
fn adapters_clone_whole() {
    let adapter = DpmAdapter::new("/bin/dpm").with_timeout(Duration::from_secs(7));
    let copy = adapter.clone();
    assert_eq!(copy.binary(), b"/bin/dpm");
    assert_eq!(copy.timeout(), Duration::from_secs(7));
}
