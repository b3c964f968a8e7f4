//! The MCP session: its lifecycle, and how each message is answered.
use vstd::prelude::*;
use crate::execution::{tool_result_model, CallError, ToolResult};
use crate::json::{
    json_as_str, json_get, json_get_str, lemma_items_model, items_model, lookup_from, object1, object2, object3,
    Json, JsonValue,
};
use crate::tools::{command_plan, descriptors_spec, tool_descriptors, CommandSpec, DpmAdapter, ToolName};
use core::marker::PhantomData;
use vstd::string::*;

verus! {

/// A successful JSON-RPC response to request `id`.
pub open spec fn rpc_result_model(id: Json, result: Json) -> Json {
    Json::Object(seq![("jsonrpc"@, Json::Str("2.0"@)), ("id"@, id), ("result"@, result)])
}

/// A JSON-RPC error response to request `id`.
pub open spec fn rpc_error_model(id: Json, code: int, message: Seq<char>) -> Json {
    Json::Object(
        seq![
            ("jsonrpc"@, Json::Str("2.0"@)),
            ("id"@, id),
            ("error"@, Json::Object(seq![("code"@, Json::Int(code)), ("message"@, Json::Str(message))])),
        ],
    )
}

/// The response that carries `result` for request `identifier`.
pub fn rpc_result(identifier: JsonValue, result: JsonValue) -> (r: JsonValue)
    ensures
        r@ == rpc_result_model(identifier@, result@),
{
    object3("jsonrpc", JsonValue::string("2.0"), "id", identifier, "result", result)
}

/// The error response with `code` and `message` for request `identifier`.
pub fn rpc_error(identifier: JsonValue, code: i64, message: &str) -> (r: JsonValue)
    ensures
        r@ == rpc_error_model(identifier@, code as int, message@),
{
    let error = object2("code", JsonValue::Int(code), "message", JsonValue::string(message));
    object3("jsonrpc", JsonValue::string("2.0"), "id", identifier, "error", error)
}

/// The reply to a line that is not JSON; `detail` says what is wrong with it.
pub fn invalid_json_response(detail: &str) -> (r: JsonValue)
    ensures
        r@ == rpc_error_model(Json::Null, -32700, "invalid JSON: "@ + detail@),
{
    let message = String::from_str("invalid JSON: ").concat(detail);
    rpc_error(JsonValue::Null, -32700, message.as_str())
}

/// The protocol version that the server speaks.
pub const PROTOCOL_VERSION: &'static str = "2025-03-26";

/// The name under which the server introduces itself.
pub const SERVER_NAME: &'static str = "dpm-mcp";

/// The version under which the server introduces itself.
pub const SERVER_VERSION: &'static str = "0.1.0";

/// The id of a request: its `id` member, or `null` when it has none.
pub open spec fn request_id(message: Json) -> Json {
    match json_get(message, "id"@) {
        Some(id) => id,
        None => Json::Null,
    }
}

/// The method of a request, when its `method` member is a string.
pub open spec fn request_method(message: Json) -> Option<Seq<char>> {
    json_get_str(message, "method"@)
}

/// What `initialize` answers.
pub open spec fn initialize_result_spec() -> Json {
    Json::Object(
        seq![
            ("protocolVersion"@, Json::Str(PROTOCOL_VERSION@)),
            ("capabilities"@, Json::Object(seq![("tools"@, Json::Object(Seq::empty()))])),
            (
                "serverInfo"@,
                Json::Object(seq![("name"@, Json::Str(SERVER_NAME@)), ("version"@, Json::Str(SERVER_VERSION@))]),
            ),
        ],
    )
}

/// What `tools/list` answers.
pub open spec fn tools_list_spec() -> Json {
    Json::Object(seq![("tools"@, Json::Array(descriptors_spec()))])
}

/// The tool called `name`, if there is one.
pub open spec fn tool_named(name: Seq<char>) -> Option<ToolName> {
    if name == ToolName::Diff.name_spec() {
        Some(ToolName::Diff)
    } else if name == ToolName::Verify.name_spec() {
        Some(ToolName::Verify)
    } else if name == ToolName::Apply.name_spec() {
        Some(ToolName::Apply)
    } else {
        None
    }
}

/// How a session answers a message: with a reply (or no reply, for a
/// notification), or by running a command and replying with its outcome.
pub enum Answer {
    Reply(Option<Json>),
    Run(Json, Seq<Seq<char>>),
}

/// How an initialized session answers a `tools/call` request with id `id`.
pub open spec fn tool_call_spec(id: Json, message: Json) -> Answer {
    match json_get(message, "params"@) {
        Some(Json::Object(params)) => match json_as_str(lookup_from(params, "name"@, 0)) {
            None => Answer::Reply(Some(rpc_error_model(id, -32602, "tool name must be a string"@))),
            Some(name) => {
                let arguments = match lookup_from(params, "arguments"@, 0) {
                    Some(a) => a,
                    None => Json::Object(Seq::empty()),
                };
                match arguments {
                    Json::Object(args) => match tool_named(name) {
                        None => Answer::Reply(Some(rpc_error_model(id, -32602, "unknown tool"@))),
                        Some(tool) => match command_plan(tool, args) {
                            Err(reason) => Answer::Reply(Some(rpc_error_model(id, -32602, reason))),
                            Ok(argv) => Answer::Run(id, argv),
                        },
                    },
                    _ => Answer::Reply(Some(rpc_error_model(id, -32602, "tool arguments must be an object"@))),
                }
            },
        },
        _ => Answer::Reply(Some(rpc_error_model(id, -32602, "tools/call params must be an object"@))),
    }
}

/// How a session answers `message`, given whether it is initialized.
pub open spec fn answer_spec(initialized: bool, message: Json) -> Answer {
    let id = request_id(message);
    let method = request_method(message);
    if !initialized {
        if method == Some("initialize"@) {
            Answer::Reply(Some(rpc_result_model(id, initialize_result_spec())))
        } else {
            Answer::Reply(Some(rpc_error_model(id, -32002, "server is not initialized"@)))
        }
    } else if method == Some("notifications/initialized"@) {
        Answer::Reply(None)
    } else if method == Some("tools/list"@) {
        Answer::Reply(Some(rpc_result_model(id, tools_list_spec())))
    } else if method == Some("tools/call"@) {
        tool_call_spec(id, message)
    } else {
        Answer::Reply(Some(rpc_error_model(id, -32601, "method not found"@)))
    }
}

/// Whether a session that is `initialized` is initialized after `message`.
pub open spec fn next_initialized(initialized: bool, message: Json) -> bool {
    initialized || request_method(message) == Some("initialize"@)
}

/// The state of a session that has not been initialized yet: it offers no tools.
#[derive(Debug)]
pub struct Uninitialized;

/// The state of an initialized session.
#[derive(Debug)]
pub struct Initialized;

/// A protocol session in the state `State`.
#[derive(Debug)]
pub struct Session<State> {
    state: PhantomData<State>,
}

impl Session<Uninitialized> {
    /// A session that waits for `initialize`.
    pub fn new() -> (s: Session<Uninitialized>) {
        Session { state: PhantomData }
    }

    /// Initializes the session, answering request `identifier`.
    pub fn initialize(self, identifier: JsonValue) -> (r: (Session<Initialized>, JsonValue))
        ensures
            r.1@ == rpc_result_model(identifier@, initialize_result_spec()),
    {
        let result = object3(
            "protocolVersion",
            JsonValue::string(PROTOCOL_VERSION),
            "capabilities",
            object1("tools", crate::json::object0()),
            "serverInfo",
            object2("name", JsonValue::string(SERVER_NAME), "version", JsonValue::string(SERVER_VERSION)),
        );
        (Session { state: PhantomData }, rpc_result(identifier, result))
    }
}

impl Default for Session<Uninitialized> {
    /// A session that waits for `initialize`.
    fn default() -> (s: Session<Uninitialized>) {
        Session::new()
    }
}

/// What a session does with one message: reply (or stay silent), or run a tool.
pub enum Handling {
    Reply(Option<JsonValue>),
    Run(ToolCall),
}

impl Handling {
    /// The answer that this handling gives.
    pub open spec fn answer(self) -> Answer {
        match self {
            Handling::Reply(r) => Answer::Reply(
                match r {
                    Some(v) => Some(v@),
                    None => None,
                },
            ),
            Handling::Run(call) => Answer::Run(call.identifier_spec(), call.command_spec().args_spec()),
        }
    }
}

impl Session<Initialized> {
    /// The tool list, answering request `identifier`.
    pub fn list_tools(&self, identifier: JsonValue) -> (r: JsonValue)
        ensures
            r@ == rpc_result_model(identifier@, tools_list_spec()),
    {
        let tools = tool_descriptors();
        proof {
            lemma_items_model(tools@);
            assert forall|i: int| 0 <= i < 3 implies items_model(tools@)[i] == descriptors_spec()[i] by {
                assert(tools@[i]@ == descriptors_spec()[i]);
            }
            assert(items_model(tools@) =~= descriptors_spec());
        }
        rpc_result(identifier, object1("tools", JsonValue::Array(tools)))
    }

    /// How this session answers `message`.
    pub fn handle_message(&self, message: &JsonValue, adapter: &DpmAdapter) -> (h: Handling)
        ensures
            h.answer() == answer_spec(true, message@),
            h matches Handling::Run(call) ==> call.command_spec().program_spec() == adapter.binary_spec(),
    {
        let identifier = request_identifier(message);
        let method = request_method_of(message);
        if method_is(method, "notifications/initialized") {
            Handling::Reply(None)
        } else if method_is(method, "tools/list") {
            Handling::Reply(Some(self.list_tools(identifier)))
        } else if method_is(method, "tools/call") {
            handle_tool_call(identifier, message, adapter)
        } else {
            Handling::Reply(Some(rpc_error(identifier, -32601, "method not found")))
        }
    }
}

/// A copy of the id of `message`, or `null`.
fn request_identifier(message: &JsonValue) -> (id: JsonValue)
    ensures
        id@ == request_id(message@),
{
    match message.get("id") {
        Some(id) => id.duplicate(),
        None => JsonValue::Null,
    }
}

/// The method of `message`, when it is a string.
fn request_method_of(message: &JsonValue) -> (m: Option<&str>)
    ensures
        match m {
            Some(s) => request_method(message@) == Some(s@),
            None => request_method(message@) is None,
        },
{
    match message.get("method") {
        Some(v) => v.as_str(),
        None => None,
    }
}

/// Whether `method` is present and is `name`.
fn method_is(method: Option<&str>, name: &str) -> (b: bool)
    ensures
        b == (method matches Some(m) && m@ == name@),
{
    match method {
        Some(m) => crate::text::str_eq(m, name),
        None => false,
    }
}

/// A tool call that is ready to run: the command, and the request it answers.
#[derive(Debug)]
pub struct ToolCall {
    identifier: JsonValue,
    command: CommandSpec,
}

impl ToolCall {
    /// The id of the request that the call answers.
    pub closed spec fn identifier_spec(&self) -> Json {
        self.identifier@
    }

    /// The command to run.
    pub closed spec fn command_spec(&self) -> CommandSpec {
        self.command
    }

    /// The command to run.
    pub fn command(&self) -> (c: &CommandSpec)
        ensures
            *c == self.command_spec(),
    {
        &self.command
    }

    /// The reply to the request, once the command has run: `outcome` holds the
    /// tool result or the reason there is none.
    pub fn finish(self, outcome: Result<ToolResult, CallError>) -> (r: JsonValue)
        ensures
            r@ == match outcome {
                Ok(result) => rpc_result_model(self.identifier_spec(), tool_result_model(result)),
                Err(e) => call_error_reply_spec(self.identifier_spec(), e),
            },
    {
        match outcome {
            Ok(result) => rpc_result(self.identifier, result.render()),
            Err(e) => call_error_reply(self.identifier, e),
        }
    }
}

/// How an initialized session answers a `tools/call` request with id `identifier`.
fn handle_tool_call(identifier: JsonValue, message: &JsonValue, adapter: &DpmAdapter) -> (h: Handling)
    ensures
        h.answer() == tool_call_spec(identifier@, message@),
        h matches Handling::Run(call) ==> call.command_spec().program_spec() == adapter.binary_spec(),
{
    let params = match message.get("params") {
        Some(p) => match p.as_object() {
            Some(ms) => ms,
            None => return Handling::Reply(Some(rpc_error(identifier, -32602, "tools/call params must be an object"))),
        },
        None => return Handling::Reply(Some(rpc_error(identifier, -32602, "tools/call params must be an object"))),
    };
    let name = match crate::json::lookup_member(params, "name") {
        Some(v) => match v.as_str() {
            Some(n) => n,
            None => return Handling::Reply(Some(rpc_error(identifier, -32602, "tool name must be a string"))),
        },
        None => return Handling::Reply(Some(rpc_error(identifier, -32602, "tool name must be a string"))),
    };
    let empty = Vec::new();
    proof {
        crate::json::lemma_members_model(empty@);
        assert(crate::json::members_model(empty@) =~= Seq::<(Seq<char>, Json)>::empty());
    }
    let arguments = match crate::json::lookup_member(params, "arguments") {
        Some(v) => match v.as_object() {
            Some(ms) => ms,
            None => return Handling::Reply(Some(rpc_error(identifier, -32602, "tool arguments must be an object"))),
        },
        None => &empty,
    };
    let ghost args = crate::json::members_model(arguments@);
    match adapter.call_tool(name, arguments) {
        Ok(command) => {
            proof {
                let t = choose|t: ToolName| #[trigger] t.name_spec() == name@
                    && command_plan(t, args) == Ok::<Seq<Seq<char>>, Seq<char>>(command.args_spec())
                    && command.program_spec() == adapter.binary_spec();
                tools_are_found_by_name(t, name@);
            }
            Handling::Run(ToolCall { identifier, command })
        },
        Err(e) => {
            proof {
                if let CallError::Invalid(inner) = &e {
                    if exists|t: ToolName| #[trigger] t.name_spec() == name@
                        && command_plan(t, args) == Err::<Seq<Seq<char>>, Seq<char>>(inner@) {
                        let t = choose|t: ToolName| #[trigger] t.name_spec() == name@
                            && command_plan(t, args) == Err::<Seq<Seq<char>>, Seq<char>>(inner@);
                        tools_are_found_by_name(t, name@);
                    } else {
                        tools_are_found_by_name(ToolName::Diff, name@);
                    }
                }
            }
            Handling::Reply(Some(call_error_reply(identifier, e)))
        },
    }
}

/// The reply to request `identifier` for a tool call that failed with `error`.
pub open spec fn call_error_reply_spec(identifier: Json, error: CallError) -> Json {
    match error {
        CallError::Invalid(e) => rpc_error_model(identifier, -32602, e@),
        CallError::Timeout(_) => rpc_error_model(identifier, -32001, "dpm command timed out"@),
        CallError::Runtime(m) => rpc_error_model(identifier, -32000, "dpm command failed to start or complete: "@ + m@),
    }
}

/// The reply to request `identifier` for a tool call that failed with `error`.
pub fn call_error_reply(identifier: JsonValue, error: CallError) -> (r: JsonValue)
    ensures
        r@ == call_error_reply_spec(identifier@, error),
{
    match error {
        CallError::Invalid(e) => rpc_error(identifier, -32602, e.message()),
        CallError::Timeout(_) => rpc_error(identifier, -32001, "dpm command timed out"),
        CallError::Runtime(m) => {
            let text = String::from_str("dpm command failed to start or complete: ").concat(m.as_str());
            rpc_error(identifier, -32000, text.as_str())
        },
    }
}

/// A session in either state.
#[derive(Debug)]
pub enum AnySession {
    Uninitialized(Session<Uninitialized>),
    Initialized(Session<Initialized>),
}

impl Default for AnySession {
    /// A session that waits for `initialize`.
    fn default() -> (s: AnySession)
        ensures
            s is Uninitialized,
    {
        AnySession::Uninitialized(Session::new())
    }
}

/// The outcome of one message: the session that follows, the reply (none
/// for a notification, or while a tool call runs), and the tool call to run.
#[derive(Debug)]
pub struct Dispatch {
    pub session: AnySession,
    pub response: Option<JsonValue>,
    pub call: Option<ToolCall>,
}

impl Dispatch {
    /// The answer that this outcome gives.
    pub open spec fn answer(self) -> Answer {
        match self.call {
            Some(call) => Answer::Run(call.identifier_spec(), call.command_spec().args_spec()),
            None => Answer::Reply(
                match self.response {
                    Some(v) => Some(v@),
                    None => None,
                },
            ),
        }
    }
}

impl AnySession {
    /// Whether the session is initialized.
    pub open spec fn is_initialized(self) -> bool {
        self is Initialized
    }

    /// Takes one message: an uninitialized session answers only `initialize`;
    /// an initialized one answers the tool methods.
    pub fn dispatch(self, message: &JsonValue, adapter: &DpmAdapter) -> (d: Dispatch)
        ensures
            d.session.is_initialized() == next_initialized(self.is_initialized(), message@),
            d.answer() == answer_spec(self.is_initialized(), message@),
            d.call is Some ==> d.response is None,
            d.call matches Some(call) ==> call.command_spec().program_spec() == adapter.binary_spec(),
    {
        match self {
            AnySession::Uninitialized(session) => {
                let identifier = request_identifier(message);
                if method_is(request_method_of(message), "initialize") {
                    let (session, response) = session.initialize(identifier);
                    Dispatch { session: AnySession::Initialized(session), response: Some(response), call: None }
                } else {
                    Dispatch {
                        session: AnySession::Uninitialized(session),
                        response: Some(rpc_error(identifier, -32002, "server is not initialized")),
                        call: None,
                    }
                }
            },
            AnySession::Initialized(session) => {
                let handling = session.handle_message(message, adapter);
                proof {
                    reveal_strlit("initialize");
                    reveal_strlit("notifications/initialized");
                    reveal_strlit("tools/list");
                    reveal_strlit("tools/call");
                }
                match handling {
                    Handling::Reply(response) => Dispatch { session: AnySession::Initialized(session), response, call: None },
                    Handling::Run(call) => Dispatch { session: AnySession::Initialized(session), response: None, call: Some(call) },
                }
            },
        }
    }
}

/// Every response is a JSON-RPC 2.0 message that carries the id it answers.
pub proof fn responses_carry_their_id(id: Json, result: Json, code: int, message: Seq<char>)
    ensures
        json_get(rpc_result_model(id, result), "jsonrpc"@) == Some(Json::Str("2.0"@)),
        json_get(rpc_result_model(id, result), "id"@) == Some(id),
        json_get(rpc_result_model(id, result), "result"@) == Some(result),
        json_get(rpc_error_model(id, code, message), "jsonrpc"@) == Some(Json::Str("2.0"@)),
        json_get(rpc_error_model(id, code, message), "id"@) == Some(id),
        json_get(rpc_error_model(id, code, message), "error"@) == Some(
            Json::Object(seq![("code"@, Json::Int(code)), ("message"@, Json::Str(message))]),
        ),
{
    reveal_strlit("jsonrpc");
    reveal_strlit("id");
    reveal_strlit("result");
    reveal_strlit("error");
    assert("jsonrpc"@.len() != "id"@.len());
    assert("jsonrpc"@.len() != "result"@.len());
    assert("jsonrpc"@.len() != "error"@.len());
    assert("id"@.len() != "result"@.len());
    assert("id"@.len() != "error"@.len());
    reveal_with_fuel(lookup_from, 4);
}

/// Once initialized, a session stays initialized; an uninitialized session
/// becomes initialized exactly on `initialize`.
pub proof fn initialization_is_permanent(message: Json)
    ensures
        next_initialized(true, message),
        next_initialized(false, message) <==> request_method(message) == Some("initialize"@),
{
}

/// The reply to a tool call whose command ran to its end carries the result's
/// single text block, whether it is an error, its exit code and its stderr.
pub proof fn tool_call_replies_render_the_result(id: Json, result: ToolResult)
    requires
        result.content@.len() == 1,
    ensures
        rpc_result_model(id, tool_result_model(result)) == Json::Object(
            seq![
                ("jsonrpc"@, Json::Str("2.0"@)),
                ("id"@, id),
                (
                    "result"@,
                    Json::Object(
                        seq![
                            (
                                "content"@,
                                Json::Array(
                                    seq![
                                        Json::Object(
                                            seq![
                                                ("type"@, Json::Str(result.content@[0].kind_spec())),
                                                ("text"@, Json::Str(result.text_spec())),
                                            ],
                                        ),
                                    ],
                                ),
                            ),
                            ("isError"@, Json::Bool(result.is_error)),
                            ("exit_code"@, Json::Int(result.exit_code as int)),
                            ("stderr"@, Json::Str(result.stderr@)),
                        ],
                    ),
                ),
            ],
        ),
{
    assert(result.content@.map_values(|c: crate::execution::TextContent| crate::execution::text_content_model(c))
        =~= seq![crate::execution::text_content_model(result.content@[0])]);
}

/// The `initialize` reply speaks protocol version `2025-03-26`, declares the
/// tools capability, and introduces the server as `dpm-mcp`.
pub proof fn initialize_declares_the_tools_capability()
    ensures
        crate::json::json_path(initialize_result_spec(), seq!["protocolVersion"@]) == Some(Json::Str("2025-03-26"@)),
        crate::json::json_path(initialize_result_spec(), seq!["capabilities"@, "tools"@]) == Some(
            Json::Object(Seq::empty()),
        ),
        crate::json::json_path(initialize_result_spec(), seq!["serverInfo"@, "name"@]) == Some(Json::Str("dpm-mcp"@)),
{
    reveal_strlit("protocolVersion");
    reveal_strlit("capabilities");
    reveal_strlit("serverInfo");
    reveal_strlit("tools");
    reveal_strlit("name");
    assert("protocolVersion"@.len() != "capabilities"@.len());
    assert("protocolVersion"@.len() != "serverInfo"@.len());
    reveal_with_fuel(lookup_from, 4);
    reveal_with_fuel(crate::json::json_path, 3);
}

/// Once `initialize` has been answered, `tools/list` lists exactly the three tools.
pub proof fn tools_are_listed_after_initialization(first: Json, second: Json)
    requires
        request_method(first) == Some("initialize"@),
        request_method(second) == Some("tools/list"@),
    ensures
        answer_spec(false, first) == Answer::Reply(Some(rpc_result_model(request_id(first), initialize_result_spec()))),
        next_initialized(false, first),
        answer_spec(next_initialized(false, first), second) == Answer::Reply(
            Some(rpc_result_model(request_id(second), tools_list_spec())),
        ),
{
    reveal_strlit("tools/list");
    reveal_strlit("notifications/initialized");
    assert("tools/list"@.len() != "notifications/initialized"@.len());
}

/// Before `initialize`, every other message is refused with the code for an
/// uninitialized server, and no tool runs.
pub proof fn uninitialized_sessions_refuse_other_methods(message: Json)
    ensures
        request_method(message) != Some("initialize"@) ==> answer_spec(false, message) == Answer::Reply(
            Some(rpc_error_model(request_id(message), -32002, "server is not initialized"@)),
        ),
        !(answer_spec(false, message) is Run),
{
}

/// Every error reply to request `id` carries `id`.
proof fn lemma_error_replies_carry_id(id: Json)
    ensures
        forall|code: int, m: Seq<char>| json_get(#[trigger] rpc_error_model(id, code, m), "id"@) == Some(id),
{
    assert forall|code: int, m: Seq<char>| json_get(#[trigger] rpc_error_model(id, code, m), "id"@) == Some(id) by {
        responses_carry_their_id(id, Json::Null, code, m);
    }
}

/// Every reply answers the id of the message that it replies to, and so does
/// every tool call that a message starts.
pub proof fn replies_answer_the_request(initialized: bool, message: Json)
    ensures
        answer_spec(initialized, message) matches Answer::Reply(Some(r)) ==> json_get(r, "id"@) == Some(request_id(message)),
        answer_spec(initialized, message) matches Answer::Run(id, _) ==> id == request_id(message),
{
    let id = request_id(message);
    responses_carry_their_id(id, initialize_result_spec(), 0, Seq::empty());
    responses_carry_their_id(id, tools_list_spec(), 0, Seq::empty());
    lemma_error_replies_carry_id(id);
}

/// A tool is found by its name, and only the three tools' names name a tool.
pub proof fn tools_are_found_by_name(tool: ToolName, name: Seq<char>)
    ensures
        tool_named(tool.name_spec()) == Some(tool),
        tool_named(name) is None <==> forall|t: ToolName| #[trigger] t.name_spec() != name,
        tool_named(name) matches Some(t) ==> t.name_spec() == name,
{
    crate::tools::tool_names_are_distinct(tool, ToolName::Diff);
    crate::tools::tool_names_are_distinct(tool, ToolName::Verify);
    crate::tools::tool_names_are_distinct(tool, ToolName::Apply);
    if tool_named(name) is None {
        assert forall|t: ToolName| #[trigger] t.name_spec() != name by {
            match t {
                ToolName::Diff => {},
                ToolName::Verify => {},
                ToolName::Apply => {},
            }
        }
    }
}

/// Only the `notifications/initialized` notification of an initialized
/// session goes unanswered.
pub proof fn only_notifications_go_unanswered(initialized: bool, message: Json)
    ensures
        answer_spec(initialized, message) == Answer::Reply(None) <==> initialized && request_method(message) == Some(
            "notifications/initialized"@,
        ),
{
}

} // verus!
