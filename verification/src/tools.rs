//! The three guarded `dpm` tools and how a call becomes a command line.
use vstd::prelude::*;
use vstd::string::*;
use crate::json::{
    array2, array3, array4, lookup_from, lookup_member, members_model, object1, object3, object4,
    object5, Json, JsonValue, Member,
};
use crate::text::str_eq;

verus! {

/// The tools that the adapter offers.
#[derive(Clone, Copy, Debug, PartialEq, Eq, Structural)]
pub enum ToolName {
    Diff,
    Verify,
    Apply,
}

impl ToolName {
    /// Every tool, in the order in which the tool list presents them.
    pub const ALL: [ToolName; 3] = [ToolName::Diff, ToolName::Verify, ToolName::Apply];

    /// The name under which a client calls the tool.
    pub open spec fn name_spec(self) -> Seq<char> {
        match self {
            ToolName::Diff => "dpm_diff"@,
            ToolName::Verify => "dpm_verify"@,
            ToolName::Apply => "dpm_apply"@,
        }
    }

    /// The `dpm` subcommand that the tool runs.
    pub open spec fn command_spec(self) -> Seq<char> {
        match self {
            ToolName::Diff => "diff"@,
            ToolName::Verify => "verify"@,
            ToolName::Apply => "apply"@,
        }
    }

    /// The name under which a client calls the tool.
    pub fn as_str(self) -> (s: &'static str)
        ensures
            s@ == self.name_spec(),
    {
        match self {
            ToolName::Diff => "dpm_diff",
            ToolName::Verify => "dpm_verify",
            ToolName::Apply => "dpm_apply",
        }
    }

    /// The `dpm` subcommand that the tool runs.
    pub fn command(self) -> (s: &'static str)
        ensures
            s@ == self.command_spec(),
    {
        match self {
            ToolName::Diff => "diff",
            ToolName::Verify => "verify",
            ToolName::Apply => "apply",
        }
    }

    /// The tool called `value`; any other name is an unknown tool.
    pub fn parse(value: &str) -> (r: Result<ToolName, InputError>)
        ensures
            match r {
                Ok(tool) => tool.name_spec() == value@,
                Err(e) => e@ == "unknown tool"@ && forall|t: ToolName| t.name_spec() != value@,
            },
    {
        if crate::text::str_eq(value, "dpm_diff") {
            Ok(ToolName::Diff)
        } else if crate::text::str_eq(value, "dpm_verify") {
            Ok(ToolName::Verify)
        } else if crate::text::str_eq(value, "dpm_apply") {
            Ok(ToolName::Apply)
        } else {
            proof {
                assert forall|t: ToolName| t.name_spec() != value@ by {
                    match t {
                        ToolName::Diff => {},
                        ToolName::Verify => {},
                        ToolName::Apply => {},
                    }
                }
            }
            Err(InputError::new(String::from_str("unknown tool")))
        }
    }
}

/// Two tools share a name exactly when they are the same tool.
pub proof fn tool_names_are_distinct(a: ToolName, b: ToolName)
    ensures
        a.name_spec() == b.name_spec() <==> a == b,
{
    reveal_strlit("dpm_diff");
    reveal_strlit("dpm_verify");
    reveal_strlit("dpm_apply");
    if a != b {
        match (a, b) {
            (ToolName::Diff, _) => assert(a.name_spec()[4] != b.name_spec()[4]),
            (ToolName::Verify, _) => assert(a.name_spec()[4] != b.name_spec()[4]),
            (ToolName::Apply, _) => assert(a.name_spec()[4] != b.name_spec()[4]),
        }
    }
}

/// A request that the adapter refuses, with the reason.
#[derive(Clone, Debug, PartialEq, Eq)]
pub struct InputError {
    message: String,
}

impl View for InputError {
    type V = Seq<char>;

    closed spec fn view(&self) -> Seq<char> {
        self.message@
    }
}

impl InputError {
    /// The error with the given reason.
    pub fn new(message: String) -> (e: InputError)
        ensures
            e@ == message@,
    {
        InputError { message }
    }

    /// The reason.
    pub fn message(&self) -> (m: &str)
        ensures
            m@ == self@,
    {
        self.message.as_str()
    }
}

/// What a call's arguments hold under `name`: nothing, a string, or something
/// else, which is refused.
pub open spec fn optional_string_spec(args: Seq<(Seq<char>, Json)>, name: Seq<char>) -> Result<Option<Seq<char>>, Seq<char>> {
    match lookup_from(args, name, 0) {
        None => Ok(None),
        Some(Json::Str(s)) => Ok(Some(s)),
        Some(_) => Err(name + " must be a string"@),
    }
}

/// The string that a call's arguments must hold under `name`.
pub open spec fn required_string_spec(args: Seq<(Seq<char>, Json)>, name: Seq<char>) -> Result<Seq<char>, Seq<char>> {
    match optional_string_spec(args, name) {
        Ok(Some(s)) => Ok(s),
        Ok(None) => Err(name + " is a required string"@),
        Err(e) => Err(e),
    }
}

/// Whether the caller asked for destructive operations: the argument is the boolean `true`.
pub open spec fn allows_destructive(args: Seq<(Seq<char>, Json)>) -> bool {
    lookup_from(args, "allow_destructive"@, 0) == Some(Json::Bool(true))
}

/// The arguments that every tool passes: subcommand, source, target and, when given, shadow.
pub open spec fn common_argv(tool: ToolName, source: Seq<char>, target: Seq<char>, shadow: Option<Seq<char>>) -> Seq<Seq<char>> {
    seq![tool.command_spec(), "--source"@, source, "--target"@, target] + match shadow {
        Some(s) => seq!["--shadow"@, s],
        None => Seq::empty(),
    }
}

/// The argument vector that a call of `tool` with `args` runs `dpm` with, or
/// the reason it is refused.
pub open spec fn command_plan(tool: ToolName, args: Seq<(Seq<char>, Json)>) -> Result<Seq<Seq<char>>, Seq<char>> {
    match required_string_spec(args, "source"@) {
        Err(e) => Err(e),
        Ok(source) => match required_string_spec(args, "target"@) {
            Err(e) => Err(e),
            Ok(target) => match optional_string_spec(args, "shadow"@) {
                Err(e) => Err(e),
                Ok(shadow) => {
                    let base = common_argv(tool, source, target, shadow);
                    match tool {
                        ToolName::Diff => match optional_string_spec(args, "format"@) {
                            Err(e) => Err(e),
                            Ok(given) => {
                                let format = match given {
                                    Some(f) => f,
                                    None => "sql"@,
                                };
                                if format == "sql"@ || format == "json"@ {
                                    Ok(base + seq!["--format"@, format])
                                } else {
                                    Err("format must be sql or json"@)
                                }
                            },
                        },
                        ToolName::Verify => if shadow is None {
                            Err("shadow is a required string"@)
                        } else {
                            Ok(base)
                        },
                        ToolName::Apply => if shadow is None {
                            Err("shadow is a required string"@)
                        } else {
                            match required_string_spec(args, "confirm_target"@) {
                                Err(e) => Err(e),
                                Ok(confirmation) => if confirmation != target {
                                    Err("confirm_target must exactly equal target"@)
                                } else if allows_destructive(args) {
                                    Ok(base + seq!["--yes"@, "--allow-destructive"@])
                                } else {
                                    Ok(base + seq!["--yes"@])
                                },
                            }
                        },
                    }
                },
            },
        },
    }
}

/// A program and the arguments that it is started with, handed over as
/// they are, with no shell in between.
#[derive(Debug, PartialEq, Eq)]
pub struct CommandSpec {
    program: Vec<u8>,
    args: Vec<String>,
}

impl CommandSpec {
    /// The bytes of the program's path.
    pub closed spec fn program_spec(&self) -> Seq<u8> {
        self.program@
    }

    /// The arguments.
    pub closed spec fn args_spec(&self) -> Seq<Seq<char>> {
        self.args@.map_values(|a: String| a@)
    }

    /// The bytes of the program's path.
    pub fn program(&self) -> (p: &[u8])
        ensures
            p@ == self.program_spec(),
    {
        self.program.as_slice()
    }

    /// The arguments.
    pub fn args(&self) -> (a: &[String])
        ensures
            a@.map_values(|s: String| s@) == self.args_spec(),
    {
        self.args.as_slice()
    }
}

/// A duration of whole seconds.
pub uninterp spec fn duration_of_secs(secs: u64) -> std::time::Duration;

/// Trusted: wraps `std::time::Duration::from_secs`, a pure constructor, so
/// the same count of seconds always gives the same duration.
#[verifier::external_body]
fn duration_from_secs(secs: u64) -> (d: std::time::Duration)
    ensures
        d == duration_of_secs(secs),
{
    std::time::Duration::from_secs(secs)
}

/// How long a `dpm` command may run, unless configured otherwise, in seconds.
pub const DEFAULT_TIMEOUT_SECS: u64 = 300;

/// Runs the guarded `dpm` tools as plain processes.
#[derive(Debug)]
pub struct DpmAdapter {
    binary: Vec<u8>,
    timeout: std::time::Duration,
}

impl Clone for DpmAdapter {
    /// The same adapter.
    fn clone(&self) -> (a: DpmAdapter)
        ensures
            a.binary_spec() == self.binary_spec(),
            a.timeout_spec() == self.timeout_spec(),
    {
        DpmAdapter { binary: vstd::slice::slice_to_vec(self.binary.as_slice()), timeout: self.timeout }
    }
}

impl DpmAdapter {
    /// The bytes of the path of the `dpm` binary.
    pub closed spec fn binary_spec(&self) -> Seq<u8> {
        self.binary@
    }

    /// How long a command may run before it is stopped.
    pub closed spec fn timeout_spec(&self) -> std::time::Duration {
        self.timeout
    }

    /// An adapter for the `dpm` binary at `binary`, with the default timeout.
    pub fn new(binary: &str) -> (a: DpmAdapter)
        ensures
            a.binary_spec() == binary.spec_bytes(),
            a.timeout_spec() == duration_of_secs(DEFAULT_TIMEOUT_SECS),
    {
        DpmAdapter { binary: binary.as_bytes_vec(), timeout: duration_from_secs(DEFAULT_TIMEOUT_SECS) }
    }

    /// The adapter for the binary whose path has the bytes that the `DPM_BIN`
    /// setting holds, when it is set, or else for `dpm` on the search path.
    pub fn from_env(dpm_bin: Option<&[u8]>) -> (a: DpmAdapter)
        ensures
            a.binary_spec() == match dpm_bin {
                Some(b) => b@,
                None => "dpm".spec_bytes(),
            },
            a.timeout_spec() == duration_of_secs(DEFAULT_TIMEOUT_SECS),
    {
        match dpm_bin {
            Some(b) => DpmAdapter { binary: vstd::slice::slice_to_vec(b), timeout: duration_from_secs(DEFAULT_TIMEOUT_SECS) },
            None => DpmAdapter::new("dpm"),
        }
    }

    /// The same adapter with another timeout.
    pub fn with_timeout(self, timeout: std::time::Duration) -> (a: DpmAdapter)
        ensures
            a.binary_spec() == self.binary_spec(),
            a.timeout_spec() == timeout,
    {
        DpmAdapter { binary: self.binary, timeout }
    }

    /// The bytes of the path of the `dpm` binary.
    pub fn binary(&self) -> (b: &[u8])
        ensures
            b@ == self.binary_spec(),
    {
        self.binary.as_slice()
    }

    /// How long a command may run before it is stopped.
    pub fn timeout(&self) -> (t: std::time::Duration)
        ensures
            t == self.timeout_spec(),
    {
        self.timeout
    }

    /// The command that a call of `tool` with `arguments` runs, or the reason
    /// the call is refused.
    pub fn command_for(&self, tool: ToolName, arguments: &Vec<Member>) -> (r: Result<CommandSpec, InputError>)
        ensures
            match (r, command_plan(tool, members_model(arguments@))) {
                (Ok(c), Ok(argv)) => c.program_spec() == self.binary_spec() && c.args_spec() == argv,
                (Err(e), Err(reason)) => e@ == reason,
                _ => false,
            },
    {
        let ghost a = members_model(arguments@);
        let source = match required_string(arguments, "source") {
            Ok(s) => s,
            Err(e) => return Err(e),
        };
        let target = match required_string(arguments, "target") {
            Ok(s) => s,
            Err(e) => return Err(e),
        };
        let shadow = match optional_string(arguments, "shadow") {
            Ok(s) => s,
            Err(e) => return Err(e),
        };
        let mut args: Vec<String> = Vec::new();
        args.push(String::from_str(tool.command()));
        args.push(String::from_str("--source"));
        args.push(String::from_str(source));
        args.push(String::from_str("--target"));
        args.push(String::from_str(target));
        match shadow {
            Some(s) => {
                args.push(String::from_str("--shadow"));
                args.push(String::from_str(s));
            },
            None => {},
        }
        let ghost base = common_argv(tool, source@, target@, match shadow { Some(s) => Some(s@), None => None });
        assert(args@.map_values(|x: String| x@) =~= base);
        match tool {
            ToolName::Diff => {
                let given = match optional_string(arguments, "format") {
                    Ok(f) => f,
                    Err(e) => return Err(e),
                };
                let format = match given {
                    Some(f) => f,
                    None => "sql",
                };
                if !(str_eq(format, "sql") || str_eq(format, "json")) {
                    return Err(InputError::new(String::from_str("format must be sql or json")));
                }
                args.push(String::from_str("--format"));
                args.push(String::from_str(format));
                assert(args@.map_values(|x: String| x@) =~= base + seq!["--format"@, format@]);
            },
            ToolName::Verify => {
                if shadow.is_none() {
                    return Err(InputError::new(String::from_str("shadow is a required string")));
                }
            },
            ToolName::Apply => {
                if shadow.is_none() {
                    return Err(InputError::new(String::from_str("shadow is a required string")));
                }
                let confirmation = match required_string(arguments, "confirm_target") {
                    Ok(s) => s,
                    Err(e) => return Err(e),
                };
                if !str_eq(confirmation, target) {
                    return Err(InputError::new(String::from_str("confirm_target must exactly equal target")));
                }
                args.push(String::from_str("--yes"));
                let destructive = match lookup_member(arguments, "allow_destructive") {
                    Some(JsonValue::Bool(b)) => *b,
                    _ => false,
                };
                if destructive {
                    args.push(String::from_str("--allow-destructive"));
                    assert(args@.map_values(|x: String| x@) =~= base + seq!["--yes"@, "--allow-destructive"@]);
                } else {
                    assert(args@.map_values(|x: String| x@) =~= base + seq!["--yes"@]);
                }
            },
        }
        Ok(CommandSpec { program: vstd::slice::slice_to_vec(self.binary.as_slice()), args })
    }
}

impl DpmAdapter {
    /// The command that a call of the tool named `name` runs, or why the call
    /// is refused: an unknown tool, or arguments that `command_for` refuses.
    pub fn call_tool(&self, name: &str, arguments: &Vec<Member>) -> (r: Result<CommandSpec, crate::execution::CallError>)
        ensures
            match r {
                Ok(c) => exists|t: ToolName| {
                    &&& #[trigger] t.name_spec() == name@
                    &&& command_plan(t, members_model(arguments@)) == Ok::<Seq<Seq<char>>, Seq<char>>(c.args_spec())
                    &&& c.program_spec() == self.binary_spec()
                },
                Err(crate::execution::CallError::Invalid(e)) => {
                    ||| (forall|t: ToolName| #[trigger] t.name_spec() != name@) && e@ == "unknown tool"@
                    ||| exists|t: ToolName| #[trigger] t.name_spec() == name@ && command_plan(t, members_model(arguments@)) == Err::<Seq<Seq<char>>, Seq<char>>(e@)
                },
                Err(_) => false,
            },
    {
        let tool = match ToolName::parse(name) {
            Ok(t) => t,
            Err(e) => return Err(crate::execution::CallError::Invalid(e)),
        };
        match self.command_for(tool, arguments) {
            Ok(c) => Ok(c),
            Err(e) => Err(crate::execution::CallError::Invalid(e)),
        }
    }
}

/// The string that `arguments` hold under `name`, if any; anything else there is refused.
pub fn optional_string<'a>(arguments: &'a Vec<Member>, name: &str) -> (r: Result<Option<&'a str>, InputError>)
    ensures
        match (r, optional_string_spec(members_model(arguments@), name@)) {
            (Ok(Some(s)), Ok(Some(t))) => s@ == t,
            (Ok(None), Ok(None)) => true,
            (Err(e), Err(reason)) => e@ == reason,
            _ => false,
        },
{
    match lookup_member(arguments, name) {
        None => Ok(None),
        Some(value) => match value.as_str() {
            Some(s) => Ok(Some(s)),
            None => Err(InputError::new(String::from_str(name).concat(" must be a string"))),
        },
    }
}

/// The string that `arguments` must hold under `name`.
pub fn required_string<'a>(arguments: &'a Vec<Member>, name: &str) -> (r: Result<&'a str, InputError>)
    ensures
        match (r, required_string_spec(members_model(arguments@), name@)) {
            (Ok(s), Ok(t)) => s@ == t,
            (Err(e), Err(reason)) => e@ == reason,
            _ => false,
        },
{
    match optional_string(arguments, name) {
        Ok(Some(s)) => Ok(s),
        Ok(None) => Err(InputError::new(String::from_str(name).concat(" is a required string"))),
        Err(e) => Err(e),
    }
}

/// A value found by `lookup_from` is the value of one of the members.
proof fn lemma_lookup_found(args: Seq<(Seq<char>, Json)>, name: Seq<char>, i: int)
    ensures
        lookup_from(args, name, i) matches Some(v) ==> exists|k: int| 0 <= k < args.len() && #[trigger] args[k] == (name, v),
    decreases args.len() - i,
{
    if 0 <= i < args.len() && args[i].0 != name {
        lemma_lookup_found(args, name, i + 1);
    }
    if 0 <= i < args.len() && args[i].0 == name {
        assert(args[i] == (name, args[i].1));
    }
}

/// Whether `s` is the text of one of the string arguments that the caller gave.
pub open spec fn is_string_argument(args: Seq<(Seq<char>, Json)>, s: Seq<char>) -> bool {
    exists|k: int| 0 <= k < args.len() && #[trigger] args[k].1 == Json::Str(s)
}

/// The tokens that the adapter itself may put on a command line for `tool`.
pub open spec fn fixed_tokens(tool: ToolName) -> Set<Seq<char>> {
    match tool {
        ToolName::Diff => set!["diff"@, "--source"@, "--target"@, "--shadow"@, "--format"@, "sql"@],
        ToolName::Verify => set!["verify"@, "--source"@, "--target"@, "--shadow"@],
        ToolName::Apply => set!["apply"@, "--source"@, "--target"@, "--shadow"@, "--yes"@, "--allow-destructive"@],
    }
}

/// A string argument, when present, is one of the caller's string arguments.
proof fn lemma_string_is_argument(args: Seq<(Seq<char>, Json)>, name: Seq<char>)
    ensures
        optional_string_spec(args, name) matches Ok(Some(s)) ==> is_string_argument(args, s),
{
    lemma_lookup_found(args, name, 0);
    if let Ok(Some(s)) = optional_string_spec(args, name) {
        let k = choose|k: int| 0 <= k < args.len() && #[trigger] args[k] == (name, Json::Str(s));
        assert(args[k].1 == Json::Str(s));
    }
}

/// `dpm_apply` goes ahead only when `confirm_target` is a string exactly equal
/// to `target`.
pub proof fn apply_requires_exact_confirmation(args: Seq<(Seq<char>, Json)>)
    ensures
        command_plan(ToolName::Apply, args) is Ok ==> {
            &&& required_string_spec(args, "target"@) is Ok
            &&& required_string_spec(args, "confirm_target"@) == required_string_spec(args, "target"@)
        },
{
}

/// The caller's source and target reach `dpm` verbatim, each as one argument
/// right after its flag, behind the tool's own subcommand.
pub proof fn arguments_pass_verbatim(tool: ToolName, args: Seq<(Seq<char>, Json)>)
    ensures
        command_plan(tool, args) matches Ok(argv) ==> {
            &&& argv.len() >= 5
            &&& argv[0] == tool.command_spec()
            &&& argv[1] == "--source"@
            &&& required_string_spec(args, "source"@) == Ok::<Seq<char>, Seq<char>>(argv[2])
            &&& argv[3] == "--target"@
            &&& required_string_spec(args, "target"@) == Ok::<Seq<char>, Seq<char>>(argv[4])
        },
{
}

/// Every argument of a planned command is either one of the tool's own fixed
/// tokens or, verbatim, the text of a string argument that the caller gave;
/// so `--yes` is never added for `dpm_diff` or `dpm_verify`.
pub proof fn arguments_are_fixed_or_given(tool: ToolName, args: Seq<(Seq<char>, Json)>)
    ensures
        command_plan(tool, args) matches Ok(argv) ==> forall|i: int|
            0 <= i < argv.len() ==> fixed_tokens(tool).contains(#[trigger] argv[i]) || is_string_argument(args, argv[i]),
        !fixed_tokens(ToolName::Diff).contains("--yes"@),
        !fixed_tokens(ToolName::Verify).contains("--yes"@),
{
    lemma_string_is_argument(args, "source"@);
    lemma_string_is_argument(args, "target"@);
    lemma_string_is_argument(args, "shadow"@);
    lemma_string_is_argument(args, "format"@);
    reveal_strlit("--yes");
    reveal_strlit("diff");
    reveal_strlit("verify");
    reveal_strlit("--source");
    reveal_strlit("--target");
    reveal_strlit("--shadow");
    reveal_strlit("--format");
    reveal_strlit("sql");
    assert("--yes"@[2] != "--source"@[2]);
    assert("--yes"@.len() != "--target"@.len());
    assert("--yes"@.len() != "--shadow"@.len());
    assert("--yes"@.len() != "--format"@.len());
    assert("--yes"@.len() != "diff"@.len());
    assert("--yes"@.len() != "sql"@.len());
    assert("--yes"@.len() != "verify"@.len());
}

/// The schema of a string property.
pub open spec fn string_schema() -> Json {
    Json::Object(seq![("type"@, Json::Str("string"@))])
}

/// The input schema of an object with the given required and known properties,
/// refusing any other property.
pub open spec fn object_schema(required: Seq<Json>, properties: Seq<(Seq<char>, Json)>) -> Json {
    Json::Object(
        seq![
            ("type"@, Json::Str("object"@)),
            ("required"@, Json::Array(required)),
            ("properties"@, Json::Object(properties)),
            ("additionalProperties"@, Json::Bool(false)),
        ],
    )
}

/// How the tool list describes `tool`.
pub open spec fn descriptor_spec(tool: ToolName) -> Json {
    let (description, schema) = match tool {
        ToolName::Diff => (
            "Generate a read-only declarative migration plan."@,
            object_schema(
                seq![Json::Str("source"@), Json::Str("target"@)],
                seq![
                    ("source"@, string_schema()),
                    ("target"@, string_schema()),
                    ("shadow"@, string_schema()),
                    ("format"@, Json::Object(seq![("enum"@, Json::Array(seq![Json::Str("sql"@), Json::Str("json"@)]))])),
                ],
            ),
        ),
        ToolName::Verify => (
            "Replay a plan on a shadow target and prove convergence."@,
            object_schema(
                seq![Json::Str("source"@), Json::Str("target"@), Json::Str("shadow"@)],
                seq![("source"@, string_schema()), ("target"@, string_schema()), ("shadow"@, string_schema())],
            ),
        ),
        ToolName::Apply => (
            "Apply a declarative plan only with exact target confirmation."@,
            object_schema(
                seq![Json::Str("source"@), Json::Str("target"@), Json::Str("shadow"@), Json::Str("confirm_target"@)],
                seq![
                    ("source"@, string_schema()),
                    ("target"@, string_schema()),
                    ("shadow"@, string_schema()),
                    ("confirm_target"@, string_schema()),
                    ("allow_destructive"@, Json::Object(seq![("type"@, Json::Str("boolean"@))])),
                ],
            ),
        ),
    };
    Json::Object(seq![("name"@, Json::Str(tool.name_spec())), ("description"@, Json::Str(description)), ("inputSchema"@, schema)])
}

/// The descriptors of every tool, in the order of `ToolName::ALL`.
pub open spec fn descriptors_spec() -> Seq<Json> {
    seq![descriptor_spec(ToolName::Diff), descriptor_spec(ToolName::Verify), descriptor_spec(ToolName::Apply)]
}

fn string_schema_value() -> (r: JsonValue)
    ensures
        r@ == string_schema(),
{
    object1("type", JsonValue::string("string"))
}

fn object_schema_value(required: JsonValue, properties: JsonValue) -> (r: JsonValue)
    requires
        required@ is Array,
        properties@ is Object,
    ensures
        r@ == object_schema(required@->Array_0, properties@->Object_0),
{
    object4(
        "type",
        JsonValue::string("object"),
        "required",
        required,
        "properties",
        properties,
        "additionalProperties",
        JsonValue::Bool(false),
    )
}

/// How the tool list describes `tool`.
pub fn descriptor(tool: ToolName) -> (r: JsonValue)
    ensures
        r@ == descriptor_spec(tool),
{
    let (description, schema) = match tool {
        ToolName::Diff => (
            "Generate a read-only declarative migration plan.",
            object_schema_value(
                array2(JsonValue::string("source"), JsonValue::string("target")),
                object4(
                    "source",
                    string_schema_value(),
                    "target",
                    string_schema_value(),
                    "shadow",
                    string_schema_value(),
                    "format",
                    object1("enum", array2(JsonValue::string("sql"), JsonValue::string("json"))),
                ),
            ),
        ),
        ToolName::Verify => (
            "Replay a plan on a shadow target and prove convergence.",
            object_schema_value(
                array3(JsonValue::string("source"), JsonValue::string("target"), JsonValue::string("shadow")),
                object3("source", string_schema_value(), "target", string_schema_value(), "shadow", string_schema_value()),
            ),
        ),
        ToolName::Apply => (
            "Apply a declarative plan only with exact target confirmation.",
            object_schema_value(
                array4(
                    JsonValue::string("source"),
                    JsonValue::string("target"),
                    JsonValue::string("shadow"),
                    JsonValue::string("confirm_target"),
                ),
                object5(
                    "source",
                    string_schema_value(),
                    "target",
                    string_schema_value(),
                    "shadow",
                    string_schema_value(),
                    "confirm_target",
                    string_schema_value(),
                    "allow_destructive",
                    object1("type", JsonValue::string("boolean")),
                ),
            ),
        ),
    };
    object3("name", JsonValue::string(tool.as_str()), "description", JsonValue::string(description), "inputSchema", schema)
}

/// The descriptors of every tool that the adapter offers.
pub fn tool_descriptors() -> (r: Vec<JsonValue>)
    ensures
        r@.len() == 3,
        forall|i: int| 0 <= i < 3 ==> #[trigger] r@[i]@ == descriptors_spec()[i],
{
    vec![descriptor(ToolName::Diff), descriptor(ToolName::Verify), descriptor(ToolName::Apply)]
}

/// A descriptor carries the tool's name, and an input schema that refuses
/// properties it does not name.
proof fn lemma_descriptor_guarded(tool: ToolName)
    ensures
        crate::json::json_get(descriptor_spec(tool), "name"@) == Some(Json::Str(tool.name_spec())),
        crate::json::json_get(descriptor_spec(tool), "inputSchema"@) matches Some(schema)
            && crate::json::json_get(schema, "additionalProperties"@) == Some(Json::Bool(false)),
{
    reveal_strlit("name");
    reveal_strlit("description");
    reveal_strlit("inputSchema");
    reveal_strlit("type");
    reveal_strlit("required");
    reveal_strlit("properties");
    reveal_strlit("additionalProperties");
    assert("description"@[0] != "inputSchema"@[0]);
    assert("name"@.len() != "inputSchema"@.len());
    assert("type"@.len() != "additionalProperties"@.len());
    assert("required"@.len() != "additionalProperties"@.len());
    assert("properties"@.len() != "additionalProperties"@.len());
    reveal_with_fuel(lookup_from, 5);
}

/// The tool list names exactly the three tools, in the order of `ToolName::ALL`,
/// and every tool's input schema refuses properties that it does not name.
pub proof fn tools_are_exact_and_guarded()
    ensures
        descriptors_spec().len() == 3,
        forall|i: int| 0 <= i < 3 ==> {
            let tool = #[trigger] tool_at(i);
            &&& crate::json::json_get(descriptors_spec()[i], "name"@) == Some(Json::Str(tool.name_spec()))
            &&& crate::json::json_get(descriptors_spec()[i], "inputSchema"@) matches Some(schema)
                && crate::json::json_get(schema, "additionalProperties"@) == Some(Json::Bool(false))
        },
{
    lemma_descriptor_guarded(ToolName::Diff);
    lemma_descriptor_guarded(ToolName::Verify);
    lemma_descriptor_guarded(ToolName::Apply);
    assert forall|i: int| 0 <= i < 3 implies descriptors_spec()[i] == descriptor_spec(#[trigger] tool_at(i)) by {}
}

/// The properties that `tool`'s input schema lists as required.
pub open spec fn required_properties(tool: ToolName) -> Seq<Seq<char>> {
    match tool {
        ToolName::Diff => seq!["source"@, "target"@],
        ToolName::Verify => seq!["source"@, "target"@, "shadow"@],
        ToolName::Apply => seq!["source"@, "target"@, "shadow"@, "confirm_target"@],
    }
}

/// The schema lists exactly `required_properties` as required, and a call
/// that lacks one of them, or gives one as anything but a string, is refused.
pub proof fn required_properties_are_enforced(tool: ToolName, args: Seq<(Seq<char>, Json)>, k: int)
    requires
        0 <= k < required_properties(tool).len(),
    ensures
        crate::json::json_get(descriptor_spec(tool), "inputSchema"@) matches Some(schema) && crate::json::json_get(
            schema,
            "required"@,
        ) == Some(Json::Array(required_properties(tool).map_values(|p: Seq<char>| Json::Str(p)))),
        required_string_spec(args, required_properties(tool)[k]) is Err ==> command_plan(tool, args) is Err,
{
    reveal_strlit("name");
    reveal_strlit("description");
    reveal_strlit("inputSchema");
    reveal_strlit("type");
    reveal_strlit("required");
    assert("description"@[0] != "inputSchema"@[0]);
    assert("name"@.len() != "inputSchema"@.len());
    assert("type"@.len() != "required"@.len());
    reveal_with_fuel(lookup_from, 3);
    let names = required_properties(tool);
    assert(names.map_values(|p: Seq<char>| Json::Str(p)) =~= match tool {
        ToolName::Diff => seq![Json::Str("source"@), Json::Str("target"@)],
        ToolName::Verify => seq![Json::Str("source"@), Json::Str("target"@), Json::Str("shadow"@)],
        ToolName::Apply => seq![Json::Str("source"@), Json::Str("target"@), Json::Str("shadow"@), Json::Str("confirm_target"@)],
    });
}

/// A plan for `dpm_diff` ends with `--format` and the format: the one the
/// caller gave, verbatim, or `sql` when none was given. `sql` and `json` are
/// accepted, and every other format is refused.
pub proof fn diff_format_reaches_dpm(args: Seq<(Seq<char>, Json)>)
    ensures
        command_plan(ToolName::Diff, args) matches Ok(argv) ==> {
            &&& argv.len() >= 2
            &&& argv[argv.len() - 2] == "--format"@
            &&& (optional_string_spec(args, "format"@) matches Ok(Some(f)) ==> argv[argv.len() - 1] == f)
            &&& (optional_string_spec(args, "format"@) is Ok && optional_string_spec(args, "format"@)->Ok_0 is None) ==> argv[argv.len() - 1] == "sql"@
        },
        ({
            &&& required_string_spec(args, "source"@) is Ok
            &&& required_string_spec(args, "target"@) is Ok
            &&& optional_string_spec(args, "shadow"@) is Ok
        }) ==> {
            &&& optional_string_spec(args, "format"@) == Ok::<Option<Seq<char>>, Seq<char>>(Some("json"@)) ==> command_plan(ToolName::Diff, args) is Ok
            &&& optional_string_spec(args, "format"@) == Ok::<Option<Seq<char>>, Seq<char>>(Some("sql"@)) ==> command_plan(ToolName::Diff, args) is Ok
            &&& optional_string_spec(args, "format"@) == Ok::<Option<Seq<char>>, Seq<char>>(None) ==> command_plan(ToolName::Diff, args) is Ok
            &&& (optional_string_spec(args, "format"@) matches Ok(Some(f)) && f != "sql"@ && f != "json"@) ==> command_plan(ToolName::Diff, args) == Err::<Seq<Seq<char>>, Seq<char>>("format must be sql or json"@)
        },
{
}

/// The formats that the `dpm_diff` schema lists.
pub open spec fn diff_format_enum() -> Option<Json> {
    crate::json::json_path(descriptor_spec(ToolName::Diff), seq!["inputSchema"@, "properties"@, "format"@, "enum"@])
}

/// The `dpm_diff` schema lists the formats `sql` and `json`, in that order,
/// and a format is listed exactly when a call that is otherwise valid is
/// accepted with it.
pub proof fn diff_schema_lists_the_accepted_formats(args: Seq<(Seq<char>, Json)>, f: Seq<char>)
    ensures
        diff_format_enum() == Some(Json::Array(seq![Json::Str("sql"@), Json::Str("json"@)])),
        ({
            &&& required_string_spec(args, "source"@) is Ok
            &&& required_string_spec(args, "target"@) is Ok
            &&& optional_string_spec(args, "shadow"@) is Ok
            &&& optional_string_spec(args, "format"@) == Ok::<Option<Seq<char>>, Seq<char>>(Some(f))
        }) ==> (seq![Json::Str("sql"@), Json::Str("json"@)].contains(Json::Str(f)) <==> command_plan(ToolName::Diff, args) is Ok),
{
    reveal_strlit("name");
    reveal_strlit("description");
    reveal_strlit("inputSchema");
    reveal_strlit("type");
    reveal_strlit("required");
    reveal_strlit("properties");
    reveal_strlit("source");
    reveal_strlit("target");
    reveal_strlit("shadow");
    reveal_strlit("format");
    reveal_strlit("enum");
    assert("description"@[0] != "inputSchema"@[0]);
    assert("name"@.len() != "inputSchema"@.len());
    assert("type"@.len() != "properties"@.len());
    assert("required"@.len() != "properties"@.len());
    assert("source"@[0] != "format"@[0]);
    assert("target"@[0] != "format"@[0]);
    assert("shadow"@[0] != "format"@[0]);
    reveal_with_fuel(lookup_from, 5);
    reveal_with_fuel(crate::json::json_path, 5);
    let sj = seq![Json::Str("sql"@), Json::Str("json"@)];
    if sj.contains(Json::Str(f)) {
        let k = choose|k: int| 0 <= k < sj.len() && sj[k] == Json::Str(f);
        assert(f == "sql"@ || f == "json"@);
    }
    if f == "sql"@ {
        assert(sj[0] == Json::Str(f));
    }
    if f == "json"@ {
        assert(sj[1] == Json::Str(f));
    }
}

/// The tool at position `i` of `ToolName::ALL`.
pub open spec fn tool_at(i: int) -> ToolName {
    if i == 0 {
        ToolName::Diff
    } else if i == 1 {
        ToolName::Verify
    } else {
        ToolName::Apply
    }
}

} // verus!
