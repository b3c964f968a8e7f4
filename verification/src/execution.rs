//! What a finished `dpm` run is reported as, and how long the adapter waits for one.
use vstd::prelude::*;
use vstd::string::*;
use vstd::utf8::*;
use crate::tools::InputError;
use crate::json::{array_of, object2, object4, Json, JsonValue};

verus! {

/// How many characters of a command's standard error a result keeps.
pub const STDERR_TAIL_CHARS: usize = 8192;

/// The last `maximum` characters of `text`, or all of them when it is shorter.
pub open spec fn tail_spec(text: Seq<char>, maximum: nat) -> Seq<char> {
    if text.len() <= maximum {
        text
    } else {
        text.subrange(text.len() - maximum, text.len() as int)
    }
}

/// A tail is never longer than asked, and it is the end of the text: all of
/// it when the text is short enough.
pub proof fn tail_is_bounded_suffix(text: Seq<char>, maximum: nat)
    ensures
        tail_spec(text, maximum).len() == if text.len() <= maximum { text.len() } else { maximum },
        tail_spec(text, maximum) == text.subrange(text.len() - tail_spec(text, maximum).len(), text.len() as int),
{
    assert(text.subrange(0, text.len() as int) =~= text);
}

/// The last `maximum` characters of `text`.
pub fn tail_text(text: &str, maximum: usize) -> (tail: String)
    ensures
        tail@ == tail_spec(text@, maximum as nat),
{
    let n = text.unicode_len();
    if n <= maximum {
        String::from_str(text)
    } else {
        String::from_str(text.substring_char(n - maximum, n))
    }
}

/// The text that lossy UTF-8 decoding makes of `bytes`.
pub uninterp spec fn utf8_lossy(bytes: Seq<u8>) -> Seq<char>;

/// Trusted: wraps `String::from_utf8_lossy`, whose result depends on the
/// bytes alone and, as std documents, is the decoded text when the bytes are
/// valid UTF-8. How invalid sequences are replaced is left unsaid.
#[verifier::external_body]
fn lossy_text(bytes: &[u8]) -> (text: String)
    ensures
        text@ == utf8_lossy(bytes@),
        valid_utf8(bytes@) ==> text@ == decode_utf8(bytes@),
{
    String::from_utf8_lossy(bytes).into_owned()
}

/// One block of text in a tool result.
#[derive(Clone, Debug, PartialEq, Eq)]
pub struct TextContent {
    kind: &'static str,
    text: String,
}

impl TextContent {
    /// A block of plain text.
    pub fn plain(text: String) -> (c: TextContent)
        ensures
            c.kind_spec() == "text"@,
            c.text_spec() == text@,
    {
        TextContent { kind: "text", text }
    }

    /// The block's kind.
    pub closed spec fn kind_spec(&self) -> Seq<char> {
        self.kind@
    }

    /// The block's text.
    pub closed spec fn text_spec(&self) -> Seq<char> {
        self.text@
    }

    /// The block's kind.
    pub fn kind(&self) -> (k: &'static str)
        ensures
            k@ == self.kind_spec(),
    {
        self.kind
    }

    /// The block's text.
    pub fn text(&self) -> (t: &str)
        ensures
            t@ == self.text_spec(),
    {
        self.text.as_str()
    }
}

/// What a tool call reports of a command that ran to its end.
#[derive(Clone, Debug, PartialEq, Eq)]
pub struct ToolResult {
    pub content: Vec<TextContent>,
    pub is_error: bool,
    pub exit_code: i32,
    pub stderr: String,
}

impl ToolResult {
    /// The text of the first block, or nothing.
    pub open spec fn text_spec(&self) -> Seq<char> {
        if self.content@.len() > 0 {
            self.content@[0].text_spec()
        } else {
            Seq::empty()
        }
    }

    /// The text of the first block, or the empty string.
    pub fn text(&self) -> (t: &str)
        ensures
            t@ == self.text_spec(),
    {
        if self.content.len() > 0 {
            self.content[0].text()
        } else {
            let empty = "";
            proof { reveal_strlit(""); }
            empty
        }
    }
}

/// The JSON form of a text block: its `type` and its `text`.
pub open spec fn text_content_model(c: TextContent) -> Json {
    Json::Object(seq![("type"@, Json::Str(c.kind_spec())), ("text"@, Json::Str(c.text_spec()))])
}

/// The JSON form of a tool result, as MCP clients read it.
pub open spec fn tool_result_model(r: ToolResult) -> Json {
    Json::Object(
        seq![
            ("content"@, Json::Array(r.content@.map_values(|c: TextContent| text_content_model(c)))),
            ("isError"@, Json::Bool(r.is_error)),
            ("exit_code"@, Json::Int(r.exit_code as int)),
            ("stderr"@, Json::Str(r.stderr@)),
        ],
    )
}

impl TextContent {
    /// The JSON form of the block.
    pub fn render(&self) -> (j: JsonValue)
        ensures
            j@ == text_content_model(*self),
    {
        object2("type", JsonValue::string(self.kind), "text", JsonValue::string(self.text.as_str()))
    }
}

impl ToolResult {
    /// The JSON form of the result.
    pub fn render(&self) -> (j: JsonValue)
        ensures
            j@ == tool_result_model(*self),
    {
        let mut blocks: Vec<JsonValue> = Vec::new();
        let mut i: usize = 0;
        while i < self.content.len()
            invariant
                0 <= i <= self.content@.len(),
                blocks@.len() == i,
                forall|j: int| 0 <= j < i ==> (#[trigger] blocks@[j])@ == text_content_model(self.content@[j]),
            decreases self.content@.len() - i,
        {
            blocks.push(self.content[i].render());
            i = i + 1;
        }
        assert(blocks@.map_values(|v: JsonValue| v@) =~= self.content@.map_values(|c: TextContent| text_content_model(c)));
        let content = array_of(blocks);
        assert(content@ == Json::Array(self.content@.map_values(|c: TextContent| text_content_model(c))));
        object4(
            "content",
            content,
            "isError",
            JsonValue::Bool(self.is_error),
            "exit_code",
            JsonValue::Int(self.exit_code as i64),
            "stderr",
            JsonValue::string(self.stderr.as_str()),
        )
    }
}

/// Why a tool call did not produce a result.
#[derive(Debug)]
pub enum CallError {
    /// The call was refused before anything ran.
    Invalid(InputError),
    /// The command ran past the adapter's timeout and was stopped.
    Timeout(std::time::Duration),
    /// The command could not be started or followed; the text says where.
    Runtime(String),
}

impl From<InputError> for CallError {
    /// A refused call.
    fn from(error: InputError) -> (e: CallError) {
        CallError::Invalid(error)
    }
}

impl vstd::std_specs::convert::FromSpecImpl<InputError> for CallError {
    open spec fn obeys_from_spec() -> bool {
        true
    }

    open spec fn from_spec(error: InputError) -> CallError {
        CallError::Invalid(error)
    }
}

/// How a process ended.
#[derive(Clone, Copy, Debug, PartialEq, Eq, Structural)]
pub struct ExitReport {
    /// Whether it ended successfully.
    pub success: bool,
    /// Its exit code, when it exited with one rather than by a signal.
    pub code: Option<i32>,
}

impl ExitReport {
    /// Whether the report is one that a process can give: std defines success
    /// as exiting with code zero, and an end by a signal as no success.
    pub open spec fn is_consistent(self) -> bool {
        self.success == (self.code == Some(0i32))
    }

    /// The report of a process that ended with `code`, or by a signal when it is `None`.
    pub fn from_code(code: Option<i32>) -> (r: ExitReport)
        ensures
            r.code == code,
            r.is_consistent(),
    {
        let success = match code {
            Some(c) => c == 0,
            None => false,
        };
        ExitReport { success, code }
    }
}

/// One look at a running process.
#[derive(Clone, Copy, Debug, PartialEq, Eq, Structural)]
pub enum Poll {
    /// It has ended.
    Exited(ExitReport),
    /// It is still running.
    Running,
    /// The look itself failed.
    Failed,
}

/// What to do after a look at the running command.
#[derive(Debug)]
pub enum WaitStep {
    /// It has ended: collect its output.
    Finished(ExitReport),
    /// Its time is up: stop it, wait for it, and report a timeout.
    StopAndReap,
    /// Look again a little later.
    Sleep,
    /// Give up with this error.
    Fail(CallError),
}

/// The step that follows a look at the command, given whether its deadline has passed.
pub fn next_wait_step(poll: Poll, past_deadline: bool) -> (step: WaitStep)
    ensures
        match poll {
            Poll::Exited(report) => step == WaitStep::Finished(report),
            Poll::Running => if past_deadline { step is StopAndReap } else { step is Sleep },
            Poll::Failed => step matches WaitStep::Fail(CallError::Runtime(m)) && m@ == "polling dpm process"@,
        },
{
    match poll {
        Poll::Exited(report) => WaitStep::Finished(report),
        Poll::Running => if past_deadline {
            WaitStep::StopAndReap
        } else {
            WaitStep::Sleep
        },
        Poll::Failed => WaitStep::Fail(CallError::Runtime(String::from_str("polling dpm process"))),
    }
}

/// The result of a command that ended as `exit` after writing `stdout` and `stderr`.
pub fn tool_result(stdout: &[u8], stderr: &[u8], exit: ExitReport) -> (r: ToolResult)
    requires
        exit.is_consistent(),
    ensures
        r.is_error == (r.exit_code != 0),
        r.content@.len() == 1,
        r.content@[0].kind_spec() == "text"@,
        r.content@[0].text_spec() == utf8_lossy(stdout@),
        r.is_error == !exit.success,
        r.exit_code == match exit.code {
            Some(c) => c,
            None => -1i32,
        },
        r.stderr@ == tail_spec(utf8_lossy(stderr@), STDERR_TAIL_CHARS as nat),
{
    let out = lossy_text(stdout);
    let err = lossy_text(stderr);
    let exit_code = match exit.code {
        Some(c) => c,
        None => -1,
    };
    let content = vec![TextContent::plain(out)];
    ToolResult { content, is_error: !exit.success, exit_code, stderr: tail_text(err.as_str(), STDERR_TAIL_CHARS) }
}

/// What a run reports once its output is collected: a timeout when it had to
/// be stopped, else its result.
pub fn finish_run(
    stdout: &[u8],
    stderr: &[u8],
    exit: ExitReport,
    timed_out: bool,
    timeout: std::time::Duration,
) -> (r: Result<ToolResult, CallError>)
    requires
        exit.is_consistent(),
    ensures
        timed_out ==> (r matches Err(CallError::Timeout(t)) && t == timeout),
        !timed_out ==> (r matches Ok(result) && {
            &&& result.content@.len() == 1
            &&& result.content@[0].kind_spec() == "text"@
            &&& result.content@[0].text_spec() == utf8_lossy(stdout@)
            &&& result.is_error == !exit.success
            &&& result.is_error == (result.exit_code != 0)
            &&& result.exit_code == match exit.code {
                Some(c) => c,
                None => -1i32,
            }
            &&& result.stderr@ == tail_spec(utf8_lossy(stderr@), STDERR_TAIL_CHARS as nat)
        }),
{
    if timed_out {
        Err(CallError::Timeout(timeout))
    } else {
        Ok(tool_result(stdout, stderr, exit))
    }
}

} // verus!
