//! The rules of the certification run against a real database and adapter.
use vstd::prelude::*;
use vstd::string::*;
use crate::json::{
    items_model, json_as_str, json_get, json_get_str, lemma_items_model, lookup_from, lookup_member, object2, object4, Json,
    JsonValue,
};
use crate::protocol::PROTOCOL_VERSION;
use crate::repository::EXPECTED_PRODUCT_SHA;
use crate::text::{chars_of, contains_seq, find_from, first_occurrence_from, lemma_first_occurrence, str_contains, str_eq};

verus! {

/// The last position before `n` where `s` holds `c`.
pub open spec fn last_index_before(s: Seq<char>, c: char, n: int) -> Option<int>
    decreases n,
{
    if n <= 0 || n > s.len() {
        None
    } else if s[n - 1] == c {
        Some(n - 1)
    } else {
        last_index_before(s, c, n - 1)
    }
}

/// The URL of `database` on the server of the administration URL `admin`: the
/// last path segment before any query is replaced, and the query is kept.
pub open spec fn database_url_spec(admin: Seq<char>, database: Seq<char>) -> Result<Seq<char>, Seq<char>> {
    let (base, query) = match first_occurrence_from(admin, seq!['?'], 0) {
        Some(i) => (admin.take(i), Some(admin.skip(i + 1))),
        None => (admin, None),
    };
    match last_index_before(base, '/', base.len() as int) {
        None => Err("POSTGRES_ADMIN_URL must include a database path"@),
        Some(j) => Ok(
            match query {
                Some(q) => base.take(j) + "/"@ + database + "?"@ + q,
                None => base.take(j) + "/"@ + database,
            },
        ),
    }
}

/// The URL of `database` on the server of the administration URL `admin`.
pub fn database_url(admin: &str, database: &str) -> (r: Result<String, String>)
    ensures
        match (r, database_url_spec(admin@, database@)) {
            (Ok(url), Ok(expected)) => url@ == expected,
            (Err(message), Err(expected)) => message@ == expected,
            _ => false,
        },
{
    let chars = chars_of(admin);
    let question = vec!['?'];
    proof {
        lemma_first_occurrence(chars@, question@, 0);
        assert(question@ =~= seq!['?']);
    }
    let n = admin.unicode_len();
    let (base, query): (&str, Option<&str>) = match find_from(&chars, &question, 0) {
        Some(i) => {
            assert(chars@.subrange(i as int, i + 1) == seq!['?']);
            (admin.substring_char(0, i), Some(admin.substring_char(i + 1, n)))
        },
        None => (admin, None),
    };
    assert(base@ == match first_occurrence_from(admin@, seq!['?'], 0) {
        Some(i) => admin@.take(i),
        None => admin@,
    });
    let base_chars = chars_of(base);
    let mut j: usize = base_chars.len();
    let ghost b = base@;
    while j > 0 && base_chars[j - 1] != '/'
        invariant
            base_chars@ == b,
            j <= b.len(),
            last_index_before(b, '/', b.len() as int) == last_index_before(b, '/', j as int),
        decreases j,
    {
        j = j - 1;
    }
    if j == 0 {
        let message = "POSTGRES_ADMIN_URL must include a database path";
        return Err(String::from_str(message));
    }
    let prefix = base.substring_char(0, j - 1);
    let url = String::from_str(prefix).concat("/").concat(database);
    match query {
        Some(q) => Ok(url.concat("?").concat(q)),
        None => Ok(url),
    }
}

/// Checks the product commit that the run was given against the pinned one.
pub fn check_product_sha(observed: &str) -> (r: Result<(), String>)
    ensures
        match r {
            Ok(()) => observed@ == EXPECTED_PRODUCT_SHA@,
            Err(message) => observed@ != EXPECTED_PRODUCT_SHA@ && message@ == "product SHA drifted: expected "@
                + EXPECTED_PRODUCT_SHA@ + ", observed "@ + observed@,
        },
{
    if str_eq(observed, EXPECTED_PRODUCT_SHA) {
        Ok(())
    } else {
        Err(String::from_str("product SHA drifted: expected ").concat(EXPECTED_PRODUCT_SHA).concat(", observed ").concat(observed))
    }
}

/// The request `method` with `params`, numbered `identifier`.
pub fn mcp_request(identifier: i64, method: &str, params: JsonValue) -> (r: JsonValue)
    ensures
        r@ == Json::Object(
            seq![
                ("jsonrpc"@, Json::Str("2.0"@)),
                ("id"@, Json::Int(identifier as int)),
                ("method"@, Json::Str(method@)),
                ("params"@, params@),
            ],
        ),
{
    object4(
        "jsonrpc",
        JsonValue::string("2.0"),
        "id",
        JsonValue::Int(identifier),
        "method",
        JsonValue::string(method),
        "params",
        params,
    )
}

/// The notification `method`.
pub fn mcp_notification(method: &str) -> (r: JsonValue)
    ensures
        r@ == Json::Object(seq![("jsonrpc"@, Json::Str("2.0"@)), ("method"@, Json::Str(method@))]),
{
    object2("jsonrpc", JsonValue::string("2.0"), "method", JsonValue::string(method))
}

/// Whether a response answers request `identifier`.
pub fn answers_request(response: &JsonValue, identifier: i64) -> (ok: bool)
    ensures
        ok == (json_get(response@, "id"@) == Some(Json::Int(identifier as int))),
{
    match response.get("id") {
        Some(JsonValue::Int(id)) => *id == identifier,
        _ => false,
    }
}

/// The member `key` of the member `outer` of a document.
pub open spec fn json_get2(j: Json, outer: Seq<char>, key: Seq<char>) -> Option<Json> {
    match json_get(j, outer) {
        Some(inner) => json_get(inner, key),
        None => None,
    }
}

fn get2<'a>(value: &'a JsonValue, outer: &str, key: &str) -> (r: Option<&'a JsonValue>)
    ensures
        match r {
            Some(v) => json_get2(value@, outer@, key@) == Some(v@),
            None => json_get2(value@, outer@, key@) is None,
        },
{
    match value.get(outer) {
        Some(inner) => inner.get(key),
        None => None,
    }
}

/// Whether `dpm help` documents the flag for destructive operations.
pub fn help_lists_destructive_flag(help: &str) -> (ok: bool)
    ensures
        ok == contains_seq(help@, "--allow-destructive-ops"@),
{
    str_contains(help, "--allow-destructive-ops")
}

/// Whether `dpm diff --fail-on-diff` exited with the code that reports a difference.
pub fn drift_reported(code: Option<i32>) -> (ok: bool)
    ensures
        ok == (code == Some(2i32)),
{
    match code {
        Some(c) => c == 2,
        None => false,
    }
}

/// Whether an `initialize` response reports the protocol version that the adapter speaks.
pub fn initialize_reports_protocol(response: &JsonValue) -> (ok: bool)
    ensures
        ok == (json_as_str(json_get2(response@, "result"@, "protocolVersion"@)) == Some(PROTOCOL_VERSION@)),
{
    match get2(response, "result", "protocolVersion") {
        Some(v) => match v.as_str() {
            Some(s) => str_eq(s, PROTOCOL_VERSION),
            None => false,
        },
        None => false,
    }
}

/// The names of the listed tools that have a string name, in order.
pub open spec fn tool_names(tools: Seq<Json>) -> Seq<Seq<char>>
    decreases tools.len(),
{
    if tools.len() == 0 {
        Seq::empty()
    } else {
        let rest = tool_names(tools.drop_last());
        match json_get_str(tools.last(), "name"@) {
            Some(name) => rest.push(name),
            None => rest,
        }
    }
}

/// The names that a `tools/list` response lists, or nothing when its result holds no tool array.
pub fn listed_tool_names(response: &JsonValue) -> (names: Option<Vec<String>>)
    ensures
        match json_get2(response@, "result"@, "tools"@) {
            Some(Json::Array(tools)) => names matches Some(v) && v@.map_values(|n: String| n@) == tool_names(tools),
            _ => names is None,
        },
{
    let tools = match get2(response, "result", "tools") {
        Some(JsonValue::Array(items)) => items,
        _ => return None,
    };
    proof { lemma_items_model(tools@); }
    let ghost models = items_model(tools@);
    let mut names: Vec<String> = Vec::new();
    let mut i: usize = 0;
    while i < tools.len()
        invariant
            0 <= i <= tools@.len(),
            models == items_model(tools@),
            models.len() == tools@.len(),
            forall|j: int| 0 <= j < tools@.len() ==> #[trigger] models[j] == tools@[j]@,
            names@.map_values(|n: String| n@) == tool_names(models.take(i as int)),
        decreases tools@.len() - i,
    {
        proof { assert(models.take(i + 1).drop_last() =~= models.take(i as int)); }
        match tools[i].get("name") {
            Some(v) => match v.as_str() {
                Some(name) => {
                    names.push(String::from_str(name));
                },
                None => {},
            },
            None => {},
        }
        i = i + 1;
        assert(names@.map_values(|n: String| n@) =~= tool_names(models.take(i as int)));
    }
    assert(models.take(tools@.len() as int) =~= models);
    Some(names)
}

/// Whether listed names are exactly the three tools, in order.
pub fn names_are_the_tools(names: &Vec<String>) -> (ok: bool)
    ensures
        ok == (names@.map_values(|n: String| n@) == seq!["dpm_diff"@, "dpm_verify"@, "dpm_apply"@]),
{
    let ghost views = names@.map_values(|n: String| n@);
    if names.len() != 3 {
        assert(views.len() != 3);
        return false;
    }
    let ok = str_eq(names[0].as_str(), "dpm_diff") && str_eq(names[1].as_str(), "dpm_verify") && str_eq(
        names[2].as_str(),
        "dpm_apply",
    );
    if ok {
        assert(views =~= seq!["dpm_diff"@, "dpm_verify"@, "dpm_apply"@]);
    } else {
        assert(views[0] == names@[0]@ && views[1] == names@[1]@ && views[2] == names@[2]@);
    }
    ok
}

/// Whether a `dpm_diff` tool call ran, and `dpm` exited with code zero.
pub fn real_diff_succeeded(response: &JsonValue) -> (ok: bool)
    ensures
        ok == (json_get2(response@, "result"@, "isError"@) == Some(Json::Bool(false)) && json_get2(
            response@,
            "result"@,
            "exit_code"@,
        ) == Some(Json::Int(0))),
{
    let not_error = match get2(response, "result", "isError") {
        Some(JsonValue::Bool(b)) => !*b,
        _ => false,
    };
    let exit_zero = match get2(response, "result", "exit_code") {
        Some(JsonValue::Int(c)) => *c == 0,
        _ => false,
    };
    not_error && exit_zero
}

/// The text at `result`, `content`, `0`, `text` of a response, where `0` is
/// the first element of an array or the member named `0` of an object.
pub open spec fn result_text_spec(response: Json) -> Option<Seq<char>> {
    match json_get2(response, "result"@, "content"@) {
        Some(Json::Array(blocks)) => if blocks.len() > 0 {
            json_get_str(blocks[0], "text"@)
        } else {
            None
        },
        Some(Json::Object(members)) => match lookup_from(members, "0"@, 0) {
            Some(block) => json_get_str(block, "text"@),
            None => None,
        },
        _ => None,
    }
}

/// The text at `result`, `content`, `0`, `text` of a response.
pub fn result_text(response: &JsonValue) -> (text: Option<&str>)
    ensures
        match text {
            Some(t) => result_text_spec(response@) == Some(t@),
            None => result_text_spec(response@) is None,
        },
{
    match get2(response, "result", "content") {
        Some(JsonValue::Array(blocks)) => {
            proof { lemma_items_model(blocks@); }
            if blocks.len() > 0 {
                match blocks[0].get("text") {
                    Some(v) => v.as_str(),
                    None => None,
                }
            } else {
                None
            }
        },
        Some(JsonValue::Object(members)) => match lookup_member(members, "0") {
            Some(block) => match block.get("text") {
                Some(v) => v.as_str(),
                None => None,
            },
            None => None,
        },
        _ => None,
    }
}

/// Whether a response refuses a request with invalid parameters, saying that
/// two values must be exactly equal.
pub fn confirmation_was_refused(response: &JsonValue) -> (ok: bool)
    ensures
        ok == (json_get2(response@, "error"@, "code"@) == Some(Json::Int(-32602)) && (json_as_str(
            json_get2(response@, "error"@, "message"@),
        ) matches Some(m) && contains_seq(m, "exactly equal"@))),
{
    let code_ok = match get2(response, "error", "code") {
        Some(JsonValue::Int(c)) => *c == -32602,
        _ => false,
    };
    let message_ok = match get2(response, "error", "message") {
        Some(v) => match v.as_str() {
            Some(m) => str_contains(m, "exactly equal"),
            None => false,
        },
        None => false,
    };
    code_ok && message_ok
}

} // verus!
