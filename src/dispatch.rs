//! JSON-RPC dispatch: reading an inbound message into a request, and the
//! response envelopes for each outcome.

use vstd::prelude::*;
use vstd::string::*;

use crate::json::{
    elements_of, entry_lookup, has_shape, is_empty_object, json_str, object1, object2, object3,
    take_entry, text_of, JsonNumber, JsonValue,
};
use crate::server::MCPServer;
use crate::tools::{catalog, get_tools, MCPTool, ToolName};

verus! {

/// One item of a tool call's result.
#[derive(Debug)]
pub struct MCPContent {
    pub content_type: String,
    pub text: String,
}

impl MCPContent {
    /// A text item.
    pub fn text(text: String) -> (r: MCPContent)
        ensures
            r.content_type@ == "text"@,
            r.text == text,
    {
        MCPContent { content_type: String::from_str("text"), text }
    }

    /// `{"type": ..., "text": ...}`
    pub fn to_json(self) -> (r: JsonValue)
        ensures
            text_of(r.field("type"@)) == Some(self.content_type@),
            text_of(r.field("text"@)) == Some(self.text@),
    {
        proof {
            reveal_strlit("type");
            reveal_strlit("text");
            assert("type"@[1] != "text"@[1]);
        }
        object2("type", JsonValue::Str(self.content_type), "text", JsonValue::Str(self.text))
    }
}

/// A tool's answer as the content of its call: one text item.
pub fn text_content(text: String) -> (r: Vec<MCPContent>)
    ensures
        r@.len() == 1,
        r@[0].content_type@ == "text"@,
        r@[0].text == text,
{
    vec![MCPContent::text(text)]
}

impl MCPTool {
    /// `{"name": ..., "description": ..., "inputSchema": ...}`
    pub fn to_json(self) -> (r: JsonValue)
        ensures
            text_of(r.field("name"@)) == Some(self.name@),
            text_of(r.field("description"@)) == Some(self.description@),
            r.field("inputSchema"@) == Some(self.input_schema),
            only_members(r, "name"@, "description"@, "inputSchema"@),
    {
        proof {
            reveal_strlit("name");
            reveal_strlit("description");
            reveal_strlit("inputSchema");
            assert("name"@.len() != "description"@.len());
            assert("name"@.len() != "inputSchema"@.len());
            assert("description"@[0] != "inputSchema"@[0]);
        }
        object3(
            "name",
            JsonValue::Str(self.name),
            "description",
            JsonValue::Str(self.description),
            "inputSchema",
            self.input_schema,
        )
    }
}

/// An inbound JSON-RPC message, read.
#[derive(Debug)]
pub enum Request {
    Initialize { id: JsonValue },
    /// The client's notification that it is initialized; it gets no answer.
    Initialized,
    ToolsList { id: JsonValue },
    ToolsCall { id: JsonValue, name: String, arguments: JsonValue },
    Unknown { id: JsonValue, method: String },
}

/// The methods the server answers.
pub open spec fn is_known_method(m: Seq<char>) -> bool {
    m == "initialize"@ || m == "initialized"@ || m == "tools/list"@ || m == "tools/call"@
}

pub open spec fn method_of(msg: JsonValue) -> Option<Seq<char>> {
    text_of(msg.field("method"@))
}

/// The message's `id`, echoed in the answer; null where it has none.
pub open spec fn id_of(msg: JsonValue) -> JsonValue {
    match msg.field("id"@) {
        Some(v) => v,
        None => JsonValue::Null,
    }
}

pub open spec fn params_of(msg: JsonValue) -> Option<JsonValue> {
    msg.field("params"@)
}

pub open spec fn call_name_of(params: JsonValue) -> Option<Seq<char>> {
    text_of(params.field("name"@))
}

/// Reads a message: its `method`, its `id`, and for a tool call the tool's
/// name and arguments (an empty object where none are given). A message
/// without a method, and a tool call without params or a tool name, are
/// refused.
pub fn parse_request(msg: JsonValue) -> (r: Result<Request, String>)
    ensures
        method_of(msg) is None ==> (r matches Err(m) && m@ == "Missing method field"@),
        method_of(msg) == Some("initialize"@) ==> (r matches Ok(Request::Initialize { id }) && id
            == id_of(msg)),
        method_of(msg) == Some("initialized"@) ==> r matches Ok(Request::Initialized),
        method_of(msg) == Some("tools/list"@) ==> (r matches Ok(Request::ToolsList { id }) && id
            == id_of(msg)),
        method_of(msg) == Some("tools/call"@) && params_of(msg) is None ==> (r matches Err(m)
            && m@ == "Missing params"@),
        method_of(msg) == Some("tools/call"@) && params_of(msg) is Some ==> match call_name_of(
            params_of(msg).unwrap(),
        ) {
            None => (r matches Err(m) && m@ == "Missing tool name"@),
            Some(n) => (r matches Ok(Request::ToolsCall { id, name, arguments }) && id == id_of(msg)
                && name@ == n && match params_of(msg).unwrap().field("arguments"@) {
                Some(a) => arguments == a,
                None => is_empty_object(arguments),
            }),
        },
        method_of(msg) is Some && !is_known_method(method_of(msg).unwrap()) ==> (r matches Ok(
            Request::Unknown { id, method },
        ) && id == id_of(msg) && method@ == method_of(msg).unwrap()),
{
    proof {
        reveal_strlit("initialize");
        reveal_strlit("initialized");
        reveal_strlit("tools/list");
        reveal_strlit("tools/call");
        reveal_strlit("id");
        reveal_strlit("params");
        reveal_strlit("method");
        assert("initialize"@.len() != "initialized"@.len());
        assert("initialize"@[0] != "tools/list"@[0]);
        assert("initialize"@[0] != "tools/call"@[0]);
        assert("tools/list"@[6] != "tools/call"@[6]);
        assert("initialized"@.len() != "tools/list"@.len());
        assert("initialized"@.len() != "tools/call"@.len());
        assert("id"@.len() != "params"@.len());
        assert("id"@.len() != "method"@.len());
    }
    let method = match msg.get("method") {
        Some(v) => match v.as_str() {
            Some(s) => String::from_str(s),
            None => return Err(String::from_str("Missing method field")),
        },
        None => return Err(String::from_str("Missing method field")),
    };
    let mut entries = match msg {
        JsonValue::Object(es) => es,
        _ => Vec::new(),
    };
    let ghost original = entries@;
    let id = match take_entry(&mut entries, "id") {
        Some(v) => v,
        None => JsonValue::Null,
    };
    if crate::text::same_text(method.as_str(), "initialize") {
        return Ok(Request::Initialize { id });
    }
    if crate::text::same_text(method.as_str(), "initialized") {
        return Ok(Request::Initialized);
    }
    if crate::text::same_text(method.as_str(), "tools/list") {
        return Ok(Request::ToolsList { id });
    }
    if crate::text::same_text(method.as_str(), "tools/call") {
        assert(entry_lookup(entries@, "params"@) == entry_lookup(original, "params"@));
        let params = match take_entry(&mut entries, "params") {
            Some(p) => p,
            None => return Err(String::from_str("Missing params")),
        };
        let name = match params.get("name") {
            Some(v) => match v.as_str() {
                Some(s) => String::from_str(s),
                None => return Err(String::from_str("Missing tool name")),
            },
            None => return Err(String::from_str("Missing tool name")),
        };
        let mut param_entries = match params {
            JsonValue::Object(es) => es,
            _ => Vec::new(),
        };
        let arguments = match take_entry(&mut param_entries, "arguments") {
            Some(a) => a,
            None => JsonValue::Object(Vec::new()),
        };
        return Ok(Request::ToolsCall { id, name, arguments });
    }
    Ok(Request::Unknown { id, method })
}

/// A response carries `"jsonrpc": "2.0"` and echoes the request's id.
pub open spec fn is_envelope(r: JsonValue, id: JsonValue) -> bool {
    &&& text_of(r.field("jsonrpc"@)) == Some("2.0"@)
    &&& r.field("id"@) == Some(id)
}

/// `v` has no members but `a`, `b` and `c`.
pub open spec fn only_members(v: JsonValue, a: Seq<char>, b: Seq<char>, c: Seq<char>) -> bool {
    forall|k: Seq<char>| k != a && k != b && k != c ==> (#[trigger] v.field(k)) is None
}

/// `v` has no member but `a`.
pub open spec fn only_member(v: JsonValue, a: Seq<char>) -> bool {
    forall|k: Seq<char>| k != a ==> (#[trigger] v.field(k)) is None
}

/// A successful response: `jsonrpc`, `id` and `result`, and no `error`.
pub open spec fn is_success_envelope(r: JsonValue, id: JsonValue) -> bool {
    &&& is_envelope(r, id)
    &&& r.field("result"@) is Some
    &&& r.field("error"@) is None
    &&& only_members(r, "jsonrpc"@, "id"@, "result"@)
}

/// A failed response: `jsonrpc`, `id` and `error`, and no `result`.
pub open spec fn is_error_envelope(r: JsonValue, id: JsonValue) -> bool {
    &&& is_envelope(r, id)
    &&& r.field("error"@) is Some
    &&& r.field("result"@) is None
    &&& only_members(r, "jsonrpc"@, "id"@, "error"@)
}

/// `{"jsonrpc": "2.0", "id": id, "result": result}`
pub fn result_envelope(id: JsonValue, result: JsonValue) -> (r: JsonValue)
    ensures
        is_success_envelope(r, id),
        r.field("result"@) == Some(result),
{
    proof {
        reveal_strlit("jsonrpc");
        reveal_strlit("id");
        reveal_strlit("result");
        reveal_strlit("error");
        assert("error"@.len() != "jsonrpc"@.len());
        assert("error"@.len() != "id"@.len());
        assert("error"@.len() != "result"@.len());
        assert("jsonrpc"@.len() != "id"@.len());
        assert("jsonrpc"@.len() != "result"@.len());
        assert("id"@.len() != "result"@.len());
    }
    object3("jsonrpc", json_str("2.0"), "id", id, "result", result)
}

/// The error of a response: its code and message, and no other member.
pub open spec fn is_error(e: JsonValue, code: i64, message: Seq<char>) -> bool {
    &&& e.field("code"@) == Some(JsonValue::Number(JsonNumber::Signed(code)))
    &&& text_of(e.field("message"@)) == Some(message)
    &&& forall|k: Seq<char>| k != "code"@ && k != "message"@ ==> (#[trigger] e.field(k)) is None
}

/// `{"jsonrpc": "2.0", "id": id, "error": {"code": code, "message": message}}`
pub fn error_envelope(id: JsonValue, code: i64, message: String) -> (r: JsonValue)
    ensures
        is_error_envelope(r, id),
        r.field("error"@) matches Some(e) && is_error(e, code, message@),
{
    proof {
        reveal_strlit("jsonrpc");
        reveal_strlit("id");
        reveal_strlit("error");
        reveal_strlit("result");
        assert("result"@.len() != "jsonrpc"@.len());
        assert("result"@.len() != "id"@.len());
        assert("result"@.len() != "error"@.len());
        reveal_strlit("code");
        reveal_strlit("message");
        assert("jsonrpc"@.len() != "id"@.len());
        assert("jsonrpc"@.len() != "error"@.len());
        assert("id"@.len() != "error"@.len());
        assert("code"@.len() != "message"@.len());
    }
    let error = object2(
        "code",
        JsonValue::Number(JsonNumber::Signed(code)),
        "message",
        JsonValue::Str(message),
    );
    object3("jsonrpc", json_str("2.0"), "id", id, "error", error)
}

/// The code of an error raised while serving a tool call.
pub const INTERNAL_ERROR: i64 = -32603;

/// The code of an error for a method the server does not know.
pub const METHOD_NOT_FOUND: i64 = -32601;

/// What `initialize` answers, member for member: the protocol version, the
/// capabilities (a `tools` member that is an empty object) and the server's
/// identity (its name and version), and nothing else.
pub open spec fn is_initialize_result(v: JsonValue) -> bool {
    &&& text_of(v.field("protocolVersion"@)) == Some("2024-11-05"@)
    &&& v.field("capabilities"@) matches Some(c) && c.field("tools"@) matches Some(t)
        && is_empty_object(t) && forall|k: Seq<char>|
        k != "tools"@ ==> (#[trigger] c.field(k)) is None
    &&& v.field("serverInfo"@) matches Some(info) && text_of(info.field("name"@)) == Some("xint"@)
        && text_of(info.field("version"@)) == Some("1.0.0"@) && forall|k: Seq<char>|
        k != "name"@ && k != "version"@ ==> (#[trigger] info.field(k)) is None
    &&& only_members(v, "protocolVersion"@, "capabilities"@, "serverInfo"@)
}

fn initialize_result() -> (r: JsonValue)
    ensures
        is_initialize_result(r),
{
    proof {
        reveal_strlit("protocolVersion");
        reveal_strlit("capabilities");
        reveal_strlit("serverInfo");
        reveal_strlit("name");
        reveal_strlit("version");
        assert("protocolVersion"@.len() != "capabilities"@.len());
        assert("protocolVersion"@.len() != "serverInfo"@.len());
        assert("capabilities"@.len() != "serverInfo"@.len());
        assert("name"@.len() != "version"@.len());
    }
    let capabilities = object1("tools", JsonValue::Object(Vec::new()));
    let server_info = object2("name", json_str("xint"), "version", json_str("1.0.0"));
    object3(
        "protocolVersion",
        json_str("2024-11-05"),
        "capabilities",
        capabilities,
        "serverInfo",
        server_info,
    )
}

/// `item` describes tool `t` as the catalog does: its name, description,
/// and the schema of its arguments, and no other member.
pub open spec fn describes(item: JsonValue, t: ToolName) -> bool {
    &&& text_of(item.field("name"@)) == Some(t.spec_name())
    &&& text_of(item.field("description"@)) == Some(t.spec_description())
    &&& item.field("inputSchema"@) matches Some(schema) && has_shape(schema, t.spec_schema())
    &&& only_members(item, "name"@, "description"@, "inputSchema"@)
}

/// The descriptor is the catalog's entry for tool `t`.
pub open spec fn is_descriptor_of(tool: MCPTool, t: ToolName) -> bool {
    &&& tool.name@ == t.spec_name()
    &&& tool.description@ == t.spec_description()
    &&& has_shape(tool.input_schema, t.spec_schema())
}

/// The tool descriptors of the catalog, in order, as JSON.
pub open spec fn lists_catalog(tools: Seq<JsonValue>) -> bool {
    &&& tools.len() == catalog().len()
    &&& forall|i: int| 0 <= i < tools.len() ==> describes(#[trigger] tools[i], catalog()[i])
}

/// `{"tools": [...]}` listing every tool's descriptor.
fn tools_list_result() -> (r: JsonValue)
    ensures
        lists_catalog(elements_of(r.field("tools"@))),
        only_member(r, "tools"@),
{
    let mut tools = get_tools();
    let mut items: Vec<JsonValue> = Vec::new();
    let n = tools.len();
    let mut i: usize = 0;
    assert forall|j: int| 0 <= j < n implies is_descriptor_of(#[trigger] tools@[j], catalog()[j]) by {
        assert(tools@[j].name@ == catalog()[j].spec_name());
    }
    while i < n
        invariant
            n == catalog().len(),
            i <= n,
            tools@.len() == n - i,
            items@.len() == i,
            forall|j: int|
                0 <= j < n - i ==> is_descriptor_of(#[trigger] tools@[j], catalog()[j + i as int]),
            forall|j: int| 0 <= j < i ==> describes(#[trigger] items@[j], catalog()[j]),
        decreases n - i,
    {
        let ghost before = tools@;
        let t = tools.remove(0);
        assert(is_descriptor_of(before[0], catalog()[i as int]));
        items.push(t.to_json());
        proof {
            assert forall|j: int| 0 <= j < n - (i + 1) implies is_descriptor_of(
                #[trigger] tools@[j],
                catalog()[j + i + 1],
            ) by {
                assert(tools@[j] == before[j + 1]);
            }
        }
        i += 1;
    }
    object1("tools", JsonValue::Array(items))
}

impl MCPServer {
    /// Answers `initialize`, as often as it comes: the session becomes
    /// initialized (and stays so), and every answer carries the same protocol
    /// version, capabilities and server identity.
    pub fn handle_initialize(&mut self, id: JsonValue) -> (r: JsonValue)
        ensures
            final(self).spec_initialized(),
            final(self).spec_policy_mode() == old(self).spec_policy_mode(),
            final(self).spec_enforce_budget() == old(self).spec_enforce_budget(),
            final(self).spec_costs_path() == old(self).spec_costs_path(),
            final(self).spec_reliability_path() == old(self).spec_reliability_path(),
            is_success_envelope(r, id),
            r.field("result"@) matches Some(res) && is_initialize_result(res),
    {
        self.mark_initialized();
        result_envelope(id, initialize_result())
    }
}

/// Answers `tools/list` with the whole catalog.
pub fn tools_list_response(id: JsonValue) -> (r: JsonValue)
    ensures
        is_success_envelope(r, id),
        r.field("result"@) matches Some(res) && lists_catalog(elements_of(res.field("tools"@)))
            && only_member(res, "tools"@),
{
    result_envelope(id, tools_list_result())
}

/// The items of a tool call's result, in order, as JSON.
pub open spec fn lists_contents(items: Seq<JsonValue>, contents: Seq<MCPContent>) -> bool {
    &&& items.len() == contents.len()
    &&& forall|i: int|
        0 <= i < items.len() ==> text_of(#[trigger] items[i].field("type"@)) == Some(
            contents[i].content_type@,
        ) && text_of(items[i].field("text"@)) == Some(contents[i].text@)
}

/// Answers a tool call: its content items on success, else an internal
/// error whose message is the failure's text.
pub fn tool_call_response(id: JsonValue, outcome: Result<Vec<MCPContent>, String>) -> (r:
    JsonValue)
    ensures
        outcome is Ok ==> is_success_envelope(r, id),
        outcome is Err ==> is_error_envelope(r, id),
        outcome matches Ok(contents) ==> (r.field("result"@) matches Some(res) && lists_contents(
            elements_of(res.field("content"@)),
            contents@,
        )),
        outcome matches Err(m) ==> (r.field("error"@) matches Some(e) && is_error(
            e,
            INTERNAL_ERROR,
            m@,
        )),
{
    match outcome {
        Ok(contents) => {
            let ghost all = contents@;
            let mut rest = contents;
            let n = rest.len();
            let mut items: Vec<JsonValue> = Vec::new();
            let mut i: usize = 0;
            while i < n
                invariant
                    n == all.len(),
                    i <= n,
                    rest@ == all.skip(i as int),
                    items@.len() == i,
                    forall|j: int|
                        0 <= j < i ==> text_of(#[trigger] items@[j].field("type"@)) == Some(
                            all[j].content_type@,
                        ) && text_of(items@[j].field("text"@)) == Some(all[j].text@),
                decreases n - i,
            {
                let c = rest.remove(0);
                assert(c == all[i as int]);
                items.push(c.to_json());
                assert(rest@ =~= all.skip(i + 1));
                i += 1;
            }
            result_envelope(id, object1("content", JsonValue::Array(items)))
        },
        Err(m) => error_envelope(id, INTERNAL_ERROR, m),
    }
}

/// Answers a method the server does not know.
pub fn method_not_found_response(id: JsonValue, method: &str) -> (r: JsonValue)
    ensures
        is_error_envelope(r, id),
        r.field("error"@) matches Some(e) && is_error(
            e,
            METHOD_NOT_FOUND,
            "Method not found: "@ + method@,
        ),
{
    error_envelope(id, METHOD_NOT_FOUND, String::from_str("Method not found: ").concat(method))
}

/// The key a tool call's outcome is recorded under: `mcp:<tool>`.
pub fn record_key(name: &str) -> (r: String)
    ensures
        r@ == "mcp:"@ + name@,
{
    String::from_str("mcp:").concat(name)
}

} // verus!
