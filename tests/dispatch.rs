use std::path::PathBuf;

use xint_mcp::{
    method_not_found_response, parse_request, plan_tool, record_key, text_content,
    tool_call_response,
    tools_list_response, HttpMethod, JsonNumber, JsonValue, MCPContent, MCPServer, PolicyMode,
    Request, TimeWindow, ToolPlan,
};

fn s(x: &str) -> JsonValue {
    JsonValue::Str(x.to_string())
}

fn obj(entries: Vec<(&str, JsonValue)>) -> JsonValue {
    JsonValue::Object(entries.into_iter().map(|(k, v)| (k.to_string(), v)).collect())
}

fn window() -> TimeWindow {
    TimeWindow { from: "a".to_string(), to: "b".to_string() }
}

fn text_field(v: &JsonValue, key: &str) -> String {
    v.get(key).and_then(|x| x.as_str()).expect("text field").to_string()
}

fn reply(name: &str, args: JsonValue) -> Result<String, String> {
    match plan_tool(name, args, window())? {
        ToolPlan::Reply(text) => Ok(text),
        ToolPlan::Package { .. } => panic!("expected an immediate reply"),
    }
}

fn server() -> MCPServer {
    MCPServer::new(PolicyMode::ReadOnly, false, PathBuf::from("/tmp/c"), PathBuf::from("/tmp/r"))
}

#[test]
fn initialize_twice_answers_the_same() {
    let mut srv = server();
    let first = srv.handle_initialize(JsonValue::Number(JsonNumber::Unsigned(1)));
    assert!(srv.is_initialized());
    let second = srv.handle_initialize(JsonValue::Number(JsonNumber::Unsigned(1)));
    assert!(srv.is_initialized());
    assert_eq!(format!("{first:?}"), format!("{second:?}"));
    assert_eq!(text_field(&first, "jsonrpc"), "2.0");
    let result = first.get("result").unwrap();
    assert_eq!(text_field(result, "protocolVersion"), "2024-11-05");
    let info = result.get("serverInfo").unwrap();
    assert_eq!(text_field(info, "name"), "xint");
    assert!(result.get("capabilities").unwrap().get("tools").is_some());
}

#[test]
fn unknown_tool_is_an_internal_error() {
    let err = plan_tool("xint_nope", obj(vec![]), window()).unwrap_err();
    assert_eq!(err, "Unknown tool: xint_nope");
    let response = tool_call_response(s("req-7"), Err(err));
    assert_eq!(text_field(&response, "id"), "req-7");
    let error = response.get("error").unwrap();
    assert!(matches!(error.get("code"), Some(JsonValue::Number(JsonNumber::Signed(-32603)))));
    assert!(text_field(error, "message").contains("Unknown tool:"));
}

#[test]
fn successful_call_wraps_content() {
    let response = tool_call_response(
        JsonValue::Null,
        Ok(vec![MCPContent::text("Cache cleared".to_string())]),
    );
    let content = response.get("result").unwrap().get("content").unwrap().as_array().unwrap();
    assert_eq!(content.len(), 1);
    assert_eq!(text_field(&content[0], "type"), "text");
    assert_eq!(text_field(&content[0], "text"), "Cache cleared");
    assert!(matches!(response.get("id"), Some(JsonValue::Null)));
}

#[test]
fn unknown_method_is_method_not_found() {
    let msg = obj(vec![("method", s("resources/list")), ("id", JsonValue::Number(JsonNumber::Unsigned(3)))]);
    let (id, method) = match parse_request(msg).unwrap() {
        Request::Unknown { id, method } => (id, method),
        other => panic!("unexpected {other:?}"),
    };
    let response = method_not_found_response(id, &method);
    let error = response.get("error").unwrap();
    assert!(matches!(error.get("code"), Some(JsonValue::Number(JsonNumber::Signed(-32601)))));
    assert_eq!(text_field(error, "message"), "Method not found: resources/list");
    assert!(matches!(response.get("id"), Some(JsonValue::Number(JsonNumber::Unsigned(3)))));
}

#[test]
fn requests_are_read_by_method() {
    assert!(matches!(
        parse_request(obj(vec![("method", s("initialize")), ("id", s("x"))])),
        Ok(Request::Initialize { id: JsonValue::Str(ref i) }) if i == "x"
    ));
    assert!(matches!(
        parse_request(obj(vec![("method", s("initialize"))])),
        Ok(Request::Initialize { id: JsonValue::Null })
    ));
    assert!(matches!(
        parse_request(obj(vec![("method", s("initialized"))])),
        Ok(Request::Initialized)
    ));
    assert!(matches!(
        parse_request(obj(vec![("method", s("tools/list")), ("id", s("y"))])),
        Ok(Request::ToolsList { .. })
    ));
    let call = obj(vec![
        ("method", s("tools/call")),
        ("id", s("z")),
        ("params", obj(vec![("name", s("xint_costs")), ("arguments", obj(vec![("period", s("week"))]))])),
    ]);
    match parse_request(call).unwrap() {
        Request::ToolsCall { name, arguments, .. } => {
            assert_eq!(name, "xint_costs");
            assert_eq!(reply(&name, arguments).unwrap(), "Cost tracking for period: week");
        }
        other => panic!("unexpected {other:?}"),
    }
    let no_args = obj(vec![("method", s("tools/call")), ("params", obj(vec![("name", s("xint_costs"))]))]);
    match parse_request(no_args).unwrap() {
        Request::ToolsCall { arguments, .. } => {
            assert!(matches!(arguments, JsonValue::Object(ref e) if e.is_empty()))
        }
        other => panic!("unexpected {other:?}"),
    }
}

#[test]
fn malformed_requests_are_refused() {
    assert_eq!(parse_request(obj(vec![("id", s("1"))])).unwrap_err(), "Missing method field");
    assert_eq!(parse_request(s("initialize")).unwrap_err(), "Missing method field");
    assert_eq!(
        parse_request(obj(vec![("method", JsonValue::Bool(true))])).unwrap_err(),
        "Missing method field"
    );
    assert_eq!(parse_request(obj(vec![("method", s("tools/call"))])).unwrap_err(), "Missing params");
    assert_eq!(
        parse_request(obj(vec![("method", s("tools/call")), ("params", obj(vec![]))])).unwrap_err(),
        "Missing tool name"
    );
}

#[test]
fn tools_list_names_the_catalog() {
    let response = tools_list_response(s("l"));
    let tools = response.get("result").unwrap().get("tools").unwrap().as_array().unwrap();
    assert_eq!(tools.len(), 23);
    assert_eq!(text_field(&tools[13], "name"), "xint_package_query");
    assert!(tools[13].get("inputSchema").is_some());
}

#[test]
fn local_tools_answer_from_their_arguments() {
    assert_eq!(reply("xint_search", obj(vec![("query", s("rust"))])).unwrap(), "Search: rust (limit: 15)");
    assert_eq!(
        reply("xint_search", obj(vec![("query", s("rust")), ("limit", JsonValue::Number(JsonNumber::Unsigned(120)))]))
            .unwrap(),
        "Search: rust (limit: 120)"
    );
    assert_eq!(reply("xint_search", obj(vec![])).unwrap_err(), "Missing query");
    assert_eq!(reply("xint_profile", obj(vec![("username", s("nyk"))])).unwrap(), "Profile: @nyk");
    assert_eq!(reply("xint_trends", obj(vec![])).unwrap(), "Trends for: worldwide");
    assert_eq!(
        reply("xint_collections_search", obj(vec![("query", s("q"))])).unwrap_err(),
        "Missing collection_id"
    );
    assert_eq!(
        reply("xint_collections_search", obj(vec![("collection_id", s("c")), ("query", s("q"))])).unwrap(),
        "Collections search in c: q"
    );
    assert_eq!(
        reply("xint_watch", obj(vec![("query", s("w"))])).unwrap(),
        "Watch: w (use CLI for real-time monitoring)"
    );
    assert_eq!(reply("xint_report", obj(vec![])).unwrap_err(), "Missing topic");
    assert_eq!(reply("xint_bookmarks", obj(vec![])).unwrap(), "Bookmarks: OAuth required");
}

#[test]
fn package_tools_build_their_paths() {
    match plan_tool("xint_package_search", obj(vec![("query", s("ai agents now"))]), window()).unwrap() {
        ToolPlan::Package { method, path, body, require_citations } => {
            assert_eq!(method, HttpMethod::Get);
            assert_eq!(path, "/packages/search?q=ai%20agents%20now&limit=20");
            assert!(body.is_none());
            assert!(!require_citations);
        }
        ToolPlan::Reply(_) => panic!("expected a package call"),
    }
    match plan_tool(
        "xint_package_publish",
        obj(vec![("package_id", s("pkg_1")), ("snapshot_version", JsonValue::Number(JsonNumber::Unsigned(4)))]),
        window(),
    )
    .unwrap()
    {
        ToolPlan::Package { method, path, body, .. } => {
            assert_eq!(method, HttpMethod::Post);
            assert_eq!(path, "/packages/pkg_1/publish");
            let body = body.unwrap();
            assert!(matches!(body.get("snapshot_version"), Some(JsonValue::Number(JsonNumber::Unsigned(4)))));
        }
        ToolPlan::Reply(_) => panic!("expected a package call"),
    }
    assert_eq!(
        plan_tool("xint_package_publish", obj(vec![("package_id", s("p"))]), window()).unwrap_err(),
        "Missing snapshot_version"
    );
    assert_eq!(
        plan_tool("xint_package_query", obj(vec![("query", s("q")), ("package_ids", JsonValue::Array(vec![]))]), window())
            .unwrap_err(),
        "Missing package_ids"
    );
    match plan_tool("xint_package_create", obj(vec![]), window()).unwrap() {
        ToolPlan::Package { body, .. } => {
            let body = body.unwrap();
            assert_eq!(text_field(&body, "policy"), "private");
            assert_eq!(text_field(&body, "name"), "");
            let tw = body.get("time_window").unwrap();
            assert_eq!(text_field(tw, "from"), "a");
            assert_eq!(text_field(tw, "to"), "b");
        }
        ToolPlan::Reply(_) => panic!("expected a package call"),
    }
}

#[test]
fn query_citation_flag_defaults_to_true() {
    let args = obj(vec![("query", s("q")), ("package_ids", JsonValue::Array(vec![s("p")]))]);
    match plan_tool("xint_package_query", args, window()).unwrap() {
        ToolPlan::Package { require_citations, body, .. } => {
            assert!(require_citations);
            let body = body.unwrap();
            assert!(matches!(body.get("max_claims"), Some(JsonValue::Number(JsonNumber::Unsigned(10)))));
        }
        ToolPlan::Reply(_) => panic!("expected a package call"),
    }
}

#[test]
fn outcomes_are_recorded_per_tool() {
    assert_eq!(record_key("xint_search"), "mcp:xint_search");
}

fn keys(v: &JsonValue) -> Vec<String> {
    match v {
        JsonValue::Object(entries) => entries.iter().map(|(k, _)| k.clone()).collect(),
        _ => Vec::new(),
    }
}

#[test]
fn responses_carry_result_or_error_but_not_both() {
    let ok = tool_call_response(s("1"), Ok(text_content("done".to_string())));
    assert_eq!(keys(&ok), vec!["jsonrpc", "id", "result"]);
    let err = tool_call_response(s("1"), Err("bad".to_string()));
    assert_eq!(keys(&err), vec!["jsonrpc", "id", "error"]);
    assert_eq!(keys(err.get("error").unwrap()), vec!["code", "message"]);
    let missing = method_not_found_response(JsonValue::Null, "x");
    assert!(missing.get("result").is_none());
}

#[test]
fn initialize_answer_has_exactly_its_members() {
    let mut srv = server();
    let answer = srv.handle_initialize(s("i"));
    let result = answer.get("result").unwrap();
    assert_eq!(keys(result), vec!["protocolVersion", "capabilities", "serverInfo"]);
    assert_eq!(keys(result.get("capabilities").unwrap()), vec!["tools"]);
    assert!(keys(result.get("capabilities").unwrap().get("tools").unwrap()).is_empty());
    assert_eq!(keys(result.get("serverInfo").unwrap()), vec!["name", "version"]);
    assert_eq!(text_field(result.get("serverInfo").unwrap(), "version"), "1.0.0");
}

#[test]
fn listed_tools_carry_descriptions_and_object_schemas() {
    let response = tools_list_response(s("l"));
    let tools = response.get("result").unwrap().get("tools").unwrap().as_array().unwrap();
    assert_eq!(
        text_field(&tools[0], "description"),
        "Search recent tweets on X/Twitter with advanced filters"
    );
    for t in tools {
        assert_eq!(keys(t), vec!["name", "description", "inputSchema"]);
        assert_eq!(text_field(t.get("inputSchema").unwrap(), "type"), "object");
    }
}

#[test]
fn text_content_is_one_text_item() {
    let items = text_content("hello".to_string());
    assert_eq!(items.len(), 1);
    assert_eq!(items[0].content_type, "text");
    assert_eq!(items[0].text, "hello");
}
