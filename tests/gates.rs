use std::path::PathBuf;

use xint_mcp::{
    get_tools, is_allowed, Authorization, BudgetSnapshot, GateDenial, JsonNumber, JsonValue,
    MCPServer, PolicyMode, ToolName,
};

fn server(mode: PolicyMode, enforce_budget: bool) -> MCPServer {
    MCPServer::new(
        mode,
        enforce_budget,
        PathBuf::from("/tmp/xint-rs-test-costs.json"),
        PathBuf::from("/tmp/xint-rs-test-reliability.json"),
    )
}

fn field<'a>(v: &'a JsonValue, key: &str) -> Option<&'a JsonValue> {
    v.get(key)
}

fn text(v: &JsonValue, key: &str) -> String {
    field(v, key).and_then(|x| x.as_str()).expect("text field").to_string()
}

#[test]
fn required_policy_is_engagement_only_for_three_tools() {
    let engagement = ["xint_bookmarks", "xint_diff", "xint_package_publish"];
    for tool in get_tools() {
        let level = MCPServer::tool_required_policy(&tool.name);
        if engagement.contains(&tool.name.as_str()) {
            assert_eq!(level, PolicyMode::Engagement);
        } else {
            assert_eq!(level, PolicyMode::ReadOnly);
        }
    }
    assert_eq!(MCPServer::tool_required_policy("no_such_tool"), PolicyMode::ReadOnly);
    assert_eq!(MCPServer::tool_required_policy(""), PolicyMode::ReadOnly);
}

#[test]
fn budget_exempts_informational_tools() {
    assert!(!MCPServer::tool_budget_guarded("xint_costs"));
    assert!(!MCPServer::tool_budget_guarded("xint_cache_clear"));
    assert!(!MCPServer::tool_budget_guarded("xint_package_status"));
    assert!(!MCPServer::tool_budget_guarded("unknown"));
    assert!(MCPServer::tool_budget_guarded("xint_search"));
    assert!(!MCPServer::tool_budget_guarded("xint_collections_list"));
    assert!(MCPServer::tool_budget_guarded("xint_package_publish"));
    let guarded = get_tools().iter().filter(|t| MCPServer::tool_budget_guarded(&t.name)).count();
    assert_eq!(guarded, 19);
}

#[test]
fn catalog_lists_every_tool_once() {
    let tools = get_tools();
    assert_eq!(tools.len(), 23);
    assert_eq!(tools[0].name, "xint_search");
    assert_eq!(tools[22].name, "xint_costs");
    for t in &tools {
        assert_eq!(ToolName::from_name(&t.name).map(|n| n.name()), Some(t.name.as_str()));
        assert!(matches!(t.input_schema, JsonValue::Object(_)));
    }
}

#[test]
fn policy_order() {
    assert!(is_allowed(PolicyMode::Engagement, PolicyMode::ReadOnly));
    assert!(is_allowed(PolicyMode::Moderation, PolicyMode::Engagement));
    assert!(is_allowed(PolicyMode::ReadOnly, PolicyMode::ReadOnly));
    assert!(!is_allowed(PolicyMode::ReadOnly, PolicyMode::Engagement));
    assert_eq!(PolicyMode::ReadOnly.as_str(), "read_only");
}

#[test]
fn policy_denial_names_tool_and_modes() {
    let s = server(PolicyMode::ReadOnly, true);
    let denial = s.ensure_tool_allowed("xint_bookmarks").unwrap_err();
    let json = denial.to_json();
    assert_eq!(text(&json, "code"), "POLICY_DENIED");
    assert_eq!(text(&json, "tool"), "xint_bookmarks");
    assert_eq!(text(&json, "policy_mode"), "read_only");
    assert_eq!(text(&json, "required_mode"), "engagement");
    assert_eq!(text(&json, "message"), "MCP tool 'xint_bookmarks' requires 'engagement' policy mode");
    assert!(s.ensure_tool_allowed("xint_search").is_ok());
    assert!(server(PolicyMode::Engagement, true).ensure_tool_allowed("xint_bookmarks").is_ok());
}

#[test]
fn policy_denial_comes_before_budget() {
    let s = server(PolicyMode::ReadOnly, true);
    let mut budget_calls = 0;
    let outcome = match s.authorize("xint_diff") {
        Authorization::Denied(d) => Err(d),
        Authorization::NeedsBudget => {
            budget_calls += 1;
            Ok(())
        }
        Authorization::Allowed => Ok(()),
    };
    assert_eq!(budget_calls, 0);
    assert!(matches!(outcome, Err(GateDenial::Policy { .. })));
    assert!(matches!(s.authorize("xint_search"), Authorization::NeedsBudget));
    assert!(matches!(s.authorize("xint_costs"), Authorization::Allowed));
    assert!(matches!(s.authorize("xint_collections_list"), Authorization::Allowed));
    let unguarded = server(PolicyMode::ReadOnly, false);
    assert!(matches!(unguarded.authorize("xint_search"), Authorization::Allowed));
}

#[test]
fn budget_denial_reports_amounts() {
    let s = server(PolicyMode::ReadOnly, true);
    let over = BudgetSnapshot { allowed: false, spent_cents: 1205, limit_cents: 1000, remaining_cents: 0 };
    let denial = s.ensure_budget_allowed("xint_search", &over).unwrap_err();
    let json = denial.to_json();
    assert_eq!(text(&json, "code"), "BUDGET_DENIED");
    assert_eq!(text(&json, "message"), "Daily budget exceeded ($12.05 / $10.00)");
    assert_eq!(text(&json, "tool"), "xint_search");
    assert!(matches!(field(&json, "spent_usd"), Some(JsonValue::Number(JsonNumber::Decimal(t))) if t == "12.05"));
    assert!(matches!(field(&json, "limit_usd"), Some(JsonValue::Number(JsonNumber::Decimal(t))) if t == "10.00"));
    assert!(matches!(field(&json, "remaining_usd"), Some(JsonValue::Number(JsonNumber::Decimal(t))) if t == "0.00"));
    assert!(s.ensure_budget_allowed("xint_costs", &over).is_ok());
    let under = BudgetSnapshot { allowed: true, spent_cents: 5, limit_cents: 1000, remaining_cents: 995 };
    assert!(s.ensure_budget_allowed("xint_search", &under).is_ok());
    assert!(server(PolicyMode::ReadOnly, false).ensure_budget_allowed("xint_search", &over).is_ok());
}

#[test]
fn new_server_starts_uninitialized() {
    let s = server(PolicyMode::Engagement, false);
    assert!(!s.is_initialized());
    assert_eq!(s.policy_mode(), PolicyMode::Engagement);
    assert!(!s.enforce_budget());
    assert_eq!(s.costs_path(), &PathBuf::from("/tmp/xint-rs-test-costs.json"));
}

fn member_names(v: &JsonValue) -> Vec<String> {
    match v {
        JsonValue::Object(entries) => entries.iter().map(|(k, _)| k.clone()).collect(),
        _ => Vec::new(),
    }
}

#[test]
fn catalog_schemas_are_exact() {
    let tools = get_tools();
    let search = &tools[0].input_schema;
    assert_eq!(member_names(search), vec!["type", "properties", "required"]);
    let props = search.get("properties").unwrap();
    assert_eq!(member_names(props), vec!["query", "limit", "since", "sort"]);
    let sort = props.get("sort").unwrap();
    assert_eq!(member_names(sort), vec!["type", "enum", "description"]);
    let values: Vec<&str> =
        sort.get("enum").unwrap().as_array().unwrap().iter().map(|v| v.as_str().unwrap()).collect();
    assert_eq!(values, vec!["likes", "retweets", "recent"]);
    let required = search.get("required").unwrap().as_array().unwrap();
    assert_eq!(required.len(), 1);
    assert_eq!(required[0].as_str(), Some("query"));
    let collections = &tools[6].input_schema;
    assert_eq!(member_names(collections), vec!["type", "properties"]);
    assert!(member_names(collections.get("properties").unwrap()).is_empty());
    let create = tools[11].input_schema.get("properties").unwrap();
    let window = create.get("time_window").unwrap();
    assert_eq!(member_names(window.get("properties").unwrap()), vec!["from", "to"]);
}
