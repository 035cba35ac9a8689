//! Request gating and protocol dispatch for an MCP tool server: the policy
//! and budget gates, webhook admission, the package API client's request and
//! response rules, citation checks, and JSON-RPC dispatch, each stated and
//! proved with Verus.

pub mod citations;
pub mod dispatch;
pub mod json;
pub mod package_api;
pub mod policy;
pub mod server;
pub mod text;
pub mod tool_exec;
pub mod tools;
pub mod webhook;

pub use citations::{ensure_package_query_citations, CitationError};
pub use dispatch::{
    error_envelope, method_not_found_response, parse_request, record_key, result_envelope,
    text_content, tool_call_response, tools_list_response, MCPContent, Request, INTERNAL_ERROR,
    METHOD_NOT_FOUND,
};
pub use json::{JsonNumber, JsonValue};
pub use package_api::{
    interpret_package_response, normalize_setting, package_response_outcome,
    prepare_package_request, HttpMethod, PackageApiConfig, PackageRequest,
};
pub use policy::{is_allowed, PolicyMode};
pub use server::{Authorization, BudgetSnapshot, GateDenial, MCPServer};
pub use tool_exec::{finish_package_call, plan_tool, TimeWindow, ToolPlan};
pub use tools::{get_tools, MCPTool, ToolName};
pub use webhook::{
    admit_url_parts, host_allowed_by_rule, is_loopback_host, parse_allowlist_from,
    validate_webhook_url_with_allowlist, WebhookError,
};
