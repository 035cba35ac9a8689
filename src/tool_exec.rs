//! What running a tool amounts to: an immediate answer, or a call of the
//! package API whose result may have to pass the citation check.

use vstd::prelude::*;
use vstd::string::*;

use crate::citations::{
    citations_complete, citations_missing, claim_id_of, ensure_package_query_citations,
    first_uncited, is_cited, missing_citations_message, not_object_message, query_citations,
    query_claims, uncited_at, uncited_message,
};
use crate::json::{
    bool_of, elements_of, entry, entry_lookup, into_entries, object1, object2, object_of,
    take_entry, text_of, unsigned_of, JsonNumber, JsonValue,
};
use crate::package_api::HttpMethod;
use crate::text::{decimal, decimal_text, encode_spaces, spaces_encoded};
use crate::tools::{tool_of, ToolName};

verus! {

/// The default time window of a new package, as RFC 3339 instants.
#[derive(Debug)]
pub struct TimeWindow {
    pub from: String,
    pub to: String,
}

/// What a tool call comes to.
#[derive(Debug)]
pub enum ToolPlan {
    /// The tool answers with this text at once.
    Reply(String),
    /// The tool calls the package API; where `require_citations` holds, the
    /// result must pass the citation check.
    Package { method: HttpMethod, path: String, body: Option<JsonValue>, require_citations: bool },
}

/// The text argument `key`, where it is present and text.
pub open spec fn arg_text(args: JsonValue, key: Seq<char>) -> Option<Seq<char>> {
    text_of(args.field(key))
}

/// The text, or `default` where there is none.
pub open spec fn text_or(o: Option<Seq<char>>, default: Seq<char>) -> Seq<char> {
    match o {
        Some(s) => s,
        None => default,
    }
}

/// The count argument `key`, or `default` where it is absent or not a
/// non-negative integer.
pub open spec fn count_or(args: JsonValue, key: Seq<char>, default: u64) -> u64 {
    match unsigned_of(args.field(key)) {
        Some(n) => n,
        None => default,
    }
}

/// The tools served by the package API.
pub open spec fn is_package_tool(t: ToolName) -> bool {
    match t {
        ToolName::PackageCreate | ToolName::PackageStatus | ToolName::PackageQuery
        | ToolName::PackageRefresh | ToolName::PackageSearch | ToolName::PackagePublish => true,
        _ => false,
    }
}

/// The text argument `key` between `prefix` and `suffix`, or the error
/// `missing` where the argument is absent or not text.
pub open spec fn with_arg(
    args: JsonValue,
    key: Seq<char>,
    missing: Seq<char>,
    prefix: Seq<char>,
    suffix: Seq<char>,
) -> Result<Seq<char>, Seq<char>> {
    match arg_text(args, key) {
        Some(v) => Ok(prefix + v + suffix),
        None => Err(missing),
    }
}

/// The answer of a tool that needs no outside service, or why its
/// arguments were refused.
pub open spec fn local_reply(t: ToolName, args: JsonValue) -> Result<Seq<char>, Seq<char>> {
    match t {
        ToolName::Search => match arg_text(args, "query"@) {
            Some(q) => Ok(
                "Search: "@ + q + " (limit: "@ + decimal(count_or(args, "limit"@, 15) as nat)
                    + ")"@,
            ),
            None => Err("Missing query"@),
        },
        ToolName::Profile => with_arg(args, "username"@, "Missing username"@, "Profile: @"@, ""@),
        ToolName::Thread => with_arg(
            args,
            "tweet_id"@,
            "Missing tweet_id"@,
            "Thread for tweet: "@,
            ""@,
        ),
        ToolName::Tweet => with_arg(args, "tweet_id"@, "Missing tweet_id"@, "Tweet: "@, ""@),
        ToolName::Trends => Ok(
            "Trends for: "@ + text_or(arg_text(args, "location"@), "worldwide"@),
        ),
        ToolName::XSearch => with_arg(args, "query"@, "Missing query"@, "X-Search: "@, ""@),
        ToolName::CollectionsList => Ok("Collections: []"@),
        ToolName::Analyze => with_arg(args, "query"@, "Missing query"@, "Analysis: "@, ""@),
        ToolName::Article => with_arg(args, "url"@, "Missing url"@, "Article: "@, ""@),
        ToolName::CollectionsSearch => match arg_text(args, "collection_id"@) {
            None => Err("Missing collection_id"@),
            Some(c) => match arg_text(args, "query"@) {
                None => Err("Missing query"@),
                Some(q) => Ok("Collections search in "@ + c + ": "@ + q),
            },
        },
        ToolName::Bookmarks => Ok("Bookmarks: OAuth required"@),
        ToolName::CacheClear => Ok("Cache cleared"@),
        ToolName::Watch => with_arg(
            args,
            "query"@,
            "Missing query"@,
            "Watch: "@,
            " (use CLI for real-time monitoring)"@,
        ),
        ToolName::Diff => with_arg(
            args,
            "username"@,
            "Missing username"@,
            "Diff tracking for @"@,
            ""@,
        ),
        ToolName::Report => with_arg(
            args,
            "topic"@,
            "Missing topic"@,
            "Report on: "@,
            " (requires XAI_API_KEY)"@,
        ),
        ToolName::Sentiment => Ok("Sentiment analysis (requires XAI_API_KEY)"@),
        ToolName::Costs => Ok(
            "Cost tracking for period: "@ + text_or(arg_text(args, "period"@), "today"@),
        ),
        _ => Err(Seq::empty()),
    }
}

/// The text argument `key`, or `default` where it is absent or not text.
fn arg_or(args: &JsonValue, key: &str, default: &str) -> (r: String)
    ensures
        r@ == text_or(arg_text(*args, key@), default@),
{
    match args.get(key) {
        Some(v) => match v.as_str() {
            Some(s) => String::from_str(s),
            None => String::from_str(default),
        },
        None => String::from_str(default),
    }
}

/// The text argument `key`, or the error `missing`.
fn required_arg(args: &JsonValue, key: &str, missing: &str) -> (r: Result<String, String>)
    ensures
        arg_text(*args, key@) matches Some(v) ==> (r matches Ok(s) && s@ == v),
        arg_text(*args, key@) is None ==> (r matches Err(m) && m@ == missing@),
{
    match args.get(key) {
        Some(v) => match v.as_str() {
            Some(s) => Ok(String::from_str(s)),
            None => Err(String::from_str(missing)),
        },
        None => Err(String::from_str(missing)),
    }
}

/// The count argument `key`, or `default` where it is absent or not a
/// non-negative integer.
fn count_arg(args: &JsonValue, key: &str, default: u64) -> (r: u64)
    ensures
        r == count_or(*args, key@, default),
{
    match args.get(key) {
        Some(v) => match v.as_u64() {
            Some(n) => n,
            None => default,
        },
        None => default,
    }
}

/// The answer made of the text argument `key` between `prefix` and
/// `suffix`.
fn reply_with(args: &JsonValue, key: &str, missing: &str, prefix: &str, suffix: &str) -> (r: Result<
    String,
    String,
>)
    ensures
        match with_arg(*args, key@, missing@, prefix@, suffix@) {
            Ok(s) => r matches Ok(x) && x@ == s,
            Err(e) => r matches Err(m) && m@ == e,
        },
{
    let v = required_arg(args, key, missing)?;
    Ok(String::from_str(prefix).concat(v.as_str()).concat(suffix))
}

/// The answer of a tool that needs no outside service.
fn local_tool(t: ToolName, args: &JsonValue) -> (r: Result<String, String>)
    requires
        !is_package_tool(t),
    ensures
        match local_reply(t, *args) {
            Ok(s) => r matches Ok(x) && x@ == s,
            Err(e) => r matches Err(m) && m@ == e,
        },
{
    proof {
        reveal_strlit("");
    }
    match t {
        ToolName::Search => {
            let query = required_arg(args, "query", "Missing query")?;
            let limit = count_arg(args, "limit", 15);
            Ok(
                String::from_str("Search: ").concat(query.as_str()).concat(" (limit: ").concat(
                    decimal_text(limit).as_str(),
                ).concat(")"),
            )
        },
        ToolName::Profile => reply_with(args, "username", "Missing username", "Profile: @", ""),
        ToolName::Thread => reply_with(
            args,
            "tweet_id",
            "Missing tweet_id",
            "Thread for tweet: ",
            "",
        ),
        ToolName::Tweet => reply_with(args, "tweet_id", "Missing tweet_id", "Tweet: ", ""),
        ToolName::Trends => Ok(
            String::from_str("Trends for: ").concat(arg_or(args, "location", "worldwide").as_str()),
        ),
        ToolName::XSearch => reply_with(args, "query", "Missing query", "X-Search: ", ""),
        ToolName::CollectionsList => Ok(String::from_str("Collections: []")),
        ToolName::Analyze => reply_with(args, "query", "Missing query", "Analysis: ", ""),
        ToolName::Article => reply_with(args, "url", "Missing url", "Article: ", ""),
        ToolName::CollectionsSearch => {
            let collection_id = required_arg(args, "collection_id", "Missing collection_id")?;
            let query = required_arg(args, "query", "Missing query")?;
            Ok(
                String::from_str("Collections search in ").concat(collection_id.as_str()).concat(
                    ": ",
                ).concat(query.as_str()),
            )
        },
        ToolName::Bookmarks => Ok(String::from_str("Bookmarks: OAuth required")),
        ToolName::CacheClear => Ok(String::from_str("Cache cleared")),
        ToolName::Watch => reply_with(
            args,
            "query",
            "Missing query",
            "Watch: ",
            " (use CLI for real-time monitoring)",
        ),
        ToolName::Diff => reply_with(
            args,
            "username",
            "Missing username",
            "Diff tracking for @",
            "",
        ),
        ToolName::Report => reply_with(
            args,
            "topic",
            "Missing topic",
            "Report on: ",
            " (requires XAI_API_KEY)",
        ),
        ToolName::Sentiment => Ok(String::from_str("Sentiment analysis (requires XAI_API_KEY)")),
        ToolName::Costs => Ok(
            String::from_str("Cost tracking for period: ").concat(
                arg_or(args, "period", "today").as_str(),
            ),
        ),
        _ => Err(String::new()),
    }
}

/// The citation requirement of a query: its `require_citations` flag,
/// true where it is absent or not a boolean.
pub open spec fn citations_flag(args: JsonValue) -> bool {
    match bool_of(args.field("require_citations"@)) {
        Some(b) => b,
        None => true,
    }
}

/// A call of the package API with the given method and path, no body,
/// and no citation check.
pub open spec fn is_bodiless_call(
    r: Result<ToolPlan, String>,
    method: HttpMethod,
    path: Seq<char>,
) -> bool {
    r matches Ok(ToolPlan::Package { method: m, path: p, body, require_citations })
        && m == method && p@ == path && body is None && !require_citations
}

/// The body of a planned package API call; null where there is none.
pub open spec fn body_of(r: Result<ToolPlan, String>) -> JsonValue {
    match r {
        Ok(ToolPlan::Package { body: Some(b), .. }) => b,
        _ => JsonValue::Null,
    }
}

/// A call of the package API with the given method and path, a body, and
/// the given citation requirement.
pub open spec fn is_call_with_body(
    r: Result<ToolPlan, String>,
    method: HttpMethod,
    path: Seq<char>,
    require: bool,
) -> bool {
    r matches Ok(ToolPlan::Package { method: m, path: p, body, require_citations })
        && m == method && p@ == path && body is Some && require_citations == require
}

/// A refusal with the given message.
pub open spec fn is_error_text(r: Result<ToolPlan, String>, message: Seq<char>) -> bool {
    r matches Err(m) && m@ == message
}

/// What a package tool's plan must be, for its arguments.
pub open spec fn package_plan_ok(
    t: ToolName,
    args: JsonValue,
    window: TimeWindow,
    r: Result<ToolPlan, String>,
) -> bool {
    match t {
        ToolName::PackageCreate => {
            let b = body_of(r);
            &&& is_call_with_body(r, HttpMethod::Post, "/packages"@, false)
            &&& text_of(b.field("name"@)) == Some(text_or(arg_text(args, "name"@), ""@))
            &&& text_of(b.field("topic_query"@)) == Some(text_or(arg_text(args, "topic_query"@), ""@))
            &&& b.field("sources"@) matches Some(JsonValue::Array(items)) && items@ == elements_of(
                args.field("sources"@),
            )
            &&& match args.field("time_window"@) {
                Some(w) => b.field("time_window"@) == Some(w),
                None => b.field("time_window"@) matches Some(w) && text_of(w.field("from"@)) == Some(
                    window.from@,
                ) && text_of(w.field("to"@)) == Some(window.to@),
            }
            &&& text_of(b.field("policy"@)) == Some(text_or(arg_text(args, "policy"@), "private"@))
            &&& text_of(b.field("analysis_profile"@)) == Some(
                text_or(arg_text(args, "analysis_profile"@), "summary"@),
            )
        },
        ToolName::PackageStatus => match arg_text(args, "package_id"@) {
            None => is_error_text(r, "Missing package_id"@),
            Some(id) => is_bodiless_call(r, HttpMethod::Get, "/packages/"@ + id),
        },
        ToolName::PackageQuery => match arg_text(args, "query"@) {
            None => is_error_text(r, "Missing query"@),
            Some(q) => if elements_of(args.field("package_ids"@)).len() == 0 {
                is_error_text(r, "Missing package_ids"@)
            } else {
                let b = body_of(r);
                &&& is_call_with_body(r, HttpMethod::Post, "/query"@, citations_flag(args))
                &&& text_of(b.field("query"@)) == Some(q)
                &&& b.field("package_ids"@) matches Some(JsonValue::Array(items)) && items@
                    == elements_of(args.field("package_ids"@))
                &&& b.field("max_claims"@) == Some(
                    JsonValue::Number(JsonNumber::Unsigned(count_or(args, "max_claims"@, 10))),
                )
                &&& b.field("require_citations"@) == Some(JsonValue::Bool(citations_flag(args)))
            },
        },
        ToolName::PackageRefresh => match arg_text(args, "package_id"@) {
            None => is_error_text(r, "Missing package_id"@),
            Some(id) => match arg_text(args, "reason"@) {
                None => is_error_text(r, "Missing reason"@),
                Some(reason) => is_call_with_body(
                    r,
                    HttpMethod::Post,
                    "/packages/"@ + id + "/refresh"@,
                    false,
                ) && text_of(body_of(r).field("reason"@)) == Some(reason),
            },
        },
        ToolName::PackageSearch => match arg_text(args, "query"@) {
            None => is_error_text(r, "Missing query"@),
            Some(q) => is_bodiless_call(
                r,
                HttpMethod::Get,
                "/packages/search?q="@ + spaces_encoded(q) + "&limit="@ + decimal(
                    count_or(args, "limit"@, 20) as nat,
                ),
            ),
        },
        ToolName::PackagePublish => match arg_text(args, "package_id"@) {
            None => is_error_text(r, "Missing package_id"@),
            Some(id) => match unsigned_of(args.field("snapshot_version"@)) {
                None => is_error_text(r, "Missing snapshot_version"@),
                Some(v) => is_call_with_body(
                    r,
                    HttpMethod::Post,
                    "/packages/"@ + id + "/publish"@,
                    false,
                ) && body_of(r).field("snapshot_version"@) == Some(
                    JsonValue::Number(JsonNumber::Unsigned(v)),
                ),
            },
        },
        _ => false,
    }
}

/// The array argument `key` of the entries, taken out; empty where it is
/// absent or not an array.
fn take_array(entries: &mut Vec<(String, JsonValue)>, key: &str) -> (r: Vec<JsonValue>)
    ensures
        r@ == elements_of(entry_lookup(old(entries)@, key@)),
        forall|k: Seq<char>|
            k != key@ ==> entry_lookup(final(entries)@, k) == entry_lookup(old(entries)@, k),
{
    match take_entry(entries, key) {
        Some(JsonValue::Array(items)) => items,
        _ => Vec::new(),
    }
}

/// The plan of a package tool.
fn package_tool(t: ToolName, args: JsonValue, window: TimeWindow) -> (r: Result<ToolPlan, String>)
    requires
        is_package_tool(t),
    ensures
        package_plan_ok(t, args, window, r),
{
    proof {
        reveal_strlit("name");
        reveal_strlit("topic_query");
        reveal_strlit("sources");
        reveal_strlit("time_window");
        reveal_strlit("policy");
        reveal_strlit("analysis_profile");
        reveal_strlit("query");
        reveal_strlit("package_ids");
        reveal_strlit("max_claims");
        reveal_strlit("require_citations");
        reveal_strlit("from");
        reveal_strlit("to");
        assert("topic_query"@[1] != "time_window"@[1]);
        assert("name"@.len() == 4 && "topic_query"@.len() == 11 && "sources"@.len() == 7);
        assert("time_window"@.len() == 11 && "policy"@.len() == 6 && "analysis_profile"@.len() == 16);
        assert("query"@.len() == 5 && "package_ids"@.len() == 11 && "max_claims"@.len() == 10);
        assert("require_citations"@.len() == 17);
        assert("from"@.len() != "to"@.len());
    }
    match t {
        ToolName::PackageCreate => {
            let name = arg_or(&args, "name", "");
            let topic_query = arg_or(&args, "topic_query", "");
            let policy = arg_or(&args, "policy", "private");
            let analysis_profile = arg_or(&args, "analysis_profile", "summary");
            let mut entries = into_entries(args);
            let sources = take_array(&mut entries, "sources");
            let time_window = match take_entry(&mut entries, "time_window") {
                Some(w) => w,
                None => object2("from", JsonValue::Str(window.from), "to", JsonValue::Str(window.to)),
            };
            let es = vec![
                entry("name", JsonValue::Str(name)),
                entry("topic_query", JsonValue::Str(topic_query)),
                entry("sources", JsonValue::Array(sources)),
                entry("time_window", time_window),
                entry("policy", JsonValue::Str(policy)),
                entry("analysis_profile", JsonValue::Str(analysis_profile)),
            ];
            proof {
                assert(es@[0].0@ == "name"@);
                assert(es@[1].0@ == "topic_query"@);
                assert(es@[2].0@ == "sources"@);
                assert(es@[3].0@ == "time_window"@);
                assert(es@[4].0@ == "policy"@);
                assert(es@[5].0@ == "analysis_profile"@);
                assert(es@[0].0@ != es@[1].0@);
                assert(es@[0].0@ != es@[2].0@);
                assert(es@[0].0@ != es@[3].0@);
                assert(es@[0].0@ != es@[4].0@);
                assert(es@[0].0@ != es@[5].0@);
                assert(es@[1].0@ != es@[2].0@);
                assert(es@[1].0@ != es@[3].0@);
                assert(es@[1].0@ != es@[4].0@);
                assert(es@[1].0@ != es@[5].0@);
                assert(es@[2].0@ != es@[3].0@);
                assert(es@[2].0@ != es@[4].0@);
                assert(es@[2].0@ != es@[5].0@);
                assert(es@[3].0@ != es@[4].0@);
                assert(es@[3].0@ != es@[5].0@);
                assert(es@[4].0@ != es@[5].0@);
            }
            let body = object_of(es);
            Ok(
                ToolPlan::Package {
                    method: HttpMethod::Post,
                    path: String::from_str("/packages"),
                    body: Some(body),
                    require_citations: false,
                },
            )
        },
        ToolName::PackageStatus => {
            let package_id = required_arg(&args, "package_id", "Missing package_id")?;
            Ok(
                ToolPlan::Package {
                    method: HttpMethod::Get,
                    path: String::from_str("/packages/").concat(package_id.as_str()),
                    body: None,
                    require_citations: false,
                },
            )
        },
        ToolName::PackageQuery => {
            let query = required_arg(&args, "query", "Missing query")?;
            let require_citations = match args.get("require_citations") {
                Some(v) => match v.as_bool() {
                    Some(b) => b,
                    None => true,
                },
                None => true,
            };
            let max_claims = count_arg(&args, "max_claims", 10);
            let mut entries = into_entries(args);
            let package_ids = take_array(&mut entries, "package_ids");
            if package_ids.len() == 0 {
                return Err(String::from_str("Missing package_ids"));
            }
            let es = vec![
                entry("query", JsonValue::Str(query)),
                entry("package_ids", JsonValue::Array(package_ids)),
                entry("max_claims", JsonValue::Number(JsonNumber::Unsigned(max_claims))),
                entry("require_citations", JsonValue::Bool(require_citations)),
            ];
            proof {
                assert(es@[0].0@ == "query"@);
                assert(es@[1].0@ == "package_ids"@);
                assert(es@[2].0@ == "max_claims"@);
                assert(es@[3].0@ == "require_citations"@);
                assert(es@[0].0@ != es@[1].0@);
                assert(es@[0].0@ != es@[2].0@);
                assert(es@[0].0@ != es@[3].0@);
                assert(es@[1].0@ != es@[2].0@);
                assert(es@[1].0@ != es@[3].0@);
                assert(es@[2].0@ != es@[3].0@);
            }
            let body = object_of(es);
            Ok(
                ToolPlan::Package {
                    method: HttpMethod::Post,
                    path: String::from_str("/query"),
                    body: Some(body),
                    require_citations,
                },
            )
        },
        ToolName::PackageRefresh => {
            let package_id = required_arg(&args, "package_id", "Missing package_id")?;
            let reason = required_arg(&args, "reason", "Missing reason")?;
            Ok(
                ToolPlan::Package {
                    method: HttpMethod::Post,
                    path: String::from_str("/packages/").concat(package_id.as_str()).concat(
                        "/refresh",
                    ),
                    body: Some(object1("reason", JsonValue::Str(reason))),
                    require_citations: false,
                },
            )
        },
        ToolName::PackageSearch => {
            let query = required_arg(&args, "query", "Missing query")?;
            let limit = count_arg(&args, "limit", 20);
            let path = String::from_str("/packages/search?q=").concat(
                encode_spaces(query.as_str()).as_str(),
            ).concat("&limit=").concat(decimal_text(limit).as_str());
            Ok(
                ToolPlan::Package {
                    method: HttpMethod::Get,
                    path,
                    body: None,
                    require_citations: false,
                },
            )
        },
        _ => {
            let package_id = required_arg(&args, "package_id", "Missing package_id")?;
            let snapshot_version = match args.get("snapshot_version") {
                Some(v) => match v.as_u64() {
                    Some(n) => n,
                    None => return Err(String::from_str("Missing snapshot_version")),
                },
                None => return Err(String::from_str("Missing snapshot_version")),
            };
            Ok(
                ToolPlan::Package {
                    method: HttpMethod::Post,
                    path: String::from_str("/packages/").concat(package_id.as_str()).concat(
                        "/publish",
                    ),
                    body: Some(
                        object1(
                            "snapshot_version",
                            JsonValue::Number(JsonNumber::Unsigned(snapshot_version)),
                        ),
                    ),
                    require_citations: false,
                },
            )
        },
    }
}

/// What a call of the named tool with `args` comes to: an answer, a call of
/// the package API, or why it was refused. `window` is the default time
/// window of a new package.
pub fn plan_tool(name: &str, args: JsonValue, window: TimeWindow) -> (r: Result<ToolPlan, String>)
    ensures
        tool_of(name@) is None ==> (r matches Err(m) && m@ == "Unknown tool: "@ + name@),
        tool_of(name@) is Some && !is_package_tool(tool_of(name@).unwrap()) ==> match local_reply(
            tool_of(name@).unwrap(),
            args,
        ) {
            Ok(s) => (r matches Ok(ToolPlan::Reply(x)) && x@ == s),
            Err(e) => (r matches Err(m) && m@ == e),
        },
        tool_of(name@) is Some && is_package_tool(tool_of(name@).unwrap()) ==> package_plan_ok(
            tool_of(name@).unwrap(),
            args,
            window,
            r,
        ),
{
    match ToolName::from_name(name) {
        None => Err(String::from_str("Unknown tool: ").concat(name)),
        Some(t) => {
            let package = match t {
                ToolName::PackageCreate | ToolName::PackageStatus | ToolName::PackageQuery
                | ToolName::PackageRefresh | ToolName::PackageSearch | ToolName::PackagePublish => true,
                _ => false,
            };
            if package {
                package_tool(t, args, window)
            } else {
                match local_tool(t, &args) {
                    Ok(text) => Ok(ToolPlan::Reply(text)),
                    Err(e) => Err(e),
                }
            }
        },
    }
}

/// What a package tool answers once the package API has: its failure, or
/// its result, which must pass the citation check where citations are
/// required.
pub fn finish_package_call(result: Result<JsonValue, String>, require_citations: bool) -> (r: Result<
    JsonValue,
    String,
>)
    ensures
        result matches Err(e) ==> (r matches Err(m) && m@ == e@),
        result matches Ok(v) ==> ((r is Ok <==> (!require_citations || citations_complete(v)))
            && (r matches Ok(x) ==> x == v)),
        result is Ok && require_citations && !(result->Ok_0 is Object) ==> (r matches Err(m)
            && m@ == not_object_message()),
        result is Ok && require_citations && result->Ok_0 is Object && citations_missing(
            result->Ok_0,
        ) ==> (r matches Err(m) && m@ == missing_citations_message()),
        result is Ok && require_citations && result->Ok_0 is Object && !citations_missing(
            result->Ok_0,
        ) && r is Err ==> exists|i: int|
            first_uncited(result->Ok_0, i) && r->Err_0@ == uncited_message(
                claim_id_of(query_claims(result->Ok_0)[i]).unwrap(),
            ),
{
    match result {
        Err(e) => Err(e),
        Ok(v) => match ensure_package_query_citations(&v, require_citations) {
            Ok(()) => Ok(v),
            Err(e) => {
                proof {
                    if v is Object && !citations_missing(v) {
                        let claim_id = e->claim_id;
                        let cl = query_claims(v);
                        let ct = query_citations(v);
                        let i = choose|i: int|
                            0 <= i < cl.len() && claim_id_of(cl[i]) == Some(claim_id@) && !is_cited(
                                claim_id@,
                                ct,
                            ) && forall|j: int| 0 <= j < i ==> !uncited_at(cl, ct, j);
                        assert(first_uncited(v, i));
                    }
                }
                Err(e.message())
            },
        },
    }
}

} // verus!
