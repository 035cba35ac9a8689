//! The catalog of tools: names, descriptors, the policy level each needs
//! and whether the budget guards it.

use vstd::prelude::*;

use crate::json::{entry, has_shape, json_str, JsonShape, JsonValue};
use crate::policy::PolicyMode;
use crate::text::{opt_str_view, same_text};

verus! {

/// The tools the server exposes.
#[derive(Clone, Copy, Debug, PartialEq, Eq, Structural)]
pub enum ToolName {
    Search,
    Profile,
    Thread,
    Tweet,
    Trends,
    XSearch,
    CollectionsList,
    Analyze,
    Article,
    CollectionsSearch,
    Bookmarks,
    PackageCreate,
    PackageStatus,
    PackageQuery,
    PackageRefresh,
    PackageSearch,
    PackagePublish,
    CacheClear,
    Watch,
    Diff,
    Report,
    Sentiment,
    Costs,
}

/// The tool a name stands for, where it stands for one.
pub open spec fn tool_of(name: Seq<char>) -> Option<ToolName> {
    if name == "xint_search"@ {
        Some(ToolName::Search)
    } else if name == "xint_profile"@ {
        Some(ToolName::Profile)
    } else if name == "xint_thread"@ {
        Some(ToolName::Thread)
    } else if name == "xint_tweet"@ {
        Some(ToolName::Tweet)
    } else if name == "xint_trends"@ {
        Some(ToolName::Trends)
    } else if name == "xint_xsearch"@ {
        Some(ToolName::XSearch)
    } else if name == "xint_collections_list"@ {
        Some(ToolName::CollectionsList)
    } else if name == "xint_analyze"@ {
        Some(ToolName::Analyze)
    } else if name == "xint_article"@ {
        Some(ToolName::Article)
    } else if name == "xint_collections_search"@ {
        Some(ToolName::CollectionsSearch)
    } else if name == "xint_bookmarks"@ {
        Some(ToolName::Bookmarks)
    } else if name == "xint_package_create"@ {
        Some(ToolName::PackageCreate)
    } else if name == "xint_package_status"@ {
        Some(ToolName::PackageStatus)
    } else if name == "xint_package_query"@ {
        Some(ToolName::PackageQuery)
    } else if name == "xint_package_refresh"@ {
        Some(ToolName::PackageRefresh)
    } else if name == "xint_package_search"@ {
        Some(ToolName::PackageSearch)
    } else if name == "xint_package_publish"@ {
        Some(ToolName::PackagePublish)
    } else if name == "xint_cache_clear"@ {
        Some(ToolName::CacheClear)
    } else if name == "xint_watch"@ {
        Some(ToolName::Watch)
    } else if name == "xint_diff"@ {
        Some(ToolName::Diff)
    } else if name == "xint_report"@ {
        Some(ToolName::Report)
    } else if name == "xint_sentiment"@ {
        Some(ToolName::Sentiment)
    } else if name == "xint_costs"@ {
        Some(ToolName::Costs)
    } else {
        None
    }
}

/// Every tool, in the order the catalog lists them.
pub open spec fn catalog() -> Seq<ToolName> {
    seq![
        ToolName::Search,
        ToolName::Profile,
        ToolName::Thread,
        ToolName::Tweet,
        ToolName::Trends,
        ToolName::XSearch,
        ToolName::CollectionsList,
        ToolName::Analyze,
        ToolName::Article,
        ToolName::CollectionsSearch,
        ToolName::Bookmarks,
        ToolName::PackageCreate,
        ToolName::PackageStatus,
        ToolName::PackageQuery,
        ToolName::PackageRefresh,
        ToolName::PackageSearch,
        ToolName::PackagePublish,
        ToolName::CacheClear,
        ToolName::Watch,
        ToolName::Diff,
        ToolName::Report,
        ToolName::Sentiment,
        ToolName::Costs,
    ]
}

impl ToolName {
    pub open spec fn spec_name(self) -> Seq<char> {
        match self {
            ToolName::Search => "xint_search"@,
            ToolName::Profile => "xint_profile"@,
            ToolName::Thread => "xint_thread"@,
            ToolName::Tweet => "xint_tweet"@,
            ToolName::Trends => "xint_trends"@,
            ToolName::XSearch => "xint_xsearch"@,
            ToolName::CollectionsList => "xint_collections_list"@,
            ToolName::Analyze => "xint_analyze"@,
            ToolName::Article => "xint_article"@,
            ToolName::CollectionsSearch => "xint_collections_search"@,
            ToolName::Bookmarks => "xint_bookmarks"@,
            ToolName::PackageCreate => "xint_package_create"@,
            ToolName::PackageStatus => "xint_package_status"@,
            ToolName::PackageQuery => "xint_package_query"@,
            ToolName::PackageRefresh => "xint_package_refresh"@,
            ToolName::PackageSearch => "xint_package_search"@,
            ToolName::PackagePublish => "xint_package_publish"@,
            ToolName::CacheClear => "xint_cache_clear"@,
            ToolName::Watch => "xint_watch"@,
            ToolName::Diff => "xint_diff"@,
            ToolName::Report => "xint_report"@,
            ToolName::Sentiment => "xint_sentiment"@,
            ToolName::Costs => "xint_costs"@,
        }
    }

    /// What the catalog says the tool does.
    pub open spec fn spec_description(self) -> Seq<char> {
        match self {
            ToolName::Search => "Search recent tweets on X/Twitter with advanced filters"@,
            ToolName::Profile => "Get recent tweets from a specific X/Twitter user"@,
            ToolName::Thread => "Get full conversation thread from a tweet"@,
            ToolName::Tweet => "Get a single tweet by ID"@,
            ToolName::Trends => "Get trending topics on X"@,
            ToolName::XSearch => "Search X using xAI's Grok x-search for AI-powered results"@,
            ToolName::CollectionsList => "List all xAI Collections knowledge base collections"@,
            ToolName::Analyze => "Analyze tweets or answer questions using Grok AI"@,
            ToolName::Article => "Fetch and extract content from a URL article. Also supports X tweet URLs - extracts linked article automatically. Use ai_prompt to analyze with Grok."@,
            ToolName::CollectionsSearch => "Search within an xAI Collections knowledge base"@,
            ToolName::Bookmarks => "Get your bookmarked tweets (requires OAuth)"@,
            ToolName::PackageCreate => "Create an agent memory package ingest job (v1 draft contract)"@,
            ToolName::PackageStatus => "Get package metadata and freshness (v1 draft contract)"@,
            ToolName::PackageQuery => "Query one or more packages and return claims with citations (v1 draft contract)"@,
            ToolName::PackageRefresh => "Trigger package refresh and create a new snapshot (v1 draft contract)"@,
            ToolName::PackageSearch => "Search private and shared package catalog (v1 draft contract)"@,
            ToolName::PackagePublish => "Publish a package snapshot to shared catalog (v1 draft contract)"@,
            ToolName::CacheClear => "Clear the xint search cache"@,
            ToolName::Watch => "Monitor X in real-time with polling. Returns new tweets since last check."@,
            ToolName::Diff => "Track follower/following changes for a user"@,
            ToolName::Report => "Generate an AI-powered intelligence report on a topic"@,
            ToolName::Sentiment => "Analyze sentiment of tweets"@,
            ToolName::Costs => "Get API cost tracking information"@,
        }
    }

    pub fn name(&self) -> (r: &'static str)
        ensures
            r@ == self.spec_name(),
    {
        match self {
            ToolName::Search => "xint_search",
            ToolName::Profile => "xint_profile",
            ToolName::Thread => "xint_thread",
            ToolName::Tweet => "xint_tweet",
            ToolName::Trends => "xint_trends",
            ToolName::XSearch => "xint_xsearch",
            ToolName::CollectionsList => "xint_collections_list",
            ToolName::Analyze => "xint_analyze",
            ToolName::Article => "xint_article",
            ToolName::CollectionsSearch => "xint_collections_search",
            ToolName::Bookmarks => "xint_bookmarks",
            ToolName::PackageCreate => "xint_package_create",
            ToolName::PackageStatus => "xint_package_status",
            ToolName::PackageQuery => "xint_package_query",
            ToolName::PackageRefresh => "xint_package_refresh",
            ToolName::PackageSearch => "xint_package_search",
            ToolName::PackagePublish => "xint_package_publish",
            ToolName::CacheClear => "xint_cache_clear",
            ToolName::Watch => "xint_watch",
            ToolName::Diff => "xint_diff",
            ToolName::Report => "xint_report",
            ToolName::Sentiment => "xint_sentiment",
            ToolName::Costs => "xint_costs",
        }
    }

    /// The tool called `name`.
    pub fn from_name(name: &str) -> (r: Option<ToolName>)
        ensures
            r == tool_of(name@),
    {
        if same_text(name, "xint_search") {
            Some(ToolName::Search)
        } else if same_text(name, "xint_profile") {
            Some(ToolName::Profile)
        } else if same_text(name, "xint_thread") {
            Some(ToolName::Thread)
        } else if same_text(name, "xint_tweet") {
            Some(ToolName::Tweet)
        } else if same_text(name, "xint_trends") {
            Some(ToolName::Trends)
        } else if same_text(name, "xint_xsearch") {
            Some(ToolName::XSearch)
        } else if same_text(name, "xint_collections_list") {
            Some(ToolName::CollectionsList)
        } else if same_text(name, "xint_analyze") {
            Some(ToolName::Analyze)
        } else if same_text(name, "xint_article") {
            Some(ToolName::Article)
        } else if same_text(name, "xint_collections_search") {
            Some(ToolName::CollectionsSearch)
        } else if same_text(name, "xint_bookmarks") {
            Some(ToolName::Bookmarks)
        } else if same_text(name, "xint_package_create") {
            Some(ToolName::PackageCreate)
        } else if same_text(name, "xint_package_status") {
            Some(ToolName::PackageStatus)
        } else if same_text(name, "xint_package_query") {
            Some(ToolName::PackageQuery)
        } else if same_text(name, "xint_package_refresh") {
            Some(ToolName::PackageRefresh)
        } else if same_text(name, "xint_package_search") {
            Some(ToolName::PackageSearch)
        } else if same_text(name, "xint_package_publish") {
            Some(ToolName::PackagePublish)
        } else if same_text(name, "xint_cache_clear") {
            Some(ToolName::CacheClear)
        } else if same_text(name, "xint_watch") {
            Some(ToolName::Watch)
        } else if same_text(name, "xint_diff") {
            Some(ToolName::Diff)
        } else if same_text(name, "xint_report") {
            Some(ToolName::Report)
        } else if same_text(name, "xint_sentiment") {
            Some(ToolName::Sentiment)
        } else if same_text(name, "xint_costs") {
            Some(ToolName::Costs)
        } else {
            None
        }
    }
}

/// The policy level a tool name requires: engagement for the tools that
/// change bookmark or follow state or publish to the shared catalog, and
/// read-only for every other name.
pub open spec fn required_policy_of(name: Seq<char>) -> PolicyMode {
    if name == "xint_bookmarks"@ || name == "xint_diff"@ || name == "xint_package_publish"@ {
        PolicyMode::Engagement
    } else {
        PolicyMode::ReadOnly
    }
}

/// The tools whose calls count against the daily budget: all but the
/// informational ones (collection listing, cache clearing, cost tracking,
/// package status).
pub open spec fn guarded_tools() -> Seq<Seq<char>> {
    seq![
        "xint_search"@,
        "xint_profile"@,
        "xint_thread"@,
        "xint_tweet"@,
        "xint_trends"@,
        "xint_xsearch"@,
        "xint_collections_search"@,
        "xint_analyze"@,
        "xint_article"@,
        "xint_bookmarks"@,
        "xint_watch"@,
        "xint_diff"@,
        "xint_report"@,
        "xint_sentiment"@,
        "xint_package_create"@,
        "xint_package_query"@,
        "xint_package_refresh"@,
        "xint_package_search"@,
        "xint_package_publish"@,
    ]
}

/// Whether calls of the named tool count against the budget.
pub open spec fn budget_guarded_name(name: Seq<char>) -> bool {
    guarded_tools().contains(name)
}

/// Every tool name requires read-only or engagement level, and engagement
/// exactly for the bookmark, follower-diff and package-publish tools.
pub proof fn lemma_required_policy_levels(name: Seq<char>)
    ensures
        required_policy_of(name) == PolicyMode::ReadOnly || required_policy_of(name)
            == PolicyMode::Engagement,
        required_policy_of(name) == PolicyMode::Engagement <==> (name == "xint_bookmarks"@ || name
            == "xint_diff"@ || name == "xint_package_publish"@),
{
}

/// A tool as the catalog describes it to clients: its name, what it does,
/// and a JSON schema of its arguments.
#[derive(Debug)]
pub struct MCPTool {
    pub name: String,
    pub description: String,
    pub input_schema: JsonValue,
}

/// `{"type": kind, "description": description}`
pub open spec fn typed_shape(kind: Seq<char>, description: Seq<char>) -> JsonShape {
    JsonShape::Object(
        seq![("type"@, JsonShape::Str(kind)), ("description"@, JsonShape::Str(description))],
    )
}

/// An array of the given strings.
pub open spec fn strings_shape(values: Seq<Seq<char>>) -> JsonShape {
    JsonShape::Array(values.map_values(|v: Seq<char>| JsonShape::Str(v)))
}

/// `{"type": kind, "enum": values}`, with a description where one is given.
pub open spec fn choice_shape(
    kind: Seq<char>,
    values: Seq<Seq<char>>,
    description: Option<Seq<char>>,
) -> JsonShape {
    let base = seq![("type"@, JsonShape::Str(kind)), ("enum"@, strings_shape(values))];
    JsonShape::Object(
        match description {
            Some(d) => base.push(("description"@, JsonShape::Str(d))),
            None => base,
        },
    )
}

/// An array of strings, as an argument schema.
pub open spec fn string_list_shape(description: Seq<char>) -> JsonShape {
    JsonShape::Object(
        seq![
            ("type"@, JsonShape::Str("array"@)),
            ("items"@, JsonShape::Object(seq![("type"@, JsonShape::Str("string"@))])),
            ("description"@, JsonShape::Str(description)),
        ],
    )
}

/// The sources a package ingests from.
pub open spec fn source_list_shape() -> JsonShape {
    JsonShape::Object(
        seq![
            ("type"@, JsonShape::Str("array"@)),
            (
                "items"@,
                choice_shape("string"@, seq!["x_api_v2"@, "xai_search"@, "web_article"@], None),
            ),
            ("description"@, JsonShape::Str("Data sources to ingest"@)),
        ],
    )
}

/// An instant in RFC 3339 form.
pub open spec fn instant_shape() -> JsonShape {
    JsonShape::Object(
        seq![("type"@, JsonShape::Str("string"@)), ("format"@, JsonShape::Str("date-time"@))],
    )
}

/// A time window with `from` and `to` instants.
pub open spec fn time_window_shape() -> JsonShape {
    object_schema_shape(
        seq![("from"@, instant_shape()), ("to"@, instant_shape())],
        Some(seq!["from"@, "to"@]),
    )
}

/// `{"type": "object", "properties": ..., "required": ...}`
pub open spec fn object_schema_shape(
    properties: Seq<(Seq<char>, JsonShape)>,
    required: Option<Seq<Seq<char>>>,
) -> JsonShape {
    let base = seq![
        ("type"@, JsonShape::Str("object"@)),
        ("properties"@, JsonShape::Object(properties)),
    ];
    JsonShape::Object(
        match required {
            Some(names) => base.push(("required"@, strings_shape(names))),
            None => base,
        },
    )
}

impl ToolName {
    /// The schema of the tool's arguments: each argument with its type and
    /// description, and those it requires.
    pub open spec fn spec_schema(self) -> JsonShape {
        object_schema_shape(self.spec_properties(), self.spec_required())
    }

    pub open spec fn spec_properties(self) -> Seq<(Seq<char>, JsonShape)> {
        match self {
            ToolName::Search => seq![
                ("query"@, typed_shape("string"@, "Search query"@)),
                ("limit"@, typed_shape("number"@, "Max results (default: 15)"@)),
                ("since"@, typed_shape("string"@, "Time filter: 1h, 1d, 7d"@)),
                ("sort"@, choice_shape("string"@, seq!["likes"@, "retweets"@, "recent"@], Some("Sort order"@))),
            ],
            ToolName::Profile => seq![
                ("username"@, typed_shape("string"@, "Twitter username (without @)"@)),
                ("count"@, typed_shape("number"@, "Number of tweets (default: 20)"@)),
            ],
            ToolName::Thread => seq![
                ("tweet_id"@, typed_shape("string"@, "Tweet ID or URL"@)),
                ("pages"@, typed_shape("number"@, "Pages to fetch (default: 2)"@)),
            ],
            ToolName::Tweet => seq![
                ("tweet_id"@, typed_shape("string"@, "Tweet ID or URL"@)),
            ],
            ToolName::Trends => seq![
                ("location"@, typed_shape("string"@, "Location or WOEID (default: worldwide)"@)),
                ("limit"@, typed_shape("number"@, "Number of trends (default: 20)"@)),
            ],
            ToolName::XSearch => seq![
                ("query"@, typed_shape("string"@, "Search query"@)),
                ("limit"@, typed_shape("number"@, "Max results (default: 10)"@)),
            ],
            ToolName::CollectionsList => seq![],
            ToolName::Analyze => seq![
                ("query"@, typed_shape("string"@, "Question or analysis request"@)),
                ("model"@, typed_shape("string"@, "Grok model (grok-3-mini, grok-3)"@)),
            ],
            ToolName::Article => seq![
                ("url"@, typed_shape("string"@, "Article URL or X tweet URL to fetch"@)),
                ("full"@, typed_shape("boolean"@, "Fetch full content (default: false)"@)),
                ("ai_prompt"@, typed_shape("string"@, "Analyze article with Grok AI - ask a question about the content"@)),
            ],
            ToolName::CollectionsSearch => seq![
                ("collection_id"@, typed_shape("string"@, "Collection ID to search in"@)),
                ("query"@, typed_shape("string"@, "Search query"@)),
                ("limit"@, typed_shape("number"@, "Max results (default: 5)"@)),
            ],
            ToolName::Bookmarks => seq![
                ("limit"@, typed_shape("number"@, "Max bookmarks (default: 20)"@)),
                ("since"@, typed_shape("string"@, "Filter by recency: 1h, 1d, 7d"@)),
            ],
            ToolName::PackageCreate => seq![
                ("name"@, typed_shape("string"@, "Human-readable package name"@)),
                ("topic_query"@, typed_shape("string"@, "Topic query used for ingest and refresh"@)),
                ("sources"@, source_list_shape()),
                ("time_window"@, time_window_shape()),
                ("policy"@, choice_shape("string"@, seq!["private"@, "shared_candidate"@], None)),
                ("analysis_profile"@, choice_shape("string"@, seq!["summary"@, "analyst"@, "forensic"@], None)),
            ],
            ToolName::PackageStatus => seq![
                ("package_id"@, typed_shape("string"@, "Package identifier (pkg_*)"@)),
            ],
            ToolName::PackageQuery => seq![
                ("query"@, typed_shape("string"@, "Question to ask over package memory"@)),
                ("package_ids"@, string_list_shape("Package IDs included in retrieval scope"@)),
                ("max_claims"@, typed_shape("number"@, "Maximum number of claims (default: 10)"@)),
                ("require_citations"@, typed_shape("boolean"@, "Require citations in response (default: true)"@)),
            ],
            ToolName::PackageRefresh => seq![
                ("package_id"@, typed_shape("string"@, "Package identifier"@)),
                ("reason"@, choice_shape("string"@, seq!["ttl"@, "manual"@, "event"@], None)),
            ],
            ToolName::PackageSearch => seq![
                ("query"@, typed_shape("string"@, "Search query for package catalog"@)),
                ("limit"@, typed_shape("number"@, "Max packages to return (default: 20)"@)),
            ],
            ToolName::PackagePublish => seq![
                ("package_id"@, typed_shape("string"@, "Package identifier"@)),
                ("snapshot_version"@, typed_shape("number"@, "Snapshot version to publish"@)),
            ],
            ToolName::CacheClear => seq![],
            ToolName::Watch => seq![
                ("query"@, typed_shape("string"@, "Search query to monitor"@)),
                ("limit"@, typed_shape("number"@, "Max tweets per check (default: 10)"@)),
                ("since"@, typed_shape("string"@, "Time window: 1h, 1d (default: 1h)"@)),
            ],
            ToolName::Diff => seq![
                ("username"@, typed_shape("string"@, "Twitter username to track"@)),
                ("following"@, typed_shape("boolean"@, "Track following instead of followers (default: false)"@)),
            ],
            ToolName::Report => seq![
                ("topic"@, typed_shape("string"@, "Report topic or query"@)),
                ("sentiment"@, typed_shape("boolean"@, "Include sentiment analysis (default: false)"@)),
                ("model"@, typed_shape("string"@, "Grok model (default: grok-3-mini)"@)),
                ("pages"@, typed_shape("number"@, "Search pages (default: 2)"@)),
            ],
            ToolName::Sentiment => seq![
                ("tweets"@, typed_shape("array"@, "Array of tweets to analyze"@)),
            ],
            ToolName::Costs => seq![
                ("period"@, choice_shape("string"@, seq!["today"@, "week"@, "month"@, "all"@], Some("Time period (default: today)"@))),
            ],
        }
    }

    pub open spec fn spec_required(self) -> Option<Seq<Seq<char>>> {
        match self {
            ToolName::Search => Some(seq!["query"@]),
            ToolName::Profile => Some(seq!["username"@]),
            ToolName::Thread => Some(seq!["tweet_id"@]),
            ToolName::Tweet => Some(seq!["tweet_id"@]),
            ToolName::Trends => None,
            ToolName::XSearch => Some(seq!["query"@]),
            ToolName::CollectionsList => None,
            ToolName::Analyze => Some(seq!["query"@]),
            ToolName::Article => Some(seq!["url"@]),
            ToolName::CollectionsSearch => Some(seq!["collection_id"@, "query"@]),
            ToolName::Bookmarks => None,
            ToolName::PackageCreate => Some(seq!["name"@, "topic_query"@, "sources"@, "time_window"@, "policy"@, "analysis_profile"@]),
            ToolName::PackageStatus => Some(seq!["package_id"@]),
            ToolName::PackageQuery => Some(seq!["query"@, "package_ids"@]),
            ToolName::PackageRefresh => Some(seq!["package_id"@, "reason"@]),
            ToolName::PackageSearch => Some(seq!["query"@]),
            ToolName::PackagePublish => Some(seq!["package_id"@, "snapshot_version"@]),
            ToolName::CacheClear => None,
            ToolName::Watch => Some(seq!["query"@]),
            ToolName::Diff => Some(seq!["username"@]),
            ToolName::Report => Some(seq!["topic"@]),
            ToolName::Sentiment => Some(seq!["tweets"@]),
            ToolName::Costs => None,
        }
    }
}

fn typed(kind: &str, description: &str) -> (r: JsonValue)
    ensures
        has_shape(r, typed_shape(kind@, description@)),
{
    proof {
        reveal_with_fuel(has_shape, 3);
    }
    JsonValue::Object(
        vec![entry("type", json_str(kind)), entry("description", json_str(description))],
    )
}

fn string_array(values: Vec<&str>, Ghost(names): Ghost<Seq<Seq<char>>>) -> (r: JsonValue)
    requires
        values@.len() == names.len(),
        forall|i: int| 0 <= i < names.len() ==> (#[trigger] values@[i])@ == names[i],
    ensures
        has_shape(r, strings_shape(names)),
{
    proof {
        reveal_with_fuel(has_shape, 3);
    }
    let mut items: Vec<JsonValue> = Vec::new();
    let mut i: usize = 0;
    while i < values.len()
        invariant
            i <= values@.len(),
            values@.len() == names.len(),
            forall|j: int| 0 <= j < names.len() ==> (#[trigger] values@[j])@ == names[j],
            items@.len() == i,
            forall|j: int| 0 <= j < i ==> has_shape(#[trigger] items@[j], JsonShape::Str(names[j])),
        decreases values@.len() - i,
    {
        items.push(json_str(values[i]));
        i += 1;
    }
    let r = JsonValue::Array(items);
    assert forall|j: int| 0 <= j < names.len() implies #[trigger] has_shape(
        items@[j],
        strings_shape(names)->Array_0[j],
    ) by {
        assert(strings_shape(names)->Array_0[j] == JsonShape::Str(names[j]));
    }
    r
}

fn choice(
    kind: &str,
    values: Vec<&str>,
    Ghost(names): Ghost<Seq<Seq<char>>>,
    description: Option<&str>,
) -> (r: JsonValue)
    requires
        values@.len() == names.len(),
        forall|i: int| 0 <= i < names.len() ==> (#[trigger] values@[i])@ == names[i],
    ensures
        has_shape(r, choice_shape(kind@, names, opt_str_view(description))),
{
    proof {
        reveal_with_fuel(has_shape, 3);
    }
    let list = string_array(values, Ghost(names));
    let mut fields = vec![entry("type", json_str(kind)), entry("enum", list)];
    match description {
        Some(d) => fields.push(entry("description", json_str(d))),
        None => {},
    }
    JsonValue::Object(fields)
}

fn string_list(description: &str) -> (r: JsonValue)
    ensures
        has_shape(r, string_list_shape(description@)),
{
    proof {
        reveal_with_fuel(has_shape, 3);
    }
    let items = JsonValue::Object(vec![entry("type", json_str("string"))]);
    JsonValue::Object(
        vec![
            entry("type", json_str("array")),
            entry("items", items),
            entry("description", json_str(description)),
        ],
    )
}

fn source_list() -> (r: JsonValue)
    ensures
        has_shape(r, source_list_shape()),
{
    proof {
        reveal_with_fuel(has_shape, 3);
    }
    let ghost values = seq!["x_api_v2"@, "xai_search"@, "web_article"@];
    let items = choice(
        "string",
        vec!["x_api_v2", "xai_search", "web_article"],
        Ghost(values),
        None,
    );
    JsonValue::Object(
        vec![
            entry("type", json_str("array")),
            entry("items", items),
            entry("description", json_str("Data sources to ingest")),
        ],
    )
}

fn instant() -> (r: JsonValue)
    ensures
        has_shape(r, instant_shape()),
{
    proof {
        reveal_with_fuel(has_shape, 3);
    }
    JsonValue::Object(
        vec![entry("type", json_str("string")), entry("format", json_str("date-time"))],
    )
}

fn time_window_schema() -> (r: JsonValue)
    ensures
        has_shape(r, time_window_shape()),
{
    let ghost properties = seq![("from"@, instant_shape()), ("to"@, instant_shape())];
    let ghost required = Some(seq!["from"@, "to"@]);
    object_schema(
        vec![entry("from", instant()), entry("to", instant())],
        Ghost(properties),
        Some(vec!["from", "to"]),
        Ghost(required),
    )
}

fn object_schema(
    properties: Vec<(String, JsonValue)>,
    Ghost(shapes): Ghost<Seq<(Seq<char>, JsonShape)>>,
    required: Option<Vec<&str>>,
    Ghost(names): Ghost<Option<Seq<Seq<char>>>>,
) -> (r: JsonValue)
    requires
        properties@.len() == shapes.len(),
        forall|i: int|
            0 <= i < shapes.len() ==> (#[trigger] properties@[i]).0@ == shapes[i].0 && has_shape(
                properties@[i].1,
                shapes[i].1,
            ),
        required is None <==> names is None,
        required matches Some(v) ==> v@.len() == names.unwrap().len(),
        required matches Some(v) ==> forall|i: int|
            0 <= i < v@.len() ==> (#[trigger] v@[i])@ == names.unwrap()[i],
    ensures
        has_shape(r, object_schema_shape(shapes, names)),
{
    proof {
        reveal_with_fuel(has_shape, 3);
    }
    let props = JsonValue::Object(properties);
    assert(has_shape(props, JsonShape::Object(shapes)));
    let mut fields = vec![entry("type", json_str("object")), entry("properties", props)];
    match required {
        Some(list) => fields.push(entry("required", string_array(list, Ghost(names.unwrap())))),
        None => {},
    }
    JsonValue::Object(fields)
}

/// The schema of the tool's arguments.
#[verifier::rlimit(50)]
fn schema_for(t: ToolName) -> (r: JsonValue)
    ensures
        has_shape(r, t.spec_schema()),
{
    match t {
        ToolName::Search => {
            let ghost sort_values = seq!["likes"@, "retweets"@, "recent"@];
            let sort = choice(
                "string",
                vec!["likes", "retweets", "recent"],
                Ghost(sort_values),
                Some("Sort order"),
            );
            object_schema(
                vec![
                    entry("query", typed("string", "Search query")),
                    entry("limit", typed("number", "Max results (default: 15)")),
                    entry("since", typed("string", "Time filter: 1h, 1d, 7d")),
                    entry("sort", sort),
                ],
                Ghost(t.spec_properties()),
                Some(vec!["query"]),
                Ghost(t.spec_required()),
            )
        },
        ToolName::Profile => {
            object_schema(
                vec![
                    entry("username", typed("string", "Twitter username (without @)")),
                    entry("count", typed("number", "Number of tweets (default: 20)")),
                ],
                Ghost(t.spec_properties()),
                Some(vec!["username"]),
                Ghost(t.spec_required()),
            )
        },
        ToolName::Thread => {
            object_schema(
                vec![
                    entry("tweet_id", typed("string", "Tweet ID or URL")),
                    entry("pages", typed("number", "Pages to fetch (default: 2)")),
                ],
                Ghost(t.spec_properties()),
                Some(vec!["tweet_id"]),
                Ghost(t.spec_required()),
            )
        },
        ToolName::Tweet => {
            object_schema(
                vec![
                    entry("tweet_id", typed("string", "Tweet ID or URL")),
                ],
                Ghost(t.spec_properties()),
                Some(vec!["tweet_id"]),
                Ghost(t.spec_required()),
            )
        },
        ToolName::Trends => {
            object_schema(
                vec![
                    entry("location", typed("string", "Location or WOEID (default: worldwide)")),
                    entry("limit", typed("number", "Number of trends (default: 20)")),
                ],
                Ghost(t.spec_properties()),
                None,
                Ghost(t.spec_required()),
            )
        },
        ToolName::XSearch => {
            object_schema(
                vec![
                    entry("query", typed("string", "Search query")),
                    entry("limit", typed("number", "Max results (default: 10)")),
                ],
                Ghost(t.spec_properties()),
                Some(vec!["query"]),
                Ghost(t.spec_required()),
            )
        },
        ToolName::CollectionsList => {
            object_schema(
                vec![],
                Ghost(t.spec_properties()),
                None,
                Ghost(t.spec_required()),
            )
        },
        ToolName::Analyze => {
            object_schema(
                vec![
                    entry("query", typed("string", "Question or analysis request")),
                    entry("model", typed("string", "Grok model (grok-3-mini, grok-3)")),
                ],
                Ghost(t.spec_properties()),
                Some(vec!["query"]),
                Ghost(t.spec_required()),
            )
        },
        ToolName::Article => {
            object_schema(
                vec![
                    entry("url", typed("string", "Article URL or X tweet URL to fetch")),
                    entry("full", typed("boolean", "Fetch full content (default: false)")),
                    entry("ai_prompt", typed("string", "Analyze article with Grok AI - ask a question about the content")),
                ],
                Ghost(t.spec_properties()),
                Some(vec!["url"]),
                Ghost(t.spec_required()),
            )
        },
        ToolName::CollectionsSearch => {
            object_schema(
                vec![
                    entry("collection_id", typed("string", "Collection ID to search in")),
                    entry("query", typed("string", "Search query")),
                    entry("limit", typed("number", "Max results (default: 5)")),
                ],
                Ghost(t.spec_properties()),
                Some(vec!["collection_id", "query"]),
                Ghost(t.spec_required()),
            )
        },
        ToolName::Bookmarks => {
            object_schema(
                vec![
                    entry("limit", typed("number", "Max bookmarks (default: 20)")),
                    entry("since", typed("string", "Filter by recency: 1h, 1d, 7d")),
                ],
                Ghost(t.spec_properties()),
                None,
                Ghost(t.spec_required()),
            )
        },
        ToolName::PackageCreate => {
            let ghost policy_values = seq!["private"@, "shared_candidate"@];
            let policy = choice(
                "string",
                vec!["private", "shared_candidate"],
                Ghost(policy_values),
                None,
            );
            let ghost analysis_profile_values = seq!["summary"@, "analyst"@, "forensic"@];
            let analysis_profile = choice(
                "string",
                vec!["summary", "analyst", "forensic"],
                Ghost(analysis_profile_values),
                None,
            );
            object_schema(
                vec![
                    entry("name", typed("string", "Human-readable package name")),
                    entry("topic_query", typed("string", "Topic query used for ingest and refresh")),
                    entry("sources", source_list()),
                    entry("time_window", time_window_schema()),
                    entry("policy", policy),
                    entry("analysis_profile", analysis_profile),
                ],
                Ghost(t.spec_properties()),
                Some(vec!["name", "topic_query", "sources", "time_window", "policy", "analysis_profile"]),
                Ghost(t.spec_required()),
            )
        },
        ToolName::PackageStatus => {
            object_schema(
                vec![
                    entry("package_id", typed("string", "Package identifier (pkg_*)")),
                ],
                Ghost(t.spec_properties()),
                Some(vec!["package_id"]),
                Ghost(t.spec_required()),
            )
        },
        ToolName::PackageQuery => {
            object_schema(
                vec![
                    entry("query", typed("string", "Question to ask over package memory")),
                    entry("package_ids", string_list("Package IDs included in retrieval scope")),
                    entry("max_claims", typed("number", "Maximum number of claims (default: 10)")),
                    entry("require_citations", typed("boolean", "Require citations in response (default: true)")),
                ],
                Ghost(t.spec_properties()),
                Some(vec!["query", "package_ids"]),
                Ghost(t.spec_required()),
            )
        },
        ToolName::PackageRefresh => {
            let ghost reason_values = seq!["ttl"@, "manual"@, "event"@];
            let reason = choice(
                "string",
                vec!["ttl", "manual", "event"],
                Ghost(reason_values),
                None,
            );
            object_schema(
                vec![
                    entry("package_id", typed("string", "Package identifier")),
                    entry("reason", reason),
                ],
                Ghost(t.spec_properties()),
                Some(vec!["package_id", "reason"]),
                Ghost(t.spec_required()),
            )
        },
        ToolName::PackageSearch => {
            object_schema(
                vec![
                    entry("query", typed("string", "Search query for package catalog")),
                    entry("limit", typed("number", "Max packages to return (default: 20)")),
                ],
                Ghost(t.spec_properties()),
                Some(vec!["query"]),
                Ghost(t.spec_required()),
            )
        },
        ToolName::PackagePublish => {
            object_schema(
                vec![
                    entry("package_id", typed("string", "Package identifier")),
                    entry("snapshot_version", typed("number", "Snapshot version to publish")),
                ],
                Ghost(t.spec_properties()),
                Some(vec!["package_id", "snapshot_version"]),
                Ghost(t.spec_required()),
            )
        },
        ToolName::CacheClear => {
            object_schema(
                vec![],
                Ghost(t.spec_properties()),
                None,
                Ghost(t.spec_required()),
            )
        },
        ToolName::Watch => {
            object_schema(
                vec![
                    entry("query", typed("string", "Search query to monitor")),
                    entry("limit", typed("number", "Max tweets per check (default: 10)")),
                    entry("since", typed("string", "Time window: 1h, 1d (default: 1h)")),
                ],
                Ghost(t.spec_properties()),
                Some(vec!["query"]),
                Ghost(t.spec_required()),
            )
        },
        ToolName::Diff => {
            object_schema(
                vec![
                    entry("username", typed("string", "Twitter username to track")),
                    entry("following", typed("boolean", "Track following instead of followers (default: false)")),
                ],
                Ghost(t.spec_properties()),
                Some(vec!["username"]),
                Ghost(t.spec_required()),
            )
        },
        ToolName::Report => {
            object_schema(
                vec![
                    entry("topic", typed("string", "Report topic or query")),
                    entry("sentiment", typed("boolean", "Include sentiment analysis (default: false)")),
                    entry("model", typed("string", "Grok model (default: grok-3-mini)")),
                    entry("pages", typed("number", "Search pages (default: 2)")),
                ],
                Ghost(t.spec_properties()),
                Some(vec!["topic"]),
                Ghost(t.spec_required()),
            )
        },
        ToolName::Sentiment => {
            object_schema(
                vec![
                    entry("tweets", typed("array", "Array of tweets to analyze")),
                ],
                Ghost(t.spec_properties()),
                Some(vec!["tweets"]),
                Ghost(t.spec_required()),
            )
        },
        ToolName::Costs => {
            let ghost period_values = seq!["today"@, "week"@, "month"@, "all"@];
            let period = choice(
                "string",
                vec!["today", "week", "month", "all"],
                Ghost(period_values),
                Some("Time period (default: today)"),
            );
            object_schema(
                vec![
                    entry("period", period),
                ],
                Ghost(t.spec_properties()),
                None,
                Ghost(t.spec_required()),
            )
        },
    }
}

fn tool(t: ToolName, description: &str) -> (r: MCPTool)
    requires
        description@ == t.spec_description(),
    ensures
        r.name@ == t.spec_name(),
        r.description@ == t.spec_description(),
        has_shape(r.input_schema, t.spec_schema()),
{
    MCPTool {
        name: String::from_str(t.name()),
        description: String::from_str(description),
        input_schema: schema_for(t),
    }
}

/// The descriptor of every tool, in catalog order.
pub fn get_tools() -> (r: Vec<MCPTool>)
    ensures
        r@.len() == catalog().len(),
        forall|i: int|
            0 <= i < r@.len() ==> {
                &&& (#[trigger] r@[i]).name@ == catalog()[i].spec_name()
                &&& r@[i].description@ == catalog()[i].spec_description()
                &&& has_shape(r@[i].input_schema, catalog()[i].spec_schema())
            },
{
    let mut tools: Vec<MCPTool> = Vec::new();
    tools.push(tool(ToolName::Search, "Search recent tweets on X/Twitter with advanced filters"));
    tools.push(tool(ToolName::Profile, "Get recent tweets from a specific X/Twitter user"));
    tools.push(tool(ToolName::Thread, "Get full conversation thread from a tweet"));
    tools.push(tool(ToolName::Tweet, "Get a single tweet by ID"));
    tools.push(tool(ToolName::Trends, "Get trending topics on X"));
    tools.push(tool(ToolName::XSearch, "Search X using xAI's Grok x-search for AI-powered results"));
    tools.push(tool(ToolName::CollectionsList, "List all xAI Collections knowledge base collections"));
    tools.push(tool(ToolName::Analyze, "Analyze tweets or answer questions using Grok AI"));
    tools.push(tool(ToolName::Article, "Fetch and extract content from a URL article. Also supports X tweet URLs - extracts linked article automatically. Use ai_prompt to analyze with Grok."));
    tools.push(tool(ToolName::CollectionsSearch, "Search within an xAI Collections knowledge base"));
    tools.push(tool(ToolName::Bookmarks, "Get your bookmarked tweets (requires OAuth)"));
    tools.push(tool(ToolName::PackageCreate, "Create an agent memory package ingest job (v1 draft contract)"));
    tools.push(tool(ToolName::PackageStatus, "Get package metadata and freshness (v1 draft contract)"));
    tools.push(tool(ToolName::PackageQuery, "Query one or more packages and return claims with citations (v1 draft contract)"));
    tools.push(tool(ToolName::PackageRefresh, "Trigger package refresh and create a new snapshot (v1 draft contract)"));
    tools.push(tool(ToolName::PackageSearch, "Search private and shared package catalog (v1 draft contract)"));
    tools.push(tool(ToolName::PackagePublish, "Publish a package snapshot to shared catalog (v1 draft contract)"));
    tools.push(tool(ToolName::CacheClear, "Clear the xint search cache"));
    tools.push(tool(ToolName::Watch, "Monitor X in real-time with polling. Returns new tweets since last check."));
    tools.push(tool(ToolName::Diff, "Track follower/following changes for a user"));
    tools.push(tool(ToolName::Report, "Generate an AI-powered intelligence report on a topic"));
    tools.push(tool(ToolName::Sentiment, "Analyze sentiment of tweets"));
    tools.push(tool(ToolName::Costs, "Get API cost tracking information"));
    tools
}

} // verus!
