use xint_mcp::{
    ensure_package_query_citations, finish_package_call, interpret_package_response,
    normalize_setting,
    package_response_outcome, plan_tool, prepare_package_request, CitationError, HttpMethod,
    JsonValue, PackageApiConfig, TimeWindow, ToolPlan,
};

fn s(x: &str) -> JsonValue {
    JsonValue::Str(x.to_string())
}

fn obj(entries: Vec<(&str, JsonValue)>) -> JsonValue {
    JsonValue::Object(entries.into_iter().map(|(k, v)| (k.to_string(), v)).collect())
}

fn arr(items: Vec<JsonValue>) -> JsonValue {
    JsonValue::Array(items)
}

fn window() -> TimeWindow {
    TimeWindow { from: "2026-01-01T00:00:00Z".to_string(), to: "2026-01-02T00:00:00Z".to_string() }
}

fn text_of(v: &JsonValue, key: &str) -> Option<String> {
    v.get(key).and_then(|x| x.as_str()).map(|x| x.to_string())
}

#[test]
fn package_create_contract_request_includes_headers_and_payload() {
    let config = PackageApiConfig::from_settings(
        Some("http://127.0.0.1:8787/v1"),
        Some("xck_contract"),
        Some("ws_contract"),
        None,
    );
    let args = obj(vec![
        ("name", s("Contract package")),
        ("topic_query", s("ai agents")),
        ("sources", arr(vec![s("x_api_v2")])),
        (
            "time_window",
            obj(vec![("from", s("2026-01-01T00:00:00.000Z")), ("to", s("2026-01-02T00:00:00.000Z"))]),
        ),
        ("policy", s("private")),
        ("analysis_profile", s("summary")),
    ]);
    let plan = plan_tool("xint_package_create", args, window()).expect("package create call");
    let (method, path, body) = match plan {
        ToolPlan::Package { method, path, body, require_citations } => {
            assert!(!require_citations);
            (method, path, body)
        }
        ToolPlan::Reply(_) => panic!("expected a package call"),
    };
    let req = prepare_package_request(&config, method, &path, body).unwrap();
    assert_eq!(req.method, HttpMethod::Post);
    assert_eq!(req.url, "http://127.0.0.1:8787/v1/packages");
    assert_eq!(req.authorization.as_deref(), Some("Bearer xck_contract"));
    assert_eq!(req.workspace_id.as_deref(), Some("ws_contract"));
    let body = req.body.expect("payload");
    assert_eq!(text_of(&body, "name").as_deref(), Some("Contract package"));
    assert_eq!(text_of(&body, "topic_query").as_deref(), Some("ai agents"));
    assert_eq!(text_of(&body, "analysis_profile").as_deref(), Some("summary"));
    let window = body.get("time_window").unwrap();
    assert_eq!(text_of(window, "from").as_deref(), Some("2026-01-01T00:00:00.000Z"));

    let response = obj(vec![("package_id", s("pkg_123")), ("status", s("queued"))]);
    let result = package_response_outcome(
        202,
        r#"{"package_id":"pkg_123","status":"queued"}"#,
        Ok(response),
        &config.upgrade_url,
    )
    .unwrap();
    assert_eq!(text_of(&result, "package_id").as_deref(), Some("pkg_123"));
}

#[test]
fn quota_error_includes_upgrade_url() {
    let config = PackageApiConfig::from_settings(
        Some("http://127.0.0.1:8787/v1"),
        None,
        None,
        Some("https://xint.dev/pricing?src=contract-test"),
    );
    let body = r#"{"code":"QUOTA_EXCEEDED","error":"Package limit reached for current plan."}"#;
    let parsed = obj(vec![
        ("code", s("QUOTA_EXCEEDED")),
        ("error", s("Package limit reached for current plan.")),
    ]);
    let err = package_response_outcome(402, body, Ok(parsed), &config.upgrade_url)
        .expect_err("expected quota error");
    assert!(err.contains("QUOTA_EXCEEDED"));
    assert!(err.contains("Upgrade: https://xint.dev/pricing?src=contract-test"));
    assert_eq!(
        err,
        "Package API 402 [QUOTA_EXCEEDED]: Package limit reached for current plan.. Upgrade: https://xint.dev/pricing?src=contract-test"
    );
}

#[test]
fn package_query_requires_citations_when_requested() {
    let args = obj(vec![
        ("query", s("what changed?")),
        ("package_ids", arr(vec![s("pkg_123")])),
        ("require_citations", JsonValue::Bool(true)),
    ]);
    let plan = plan_tool("xint_package_query", args, window()).unwrap();
    let require = match plan {
        ToolPlan::Package { method, path, require_citations, .. } => {
            assert_eq!(method, HttpMethod::Post);
            assert_eq!(path, "/query");
            require_citations
        }
        ToolPlan::Reply(_) => panic!("expected a package call"),
    };
    let result = obj(vec![
        ("answer", s("No citations")),
        ("claims", arr(vec![obj(vec![("claim_id", s("claim_1")), ("text", s("example"))])])),
        ("citations", arr(vec![])),
    ]);
    let err = finish_package_call(Ok(result), require)
        .expect_err("expected citation validation failure");
    assert!(err.contains("missing citations"));
}

#[test]
fn quota_error_with_default_upgrade_page() {
    let config = PackageApiConfig::from_settings(None, None, None, Some("   "));
    assert_eq!(config.upgrade_url, "https://xint.dev/pricing");
    let parsed = obj(vec![("code", s("QUOTA_EXCEEDED")), ("error", s("Package limit reached."))]);
    let err = package_response_outcome(402, "", Ok(parsed), &config.upgrade_url).unwrap_err();
    assert_eq!(
        err,
        "Package API 402 [QUOTA_EXCEEDED]: Package limit reached.. Upgrade: https://xint.dev/pricing"
    );
}

#[test]
fn non_billing_error_has_no_upgrade_hint() {
    let parsed = obj(vec![("code", s("NOT_FOUND")), ("error", s("No such package"))]);
    let err = package_response_outcome(404, "", Ok(parsed), "https://u").unwrap_err();
    assert_eq!(err, "Package API 404 [NOT_FOUND]: No such package");
    let err = package_response_outcome(403, "[]", Ok(arr(vec![])), "https://u").unwrap_err();
    assert_eq!(err, "Package API 403 [UNKNOWN]: Package API request failed");
    for code in ["PLAN_REQUIRED", "FEATURE_NOT_IN_PLAN"] {
        let parsed = obj(vec![("code", s(code))]);
        let err = package_response_outcome(402, "", Ok(parsed), "https://u").unwrap_err();
        assert!(err.ends_with(". Upgrade: https://u"));
    }
}

#[test]
fn empty_success_body_is_empty_object() {
    let v = package_response_outcome(200, "", Err("EOF".to_string()), "https://u").unwrap();
    assert!(matches!(v, JsonValue::Object(ref e) if e.is_empty()));
    let v = package_response_outcome(204, "  \n ", Err("EOF".to_string()), "https://u").unwrap();
    assert!(matches!(v, JsonValue::Object(ref e) if e.is_empty()));
}

#[test]
fn non_json_error_body_is_truncated() {
    let body = "x".repeat(400);
    let err = package_response_outcome(500, &body, Err("bad".to_string()), "https://u").unwrap_err();
    assert_eq!(err, format!("Package API 500: {}", "x".repeat(300)));
    let err = package_response_outcome(500, "oops", Err("bad".to_string()), "https://u").unwrap_err();
    assert_eq!(err, "Package API 500: oops");
}

#[test]
fn undecodable_success_body_is_an_error() {
    let err = package_response_outcome(200, "not json", Err("expected value".to_string()), "u")
        .unwrap_err();
    assert_eq!(err, "Package API JSON decode failed: expected value");
}

#[test]
fn missing_base_url_fails_before_any_request() {
    let config = PackageApiConfig::from_settings(Some("  "), Some("k"), None, None);
    let err = prepare_package_request(&config, HttpMethod::Get, "/packages/x", None).unwrap_err();
    assert!(err.starts_with("XINT_PACKAGE_API_BASE_URL not set."));
}

#[test]
fn base_url_trailing_slashes_are_dropped() {
    let config = PackageApiConfig::from_settings(Some(" http://h/v1// "), None, Some(""), None);
    let req = prepare_package_request(&config, HttpMethod::Get, "/query", None).unwrap();
    assert_eq!(req.url, "http://h/v1/query");
    assert!(req.authorization.is_none());
    assert!(req.workspace_id.is_none());
}

#[test]
fn settings_are_trimmed_and_blank_is_absent() {
    assert_eq!(normalize_setting(Some("  abc ")).as_deref(), Some("abc"));
    assert_eq!(normalize_setting(Some("   ")), None);
    assert_eq!(normalize_setting(None), None);
}

#[test]
fn citations_pass_when_every_claim_is_cited() {
    let result = obj(vec![
        ("claims", arr(vec![obj(vec![("claim_id", s("c1"))])])),
        ("citations", arr(vec![obj(vec![("claim_id", s("c1")), ("url", s("https://x"))])])),
    ]);
    assert!(ensure_package_query_citations(&result, true).is_ok());
    let missing = obj(vec![
        ("claims", arr(vec![obj(vec![("claim_id", s("c1"))])])),
        ("citations", arr(vec![])),
    ]);
    assert!(matches!(
        ensure_package_query_citations(&missing, true),
        Err(CitationError::MissingCitations)
    ));
    assert!(ensure_package_query_citations(&missing, false).is_ok());
    assert!(ensure_package_query_citations(&s("not an object"), false).is_ok());
}

#[test]
fn first_uncited_claim_is_reported() {
    let result = obj(vec![
        (
            "claims",
            arr(vec![
                obj(vec![("claim_id", s("c1"))]),
                obj(vec![("text", s("no id"))]),
                obj(vec![("claim_id", s("c2"))]),
                obj(vec![("claim_id", s("c3"))]),
            ]),
        ),
        (
            "citations",
            arr(vec![
                obj(vec![("claim_id", s("c1")), ("url", s("https://x"))]),
                obj(vec![("claim_id", s("c2")), ("url", s(""))]),
            ]),
        ),
    ]);
    let err = ensure_package_query_citations(&result, true).unwrap_err();
    assert!(matches!(err, CitationError::UncitedClaim { ref claim_id } if claim_id == "c2"));
    assert_eq!(
        err.message(),
        "Package API query response has uncited claim 'c2' while require_citations=true."
    );
}

#[test]
fn citation_check_needs_an_object() {
    let err = ensure_package_query_citations(&arr(vec![]), true).unwrap_err();
    assert!(matches!(err, CitationError::NotAnObject));
    assert_eq!(err.message(), "Package API query response must be a JSON object.");
    let claims_without_ids = obj(vec![
        ("claims", arr(vec![obj(vec![("text", s("a"))])])),
        ("citations", arr(vec![obj(vec![("claim_id", s("z")), ("url", s("u"))])])),
    ]);
    assert!(ensure_package_query_citations(&claims_without_ids, true).is_ok());
    assert!(ensure_package_query_citations(&obj(vec![]), true).is_ok());
}

#[test]
fn package_failure_passes_through_finish() {
    let err = finish_package_call(Err("Package API 500: boom".to_string()), true).unwrap_err();
    assert_eq!(err, "Package API 500: boom");
}

#[test]
fn blank_flag_decides_empty_success() {
    let v = interpret_package_response(200, "   ", true, Ok(s("ignored")), "u").unwrap();
    assert!(matches!(v, JsonValue::Object(ref e) if e.is_empty()));
    let v = interpret_package_response(201, "\"x\"", false, Ok(s("x")), "u").unwrap();
    assert!(matches!(v, JsonValue::Str(ref t) if t == "x"));
    let err = interpret_package_response(299, "{", false, Err("EOF while parsing".to_string()), "u")
        .unwrap_err();
    assert_eq!(err, "Package API JSON decode failed: EOF while parsing");
    let err = interpret_package_response(300, "", true, Err("e".to_string()), "u").unwrap_err();
    assert_eq!(err, "Package API 300: ");
    let err = interpret_package_response(199, "abc", false, Err("e".to_string()), "u").unwrap_err();
    assert_eq!(err, "Package API 199: abc");
}

#[test]
fn failed_citation_check_gives_its_message() {
    let missing = obj(vec![
        ("claims", arr(vec![obj(vec![("claim_id", s("c1"))])])),
        ("citations", arr(vec![])),
    ]);
    assert_eq!(
        finish_package_call(Ok(missing), true).unwrap_err(),
        "Package API query response missing citations while require_citations=true."
    );
    assert_eq!(
        finish_package_call(Ok(s("x")), true).unwrap_err(),
        "Package API query response must be a JSON object."
    );
    let uncited = obj(vec![
        ("claims", arr(vec![obj(vec![("claim_id", s("c9"))])])),
        ("citations", arr(vec![obj(vec![("claim_id", s("c1")), ("url", s("u"))])])),
    ]);
    assert_eq!(
        finish_package_call(Ok(uncited), true).unwrap_err(),
        "Package API query response has uncited claim 'c9' while require_citations=true."
    );
}

#[test]
fn settings_trim_unicode_white_space() {
    assert_eq!(normalize_setting(Some("\u{3000}\tabc\u{a0}\u{2029}")).as_deref(), Some("abc"));
    assert_eq!(normalize_setting(Some("\u{200b}x")).as_deref(), Some("\u{200b}x"));
    assert_eq!(normalize_setting(Some("\u{85}\u{1680}\u{205f}")), None);
}
