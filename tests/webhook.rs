use xint_mcp::{
    admit_url_parts, host_allowed_by_rule, is_loopback_host, parse_allowlist_from,
    validate_webhook_url_with_allowlist, WebhookError,
};

#[test]
fn accepts_https_webhook() {
    let url =
        validate_webhook_url_with_allowlist("https://hooks.example.com/ingest", None).unwrap();
    assert_eq!(url, "https://hooks.example.com/ingest");
}

#[test]
fn allows_http_for_loopback() {
    let url = validate_webhook_url_with_allowlist("http://127.0.0.1:8080/webhook", None).unwrap();
    assert_eq!(url, "http://127.0.0.1:8080/webhook");
}

#[test]
fn rejects_http_for_remote_hosts() {
    let err = validate_webhook_url_with_allowlist("http://example.com/webhook", None)
        .expect_err("http remote webhooks must be rejected");
    assert!(err.message().contains("Webhook URL must use https://"));
}

#[test]
fn enforces_allowlist_when_set() {
    let allowlist = Some("trusted.example.com,*.internal.example");
    let trusted =
        validate_webhook_url_with_allowlist("https://trusted.example.com/path", allowlist).unwrap();
    assert_eq!(trusted, "https://trusted.example.com/path");

    let wildcard =
        validate_webhook_url_with_allowlist("https://api.internal.example/hook", allowlist)
            .unwrap();
    assert_eq!(wildcard, "https://api.internal.example/hook");

    let err = validate_webhook_url_with_allowlist("https://untrusted.example.com/hook", allowlist)
        .expect_err("untrusted host must be rejected");
    assert!(err.message().contains("is not allowed"));
}

#[test]
fn short_urls_follow_the_admission_rules() {
    assert_eq!(validate_webhook_url_with_allowlist("https://a.b/c", None).unwrap(), "https://a.b/c");
    assert_eq!(
        validate_webhook_url_with_allowlist("http://127.0.0.1/x", None).unwrap(),
        "http://127.0.0.1/x"
    );
    let err = validate_webhook_url_with_allowlist("http://a.b/x", None).unwrap_err();
    assert!(err.message().contains("https"));
    let allow = Some("trusted.example.com,*.internal.example");
    assert!(validate_webhook_url_with_allowlist("https://trusted.example.com/p", allow).is_ok());
    assert!(validate_webhook_url_with_allowlist("https://api.internal.example/p", allow).is_ok());
    let err = validate_webhook_url_with_allowlist("https://evil.example.com/p", allow).unwrap_err();
    assert!(err.message().contains("not allowed"));
    assert!(matches!(err, WebhookError::HostNotAllowed { ref host } if host == "evil.example.com"));
}

#[test]
fn canonical_url_validates_to_itself() {
    let raws = [
        "HTTPS://Hooks.Example.COM/a/../b?x=1",
        "http://localhost:9000",
        "https://a.b",
        "http://[::1]/hook",
    ];
    for raw in raws {
        if let Ok(canonical) = validate_webhook_url_with_allowlist(raw, None) {
            let again = validate_webhook_url_with_allowlist(&canonical, None).unwrap();
            assert_eq!(again, canonical);
        }
    }
    let canonical =
        validate_webhook_url_with_allowlist("HTTPS://Hooks.Example.COM/a/../b", None).unwrap();
    assert_eq!(canonical, "https://hooks.example.com/b");
}

#[test]
fn rejects_unparsable_url() {
    let err = validate_webhook_url_with_allowlist("not a url", None).unwrap_err();
    assert!(matches!(err, WebhookError::InvalidUrl));
    assert_eq!(err.message(), "Invalid webhook URL.");
}

#[test]
fn rejects_embedded_credentials() {
    let err = validate_webhook_url_with_allowlist("https://user:pw@a.b/c", None).unwrap_err();
    assert!(matches!(err, WebhookError::CredentialsNotAllowed));
    let err = validate_webhook_url_with_allowlist("https://:pw@a.b/c", None).unwrap_err();
    assert!(matches!(err, WebhookError::CredentialsNotAllowed));
}

#[test]
fn rejects_url_without_host() {
    let err = validate_webhook_url_with_allowlist("data:text/plain,hello", None).unwrap_err();
    assert!(matches!(err, WebhookError::MissingHost));
    assert_eq!(err.message(), "Webhook URL must include a host.");
}

#[test]
fn rejects_other_schemes() {
    let err = validate_webhook_url_with_allowlist("ftp://localhost/x", None).unwrap_err();
    assert!(matches!(err, WebhookError::InsecureScheme));
}

#[test]
fn ipv6_loopback_may_use_http() {
    assert_eq!(validate_webhook_url_with_allowlist("http://[::1]/x", None).unwrap(), "http://[::1]/x");
    assert!(is_loopback_host("::1"));
    assert!(!is_loopback_host("[::1]"));
    assert!(is_loopback_host("localhost"));
    assert!(is_loopback_host("127.0.0.1"));
    assert!(!is_loopback_host("127.0.0.2"));
    assert!(!is_loopback_host(""));
}

#[test]
fn allowlist_entries_are_trimmed_lowercased_and_nonempty() {
    let rules = parse_allowlist_from(Some("  Trusted.Example.COM , ,*.Internal.Example,"));
    assert_eq!(rules, vec!["trusted.example.com".to_string(), "*.internal.example".to_string()]);
    assert!(parse_allowlist_from(None).is_empty());
    assert!(parse_allowlist_from(Some("")).is_empty());
    assert!(parse_allowlist_from(Some(" , ")).is_empty());
}

#[test]
fn wildcard_rules_match_suffix_and_bare_domain() {
    assert!(host_allowed_by_rule("internal.example", "*.internal.example"));
    assert!(host_allowed_by_rule("a.b.internal.example", "*.internal.example"));
    assert!(!host_allowed_by_rule("evilinternal.example", "*.internal.example"));
    assert!(host_allowed_by_rule("trusted.example.com", "trusted.example.com"));
    assert!(!host_allowed_by_rule("api.trusted.example.com", "trusted.example.com"));
    assert!(!host_allowed_by_rule("x", "*."));
}

#[test]
fn allowlist_applies_to_uppercase_hosts() {
    let allow = Some("TRUSTED.example.com");
    let url = validate_webhook_url_with_allowlist("https://Trusted.Example.com/p", allow).unwrap();
    assert_eq!(url, "https://trusted.example.com/p");
}

#[test]
fn parsed_parts_are_admitted_by_the_rules() {
    let none: Vec<String> = Vec::new();
    let ok = admit_url_parts("https", "", false, Some("a.b".to_string()), "https://a.b/c".to_string(), &none);
    assert_eq!(ok.unwrap(), "https://a.b/c");
    let err = admit_url_parts("http", "", false, Some("a.b".to_string()), "http://a.b/x".to_string(), &none);
    assert!(matches!(err, Err(WebhookError::InsecureScheme)));
    let ok = admit_url_parts("http", "", false, Some("localhost".to_string()), "http://localhost/".to_string(), &none);
    assert!(ok.is_ok());
    let err = admit_url_parts("https", "", true, Some("a.b".to_string()), "x".to_string(), &none);
    assert!(matches!(err, Err(WebhookError::CredentialsNotAllowed)));
    let err = admit_url_parts("https", "", false, None, "x".to_string(), &none);
    assert!(matches!(err, Err(WebhookError::MissingHost)));
    let rules = vec!["*.internal.example".to_string()];
    let err = admit_url_parts("https", "", false, Some("evil.example.com".to_string()), "x".to_string(), &rules);
    assert!(matches!(err, Err(WebhookError::HostNotAllowed { ref host }) if host == "evil.example.com"));
    let ok = admit_url_parts("https", "", false, Some("internal.example".to_string()), "y".to_string(), &rules);
    assert_eq!(ok.unwrap(), "y");
}
