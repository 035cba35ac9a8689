//! Admission check for user-supplied webhook URLs, run before any such URL
//! is dialed: scheme, credentials, loopback and host allowlist rules.

use vstd::prelude::*;
use vstd::string::*;

use crate::text::{
    has_dot_suffix, has_dot_suffix_spec, lower_of, lowercase, opt_str_view, opt_string_view,
    same_text, trim_of, trimmed,
};

verus! {

/// What the admission check reads of a parsed URL: scheme, user name,
/// password, host and the serialized form, in that order.
pub type UrlView = (Seq<char>, Seq<char>, Option<Seq<char>>, Option<Seq<char>>, Seq<char>);

/// What `url::Url::parse` makes of a text, read through the parsed URL's
/// accessors; `None` where the text is not an absolute URL.
pub uninterp spec fn url_parsed(raw: Seq<char>) -> Option<UrlView>;

/// The parts of a parsed URL that the admission check reads.
struct UrlParts {
    scheme: String,
    username: String,
    password: Option<String>,
    host: Option<String>,
    serialized: String,
}

impl UrlParts {
    spec fn view(&self) -> UrlView {
        (
            self.scheme@,
            self.username@,
            opt_string_view(self.password),
            opt_string_view(self.host),
            self.serialized@,
        )
    }
}

/// Relies on `url::Url::parse` and on the parsed URL's `scheme`, `username`,
/// `password`, `host_str` and `as_str`. The crate's own invariant check
/// (`Url::check_invariants`) holds that a URL with a host parses back from its
/// serialization into the same parts.
#[verifier::external_body]
fn parse_url(raw: &str) -> (r: Option<UrlParts>)
    ensures
        r is Some <==> url_parsed(raw@) is Some,
        r matches Some(p) ==> url_parsed(raw@) == Some(p.view()),
        r matches Some(p) ==> (p.host is Some ==> url_parsed(p.serialized@) == Some(p.view())),
{
    match url::Url::parse(raw) {
        Ok(u) => Some(UrlParts {
            scheme: u.scheme().to_string(),
            username: u.username().to_string(),
            password: u.password().map(str::to_string),
            host: u.host_str().map(str::to_string),
            serialized: u.as_str().to_string(),
        }),
        Err(_) => None,
    }
}

/// The loopback hosts: `localhost`, `127.0.0.1` and `::1`, matched exactly.
pub open spec fn is_loopback_spec(h: Seq<char>) -> bool {
    h == "localhost"@ || h == "127.0.0.1"@ || h == "::1"@
}

/// A URL's host names the loopback: the parser gives an IPv6 host in
/// brackets, so `[::1]` stands for `::1`.
pub open spec fn is_loopback_url_host(h: Seq<char>) -> bool {
    is_loopback_spec(h) || h == "[::1]"@
}

/// A rule `*.suffix` matches `suffix` and every host ending in `.suffix`;
/// any other rule matches only the host equal to it.
pub open spec fn rule_matches(h: Seq<char>, rule: Seq<char>) -> bool {
    if rule.len() >= 2 && rule[0] == '*' && rule[1] == '.' {
        let suffix = rule.subrange(2, rule.len() as int);
        h == suffix || has_dot_suffix_spec(h, suffix)
    } else {
        h == rule
    }
}

/// The pieces of `s` between commas, in order; a text without a comma is
/// one piece.
pub open spec fn comma_pieces(s: Seq<char>) -> Seq<Seq<char>>
    decreases s.len(),
{
    if s.len() == 0 {
        seq![Seq::empty()]
    } else {
        let p = comma_pieces(s.drop_last());
        if s.last() == ',' {
            p.push(Seq::empty())
        } else {
            p.update(p.len() - 1, p.last().push(s.last()))
        }
    }
}

/// Each piece trimmed and lowercased, the empty ones left out.
pub open spec fn normalized_rules(pieces: Seq<Seq<char>>) -> Seq<Seq<char>>
    decreases pieces.len(),
{
    if pieces.len() == 0 {
        seq![]
    } else {
        let rest = normalized_rules(pieces.drop_last());
        let r = lower_of(trim_of(pieces.last()));
        if r.len() > 0 {
            rest.push(r)
        } else {
            rest
        }
    }
}

/// The rules of an allowlist setting; no setting means no rules.
pub open spec fn allowlist_rules(raw: Option<Seq<char>>) -> Seq<Seq<char>> {
    match raw {
        Some(s) => normalized_rules(comma_pieces(s)),
        None => seq![],
    }
}

pub open spec fn allowed_by_some_rule(h: Seq<char>, rules: Seq<Seq<char>>) -> bool {
    exists|i: int| 0 <= i < rules.len() && rule_matches(h, rules[i])
}

/// Why a webhook URL was refused.
#[derive(Clone, Copy, Debug, PartialEq, Eq, Structural)]
pub enum WebhookErrorKind {
    InvalidUrl,
    CredentialsNotAllowed,
    MissingHost,
    InsecureScheme,
    HostNotAllowed,
}

/// The admission rules on the parts of a parsed URL, its scheme and host
/// already lowercased: the canonical URL, or why it was refused.
pub open spec fn admission(
    scheme: Seq<char>,
    username: Seq<char>,
    has_password: bool,
    host: Option<Seq<char>>,
    serialized: Seq<char>,
    rules: Seq<Seq<char>>,
) -> Result<Seq<char>, WebhookErrorKind> {
    if username.len() > 0 || has_password {
        Err(WebhookErrorKind::CredentialsNotAllowed)
    } else {
        match host {
            None => Err(WebhookErrorKind::MissingHost),
            Some(h) => if !(scheme == "https"@ || (is_loopback_url_host(h) && scheme == "http"@)) {
                Err(WebhookErrorKind::InsecureScheme)
            } else if rules.len() > 0 && !allowed_by_some_rule(h, rules) {
                Err(WebhookErrorKind::HostNotAllowed)
            } else {
                Ok(serialized)
            },
        }
    }
}

pub open spec fn lower_opt(o: Option<Seq<char>>) -> Option<Seq<char>> {
    match o {
        Some(s) => Some(lower_of(s)),
        None => None,
    }
}

/// The outcome of the admission check: the canonical URL, or why it was
/// refused.
pub open spec fn webhook_verdict(raw: Seq<char>, allow: Option<Seq<char>>) -> Result<
    Seq<char>,
    WebhookErrorKind,
> {
    match url_parsed(raw) {
        None => Err(WebhookErrorKind::InvalidUrl),
        Some((scheme, user, pass, host, serialized)) => admission(
            lower_of(scheme),
            user,
            pass is Some,
            lower_opt(host),
            serialized,
            allowlist_rules(allow),
        ),
    }
}

/// The lowercased host of a parsed URL, as named in a refusal.
pub open spec fn webhook_host(raw: Seq<char>) -> Seq<char> {
    lower_of(url_parsed(raw).unwrap().3.unwrap())
}

/// A refused webhook URL.
#[derive(Debug)]
pub enum WebhookError {
    InvalidUrl,
    CredentialsNotAllowed,
    MissingHost,
    InsecureScheme,
    HostNotAllowed { host: String },
}

impl WebhookError {
    pub open spec fn kind(&self) -> WebhookErrorKind {
        match self {
            WebhookError::InvalidUrl => WebhookErrorKind::InvalidUrl,
            WebhookError::CredentialsNotAllowed => WebhookErrorKind::CredentialsNotAllowed,
            WebhookError::MissingHost => WebhookErrorKind::MissingHost,
            WebhookError::InsecureScheme => WebhookErrorKind::InsecureScheme,
            WebhookError::HostNotAllowed { .. } => WebhookErrorKind::HostNotAllowed,
        }
    }

    pub open spec fn spec_message(&self) -> Seq<char> {
        match self {
            WebhookError::InvalidUrl => "Invalid webhook URL."@,
            WebhookError::CredentialsNotAllowed => "Webhook URL must not include credentials."@,
            WebhookError::MissingHost => "Webhook URL must include a host."@,
            WebhookError::InsecureScheme => "Webhook URL must use https:// (http:// is only allowed for localhost/127.0.0.1/::1)."@,
            WebhookError::HostNotAllowed { host } => "Webhook host '"@ + host@
                + "' is not allowed. Set XINT_WEBHOOK_ALLOWED_HOSTS to include it."@,
        }
    }

    /// The text shown to the user for this refusal.
    pub fn message(&self) -> (r: String)
        ensures
            r@ == self.spec_message(),
    {
        match self {
            WebhookError::InvalidUrl => String::from_str("Invalid webhook URL."),
            WebhookError::CredentialsNotAllowed => String::from_str(
                "Webhook URL must not include credentials.",
            ),
            WebhookError::MissingHost => String::from_str("Webhook URL must include a host."),
            WebhookError::InsecureScheme => String::from_str(
                "Webhook URL must use https:// (http:// is only allowed for localhost/127.0.0.1/::1).",
            ),
            WebhookError::HostNotAllowed { host } => String::from_str("Webhook host '").concat(
                host.as_str(),
            ).concat("' is not allowed. Set XINT_WEBHOOK_ALLOWED_HOSTS to include it."),
        }
    }
}

/// Whether `hostname` is one of the loopback names.
pub fn is_loopback_host(hostname: &str) -> (r: bool)
    ensures
        r == is_loopback_spec(hostname@),
{
    same_text(hostname, "localhost") || same_text(hostname, "127.0.0.1") || same_text(
        hostname,
        "::1",
    )
}

/// Whether `hostname` is admitted by the allowlist rule `rule`.
pub fn host_allowed_by_rule(hostname: &str, rule: &str) -> (r: bool)
    ensures
        r == rule_matches(hostname@, rule@),
{
    let n = rule.unicode_len();
    if n >= 2 && rule.get_char(0) == '*' && rule.get_char(1) == '.' {
        let suffix = rule.substring_char(2, n);
        same_text(hostname, suffix) || has_dot_suffix(hostname, suffix)
    } else {
        same_text(hostname, rule)
    }
}

proof fn lemma_pieces_nonempty(s: Seq<char>)
    ensures
        comma_pieces(s).len() >= 1,
    decreases s.len(),
{
    if s.len() > 0 {
        lemma_pieces_nonempty(s.drop_last());
    }
}

/// Splits `s` at each comma.
fn split_commas(s: &str) -> (r: Vec<&str>)
    ensures
        r@.len() == comma_pieces(s@).len(),
        forall|j: int| 0 <= j < r@.len() ==> r@[j]@ == comma_pieces(s@)[j],
{
    let n = s.unicode_len();
    let mut out: Vec<&str> = Vec::new();
    let mut start: usize = 0;
    let mut i: usize = 0;
    assert(s@.subrange(0, 0) =~= Seq::<char>::empty());
    while i < n
        invariant
            n == s@.len(),
            start <= i <= n,
            out@.len() + 1 == comma_pieces(s@.subrange(0, i as int)).len(),
            forall|j: int|
                0 <= j < out@.len() ==> out@[j]@ == comma_pieces(s@.subrange(0, i as int))[j],
            comma_pieces(s@.subrange(0, i as int)).last() == s@.subrange(start as int, i as int),
        decreases n - i,
    {
        let c = s.get_char(i);
        proof {
            let pre = s@.subrange(0, i as int);
            let next = s@.subrange(0, i + 1);
            assert(next.drop_last() =~= pre);
            assert(next.last() == c);
            lemma_pieces_nonempty(pre);
            if c != ',' {
                assert(s@.subrange(start as int, i as int).push(c) =~= s@.subrange(
                    start as int,
                    i + 1,
                ));
            }
        }
        if c == ',' {
            let piece = s.substring_char(start, i);
            out.push(piece);
            start = i + 1;
            proof {
                assert(s@.subrange(start as int, start as int) =~= Seq::<char>::empty());
            }
        }
        i += 1;
    }
    let last = s.substring_char(start, n);
    out.push(last);
    proof {
        assert(s@.subrange(0, n as int) =~= s@);
    }
    out
}

/// The rules of an allowlist setting: the comma-separated entries, trimmed
/// and lowercased, without the empty ones.
pub fn parse_allowlist_from(raw: Option<&str>) -> (r: Vec<String>)
    ensures
        r@.len() == allowlist_rules(opt_str_view(raw)).len(),
        forall|j: int| 0 <= j < r@.len() ==> r@[j]@ == allowlist_rules(opt_str_view(raw))[j],
{
    match raw {
        None => Vec::new(),
        Some(v) => {
            let pieces = split_commas(v);
            let ghost ps = comma_pieces(v@);
            let mut rules: Vec<String> = Vec::new();
            let mut k: usize = 0;
            while k < pieces.len()
                invariant
                    pieces@.len() == ps.len(),
                    forall|j: int| 0 <= j < pieces@.len() ==> pieces@[j]@ == ps[j],
                    k <= pieces@.len(),
                    rules@.len() == normalized_rules(ps.take(k as int)).len(),
                    forall|j: int|
                        0 <= j < rules@.len() ==> rules@[j]@ == normalized_rules(
                            ps.take(k as int),
                        )[j],
                decreases pieces@.len() - k,
            {
                proof {
                    assert(ps.take(k + 1).drop_last() =~= ps.take(k as int));
                }
                let r = lowercase(trimmed(pieces[k]));
                if r.unicode_len() > 0 {
                    rules.push(r);
                }
                k += 1;
            }
            proof {
                assert(ps.take(k as int) =~= ps);
            }
            rules
        },
    }
}

/// Whether some rule of `rules` admits `hostname`.
fn allowed_by_any(hostname: &str, rules: &Vec<String>) -> (r: bool)
    ensures
        r == exists|i: int| 0 <= i < rules@.len() && rule_matches(hostname@, rules@[i]@),
{
    let mut i: usize = 0;
    while i < rules.len()
        invariant
            i <= rules@.len(),
            forall|j: int| 0 <= j < i ==> !rule_matches(hostname@, rules@[j]@),
        decreases rules@.len() - i,
    {
        if host_allowed_by_rule(hostname, rules[i].as_str()) {
            return true;
        }
        i += 1;
    }
    false
}

/// Applies the admission rules to the parts of a parsed URL, its scheme
/// and host already lowercased, under the allowlist `rules`: no user name or
/// password; a host; `https`, or `http` to a loopback host; and a host that
/// some rule admits, where there are rules. Returns `serialized` where the
/// URL is admitted.
pub fn admit_url_parts(
    scheme: &str,
    username: &str,
    has_password: bool,
    host: Option<String>,
    serialized: String,
    rules: &Vec<String>,
) -> (r: Result<String, WebhookError>)
    ensures
        r is Ok <==> admission(
            scheme@,
            username@,
            has_password,
            opt_string_view(host),
            serialized@,
            rules@.map_values(|x: String| x@),
        ) is Ok,
        r matches Ok(s) ==> s@ == serialized@,
        r matches Err(e) ==> admission(
            scheme@,
            username@,
            has_password,
            opt_string_view(host),
            serialized@,
            rules@.map_values(|x: String| x@),
        ) == Err::<Seq<char>, WebhookErrorKind>(e.kind()),
        r matches Err(WebhookError::HostNotAllowed { host: h }) ==> h@ == host.unwrap()@,
{
    let ghost views = rules@.map_values(|x: String| x@);
    if username.unicode_len() > 0 || has_password {
        return Err(WebhookError::CredentialsNotAllowed);
    }
    let hostname = match host {
        Some(h) => h,
        None => return Err(WebhookError::MissingHost),
    };
    let is_loopback = is_loopback_host(hostname.as_str()) || same_text(
        hostname.as_str(),
        "[::1]",
    );
    if !same_text(scheme, "https") && !(is_loopback && same_text(scheme, "http")) {
        return Err(WebhookError::InsecureScheme);
    }
    if rules.len() > 0 {
        if !allowed_by_any(hostname.as_str(), rules) {
            proof {
                if allowed_by_some_rule(hostname@, views) {
                    let i = choose|i: int| 0 <= i < views.len() && rule_matches(hostname@, views[i]);
                    assert(rule_matches(hostname@, rules@[i]@));
                }
            }
            return Err(WebhookError::HostNotAllowed { host: hostname });
        }
        proof {
            let i = choose|i: int| 0 <= i < rules@.len() && rule_matches(hostname@, rules@[i]@);
            assert(rule_matches(hostname@, views[i]));
        }
    }
    Ok(serialized)
}

/// Admits a webhook URL: `https`, or `http` to a loopback host; no embedded
/// credentials; a host, which an allowlist, where one is set, must admit.
/// Returns the canonical form of the URL, which is itself admitted unchanged.
pub fn validate_webhook_url_with_allowlist(raw_url: &str, allowlist_raw: Option<&str>) -> (r:
    Result<String, WebhookError>)
    ensures
        r is Ok <==> webhook_verdict(raw_url@, opt_str_view(allowlist_raw)) is Ok,
        r matches Ok(s) ==> webhook_verdict(raw_url@, opt_str_view(allowlist_raw)) == Ok::<
            Seq<char>,
            WebhookErrorKind,
        >(s@),
        r matches Err(e) ==> webhook_verdict(raw_url@, opt_str_view(allowlist_raw)) == Err::<
            Seq<char>,
            WebhookErrorKind,
        >(e.kind()),
        r matches Err(WebhookError::HostNotAllowed { host }) ==> host@ == webhook_host(raw_url@),
        r matches Ok(s) ==> webhook_verdict(s@, opt_str_view(allowlist_raw)) == Ok::<
            Seq<char>,
            WebhookErrorKind,
        >(s@),
{
    let url = match parse_url(raw_url) {
        Some(u) => u,
        None => return Err(WebhookError::InvalidUrl),
    };
    let host = match &url.host {
        Some(h) => Some(lowercase(h.as_str())),
        None => None,
    };
    let scheme = lowercase(url.scheme.as_str());
    let rules = parse_allowlist_from(allowlist_raw);
    proof {
        let expected = allowlist_rules(opt_str_view(allowlist_raw));
        assert(rules@.map_values(|x: String| x@) =~= expected);
    }
    admit_url_parts(
        scheme.as_str(),
        url.username.as_str(),
        url.password.is_some(),
        host,
        url.serialized,
        &rules,
    )
}

} // verus!
