//! The package API client's own logic: settings, the request to send, and
//! what a response (status and body) means for the caller. The HTTP exchange
//! itself is made by the caller with the prepared request.

use vstd::prelude::*;
use vstd::string::*;

use crate::json::{is_empty_object, text_of, JsonValue};
use crate::text::{
    decimal, decimal_text, opt_str_view, opt_string_view, prefix_of, same_text, take_chars,
    trim_of, trim_trailing_slashes, trimmed, without_trailing_slashes,
};

verus! {

/// A setting's value: trimmed, with an empty value counted as absent.
pub open spec fn setting_value(raw: Option<Seq<char>>) -> Option<Seq<char>> {
    match raw {
        Some(s) => if trim_of(s).len() > 0 {
            Some(trim_of(s))
        } else {
            None
        },
        None => None,
    }
}

/// Normalizes a raw setting: trimmed, and absent where it is blank.
pub fn normalize_setting(raw: Option<&str>) -> (r: Option<String>)
    ensures
        opt_string_view(r) == setting_value(opt_str_view(raw)),
{
    match raw {
        Some(s) => {
            let t = trimmed(s);
            if t.unicode_len() > 0 {
                Some(String::from_str(t))
            } else {
                None
            }
        },
        None => None,
    }
}

pub open spec fn default_upgrade_url() -> Seq<char> {
    "https://xint.dev/pricing"@
}

/// How the package API is reached.
pub struct PackageApiConfig {
    pub base_url: Option<String>,
    pub api_key: Option<String>,
    pub workspace_id: Option<String>,
    pub upgrade_url: String,
}

impl PackageApiConfig {
    /// Builds the configuration from the raw settings: each trimmed and
    /// absent where blank, the upgrade URL defaulting to the pricing page.
    pub fn from_settings(
        base_url: Option<&str>,
        api_key: Option<&str>,
        workspace_id: Option<&str>,
        upgrade_url: Option<&str>,
    ) -> (r: PackageApiConfig)
        ensures
            opt_string_view(r.base_url) == setting_value(opt_str_view(base_url)),
            opt_string_view(r.api_key) == setting_value(opt_str_view(api_key)),
            opt_string_view(r.workspace_id) == setting_value(opt_str_view(workspace_id)),
            r.upgrade_url@ == match setting_value(opt_str_view(upgrade_url)) {
                Some(u) => u,
                None => default_upgrade_url(),
            },
    {
        let upgrade = match normalize_setting(upgrade_url) {
            Some(u) => u,
            None => String::from_str("https://xint.dev/pricing"),
        };
        PackageApiConfig {
            base_url: normalize_setting(base_url),
            api_key: normalize_setting(api_key),
            workspace_id: normalize_setting(workspace_id),
            upgrade_url: upgrade,
        }
    }
}

/// The HTTP methods the package API is called with.
#[derive(Clone, Copy, Debug, PartialEq, Eq, Structural)]
pub enum HttpMethod {
    Get,
    Post,
}

/// A request to the package API, ready to be sent.
#[derive(Debug)]
pub struct PackageRequest {
    pub method: HttpMethod,
    pub url: String,
    /// The value of the `Authorization` header, where a key is configured.
    pub authorization: Option<String>,
    /// The value of the `x-workspace-id` header, where one is configured.
    pub workspace_id: Option<String>,
    /// The JSON payload, sent with a JSON content type.
    pub body: Option<JsonValue>,
}

pub open spec fn missing_base_message() -> Seq<char> {
    "XINT_PACKAGE_API_BASE_URL not set. Start xint-cloud service on :8787 and set XINT_PACKAGE_API_BASE_URL=http://localhost:8787/v1"@
}

/// Prepares a call of the package API: fails, before any network I/O, where
/// no base URL is configured; else the path is appended to the base URL
/// without its trailing slashes, and the key and workspace go into headers.
pub fn prepare_package_request(
    config: &PackageApiConfig,
    method: HttpMethod,
    path: &str,
    body: Option<JsonValue>,
) -> (r: Result<PackageRequest, String>)
    ensures
        r is Err <==> config.base_url is None,
        r matches Err(m) ==> m@ == missing_base_message(),
        r matches Ok(req) ==> {
            &&& req.method == method
            &&& req.url@ == without_trailing_slashes(config.base_url.unwrap()@) + path@
            &&& opt_string_view(req.authorization) == match config.api_key {
                Some(k) => Some("Bearer "@ + k@),
                None => None,
            }
            &&& opt_string_view(req.workspace_id) == opt_string_view(config.workspace_id)
            &&& req.body == body
        },
{
    let base = match &config.base_url {
        Some(b) => b,
        None => return Err(String::from_str(
            "XINT_PACKAGE_API_BASE_URL not set. Start xint-cloud service on :8787 and set XINT_PACKAGE_API_BASE_URL=http://localhost:8787/v1",
        )),
    };
    let url = String::from_str(trim_trailing_slashes(base.as_str())).concat(path);
    let authorization = match &config.api_key {
        Some(k) => Some(String::from_str("Bearer ").concat(k.as_str())),
        None => None,
    };
    let workspace_id = match &config.workspace_id {
        Some(w) => Some(w.clone()),
        None => None,
    };
    Ok(PackageRequest { method, url, authorization, workspace_id, body })
}

pub open spec fn is_success_status(status: u16) -> bool {
    200 <= status <= 299
}

/// The error codes that call for a plan upgrade.
pub open spec fn is_billing_code(code: Seq<char>) -> bool {
    code == "PLAN_REQUIRED"@ || code == "QUOTA_EXCEEDED"@ || code == "FEATURE_NOT_IN_PLAN"@
}

/// The `code` of an error body, `UNKNOWN` where it has none.
pub open spec fn error_code_of(v: JsonValue) -> Seq<char> {
    match text_of(v.field("code"@)) {
        Some(c) => c,
        None => "UNKNOWN"@,
    }
}

/// The `error` of an error body, a generic text where it has none.
pub open spec fn error_text_of(v: JsonValue) -> Seq<char> {
    match text_of(v.field("error"@)) {
        Some(e) => e,
        None => "Package API request failed"@,
    }
}

/// The message for a failed call whose body is JSON.
pub open spec fn status_error_message(status: u16, v: JsonValue, upgrade_url: Seq<char>) -> Seq<
    char,
> {
    let base = "Package API "@ + decimal(status as nat) + " ["@ + error_code_of(v) + "]: "@
        + error_text_of(v);
    if is_billing_code(error_code_of(v)) {
        base + ". Upgrade: "@ + upgrade_url
    } else {
        base
    }
}

/// The message for a failed call whose body is not JSON: at most its first
/// 300 characters.
pub open spec fn raw_error_message(status: u16, body: Seq<char>) -> Seq<char> {
    "Package API "@ + decimal(status as nat) + ": "@ + prefix_of(body, 300)
}

fn is_billing(code: &str) -> (r: bool)
    ensures
        r == is_billing_code(code@),
{
    same_text(code, "PLAN_REQUIRED") || same_text(code, "QUOTA_EXCEEDED") || same_text(
        code,
        "FEATURE_NOT_IN_PLAN",
    )
}

/// What a package API response means: `status` and `body` as received,
/// `blank` whether the body is empty or white space, and `parsed` the body
/// read as JSON, or why it could not be. A failed status gives a message
/// from the body's `code` and `error` (with the upgrade URL for billing
/// codes), or from the raw body; a success gives the body's value, an empty
/// object for a blank body, and fails where it is not JSON.
pub fn interpret_package_response(
    status: u16,
    body: &str,
    blank: bool,
    parsed: Result<JsonValue, String>,
    upgrade_url: &str,
) -> (r: Result<JsonValue, String>)
    ensures
        !is_success_status(status) ==> match parsed {
            Ok(v) => r matches Err(m) && m@ == status_error_message(status, v, upgrade_url@),
            Err(_) => r matches Err(m) && m@ == raw_error_message(status, body@),
        },
        is_success_status(status) && blank ==> (r matches Ok(v) && is_empty_object(v)),
        is_success_status(status) && !blank ==> match parsed {
            Ok(v) => r == Ok::<JsonValue, String>(v),
            Err(e) => r matches Err(m) && m@ == "Package API JSON decode failed: "@ + e@,
        },
{
    let success = 200 <= status && status <= 299;
    if !success {
        let status_text = decimal_text(status as u64);
        match parsed {
            Ok(v) => {
                let code = match v.get("code") {
                    Some(c) => match c.as_str() {
                        Some(s) => s,
                        None => "UNKNOWN",
                    },
                    None => "UNKNOWN",
                };
                let error_msg = match v.get("error") {
                    Some(e) => match e.as_str() {
                        Some(s) => s,
                        None => "Package API request failed",
                    },
                    None => "Package API request failed",
                };
                let message = String::from_str("Package API ").concat(status_text.as_str()).concat(
                    " [",
                ).concat(code).concat("]: ").concat(error_msg);
                if is_billing(code) {
                    return Err(message.concat(". Upgrade: ").concat(upgrade_url));
                }
                return Err(message);
            },
            Err(_) => {
                let head = take_chars(body, 300);
                return Err(
                    String::from_str("Package API ").concat(status_text.as_str()).concat(
                        ": ",
                    ).concat(head.as_str()),
                );
            },
        }
    }
    if blank {
        return Ok(JsonValue::Object(Vec::new()));
    }
    match parsed {
        Ok(v) => Ok(v),
        Err(e) => Err(String::from_str("Package API JSON decode failed: ").concat(e.as_str())),
    }
}

/// What a package API response means, as `interpret_package_response`
/// says, with the body blank where `str::trim` leaves nothing of it.
pub fn package_response_outcome(
    status: u16,
    body: &str,
    parsed: Result<JsonValue, String>,
    upgrade_url: &str,
) -> (r: Result<JsonValue, String>)
    ensures
        !is_success_status(status) ==> match parsed {
            Ok(v) => r matches Err(m) && m@ == status_error_message(status, v, upgrade_url@),
            Err(_) => r matches Err(m) && m@ == raw_error_message(status, body@),
        },
        is_success_status(status) && trim_of(body@).len() == 0 ==> (r matches Ok(v)
            && is_empty_object(v)),
        is_success_status(status) && trim_of(body@).len() > 0 ==> match parsed {
            Ok(v) => r == Ok::<JsonValue, String>(v),
            Err(e) => r matches Err(m) && m@ == "Package API JSON decode failed: "@ + e@,
        },
{
    let blank = trimmed(body).unicode_len() == 0;
    interpret_package_response(status, body, blank, parsed, upgrade_url)
}

} // verus!
