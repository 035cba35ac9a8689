//! The server: its session state, the policy and budget gates, and the
//! JSON-RPC envelopes it answers with.

use vstd::prelude::*;
use vstd::string::*;

use std::path::PathBuf;

use crate::json::{
    entry, entry_lookup, json_str, lemma_lookup_first_key, text_of, JsonNumber, JsonValue,
};
use crate::policy::{is_allowed, mode_allows, PolicyMode};
use crate::text::{money, money_text, same_text};
use crate::tools::{budget_guarded_name, get_tools, required_policy_of, MCPTool};

verus! {

/// Declares `std::path::PathBuf`, which the server only carries: the paths
/// where the budget tracker and the outcome recorder keep their files.
#[verifier::external_type_specification]
#[verifier::external_body]
pub struct ExPathBuf(PathBuf);

/// The MCP server of one session: the operating mode and budget setting it
/// was started with, where spend and outcomes are kept, and whether the
/// client has initialized the session.
pub struct MCPServer {
    initialized: bool,
    policy_mode: PolicyMode,
    enforce_budget: bool,
    costs_path: PathBuf,
    reliability_path: PathBuf,
}

/// What the budget tracker reports, in cents.
#[derive(Clone, Copy, Debug)]
pub struct BudgetSnapshot {
    pub allowed: bool,
    pub spent_cents: u64,
    pub limit_cents: u64,
    pub remaining_cents: u64,
}

/// Why a gate refused a tool call.
#[derive(Debug)]
pub enum GateDenial {
    Policy { tool: String, policy_mode: PolicyMode, required_mode: PolicyMode },
    Budget { tool: String, spent_cents: u64, limit_cents: u64, remaining_cents: u64 },
}

/// What the gates decide about a call before the budget is consulted.
#[derive(Debug)]
pub enum Authorization {
    /// The policy gate refused the call; the budget is not consulted.
    Denied(GateDenial),
    /// The policy gate passed and the call is budget-guarded: the budget
    /// gate decides next.
    NeedsBudget,
    /// Both gates pass without consulting the budget.
    Allowed,
}

/// `"MCP tool '<name>' requires '<mode>' policy mode"`
pub open spec fn policy_denial_message(name: Seq<char>, required: PolicyMode) -> Seq<char> {
    "MCP tool '"@ + name + "' requires '"@ + required.spec_name() + "' policy mode"@
}

/// `"Daily budget exceeded ($<spent> / $<limit>)"`
pub open spec fn budget_denial_message(spent: nat, limit: nat) -> Seq<char> {
    "Daily budget exceeded ($"@ + money(spent) + " / $"@ + money(limit) + ")"@
}

/// A number value given by its decimal text.
fn json_money(cents: u64) -> (r: JsonValue)
    ensures
        r matches JsonValue::Number(JsonNumber::Decimal(t)) && t@ == money(cents as nat),
{
    JsonValue::Number(JsonNumber::Decimal(money_text(cents)))
}

impl GateDenial {
    /// The diagnostic object reported for the denial: its `code`, a
    /// `message`, the tool, and the modes or amounts involved.
    pub fn to_json(&self) -> (r: JsonValue)
        ensures
            *self matches GateDenial::Policy { tool, policy_mode, required_mode } ==> {
                &&& text_of(r.field("code"@)) == Some("POLICY_DENIED"@)
                &&& text_of(r.field("message"@)) == Some(policy_denial_message(tool@, required_mode))
                &&& text_of(r.field("tool"@)) == Some(tool@)
                &&& text_of(r.field("policy_mode"@)) == Some(policy_mode.spec_name())
                &&& text_of(r.field("required_mode"@)) == Some(required_mode.spec_name())
            },
            *self matches GateDenial::Budget { tool, spent_cents, limit_cents, remaining_cents } ==> {
                &&& text_of(r.field("code"@)) == Some("BUDGET_DENIED"@)
                &&& text_of(r.field("message"@)) == Some(
                    budget_denial_message(spent_cents as nat, limit_cents as nat),
                )
                &&& text_of(r.field("tool"@)) == Some(tool@)
                &&& r.field("spent_usd"@) matches Some(JsonValue::Number(JsonNumber::Decimal(t)))
                    && t@ == money(spent_cents as nat)
                &&& r.field("limit_usd"@) matches Some(JsonValue::Number(JsonNumber::Decimal(t)))
                    && t@ == money(limit_cents as nat)
                &&& r.field("remaining_usd"@) matches Some(
                    JsonValue::Number(JsonNumber::Decimal(t)),
                ) && t@ == money(remaining_cents as nat)
            },
    {
        proof {
            reveal_strlit("code");
            reveal_strlit("message");
            reveal_strlit("tool");
            reveal_strlit("policy_mode");
            reveal_strlit("required_mode");
            reveal_strlit("spent_usd");
            reveal_strlit("limit_usd");
            reveal_strlit("remaining_usd");
            assert("code"@.len() == 4 && "code"@[0] == 'c');
            assert("message"@.len() == 7 && "message"@[0] == 'm');
            assert("tool"@.len() == 4 && "tool"@[0] == 't');
            assert("policy_mode"@.len() == 11 && "policy_mode"@[0] == 'p');
            assert("required_mode"@.len() == 13 && "required_mode"@[0] == 'r');
            assert("spent_usd"@.len() == 9 && "spent_usd"@[0] == 's');
            assert("limit_usd"@.len() == 9 && "limit_usd"@[0] == 'l');
            assert("remaining_usd"@.len() == 13 && "remaining_usd"@[0] == 'r');
        }
        match self {
            GateDenial::Policy { tool, policy_mode, required_mode } => {
                let message = String::from_str("MCP tool '").concat(tool.as_str()).concat(
                    "' requires '",
                ).concat(required_mode.as_str()).concat("' policy mode");
                let r = JsonValue::Object(
                    vec![
                        entry("code", json_str("POLICY_DENIED")),
                        entry("message", JsonValue::Str(message)),
                        entry("tool", json_str(tool.as_str())),
                        entry("policy_mode", json_str(policy_mode.as_str())),
                        entry("required_mode", json_str(required_mode.as_str())),
                    ],
                );
                proof {
                    let es = r->Object_0@;
                    assert forall|i: int| 0 <= i < 5 implies entry_lookup(es, #[trigger] es[i].0@)
                        == Some(es[i].1) by {
                        lemma_lookup_first_key(es, i);
                    }
                    assert(es[0].0@ == "code"@);
                    assert(es[1].0@ == "message"@);
                    assert(es[2].0@ == "tool"@);
                    assert(es[3].0@ == "policy_mode"@);
                    assert(es[4].0@ == "required_mode"@);
                }
                r
            },
            GateDenial::Budget { tool, spent_cents, limit_cents, remaining_cents } => {
                let message = String::from_str("Daily budget exceeded ($").concat(
                    money_text(*spent_cents).as_str(),
                ).concat(" / $").concat(money_text(*limit_cents).as_str()).concat(")");
                let r = JsonValue::Object(
                    vec![
                        entry("code", json_str("BUDGET_DENIED")),
                        entry("message", JsonValue::Str(message)),
                        entry("tool", json_str(tool.as_str())),
                        entry("spent_usd", json_money(*spent_cents)),
                        entry("limit_usd", json_money(*limit_cents)),
                        entry("remaining_usd", json_money(*remaining_cents)),
                    ],
                );
                proof {
                    let es = r->Object_0@;
                    assert forall|i: int| 0 <= i < 6 implies entry_lookup(es, #[trigger] es[i].0@)
                        == Some(es[i].1) by {
                        lemma_lookup_first_key(es, i);
                    }
                    assert(es[0].0@ == "code"@);
                    assert(es[1].0@ == "message"@);
                    assert(es[2].0@ == "tool"@);
                    assert(es[3].0@ == "spent_usd"@);
                    assert(es[4].0@ == "limit_usd"@);
                    assert(es[5].0@ == "remaining_usd"@);
                }
                r
            },
        }
    }
}

impl MCPServer {
    pub closed spec fn spec_initialized(&self) -> bool {
        self.initialized
    }

    pub closed spec fn spec_policy_mode(&self) -> PolicyMode {
        self.policy_mode
    }

    pub closed spec fn spec_enforce_budget(&self) -> bool {
        self.enforce_budget
    }

    pub closed spec fn spec_costs_path(&self) -> PathBuf {
        self.costs_path
    }

    pub closed spec fn spec_reliability_path(&self) -> PathBuf {
        self.reliability_path
    }

    /// A server for a new session, not yet initialized.
    pub fn new(
        policy_mode: PolicyMode,
        enforce_budget: bool,
        costs_path: PathBuf,
        reliability_path: PathBuf,
    ) -> (r: Self)
        ensures
            !r.spec_initialized(),
            r.spec_policy_mode() == policy_mode,
            r.spec_enforce_budget() == enforce_budget,
            r.spec_costs_path() == costs_path,
            r.spec_reliability_path() == reliability_path,
    {
        MCPServer { initialized: false, policy_mode, enforce_budget, costs_path, reliability_path }
    }

    /// Marks the session initialized; nothing else changes.
    pub fn mark_initialized(&mut self)
        ensures
            final(self).spec_initialized(),
            final(self).spec_policy_mode() == old(self).spec_policy_mode(),
            final(self).spec_enforce_budget() == old(self).spec_enforce_budget(),
            final(self).spec_costs_path() == old(self).spec_costs_path(),
            final(self).spec_reliability_path() == old(self).spec_reliability_path(),
    {
        self.initialized = true;
    }

    pub fn is_initialized(&self) -> (r: bool)
        ensures
            r == self.spec_initialized(),
    {
        self.initialized
    }

    pub fn policy_mode(&self) -> (r: PolicyMode)
        ensures
            r == self.spec_policy_mode(),
    {
        self.policy_mode
    }

    pub fn enforce_budget(&self) -> (r: bool)
        ensures
            r == self.spec_enforce_budget(),
    {
        self.enforce_budget
    }

    /// Where the budget tracker keeps spend.
    pub fn costs_path(&self) -> (r: &PathBuf)
        ensures
            *r == self.spec_costs_path(),
    {
        &self.costs_path
    }

    /// Where call outcomes are recorded.
    pub fn reliability_path(&self) -> (r: &PathBuf)
        ensures
            *r == self.spec_reliability_path(),
    {
        &self.reliability_path
    }

    /// The policy level the named tool requires.
    pub fn tool_required_policy(name: &str) -> (r: PolicyMode)
        ensures
            r == required_policy_of(name@),
    {
        if same_text(name, "xint_bookmarks") || same_text(name, "xint_diff") || same_text(
            name,
            "xint_package_publish",
        ) {
            PolicyMode::Engagement
        } else {
            PolicyMode::ReadOnly
        }
    }

    /// Whether calls of the named tool count against the daily budget.
    pub fn tool_budget_guarded(name: &str) -> (r: bool)
        ensures
            r == budget_guarded_name(name@),
    {
        let guarded = vec![
            "xint_search",
            "xint_profile",
            "xint_thread",
            "xint_tweet",
            "xint_trends",
            "xint_xsearch",
            "xint_collections_search",
            "xint_analyze",
            "xint_article",
            "xint_bookmarks",
            "xint_watch",
            "xint_diff",
            "xint_report",
            "xint_sentiment",
            "xint_package_create",
            "xint_package_query",
            "xint_package_refresh",
            "xint_package_search",
            "xint_package_publish",
        ];
        let ghost names = crate::tools::guarded_tools();
        assert(guarded@.len() == names.len());
        assert(forall|j: int| 0 <= j < names.len() ==> (#[trigger] guarded@[j])@ == names[j]);
        let mut i: usize = 0;
        while i < guarded.len()
            invariant
                i <= guarded@.len(),
                guarded@.len() == names.len(),
                forall|j: int| 0 <= j < names.len() ==> (#[trigger] guarded@[j])@ == names[j],
                forall|j: int| 0 <= j < i ==> names[j] != name@,
                names == crate::tools::guarded_tools(),
            decreases guarded@.len() - i,
        {
            if same_text(name, guarded[i]) {
                assert(names[i as int] == name@);
                assert(names.contains(name@));
                return true;
            }
            i += 1;
        }
        false
    }

    /// The policy gate: the server's mode must dominate the level the tool
    /// requires.
    pub fn ensure_tool_allowed(&self, name: &str) -> (r: Result<(), GateDenial>)
        ensures
            r is Ok <==> mode_allows(self.spec_policy_mode(), required_policy_of(name@)),
            r matches Err(d) ==> (d matches GateDenial::Policy { tool, policy_mode, required_mode }
                && tool@ == name@ && policy_mode == self.spec_policy_mode() && required_mode
                == required_policy_of(name@)),
    {
        let required = Self::tool_required_policy(name);
        if is_allowed(self.policy_mode, required) {
            return Ok(());
        }
        Err(
            GateDenial::Policy {
                tool: String::from_str(name),
                policy_mode: self.policy_mode,
                required_mode: required,
            },
        )
    }

    /// Whether the budget must be consulted for a call of the named tool:
    /// budget enforcement is on and the tool is guarded.
    pub fn budget_check_needed(&self, name: &str) -> (r: bool)
        ensures
            r == (self.spec_enforce_budget() && budget_guarded_name(name@)),
    {
        self.enforce_budget && Self::tool_budget_guarded(name)
    }

    /// The budget gate, given what the tracker reports now.
    pub fn ensure_budget_allowed(&self, name: &str, budget: &BudgetSnapshot) -> (r: Result<
        (),
        GateDenial,
    >)
        ensures
            r is Ok <==> (!self.spec_enforce_budget() || !budget_guarded_name(name@)
                || budget.allowed),
            r matches Err(d) ==> (d matches GateDenial::Budget {
                tool,
                spent_cents,
                limit_cents,
                remaining_cents,
            } && tool@ == name@ && spent_cents == budget.spent_cents && limit_cents
                == budget.limit_cents && remaining_cents == budget.remaining_cents),
    {
        if !self.budget_check_needed(name) || budget.allowed {
            return Ok(());
        }
        Err(
            GateDenial::Budget {
                tool: String::from_str(name),
                spent_cents: budget.spent_cents,
                limit_cents: budget.limit_cents,
                remaining_cents: budget.remaining_cents,
            },
        )
    }

    /// The gates in order: the policy gate first, and the budget only for
    /// calls that pass it and are guarded.
    pub fn authorize(&self, name: &str) -> (r: Authorization)
        ensures
            !mode_allows(self.spec_policy_mode(), required_policy_of(name@)) <==> r is Denied,
            r matches Authorization::Denied(d) ==> (d matches GateDenial::Policy {
                tool,
                policy_mode,
                required_mode,
            } && tool@ == name@ && policy_mode == self.spec_policy_mode() && required_mode
                == required_policy_of(name@)),
            r is NeedsBudget <==> (mode_allows(self.spec_policy_mode(), required_policy_of(name@))
                && self.spec_enforce_budget() && budget_guarded_name(name@)),
    {
        match self.ensure_tool_allowed(name) {
            Err(d) => Authorization::Denied(d),
            Ok(()) => if self.budget_check_needed(name) {
                Authorization::NeedsBudget
            } else {
                Authorization::Allowed
            },
        }
    }
}

} // verus!
