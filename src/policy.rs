//! Operating modes, ordered by the privilege they grant.

use vstd::prelude::*;

verus! {

/// The permission tier a server runs under, or that a tool requires.
#[derive(Clone, Copy, Debug, PartialEq, Eq, Structural)]
pub enum PolicyMode {
    ReadOnly,
    Engagement,
    Moderation,
}

impl PolicyMode {
    /// Position of the mode on the total order of privilege.
    pub open spec fn rank(self) -> nat {
        match self {
            PolicyMode::ReadOnly => 0,
            PolicyMode::Engagement => 1,
            PolicyMode::Moderation => 2,
        }
    }

    pub open spec fn spec_name(self) -> Seq<char> {
        match self {
            PolicyMode::ReadOnly => "read_only"@,
            PolicyMode::Engagement => "engagement"@,
            PolicyMode::Moderation => "moderation"@,
        }
    }

    pub fn level(&self) -> (r: u8)
        ensures
            r as nat == self.rank(),
    {
        match self {
            PolicyMode::ReadOnly => 0,
            PolicyMode::Engagement => 1,
            PolicyMode::Moderation => 2,
        }
    }

    /// The mode's name as it appears in diagnostics.
    pub fn as_str(&self) -> (r: &'static str)
        ensures
            r@ == self.spec_name(),
    {
        match self {
            PolicyMode::ReadOnly => "read_only",
            PolicyMode::Engagement => "engagement",
            PolicyMode::Moderation => "moderation",
        }
    }
}

/// A server in mode `current` may run what needs mode `required`.
pub open spec fn mode_allows(current: PolicyMode, required: PolicyMode) -> bool {
    current.rank() >= required.rank()
}

/// Whether `current` dominates `required` on the order of privilege.
pub fn is_allowed(current: PolicyMode, required: PolicyMode) -> (r: bool)
    ensures
        r == mode_allows(current, required),
{
    current.level() >= required.level()
}

} // verus!
