//! What the tool may do on its own.
use vstd::prelude::*;

verus! {

/// How far an agent may act without being asked.
#[derive(Clone, Copy, Debug, PartialEq, Eq, Structural)]
pub enum AutonomyLevel {
    /// It may look, and change nothing.
    ReadOnly,
    /// It may act, under supervision.
    Supervised,
}

/// The limits that an agent's actions are held to.
#[derive(Clone, Copy, Debug, PartialEq, Eq, Structural)]
pub struct SecurityPolicy {
    pub autonomy: AutonomyLevel,
    pub max_actions_per_hour: u32,
}

impl Default for SecurityPolicy {
    fn default() -> (r: Self)
        ensures
            r.autonomy == AutonomyLevel::Supervised,
            r.max_actions_per_hour == 20,
    {
        SecurityPolicy { autonomy: AutonomyLevel::Supervised, max_actions_per_hour: 20 }
    }
}

impl SecurityPolicy {
    /// Acting is allowed at every level but the read-only one.
    pub open spec fn may_act(self) -> bool {
        self.autonomy != AutonomyLevel::ReadOnly
    }

    /// `recorded` actions in the past hour, the latest one included, are within the limit.
    pub open spec fn rate_allows(self, recorded: int) -> bool {
        recorded <= self.max_actions_per_hour
    }

    /// Whether acting is allowed at all.
    pub fn can_act(&self) -> (r: bool)
        ensures
            r == self.may_act(),
    {
        self.autonomy != AutonomyLevel::ReadOnly
    }

    /// Whether the latest of `recorded` actions in the past hour is within the limit.
    pub fn within_rate(&self, recorded: u64) -> (r: bool)
        ensures
            r == self.rate_allows(recorded as int),
    {
        recorded <= self.max_actions_per_hour as u64
    }
}

} // verus!
