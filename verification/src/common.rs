use vstd::prelude::*;

verus! {

/// Risk category of a tool. The levels are ordered `Low < Medium < High`.
#[derive(Clone, Copy, Debug, PartialEq, Eq, Structural)]
pub enum RiskLevel {
    Low,
    Medium,
    High,
}

impl RiskLevel {
    /// Position of the level in the order `Low < Medium < High`.
    pub open spec fn rank(self) -> int {
        match self {
            RiskLevel::Low => 0,
            RiskLevel::Medium => 1,
            RiskLevel::High => 2,
        }
    }
}

/// A tool known to the daemon: its name, the provider that serves it, the risk
/// level declared in its manifest, and the capabilities it asks for.
#[derive(Debug)]
pub struct Tool {
    pub name: String,
    pub provider: String,
    pub risk_level: RiskLevel,
    pub capabilities: Vec<String>,
}

impl Tool {
    /// The capabilities of the tool, as character sequences.
    pub open spec fn capability_names(&self) -> Seq<Seq<char>> {
        self.capabilities@.map_values(|c: String| c@)
    }
}

} // verus!
