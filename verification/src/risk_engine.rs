use vstd::prelude::*;

use crate::common::RiskLevel;
use crate::security::{high_risk_reason, low_confidence_reason, safe_reason};

verus! {

/// The deterministic risk level of a tool, judged by its name alone.
pub open spec fn base_risk_for(name: Seq<char>) -> RiskLevel {
    if name == "financial.transfer"@ || name == "system.factory_reset"@ || name == "file.delete_all"@ {
        RiskLevel::High
    } else if name == "messages.send"@ || name == "contacts.modify"@ {
        RiskLevel::Medium
    } else {
        RiskLevel::Low
    }
}

/// The verdict of the name-based risk engine on one tool call.
pub struct RiskAssessment {
    pub level: RiskLevel,
    pub requires_confirmation: bool,
    pub reason: String,
}

impl RiskAssessment {
    /// The verdict for a call at risk level `level`, where `ambiguous` says
    /// whether the agent's confidence is low: high-risk calls need
    /// confirmation; otherwise ambiguous calls are treated as medium risk and
    /// need confirmation; otherwise the call may proceed.
    pub open spec fn is_verdict(self, level: RiskLevel, ambiguous: bool) -> bool {
        if level == RiskLevel::High {
            &&& self.level == RiskLevel::High
            &&& self.requires_confirmation
            &&& self.reason@ == high_risk_reason()
        } else if ambiguous {
            &&& self.level == RiskLevel::Medium
            &&& self.requires_confirmation
            &&& self.reason@ == low_confidence_reason()
        } else {
            &&& self.level == level
            &&& !self.requires_confirmation
            &&& self.reason@ == safe_reason()
        }
    }
}

/// Risk classification of tool calls by tool name.
pub struct RiskEngine;

impl RiskEngine {
    /// Assesses a call of the tool named `tool_name`. The deterministic layer
    /// classifies the name; the contextual layer receives `context_ambiguous`,
    /// whether the agent's confidence for the call is below the ambiguity
    /// threshold.
    pub fn assess(tool_name: &str, context_ambiguous: bool) -> (r: RiskAssessment)
        ensures
            r.is_verdict(base_risk_for(tool_name@), context_ambiguous),
    {
        let name = tool_name.to_owned();
        let base_risk = if name == "financial.transfer".to_owned() || name == "system.factory_reset".to_owned()
            || name == "file.delete_all".to_owned() {
            RiskLevel::High
        } else if name == "messages.send".to_owned() || name == "contacts.modify".to_owned() {
            RiskLevel::Medium
        } else {
            RiskLevel::Low
        };
        if let RiskLevel::High = base_risk {
            return RiskAssessment {
                level: RiskLevel::High,
                requires_confirmation: true,
                reason: "High-risk system action detected.".to_owned(),
            };
        }
        if context_ambiguous {
            return RiskAssessment {
                level: RiskLevel::Medium,
                requires_confirmation: true,
                reason: "Agent confidence is low; clarifying intent.".to_owned(),
            };
        }
        RiskAssessment { level: base_risk, requires_confirmation: false, reason: "Safe to proceed.".to_owned() }
    }
}

} // verus!
