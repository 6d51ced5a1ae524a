use vstd::prelude::*;

use crate::common::{RiskLevel, Tool};
use crate::crypto::{compute_hmac_sha256, hex_encode, is_lower_hex_digit, lemma_hex_lower_shape, signature_of};

verus! {

/// A capability that makes any tool high-risk.
pub open spec fn is_critical_capability(cap: Seq<char>) -> bool {
    cap == "financial"@ || cap == "system_admin"@
}

/// A capability that raises a low-risk tool to medium risk.
pub open spec fn is_privacy_capability(cap: Seq<char>) -> bool {
    cap == "privacy_sensitive"@
}

/// The risk level of a tool with declared level `base` and capabilities `caps`:
/// a critical capability (or a high base) gives `High`; otherwise a privacy
/// capability (or a medium base) gives `Medium`; otherwise `Low`.
pub open spec fn capability_level(base: RiskLevel, caps: Seq<Seq<char>>) -> RiskLevel {
    if base == RiskLevel::High || exists|i: int| 0 <= i < caps.len() && is_critical_capability(#[trigger] caps[i]) {
        RiskLevel::High
    } else if base == RiskLevel::Medium || exists|i: int| 0 <= i < caps.len() && is_privacy_capability(#[trigger] caps[i]) {
        RiskLevel::Medium
    } else {
        RiskLevel::Low
    }
}

pub open spec fn high_risk_reason() -> Seq<char> {
    "High-risk system action detected."@
}

pub open spec fn low_confidence_reason() -> Seq<char> {
    "Agent confidence is low; clarifying intent."@
}

pub open spec fn safe_reason() -> Seq<char> {
    "Safe to proceed."@
}

/// The verdict of the risk engine on one tool call.
pub struct RiskAssessment {
    pub level: RiskLevel,
    pub requires_confirmation: bool,
    pub reason: String,
}

impl RiskAssessment {
    /// The verdict for a call whose tool has risk level `level`, where
    /// `ambiguous` says whether the agent's confidence is low: high-risk calls
    /// need confirmation; otherwise ambiguous calls are treated as medium risk
    /// and need confirmation; otherwise the call may proceed.
    pub open spec fn is_verdict(self, level: RiskLevel, ambiguous: bool) -> bool {
        if level == RiskLevel::High {
            &&& self.level == RiskLevel::High
            &&& self.requires_confirmation
            &&& self.reason@ == high_risk_reason()
        } else if ambiguous {
            &&& self.level == RiskLevel::Medium
            &&& self.requires_confirmation
            &&& self.reason@ == low_confidence_reason()
        } else {
            &&& self.level == level
            &&& !self.requires_confirmation
            &&& self.reason@ == safe_reason()
        }
    }
}

/// The two-layer risk classification engine.
pub struct RiskEngine;

proof fn lemma_capability_level_step(base: RiskLevel, caps: Seq<Seq<char>>, i: int)
    requires
        0 <= i < caps.len(),
    ensures
        ({
            let prev = capability_level(base, caps.take(i));
            let next = capability_level(base, caps.take(i + 1));
            let cap = caps[i];
            next == (if is_critical_capability(cap) {
                RiskLevel::High
            } else if is_privacy_capability(cap) && prev == RiskLevel::Low {
                RiskLevel::Medium
            } else {
                prev
            })
        }),
{
    let s = caps.take(i);
    let t = caps.take(i + 1);
    assert(t =~= s.push(caps[i]));
    assert(t[i] == caps[i]);
    assert forall|j: int| 0 <= j < s.len() implies #[trigger] t[j] == s[j] by {}
    if is_critical_capability(caps[i]) {
        assert(is_critical_capability(t[i]));
    } else if is_privacy_capability(caps[i]) {
        assert(is_privacy_capability(t[i]));
    }
}

impl RiskEngine {
    /// Assesses a call of `tool`. The deterministic layer derives the level
    /// from the tool's declared level and capabilities; the contextual layer
    /// receives `context_ambiguous`, whether the agent's confidence for the
    /// call is below the ambiguity threshold.
    pub fn assess(tool: &Tool, context_ambiguous: bool) -> (r: RiskAssessment)
        ensures
            r.is_verdict(capability_level(tool.risk_level, tool.capability_names()), context_ambiguous),
    {
        let financial = "financial".to_owned();
        let system_admin = "system_admin".to_owned();
        let privacy = "privacy_sensitive".to_owned();
        let ghost caps = tool.capability_names();
        let mut level = tool.risk_level;
        let n = tool.capabilities.len();
        assert(caps.take(0) =~= Seq::<Seq<char>>::empty());
        for i in 0..n
            invariant
                n == tool.capabilities.len(),
                caps == tool.capability_names(),
                financial@ == "financial"@,
                system_admin@ == "system_admin"@,
                privacy@ == "privacy_sensitive"@,
                level == capability_level(tool.risk_level, caps.take(i as int)),
        {
            proof {
                lemma_capability_level_step(tool.risk_level, caps, i as int);
            }
            let cap = &tool.capabilities[i];
            assert(cap@ == caps[i as int]);
            if *cap == financial || *cap == system_admin {
                level = RiskLevel::High;
            } else if *cap == privacy {
                match level {
                    RiskLevel::Low => {
                        level = RiskLevel::Medium;
                    },
                    _ => {},
                }
            }
        }
        assert(caps.take(n as int) =~= caps);
        match level {
            RiskLevel::High => RiskAssessment {
                level: RiskLevel::High,
                requires_confirmation: true,
                reason: "High-risk system action detected.".to_owned(),
            },
            _ => {
                if context_ambiguous {
                    RiskAssessment {
                        level: RiskLevel::Medium,
                        requires_confirmation: true,
                        reason: "Agent confidence is low; clarifying intent.".to_owned(),
                    }
                } else {
                    RiskAssessment {
                        level,
                        requires_confirmation: false,
                        reason: "Safe to proceed.".to_owned(),
                    }
                }
            },
        }
    }
}

} // verus!

verus! {

/// Signing and checking of data with a shared secret key.
pub struct IntegrityManager;

impl IntegrityManager {
    /// The HMAC-SHA256 signature of `data` under `key`, as 64 lowercase
    /// hexadecimal characters.
    pub fn sign_data(data: &str, key: &[u8]) -> (signature: String)
        ensures
            signature@ == signature_of(data@, key@),
            signature@.len() == 64,
            forall|i: int| 0 <= i < 64 ==> is_lower_hex_digit(#[trigger] signature@[i]),
    {
        let tag = compute_hmac_sha256(key, data.as_bytes());
        let signature = hex_encode(tag.as_slice());
        proof {
            lemma_hex_lower_shape(tag@);
        }
        signature
    }

    /// Whether `signature` is exactly the signature of `data` under `key`.
    pub fn verify_data(data: &str, signature: &str, key: &[u8]) -> (valid: bool)
        ensures
            valid == (signature@ == signature_of(data@, key@)),
    {
        let expected = Self::sign_data(data, key);
        let given = signature.to_owned();
        expected == given
    }
}

} // verus!
