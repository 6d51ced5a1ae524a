use mcpd::common::{RiskLevel, Tool};
use mcpd::security::{IntegrityManager, RiskEngine};

fn tool_with(level: RiskLevel, caps: &[&str]) -> Tool {
    Tool {
        name: "test.tool".to_string(),
        provider: "test".to_string(),
        risk_level: level,
        capabilities: caps.iter().map(|c| c.to_string()).collect(),
    }
}

#[test]
fn test_risk_assessment_high_capability() {
    let tool = Tool {
        name: "test.tool".to_string(),
        provider: "test".to_string(),
        risk_level: RiskLevel::Low,
        capabilities: vec!["financial".to_string()],
    };
    let confidence: f64 = 1.0;
    let assessment = RiskEngine::assess(&tool, confidence < 0.7);
    assert_eq!(assessment.level, RiskLevel::High);
    assert!(assessment.requires_confirmation);
}

#[test]
fn test_risk_assessment_ambiguous() {
    let tool = Tool {
        name: "test.tool".to_string(),
        provider: "test".to_string(),
        risk_level: RiskLevel::Low,
        capabilities: vec![],
    };
    let confidence: f64 = 0.5;
    let assessment = RiskEngine::assess(&tool, confidence < 0.7);
    assert_eq!(assessment.level, RiskLevel::Medium);
    assert!(assessment.requires_confirmation);
}

#[test]
fn privacy_capability_raises_low_to_medium() {
    let a = RiskEngine::assess(&tool_with(RiskLevel::Low, &["privacy_sensitive"]), false);
    assert_eq!(a.level, RiskLevel::Medium);
    assert!(!a.requires_confirmation);
    assert_eq!(a.reason, "Safe to proceed.");
}

#[test]
fn privacy_capability_keeps_medium() {
    let a = RiskEngine::assess(&tool_with(RiskLevel::Medium, &["privacy_sensitive", "other"]), false);
    assert_eq!(a.level, RiskLevel::Medium);
    assert!(!a.requires_confirmation);
}

#[test]
fn system_admin_capability_is_high_risk() {
    let a = RiskEngine::assess(&tool_with(RiskLevel::Low, &["camera", "system_admin"]), false);
    assert_eq!(a.level, RiskLevel::High);
    assert!(a.requires_confirmation);
    assert_eq!(a.reason, "High-risk system action detected.");
}

#[test]
fn later_privacy_capability_does_not_lower_high() {
    let a = RiskEngine::assess(&tool_with(RiskLevel::Low, &["financial", "privacy_sensitive"]), false);
    assert_eq!(a.level, RiskLevel::High);
}

#[test]
fn high_base_level_wins_over_ambiguity() {
    let a = RiskEngine::assess(&tool_with(RiskLevel::High, &[]), true);
    assert_eq!(a.level, RiskLevel::High);
    assert!(a.requires_confirmation);
    assert_eq!(a.reason, "High-risk system action detected.");
}

#[test]
fn ambiguous_context_reason() {
    let a = RiskEngine::assess(&tool_with(RiskLevel::Medium, &[]), true);
    assert_eq!(a.level, RiskLevel::Medium);
    assert_eq!(a.reason, "Agent confidence is low; clarifying intent.");
}

#[test]
fn low_risk_tool_proceeds() {
    let a = RiskEngine::assess(&tool_with(RiskLevel::Low, &["unknown_capability"]), false);
    assert_eq!(a.level, RiskLevel::Low);
    assert!(!a.requires_confirmation);
}

#[test]
fn sign_data_matches_known_hmac_sha256() {
    // HMAC-SHA256 example vector from the hmac crate's documentation.
    let sig = IntegrityManager::sign_data("input message", b"my secret and secure key");
    assert_eq!(sig, "97d2a569059bbcd8ead4444ff99071f4c01d005bcefe0d3567e1be628e5fdcd9");
}

#[test]
fn sign_data_rfc4231_case_2() {
    let sig = IntegrityManager::sign_data("what do ya want for nothing?", b"Jefe");
    assert_eq!(sig, "5bdcc146bf60754e6a042426089575c75a003f089d2739839dec58b964ec3843");
}

#[test]
fn signature_is_64_lowercase_hex_digits() {
    let sig = IntegrityManager::sign_data("{\"tools\":{},\"signature\":\"\"}", b"secret_key");
    assert_eq!(sig.len(), 64);
    assert!(sig.chars().all(|c| c.is_ascii_digit() || ('a'..='f').contains(&c)));
}

#[test]
fn signature_round_trip_verifies() {
    let key = b"secret_key";
    let sig = IntegrityManager::sign_data("payload", key);
    assert!(IntegrityManager::verify_data("payload", &sig, key));
}

#[test]
fn verify_rejects_tampered_data_key_or_signature() {
    let key = b"secret_key";
    let sig = IntegrityManager::sign_data("payload", key);
    assert!(!IntegrityManager::verify_data("payload!", &sig, key));
    assert!(!IntegrityManager::verify_data("payload", &sig, b"other_key"));
    assert!(!IntegrityManager::verify_data("payload", &sig.to_uppercase(), key));
    assert!(!IntegrityManager::verify_data("payload", "", key));
}
