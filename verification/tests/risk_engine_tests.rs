use mcpd::common::RiskLevel;
use mcpd::risk_engine::RiskEngine;

#[test]
fn named_financial_transfer_is_high_risk() {
    let a = RiskEngine::assess("financial.transfer", false);
    assert_eq!(a.level, RiskLevel::High);
    assert!(a.requires_confirmation);
    assert_eq!(a.reason, "High-risk system action detected.");
}

#[test]
fn named_high_risk_tools() {
    assert_eq!(RiskEngine::assess("system.factory_reset", false).level, RiskLevel::High);
    assert_eq!(RiskEngine::assess("file.delete_all", true).level, RiskLevel::High);
}

#[test]
fn named_medium_risk_tools_proceed_when_confident() {
    let a = RiskEngine::assess("messages.send", false);
    assert_eq!(a.level, RiskLevel::Medium);
    assert!(!a.requires_confirmation);
    assert_eq!(RiskEngine::assess("contacts.modify", false).level, RiskLevel::Medium);
}

#[test]
fn unknown_tool_is_low_risk() {
    let a = RiskEngine::assess("clock.get_time", false);
    assert_eq!(a.level, RiskLevel::Low);
    assert!(!a.requires_confirmation);
    assert_eq!(a.reason, "Safe to proceed.");
}

#[test]
fn ambiguous_low_risk_call_needs_confirmation() {
    let a = RiskEngine::assess("weather.get", true);
    assert_eq!(a.level, RiskLevel::Medium);
    assert!(a.requires_confirmation);
    assert_eq!(a.reason, "Agent confidence is low; clarifying intent.");
}
