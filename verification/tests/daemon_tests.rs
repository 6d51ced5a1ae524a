use mcpd::common::{RiskLevel, Tool};
use mcpd::config::{default_allowed_uids, default_max_tokens, default_ttl, SecurityConfig};
use mcpd::daemon::{
    log_needs_rotation, simulated_output, system_tools, McpDaemon, Outcome, Reply, Request, RequestFields, ToolOutput,
};
use mcpd::registry::ToolRegistry;
use serde_json::Value;

const SEC: u128 = 1_000_000_000;

fn no_fields() -> RequestFields {
    RequestFields { confirmation_token: None, name: None, provider: None, risk_level: None, capabilities: None }
}

fn call(method: &str, id: i64, ambiguous: bool) -> Request {
    Request {
        method: method.to_string(),
        id: Value::from(id),
        params: Value::from(format!("params-{}", id)),
        fields: no_fields(),
        context_ambiguous: ambiguous,
    }
}

fn confirm(token: Option<&str>, id: i64) -> Request {
    let mut r = call("system.confirm", id, false);
    r.fields.confirmation_token = token.map(|t| t.to_string());
    r
}

fn register(name: Option<&str>, provider: Option<&str>, level: Option<&str>, caps: Option<Vec<Option<&str>>>) -> Request {
    let mut r = call("system.register_tool", 7, false);
    r.fields.name = name.map(|s| s.to_string());
    r.fields.provider = provider.map(|s| s.to_string());
    r.fields.risk_level = level.map(|s| s.to_string());
    r.fields.capabilities = caps.map(|v| v.into_iter().map(|c| c.map(|s| s.to_string())).collect());
    r
}

fn config(ttl: u64, max: usize) -> SecurityConfig {
    SecurityConfig { confirmation_ttl_secs: ttl, max_pending_tokens: max, allowed_uids: vec![1001] }
}

fn daemon(ttl: u64, max: usize) -> McpDaemon {
    let mut d = McpDaemon::new(config(ttl, max), ToolRegistry::new());
    for t in system_tools() {
        d.register_tool(t);
    }
    d
}

fn failure(out: &Outcome) -> (i64, String, Option<(String, String)>) {
    match &out.reply {
        Reply::Failed { code, message, confirmation } => (
            *code,
            message.clone(),
            confirmation.as_ref().map(|c| (c.token.clone(), c.reason.clone())),
        ),
        _ => panic!("expected a failure"),
    }
}

fn token_of(out: &Outcome) -> String {
    failure(out).2.expect("expected a confirmation request").0
}

#[test]
fn defaults_are_thirty_seconds_hundred_tokens_uid_1001() {
    assert_eq!(default_ttl(), 30);
    assert_eq!(default_max_tokens(), 100);
    assert_eq!(default_allowed_uids(), vec![1001]);
    let c = SecurityConfig::defaults();
    assert_eq!(c.confirmation_ttl_secs, 30);
    assert_eq!(c.max_pending_tokens, 100);
    assert_eq!(c.allowed_uids, vec![1001]);
}

#[test]
fn uid_allow_list() {
    let c = SecurityConfig { confirmation_ttl_secs: 30, max_pending_tokens: 1, allowed_uids: vec![0, 1001] };
    assert!(c.is_uid_allowed(1001));
    assert!(c.is_uid_allowed(0));
    assert!(!c.is_uid_allowed(1002));
    let empty = SecurityConfig { confirmation_ttl_secs: 30, max_pending_tokens: 1, allowed_uids: vec![] };
    assert!(!empty.is_uid_allowed(1001));
}

#[test]
fn log_rotation_above_ten_mebibytes() {
    assert!(!log_needs_rotation(0));
    assert!(!log_needs_rotation(10 * 1024 * 1024));
    assert!(log_needs_rotation(10 * 1024 * 1024 + 1));
}

#[test]
fn simulated_outputs_by_method() {
    assert_eq!(simulated_output("camera.capture"), ToolOutput::CameraCapture);
    assert_eq!(simulated_output("contacts.resolve"), ToolOutput::ContactsResolve);
    assert_eq!(simulated_output("messages.send"), ToolOutput::MessagesSend);
    assert_eq!(simulated_output("weather.get"), ToolOutput::Scaffold);
}

#[test]
fn system_tools_are_registered_at_start() {
    let tools = system_tools();
    let names: Vec<&str> = tools.iter().map(|t| t.name.as_str()).collect();
    assert_eq!(names, vec!["camera.capture", "contacts.resolve", "messages.send", "financial.transfer"]);
    assert_eq!(tools[3].risk_level, RiskLevel::High);
    assert_eq!(tools[3].capabilities, vec!["financial".to_string()]);
    assert_eq!(tools[0].provider, "system.camera");
}

#[test]
fn unknown_tool_is_not_found() {
    let mut d = daemon(30, 100);
    let out = d.handle_request_at(call("weather.get", 3, false), 0, String::new());
    assert_eq!(out.id, Value::from(3));
    assert_eq!(failure(&out), (-32601, "Tool not found: weather.get".to_string(), None));
    assert!(out.transaction.is_none());
}

#[test]
fn low_risk_tool_executes_and_is_logged() {
    let mut d = daemon(30, 100);
    let out = d.handle_request_at(call("contacts.resolve", 4, false), 0, String::new());
    assert!(matches!(out.reply, Reply::Executed(ToolOutput::ContactsResolve)));
    let tx = out.transaction.expect("transaction");
    assert_eq!(tx.method, "contacts.resolve");
    assert_eq!(tx.params, Value::from("params-4"));
    assert_eq!(tx.output, ToolOutput::ContactsResolve);
    assert!(!out.registry_changed);
}

#[test]
fn medium_risk_tool_with_confident_agent_executes() {
    let mut d = daemon(30, 100);
    let out = d.handle_request_at(call("camera.capture", 5, false), 0, String::new());
    assert!(matches!(out.reply, Reply::Executed(ToolOutput::CameraCapture)));
}

#[test]
fn high_risk_tool_is_held_then_runs_on_confirmation() {
    let mut d = daemon(30, 100);
    let out = d.handle_request_at(call("financial.transfer", 1, false), 10 * SEC, "abc".to_string());
    let (code, message, conf) = failure(&out);
    assert_eq!(code, -32000);
    assert_eq!(message, "Confirmation required");
    assert_eq!(conf, Some(("conf_abc".to_string(), "High-risk system action detected.".to_string())));
    assert!(out.transaction.is_none());

    let done = d.handle_request_at(confirm(Some("conf_abc"), 2), 20 * SEC, String::new());
    assert_eq!(done.id, Value::from(2));
    assert!(matches!(done.reply, Reply::Executed(ToolOutput::Scaffold)));
    let tx = done.transaction.expect("transaction");
    assert_eq!(tx.method, "financial.transfer");
    assert_eq!(tx.params, Value::from("params-1"));

    // The token is used up.
    let again = d.handle_request_at(confirm(Some("conf_abc"), 3), 21 * SEC, String::new());
    assert_eq!(failure(&again), (-32000, "Invalid or expired confirmation token".to_string(), None));
}

#[test]
fn ambiguous_request_is_held_with_low_confidence_reason() {
    let mut d = daemon(30, 100);
    let out = d.handle_request_at(call("messages.send", 1, true), 0, "x".to_string());
    let conf = failure(&out).2.expect("confirmation");
    assert_eq!(conf.1, "Agent confidence is low; clarifying intent.");
    let done = d.handle_request_at(confirm(Some("conf_x"), 2), 0, String::new());
    assert!(matches!(done.reply, Reply::Executed(ToolOutput::MessagesSend)));
}

#[test]
fn token_expires_after_ttl() {
    let mut d = daemon(30, 100);
    let out = d.handle_request_at(call("financial.transfer", 1, false), 100 * SEC, "t".to_string());
    assert_eq!(token_of(&out), "conf_t");
    let late = d.handle_request_at(confirm(Some("conf_t"), 2), 130 * SEC, String::new());
    assert_eq!(failure(&late), (-32000, "Invalid or expired confirmation token".to_string(), None));
}

#[test]
fn token_is_valid_just_before_ttl() {
    let mut d = daemon(30, 100);
    d.handle_request_at(call("financial.transfer", 1, false), 100 * SEC, "t".to_string());
    let ok = d.handle_request_at(confirm(Some("conf_t"), 2), 130 * SEC - 1, String::new());
    assert!(matches!(ok.reply, Reply::Executed(_)));
}

#[test]
fn token_from_the_future_is_refused() {
    let mut d = daemon(30, 100);
    d.handle_request_at(call("financial.transfer", 1, false), 100 * SEC, "t".to_string());
    let early = d.handle_request_at(confirm(Some("conf_t"), 2), 99 * SEC, String::new());
    assert_eq!(failure(&early).0, -32000);
}

#[test]
fn confirm_without_token_is_invalid_params() {
    let mut d = daemon(30, 100);
    let out = d.handle_request_at(confirm(None, 9), 0, String::new());
    assert_eq!(out.id, Value::from(9));
    assert_eq!(failure(&out), (-32602, "Missing confirmation_token".to_string(), None));
}

#[test]
fn unknown_token_is_refused() {
    let mut d = daemon(30, 100);
    let out = d.handle_request_at(confirm(Some("conf_nope"), 9), 0, String::new());
    assert_eq!(failure(&out), (-32000, "Invalid or expired confirmation token".to_string(), None));
}

#[test]
fn too_many_pending_confirmations() {
    let mut d = daemon(30, 1);
    let first = d.handle_request_at(call("financial.transfer", 1, false), 0, "a".to_string());
    assert_eq!(token_of(&first), "conf_a");
    let second = d.handle_request_at(call("financial.transfer", 2, false), SEC, "b".to_string());
    assert_eq!(failure(&second), (-32000, "Too many pending confirmations".to_string(), None));
    // Once the first one has expired, there is room again.
    let third = d.handle_request_at(call("financial.transfer", 3, false), 31 * SEC, "c".to_string());
    assert_eq!(token_of(&third), "conf_c");
    assert_eq!(d.pending.len(), 1);
}

#[test]
fn register_tool_then_call_it() {
    let mut d = daemon(30, 100);
    let out = d.handle_request_at(
        register(Some("weather.get"), Some("com.example.weather"), Some("Medium"), Some(vec![Some("location"), None, Some("network")])),
        0,
        String::new(),
    );
    assert!(matches!(&out.reply, Reply::Registered { tool } if tool == "weather.get"));
    assert!(out.registry_changed);
    let t = d.registry.tools.get("weather.get").expect("registered");
    assert_eq!(t.provider, "com.example.weather");
    assert_eq!(t.risk_level, RiskLevel::Medium);
    assert_eq!(t.capabilities, vec!["location".to_string(), "network".to_string()]);

    let run = d.handle_request_at(call("weather.get", 8, false), 0, String::new());
    assert!(matches!(run.reply, Reply::Executed(ToolOutput::Scaffold)));
}

#[test]
fn register_defaults_to_low_risk_and_no_capabilities() {
    let mut d = daemon(30, 100);
    d.handle_request_at(register(Some("a.b"), Some("p"), None, None), 0, String::new());
    let t = d.registry.tools.get("a.b").unwrap();
    assert_eq!(t.risk_level, RiskLevel::Low);
    assert!(t.capabilities.is_empty());
    d.handle_request_at(register(Some("a.c"), Some("p"), Some("high"), None), 0, String::new());
    assert_eq!(d.registry.tools.get("a.c").unwrap().risk_level, RiskLevel::Low);
    d.handle_request_at(register(Some("a.d"), Some("p"), Some("High"), None), 0, String::new());
    assert_eq!(d.registry.tools.get("a.d").unwrap().risk_level, RiskLevel::High);
}

#[test]
fn registering_a_financial_tool_makes_it_need_confirmation() {
    let mut d = daemon(30, 100);
    d.handle_request_at(register(Some("bank.pay"), Some("p"), None, Some(vec![Some("financial")])), 0, String::new());
    let out = d.handle_request_at(call("bank.pay", 2, false), 0, "z".to_string());
    assert_eq!(token_of(&out), "conf_z");
}

#[test]
fn register_replaces_existing_tool() {
    let mut d = daemon(30, 100);
    d.handle_request_at(register(Some("camera.capture"), Some("other"), Some("High"), None), 0, String::new());
    assert_eq!(d.registry.tools.len(), 4);
    let t = d.registry.tools.get("camera.capture").unwrap();
    assert_eq!(t.provider, "other");
    assert_eq!(t.risk_level, RiskLevel::High);
}

#[test]
fn register_without_name_or_provider() {
    let mut d = daemon(30, 100);
    let a = d.handle_request_at(register(None, Some("p"), None, None), 0, String::new());
    assert_eq!(failure(&a), (-32602, "Missing name".to_string(), None));
    let b = d.handle_request_at(register(Some("x.y"), None, None, None), 0, String::new());
    assert_eq!(failure(&b), (-32602, "Missing provider".to_string(), None));
    assert!(d.registry.tools.get("x.y").is_none());
    assert!(!b.registry_changed);
}

#[test]
fn needs_confirmation_predicts_holding() {
    let d = daemon(30, 100);
    assert!(d.needs_confirmation(&call("financial.transfer", 1, false)));
    assert!(d.needs_confirmation(&call("camera.capture", 1, true)));
    assert!(!d.needs_confirmation(&call("camera.capture", 1, false)));
    assert!(!d.needs_confirmation(&call("weather.get", 1, true)));
    assert!(!d.needs_confirmation(&confirm(Some("conf_x"), 1)));
    assert!(!d.needs_confirmation(&call("system.list_tools", 1, true)));
}

#[test]
fn uuid_tokens_round_trip() {
    let mut d = daemon(30, 100);
    let fresh = uuid::Uuid::new_v4().to_string();
    let out = d.handle_request_at(call("financial.transfer", 1, false), 0, fresh.clone());
    let token = token_of(&out);
    assert_eq!(token, format!("conf_{}", fresh));
    assert_eq!(token.len(), 41);
    let done = d.handle_request_at(confirm(Some(&token), 3), SEC, String::new());
    assert!(matches!(done.reply, Reply::Executed(_)));
}

#[test]
fn list_tools_names_the_registered_tools() {
    let mut d = daemon(30, 100);
    let out = d.handle_request_at(call("system.list_tools", 5, false), 0, String::new());
    assert_eq!(out.id, Value::from(5));
    match out.reply {
        Reply::ToolList(mut names) => {
            names.sort();
            assert_eq!(names, vec!["camera.capture", "contacts.resolve", "financial.transfer", "messages.send"]);
        },
        _ => panic!("expected the tool list"),
    }
    assert!(out.transaction.is_none());
    assert!(!out.registry_changed);
}

#[test]
fn list_tools_on_empty_registry() {
    let mut d = McpDaemon::new(config(30, 100), ToolRegistry::new());
    let out = d.handle_request_at(call("system.list_tools", 1, true), 0, String::new());
    assert!(matches!(out.reply, Reply::ToolList(ref names) if names.is_empty()));
}

#[test]
fn list_tools_includes_newly_registered_tool() {
    let mut d = daemon(30, 100);
    d.handle_request_at(register(Some("weather.get"), Some("p"), None, None), 0, String::new());
    let out = d.handle_request_at(call("system.list_tools", 2, false), 0, String::new());
    match out.reply {
        Reply::ToolList(names) => {
            assert_eq!(names.len(), 5);
            assert!(names.iter().any(|n| n == "weather.get"));
        },
        _ => panic!("expected the tool list"),
    }
}

#[test]
fn audit_log_is_answered() {
    let mut d = daemon(30, 100);
    let out = d.handle_request_at(call("system.audit_log", 6, false), 0, String::new());
    assert_eq!(out.id, Value::from(6));
    assert!(matches!(out.reply, Reply::AuditLog));
    assert!(out.transaction.is_none());
    assert!(!out.registry_changed);
}

#[test]
fn tool_lookup_uses_registry_contents() {
    let mut reg = ToolRegistry::new();
    reg.register_tool(Tool { name: "x.y".to_string(), provider: "p".to_string(), risk_level: RiskLevel::Low, capabilities: vec![] });
    let mut d = McpDaemon::new(config(30, 100), reg);
    let out = d.handle_request_at(call("x.y", 1, false), 0, String::new());
    assert!(matches!(out.reply, Reply::Executed(ToolOutput::Scaffold)));
}
