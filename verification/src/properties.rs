use vstd::prelude::*;

use crate::common::RiskLevel;
use crate::daemon::{
    confirm_method, executes, fails_with, handles, live_pending, register_method, tool_level, McpDaemon,
    Reply, Request,
};
use crate::registry::{load_result, ToolRegistry};
use crate::risk_engine;
use crate::security::{capability_level, RiskAssessment};
use crate::crypto::signature_of;

verus! {

broadcast use vstd::map::group_map_axioms, vstd::set::group_set_axioms;

/// Capabilities never lower a tool's risk: the assessed level is at least the
/// level the tool declares.
pub proof fn lemma_capabilities_never_lower_risk(base: RiskLevel, caps: Seq<Seq<char>>)
    ensures
        capability_level(base, caps).rank() >= base.rank(),
{
}

/// A verdict never rates a call below the tool's level, and it asks for
/// confirmation exactly when the level is high or the context is ambiguous.
pub proof fn lemma_verdict_is_conservative(r: RiskAssessment, level: RiskLevel, ambiguous: bool)
    requires
        r.is_verdict(level, ambiguous),
    ensures
        r.level.rank() >= level.rank(),
        r.requires_confirmation <==> (level == RiskLevel::High || ambiguous),
{
}

/// A tool runs without a confirmation step only when its risk level is not
/// high and the agent's context is not ambiguous: every direct execution is
/// of a registered tool that passed the risk engine.
pub proof fn lemma_direct_execution_is_low_risk(
    old: McpDaemon,
    new: McpDaemon,
    req: Request,
    now: u128,
    fresh: Seq<char>,
    out: crate::daemon::Outcome,
)
    requires
        handles(old, new, req, now, fresh, out),
        req.method@ != confirm_method(),
        out.reply is Executed,
    ensures
        old.registry.tools@.contains_key(req.method@),
        tool_level(old.registry.tools@[req.method@]) != RiskLevel::High,
        !req.context_ambiguous,
        out.transaction is Some,
{
}

/// Confirming a held request runs it: when a request was held for
/// confirmation with a token, and that token is presented to
/// `system.confirm` before the token's lifetime has passed, the daemon runs
/// the held request's method with its params, and the token is used up.
pub proof fn lemma_confirmation_runs_held_request(
    s0: McpDaemon,
    s1: McpDaemon,
    s2: McpDaemon,
    req: Request,
    t1: u128,
    fresh1: Seq<char>,
    out1: crate::daemon::Outcome,
    confirm: Request,
    t2: u128,
    fresh2: Seq<char>,
    out2: crate::daemon::Outcome,
    token: Seq<char>,
)
    requires
        handles(s0, s1, req, t1, fresh1, out1),
        out1.reply matches Reply::Failed { confirmation: Some(c), .. } && c.token@ == token,
        confirm.method@ == confirm_method(),
        confirm.fields.confirmation_token matches Some(t) && t@ == token,
        t1 <= t2,
        t2 - t1 < s0.config.ttl_nanos(),
        handles(s1, s2, confirm, t2, fresh2, out2),
    ensures
        executes(out2, req.method, req.params),
        out2.id == confirm.id,
        !s2.pending@.contains_key(token),
{
    let live2 = live_pending(s1.pending@, t2 as int, s1.config.ttl_nanos());
    assert(s1.pending@.contains_key(token));
    assert(live2.contains_key(token));
}

/// A confirmation token works once: presenting a token that is not pending
/// (for instance one that was already used) is answered with the
/// invalid-token error and runs nothing.
pub proof fn lemma_unknown_token_is_refused(
    s: McpDaemon,
    s2: McpDaemon,
    confirm: Request,
    now: u128,
    fresh: Seq<char>,
    out: crate::daemon::Outcome,
    token: Seq<char>,
)
    requires
        handles(s, s2, confirm, now, fresh, out),
        confirm.method@ == confirm_method(),
        confirm.fields.confirmation_token matches Some(t) && t@ == token,
        !s.pending@.contains_key(token),
    ensures
        fails_with(out, -32000, "Invalid or expired confirmation token"@),
        s2.registry == s.registry,
{
}

/// A confirmation token expires: when it is presented once its lifetime has
/// passed since the request was held (or at a clock reading before that),
/// the confirmation is refused and the held request does not run.
pub proof fn lemma_expired_token_is_refused(
    s0: McpDaemon,
    s1: McpDaemon,
    s2: McpDaemon,
    req: Request,
    t1: u128,
    fresh1: Seq<char>,
    out1: crate::daemon::Outcome,
    confirm: Request,
    t2: u128,
    fresh2: Seq<char>,
    out2: crate::daemon::Outcome,
    token: Seq<char>,
)
    requires
        handles(s0, s1, req, t1, fresh1, out1),
        out1.reply matches Reply::Failed { confirmation: Some(c), .. } && c.token@ == token,
        confirm.method@ == confirm_method(),
        confirm.fields.confirmation_token matches Some(t) && t@ == token,
        t2 < t1 || t2 - t1 >= s0.config.ttl_nanos(),
        handles(s1, s2, confirm, t2, fresh2, out2),
    ensures
        fails_with(out2, -32000, "Invalid or expired confirmation token"@),
        !s2.pending@.contains_key(token),
{
    let live2 = live_pending(s1.pending@, t2 as int, s1.config.ttl_nanos());
    assert(s1.pending@.contains_key(token));
    assert(!live2.contains_key(token));
}

proof fn lemma_live_len(pending: Map<Seq<char>, crate::daemon::PendingRequest>, now: int, ttl: int)
    requires
        pending.dom().finite(),
    ensures
        live_pending(pending, now, ttl).dom().finite(),
        live_pending(pending, now, ttl).len() <= pending.len(),
{
    let live = live_pending(pending, now, ttl);
    assert(live.dom().subset_of(pending.dom()));
    vstd::set_lib::lemma_len_subset(live.dom(), pending.dom());
}

/// The number of requests waiting for confirmation never exceeds the
/// configured bound.
pub proof fn lemma_pending_stays_bounded(
    old: McpDaemon,
    new: McpDaemon,
    req: Request,
    now: u128,
    fresh: Seq<char>,
    out: crate::daemon::Outcome,
)
    requires
        old.wf(),
        old.pending@.len() <= old.config.max_pending_tokens,
        handles(old, new, req, now, fresh, out),
    ensures
        new.pending@.len() <= new.config.max_pending_tokens,
{
    old.pending.lemma_key_order();
    let live = live_pending(old.pending@, now as int, old.config.ttl_nanos());
    lemma_live_len(old.pending@, now as int, old.config.ttl_nanos());
}

/// A registered tool can be called: after `system.register_tool` registers a
/// tool under a name, a request for that name finds the tool rather than
/// being answered that the tool is not found.
pub proof fn lemma_registered_tool_is_routable(
    s0: McpDaemon,
    s1: McpDaemon,
    s2: McpDaemon,
    reg: Request,
    t1: u128,
    fresh1: Seq<char>,
    out1: crate::daemon::Outcome,
    call: Request,
    t2: u128,
    fresh2: Seq<char>,
    out2: crate::daemon::Outcome,
)
    requires
        handles(s0, s1, reg, t1, fresh1, out1),
        out1.reply is Registered,
        reg.fields.name matches Some(n) && n@ == call.method@,
        call.method@ != confirm_method(),
        call.method@ != register_method(),
        handles(s1, s2, call, t2, fresh2, out2),
    ensures
        s1.registry.tools@.contains_key(call.method@),
        !(out2.reply matches Reply::Failed { code, .. } && code == -32601),
{
}

/// Every tool that runs is logged: an outcome that executes a tool carries
/// the transaction (method, params and output) to write to the log.
pub proof fn lemma_every_execution_is_logged(
    old: McpDaemon,
    new: McpDaemon,
    req: Request,
    now: u128,
    fresh: Seq<char>,
    out: crate::daemon::Outcome,
)
    requires
        handles(old, new, req, now, fresh, out),
        out.reply is Executed,
    ensures
        out.transaction matches Some(tx) && out.reply == Reply::Executed(tx.output)
            && tx.output == crate::daemon::output_for(tx.method@),
{
}

/// The registry changes only when the outcome says so, which is when a tool
/// was registered; every other request leaves the registry as it was.
pub proof fn lemma_registry_changes_only_when_flagged(
    old: McpDaemon,
    new: McpDaemon,
    req: Request,
    now: u128,
    fresh: Seq<char>,
    out: crate::daemon::Outcome,
)
    requires
        handles(old, new, req, now, fresh, out),
    ensures
        !out.registry_changed ==> new.registry == old.registry,
        out.registry_changed ==> out.reply is Registered && req.method@ == register_method(),
{
}

/// A registration stores the declared risk level by its exact name: the tool
/// is high-risk exactly when the field is `"High"`, medium-risk exactly when
/// it is `"Medium"`, and low-risk for any other text (such as `"Low"`) and
/// when the field is missing.
pub proof fn lemma_registration_keeps_declared_level(
    old: McpDaemon,
    new: McpDaemon,
    req: Request,
    now: u128,
    fresh: Seq<char>,
    out: crate::daemon::Outcome,
)
    requires
        handles(old, new, req, now, fresh, out),
        req.method@ == "system.register_tool"@,
        req.fields.name is Some,
        req.fields.provider is Some,
    ensures
        ({
            let name = req.fields.name.unwrap()@;
            let level = new.registry.tools@[name].risk_level;
            &&& new.registry.tools@.contains_key(name)
            &&& (level == RiskLevel::High <==> (req.fields.risk_level matches Some(s) && s@ == "High"@))
            &&& (level == RiskLevel::Medium <==> (req.fields.risk_level matches Some(s) && s@ == "Medium"@))
            &&& (req.fields.risk_level matches Some(s) && s@ == "Low"@) ==> level == RiskLevel::Low
            &&& req.fields.risk_level is None ==> level == RiskLevel::Low
        }),
{
    reveal_strlit("system.register_tool");
    reveal_strlit("system.confirm");
    reveal_strlit("High");
    reveal_strlit("Medium");
    reveal_strlit("Low");
    assert("system.register_tool"@.len() != "system.confirm"@.len());
    assert("High"@.len() != "Medium"@.len());
    assert("High"@.len() != "Low"@.len());
    assert("Medium"@.len() != "Low"@.len());
}

/// The name-based risk engine asks for confirmation exactly when the tool's
/// name is high-risk or the agent's confidence is low; a low-confidence call
/// of a tool that is not high-risk is rated medium with the low-confidence
/// reason, and a confident call of such a tool keeps its level and may
/// proceed.
pub proof fn lemma_named_verdict_confirms_when_ambiguous(
    tool_name: Seq<char>,
    ambiguous: bool,
    r: risk_engine::RiskAssessment,
)
    requires
        r.is_verdict(risk_engine::base_risk_for(tool_name), ambiguous),
    ensures
        r.requires_confirmation <==> (risk_engine::base_risk_for(tool_name) == RiskLevel::High || ambiguous),
        r.level.rank() >= risk_engine::base_risk_for(tool_name).rank(),
        risk_engine::base_risk_for(tool_name) != RiskLevel::High && ambiguous ==> r.level == RiskLevel::Medium
            && r.reason@ == "Agent confidence is low; clarifying intent."@,
        risk_engine::base_risk_for(tool_name) == RiskLevel::High ==> r.level == RiskLevel::High
            && r.reason@ == "High-risk system action detected."@,
        risk_engine::base_risk_for(tool_name) != RiskLevel::High && !ambiguous ==> r.level
            == risk_engine::base_risk_for(tool_name) && r.reason@ == "Safe to proceed."@,
{
}

/// The name-based risk levels: three names are high-risk, two are
/// medium-risk, and every other name is low-risk.
pub proof fn lemma_named_risk_levels(tool_name: Seq<char>)
    ensures
        risk_engine::base_risk_for(tool_name) == RiskLevel::High <==> (tool_name == "financial.transfer"@
            || tool_name == "system.factory_reset"@ || tool_name == "file.delete_all"@),
        risk_engine::base_risk_for(tool_name) == RiskLevel::Medium <==> (tool_name == "messages.send"@
            || tool_name == "contacts.modify"@),
{
    reveal_strlit("financial.transfer");
    reveal_strlit("system.factory_reset");
    reveal_strlit("file.delete_all");
    reveal_strlit("messages.send");
    reveal_strlit("contacts.modify");
    assert("contacts.modify"@[0] != "file.delete_all"@[0]);
    assert("messages.send"@.len() != "financial.transfer"@.len());
    assert("messages.send"@.len() != "system.factory_reset"@.len());
    assert("messages.send"@.len() != "file.delete_all"@.len());
    assert("contacts.modify"@.len() != "financial.transfer"@.len());
    assert("contacts.modify"@.len() != "system.factory_reset"@.len());
}

/// A call that needs confirmation is held whenever fewer requests are
/// pending than the configured bound: it is answered "Confirmation required"
/// with the token `conf_` followed by the fresh part, and the request (its
/// method, params and the current time) is stored under that token.
pub proof fn lemma_held_while_room_remains(
    old: McpDaemon,
    new: McpDaemon,
    req: Request,
    now: u128,
    fresh: Seq<char>,
    out: crate::daemon::Outcome,
)
    requires
        old.wf(),
        handles(old, new, req, now, fresh, out),
        req.method@ != "system.confirm"@,
        req.method@ != "system.register_tool"@,
        req.method@ != "system.list_tools"@,
        req.method@ != "system.audit_log"@,
        old.registry.tools@.contains_key(req.method@),
        tool_level(old.registry.tools@[req.method@]) == RiskLevel::High || req.context_ambiguous,
        old.pending@.len() < old.config.max_pending_tokens,
    ensures
        out.reply matches Reply::Failed { code, message, confirmation: Some(c) } && code == -32000 && message@
            == "Confirmation required"@ && c.token@ == "conf_"@ + fresh,
        new.pending@.contains_key("conf_"@ + fresh),
        new.pending@["conf_"@ + fresh] == (crate::daemon::PendingRequest {
            method: req.method,
            params: req.params,
            created_at: now,
        }),
        out.transaction is None,
{
    old.pending.lemma_key_order();
    lemma_live_len(old.pending@, now as int, old.config.ttl_nanos());
}

/// A call of a method that is neither registered nor one of the daemon's own
/// methods is answered "Tool not found" with error -32601, whatever the
/// agent's confidence, and holds or runs nothing.
pub proof fn lemma_unknown_method_is_not_found(
    old: McpDaemon,
    new: McpDaemon,
    req: Request,
    now: u128,
    fresh: Seq<char>,
    out: crate::daemon::Outcome,
)
    requires
        handles(old, new, req, now, fresh, out),
        req.method@ != "system.confirm"@,
        req.method@ != "system.register_tool"@,
        req.method@ != "system.list_tools"@,
        req.method@ != "system.audit_log"@,
        !old.registry.tools@.contains_key(req.method@),
    ensures
        out.reply matches Reply::Failed { code, message, confirmation: None } && code == -32601 && message@
            == "Tool not found: "@ + req.method@,
        new.pending@ == old.pending@,
        new.registry == old.registry,
        out.transaction is None,
{
}

/// Loading accepts exactly the right signature: the registry comes back when
/// the presented signature is the HMAC-SHA256 signature of the serialization
/// under the key (the text `sign_data` returns), and nothing comes back for
/// any other signature text.
pub proof fn lemma_load_accepts_only_the_signature(
    registry: ToolRegistry,
    signature: Seq<char>,
    unsigned_json: Seq<char>,
    key: Seq<u8>,
)
    ensures
        load_result(registry, signature, unsigned_json, key) is Some ==> signature == signature_of(unsigned_json, key),
        signature != signature_of(unsigned_json, key) ==> load_result(registry, signature, unsigned_json, key) is None,
        signature == signature_of(unsigned_json, key) ==> load_result(registry, signature, unsigned_json, key)
            == Some(registry),
{
}

/// The capability-based verdict, in full: a high-risk level is confirmed
/// with the high-risk reason; otherwise a low-confidence call is rated medium
/// and confirmed with the low-confidence reason; otherwise the call keeps its
/// level and may proceed.
pub proof fn lemma_verdict_reasons(r: RiskAssessment, level: RiskLevel, ambiguous: bool)
    requires
        r.is_verdict(level, ambiguous),
    ensures
        level == RiskLevel::High ==> r.level == RiskLevel::High && r.requires_confirmation && r.reason@
            == "High-risk system action detected."@,
        level != RiskLevel::High && ambiguous ==> r.level == RiskLevel::Medium && r.requires_confirmation
            && r.reason@ == "Agent confidence is low; clarifying intent."@,
        level != RiskLevel::High && !ambiguous ==> r.level == level && !r.requires_confirmation && r.reason@
            == "Safe to proceed."@,
{
}

/// Which capabilities raise a tool's risk: the level is high exactly when the
/// tool declares high risk or has the capability `financial` or
/// `system_admin`; otherwise it is medium exactly when the tool declares
/// medium risk or has the capability `privacy_sensitive`.
pub proof fn lemma_capability_levels(base: RiskLevel, caps: Seq<Seq<char>>)
    ensures
        capability_level(base, caps) == RiskLevel::High <==> (base == RiskLevel::High || exists|i: int|
            0 <= i < caps.len() && (#[trigger] caps[i] == "financial"@ || caps[i] == "system_admin"@)),
        capability_level(base, caps) == RiskLevel::Medium <==> (!(base == RiskLevel::High || exists|i: int|
            0 <= i < caps.len() && (#[trigger] caps[i] == "financial"@ || caps[i] == "system_admin"@)) && (
        base == RiskLevel::Medium || exists|i: int| 0 <= i < caps.len() && #[trigger] caps[i]
            == "privacy_sensitive"@)),
{
    if exists|i: int| 0 <= i < caps.len() && (#[trigger] caps[i] == "financial"@ || caps[i] == "system_admin"@) {
        let i = choose|i: int| 0 <= i < caps.len() && (#[trigger] caps[i] == "financial"@ || caps[i] == "system_admin"@);
        assert(crate::security::is_critical_capability(caps[i]));
    }
    if exists|i: int| 0 <= i < caps.len() && #[trigger] caps[i] == "privacy_sensitive"@ {
        let i = choose|i: int| 0 <= i < caps.len() && #[trigger] caps[i] == "privacy_sensitive"@;
        assert(crate::security::is_privacy_capability(caps[i]));
    }
}

/// What running a tool produces: the camera, contacts and messages tools have
/// their own outputs, and every other tool the scaffold output.
pub proof fn lemma_tool_outputs(method: Seq<char>)
    ensures
        (crate::daemon::output_for(method) == crate::daemon::ToolOutput::CameraCapture) <==> method
            == "camera.capture"@,
        (crate::daemon::output_for(method) == crate::daemon::ToolOutput::ContactsResolve) <==> method
            == "contacts.resolve"@,
        (crate::daemon::output_for(method) == crate::daemon::ToolOutput::MessagesSend) <==> method
            == "messages.send"@,
{
    reveal_strlit("camera.capture");
    reveal_strlit("contacts.resolve");
    reveal_strlit("messages.send");
    assert("camera.capture"@.len() != "contacts.resolve"@.len());
    assert("camera.capture"@.len() != "messages.send"@.len());
    assert("contacts.resolve"@.len() != "messages.send"@.len());
}

/// Requests that lack a required parameter are refused with error -32602 and
/// change nothing: a confirmation without a token, and a registration
/// without a name or without a provider.
pub proof fn lemma_missing_parameters_are_refused(
    old: McpDaemon,
    new: McpDaemon,
    req: Request,
    now: u128,
    fresh: Seq<char>,
    out: crate::daemon::Outcome,
)
    requires
        handles(old, new, req, now, fresh, out),
    ensures
        req.method@ == "system.confirm"@ && req.fields.confirmation_token is None ==> (out.reply matches Reply::Failed {
            code,
            message,
            confirmation: None,
        } && code == -32602 && message@ == "Missing confirmation_token"@) && new.pending@ == old.pending@
            && new.registry == old.registry,
        req.method@ == "system.register_tool"@ && req.fields.name is None ==> (out.reply matches Reply::Failed {
            code,
            message,
            confirmation: None,
        } && code == -32602 && message@ == "Missing name"@) && new.registry == old.registry,
        req.method@ == "system.register_tool"@ && req.fields.name is Some && req.fields.provider is None ==> (
        out.reply matches Reply::Failed { code, message, confirmation: None } && code == -32602 && message@
            == "Missing provider"@) && new.registry == old.registry,
{
    reveal_strlit("system.register_tool");
    reveal_strlit("system.confirm");
    assert("system.register_tool"@.len() != "system.confirm"@.len());
}

} // verus!
