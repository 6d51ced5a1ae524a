use vstd::prelude::*;
use vstd::string::*;

use crate::common::{RiskLevel, Tool};
use crate::config::SecurityConfig;
use crate::registry::{string_views, ToolRegistry};
use crate::security::{capability_level, high_risk_reason, low_confidence_reason, RiskEngine};
use crate::string_map::{restrict, StringMap};

verus! {

broadcast use vstd::map::group_map_axioms, vstd::set::group_set_axioms;

/// A JSON value of `serde_json`, carried through the daemon unread.
#[verifier::external_type_specification]
#[verifier::external_body]
pub struct ExJsonValue(serde_json::Value);

// ---------------------------------------------------------------------------
// Start-up tools and the transaction log
// ---------------------------------------------------------------------------

/// Whether `t` is the tool `name` of `provider` at `level` with the
/// capabilities `caps`.
pub open spec fn is_tool(t: Tool, name: Seq<char>, provider: Seq<char>, level: RiskLevel, caps: Seq<Seq<char>>) -> bool {
    &&& t.name@ == name
    &&& t.provider@ == provider
    &&& t.risk_level == level
    &&& t.capability_names() == caps
}

fn make_tool(name: &str, provider: &str, level: RiskLevel, caps: Vec<String>) -> (t: Tool)
    ensures
        t.name@ == name@,
        t.provider@ == provider@,
        t.risk_level == level,
        t.capabilities == caps,
{
    Tool { name: name.to_owned(), provider: provider.to_owned(), risk_level: level, capabilities: caps }
}

fn one_capability(cap: &str) -> (caps: Vec<String>)
    ensures
        caps@.map_values(|c: String| c@) == seq![cap@],
{
    let mut caps = Vec::new();
    caps.push(cap.to_owned());
    assert(caps@.map_values(|c: String| c@) =~= seq![cap@]);
    caps
}

/// The system tools that the daemon registers when it starts.
pub fn system_tools() -> (tools: Vec<Tool>)
    ensures
        tools@.len() == 4,
        is_tool(tools@[0], "camera.capture"@, "system.camera"@, RiskLevel::Medium, seq!["privacy_sensitive"@]),
        is_tool(tools@[1], "contacts.resolve"@, "system.contacts"@, RiskLevel::Low, Seq::empty()),
        is_tool(tools@[2], "messages.send"@, "system.messages"@, RiskLevel::Medium, seq!["privacy_sensitive"@]),
        is_tool(tools@[3], "financial.transfer"@, "system.finance"@, RiskLevel::High, seq!["financial"@]),
{
    let mut tools = Vec::new();
    tools.push(make_tool("camera.capture", "system.camera", RiskLevel::Medium, one_capability("privacy_sensitive")));
    let none: Vec<String> = Vec::new();
    assert(none@.map_values(|c: String| c@) =~= Seq::<Seq<char>>::empty());
    tools.push(make_tool("contacts.resolve", "system.contacts", RiskLevel::Low, none));
    tools.push(make_tool("messages.send", "system.messages", RiskLevel::Medium, one_capability("privacy_sensitive")));
    tools.push(make_tool("financial.transfer", "system.finance", RiskLevel::High, one_capability("financial")));
    tools
}

/// Size in bytes above which the transaction log is rotated before the next
/// entry is written.
pub open spec fn log_rotation_threshold() -> int {
    10485760int
}

/// Whether a transaction log of `size` bytes must be rotated before the next
/// entry is appended: it must when it is larger than 10 MiB.
pub fn log_needs_rotation(size: u64) -> (rotate: bool)
    ensures
        rotate == (size > log_rotation_threshold()),
{
    size > 10 * 1024 * 1024
}

// ---------------------------------------------------------------------------
// Requests and outcomes
// ---------------------------------------------------------------------------

/// The parameters of a request that the daemon reads. Each is the string
/// found under its key in the request's params, if there is one; the
/// capabilities are the entries of the `capabilities` array, each the string
/// it holds or `None` for an entry that is not a string.
pub struct RequestFields {
    pub confirmation_token: Option<String>,
    pub name: Option<String>,
    pub provider: Option<String>,
    pub risk_level: Option<String>,
    pub capabilities: Option<Vec<Option<String>>>,
}

/// A JSON-RPC request as the daemon sees it. `context_ambiguous` says whether
/// the agent's confidence in its context is below the ambiguity threshold.
pub struct Request {
    pub method: String,
    pub id: serde_json::Value,
    pub params: serde_json::Value,
    pub fields: RequestFields,
    pub context_ambiguous: bool,
}

/// A request that waits for confirmation, with the time it was stored at
/// (nanoseconds on the system clock).
pub struct PendingRequest {
    pub method: String,
    pub params: serde_json::Value,
    pub created_at: u128,
}

/// The result that executing a tool produces.
#[derive(Clone, Copy, Debug, PartialEq, Eq, Structural)]
pub enum ToolOutput {
    CameraCapture,
    ContactsResolve,
    MessagesSend,
    Scaffold,
}

/// What the caller must present to confirm a request, and why it must.
pub struct ConfirmationRequest {
    pub token: String,
    pub reason: String,
}

/// The body of a response.
pub enum Reply {
    Registered { tool: String },
    /// The names of the registered tools.
    ToolList(Vec<String>),
    /// The caller answers with the entries of the transaction log.
    AuditLog,
    Executed(ToolOutput),
    Failed { code: i64, message: String, confirmation: Option<ConfirmationRequest> },
}

/// An executed tool call, to be written to the transaction log.
pub struct Transaction {
    pub method: String,
    pub params: serde_json::Value,
    pub output: ToolOutput,
}

/// The answer to one request: the response (the request's id and the reply),
/// the transaction to log if a tool ran, and whether the registry changed and
/// must be saved.
pub struct Outcome {
    pub id: serde_json::Value,
    pub reply: Reply,
    pub transaction: Option<Transaction>,
    pub registry_changed: bool,
}

pub open spec fn confirm_method() -> Seq<char> {
    "system.confirm"@
}

pub open spec fn register_method() -> Seq<char> {
    "system.register_tool"@
}

pub open spec fn list_tools_method() -> Seq<char> {
    "system.list_tools"@
}

pub open spec fn audit_log_method() -> Seq<char> {
    "system.audit_log"@
}

pub open spec fn token_prefix() -> Seq<char> {
    "conf_"@
}

/// The output that executing `method` produces.
pub open spec fn output_for(method: Seq<char>) -> ToolOutput {
    if method == "camera.capture"@ {
        ToolOutput::CameraCapture
    } else if method == "contacts.resolve"@ {
        ToolOutput::ContactsResolve
    } else if method == "messages.send"@ {
        ToolOutput::MessagesSend
    } else {
        ToolOutput::Scaffold
    }
}

/// The risk level named in a registration: `High` and `Medium` by name,
/// `Low` for any other name and when none is given.
pub open spec fn parse_risk_level(name: Option<String>) -> RiskLevel {
    match name {
        Some(s) => if s@ == "High"@ {
            RiskLevel::High
        } else if s@ == "Medium"@ {
            RiskLevel::Medium
        } else {
            RiskLevel::Low
        },
        None => RiskLevel::Low,
    }
}

/// The strings among `entries`, in order.
pub open spec fn present_strings(entries: Seq<Option<String>>) -> Seq<String>
    decreases entries.len(),
{
    if entries.len() == 0 {
        Seq::empty()
    } else {
        let rest = present_strings(entries.drop_last());
        match entries.last() {
            Some(s) => rest.push(s),
            None => rest,
        }
    }
}

/// The capabilities named in a registration.
pub open spec fn registered_capabilities(caps: Option<Vec<Option<String>>>) -> Seq<String> {
    match caps {
        Some(v) => present_strings(v@),
        None => Seq::empty(),
    }
}

/// Whether a request stored at `p.created_at` is still pending at `now`:
/// stored no later than `now`, and less than `ttl` nanoseconds ago.
pub open spec fn is_fresh(p: PendingRequest, now: int, ttl: int) -> bool {
    p.created_at <= now && now - p.created_at < ttl
}

/// The pending requests that are still fresh at `now`.
pub open spec fn live_pending(pending: Map<Seq<char>, PendingRequest>, now: int, ttl: int) -> Map<Seq<char>, PendingRequest> {
    restrict(pending, |p: PendingRequest| is_fresh(p, now, ttl))
}

/// The outcome is the error `code` with `message` and no other effect.
pub open spec fn fails_with(out: Outcome, code: int, message: Seq<char>) -> bool {
    &&& out.reply matches Reply::Failed { code: c, message: m, confirmation: None } && c == code && m@ == message
    &&& out.transaction is None
    &&& !out.registry_changed
}

/// The outcome asks for confirmation with `token`, giving `reason`.
pub open spec fn asks_confirmation(out: Outcome, token: Seq<char>, reason: Seq<char>) -> bool {
    &&& out.reply matches Reply::Failed { code: c, message: m, confirmation: Some(conf) }
        && c == -32000 && m@ == "Confirmation required"@ && conf.token@ == token && conf.reason@ == reason
    &&& out.transaction is None
    &&& !out.registry_changed
}

/// The outcome runs `method` with `params` and logs it.
pub open spec fn executes(out: Outcome, method: String, params: serde_json::Value) -> bool {
    &&& out.reply == Reply::Executed(output_for(method@))
    &&& out.transaction == Some(Transaction { method, params, output: output_for(method@) })
    &&& !out.registry_changed
}

/// The risk level at which a request for `tool` is assessed.
pub open spec fn tool_level(tool: Tool) -> RiskLevel {
    capability_level(tool.risk_level, tool.capability_names())
}

/// The daemon's state: the tool registry, the requests that wait for
/// confirmation (keyed by token), and the security configuration.
pub struct McpDaemon {
    pub registry: ToolRegistry,
    pub pending: StringMap<PendingRequest>,
    pub config: SecurityConfig,
}

/// How the daemon answers `req` at time `now` (nanoseconds), when a fresh
/// confirmation token gets the random part `fresh`: `old` is its state before
/// and `new` after, `out` the outcome.
pub open spec fn handles(
    old: McpDaemon,
    new: McpDaemon,
    req: Request,
    now: u128,
    fresh: Seq<char>,
    out: Outcome,
) -> bool {
    let method = req.method@;
    let live = live_pending(old.pending@, now as int, old.config.ttl_nanos());
    &&& new.wf()
    &&& new.config == old.config
    &&& out.id == req.id
    &&& if method == confirm_method() {
        &&& new.registry == old.registry
        &&& match req.fields.confirmation_token {
            None => new.pending@ == old.pending@ && fails_with(out, -32602, "Missing confirmation_token"@),
            Some(token) => if live.contains_key(token@) {
                new.pending@ == live.remove(token@) && executes(out, live[token@].method, live[token@].params)
            } else {
                new.pending@ == live && fails_with(out, -32000, "Invalid or expired confirmation token"@)
            },
        }
    } else if method == register_method() {
        &&& new.pending@ == old.pending@
        &&& match req.fields.name {
            None => new.registry == old.registry && fails_with(out, -32602, "Missing name"@),
            Some(name) => match req.fields.provider {
                None => new.registry == old.registry && fails_with(out, -32602, "Missing provider"@),
                Some(provider) => {
                    let tool = new.registry.tools@[name@];
                    &&& new.registry.tools@ == old.registry.tools@.insert(name@, tool)
                    &&& new.registry.signature == old.registry.signature
                    &&& tool.name@ == name@
                    &&& tool.provider == provider
                    &&& tool.risk_level == parse_risk_level(req.fields.risk_level)
                    &&& tool.capabilities@ == registered_capabilities(req.fields.capabilities)
                    &&& out.reply matches Reply::Registered { tool: t } && t@ == name@
                    &&& out.transaction is None
                    &&& out.registry_changed
                },
            },
        }
    } else if method == list_tools_method() {
        &&& new.registry == old.registry
        &&& new.pending@ == old.pending@
        &&& out.reply matches Reply::ToolList(names) && string_views(names@) == old.registry.tools.key_order()
        &&& out.transaction is None
        &&& !out.registry_changed
    } else if method == audit_log_method() {
        &&& new.registry == old.registry
        &&& new.pending@ == old.pending@
        &&& out.reply is AuditLog
        &&& out.transaction is None
        &&& !out.registry_changed
    } else if !old.registry.tools@.contains_key(method) {
        &&& new.registry == old.registry
        &&& new.pending@ == old.pending@
        &&& fails_with(out, -32601, "Tool not found: "@ + method)
    } else {
        let level = tool_level(old.registry.tools@[method]);
        &&& new.registry == old.registry
        &&& if level == RiskLevel::High || req.context_ambiguous {
            let token = token_prefix() + fresh;
            if live.len() >= old.config.max_pending_tokens {
                new.pending@ == live && fails_with(out, -32000, "Too many pending confirmations"@)
            } else {
                &&& new.pending@ == live.insert(
                    token,
                    PendingRequest { method: req.method, params: req.params, created_at: now },
                )
                &&& asks_confirmation(
                    out,
                    token,
                    if level == RiskLevel::High {
                        high_risk_reason()
                    } else {
                        low_confidence_reason()
                    },
                )
            }
        } else {
            new.pending@ == old.pending@ && executes(out, req.method, req.params)
        }
    }
}

/// The output that executing `method` produces.
pub fn simulated_output(method: &str) -> (o: ToolOutput)
    ensures
        o == output_for(method@),
{
    let m = method.to_owned();
    if m == "camera.capture".to_owned() {
        ToolOutput::CameraCapture
    } else if m == "contacts.resolve".to_owned() {
        ToolOutput::ContactsResolve
    } else if m == "messages.send".to_owned() {
        ToolOutput::MessagesSend
    } else {
        ToolOutput::Scaffold
    }
}

fn parse_level(name: &Option<String>) -> (level: RiskLevel)
    ensures
        level == parse_risk_level(*name),
{
    match name {
        Some(s) => {
            if *s == "High".to_owned() {
                RiskLevel::High
            } else if *s == "Medium".to_owned() {
                RiskLevel::Medium
            } else {
                RiskLevel::Low
            }
        },
        None => RiskLevel::Low,
    }
}

fn collect_capabilities(caps: &Option<Vec<Option<String>>>) -> (r: Vec<String>)
    ensures
        r@ == registered_capabilities(*caps),
{
    let mut out: Vec<String> = Vec::new();
    match caps {
        None => {},
        Some(v) => {
            let n = v.len();
            assert(v@.take(0) =~= Seq::<Option<String>>::empty());
            for i in 0..n
                invariant
                    n == v@.len(),
                    out@ == present_strings(v@.take(i as int)),
            {
                assert(v@.take(i + 1).drop_last() =~= v@.take(i as int));
                assert(v@.take(i + 1).last() == v@[i as int]);
                match &v[i] {
                    Some(s) => out.push(s.clone()),
                    None => {},
                }
            }
            assert(v@.take(n as int) =~= v@);
        },
    }
    out
}

fn failure(id: serde_json::Value, code: i64, message: String) -> (out: Outcome)
    ensures
        fails_with(out, code as int, message@),
        out.id == id,
{
    Outcome { id, reply: Reply::Failed { code, message, confirmation: None }, transaction: None, registry_changed: false }
}

fn execution(method: String, params: serde_json::Value, id: serde_json::Value) -> (out: Outcome)
    ensures
        executes(out, method, params),
        out.id == id,
{
    let output = simulated_output(method.as_str());
    Outcome {
        id,
        reply: Reply::Executed(output),
        transaction: Some(Transaction { method, params, output }),
        registry_changed: false,
    }
}

impl McpDaemon {
    /// The registry and the pending requests each hold a key at most once.
    pub open spec fn wf(&self) -> bool {
        self.registry.wf() && self.pending.wf()
    }

    /// A daemon with `config`, serving the tools of `registry`, with no
    /// request waiting for confirmation.
    pub fn new(config: SecurityConfig, registry: ToolRegistry) -> (d: Self)
        requires
            registry.wf(),
        ensures
            d.wf(),
            d.config == config,
            d.registry == registry,
            d.pending@ == Map::<Seq<char>, PendingRequest>::empty(),
    {
        McpDaemon { registry, pending: StringMap::new(), config }
    }

    /// Adds `tool` to the registry under its name.
    pub fn register_tool(&mut self, tool: Tool)
        requires
            old(self).wf(),
        ensures
            final(self).wf(),
            final(self).registry.tools@ == old(self).registry.tools@.insert(tool.name@, tool),
            final(self).registry.signature == old(self).registry.signature,
            final(self).pending == old(self).pending,
            final(self).config == old(self).config,
    {
        self.registry.register_tool(tool);
    }

    /// Drops the pending requests that are no longer fresh at `now`.
    fn expire_pending(&mut self, now: u128)
        requires
            old(self).wf(),
        ensures
            final(self).wf(),
            final(self).pending@ == live_pending(old(self).pending@, now as int, old(self).config.ttl_nanos()),
            final(self).registry == old(self).registry,
            final(self).config == old(self).config,
    {
        let secs = self.config.confirmation_ttl_secs as u128;
        assert(secs * 1_000_000_000 <= 18_446_744_073_709_551_615u128 * 1_000_000_000) by (nonlinear_arith)
            requires
                secs <= 18_446_744_073_709_551_615u128,
        ;
        let ttl: u128 = secs * 1_000_000_000;
        let ghost ttl_int = self.config.ttl_nanos();
        let keep = |p: &PendingRequest| -> (b: bool)
            ensures
                b == is_fresh(*p, now as int, ttl as int),
            { p.created_at <= now && now - p.created_at < ttl };
        self.pending.retain(keep, Ghost(|p: PendingRequest| is_fresh(p, now as int, ttl_int)));
    }

    /// Whether `request` would be held for confirmation, so that answering it
    /// issues a token: it calls a registered tool (not one of the daemon's
    /// own methods) that is high-risk or whose context is ambiguous.
    pub fn needs_confirmation(&self, request: &Request) -> (b: bool)
        requires
            self.wf(),
        ensures
            b == ({
                let method = request.method@;
                &&& method != confirm_method()
                &&& method != register_method()
                &&& method != list_tools_method()
                &&& method != audit_log_method()
                &&& self.registry.tools@.contains_key(method)
                &&& (tool_level(self.registry.tools@[method]) == RiskLevel::High || request.context_ambiguous)
            }),
    {
        if request.method == "system.confirm".to_owned() || request.method == "system.register_tool".to_owned()
            || request.method == "system.list_tools".to_owned() || request.method == "system.audit_log".to_owned() {
            return false;
        }
        match self.registry.tools.get(request.method.as_str()) {
            None => false,
            Some(tool) => RiskEngine::assess(tool, request.context_ambiguous).requires_confirmation,
        }
    }

    /// Answers `request` at time `now` (nanoseconds on the system clock),
    /// using `fresh` as the random part of a confirmation token if one is
    /// issued.
    pub fn handle_request_at(&mut self, request: Request, now: u128, fresh: String) -> (out: Outcome)
        requires
            old(self).wf(),
        ensures
            handles(*old(self), *final(self), request, now, fresh@, out),
    {
        let Request { method, id, params, fields, context_ambiguous } = request;
        let RequestFields { confirmation_token, name, provider, risk_level, capabilities } = fields;
        if method == "system.confirm".to_owned() {
            let token = match confirmation_token {
                None => {
                    return failure(id, -32602, "Missing confirmation_token".to_owned());
                },
                Some(t) => t,
            };
            self.expire_pending(now);
            match self.pending.remove(token.as_str()) {
                None => failure(id, -32000, "Invalid or expired confirmation token".to_owned()),
                Some(held) => {
                    let PendingRequest { method: m, params: p, created_at: _ } = held;
                    execution(m, p, id)
                },
            }
        } else if method == "system.register_tool".to_owned() {
            let tool_name = match name {
                None => {
                    return failure(id, -32602, "Missing name".to_owned());
                },
                Some(n) => n,
            };
            let tool_provider = match provider {
                None => {
                    return failure(id, -32602, "Missing provider".to_owned());
                },
                Some(p) => p,
            };
            let level = parse_level(&risk_level);
            let caps = collect_capabilities(&capabilities);
            let tool = Tool {
                name: tool_name.clone(),
                provider: tool_provider,
                risk_level: level,
                capabilities: caps,
            };
            self.register_tool(tool);
            Outcome {
                id,
                reply: Reply::Registered { tool: tool_name },
                transaction: None,
                registry_changed: true,
            }
        } else if method == "system.list_tools".to_owned() {
            Outcome {
                id,
                reply: Reply::ToolList(self.registry.tool_names()),
                transaction: None,
                registry_changed: false,
            }
        } else if method == "system.audit_log".to_owned() {
            Outcome { id, reply: Reply::AuditLog, transaction: None, registry_changed: false }
        } else {
            let assessment = match self.registry.tools.get(method.as_str()) {
                None => {
                    let mut message = "Tool not found: ".to_owned();
                    message.append(method.as_str());
                    return failure(id, -32601, message);
                },
                Some(tool) => RiskEngine::assess(tool, context_ambiguous),
            };
            if assessment.requires_confirmation {
                let mut token = "conf_".to_owned();
                token.append(fresh.as_str());
                self.expire_pending(now);
                if self.pending.len() >= self.config.max_pending_tokens {
                    return failure(id, -32000, "Too many pending confirmations".to_owned());
                }
                let key = token.clone();
                self.pending.insert(key, PendingRequest { method, params, created_at: now });
                Outcome {
                    id,
                    reply: Reply::Failed {
                        code: -32000,
                        message: "Confirmation required".to_owned(),
                        confirmation: Some(ConfirmationRequest { token, reason: assessment.reason }),
                    },
                    transaction: None,
                    registry_changed: false,
                }
            } else {
                execution(method, params, id)
            }
        }
    }
}

} // verus!
