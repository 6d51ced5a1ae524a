use vstd::prelude::*;

use crate::daemon::{
    confirm_method, executes, fails_with, handles, is_fresh, McpDaemon, Outcome, PendingRequest, Reply,
    Request,
};

verus! {

broadcast use vstd::map::group_map_axioms, vstd::set::group_set_axioms;

/// One request answered by the daemon: the state before and after, the
/// request, the clock reading, the random part of a token it could issue, and
/// the outcome.
pub struct Step {
    pub before: McpDaemon,
    pub after: McpDaemon,
    pub request: Request,
    pub now: u128,
    pub fresh: Seq<char>,
    pub outcome: Outcome,
}

/// The daemon answered the step's request as `handles` says.
pub open spec fn answered(s: Step) -> bool {
    handles(s.before, s.after, s.request, s.now, s.fresh, s.outcome)
}

/// Step `i + 1` starts from the state that step `i` left.
pub open spec fn linked(steps: Seq<Step>, i: int) -> bool {
    steps[i + 1].before == steps[i].after
}

/// A run of the daemon: every step answered, each step starting where the
/// previous one ended, and the clock never going back.
pub open spec fn is_run(steps: Seq<Step>) -> bool {
    &&& forall|i: int| 0 <= i < steps.len() ==> answered(#[trigger] steps[i])
    &&& forall|i: int| 0 <= i < steps.len() - 1 ==> #[trigger] linked(steps, i)
    &&& forall|i: int, j: int|
        #![trigger steps[i].now, steps[j].now]
        0 <= i <= j < steps.len() ==> steps[i].now <= steps[j].now
}

/// The outcome asks for confirmation with the token `token`.
pub open spec fn issues(out: Outcome, token: Seq<char>) -> bool {
    out.reply matches Reply::Failed { confirmation: Some(c), .. } && c.token@ == token
}

/// The request is a `system.confirm` presenting `token`.
pub open spec fn confirms(req: Request, token: Seq<char>) -> bool {
    &&& req.method@ == confirm_method()
    &&& req.fields.confirmation_token matches Some(t) && t@ == token
}

/// The request that a step holds for confirmation.
pub open spec fn held(s: Step) -> PendingRequest {
    PendingRequest { method: s.request.method, params: s.request.params, created_at: s.now }
}

/// What one step does to the pending request under `token`.
proof fn lemma_step_pending(s: Step, token: Seq<char>)
    requires
        answered(s),
    ensures
        s.after.config == s.before.config,
        s.after.wf(),
        issues(s.outcome, token) ==> s.after.pending@.contains_key(token) && s.after.pending@[token] == held(s),
        s.after.pending@.contains_key(token) && !issues(s.outcome, token) ==> s.before.pending@.contains_key(token)
            && s.after.pending@[token] == s.before.pending@[token],
        s.before.pending@.contains_key(token) && is_fresh(s.before.pending@[token], s.now as int, s.before.config.ttl_nanos())
            && !confirms(s.request, token) && !issues(s.outcome, token) ==> s.after.pending@.contains_key(token)
            && s.after.pending@[token] == s.before.pending@[token],
        confirms(s.request, token) ==> !s.after.pending@.contains_key(token),
        confirms(s.request, token) && s.before.pending@.contains_key(token) && is_fresh(
            s.before.pending@[token],
            s.now as int,
            s.before.config.ttl_nanos(),
        ) ==> executes(s.outcome, s.before.pending@[token].method, s.before.pending@[token].params),
        confirms(s.request, token) && !(s.before.pending@.contains_key(token) && is_fresh(
            s.before.pending@[token],
            s.now as int,
            s.before.config.ttl_nanos(),
        )) ==> fails_with(s.outcome, -32000, "Invalid or expired confirmation token"@),
        s.request.method@ == confirm_method() && s.outcome.reply is Executed ==> (s.request.fields.confirmation_token
            matches Some(t) && s.before.pending@.contains_key(t@) && is_fresh(
            s.before.pending@[t@],
            s.now as int,
            s.before.config.ttl_nanos(),
        ) && executes(s.outcome, s.before.pending@[t@].method, s.before.pending@[t@].params)),
{
}

/// The configuration stays the same along a run.
proof fn lemma_config_constant(steps: Seq<Step>, i: int, m: int)
    requires
        is_run(steps),
        0 <= i <= m < steps.len(),
    ensures
        steps[m].before.config == steps[i].before.config,
        steps[m].after.config == steps[i].before.config,
    decreases m - i,
{
    lemma_step_pending(steps[m], Seq::empty());
    if m > i {
        assert(linked(steps, m - 1));
        lemma_config_constant(steps, i, m - 1);
    }
}

/// A held request stays pending, unchanged, while its lifetime lasts and
/// nothing presents or reissues its token.
proof fn lemma_held_request_stays(steps: Seq<Step>, j: int, m: int, k: int, token: Seq<char>)
    requires
        is_run(steps),
        0 <= j < m <= k < steps.len(),
        issues(steps[j].outcome, token),
        forall|x: int| j < x < k ==> !issues((#[trigger] steps[x]).outcome, token) && !confirms(steps[x].request, token),
        steps[k].now - steps[j].now < steps[j].before.config.ttl_nanos(),
    ensures
        steps[m].before.pending@.contains_key(token),
        steps[m].before.pending@[token] == held(steps[j]),
    decreases m - j,
{
    assert(linked(steps, m - 1));
    lemma_step_pending(steps[m - 1], token);
    if m > j + 1 {
        lemma_held_request_stays(steps, j, m - 1, k, token);
        lemma_config_constant(steps, j, m - 1);
        assert(steps[j].now <= steps[m - 1].now);
        assert(steps[m - 1].now <= steps[k].now);
    }
}

/// Confirming works with other requests in between: when step `j` held a
/// request with a token, and step `k` presents that token to
/// `system.confirm` within the token's lifetime, while no step between them
/// presented the token or was issued the same token, then step `k` runs the
/// held request's method with its params and uses the token up.
pub proof fn lemma_confirmation_runs_held_request_in_run(steps: Seq<Step>, j: int, k: int, token: Seq<char>)
    requires
        is_run(steps),
        0 <= j < k < steps.len(),
        issues(steps[j].outcome, token),
        forall|x: int| j < x < k ==> !issues((#[trigger] steps[x]).outcome, token) && !confirms(steps[x].request, token),
        confirms(steps[k].request, token),
        steps[k].now - steps[j].now < steps[j].before.config.ttl_nanos(),
    ensures
        executes(steps[k].outcome, steps[j].request.method, steps[j].request.params),
        !steps[k].after.pending@.contains_key(token),
{
    lemma_held_request_stays(steps, j, k, k, token);
    lemma_config_constant(steps, j, k);
    lemma_step_pending(steps[k], token);
    assert(steps[j].now <= steps[k].now);
}

/// A token that is not pending stays refused until it is issued again: when
/// the token is not pending before step `a`, no step from `a` up to `l`
/// issues it, and step `l` presents it, then step `l` is refused and runs
/// nothing.
pub proof fn lemma_absent_token_stays_refused(steps: Seq<Step>, a: int, l: int, token: Seq<char>)
    requires
        is_run(steps),
        0 <= a <= l < steps.len(),
        !steps[a].before.pending@.contains_key(token),
        forall|x: int| a <= x < l ==> !issues((#[trigger] steps[x]).outcome, token),
        confirms(steps[l].request, token),
    ensures
        !steps[l].before.pending@.contains_key(token),
        fails_with(steps[l].outcome, -32000, "Invalid or expired confirmation token"@),
    decreases l - a,
{
    if l > a {
        assert(linked(steps, l - 1));
        lemma_absent_token_stays_refused_before(steps, a, l - 1, token);
        lemma_step_pending(steps[l - 1], token);
    }
    lemma_step_pending(steps[l], token);
}

proof fn lemma_absent_token_stays_refused_before(steps: Seq<Step>, a: int, m: int, token: Seq<char>)
    requires
        is_run(steps),
        0 <= a <= m < steps.len(),
        !steps[a].before.pending@.contains_key(token),
        forall|x: int| a <= x < m ==> !issues((#[trigger] steps[x]).outcome, token),
    ensures
        !steps[m].before.pending@.contains_key(token),
    decreases m - a,
{
    if m > a {
        assert(linked(steps, m - 1));
        lemma_absent_token_stays_refused_before(steps, a, m - 1, token);
        lemma_step_pending(steps[m - 1], token);
    }
}

/// A held request runs at most once: after step `k` confirmed its token,
/// presenting the token again at a later step `l` is refused, unless some
/// step in between was issued the same token.
pub proof fn lemma_confirmed_token_runs_once(steps: Seq<Step>, k: int, l: int, token: Seq<char>)
    requires
        is_run(steps),
        0 <= k < l < steps.len(),
        confirms(steps[k].request, token),
        forall|x: int| k < x < l ==> !issues((#[trigger] steps[x]).outcome, token),
        confirms(steps[l].request, token),
    ensures
        fails_with(steps[l].outcome, -32000, "Invalid or expired confirmation token"@),
{
    lemma_step_pending(steps[k], token);
    assert(linked(steps, k));
    lemma_absent_token_stays_refused(steps, k + 1, l, token);
}

/// While a token is not reissued, what is pending under it is the request
/// held when it was issued.
proof fn lemma_pending_under_token_is_held(steps: Seq<Step>, j: int, m: int, token: Seq<char>)
    requires
        is_run(steps),
        0 <= j < m < steps.len(),
        issues(steps[j].outcome, token),
        forall|x: int| j < x < m ==> !issues((#[trigger] steps[x]).outcome, token),
    ensures
        steps[m].before.pending@.contains_key(token) ==> steps[m].before.pending@[token] == held(steps[j]),
    decreases m - j,
{
    assert(linked(steps, m - 1));
    lemma_step_pending(steps[m - 1], token);
    if m > j + 1 {
        lemma_pending_under_token_is_held(steps, j, m - 1, token);
    }
}

/// A held request runs only within its lifetime: when step `j` held a request
/// with a token, no later step was issued the same token, and step `k`
/// presents the token once the lifetime has passed since step `j`, then step
/// `k` is refused and runs nothing.
pub proof fn lemma_expired_token_is_refused_in_run(steps: Seq<Step>, j: int, k: int, token: Seq<char>)
    requires
        is_run(steps),
        0 <= j < k < steps.len(),
        issues(steps[j].outcome, token),
        forall|x: int| j < x < k ==> !issues((#[trigger] steps[x]).outcome, token),
        confirms(steps[k].request, token),
        steps[k].now - steps[j].now >= steps[j].before.config.ttl_nanos(),
    ensures
        fails_with(steps[k].outcome, -32000, "Invalid or expired confirmation token"@),
{
    lemma_pending_under_token_is_held(steps, j, k, token);
    lemma_config_constant(steps, j, k);
    lemma_step_pending(steps[j], token);
    lemma_step_pending(steps[k], token);
}

/// Every request pending under a token was held, with that token, by an
/// earlier step of a run that started with nothing pending.
proof fn lemma_pending_has_origin(steps: Seq<Step>, m: int, token: Seq<char>)
    requires
        is_run(steps),
        0 <= m < steps.len(),
        steps[0].before.pending@ == Map::<Seq<char>, PendingRequest>::empty(),
        steps[m].before.pending@.contains_key(token),
    ensures
        exists|j: int|
            0 <= j < m && #[trigger] issues(steps[j].outcome, token) && steps[m].before.pending@[token] == held(
                steps[j],
            ),
    decreases m,
{
    if m > 0 {
        assert(linked(steps, m - 1));
        lemma_step_pending(steps[m - 1], token);
        if issues(steps[m - 1].outcome, token) {
            assert(issues(steps[m - 1].outcome, token));
        } else {
            lemma_pending_has_origin(steps, m - 1, token);
            let j = choose|j: int|
                0 <= j < m - 1 && #[trigger] issues(steps[j].outcome, token)
                    && steps[m - 1].before.pending@[token] == held(steps[j]);
            assert(issues(steps[j].outcome, token));
        }
    }
}

/// In a run that starts with nothing pending, a request runs through
/// `system.confirm` only as the request that an earlier step held under the
/// presented token, and only within that token's lifetime.
pub proof fn lemma_confirmed_execution_was_held(steps: Seq<Step>, k: int)
    requires
        is_run(steps),
        0 <= k < steps.len(),
        steps[0].before.pending@ == Map::<Seq<char>, PendingRequest>::empty(),
        steps[k].request.method@ == confirm_method(),
        steps[k].outcome.reply is Executed,
    ensures
        exists|j: int, token: Seq<char>|
            0 <= j < k && #[trigger] issues(steps[j].outcome, token) && confirms(steps[k].request, token)
                && executes(steps[k].outcome, steps[j].request.method, steps[j].request.params)
                && steps[j].now <= steps[k].now && steps[k].now - steps[j].now < steps[j].before.config.ttl_nanos(),
{
    lemma_step_pending(steps[k], Seq::empty());
    let t = steps[k].request.fields.confirmation_token.unwrap();
    let token = t@;
    lemma_pending_has_origin(steps, k, token);
    let j = choose|j: int|
        0 <= j < k && #[trigger] issues(steps[j].outcome, token) && steps[k].before.pending@[token] == held(steps[j]);
    lemma_config_constant(steps, j, k);
    assert(confirms(steps[k].request, token));
    assert(issues(steps[j].outcome, token));
}

} // verus!
