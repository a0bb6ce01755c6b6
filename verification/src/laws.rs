//! What holds of the calls on scopes, taken together.
//!
//! The laws speak of what scopes hold and of what reports say, not of the
//! values in memory: a call is taken by what it records, and a server by the
//! scopes that it keeps, one for each request.

use crate::fairing::{reading_of, request_breadcrumb, with_request, LoggerFairing};
use crate::scope::{report_of, BreadcrumbView, LogLevel, ScopeView};
use crate::steps::StepView;
use crate::with_step;
use sentry::User;
use serde_json::Value;
use std::time::SystemTime;
use vstd::prelude::*;

verus! {

/// A step and the time at which it is tracked.
pub struct StampedStep {
    pub step: StepView,
    pub at: SystemTime,
}

/// The scope after the steps have been tracked in it, one after the other.
pub open spec fn with_steps(scope: ScopeView, steps: Seq<StampedStep>) -> ScopeView
    decreases steps.len(),
{
    if steps.len() == 0 {
        scope
    } else {
        with_step(with_steps(scope, steps.drop_last()), steps.last().step, steps.last().at)
    }
}

/// The breadcrumbs of the steps, in the order of the steps.
pub open spec fn step_breadcrumbs(steps: Seq<StampedStep>) -> Seq<BreadcrumbView> {
    steps.map_values(|stamped: StampedStep| stamped.step.breadcrumb(stamped.at))
}

/// Whatever steps are tracked in a scope, a report made afterwards carries the
/// breadcrumb of each of them, in the order in which they were tracked, behind
/// what the trail held before. Tracking changes nothing else in the scope.
pub proof fn lemma_steps_are_reported(
    scope: ScopeView,
    steps: Seq<StampedStep>,
    message: Seq<char>,
    level: LogLevel,
)
    ensures
        report_of(with_steps(scope, steps), message, level).scope == (ScopeView {
            breadcrumbs: scope.breadcrumbs + step_breadcrumbs(steps),
            ..scope
        }),
    decreases steps.len(),
{
    if steps.len() == 0 {
        assert(scope.breadcrumbs + step_breadcrumbs(steps) =~= scope.breadcrumbs);
    } else {
        lemma_steps_are_reported(scope, steps.drop_last(), message, level);
        assert(scope.breadcrumbs + step_breadcrumbs(steps) =~= (scope.breadcrumbs + step_breadcrumbs(
            steps.drop_last(),
        )).push(steps.last().step.breadcrumb(steps.last().at)));
    }
}

/// Within a request, the trail of a report starts with the breadcrumb of the
/// request, and the breadcrumbs of the steps that were tracked since follow it
/// in their order. Nothing recorded before the request is left in the trail.
pub proof fn lemma_request_starts_trail(
    scope: ScopeView,
    method: Seq<char>,
    path: Seq<char>,
    at: SystemTime,
    steps: Seq<StampedStep>,
    message: Seq<char>,
    level: LogLevel,
)
    ensures
        report_of(
            with_steps(with_request(scope, method, path, at), steps),
            message,
            level,
        ).scope.breadcrumbs == seq![request_breadcrumb(method, path, at)] + step_breadcrumbs(steps),
{
    lemma_steps_are_reported(with_request(scope, method, path, at), steps, message, level);
}

/// What one call records in a scope.
pub enum Recording {
    /// A request is recorded by the hook.
    Request { method: Seq<char>, path: Seq<char>, at: SystemTime },
    /// A response is looked at by the hook.
    Response { hook: LoggerFairing, status: u16, body: Seq<u8> },
    /// A step is tracked.
    Step { step: StepView, at: SystemTime },
    /// The user is set.
    User { user: User },
    /// A tag is set.
    Tag { name: Seq<char>, value: Seq<char> },
    /// Extra data is added.
    Data { key: Seq<char>, data: Value },
}

/// The scope after one call.
pub open spec fn record(scope: ScopeView, recording: Recording) -> ScopeView {
    match recording {
        Recording::Request { method, path, at } => with_request(scope, method, path, at),
        Recording::Response { hook, status, body } => hook.scope_after(scope, status, reading_of(body)),
        Recording::Step { step, at } => with_step(scope, step, at),
        Recording::User { user } => ScopeView { user: Some(user), ..scope },
        Recording::Tag { name, value } => ScopeView { tags: scope.tags.insert(name, value), ..scope },
        Recording::Data { key, data } => ScopeView { extras: scope.extras.insert(key, data), ..scope },
    }
}

/// The scope after the calls, one after the other.
pub open spec fn record_all(scope: ScopeView, recordings: Seq<Recording>) -> ScopeView
    decreases recordings.len(),
{
    if recordings.len() == 0 {
        scope
    } else {
        record(record_all(scope, recordings.drop_last()), recordings.last())
    }
}

/// A call made while a request is served: the request, by its number, and
/// what the call records in the scope of that request.
pub struct Call {
    pub request: nat,
    pub recording: Recording,
}

/// The scopes of a server, each under the number of its request, after the
/// calls have been made in the order given. The calls of several requests may
/// come mixed in any way.
pub open spec fn serve(scopes: Map<nat, ScopeView>, calls: Seq<Call>) -> Map<nat, ScopeView>
    decreases calls.len(),
{
    if calls.len() == 0 {
        scopes
    } else {
        let before = serve(scopes, calls.drop_last());
        let call = calls.last();
        before.insert(call.request, record(before[call.request], call.recording))
    }
}

/// What the calls of one request record, in their order.
pub open spec fn recordings_of(calls: Seq<Call>, request: nat) -> Seq<Recording>
    decreases calls.len(),
{
    if calls.len() == 0 {
        Seq::empty()
    } else if calls.last().request == request {
        recordings_of(calls.drop_last(), request).push(calls.last().recording)
    } else {
        recordings_of(calls.drop_last(), request)
    }
}

/// However the calls of the requests that a server has in hand are mixed, the
/// scope of a request ends up as if the calls of that request had been made
/// alone. So a report made from the scope of a request carries no breadcrumb,
/// tag, user or extra data of any other request.
pub proof fn lemma_requests_are_isolated(
    scopes: Map<nat, ScopeView>,
    calls: Seq<Call>,
    request: nat,
    message: Seq<char>,
    level: LogLevel,
)
    ensures
        serve(scopes, calls)[request] == record_all(scopes[request], recordings_of(calls, request)),
        report_of(serve(scopes, calls)[request], message, level) == report_of(
            record_all(scopes[request], recordings_of(calls, request)),
            message,
            level,
        ),
    decreases calls.len(),
{
    if calls.len() > 0 {
        lemma_requests_are_isolated(scopes, calls.drop_last(), request, message, level);
        if calls.last().request == request {
            let alone = recordings_of(calls.drop_last(), request);
            assert(alone.push(calls.last().recording).drop_last() =~= alone);
        }
    }
}

} // verus!
