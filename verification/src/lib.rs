//! Error reporting for a web server, around the Sentry client.
//!
//! The library keeps the context of a request in a [`Scope`]: a trail of
//! breadcrumbs, a user, tags and extra data. A [`LoggerFairing`] records each
//! request in the scope and decides for each response whether it is reported.
//! Reports come out as [`ReportEvent`] values; sending them is left to the
//! caller, as is starting the client that [`init`] gives the settings for.

pub mod config;
pub mod dict;
pub mod fairing;
pub mod json;
pub mod laws;
pub mod scope;
pub mod steps;

pub use config::{init, ClientSettings, InitConfig, InitError};
pub use fairing::LoggerFairing;
pub use scope::{LogLevel, ReportEvent, Scope};
pub use sentry::User;
pub use steps::{Step, StepType};

use scope::{report_of, ScopeView};
use serde_json::Value;
use std::time::SystemTime;
use steps::StepView;
use vstd::prelude::*;

verus! {

/// Makes the event that reports a message at the given level. Every step
/// tracked in the scope before goes with it.
pub fn log(scope: &Scope, message: &str, level: LogLevel) -> (event: ReportEvent)
    ensures
        event@ == report_of(scope@, message@, level),
{
    scope.report(message, level)
}

/// The scope after a step has been tracked in it at the time `at`.
pub open spec fn with_step(scope: ScopeView, step: StepView, at: SystemTime) -> ScopeView {
    ScopeView { breadcrumbs: scope.breadcrumbs.push(step.breadcrumb(at)), ..scope }
}

/// Tracks a step: its breadcrumb, stamped with the time that the clock shows,
/// goes to the end of the trail, to be sent along with the next report.
/// Nothing is reported.
pub fn track_step(scope: &mut Scope, step: Step)
    ensures
        final(scope)@ == with_step(old(scope)@, step@, final(scope)@.breadcrumbs.last().timestamp),
{
    let breadcrumb = step.into();
    let ghost at = breadcrumb.timestamp;
    scope.breadcrumbs.push(breadcrumb);
    assert(final(scope)@.breadcrumbs =~= old(scope)@.breadcrumbs.push(step@.breadcrumb(at)));
}

/// Sets the user that later reports from the scope are about.
pub fn set_user(scope: &mut Scope, user: User)
    ensures
        final(scope)@ == (ScopeView { user: Some(user), ..old(scope)@ }),
{
    scope.user = Some(user);
}

/// Puts extra data under a key, for later reports from the scope.
pub fn add_data(scope: &mut Scope, key: &str, data: Value)
    ensures
        final(scope)@ == (ScopeView { extras: old(scope)@.extras.insert(key@, data), ..old(scope)@ }),
{
    scope.extras.insert(key.to_owned(), data);
}

/// Sets a tag, for later reports from the scope.
pub fn set_tag(scope: &mut Scope, name: &str, value: &str)
    ensures
        final(scope)@ == (ScopeView { tags: old(scope)@.tags.insert(name@, value@), ..old(scope)@ }),
{
    scope.tags.insert(name.to_owned(), value.to_owned());
}

/// Makes the hook, with the statuses that it is never to report.
pub fn fairing(ignore_list: Option<Vec<u16>>) -> (hook: LoggerFairing)
    ensures
        hook.ignore_list == ignore_list,
{
    LoggerFairing { ignore_list }
}

} // verus!
