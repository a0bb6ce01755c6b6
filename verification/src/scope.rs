//! The context of one request: the trail of breadcrumbs that leads up to a
//! report, and the user, tags and extra data that a report carries with it.
//!
//! A [`Scope`] is a plain value. Whoever serves a request owns the scope of
//! that request and hands it to each call, so nothing recorded for one request
//! can reach the report of another.

use crate::dict::{Payload, Tags};
use sentry::User;
use serde_json::Value;
use std::time::SystemTime;
use vstd::prelude::*;

verus! {

/// `sentry::User`, the user that an event is about. It is carried as it is;
/// nothing is known of what is inside one.
#[verifier::external_type_specification]
#[verifier::external_body]
pub struct ExUser(sentry::User);

/// `std::time::SystemTime`, a reading of the clock. It is carried as it is;
/// nothing is known of what is inside one.
#[verifier::external_type_specification]
#[verifier::external_body]
pub struct ExSystemTime(std::time::SystemTime);

/// `User::clone` returns a user equal to the one it was given. Trusted.
pub assume_specification[ <sentry::User as Clone>::clone ](user: &User) -> (r: User)
    ensures
        r == *user,
;

/// Calls `SystemTime::now`. Nothing is known of the time it reads.
#[verifier::external_body]
pub(crate) fn now() -> SystemTime {
    SystemTime::now()
}

/// How severe an event or a breadcrumb is.
#[derive(Clone, Copy, Debug, PartialEq, Eq, Structural)]
pub enum LogLevel {
    Debug,
    Info,
    Warning,
    Error,
    Fatal,
}

/// One entry of the trail.
#[derive(Debug)]
pub struct Breadcrumb {
    /// When the entry was made.
    pub timestamp: SystemTime,
    /// The type tag, such as `http` or `error`.
    pub ty: String,
    /// A free grouping, such as the origin of a request or the title of a step.
    pub category: Option<String>,
    pub message: Option<String>,
    pub level: LogLevel,
    pub data: Payload,
}

/// What a breadcrumb records.
pub struct BreadcrumbView {
    pub timestamp: SystemTime,
    pub ty: Seq<char>,
    pub category: Option<Seq<char>>,
    pub message: Option<Seq<char>>,
    pub level: LogLevel,
    pub data: Map<Seq<char>, Value>,
}

/// The text of an optional string.
pub open spec fn text_of(s: Option<String>) -> Option<Seq<char>> {
    match s {
        Some(s) => Some(s@),
        None => None,
    }
}

impl View for Breadcrumb {
    type V = BreadcrumbView;

    open spec fn view(&self) -> BreadcrumbView {
        BreadcrumbView {
            timestamp: self.timestamp,
            ty: self.ty@,
            category: text_of(self.category),
            message: text_of(self.message),
            level: self.level,
            data: self.data@,
        }
    }
}

fn clone_text(s: &Option<String>) -> (r: Option<String>)
    ensures
        r == *s,
{
    match s {
        Some(s) => Some(s.clone()),
        None => None,
    }
}

impl Clone for Breadcrumb {
    fn clone(&self) -> (r: Self)
        ensures
            r@ == self@,
    {
        Breadcrumb {
            timestamp: self.timestamp,
            ty: self.ty.clone(),
            category: clone_text(&self.category),
            message: clone_text(&self.message),
            level: self.level,
            data: self.data.clone(),
        }
    }
}

/// What a trail records, entry by entry.
pub open spec fn trail_view(trail: Seq<Breadcrumb>) -> Seq<BreadcrumbView> {
    trail.map_values(|b: Breadcrumb| b@)
}

fn clone_trail(trail: &Vec<Breadcrumb>) -> (r: Vec<Breadcrumb>)
    ensures
        trail_view(r@) == trail_view(trail@),
{
    let mut r: Vec<Breadcrumb> = Vec::new();
    let mut i: usize = 0;
    while i < trail.len()
        invariant
            i <= trail.len(),
            r.len() == i,
            forall|j: int| 0 <= j < i ==> (#[trigger] r[j])@ == trail[j]@,
        decreases trail.len() - i,
    {
        r.push(trail[i].clone());
        i += 1;
    }
    assert(trail_view(r@) =~= trail_view(trail@));
    r
}

/// The context that reports are made in.
#[derive(Debug)]
pub struct Scope {
    /// The trail, oldest entry first.
    pub breadcrumbs: Vec<Breadcrumb>,
    pub user: Option<User>,
    pub tags: Tags,
    /// Extra diagnostic data.
    pub extras: Payload,
}

/// What a scope holds.
pub struct ScopeView {
    pub breadcrumbs: Seq<BreadcrumbView>,
    pub user: Option<User>,
    pub tags: Map<Seq<char>, Seq<char>>,
    pub extras: Map<Seq<char>, Value>,
}

impl View for Scope {
    type V = ScopeView;

    open spec fn view(&self) -> ScopeView {
        ScopeView {
            breadcrumbs: trail_view(self.breadcrumbs@),
            user: self.user,
            tags: self.tags@,
            extras: self.extras@,
        }
    }
}

impl ScopeView {
    /// The scope in which nothing has been recorded.
    pub open spec fn empty() -> ScopeView {
        ScopeView {
            breadcrumbs: Seq::empty(),
            user: None,
            tags: Map::empty(),
            extras: Map::empty(),
        }
    }
}

impl Scope {
    /// A scope in which nothing has been recorded.
    pub fn new() -> (r: Self)
        ensures
            r@ == ScopeView::empty(),
    {
        let r = Scope {
            breadcrumbs: Vec::new(),
            user: None,
            tags: Tags::new(),
            extras: Payload::new(),
        };
        assert(r@.breadcrumbs =~= Seq::empty());
        r
    }
}

impl Clone for Scope {
    fn clone(&self) -> (r: Self)
        ensures
            r@ == self@,
    {
        let user = match &self.user {
            Some(user) => Some(user.clone()),
            None => None,
        };
        Scope {
            breadcrumbs: clone_trail(&self.breadcrumbs),
            user,
            tags: self.tags.clone(),
            extras: self.extras.clone(),
        }
    }
}

/// A message on its way to the error-tracking backend, with the context it
/// was reported in.
#[derive(Debug)]
pub struct ReportEvent {
    pub level: LogLevel,
    pub message: String,
    /// The scope as it was when the report was made.
    pub scope: Scope,
}

/// What a report says.
pub struct ReportView {
    pub level: LogLevel,
    pub message: Seq<char>,
    pub scope: ScopeView,
}

impl View for ReportEvent {
    type V = ReportView;

    open spec fn view(&self) -> ReportView {
        ReportView { level: self.level, message: self.message@, scope: self.scope@ }
    }
}

/// The event that reports `message` at `level` from within `scope`.
pub open spec fn report_of(scope: ScopeView, message: Seq<char>, level: LogLevel) -> ReportView {
    ReportView { level, message, scope }
}

impl Scope {
    /// Makes the event that reports `message` at `level`, with the trail, the
    /// user, the tags and the extra data as they are now.
    pub fn report(&self, message: &str, level: LogLevel) -> (event: ReportEvent)
        ensures
            event@ == report_of(self@, message@, level),
    {
        ReportEvent { level, message: message.to_owned(), scope: self.clone() }
    }
}

} // verus!
