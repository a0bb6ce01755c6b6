//! Steps: what a caller records on purpose, ahead of a later report.

use crate::dict::Payload;
use crate::scope::{now, Breadcrumb, BreadcrumbView, LogLevel};
use serde_json::Value;
use std::time::SystemTime;
use vstd::prelude::*;

verus! {

/// The kind of a step. It decides the type tag of the breadcrumb that the step
/// becomes, and with it how the backend draws the entry.
#[derive(Clone, Copy, Debug, PartialEq, Eq, Structural)]
pub enum StepType {
    Default,
    Error,
    Debug,
    Info,
    Http,
}

impl StepType {
    /// The type tag of a kind.
    pub open spec fn tag(self) -> Seq<char> {
        match self {
            StepType::Default => "default"@,
            StepType::Error => "error"@,
            StepType::Debug => "debug"@,
            StepType::Info => "info"@,
            StepType::Http => "http"@,
        }
    }

    /// The type tag of a kind.
    pub fn as_str(self) -> (r: &'static str)
        ensures
            r@ == self.tag(),
    {
        match self {
            StepType::Default => "default",
            StepType::Error => "error",
            StepType::Debug => "debug",
            StepType::Info => "info",
            StepType::Http => "http",
        }
    }
}

/// A step taken before an event: not yet a breadcrumb, and turned into one
/// when it is tracked.
#[derive(Debug)]
pub struct Step {
    pub ty: StepType,
    pub title: String,
    pub message: String,
    pub level: LogLevel,
    pub body: Option<Payload>,
}

/// What a step says.
pub struct StepView {
    pub ty: StepType,
    pub title: Seq<char>,
    pub message: Seq<char>,
    pub level: LogLevel,
    pub body: Option<Map<Seq<char>, Value>>,
}

impl View for Step {
    type V = StepView;

    open spec fn view(&self) -> StepView {
        StepView {
            ty: self.ty,
            title: self.title@,
            message: self.message@,
            level: self.level,
            body: match self.body {
                Some(body) => Some(body@),
                None => None,
            },
        }
    }
}

impl StepView {
    /// The breadcrumb that a step becomes at the time `at`: its kind gives the
    /// type tag, its title the category, and its payload, where it has one,
    /// the data.
    pub open spec fn breadcrumb(self, at: SystemTime) -> BreadcrumbView {
        BreadcrumbView {
            timestamp: at,
            ty: self.ty.tag(),
            category: Some(self.title),
            message: Some(self.message),
            level: self.level,
            data: match self.body {
                Some(body) => body,
                None => Map::empty(),
            },
        }
    }
}

impl Step {
    /// Makes a step. Empty titles and messages are taken as they are.
    pub fn new(ty: StepType, title: &str, message: &str, level: LogLevel, body: Option<Payload>) -> (step:
        Step)
        ensures
            step@ == (StepView {
                ty,
                title: title@,
                message: message@,
                level,
                body: match body {
                    Some(body) => Some(body@),
                    None => None,
                },
            }),
    {
        Step { ty, title: title.to_owned(), message: message.to_owned(), level, body }
    }

    /// Turns the step into its breadcrumb, stamped with the time that the
    /// clock shows.
    pub fn into(self) -> (breadcrumb: Breadcrumb)
        ensures
            breadcrumb@ == self@.breadcrumb(breadcrumb.timestamp),
    {
        let data = match self.body {
            Some(body) => body,
            None => Payload::new(),
        };
        Breadcrumb {
            timestamp: now(),
            ty: self.ty.as_str().to_owned(),
            category: Some(self.title),
            message: Some(self.message),
            level: self.level,
            data,
        }
    }
}

} // verus!
