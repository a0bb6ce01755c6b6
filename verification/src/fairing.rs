//! The hook on a server's requests and responses.
//!
//! On a request the hook starts the trail of the request's scope afresh with
//! one breadcrumb that tells the method and the path. On a response it looks
//! at the status and at the body and decides whether the response is reported
//! as a failure. The response itself passes through as it came.

use crate::json::{json_parse, json_string, parse, read_success, string, success_flag};
use crate::scope::{now, report_of, Breadcrumb, BreadcrumbView, LogLevel, ReportEvent, ReportView, Scope, ScopeView};
use crate::dict::Payload;
use serde_json::Value;
use std::time::SystemTime;
use vstd::prelude::*;
use vstd::string::StringSliceAdditionalSpecFns;
use vstd::utf8::{decode_utf8, encode_utf8_decode_utf8, valid_utf8};

verus! {

/// `core::str::Utf8Error`, which tells where bytes stop being UTF-8. Nothing
/// is known of what is inside one.
#[verifier::external_type_specification]
#[verifier::external_body]
pub struct ExUtf8Error(core::str::Utf8Error);

/// `core::str::from_utf8` accepts exactly the byte strings that are valid
/// UTF-8 and hands back the same bytes, as text. Trusted.
pub assume_specification[ core::str::from_utf8 ](bytes: &[u8]) -> (r: Result<
    &str,
    core::str::Utf8Error,
>)
    ensures
        r is Ok <==> valid_utf8(bytes@),
        r matches Ok(text) ==> text.spec_bytes() == bytes@,
;

/// The reason phrase that `rocket` has for a status code: what
/// `Status::reason_lossy` returns for the status with that code.
pub uninterp spec fn status_reason(code: u16) -> Seq<char>;

/// Calls `Status::reason_lossy` on the status that `Status::new` makes of the
/// code. Trusted: the outcome is the phrase that [`status_reason`] names.
#[verifier::external_body]
pub(crate) fn reason_phrase(code: u16) -> (r: &'static str)
    ensures
        r@ == status_reason(code),
{
    rocket::http::Status::new(code).reason_lossy()
}

/// A response on its way to the client.
#[derive(Debug)]
pub struct Response {
    pub status: u16,
    pub body: Vec<u8>,
}

/// What reading a response body gave.
#[derive(Debug)]
pub enum BodyReading {
    /// The body is no UTF-8 text.
    Binary,
    /// The body is text and no JSON document.
    Text(String),
    /// The body is a JSON document.
    Document {
        text: String,
        document: Value,
        /// The boolean member `success` of the document, where it has one.
        success: Option<bool>,
    },
}

/// What a reading says.
pub enum ReadingView {
    Binary,
    Text(Seq<char>),
    Document { text: Seq<char>, document: Value, success: Option<bool> },
}

impl View for BodyReading {
    type V = ReadingView;

    open spec fn view(&self) -> ReadingView {
        match self {
            BodyReading::Binary => ReadingView::Binary,
            BodyReading::Text(text) => ReadingView::Text(text@),
            BodyReading::Document { text, document, success } => ReadingView::Document {
                text: text@,
                document: *document,
                success: *success,
            },
        }
    }
}

impl ReadingView {
    /// The body as text, where it is text.
    pub open spec fn text(self) -> Option<Seq<char>> {
        match self {
            ReadingView::Binary => None,
            ReadingView::Text(text) => Some(text),
            ReadingView::Document { text, .. } => Some(text),
        }
    }

    /// The body as a JSON document, where it is one.
    pub open spec fn document(self) -> Option<Value> {
        match self {
            ReadingView::Document { document, .. } => Some(document),
            _ => None,
        }
    }

    /// The `success` flag that the body carries, where it carries one.
    pub open spec fn success(self) -> Option<bool> {
        match self {
            ReadingView::Document { success, .. } => success,
            _ => None,
        }
    }
}

/// What reading the bytes of a body gives: the text that they encode, the
/// document that the text holds, and the `success` flag of the document.
pub open spec fn reading_of(body: Seq<u8>) -> ReadingView {
    if !valid_utf8(body) {
        ReadingView::Binary
    } else {
        let text = decode_utf8(body);
        match json_parse(text) {
            None => ReadingView::Text(text),
            Some(document) => ReadingView::Document {
                text,
                document,
                success: success_flag(document),
            },
        }
    }
}

/// Reads a response body.
pub fn read_body(body: &[u8]) -> (reading: BodyReading)
    ensures
        reading@ == reading_of(body@),
{
    match core::str::from_utf8(body) {
        Err(_) => BodyReading::Binary,
        Ok(text) => {
            proof {
                encode_utf8_decode_utf8(text@);
            }
            match parse(text) {
                Err(_) => BodyReading::Text(text.to_owned()),
                Ok(document) => {
                    let success = read_success(&document);
                    BodyReading::Document { text: text.to_owned(), document, success }
                },
            }
        },
    }
}

/// How a response is judged.
#[derive(Clone, Copy, Debug, PartialEq, Eq, Structural)]
pub enum Verdict {
    /// The status is on the ignore list: nothing is reported, whatever else
    /// holds of the response.
    Ignored,
    /// The status is 400 or above.
    BadStatus,
    /// The status is below 400 and the body says `"success": false`.
    Unsuccessful,
    /// Nothing is wrong with the response.
    Sound,
}

/// The events that a hook wants to see.
#[derive(Clone, Copy, Debug, PartialEq, Eq, Structural)]
pub enum HookKind {
    Request,
    Response,
    RequestAndResponse,
}

/// What the hook tells a server of itself.
#[derive(Debug)]
pub struct FairingInfo {
    pub name: &'static str,
    pub kind: HookKind,
}

/// The hook. It records each request as a breadcrumb and reports the
/// responses that failed.
#[derive(Debug)]
pub struct LoggerFairing {
    /// The statuses that are never reported.
    pub ignore_list: Option<Vec<u16>>,
}

/// The breadcrumb that records a request made at the time `at`.
pub open spec fn request_breadcrumb(method: Seq<char>, path: Seq<char>, at: SystemTime) -> BreadcrumbView {
    BreadcrumbView {
        timestamp: at,
        ty: "http"@,
        category: Some("request"@),
        message: None,
        level: LogLevel::Info,
        data: Map::<Seq<char>, Value>::empty().insert("url"@, json_string(path)).insert(
            "method"@,
            json_string(method),
        ),
    }
}

/// The scope after a request has been recorded in it at the time `at`: the
/// trail holds the breadcrumb of the request and nothing else.
pub open spec fn with_request(
    scope: ScopeView,
    method: Seq<char>,
    path: Seq<char>,
    at: SystemTime,
) -> ScopeView {
    ScopeView { breadcrumbs: seq![request_breadcrumb(method, path, at)], ..scope }
}

/// What an optional report says.
pub open spec fn report_view(report: Option<ReportEvent>) -> Option<ReportView> {
    match report {
        Some(event) => Some(event@),
        None => None,
    }
}

/// There is a report, and it is an error with the given message.
pub open spec fn is_error_report(report: Option<ReportEvent>, message: Seq<char>) -> bool {
    report matches Some(event) && event@.message == message && event@.level == LogLevel::Error
}

/// The `success` flag that the bytes of a body carry.
pub open spec fn body_success(body: Seq<u8>) -> Option<bool> {
    reading_of(body).success()
}

impl LoggerFairing {
    /// The status is on the ignore list.
    pub open spec fn ignores(&self, status: u16) -> bool {
        match self.ignore_list {
            Some(list) => list@.contains(status),
            None => false,
        }
    }

    /// The verdict on a response with the given status and `success` flag.
    /// The ignore list comes first, then the status, then the flag.
    pub open spec fn verdict(&self, status: u16, success: Option<bool>) -> Verdict {
        if self.ignores(status) {
            Verdict::Ignored
        } else if status >= 400 {
            Verdict::BadStatus
        } else if success == Some(false) {
            Verdict::Unsuccessful
        } else {
            Verdict::Sound
        }
    }

    /// The scope after a response: a response with a bad status leaves its
    /// body, where that is a JSON document, under `Response` in the extra data.
    pub open spec fn scope_after(&self, scope: ScopeView, status: u16, reading: ReadingView) -> ScopeView {
        if self.verdict(status, reading.success()) == Verdict::BadStatus && reading.document() is Some {
            ScopeView { extras: scope.extras.insert("Response"@, reading.document()->0), ..scope }
        } else {
            scope
        }
    }

    /// The report that a response calls for, if any. A bad status is reported
    /// with the reason phrase as the message, a body that says
    /// `"success": false` with the text of the body as the message.
    pub open spec fn report(
        &self,
        scope: ScopeView,
        status: u16,
        reason: Seq<char>,
        reading: ReadingView,
    ) -> Option<ReportView> {
        match self.verdict(status, reading.success()) {
            Verdict::BadStatus => Some(
                report_of(self.scope_after(scope, status, reading), reason, LogLevel::Error),
            ),
            Verdict::Unsuccessful => Some(report_of(scope, reading.text()->0, LogLevel::Error)),
            _ => None,
        }
    }

    /// Tells whether the status is on the ignore list.
    pub fn is_ignored(&self, status: u16) -> (r: bool)
        ensures
            r == self.ignores(status),
    {
        match &self.ignore_list {
            None => false,
            Some(list) => {
                let mut i: usize = 0;
                while i < list.len()
                    invariant
                        self.ignore_list == Some(*list),
                        i <= list.len(),
                        forall|j: int| 0 <= j < i ==> list[j] != status,
                    decreases list.len() - i,
                {
                    if list[i] == status {
                        assert(list@[i as int] == status);
                        return true;
                    }
                    i += 1;
                }
                false
            },
        }
    }

    /// Judges a response by its status and by the `success` flag of its body.
    pub fn judge(&self, status: u16, success: Option<bool>) -> (verdict: Verdict)
        ensures
            verdict == self.verdict(status, success),
    {
        if self.is_ignored(status) {
            Verdict::Ignored
        } else if status >= 400 {
            Verdict::BadStatus
        } else {
            match success {
                Some(false) => Verdict::Unsuccessful,
                _ => Verdict::Sound,
            }
        }
    }

    /// The name of the hook and the events that it wants to see: each request
    /// and each response.
    pub fn info(&self) -> (info: FairingInfo)
        ensures
            info.name@ == "Sentry logger"@,
            info.kind == HookKind::RequestAndResponse,
    {
        FairingInfo { name: "Sentry logger", kind: HookKind::RequestAndResponse }
    }

    /// Records an incoming request. The trail is cleared and started again
    /// with the breadcrumb of this request, stamped with the time that the
    /// clock shows, so that the trail of a request never holds what was
    /// recorded before it; the user, the tags and the extra data stay.
    pub fn on_request(&self, scope: &mut Scope, method: &str, path: &str)
        ensures
            final(scope)@ == with_request(
                old(scope)@,
                method@,
                path@,
                final(scope)@.breadcrumbs[0].timestamp,
            ),
            final(scope)@.breadcrumbs.last().data["url"@] == json_string(path@),
            final(scope)@.breadcrumbs.last().data["method"@] == json_string(method@),
    {
        let mut data = Payload::new();
        data.insert("url".to_owned(), string(path));
        data.insert("method".to_owned(), string(method));
        let breadcrumb = Breadcrumb {
            timestamp: now(),
            ty: "http".to_owned(),
            category: Some("request".to_owned()),
            message: None,
            level: LogLevel::Info,
            data,
        };
        scope.breadcrumbs.clear();
        scope.breadcrumbs.push(breadcrumb);
        proof {
            reveal_strlit("url");
            reveal_strlit("method");
            assert("url"@.len() == 3 && "method"@.len() == 6);
            assert(final(scope)@.breadcrumbs =~= seq![
                request_breadcrumb(method@, path@, breadcrumb.timestamp),
            ]);
        }
    }

    /// Settles a response whose body has been read: leaves the body of a
    /// failed response in the scope and makes the report that the response
    /// calls for.
    pub fn conclude(&self, scope: &mut Scope, status: u16, reason: &str, reading: BodyReading) -> (report:
        Option<ReportEvent>)
        ensures
            final(scope)@ == self.scope_after(old(scope)@, status, reading@),
            report_view(report) == self.report(old(scope)@, status, reason@, reading@),
    {
        match self.judge(status, reading.success()) {
            Verdict::BadStatus => {
                match reading {
                    BodyReading::Document { document, .. } => {
                        scope.extras.insert("Response".to_owned(), document);
                    },
                    _ => {},
                }
                Some(scope.report(reason, LogLevel::Error))
            },
            Verdict::Unsuccessful => {
                match reading {
                    BodyReading::Document { text, .. } => Some(
                        ReportEvent { level: LogLevel::Error, message: text, scope: scope.clone() },
                    ),
                    _ => None,
                }
            },
            _ => None,
        }
    }

    /// Looks at an outgoing response and reports it where it failed. The
    /// response is handed back as it came.
    ///
    /// A status on the ignore list is never reported. Any other status from
    /// 400 on is reported once, by its reason phrase. Below 400, a response
    /// is reported once, by the text of its body, if the body says
    /// `"success": false`, and not at all otherwise.
    pub fn on_response(&self, scope: &mut Scope, response: Response) -> (out: (
        Response,
        Option<ReportEvent>,
    ))
        ensures
            out.0 == response,
            final(scope)@ == self.scope_after(old(scope)@, response.status, reading_of(response.body@)),
            report_view(out.1) == self.report(
                old(scope)@,
                response.status,
                status_reason(response.status),
                reading_of(response.body@),
            ),
            self.ignores(response.status) ==> out.1 is None,
            !self.ignores(response.status) && response.status >= 400 ==> is_error_report(
                out.1,
                status_reason(response.status),
            ),
            !self.ignores(response.status) && response.status < 400 && body_success(response.body@)
                == Some(false) ==> is_error_report(out.1, decode_utf8(response.body@)),
            response.status < 400 && body_success(response.body@) != Some(false) ==> out.1 is None,
    {
        if self.is_ignored(response.status) {
            return (response, None);
        }
        let reading = read_body(response.body.as_slice());
        let reason = reason_phrase(response.status);
        let report = self.conclude(scope, response.status, reason, reading);
        (response, report)
    }
}

impl BodyReading {
    /// The `success` flag that the body carries, where it carries one.
    pub fn success(&self) -> (r: Option<bool>)
        ensures
            r == self@.success(),
    {
        match self {
            BodyReading::Document { success, .. } => *success,
            _ => None,
        }
    }
}

} // verus!
