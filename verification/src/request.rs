//! The requests that the session element makes while the pipeline runs,
//! and what it is told when the plan of one has been carried out. A
//! request that cannot be met is posted on the message bus as a library
//! failure of the session element; the pipeline goes on without what was
//! asked for.

use crate::error::{ErrorView, PipelineError};
use crate::names::ElementId;
use crate::run::{Run, RunView};
use vstd::prelude::*;

verus! {

/// A request of the session element that is answered while the pipeline
/// runs.
#[derive(Clone, Copy, Debug, PartialEq, Eq, Structural)]
pub enum Request {
    /// Link the pad that has appeared.
    LinkPad,
    /// Hand over a FEC encoder.
    FecEncoder,
    /// Hand over the FEC decoder of a session.
    FecDecoder,
    /// Give a new storage its window.
    NewStorage,
}

impl Request {
    /// The element that is handed over when the request has been met, for
    /// the requests that ask for one.
    pub open spec fn product(self) -> Option<ElementId> {
        match self {
            Request::FecEncoder => Some(ElementId::FecEncoder),
            Request::FecDecoder => Some(ElementId::FecDecoder),
            _ => None,
        }
    }

    /// What is said when the request could not be met.
    pub open spec fn summary_text(self) -> Seq<char> {
        match self {
            Request::LinkPad => "Failed to link srcpad"@,
            Request::FecEncoder => "Failed to make FEC encoder"@,
            Request::FecDecoder => "Failed to make FEC decoder"@,
            Request::NewStorage => "Failed to configure storage"@,
        }
    }

    /// The element that is handed over when the request has been met.
    pub fn element(self) -> (element: Option<ElementId>)
        ensures
            element == self.product(),
    {
        match self {
            Request::FecEncoder => Some(ElementId::FecEncoder),
            Request::FecDecoder => Some(ElementId::FecDecoder),
            _ => None,
        }
    }

    /// What is said when the request could not be met.
    pub fn summary(self) -> (text: &'static str)
        ensures
            text@ == self.summary_text(),
    {
        match self {
            Request::LinkPad => "Failed to link srcpad",
            Request::FecEncoder => "Failed to make FEC encoder",
            Request::FecDecoder => "Failed to make FEC decoder",
            Request::NewStorage => "Failed to configure storage",
        }
    }
}

/// The domains into which the framework sorts the failures that elements
/// post.
#[derive(Clone, Copy, Debug, PartialEq, Eq, Structural)]
pub enum Domain {
    Core,
    Library,
    Resource,
    Stream,
}

/// What is posted on the message bus, in the name of the session element,
/// when a request could not be met.
#[derive(Clone, Debug, PartialEq, Eq)]
pub struct Report {
    /// The domain of the failure: a request that could not be met is a
    /// failure of the library.
    pub domain: Domain,
    /// What could not be done.
    pub summary: String,
    /// The message of the failure.
    pub detail: String,
}

/// What the session element is told at the end of a request.
#[derive(Clone, Debug, PartialEq, Eq)]
pub struct Reply {
    /// The element that is handed over, if there is one.
    pub element: Option<ElementId>,
    /// The failure that is posted, if there was one.
    pub report: Option<Report>,
}

/// What a `Report` says, with every text as a sequence of characters.
pub struct ReportView {
    pub domain: Domain,
    pub summary: Seq<char>,
    pub detail: Seq<char>,
}

/// What a `Reply` says, with every text as a sequence of characters.
pub struct ReplyView {
    pub element: Option<ElementId>,
    pub report: Option<ReportView>,
}

impl View for Report {
    type V = ReportView;

    open spec fn view(&self) -> ReportView {
        ReportView { domain: self.domain, summary: self.summary@, detail: self.detail@ }
    }
}

impl View for Reply {
    type V = ReplyView;

    open spec fn view(&self) -> ReplyView {
        ReplyView {
            element: self.element,
            report: match self.report {
                Some(report) => Some(report@),
                None => None,
            },
        }
    }
}

/// What is posted when `request` could not be met because of `failure`: a
/// failure of the library, with what could not be done and the failure's
/// message.
pub open spec fn report_for(request: Request, failure: ErrorView) -> ReportView {
    ReportView { domain: Domain::Library, summary: request.summary_text(), detail: failure.text() }
}

/// What the session element is told when the plan of a request has been
/// carried out as far as `run` says. An element is handed over only when
/// every step has been performed. A failure is posted, and nothing is
/// handed over. While steps are left, nothing is handed over either.
pub open spec fn reply_to(request: Request, run: RunView) -> ReplyView {
    match run.failure {
        Some(failure) => ReplyView { element: None, report: Some(report_for(request, failure)) },
        None => if run.complete() {
            ReplyView { element: request.product(), report: None }
        } else {
            ReplyView { element: None, report: None }
        },
    }
}

/// What is posted when `request` could not be met because of `failure`;
/// see `report_for`.
pub fn report_of(request: Request, failure: &PipelineError) -> (report: Report)
    ensures
        report@ == report_for(request, failure@),
{
    Report {
        domain: Domain::Library,
        summary: String::from_str(request.summary()),
        detail: failure.message(),
    }
}

/// Ends the run of a request's plan and says what the session element is
/// told.
pub fn conclude(request: Request, run: Run) -> (reply: Reply)
    ensures
        reply@ == reply_to(request, run@),
{
    let complete = run.is_complete();
    match run.into_failure() {
        Some(failure) => Reply { element: None, report: Some(report_of(request, &failure)) },
        None => if complete {
            Reply { element: request.element(), report: None }
        } else {
            Reply { element: None, report: None }
        },
    }
}

} // verus!
