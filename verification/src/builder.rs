//! Incremental construction of reports, with explicitly supplied
//! diagnostics.
//!
//! Every public constructor of [`Report`] captures a default handler. The
//! builder lets a caller — typically the code that reads the process-wide
//! hook configuration — supply a pre-rendered backtrace for the handler of
//! the report being built.

use crate::value::{BoxedError, ErrorValue};
use crate::{Handler, Report};
use vstd::prelude::*;

verus! {

/// The diagnostics a builder passes into the handler it captures.
pub(crate) struct HookParams {
    pub(crate) backtrace: Option<String>,
}

/// Used for incrementally constructing reports.
pub struct ReportBuilder {
    params: HookParams,
}

impl ReportBuilder {
    /// The backtrace text this builder will hand to the handler.
    pub closed spec fn backtrace_spec(self) -> Option<Seq<char>> {
        match self.params.backtrace {
            Some(s) => Some(s@),
            None => None,
        }
    }

    /// The handler this builder captures: default in everything but the
    /// supplied backtrace.
    pub open spec fn captures(self, h: Handler) -> bool {
        h.span_trace is None && h.sections@.len() == 0 && h.display_env_section && (match (
            h.backtrace,
            self.backtrace_spec(),
        ) {
            (Some(s), Some(t)) => s@ == t,
            (None, None) => true,
            _ => false,
        })
    }

    /// Creates a new report builder with default parameters.
    pub fn new() -> (b: ReportBuilder)
        ensures
            b.backtrace_spec() is None,
    {
        ReportBuilder { params: HookParams { backtrace: None } }
    }

    /// Uses the given pre-rendered backtrace for the error.
    pub fn with_backtrace(self, backtrace: String) -> (b: ReportBuilder)
        ensures
            b.backtrace_spec() == Some(backtrace@),
    {
        ReportBuilder { params: HookParams { backtrace: Some(backtrace) } }
    }

    /// Builds the handler carrying this builder's diagnostics.
    fn capture_handler(self) -> (h: Handler)
        ensures
            self.captures(h),
    {
        Handler {
            backtrace: self.params.backtrace,
            span_trace: None,
            sections: Vec::new(),
            display_env_section: true,
        }
    }

    /// Creates a report from the given error message.
    pub fn from_msg<M: ErrorValue>(self, message: M) -> (r: Report)
        ensures
            r.wf(),
            r.layers() == seq![(M::tag(), message.text_of())],
            r.chain_view() == seq![message.text_of()] + message.sources_of(),
            r.handler_spec() matches Some(h) && self.captures(h),
    {
        Report::construct(message, Some(self.capture_handler()))
    }

    /// Creates a report from the given error.
    pub fn from_stderr<E: ErrorValue>(self, error: E) -> (r: Report)
        ensures
            r.wf(),
            r.layers() == seq![(E::tag(), error.text_of())],
            r.chain_view() == seq![error.text_of()] + error.sources_of(),
            r.handler_spec() matches Some(h) && self.captures(h),
    {
        Report::construct(error, Some(self.capture_handler()))
    }

    /// Creates a report from the given already-type-erased boxed error.
    pub fn from_boxed(self, error: BoxedError) -> (r: Report)
        ensures
            r.wf(),
            r.layers() == seq![(BoxedError::tag(), error.text_spec())],
            r.chain_view() == seq![error.text_spec()] + error.sources_spec(),
            r.handler_spec() matches Some(h) && self.captures(h),
    {
        Report::construct(error, Some(self.capture_handler()))
    }

    /// Wraps a source error with a message.
    pub fn wrap_with_msg<D: ErrorValue, E: ErrorValue>(self, msg: D, error: E) -> (r: Report)
        ensures
            r.wf(),
            r.layers() == seq![(D::tag(), msg.text_of()), (E::tag(), error.text_of())],
            r.chain_view() == seq![msg.text_of(), error.text_of()] + error.sources_of(),
            r.handler_spec() matches Some(h) && self.captures(h),
    {
        Report::construct_context(msg, error, Some(self.capture_handler()))
    }

    /// Creates a report from a value that can only display itself;
    /// identical to [`ReportBuilder::from_msg`] in this formulation.
    pub fn from_display<M: ErrorValue>(self, message: M) -> (r: Report)
        ensures
            r.wf(),
            r.layers() == seq![(M::tag(), message.text_of())],
            r.chain_view() == seq![message.text_of()] + message.sources_of(),
            r.handler_spec() matches Some(h) && self.captures(h),
    {
        self.from_msg(message)
    }
}

impl Default for ReportBuilder {
    /// A builder with default parameters, as [`ReportBuilder::new`] builds.
    fn default() -> (b: ReportBuilder)
        ensures
            b.backtrace_spec() is None,
    {
        ReportBuilder::new()
    }
}

} // verus!
