//! An extensible, type-erased error-reporting container.
//!
//! The central type is [`Report`]: a single narrow handle that owns one
//! concrete error value of any type implementing [`ErrorValue`], together
//! with an optional [`Handler`] that customizes how the report is rendered.
//! A report can be wrapped any number of times with higher-level messages
//! (`wrap_err`), walked from the outermost message down to the root cause
//! (`chain`, `root_cause`), and downcast back to any of the concrete types
//! stored at any wrap layer (`downcast`, `downcast_ref`).

pub mod builder;
pub mod chain;
pub mod compat;
pub mod config;
pub mod context;
pub mod error;
pub mod fmt;
pub mod handler;
pub mod help;
pub mod kind;
pub mod section;
pub mod value;
pub mod vtable;
pub mod writers;

pub use builder::ReportBuilder;
pub use chain::Chain;
pub use compat::{IntoEyre, IntoEyreReport};
pub use config::{Frame, HookBuilder};
pub use context::{ContextCompat, WrapErr};
pub use error::Report;
pub use help::{Help, HelpInfo};
pub use section::{Section, SectionExt};
pub use value::{BoxedError, ErrorValue};

use vstd::prelude::*;

verus! {

/// The formatting and diagnostic state attached to every [`Report`] at
/// construction time.
///
/// The handler travels with the outermost wrap layer of a report: when a
/// report is wrapped, the handler moves from the old report to the new one.
pub struct Handler {
    /// A captured backtrace, already rendered to text, if one was captured.
    pub backtrace: Option<String>,
    /// A captured span trace, already rendered to text, if one was captured.
    pub span_trace: Option<String>,
    /// Help sections attached to the report, rendered after the chain of
    /// errors.
    pub sections: Vec<HelpInfo>,
    /// Whether the rendered report ends with the environment-variable section.
    pub display_env_section: bool,
}

impl Handler {
    /// The handler every plain constructor attaches: nothing captured, no
    /// sections, and the environment section shown.
    pub open spec fn is_default(&self) -> bool {
        self.backtrace is None && self.span_trace is None && self.sections@.len() == 0
            && self.display_env_section
    }

    /// Builds the default handler.
    pub fn default_handler() -> (h: Handler)
        ensures
            h.is_default(),
    {
        Handler {
            backtrace: None,
            span_trace: None,
            sections: Vec::new(),
            display_env_section: true,
        }
    }
}

} // verus!
