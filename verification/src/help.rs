//! Attaching help text to error reports, to be displayed after the chain of
//! errors.

use crate::value::{BoxedError, ErrorValue};
use crate::Report;
use vstd::prelude::*;

verus! {

/// One help section attached to a report.
pub enum HelpInfo {
    /// A note.
    Note(String),
    /// A warning.
    Warning(String),
    /// A suggestion.
    Suggestion(String),
    /// A custom section, rendered as given.
    Custom(String),
    /// A related error, rendered with its own cause chain.
    Error(BoxedError),
}

/// The mathematical value of one help section.
pub enum HelpInfoV {
    /// A note's text.
    Note(Seq<char>),
    /// A warning's text.
    Warning(Seq<char>),
    /// A suggestion's text.
    Suggestion(Seq<char>),
    /// A custom section's text.
    Custom(Seq<char>),
    /// A related error's text and cause texts.
    Error(Seq<char>, Seq<Seq<char>>),
}

impl DeepView for HelpInfo {
    type V = HelpInfoV;

    open spec fn deep_view(&self) -> HelpInfoV {
        match self {
            HelpInfo::Note(s) => HelpInfoV::Note(s@),
            HelpInfo::Warning(s) => HelpInfoV::Warning(s@),
            HelpInfo::Suggestion(s) => HelpInfoV::Suggestion(s@),
            HelpInfo::Custom(s) => HelpInfoV::Custom(s@),
            HelpInfo::Error(b) => HelpInfoV::Error(b.text_spec(), b.sources_spec()),
        }
    }
}

/// What attaching one help section means: an `Ok` passes through untouched;
/// an `Err` keeps its chain, layers and well-formedness, and — when its
/// handler slot is occupied — gains exactly the given section at the end of
/// its section list.
pub open spec fn section_added<T>(
    before: core::result::Result<T, Report>,
    after: core::result::Result<T, Report>,
    info: HelpInfoV,
) -> bool {
    match before {
        Ok(t) => after matches Ok(t2) && t2 == t,
        Err(e) => after matches Err(e2) && e2.layers() == e.layers() && e2.chain_view()
            == e.chain_view() && e2.wf_inner() == e.wf_inner() && (e.handler_spec() is Some
            ==> e2.sections_view() == e.sections_view().push(info)) && (e.handler_spec() is None
            ==> e2 == e) && (e.wf() ==> e2.wf()),
    }
}

/// A sealing trait: [`Help`] is implemented for results carrying a
/// [`Report`], and nothing else.
pub trait Sealed {

}

impl<T> Sealed for core::result::Result<T, Report> {

}

/// A helper trait for attaching help text to errors, displayed after the
/// chain of errors. Each method leaves an `Ok` untouched; on `Err` it
/// appends one section to the report's handler and passes the report on
/// otherwise unchanged.
pub trait Help<T>: Sealed + Sized {
    /// Adds a note to an error.
    fn note<C: ErrorValue>(self, context: C) -> (r: core::result::Result<T, Report>);

    /// Adds a note to an error, evaluated lazily on the error path alone.
    fn with_note<C: ErrorValue, F: FnOnce() -> C>(self, context: F) -> (r: core::result::Result<T, Report>)
        requires
            context.requires(()),
    ;

    /// Adds a warning to an error.
    fn warning<C: ErrorValue>(self, context: C) -> (r: core::result::Result<T, Report>);

    /// Adds a warning to an error, evaluated lazily on the error path alone.
    fn with_warning<C: ErrorValue, F: FnOnce() -> C>(self, context: F) -> (r: core::result::Result<T, Report>)
        requires
            context.requires(()),
    ;

    /// Adds a suggestion to an error.
    fn suggestion<C: ErrorValue>(self, context: C) -> (r: core::result::Result<T, Report>);

    /// Adds a suggestion to an error, evaluated lazily on the error path
    /// alone.
    fn with_suggestion<C: ErrorValue, F: FnOnce() -> C>(self, context: F) -> (r: core::result::Result<T, Report>)
        requires
            context.requires(()),
    ;

    /// Adds a custom section to an error.
    fn section<C: ErrorValue>(self, section: C) -> (r: core::result::Result<T, Report>);

    /// Adds a custom section to an error, evaluated lazily on the error
    /// path alone.
    fn with_section<C: ErrorValue, F: FnOnce() -> C>(self, section: F) -> (r: core::result::Result<T, Report>)
        requires
            section.requires(()),
    ;

    /// Adds a related error section to an error.
    fn error(self, error: BoxedError) -> (r: core::result::Result<T, Report>);

    /// Adds a related error section to an error, evaluated lazily on the
    /// error path alone.
    fn with_error<F: FnOnce() -> BoxedError>(self, error: F) -> (r: core::result::Result<T, Report>)
        requires
            error.requires(()),
    ;
}

impl<T> Help<T> for core::result::Result<T, Report> {
    fn note<C: ErrorValue>(self, context: C) -> (r: core::result::Result<T, Report>)
        ensures
            section_added(self, r, HelpInfoV::Note(context.text_of())),
    {
        match self {
            Ok(t) => Ok(t),
            Err(e) => {
                let text = context.render();
                Err(e.add_section(HelpInfo::Note(text)))
            },
        }
    }

    fn with_note<C: ErrorValue, F: FnOnce() -> C>(self, context: F) -> (r: core::result::Result<T, Report>)
        ensures
            self matches Ok(t) ==> r matches Ok(t2) && t2 == t,
            self matches Err(e) ==> exists|c: C|
                context.ensures((), c) && section_added(self, r, HelpInfoV::Note(c.text_of())),
    {
        match self {
            Ok(t) => Ok(t),
            Err(e) => {
                let text = context().render();
                Err(e.add_section(HelpInfo::Note(text)))
            },
        }
    }

    fn warning<C: ErrorValue>(self, context: C) -> (r: core::result::Result<T, Report>)
        ensures
            section_added(self, r, HelpInfoV::Warning(context.text_of())),
    {
        match self {
            Ok(t) => Ok(t),
            Err(e) => {
                let text = context.render();
                Err(e.add_section(HelpInfo::Warning(text)))
            },
        }
    }

    fn with_warning<C: ErrorValue, F: FnOnce() -> C>(self, context: F) -> (r: core::result::Result<T, Report>)
        ensures
            self matches Ok(t) ==> r matches Ok(t2) && t2 == t,
            self matches Err(e) ==> exists|c: C|
                context.ensures((), c) && section_added(self, r, HelpInfoV::Warning(c.text_of())),
    {
        match self {
            Ok(t) => Ok(t),
            Err(e) => {
                let text = context().render();
                Err(e.add_section(HelpInfo::Warning(text)))
            },
        }
    }

    fn suggestion<C: ErrorValue>(self, context: C) -> (r: core::result::Result<T, Report>)
        ensures
            section_added(self, r, HelpInfoV::Suggestion(context.text_of())),
    {
        match self {
            Ok(t) => Ok(t),
            Err(e) => {
                let text = context.render();
                Err(e.add_section(HelpInfo::Suggestion(text)))
            },
        }
    }

    fn with_suggestion<C: ErrorValue, F: FnOnce() -> C>(self, context: F) -> (r: core::result::Result<T, Report>)
        ensures
            self matches Ok(t) ==> r matches Ok(t2) && t2 == t,
            self matches Err(e) ==> exists|c: C|
                context.ensures((), c) && section_added(self, r, HelpInfoV::Suggestion(c.text_of())),
    {
        match self {
            Ok(t) => Ok(t),
            Err(e) => {
                let text = context().render();
                Err(e.add_section(HelpInfo::Suggestion(text)))
            },
        }
    }

    fn section<C: ErrorValue>(self, section: C) -> (r: core::result::Result<T, Report>)
        ensures
            section_added(self, r, HelpInfoV::Custom(section.text_of())),
    {
        match self {
            Ok(t) => Ok(t),
            Err(e) => {
                let text = section.render();
                Err(e.add_section(HelpInfo::Custom(text)))
            },
        }
    }

    fn with_section<C: ErrorValue, F: FnOnce() -> C>(self, section: F) -> (r: core::result::Result<T, Report>)
        ensures
            self matches Ok(t) ==> r matches Ok(t2) && t2 == t,
            self matches Err(e) ==> exists|c: C|
                section.ensures((), c) && section_added(self, r, HelpInfoV::Custom(c.text_of())),
    {
        match self {
            Ok(t) => Ok(t),
            Err(e) => {
                let text = section().render();
                Err(e.add_section(HelpInfo::Custom(text)))
            },
        }
    }

    fn error(self, error: BoxedError) -> (r: core::result::Result<T, Report>)
        ensures
            section_added(self, r, HelpInfoV::Error(error.text_spec(), error.sources_spec())),
    {
        match self {
            Ok(t) => Ok(t),
            Err(e) => {
                Err(e.add_section(HelpInfo::Error(error)))
            },
        }
    }

    fn with_error<F: FnOnce() -> BoxedError>(self, error: F) -> (r: core::result::Result<T, Report>)
        ensures
            self matches Ok(t) ==> r matches Ok(t2) && t2 == t,
            self matches Err(e) ==> exists|b: BoxedError|
                error.ensures((), b) && section_added(self, r, HelpInfoV::Error(b.text_spec(), b.sources_spec())),
    {
        match self {
            Ok(t) => Ok(t),
            Err(e) => {
                let b = error();
                let ghost bv = b;
                let r = Err(e.add_section(HelpInfo::Error(b)));
                proof {
                    assert(error.ensures((), bv) && section_added(
                        self,
                        r,
                        HelpInfoV::Error(bv.text_spec(), bv.sources_spec()),
                    ));
                }
                r
            },
        }
    }
}

impl HelpInfo {
    /// The rendered text of this section.
    pub open spec fn render_spec(self) -> Seq<char> {
        match self {
            HelpInfo::Note(s) => "Note: "@ + s@,
            HelpInfo::Warning(s) => "Warning: "@ + s@,
            HelpInfo::Suggestion(s) => "Suggestion: "@ + s@,
            HelpInfo::Custom(s) => s@,
            HelpInfo::Error(b) => "Error:"@ + crate::fmt::spec_numbered_lines(
                seq![b.text_spec()] + b.sources_spec(),
                0,
            ),
        }
    }

    /// Renders this section.
    pub fn render(&self) -> (s: String)
        ensures
            s@ == self.render_spec(),
    {
        match self {
            HelpInfo::Note(t) => {
                let mut out = String::from_str("Note: ");
                out.append(t.as_str());
                out
            },
            HelpInfo::Warning(t) => {
                let mut out = String::from_str("Warning: ");
                out.append(t.as_str());
                out
            },
            HelpInfo::Suggestion(t) => {
                let mut out = String::from_str("Suggestion: ");
                out.append(t.as_str());
                out
            },
            HelpInfo::Custom(t) => t.clone(),
            HelpInfo::Error(b) => {
                let mut texts: Vec<String> = Vec::new();
                texts.push(b.to_string());
                let mut sources = b.source_texts();
                crate::fmt::push_strings(&mut texts, &mut sources);
                let mut out = String::from_str("Error:");
                crate::fmt::append_numbered_lines(&texts, 0, 0, &mut out);
                proof {
                    assert(texts.deep_view().subrange(0, texts.deep_view().len() as int)
                        =~= texts.deep_view());
                    assert(texts.deep_view() =~= seq![b.text_spec()] + b.sources_spec());
                    assert(out@ =~= self.render_spec());
                }
                out
            },
        }
    }
}

} // verus!
