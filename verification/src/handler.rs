//! The handler's accessors and the report renderer it drives.

use crate::fmt::{append_indented, append_numbered_lines, spec_indented, spec_numbered_lines};
use crate::help::HelpInfo;
use crate::writers::{env_section_text, spec_env_section};
use crate::{Handler, Report};
use vstd::prelude::*;

verus! {

/// The rendered cause block: nothing for a chain of one, otherwise a
/// `Caused by:` heading and one numbered, indented line per cause.
pub open spec fn spec_cause_block(chain: Seq<Seq<char>>) -> Seq<char> {
    if chain.len() <= 1 {
        Seq::empty()
    } else {
        "\n\nCaused by:"@ + spec_numbered_lines(chain.drop_first(), 0)
    }
}

/// The rendered section block: each attached section on its own paragraph.
pub open spec fn spec_section_block(sections: Seq<HelpInfo>) -> Seq<char>
    decreases sections.len(),
{
    if sections.len() == 0 {
        Seq::empty()
    } else {
        "\n\n"@ + sections.first().render_spec() + spec_section_block(sections.drop_first())
    }
}

/// A captured diagnostic as a paragraph of its own, indented; nothing when
/// none was captured.
pub open spec fn spec_diagnostic_block(text: Option<String>) -> Seq<char> {
    match text {
        Some(t) => "\n\n"@ + spec_indented(t@, "  "@),
        None => Seq::empty(),
    }
}

/// The whole rendered report: the outermost message, the causes, the
/// attached sections, the captured span trace and backtrace, and the
/// environment section.
pub open spec fn spec_report_text(h: Handler, chain: Seq<Seq<char>>) -> Seq<char> {
    chain.first() + spec_cause_block(chain) + spec_section_block(h.sections@)
        + spec_diagnostic_block(h.span_trace) + spec_diagnostic_block(h.backtrace) + (
    if h.display_env_section {
        "\n\n"@ + spec_env_section(h.backtrace is Some)
    } else {
        Seq::empty()
    })
}

/// Appends each section as a paragraph of its own.
fn append_sections(sections: &Vec<HelpInfo>, i: usize, out: &mut String)
    requires
        i <= sections@.len(),
    ensures
        final(out)@ == old(out)@ + spec_section_block(
            sections@.subrange(i as int, sections@.len() as int),
        ),
    decreases sections@.len() - i,
{
    let ghost tail = sections@.subrange(i as int, sections@.len() as int);
    if i < sections.len() {
        proof {
            assert(tail.drop_first() =~= sections@.subrange(
                i as int + 1,
                sections@.len() as int,
            ));
            assert(tail.first() == sections@[i as int]);
        }
        out.append("\n\n");
        let rendered = sections[i].render();
        out.append(rendered.as_str());
        append_sections(sections, i + 1, out);
        proof {
            assert(out@ =~= old(out)@ + spec_section_block(tail));
        }
    } else {
        proof {
            assert(spec_section_block(tail) =~= Seq::<char>::empty());
            assert(out@ =~= old(out)@ + spec_section_block(tail));
        }
    }
}

/// Appends a captured diagnostic as an indented paragraph.
fn append_diagnostic(text: &Option<String>, out: &mut String)
    ensures
        final(out)@ == old(out)@ + spec_diagnostic_block(*text),
{
    match text {
        Some(t) => {
            out.append("\n\n");
            append_indented(out, t.as_str(), "  ");
            proof {
                assert(out@ =~= old(out)@ + spec_diagnostic_block(*text));
            }
        },
        None => {
            proof {
                assert(out@ =~= old(out)@ + spec_diagnostic_block(*text));
            }
        },
    }
}

impl Handler {
    /// The captured backtrace text, if any.
    pub fn backtrace(&self) -> (b: Option<&String>)
        ensures
            match b {
                Some(s) => self.backtrace == Some(*s),
                None => self.backtrace is None,
            },
    {
        self.backtrace.as_ref()
    }

    /// The captured span trace text, if any.
    pub fn span_trace(&self) -> (b: Option<&String>)
        ensures
            match b {
                Some(s) => self.span_trace == Some(*s),
                None => self.span_trace is None,
            },
    {
        self.span_trace.as_ref()
    }

    /// Renders the full report for the given cause chain: the chain, the
    /// attached sections, the captured diagnostics, and the environment
    /// section.
    pub fn debug(&self, chain: &Vec<String>) -> (s: String)
        requires
            chain@.len() >= 1,
        ensures
            s@ == spec_report_text(*self, chain.deep_view()),
    {
        let mut out = chain[0].clone();
        if chain.len() > 1 {
            out.append("\n\nCaused by:");
            append_numbered_lines(chain, 1, 1, &mut out);
            proof {
                assert(chain.deep_view().subrange(1, chain.deep_view().len() as int)
                    =~= chain.deep_view().drop_first());
            }
        }
        proof {
            assert(out@ =~= chain.deep_view().first() + spec_cause_block(chain.deep_view()));
        }
        append_sections(&self.sections, 0, &mut out);
        proof {
            assert(self.sections@.subrange(0, self.sections@.len() as int) =~= self.sections@);
        }
        append_diagnostic(&self.span_trace, &mut out);
        append_diagnostic(&self.backtrace, &mut out);
        if self.display_env_section {
            out.append("\n\n");
            let env = env_section_text(self.backtrace.is_some());
            out.append(env.as_str());
        }
        proof {
            assert(out@ =~= spec_report_text(*self, chain.deep_view()));
        }
        out
    }
}

impl Report {
    /// Renders this report in full, as its attached handler formats it.
    pub fn render(&self) -> (s: String)
        requires
            self.wf(),
        ensures
            self.handler_spec() matches Some(h) && s@ == spec_report_text(h, self.chain_view()),
    {
        proof {
            self.lemma_nonempty();
        }
        let chain = self.chain_texts();
        let handler = self.handler();
        handler.debug(&chain)
    }
}

} // verus!
