//! Custom sections for error reports: a body indented under a header.

use crate::fmt::{append_indented, spec_indented};
use vstd::prelude::*;

verus! {

/// An indented section with a header for an error report. The header is
/// omitted when the body is empty, so sections with dynamic content do not
/// pollute the report.
pub struct Section {
    /// The header line.
    pub header: String,
    /// The body, indented under the header when rendered.
    pub body: String,
}

impl Section {
    /// The rendered text: the header, then the body indented line by line;
    /// the header alone is omitted when the body is empty.
    pub open spec fn render_spec(self) -> Seq<char> {
        if self.body@.len() == 0 {
            Seq::empty()
        } else {
            self.header@ + "\n"@ + spec_indented(self.body@, "   "@)
        }
    }

    /// Renders this section.
    pub fn render(&self) -> (s: String)
        ensures
            s@ == self.render_spec(),
    {
        if self.body.as_str().unicode_len() == 0 {
            let out = String::new();
            proof {
                assert(out@ =~= self.render_spec());
            }
            out
        } else {
            let mut out = self.header.clone();
            out.append("\n");
            append_indented(&mut out, self.body.as_str(), "   ");
            out
        }
    }
}

/// Extension trait for constructing sections with commonly used formats.
pub trait SectionExt: Sized {
    /// Attaches a header to this body, producing a section whose body is
    /// indented under the header.
    fn header(self, header: String) -> (s: Section);
}

impl SectionExt for String {
    fn header(self, header: String) -> (s: Section)
        ensures
            s.header@ == header@,
            s.body@ == self@,
    {
        Section { header, body: self }
    }
}

} // verus!
