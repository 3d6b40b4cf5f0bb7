//! Writers used by the report renderers: a header-once writer and the
//! environment-variable section.

use vstd::prelude::*;

verus! {

/// A text sink that emits a header once, just before the first non-empty
/// write after it was last readied.
pub struct HeaderWriter {
    /// The accumulated output.
    pub buf: String,
    /// The header to emit before the next non-empty write.
    pub header: String,
    /// Whether the header was already emitted since the last `ready`.
    pub started: bool,
}

impl HeaderWriter {
    /// Builds a writer with the given header and empty output.
    pub fn new(header: String) -> (w: HeaderWriter)
        ensures
            w.buf@ == Seq::<char>::empty(),
            w.header@ == header@,
            !w.started,
    {
        HeaderWriter { buf: String::new(), header, started: false }
    }

    /// Readies the writer: the next non-empty write will emit the header
    /// again.
    pub fn ready(&mut self)
        ensures
            final(self).buf == old(self).buf,
            final(self).header == old(self).header,
            !final(self).started,
    {
        self.started = false;
    }

    /// Writes `s`, preceded by the header if this is the first non-empty
    /// write since the writer was readied. Empty writes emit nothing.
    pub fn write_str(&mut self, s: &str)
        ensures
            final(self).header == old(self).header,
            s@.len() == 0 ==> *final(self) == *old(self),
            s@.len() > 0 && !old(self).started ==> (final(self).buf@ == old(self).buf@
                + old(self).header@ + s@ && final(self).started),
            s@.len() > 0 && old(self).started ==> (final(self).buf@ == old(self).buf@ + s@
                && final(self).started),
    {
        if s.unicode_len() == 0 {
            return ;
        }
        if !self.started {
            let header = self.header.clone();
            self.buf.append(header.as_str());
            self.started = true;
        }
        self.buf.append(s);
    }
}

/// The environment section when a backtrace was captured.
pub open spec fn spec_env_section_captured() -> Seq<char> {
    "Run with COLORBT_SHOW_HIDDEN=1 environment variable to disable frame filtering.\nRun with RUST_BACKTRACE=full to include source snippets."@
}

/// The environment section when no backtrace was captured.
pub open spec fn spec_env_section_omitted() -> Seq<char> {
    "Backtrace omitted. Run with RUST_BACKTRACE=1 environment variable to display it.\nRun with RUST_BACKTRACE=full to include source snippets."@
}

/// The environment section: how to ask for more diagnostics next time.
pub open spec fn spec_env_section(bt_captured: bool) -> Seq<char> {
    if bt_captured {
        spec_env_section_captured()
    } else {
        spec_env_section_omitted()
    }
}

/// Renders the environment section.
pub fn env_section_text(bt_captured: bool) -> (s: String)
    ensures
        s@ == spec_env_section(bt_captured),
{
    if bt_captured {
        String::from_str(
            "Run with COLORBT_SHOW_HIDDEN=1 environment variable to disable frame filtering.\nRun with RUST_BACKTRACE=full to include source snippets.",
        )
    } else {
        String::from_str(
            "Backtrace omitted. Run with RUST_BACKTRACE=1 environment variable to display it.\nRun with RUST_BACKTRACE=full to include source snippets.",
        )
    }
}

} // verus!
