//! The capability set a concrete error value must satisfy to be stored in a
//! report.
//!
//! The original error-reporting design accepts any value that can display
//! itself, report its chain of causes, identify its own type at runtime, and
//! be sent across threads. [`ErrorValue`] states that capability set as a
//! trait: a type supplies a process-wide type key (standing in for a runtime
//! type identifier), its display text, and the display texts of its sources.

use vstd::prelude::*;

verus! {

/// The capability set required of a concrete error value.
///
/// `tag` / `key` stand in for a runtime type identifier: every implementation
/// must choose a key that no other implementation in the same program uses,
/// exactly as two distinct types never share a type identifier. The
/// downcasting operations decide by this key which layer of a report holds a
/// value of the requested type.
pub trait ErrorValue: Sized + Send + Sync + 'static {
    /// The type key, as a mathematical value. Key `0` means unkeyed: an
    /// implementation written outside verified code leaves the default, and
    /// the verified contracts then promise nothing about downcasting to its
    /// type — at runtime, downcasting still decides by the value's dynamic
    /// type.
    open spec fn tag() -> int {
        0
    }

    /// The display text of this value, as a mathematical value. An
    /// implementation outside verified code leaves the default, and the
    /// verified contracts then say nothing useful about its text.
    open spec fn text_of(&self) -> Seq<char> {
        Seq::empty()
    }

    /// The display texts of this value's chain of causes, outermost first,
    /// as a mathematical value.
    open spec fn sources_of(&self) -> Seq<Seq<char>> {
        Seq::empty()
    }

    /// The type key of this type at runtime: the value of `tag`. Every
    /// implementation must answer with a key no other implementation in the
    /// same program uses, or answer `0` to stay unkeyed.
    fn key() -> (k: u64)
        ensures
            k as int == Self::tag(),
    ;

    /// Renders this value's display text.
    fn render(&self) -> (s: String)
        ensures
            s@ == self.text_of(),
    ;

    /// Renders the display texts of this value's chain of causes,
    /// outermost first.
    fn source_texts(&self) -> (v: Vec<String>)
        ensures
            v.deep_view() == self.sources_of(),
    ;
}

/// The type key of `String` message values.
pub const STRING_KEY: u64 = 1;

/// The type key of `&'static str` message values.
pub const STR_KEY: u64 = 2;

/// The type key of [`BoxedError`] values.
pub const BOXED_ERROR_KEY: u64 = 3;

impl ErrorValue for String {
    open spec fn tag() -> int {
        STRING_KEY as int
    }

    open spec fn text_of(&self) -> Seq<char> {
        self@
    }

    open spec fn sources_of(&self) -> Seq<Seq<char>> {
        Seq::empty()
    }

    fn key() -> u64 {
        STRING_KEY
    }

    fn render(&self) -> String {
        self.clone()
    }

    fn source_texts(&self) -> (v: Vec<String>) {
        let v: Vec<String> = Vec::new();
        proof {
            assert(v.deep_view() =~= Seq::<Seq<char>>::empty());
        }
        v
    }
}

impl ErrorValue for &'static str {
    open spec fn tag() -> int {
        STR_KEY as int
    }

    open spec fn text_of(&self) -> Seq<char> {
        self@
    }

    open spec fn sources_of(&self) -> Seq<Seq<char>> {
        Seq::empty()
    }

    fn key() -> u64 {
        STR_KEY
    }

    fn render(&self) -> String {
        String::from_str(self)
    }

    fn source_texts(&self) -> (v: Vec<String>) {
        let v: Vec<String> = Vec::new();
        proof {
            assert(v.deep_view() =~= Seq::<Seq<char>>::empty());
        }
        v
    }
}

/// An already-type-erased error: its display text and the display texts of
/// its causes, with the concrete type forgotten. This is the form in which
/// heterogeneous boxed errors enter a report.
pub struct BoxedError {
    text: String,
    sources: Vec<String>,
}

impl BoxedError {
    /// The display text, as a mathematical value.
    pub closed spec fn text_spec(&self) -> Seq<char> {
        self.text@
    }

    /// The cause texts, as a mathematical value.
    pub closed spec fn sources_spec(&self) -> Seq<Seq<char>> {
        self.sources.deep_view()
    }

    /// Builds an erased error from its display text and the display texts of
    /// its causes, outermost cause first.
    pub fn new(text: String, sources: Vec<String>) -> (b: BoxedError)
        ensures
            b.text_spec() == text@,
            b.sources_spec() == sources.deep_view(),
    {
        BoxedError { text, sources }
    }

    /// The display text.
    pub fn text(&self) -> (s: &String)
        ensures
            s@ == self.text_spec(),
    {
        &self.text
    }

    /// Renders the display text, as `to_string` would.
    pub fn to_string(&self) -> (s: String)
        ensures
            s@ == self.text_spec(),
    {
        self.text.clone()
    }
}

impl ErrorValue for BoxedError {
    open spec fn tag() -> int {
        BOXED_ERROR_KEY as int
    }

    open spec fn text_of(&self) -> Seq<char> {
        self.text_spec()
    }

    open spec fn sources_of(&self) -> Seq<Seq<char>> {
        self.sources_spec()
    }

    fn key() -> u64 {
        BOXED_ERROR_KEY
    }

    fn render(&self) -> String {
        self.text.clone()
    }

    fn source_texts(&self) -> Vec<String> {
        self.sources.clone()
    }
}

} // verus!
