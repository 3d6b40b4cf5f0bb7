//! Conversions from foreign error-reporting containers into [`Report`].
//!
//! A foreign container carries its own chain of causes; conversion reads
//! that chain's display texts and stores them as an already-type-erased
//! boxed error, so the resulting report shows the same chain.

use crate::value::{BoxedError, ErrorValue};
use crate::Report;
use vstd::prelude::*;

verus! {

/// Converts this result into a result over [`Report`].
pub trait IntoEyre<T>: Sized {
    /// Converts the error, if any, into a report.
    fn into_eyre(self) -> (r: core::result::Result<T, Report>);
}

/// Converts this error into a [`Report`]. Implement this for a custom error
/// type to get `into_eyre` on results over it.
pub trait IntoEyreReport: Sized {
    /// The cause chain the produced report shows, outermost first.
    spec fn report_chain(self) -> Seq<Seq<char>>;

    /// Converts this error into a report.
    fn into_eyre_report(self) -> (r: Report)
        ensures
            r.wf(),
            r.chain_view() == self.report_chain(),
    ;
}

impl<T, E: IntoEyreReport> IntoEyre<T> for core::result::Result<T, E> {
    fn into_eyre(self) -> (r: core::result::Result<T, Report>)
        ensures
            self matches Ok(t) ==> r matches Ok(t2) && t2 == t,
            self matches Err(e) ==> (r matches Err(rep) && rep.wf() && rep.chain_view()
                == e.report_chain()),
    {
        match self {
            Ok(v) => Ok(v),
            Err(err) => Err(err.into_eyre_report()),
        }
    }
}

/// Builds a report whose chain is exactly the given texts, outermost first,
/// stored as an already-type-erased boxed error.
pub fn report_from_texts(texts: Vec<String>) -> (r: Report)
    requires
        texts@.len() >= 1,
    ensures
        r.wf(),
        r.layers() == seq![(BoxedError::tag(), texts.deep_view().first())],
        r.chain_view() == texts.deep_view(),
{
    let ghost all = texts.deep_view();
    let mut rest = texts;
    let text = rest.remove(0);
    proof {
        assert(rest.deep_view() =~= all.drop_first());
    }
    let boxed = BoxedError::new(text, rest);
    let r = Report::from_boxed(boxed);
    proof {
        assert(r.chain_view() =~= all);
    }
    r
}

#[verifier::external_type_specification]
#[verifier::external_body]
/// The foreign error-reporting container, declared so its values can pass
/// through signatures here.
pub struct ExAnyhowError(anyhow::Error);

/// The display texts of a foreign container's chain: the error's own text
/// followed by the texts of its causes.
pub uninterp spec fn anyhow_chain(e: anyhow::Error) -> Seq<Seq<char>>;

/// Relies on `anyhow::Error::chain`, which yields the error and its causes
/// outermost first, and on `ToString` for each cause's display text; the
/// chain begins with the error itself, so it is never empty.
#[verifier::external_body]
fn anyhow_chain_texts(e: &anyhow::Error) -> (v: Vec<String>)
    ensures
        v.deep_view() == anyhow_chain(*e),
        v@.len() >= 1,
{
    e.chain().map(|cause| cause.to_string()).collect()
}

impl IntoEyreReport for anyhow::Error {
    /// The foreign container's own chain of display texts.
    open spec fn report_chain(self) -> Seq<Seq<char>> {
        anyhow_chain(self)
    }

    fn into_eyre_report(self) -> (r: Report) {
        let texts = anyhow_chain_texts(&self);
        let r = report_from_texts(texts);
        proof {
            assert(r.layers() == seq![(BoxedError::tag(), anyhow_chain(self).first())]);
        }
        r
    }
}

} // verus!
