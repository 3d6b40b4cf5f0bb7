//! Wrapping fallible results and empty options with higher-level messages.
//!
//! `WrapErr` attaches a message to the error of a `Result` as it is
//! propagated: a concrete error becomes the bottom of a new report, and a
//! report gains one wrap layer. `ContextCompat` turns an empty `Option`
//! into a report carrying the given message.

use crate::value::ErrorValue;
use crate::Report;
use vstd::prelude::*;

verus! {

/// Anything that can serve as the error beneath a wrap message: a concrete
/// error value, or a whole report.
pub trait StdError: Sized {
    /// The downcast layers the produced report has beneath the message.
    spec fn base_layers(self) -> Seq<(int, Seq<char>)>;

    /// The chain texts the produced report has beneath the message.
    spec fn base_chain(self) -> Seq<Seq<char>>;

    /// Whether the produced report is well-formed.
    spec fn wraps_wf(self) -> bool;

    /// Builds the report wrapping `self` with the message `msg`.
    fn ext_report<D: ErrorValue>(self, msg: D) -> (r: Report)
        ensures
            r.layers() == seq![(D::tag(), msg.text_of())] + self.base_layers(),
            r.chain_view() == seq![msg.text_of()] + self.base_chain(),
            r.wf() == self.wraps_wf(),
    ;
}

impl<E: ErrorValue> StdError for E {
    open spec fn base_layers(self) -> Seq<(int, Seq<char>)> {
        seq![(E::tag(), self.text_of())]
    }

    open spec fn base_chain(self) -> Seq<Seq<char>> {
        seq![self.text_of()] + self.sources_of()
    }

    open spec fn wraps_wf(self) -> bool {
        true
    }

    fn ext_report<D: ErrorValue>(self, msg: D) -> (r: Report) {
        let r = Report::from_msg(msg, self);
        proof {
            assert(r.layers() =~= seq![(D::tag(), msg.text_of())] + self.base_layers());
            assert(r.chain_view() =~= seq![msg.text_of()] + self.base_chain());
        }
        r
    }
}

impl StdError for Report {
    open spec fn base_layers(self) -> Seq<(int, Seq<char>)> {
        self.layers()
    }

    open spec fn base_chain(self) -> Seq<Seq<char>> {
        self.chain_view()
    }

    open spec fn wraps_wf(self) -> bool {
        self.wf()
    }

    fn ext_report<D: ErrorValue>(self, msg: D) -> (r: Report) {
        self.wrap_err(msg)
    }
}

/// A sealing trait: [`WrapErr`] and [`ContextCompat`] are implemented for
/// results over wrappable errors and for options, and nothing else.
pub trait Sealed {

}

impl<T, E: StdError> Sealed for core::result::Result<T, E> {

}

impl<T> Sealed for Option<T> {

}

/// Wrapping the error of a `Result` with a higher-level message. An `Ok`
/// passes through untouched; an `Err` becomes a report whose outermost
/// entry is the message.
pub trait WrapErr<T, E>: Sealed + Sized {
    /// Wraps the error value with a new message.
    fn wrap_err<D: ErrorValue>(self, msg: D) -> (r: core::result::Result<T, Report>);

    /// Wraps the error value with a new message, evaluated lazily on the
    /// error path alone.
    fn wrap_err_with<D: ErrorValue, F: FnOnce() -> D>(self, msg: F) -> (r: core::result::Result<
        T,
        Report,
    >)
        requires
            msg.requires(()),
    ;

    /// Wraps the error value with a new message; an alias of `wrap_err`.
    fn context<D: ErrorValue>(self, msg: D) -> (r: core::result::Result<T, Report>);

    /// Wraps the error value with a new message, evaluated lazily on the
    /// error path alone; an alias of `wrap_err_with`.
    fn with_context<D: ErrorValue, F: FnOnce() -> D>(self, msg: F) -> (r: core::result::Result<
        T,
        Report,
    >)
        requires
            msg.requires(()),
    ;
}

impl<T, E: StdError> WrapErr<T, E> for core::result::Result<T, E> {
    fn wrap_err<D: ErrorValue>(self, msg: D) -> (r: core::result::Result<T, Report>)
        ensures
            self matches Ok(t) ==> r matches Ok(t2) && t2 == t,
            self matches Err(e) ==> (r matches Err(rep) && rep.layers() == seq![
                (D::tag(), msg.text_of()),
            ] + e.base_layers() && rep.chain_view() == seq![msg.text_of()] + e.base_chain()
                && rep.wf() == e.wraps_wf()),
    {
        match self {
            Ok(t) => Ok(t),
            Err(e) => Err(e.ext_report(msg)),
        }
    }

    fn wrap_err_with<D: ErrorValue, F: FnOnce() -> D>(self, msg: F) -> (r: core::result::Result<
        T,
        Report,
    >)
        ensures
            self matches Ok(t) ==> r matches Ok(t2) && t2 == t,
            self matches Err(e) ==> exists|d: D|
                msg.ensures((), d) && (r matches Err(rep) && rep.layers() == seq![
                    (D::tag(), d.text_of()),
                ] + e.base_layers() && rep.chain_view() == seq![d.text_of()] + e.base_chain()
                    && rep.wf() == e.wraps_wf()),
    {
        match self {
            Ok(t) => Ok(t),
            Err(e) => Err(e.ext_report(msg())),
        }
    }

    fn context<D: ErrorValue>(self, msg: D) -> (r: core::result::Result<T, Report>)
        ensures
            self matches Ok(t) ==> r matches Ok(t2) && t2 == t,
            self matches Err(e) ==> (r matches Err(rep) && rep.layers() == seq![
                (D::tag(), msg.text_of()),
            ] + e.base_layers() && rep.chain_view() == seq![msg.text_of()] + e.base_chain()
                && rep.wf() == e.wraps_wf()),
    {
        self.wrap_err(msg)
    }

    fn with_context<D: ErrorValue, F: FnOnce() -> D>(self, msg: F) -> (r: core::result::Result<
        T,
        Report,
    >)
        ensures
            self matches Ok(t) ==> r matches Ok(t2) && t2 == t,
            self matches Err(e) ==> exists|d: D|
                msg.ensures((), d) && (r matches Err(rep) && rep.layers() == seq![
                    (D::tag(), d.text_of()),
                ] + e.base_layers() && rep.chain_view() == seq![d.text_of()] + e.base_chain()
                    && rep.wf() == e.wraps_wf()),
    {
        self.wrap_err_with(msg)
    }
}

/// Turning an empty `Option` into an error report carrying a message.
pub trait ContextCompat<T>: Sealed + Sized {
    /// Replaces an absent value by a report displaying `msg`.
    fn context<D: ErrorValue>(self, msg: D) -> (r: core::result::Result<T, Report>);

    /// Replaces an absent value by a report displaying the lazily built
    /// message.
    fn with_context<D: ErrorValue, F: FnOnce() -> D>(self, msg: F) -> (r: core::result::Result<
        T,
        Report,
    >)
        requires
            msg.requires(()),
    ;

    /// Replaces an absent value by a report displaying `msg`; an alias of
    /// `context`.
    fn wrap_err<D: ErrorValue>(self, msg: D) -> (r: core::result::Result<T, Report>);

    /// Replaces an absent value by a report displaying the lazily built
    /// message; an alias of `with_context`.
    fn wrap_err_with<D: ErrorValue, F: FnOnce() -> D>(self, msg: F) -> (r: core::result::Result<
        T,
        Report,
    >)
        requires
            msg.requires(()),
    ;
}

impl<T> ContextCompat<T> for Option<T> {
    fn context<D: ErrorValue>(self, msg: D) -> (r: core::result::Result<T, Report>)
        ensures
            self matches Some(t) ==> r matches Ok(t2) && t2 == t,
            self is None ==> (r matches Err(rep) && rep.wf() && rep.layers() == seq![
                (D::tag(), msg.text_of()),
            ] && rep.chain_view() == seq![msg.text_of()] + msg.sources_of()),
    {
        match self {
            Some(t) => Ok(t),
            None => Err(Report::from_display(msg)),
        }
    }

    fn with_context<D: ErrorValue, F: FnOnce() -> D>(self, msg: F) -> (r: core::result::Result<
        T,
        Report,
    >)
        ensures
            self matches Some(t) ==> r matches Ok(t2) && t2 == t,
            self is None ==> exists|d: D|
                msg.ensures((), d) && (r matches Err(rep) && rep.wf() && rep.layers() == seq![
                    (D::tag(), d.text_of()),
                ] && rep.chain_view() == seq![d.text_of()] + d.sources_of()),
    {
        match self {
            Some(t) => Ok(t),
            None => Err(Report::from_display(msg())),
        }
    }

    fn wrap_err<D: ErrorValue>(self, msg: D) -> (r: core::result::Result<T, Report>)
        ensures
            self matches Some(t) ==> r matches Ok(t2) && t2 == t,
            self is None ==> (r matches Err(rep) && rep.wf() && rep.layers() == seq![
                (D::tag(), msg.text_of()),
            ] && rep.chain_view() == seq![msg.text_of()] + msg.sources_of()),
    {
        self.context(msg)
    }

    fn wrap_err_with<D: ErrorValue, F: FnOnce() -> D>(self, msg: F) -> (r: core::result::Result<
        T,
        Report,
    >)
        ensures
            self matches Some(t) ==> r matches Ok(t2) && t2 == t,
            self is None ==> exists|d: D|
                msg.ensures((), d) && (r matches Err(rep) && rep.wf() && rep.layers() == seq![
                    (D::tag(), d.text_of()),
                ] && rep.chain_view() == seq![d.text_of()] + d.sources_of()),
    {
        self.with_context(msg)
    }
}

} // verus!
