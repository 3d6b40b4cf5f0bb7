//! The type-erased report: construction, wrapping, chain access and
//! downcasting.
//!
//! A [`Report`] owns exactly one erased error structure and an optional
//! [`Handler`]. The erased structure is one of three shapes: a single erased
//! value, a message attached to an erased value, or a message attached to a
//! whole nested report — the last being what repeated [`Report::wrap_err`]
//! calls build.
//!
//! The mathematical model of a report is a pair of sequences:
//! - `layers()`: one `(type key, display text)` entry per downcastable
//!   value, outermost first. Downcasting searches this sequence front to
//!   back, so a wrap message never shadows the types beneath it.
//! - `chain_view()`: the display texts of the whole cause chain, outermost
//!   first; it extends `layers()` with the causes of the innermost value.
//!
//! A pointer-based formulation of this design dispatches seven per-type
//! operations through hand-written tables. Here each finds its safe
//! counterpart: drop-whole and drop-everything-except-the-extracted-value
//! are what ownership does when [`ErasedObject::object_take`] moves the
//! wanted value out and lets the rest fall; get-reference is
//! [`ErasedObject::error_text`] and the chain walk; consume-into-boxed is
//! [`Report::chain_texts`] feeding the erased interop form; and the two
//! downcast searches are [`ErasedObject::object_downcast`] and
//! [`ErasedObject::object_take`], recursive through the wrap layers exactly
//! where the table-based design recurses through nested dispatch tables.

use crate::chain::Chain;
use crate::value::ErrorValue;
use crate::vtable::Slot;
use crate::Handler;
use vstd::prelude::*;

verus! {

/// Whether some layer carries the type key `k`.
pub open spec fn has_key(layers: Seq<(int, Seq<char>)>, k: int) -> bool {
    exists|i: int| 0 <= i < layers.len() && (#[trigger] layers[i]).0 == k
}

/// The display text of the outermost layer carrying the type key `k`.
pub open spec fn first_text(layers: Seq<(int, Seq<char>)>, k: int) -> Seq<char>
    decreases layers.len(),
{
    if layers.len() == 0 {
        Seq::empty()
    } else if layers[0].0 == k {
        layers[0].1
    } else {
        first_text(layers.drop_first(), k)
    }
}

/// The erased error structure behind a report, together with the dispatch
/// needed to walk or take it apart. Each variant corresponds to one family
/// of per-type dispatch tables in a pointer-based formulation of this
/// design.
#[allow(inconsistent_fields)]
pub(crate) enum ErasedObject {
    /// A single erased value.
    Leaf(Slot),
    /// A message attached to an erased concrete error.
    Context { msg: Slot, error: Slot },
    /// A message attached to a nested report: one wrap layer. The nested
    /// report's handler slot is empty; the handler travels with the
    /// outermost report.
    ContextChain { msg: Slot, error: Box<Report> },
}

/// The backing store of a report: the handler slot followed by the erased
/// error structure.
pub struct ErrorImpl {
    pub(crate) handler: Option<Handler>,
    pub(crate) object: ErasedObject,
}

/// A type-erased error report: the single narrow handle of this library.
///
/// It owns one erased error value (possibly wrapped in any number of
/// message layers) and the handler captured when the report was built.
pub struct Report {
    pub(crate) inner: Box<ErrorImpl>,
}

impl ErrorImpl {
    /// Erases `error`: builds the backing store holding it, its texts and
    /// its type key, together with the given handler.
    pub(crate) fn erase<E: ErrorValue>(error: E, handler: Option<Handler>) -> (r: ErrorImpl)
        ensures
            r.object.wf(),
            r.handler == handler,
            r.object.layers() =~= seq![(E::tag(), error.text_of())],
            r.object.chain_view() =~= seq![error.text_of()] + error.sources_of(),
    {
        ErrorImpl { handler, object: ErasedObject::Leaf(Slot::new(error)) }
    }

    /// The header data of the backing store: its handler slot.
    pub(crate) fn header(&self) -> (h: &Option<Handler>)
        ensures
            *h == self.handler,
    {
        &self.handler
    }

    /// A cursor over this store's cause chain.
    pub(crate) fn chain(&self) -> (c: Chain)
        ensures
            c.wf(),
            c.remaining() == self.object.chain_view(),
    {
        let mut v: Vec<String> = Vec::new();
        self.object.append_chain(&mut v);
        proof {
            assert(v.deep_view() =~= self.object.chain_view());
        }
        Chain::new(v)
    }

    /// The captured backtrace text, if any.
    pub(crate) fn backtrace(&self) -> (b: Option<&String>)
        ensures
            match b {
                Some(s) => self.handler matches Some(h) && h.backtrace == Some(*s),
                None => match self.handler {
                    Some(h) => h.backtrace is None,
                    None => true,
                },
            },
    {
        match &self.handler {
            Some(h) => h.backtrace.as_ref(),
            None => None,
        }
    }
}

impl ErasedObject {
    /// The downcastable layers: one `(type key, display text)` entry per
    /// stored value, outermost first.
    pub(crate) closed spec fn layers(self) -> Seq<(int, Seq<char>)>
        decreases self,
    {
        match self {
            ErasedObject::Leaf(s) => seq![(s.key as int, s.text@)],
            ErasedObject::Context { msg, error } => seq![
                (msg.key as int, msg.text@),
                (error.key as int, error.text@),
            ],
            ErasedObject::ContextChain { msg, error } => seq![(msg.key as int, msg.text@)]
                + error.layers(),
        }
    }

    /// The display texts of the whole cause chain, outermost first.
    pub(crate) closed spec fn chain_view(self) -> Seq<Seq<char>>
        decreases self,
    {
        match self {
            ErasedObject::Leaf(s) => seq![s.text@] + s.rest.deep_view(),
            ErasedObject::Context { msg, error } => seq![msg.text@, error.text@]
                + error.rest.deep_view(),
            ErasedObject::ContextChain { msg, error } => seq![msg.text@] + error.chain_view(),
        }
    }

    /// Every slot describes its payload truthfully, and every nested report
    /// is itself well-formed with an empty handler slot.
    pub(crate) closed spec fn wf(self) -> bool
        decreases self,
    {
        match self {
            ErasedObject::Leaf(s) => s.wf(),
            ErasedObject::Context { msg, error } => msg.wf() && error.wf(),
            ErasedObject::ContextChain { msg, error } => msg.wf() && error.wf_inner()
                && error.handler_spec() is None,
        }
    }
}

impl Report {
    /// The downcastable layers of this report, outermost first.
    pub closed spec fn layers(self) -> Seq<(int, Seq<char>)>
        decreases self,
    {
        self.inner.object.layers()
    }

    /// The display texts of this report's cause chain, outermost first.
    pub closed spec fn chain_view(self) -> Seq<Seq<char>>
        decreases self,
    {
        self.inner.object.chain_view()
    }

    /// The handler slot.
    pub closed spec fn handler_spec(self) -> Option<Handler> {
        self.inner.handler
    }

    /// Structural well-formedness, not counting the handler slot.
    pub closed spec fn wf_inner(self) -> bool
        decreases self,
    {
        self.inner.object.wf()
    }

    /// A report built by the public constructors: well-formed storage and an
    /// occupied handler slot.
    pub open spec fn wf(self) -> bool {
        self.wf_inner() && self.handler_spec() is Some
    }

    /// Every report has at least one layer, and its chain extends its
    /// layer texts.
    pub proof fn lemma_nonempty(self)
        ensures
            self.layers().len() >= 1,
            self.chain_view().len() >= self.layers().len(),
            self.chain_view()[0] == self.layers()[0].1,
        decreases self,
    {
        self.inner.object.lemma_nonempty();
    }

    /// Builds the report that stores `error` with the given handler.
    ///
    /// This is the single construction routine every public constructor
    /// funnels through; it performs the type erasure and allocates the
    /// backing store.
    pub(crate) fn construct<E: ErrorValue>(error: E, handler: Option<Handler>) -> (r: Report)
        ensures
            r.wf_inner(),
            r.handler_spec() == handler,
            r.layers() =~= seq![(E::tag(), error.text_of())],
            r.chain_view() =~= seq![error.text_of()] + error.sources_of(),
    {
        Report { inner: Box::new(ErrorImpl::erase(error, handler)) }
    }

    /// Creates a new report from any error value.
    ///
    /// The chain of the report is the error's own display text followed by
    /// the display texts of its causes, and the error's concrete type can
    /// be recovered by downcasting.
    pub fn new<E: ErrorValue>(error: E) -> (r: Report)
        ensures
            r.wf(),
            r.layers() == seq![(E::tag(), error.text_of())],
            r.chain_view() == seq![error.text_of()] + error.sources_of(),
            r.handler_spec() matches Some(h) && h.is_default(),
    {
        Report::construct(error, Some(Handler::default_handler()))
    }

    /// Creates a new report from a printable message.
    ///
    /// The message needs no causes of its own; the resulting chain is the
    /// message text alone, and the message's type can be recovered by
    /// downcasting.
    pub fn msg<M: ErrorValue>(message: M) -> (r: Report)
        ensures
            r.wf(),
            r.layers() == seq![(M::tag(), message.text_of())],
            r.chain_view() == seq![message.text_of()] + message.sources_of(),
            r.handler_spec() matches Some(h) && h.is_default(),
    {
        Report::construct(message, Some(Handler::default_handler()))
    }

    /// Creates a new report from an ad-hoc message; identical to
    /// [`Report::msg`].
    pub fn from_adhoc<M: ErrorValue>(message: M) -> (r: Report)
        ensures
            r.wf(),
            r.layers() == seq![(M::tag(), message.text_of())],
            r.chain_view() == seq![message.text_of()] + message.sources_of(),
            r.handler_spec() matches Some(h) && h.is_default(),
    {
        Report::msg(message)
    }

    /// Creates a new report from a value that can only display itself;
    /// identical to [`Report::msg`] in this formulation.
    pub fn from_display<M: ErrorValue>(message: M) -> (r: Report)
        ensures
            r.wf(),
            r.layers() == seq![(M::tag(), message.text_of())],
            r.chain_view() == seq![message.text_of()] + message.sources_of(),
            r.handler_spec() matches Some(h) && h.is_default(),
    {
        Report::msg(message)
    }

    /// Creates a new report from any error value; identical to
    /// [`Report::new`].
    pub fn from_std<E: ErrorValue>(error: E) -> (r: Report)
        ensures
            r.wf(),
            r.layers() == seq![(E::tag(), error.text_of())],
            r.chain_view() == seq![error.text_of()] + error.sources_of(),
            r.handler_spec() matches Some(h) && h.is_default(),
    {
        Report::new(error)
    }

    /// Builds the report that stores `error` beneath the message `msg`,
    /// with the given handler.
    pub(crate) fn construct_context<D: ErrorValue, E: ErrorValue>(
        msg: D,
        error: E,
        handler: Option<Handler>,
    ) -> (r: Report)
        ensures
            r.wf_inner(),
            r.handler_spec() == handler,
            r.layers() =~= seq![(D::tag(), msg.text_of()), (E::tag(), error.text_of())],
            r.chain_view() =~= seq![msg.text_of(), error.text_of()] + error.sources_of(),
    {
        let msg_slot = Slot::new(msg);
        let err_slot = Slot::new(error);
        let object = ErasedObject::Context { msg: msg_slot, error: err_slot };
        let r = Report { inner: Box::new(ErrorImpl { handler, object }) };
        proof {
            assert(r.layers() =~= seq![(D::tag(), msg.text_of()), (E::tag(), error.text_of())]);
            assert(r.chain_view() =~= seq![msg.text_of(), error.text_of()] + error.sources_of());
        }
        r
    }

    /// Wraps a source error with a message. The message becomes the
    /// outermost chain entry and an additional downcast layer; the error
    /// keeps its own layer and causes.
    pub fn from_msg<D: ErrorValue, E: ErrorValue>(msg: D, error: E) -> (r: Report)
        ensures
            r.wf(),
            r.layers() == seq![(D::tag(), msg.text_of()), (E::tag(), error.text_of())],
            r.chain_view() == seq![msg.text_of(), error.text_of()] + error.sources_of(),
            r.handler_spec() matches Some(h) && h.is_default(),
    {
        Report::construct_context(msg, error, Some(Handler::default_handler()))
    }

    /// Creates a new report from an already-type-erased boxed error.
    pub fn from_boxed(error: crate::value::BoxedError) -> (r: Report)
        ensures
            r.wf(),
            r.layers() == seq![
                (crate::value::BoxedError::tag(), error.text_spec()),
            ],
            r.chain_view() == seq![error.text_spec()] + error.sources_spec(),
            r.handler_spec() matches Some(h) && h.is_default(),
    {
        Report::new(error)
    }

    /// Creates a new report from an error message to wrap the existing
    /// report.
    ///
    /// The new report is one layer deeper: its chain is the message text
    /// followed by this report's whole chain, and downcasting can still
    /// reach every layer of this report beneath the new message. The
    /// handler moves from this report's slot to the new outer report.
    pub fn wrap_err<D: ErrorValue>(self, msg: D) -> (r: Report)
        ensures
            r.wf() == self.wf(),
            r.layers() == seq![(D::tag(), msg.text_of())] + self.layers(),
            r.chain_view() == seq![msg.text_of()] + self.chain_view(),
            r.handler_spec() == self.handler_spec(),
    {
        let Report { inner } = self;
        let ErrorImpl { handler, object } = *inner;
        let inner_report = Report { inner: Box::new(ErrorImpl { handler: None, object }) };
        proof {
            assert(inner_report.layers() == self.layers());
            assert(inner_report.chain_view() == self.chain_view());
        }
        let ghost snap = inner_report;
        let msg_slot = Slot::new(msg);
        let object = ErasedObject::ContextChain { msg: msg_slot, error: Box::new(inner_report) };
        let r = Report { inner: Box::new(ErrorImpl { handler, object }) };
        proof {
            assert(object.layers() == seq![(msg_slot.key as int, msg_slot.text@)] + snap.layers());
            assert(object.wf() == self.wf_inner());
            assert(r.layers() =~= seq![(D::tag(), msg.text_of())] + self.layers());
            assert(r.chain_view() =~= seq![msg.text_of()] + self.chain_view());
        }
        r
    }
}

/// The chain of a report wrapped once for each element of `msgs`, in order
/// (first element wrapped first), over a report whose chain is `base`.
pub open spec fn wrapped_chain(msgs: Seq<Seq<char>>, base: Seq<Seq<char>>) -> Seq<Seq<char>>
    decreases msgs.len(),
{
    if msgs.len() == 0 {
        base
    } else {
        seq![msgs.last()] + wrapped_chain(msgs.drop_last(), base)
    }
}

/// Wrap-chain message ordering (law): wrapping a report once for each of
/// `msgs = [m1, ..., mN]`, innermost wrap first, yields the chain
/// `[mN, ..., m1]` followed by the original chain — each wrap prepends its
/// message, so the chain lists messages outermost-first.
///
/// `wrapped_chain` is the fold of what `Report::wrap_err` ensures of one
/// wrap, and the reversed cursor of `Chain::rev` yields the exact reverse
/// of this sequence.
pub proof fn lemma_wrap_chain_ordering(msgs: Seq<Seq<char>>, base: Seq<Seq<char>>)
    ensures
        wrapped_chain(msgs, base) == msgs.reverse() + base,
    decreases msgs.len(),
{
    if msgs.len() == 0 {
        assert(wrapped_chain(msgs, base) =~= msgs.reverse() + base);
    } else {
        lemma_wrap_chain_ordering(msgs.drop_last(), base);
        assert(wrapped_chain(msgs, base) =~= msgs.reverse() + base);
    }
}

/// Downcasting reaches the layer at position `j` whenever no layer above it
/// carries the same type key: the outermost match wins, and nothing below a
/// distinct key is shadowed.
pub proof fn lemma_first_text_at(layers: Seq<(int, Seq<char>)>, j: int)
    requires
        0 <= j < layers.len(),
        forall|i: int| 0 <= i < j ==> (#[trigger] layers[i]).0 != layers[j].0,
    ensures
        has_key(layers, layers[j].0),
        first_text(layers, layers[j].0) == layers[j].1,
    decreases j,
{
    assert(has_key(layers, layers[j].0));
    if j == 0 {
        assert(first_text(layers, layers[j].0) == layers[j].1);
    } else {
        let rest = layers.drop_first();
        assert(rest[j - 1] == layers[j]);
        assert forall|i: int| 0 <= i < j - 1 implies (#[trigger] rest[i]).0 != rest[j - 1].0 by {
            assert(rest[i] == layers[i + 1]);
        }
        lemma_first_text_at(rest, j - 1);
    }
}

/// Round-trip construction and downcast (law): a report built from a single
/// value — its layer sequence is one `(key, text)` entry — can always be
/// downcast back to that value's type, and what comes back carries the
/// original's display text. With the contracts of [`Report::new`] and
/// [`Report::downcast`], this says `Report::new(e).downcast::<E>()` returns
/// `Ok` of a value rendering exactly as `e`.
pub proof fn lemma_construct_downcast_roundtrip(r: Report, k: int, t: Seq<char>)
    requires
        r.layers() == seq![(k, t)],
    ensures
        has_key(r.layers(), k),
        first_text(r.layers(), k) == t,
{
    lemma_first_text_at(r.layers(), 0);
}

/// Cross-layer downcast (law): in a wrapped report, downcasting to the type
/// stored at any layer — a wrap message or the original error beneath all
/// the messages — succeeds and recovers that layer's value, provided no
/// layer above it has the same type; a message attached by wrapping never
/// shadows the ability to downcast to what lies beneath it.
pub proof fn lemma_cross_layer_downcast(r: Report, j: int)
    requires
        0 <= j < r.layers().len(),
        forall|i: int| 0 <= i < j ==> (#[trigger] r.layers()[i]).0 != r.layers()[j].0,
    ensures
        has_key(r.layers(), r.layers()[j].0),
        first_text(r.layers(), r.layers()[j].0) == r.layers()[j].1,
{
    lemma_first_text_at(r.layers(), j);
}

/// How `has_key` and `first_text` behave on a sequence with its first layer
/// split off.
proof fn lemma_first_cons(head: (int, Seq<char>), rest: Seq<(int, Seq<char>)>, k: int)
    ensures
        has_key(seq![head] + rest, k) <==> (head.0 == k || has_key(rest, k)),
        head.0 == k ==> first_text(seq![head] + rest, k) == head.1,
        head.0 != k ==> first_text(seq![head] + rest, k) == first_text(rest, k),
{
    let s = seq![head] + rest;
    assert(s[0] == head);
    assert(s.drop_first() =~= rest);
    if head.0 == k {
        assert(has_key(s, k));
    }
    if has_key(rest, k) {
        let i = choose|i: int| 0 <= i < rest.len() && (#[trigger] rest[i]).0 == k;
        assert(s[i + 1] == rest[i]);
        assert(has_key(s, k));
    }
    if has_key(s, k) && head.0 != k {
        let i = choose|i: int| 0 <= i < s.len() && (#[trigger] s[i]).0 == k;
        assert(rest[i - 1] == s[i]);
        assert(has_key(rest, k));
    }
}

/// Appends clones of all of `src` onto `dst`.
fn push_all(dst: &mut Vec<String>, src: &Vec<String>)
    ensures
        final(dst).deep_view() == old(dst).deep_view() + src.deep_view(),
{
    let mut i: usize = 0;
    proof {
        assert(dst.deep_view() =~= old(dst).deep_view() + src.deep_view().subrange(0, 0));
    }
    while i < src.len()
        invariant
            i <= src.len(),
            dst.deep_view() == old(dst).deep_view() + src.deep_view().subrange(0, i as int),
        decreases src.len() - i,
    {
        let ghost pre = dst.deep_view();
        dst.push(src[i].clone());
        i = i + 1;
        proof {
            assert(dst.deep_view() =~= pre.push(src.deep_view()[i - 1]));
            assert(dst.deep_view() =~= old(dst).deep_view() + src.deep_view().subrange(
                0,
                i as int,
            ));
        }
    }
    proof {
        assert(src.deep_view().subrange(0, src.len() as int) =~= src.deep_view());
    }
}

impl Report {
    /// The display text of this report: the outermost error's own message.
    pub fn to_string(&self) -> (s: String)
        ensures
            s@ == self.chain_view()[0],
    {
        self.inner.object.error_text()
    }

    /// The display texts of the whole cause chain, outermost first.
    pub fn chain_texts(&self) -> (v: Vec<String>)
        ensures
            v.deep_view() == self.chain_view(),
    {
        let mut v: Vec<String> = Vec::new();
        self.inner.object.append_chain(&mut v);
        proof {
            assert(v.deep_view() =~= self.chain_view());
        }
        v
    }

    /// An iterator over the chain of source errors contained by this
    /// report: every display text in the cause chain, beginning with the
    /// error this report was created from.
    pub fn chain(&self) -> (c: Chain)
        ensures
            c.wf(),
            c.remaining() == self.chain_view(),
    {
        self.inner.chain()
    }

    /// The lowest-level cause of this error: always the last element of
    /// [`Report::chain`].
    pub fn root_cause(&self) -> (s: String)
        ensures
            s@ == self.chain_view().last(),
    {
        proof {
            self.lemma_nonempty();
        }
        let mut chain = self.chain();
        let mut root_cause = match chain.next() {
            Some(s) => s,
            None => vstd::pervasive::unreached(),
        };
        while !chain.is_empty()
            invariant
                chain.wf(),
                self.chain_view().len() > 0,
                chain.remaining().len() < self.chain_view().len(),
                chain.remaining() == self.chain_view().subrange(
                    self.chain_view().len() - chain.remaining().len(),
                    self.chain_view().len() as int,
                ),
                root_cause@ == self.chain_view()[self.chain_view().len() - chain.remaining().len()
                    - 1],
            decreases chain.remaining().len(),
        {
            match chain.next() {
                Some(s) => {
                    root_cause = s;
                },
                None => {},
            }
        }
        root_cause
    }

    /// Whether `E` is a type held by this report: the type of the stored
    /// error, or of any wrap message attached above it.
    pub fn is<E: ErrorValue>(&self) -> (b: bool)
        requires
            self.wf(),
        ensures
            b ==> has_key(self.layers(), E::tag()),
            E::tag() != 0 ==> b == has_key(self.layers(), E::tag()),
    {
        self.downcast_ref::<E>().is_some()
    }

    /// Downcasts this report by reference.
    ///
    /// For a keyed type, succeeds exactly when some layer — a wrap message
    /// or the stored error — has `E`'s type key, and returns the outermost
    /// such value; no layer shadows the ones beneath it.
    pub fn downcast_ref<E: ErrorValue>(&self) -> (r: Option<&E>)
        requires
            self.wf(),
        ensures
            r is Some ==> has_key(self.layers(), E::tag()),
            E::tag() != 0 ==> (r is Some <==> has_key(self.layers(), E::tag())),
            E::tag() != 0 ==> (r matches Some(v) ==> v.text_of() == first_text(
                self.layers(),
                E::tag(),
            )),
    {
        self.inner.object.object_downcast::<E>()
    }

    /// Attempts to downcast the report to a concrete type, by value.
    ///
    /// On success the outermost stored value of type `E` is moved out and
    /// everything else is dropped; on failure the report is returned
    /// unchanged.
    pub fn downcast<E: ErrorValue>(self) -> (r: Result<E, Report>)
        requires
            self.wf(),
        ensures
            r is Ok ==> has_key(self.layers(), E::tag()),
            E::tag() != 0 ==> (r is Ok <==> has_key(self.layers(), E::tag())),
            E::tag() != 0 ==> (r matches Ok(v) ==> v.text_of() == first_text(
                self.layers(),
                E::tag(),
            )),
            r matches Err(rep) ==> rep == self,
    {
        let Report { inner } = self;
        let ErrorImpl { handler, object } = *inner;
        match object.object_take::<E>() {
            Ok(v) => Ok(v),
            Err(object) => {
                let r = Report { inner: Box::new(ErrorImpl { handler, object }) };
                proof {
                    assert(r == self);
                }
                Err(r)
            },
        }
    }

    /// A reference to the handler for this report.
    pub fn handler(&self) -> (h: &Handler)
        requires
            self.wf(),
        ensures
            Some(*h) == self.handler_spec(),
    {
        match &self.inner.handler {
            Some(h) => h,
            None => vstd::pervasive::unreached(),
        }
    }

    /// A mutable reference to the handler for this report.
    pub fn handler_mut(&mut self) -> (h: &mut Handler)
        requires
            old(self).wf(),
        ensures
            Some(*h) == old(self).handler_spec(),
            final(self).handler_spec() == Some(*final(h)),
            final(self).layers() == old(self).layers(),
            final(self).chain_view() == old(self).chain_view(),
            final(self).wf(),
    {
        match &mut self.inner.handler {
            Some(h) => h,
            None => vstd::pervasive::unreached(),
        }
    }

    /// A reference to the handler for this report.
    pub fn context(&self) -> (h: &Handler)
        requires
            self.wf(),
        ensures
            Some(*h) == self.handler_spec(),
    {
        self.handler()
    }

    /// A mutable reference to the handler for this report.
    pub fn context_mut(&mut self) -> (h: &mut Handler)
        requires
            old(self).wf(),
        ensures
            Some(*h) == old(self).handler_spec(),
            final(self).handler_spec() == Some(*final(h)),
            final(self).layers() == old(self).layers(),
            final(self).chain_view() == old(self).chain_view(),
            final(self).wf(),
    {
        self.handler_mut()
    }

    /// The attached help sections, as mathematical values; empty when the
    /// handler slot is.
    pub open spec fn sections_view(self) -> Seq<crate::help::HelpInfoV> {
        match self.handler_spec() {
            Some(h) => h.sections.deep_view(),
            None => Seq::empty(),
        }
    }

    /// Attaches one help section to this report's handler, leaving
    /// everything else — chain, layers, captured diagnostics — unchanged.
    /// A report whose handler slot is empty is passed through untouched.
    pub fn add_section(self, info: crate::help::HelpInfo) -> (r: Report)
        ensures
            r.layers() == self.layers(),
            r.chain_view() == self.chain_view(),
            r.wf_inner() == self.wf_inner(),
            r.handler_spec() is Some <==> self.handler_spec() is Some,
            self.handler_spec() is Some ==> r.sections_view() == self.sections_view().push(
                info.deep_view(),
            ),
            self.handler_spec() is None ==> r == self,
            self.wf() ==> r.wf(),
    {
        let ghost pre = self;
        let ghost info_v = info.deep_view();
        let Report { inner } = self;
        let ErrorImpl { handler, object } = *inner;
        let handler = match handler {
            Some(mut h) => {
                h.sections.push(info);
                Some(h)
            },
            None => None,
        };
        let r = Report { inner: Box::new(ErrorImpl { handler, object }) };
        proof {
            if pre.handler_spec() is Some {
                assert(r.sections_view() =~= pre.sections_view().push(info_v));
            }
        }
        r
    }

    /// The rendered backtrace captured for this report, if any.
    pub fn backtrace(&self) -> (b: Option<&String>)
        requires
            self.wf(),
        ensures
            match b {
                Some(s) => self.handler_spec() matches Some(h) && h.backtrace == Some(*s),
                None => self.handler_spec() matches Some(h) && h.backtrace is None,
            },
    {
        self.handler().backtrace.as_ref()
    }
}

impl ErasedObject {
    /// The display text of the outermost error: what the report displays as
    /// its own message. This recovers the dynamic-dispatch view of the
    /// erased value without knowing its type.
    pub(crate) fn error_text(&self) -> (s: String)
        ensures
            s@ == self.chain_view()[0],
    {
        match self {
            ErasedObject::Leaf(slot) => slot.text.clone(),
            ErasedObject::Context { msg, error } => msg.text.clone(),
            ErasedObject::ContextChain { msg, error } => msg.text.clone(),
        }
    }

    /// Appends the display texts of this structure's whole cause chain,
    /// outermost first.
    pub(crate) fn append_chain(&self, dst: &mut Vec<String>)
        ensures
            final(dst).deep_view() == old(dst).deep_view() + self.chain_view(),
        decreases self,
    {
        match self {
            ErasedObject::Leaf(slot) => {
                dst.push(slot.text.clone());
                push_all(dst, &slot.rest);
                proof {
                    assert(dst.deep_view() =~= old(dst).deep_view() + self.chain_view());
                }
            },
            ErasedObject::Context { msg, error } => {
                dst.push(msg.text.clone());
                dst.push(error.text.clone());
                push_all(dst, &error.rest);
                proof {
                    assert(dst.deep_view() =~= old(dst).deep_view() + self.chain_view());
                }
            },
            ErasedObject::ContextChain { msg, error } => {
                dst.push(msg.text.clone());
                error.inner.object.append_chain(dst);
                proof {
                    assert(dst.deep_view() =~= old(dst).deep_view() + self.chain_view());
                }
            },
        }
    }

    /// Attempts to find, by reference, the stored value whose type key is
    /// `E`'s, searching outermost layer first.
    ///
    /// This is the recursive downcast: a wrap layer first offers its own
    /// message, then delegates to the nested structure, terminating at a
    /// single- or two-slot layer.
    pub(crate) fn object_downcast<E: ErrorValue>(&self) -> (r: Option<&E>)
        requires
            self.wf(),
        ensures
            r is Some ==> has_key(self.layers(), E::tag()),
            E::tag() != 0 ==> (r is Some <==> has_key(self.layers(), E::tag())),
            E::tag() != 0 ==> (r matches Some(v) ==> v.text_of() == first_text(
                self.layers(),
                E::tag(),
            )),
        decreases self,
    {
        match self {
            ErasedObject::Leaf(slot) => {
                let r = slot.get_ref::<E>();
                proof {
                    lemma_first_cons(
                        (slot.key as int, slot.text@),
                        Seq::empty(),
                        E::tag(),
                    );
                    assert(seq![(slot.key as int, slot.text@)] + Seq::<(int, Seq<char>)>::empty()
                        =~= self.layers());
                }
                r
            },
            ErasedObject::Context { msg, error } => {
                proof {
                    lemma_first_cons(
                        (msg.key as int, msg.text@),
                        seq![(error.key as int, error.text@)],
                        E::tag(),
                    );
                    lemma_first_cons(
                        (error.key as int, error.text@),
                        Seq::empty(),
                        E::tag(),
                    );
                    assert(seq![(msg.key as int, msg.text@)] + seq![(error.key as int, error.text@)]
                        =~= self.layers());
                    assert(seq![(error.key as int, error.text@)] + Seq::<(int, Seq<char>)>::empty()
                        =~= seq![(error.key as int, error.text@)]);
                }
                let r = msg.get_ref::<E>();
                match r {
                    Some(v) => Some(v),
                    None => error.get_ref::<E>(),
                }
            },
            ErasedObject::ContextChain { msg, error } => {
                proof {
                    lemma_first_cons((msg.key as int, msg.text@), error.layers(), E::tag());
                    assert(seq![(msg.key as int, msg.text@)] + error.layers() =~= self.layers());
                }
                let r = msg.get_ref::<E>();
                match r {
                    Some(v) => Some(v),
                    None => error.inner.object.object_downcast::<E>(),
                }
            },
        }
    }

    /// Attempts to move out the stored value whose type key is `E`'s,
    /// searching outermost layer first; on failure the whole structure
    /// comes back unchanged.
    ///
    /// On success everything else — the other slots, the wrap shells and
    /// any nested handler — is dropped exactly once, while the recovered
    /// value is not dropped at all: in this formulation ownership of each
    /// part is moved exactly once, so the compiler enforces what the
    /// drop-rest dispatch functions of a pointer-based formulation must
    /// guarantee by hand.
    pub(crate) fn object_take<E: ErrorValue>(self) -> (r: Result<E, Self>)
        requires
            self.wf(),
        ensures
            r is Ok ==> has_key(self.layers(), E::tag()),
            E::tag() != 0 ==> (r is Ok <==> has_key(self.layers(), E::tag())),
            E::tag() != 0 ==> (r matches Ok(v) ==> v.text_of() == first_text(
                self.layers(),
                E::tag(),
            )),
            r matches Err(o) ==> o == self,
        decreases self,
    {
        match self {
            ErasedObject::Leaf(slot) => {
                proof {
                    lemma_first_cons(
                        (slot.key as int, slot.text@),
                        Seq::empty(),
                        E::tag(),
                    );
                    assert(seq![(slot.key as int, slot.text@)] + Seq::<(int, Seq<char>)>::empty()
                        =~= self.layers());
                }
                match slot.take::<E>() {
                    Ok(v) => Ok(v),
                    Err(slot) => Err(ErasedObject::Leaf(slot)),
                }
            },
            ErasedObject::Context { msg, error } => {
                proof {
                    lemma_first_cons(
                        (msg.key as int, msg.text@),
                        seq![(error.key as int, error.text@)],
                        E::tag(),
                    );
                    lemma_first_cons(
                        (error.key as int, error.text@),
                        Seq::empty(),
                        E::tag(),
                    );
                    assert(seq![(msg.key as int, msg.text@)] + seq![(error.key as int, error.text@)]
                        =~= self.layers());
                    assert(seq![(error.key as int, error.text@)] + Seq::<(int, Seq<char>)>::empty()
                        =~= seq![(error.key as int, error.text@)]);
                }
                match msg.take::<E>() {
                    Ok(v) => Ok(v),
                    Err(msg) => match error.take::<E>() {
                        Ok(v) => Ok(v),
                        Err(error) => Err(ErasedObject::Context { msg, error }),
                    },
                }
            },
            ErasedObject::ContextChain { msg, error } => {
                proof {
                    lemma_first_cons((msg.key as int, msg.text@), error.layers(), E::tag());
                    assert(seq![(msg.key as int, msg.text@)] + error.layers() =~= self.layers());
                }
                match msg.take::<E>() {
                    Ok(v) => Ok(v),
                    Err(msg) => {
                        let Report { inner } = *error;
                        let ErrorImpl { handler, object } = *inner;
                        match object.object_take::<E>() {
                            Ok(v) => Ok(v),
                            Err(object) => Err(
                                ErasedObject::ContextChain {
                                    msg,
                                    error: Box::new(
                                        Report {
                                            inner: Box::new(ErrorImpl { handler, object }),
                                        },
                                    ),
                                },
                            ),
                        }
                    },
                }
            },
        }
    }

    /// The layer and chain sequences are never empty, and the chain starts
    /// with the outermost layer's text.
    pub(crate) proof fn lemma_nonempty(self)
        ensures
            self.layers().len() >= 1,
            self.chain_view().len() >= self.layers().len(),
            self.chain_view()[0] == self.layers()[0].1,
        decreases self,
    {
        match self {
            ErasedObject::Leaf(s) => {},
            ErasedObject::Context { msg, error } => {},
            ErasedObject::ContextChain { msg, error } => {
                error.lemma_nonempty();
            },
        }
    }
}

} // verus!
