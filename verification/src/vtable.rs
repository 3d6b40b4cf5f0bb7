//! The type-erasure kernel: storage of one concrete error value with its
//! compile-time type forgotten, and recovery of that value by runtime type
//! key.
//!
//! In a pointer-based design this job is done by per-type dispatch tables of
//! unsafe operations. Here the same contract is carried by one opaque cell,
//! [`PayloadBox`], together with three operations whose behaviour Verus
//! believes without proof: erase a value into a cell, recover it by value,
//! and recover it by reference. Everything else that walks or takes apart a
//! report is ordinary verified code over [`Slot`].
//!
//! The ghost model of a cell is given by three names: the type key of the
//! stored value ([`payload_tag`]), its display text ([`payload_text`]), and
//! the display texts of its causes ([`payload_sources`]). The trusted
//! operations are the only places these names are given meaning, and they
//! rely on the standard library's `Any` machinery: recovery succeeds exactly
//! when the requested type is the stored one. Matching type keys to types
//! rests on every keyed [`ErrorValue`] implementation giving its type a key
//! of its own; of unkeyed implementations — those written outside verified
//! code — the contracts promise only what holds of every outcome (see the
//! trait's documentation).

use crate::value::ErrorValue;
use vstd::prelude::*;

verus! {

/// One type-erased value. Opaque to verification: everything known about a
/// cell is said through [`payload_tag`], [`payload_text`] and
/// [`payload_sources`].
#[verifier::external_body]
pub struct PayloadBox {
    inner: Box<dyn core::any::Any + Send + Sync>,
}

/// The type key of the value a cell stores.
pub uninterp spec fn payload_tag(p: PayloadBox) -> int;

/// The display text of the value a cell stores.
pub uninterp spec fn payload_text(p: PayloadBox) -> Seq<char>;

/// The display texts of the causes of the value a cell stores.
pub uninterp spec fn payload_sources(p: PayloadBox) -> Seq<Seq<char>>;

/// Erases a value into a cell.
///
/// Relies on `Box::new` and the standard coercion of `Box<E>` into
/// `Box<dyn Any + Send + Sync>`: the cell stores exactly `value`, so the
/// cell's type key, text and cause texts are those of `value`.
#[verifier::external_body]
pub(crate) fn payload_erase<E: ErrorValue>(value: E) -> (p: PayloadBox)
    ensures
        payload_tag(p) == E::tag(),
        payload_text(p) == value.text_of(),
        payload_sources(p) == value.sources_of(),
{
    PayloadBox { inner: Box::new(value) }
}

/// Recovers the stored value from a cell, consuming the cell.
///
/// Relies on `Box::<dyn Any + Send + Sync>::downcast`: it returns the stored
/// value exactly when `E` is its type, and otherwise hands the box back
/// unchanged. Distinct keyed types never share a key (see [`ErrorValue`]),
/// so success implies the keys agree, and agreeing nonzero keys imply the
/// types agree and recovery succeeds; a recovered value is the stored one,
/// with the stored text and cause texts. Of unkeyed types — key `0`,
/// implementations from unverified code — success is not promised.
#[verifier::external_body]
pub(crate) fn payload_recover<E: ErrorValue>(p: PayloadBox) -> (r: Result<E, PayloadBox>)
    ensures
        r is Ok ==> payload_tag(p) == E::tag(),
        payload_tag(p) == E::tag() && E::tag() != 0 ==> r is Ok,
        r matches Ok(v) ==> v.text_of() == payload_text(p) && v.sources_of() == payload_sources(
            p,
        ),
        r matches Err(q) ==> q == p,
{
    match p.inner.downcast::<E>() {
        Ok(v) => Ok(*v),
        Err(inner) => Err(PayloadBox { inner }),
    }
}

/// Recovers a reference to the stored value from a cell.
///
/// Relies on `<dyn Any>::downcast_ref`: it returns a reference to the
/// stored value exactly when `E` is its type, with the guarantees of
/// [`payload_recover`], and leaves the cell untouched.
#[verifier::external_body]
pub(crate) fn payload_recover_ref<E: ErrorValue>(p: &PayloadBox) -> (r: Option<&E>)
    ensures
        r is Some ==> payload_tag(*p) == E::tag(),
        payload_tag(*p) == E::tag() && E::tag() != 0 ==> r is Some,
        r matches Some(v) ==> v.text_of() == payload_text(*p) && v.sources_of()
            == payload_sources(*p),
{
    p.inner.downcast_ref::<E>()
}

/// A type-erased value together with what the report needs to know about it
/// without its type: its type key, its display text, and the display texts
/// of its causes.
pub struct Slot {
    /// The type key of the stored value.
    pub key: u64,
    /// The display text of the stored value.
    pub text: String,
    /// The display texts of the stored value's causes, outermost first.
    pub rest: Vec<String>,
    /// The stored value itself, type-erased.
    pub payload: PayloadBox,
}

impl Slot {
    /// The plain fields describe the erased payload truthfully.
    pub open spec fn wf(&self) -> bool {
        payload_tag(self.payload) == self.key as int && payload_text(self.payload) == self.text@
            && payload_sources(self.payload) == self.rest.deep_view()
    }

    /// Erases `value` into a slot, capturing its key and texts.
    pub fn new<E: ErrorValue>(value: E) -> (s: Slot)
        ensures
            s.wf(),
            s.key as int == E::tag(),
            s.text@ == value.text_of(),
            s.rest.deep_view() == value.sources_of(),
    {
        let key = E::key();
        let text = value.render();
        let rest = value.source_texts();
        let payload = payload_erase(value);
        Slot { key, text, rest, payload }
    }

    /// Recovers the stored value by value; on failure the slot comes back
    /// unchanged.
    pub fn take<E: ErrorValue>(self) -> (r: Result<E, Slot>)
        requires
            self.wf(),
        ensures
            r is Ok ==> self.key as int == E::tag(),
            self.key as int == E::tag() && E::tag() != 0 ==> r is Ok,
            r matches Ok(v) ==> v.text_of() == self.text@ && v.sources_of()
                == self.rest.deep_view(),
            r matches Err(s) ==> s == self,
    {
        let Slot { key, text, rest, payload } = self;
        match payload_recover::<E>(payload) {
            Ok(v) => Ok(v),
            Err(payload) => Err(Slot { key, text, rest, payload }),
        }
    }

    /// Recovers a reference to the stored value.
    pub fn get_ref<E: ErrorValue>(&self) -> (r: Option<&E>)
        requires
            self.wf(),
        ensures
            r is Some ==> self.key as int == E::tag(),
            self.key as int == E::tag() && E::tag() != 0 ==> r is Some,
            r matches Some(v) ==> v.text_of() == self.text@ && v.sources_of()
                == self.rest.deep_view(),
    {
        payload_recover_ref::<E>(&self.payload)
    }
}

} // verus!
