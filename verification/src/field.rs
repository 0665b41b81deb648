//! One editable datum of a form.
//!
//! A field keeps two layers of truth: the value last confirmed by the source
//! of the configuration, and the value the user has typed or toggled since.
//! Whether the field is valid is never stored; it is derived from the
//! effective value by the field's rule each time it is asked for.

use vstd::prelude::*;
use crate::raw::Raw;

verus! {

/// The two layers of a field, as mathematical values.
pub struct FieldState<T> {
    /// The confirmed value; absent until the first load.
    pub model: Option<T>,
    /// The user's edit; absent until the widget is touched, and again after
    /// every load.
    pub raw: Option<T>,
}

impl<T> FieldState<T> {
    /// A field that was neither loaded nor touched.
    pub open spec fn fresh() -> Self {
        FieldState { model: None, raw: None }
    }

    /// A confirmed load: the new value replaces the confirmed layer and
    /// discards the edit.
    pub open spec fn set(self, model: T) -> Self {
        FieldState { model: Some(model), raw: None }
    }

    /// The confirmed layer replaced, the edit kept. A load is `set`, not
    /// this.
    pub open spec fn update(self, model: T) -> Self {
        FieldState { model: Some(model), raw: self.raw }
    }

    /// A user edit.
    pub open spec fn on_change(self, raw: T) -> Self {
        FieldState { model: self.model, raw: Some(raw) }
    }

    /// The value in force: the edit, else the confirmed value, else `zero`.
    pub open spec fn effective(self, zero: T) -> T {
        match self.raw {
            Some(r) => r,
            None => match self.model {
                Some(m) => m,
                None => zero,
            },
        }
    }

    /// Whether the user has edited the field since the last load.
    pub open spec fn edited(self) -> bool {
        self.raw is Some
    }

    /// Whether a confirmed value is present and the value in force is
    /// another one.
    pub open spec fn departs(self, zero: T) -> bool {
        self.model is Some && self.model != Some(self.effective(zero))
    }
}

/// The view of what a rule returns.
pub open spec fn outcome_view<S: View>(res: Result<S, String>) -> Result<S::V, Seq<char>> {
    match res {
        Ok(v) => Ok(v@),
        Err(msg) => Err(msg@),
    }
}

/// The view of an optional value.
pub open spec fn value_view<S: View>(res: Option<S>) -> Option<S::V> {
    match res {
        Some(v) => Some(v@),
        None => None,
    }
}

/// A rule that turns a raw value into a validated one, or into the message
/// shown beside the widget.
///
/// A rule is a function of what it is given: the same raw value and the same
/// peer give the same outcome. A rule that stands alone has `()` as its peer;
/// one that depends on a sibling field names the sibling's type, and reads
/// the sibling afresh each time it is applied.
pub trait Validator<R: Raw, S: View> {
    /// What the rule reads besides the raw value.
    type Peer: View;

    /// The outcome of the rule, over views.
    spec fn spec_validate(&self, peer: <Self::Peer as View>::V, raw: R::V) -> Result<
        S::V,
        Seq<char>,
    >;

    /// Applies the rule.
    fn validate(&self, peer: &Self::Peer, raw: R) -> (res: Result<S, String>)
        ensures
            outcome_view(res) == self.spec_validate(peer@, raw@),
    ;
}

/// The outcome of `rule` on the value in force in `state`.
pub open spec fn outcome<R: Raw, S: View, V: Validator<R, S>>(
    rule: V,
    peer: <V::Peer as View>::V,
    state: FieldState<R::V>,
) -> Result<S::V, Seq<char>> {
    rule.spec_validate(peer, state.effective(R::zero()))
}

/// Whether a field in `state` counts as changed: it fails its rule, or it was
/// edited, or its value in force departs from the confirmed one.
pub open spec fn dirty<R: Raw, S: View, V: Validator<R, S>>(
    rule: V,
    peer: <V::Peer as View>::V,
    state: FieldState<R::V>,
) -> bool {
    outcome(rule, peer, state) is Err || state.edited() || state.departs(R::zero())
}

/// The text shown in the error line of a widget: the message, or a single
/// no-break space that keeps the line's height when there is none.
pub open spec fn error_line<T>(res: Result<T, Seq<char>>) -> Seq<char> {
    match res {
        Ok(_) => "\u{00a0}"@,
        Err(msg) => msg,
    }
}

/// An editable datum with raw type `R`, validated type `S` and rule `V`.
pub struct Field<R, S, V> {
    model_raw_value: Option<R>,
    raw_value: Option<R>,
    validator: V,
    semantic: core::marker::PhantomData<S>,
}

/// A field behind a text input.
pub type TextField<S, V> = Field<String, S, V>;

/// A field behind a checkbox.
pub type CheckedField<S, V> = Field<bool, S, V>;

impl<R: Raw, S, V> View for Field<R, S, V> {
    type V = FieldState<R::V>;

    closed spec fn view(&self) -> FieldState<R::V> {
        FieldState { model: value_view(self.model_raw_value), raw: value_view(self.raw_value) }
    }
}

impl<R: Raw, S, V> Field<R, S, V> {
    /// The field's rule.
    pub closed spec fn rule(&self) -> V {
        self.validator
    }

    /// Replaces the confirmed value and nothing else: an edit in flight
    /// stays in force and the field stays edited. This is not how a form
    /// takes a loaded configuration; that is [`Field::set`], which discards
    /// the edit.
    pub fn update(&mut self, raw_value: R)
        ensures
            final(self)@ == old(self)@.update(raw_value@),
            final(self).rule() == old(self).rule(),
    {
        self.model_raw_value = Some(raw_value);
    }

    /// Takes a freshly loaded value: it replaces the confirmed value and
    /// discards the user's edit.
    pub fn set(&mut self, raw_value: R)
        ensures
            final(self)@ == old(self)@.set(raw_value@),
            final(self).rule() == old(self).rule(),
    {
        self.model_raw_value = Some(raw_value);
        self.raw_value = None;
    }

    /// Records what the user typed or toggled. Nothing is validated here.
    pub fn on_change(&mut self, raw_value: R)
        ensures
            final(self)@ == old(self)@.on_change(raw_value@),
            final(self).rule() == old(self).rule(),
            final(self)@.effective(R::zero()) == raw_value@,
    {
        self.raw_value = Some(raw_value);
    }

    /// The value in force: the edit, else the confirmed value, else the raw
    /// type's blank.
    pub fn raw_value(&self) -> (res: R)
        ensures
            res@ == self@.effective(R::zero()),
    {
        match &self.raw_value {
            Some(r) => r.copy(),
            None => match &self.model_raw_value {
                Some(m) => m.copy(),
                None => R::blank(),
            },
        }
    }
}

impl<R: Raw, S: View, V: Validator<R, S>> Field<R, S, V> {
    /// A field that was neither loaded nor touched, with `validate` as its
    /// rule.
    pub fn new(validate: V) -> (res: Self)
        ensures
            res@ == FieldState::<R::V>::fresh(),
            res.rule() == validate,
    {
        Field {
            model_raw_value: None,
            raw_value: None,
            validator: validate,
            semantic: core::marker::PhantomData,
        }
    }

    /// The outcome of the field's rule on the value in force.
    pub open spec fn spec_outcome(&self, peer: <V::Peer as View>::V) -> Result<S::V, Seq<char>> {
        outcome(self.rule(), peer, self@)
    }

    /// The validated value, absent when the rule rejects the value in force.
    /// Nothing is cached: each call applies the rule anew.
    pub fn value(&self, peer: &V::Peer) -> (res: Option<S>)
        ensures
            value_view(res) == match self.spec_outcome(peer@) {
                Ok(v) => Some(v),
                Err(_) => None,
            },
    {
        match self.validator.validate(peer, self.raw_value()) {
            Ok(v) => Some(v),
            Err(_) => None,
        }
    }

    /// Whether the rule rejects the value in force.
    pub fn has_errors(&self, peer: &V::Peer) -> (res: bool)
        ensures
            res == self.spec_outcome(peer@) is Err,
    {
        self.error(peer).is_some()
    }

    /// The rule's message, absent when the value in force is accepted.
    pub fn error(&self, peer: &V::Peer) -> (res: Option<String>)
        ensures
            value_view(res) == match self.spec_outcome(peer@) {
                Ok(_) => None,
                Err(msg) => Some(msg),
            },
    {
        match self.validator.validate(peer, self.raw_value()) {
            Ok(_) => None,
            Err(error) => Some(error),
        }
    }

    /// The text for the error line under the widget: the rule's message, or
    /// a single no-break space when there is none.
    pub fn error_str(&self, peer: &V::Peer) -> (res: String)
        ensures
            res@ == error_line(self.spec_outcome(peer@)),
    {
        match self.error(peer) {
            Some(error) => error,
            None => "\u{00a0}".to_owned(),
        }
    }

    /// Whether the field counts as changed: it fails its rule, or it was
    /// edited, or its value in force departs from the confirmed one.
    pub fn is_dirty(&self, peer: &V::Peer) -> (res: bool)
        ensures
            res == dirty(self.rule(), peer@, self@),
    {
        self.has_errors(peer) || self.raw_value.is_some() || match &self.model_raw_value {
            Some(m) => !m.same(&self.raw_value()),
            None => false,
        }
    }
}

impl<S: View, V: Validator<String, S>> Field<String, S, V> {
    /// A fresh field for a text input.
    pub fn text(validate: V) -> (res: Self)
        ensures
            res@ == FieldState::<Seq<char>>::fresh(),
            res.rule() == validate,
    {
        Self::new(validate)
    }
}

impl<S: View, V: Validator<bool, S>> Field<bool, S, V> {
    /// A fresh field for a checkbox.
    pub fn checked(validate: V) -> (res: Self)
        ensures
            res@ == FieldState::<bool>::fresh(),
            res.rule() == validate,
    {
        Self::new(validate)
    }
}

/// A loaded value that the rule reads as `value` leaves the field clean, and
/// `value` is what the field then stands for, whatever the field held
/// before.
pub proof fn loaded_value_is_clean<R: Raw, S: View, V: Validator<R, S>>(
    rule: V,
    peer: <V::Peer as View>::V,
    state: FieldState<R::V>,
    raw: R::V,
    value: S::V,
)
    requires
        rule.spec_validate(peer, raw) == Ok::<S::V, Seq<char>>(value),
    ensures
        !dirty(rule, peer, state.set(raw)),
        outcome(rule, peer, state.set(raw)) == Ok::<S::V, Seq<char>>(value),
{
}

/// After an edit the value in force is the edit, whatever was loaded or
/// typed before.
pub proof fn edit_is_in_force<T>(state: FieldState<T>, raw: T, zero: T)
    ensures
        state.on_change(raw).effective(zero) == raw,
        forall|model: T| #[trigger] state.set(model).on_change(raw).effective(zero) == raw,
{
}

/// An edit that the rule rejects leaves the field with an error and without
/// a value, and the field counts as changed.
pub proof fn rejected_edit_is_an_error<R: Raw, S: View, V: Validator<R, S>>(
    rule: V,
    peer: <V::Peer as View>::V,
    state: FieldState<R::V>,
    raw: R::V,
)
    requires
        rule.spec_validate(peer, raw) is Err,
    ensures
        outcome(rule, peer, state.on_change(raw)) is Err,
        dirty(rule, peer, state.on_change(raw)),
{
}

/// Loading the same value twice is loading it once: the field is in the same
/// state, with the loaded value in force, and it counts as changed exactly
/// if the rule rejects that value.
pub proof fn load_is_idempotent<R: Raw, S: View, V: Validator<R, S>>(
    rule: V,
    peer: <V::Peer as View>::V,
    state: FieldState<R::V>,
    raw: R::V,
)
    ensures
        state.set(raw).set(raw) == state.set(raw),
        state.set(raw).effective(R::zero()) == raw,
        dirty(rule, peer, state.set(raw)) <==> rule.spec_validate(peer, raw) is Err,
{
}

/// A field counts as changed exactly if it fails its rule or was edited: a
/// value in force that departs from the confirmed one is always an edit.
pub proof fn dirty_is_error_or_edit<R: Raw, S: View, V: Validator<R, S>>(
    rule: V,
    peer: <V::Peer as View>::V,
    state: FieldState<R::V>,
)
    ensures
        dirty(rule, peer, state) <==> outcome(rule, peer, state) is Err || state.edited(),
{
}

} // verus!
