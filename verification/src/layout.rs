//! What a renderer needs to draw a form: for every widget its value, whether
//! it is disabled, whether it is marked as wrong, and its error line.
//!
//! The layout is computed from the form's fields; turning it into markup is
//! left to the renderer.

use vstd::prelude::*;
use crate::auth::AuthMethod;
use crate::field::{error_line, TextField, Validator};
use crate::raw::Raw;

verus! {

/// A text input with its error line.
#[derive(Clone, Debug, PartialEq, Eq)]
pub struct TextInput {
    /// The text in the input.
    pub value: String,
    /// Whether the input takes no edits.
    pub disabled: bool,
    /// Whether the input is marked as wrong.
    pub danger: bool,
    /// The text of the error line, never empty.
    pub error: String,
    /// Whether the error line is invisible, though it keeps its place.
    pub error_hidden: bool,
}

/// [`TextInput`] as a mathematical value.
pub struct TextInputView {
    pub value: Seq<char>,
    pub disabled: bool,
    pub danger: bool,
    pub error: Seq<char>,
    pub error_hidden: bool,
}

impl View for TextInput {
    type V = TextInputView;

    open spec fn view(&self) -> TextInputView {
        TextInputView {
            value: self.value@,
            disabled: self.disabled,
            danger: self.danger,
            error: self.error@,
            error_hidden: self.error_hidden,
        }
    }
}

/// A checkbox.
#[derive(Clone, Copy, Debug, PartialEq, Eq, Structural)]
pub struct CheckInput {
    pub checked: bool,
    pub disabled: bool,
}

/// One entry of a selection list.
#[derive(Clone, Debug, PartialEq, Eq)]
pub struct Choice {
    /// The value that the widget reports when the entry is chosen.
    pub value: String,
    /// The text shown to the user.
    pub label: String,
    /// Whether the entry is the chosen one.
    pub selected: bool,
}

/// [`Choice`] as a mathematical value.
pub struct ChoiceView {
    pub value: Seq<char>,
    pub label: Seq<char>,
    pub selected: bool,
}

impl View for Choice {
    type V = ChoiceView;

    open spec fn view(&self) -> ChoiceView {
        ChoiceView { value: self.value@, label: self.label@, selected: self.selected }
    }
}

/// The password section of a form.
#[derive(Clone, Debug, PartialEq, Eq)]
pub struct Credentials {
    /// The caption of the password input.
    pub password_label: String,
    pub password: TextInput,
    /// The caption of the confirmation input.
    pub confirm_label: String,
    pub password_confirm: TextInput,
}

/// [`Credentials`] as a mathematical value.
pub struct CredentialsView {
    pub password_label: Seq<char>,
    pub password: TextInputView,
    pub confirm_label: Seq<char>,
    pub password_confirm: TextInputView,
}

impl View for Credentials {
    type V = CredentialsView;

    open spec fn view(&self) -> CredentialsView {
        CredentialsView {
            password_label: self.password_label@,
            password: self.password@,
            confirm_label: self.confirm_label@,
            password_confirm: self.password_confirm@,
        }
    }
}

/// The text input for a field whose value in force is `value` and whose rule
/// gives `res`: marked as wrong only while it can be edited, its error line
/// hidden while it cannot.
pub open spec fn spec_text_input<T>(
    value: Seq<char>,
    res: Result<T, Seq<char>>,
    disabled: bool,
) -> TextInputView {
    TextInputView {
        value,
        disabled,
        danger: !disabled && res is Err,
        error: error_line(res),
        error_hidden: disabled,
    }
}

/// The text input for `field`.
pub fn text_input<S: View, V: Validator<String, S>>(
    field: &TextField<S, V>,
    peer: &V::Peer,
    disabled: bool,
) -> (res: TextInput)
    ensures
        res@ == spec_text_input(
            field@.effective(String::zero()),
            field.spec_outcome(peer@),
            disabled,
        ),
{
    TextInput {
        value: field.raw_value(),
        disabled,
        danger: !disabled && field.has_errors(peer),
        error: field.error_str(peer),
        error_hidden: disabled,
    }
}

/// The entry for `method` in a list where `selected` is chosen.
pub open spec fn spec_choice(method: AuthMethod, selected: AuthMethod) -> ChoiceView {
    ChoiceView {
        value: method.spec_label(),
        label: method.spec_message(),
        selected: method == selected,
    }
}

/// The entries for all authentication methods, in order, with `selected`
/// chosen.
pub open spec fn spec_choices(selected: AuthMethod) -> Seq<ChoiceView> {
    AuthMethod::spec_all().map_values(|m: AuthMethod| spec_choice(m, selected))
}

/// The views of a list of entries.
pub open spec fn choices_view(choices: Seq<Choice>) -> Seq<ChoiceView> {
    choices.map_values(|c: Choice| c@)
}

/// The entries for all authentication methods, in order, with `selected`
/// chosen.
pub fn choices(selected: AuthMethod) -> (res: Vec<Choice>)
    ensures
        choices_view(res@) == spec_choices(selected),
{
    let all = AuthMethod::all();
    let mut res: Vec<Choice> = Vec::new();
    let mut i: usize = 0;
    while i < all.len()
        invariant
            i <= all.len(),
            all@ == AuthMethod::spec_all(),
            res@.len() == i,
            forall|j: int| 0 <= j < i ==> (#[trigger] res@[j])@ == spec_choice(all@[j], selected),
        decreases all.len() - i,
    {
        let method = all[i];
        let label = match method.message() {
            Some(text) => text,
            None => method.label(),
        };
        res.push(Choice { value: method.label(), label, selected: method == selected });
        i += 1;
    }
    assert(choices_view(res@) =~= spec_choices(selected));
    res
}

/// The captions of the password section: a WEP network has a key, every
/// other a password.
pub open spec fn spec_password_label(method: AuthMethod) -> Seq<char> {
    if method == AuthMethod::WEP {
        "Key"@
    } else {
        "Password"@
    }
}

/// The caption of the confirmation input.
pub open spec fn spec_confirm_label(method: AuthMethod) -> Seq<char> {
    if method == AuthMethod::WEP {
        "Key Confirmation"@
    } else {
        "Password Confirmation"@
    }
}

/// The caption of the password input.
pub fn password_label(method: AuthMethod) -> (res: String)
    ensures
        res@ == spec_password_label(method),
{
    if method == AuthMethod::WEP {
        "Key".to_owned()
    } else {
        "Password".to_owned()
    }
}

/// The caption of the confirmation input.
pub fn confirm_label(method: AuthMethod) -> (res: String)
    ensures
        res@ == spec_confirm_label(method),
{
    if method == AuthMethod::WEP {
        "Key Confirmation".to_owned()
    } else {
        "Password Confirmation".to_owned()
    }
}

} // verus!
