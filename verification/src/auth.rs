//! The authentication methods a network can ask for, and the texts that
//! stand for them in a form.

use vstd::prelude::*;
use embedded_svc::wifi::AuthMethod as Outside;
use strum::EnumMessage;
use strum::IntoEnumIterator;

verus! {

/// How a station proves itself to an access point.
#[derive(Clone, Copy, Debug, PartialEq, Eq, Structural)]
pub enum AuthMethod {
    /// No authentication: an open network.
    Open,
    WEP,
    WPA,
    WPA2Personal,
    WPAWPA2Personal,
    WPA2Enterprise,
    WPA3Personal,
    WPA2WPA3Personal,
    WAPIPersonal,
}

impl View for AuthMethod {
    type V = AuthMethod;

    open spec fn view(&self) -> AuthMethod {
        *self
    }
}

impl Default for AuthMethod {
    /// The method assumed where none is named.
    fn default() -> (res: Self)
        ensures
            res == AuthMethod::WPA2Personal,
    {
        AuthMethod::WPA2Personal
    }
}

impl AuthMethod {
    /// The text that stands for the method as the value of a form field.
    pub open spec fn spec_label(self) -> Seq<char> {
        match self {
            AuthMethod::Open => "none"@,
            AuthMethod::WEP => "wep"@,
            AuthMethod::WPA => "wpa"@,
            AuthMethod::WPA2Personal => "wpa2personal"@,
            AuthMethod::WPAWPA2Personal => "wpawpa2personal"@,
            AuthMethod::WPA2Enterprise => "wpa2enterprise"@,
            AuthMethod::WPA3Personal => "wpa3personal"@,
            AuthMethod::WPA2WPA3Personal => "wpa2wpa3personal"@,
            AuthMethod::WAPIPersonal => "wapipersonal"@,
        }
    }

    /// The text that names the method to the user.
    pub open spec fn spec_message(self) -> Seq<char> {
        match self {
            AuthMethod::Open => "None"@,
            AuthMethod::WEP => "WEP"@,
            AuthMethod::WPA => "WPA"@,
            AuthMethod::WPA2Personal => "WPA2 Personal"@,
            AuthMethod::WPAWPA2Personal => "WPA & WPA2 Personal"@,
            AuthMethod::WPA2Enterprise => "WPA2 Enterprise"@,
            AuthMethod::WPA3Personal => "WPA3 Personal"@,
            AuthMethod::WPA2WPA3Personal => "WPA2 & WPA3 Personal"@,
            AuthMethod::WAPIPersonal => "WAPI Personal"@,
        }
    }

    /// All methods, in the order in which a form offers them.
    pub open spec fn spec_all() -> Seq<AuthMethod> {
        seq![
            AuthMethod::Open,
            AuthMethod::WEP,
            AuthMethod::WPA,
            AuthMethod::WPA2Personal,
            AuthMethod::WPAWPA2Personal,
            AuthMethod::WPA2Enterprise,
            AuthMethod::WPA3Personal,
            AuthMethod::WPA2WPA3Personal,
            AuthMethod::WAPIPersonal,
        ]
    }

    /// `Display` of `embedded_svc::wifi::AuthMethod`, which `strum` derives.
    /// Trusted: the text is the variant's `serialize` attribute.
    #[verifier::external_body]
    pub(crate) fn label(self) -> (res: String)
        ensures
            res@ == self.spec_label(),
    {
        match self {
            AuthMethod::Open => Outside::None,
            AuthMethod::WEP => Outside::WEP,
            AuthMethod::WPA => Outside::WPA,
            AuthMethod::WPA2Personal => Outside::WPA2Personal,
            AuthMethod::WPAWPA2Personal => Outside::WPAWPA2Personal,
            AuthMethod::WPA2Enterprise => Outside::WPA2Enterprise,
            AuthMethod::WPA3Personal => Outside::WPA3Personal,
            AuthMethod::WPA2WPA3Personal => Outside::WPA2WPA3Personal,
            AuthMethod::WAPIPersonal => Outside::WAPIPersonal,
        }.to_string()
    }

    /// `EnumMessage::get_message` of `embedded_svc::wifi::AuthMethod`, which
    /// `strum` derives. Trusted: every variant has a message, and it is the
    /// variant's `message` attribute.
    #[verifier::external_body]
    pub(crate) fn message(self) -> (res: Option<String>)
        ensures
            crate::field::value_view(res) == Some(self.spec_message()),
    {
        match self {
            AuthMethod::Open => Outside::None,
            AuthMethod::WEP => Outside::WEP,
            AuthMethod::WPA => Outside::WPA,
            AuthMethod::WPA2Personal => Outside::WPA2Personal,
            AuthMethod::WPAWPA2Personal => Outside::WPAWPA2Personal,
            AuthMethod::WPA2Enterprise => Outside::WPA2Enterprise,
            AuthMethod::WPA3Personal => Outside::WPA3Personal,
            AuthMethod::WPA2WPA3Personal => Outside::WPA2WPA3Personal,
            AuthMethod::WAPIPersonal => Outside::WAPIPersonal,
        }.get_message().map(str::to_owned)
    }

    /// `IntoEnumIterator::iter` of `embedded_svc::wifi::AuthMethod`, which
    /// `strum` derives. Trusted: it yields every variant once, in the order
    /// of declaration.
    #[verifier::external_body]
    pub(crate) fn all() -> (res: Vec<AuthMethod>)
        ensures
            res@ == Self::spec_all(),
    {
        let mut res = Vec::new();
        for m in Outside::iter() {
            res.push(match m {
                Outside::None => AuthMethod::Open,
                Outside::WEP => AuthMethod::WEP,
                Outside::WPA => AuthMethod::WPA,
                Outside::WPA2Personal => AuthMethod::WPA2Personal,
                Outside::WPAWPA2Personal => AuthMethod::WPAWPA2Personal,
                Outside::WPA2Enterprise => AuthMethod::WPA2Enterprise,
                Outside::WPA3Personal => AuthMethod::WPA3Personal,
                Outside::WPA2WPA3Personal => AuthMethod::WPA2WPA3Personal,
                Outside::WAPIPersonal => AuthMethod::WAPIPersonal,
            });
        }
        res
    }
}

/// The first of `methods` whose label is `label`, if there is one.
pub open spec fn first_labelled(methods: Seq<AuthMethod>, label: Seq<char>) -> Option<AuthMethod>
    decreases methods.len(),
{
    if methods.len() == 0 {
        None
    } else if methods[0].spec_label() == label {
        Some(methods[0])
    } else {
        first_labelled(methods.subrange(1, methods.len() as int), label)
    }
}

/// The method that `label` stands for: the first that carries it, and the
/// default method where none does.
pub open spec fn spec_from_label(label: Seq<char>) -> AuthMethod {
    match first_labelled(AuthMethod::spec_all(), label) {
        Some(m) => m,
        None => AuthMethod::WPA2Personal,
    }
}

/// The method that `label` stands for. A text that is no method's label
/// stands for the default method.
pub fn from_label(label: &String) -> (res: AuthMethod)
    ensures
        res == spec_from_label(label@),
{
    let all = AuthMethod::all();
    let mut i: usize = 0;
    assert(all@.subrange(0, all.len() as int) == all@);
    while i < all.len()
        invariant
            i <= all.len(),
            first_labelled(all@, label@) == first_labelled(
                all@.subrange(i as int, all.len() as int),
                label@,
            ),
            all@ == AuthMethod::spec_all(),
        decreases all.len() - i,
    {
        let method = all[i];
        if method.label() == *label {
            return method;
        }
        assert(all@.subrange(i as int, all.len() as int).subrange(
            1,
            all.len() - i,
        ) == all@.subrange(i + 1, all.len() as int));
        i += 1;
    }
    AuthMethod::default()
}

/// Where `methods[i]` carries `label` and none before it does, it is the
/// first that carries it.
proof fn first_labelled_at(methods: Seq<AuthMethod>, label: Seq<char>, i: int)
    requires
        0 <= i < methods.len(),
        methods[i].spec_label() == label,
        forall|j: int| 0 <= j < i ==> methods[j].spec_label() != label,
    ensures
        first_labelled(methods, label) == Some(methods[i]),
    decreases i,
{
    if i > 0 {
        first_labelled_at(methods.subrange(1, methods.len() as int), label, i - 1);
    }
}

/// The place of a method in the order in which a form offers them.
pub open spec fn position(method: AuthMethod) -> int {
    match method {
        AuthMethod::Open => 0,
        AuthMethod::WEP => 1,
        AuthMethod::WPA => 2,
        AuthMethod::WPA2Personal => 3,
        AuthMethod::WPAWPA2Personal => 4,
        AuthMethod::WPA2Enterprise => 5,
        AuthMethod::WPA3Personal => 6,
        AuthMethod::WPA2WPA3Personal => 7,
        AuthMethod::WAPIPersonal => 8,
    }
}

/// No two methods share a label: the label of a method stands for that
/// method and no other.
pub proof fn label_names_its_method(method: AuthMethod)
    ensures
        spec_from_label(method.spec_label()) == method,
{
    reveal_strlit("none");
    reveal_strlit("wep");
    reveal_strlit("wpa");
    reveal_strlit("wpa2personal");
    reveal_strlit("wpawpa2personal");
    reveal_strlit("wpa2enterprise");
    reveal_strlit("wpa3personal");
    reveal_strlit("wpa2wpa3personal");
    reveal_strlit("wapipersonal");
    let all = AuthMethod::spec_all();
    let label = method.spec_label();
    assert forall|other: AuthMethod| other != method implies other.spec_label() != label by {
        let a = other.spec_label();
        if a.len() == label.len() {
            assert(a[1] != label[1] || a[3] != label[3]);
        }
    }
    first_labelled_at(all, label, position(method));
}

} // verus!
