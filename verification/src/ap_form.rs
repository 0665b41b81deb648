//! The form for the device's access point.

use vstd::prelude::*;
use crate::auth::{label_names_its_method, spec_from_label, AuthMethod};
use crate::config::{
    AccessPointConfiguration,
    AccessPointConfigurationView,
    Protocols,
    RouterConfiguration,
};
use crate::field::{outcome, value_view, CheckedField, Field, FieldState, TextField};
use crate::ipv4::{
    render_ipv4,
    render_subnet,
    subnet_text,
    subnet_text_is_read_back,
    Ipv4,
    Subnet,
};
use crate::layout::{
    choices,
    choices_view,
    confirm_label,
    password_label,
    spec_choices,
    spec_confirm_label,
    spec_password_label,
    spec_text_input,
    text_input,
    CheckInput,
    Choice,
    ChoiceView,
    Credentials,
    CredentialsView,
    TextInput,
    TextInputView,
};
use crate::raw::Raw;
use crate::rules::{
    optional_address_is_read_back,
    optional_ipv4_text,
    Accept,
    Authentication,
    Confirmation,
    OptionalAddress,
    Password,
    SubnetText,
};

verus! {

/// The fields of the access point form.
///
/// The password and its confirmation count only while the authentication
/// method is not the open one; the address fields count only while the
/// address configuration is switched on.
pub struct ApConfForm {
    pub ssid: TextField<String, Accept>,
    pub hidden_ssid: CheckedField<bool, Accept>,
    pub auth: TextField<AuthMethod, Authentication>,
    pub password: TextField<String, Password>,
    pub password_confirm: TextField<String, Confirmation>,
    pub ip_conf_enabled: CheckedField<bool, Accept>,
    pub dhcp_server_enabled: CheckedField<bool, Accept>,
    pub subnet: TextField<Subnet, SubnetText>,
    pub dns: TextField<Option<Ipv4>, OptionalAddress>,
    pub secondary_dns: TextField<Option<Ipv4>, OptionalAddress>,
}

/// The access point form as the states of its fields.
pub struct ApConfFormView {
    pub ssid: FieldState<Seq<char>>,
    pub hidden_ssid: FieldState<bool>,
    pub auth: FieldState<Seq<char>>,
    pub password: FieldState<Seq<char>>,
    pub password_confirm: FieldState<Seq<char>>,
    pub ip_conf_enabled: FieldState<bool>,
    pub dhcp_server_enabled: FieldState<bool>,
    pub subnet: FieldState<Seq<char>>,
    pub dns: FieldState<Seq<char>>,
    pub secondary_dns: FieldState<Seq<char>>,
}

impl ApConfFormView {
    /// The form before anything was loaded or typed.
    pub open spec fn fresh() -> Self {
        ApConfFormView {
            ssid: FieldState::fresh(),
            hidden_ssid: FieldState::fresh(),
            auth: FieldState::fresh(),
            password: FieldState::fresh(),
            password_confirm: FieldState::fresh(),
            ip_conf_enabled: FieldState::fresh(),
            dhcp_server_enabled: FieldState::fresh(),
            subnet: FieldState::fresh(),
            dns: FieldState::fresh(),
            secondary_dns: FieldState::fresh(),
        }
    }

    /// The form right after `conf` was loaded into it: every field holds its
    /// part of `conf` as confirmed text, and no edit.
    pub open spec fn loaded(conf: AccessPointConfigurationView) -> Self {
        ApConfFormView {
            ssid: FieldState::fresh().set(conf.ssid),
            hidden_ssid: FieldState::fresh().set(conf.ssid_hidden),
            auth: FieldState::fresh().set(conf.auth_method.spec_label()),
            password: FieldState::fresh().set(conf.password),
            password_confirm: FieldState::fresh().set(conf.password),
            ip_conf_enabled: FieldState::fresh().set(conf.ip_conf is Some),
            dhcp_server_enabled: FieldState::fresh().set(
                match conf.ip_conf {
                    Some(i) => i.dhcp_enabled,
                    None => false,
                },
            ),
            subnet: FieldState::fresh().set(
                match conf.ip_conf {
                    Some(i) => subnet_text(i.subnet),
                    None => Seq::empty(),
                },
            ),
            dns: FieldState::fresh().set(
                match conf.ip_conf {
                    Some(i) => optional_ipv4_text(i.dns),
                    None => Seq::empty(),
                },
            ),
            secondary_dns: FieldState::fresh().set(
                match conf.ip_conf {
                    Some(i) => optional_ipv4_text(i.secondary_dns),
                    None => Seq::empty(),
                },
            ),
        }
    }

    /// The authentication method in force.
    pub open spec fn auth_method(self) -> AuthMethod {
        spec_from_label(self.auth.effective(String::zero()))
    }

    /// Whether the password fields count: the method is not the open one.
    pub open spec fn credentials_active(self) -> bool {
        self.auth_method() != AuthMethod::Open
    }

    /// Whether the address fields count: the address configuration is
    /// switched on.
    pub open spec fn ip_active(self) -> bool {
        self.ip_conf_enabled.effective(bool::zero())
    }

    /// What the password rule makes of the password in force.
    pub open spec fn password_outcome(self) -> Result<Seq<char>, Seq<char>> {
        outcome::<String, String, Password>(Password, (), self.password)
    }

    /// What the confirmation rule makes of the confirmation in force, read
    /// against the password field as it is now.
    pub open spec fn confirm_outcome(self) -> Result<Seq<char>, Seq<char>> {
        outcome::<String, String, Confirmation>(Confirmation, self.password, self.password_confirm)
    }

    /// What the subnet rule makes of the subnet text in force.
    pub open spec fn subnet_outcome(self) -> Result<Subnet, Seq<char>> {
        outcome::<String, Subnet, SubnetText>(SubnetText, (), self.subnet)
    }

    /// What the address rule makes of the DNS text in force.
    pub open spec fn dns_outcome(self) -> Result<Option<Ipv4>, Seq<char>> {
        outcome::<String, Option<Ipv4>, OptionalAddress>(OptionalAddress, (), self.dns)
    }

    /// What the address rule makes of the secondary DNS text in force.
    pub open spec fn secondary_dns_outcome(self) -> Result<Option<Ipv4>, Seq<char>> {
        outcome::<String, Option<Ipv4>, OptionalAddress>(OptionalAddress, (), self.secondary_dns)
    }

    /// The password that the form stands for: the empty one while the
    /// method is the open one, whatever the password field holds.
    pub open spec fn password(self) -> Seq<char> {
        if self.credentials_active() {
            self.password_outcome()->Ok_0
        } else {
            Seq::empty()
        }
    }

    /// Whether the password or its confirmation fails its rule.
    pub open spec fn credentials_fail(self) -> bool {
        self.password_outcome() is Err || self.confirm_outcome() is Err
    }

    /// Whether one of the address fields fails its rule.
    pub open spec fn addresses_fail(self) -> bool {
        self.subnet_outcome() is Err || self.dns_outcome() is Err
            || self.secondary_dns_outcome() is Err
    }

    /// Whether a field that counts fails its rule. The name, the switches
    /// and the method never fail theirs.
    pub open spec fn has_errors(self) -> bool {
        ||| self.credentials_active() && self.credentials_fail()
        ||| self.ip_active() && self.addresses_fail()
    }

    /// Whether a field that counts is changed: it fails its rule, or it was
    /// edited.
    pub open spec fn changed(self) -> bool {
        ||| self.has_errors()
        ||| self.ssid.edited() || self.hidden_ssid.edited() || self.auth.edited()
            || self.ip_conf_enabled.edited()
        ||| self.credentials_active() && (self.password.edited() || self.password_confirm.edited())
        ||| self.ip_active() && (self.dhcp_server_enabled.edited() || self.subnet.edited()
            || self.dns.edited() || self.secondary_dns.edited())
    }

    /// The form after the user chose the authentication method with the
    /// label `label`.
    pub open spec fn choose_auth(self, label: Seq<char>) -> Self {
        ApConfFormView { auth: self.auth.on_change(label), ..self }
    }

    /// The form after the user switched the address configuration on or
    /// off.
    pub open spec fn switch_ip_conf(self, on: bool) -> Self {
        ApConfFormView { ip_conf_enabled: self.ip_conf_enabled.on_change(on), ..self }
    }

    /// The address settings that the form stands for: none while the address
    /// configuration is switched off.
    pub open spec fn ip_conf(self) -> Option<RouterConfiguration> {
        if self.ip_active() {
            Some(
                RouterConfiguration {
                    subnet: self.subnet_outcome()->Ok_0,
                    dhcp_enabled: self.dhcp_server_enabled.effective(bool::zero()),
                    dns: self.dns_outcome()->Ok_0,
                    secondary_dns: self.secondary_dns_outcome()->Ok_0,
                },
            )
        } else {
            None
        }
    }

    /// The configuration that the form stands for: none while a field that
    /// counts fails its rule. What the form does not show keeps its default.
    pub open spec fn get(self) -> Option<AccessPointConfigurationView> {
        if self.has_errors() {
            None
        } else {
            Some(
                AccessPointConfigurationView {
                    ssid: self.ssid.effective(String::zero()),
                    ssid_hidden: self.hidden_ssid.effective(bool::zero()),
                    channel: 1,
                    secondary_channel: None,
                    protocols: Protocols::spec_default(),
                    auth_method: self.auth_method(),
                    password: self.password(),
                    max_connections: 255,
                    ip_conf: self.ip_conf(),
                },
            )
        }
    }
}

impl View for ApConfForm {
    type V = ApConfFormView;

    open spec fn view(&self) -> ApConfFormView {
        ApConfFormView {
            ssid: self.ssid@,
            hidden_ssid: self.hidden_ssid@,
            auth: self.auth@,
            password: self.password@,
            password_confirm: self.password_confirm@,
            ip_conf_enabled: self.ip_conf_enabled@,
            dhcp_server_enabled: self.dhcp_server_enabled@,
            subnet: self.subnet@,
            dns: self.dns@,
            secondary_dns: self.secondary_dns@,
        }
    }
}

/// The text of an address that may be absent: empty where it is.
pub fn render_optional_ipv4(ip: Option<Ipv4>) -> (res: String)
    ensures
        res@ == optional_ipv4_text(ip),
{
    match ip {
        Some(ip) => render_ipv4(ip),
        None => String::new(),
    }
}

impl ApConfForm {
    /// The form before anything was loaded or typed.
    pub fn new() -> (res: Self)
        ensures
            res@ == ApConfFormView::fresh(),
    {
        ApConfForm {
            ssid: Field::text(Accept),
            hidden_ssid: Field::checked(Accept),
            auth: Field::text(Authentication),
            password: Field::text(Password),
            password_confirm: Field::text(Confirmation),
            ip_conf_enabled: Field::checked(Accept),
            dhcp_server_enabled: Field::checked(Accept),
            subnet: Field::text(SubnetText),
            dns: Field::text(OptionalAddress),
            secondary_dns: Field::text(OptionalAddress),
        }
    }

    /// Whether a field that counts fails its rule.
    pub fn has_errors(&self) -> (res: bool)
        ensures
            res == self@.has_errors(),
    {
        self.ssid.has_errors(&()) || self.hidden_ssid.has_errors(&()) || self.auth.has_errors(&())
            || self.auth.value(&()) != Some(AuthMethod::Open) && (self.password.has_errors(&())
            || self.password_confirm.has_errors(&self.password)) || self.ip_conf_enabled.has_errors(
            &(),
        ) || self.ip_conf_enabled.value(&()) == Some(true) && (
        self.dhcp_server_enabled.has_errors(&()) || self.subnet.has_errors(&())
            || self.dns.has_errors(&()) || self.secondary_dns.has_errors(&()))
    }

    /// The configuration that the form stands for, or nothing while a field
    /// that counts fails its rule.
    pub fn get(&self) -> (res: Option<AccessPointConfiguration>)
        ensures
            value_view(res) == self@.get(),
            res is None <==> self@.has_errors(),
    {
        if self.has_errors() {
            None
        } else {
            Some(
                AccessPointConfiguration {
                    ssid: self.ssid.value(&()).unwrap(),
                    ssid_hidden: self.hidden_ssid.value(&()).unwrap(),
                    channel: 1,
                    secondary_channel: None,
                    protocols: Protocols::default(),
                    auth_method: self.auth.value(&()).unwrap(),
                    password: if self.auth.value(&()).unwrap() != AuthMethod::Open {
                        self.password.value(&()).unwrap()
                    } else {
                        String::new()
                    },
                    max_connections: 255,
                    ip_conf: if self.ip_conf_enabled.value(&()).unwrap() {
                        Some(
                            RouterConfiguration {
                                dhcp_enabled: self.dhcp_server_enabled.value(&()).unwrap(),
                                subnet: self.subnet.value(&()).unwrap(),
                                dns: self.dns.value(&()).unwrap(),
                                secondary_dns: self.secondary_dns.value(&()).unwrap(),
                            },
                        )
                    } else {
                        None
                    },
                },
            )
        }
    }

    /// Loads a confirmed configuration: every field takes its part of `conf`
    /// as text, and every edit is discarded.
    pub fn set(&mut self, conf: &AccessPointConfiguration)
        ensures
            final(self)@ == ApConfFormView::loaded(conf@),
    {
        self.ssid.set(conf.ssid.copy());
        self.hidden_ssid.set(conf.ssid_hidden);
        self.auth.set(conf.auth_method.label());
        self.password.set(conf.password.copy());
        self.password_confirm.set(conf.password.copy());
        self.ip_conf_enabled.set(conf.ip_conf.is_some());
        self.dhcp_server_enabled.set(
            match conf.ip_conf {
                Some(i) => i.dhcp_enabled,
                None => false,
            },
        );
        self.subnet.set(
            match conf.ip_conf {
                Some(i) => render_subnet(i.subnet),
                None => String::new(),
            },
        );
        self.dns.set(
            match conf.ip_conf {
                Some(i) => render_optional_ipv4(i.dns),
                None => String::new(),
            },
        );
        self.secondary_dns.set(
            match conf.ip_conf {
                Some(i) => render_optional_ipv4(i.secondary_dns),
                None => String::new(),
            },
        );
    }
}

/// What a renderer draws for the access point form.
#[derive(Clone, Debug, PartialEq, Eq)]
pub struct ApConfLayout {
    pub ssid: TextInput,
    pub hidden_ssid: CheckInput,
    /// Whether the list of authentication methods takes no choice.
    pub auth_disabled: bool,
    pub auth: Vec<Choice>,
    /// The password section; absent while the method is the open one.
    pub credentials: Option<Credentials>,
    pub ip_conf_enabled: CheckInput,
    pub dhcp_server_enabled: CheckInput,
    pub subnet: TextInput,
    pub dns: TextInput,
    pub secondary_dns: TextInput,
}

/// [`ApConfLayout`] as a mathematical value.
pub struct ApConfLayoutView {
    pub ssid: TextInputView,
    pub hidden_ssid: CheckInput,
    pub auth_disabled: bool,
    pub auth: Seq<ChoiceView>,
    pub credentials: Option<CredentialsView>,
    pub ip_conf_enabled: CheckInput,
    pub dhcp_server_enabled: CheckInput,
    pub subnet: TextInputView,
    pub dns: TextInputView,
    pub secondary_dns: TextInputView,
}

impl View for ApConfLayout {
    type V = ApConfLayoutView;

    open spec fn view(&self) -> ApConfLayoutView {
        ApConfLayoutView {
            ssid: self.ssid@,
            hidden_ssid: self.hidden_ssid,
            auth_disabled: self.auth_disabled,
            auth: choices_view(self.auth@),
            credentials: value_view(self.credentials),
            ip_conf_enabled: self.ip_conf_enabled,
            dhcp_server_enabled: self.dhcp_server_enabled,
            subnet: self.subnet@,
            dns: self.dns@,
            secondary_dns: self.secondary_dns@,
        }
    }
}

impl ApConfFormView {
    /// The password section as drawn: absent while the method is the open
    /// one.
    pub open spec fn credentials(self, disabled: bool) -> Option<CredentialsView> {
        if self.credentials_active() {
            Some(
                CredentialsView {
                    password_label: spec_password_label(self.auth_method()),
                    password: spec_text_input(
                        self.password.effective(String::zero()),
                        self.password_outcome(),
                        disabled,
                    ),
                    confirm_label: spec_confirm_label(self.auth_method()),
                    password_confirm: spec_text_input(
                        self.password_confirm.effective(String::zero()),
                        self.confirm_outcome(),
                        disabled,
                    ),
                },
            )
        } else {
            None
        }
    }

    /// The form as drawn. With `disabled` nothing takes edits; the address
    /// widgets below the switch take none either while the address
    /// configuration is switched off.
    pub open spec fn render(self, disabled: bool) -> ApConfLayoutView {
        let disabled_ip = disabled || !self.ip_active();
        ApConfLayoutView {
            ssid: spec_text_input(
                self.ssid.effective(String::zero()),
                outcome::<String, String, Accept>(Accept, (), self.ssid),
                disabled,
            ),
            hidden_ssid: CheckInput {
                checked: self.hidden_ssid.effective(bool::zero()),
                disabled,
            },
            auth_disabled: disabled,
            auth: spec_choices(self.auth_method()),
            credentials: self.credentials(disabled),
            ip_conf_enabled: CheckInput {
                checked: self.ip_conf_enabled.effective(bool::zero()),
                disabled,
            },
            dhcp_server_enabled: CheckInput {
                checked: self.dhcp_server_enabled.effective(bool::zero()),
                disabled: disabled_ip,
            },
            subnet: spec_text_input(
                self.subnet.effective(String::zero()),
                self.subnet_outcome(),
                disabled_ip,
            ),
            dns: spec_text_input(
                self.dns.effective(String::zero()),
                self.dns_outcome(),
                disabled_ip,
            ),
            secondary_dns: spec_text_input(
                self.secondary_dns.effective(String::zero()),
                self.secondary_dns_outcome(),
                disabled_ip,
            ),
        }
    }
}

impl ApConfForm {
    /// What a renderer draws for the form. `disabled` says that no
    /// configuration was loaded yet, so that nothing takes edits.
    pub fn render(&self, disabled: bool) -> (res: ApConfLayout)
        ensures
            res@ == self@.render(disabled),
    {
        let disabled_ip = disabled || !match self.ip_conf_enabled.value(&()) {
            Some(on) => on,
            None => false,
        };
        let method = self.auth.value(&()).unwrap();
        let credentials = if method != AuthMethod::Open {
            Some(
                Credentials {
                    password_label: password_label(method),
                    password: text_input(&self.password, &(), disabled),
                    confirm_label: confirm_label(method),
                    password_confirm: text_input(&self.password_confirm, &self.password, disabled),
                },
            )
        } else {
            None
        };
        ApConfLayout {
            ssid: text_input(&self.ssid, &(), disabled),
            hidden_ssid: CheckInput { checked: self.hidden_ssid.raw_value(), disabled },
            auth_disabled: disabled,
            auth: choices(method),
            credentials,
            ip_conf_enabled: CheckInput { checked: self.ip_conf_enabled.raw_value(), disabled },
            dhcp_server_enabled: CheckInput {
                checked: self.dhcp_server_enabled.raw_value(),
                disabled: disabled_ip,
            },
            subnet: text_input(&self.subnet, &(), disabled_ip),
            dns: text_input(&self.dns, &(), disabled_ip),
            secondary_dns: text_input(&self.secondary_dns, &(), disabled_ip),
        }
    }
}

/// The address switch is a gate. While it is off, the address fields cannot
/// put the form in error, whatever they hold; from the moment it is switched
/// on, the form is in error exactly if one of them fails its rule. (The
/// password section is taken to be in order.)
pub proof fn address_gate(form: ApConfFormView)
    requires
        !(form.credentials_active() && form.credentials_fail()),
    ensures
        !form.ip_active() ==> !form.has_errors(),
        !form.switch_ip_conf(false).has_errors(),
        form.switch_ip_conf(true).has_errors() <==> form.addresses_fail(),
{
}

/// The authentication method is a gate. While it is the open one, the
/// password and its confirmation cannot put the form in error, whatever they
/// hold; from the moment another method is chosen, the form is in error
/// exactly if one of them fails its rule. (The address section is taken to
/// be in order.)
pub proof fn credentials_gate(form: ApConfFormView, label: Seq<char>)
    requires
        !(form.ip_active() && form.addresses_fail()),
    ensures
        !form.credentials_active() ==> !form.has_errors(),
        spec_from_label(label) == AuthMethod::Open ==> !form.choose_auth(label).has_errors(),
        spec_from_label(label) != AuthMethod::Open ==> (form.choose_auth(label).has_errors()
            <==> form.credentials_fail()),
{
}

/// The form stands for a configuration exactly if it has no error.
pub proof fn result_iff_no_errors(form: ApConfFormView)
    ensures
        form.get() is None <==> form.has_errors(),
{
}

/// Whether the form can hold `conf` without an error: a network that is not
/// open has a password, and the subnet's mask has 1 to 32 bits.
pub open spec fn presentable(conf: AccessPointConfigurationView) -> bool {
    &&& conf.auth_method != AuthMethod::Open ==> conf.password.len() > 0
    &&& conf.ip_conf matches Some(i) ==> 1 <= i.subnet.mask <= 32
}

/// `conf` with the default in every place that the form does not show: the
/// channels, the protocols, the number of connections, and the password of
/// an open network.
pub open spec fn shown(conf: AccessPointConfigurationView) -> AccessPointConfigurationView {
    AccessPointConfigurationView {
        channel: 1,
        secondary_channel: None,
        protocols: Protocols::spec_default(),
        password: if conf.auth_method == AuthMethod::Open {
            Seq::empty()
        } else {
            conf.password
        },
        max_connections: 255,
        ..conf
    }
}

/// A form that was just loaded gives back what was loaded into it: it has no
/// error, it stands for the loaded configuration in everything that it
/// shows, and none of the fields that count is changed.
pub proof fn loaded_form_gives_back(conf: AccessPointConfigurationView)
    requires
        presentable(conf),
    ensures
        !ApConfFormView::loaded(conf).has_errors(),
        ApConfFormView::loaded(conf).get() == Some(shown(conf)),
        ApConfFormView::loaded(conf).changed() == false,
{
    let form = ApConfFormView::loaded(conf);
    label_names_its_method(conf.auth_method);
    match conf.ip_conf {
        Some(i) => {
            subnet_text_is_read_back(i.subnet);
            optional_address_is_read_back(i.dns);
            optional_address_is_read_back(i.secondary_dns);
        },
        None => {},
    }
    assert(form.get()->0.ip_conf == conf.ip_conf);
    assert(form.get()->0.password =~= shown(conf).password);
}

} // verus!
