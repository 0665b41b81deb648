//! The form for the device as a station of another network.

use vstd::prelude::*;
use crate::ap_form::render_optional_ipv4;
use crate::auth::{label_names_its_method, spec_from_label, AuthMethod};
use crate::config::{
    ClientConfiguration,
    ClientConfigurationView,
    ClientIpConfiguration,
    ClientIpConfigurationView,
    ClientSettings,
    DHCPClientSettings,
    DHCPClientSettingsView,
};
use crate::field::{outcome, value_view, CheckedField, Field, FieldState, TextField};
use crate::ipv4::{
    ipv4_text,
    ipv4_text_is_read_back,
    render_ipv4,
    render_subnet,
    subnet_text,
    subnet_text_is_read_back,
    Ipv4,
    Subnet,
};
use crate::layout::{
    choices,
    choices_view,
    confirm_label,
    password_label,
    spec_choices,
    spec_confirm_label,
    spec_password_label,
    spec_text_input,
    text_input,
    CheckInput,
    Choice,
    ChoiceView,
    Credentials,
    CredentialsView,
    TextInput,
    TextInputView,
};
use crate::raw::Raw;
use crate::rules::{
    optional_address_is_read_back,
    optional_ipv4_text,
    Accept,
    Address,
    Authentication,
    Confirmation,
    OptionalAddress,
    Password,
    SubnetText,
};

verus! {

/// The fields of the station form.
///
/// The password and its confirmation count only while the authentication
/// method is not the open one. The DHCP switch counts only while the address
/// configuration is switched on, and the fixed address fields only while,
/// besides, DHCP is switched off.
pub struct StaConfForm {
    pub ssid: TextField<String, Accept>,
    pub auth: TextField<AuthMethod, Authentication>,
    pub password: TextField<String, Password>,
    pub password_confirm: TextField<String, Confirmation>,
    pub ip_conf_enabled: CheckedField<bool, Accept>,
    pub dhcp_enabled: CheckedField<bool, Accept>,
    pub subnet: TextField<Subnet, SubnetText>,
    pub ip: TextField<Ipv4, Address>,
    pub dns: TextField<Option<Ipv4>, OptionalAddress>,
    pub secondary_dns: TextField<Option<Ipv4>, OptionalAddress>,
}

/// The station form as the states of its fields.
pub struct StaConfFormView {
    pub ssid: FieldState<Seq<char>>,
    pub auth: FieldState<Seq<char>>,
    pub password: FieldState<Seq<char>>,
    pub password_confirm: FieldState<Seq<char>>,
    pub ip_conf_enabled: FieldState<bool>,
    pub dhcp_enabled: FieldState<bool>,
    pub subnet: FieldState<Seq<char>>,
    pub ip: FieldState<Seq<char>>,
    pub dns: FieldState<Seq<char>>,
    pub secondary_dns: FieldState<Seq<char>>,
}

/// The fixed settings inside an address configuration, if it has any.
pub open spec fn fixed_settings(ip_conf: Option<ClientIpConfigurationView>) -> Option<
    ClientSettings,
> {
    match ip_conf {
        Some(ClientIpConfigurationView::Fixed(s)) => Some(s),
        _ => None,
    }
}

impl StaConfFormView {
    /// The form before anything was loaded or typed.
    pub open spec fn fresh() -> Self {
        StaConfFormView {
            ssid: FieldState::fresh(),
            auth: FieldState::fresh(),
            password: FieldState::fresh(),
            password_confirm: FieldState::fresh(),
            ip_conf_enabled: FieldState::fresh(),
            dhcp_enabled: FieldState::fresh(),
            subnet: FieldState::fresh(),
            ip: FieldState::fresh(),
            dns: FieldState::fresh(),
            secondary_dns: FieldState::fresh(),
        }
    }

    /// The form right after `conf` was loaded into it: every field holds its
    /// part of `conf` as confirmed text, and no edit. The fixed address
    /// fields are empty unless `conf` has fixed settings.
    pub open spec fn loaded(conf: ClientConfigurationView) -> Self {
        let fixed = fixed_settings(conf.ip_conf);
        StaConfFormView {
            ssid: FieldState::fresh().set(conf.ssid),
            auth: FieldState::fresh().set(conf.auth_method.spec_label()),
            password: FieldState::fresh().set(conf.password),
            password_confirm: FieldState::fresh().set(conf.password),
            ip_conf_enabled: FieldState::fresh().set(conf.ip_conf is Some),
            dhcp_enabled: FieldState::fresh().set(
                conf.ip_conf matches Some(ClientIpConfigurationView::DHCP(_)),
            ),
            subnet: FieldState::fresh().set(
                match fixed {
                    Some(s) => subnet_text(s.subnet),
                    None => Seq::empty(),
                },
            ),
            ip: FieldState::fresh().set(
                match fixed {
                    Some(s) => ipv4_text(s.ip),
                    None => Seq::empty(),
                },
            ),
            dns: FieldState::fresh().set(
                match fixed {
                    Some(s) => optional_ipv4_text(s.dns),
                    None => Seq::empty(),
                },
            ),
            secondary_dns: FieldState::fresh().set(
                match fixed {
                    Some(s) => optional_ipv4_text(s.secondary_dns),
                    None => Seq::empty(),
                },
            ),
        }
    }

    /// The authentication method in force.
    pub open spec fn auth_method(self) -> AuthMethod {
        spec_from_label(self.auth.effective(String::zero()))
    }

    /// Whether the password fields count: the method is not the open one.
    pub open spec fn credentials_active(self) -> bool {
        self.auth_method() != AuthMethod::Open
    }

    /// Whether the address configuration is switched on.
    pub open spec fn ip_active(self) -> bool {
        self.ip_conf_enabled.effective(bool::zero())
    }

    /// Whether the fixed address fields count: the address configuration is
    /// switched on and DHCP is switched off.
    pub open spec fn fixed_active(self) -> bool {
        self.ip_active() && !self.dhcp_enabled.effective(bool::zero())
    }

    /// What the password rule makes of the password in force.
    pub open spec fn password_outcome(self) -> Result<Seq<char>, Seq<char>> {
        outcome::<String, String, Password>(Password, (), self.password)
    }

    /// What the confirmation rule makes of the confirmation in force, read
    /// against the password field as it is now.
    pub open spec fn confirm_outcome(self) -> Result<Seq<char>, Seq<char>> {
        outcome::<String, String, Confirmation>(Confirmation, self.password, self.password_confirm)
    }

    /// What the subnet rule makes of the subnet text in force.
    pub open spec fn subnet_outcome(self) -> Result<Subnet, Seq<char>> {
        outcome::<String, Subnet, SubnetText>(SubnetText, (), self.subnet)
    }

    /// What the address rule makes of the address text in force.
    pub open spec fn ip_outcome(self) -> Result<Ipv4, Seq<char>> {
        outcome::<String, Ipv4, Address>(Address, (), self.ip)
    }

    /// What the address rule makes of the DNS text in force.
    pub open spec fn dns_outcome(self) -> Result<Option<Ipv4>, Seq<char>> {
        outcome::<String, Option<Ipv4>, OptionalAddress>(OptionalAddress, (), self.dns)
    }

    /// What the address rule makes of the secondary DNS text in force.
    pub open spec fn secondary_dns_outcome(self) -> Result<Option<Ipv4>, Seq<char>> {
        outcome::<String, Option<Ipv4>, OptionalAddress>(OptionalAddress, (), self.secondary_dns)
    }

    /// The password that the form stands for: the empty one while the
    /// method is the open one, whatever the password field holds.
    pub open spec fn password(self) -> Seq<char> {
        if self.credentials_active() {
            self.password_outcome()->Ok_0
        } else {
            Seq::empty()
        }
    }

    /// Whether the password or its confirmation fails its rule.
    pub open spec fn credentials_fail(self) -> bool {
        self.password_outcome() is Err || self.confirm_outcome() is Err
    }

    /// Whether one of the fixed address fields fails its rule.
    pub open spec fn addresses_fail(self) -> bool {
        self.subnet_outcome() is Err || self.ip_outcome() is Err || self.dns_outcome() is Err
            || self.secondary_dns_outcome() is Err
    }

    /// Whether a field that counts fails its rule. The name, the switches
    /// and the method never fail theirs.
    pub open spec fn has_errors(self) -> bool {
        ||| self.credentials_active() && self.credentials_fail()
        ||| self.fixed_active() && self.addresses_fail()
    }

    /// Whether a field that counts is changed: it fails its rule, or it was
    /// edited.
    pub open spec fn changed(self) -> bool {
        ||| self.has_errors()
        ||| self.ssid.edited() || self.auth.edited() || self.ip_conf_enabled.edited()
        ||| self.credentials_active() && (self.password.edited() || self.password_confirm.edited())
        ||| self.ip_active() && self.dhcp_enabled.edited()
        ||| self.fixed_active() && (self.subnet.edited() || self.ip.edited() || self.dns.edited()
            || self.secondary_dns.edited())
    }

    /// The form after the user chose the authentication method with the
    /// label `label`.
    pub open spec fn choose_auth(self, label: Seq<char>) -> Self {
        StaConfFormView { auth: self.auth.on_change(label), ..self }
    }

    /// The form after the user switched the address configuration on or
    /// off.
    pub open spec fn switch_ip_conf(self, on: bool) -> Self {
        StaConfFormView { ip_conf_enabled: self.ip_conf_enabled.on_change(on), ..self }
    }

    /// The form after the user switched DHCP on or off.
    pub open spec fn switch_dhcp(self, on: bool) -> Self {
        StaConfFormView { dhcp_enabled: self.dhcp_enabled.on_change(on), ..self }
    }

    /// The address configuration that the form stands for: none while it is
    /// switched off, DHCP under no host name while DHCP is switched on, and
    /// the fixed settings otherwise.
    pub open spec fn ip_conf(self) -> Option<ClientIpConfigurationView> {
        if !self.ip_active() {
            None
        } else if !self.fixed_active() {
            Some(ClientIpConfigurationView::DHCP(DHCPClientSettingsView { hostname: None }))
        } else {
            Some(
                ClientIpConfigurationView::Fixed(
                    ClientSettings {
                        ip: self.ip_outcome()->Ok_0,
                        subnet: self.subnet_outcome()->Ok_0,
                        dns: self.dns_outcome()->Ok_0,
                        secondary_dns: self.secondary_dns_outcome()->Ok_0,
                    },
                ),
            )
        }
    }

    /// The configuration that the form stands for: none while a field that
    /// counts fails its rule. What the form does not show keeps its default.
    pub open spec fn get(self) -> Option<ClientConfigurationView> {
        if self.has_errors() {
            None
        } else {
            Some(
                ClientConfigurationView {
                    ssid: self.ssid.effective(String::zero()),
                    bssid: None,
                    auth_method: self.auth_method(),
                    password: self.password(),
                    channel: None,
                    ip_conf: self.ip_conf(),
                },
            )
        }
    }
}

impl View for StaConfForm {
    type V = StaConfFormView;

    open spec fn view(&self) -> StaConfFormView {
        StaConfFormView {
            ssid: self.ssid@,
            auth: self.auth@,
            password: self.password@,
            password_confirm: self.password_confirm@,
            ip_conf_enabled: self.ip_conf_enabled@,
            dhcp_enabled: self.dhcp_enabled@,
            subnet: self.subnet@,
            ip: self.ip@,
            dns: self.dns@,
            secondary_dns: self.secondary_dns@,
        }
    }
}

impl StaConfForm {
    /// The form before anything was loaded or typed.
    pub fn new() -> (res: Self)
        ensures
            res@ == StaConfFormView::fresh(),
    {
        StaConfForm {
            ssid: Field::text(Accept),
            auth: Field::text(Authentication),
            password: Field::text(Password),
            password_confirm: Field::text(Confirmation),
            ip_conf_enabled: Field::checked(Accept),
            dhcp_enabled: Field::checked(Accept),
            subnet: Field::text(SubnetText),
            ip: Field::text(Address),
            dns: Field::text(OptionalAddress),
            secondary_dns: Field::text(OptionalAddress),
        }
    }

    /// Whether a field that counts fails its rule.
    pub fn has_errors(&self) -> (res: bool)
        ensures
            res == self@.has_errors(),
    {
        self.ssid.has_errors(&()) || self.auth.has_errors(&()) || self.auth.value(&()) != Some(
            AuthMethod::Open,
        ) && (self.password.has_errors(&()) || self.password_confirm.has_errors(&self.password))
            || self.ip_conf_enabled.has_errors(&()) || self.ip_conf_enabled.value(&()) == Some(
            true,
        ) && (self.dhcp_enabled.has_errors(&()) || self.dhcp_enabled.value(&()) != Some(true) && (
        self.subnet.has_errors(&()) || self.ip.has_errors(&()) || self.dns.has_errors(&())
            || self.secondary_dns.has_errors(&())))
    }

    /// The configuration that the form stands for, or nothing while a field
    /// that counts fails its rule.
    pub fn get(&self) -> (res: Option<ClientConfiguration>)
        ensures
            value_view(res) == self@.get(),
            res is None <==> self@.has_errors(),
    {
        if self.has_errors() {
            None
        } else {
            Some(
                ClientConfiguration {
                    ssid: self.ssid.value(&()).unwrap(),
                    bssid: None,
                    auth_method: self.auth.value(&()).unwrap(),
                    password: if self.auth.value(&()).unwrap() != AuthMethod::Open {
                        self.password.value(&()).unwrap()
                    } else {
                        String::new()
                    },
                    channel: None,
                    ip_conf: if self.ip_conf_enabled.value(&()).unwrap() {
                        Some(
                            if self.dhcp_enabled.value(&()).unwrap() {
                                ClientIpConfiguration::DHCP(DHCPClientSettings { hostname: None })
                            } else {
                                ClientIpConfiguration::Fixed(
                                    ClientSettings {
                                        subnet: self.subnet.value(&()).unwrap(),
                                        ip: self.ip.value(&()).unwrap(),
                                        dns: self.dns.value(&()).unwrap(),
                                        secondary_dns: self.secondary_dns.value(&()).unwrap(),
                                    },
                                )
                            },
                        )
                    } else {
                        None
                    },
                },
            )
        }
    }

    /// Loads a confirmed configuration: every field takes its part of `conf`
    /// as text, and every edit is discarded.
    pub fn set(&mut self, conf: &ClientConfiguration)
        ensures
            final(self)@ == StaConfFormView::loaded(conf@),
    {
        self.ssid.set(conf.ssid.copy());
        self.auth.set(conf.auth_method.label());
        self.password.set(conf.password.copy());
        self.password_confirm.set(conf.password.copy());
        self.ip_conf_enabled.set(conf.ip_conf.is_some());
        self.dhcp_enabled.set(
            match &conf.ip_conf {
                Some(ClientIpConfiguration::DHCP(_)) => true,
                _ => false,
            },
        );
        let fixed = match conf.as_ip_conf_ref() {
            Some(i) => i.as_fixed_settings_ref(),
            None => None,
        };
        self.subnet.set(
            match fixed {
                Some(s) => render_subnet(s.subnet),
                None => String::new(),
            },
        );
        self.ip.set(
            match fixed {
                Some(s) => render_ipv4(s.ip),
                None => String::new(),
            },
        );
        self.dns.set(
            match fixed {
                Some(s) => render_optional_ipv4(s.dns),
                None => String::new(),
            },
        );
        self.secondary_dns.set(
            match fixed {
                Some(s) => render_optional_ipv4(s.secondary_dns),
                None => String::new(),
            },
        );
    }
}

/// The fixed address section of the station form.
#[derive(Clone, Debug, PartialEq, Eq)]
pub struct FixedInputs {
    pub subnet: TextInput,
    pub ip: TextInput,
    pub dns: TextInput,
    pub secondary_dns: TextInput,
}

/// [`FixedInputs`] as a mathematical value.
pub struct FixedInputsView {
    pub subnet: TextInputView,
    pub ip: TextInputView,
    pub dns: TextInputView,
    pub secondary_dns: TextInputView,
}

impl View for FixedInputs {
    type V = FixedInputsView;

    open spec fn view(&self) -> FixedInputsView {
        FixedInputsView {
            subnet: self.subnet@,
            ip: self.ip@,
            dns: self.dns@,
            secondary_dns: self.secondary_dns@,
        }
    }
}

/// What a renderer draws for the station form.
#[derive(Clone, Debug, PartialEq, Eq)]
pub struct StaConfLayout {
    pub ssid: TextInput,
    /// Whether the list of authentication methods takes no choice.
    pub auth_disabled: bool,
    pub auth: Vec<Choice>,
    /// The password section; absent while the method is the open one.
    pub credentials: Option<Credentials>,
    pub ip_conf_enabled: CheckInput,
    pub dhcp_enabled: CheckInput,
    /// The fixed address section; absent while DHCP is switched on.
    pub fixed: Option<FixedInputs>,
}

/// [`StaConfLayout`] as a mathematical value.
pub struct StaConfLayoutView {
    pub ssid: TextInputView,
    pub auth_disabled: bool,
    pub auth: Seq<ChoiceView>,
    pub credentials: Option<CredentialsView>,
    pub ip_conf_enabled: CheckInput,
    pub dhcp_enabled: CheckInput,
    pub fixed: Option<FixedInputsView>,
}

impl View for StaConfLayout {
    type V = StaConfLayoutView;

    open spec fn view(&self) -> StaConfLayoutView {
        StaConfLayoutView {
            ssid: self.ssid@,
            auth_disabled: self.auth_disabled,
            auth: choices_view(self.auth@),
            credentials: value_view(self.credentials),
            ip_conf_enabled: self.ip_conf_enabled,
            dhcp_enabled: self.dhcp_enabled,
            fixed: value_view(self.fixed),
        }
    }
}

impl StaConfFormView {
    /// The password section as drawn: absent while the method is the open
    /// one.
    pub open spec fn credentials(self, disabled: bool) -> Option<CredentialsView> {
        if self.credentials_active() {
            Some(
                CredentialsView {
                    password_label: spec_password_label(self.auth_method()),
                    password: spec_text_input(
                        self.password.effective(String::zero()),
                        self.password_outcome(),
                        disabled,
                    ),
                    confirm_label: spec_confirm_label(self.auth_method()),
                    password_confirm: spec_text_input(
                        self.password_confirm.effective(String::zero()),
                        self.confirm_outcome(),
                        disabled,
                    ),
                },
            )
        } else {
            None
        }
    }

    /// The fixed address section as drawn: absent while DHCP is switched on,
    /// whether or not the address configuration is.
    pub open spec fn fixed(self, disabled_ip: bool) -> Option<FixedInputsView> {
        if !self.dhcp_enabled.effective(bool::zero()) {
            Some(
                FixedInputsView {
                    subnet: spec_text_input(
                        self.subnet.effective(String::zero()),
                        self.subnet_outcome(),
                        disabled_ip,
                    ),
                    ip: spec_text_input(
                        self.ip.effective(String::zero()),
                        self.ip_outcome(),
                        disabled_ip,
                    ),
                    dns: spec_text_input(
                        self.dns.effective(String::zero()),
                        self.dns_outcome(),
                        disabled_ip,
                    ),
                    secondary_dns: spec_text_input(
                        self.secondary_dns.effective(String::zero()),
                        self.secondary_dns_outcome(),
                        disabled_ip,
                    ),
                },
            )
        } else {
            None
        }
    }

    /// The form as drawn. With `disabled` nothing takes edits; the address
    /// widgets below the switch take none either while the address
    /// configuration is switched off.
    pub open spec fn render(self, disabled: bool) -> StaConfLayoutView {
        let disabled_ip = disabled || !self.ip_active();
        StaConfLayoutView {
            ssid: spec_text_input(
                self.ssid.effective(String::zero()),
                outcome::<String, String, Accept>(Accept, (), self.ssid),
                disabled,
            ),
            auth_disabled: disabled,
            auth: spec_choices(self.auth_method()),
            credentials: self.credentials(disabled),
            ip_conf_enabled: CheckInput {
                checked: self.ip_conf_enabled.effective(bool::zero()),
                disabled,
            },
            dhcp_enabled: CheckInput {
                checked: self.dhcp_enabled.effective(bool::zero()),
                disabled: disabled_ip,
            },
            fixed: self.fixed(disabled_ip),
        }
    }
}

impl StaConfForm {
    /// What a renderer draws for the form. `disabled` says that no
    /// configuration was loaded yet, so that nothing takes edits.
    pub fn render(&self, disabled: bool) -> (res: StaConfLayout)
        ensures
            res@ == self@.render(disabled),
    {
        let disabled_ip = disabled || !match self.ip_conf_enabled.value(&()) {
            Some(on) => on,
            None => false,
        };
        let method = self.auth.value(&()).unwrap();
        let credentials = if method != AuthMethod::Open {
            Some(
                Credentials {
                    password_label: password_label(method),
                    password: text_input(&self.password, &(), disabled),
                    confirm_label: confirm_label(method),
                    password_confirm: text_input(&self.password_confirm, &self.password, disabled),
                },
            )
        } else {
            None
        };
        let dhcp = match self.dhcp_enabled.value(&()) {
            Some(on) => on,
            None => true,
        };
        let fixed = if !dhcp {
            Some(
                FixedInputs {
                    subnet: text_input(&self.subnet, &(), disabled_ip),
                    ip: text_input(&self.ip, &(), disabled_ip),
                    dns: text_input(&self.dns, &(), disabled_ip),
                    secondary_dns: text_input(&self.secondary_dns, &(), disabled_ip),
                },
            )
        } else {
            None
        };
        StaConfLayout {
            ssid: text_input(&self.ssid, &(), disabled),
            auth_disabled: disabled,
            auth: choices(method),
            credentials,
            ip_conf_enabled: CheckInput { checked: self.ip_conf_enabled.raw_value(), disabled },
            dhcp_enabled: CheckInput {
                checked: self.dhcp_enabled.raw_value(),
                disabled: disabled_ip,
            },
            fixed,
        }
    }
}

/// The address switch and the DHCP switch are gates. While the address
/// configuration is off, or DHCP is on, the fixed address fields cannot put
/// the form in error, whatever they hold; from the moment the one is on and
/// the other off, the form is in error exactly if one of them fails its
/// rule. (The password section is taken to be in order.)
pub proof fn address_gate(form: StaConfFormView)
    requires
        !(form.credentials_active() && form.credentials_fail()),
    ensures
        !form.fixed_active() ==> !form.has_errors(),
        !form.switch_ip_conf(false).has_errors(),
        !form.switch_dhcp(true).has_errors(),
        form.switch_ip_conf(true).switch_dhcp(false).has_errors() <==> form.addresses_fail(),
        form.switch_dhcp(false).switch_ip_conf(true).has_errors() <==> form.addresses_fail(),
{
}

/// The authentication method is a gate. While it is the open one, the
/// password and its confirmation cannot put the form in error, whatever they
/// hold; from the moment another method is chosen, the form is in error
/// exactly if one of them fails its rule. (The address section is taken to
/// be in order.)
pub proof fn credentials_gate(form: StaConfFormView, label: Seq<char>)
    requires
        !(form.fixed_active() && form.addresses_fail()),
    ensures
        !form.credentials_active() ==> !form.has_errors(),
        spec_from_label(label) == AuthMethod::Open ==> !form.choose_auth(label).has_errors(),
        spec_from_label(label) != AuthMethod::Open ==> (form.choose_auth(label).has_errors()
            <==> form.credentials_fail()),
{
}

/// The form stands for a configuration exactly if it has no error.
pub proof fn result_iff_no_errors(form: StaConfFormView)
    ensures
        form.get() is None <==> form.has_errors(),
{
}

/// Whether the form can hold `conf` without an error: a network that is not
/// open has a password, and the subnet's mask has 1 to 32 bits.
pub open spec fn presentable(conf: ClientConfigurationView) -> bool {
    &&& conf.auth_method != AuthMethod::Open ==> conf.password.len() > 0
    &&& fixed_settings(conf.ip_conf) matches Some(s) ==> 1 <= s.subnet.mask <= 32
}

/// `conf` with the default in every place that the form does not show: no
/// hardware address, no channel, no host name, and no password for an open
/// network.
pub open spec fn shown(conf: ClientConfigurationView) -> ClientConfigurationView {
    ClientConfigurationView {
        bssid: None,
        password: if conf.auth_method == AuthMethod::Open {
            Seq::empty()
        } else {
            conf.password
        },
        channel: None,
        ip_conf: match conf.ip_conf {
            Some(ClientIpConfigurationView::DHCP(_)) => Some(
                ClientIpConfigurationView::DHCP(DHCPClientSettingsView { hostname: None }),
            ),
            other => other,
        },
        ..conf
    }
}

/// A form that was just loaded gives back what was loaded into it: it has no
/// error, it stands for the loaded configuration in everything that it
/// shows, and none of the fields that count is changed.
pub proof fn loaded_form_gives_back(conf: ClientConfigurationView)
    requires
        presentable(conf),
    ensures
        !StaConfFormView::loaded(conf).has_errors(),
        StaConfFormView::loaded(conf).get() == Some(shown(conf)),
        StaConfFormView::loaded(conf).changed() == false,
{
    let form = StaConfFormView::loaded(conf);
    label_names_its_method(conf.auth_method);
    match fixed_settings(conf.ip_conf) {
        Some(s) => {
            subnet_text_is_read_back(s.subnet);
            ipv4_text_is_read_back(s.ip);
            optional_address_is_read_back(s.dns);
            optional_address_is_read_back(s.secondary_dns);
        },
        None => {},
    }
    assert(form.get()->0.ip_conf == shown(conf).ip_conf);
    assert(form.get()->0.password =~= shown(conf).password);
}

} // verus!
