//! The Wi-Fi settings screen: the confirmed configuration, the two forms
//! that edit it, and the rule that says when it may be saved.
//!
//! The screen fetches nothing and saves nothing itself. Whoever drives it
//! hands it what was fetched, and sends off what [`Wifi::save`] returns.

use vstd::prelude::*;
use crate::ap_form::{ApConfForm, ApConfFormView, ApConfLayout, ApConfLayoutView};
use crate::config::{
    AccessPointConfiguration,
    AccessPointConfigurationView,
    ClientConfiguration,
    ClientConfigurationView,
    Configuration,
    ConfigurationView,
};
use crate::field::value_view;
use crate::sta_form::{StaConfForm, StaConfFormView, StaConfLayout, StaConfLayoutView};

verus! {

/// Which of the device's Wi-Fi roles the settings are for.
#[derive(Clone, Copy, Debug, PartialEq, Eq, Hash, Structural)]
pub enum PluginBehavior {
    STA,
    AP,
    Mixed,
}

impl PluginBehavior {
    /// The sentence that describes the settings to the user.
    pub open spec fn spec_description(self) -> Seq<char> {
        match self {
            PluginBehavior::STA => "A settings user interface for configuring Wifi access"@,
            PluginBehavior::AP => "A settings user interface for configuring Wifi Access Point"@,
            PluginBehavior::Mixed =>
                "A settings user interface for configuring WiFi Access Point and STA"@,
        }
    }

    /// The sentence that describes the settings to the user.
    pub fn description(self) -> (res: &'static str)
        ensures
            res@ == self.spec_description(),
    {
        match self {
            PluginBehavior::STA => "A settings user interface for configuring Wifi access",
            PluginBehavior::AP => "A settings user interface for configuring Wifi Access Point",
            PluginBehavior::Mixed => {
                "A settings user interface for configuring WiFi Access Point and STA"
            },
        }
    }
}

/// The state of the settings screen. `T` is the type of the device's status
/// report, which the screen keeps and does not look into.
pub struct Wifi<T> {
    /// The status last reported; absent until the first report.
    pub status: Option<T>,
    /// The configuration last confirmed; absent until the first load.
    pub conf: Option<Configuration>,
    pub ap_conf_form: ApConfForm,
    pub sta_conf_form: StaConfForm,
    /// Whether the access point form is the one on display.
    pub ap_active: bool,
}

/// [`Wifi`] as a mathematical value.
pub struct WifiView<T> {
    pub status: Option<T>,
    pub conf: Option<ConfigurationView>,
    pub ap_conf_form: ApConfFormView,
    pub sta_conf_form: StaConfFormView,
    pub ap_active: bool,
}

/// The form on display.
#[derive(Clone, Debug, PartialEq, Eq)]
pub enum FormLayout {
    AccessPoint(ApConfLayout),
    Client(StaConfLayout),
}

/// [`FormLayout`] as a mathematical value.
pub enum FormLayoutView {
    AccessPoint(ApConfLayoutView),
    Client(StaConfLayoutView),
}

impl View for FormLayout {
    type V = FormLayoutView;

    open spec fn view(&self) -> FormLayoutView {
        match self {
            FormLayout::AccessPoint(l) => FormLayoutView::AccessPoint(l@),
            FormLayout::Client(l) => FormLayoutView::Client(l@),
        }
    }
}

/// What a renderer draws for the screen.
#[derive(Clone, Debug, PartialEq, Eq)]
pub struct WifiLayout {
    /// Whether the access point tab is the open one.
    pub ap_tab_active: bool,
    /// Whether the access point tab is marked as holding an error.
    pub ap_tab_danger: bool,
    /// Whether the station tab is the open one.
    pub sta_tab_active: bool,
    /// Whether the station tab is marked as holding an error.
    pub sta_tab_danger: bool,
    /// The form under the open tab.
    pub form: FormLayout,
    /// Whether the save button is switched off.
    pub save_disabled: bool,
}

/// [`WifiLayout`] as a mathematical value.
pub struct WifiLayoutView {
    pub ap_tab_active: bool,
    pub ap_tab_danger: bool,
    pub sta_tab_active: bool,
    pub sta_tab_danger: bool,
    pub form: FormLayoutView,
    pub save_disabled: bool,
}

impl View for WifiLayout {
    type V = WifiLayoutView;

    open spec fn view(&self) -> WifiLayoutView {
        WifiLayoutView {
            ap_tab_active: self.ap_tab_active,
            ap_tab_danger: self.ap_tab_danger,
            sta_tab_active: self.sta_tab_active,
            sta_tab_danger: self.sta_tab_danger,
            form: self.form@,
            save_disabled: self.save_disabled,
        }
    }
}

impl<T> View for Wifi<T> {
    type V = WifiView<T>;

    open spec fn view(&self) -> WifiView<T> {
        WifiView {
            status: self.status,
            conf: value_view(self.conf),
            ap_conf_form: self.ap_conf_form@,
            sta_conf_form: self.sta_conf_form@,
            ap_active: self.ap_active,
        }
    }
}

/// The access point part of `conf`, or the default one where it has none.
pub open spec fn ap_part(conf: ConfigurationView) -> AccessPointConfigurationView {
    match conf.access_point() {
        Some(a) => a,
        None => AccessPointConfigurationView::spec_default(),
    }
}

/// The station part of `conf`, or the default one where it has none.
pub open spec fn client_part(conf: ConfigurationView) -> ClientConfigurationView {
    match conf.client() {
        Some(c) => c,
        None => ClientConfigurationView::spec_default(),
    }
}

impl<T> WifiView<T> {
    /// The screen before anything was fetched: both forms fresh, the access
    /// point form on display.
    pub open spec fn fresh() -> Self {
        WifiView {
            status: None,
            conf: None,
            ap_conf_form: ApConfFormView::fresh(),
            sta_conf_form: StaConfFormView::fresh(),
            ap_active: true,
        }
    }

    /// The screen after the configuration `conf` was fetched. One that is
    /// the confirmed one already changes nothing; another one becomes the
    /// confirmed one and is loaded into both forms, a missing part as the
    /// default of its kind.
    pub open spec fn on_configuration(self, conf: ConfigurationView) -> Self {
        if self.conf == Some(conf) {
            self
        } else {
            WifiView {
                status: self.status,
                conf: Some(conf),
                ap_conf_form: ApConfFormView::loaded(ap_part(conf)),
                sta_conf_form: StaConfFormView::loaded(client_part(conf)),
                ap_active: self.ap_active,
            }
        }
    }

    /// Whether the forms stand for exactly the confirmed configuration, part
    /// by part.
    pub open spec fn unchanged(self) -> bool {
        self.conf is Some && self.conf->0.access_point() == self.ap_conf_form.get()
            && self.conf->0.client() == self.sta_conf_form.get()
    }

    /// Whether saving is off: nothing was confirmed yet, or a form has an
    /// error, or the forms stand for what is confirmed already.
    pub open spec fn save_disabled(self) -> bool {
        self.conf is None || self.ap_conf_form.has_errors() || self.sta_conf_form.has_errors()
            || self.unchanged()
    }

    /// The configuration to save: both forms' results side by side, the
    /// default in place of a form that has none.
    pub open spec fn save(self) -> ConfigurationView {
        ConfigurationView::Mixed(
            match self.sta_conf_form.get() {
                Some(c) => c,
                None => ClientConfigurationView::spec_default(),
            },
            match self.ap_conf_form.get() {
                Some(a) => a,
                None => AccessPointConfigurationView::spec_default(),
            },
        )
    }

    /// The screen as drawn. The forms take no edits until a configuration
    /// was confirmed.
    pub open spec fn render(self) -> WifiLayoutView {
        WifiLayoutView {
            ap_tab_active: self.ap_active,
            ap_tab_danger: self.ap_conf_form.has_errors(),
            sta_tab_active: !self.ap_active,
            sta_tab_danger: self.sta_conf_form.has_errors(),
            form: if self.ap_active {
                FormLayoutView::AccessPoint(self.ap_conf_form.render(self.conf is None))
            } else {
                FormLayoutView::Client(self.sta_conf_form.render(self.conf is None))
            },
            save_disabled: self.save_disabled(),
        }
    }
}

/// Whether an optional configuration and an optional reference to one have
/// the same view.
fn same_ap(a: Option<&AccessPointConfiguration>, b: &Option<AccessPointConfiguration>) -> (res:
    bool)
    ensures
        res == (value_view(a) == value_view(*b)),
{
    match (a, b) {
        (Some(x), Some(y)) => x.same(y),
        (None, None) => true,
        _ => false,
    }
}

/// Whether an optional configuration and an optional reference to one have
/// the same view.
fn same_client(a: Option<&ClientConfiguration>, b: &Option<ClientConfiguration>) -> (res: bool)
    ensures
        res == (value_view(a) == value_view(*b)),
{
    match (a, b) {
        (Some(x), Some(y)) => x.same(y),
        (None, None) => true,
        _ => false,
    }
}

impl<T> Wifi<T> {
    /// The screen before anything was fetched.
    pub fn new() -> (res: Self)
        ensures
            res@ == WifiView::<T>::fresh(),
    {
        Wifi {
            status: None,
            conf: None,
            ap_conf_form: ApConfForm::new(),
            sta_conf_form: StaConfForm::new(),
            ap_active: true,
        }
    }

    /// Takes a status report.
    pub fn on_status(&mut self, status: T)
        ensures
            final(self)@ == (WifiView { status: Some(status), ..old(self)@ }),
    {
        self.status = Some(status);
    }

    /// Takes a fetched configuration. One that is the confirmed one already
    /// changes nothing; another one becomes the confirmed one and is loaded
    /// into both forms, which discards every edit.
    pub fn on_configuration(&mut self, conf: Configuration)
        ensures
            final(self)@ == old(self)@.on_configuration(conf@),
    {
        let known = match &self.conf {
            Some(c) => c.same(&conf),
            None => false,
        };
        if !known {
            match conf.as_ap_conf_ref() {
                Some(a) => self.ap_conf_form.set(a),
                None => self.ap_conf_form.set(&AccessPointConfiguration::default()),
            }
            match conf.as_client_conf_ref() {
                Some(c) => self.sta_conf_form.set(c),
                None => self.sta_conf_form.set(&ClientConfiguration::default()),
            }
            self.conf = Some(conf);
        }
    }

    /// Puts the other form on display.
    pub fn switch(&mut self)
        ensures
            final(self)@ == (WifiView { ap_active: !old(self)@.ap_active, ..old(self)@ }),
    {
        self.ap_active = !self.ap_active;
    }

    /// Whether saving is off: nothing was confirmed yet, or a form has an
    /// error, or the forms stand for what is confirmed already.
    pub fn save_disabled(&self) -> (res: bool)
        ensures
            res == self@.save_disabled(),
    {
        match &self.conf {
            None => true,
            Some(conf) => {
                self.ap_conf_form.has_errors() || self.sta_conf_form.has_errors() || same_ap(
                    conf.as_ap_conf_ref(),
                    &self.ap_conf_form.get(),
                ) && same_client(conf.as_client_conf_ref(), &self.sta_conf_form.get())
            },
        }
    }

    /// The configuration to save: both forms' results side by side, the
    /// default in place of a form that has none.
    pub fn save(&self) -> (res: Configuration)
        ensures
            res@ == self@.save(),
    {
        let ap_conf = match self.ap_conf_form.get() {
            Some(a) => a,
            None => AccessPointConfiguration::default(),
        };
        let sta_conf = match self.sta_conf_form.get() {
            Some(c) => c,
            None => ClientConfiguration::default(),
        };
        Configuration::Mixed(sta_conf, ap_conf)
    }

    /// What a renderer draws for the screen.
    pub fn render(&self) -> (res: WifiLayout)
        ensures
            res@ == self@.render(),
    {
        let disabled = self.conf.is_none();
        WifiLayout {
            ap_tab_active: self.ap_active,
            ap_tab_danger: self.ap_conf_form.has_errors(),
            sta_tab_active: !self.ap_active,
            sta_tab_danger: self.sta_conf_form.has_errors(),
            form: if self.ap_active {
                FormLayout::AccessPoint(self.ap_conf_form.render(disabled))
            } else {
                FormLayout::Client(self.sta_conf_form.render(disabled))
            },
            save_disabled: self.save_disabled(),
        }
    }
}

/// Whether the two forms together can hold `conf` and show all of it: it
/// has both parts, neither puts its form in error, and neither differs from
/// the default in a place that its form does not show.
pub open spec fn shown_in_full(conf: ConfigurationView) -> bool {
    conf matches ConfigurationView::Mixed(c, a) && crate::sta_form::presentable(c)
        && crate::sta_form::shown(c) == c && crate::ap_form::presentable(a)
        && crate::ap_form::shown(a) == a
}

/// Right after a configuration was confirmed there is nothing to save: the
/// forms stand for exactly what was loaded into them, so saving is off until
/// the user changes something.
pub proof fn nothing_to_save_after_load<T>(screen: WifiView<T>, conf: ConfigurationView)
    requires
        shown_in_full(conf),
        screen.conf != Some(conf),
    ensures
        screen.on_configuration(conf).unchanged(),
        screen.on_configuration(conf).save_disabled(),
        !screen.on_configuration(conf).ap_conf_form.changed(),
        !screen.on_configuration(conf).sta_conf_form.changed(),
{
    crate::ap_form::loaded_form_gives_back(ap_part(conf));
    crate::sta_form::loaded_form_gives_back(client_part(conf));
}

/// Saving is on exactly if a configuration was confirmed, neither form has
/// an error, and a form stands for something else than its part of the
/// confirmed configuration.
pub proof fn save_rule<T>(screen: WifiView<T>)
    ensures
        !screen.save_disabled() <==> screen.conf is Some && !screen.ap_conf_form.has_errors()
            && !screen.sta_conf_form.has_errors() && (screen.ap_conf_form.get()
            != screen.conf->0.access_point() || screen.sta_conf_form.get()
            != screen.conf->0.client()),
{
}

} // verus!
