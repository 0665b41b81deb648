//! The typed configurations that the forms read and produce.

use vstd::prelude::*;
use crate::auth::AuthMethod;
use crate::field::value_view;
use crate::ipv4::{Ipv4, Subnet};
use crate::raw::Raw;

verus! {

/// The radio protocols an access point may speak.
#[derive(Clone, Copy, Debug, PartialEq, Eq, Structural)]
pub struct Protocols {
    pub p802d11b: bool,
    pub p802d11bg: bool,
    pub p802d11bgn: bool,
    pub p802d11bgnlr: bool,
    pub p802d11lr: bool,
}

/// How an access point hands out addresses on its own network.
#[derive(Clone, Copy, Debug, PartialEq, Eq, Structural)]
pub struct RouterConfiguration {
    pub subnet: Subnet,
    pub dhcp_enabled: bool,
    pub dns: Option<Ipv4>,
    pub secondary_dns: Option<Ipv4>,
}

/// The fixed address settings of a station.
#[derive(Clone, Copy, Debug, PartialEq, Eq, Structural)]
pub struct ClientSettings {
    pub ip: Ipv4,
    pub subnet: Subnet,
    pub dns: Option<Ipv4>,
    pub secondary_dns: Option<Ipv4>,
}

/// What a station tells the DHCP server about itself.
#[derive(Clone, Debug, PartialEq, Eq)]
pub struct DHCPClientSettings {
    pub hostname: Option<String>,
}

/// How a station gets its address.
#[derive(Clone, Debug, PartialEq, Eq)]
pub enum ClientIpConfiguration {
    DHCP(DHCPClientSettings),
    Fixed(ClientSettings),
}

/// The configuration of the device as an access point.
#[derive(Clone, Debug, PartialEq, Eq)]
pub struct AccessPointConfiguration {
    pub ssid: String,
    pub ssid_hidden: bool,
    pub channel: u8,
    pub secondary_channel: Option<u8>,
    pub protocols: Protocols,
    pub auth_method: AuthMethod,
    pub password: String,
    pub max_connections: u16,
    pub ip_conf: Option<RouterConfiguration>,
}

/// The configuration of the device as a station of another network.
#[derive(Clone, Debug, PartialEq, Eq)]
pub struct ClientConfiguration {
    pub ssid: String,
    pub bssid: Option<[u8; 6]>,
    pub auth_method: AuthMethod,
    pub password: String,
    pub channel: Option<u8>,
    pub ip_conf: Option<ClientIpConfiguration>,
}

/// The Wi-Fi configuration of the device.
#[derive(Clone, Debug, PartialEq, Eq)]
pub enum Configuration {
    /// Wi-Fi is not configured.
    Off,
    Client(ClientConfiguration),
    AccessPoint(AccessPointConfiguration),
    Mixed(ClientConfiguration, AccessPointConfiguration),
}

/// [`DHCPClientSettings`] as a mathematical value.
pub struct DHCPClientSettingsView {
    pub hostname: Option<Seq<char>>,
}

/// [`ClientIpConfiguration`] as a mathematical value.
pub enum ClientIpConfigurationView {
    DHCP(DHCPClientSettingsView),
    Fixed(ClientSettings),
}

/// [`AccessPointConfiguration`] as a mathematical value.
pub struct AccessPointConfigurationView {
    pub ssid: Seq<char>,
    pub ssid_hidden: bool,
    pub channel: u8,
    pub secondary_channel: Option<u8>,
    pub protocols: Protocols,
    pub auth_method: AuthMethod,
    pub password: Seq<char>,
    pub max_connections: u16,
    pub ip_conf: Option<RouterConfiguration>,
}

/// [`ClientConfiguration`] as a mathematical value.
pub struct ClientConfigurationView {
    pub ssid: Seq<char>,
    pub bssid: Option<Seq<u8>>,
    pub auth_method: AuthMethod,
    pub password: Seq<char>,
    pub channel: Option<u8>,
    pub ip_conf: Option<ClientIpConfigurationView>,
}

/// [`Configuration`] as a mathematical value.
pub enum ConfigurationView {
    Off,
    Client(ClientConfigurationView),
    AccessPoint(AccessPointConfigurationView),
    Mixed(ClientConfigurationView, AccessPointConfigurationView),
}

impl View for DHCPClientSettings {
    type V = DHCPClientSettingsView;

    open spec fn view(&self) -> DHCPClientSettingsView {
        DHCPClientSettingsView { hostname: value_view(self.hostname) }
    }
}

impl View for ClientIpConfiguration {
    type V = ClientIpConfigurationView;

    open spec fn view(&self) -> ClientIpConfigurationView {
        match self {
            ClientIpConfiguration::DHCP(s) => ClientIpConfigurationView::DHCP(s@),
            ClientIpConfiguration::Fixed(s) => ClientIpConfigurationView::Fixed(*s),
        }
    }
}

impl View for AccessPointConfiguration {
    type V = AccessPointConfigurationView;

    open spec fn view(&self) -> AccessPointConfigurationView {
        AccessPointConfigurationView {
            ssid: self.ssid@,
            ssid_hidden: self.ssid_hidden,
            channel: self.channel,
            secondary_channel: self.secondary_channel,
            protocols: self.protocols,
            auth_method: self.auth_method,
            password: self.password@,
            max_connections: self.max_connections,
            ip_conf: self.ip_conf,
        }
    }
}

/// The view of an optional hardware address.
pub open spec fn bssid_view(bssid: Option<[u8; 6]>) -> Option<Seq<u8>> {
    match bssid {
        Some(b) => Some(b@),
        None => None,
    }
}

impl View for ClientConfiguration {
    type V = ClientConfigurationView;

    open spec fn view(&self) -> ClientConfigurationView {
        ClientConfigurationView {
            ssid: self.ssid@,
            bssid: bssid_view(self.bssid),
            auth_method: self.auth_method,
            password: self.password@,
            channel: self.channel,
            ip_conf: value_view(self.ip_conf),
        }
    }
}

impl View for Configuration {
    type V = ConfigurationView;

    open spec fn view(&self) -> ConfigurationView {
        match self {
            Configuration::Off => ConfigurationView::Off,
            Configuration::Client(c) => ConfigurationView::Client(c@),
            Configuration::AccessPoint(a) => ConfigurationView::AccessPoint(a@),
            Configuration::Mixed(c, a) => ConfigurationView::Mixed(c@, a@),
        }
    }
}

impl Protocols {
    /// The protocols of an access point that was not told otherwise:
    /// 802.11b, 802.11bg and 802.11bgn.
    pub open spec fn spec_default() -> Protocols {
        Protocols {
            p802d11b: true,
            p802d11bg: true,
            p802d11bgn: true,
            p802d11bgnlr: false,
            p802d11lr: false,
        }
    }
}

impl Default for Protocols {
    fn default() -> (res: Self)
        ensures
            res == Protocols::spec_default(),
    {
        Protocols {
            p802d11b: true,
            p802d11bg: true,
            p802d11bgn: true,
            p802d11bgnlr: false,
            p802d11lr: false,
        }
    }
}

/// The gateway of a network that was not told otherwise: `192.168.71.1/24`.
pub open spec fn default_subnet() -> Subnet {
    Subnet { gateway: Ipv4 { a: 192, b: 168, c: 71, d: 1 }, mask: 24 }
}

impl RouterConfiguration {
    /// The address settings of an access point that was not told otherwise.
    pub open spec fn spec_default() -> RouterConfiguration {
        RouterConfiguration {
            subnet: default_subnet(),
            dhcp_enabled: true,
            dns: Some(Ipv4 { a: 8, b: 8, c: 8, d: 8 }),
            secondary_dns: Some(Ipv4 { a: 8, b: 8, c: 4, d: 4 }),
        }
    }
}

impl Default for RouterConfiguration {
    fn default() -> (res: Self)
        ensures
            res == RouterConfiguration::spec_default(),
    {
        RouterConfiguration {
            subnet: Subnet { gateway: Ipv4::new(192, 168, 71, 1), mask: 24 },
            dhcp_enabled: true,
            dns: Some(Ipv4::new(8, 8, 8, 8)),
            secondary_dns: Some(Ipv4::new(8, 8, 4, 4)),
        }
    }
}

impl ClientSettings {
    /// The fixed address settings of a station that was not told otherwise.
    pub open spec fn spec_default() -> ClientSettings {
        ClientSettings {
            ip: Ipv4 { a: 192, b: 168, c: 71, d: 200 },
            subnet: default_subnet(),
            dns: Some(Ipv4 { a: 8, b: 8, c: 8, d: 8 }),
            secondary_dns: Some(Ipv4 { a: 8, b: 8, c: 4, d: 4 }),
        }
    }
}

impl Default for ClientSettings {
    fn default() -> (res: Self)
        ensures
            res == ClientSettings::spec_default(),
    {
        ClientSettings {
            ip: Ipv4::new(192, 168, 71, 200),
            subnet: Subnet { gateway: Ipv4::new(192, 168, 71, 1), mask: 24 },
            dns: Some(Ipv4::new(8, 8, 8, 8)),
            secondary_dns: Some(Ipv4::new(8, 8, 4, 4)),
        }
    }
}

impl DHCPClientSettings {
    /// Whether two settings have the same view.
    pub fn same(&self, other: &Self) -> (res: bool)
        ensures
            res == (self@ == other@),
    {
        match (&self.hostname, &other.hostname) {
            (Some(a), Some(b)) => a.same(b),
            (None, None) => true,
            _ => false,
        }
    }
}

impl Default for DHCPClientSettings {
    fn default() -> (res: Self)
        ensures
            res@ == (DHCPClientSettingsView { hostname: None }),
    {
        DHCPClientSettings { hostname: None }
    }
}

impl ClientIpConfigurationView {
    /// A station that was not told otherwise asks a DHCP server, under no
    /// host name.
    pub open spec fn spec_default() -> ClientIpConfigurationView {
        ClientIpConfigurationView::DHCP(DHCPClientSettingsView { hostname: None })
    }
}

impl ClientIpConfiguration {
    /// Whether two configurations have the same view.
    pub fn same(&self, other: &Self) -> (res: bool)
        ensures
            res == (self@ == other@),
    {
        match (self, other) {
            (ClientIpConfiguration::DHCP(a), ClientIpConfiguration::DHCP(b)) => a.same(b),
            (ClientIpConfiguration::Fixed(a), ClientIpConfiguration::Fixed(b)) => *a == *b,
            _ => false,
        }
    }

    /// The fixed settings, if the station does not use DHCP.
    pub fn as_fixed_settings_ref(&self) -> (res: Option<&ClientSettings>)
        ensures
            res == match *self {
                ClientIpConfiguration::Fixed(s) => Some(&s),
                ClientIpConfiguration::DHCP(_) => None,
            },
    {
        match self {
            ClientIpConfiguration::Fixed(client_settings) => Some(client_settings),
            _ => None,
        }
    }
}

impl Default for ClientIpConfiguration {
    fn default() -> (res: Self)
        ensures
            res@ == ClientIpConfigurationView::spec_default(),
    {
        ClientIpConfiguration::DHCP(DHCPClientSettings::default())
    }
}

impl AccessPointConfigurationView {
    /// The access point of a device that was not told otherwise: an open
    /// network named `iot-device` on channel 1.
    pub open spec fn spec_default() -> AccessPointConfigurationView {
        AccessPointConfigurationView {
            ssid: "iot-device"@,
            ssid_hidden: false,
            channel: 1,
            secondary_channel: None,
            protocols: Protocols::spec_default(),
            auth_method: AuthMethod::Open,
            password: Seq::empty(),
            max_connections: 255,
            ip_conf: Some(RouterConfiguration::spec_default()),
        }
    }
}

impl AccessPointConfiguration {
    /// Whether two configurations have the same view.
    pub fn same(&self, other: &Self) -> (res: bool)
        ensures
            res == (self@ == other@),
    {
        self.ssid.same(&other.ssid) && self.ssid_hidden == other.ssid_hidden && self.channel
            == other.channel && self.secondary_channel == other.secondary_channel
            && self.protocols == other.protocols && self.auth_method == other.auth_method
            && self.password.same(&other.password) && self.max_connections
            == other.max_connections && self.ip_conf == other.ip_conf
    }

    /// The address settings, if the access point has any.
    pub fn as_ip_conf_ref(&self) -> (res: Option<&RouterConfiguration>)
        ensures
            res == match self.ip_conf {
                Some(c) => Some(&c),
                None => None,
            },
    {
        self.ip_conf.as_ref()
    }
}

impl Default for AccessPointConfiguration {
    fn default() -> (res: Self)
        ensures
            res@ == AccessPointConfigurationView::spec_default(),
    {
        AccessPointConfiguration {
            ssid: "iot-device".to_owned(),
            ssid_hidden: false,
            channel: 1,
            secondary_channel: None,
            protocols: Protocols::default(),
            auth_method: AuthMethod::Open,
            password: String::new(),
            max_connections: 255,
            ip_conf: Some(RouterConfiguration::default()),
        }
    }
}

impl ClientConfigurationView {
    /// The station of a device that was not told otherwise: no network
    /// chosen yet.
    pub open spec fn spec_default() -> ClientConfigurationView {
        ClientConfigurationView {
            ssid: Seq::empty(),
            bssid: None,
            auth_method: AuthMethod::WPA2Personal,
            password: Seq::empty(),
            channel: None,
            ip_conf: Some(ClientIpConfigurationView::spec_default()),
        }
    }
}

/// Whether two optional hardware addresses have the same view.
pub fn same_bssid(a: &Option<[u8; 6]>, b: &Option<[u8; 6]>) -> (res: bool)
    ensures
        res == (bssid_view(*a) == bssid_view(*b)),
{
    match (a, b) {
        (Some(x), Some(y)) => {
            let eq = x[0] == y[0] && x[1] == y[1] && x[2] == y[2] && x[3] == y[3] && x[4] == y[4]
                && x[5] == y[5];
            proof {
                if eq {
                    assert(x@ =~= y@);
                }
            }
            eq
        },
        (None, None) => true,
        _ => false,
    }
}

impl ClientConfiguration {
    /// Whether two configurations have the same view.
    pub fn same(&self, other: &Self) -> (res: bool)
        ensures
            res == (self@ == other@),
    {
        let ip_conf = match (&self.ip_conf, &other.ip_conf) {
            (Some(a), Some(b)) => a.same(b),
            (None, None) => true,
            _ => false,
        };
        self.ssid.same(&other.ssid) && same_bssid(&self.bssid, &other.bssid) && self.auth_method
            == other.auth_method && self.password.same(&other.password) && self.channel
            == other.channel && ip_conf
    }

    /// The address settings, if the station has any.
    pub fn as_ip_conf_ref(&self) -> (res: Option<&ClientIpConfiguration>)
        ensures
            res == match self.ip_conf {
                Some(c) => Some(&c),
                None => None,
            },
    {
        self.ip_conf.as_ref()
    }
}

impl Default for ClientConfiguration {
    fn default() -> (res: Self)
        ensures
            res@ == ClientConfigurationView::spec_default(),
    {
        ClientConfiguration {
            ssid: String::new(),
            bssid: None,
            auth_method: AuthMethod::default(),
            password: String::new(),
            channel: None,
            ip_conf: Some(ClientIpConfiguration::default()),
        }
    }
}

impl Configuration {
    /// Whether two configurations have the same view.
    pub fn same(&self, other: &Self) -> (res: bool)
        ensures
            res == (self@ == other@),
    {
        match (self, other) {
            (Configuration::Off, Configuration::Off) => true,
            (Configuration::Client(a), Configuration::Client(b)) => a.same(b),
            (Configuration::AccessPoint(a), Configuration::AccessPoint(b)) => a.same(b),
            (Configuration::Mixed(a, c), Configuration::Mixed(b, d)) => a.same(b) && c.same(d),
            _ => false,
        }
    }

    /// The station part, if the configuration has one.
    pub fn as_client_conf_ref(&self) -> (res: Option<&ClientConfiguration>)
        ensures
            value_view(res) == self@.client(),
    {
        match self {
            Configuration::Client(client_conf) => Some(client_conf),
            Configuration::Mixed(client_conf, _) => Some(client_conf),
            _ => None,
        }
    }

    /// The access point part, if the configuration has one.
    pub fn as_ap_conf_ref(&self) -> (res: Option<&AccessPointConfiguration>)
        ensures
            value_view(res) == self@.access_point(),
    {
        match self {
            Configuration::AccessPoint(ap_conf) => Some(ap_conf),
            Configuration::Mixed(_, ap_conf) => Some(ap_conf),
            _ => None,
        }
    }
}

impl ConfigurationView {
    /// The station part, if the configuration has one.
    pub open spec fn client(self) -> Option<ClientConfigurationView> {
        match self {
            ConfigurationView::Client(c) => Some(c),
            ConfigurationView::Mixed(c, _) => Some(c),
            _ => None,
        }
    }

    /// The access point part, if the configuration has one.
    pub open spec fn access_point(self) -> Option<AccessPointConfigurationView> {
        match self {
            ConfigurationView::AccessPoint(a) => Some(a),
            ConfigurationView::Mixed(_, a) => Some(a),
            _ => None,
        }
    }
}

} // verus!
