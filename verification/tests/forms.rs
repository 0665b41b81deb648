use edge_frame::ap_form::{render_optional_ipv4, ApConfForm};
use edge_frame::auth::AuthMethod;
use edge_frame::config::{
    AccessPointConfiguration, ClientConfiguration, ClientIpConfiguration, ClientSettings,
    DHCPClientSettings, Protocols, RouterConfiguration,
};
use edge_frame::ipv4::{Ipv4, Subnet};
use edge_frame::layout::{choices, confirm_label, password_label, CheckInput, Choice, TextInput};
use edge_frame::sta_form::StaConfForm;

fn text(s: &str) -> String {
    s.to_owned()
}

fn valid_ap_form() -> ApConfForm {
    let mut form = ApConfForm::new();
    form.set(&AccessPointConfiguration::default());
    form
}

fn fixed_client() -> ClientConfiguration {
    ClientConfiguration {
        ssid: text("home"),
        bssid: None,
        auth_method: AuthMethod::WPA2Personal,
        password: text("secret"),
        channel: None,
        ip_conf: Some(ClientIpConfiguration::Fixed(ClientSettings {
            ip: Ipv4::new(10, 0, 0, 7),
            subnet: Subnet { gateway: Ipv4::new(10, 0, 0, 1), mask: 8 },
            dns: Some(Ipv4::new(1, 1, 1, 1)),
            secondary_dns: None,
        })),
    }
}

#[test]
fn empty_ssid_is_no_error() {
    let mut form = ApConfForm::new();
    form.ssid.on_change(text(""));
    assert!(!form.ssid.has_errors(&()));
    assert_eq!(form.ssid.value(&()), Some(text("")));
}

#[test]
fn wep_with_empty_password_is_a_password_error() {
    let mut form = valid_ap_form();
    assert!(!form.has_errors());
    form.auth.on_change(text("wep"));
    assert_eq!(form.auth.value(&()), Some(AuthMethod::WEP));
    assert!(form.password.has_errors(&()));
    assert_eq!(form.password.error_str(&()), "Password cannot be empty");
    assert!(form.has_errors());
    assert_eq!(form.get(), None);
}

#[test]
fn subnet_field_parses_its_text() {
    let mut form = valid_ap_form();
    form.subnet.on_change(text("10.0.0.0/24"));
    assert_eq!(
        form.subnet.value(&()),
        Some(Subnet { gateway: Ipv4::new(10, 0, 0, 0), mask: 24 })
    );
    assert!(!form.has_errors());
}

#[test]
fn bad_subnet_is_an_error_and_the_form_has_no_result() {
    let mut form = valid_ap_form();
    form.subnet.on_change(text("bad"));
    assert!(form.subnet.has_errors(&()));
    assert!(form.has_errors());
    assert_eq!(form.get(), None);
}

#[test]
fn fresh_ap_form_asks_for_a_password() {
    let form = ApConfForm::new();
    assert_eq!(form.auth.value(&()), Some(AuthMethod::WPA2Personal));
    assert!(form.has_errors());
    assert_eq!(form.get(), None);
}

#[test]
fn loaded_ap_form_shows_the_configuration_as_text() {
    let form = valid_ap_form();
    assert_eq!(form.ssid.raw_value(), "iot-device");
    assert_eq!(form.hidden_ssid.raw_value(), false);
    assert_eq!(form.auth.raw_value(), "none");
    assert_eq!(form.password.raw_value(), "");
    assert_eq!(form.password_confirm.raw_value(), "");
    assert_eq!(form.ip_conf_enabled.raw_value(), true);
    assert_eq!(form.dhcp_server_enabled.raw_value(), true);
    assert_eq!(form.subnet.raw_value(), "192.168.71.1/24");
    assert_eq!(form.dns.raw_value(), "8.8.8.8");
    assert_eq!(form.secondary_dns.raw_value(), "8.8.4.4");
}

#[test]
fn loaded_ap_form_gives_the_configuration_back() {
    let form = valid_ap_form();
    assert_eq!(form.get(), Some(AccessPointConfiguration::default()));
}

#[test]
fn ap_form_without_address_configuration() {
    let conf = AccessPointConfiguration {
        ssid: text("shed"),
        ssid_hidden: true,
        auth_method: AuthMethod::WPA3Personal,
        password: text("pass phrase"),
        ip_conf: None,
        ..AccessPointConfiguration::default()
    };
    let mut form = ApConfForm::new();
    form.set(&conf);
    assert_eq!(form.auth.raw_value(), "wpa3personal");
    assert_eq!(form.ip_conf_enabled.raw_value(), false);
    assert_eq!(form.dhcp_server_enabled.raw_value(), false);
    assert_eq!(form.subnet.raw_value(), "");
    assert_eq!(form.dns.raw_value(), "");
    assert!(form.subnet.has_errors(&()));
    assert!(!form.has_errors());
    assert_eq!(form.get(), Some(conf));
}

#[test]
fn ap_result_takes_every_field() {
    let mut form = valid_ap_form();
    form.ssid.on_change(text("barn"));
    form.hidden_ssid.on_change(true);
    form.auth.on_change(text("wpa2personal"));
    form.password.on_change(text("secret"));
    form.password_confirm.on_change(text("secret"));
    form.dhcp_server_enabled.on_change(false);
    form.subnet.on_change(text("10.1.2.3/16"));
    form.dns.on_change(text(""));
    form.secondary_dns.on_change(text("9.9.9.9"));
    assert_eq!(
        form.get(),
        Some(AccessPointConfiguration {
            ssid: text("barn"),
            ssid_hidden: true,
            channel: 1,
            secondary_channel: None,
            protocols: Protocols {
                p802d11b: true,
                p802d11bg: true,
                p802d11bgn: true,
                p802d11bgnlr: false,
                p802d11lr: false,
            },
            auth_method: AuthMethod::WPA2Personal,
            password: text("secret"),
            max_connections: 255,
            ip_conf: Some(RouterConfiguration {
                subnet: Subnet { gateway: Ipv4::new(10, 1, 2, 3), mask: 16 },
                dhcp_enabled: false,
                dns: None,
                secondary_dns: Some(Ipv4::new(9, 9, 9, 9)),
            }),
        })
    );
}

#[test]
fn open_network_has_the_empty_password_whatever_was_typed() {
    let mut form = valid_ap_form();
    form.password.on_change(text("left over"));
    form.password_confirm.on_change(text("other"));
    assert!(!form.has_errors());
    let conf = form.get().unwrap();
    assert_eq!(conf.auth_method, AuthMethod::Open);
    assert_eq!(conf.password, "");

    form.password_confirm.on_change(text("left over"));
    assert!(!form.password.has_errors(&()));
    assert!(!form.password_confirm.has_errors(&form.password));
    assert_eq!(form.get().unwrap().password, "");

    form.auth.on_change(text("wpa2personal"));
    assert_eq!(form.get().unwrap().password, "left over");
    form.auth.on_change(text("none"));
    assert_eq!(form.get().unwrap().password, "");
}

#[test]
fn open_station_has_the_empty_password_whatever_was_typed() {
    let mut form = StaConfForm::new();
    form.set(&fixed_client());
    assert_eq!(form.get().unwrap().password, "secret");
    form.auth.on_change(text("none"));
    assert_eq!(form.password.value(&()), Some(text("secret")));
    assert!(!form.has_errors());
    let conf = form.get().unwrap();
    assert_eq!(conf.auth_method, AuthMethod::Open);
    assert_eq!(conf.password, "");
    form.auth.on_change(text("wep"));
    assert_eq!(form.get().unwrap().password, "secret");
}

#[test]
fn loaded_open_network_with_a_password_gives_the_empty_one_back() {
    let conf = AccessPointConfiguration {
        password: text("stale"),
        ..AccessPointConfiguration::default()
    };
    let mut form = ApConfForm::new();
    form.set(&conf);
    assert_eq!(form.password.raw_value(), "stale");
    assert_eq!(form.get(), Some(AccessPointConfiguration::default()));
}

#[test]
fn address_switch_gates_the_address_fields() {
    let mut form = valid_ap_form();
    form.ip_conf_enabled.on_change(false);
    form.subnet.on_change(text("bad"));
    form.dns.on_change(text("worse"));
    assert!(form.subnet.has_errors(&()));
    assert!(!form.has_errors());
    assert_eq!(form.get().unwrap().ip_conf, None);
    form.ip_conf_enabled.on_change(true);
    assert!(form.has_errors());
    form.subnet.on_change(text("10.0.0.0/24"));
    assert!(form.has_errors());
    form.dns.on_change(text("10.0.0.1"));
    assert!(!form.has_errors());
}

#[test]
fn method_gates_the_password_fields() {
    let mut form = valid_ap_form();
    form.password.on_change(text(""));
    form.password_confirm.on_change(text("x"));
    assert!(!form.has_errors());
    form.auth.on_change(text("wpa"));
    assert!(form.has_errors());
    form.password.on_change(text("x"));
    assert!(!form.has_errors());
    form.password_confirm.on_change(text("y"));
    assert!(form.has_errors());
    form.auth.on_change(text("none"));
    assert!(!form.has_errors());
}

#[test]
fn loading_an_ap_form_twice_is_loading_it_once() {
    let mut form = ApConfForm::new();
    form.ssid.on_change(text("typed"));
    form.set(&AccessPointConfiguration::default());
    let first = form.render(false);
    assert!(!form.ssid.is_dirty(&()));
    assert!(!form.subnet.is_dirty(&()));
    form.set(&AccessPointConfiguration::default());
    assert!(!form.ssid.is_dirty(&()));
    assert!(!form.subnet.is_dirty(&()));
    assert_eq!(form.render(false), first);
}

#[test]
fn fresh_sta_form_asks_for_a_password() {
    let form = StaConfForm::new();
    assert!(form.has_errors());
    assert_eq!(form.get(), None);
}

#[test]
fn default_station_has_an_empty_password() {
    let mut form = StaConfForm::new();
    form.set(&ClientConfiguration::default());
    assert_eq!(form.auth.raw_value(), "wpa2personal");
    assert_eq!(form.ip_conf_enabled.raw_value(), true);
    assert_eq!(form.dhcp_enabled.raw_value(), true);
    assert_eq!(form.ip.raw_value(), "");
    assert!(form.password.is_dirty(&()));
    assert!(form.has_errors());
    form.password.on_change(text("secret"));
    assert!(form.has_errors());
    form.password_confirm.on_change(text("secret"));
    assert!(!form.has_errors());
    assert_eq!(
        form.get(),
        Some(ClientConfiguration {
            ssid: text(""),
            bssid: None,
            auth_method: AuthMethod::WPA2Personal,
            password: text("secret"),
            channel: None,
            ip_conf: Some(ClientIpConfiguration::DHCP(DHCPClientSettings { hostname: None })),
        })
    );
}

#[test]
fn loaded_sta_form_shows_fixed_settings_as_text() {
    let mut form = StaConfForm::new();
    form.set(&fixed_client());
    assert_eq!(form.ssid.raw_value(), "home");
    assert_eq!(form.ip_conf_enabled.raw_value(), true);
    assert_eq!(form.dhcp_enabled.raw_value(), false);
    assert_eq!(form.subnet.raw_value(), "10.0.0.1/8");
    assert_eq!(form.ip.raw_value(), "10.0.0.7");
    assert_eq!(form.dns.raw_value(), "1.1.1.1");
    assert_eq!(form.secondary_dns.raw_value(), "");
    assert!(!form.has_errors());
    assert_eq!(form.get(), Some(fixed_client()));
}

#[test]
fn dhcp_switch_gates_the_fixed_fields() {
    let mut form = StaConfForm::new();
    form.set(&fixed_client());
    form.ip.on_change(text("nowhere"));
    assert!(form.has_errors());
    assert_eq!(form.get(), None);
    form.dhcp_enabled.on_change(true);
    assert!(!form.has_errors());
    assert_eq!(
        form.get().unwrap().ip_conf,
        Some(ClientIpConfiguration::DHCP(DHCPClientSettings { hostname: None }))
    );
    form.dhcp_enabled.on_change(false);
    assert!(form.has_errors());
    form.ip_conf_enabled.on_change(false);
    assert!(!form.has_errors());
    assert_eq!(form.get().unwrap().ip_conf, None);
}

#[test]
fn station_without_address_configuration() {
    let conf = ClientConfiguration { ip_conf: None, ..fixed_client() };
    let mut form = StaConfForm::new();
    form.set(&conf);
    assert_eq!(form.ip_conf_enabled.raw_value(), false);
    assert_eq!(form.dhcp_enabled.raw_value(), false);
    assert_eq!(form.subnet.raw_value(), "");
    assert_eq!(form.get(), Some(conf));
}

#[test]
fn optional_address_as_text() {
    assert_eq!(render_optional_ipv4(None), "");
    assert_eq!(render_optional_ipv4(Some(Ipv4::new(0, 10, 200, 255))), "0.10.200.255");
}

#[test]
fn choices_list_every_method_in_order() {
    let list = choices(AuthMethod::WPA);
    let values: Vec<&str> = list.iter().map(|c| c.value.as_str()).collect();
    assert_eq!(
        values,
        vec![
            "none",
            "wep",
            "wpa",
            "wpa2personal",
            "wpawpa2personal",
            "wpa2enterprise",
            "wpa3personal",
            "wpa2wpa3personal",
            "wapipersonal"
        ]
    );
    let labels: Vec<&str> = list.iter().map(|c| c.label.as_str()).collect();
    assert_eq!(
        labels,
        vec![
            "None",
            "WEP",
            "WPA",
            "WPA2 Personal",
            "WPA & WPA2 Personal",
            "WPA2 Enterprise",
            "WPA3 Personal",
            "WPA2 & WPA3 Personal",
            "WAPI Personal"
        ]
    );
    let selected: Vec<bool> = list.iter().map(|c| c.selected).collect();
    assert_eq!(selected, vec![false, false, true, false, false, false, false, false, false]);
}

#[test]
fn captions_of_the_password_section() {
    assert_eq!(password_label(AuthMethod::WEP), "Key");
    assert_eq!(confirm_label(AuthMethod::WEP), "Key Confirmation");
    assert_eq!(password_label(AuthMethod::WPA2Personal), "Password");
    assert_eq!(confirm_label(AuthMethod::WPA2Personal), "Password Confirmation");
}

#[test]
fn ap_layout_of_a_loaded_form() {
    let form = valid_ap_form();
    let layout = form.render(false);
    assert_eq!(
        layout.ssid,
        TextInput {
            value: text("iot-device"),
            disabled: false,
            danger: false,
            error: text("\u{00a0}"),
            error_hidden: false,
        }
    );
    assert_eq!(layout.hidden_ssid, CheckInput { checked: false, disabled: false });
    assert!(!layout.auth_disabled);
    assert_eq!(layout.auth.len(), 9);
    assert_eq!(
        layout.auth[0],
        Choice { value: text("none"), label: text("None"), selected: true }
    );
    assert_eq!(layout.credentials, None);
    assert_eq!(layout.ip_conf_enabled, CheckInput { checked: true, disabled: false });
    assert_eq!(layout.dhcp_server_enabled, CheckInput { checked: true, disabled: false });
    assert_eq!(layout.subnet.value, "192.168.71.1/24");
    assert!(!layout.subnet.disabled);
}

#[test]
fn ap_layout_marks_errors_only_where_edits_are_taken() {
    let mut form = valid_ap_form();
    form.auth.on_change(text("wep"));
    form.password_confirm.on_change(text("k"));
    form.subnet.on_change(text("bad"));
    let layout = form.render(false);
    let credentials = layout.credentials.unwrap();
    assert_eq!(credentials.password_label, "Key");
    assert_eq!(credentials.confirm_label, "Key Confirmation");
    assert!(credentials.password.danger);
    assert_eq!(credentials.password.error, "Password cannot be empty");
    assert!(credentials.password_confirm.danger);
    assert_eq!(credentials.password_confirm.error, "Passwords do not match");
    assert!(layout.subnet.danger);
    assert!(!layout.subnet.error_hidden);
    assert_eq!(layout.subnet.error, "Expected <gateway-ip-address>/<mask>");

    form.ip_conf_enabled.on_change(false);
    let layout = form.render(false);
    assert!(!layout.ip_conf_enabled.disabled);
    assert!(layout.dhcp_server_enabled.disabled);
    assert!(layout.subnet.disabled);
    assert!(!layout.subnet.danger);
    assert!(layout.subnet.error_hidden);
    assert_eq!(layout.subnet.error, "Expected <gateway-ip-address>/<mask>");

    let layout = form.render(true);
    let credentials = layout.credentials.unwrap();
    assert!(layout.ssid.disabled);
    assert!(layout.auth_disabled);
    assert!(credentials.password.disabled);
    assert!(!credentials.password.danger);
    assert!(credentials.password.error_hidden);
    assert!(layout.ip_conf_enabled.disabled);
}

#[test]
fn sta_layout_shows_the_fixed_section_while_dhcp_is_off() {
    let mut form = StaConfForm::new();
    form.set(&fixed_client());
    let layout = form.render(false);
    assert_eq!(layout.dhcp_enabled, CheckInput { checked: false, disabled: false });
    let fixed = layout.fixed.unwrap();
    assert_eq!(fixed.ip.value, "10.0.0.7");
    assert_eq!(fixed.subnet.value, "10.0.0.1/8");
    assert!(!fixed.ip.disabled);
    let credentials = layout.credentials.unwrap();
    assert_eq!(credentials.password_label, "Password");
    assert_eq!(credentials.password.value, "secret");
    assert_eq!(layout.auth[3].selected, true);

    form.dhcp_enabled.on_change(true);
    assert_eq!(form.render(false).fixed, None);

    form.dhcp_enabled.on_change(false);
    form.ip_conf_enabled.on_change(false);
    let layout = form.render(false);
    assert!(layout.dhcp_enabled.disabled);
    assert!(layout.fixed.unwrap().ip.disabled);
}

#[test]
fn fresh_sta_form_shows_the_fixed_section() {
    let layout = StaConfForm::new().render(true);
    assert!(layout.ssid.disabled);
    assert!(layout.fixed.is_some());
    assert!(layout.credentials.is_some());
}
