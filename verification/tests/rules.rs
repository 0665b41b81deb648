use edge_frame::auth::{from_label, AuthMethod};
use edge_frame::field::{Field, TextField, Validator};
use edge_frame::ipv4::{Ipv4, Subnet};
use edge_frame::rules::{
    address, Accept, Address, Authentication, Confirmation, OptionalAddress, Password, SubnetText,
};
use edge_frame::text::blank;

fn text(s: &str) -> String {
    s.to_owned()
}

#[test]
fn accept_returns_the_raw_value() {
    assert_eq!(Validator::<String, String>::validate(&Accept, &(), text("x y")), Ok(text("x y")));
    assert_eq!(Validator::<bool, bool>::validate(&Accept, &(), true), Ok(true));
}

#[test]
fn password_must_not_be_empty() {
    assert_eq!(Password.validate(&(), text("")), Err(text("Password cannot be empty")));
    assert_eq!(Password.validate(&(), text(" ")), Ok(text(" ")));
    assert_eq!(Password.validate(&(), text("secret")), Ok(text("secret")));
}

#[test]
fn confirmation_follows_the_password_as_it_is_typed() {
    let mut password: TextField<String, Password> = Field::text(Password);
    let mut confirm: TextField<String, Confirmation> = Field::text(Confirmation);
    password.on_change(text("one"));
    confirm.on_change(text("two"));
    assert!(confirm.has_errors(&password));
    assert_eq!(confirm.error(&password), Some(text("Passwords do not match")));
    confirm.on_change(text("one"));
    assert!(!confirm.has_errors(&password));
    assert_eq!(confirm.value(&password), Some(text("one")));
    password.on_change(text("three"));
    assert!(confirm.has_errors(&password));
}

#[test]
fn confirmation_reads_the_loaded_password_too() {
    let mut password: TextField<String, Password> = Field::text(Password);
    let mut confirm: TextField<String, Confirmation> = Field::text(Confirmation);
    assert!(!confirm.has_errors(&password));
    password.set(text("secret"));
    assert!(confirm.has_errors(&password));
    confirm.set(text("secret"));
    assert!(!confirm.has_errors(&password));
}

#[test]
fn every_label_stands_for_its_method() {
    assert_eq!(from_label(&text("none")), AuthMethod::Open);
    assert_eq!(from_label(&text("wep")), AuthMethod::WEP);
    assert_eq!(from_label(&text("wpa")), AuthMethod::WPA);
    assert_eq!(from_label(&text("wpa2personal")), AuthMethod::WPA2Personal);
    assert_eq!(from_label(&text("wpawpa2personal")), AuthMethod::WPAWPA2Personal);
    assert_eq!(from_label(&text("wpa2enterprise")), AuthMethod::WPA2Enterprise);
    assert_eq!(from_label(&text("wpa3personal")), AuthMethod::WPA3Personal);
    assert_eq!(from_label(&text("wpa2wpa3personal")), AuthMethod::WPA2WPA3Personal);
    assert_eq!(from_label(&text("wapipersonal")), AuthMethod::WAPIPersonal);
}

#[test]
fn unknown_label_stands_for_the_default_method() {
    assert_eq!(from_label(&text("")), AuthMethod::WPA2Personal);
    assert_eq!(from_label(&text("WEP")), AuthMethod::WPA2Personal);
    assert_eq!(from_label(&text("None")), AuthMethod::WPA2Personal);
    assert_eq!(AuthMethod::default(), AuthMethod::WPA2Personal);
}

#[test]
fn authentication_rule_rejects_nothing() {
    assert_eq!(Authentication.validate(&(), text("wep")), Ok(AuthMethod::WEP));
    assert_eq!(Authentication.validate(&(), text("no such method")), Ok(AuthMethod::WPA2Personal));
}

#[test]
fn subnet_text_parses_to_a_subnet() {
    assert_eq!(
        SubnetText.validate(&(), text("10.0.0.0/24")),
        Ok(Subnet { gateway: Ipv4::new(10, 0, 0, 0), mask: 24 })
    );
    assert_eq!(
        SubnetText.validate(&(), text("192.168.71.1/32")),
        Ok(Subnet { gateway: Ipv4::new(192, 168, 71, 1), mask: 32 })
    );
}

#[test]
fn subnet_errors_say_what_is_wrong() {
    assert_eq!(
        SubnetText.validate(&(), text("bad")),
        Err(text("Expected <gateway-ip-address>/<mask>"))
    );
    assert_eq!(
        SubnetText.validate(&(), text("")),
        Err(text("Expected <gateway-ip-address>/<mask>"))
    );
    assert_eq!(
        SubnetText.validate(&(), text("10.0.0.0/24/1")),
        Err(text("Expected <gateway-ip-address>/<mask>"))
    );
    assert_eq!(
        SubnetText.validate(&(), text("10.0.0/24")),
        Err(text("Invalid IP address format, expected XXX.XXX.XXX.XXX"))
    );
    assert_eq!(SubnetText.validate(&(), text("10.0.0.0/x")), Err(text("Invalid subnet mask")));
    assert_eq!(
        SubnetText.validate(&(), text("10.0.0.0/0")),
        Err(text("Mask should be a number between 1 and 32"))
    );
    assert_eq!(
        SubnetText.validate(&(), text("10.0.0.0/33")),
        Err(text("Mask should be a number between 1 and 32"))
    );
}

#[test]
fn address_must_be_dotted_decimal() {
    assert_eq!(Address.validate(&(), text("1.2.3.4")), Ok(Ipv4::new(1, 2, 3, 4)));
    assert_eq!(Address.validate(&(), text("255.255.255.0")), Ok(Ipv4::new(255, 255, 255, 0)));
    assert_eq!(
        Address.validate(&(), text("")),
        Err(text("Invalid IP address format, expected XXX.XXX.XXX.XXX"))
    );
    assert_eq!(
        Address.validate(&(), text("1.2.3")),
        Err(text("Invalid IP address format, expected XXX.XXX.XXX.XXX"))
    );
    assert_eq!(
        Address.validate(&(), text("1.2.3.256")),
        Err(text("Invalid IP address format, expected XXX.XXX.XXX.XXX"))
    );
}

#[test]
fn address_rule_on_a_parsers_answer() {
    assert_eq!(address(Some(Ipv4::new(8, 8, 4, 4))), Ok(Ipv4::new(8, 8, 4, 4)));
    assert_eq!(
        address(None),
        Err(text("Invalid IP address format, expected XXX.XXX.XXX.XXX"))
    );
}

#[test]
fn optional_address_may_be_blank() {
    assert_eq!(OptionalAddress.validate(&(), text("")), Ok(None));
    assert_eq!(OptionalAddress.validate(&(), text("  \t ")), Ok(None));
    assert_eq!(OptionalAddress.validate(&(), text("8.8.8.8")), Ok(Some(Ipv4::new(8, 8, 8, 8))));
}

#[test]
fn optional_address_is_not_trimmed_before_it_is_parsed() {
    assert_eq!(
        OptionalAddress.validate(&(), text(" 8.8.8.8")),
        Err(text("Invalid IP address format, expected XXX.XXX.XXX.XXX"))
    );
    assert_eq!(
        OptionalAddress.validate(&(), text("dns")),
        Err(text("Invalid IP address format, expected XXX.XXX.XXX.XXX"))
    );
}

#[test]
fn blank_texts() {
    assert!(blank(""));
    assert!(blank(" "));
    assert!(blank("\u{00a0}\u{2003}\r\n"));
    assert!(!blank(" a "));
    assert!(!blank("\u{200b}"));
}

#[test]
fn every_octet_is_written_in_decimal_and_read_back() {
    for n in 0..=255u8 {
        let addresses = [
            Ipv4::new(n, 0, 0, 0),
            Ipv4::new(255, n, 1, 9),
            Ipv4::new(10, 20, n, 30),
            Ipv4::new(1, 1, 1, n),
        ];
        for ip in addresses {
            let written = edge_frame::ap_form::render_optional_ipv4(Some(ip));
            assert_eq!(written, format!("{}.{}.{}.{}", ip.a, ip.b, ip.c, ip.d));
            assert_eq!(Address.validate(&(), written.clone()), Ok(ip));
            assert_eq!(OptionalAddress.validate(&(), written), Ok(Some(ip)));
        }
    }
}

#[test]
fn every_mask_length_is_written_in_decimal_and_read_back() {
    for mask in 1..=32u8 {
        let subnet = Subnet { gateway: Ipv4::new(172, 16, 0, mask), mask };
        let conf = edge_frame::config::AccessPointConfiguration {
            ip_conf: Some(edge_frame::config::RouterConfiguration {
                subnet,
                ..edge_frame::config::RouterConfiguration::default()
            }),
            ..edge_frame::config::AccessPointConfiguration::default()
        };
        let mut form = edge_frame::ap_form::ApConfForm::new();
        form.set(&conf);
        assert_eq!(form.subnet.raw_value(), format!("172.16.0.{}/{}", mask, mask));
        assert_eq!(form.subnet.value(&()), Some(subnet));
        assert_eq!(form.get(), Some(conf));
    }
}

#[test]
fn a_mask_out_of_range_is_written_and_not_read_back() {
    for mask in [0u8, 33, 255] {
        let conf = edge_frame::config::AccessPointConfiguration {
            ip_conf: Some(edge_frame::config::RouterConfiguration {
                subnet: Subnet { gateway: Ipv4::new(10, 0, 0, 1), mask },
                ..edge_frame::config::RouterConfiguration::default()
            }),
            ..edge_frame::config::AccessPointConfiguration::default()
        };
        let mut form = edge_frame::ap_form::ApConfForm::new();
        form.set(&conf);
        assert_eq!(form.subnet.raw_value(), format!("10.0.0.1/{}", mask));
        assert_eq!(
            form.subnet.error(&()),
            Some(text("Mask should be a number between 1 and 32"))
        );
        assert!(form.subnet.is_dirty(&()));
        assert_eq!(form.get(), None);
    }
}

#[test]
fn the_mask_is_read_by_the_number_parser() {
    let subnet = Subnet { gateway: Ipv4::new(10, 0, 0, 0), mask: 24 };
    assert_eq!(SubnetText.validate(&(), text("10.0.0.0/+24")), Ok(subnet));
    assert_eq!(SubnetText.validate(&(), text("10.0.0.0/024")), Ok(subnet));
    assert_eq!(SubnetText.validate(&(), text("10.0.0.0/ 24")), Err(text("Invalid subnet mask")));
    assert_eq!(SubnetText.validate(&(), text("10.0.0.0/256")), Err(text("Invalid subnet mask")));
    assert_eq!(SubnetText.validate(&(), text("10.0.0.0/")), Err(text("Invalid subnet mask")));
    assert_eq!(
        SubnetText.validate(&(), text("10.0.0.0/255")),
        Err(text("Mask should be a number between 1 and 32"))
    );
    assert_eq!(
        SubnetText.validate(&(), text("/24")),
        Err(text("Invalid IP address format, expected XXX.XXX.XXX.XXX"))
    );
    assert_eq!(
        SubnetText.validate(&(), text("010.0.0.0/24")),
        Err(text("Invalid IP address format, expected XXX.XXX.XXX.XXX"))
    );
}
